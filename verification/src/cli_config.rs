use vstd::prelude::*;

use crate::JenkinsInformation;

verus! {

/// One subcommand of the command line, with the arguments it carries.
/// Each carries the template its output lines are rendered through.
#[derive(Clone, Debug, PartialEq, Eq)]
pub enum CommandOpt {
    Search { pattern: String, template: String },
    Job { name: String, template: String },
    Build { name: String, number: Option<u32>, template: String },
    Trigger {
        name: String,
        wait_start: bool,
        wait_finish: bool,
        polling: u64,
        template: String,
    },
    Running { no_queued: bool, template: String },
    Views { pattern: Option<String>, template: String },
    View { name: String, template: String },
}

/// Everything the command line resolves to: the connection parameters
/// and the chosen subcommand.
#[derive(Clone, Debug, PartialEq, Eq)]
pub struct ParamsOpt {
    pub url: String,
    pub user: Option<String>,
    pub password: Option<String>,
    pub depth: u8,
    pub command: CommandOpt,
}

/// One layer of connection settings; every field may be left unset and
/// filled by a lower-priority layer.
#[derive(Clone, Debug, PartialEq, Eq)]
pub struct JenkinsSettings {
    pub url: Option<String>,
    pub user: Option<String>,
    pub password: Option<String>,
    pub depth: Option<u8>,
}

/// Depth requested from the server when none is configured.
pub const DEFAULT_DEPTH: u8 = 1;

/// The higher-priority value when it is set, else the fallback.
pub open spec fn first_some<T>(high: Option<T>, low: Option<T>) -> Option<T> {
    if high is Some {
        high
    } else {
        low
    }
}

impl JenkinsSettings {
    /// The layer with every field unset.
    pub fn empty() -> (r: JenkinsSettings)
        ensures
            r.url is None,
            r.user is None,
            r.password is None,
            r.depth is None,
    {
        JenkinsSettings { url: None, user: None, password: None, depth: None }
    }

    /// Overlay two layers: each field of `self` wins where it is set,
    /// and the fallback fills the rest.
    pub fn overlaid(self, fallback: JenkinsSettings) -> (r: JenkinsSettings)
        ensures
            r.url == first_some(self.url, fallback.url),
            r.user == first_some(self.user, fallback.user),
            r.password == first_some(self.password, fallback.password),
            r.depth == first_some(self.depth, fallback.depth),
    {
        let JenkinsSettings { url, user, password, depth } = self;
        JenkinsSettings {
            url: match url {
                Some(v) => Some(v),
                None => fallback.url,
            },
            user: match user {
                Some(v) => Some(v),
                None => fallback.user,
            },
            password: match password {
                Some(v) => Some(v),
                None => fallback.password,
            },
            depth: match depth {
                Some(v) => Some(v),
                None => fallback.depth,
            },
        }
    }

    /// Connection parameters from a fully layered set of settings, with
    /// the default depth where none was configured. Settings without a
    /// URL name no server: `None`.
    pub fn into_information(self) -> (r: Option<JenkinsInformation>)
        ensures
            r is Some <==> self.url is Some,
            r matches Some(info) ==> {
                &&& Some(info.url) == self.url
                &&& info.user == self.user
                &&& info.password == self.password
                &&& info.depth == first_some(self.depth, Some(DEFAULT_DEPTH))->Some_0
            },
    {
        let JenkinsSettings { url, user, password, depth } = self;
        match url {
            Some(url) => Some(
                JenkinsInformation {
                    url,
                    user,
                    password,
                    depth: match depth {
                        Some(d) => d,
                        None => DEFAULT_DEPTH,
                    },
                },
            ),
            None => None,
        }
    }
}

/// Resolve the four configuration layers in decreasing order of
/// priority: explicit options, environment variables, a configuration
/// file found near the working directory, and one in the home directory.
pub fn resolve_settings(
    options: JenkinsSettings,
    environment: JenkinsSettings,
    project: JenkinsSettings,
    home: JenkinsSettings,
) -> (r: JenkinsSettings)
    ensures
        r.url == first_some(options.url, first_some(environment.url, first_some(project.url, home.url))),
        r.user == first_some(
            options.user,
            first_some(environment.user, first_some(project.user, home.user)),
        ),
        r.password == first_some(
            options.password,
            first_some(environment.password, first_some(project.password, home.password)),
        ),
        r.depth == first_some(
            options.depth,
            first_some(environment.depth, first_some(project.depth, home.depth)),
        ),
{
    options.overlaid(environment.overlaid(project.overlaid(home)))
}

impl ParamsOpt {
    /// Split the parsed command line into the connection parameters and
    /// the subcommand to run.
    pub fn into_parts(self) -> (r: (JenkinsInformation, CommandOpt))
        ensures
            r.0.url == self.url,
            r.0.user == self.user,
            r.0.password == self.password,
            r.0.depth == self.depth,
            r.1 == self.command,
    {
        let ParamsOpt { url, user, password, depth, command } = self;
        (JenkinsInformation { url, user, password, depth }, command)
    }
}

} // verus!
