pub mod cli_config;
pub mod executors;
pub mod model;
pub mod poll;
pub mod render;
pub mod search;
pub mod snapshot;

use vstd::prelude::*;

verus! {

/// Connection parameters for a build server: where it is and how to
/// authenticate, plus how much detail each fetch should request.
#[derive(Debug, Clone)]
pub struct JenkinsInformation {
    pub url: String,
    pub user: Option<String>,
    pub password: Option<String>,
    pub depth: u8,
}

} // verus!
