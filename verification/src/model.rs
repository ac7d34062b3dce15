use vstd::prelude::*;

verus! {

/// Final status of a build, once the server has settled it.
#[derive(Clone, Copy, Debug, PartialEq, Eq, Structural)]
pub enum BuildResult {
    Success,
    Unstable,
    Failure,
    NotBuilt,
    Aborted,
}

/// A concrete, numbered execution of a job, as the server reports it.
/// `timestamp` is the start of the build in epoch milliseconds;
/// `result` stays `None` while the build is still running.
#[derive(Clone, Debug, PartialEq, Eq)]
pub struct BuildInfo {
    pub number: u32,
    pub display_name: String,
    pub full_display_name: Option<String>,
    pub result: Option<BuildResult>,
    pub timestamp: u64,
    pub estimated_duration: i64,
}

/// A pending request to run a job. `why` is present while the request is
/// still waiting; `executable` holds the build number once an executor
/// has picked the request up.
#[derive(Clone, Debug, PartialEq, Eq)]
pub struct QueueItemInfo {
    pub task_name: String,
    pub why: Option<String>,
    pub executable: Option<u32>,
}

/// A build enriched with fields derived at resolution time: `elapsed`
/// (seconds since the build started) and, when the build was found on a
/// live executor rather than through the queue, `progress` and `node`.
#[derive(Clone, Debug, PartialEq, Eq)]
pub struct EnrichedBuild {
    pub build: Option<BuildInfo>,
    pub elapsed: Option<i64>,
    pub progress: Option<u32>,
    pub node: Option<String>,
}

/// The unit yielded by one poll tick: whichever of the queue item and the
/// build is currently resolvable. The three variants make the empty
/// combination unrepresentable.
#[derive(Clone, Debug, PartialEq, Eq)]
pub enum StatusSnapshot {
    QueueOnly { queue_item: QueueItemInfo },
    BuildOnly { build: EnrichedBuild },
    Both { queue_item: QueueItemInfo, build: EnrichedBuild },
}

/// A build currently occupying an executor slot on some node.
#[derive(Clone, Debug, PartialEq, Eq)]
pub struct BuildingOn {
    pub node: String,
    pub progress: u32,
    pub build: Option<BuildInfo>,
}

/// The job has started: the snapshot's queue item refers to a build.
pub open spec fn snapshot_started(s: StatusSnapshot) -> bool {
    match s {
        StatusSnapshot::QueueOnly { queue_item } => queue_item.executable is Some,
        StatusSnapshot::Both { queue_item, .. } => queue_item.executable is Some,
        StatusSnapshot::BuildOnly { .. } => false,
    }
}

/// The job has finished: the snapshot carries a build with a settled result.
pub open spec fn snapshot_finished(s: StatusSnapshot) -> bool {
    match s {
        StatusSnapshot::QueueOnly { .. } => false,
        StatusSnapshot::BuildOnly { build } => enriched_finished(build),
        StatusSnapshot::Both { build, .. } => enriched_finished(build),
    }
}

pub open spec fn enriched_finished(b: EnrichedBuild) -> bool {
    match b.build {
        Some(info) => info.result is Some,
        None => false,
    }
}

/// Executable test for `snapshot_started`.
pub fn started(s: &StatusSnapshot) -> (r: bool)
    ensures
        r == snapshot_started(*s),
{
    match s {
        StatusSnapshot::QueueOnly { queue_item } => queue_item.executable.is_some(),
        StatusSnapshot::Both { queue_item, .. } => queue_item.executable.is_some(),
        StatusSnapshot::BuildOnly { .. } => false,
    }
}

/// Executable test for `snapshot_finished`.
pub fn finished(s: &StatusSnapshot) -> (r: bool)
    ensures
        r == snapshot_finished(*s),
{
    let enriched = match s {
        StatusSnapshot::QueueOnly { .. } => return false,
        StatusSnapshot::BuildOnly { build } => build,
        StatusSnapshot::Both { build, .. } => build,
    };
    match &enriched.build {
        Some(info) => info.result.is_some(),
        None => false,
    }
}

} // verus!
