use vstd::prelude::*;

use crate::model::{BuildInfo, BuildingOn, EnrichedBuild, QueueItemInfo, StatusSnapshot};

verus! {

/// Seconds elapsed between the start of a build (`timestamp_ms`, epoch
/// milliseconds) and `now_secs` (epoch seconds), or `None` when the
/// difference does not fit in an `i64`.
pub open spec fn elapsed_model(timestamp_ms: u64, now_secs: i64) -> Option<i64> {
    let start_secs = timestamp_ms as int / 1000;
    let diff = now_secs as int - start_secs;
    if start_secs <= i64::MAX as int && i64::MIN as int <= diff <= i64::MAX as int {
        Some(diff as i64)
    } else {
        None
    }
}

/// The build side of a snapshot resolved through the queue: the fetched
/// build plus its derived elapsed time; no executor is known on this path.
pub open spec fn enriched_model(info: BuildInfo, now_secs: i64) -> EnrichedBuild {
    EnrichedBuild {
        elapsed: elapsed_model(info.timestamp, now_secs),
        build: Some(info),
        progress: None,
        node: None,
    }
}

/// The snapshot produced by one resolution of a queue handle: the fetched
/// queue item, joined with the fetched build once the item refers to one.
pub open spec fn resolve_model(
    queue: QueueItemInfo,
    build: Option<BuildInfo>,
    now_secs: i64,
) -> StatusSnapshot {
    match build {
        Some(info) => StatusSnapshot::Both {
            queue_item: queue,
            build: enriched_model(info, now_secs),
        },
        None => StatusSnapshot::QueueOnly { queue_item: queue },
    }
}

/// The snapshot produced for a build found on a live executor: build side
/// only, with the executor's node and progress carried over.
pub open spec fn executor_model(on: BuildingOn, now_secs: i64) -> StatusSnapshot {
    StatusSnapshot::BuildOnly {
        build: EnrichedBuild {
            elapsed: match on.build {
                Some(info) => elapsed_model(info.timestamp, now_secs),
                None => None,
            },
            build: on.build,
            progress: Some(on.progress),
            node: Some(on.node),
        },
    }
}

/// The two snapshots agree on every field that is not derived from the
/// clock: only `elapsed` may differ.
pub open spec fn same_except_elapsed(a: StatusSnapshot, b: StatusSnapshot) -> bool {
    match (a, b) {
        (
            StatusSnapshot::QueueOnly { queue_item: qa },
            StatusSnapshot::QueueOnly { queue_item: qb },
        ) => qa == qb,
        (StatusSnapshot::BuildOnly { build: ba }, StatusSnapshot::BuildOnly { build: bb }) => {
            enriched_same_except_elapsed(ba, bb)
        },
        (
            StatusSnapshot::Both { queue_item: qa, build: ba },
            StatusSnapshot::Both { queue_item: qb, build: bb },
        ) => qa == qb && enriched_same_except_elapsed(ba, bb),
        _ => false,
    }
}

pub open spec fn enriched_same_except_elapsed(a: EnrichedBuild, b: EnrichedBuild) -> bool {
    a.build == b.build && a.progress == b.progress && a.node == b.node
}

/// Resolving the same queue item and build at two different times yields
/// snapshots equal in all fields except the time-derived `elapsed`.
pub proof fn lemma_resolution_time_independent(
    queue: QueueItemInfo,
    build: Option<BuildInfo>,
    t1: i64,
    t2: i64,
)
    ensures
        same_except_elapsed(resolve_model(queue, build, t1), resolve_model(queue, build, t2)),
{
}

/// As `lemma_resolution_time_independent`, for the executor path.
pub proof fn lemma_executor_resolution_time_independent(on: BuildingOn, t1: i64, t2: i64)
    ensures
        same_except_elapsed(executor_model(on, t1), executor_model(on, t2)),
{
}

fn compute_elapsed(timestamp_ms: u64, now_secs: i64) -> (r: Option<i64>)
    ensures
        r == elapsed_model(timestamp_ms, now_secs),
{
    let start_ms_to_secs: u64 = timestamp_ms / 1000;
    if start_ms_to_secs <= i64::MAX as u64 {
        now_secs.checked_sub(start_ms_to_secs as i64)
    } else {
        None
    }
}

/// Combine one fetched queue item with, when the item already refers to a
/// build, that fetched build, computing `elapsed` against `now_secs`.
pub fn resolve_from_parts(
    queue: QueueItemInfo,
    build: Option<BuildInfo>,
    now_secs: i64,
) -> (s: StatusSnapshot)
    requires
        queue.executable is Some <==> build is Some,
    ensures
        s == resolve_model(queue, build, now_secs),
{
    match build {
        Some(info) => {
            let elapsed = compute_elapsed(info.timestamp, now_secs);
            StatusSnapshot::Both {
                queue_item: queue,
                build: EnrichedBuild { elapsed, build: Some(info), progress: None, node: None },
            }
        },
        None => StatusSnapshot::QueueOnly { queue_item: queue },
    }
}

/// Wrap a build found on a live executor, computing `elapsed` against
/// `now_secs`; `progress` and `node` come straight from the executor.
pub fn resolve_from_executor_at(on: BuildingOn, now_secs: i64) -> (s: StatusSnapshot)
    ensures
        s == executor_model(on, now_secs),
{
    let elapsed = match &on.build {
        Some(info) => compute_elapsed(info.timestamp, now_secs),
        None => None,
    };
    StatusSnapshot::BuildOnly {
        build: EnrichedBuild {
            elapsed,
            build: on.build,
            progress: Some(on.progress),
            node: Some(on.node),
        },
    }
}

/// Wrap an already-resolved queue entry; such a snapshot has no build side.
pub fn resolve_from_raw_queue_item(queue: QueueItemInfo) -> (s: StatusSnapshot)
    ensures
        s == (StatusSnapshot::QueueOnly { queue_item: queue }),
{
    StatusSnapshot::QueueOnly { queue_item: queue }
}

/// Relies on chrono::Utc::now and chrono::DateTime::timestamp for the
/// current time in whole seconds since the epoch. No claim is made of
/// the reading: callers hold for every value.
#[verifier::external_body]
fn now_epoch_seconds() -> i64 {
    chrono::Utc::now().timestamp()
}

/// As `resolve_from_parts`, with `elapsed` derived from the clock at the
/// moment of the call. Everything except `elapsed` is pinned down.
pub fn resolve_from_queue_handle(queue: QueueItemInfo, build: Option<BuildInfo>) -> (s:
    StatusSnapshot)
    requires
        queue.executable is Some <==> build is Some,
    ensures
        same_except_elapsed(s, resolve_model(queue, build, 0)),
{
    let ghost queue0 = queue;
    let ghost build0 = build;
    let now = now_epoch_seconds();
    let s = resolve_from_parts(queue, build, now);
    proof {
        lemma_resolution_time_independent(queue0, build0, now, 0);
    }
    s
}

/// As `resolve_from_executor_at`, with `elapsed` derived from the clock at
/// the moment of the call.
pub fn resolve_from_executor(on: BuildingOn) -> (s: StatusSnapshot)
    ensures
        same_except_elapsed(s, executor_model(on, 0)),
{
    let ghost on0 = on;
    let now = now_epoch_seconds();
    let s = resolve_from_executor_at(on, now);
    proof {
        lemma_executor_resolution_time_independent(on0, now, 0);
    }
    s
}

} // verus!
