use jencli::model::{BuildInfo, BuildResult, BuildingOn, QueueItemInfo, StatusSnapshot};
use jencli::snapshot::{
    resolve_from_executor, resolve_from_executor_at, resolve_from_parts, resolve_from_queue_handle,
    resolve_from_raw_queue_item,
};

fn waiting_item() -> QueueItemInfo {
    QueueItemInfo {
        task_name: String::from("build-x"),
        why: Some(String::from("Waiting for next available executor")),
        executable: None,
    }
}

fn started_item() -> QueueItemInfo {
    QueueItemInfo { task_name: String::from("build-x"), why: None, executable: Some(21) }
}

fn build(result: Option<BuildResult>) -> BuildInfo {
    BuildInfo {
        number: 21,
        display_name: String::from("#21"),
        full_display_name: Some(String::from("build-x #21")),
        result,
        timestamp: 5_000,
        estimated_duration: 90_000,
    }
}

#[test]
fn still_queued_gives_a_queue_only_snapshot() {
    let s = resolve_from_parts(waiting_item(), None, 100);
    assert_eq!(s, StatusSnapshot::QueueOnly { queue_item: waiting_item() });
}

#[test]
fn started_gives_both_sides_with_exact_elapsed() {
    // The build started at 5 000 ms = second 5; at second 100 the elapsed
    // time is 95 seconds. Progress and node stay empty on the queue path.
    let s = resolve_from_parts(started_item(), Some(build(None)), 100);
    match s {
        StatusSnapshot::Both { queue_item, build: enriched } => {
            assert_eq!(queue_item, started_item());
            assert_eq!(enriched.build, Some(build(None)));
            assert_eq!(enriched.elapsed, Some(95));
            assert_eq!(enriched.progress, None);
            assert_eq!(enriched.node, None);
        },
        other => panic!("expected a Both snapshot, got {:?}", other),
    }
}

#[test]
fn extreme_times_keep_elapsed_honest() {
    // A start far in the future gives a large negative elapsed time.
    let mut far = build(None);
    far.timestamp = u64::MAX;
    let s = resolve_from_parts(started_item(), Some(far), 100);
    match s {
        StatusSnapshot::Both { build: enriched, .. } => {
            assert_eq!(enriched.elapsed, Some(100 - (u64::MAX / 1000) as i64));
        },
        other => panic!("expected a Both snapshot, got {:?}", other),
    }

    // A difference that cannot be represented leaves elapsed unset.
    let s = resolve_from_parts(started_item(), Some(build(None)), i64::MIN);
    match s {
        StatusSnapshot::Both { build: enriched, .. } => assert_eq!(enriched.elapsed, None),
        other => panic!("expected a Both snapshot, got {:?}", other),
    }
}

#[test]
fn two_resolutions_differ_only_in_elapsed() {
    // The same queue item and build resolved at two different times:
    // every field agrees except the time-derived one.
    let a = resolve_from_parts(started_item(), Some(build(None)), 100);
    let b = resolve_from_parts(started_item(), Some(build(None)), 101);
    match (a, b) {
        (
            StatusSnapshot::Both { queue_item: qa, build: ba },
            StatusSnapshot::Both { queue_item: qb, build: bb },
        ) => {
            assert_eq!(qa, qb);
            assert_eq!(ba.build, bb.build);
            assert_eq!(ba.progress, bb.progress);
            assert_eq!(ba.node, bb.node);
            assert_eq!(ba.elapsed, Some(95));
            assert_eq!(bb.elapsed, Some(96));
        },
        other => panic!("expected two Both snapshots, got {:?}", other),
    }
}

#[test]
fn executor_snapshot_carries_progress_and_node() {
    let on = BuildingOn {
        node: String::from("agent-1"),
        progress: 40,
        build: Some(build(None)),
    };
    let s = resolve_from_executor_at(on, 100);
    match s {
        StatusSnapshot::BuildOnly { build: enriched } => {
            assert_eq!(enriched.build, Some(build(None)));
            assert_eq!(enriched.elapsed, Some(95));
            assert_eq!(enriched.progress, Some(40));
            assert_eq!(enriched.node, Some(String::from("agent-1")));
        },
        other => panic!("expected a BuildOnly snapshot, got {:?}", other),
    }
}

#[test]
fn executor_snapshot_without_build_has_no_elapsed() {
    let on = BuildingOn { node: String::from("agent-2"), progress: 10, build: None };
    let s = resolve_from_executor_at(on, 100);
    match s {
        StatusSnapshot::BuildOnly { build: enriched } => {
            assert_eq!(enriched.build, None);
            assert_eq!(enriched.elapsed, None);
            assert_eq!(enriched.progress, Some(10));
            assert_eq!(enriched.node, Some(String::from("agent-2")));
        },
        other => panic!("expected a BuildOnly snapshot, got {:?}", other),
    }
}

#[test]
fn raw_queue_entry_wraps_to_queue_only() {
    let s = resolve_from_raw_queue_item(waiting_item());
    assert_eq!(s, StatusSnapshot::QueueOnly { queue_item: waiting_item() });
}

#[test]
fn clock_resolution_pins_everything_but_elapsed() {
    // Through the real clock: the shape and every non-derived field are
    // fixed; elapsed exists since the build start is representable and
    // the clock is past the epoch.
    let s = resolve_from_queue_handle(started_item(), Some(build(Some(BuildResult::Success))));
    match s {
        StatusSnapshot::Both { queue_item, build: enriched } => {
            assert_eq!(queue_item, started_item());
            assert_eq!(enriched.build, Some(build(Some(BuildResult::Success))));
            assert_eq!(enriched.progress, None);
            assert_eq!(enriched.node, None);
            let elapsed = enriched.elapsed.expect("clock past the epoch");
            assert!(elapsed > 1_000_000_000);
        },
        other => panic!("expected a Both snapshot, got {:?}", other),
    }

    let s = resolve_from_executor(BuildingOn {
        node: String::from("agent-1"),
        progress: 80,
        build: Some(build(None)),
    });
    match s {
        StatusSnapshot::BuildOnly { build: enriched } => {
            assert_eq!(enriched.progress, Some(80));
            assert_eq!(enriched.node, Some(String::from("agent-1")));
            assert!(enriched.elapsed.expect("clock past the epoch") > 1_000_000_000);
        },
        other => panic!("expected a BuildOnly snapshot, got {:?}", other),
    }
}
