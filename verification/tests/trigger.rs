use jencli::model::{BuildInfo, BuildResult, QueueItemInfo, StatusSnapshot};
use jencli::poll::{
    is_terminal, poll_step, run_trigger, sleeps_before_resolve, PollPhase, Resolution, RunStatus,
    StepOutcome,
};
use jencli::snapshot::resolve_from_parts;

fn queued(why: &str) -> StatusSnapshot {
    resolve_from_parts(
        QueueItemInfo {
            task_name: String::from("build-x"),
            why: Some(String::from(why)),
            executable: None,
        },
        None,
        100,
    )
}

fn build(result: Option<BuildResult>) -> BuildInfo {
    BuildInfo {
        number: 7,
        display_name: String::from("#7"),
        full_display_name: Some(String::from("build-x #7")),
        result,
        timestamp: 5_000,
        estimated_duration: 60_000,
    }
}

fn running(now: i64) -> StatusSnapshot {
    resolve_from_parts(
        QueueItemInfo {
            task_name: String::from("build-x"),
            why: None,
            executable: Some(7),
        },
        Some(build(None)),
        now,
    )
}

fn done(now: i64) -> StatusSnapshot {
    resolve_from_parts(
        QueueItemInfo {
            task_name: String::from("build-x"),
            why: None,
            executable: Some(7),
        },
        Some(build(Some(BuildResult::Success))),
        now,
    )
}

#[test]
fn no_wait_emits_exactly_one_line() {
    // Triggering with neither wait flag set: one resolution is shown, the
    // duplicate check is resolved but suppressed, and the run ends.
    let events = vec![
        Resolution::Resolved(queued("just triggered")),
        Resolution::Resolved(queued("just triggered")),
    ];
    let run = run_trigger(events, false, false);
    assert_eq!(run.status, RunStatus::Completed);
    assert_eq!(run.emitted, vec![queued("just triggered")]);
}

#[test]
fn no_wait_ignores_later_resolutions() {
    let events = vec![
        Resolution::Resolved(queued("a")),
        Resolution::Resolved(queued("b")),
        Resolution::Resolved(running(100)),
        Resolution::Resolved(done(100)),
    ];
    let run = run_trigger(events, false, false);
    assert_eq!(run.status, RunStatus::Completed);
    assert_eq!(run.emitted, vec![queued("a")]);
}

#[test]
fn first_snapshot_emitted_under_every_flag_combination() {
    for &(ws, wf) in &[(false, false), (true, false), (false, true), (true, true)] {
        let events = vec![
            Resolution::Resolved(queued("first")),
            Resolution::Resolved(queued("second")),
            Resolution::Resolved(done(100)),
            Resolution::Resolved(done(101)),
            Resolution::Resolved(done(102)),
        ];
        let run = run_trigger(events, ws, wf);
        assert!(run.emitted.len() >= 1);
        assert_eq!(run.emitted[0], queued("first"));
    }
}

#[test]
fn wait_start_three_lines_for_queued_queued_running() {
    // Server reports Queued, Queued, Running on the three first
    // resolutions: the output is the first snapshot, the running one,
    // and one trailing resolution — the duplicate at index 1 never shows.
    let events = vec![
        Resolution::Resolved(queued("tick0")),
        Resolution::Resolved(queued("tick1")),
        Resolution::Resolved(running(102)),
        Resolution::Resolved(running(103)),
    ];
    let run = run_trigger(events, true, false);
    assert_eq!(run.status, RunStatus::Completed);
    assert_eq!(run.emitted, vec![queued("tick0"), running(102), running(103)]);
    assert!(!run.emitted.contains(&queued("tick1")));
}

#[test]
fn wait_start_already_running_at_duplicate_check() {
    // The duplicate check already sees the build: the loop never runs,
    // and only the trailing resolution follows the first snapshot.
    let events = vec![
        Resolution::Resolved(queued("tick0")),
        Resolution::Resolved(running(101)),
        Resolution::Resolved(running(102)),
    ];
    let run = run_trigger(events, true, false);
    assert_eq!(run.status, RunStatus::Completed);
    assert_eq!(run.emitted, vec![queued("tick0"), running(102)]);
}

#[test]
fn wait_finish_polls_until_result_then_trails() {
    let events = vec![
        Resolution::Resolved(queued("tick0")),
        Resolution::Resolved(queued("tick1")),
        Resolution::Resolved(running(102)),
        Resolution::Resolved(running(103)),
        Resolution::Resolved(done(104)),
        Resolution::Resolved(done(105)),
    ];
    let run = run_trigger(events, false, true);
    assert_eq!(run.status, RunStatus::Completed);
    assert_eq!(
        run.emitted,
        vec![queued("tick0"), running(102), running(103), done(104), done(105)]
    );
}

#[test]
fn fetch_failure_stops_the_run_with_no_trailing_resolution() {
    // A fetch fails on the fourth resolution of an unbounded wait_finish
    // loop: the run ends at once, after the lines already emitted.
    let events = vec![
        Resolution::Resolved(queued("tick0")),
        Resolution::Resolved(queued("tick1")),
        Resolution::Resolved(running(102)),
        Resolution::Failed,
        Resolution::Resolved(done(104)),
    ];
    let run = run_trigger(events, false, true);
    assert_eq!(run.status, RunStatus::Failed);
    assert_eq!(run.emitted, vec![queued("tick0"), running(102)]);
}

#[test]
fn failure_on_first_resolution_emits_nothing() {
    let run = run_trigger(vec![Resolution::Failed], true, true);
    assert_eq!(run.status, RunStatus::Failed);
    assert!(run.emitted.is_empty());
}

#[test]
fn running_out_of_resolutions_reports_exhaustion() {
    let events = vec![
        Resolution::Resolved(queued("tick0")),
        Resolution::Resolved(queued("tick1")),
    ];
    let run = run_trigger(events, false, true);
    assert_eq!(run.status, RunStatus::Exhausted);
    assert_eq!(run.emitted, vec![queued("tick0")]);
}

#[test]
fn step_machine_emits_and_sleeps_as_the_phases_say() {
    // Initial resolution: emitted, no sleep beforehand.
    assert!(!sleeps_before_resolve(PollPhase::Initial));
    let StepOutcome { phase, emit } = poll_step(
        PollPhase::Initial,
        true,
        false,
        Resolution::Resolved(queued("t0")),
    );
    assert_eq!(phase, PollPhase::Dedup);
    assert_eq!(emit, Some(queued("t0")));

    // Duplicate check: suppressed, still queued so the loop starts.
    assert!(!sleeps_before_resolve(PollPhase::Dedup));
    let StepOutcome { phase, emit } =
        poll_step(phase, true, false, Resolution::Resolved(queued("t1")));
    assert_eq!(phase, PollPhase::Polling);
    assert_eq!(emit, None);

    // Loop resolutions are preceded by the interval sleep.
    assert!(sleeps_before_resolve(PollPhase::Polling));
    let StepOutcome { phase, emit } =
        poll_step(phase, true, false, Resolution::Resolved(running(102)));
    assert_eq!(phase, PollPhase::Trailing);
    assert_eq!(emit, Some(running(102)));

    // Trailing resolution: emitted immediately, then the machine stops.
    assert!(!sleeps_before_resolve(PollPhase::Trailing));
    let StepOutcome { phase, emit } =
        poll_step(phase, true, false, Resolution::Resolved(running(103)));
    assert_eq!(phase, PollPhase::Done);
    assert_eq!(emit, Some(running(103)));
    assert!(is_terminal(phase));
    assert!(!is_terminal(PollPhase::Polling));
}
