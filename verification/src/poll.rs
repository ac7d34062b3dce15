use vstd::prelude::*;

use crate::model::{snapshot_finished, snapshot_started, StatusSnapshot};

verus! {

/// Outcome of one resolution call against the server: a snapshot, or a
/// failed fetch (the remote lookup error that aborts the whole sequence).
#[derive(Clone, Debug, PartialEq, Eq)]
pub enum Resolution {
    Resolved(StatusSnapshot),
    Failed,
}

/// Where the trigger-and-wait machine stands between resolutions.
///
/// - `Initial`: nothing resolved yet; the next resolution is emitted.
/// - `Dedup`: the first snapshot is out; the next resolution is the
///   deliberate duplicate check and is suppressed from the output.
/// - `Polling`: in the fixed-interval loop; sleep, resolve, emit, and
///   re-evaluate the continuation predicate.
/// - `Trailing`: waiting was requested and is over; one more resolution
///   is emitted unconditionally to capture the authoritative final state.
/// - `Done`: the sequence is complete.
/// - `Aborted`: a resolution failed; the sequence ends with no trailing
///   resolution.
#[derive(Clone, Copy, Debug, PartialEq, Eq, Structural)]
pub enum PollPhase {
    Initial,
    Dedup,
    Polling,
    Trailing,
    Done,
    Aborted,
}

/// How a run of the machine ended: the continuation predicate turned
/// false and the sequence completed, a fetch failed, or the supplied
/// resolutions ran out while the machine still wanted more.
#[derive(Clone, Copy, Debug, PartialEq, Eq, Structural)]
pub enum RunStatus {
    Completed,
    Failed,
    Exhausted,
}

/// Result of one step: the next phase, and the snapshot to emit now, if
/// this resolution is part of the output stream.
#[derive(Clone, Debug, PartialEq, Eq)]
pub struct StepOutcome {
    pub phase: PollPhase,
    pub emit: Option<StatusSnapshot>,
}

/// The continuation predicate of the poll loop: keep polling while a
/// requested start has not been observed or a requested finish has not
/// been observed.
pub open spec fn keeps_polling(s: StatusSnapshot, wait_start: bool, wait_finish: bool) -> bool {
    (wait_start && !snapshot_started(s)) || (wait_finish && !snapshot_finished(s))
}

/// Phase entered after evaluating the continuation predicate on a fresh
/// snapshot: poll again, or stop — with a trailing resolution exactly
/// when some wait was requested.
pub open spec fn phase_after_predicate(
    s: StatusSnapshot,
    wait_start: bool,
    wait_finish: bool,
) -> PollPhase {
    if keeps_polling(s, wait_start, wait_finish) {
        PollPhase::Polling
    } else if wait_start || wait_finish {
        PollPhase::Trailing
    } else {
        PollPhase::Done
    }
}

pub open spec fn phase_is_terminal(phase: PollPhase) -> bool {
    phase is Done || phase is Aborted
}

/// One transition of the trigger-and-wait machine on one resolution.
pub open spec fn step_model(
    phase: PollPhase,
    wait_start: bool,
    wait_finish: bool,
    ev: Resolution,
) -> StepOutcome {
    match ev {
        Resolution::Failed => StepOutcome { phase: PollPhase::Aborted, emit: None },
        Resolution::Resolved(s) => match phase {
            PollPhase::Initial => StepOutcome { phase: PollPhase::Dedup, emit: Some(s) },
            PollPhase::Dedup => StepOutcome {
                phase: phase_after_predicate(s, wait_start, wait_finish),
                emit: None,
            },
            PollPhase::Polling => StepOutcome {
                phase: phase_after_predicate(s, wait_start, wait_finish),
                emit: Some(s),
            },
            PollPhase::Trailing => StepOutcome { phase: PollPhase::Done, emit: Some(s) },
            PollPhase::Done => StepOutcome { phase: PollPhase::Done, emit: None },
            PollPhase::Aborted => StepOutcome { phase: PollPhase::Aborted, emit: None },
        },
    }
}

/// Executable continuation predicate.
pub fn continue_polling(s: &StatusSnapshot, wait_start: bool, wait_finish: bool) -> (r: bool)
    ensures
        r == keeps_polling(*s, wait_start, wait_finish),
{
    (wait_start && !crate::model::started(s)) || (wait_finish && !crate::model::finished(s))
}

/// Drive the machine one resolution forward. Callers perform the sleeps
/// and the actual fetches; the machine decides what to emit and whether
/// to go on.
pub fn poll_step(phase: PollPhase, wait_start: bool, wait_finish: bool, ev: Resolution) -> (o:
    StepOutcome)
    ensures
        o == step_model(phase, wait_start, wait_finish, ev),
{
    match ev {
        Resolution::Failed => StepOutcome { phase: PollPhase::Aborted, emit: None },
        Resolution::Resolved(s) => match phase {
            PollPhase::Initial => StepOutcome { phase: PollPhase::Dedup, emit: Some(s) },
            PollPhase::Dedup => {
                let next = if continue_polling(&s, wait_start, wait_finish) {
                    PollPhase::Polling
                } else if wait_start || wait_finish {
                    PollPhase::Trailing
                } else {
                    PollPhase::Done
                };
                StepOutcome { phase: next, emit: None }
            },
            PollPhase::Polling => {
                let keep = continue_polling(&s, wait_start, wait_finish);
                let next = if keep {
                    PollPhase::Polling
                } else if wait_start || wait_finish {
                    PollPhase::Trailing
                } else {
                    PollPhase::Done
                };
                StepOutcome { phase: next, emit: Some(s) }
            },
            PollPhase::Trailing => StepOutcome { phase: PollPhase::Done, emit: Some(s) },
            PollPhase::Done => StepOutcome { phase: PollPhase::Done, emit: None },
            PollPhase::Aborted => StepOutcome { phase: PollPhase::Aborted, emit: None },
        },
    }
}

/// Before which resolutions the fixed interval is slept: exactly the ones
/// taken inside the poll loop. The two initial resolutions and the
/// trailing one happen immediately.
pub fn sleeps_before_resolve(phase: PollPhase) -> (r: bool)
    ensures
        r == (phase is Polling),
{
    phase == PollPhase::Polling
}

/// Whether the machine wants no further resolution.
pub fn is_terminal(phase: PollPhase) -> (r: bool)
    ensures
        r == phase_is_terminal(phase),
{
    phase == PollPhase::Done || phase == PollPhase::Aborted
}

/// The snapshots emitted by a run of the machine from `phase` over the
/// resolutions `events`, in emission order.
pub open spec fn run_emissions(
    phase: PollPhase,
    events: Seq<Resolution>,
    wait_start: bool,
    wait_finish: bool,
) -> Seq<StatusSnapshot>
    decreases events.len(),
{
    if phase_is_terminal(phase) || events.len() == 0 {
        Seq::empty()
    } else {
        let o = step_model(phase, wait_start, wait_finish, events[0]);
        (match o.emit {
            Some(s) => seq![s],
            None => Seq::empty(),
        }) + run_emissions(o.phase, events.drop_first(), wait_start, wait_finish)
    }
}

/// How a run of the machine from `phase` over `events` ends.
pub open spec fn run_status(
    phase: PollPhase,
    events: Seq<Resolution>,
    wait_start: bool,
    wait_finish: bool,
) -> RunStatus
    decreases events.len(),
{
    if phase is Done {
        RunStatus::Completed
    } else if phase is Aborted {
        RunStatus::Failed
    } else if events.len() == 0 {
        RunStatus::Exhausted
    } else {
        run_status(
            step_model(phase, wait_start, wait_finish, events[0]).phase,
            events.drop_first(),
            wait_start,
            wait_finish,
        )
    }
}

/// The snapshot carried by a successful resolution.
pub open spec fn event_snapshot(ev: Resolution) -> StatusSnapshot {
    match ev {
        Resolution::Resolved(s) => s,
        Resolution::Failed => arbitrary(),
    }
}

/// Every resolution in the sequence succeeded.
pub open spec fn all_resolved(events: Seq<Resolution>) -> bool {
    forall|i: int| 0 <= i < events.len() ==> events[i] is Resolved
}

/// The snapshots of a sequence of successful resolutions, in order.
pub open spec fn snapshots_of(events: Seq<Resolution>) -> Seq<StatusSnapshot> {
    events.map_values(|ev: Resolution| event_snapshot(ev))
}

/// Resolution `j` is the first one (past the suppressed duplicate check,
/// whose index is 1) on which the continuation predicate turns false.
pub open spec fn stops_at(events: Seq<Resolution>, wait_start: bool, wait_finish: bool, j: int) -> bool {
    &&& 1 <= j < events.len()
    &&& !keeps_polling(event_snapshot(events[j]), wait_start, wait_finish)
    &&& forall|m: int| 1 <= m < j ==> keeps_polling(event_snapshot(events[m]), wait_start, wait_finish)
}

/// A run from a terminal phase consumes nothing and emits nothing.
proof fn lemma_run_terminal(phase: PollPhase, events: Seq<Resolution>, ws: bool, wf: bool)
    requires
        phase_is_terminal(phase),
    ensures
        run_emissions(phase, events, ws, wf) == Seq::<StatusSnapshot>::empty(),
        run_status(phase, events, ws, wf) == if phase is Done {
            RunStatus::Completed
        } else {
            RunStatus::Failed
        },
{
}

/// One unfolding of `run_emissions` and `run_status`.
proof fn lemma_run_unfold(phase: PollPhase, events: Seq<Resolution>, ws: bool, wf: bool)
    requires
        !phase_is_terminal(phase),
        events.len() > 0,
    ensures
        run_emissions(phase, events, ws, wf) == (match step_model(phase, ws, wf, events[0]).emit {
            Some(s) => seq![s],
            None => Seq::<StatusSnapshot>::empty(),
        }) + run_emissions(step_model(phase, ws, wf, events[0]).phase, events.drop_first(), ws, wf),
        run_status(phase, events, ws, wf) == run_status(
            step_model(phase, ws, wf, events[0]).phase,
            events.drop_first(),
            ws,
            wf,
        ),
{
}

/// A run that has reached the trailing phase emits exactly the next
/// resolution and completes.
proof fn lemma_trailing_step(events: Seq<Resolution>, ws: bool, wf: bool, t: int)
    requires
        0 <= t < events.len(),
        events[t] is Resolved,
    ensures
        run_status(PollPhase::Trailing, events.skip(t), ws, wf) == RunStatus::Completed,
        run_emissions(PollPhase::Trailing, events.skip(t), ws, wf) == seq![
            event_snapshot(events[t]),
        ],
{
    let tail = events.skip(t);
    assert(tail[0] == events[t]);
    let o = step_model(PollPhase::Trailing, ws, wf, events[t]);
    assert(o.phase == PollPhase::Done);
    lemma_run_unfold(PollPhase::Trailing, tail, ws, wf);
    lemma_run_terminal(PollPhase::Done, tail.drop_first(), ws, wf);
    assert(run_emissions(PollPhase::Trailing, tail, ws, wf) =~= seq![event_snapshot(events[t])]);
}

/// Inside the poll loop with resolution `k` up next: the loop emits the
/// snapshots of resolutions `k ..= j`, then the trailing one, and the run
/// completes.
proof fn lemma_polling_segment(events: Seq<Resolution>, ws: bool, wf: bool, j: int, k: int)
    requires
        ws || wf,
        all_resolved(events),
        events.len() >= j + 2,
        stops_at(events, ws, wf, j),
        2 <= k <= j,
    ensures
        run_status(PollPhase::Polling, events.skip(k), ws, wf) == RunStatus::Completed,
        run_emissions(PollPhase::Polling, events.skip(k), ws, wf) == snapshots_of(
            events.subrange(k, j + 1),
        ) + seq![event_snapshot(events[j + 1])],
    decreases j - k,
{
    let tail = events.skip(k);
    assert(tail[0] == events[k]);
    assert(events[k] is Resolved);
    let s_k = event_snapshot(events[k]);
    let o = step_model(PollPhase::Polling, ws, wf, events[k]);
    lemma_run_unfold(PollPhase::Polling, tail, ws, wf);
    assert(tail.drop_first() =~= events.skip(k + 1));
    if k == j {
        assert(!keeps_polling(s_k, ws, wf));
        assert(o.phase == PollPhase::Trailing);
        lemma_trailing_step(events, ws, wf, j + 1);
        assert(run_emissions(PollPhase::Polling, tail, ws, wf) =~= snapshots_of(
            events.subrange(k, j + 1),
        ) + seq![event_snapshot(events[j + 1])]);
    } else {
        assert(keeps_polling(s_k, ws, wf));
        assert(o.phase == PollPhase::Polling);
        lemma_polling_segment(events, ws, wf, j, k + 1);
        assert(run_emissions(PollPhase::Polling, tail, ws, wf) =~= snapshots_of(
            events.subrange(k, j + 1),
        ) + seq![event_snapshot(events[j + 1])]);
    }
}

/// Snapshot 0 is always produced and always emitted, whatever the wait
/// flags: a run over any resolutions whose first one succeeds starts its
/// output with that first snapshot.
pub proof fn lemma_first_snapshot_always_emitted(events: Seq<Resolution>, ws: bool, wf: bool)
    requires
        events.len() >= 1,
        events[0] is Resolved,
    ensures
        run_emissions(PollPhase::Initial, events, ws, wf).len() >= 1,
        run_emissions(PollPhase::Initial, events, ws, wf)[0] == event_snapshot(events[0]),
{
    let o = step_model(PollPhase::Initial, ws, wf, events[0]);
    assert(o.emit == Some(event_snapshot(events[0])));
    lemma_run_unfold(PollPhase::Initial, events, ws, wf);
}

/// With neither wait flag set, exactly one snapshot — the first — is
/// emitted, the duplicate check at index 1 is resolved but suppressed,
/// and the run completes with no trailing resolution.
pub proof fn lemma_no_wait_emits_exactly_first(events: Seq<Resolution>)
    requires
        events.len() >= 2,
        events[0] is Resolved,
        events[1] is Resolved,
    ensures
        run_status(PollPhase::Initial, events, false, false) == RunStatus::Completed,
        run_emissions(PollPhase::Initial, events, false, false) == seq![
            event_snapshot(events[0]),
        ],
{
    let tail1 = events.drop_first();
    assert(tail1[0] == events[1]);
    let s1 = event_snapshot(events[1]);
    let o1 = step_model(PollPhase::Dedup, false, false, events[1]);
    assert(!keeps_polling(s1, false, false));
    assert(o1.phase == PollPhase::Done);
    lemma_run_unfold(PollPhase::Initial, events, false, false);
    lemma_run_unfold(PollPhase::Dedup, tail1, false, false);
    lemma_run_terminal(PollPhase::Done, tail1.drop_first(), false, false);
    assert(run_emissions(PollPhase::Initial, events, false, false) =~= seq![
        event_snapshot(events[0]),
    ]);
}

/// The shape of every completed waiting run: the emitted sequence is the
/// first snapshot, then the snapshots of resolutions 2 ..= j (where j is
/// the first resolution on which the continuation predicate turned
/// false), then exactly one trailing snapshot. The duplicate check at
/// index 1 is never part of the output.
pub proof fn lemma_trigger_emission_shape(events: Seq<Resolution>, ws: bool, wf: bool, j: int)
    requires
        ws || wf,
        all_resolved(events),
        events.len() >= j + 2,
        stops_at(events, ws, wf, j),
    ensures
        run_status(PollPhase::Initial, events, ws, wf) == RunStatus::Completed,
        run_emissions(PollPhase::Initial, events, ws, wf) == seq![event_snapshot(events[0])]
            + snapshots_of(events.subrange(2, j + 1)) + seq![event_snapshot(events[j + 1])],
{
    let s0 = event_snapshot(events[0]);
    let tail1 = events.drop_first();
    assert(tail1 =~= events.skip(1));
    assert(tail1[0] == events[1]);
    let s1 = event_snapshot(events[1]);
    let o1 = step_model(PollPhase::Dedup, ws, wf, events[1]);
    assert(tail1.drop_first() =~= events.skip(2));
    lemma_run_unfold(PollPhase::Initial, events, ws, wf);
    lemma_run_unfold(PollPhase::Dedup, tail1, ws, wf);
    if j == 1 {
        assert(!keeps_polling(s1, ws, wf));
        assert(o1.phase == PollPhase::Trailing);
        lemma_trailing_step(events, ws, wf, 2);
        assert(run_emissions(PollPhase::Initial, events, ws, wf) =~= seq![s0] + snapshots_of(
            events.subrange(2, j + 1),
        ) + seq![event_snapshot(events[j + 1])]);
    } else {
        assert(keeps_polling(s1, ws, wf));
        assert(o1.phase == PollPhase::Polling);
        lemma_polling_segment(events, ws, wf, j, 2);
        assert(run_emissions(PollPhase::Initial, events, ws, wf) =~= seq![s0] + snapshots_of(
            events.subrange(2, j + 1),
        ) + seq![event_snapshot(events[j + 1])]);
    }
}

/// With `wait_start` set (and `wait_finish` not), the loop stops polling
/// at the first snapshot whose queue item refers to a build, then
/// performs exactly one trailing resolution.
pub proof fn lemma_wait_start_stops_when_running(events: Seq<Resolution>, j: int)
    requires
        all_resolved(events),
        events.len() >= j + 2,
        1 <= j,
        forall|m: int| 1 <= m < j ==> !snapshot_started(event_snapshot(events[m])),
        snapshot_started(event_snapshot(events[j])),
    ensures
        run_status(PollPhase::Initial, events, true, false) == RunStatus::Completed,
        run_emissions(PollPhase::Initial, events, true, false) == seq![event_snapshot(events[0])]
            + snapshots_of(events.subrange(2, j + 1)) + seq![event_snapshot(events[j + 1])],
{
    assert forall|m: int| 1 <= m < j implies keeps_polling(
        event_snapshot(events[m]),
        true,
        false,
    ) by {
        assert(!snapshot_started(event_snapshot(events[m])));
    }
    assert(stops_at(events, true, false, j));
    lemma_trigger_emission_shape(events, true, false, j);
}

/// With `wait_finish` set, the loop does not stop until a snapshot's
/// build carries a settled result; one trailing snapshot then ends the
/// output.
pub proof fn lemma_wait_finish_stops_only_finished(events: Seq<Resolution>, ws: bool, j: int)
    requires
        all_resolved(events),
        events.len() >= j + 2,
        stops_at(events, ws, true, j),
    ensures
        snapshot_finished(event_snapshot(events[j])),
        run_status(PollPhase::Initial, events, ws, true) == RunStatus::Completed,
        run_emissions(PollPhase::Initial, events, ws, true) == seq![event_snapshot(events[0])]
            + snapshots_of(events.subrange(2, j + 1)) + seq![event_snapshot(events[j + 1])],
{
    assert(!keeps_polling(event_snapshot(events[j]), ws, true));
    lemma_trigger_emission_shape(events, ws, true, j);
}

/// Inside the poll loop with resolution `k` up next and a failure coming
/// at `m`: the loop emits the snapshots of resolutions `k .. m` and the
/// run fails.
proof fn lemma_polling_failure_segment(events: Seq<Resolution>, ws: bool, wf: bool, m: int, k: int)
    requires
        0 <= m < events.len(),
        events[m] is Failed,
        forall|i: int| 0 <= i < m ==> events[i] is Resolved,
        forall|i: int| 1 <= i < m ==> keeps_polling(event_snapshot(events[i]), ws, wf),
        2 <= k <= m,
    ensures
        run_status(PollPhase::Polling, events.skip(k), ws, wf) == RunStatus::Failed,
        run_emissions(PollPhase::Polling, events.skip(k), ws, wf) == snapshots_of(
            events.subrange(k, m),
        ),
    decreases m - k,
{
    let tail = events.skip(k);
    assert(tail[0] == events[k]);
    assert(tail.drop_first() =~= events.skip(k + 1));
    lemma_run_unfold(PollPhase::Polling, tail, ws, wf);
    if k == m {
        let o = step_model(PollPhase::Polling, ws, wf, events[m]);
        assert(o.phase == PollPhase::Aborted);
        lemma_run_terminal(PollPhase::Aborted, tail.drop_first(), ws, wf);
        assert(run_emissions(PollPhase::Polling, tail, ws, wf) =~= snapshots_of(
            events.subrange(k, m),
        ));
    } else {
        assert(events[k] is Resolved);
        let s_k = event_snapshot(events[k]);
        let o = step_model(PollPhase::Polling, ws, wf, events[k]);
        assert(keeps_polling(s_k, ws, wf));
        assert(o.phase == PollPhase::Polling);
        lemma_polling_failure_segment(events, ws, wf, m, k + 1);
        assert(run_emissions(PollPhase::Polling, tail, ws, wf) =~= snapshots_of(
            events.subrange(k, m),
        ));
    }
}

/// A failed fetch at resolution `m` ends the run at once: the output is
/// what was emitted before the failure (nothing past resolution `m`, and
/// no trailing resolution), and the run reports failure.
pub proof fn lemma_failure_aborts(events: Seq<Resolution>, ws: bool, wf: bool, m: int)
    requires
        0 <= m < events.len(),
        events[m] is Failed,
        forall|i: int| 0 <= i < m ==> events[i] is Resolved,
        forall|i: int| 1 <= i < m ==> keeps_polling(event_snapshot(events[i]), ws, wf),
    ensures
        run_status(PollPhase::Initial, events, ws, wf) == RunStatus::Failed,
        run_emissions(PollPhase::Initial, events, ws, wf) == if m == 0 {
            Seq::<StatusSnapshot>::empty()
        } else if m == 1 {
            seq![event_snapshot(events[0])]
        } else {
            seq![event_snapshot(events[0])] + snapshots_of(events.subrange(2, m))
        },
{
    if m == 0 {
        let o = step_model(PollPhase::Initial, ws, wf, events[0]);
        assert(o.phase == PollPhase::Aborted);
        lemma_run_unfold(PollPhase::Initial, events, ws, wf);
        lemma_run_terminal(PollPhase::Aborted, events.drop_first(), ws, wf);
        assert(run_emissions(PollPhase::Initial, events, ws, wf) =~= Seq::<
            StatusSnapshot,
        >::empty());
    } else {
        let s0 = event_snapshot(events[0]);
        let tail1 = events.drop_first();
        assert(tail1 =~= events.skip(1));
        assert(tail1[0] == events[1]);
        assert(tail1.drop_first() =~= events.skip(2));
        lemma_run_unfold(PollPhase::Initial, events, ws, wf);
        lemma_run_unfold(PollPhase::Dedup, tail1, ws, wf);
        if m == 1 {
            let o1 = step_model(PollPhase::Dedup, ws, wf, events[1]);
            assert(o1.phase == PollPhase::Aborted);
            lemma_run_terminal(PollPhase::Aborted, tail1.drop_first(), ws, wf);
            assert(run_emissions(PollPhase::Initial, events, ws, wf) =~= seq![s0]);
        } else {
            assert(events[1] is Resolved);
            let s1 = event_snapshot(events[1]);
            let o1 = step_model(PollPhase::Dedup, ws, wf, events[1]);
            assert(keeps_polling(s1, ws, wf));
            assert(o1.phase == PollPhase::Polling);
            lemma_polling_failure_segment(events, ws, wf, m, 2);
            assert(run_emissions(PollPhase::Initial, events, ws, wf) =~= seq![s0]
                + snapshots_of(events.subrange(2, m)));
        }
    }
}

/// A whole run of the machine: what was emitted, and how it ended.
#[derive(Clone, Debug, PartialEq, Eq)]
pub struct TriggerRun {
    pub emitted: Vec<StatusSnapshot>,
    pub status: RunStatus,
}

/// Run the trigger-and-wait machine over a given sequence of resolutions,
/// collecting the emitted snapshots in order. The resolutions are
/// consumed front to back; once the machine reaches a terminal phase the
/// rest are ignored.
pub fn run_trigger(events: Vec<Resolution>, wait_start: bool, wait_finish: bool) -> (r: TriggerRun)
    ensures
        r.emitted@ == run_emissions(PollPhase::Initial, events@, wait_start, wait_finish),
        r.status == run_status(PollPhase::Initial, events@, wait_start, wait_finish),
{
    let ghost all = events@;
    let mut events = events;
    let mut phase = PollPhase::Initial;
    let mut emitted: Vec<StatusSnapshot> = Vec::new();
    while events.len() > 0 && !(phase == PollPhase::Done || phase == PollPhase::Aborted)
        invariant
            run_emissions(PollPhase::Initial, all, wait_start, wait_finish) == emitted@
                + run_emissions(phase, events@, wait_start, wait_finish),
            run_status(PollPhase::Initial, all, wait_start, wait_finish) == run_status(
                phase,
                events@,
                wait_start,
                wait_finish,
            ),
        decreases events.len(),
    {
        let ghost events0 = events@;
        let ghost phase0 = phase;
        let ev = events.remove(0);
        proof {
            assert(events@ =~= events0.drop_first());
        }
        let o = poll_step(phase, wait_start, wait_finish, ev);
        let ghost emitted0 = emitted@;
        match o.emit {
            Some(s) => emitted.push(s),
            None => {},
        }
        phase = o.phase;
        proof {
            let o_spec = step_model(phase0, wait_start, wait_finish, events0[0]);
            assert(run_emissions(phase0, events0, wait_start, wait_finish) == (match o_spec.emit {
                Some(s) => seq![s],
                None => Seq::<StatusSnapshot>::empty(),
            }) + run_emissions(o_spec.phase, events0.drop_first(), wait_start, wait_finish));
            assert(emitted0 + run_emissions(phase0, events0, wait_start, wait_finish) =~= emitted@
                + run_emissions(phase, events@, wait_start, wait_finish));
        }
    }
    let status = if phase == PollPhase::Done {
        RunStatus::Completed
    } else if phase == PollPhase::Aborted {
        RunStatus::Failed
    } else {
        RunStatus::Exhausted
    };
    TriggerRun { emitted, status }
}

} // verus!
