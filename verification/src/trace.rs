//! Runs of the shutdown coordinator: what holds of every sequence of events
//! that a driver may report, in any order and with any repetition.

use vstd::prelude::*;
use crate::shutdown::{
    next_state, pending, reaction, source_of, Action, Event, Phase, State, Trigger,
};

verus! {

/// The state reached from `s` once the events of `trace` have been reported in order.
pub open spec fn run(s: State, trace: Seq<Event>) -> State
    decreases trace.len(),
{
    if trace.len() == 0 {
        s
    } else {
        next_state(run(s, trace.drop_last()), trace.last())
    }
}

/// How far a phase is from the start.
pub open spec fn rank(phase: Phase) -> nat {
    match phase {
        Phase::Running => 0,
        Phase::ShutdownRequested => 1,
        Phase::Draining => 2,
        Phase::Exited => 3,
    }
}

/// Whether `event` reports that a trigger fired which is armed in `s`.
pub open spec fn is_armed_trigger(s: State, event: Event) -> bool {
    match event {
        Event::TriggerFired(trigger) => source_of(s, trigger) is Armed,
        _ => false,
    }
}

/// Whether `trace` holds, in this order and not necessarily side by side, an
/// armed trigger firing, the notice being logged, and the drain window elapsing.
pub open spec fn drains_in_order(s: State, trace: Seq<Event>) -> bool {
    exists|i: int, j: int, k: int|
        #![trigger trace[i], trace[j], trace[k]]
        0 <= i < j < k < trace.len() && is_armed_trigger(s, trace[i]) && trace[j]
            == Event::NoticeLogged && trace[k] == Event::DrainElapsed
}

/// The work of a whole shutdown, in the order in which it is done: the notice,
/// the sleep through the drain window, and the return to the serve loop.
pub open spec fn plan(s: State) -> Seq<Action> {
    seq![
        Action::LogNotice { drain_secs: s.drain_secs },
        Action::Sleep { secs: s.drain_secs },
        Action::Return,
    ]
}

/// The work that the coordinator asks for while the events of `trace` are
/// reported from state `s`, in the order in which it asks. Requests to give
/// up are left aside: they are no work.
pub open spec fn work(s: State, trace: Seq<Event>) -> Seq<Action>
    decreases trace.len(),
{
    if trace.len() == 0 {
        Seq::empty()
    } else {
        let earlier = work(s, trace.drop_last());
        match reaction(run(s, trace.drop_last()), trace.last()) {
            Some(action) => if action is Abort {
                earlier
            } else {
                earlier.push(action)
            },
            None => earlier,
        }
    }
}

/// Reporting events never changes the drain window or the source of the
/// termination request.
pub proof fn lemma_run_keeps_settings(s: State, trace: Seq<Event>)
    ensures
        run(s, trace).drain_secs == s.drain_secs,
        run(s, trace).terminate == s.terminate,
    decreases trace.len(),
{
    if trace.len() > 0 {
        lemma_run_keeps_settings(s, trace.drop_last());
    }
}

/// The phases are passed in one direction: no run leads back to an earlier phase.
pub proof fn lemma_phases_never_go_back(s: State, trace: Seq<Event>)
    ensures
        rank(s.phase) <= rank(run(s, trace).phase),
    decreases trace.len(),
{
    if trace.len() > 0 {
        lemma_phases_never_go_back(s, trace.drop_last());
    }
}

/// A run over two traces, one after the other, is the run over the second
/// from where the first one ends.
pub proof fn lemma_run_concat(s: State, first: Seq<Event>, second: Seq<Event>)
    ensures
        run(s, first + second) == run(run(s, first), second),
    decreases second.len(),
{
    if second.len() == 0 {
        assert(first + second =~= first);
    } else {
        lemma_run_concat(s, first, second.drop_last());
        assert((first + second).drop_last() =~= first + second.drop_last());
        assert((first + second).last() == second.last());
    }
}

/// Whatever is reported, however often and in whatever order, the work asked
/// for is the plan's, piece by piece and in the plan's order, from the phase
/// in which the run starts up to the phase in which it ends. No piece is
/// asked for twice, none is skipped, and none comes early.
pub proof fn lemma_work_follows_plan(s: State, trace: Seq<Event>)
    ensures
        rank(s.phase) <= rank(run(s, trace).phase),
        work(s, trace) == plan(s).subrange(
            rank(s.phase) as int,
            rank(run(s, trace).phase) as int,
        ),
    decreases trace.len(),
{
    if trace.len() == 0 {
        assert(work(s, trace) =~= plan(s).subrange(rank(s.phase) as int, rank(s.phase) as int));
    } else {
        let shorter = trace.drop_last();
        lemma_work_follows_plan(s, shorter);
        lemma_run_keeps_settings(s, shorter);
        let from = rank(s.phase) as int;
        let mid = rank(run(s, shorter).phase) as int;
        let to = rank(run(s, trace).phase) as int;
        if to == mid {
            assert(work(s, trace) == work(s, shorter));
        } else {
            assert(work(s, trace) == work(s, shorter).push(plan(s)[mid]));
            assert(plan(s).subrange(from, mid).push(plan(s)[mid]) =~= plan(s).subrange(from, to));
        }
    }
}

/// Either trigger alone ends the wait, provided it is armed: the two are
/// raced, not joined.
pub proof fn lemma_first_trigger_resolves(s: State, trigger: Trigger)
    requires
        s.phase is Running,
        source_of(s, trigger) is Armed,
    ensures
        next_state(s, Event::TriggerFired(trigger)).phase is ShutdownRequested,
        reaction(s, Event::TriggerFired(trigger)) == Some(
            Action::LogNotice { drain_secs: s.drain_secs },
        ),
{
}

/// The shutdown is single-shot. Once the wait for a trigger is over, a
/// trigger that fires changes nothing and asks for nothing, and it makes no
/// difference to any later run, wherever in that run it is reported: the run
/// ends in the same state, and the same work is asked for along it.
pub proof fn lemma_later_trigger_has_no_effect(
    s: State,
    trace: Seq<Event>,
    at: int,
    trigger: Trigger,
)
    requires
        !(s.phase is Running),
        0 <= at <= trace.len(),
    ensures
        next_state(s, Event::TriggerFired(trigger)) == s,
        reaction(s, Event::TriggerFired(trigger)) is None,
        run(s, trace.insert(at, Event::TriggerFired(trigger))) == run(s, trace),
        work(s, trace.insert(at, Event::TriggerFired(trigger))) == work(s, trace),
{
    let fired = Event::TriggerFired(trigger);
    let before = trace.subrange(0, at);
    let after = trace.subrange(at, trace.len() as int);
    let mid = run(s, before);
    lemma_phases_never_go_back(s, before);
    assert(next_state(mid, fired) == mid);
    assert(run(mid, seq![fired]) == mid) by {
        assert(seq![fired].drop_last() =~= Seq::<Event>::empty());
        assert(run(mid, Seq::<Event>::empty()) == mid);
    }
    assert(trace.insert(at, fired) =~= (before + seq![fired]) + after);
    assert(trace =~= before + after);
    lemma_run_concat(s, before + seq![fired], after);
    lemma_run_concat(s, before, seq![fired]);
    lemma_run_concat(s, before, after);
    lemma_work_follows_plan(s, trace.insert(at, fired));
    lemma_work_follows_plan(s, trace);
}

/// The order of a shutdown is kept by every run: the coordinator has left
/// `Running` only if an armed trigger fired, it is past the notice only if
/// the notice was logged after that, and it is `Exited` only if the drain
/// window elapsed after the notice.
pub proof fn lemma_exit_only_after_drain(s: State, trace: Seq<Event>)
    requires
        s.phase is Running,
    ensures
        rank(run(s, trace).phase) >= 1 ==> exists|i: int|
            0 <= i < trace.len() && is_armed_trigger(s, #[trigger] trace[i]),
        rank(run(s, trace).phase) >= 2 ==> exists|i: int, j: int|
            #![trigger trace[i], trace[j]]
            0 <= i < j < trace.len() && is_armed_trigger(s, trace[i]) && trace[j]
                == Event::NoticeLogged,
        run(s, trace).phase is Exited ==> drains_in_order(s, trace),
    decreases trace.len(),
{
    if trace.len() > 0 {
        let shorter = trace.drop_last();
        let last = trace.last();
        let n = shorter.len() as int;
        let prev = run(s, shorter);
        lemma_exit_only_after_drain(s, shorter);
        lemma_run_keeps_settings(s, shorter);
        assert(trace[n] == last);
        assert(forall|i: int| 0 <= i < n ==> shorter[i] == trace[i]);
        if rank(prev.phase) >= 1 {
            let i = choose|i: int| 0 <= i < n && is_armed_trigger(s, #[trigger] shorter[i]);
            assert(is_armed_trigger(s, trace[i]));
        } else if rank(run(s, trace).phase) >= 1 {
            assert(is_armed_trigger(s, trace[n]));
        }
        if rank(prev.phase) >= 2 {
            let (i, j) = choose|i: int, j: int|
                #![trigger shorter[i], shorter[j]]
                0 <= i < j < n && is_armed_trigger(s, shorter[i]) && shorter[j]
                    == Event::NoticeLogged;
            assert(is_armed_trigger(s, trace[i]) && trace[j] == Event::NoticeLogged);
        } else if rank(run(s, trace).phase) >= 2 {
            let i = choose|i: int| 0 <= i < n && is_armed_trigger(s, #[trigger] shorter[i]);
            assert(is_armed_trigger(s, trace[i]) && trace[n] == Event::NoticeLogged);
        }
        if prev.phase is Exited {
            let (i, j, k) = choose|i: int, j: int, k: int|
                #![trigger shorter[i], shorter[j], shorter[k]]
                0 <= i < j < k < n && is_armed_trigger(s, shorter[i]) && shorter[j]
                    == Event::NoticeLogged && shorter[k] == Event::DrainElapsed;
            assert(is_armed_trigger(s, trace[i]) && trace[j] == Event::NoticeLogged && trace[k]
                == Event::DrainElapsed);
        } else if run(s, trace).phase is Exited {
            let (i, j) = choose|i: int, j: int|
                #![trigger shorter[i], shorter[j]]
                0 <= i < j < n && is_armed_trigger(s, shorter[i]) && shorter[j]
                    == Event::NoticeLogged;
            assert(is_armed_trigger(s, trace[i]) && trace[j] == Event::NoticeLogged && trace[n]
                == Event::DrainElapsed);
        }
    }
}

/// The drain window is the configured one, at whatever point of whatever run
/// it is announced or slept through, and a window of zero seconds is passed on
/// as zero.
pub proof fn lemma_drain_window_is_configured(s: State, trace: Seq<Event>, event: Event)
    ensures
        reaction(run(s, trace), event) matches Some(Action::LogNotice { drain_secs })
            ==> drain_secs == s.drain_secs,
        reaction(run(s, trace), event) matches Some(Action::Sleep { secs }) ==> secs
            == s.drain_secs,
        pending(run(s, trace)) matches Action::LogNotice { drain_secs } ==> drain_secs
            == s.drain_secs,
        pending(run(s, trace)) matches Action::Sleep { secs } ==> secs == s.drain_secs,
{
    lemma_run_keeps_settings(s, trace);
    lemma_run_keeps_settings(s, trace.push(event));
    assert(trace.push(event).drop_last() =~= trace);
}

/// Control goes back to the serve loop only when the sleep through the drain
/// window has returned, and not before.
pub proof fn lemma_return_follows_sleep(s: State, event: Event)
    ensures
        reaction(s, event) == Some(Action::Return) <==> s.phase is Draining && event
            == Event::DrainElapsed,
        pending(s) == Action::Return <==> s.phase is Exited,
{
}

/// Where the platform has no termination request, the race is run with the
/// interrupt alone: as long as no interrupt fires, the coordinator keeps running.
pub proof fn lemma_unarmed_terminate_never_resolves(s: State, trace: Seq<Event>)
    requires
        s.phase is Running,
        s.terminate is NeverFires,
        forall|i: int|
            0 <= i < trace.len() ==> #[trigger] trace[i] != Event::TriggerFired(
                Trigger::Interrupt,
            ),
    ensures
        run(s, trace) == s,
    decreases trace.len(),
{
    if trace.len() > 0 {
        let shorter = trace.drop_last();
        assert(forall|i: int| 0 <= i < shorter.len() ==> shorter[i] == trace[i]);
        lemma_unarmed_terminate_never_resolves(s, shorter);
        assert(trace.last() == trace[trace.len() - 1]);
    }
}

/// An armed trigger, the notice and the end of the drain window, reported in
/// this order, take a running coordinator to `Exited`, whatever the drain window.
pub proof fn lemma_shutdown_completes(s: State, trigger: Trigger)
    requires
        s.phase is Running,
        source_of(s, trigger) is Armed,
    ensures
        run(
            s,
            seq![Event::TriggerFired(trigger), Event::NoticeLogged, Event::DrainElapsed],
        ).phase is Exited,
{
    let trace = seq![Event::TriggerFired(trigger), Event::NoticeLogged, Event::DrainElapsed];
    let two = seq![Event::TriggerFired(trigger), Event::NoticeLogged];
    let one = seq![Event::TriggerFired(trigger)];
    assert(trace.drop_last() =~= two);
    assert(two.drop_last() =~= one);
    assert(one.drop_last() =~= Seq::<Event>::empty());
    assert(run(s, Seq::<Event>::empty()) == s);
    assert(run(s, one).phase is ShutdownRequested);
    assert(run(s, two).phase is Draining);
}

} // verus!
