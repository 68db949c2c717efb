//! Runs of the discovery loop: what holds of every sequence of results that
//! a caller may report, in whatever order.

use crate::bootstrap::is_live;
use crate::discovery::{initial, transition, Event, LoopView, Phase, StepView};
use crate::matcher::is_match;
use vstd::prelude::*;

verus! {

/// The state after `event` is reported in state `s`. An event out of turn
/// leaves the state as it is.
pub open spec fn advance(s: LoopView, event: Event) -> LoopView {
    match transition(s, event) {
        Some((next, _)) => next,
        None => s,
    }
}

/// The state after `events` are reported in order, starting from `s`.
pub open spec fn run(s: LoopView, events: Seq<Event>) -> LoopView
    decreases events.len(),
{
    if events.len() == 0 {
        s
    } else {
        advance(run(s, events.drop_last()), events.last())
    }
}

/// The steps that the loop hands out while `events` are reported in order,
/// starting from `s`. Events out of turn yield none.
pub open spec fn steps(s: LoopView, events: Seq<Event>) -> Seq<StepView>
    decreases events.len(),
{
    if events.len() == 0 {
        seq![]
    } else {
        let earlier = steps(s, events.drop_last());
        match transition(run(s, events.drop_last()), events.last()) {
            Some((_, step)) => earlier.push(step),
            None => earlier,
        }
    }
}

/// Whether the loop is still looking for its topic.
pub open spec fn searching(phase: Phase) -> bool {
    phase == Phase::Waiting || phase == Phase::EntryAvailable
}

/// Whether `event` hands the loop a valid entry that names `target`.
pub open spec fn names_target(event: Event, target: Seq<char>) -> bool {
    event matches Event::Take { count, entry } && count > 0 && entry.valid_data && is_match(
        entry.topic_name,
        target,
    )
}

/// Whether reporting `event` in state `s` hands the loop a loan.
pub open spec fn takes_loan(s: LoopView, event: Event) -> bool {
    s.phase == Phase::EntryAvailable && (event matches Event::Take { count, .. } && count > 0)
}

/// Whether reporting `event` in state `s` makes the loop ask for the return
/// of a loan.
pub open spec fn returns_loan(s: LoopView, event: Event) -> bool {
    transition(s, event) matches Some((_, step)) && step.release_loan
}

/// Whether reporting `event` in state `s` hands the loop a descriptor.
pub open spec fn takes_descriptor(s: LoopView, event: Event) -> bool {
    s.phase == Phase::Matched && event == Event::Resolution(0)
}

/// Whether reporting `event` in state `s` makes the loop ask for the release
/// of a descriptor.
pub open spec fn returns_descriptor(s: LoopView, event: Event) -> bool {
    transition(s, event) matches Some((_, step)) && step.release_descriptor
}

/// Whether reporting `event` in state `s` tells the loop that a topic was
/// created.
pub open spec fn creates_topic(s: LoopView, event: Event) -> bool {
    s.phase == Phase::Resolved && (event matches Event::Creation(handle) && is_live(handle))
}

/// Whether a loop in this phase holds the loan of an entry.
pub open spec fn holds_loan(phase: Phase) -> bool {
    phase == Phase::Matched || phase == Phase::Resolved
}

/// Whether a loop in this phase holds a type descriptor.
pub open spec fn holds_descriptor(phase: Phase) -> bool {
    phase == Phase::Resolved
}

/// One if `b`, else zero.
pub open spec fn one_if(b: bool) -> nat {
    if b {
        1
    } else {
        0
    }
}

/// How many of `events`, reported in order from `s`, satisfy `counted` in
/// the state in which they are reported.
pub open spec fn tally(
    s: LoopView,
    events: Seq<Event>,
    counted: spec_fn(LoopView, Event) -> bool,
) -> nat
    decreases events.len(),
{
    if events.len() == 0 {
        0
    } else {
        tally(s, events.drop_last(), counted) + one_if(
            counted(run(s, events.drop_last()), events.last()),
        )
    }
}

/// Loans handed to the loop during a run.
pub open spec fn loans_taken(s: LoopView, events: Seq<Event>) -> nat {
    tally(s, events, |at: LoopView, e: Event| takes_loan(at, e))
}

/// Loans whose return the loop asked for during a run.
pub open spec fn loans_returned(s: LoopView, events: Seq<Event>) -> nat {
    tally(s, events, |at: LoopView, e: Event| returns_loan(at, e))
}

/// Descriptors handed to the loop during a run.
pub open spec fn descriptors_taken(s: LoopView, events: Seq<Event>) -> nat {
    tally(s, events, |at: LoopView, e: Event| takes_descriptor(at, e))
}

/// Descriptors whose release the loop asked for during a run.
pub open spec fn descriptors_returned(s: LoopView, events: Seq<Event>) -> nat {
    tally(s, events, |at: LoopView, e: Event| returns_descriptor(at, e))
}

/// Topics created during a run.
pub open spec fn topics_created(s: LoopView, events: Seq<Event>) -> nat {
    tally(s, events, |at: LoopView, e: Event| creates_topic(at, e))
}

/// Reporting one more event extends a run by one transition.
pub proof fn lemma_run_push(s: LoopView, events: Seq<Event>, event: Event)
    ensures
        run(s, events.push(event)) == advance(run(s, events), event),
{
    assert(events.push(event).drop_last() =~= events);
}

/// Reporting one more event extends the steps by the one it yields, if any.
pub proof fn lemma_steps_push(s: LoopView, events: Seq<Event>, event: Event)
    ensures
        steps(s, events.push(event)) == match transition(run(s, events), event) {
            Some((_, step)) => steps(s, events).push(step),
            None => steps(s, events),
        },
{
    assert(events.push(event).drop_last() =~= events);
}

/// A run over two sequences in a row is the run over the second from where
/// the first ended.
pub proof fn lemma_run_concat(s: LoopView, first: Seq<Event>, second: Seq<Event>)
    ensures
        run(s, first + second) == run(run(s, first), second),
    decreases second.len(),
{
    if second.len() == 0 {
        assert(first + second =~= first);
    } else {
        lemma_run_concat(s, first, second.drop_last());
        assert((first + second).drop_last() =~= first + second.drop_last());
    }
}

/// The steps of a run over two sequences in a row are those of the first,
/// then those of the second from where the first ended.
pub proof fn lemma_steps_concat(s: LoopView, first: Seq<Event>, second: Seq<Event>)
    ensures
        steps(s, first + second) == steps(s, first) + steps(run(s, first), second),
    decreases second.len(),
{
    if second.len() == 0 {
        assert(first + second =~= first);
        assert(steps(s, first) + steps(run(s, first), second) =~= steps(s, first));
    } else {
        let shorter = second.drop_last();
        lemma_steps_concat(s, first, shorter);
        lemma_run_concat(s, first, shorter);
        assert((first + second).drop_last() =~= first + shorter);
        match transition(run(s, first + shorter), second.last()) {
            Some((_, step)) => {
                assert((steps(s, first) + steps(run(s, first), shorter)).push(step) =~= steps(
                    s,
                    first,
                ) + steps(run(s, first), shorter).push(step));
            },
            None => {},
        }
    }
}

/// The loop starts out well-formed.
pub proof fn lemma_initial_wf(target: Seq<char>)
    ensures
        initial(target).wf(),
        initial(target).phase == Phase::Waiting,
{
}

/// Every transition keeps the loop well-formed: it is in its terminal phase
/// exactly when it has a live topic.
pub proof fn lemma_run_keeps_wf(s: LoopView, events: Seq<Event>)
    requires
        s.wf(),
    ensures
        run(s, events).wf(),
    decreases events.len(),
{
    if events.len() > 0 {
        lemma_run_keeps_wf(s, events.drop_last());
    }
}

/// No event changes the target of the loop.
pub proof fn lemma_run_keeps_target(s: LoopView, events: Seq<Event>)
    ensures
        run(s, events).target == s.target,
    decreases events.len(),
{
    if events.len() > 0 {
        lemma_run_keeps_target(s, events.drop_last());
    }
}

/// Once the topic is found, nothing that is reported changes the loop: no
/// second topic is ever created.
pub proof fn lemma_found_is_final(s: LoopView, events: Seq<Event>)
    requires
        s.phase == Phase::Found,
    ensures
        run(s, events) == s,
        steps(s, events) == Seq::<StepView>::empty(),
    decreases events.len(),
{
    if events.len() > 0 {
        lemma_found_is_final(s, events.drop_last());
    }
}

/// At most one topic is created in a run, and the loop has ended exactly
/// when one was.
pub proof fn lemma_at_most_one_topic(s: LoopView, events: Seq<Event>)
    requires
        s.phase != Phase::Found,
    ensures
        topics_created(s, events) == one_if(run(s, events).phase == Phase::Found),
    decreases events.len(),
{
    if events.len() > 0 {
        lemma_at_most_one_topic(s, events.drop_last());
    }
}

/// The loop ends only on the creation of a live topic, reported while the
/// loop holds a resolved descriptor: whatever else is reported, a loop that
/// has not found its topic does not find it.
pub proof fn lemma_ends_only_on_creation(s: LoopView, event: Event)
    requires
        s.phase != Phase::Found,
    ensures
        advance(s, event).phase == Phase::Found <==> creates_topic(s, event),
        s.phase == Phase::Matched && (event matches Event::Resolution(status) && status != 0)
            ==> advance(s, event).phase == Phase::Waiting,
{
}

/// As long as no entry names the target, the loop keeps looking: whatever
/// is reported and in whatever order, it stays waiting or draining, and
/// never reaches a later phase.
pub proof fn lemma_without_match_keeps_searching(s: LoopView, events: Seq<Event>)
    requires
        searching(s.phase),
        forall|i: int| 0 <= i < events.len() ==> !names_target(#[trigger] events[i], s.target),
    ensures
        searching(run(s, events).phase),
    decreases events.len(),
{
    if events.len() > 0 {
        lemma_without_match_keeps_searching(s, events.drop_last());
        lemma_run_keeps_target(s, events.drop_last());
        assert(!names_target(events[events.len() - 1], s.target));
    }
}

/// Every loan is returned exactly once. Over any run, the loans handed to
/// the loop are those it asked to return, plus the one it still holds if it
/// stands between a match and the creation of the topic. The same holds of
/// descriptors, of which the loop holds one only while the topic is being
/// created.
pub proof fn lemma_releases_balance(s: LoopView, events: Seq<Event>)
    ensures
        loans_taken(s, events) + one_if(holds_loan(s.phase)) == loans_returned(s, events)
            + one_if(holds_loan(run(s, events).phase)),
        descriptors_taken(s, events) + one_if(holds_descriptor(s.phase))
            == descriptors_returned(s, events) + one_if(
            holds_descriptor(run(s, events).phase),
        ),
    decreases events.len(),
{
    if events.len() > 0 {
        lemma_releases_balance(s, events.drop_last());
    }
}

/// A loop run from its start that is not between a match and the creation
/// of the topic, and in particular one that has ended, holds nothing: each
/// loan and each descriptor it was handed, it has asked to release.
pub proof fn lemma_nothing_leaks(target: Seq<char>, events: Seq<Event>)
    requires
        !holds_loan(run(initial(target), events).phase),
    ensures
        loans_returned(initial(target), events) == loans_taken(initial(target), events),
        descriptors_returned(initial(target), events) == descriptors_taken(
            initial(target),
            events,
        ),
{
    lemma_releases_balance(initial(target), events);
}

} // verus!
