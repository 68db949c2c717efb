//! Scripted discovery streams.
//!
//! A script stands in for the middleware: it answers each command of the
//! discovery loop with what an announced publication would make the
//! middleware return. Replaying a script exercises the loop without a
//! network, and the runs it produces are the ones about which this module
//! proves when the topic is found.

use crate::bootstrap::is_live;
use crate::discovery::{initial, DiscoveryLoop, Event, LoopView, OutOfTurn, Phase, Step, StepView};
use crate::entry::{DiscoveryEntry, EntryView};
use crate::matcher::is_match;
use crate::trace::{
    lemma_found_is_final, lemma_run_concat, lemma_run_push, lemma_steps_concat,
    lemma_steps_push, run, searching, steps,
};
use vstd::prelude::*;

verus! {

/// One announced publication, with what the middleware answers when the
/// loop acts on it.
#[derive(Clone, Debug, PartialEq, Eq)]
pub struct Announcement {
    /// The entry that a take hands out.
    pub entry: DiscoveryEntry,
    /// Status code of an attempt to resolve the type of the entry.
    pub resolve_status: i32,
    /// Handle returned when a topic is created from the resolved type;
    /// negative on failure.
    pub topic_handle: i32,
}

/// Mathematical value of an [`Announcement`].
pub struct AnnouncementView {
    pub entry: EntryView,
    pub resolve_status: i32,
    pub topic_handle: i32,
}

impl View for Announcement {
    type V = AnnouncementView;

    open spec fn view(&self) -> AnnouncementView {
        AnnouncementView {
            entry: self.entry@,
            resolve_status: self.resolve_status,
            topic_handle: self.topic_handle,
        }
    }
}

impl AnnouncementView {
    /// The answers that the announcement has for the loop: a wake, the
    /// entry, the resolution, the creation. The loop takes those it awaits
    /// and refuses the others.
    pub open spec fn script(self) -> Seq<Event> {
        seq![
            Event::Wake(1),
            Event::Take { count: 1, entry: self.entry },
            Event::Resolution(self.resolve_status),
            Event::Creation(self.topic_handle),
        ]
    }

    /// The announcement is valid and its topic name is `target`.
    pub open spec fn names(self, target: Seq<char>) -> bool {
        self.entry.valid_data && is_match(self.entry.topic_name, target)
    }

    /// The type of the announcement resolves to a descriptor.
    pub open spec fn resolves(self) -> bool {
        self.entry.type_info.available() && self.resolve_status == 0
    }

    /// The announcement names `target`, its type resolves, and the topic can
    /// be created.
    pub open spec fn succeeds(self, target: Seq<char>) -> bool {
        self.names(target) && self.resolves() && is_live(self.topic_handle)
    }
}

/// The mathematical values of a stream of announcements.
pub open spec fn stream_view(stream: Seq<Announcement>) -> Seq<AnnouncementView> {
    stream.map_values(|a: Announcement| a@)
}

/// The mathematical values of a sequence of steps.
pub open spec fn step_views(steps: Seq<Step>) -> Seq<StepView> {
    steps.map_values(|s: Step| s@)
}

/// The answers of a whole stream, announcement after announcement.
pub open spec fn script_of(stream: Seq<AnnouncementView>) -> Seq<Event>
    decreases stream.len(),
{
    if stream.len() == 0 {
        seq![]
    } else {
        script_of(stream.drop_last()) + stream.last().script()
    }
}

/// The state of the loop after one announcement is delivered in state `s`.
pub open spec fn deliver(s: LoopView, a: AnnouncementView) -> LoopView {
    run(s, a.script())
}

/// The state of the loop after a stream is played from state `s`.
pub open spec fn play(s: LoopView, stream: Seq<AnnouncementView>) -> LoopView {
    run(s, script_of(stream))
}

/// The loop in state `s` once it has found the topic `handle`.
pub open spec fn found(s: LoopView, handle: i32) -> LoopView {
    LoopView { phase: Phase::Found, topic: handle, ..s }
}

/// Playing a stream is delivering its announcements one after the other.
pub proof fn lemma_play_push(s: LoopView, stream: Seq<AnnouncementView>, a: AnnouncementView)
    ensures
        play(s, stream.push(a)) == deliver(play(s, stream), a),
        play(s, Seq::<AnnouncementView>::empty()) == s,
{
    assert(stream.push(a).drop_last() =~= stream);
    lemma_run_concat(s, script_of(stream), a.script());
}

/// What one announcement does to a loop that is looking for its topic.
///
/// An announcement that names the target, resolves and yields a live topic
/// ends the loop with that topic. One that names the target but fails to
/// resolve, or whose topic cannot be created, sends the loop back to
/// waiting. Any other is passed over, and the loop goes on draining.
pub proof fn lemma_deliver(s: LoopView, a: AnnouncementView)
    requires
        searching(s.phase),
    ensures
        a.succeeds(s.target) ==> deliver(s, a) == found(s, a.topic_handle),
        a.names(s.target) && !a.succeeds(s.target) ==> deliver(s, a) == s.at(Phase::Waiting),
        !a.names(s.target) ==> deliver(s, a) == s.at(Phase::EntryAvailable),
{
    let e = a.script();
    assert(e.drop_last() =~= seq![e[0], e[1], e[2]]);
    assert(e.drop_last().drop_last() =~= seq![e[0], e[1]]);
    assert(e.drop_last().drop_last().drop_last() =~= seq![e[0]]);
    reveal_with_fuel(run, 5);
}

/// A failed resolution is not the end. An announcement that names the
/// target but whose type does not resolve leaves the loop waiting, not
/// found; an announcement that succeeds later is then found.
pub proof fn lemma_retry_after_failed_resolution(
    s: LoopView,
    failed: AnnouncementView,
    retry: AnnouncementView,
)
    requires
        searching(s.phase),
        failed.names(s.target),
        !failed.resolves(),
        retry.succeeds(s.target),
    ensures
        deliver(s, failed).phase == Phase::Waiting,
        deliver(deliver(s, failed), retry) == found(s, retry.topic_handle),
{
    lemma_deliver(s, failed);
    lemma_deliver(deliver(s, failed), retry);
}

/// A stream in which no announcement succeeds leaves the loop looking for
/// its topic, however long the stream is.
pub proof fn lemma_play_without_success(s: LoopView, stream: Seq<AnnouncementView>)
    requires
        searching(s.phase),
        forall|i: int| 0 <= i < stream.len() ==> !(#[trigger] stream[i]).succeeds(s.target),
    ensures
        searching(play(s, stream).phase),
        play(s, stream).target == s.target,
        play(s, stream).topic == s.topic,
    decreases stream.len(),
{
    if stream.len() > 0 {
        let earlier = stream.drop_last();
        lemma_play_without_success(s, earlier);
        assert(stream =~= earlier.push(stream.last()));
        lemma_play_push(s, earlier, stream.last());
        lemma_deliver(play(s, earlier), stream.last());
    }
}

/// A stream of announcements none of which names the target leaves the
/// loop waiting or draining, however long the stream is: the loop does not
/// end.
pub proof fn lemma_play_without_match(target: Seq<char>, stream: Seq<AnnouncementView>)
    requires
        forall|i: int| 0 <= i < stream.len() ==> !(#[trigger] stream[i]).names(target),
    ensures
        searching(play(initial(target), stream).phase),
{
    lemma_play_without_success(initial(target), stream);
}

/// The first announcement that succeeds ends the loop, with its topic;
/// what is announced after it changes nothing.
pub proof fn lemma_play_finds_first_success(
    s: LoopView,
    stream: Seq<AnnouncementView>,
    first: int,
)
    requires
        searching(s.phase),
        0 <= first < stream.len(),
        stream[first].succeeds(s.target),
        forall|i: int| 0 <= i < first ==> !(#[trigger] stream[i]).succeeds(s.target),
    ensures
        play(s, stream) == found(s, stream[first].topic_handle),
    decreases stream.len(),
{
    let earlier = stream.drop_last();
    assert(stream =~= earlier.push(stream.last()));
    lemma_play_push(s, earlier, stream.last());
    if first == stream.len() - 1 {
        lemma_play_without_success(s, earlier);
        lemma_deliver(play(s, earlier), stream.last());
    } else {
        lemma_play_finds_first_success(s, earlier, first);
        lemma_found_is_final(play(s, earlier), stream.last().script());
    }
}

/// A stream with exactly one announcement that names the target, whose
/// type resolves and whose topic can be created, ends the loop: the loop
/// started on this stream finds a live topic, the one of that announcement.
pub proof fn lemma_single_match_is_found(
    target: Seq<char>,
    stream: Seq<AnnouncementView>,
    only: int,
)
    requires
        0 <= only < stream.len(),
        stream[only].names(target),
        stream[only].resolves(),
        is_live(stream[only].topic_handle),
        forall|i: int| 0 <= i < stream.len() && i != only ==> !(#[trigger] stream[i]).names(target),
    ensures
        play(initial(target), stream).phase == Phase::Found,
        play(initial(target), stream).topic == stream[only].topic_handle,
        is_live(play(initial(target), stream).topic),
{
    lemma_play_finds_first_success(initial(target), stream, only);
}

/// Adds the step of an accepted report to the log; a refusal adds nothing.
fn note(log: &mut Vec<Step>, res: Result<Step, OutOfTurn>)
    ensures
        step_views(final(log)@) == match res {
            Ok(step) => step_views(old(log)@).push(step@),
            Err(_) => step_views(old(log)@),
        },
{
    match res {
        Ok(step) => {
            log.push(step);
            assert(step_views(log@) =~= step_views(old(log)@).push(step@));
        },
        Err(_) => {},
    }
}

/// Delivers one announcement to the loop: reports a wake, the entry, the
/// resolution and the creation, in this order. The loop takes the reports
/// that it awaits; the steps it answers them with are added to `log`.
pub fn deliver_to(lp: &mut DiscoveryLoop, a: &Announcement, log: &mut Vec<Step>)
    ensures
        final(lp)@ == deliver(old(lp)@, a@),
        step_views(final(log)@) == step_views(old(log)@) + steps(old(lp)@, a@.script()),
{
    let ghost s = lp@;
    let ghost e = a@.script();
    let ghost none = Seq::<Event>::empty();
    proof {
        lemma_run_push(s, none, e[0]);
        lemma_steps_push(s, none, e[0]);
        lemma_run_push(s, none.push(e[0]), e[1]);
        lemma_steps_push(s, none.push(e[0]), e[1]);
        lemma_run_push(s, none.push(e[0]).push(e[1]), e[2]);
        lemma_steps_push(s, none.push(e[0]).push(e[1]), e[2]);
        lemma_run_push(s, none.push(e[0]).push(e[1]).push(e[2]), e[3]);
        lemma_steps_push(s, none.push(e[0]).push(e[1]).push(e[2]), e[3]);
        assert(e =~= none.push(e[0]).push(e[1]).push(e[2]).push(e[3]));
        assert(step_views(log@) + steps(s, none) =~= step_views(log@));
    }
    let woke = lp.on_wake(1);
    note(log, woke);
    assert(step_views(log@) =~= step_views(old(log)@) + steps(s, none.push(e[0])));
    let took = lp.on_take(1, &a.entry);
    note(log, took);
    assert(step_views(log@) =~= step_views(old(log)@) + steps(s, none.push(e[0]).push(e[1])));
    let resolved = lp.on_resolution(a.resolve_status);
    note(log, resolved);
    assert(step_views(log@) =~= step_views(old(log)@) + steps(
        s,
        none.push(e[0]).push(e[1]).push(e[2]),
    ));
    let created = lp.on_creation(a.topic_handle);
    note(log, created);
    assert(step_views(log@) =~= step_views(old(log)@) + steps(s, e));
}

/// Plays a stream of announcements to the loop, in order, and returns the
/// steps with which the loop answered.
pub fn replay(lp: &mut DiscoveryLoop, stream: &Vec<Announcement>) -> (log: Vec<Step>)
    ensures
        final(lp)@ == play(old(lp)@, stream_view(stream@)),
        step_views(log@) == steps(old(lp)@, script_of(stream_view(stream@))),
{
    let mut log: Vec<Step> = Vec::new();
    let ghost s = lp@;
    let ghost all = stream_view(stream@);
    let mut i: usize = 0;
    assert(step_views(log@) =~= steps(s, script_of(all.take(0))));
    while i < stream.len()
        invariant
            i <= stream.len(),
            all == stream_view(stream@),
            lp@ == play(s, all.take(i as int)),
            step_views(log@) == steps(s, script_of(all.take(i as int))),
        decreases stream.len() - i,
    {
        proof {
            let done = all.take(i as int);
            let next = all.take(i + 1);
            assert(next.drop_last() =~= done);
            assert(next.last() == stream@[i as int]@);
            lemma_run_concat(s, script_of(done), next.last().script());
            lemma_steps_concat(s, script_of(done), next.last().script());
        }
        deliver_to(lp, &stream[i], &mut log);
        i = i + 1;
    }
    assert(all.take(i as int) =~= all);
    log
}

} // verus!
