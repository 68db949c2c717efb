//! Topic discovery loop.
//!
//! The loop is a state machine that its caller drives. The caller performs
//! the command that the loop awaits, reports what the middleware returned,
//! and receives a [`Step`]: what to log, what to release, and the next
//! command. The loop ends when a publication on the target topic has been
//! seen, its type descriptor resolved, and the topic created from it.
//! Nothing else ends it: every failure on the way sends it back to waiting.

use crate::bootstrap::is_live;
use crate::entry::{next_entry, taken, DiscoveryEntry, EntryView, Taken};
use crate::matcher::match_outcome;
use crate::report::Report;
use crate::resolver::{
    attempt_outcome, conclude, plan, plan_outcome, standard_request, FindScope, ResolveRequest,
    RESOLVE_TIMEOUT_NS,
};
use vstd::prelude::*;
use vstd::string::*;

verus! {

/// Where the loop stands.
#[derive(Clone, Copy, Debug, PartialEq, Eq, Structural)]
pub enum Phase {
    /// Blocked until there is discovery activity.
    Waiting,
    /// Draining the discovery feed, one entry at a time.
    EntryAvailable,
    /// An entry names the target topic; its type is being resolved. The
    /// loop holds the entry's loan.
    Matched,
    /// The descriptor is resolved; the topic is being created. The loop
    /// holds the entry's loan and the descriptor.
    Resolved,
    /// The topic exists. Terminal.
    Found,
}

/// The call into the middleware that the loop awaits the result of.
#[derive(Clone, Debug, PartialEq, Eq)]
pub enum Command {
    /// Block, without timeout, until there is discovery activity.
    Wait,
    /// Take at most one entry from the discovery feed, without blocking.
    Take,
    /// Resolve the type descriptor of the entry in hand.
    Resolve(ResolveRequest),
    /// Create the topic of this name from the resolved descriptor.
    CreateTopic { name: String },
    /// Tear down the discovery reader and the wait primitive; the loop is
    /// over and this is its topic.
    Finish { topic: i32 },
}

/// Mathematical value of a [`Command`].
pub enum CommandView {
    Wait,
    Take,
    Resolve(ResolveRequest),
    CreateTopic { name: Seq<char> },
    Finish { topic: i32 },
}

impl View for Command {
    type V = CommandView;

    open spec fn view(&self) -> CommandView {
        match self {
            Command::Wait => CommandView::Wait,
            Command::Take => CommandView::Take,
            Command::Resolve(request) => CommandView::Resolve(*request),
            Command::CreateTopic { name } => CommandView::CreateTopic { name: name@ },
            Command::Finish { topic } => CommandView::Finish { topic: *topic },
        }
    }
}

/// What the caller does after reporting a result, in this order: log the
/// reports, release the descriptor, return the loan, perform the command.
#[derive(Clone, Debug, PartialEq, Eq)]
pub struct Step {
    /// Conditions to log, oldest first.
    pub reports: Vec<Report>,
    /// Release the type descriptor obtained by the last resolution.
    pub release_descriptor: bool,
    /// Return the loan of the entry taken last.
    pub release_loan: bool,
    /// The call to make next.
    pub command: Command,
}

/// Mathematical value of a [`Step`].
pub struct StepView {
    pub reports: Seq<Report>,
    pub release_descriptor: bool,
    pub release_loan: bool,
    pub command: CommandView,
}

impl View for Step {
    type V = StepView;

    open spec fn view(&self) -> StepView {
        StepView {
            reports: self.reports@,
            release_descriptor: self.release_descriptor,
            release_loan: self.release_loan,
            command: self.command@,
        }
    }
}

/// A result was reported that the loop was not awaiting. The loop is left as
/// it was.
#[derive(Clone, Copy, Debug, PartialEq, Eq, Structural)]
pub struct OutOfTurn {
    /// The phase in which the loop stands.
    pub phase: Phase,
}

/// What the middleware returned to one command.
pub enum Event {
    /// The wait returned this count of triggered conditions, or a negative
    /// status code.
    Wake(i32),
    /// The take returned this count of entries, or a negative status code,
    /// and filled in this entry if the count is positive.
    Take { count: i32, entry: EntryView },
    /// The resolution attempt returned this status code.
    Resolution(i32),
    /// The creation of the topic returned this handle, negative on failure.
    Creation(i32),
}

/// Mathematical value of a [`DiscoveryLoop`].
pub struct LoopView {
    /// Name of the topic to find.
    pub target: Seq<char>,
    /// Where the loop stands.
    pub phase: Phase,
    /// Handle of the topic; negative until the topic is found.
    pub topic: i32,
}

impl LoopView {
    /// The same loop in another phase.
    pub open spec fn at(self, phase: Phase) -> LoopView {
        LoopView { phase, ..self }
    }

    /// The loop is in its terminal phase exactly when it has a live topic.
    pub open spec fn wf(self) -> bool {
        self.phase == Phase::Found <==> is_live(self.topic)
    }
}

/// The loop as it starts: waiting, without a topic.
pub open spec fn initial(target: Seq<char>) -> LoopView {
    LoopView { target, phase: Phase::Waiting, topic: -1i32 }
}

/// The command whose result a loop awaits.
pub open spec fn awaited(s: LoopView) -> CommandView {
    match s.phase {
        Phase::Waiting => CommandView::Wait,
        Phase::EntryAvailable => CommandView::Take,
        Phase::Matched => CommandView::Resolve(standard_request()),
        Phase::Resolved => CommandView::CreateTopic { name: s.target },
        Phase::Found => CommandView::Finish { topic: s.topic },
    }
}

/// The step that follows a result when the loop moves on to `next`.
pub open spec fn step_to(
    next: LoopView,
    reports: Seq<Report>,
    release_descriptor: bool,
    release_loan: bool,
) -> (LoopView, StepView) {
    (next, StepView { reports, release_descriptor, release_loan, command: awaited(next) })
}

/// After a wait. Activity makes entries available. A wait that reports none,
/// or fails, is repeated; a failure is logged.
pub open spec fn after_wake(s: LoopView, count: i32) -> (LoopView, StepView) {
    if count > 0 {
        step_to(s.at(Phase::EntryAvailable), seq![], false, false)
    } else if count == 0 {
        step_to(s.at(Phase::Waiting), seq![], false, false)
    } else {
        step_to(s.at(Phase::Waiting), seq![Report::WaitFailed(count)], false, false)
    }
}

/// After a take.
///
/// With nothing taken the loop goes back to waiting. An entry without valid
/// data is released unread. An entry whose name is not text, or is not the
/// target, is released and the next one is taken. An entry that names the
/// target moves the loop on to resolution if it carries type information;
/// if it carries none, it is released and the loop goes back to waiting.
pub open spec fn after_take(s: LoopView, count: i32, entry: EntryView) -> (LoopView, StepView) {
    match taken(count, entry.valid_data) {
        Taken::Failed(code) => step_to(
            s.at(Phase::Waiting),
            seq![Report::TakeFailed(code)],
            false,
            false,
        ),
        Taken::Nothing => step_to(s.at(Phase::Waiting), seq![], false, false),
        Taken::Invalid => step_to(s.at(Phase::EntryAvailable), seq![], false, true),
        Taken::Entry => match match_outcome(entry.topic_name, s.target) {
            Err(_) => step_to(
                s.at(Phase::EntryAvailable),
                seq![Report::InvalidTopicName],
                false,
                true,
            ),
            Ok(false) => step_to(s.at(Phase::EntryAvailable), seq![Report::Discovered], false, true),
            Ok(true) => match plan_outcome(entry.type_info) {
                Err(_) => step_to(
                    s.at(Phase::Waiting),
                    seq![Report::Discovered, Report::TypeInfoUnavailable],
                    false,
                    true,
                ),
                Ok(_) => step_to(s.at(Phase::Matched), seq![Report::Discovered], false, false),
            },
        },
    }
}

/// After a resolution attempt. Success moves the loop on to creating the
/// topic. Failure is logged, the entry is released, and the loop goes back
/// to waiting.
pub open spec fn after_resolution(s: LoopView, status: i32) -> (LoopView, StepView) {
    match attempt_outcome(status) {
        Ok(_) => step_to(s.at(Phase::Resolved), seq![], false, false),
        Err(_) => step_to(s.at(Phase::Waiting), seq![Report::DescriptorFailed(status)], false, true),
    }
}

/// After the creation of the topic. Either way the descriptor and the entry
/// are released. A live handle ends the loop. Failure is logged and the loop
/// goes back to waiting.
pub open spec fn after_creation(s: LoopView, handle: i32) -> (LoopView, StepView) {
    if is_live(handle) {
        step_to(
            LoopView { phase: Phase::Found, topic: handle, ..s },
            seq![Report::Found],
            true,
            true,
        )
    } else {
        step_to(s.at(Phase::Waiting), seq![Report::TopicCreationFailed(handle)], true, true)
    }
}

/// The transition of the loop: the next state and the step to take when
/// `event` is reported in state `s`, or `None` if the loop does not await
/// such an event in that state.
pub open spec fn transition(s: LoopView, event: Event) -> Option<(LoopView, StepView)> {
    match (s.phase, event) {
        (Phase::Waiting, Event::Wake(count)) => Some(after_wake(s, count)),
        (Phase::EntryAvailable, Event::Take { count, entry }) => Some(after_take(s, count, entry)),
        (Phase::Matched, Event::Resolution(status)) => Some(after_resolution(s, status)),
        (Phase::Resolved, Event::Creation(handle)) => Some(after_creation(s, handle)),
        _ => None,
    }
}

/// Whether `res` and the state `after` are what reporting `event` in state
/// `before` must give: the step and state of the transition, or a refusal
/// that names the phase and leaves the state alone.
pub open spec fn answers(
    res: Result<Step, OutOfTurn>,
    before: LoopView,
    after: LoopView,
    event: Event,
) -> bool {
    match transition(before, event) {
        Some((next, step)) => res matches Ok(given) && given@ == step && after == next,
        None => res == Err::<Step, OutOfTurn>(OutOfTurn { phase: before.phase }) && after
            == before,
    }
}

/// The discovery loop for one target topic.
pub struct DiscoveryLoop {
    target: String,
    phase: Phase,
    topic: i32,
}

impl View for DiscoveryLoop {
    type V = LoopView;

    closed spec fn view(&self) -> LoopView {
        LoopView { target: self.target@, phase: self.phase, topic: self.topic }
    }
}

impl DiscoveryLoop {
    /// A loop that waits for a publication on the topic named `target`.
    pub fn new(target: String) -> (lp: DiscoveryLoop)
        ensures
            lp@ == initial(target@),
    {
        DiscoveryLoop { target, phase: Phase::Waiting, topic: -1 }
    }

    /// The step that opens the loop: announce the wait and make it. The
    /// caller has created the discovery reader and the wait primitive
    /// beforehand.
    pub fn begin(&self) -> (step: Step)
        ensures
            step@ == (StepView {
                reports: seq![Report::Waiting],
                release_descriptor: false,
                release_loan: false,
                command: awaited(self@),
            }),
    {
        let mut reports: Vec<Report> = Vec::new();
        reports.push(Report::Waiting);
        Step { reports, release_descriptor: false, release_loan: false, command: self.awaits() }
    }

    /// Where the loop stands.
    pub fn phase(&self) -> (phase: Phase)
        ensures
            phase == self@.phase,
    {
        self.phase
    }

    /// Name of the topic that the loop looks for.
    pub fn target(&self) -> (name: &str)
        ensures
            name@ == self@.target,
    {
        self.target.as_str()
    }

    /// Whether the loop has ended.
    pub fn is_found(&self) -> (found: bool)
        ensures
            found == (self@.phase == Phase::Found),
    {
        self.phase == Phase::Found
    }

    /// The topic, once the loop has ended.
    pub fn topic(&self) -> (topic: Option<i32>)
        ensures
            topic == (if self@.phase == Phase::Found {
                Some(self@.topic)
            } else {
                None
            }),
    {
        if self.phase == Phase::Found {
            Some(self.topic)
        } else {
            None
        }
    }

    /// The command whose result the loop awaits.
    pub fn awaits(&self) -> (command: Command)
        ensures
            command@ == awaited(self@),
    {
        match self.phase {
            Phase::Waiting => Command::Wait,
            Phase::EntryAvailable => Command::Take,
            Phase::Matched => Command::Resolve(
                ResolveRequest { scope: FindScope::Global, timeout_ns: RESOLVE_TIMEOUT_NS },
            ),
            Phase::Resolved => Command::CreateTopic { name: self.target.clone() },
            Phase::Found => Command::Finish { topic: self.topic },
        }
    }

    /// Moves to `phase` and makes the step that goes with it.
    fn proceed(
        &mut self,
        phase: Phase,
        reports: Vec<Report>,
        release_descriptor: bool,
        release_loan: bool,
    ) -> (step: Step)
        requires
            phase != Phase::Found,
        ensures
            (final(self)@, step@) == step_to(
                old(self)@.at(phase),
                reports@,
                release_descriptor,
                release_loan,
            ),
    {
        self.phase = phase;
        Step { reports, release_descriptor, release_loan, command: self.awaits() }
    }

    /// Reports the result of a wait: the count of triggered conditions, or a
    /// negative status code.
    pub fn on_wake(&mut self, count: i32) -> (res: Result<Step, OutOfTurn>)
        ensures
            answers(res, old(self)@, final(self)@, Event::Wake(count)),
    {
        if self.phase != Phase::Waiting {
            return Err(OutOfTurn { phase: self.phase });
        }
        let mut reports: Vec<Report> = Vec::new();
        if count > 0 {
            Ok(self.proceed(Phase::EntryAvailable, reports, false, false))
        } else {
            if count < 0 {
                reports.push(Report::WaitFailed(count));
            }
            Ok(self.proceed(Phase::Waiting, reports, false, false))
        }
    }

    /// Reports the result of a take: the count of entries taken, or a
    /// negative status code, and the entry if the count is positive. With
    /// any other count `entry` is not looked at; if its validity flag is
    /// unset, its other fields are not looked at.
    pub fn on_take(&mut self, count: i32, entry: &DiscoveryEntry) -> (res: Result<Step, OutOfTurn>)
        ensures
            answers(res, old(self)@, final(self)@, Event::Take { count, entry: entry@ }),
    {
        if self.phase != Phase::EntryAvailable {
            return Err(OutOfTurn { phase: self.phase });
        }
        let mut reports: Vec<Report> = Vec::new();
        match next_entry(count, entry.valid_data) {
            Taken::Failed(code) => {
                reports.push(Report::TakeFailed(code));
                Ok(self.proceed(Phase::Waiting, reports, false, false))
            },
            Taken::Nothing => Ok(self.proceed(Phase::Waiting, reports, false, false)),
            Taken::Invalid => Ok(self.proceed(Phase::EntryAvailable, reports, false, true)),
            Taken::Entry => match crate::matcher::matches(
                entry.topic_name.as_slice(),
                self.target.as_str(),
            ) {
                Err(_) => {
                    reports.push(Report::InvalidTopicName);
                    Ok(self.proceed(Phase::EntryAvailable, reports, false, true))
                },
                Ok(false) => {
                    reports.push(Report::Discovered);
                    Ok(self.proceed(Phase::EntryAvailable, reports, false, true))
                },
                Ok(true) => {
                    reports.push(Report::Discovered);
                    match plan(entry.type_info) {
                        Err(_) => {
                            reports.push(Report::TypeInfoUnavailable);
                            assert(reports@ =~= seq![
                                Report::Discovered,
                                Report::TypeInfoUnavailable,
                            ]);
                            Ok(self.proceed(Phase::Waiting, reports, false, true))
                        },
                        Ok(_) => Ok(self.proceed(Phase::Matched, reports, false, false)),
                    }
                },
            },
        }
    }

    /// Reports the status code of a resolution attempt.
    pub fn on_resolution(&mut self, status: i32) -> (res: Result<Step, OutOfTurn>)
        ensures
            answers(res, old(self)@, final(self)@, Event::Resolution(status)),
    {
        if self.phase != Phase::Matched {
            return Err(OutOfTurn { phase: self.phase });
        }
        let mut reports: Vec<Report> = Vec::new();
        match conclude(status) {
            Ok(_) => Ok(self.proceed(Phase::Resolved, reports, false, false)),
            Err(_) => {
                reports.push(Report::DescriptorFailed(status));
                Ok(self.proceed(Phase::Waiting, reports, false, true))
            },
        }
    }

    /// Reports the handle that the creation of the topic returned.
    pub fn on_creation(&mut self, handle: i32) -> (res: Result<Step, OutOfTurn>)
        ensures
            answers(res, old(self)@, final(self)@, Event::Creation(handle)),
    {
        if self.phase != Phase::Resolved {
            return Err(OutOfTurn { phase: self.phase });
        }
        let mut reports: Vec<Report> = Vec::new();
        if handle >= 0 {
            reports.push(Report::Found);
            self.phase = Phase::Found;
            self.topic = handle;
            Ok(Step { reports, release_descriptor: true, release_loan: true, command: self.awaits() })
        } else {
            reports.push(Report::TopicCreationFailed(handle));
            Ok(self.proceed(Phase::Waiting, reports, true, true))
        }
    }
}

} // verus!
