//! One run, from the plan to its end, as a state machine.
//!
//! The session decides and the driver acts. The session names the command
//! that is pending; the driver carries it out and reports what happened as an
//! event; the session moves on. A session asks for no filesystem action
//! before the user has agreed, asks for the actions of the plan one by one in
//! their order, and asks for none after one of them has failed.

use crate::confirm::{confirmed, is_affirmative, PROMPT};
use crate::error::ToolError;
use crate::plan::{
    lemma_plan_is_well_formed, line_views, Action, ActionView, Line, LineView, OperationPlan,
    PlanView,
};
use vstd::prelude::*;
use vstd::string::StringExecFns;

verus! {

/// How far a run has come.
#[derive(Clone, Copy, Debug, PartialEq, Eq, Structural)]
pub enum Phase {
    /// The plan is made and has not been shown yet.
    Planned,
    /// The plan has been shown; the user has not answered yet.
    AwaitingConfirmation,
    /// The user has agreed. The actions before `step` have succeeded and the
    /// action at `step` is the next to be carried out.
    Executing { step: usize },
    /// Every action has succeeded.
    Done,
    /// The user has not agreed. No action was asked for.
    Cancelled,
    /// The action at `step` has failed. No later action was asked for.
    Failed { step: usize },
}

/// What the driver reports back after carrying a command out.
#[derive(Clone, Debug, PartialEq, Eq)]
pub enum Event {
    /// The announcement has been shown.
    Shown,
    /// The user has answered the prompt with this line.
    Answered(String),
    /// The filesystem has carried the action out.
    ActionSucceeded,
    /// The filesystem has refused the action.
    ActionFailed,
}

/// An `Event` with the answer as a sequence of characters.
pub enum EventView {
    Shown,
    Answered(Seq<char>),
    ActionSucceeded,
    ActionFailed,
}

impl View for Event {
    type V = EventView;

    open spec fn view(&self) -> EventView {
        match self {
            Event::Shown => EventView::Shown,
            Event::Answered(answer) => EventView::Answered(answer@),
            Event::ActionSucceeded => EventView::ActionSucceeded,
            Event::ActionFailed => EventView::ActionFailed,
        }
    }
}

/// What the session asks the driver to do next.
#[derive(Debug, PartialEq, Eq)]
pub enum Command {
    /// Show these lines to the user, then report `Shown`.
    Show(Vec<Line>),
    /// Show this prompt, read one line, then report it as `Answered`.
    Ask(String),
    /// Carry this action out, then report `ActionSucceeded` or `ActionFailed`.
    Perform(Action),
    /// Stop: the run has ended in this way.
    Finish(Result<(), ToolError>),
}

/// A `Command` with its texts as sequences of characters.
pub enum CommandView {
    Show(Seq<LineView>),
    Ask(Seq<char>),
    Perform(ActionView),
    Finish(Result<(), ToolError>),
}

impl View for Command {
    type V = CommandView;

    open spec fn view(&self) -> CommandView {
        match self {
            Command::Show(lines) => CommandView::Show(line_views(lines@)),
            Command::Ask(prompt) => CommandView::Ask(prompt@),
            Command::Perform(action) => CommandView::Perform(action@),
            Command::Finish(outcome) => CommandView::Finish(*outcome),
        }
    }
}

/// A session as the contracts see it.
pub struct SessionView {
    pub plan: PlanView,
    pub phase: Phase,
}

/// The session that begins with `plan`.
pub open spec fn begun(plan: PlanView) -> SessionView {
    SessionView { plan, phase: Phase::Planned }
}

impl SessionView {
    /// The plan is well formed, and a step that the phase names is a step of
    /// the plan.
    pub open spec fn well_formed(self) -> bool {
        &&& self.plan.well_formed()
        &&& self.phase matches Phase::Executing { step } ==> step < self.plan.sources.len()
        &&& self.phase matches Phase::Failed { step } ==> step < self.plan.sources.len()
    }

    /// Whether the run has ended.
    pub open spec fn finished(self) -> bool {
        self.phase is Done || self.phase is Cancelled || self.phase is Failed
    }

    /// What the driver is asked to do in this phase.
    pub open spec fn pending(self) -> CommandView {
        match self.phase {
            Phase::Planned => CommandView::Show(self.plan.announcement()),
            Phase::AwaitingConfirmation => CommandView::Ask("Are you sure? [y/N] "@),
            Phase::Executing { step } => CommandView::Perform(self.plan.action(step as int)),
            Phase::Done => CommandView::Finish(Ok(())),
            Phase::Cancelled => CommandView::Finish(Err(ToolError::OperationCancelled)),
            Phase::Failed { step } => CommandView::Finish(
                Err(ToolError::FilesystemFailure { step }),
            ),
        }
    }

    /// The phase that follows when the driver reports `event`. An event that
    /// does not answer the pending command changes nothing.
    pub open spec fn next_phase(self, event: EventView) -> Phase {
        match (self.phase, event) {
            (Phase::Planned, EventView::Shown) => Phase::AwaitingConfirmation,
            (Phase::AwaitingConfirmation, EventView::Answered(answer)) => if is_affirmative(
                answer,
            ) {
                Phase::Executing { step: 0 }
            } else {
                Phase::Cancelled
            },
            (Phase::Executing { step }, EventView::ActionSucceeded) => if step + 1
                < self.plan.sources.len() {
                Phase::Executing { step: (step + 1) as usize }
            } else {
                Phase::Done
            },
            (Phase::Executing { step }, EventView::ActionFailed) => Phase::Failed { step },
            (phase, _) => phase,
        }
    }

    /// The session after the driver has reported `event`. The plan stays.
    pub open spec fn after(self, event: EventView) -> SessionView {
        SessionView { plan: self.plan, phase: self.next_phase(event) }
    }

    /// The session after the driver has reported `events` one after another.
    pub open spec fn after_all(self, events: Seq<EventView>) -> SessionView
        decreases events.len(),
    {
        if events.len() == 0 {
            self
        } else {
            self.after_all(events.drop_last()).after(events.last())
        }
    }
}

/// One run of a plan.
#[derive(Debug, PartialEq, Eq)]
pub struct Session {
    plan: OperationPlan,
    phase: Phase,
}

impl View for Session {
    type V = SessionView;

    closed spec fn view(&self) -> SessionView {
        SessionView { plan: self.plan@, phase: self.phase }
    }
}

impl Session {
    #[verifier::type_invariant]
    spec fn names_a_step_of_the_plan(&self) -> bool {
        self@.well_formed()
    }

    /// Begins a run of `plan`.
    pub fn new(plan: OperationPlan) -> (session: Session)
        ensures
            session@ == begun(plan@),
            session@.well_formed(),
    {
        proof {
            lemma_plan_is_well_formed(plan);
        }
        Session { plan, phase: Phase::Planned }
    }

    /// The plan that is run.
    pub fn plan(&self) -> (plan: &OperationPlan)
        ensures
            plan@ == self@.plan,
    {
        &self.plan
    }

    /// How far the run has come.
    pub fn phase(&self) -> (phase: Phase)
        ensures
            phase == self@.phase,
            self@.well_formed(),
    {
        proof {
            use_type_invariant(self);
        }
        self.phase
    }

    /// Whether the run has ended.
    pub fn is_finished(&self) -> (finished: bool)
        ensures
            finished == self@.finished(),
    {
        match self.phase {
            Phase::Done | Phase::Cancelled | Phase::Failed { .. } => true,
            _ => false,
        }
    }

    /// What the driver is asked to do now.
    pub fn pending(&self) -> (command: Command)
        ensures
            command@ == self@.pending(),
    {
        proof {
            use_type_invariant(self);
        }
        match self.phase {
            Phase::Planned => Command::Show(self.plan.announcement()),
            Phase::AwaitingConfirmation => Command::Ask(String::from_str(PROMPT)),
            Phase::Executing { step } => Command::Perform(self.plan.action_at(step)),
            Phase::Done => Command::Finish(Ok(())),
            Phase::Cancelled => Command::Finish(Err(ToolError::OperationCancelled)),
            Phase::Failed { step } => Command::Finish(Err(ToolError::FilesystemFailure { step })),
        }
    }

    /// Moves on by what the driver reports.
    pub fn advance(&mut self, event: &Event)
        ensures
            final(self)@ == old(self)@.after(event@),
            final(self)@.well_formed(),
    {
        proof {
            use_type_invariant(&*self);
        }
        let next = match (self.phase, event) {
            (Phase::Planned, Event::Shown) => Phase::AwaitingConfirmation,
            (Phase::AwaitingConfirmation, Event::Answered(answer)) => if confirmed(
                answer.as_str(),
            ) {
                Phase::Executing { step: 0 }
            } else {
                Phase::Cancelled
            },
            (Phase::Executing { step }, Event::ActionSucceeded) => if step + 1 < 4 {
                Phase::Executing { step: step + 1 }
            } else {
                Phase::Done
            },
            (Phase::Executing { step }, Event::ActionFailed) => Phase::Failed { step },
            (phase, _) => phase,
        };
        self.phase = next;
    }
}

} // verus!
