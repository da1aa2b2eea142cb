//! Print job state machine.

use vstd::prelude::*;
use vstd::string::*;
use crate::common::text::append_str;

verus! {

/// State of a print job.
#[derive(Debug, Clone, Copy, PartialEq, Eq, Structural)]
pub enum PrintState {
    Idle,
    Starting,
    Printing,
    Paused,
    Resuming,
    Stopping,
    Completed,
    Failed,
}

/// The allowed print state transitions.
pub open spec fn print_transition_allowed(from: PrintState, to: PrintState) -> bool {
    match (from, to) {
        (PrintState::Idle, PrintState::Starting) => true,
        (PrintState::Starting, PrintState::Printing) => true,
        (PrintState::Printing, PrintState::Paused) => true,
        (PrintState::Printing, PrintState::Stopping) => true,
        (PrintState::Printing, PrintState::Completed) => true,
        (PrintState::Printing, PrintState::Failed) => true,
        (PrintState::Paused, PrintState::Resuming) => true,
        (PrintState::Paused, PrintState::Stopping) => true,
        (PrintState::Resuming, PrintState::Printing) => true,
        (PrintState::Stopping, PrintState::Idle) => true,
        _ => false,
    }
}

/// The name `Debug` prints for a print state.
pub open spec fn print_state_name(s: PrintState) -> Seq<char> {
    match s {
        PrintState::Idle => "Idle"@,
        PrintState::Starting => "Starting"@,
        PrintState::Printing => "Printing"@,
        PrintState::Paused => "Paused"@,
        PrintState::Resuming => "Resuming"@,
        PrintState::Stopping => "Stopping"@,
        PrintState::Completed => "Completed"@,
        PrintState::Failed => "Failed"@,
    }
}

impl PrintState {
    /// Printing, starting or resuming.
    pub fn is_active(&self) -> (r: bool)
        ensures
            r == (*self == PrintState::Printing || *self == PrintState::Starting || *self
                == PrintState::Resuming),
    {
        match self {
            PrintState::Printing | PrintState::Starting | PrintState::Resuming => true,
            _ => false,
        }
    }

    /// Only a printing job can pause.
    pub fn can_pause(&self) -> (r: bool)
        ensures
            r == (*self == PrintState::Printing),
    {
        match self {
            PrintState::Printing => true,
            _ => false,
        }
    }

    /// Only a paused job can resume.
    pub fn can_resume(&self) -> (r: bool)
        ensures
            r == (*self == PrintState::Paused),
    {
        match self {
            PrintState::Paused => true,
            _ => false,
        }
    }

    /// The name `Debug` prints.
    pub fn name(&self) -> (r: &'static str)
        ensures
            r@ == print_state_name(*self),
    {
        match self {
            PrintState::Idle => "Idle",
            PrintState::Starting => "Starting",
            PrintState::Printing => "Printing",
            PrintState::Paused => "Paused",
            PrintState::Resuming => "Resuming",
            PrintState::Stopping => "Stopping",
            PrintState::Completed => "Completed",
            PrintState::Failed => "Failed",
        }
    }
}

/// The message of a refused transition.
pub open spec fn invalid_transition_message(from: PrintState, to: PrintState) -> Seq<char> {
    "Invalid transition from "@ + print_state_name(from) + " to "@ + print_state_name(to)
}

/// The print job state machine; it starts idle.
pub struct PrintStateMachine {
    current_state: PrintState,
}

impl View for PrintStateMachine {
    type V = PrintState;

    closed spec fn view(&self) -> PrintState {
        self.current_state
    }
}

impl Default for PrintStateMachine {
    fn default() -> (r: Self)
        ensures
            r@ == PrintState::Idle,
    {
        PrintStateMachine::new()
    }
}

impl PrintStateMachine {
    pub fn new() -> (r: Self)
        ensures
            r@ == PrintState::Idle,
    {
        PrintStateMachine { current_state: PrintState::Idle }
    }

    pub fn current_state(&self) -> (r: PrintState)
        ensures
            r == self@,
    {
        self.current_state
    }

    pub fn can_transition_to(&self, new_state: PrintState) -> (r: bool)
        ensures
            r == print_transition_allowed(self@, new_state),
    {
        match (self.current_state, new_state) {
            (PrintState::Idle, PrintState::Starting) => true,
            (PrintState::Starting, PrintState::Printing) => true,
            (PrintState::Printing, PrintState::Paused) => true,
            (PrintState::Printing, PrintState::Stopping) => true,
            (PrintState::Printing, PrintState::Completed) => true,
            (PrintState::Printing, PrintState::Failed) => true,
            (PrintState::Paused, PrintState::Resuming) => true,
            (PrintState::Paused, PrintState::Stopping) => true,
            (PrintState::Resuming, PrintState::Printing) => true,
            (PrintState::Stopping, PrintState::Idle) => true,
            _ => false,
        }
    }

    /// Moves to `new_state` when the transition is allowed; otherwise leaves the state and
    /// reports the refused transition.
    pub fn transition_to(&mut self, new_state: PrintState) -> (r: Result<(), String>)
        ensures
            print_transition_allowed(old(self)@, new_state) ==> r is Ok && final(self)@
                == new_state,
            !print_transition_allowed(old(self)@, new_state) ==> final(self)@ == old(self)@ && r
                == Err::<(), String>(r->Err_0) && r->Err_0@ == invalid_transition_message(
                old(self)@,
                new_state,
            ),
    {
        if self.can_transition_to(new_state) {
            self.current_state = new_state;
            Ok(())
        } else {
            let mut msg = String::from_str("Invalid transition from ");
            append_str(&mut msg, self.current_state.name());
            append_str(&mut msg, " to ");
            append_str(&mut msg, new_state.name());
            Err(msg)
        }
    }
}

/// Completed and failed jobs are final: no transition leaves them.
pub proof fn lemma_print_terminal_states(to: PrintState)
    ensures
        !print_transition_allowed(PrintState::Completed, to),
        !print_transition_allowed(PrintState::Failed, to),
{
}

/// A printing job can be paused, resumed and brought back to printing.
pub proof fn lemma_print_pause_resume_cycle()
    ensures
        print_transition_allowed(PrintState::Printing, PrintState::Paused),
        print_transition_allowed(PrintState::Paused, PrintState::Resuming),
        print_transition_allowed(PrintState::Resuming, PrintState::Printing),
{
}

/// A state that allows pausing can always move to `Paused`, and one that allows resuming can
/// always move to `Resuming`.
pub proof fn lemma_print_pause_resume_allowed(s: PrintState)
    ensures
        s == PrintState::Printing ==> print_transition_allowed(s, PrintState::Paused),
        s == PrintState::Paused ==> print_transition_allowed(s, PrintState::Resuming),
{
}

/// No state may move to itself.
pub proof fn lemma_print_no_self_transition(s: PrintState)
    ensures
        !print_transition_allowed(s, s),
{
}

/// A printing job can finish: it may move to `Completed` or to `Failed`, and only a printing
/// job may enter either; so a job started from idle can run to completion.
pub proof fn lemma_print_job_can_finish(from: PrintState)
    ensures
        print_transition_allowed(PrintState::Printing, PrintState::Completed),
        print_transition_allowed(PrintState::Printing, PrintState::Failed),
        print_transition_allowed(from, PrintState::Completed) <==> from == PrintState::Printing,
        print_transition_allowed(from, PrintState::Failed) <==> from == PrintState::Printing,
        print_transition_allowed(PrintState::Idle, PrintState::Starting) && print_transition_allowed(
            PrintState::Starting,
            PrintState::Printing,
        ),
{
}

} // verus!
