//! Core state machine of the printer.

use vstd::prelude::*;
use vstd::string::*;
use crate::common::error::EmbError;
use crate::common::foreign::{new_uuid, unix_now_millis};
use super::types::{PrinterState, TransitionReason, StateTransition, StateMachineConfig};

verus! {

/// The allowed printer state transitions.
pub open spec fn printer_transition_valid(from: PrinterState, to: PrinterState) -> bool {
    match (from, to) {
        (PrinterState::Idle, PrinterState::Preparing) | (PrinterState::Idle, PrinterState::Error) => true,
        (PrinterState::Preparing, PrinterState::Printing)
        | (PrinterState::Preparing, PrinterState::Idle)
        | (PrinterState::Preparing, PrinterState::Error) => true,
        (PrinterState::Printing, PrinterState::Paused)
        | (PrinterState::Printing, PrinterState::Complete)
        | (PrinterState::Printing, PrinterState::Error) => true,
        (PrinterState::Paused, PrinterState::Printing)
        | (PrinterState::Paused, PrinterState::Idle)
        | (PrinterState::Paused, PrinterState::Error) => true,
        (PrinterState::Complete, PrinterState::Idle) => true,
        (PrinterState::Error, PrinterState::Idle) => true,
        _ => false,
    }
}

/// The name `Debug` prints for a printer state.
pub open spec fn printer_state_name(s: PrinterState) -> Seq<char> {
    match s {
        PrinterState::Idle => "Idle"@,
        PrinterState::Preparing => "Preparing"@,
        PrinterState::Printing => "Printing"@,
        PrinterState::Paused => "Paused"@,
        PrinterState::Complete => "Complete"@,
        PrinterState::Error => "Error"@,
    }
}

/// States in which the printer can be cancelled back to idle.
pub open spec fn cancellable(s: PrinterState) -> bool {
    s == PrinterState::Preparing || s == PrinterState::Printing || s == PrinterState::Paused
}

/// History after recording one more transition with a size limit: the oldest entry is
/// dropped when the limit is exceeded.
pub open spec fn bounded_push(h: Seq<StateTransition>, t: StateTransition, max: nat) -> Seq<
    StateTransition,
> {
    if h.len() + 1 > max {
        h.push(t).drop_first()
    } else {
        h.push(t)
    }
}

/// Recording a valid transition that starts in the current state keeps the history a valid,
/// chained record ending in the new state.
proof fn lemma_bounded_push_keeps_chain(h: Seq<StateTransition>, t: StateTransition, max: nat, cur: PrinterState)
    requires
        h.len() <= max,
        forall|i: int| 0 <= i < h.len() ==> printer_transition_valid(#[trigger] h[i].from_state, h[i].to_state),
        forall|i: int| 0 <= i < h.len() - 1 ==> #[trigger] h[i].to_state == h[i + 1].from_state,
        h.len() > 0 ==> h.last().to_state == cur,
        t.from_state == cur,
        printer_transition_valid(t.from_state, t.to_state),
    ensures
        ({
            let g = bounded_push(h, t, max);
            &&& g.len() <= max
            &&& forall|i: int| 0 <= i < g.len() ==> printer_transition_valid(#[trigger] g[i].from_state, g[i].to_state)
            &&& forall|i: int| 0 <= i < g.len() - 1 ==> #[trigger] g[i].to_state == g[i + 1].from_state
            &&& g.len() > 0 ==> g.last() == t
            &&& max > 0 ==> g.len() > 0
        }),
{
    let p = h.push(t);
    let g = bounded_push(h, t, max);
    assert forall|i: int| 0 <= i < g.len() - 1 implies #[trigger] g[i].to_state == g[i + 1].from_state by {
        if h.len() + 1 > max {
            assert(g[i] == p[i + 1]);
            assert(g[i + 1] == p[i + 2]);
        } else {
            assert(g[i] == p[i]);
            assert(g[i + 1] == p[i + 1]);
        }
    }
    assert forall|i: int| 0 <= i < g.len() implies printer_transition_valid(#[trigger] g[i].from_state, g[i].to_state) by {
        if h.len() + 1 > max {
            assert(g[i] == p[i + 1]);
        } else {
            assert(g[i] == p[i]);
        }
    }
}

/// What a requested transition to `target` did: a valid one moved the machine to `target`,
/// an invalid one left the state as it was and was reported with both state names.
pub open spec fn request_outcome(
    before: StateMachine,
    after: StateMachine,
    target: PrinterState,
    r: Result<(), EmbError>,
) -> bool {
    &&& after.wf()
    &&& after.cfg() == before.cfg()
    &&& after.ident() == before.ident()
    &&& (r is Ok <==> printer_transition_valid(before.state(), target))
    &&& after.state() == (if r is Ok {
        target
    } else {
        before.state()
    })
    &&& !printer_transition_valid(before.state(), target) ==> {
        &&& after.history() == before.history()
        &&& r matches Err(EmbError::InvalidTransition { from, to })
        &&& from@ == printer_state_name(before.state())
        &&& to@ == printer_state_name(target)
    }
}

impl PrinterState {
    /// The name `Debug` prints.
    pub fn name(&self) -> (r: &'static str)
        ensures
            r@ == printer_state_name(*self),
    {
        match self {
            PrinterState::Idle => "Idle",
            PrinterState::Preparing => "Preparing",
            PrinterState::Printing => "Printing",
            PrinterState::Paused => "Paused",
            PrinterState::Complete => "Complete",
            PrinterState::Error => "Error",
        }
    }
}

/// The printer state machine: the current state, a bounded history of transitions, its
/// configuration and an identifier.
pub struct StateMachine {
    current_state: PrinterState,
    transition_history: Vec<StateTransition>,
    config: StateMachineConfig,
    id: uuid::Uuid,
}

impl StateMachine {
    pub closed spec fn state(&self) -> PrinterState {
        self.current_state
    }

    pub closed spec fn history(&self) -> Seq<StateTransition> {
        self.transition_history@
    }

    pub closed spec fn cfg(&self) -> StateMachineConfig {
        self.config
    }

    pub closed spec fn ident(&self) -> uuid::Uuid {
        self.id
    }

    /// The history is within its size limit, every recorded transition is valid, consecutive
    /// records chain, and the last record ends in the current state.
    pub open spec fn wf(&self) -> bool {
        &&& self.history().len() <= self.cfg().max_history_size
        &&& forall|i: int|
            0 <= i < self.history().len() ==> printer_transition_valid(
                #[trigger] self.history()[i].from_state,
                self.history()[i].to_state,
            )
        &&& forall|i: int|
            0 <= i < self.history().len() - 1 ==> #[trigger] self.history()[i].to_state
                == self.history()[i + 1].from_state
        &&& self.history().len() > 0 ==> self.history().last().to_state == self.state()
    }

    /// A state machine in `Idle` with an empty history.
    pub fn new(config: StateMachineConfig) -> (r: Self)
        ensures
            r.wf(),
            r.state() == PrinterState::Idle,
            r.history().len() == 0,
            r.cfg() == config,
    {
        StateMachine {
            current_state: PrinterState::Idle,
            transition_history: Vec::new(),
            config,
            id: new_uuid(),
        }
    }

    pub fn get_state(&self) -> (r: PrinterState)
        ensures
            r == self.state(),
    {
        self.current_state
    }

    pub fn is_valid_transition(&self, from: &PrinterState, to: &PrinterState) -> (r: bool)
        ensures
            r == printer_transition_valid(*from, *to),
    {
        match (from, to) {
            (PrinterState::Idle, PrinterState::Preparing) | (PrinterState::Idle, PrinterState::Error) => true,
            (PrinterState::Preparing, PrinterState::Printing)
            | (PrinterState::Preparing, PrinterState::Idle)
            | (PrinterState::Preparing, PrinterState::Error) => true,
            (PrinterState::Printing, PrinterState::Paused)
            | (PrinterState::Printing, PrinterState::Complete)
            | (PrinterState::Printing, PrinterState::Error) => true,
            (PrinterState::Paused, PrinterState::Printing)
            | (PrinterState::Paused, PrinterState::Idle)
            | (PrinterState::Paused, PrinterState::Error) => true,
            (PrinterState::Complete, PrinterState::Idle) => true,
            (PrinterState::Error, PrinterState::Idle) => true,
            _ => false,
        }
    }

    /// Requests a transition: a valid one changes the state and is recorded (dropping the
    /// oldest record beyond the history limit); an invalid one changes nothing and is reported
    /// with both state names.
    #[verifier::rlimit(40)]
    pub fn transition_to(&mut self, new_state: PrinterState, reason: TransitionReason) -> (r:
        Result<(), EmbError>)
        requires
            old(self).wf(),
        ensures
            final(self).wf(),
            final(self).cfg() == old(self).cfg(),
            final(self).ident() == old(self).ident(),
            printer_transition_valid(old(self).state(), new_state) ==> {
                &&& r is Ok
                &&& final(self).state() == new_state
                &&& old(self).cfg().max_history_size == 0 ==> final(self).history().len() == 0
            },
            printer_transition_valid(old(self).state(), new_state) && old(self).cfg().max_history_size
                > 0 ==> {
                &&& final(self).history().len() > 0
                &&& final(self).history() == bounded_push(
                    old(self).history(),
                    final(self).history().last(),
                    old(self).cfg().max_history_size as nat,
                )
                &&& final(self).history().last().from_state == old(self).state()
                &&& final(self).history().last().to_state == new_state
                &&& final(self).history().last().reason == reason
                &&& final(self).history().last().data is None
            },
            !printer_transition_valid(old(self).state(), new_state) ==> {
                &&& final(self).state() == old(self).state()
                &&& final(self).history() == old(self).history()
                &&& r matches Err(EmbError::InvalidTransition { from, to })
                &&& from@ == printer_state_name(old(self).state())
                &&& to@ == printer_state_name(new_state)
            },
    {
        let current_state = self.current_state;
        if !self.is_valid_transition(&current_state, &new_state) {
            return Err(
                EmbError::InvalidTransition {
                    from: String::from_str(current_state.name()),
                    to: String::from_str(new_state.name()),
                },
            );
        }
        let transition = StateTransition {
            id: new_uuid(),
            from_state: current_state,
            to_state: new_state,
            reason,
            timestamp_ms: unix_now_millis(),
            data: None,
        };
        let ghost t = transition;
        let ghost old_h = self.transition_history@;
        self.current_state = new_state;
        self.transition_history.push(transition);
        if self.transition_history.len() > self.config.max_history_size {
            self.transition_history.remove(0);
            proof {
                assert(self.transition_history@ =~= old_h.push(t).drop_first());
            }
        }
        proof {
            lemma_bounded_push_keeps_chain(old_h, t, self.config.max_history_size as nat, old(self).current_state);
        }
        Ok(())
    }

    /// A copy of the transition history, oldest first.
    pub fn get_transition_history(&self) -> (r: Vec<StateTransition>)
        ensures
            r@ == self.history(),
    {
        let mut out: Vec<StateTransition> = Vec::new();
        let mut i: usize = 0;
        while i < self.transition_history.len()
            invariant
                i <= self.transition_history@.len(),
                out@ == self.transition_history@.subrange(0, i as int),
            decreases self.transition_history@.len() - i,
        {
            out.push(self.transition_history[i].clone());
            i = i + 1;
            proof {
                assert(out@ =~= self.transition_history@.subrange(0, i as int));
            }
        }
        proof {
            assert(out@ =~= self.transition_history@);
        }
        out
    }

    /// The most recent transition, if any.
    pub fn get_latest_transition(&self) -> (r: Option<StateTransition>)
        ensures
            r == (if self.history().len() > 0 {
                Some(self.history().last())
            } else {
                None
            }),
    {
        let n = self.transition_history.len();
        if n > 0 {
            Some(self.transition_history[n - 1].clone())
        } else {
            None
        }
    }

    /// Returns to `Idle`.
    pub fn reset(&mut self) -> (r: Result<(), EmbError>)
        requires
            old(self).wf(),
        ensures
            request_outcome(*old(self), *final(self), PrinterState::Idle, r),
    {
        self.transition_to(PrinterState::Idle, TransitionReason::SystemInitiated)
    }

    /// Idle, preparing, printing or paused.
    pub fn is_operational(&self) -> (r: bool)
        ensures
            r == (self.state() == PrinterState::Idle || self.state() == PrinterState::Preparing
                || self.state() == PrinterState::Printing || self.state() == PrinterState::Paused),
    {
        match self.current_state {
            PrinterState::Idle | PrinterState::Preparing | PrinterState::Printing
            | PrinterState::Paused => true,
            _ => false,
        }
    }

    pub fn is_error(&self) -> (r: bool)
        ensures
            r == (self.state() == PrinterState::Error),
    {
        match self.current_state {
            PrinterState::Error => true,
            _ => false,
        }
    }

    pub fn can_start_print(&self) -> (r: bool)
        ensures
            r == (self.state() == PrinterState::Idle),
    {
        match self.current_state {
            PrinterState::Idle => true,
            _ => false,
        }
    }

    pub fn can_pause(&self) -> (r: bool)
        ensures
            r == (self.state() == PrinterState::Printing),
    {
        match self.current_state {
            PrinterState::Printing => true,
            _ => false,
        }
    }

    pub fn can_resume(&self) -> (r: bool)
        ensures
            r == (self.state() == PrinterState::Paused),
    {
        match self.current_state {
            PrinterState::Paused => true,
            _ => false,
        }
    }

    pub fn can_cancel(&self) -> (r: bool)
        ensures
            r == cancellable(self.state()),
    {
        match self.current_state {
            PrinterState::Preparing | PrinterState::Printing | PrinterState::Paused => true,
            _ => false,
        }
    }

    pub fn id(&self) -> (r: uuid::Uuid)
        ensures
            r == self.ident(),
    {
        self.id
    }

    pub fn config(&self) -> (r: &StateMachineConfig)
        ensures
            *r == self.cfg(),
    {
        &self.config
    }

    /// `Idle` to `Preparing`.
    pub fn start_preparing(&mut self) -> (r: Result<(), EmbError>)
        requires
            old(self).wf(),
        ensures
            request_outcome(*old(self), *final(self), PrinterState::Preparing, r),
    {
        self.transition_to(PrinterState::Preparing, TransitionReason::UserRequest)
    }

    /// `Preparing` to `Printing`.
    pub fn start_printing(&mut self) -> (r: Result<(), EmbError>)
        requires
            old(self).wf(),
        ensures
            request_outcome(*old(self), *final(self), PrinterState::Printing, r),
    {
        self.transition_to(PrinterState::Printing, TransitionReason::UserRequest)
    }

    /// `Printing` to `Paused`.
    pub fn pause(&mut self) -> (r: Result<(), EmbError>)
        requires
            old(self).wf(),
        ensures
            request_outcome(*old(self), *final(self), PrinterState::Paused, r),
    {
        self.transition_to(PrinterState::Paused, TransitionReason::UserRequest)
    }

    /// `Paused` back to `Printing`.
    pub fn resume(&mut self) -> (r: Result<(), EmbError>)
        requires
            old(self).wf(),
        ensures
            request_outcome(*old(self), *final(self), PrinterState::Printing, r),
    {
        self.transition_to(PrinterState::Printing, TransitionReason::UserRequest)
    }

    /// `Printing` to `Complete`.
    pub fn complete(&mut self) -> (r: Result<(), EmbError>)
        requires
            old(self).wf(),
        ensures
            request_outcome(*old(self), *final(self), PrinterState::Complete, r),
    {
        self.transition_to(PrinterState::Complete, TransitionReason::OperationComplete)
    }

    /// Cancels a preparing or paused job back to `Idle`. A printing job passes the cancel check
    /// but is refused by the transition rules (printing cannot go straight to idle); other
    /// states are refused with a state-machine error.
    pub fn cancel(&mut self) -> (r: Result<(), EmbError>)
        requires
            old(self).wf(),
        ensures
            cancellable(old(self).state()) ==> request_outcome(
                *old(self),
                *final(self),
                PrinterState::Idle,
                r,
            ),
            r is Ok <==> (old(self).state() == PrinterState::Preparing || old(self).state()
                == PrinterState::Paused),
            !cancellable(old(self).state()) ==> *final(self) == *old(self),
            !cancellable(old(self).state()) ==> (r matches Err(EmbError::StateMachine(m)) && m@
                == "Cannot cancel in current state"@),
    {
        if self.can_cancel() {
            self.transition_to(PrinterState::Idle, TransitionReason::UserRequest)
        } else {
            Err(EmbError::StateMachine(String::from_str("Cannot cancel in current state")))
        }
    }

    /// Enters the error state with the given message as the reason.
    pub fn enter_error(&mut self, error_msg: String) -> (r: Result<(), EmbError>)
        requires
            old(self).wf(),
        ensures
            request_outcome(*old(self), *final(self), PrinterState::Error, r),
            r is Ok ==> final(self).cfg().max_history_size > 0 ==> final(self).history().last().reason
                == TransitionReason::Error(error_msg),
    {
        self.transition_to(PrinterState::Error, TransitionReason::Error(error_msg))
    }
}

impl Default for StateMachine {
    fn default() -> (r: Self)
        ensures
            r.wf(),
            r.state() == PrinterState::Idle,
            r.history().len() == 0,
            r.cfg().max_history_size == 1000,
    {
        StateMachine::new(StateMachineConfig::default())
    }
}

/// No state moves to itself.
pub proof fn lemma_no_self_transition(s: PrinterState)
    ensures
        !printer_transition_valid(s, s),
{
}

/// Every state other than `Complete` and `Error` can enter `Error`.
pub proof fn lemma_error_reachable(s: PrinterState)
    ensures
        printer_transition_valid(s, PrinterState::Error) <==> (s != PrinterState::Complete && s
            != PrinterState::Error),
{
}

/// `Idle` is reachable in one step from every state except `Idle` and `Printing`, and from
/// `Printing` in two (through `Paused`, `Complete` or `Error`).
pub proof fn lemma_idle_reachable(s: PrinterState)
    ensures
        s != PrinterState::Idle && s != PrinterState::Printing ==> printer_transition_valid(
            s,
            PrinterState::Idle,
        ),
        printer_transition_valid(PrinterState::Printing, PrinterState::Paused)
            && printer_transition_valid(PrinterState::Paused, PrinterState::Idle),
{
}

/// Pausing and then resuming a printing machine are both allowed, and with room for at
/// least two records the history ends with the pause followed by the resume, within its
/// limit.
pub proof fn lemma_pause_resume_roundtrip(h: Seq<StateTransition>, pause: StateTransition, resume: StateTransition, max: nat)
    requires
        h.len() <= max,
        max >= 2,
        pause.from_state == PrinterState::Printing,
        pause.to_state == PrinterState::Paused,
        resume.from_state == PrinterState::Paused,
        resume.to_state == PrinterState::Printing,
    ensures
        printer_transition_valid(PrinterState::Printing, PrinterState::Paused),
        printer_transition_valid(PrinterState::Paused, PrinterState::Printing),
        ({
            let h2 = bounded_push(bounded_push(h, pause, max), resume, max);
            &&& h2.len() <= max
            &&& h2.len() >= 2
            &&& h2[h2.len() - 2] == pause
            &&& h2[h2.len() - 1] == resume
        }),
{
    let h1 = bounded_push(h, pause, max);
    assert(h1.len() <= max);
    assert(h1.last() == pause);
}

} // verus!
