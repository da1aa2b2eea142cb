//! The G-code controller: a queue of parsed commands and the position of the next one.

use vstd::prelude::*;
use super::parser::{GCodeParser, ParsedCommand, line_kind, line_params_cuttable};

verus! {

/// Counts of a controller's queue.
#[derive(Debug, Clone, Copy, PartialEq, Eq, Structural)]
pub struct ControllerStats {
    pub total_commands: usize,
    pub executed_commands: usize,
    pub remaining_commands: usize,
}

/// A queue of parsed commands with the position of the next one to run.
#[derive(Debug)]
pub struct GCodeController {
    queue: Vec<ParsedCommand>,
    current_index: usize,
}

impl GCodeController {
    /// The queued commands.
    pub closed spec fn commands(&self) -> Seq<ParsedCommand> {
        self.queue@
    }

    /// The position of the next command.
    pub closed spec fn index(&self) -> usize {
        self.current_index
    }

    /// The position never passes the end of the queue.
    pub open spec fn wf(&self) -> bool {
        self.index() <= self.commands().len()
    }

    /// An empty controller.
    pub fn new() -> (r: Self)
        ensures
            r.wf(),
            r.commands().len() == 0,
            r.index() == 0,
    {
        GCodeController { queue: Vec::new(), current_index: 0 }
    }

    /// Replaces the queue and starts again from its first command.
    pub fn load_commands(&mut self, commands: Vec<ParsedCommand>)
        ensures
            final(self).wf(),
            final(self).commands() == commands@,
            final(self).index() == 0,
    {
        self.queue = commands;
        self.current_index = 0;
    }

    /// The next command, which is then passed.
    pub fn next_command(&mut self) -> (r: Option<ParsedCommand>)
        requires
            old(self).wf(),
        ensures
            final(self).wf(),
            final(self).commands() == old(self).commands(),
            old(self).index() < old(self).commands().len() ==> r == Some(old(self).commands()[old(self).index() as int])
                && final(self).index() == old(self).index() + 1,
            old(self).index() >= old(self).commands().len() ==> r is None && final(self).index() == old(self).index(),
    {
        if self.current_index < self.queue.len() {
            let cmd = self.queue[self.current_index].clone();
            self.current_index = self.current_index + 1;
            Some(cmd)
        } else {
            None
        }
    }

    /// The next command, without passing it.
    pub fn peek_command(&self) -> (r: Option<ParsedCommand>)
        ensures
            self.index() < self.commands().len() ==> r == Some(self.commands()[self.index() as int]),
            self.index() >= self.commands().len() ==> r is None,
    {
        if self.current_index < self.queue.len() {
            Some(self.queue[self.current_index].clone())
        } else {
            None
        }
    }

    /// How many commands are still to run.
    pub fn remaining_count(&self) -> (r: usize)
        requires
            self.wf(),
        ensures
            r == self.commands().len() - self.index(),
    {
        self.queue.len() - self.current_index
    }

    /// The queue's counts.
    pub fn stats(&self) -> (r: ControllerStats)
        ensures
            r.total_commands == self.commands().len(),
            r.executed_commands == self.index(),
            r.remaining_commands == if self.commands().len() >= self.index() {
                (self.commands().len() - self.index()) as usize
            } else {
                0
            },
    {
        let total = self.queue.len();
        let executed = self.current_index;
        ControllerStats {
            total_commands: total,
            executed_commands: executed,
            remaining_commands: total.saturating_sub(executed),
        }
    }

    /// Starts again from the first command.
    pub fn reset(&mut self)
        ensures
            final(self).wf(),
            final(self).commands() == old(self).commands(),
            final(self).index() == 0,
    {
        self.current_index = 0;
    }

    /// Parses a line (numbered 0).
    pub fn parse_line(&self, line: &str) -> (r: Option<ParsedCommand>)
        ensures
            line_params_cuttable(line@) ==> (r matches Some(p) && p.raw@ == line@ && line_kind(line@, p.kind)),
            !line_params_cuttable(line@) ==> r is None,
    {
        GCodeParser::parse_line_checked(line, 0)
    }
}

impl Default for GCodeController {
    fn default() -> (r: Self)
        ensures
            r.wf(),
            r.commands().len() == 0,
            r.index() == 0,
    {
        GCodeController::new()
    }
}

} // verus!
