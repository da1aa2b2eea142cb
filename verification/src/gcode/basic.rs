//! The basic G-code types: a command with its parameters, and the simple file parser and
//! preprocessor of the G-code module.

use vstd::prelude::*;
use crate::state::device_state::Position;
use vstd::string::*;
use crate::common::error::EmbError;

verus! {

/// Kind of a G-code command word.
#[derive(Debug, Clone, Copy, PartialEq, Eq, Structural)]
pub enum GCodeType {
    /// G (movement).
    G,
    /// M (machine).
    M,
    /// T (tool change).
    T,
    Other,
}

/// A command parameter: its letter and its number as written.
#[derive(Debug, PartialEq)]
pub struct GCodeParameter {
    pub letter: char,
    pub value: String,
}

impl Clone for GCodeParameter {
    fn clone(&self) -> (r: Self)
        ensures
            r == *self,
    {
        GCodeParameter { letter: self.letter, value: self.value.clone() }
    }
}

/// A G-code command.
#[derive(Debug, PartialEq)]
pub struct GCodeCommand {
    pub command_type: GCodeType,
    pub number: u32,
    pub parameters: Vec<GCodeParameter>,
    /// The command as written.
    pub raw: String,
}

impl Clone for GCodeCommand {
    fn clone(&self) -> (r: Self)
        ensures
            r.command_type == self.command_type,
            r.number == self.number,
            r.parameters@ == self.parameters@,
            r.raw == self.raw,
    {
        let mut parameters: Vec<GCodeParameter> = Vec::new();
        let mut i: usize = 0;
        while i < self.parameters.len()
            invariant
                i <= self.parameters@.len(),
                parameters@ == self.parameters@.subrange(0, i as int),
            decreases self.parameters@.len() - i,
        {
            parameters.push(self.parameters[i].clone());
            i = i + 1;
            proof {
                assert(parameters@ =~= self.parameters@.subrange(0, i as int));
            }
        }
        proof {
            assert(parameters@ =~= self.parameters@);
        }
        GCodeCommand {
            command_type: self.command_type,
            number: self.number,
            parameters,
            raw: self.raw.clone(),
        }
    }
}

/// The simple G-code file parser: the file it reads and its line position.
#[derive(Debug)]
pub struct GCodeFileParser {
    file_path: Option<String>,
    total_lines: u32,
    current_line: u32,
}

impl GCodeFileParser {
    pub closed spec fn path(&self) -> Option<String> {
        self.file_path
    }

    pub closed spec fn lines(&self) -> u32 {
        self.total_lines
    }

    pub closed spec fn line(&self) -> u32 {
        self.current_line
    }

    /// A parser without a file, at line zero.
    pub fn new() -> (r: Self)
        ensures
            r.path() is None,
            r.lines() == 0,
            r.line() == 0,
    {
        GCodeFileParser { file_path: None, total_lines: 0, current_line: 0 }
    }

    /// Takes the file at `path`, starting again at line zero.
    pub fn load_file(&mut self, path: &str) -> (r: Result<(), EmbError>)
        ensures
            r is Ok,
            final(self).path() matches Some(p) && p@ == path@,
            final(self).line() == 0,
            final(self).lines() == old(self).lines(),
    {
        self.file_path = Some(String::from_str(path));
        self.current_line = 0;
        Ok(())
    }

    pub fn total_lines(&self) -> (r: u32)
        ensures
            r == self.lines(),
    {
        self.total_lines
    }

    pub fn current_line(&self) -> (r: u32)
        ensures
            r == self.line(),
    {
        self.current_line
    }

    /// Moves to the next line; no command is read from it.
    pub fn parse_next(&mut self) -> (r: Option<GCodeCommand>)
        requires
            old(self).line() < u32::MAX,
        ensures
            r is None,
            final(self).line() == old(self).line() + 1,
            final(self).lines() == old(self).lines(),
            final(self).path() == old(self).path(),
    {
        self.current_line = self.current_line + 1;
        None
    }

    /// The commands of the file: none are read.
    pub fn parse_all(&self) -> (r: Vec<GCodeCommand>)
        ensures
            r@.len() == 0,
    {
        Vec::new()
    }
}

impl Default for GCodeFileParser {
    fn default() -> (r: Self)
        ensures
            r.path() is None,
            r.lines() == 0,
            r.line() == 0,
    {
        GCodeFileParser::new()
    }
}

/// The G-code preprocessor: it passes commands through unchanged.
#[derive(Debug)]
pub struct GCodePreprocessor {
    enabled: bool,
}

impl GCodePreprocessor {
    pub closed spec fn is_enabled(&self) -> bool {
        self.enabled
    }

    /// An enabled preprocessor.
    pub fn new() -> (r: Self)
        ensures
            r.is_enabled(),
    {
        GCodePreprocessor { enabled: true }
    }

    /// The command, unchanged.
    pub fn preprocess(&self, command: &GCodeCommand) -> (r: GCodeCommand)
        ensures
            r.command_type == command.command_type,
            r.number == command.number,
            r.parameters@ == command.parameters@,
            r.raw == command.raw,
    {
        command.clone()
    }
}

impl Default for GCodePreprocessor {
    fn default() -> (r: Self)
        ensures
            r.is_enabled(),
    {
        GCodePreprocessor::new()
    }
}

/// Reads a command from text: no command is read.
pub fn parse_gcode(_raw: &str) -> (r: Option<GCodeCommand>)
    ensures
        r is None,
{
    None
}

/// Validates a command: every command is accepted.
pub fn validate_gcode(_command: &GCodeCommand) -> (r: bool)
    ensures
        r,
{
    true
}

/// Executes G-code commands from a position (execution is not implemented: every command is
/// accepted and the position stays).
#[derive(Debug)]
pub struct GCodeExecutor {
    position: Position,
}

impl GCodeExecutor {
    pub closed spec fn at(&self) -> Position {
        self.position
    }

    /// An executor at the origin.
    pub fn new() -> (r: Self)
        ensures
            r.at() == (Position { x_bits: 0, y_bits: 0, z_bits: 0, e_bits: 0 }),
    {
        GCodeExecutor { position: Position::default() }
    }

    /// Accepts a command; nothing is executed.
    pub fn execute(&mut self, _command: &GCodeCommand) -> (r: Result<(), EmbError>)
        ensures
            r is Ok,
            final(self).at() == old(self).at(),
    {
        Ok(())
    }

    pub fn position(&self) -> (r: &Position)
        ensures
            *r == self.at(),
    {
        &self.position
    }
}

} // verus!
