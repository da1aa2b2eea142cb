pub mod lexer;
pub mod parser;
pub mod command;
pub mod file;
pub mod basic;

pub use basic::{GCodeType, GCodeCommand, GCodeParameter, GCodeFileParser, GCodePreprocessor, GCodeExecutor, parse_gcode, validate_gcode};
pub mod controller;
pub mod converter;
pub mod motion;
