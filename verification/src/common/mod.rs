pub mod text;
pub mod bytes;
pub mod foreign;
pub mod error;
pub mod pin_parser;
pub mod events;
pub mod str_map;
pub mod json;
pub mod messages;
pub mod geometry;
pub mod debug;
