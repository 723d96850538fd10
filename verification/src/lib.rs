//! Saved shell commands: the command-line tokenizer, the command list and the
//! action dispatcher that works on it.

pub mod arg_parser;
pub mod command_list;
pub mod error;
pub mod external;
pub mod number;
pub mod runner;
pub mod screen;
pub mod store;
pub mod text;
