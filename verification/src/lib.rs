//! The logic of a small interactive shell.
//!
//! A line of input is split into words by a simple quoting rule. The first
//! word names a command: one of the builtins `cd`, `echo` and `exit`, or a
//! program to launch with the other words as its arguments.
//!
//! The library decides and never acts. [`command::handle_input`] turns a
//! line into an [`command::Action`], [`outcome::handle_event`] turns what came
//! of an action into the notice that it calls for, and [`prompt::prompt`]
//! builds the prompt. Reading lines, writing to the streams, changing the
//! working directory and running programs is left to the caller.

pub mod chars;
pub mod command;
pub mod fields;
pub mod number;
pub mod outcome;
pub mod prompt;
pub mod scan;
pub mod text;
pub mod trim;
pub mod words;
