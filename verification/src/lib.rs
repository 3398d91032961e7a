//! A minimal line-oriented command shell, as a library.
//!
//! The shell reads one line at a time, splits it into whitespace-separated
//! tokens, replaces `$NAME` tokens by the value of the environment variable
//! `NAME`, and then either runs one of the built-in commands (`exit`, `pwd`,
//! `cd`, `env`) or asks for an external program to be started.
//!
//! Everything that decides is in this crate and is verified. Reading lines,
//! querying the operating system and starting processes is left to the
//! program that drives [`shell::ShellState::step`].

pub mod builtins;
pub mod launcher;
pub mod shell;
pub mod style;
pub mod text;
pub mod tokenizer;
pub mod whitespace;
