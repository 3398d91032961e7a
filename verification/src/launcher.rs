//! Commands for external programs, and what the shell reports of their runs.
//!
//! Starting a process and waiting for it is the work of the program that
//! drives the shell. This module says what is started, and what is written
//! to the error stream once the outcome is known.

use vstd::prelude::*;
use crate::style::{span, Span, SpanView, Tone};

verus! {

/// A command: the name of a program and its arguments.
#[derive(Debug, PartialEq, Eq)]
pub struct Command {
    pub name: String,
    pub args: Vec<String>,
}

/// A command as a mathematical value.
pub struct CommandView {
    pub name: Seq<char>,
    pub args: Seq<Seq<char>>,
}

impl View for Command {
    type V = CommandView;

    open spec fn view(&self) -> CommandView {
        CommandView { name: self.name@, args: self.args.deep_view() }
    }
}

impl DeepView for Command {
    type V = CommandView;

    open spec fn deep_view(&self) -> CommandView {
        self@
    }
}

/// The command that `tokens` make: the first token names it, the others are
/// its arguments. No tokens make no command.
pub open spec fn command_of(tokens: Seq<Seq<char>>) -> Option<CommandView> {
    if tokens.len() == 0 {
        None
    } else {
        Some(CommandView { name: tokens[0], args: tokens.skip(1) })
    }
}

impl Command {
    /// Makes a command of the tokens of a line, or `None` where there are no
    /// tokens.
    pub fn from_tokens(tokens: Vec<String>) -> (command: Option<Command>)
        ensures
            command.deep_view() == command_of(tokens.deep_view()),
    {
        let mut tokens = tokens;
        if tokens.len() == 0 {
            None
        } else {
            let ghost all = tokens.deep_view();
            let name = tokens.remove(0);
            assert(tokens.deep_view() == all.skip(1));
            Some(Command { name, args: tokens })
        }
    }
}

/// How the run of an external program ended.
#[derive(Debug, PartialEq, Eq)]
pub enum ChildResult {
    /// The program ran to its end. `status` is its exit status, or `None`
    /// where a signal ended it.
    Exited { status: Option<i32> },
    /// The program could not be started; `reason` is the operating system's
    /// description of the error.
    LaunchFailed { reason: String },
    /// The program was started, but waiting for its end failed; `reason` is
    /// the operating system's description of the error.
    WaitFailed { reason: String },
}

/// The outcome of a run as a mathematical value.
pub enum ChildResultView {
    Exited { status: Option<i32> },
    LaunchFailed { reason: Seq<char> },
    WaitFailed { reason: Seq<char> },
}

impl View for ChildResult {
    type V = ChildResultView;

    open spec fn view(&self) -> ChildResultView {
        match *self {
            ChildResult::Exited { status } => ChildResultView::Exited { status },
            ChildResult::LaunchFailed { reason } => ChildResultView::LaunchFailed {
                reason: reason@,
            },
            ChildResult::WaitFailed { reason } => ChildResultView::WaitFailed { reason: reason@ },
        }
    }
}

/// The line that reports that `program` could not be started.
pub open spec fn launch_failure(program: Seq<char>, reason: Seq<char>) -> Seq<SpanView> {
    seq![
        span(Tone::Red, "Failed to execute"@),
        span(Tone::Plain, " "@),
        span(Tone::Red, program),
        span(Tone::Plain, ": "@),
        span(Tone::RedBold, reason),
    ]
}

/// The line that reports that waiting for a program failed.
pub open spec fn wait_failure(reason: Seq<char>) -> Seq<SpanView> {
    seq![
        span(Tone::RedBold, "Failed to wait on child process:"@),
        span(Tone::Plain, " "@),
        span(Tone::Red, reason),
    ]
}

/// What the shell writes to the error stream after the run of `program`:
/// nothing where the program ran to its end, whatever its exit status, and
/// one line with the reason where starting it or waiting for it failed.
pub open spec fn child_diagnostics(program: Seq<char>, result: ChildResultView) -> Seq<
    Seq<SpanView>,
> {
    match result {
        ChildResultView::Exited { .. } => Seq::empty(),
        ChildResultView::LaunchFailed { reason } => seq![launch_failure(program, reason)],
        ChildResultView::WaitFailed { reason } => seq![wait_failure(reason)],
    }
}

/// The lines for the error stream after the run of `program` ended as
/// `result` says. The exit status of a program that ran is not shown.
pub fn report_child(program: &str, result: &ChildResult) -> (diagnostics: Vec<Vec<Span>>)
    ensures
        diagnostics.deep_view() == child_diagnostics(program@, result@),
{
    let mut diagnostics: Vec<Vec<Span>> = Vec::new();
    match result {
        ChildResult::Exited { .. } => {},
        ChildResult::LaunchFailed { reason } => {
            let mut line: Vec<Span> = Vec::new();
            line.push(Span::new(Tone::Red, "Failed to execute"));
            line.push(Span::new(Tone::Plain, " "));
            line.push(Span::new(Tone::Red, program));
            line.push(Span::new(Tone::Plain, ": "));
            line.push(Span::new(Tone::RedBold, reason.as_str()));
            assert(line.deep_view() == launch_failure(program@, reason@));
            diagnostics.push(line);
        },
        ChildResult::WaitFailed { reason } => {
            let mut line: Vec<Span> = Vec::new();
            line.push(Span::new(Tone::RedBold, "Failed to wait on child process:"));
            line.push(Span::new(Tone::Plain, " "));
            line.push(Span::new(Tone::Red, reason.as_str()));
            assert(line.deep_view() == wait_failure(reason@));
            diagnostics.push(line);
        },
    }
    diagnostics
}

} // verus!
