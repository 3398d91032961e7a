//! The commands that the shell runs itself.
//!
//! `exit`, `pwd`, `cd` and `env` are handled by the shell. What they need from
//! the operating system (the working directory, the change of it, the list of
//! variables) is handed in as plain values by the program that drives the
//! shell.

use vstd::prelude::*;
use crate::style::{span, Span, SpanView, Tone};
use crate::text::same_text;

verus! {

/// A command that the shell handles without starting a process.
#[derive(Clone, Copy, Debug, PartialEq, Eq, Structural)]
pub enum Builtin {
    /// `exit`: leave the shell.
    Exit,
    /// `pwd`: print the current directory.
    Pwd,
    /// `cd`: change the current directory.
    Cd,
    /// `env`: list the environment variables.
    Env,
}

/// The built-in command that `name` stands for, if it is one. Names are
/// matched exactly, letter case included.
pub open spec fn builtin_named(name: Seq<char>) -> Option<Builtin> {
    if name == "exit"@ {
        Some(Builtin::Exit)
    } else if name == "pwd"@ {
        Some(Builtin::Pwd)
    } else if name == "cd"@ {
        Some(Builtin::Cd)
    } else if name == "env"@ {
        Some(Builtin::Env)
    } else {
        None
    }
}

/// The text by which the shell knows its directory: the path that the
/// operating system reported, or `unknown` where it reported none.
pub open spec fn directory_text(queried: Option<Seq<char>>) -> Seq<char> {
    match queried {
        Some(path) => path,
        None => "unknown"@,
    }
}

/// The directory that `cd` goes to: its first argument, or the root directory
/// where it has none.
pub open spec fn cd_target_of(args: Seq<Seq<char>>) -> Seq<char> {
    if args.len() > 0 {
        args[0]
    } else {
        "/"@
    }
}

/// The directory that the shell is in after `cd`, given the directory before
/// and what the operating system answered: the path it reports after a change,
/// and the directory as it was where it refused the change.
pub open spec fn cd_directory(
    before: Seq<char>,
    outcome: Result<Option<Seq<char>>, Seq<char>>,
) -> Seq<char> {
    match outcome {
        Ok(queried) => directory_text(queried),
        Err(_) => before,
    }
}

/// What `cd` writes to the error stream: nothing after a change, and one line
/// with the operating system's reason where it refused the change.
pub open spec fn cd_diagnostics(outcome: Result<Option<Seq<char>>, Seq<char>>) -> Seq<
    Seq<SpanView>,
> {
    match outcome {
        Ok(_) => Seq::empty(),
        Err(reason) => seq![seq![span(Tone::Plain, "cd error: "@), span(Tone::Plain, reason)]],
    }
}

/// The line that `env` prints for one variable: its name in green, then
/// ` = ` and its value.
pub open spec fn env_line(name: Seq<char>, value: Seq<char>) -> Seq<SpanView> {
    seq![span(Tone::Green, name), span(Tone::Plain, " = "@), span(Tone::Plain, value)]
}

/// The lines that `env` prints: one for each variable, in the order given.
pub open spec fn env_lines(vars: Seq<(Seq<char>, Seq<char>)>) -> Seq<Seq<SpanView>> {
    vars.map_values(|v: (Seq<char>, Seq<char>)| env_line(v.0, v.1))
}

/// What the operating system answered to a change of directory, as a
/// mathematical value.
pub open spec fn outcome_text(outcome: Result<Option<String>, String>) -> Result<
    Option<Seq<char>>,
    Seq<char>,
> {
    match outcome {
        Ok(queried) => Ok(queried.deep_view()),
        Err(reason) => Err(reason@),
    }
}

/// Tells which built-in command `name` is, or `None` where it is the name of
/// a program.
pub fn builtin_of(name: &str) -> (found: Option<Builtin>)
    ensures
        found == builtin_named(name@),
{
    if same_text(name, "exit") {
        Some(Builtin::Exit)
    } else if same_text(name, "pwd") {
        Some(Builtin::Pwd)
    } else if same_text(name, "cd") {
        Some(Builtin::Cd)
    } else if same_text(name, "env") {
        Some(Builtin::Env)
    } else {
        None
    }
}

/// The working directory as text, from what the operating system answered
/// when asked for it: the path, or `unknown` where the query failed.
pub fn pwd(queried: Option<String>) -> (directory: String)
    ensures
        directory@ == directory_text(queried.deep_view()),
{
    match queried {
        Some(path) => path,
        None => "unknown".to_owned(),
    }
}

/// The directory that `cd` with the arguments `args` asks the operating
/// system to change to.
pub fn cd_target(args: &Vec<String>) -> (target: String)
    ensures
        target@ == cd_target_of(args.deep_view()),
{
    if args.len() > 0 {
        args[0].clone()
    } else {
        "/".to_owned()
    }
}

/// Completes `cd` with the answer of the operating system.
///
/// `outcome` is `Ok` with the working directory as queried after the change,
/// or `Err` with the reason for which the change was refused. After a change
/// `directory` is what the operating system reports, not what was asked for.
/// After a refusal `directory` is left as it was, and the result is the line
/// for the error stream.
pub fn cd(outcome: Result<Option<String>, String>, directory: &mut String) -> (diagnostics: Vec<
    Vec<Span>,
>)
    ensures
        final(directory)@ == cd_directory(old(directory)@, outcome_text(outcome)),
        diagnostics.deep_view() == cd_diagnostics(outcome_text(outcome)),
{
    let mut diagnostics: Vec<Vec<Span>> = Vec::new();
    match outcome {
        Ok(queried) => {
            *directory = pwd(queried);
        },
        Err(reason) => {
            let mut line: Vec<Span> = Vec::new();
            line.push(Span::new(Tone::Plain, "cd error: "));
            line.push(Span::new(Tone::Plain, reason.as_str()));
            assert(line.deep_view() == seq![
                span(Tone::Plain, "cd error: "@),
                span(Tone::Plain, reason@),
            ]);
            diagnostics.push(line);
        },
    }
    diagnostics
}

/// The lines that `env` prints for the variables `vars`: for each of them its
/// name in green, ` = ` and its value, in the order in which they are given.
pub fn env(vars: &Vec<(String, String)>) -> (lines: Vec<Vec<Span>>)
    ensures
        lines.deep_view() == env_lines(vars.deep_view()),
{
    let mut lines: Vec<Vec<Span>> = Vec::new();
    let mut i: usize = 0;
    while i < vars.len()
        invariant
            i <= vars.len(),
            lines.deep_view() == env_lines(vars.deep_view()).take(i as int),
        decreases vars.len() - i,
    {
        let mut line: Vec<Span> = Vec::new();
        line.push(Span::new(Tone::Green, vars[i].0.as_str()));
        line.push(Span::new(Tone::Plain, " = "));
        line.push(Span::new(Tone::Plain, vars[i].1.as_str()));
        let ghost all = env_lines(vars.deep_view());
        assert(line.deep_view() == all[i as int]);
        lines.push(line);
        assert(all.take(i + 1) == all.take(i as int).push(all[i as int]));
        i = i + 1;
    }
    lines
}

} // verus!
