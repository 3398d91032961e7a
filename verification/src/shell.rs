//! The read-eval loop as a state machine.
//!
//! The shell itself never reads, prints or starts anything. It is told what
//! happened, as an [`Event`], and answers with a [`Reaction`]: the lines to
//! write to the two output streams, and a [`Request`] for what to do next.
//! The program that drives the shell carries the request out and comes back
//! with the event that it led to.
//!
//! The shell begins in the phase `Running` and ends in the phase
//! `Terminated`, which it reaches on the command `exit` and at the end of the
//! input. Nothing else ends it: a line that cannot be read, a directory that
//! cannot be entered and a program that cannot be started are reported, and
//! the shell asks for the next line.

use vstd::prelude::*;
use crate::builtins::{
    builtin_named, builtin_of, cd, cd_diagnostics, cd_directory, cd_target, cd_target_of,
    directory_text, env, env_lines, outcome_text, pwd, Builtin,
};
use crate::launcher::{
    child_diagnostics, command_of, launch_failure, report_child, ChildResult, ChildResultView,
    Command, CommandView,
};
use crate::style::{
    lemma_plain_line_renders_as_text, renders, span, Span, SpanView, Tone,
};
use crate::tokenizer::{
    expand, lemma_blank_has_no_words, lemma_word_len_is, parse, parse_command, split_words,
};
use crate::whitespace::is_blank;

verus! {

/// Whether the loop goes on.
#[derive(Clone, Copy, Debug, PartialEq, Eq, Structural)]
pub enum Phase {
    /// The shell reads and runs commands.
    Running,
    /// The shell has ended; it reads no more lines.
    Terminated,
}

/// What the shell knows between two commands.
#[derive(Clone, Debug, PartialEq, Eq)]
pub struct ShellState {
    /// The working directory, as the operating system last reported it.
    pub current_directory: String,
    /// Whether the loop goes on.
    pub phase: Phase,
}

/// The state of the shell as a mathematical value.
pub struct ShellView {
    pub current_directory: Seq<char>,
    pub phase: Phase,
}

impl View for ShellState {
    type V = ShellView;

    open spec fn view(&self) -> ShellView {
        ShellView { current_directory: self.current_directory@, phase: self.phase }
    }
}

/// What happened outside the shell.
#[derive(Debug, PartialEq, Eq)]
pub enum Event {
    /// A line was read. `vars` are the environment variables at that moment,
    /// as pairs of name and value.
    Line { text: String, vars: Vec<(String, String)> },
    /// The input has ended.
    EndOfInput,
    /// Reading a line failed; `reason` is the operating system's description
    /// of the error.
    ReadFailed { reason: String },
    /// The answer to [`Request::ChangeDirectory`]: `Ok` with the working
    /// directory as queried after the change, or `Err` with the operating
    /// system's description of the error.
    Directory { outcome: Result<Option<String>, String> },
    /// The answer to [`Request::ListEnvironment`]: the environment variables,
    /// as pairs of name and value, in the order of the operating system.
    Environment { vars: Vec<(String, String)> },
    /// The answer to [`Request::Launch`]: how the run of `program` ended.
    Child { program: String, result: ChildResult },
}

/// An event as a mathematical value.
pub enum EventView {
    Line { text: Seq<char>, vars: Seq<(Seq<char>, Seq<char>)> },
    EndOfInput,
    ReadFailed { reason: Seq<char> },
    Directory { outcome: Result<Option<Seq<char>>, Seq<char>> },
    Environment { vars: Seq<(Seq<char>, Seq<char>)> },
    Child { program: Seq<char>, result: ChildResultView },
}

impl View for Event {
    type V = EventView;

    open spec fn view(&self) -> EventView {
        match *self {
            Event::Line { text, vars } => EventView::Line {
                text: text@,
                vars: vars.deep_view(),
            },
            Event::EndOfInput => EventView::EndOfInput,
            Event::ReadFailed { reason } => EventView::ReadFailed { reason: reason@ },
            Event::Directory { outcome } => EventView::Directory {
                outcome: outcome_text(outcome),
            },
            Event::Environment { vars } => EventView::Environment { vars: vars.deep_view() },
            Event::Child { program, result } => EventView::Child {
                program: program@,
                result: result@,
            },
        }
    }
}

/// What the shell asks to be done next.
#[derive(Debug, PartialEq, Eq)]
pub enum Request {
    /// Show `prompt`, read a line and come back with [`Event::Line`],
    /// [`Event::EndOfInput`] or [`Event::ReadFailed`].
    ReadLine { prompt: Vec<Span> },
    /// Change the working directory of the process to `target`, query it
    /// where that succeeded, and come back with [`Event::Directory`].
    ChangeDirectory { target: String },
    /// List the environment variables and come back with
    /// [`Event::Environment`].
    ListEnvironment,
    /// Start the program that `command` names, with its arguments and on the
    /// shell's own three streams, wait for its end and come back with
    /// [`Event::Child`].
    Launch { command: Command },
    /// Leave the loop.
    Stop,
}

/// A request as a mathematical value.
pub enum RequestView {
    ReadLine { prompt: Seq<SpanView> },
    ChangeDirectory { target: Seq<char> },
    ListEnvironment,
    Launch { command: CommandView },
    Stop,
}

impl View for Request {
    type V = RequestView;

    open spec fn view(&self) -> RequestView {
        match *self {
            Request::ReadLine { prompt } => RequestView::ReadLine { prompt: prompt.deep_view() },
            Request::ChangeDirectory { target } => RequestView::ChangeDirectory {
                target: target@,
            },
            Request::ListEnvironment => RequestView::ListEnvironment,
            Request::Launch { command } => RequestView::Launch { command: command@ },
            Request::Stop => RequestView::Stop,
        }
    }
}

/// The answer of the shell to an event.
#[derive(Debug, PartialEq, Eq)]
pub struct Reaction {
    /// The lines to write to the standard output, in this order.
    pub stdout: Vec<Vec<Span>>,
    /// The lines to write to the error stream, in this order.
    pub stderr: Vec<Vec<Span>>,
    /// What to do once the lines are written.
    pub request: Request,
}

/// A reaction as a mathematical value.
pub struct ReactionView {
    pub stdout: Seq<Seq<SpanView>>,
    pub stderr: Seq<Seq<SpanView>>,
    pub request: RequestView,
}

impl View for Reaction {
    type V = ReactionView;

    open spec fn view(&self) -> ReactionView {
        ReactionView {
            stdout: self.stdout.deep_view(),
            stderr: self.stderr.deep_view(),
            request: self.request@,
        }
    }
}

/// The prompt in the directory `directory`: the directory in black on a
/// yellow bar, the bar's pointed end, and a space.
pub open spec fn prompt_line(directory: Seq<char>) -> Seq<SpanView> {
    seq![
        span(Tone::OnYellow, " "@),
        span(Tone::BlackOnYellow, directory),
        span(Tone::OnYellow, " "@),
        span(Tone::Yellow, "\u{e0b0}"@),
        span(Tone::Plain, " "@),
    ]
}

/// The line that reports that a line could not be read.
pub open spec fn read_failure(reason: Seq<char>) -> Seq<SpanView> {
    seq![span(Tone::Plain, "Error reading line: "@), span(Tone::Plain, reason)]
}

/// The reaction that writes nothing and asks for `request`.
pub open spec fn quiet(request: RequestView) -> ReactionView {
    ReactionView { stdout: Seq::empty(), stderr: Seq::empty(), request }
}

/// The request for the next line in the state `state`.
pub open spec fn read_next(state: ShellView) -> RequestView {
    RequestView::ReadLine { prompt: prompt_line(state.current_directory) }
}

/// What the shell asks for where it has nothing to write: to stop where it
/// has ended, and the next line otherwise.
pub open spec fn next_request(state: ShellView) -> RequestView {
    if state.phase == Phase::Terminated {
        RequestView::Stop
    } else {
        read_next(state)
    }
}

/// The state `state` after the loop has ended.
pub open spec fn ended(state: ShellView) -> ShellView {
    ShellView { phase: Phase::Terminated, ..state }
}

/// The next state and the reaction of a running shell to the command
/// `command`.
///
/// The built-in commands are run or asked for; any other name is a program
/// to start.
pub open spec fn react_to_command(state: ShellView, command: CommandView) -> (
    ShellView,
    ReactionView,
) {
    match builtin_named(command.name) {
        Some(Builtin::Exit) => (ended(state), quiet(RequestView::Stop)),
        Some(Builtin::Pwd) => (
            state,
            ReactionView {
                stdout: seq![seq![span(Tone::Plain, state.current_directory)]],
                stderr: Seq::empty(),
                request: read_next(state),
            },
        ),
        Some(Builtin::Cd) => (
            state,
            quiet(RequestView::ChangeDirectory { target: cd_target_of(command.args) }),
        ),
        Some(Builtin::Env) => (state, quiet(RequestView::ListEnvironment)),
        None => (state, quiet(RequestView::Launch { command })),
    }
}

/// The next state and the reaction of the shell to the command `command`: a
/// shell that has ended runs nothing and asks to stop.
pub open spec fn dispatched(state: ShellView, command: CommandView) -> (ShellView, ReactionView) {
    if state.phase == Phase::Terminated {
        (state, quiet(RequestView::Stop))
    } else {
        react_to_command(state, command)
    }
}

/// The next state and the reaction of a running shell to a line with the
/// tokens `tokens`: nothing happens where there are none, and otherwise the
/// command that they make is run.
pub open spec fn react_to_tokens(state: ShellView, tokens: Seq<Seq<char>>) -> (
    ShellView,
    ReactionView,
) {
    match command_of(tokens) {
        None => (state, quiet(read_next(state))),
        Some(command) => react_to_command(state, command),
    }
}

/// The next state and the reaction of the shell in the state `state` to the
/// event `event`.
pub open spec fn react(state: ShellView, event: EventView) -> (ShellView, ReactionView) {
    if state.phase == Phase::Terminated {
        (state, quiet(RequestView::Stop))
    } else {
        match event {
            EventView::Line { text, vars } => react_to_tokens(state, parse(text, vars)),
            EventView::EndOfInput => (ended(state), quiet(RequestView::Stop)),
            EventView::ReadFailed { reason } => (
                state,
                ReactionView {
                    stdout: Seq::empty(),
                    stderr: seq![read_failure(reason)],
                    request: read_next(state),
                },
            ),
            EventView::Directory { outcome } => {
                let next = ShellView {
                    current_directory: cd_directory(state.current_directory, outcome),
                    ..state
                };
                (
                    next,
                    ReactionView {
                        stdout: Seq::empty(),
                        stderr: cd_diagnostics(outcome),
                        request: read_next(next),
                    },
                )
            },
            EventView::Environment { vars } => (
                state,
                ReactionView {
                    stdout: env_lines(vars),
                    stderr: Seq::empty(),
                    request: read_next(state),
                },
            ),
            EventView::Child { program, result } => (
                state,
                ReactionView {
                    stdout: Seq::empty(),
                    stderr: child_diagnostics(program, result),
                    request: read_next(state),
                },
            ),
        }
    }
}

impl ShellState {
    /// The shell at its start, in the working directory that the operating
    /// system reported, or in `unknown` where it reported none.
    pub fn new(queried: Option<String>) -> (shell: ShellState)
        ensures
            shell@ == (ShellView {
                current_directory: directory_text(queried.deep_view()),
                phase: Phase::Running,
            }),
    {
        ShellState { current_directory: pwd(queried), phase: Phase::Running }
    }

    /// The prompt: the current directory on a yellow bar.
    pub fn prompt(&self) -> (line: Vec<Span>)
        ensures
            line.deep_view() == prompt_line(self@.current_directory),
    {
        let mut line: Vec<Span> = Vec::new();
        line.push(Span::new(Tone::OnYellow, " "));
        line.push(Span::new(Tone::BlackOnYellow, self.current_directory.as_str()));
        line.push(Span::new(Tone::OnYellow, " "));
        line.push(Span::new(Tone::Yellow, "\u{e0b0}"));
        line.push(Span::new(Tone::Plain, " "));
        line
    }

    /// What the shell asks for first, and again after each command: to stop
    /// where it has ended, and the next line otherwise.
    pub fn request(&self) -> (request: Request)
        ensures
            request@ == next_request(self@),
    {
        if self.phase == Phase::Terminated {
            Request::Stop
        } else {
            Request::ReadLine { prompt: self.prompt() }
        }
    }

    /// Takes the shell from one event to the next request.
    ///
    /// A shell that has ended stays as it is and asks to stop, whatever the
    /// event. A running shell:
    /// - on a line, splits and expands it, and then does nothing for a blank
    ///   line, ends on `exit`, prints its directory on `pwd`, asks for the
    ///   change of directory on `cd` and for the variables on `env`, and asks
    ///   for any other command to be started as a program;
    /// - at the end of the input, ends as on `exit`;
    /// - on a failed read, reports it;
    /// - on the answer to `cd`, takes over the directory that the operating
    ///   system reports, or reports the refusal and stays where it was;
    /// - on the list of variables, prints one line for each;
    /// - on the end of a program's run, reports a failure to start it or to
    ///   wait for it.
    /// Where it has not ended by then, it asks for the next line.
    ///
    /// Each event is taken for what it says: the shell does not hold an
    /// answer against the request that came before it.
    pub fn step(&mut self, event: Event) -> (reaction: Reaction)
        ensures
            (final(self)@, reaction@) == react(old(self)@, event@),
    {
        let mut stdout: Vec<Vec<Span>> = Vec::new();
        let mut stderr: Vec<Vec<Span>> = Vec::new();
        assert(stderr.deep_view() == Seq::<Seq<SpanView>>::empty());
        if self.phase == Phase::Terminated {
            return Reaction { stdout, stderr, request: Request::Stop };
        }
        match event {
            Event::Line { text, vars } => {
                let tokens = parse_command(text.as_str(), &vars);
                match Command::from_tokens(tokens) {
                    Some(command) => {
                        return self.dispatch(command);
                    },
                    None => {},
                }
            },
            Event::EndOfInput => {
                self.phase = Phase::Terminated;
            },
            Event::ReadFailed { reason } => {
                let mut line: Vec<Span> = Vec::new();
                line.push(Span::new(Tone::Plain, "Error reading line: "));
                line.push(Span::new(Tone::Plain, reason.as_str()));
                assert(line.deep_view() == read_failure(reason@));
                stderr.push(line);
                assert(stderr.deep_view() == seq![line.deep_view()]);
            },
            Event::Directory { outcome } => {
                stderr = cd(outcome, &mut self.current_directory);
            },
            Event::Environment { vars } => {
                stdout = env(&vars);
            },
            Event::Child { program, result } => {
                stderr = report_child(program.as_str(), &result);
            },
        }
        let request = self.request();
        Reaction { stdout, stderr, request }
    }

    /// Runs `command` where it is a built-in command, and asks for it to be
    /// started as a program where it is not. A shell that has ended runs
    /// nothing and asks to stop.
    pub fn dispatch(&mut self, command: Command) -> (reaction: Reaction)
        ensures
            (final(self)@, reaction@) == dispatched(old(self)@, command@),
    {
        let mut stdout: Vec<Vec<Span>> = Vec::new();
        let stderr: Vec<Vec<Span>> = Vec::new();
        assert(stderr.deep_view() == Seq::<Seq<SpanView>>::empty());
        if self.phase == Phase::Terminated {
            return Reaction { stdout, stderr, request: Request::Stop };
        }
        let request = match builtin_of(command.name.as_str()) {
            Some(Builtin::Exit) => {
                self.phase = Phase::Terminated;
                Request::Stop
            },
            Some(Builtin::Pwd) => {
                let mut line: Vec<Span> = Vec::new();
                line.push(Span::new(Tone::Plain, self.current_directory.as_str()));
                assert(line.deep_view() == seq![span(Tone::Plain, self@.current_directory)]);
                stdout.push(line);
                assert(stdout.deep_view() == seq![line.deep_view()]);
                self.request()
            },
            Some(Builtin::Cd) => Request::ChangeDirectory { target: cd_target(&command.args) },
            Some(Builtin::Env) => Request::ListEnvironment,
            None => Request::Launch { command },
        };
        Reaction { stdout, stderr, request }
    }
}

/// The state of the shell after the events `events`, one after the other.
pub open spec fn after(state: ShellView, events: Seq<EventView>) -> ShellView
    decreases events.len(),
{
    if events.len() == 0 {
        state
    } else {
        react(after(state, events.drop_last()), events.last()).0
    }
}

/// The directory that the answers to `cd` among `events` lead to, one after
/// the other, from the directory `start`.
pub open spec fn last_directory(start: Seq<char>, events: Seq<EventView>) -> Seq<char>
    decreases events.len(),
{
    if events.len() == 0 {
        start
    } else {
        let before = last_directory(start, events.drop_last());
        match events.last() {
            EventView::Directory { outcome } => cd_directory(before, outcome),
            _ => before,
        }
    }
}

/// The line `exit` has the one token `exit`, whatever the variables.
pub proof fn lemma_exit_line(vars: Seq<(Seq<char>, Seq<char>)>)
    ensures
        parse("exit"@, vars) == seq!["exit"@],
{
    reveal_strlit("exit");
    let line = "exit"@;
    lemma_word_len_is(line, 4);
    assert(line.take(4) == line);
    assert(split_words(line.skip(4)) == Seq::<Seq<char>>::empty());
}

/// A blank line does nothing: the shell stays as it is, writes nothing and
/// asks for the next line.
pub proof fn lemma_blank_line_does_nothing(
    state: ShellView,
    text: Seq<char>,
    vars: Seq<(Seq<char>, Seq<char>)>,
)
    requires
        state.phase == Phase::Running,
        is_blank(text),
    ensures
        react(state, EventView::Line { text, vars }) == (state, quiet(read_next(state))),
{
    lemma_blank_has_no_words(text);
}

/// A line whose first token is `exit` ends the shell: it writes nothing and
/// asks to stop.
pub proof fn lemma_exit_ends_the_shell(
    state: ShellView,
    text: Seq<char>,
    vars: Seq<(Seq<char>, Seq<char>)>,
)
    requires
        state.phase == Phase::Running,
        parse(text, vars).len() > 0,
        parse(text, vars)[0] == "exit"@,
    ensures
        react(state, EventView::Line { text, vars }) == (ended(state), quiet(RequestView::Stop)),
{
}

/// The line `exit` ends a running shell.
pub proof fn lemma_sole_exit_ends_the_shell(state: ShellView, vars: Seq<(Seq<char>, Seq<char>)>)
    requires
        state.phase == Phase::Running,
    ensures
        react(state, EventView::Line { text: "exit"@, vars }) == (
            ended(state),
            quiet(RequestView::Stop),
        ),
{
    lemma_exit_line(vars);
}

/// A shell that has ended reads no more lines: whatever the event, it stays
/// as it is, writes nothing and asks to stop.
pub proof fn lemma_ended_shell_only_stops(state: ShellView, event: EventView)
    requires
        state.phase == Phase::Terminated,
    ensures
        react(state, event) == (state, quiet(RequestView::Stop)),
{
}

/// Once ended, the shell stays ended and keeps its directory, whatever
/// events follow.
pub proof fn lemma_ended_shell_stays_ended(state: ShellView, events: Seq<EventView>)
    requires
        state.phase == Phase::Terminated,
    ensures
        after(state, events) == state,
    decreases events.len(),
{
    if events.len() > 0 {
        lemma_ended_shell_stays_ended(state, events.drop_last());
    }
}

/// The end of the input ends the shell as `exit` does: the same next state
/// and the same reaction, in every state.
pub proof fn lemma_end_of_input_is_exit(
    state: ShellView,
    text: Seq<char>,
    vars: Seq<(Seq<char>, Seq<char>)>,
)
    requires
        parse(text, vars).len() > 0,
        parse(text, vars)[0] == "exit"@,
    ensures
        react(state, EventView::EndOfInput) == react(state, EventView::Line { text, vars }),
{
}

/// `pwd` prints the directory that the shell holds, and asks the operating
/// system for nothing: the next request is for the next line.
pub proof fn lemma_pwd_prints_stored_directory(
    state: ShellView,
    text: Seq<char>,
    vars: Seq<(Seq<char>, Seq<char>)>,
)
    requires
        state.phase == Phase::Running,
        parse(text, vars).len() > 0,
        parse(text, vars)[0] == "pwd"@,
    ensures
        react(state, EventView::Line { text, vars }) == (
            state,
            ReactionView {
                stdout: seq![seq![span(Tone::Plain, state.current_directory)]],
                stderr: Seq::empty(),
                request: read_next(state),
            },
        ),
{
    reveal_strlit("pwd");
    reveal_strlit("exit");
    assert("pwd"@.len() != "exit"@.len());
}

/// Only an answer to `cd` changes the directory: while the shell runs, its
/// directory is the one that the answers so far lead to.
pub proof fn lemma_directory_follows_cd(state: ShellView, events: Seq<EventView>)
    requires
        after(state, events).phase == Phase::Running,
    ensures
        after(state, events).current_directory == last_directory(state.current_directory, events),
    decreases events.len(),
{
    if events.len() > 0 {
        let before = after(state, events.drop_last());
        if before.phase == Phase::Running {
            lemma_directory_follows_cd(state, events.drop_last());
        }
    }
}

/// The answer to `cd` after a change makes the reported directory the
/// current one; after a refusal the directory stays, and the reason is
/// written to the error stream. Either way the shell asks for the next line.
pub proof fn lemma_cd_outcome(state: ShellView, outcome: Result<Option<Seq<char>>, Seq<char>>)
    requires
        state.phase == Phase::Running,
    ensures
        outcome matches Ok(Some(path)) ==> react(state, EventView::Directory { outcome }) == (
            ShellView { current_directory: path, ..state },
            quiet(read_next(ShellView { current_directory: path, ..state })),
        ),
        outcome matches Err(reason) ==> react(state, EventView::Directory { outcome }) == (
            state,
            ReactionView {
                stdout: Seq::empty(),
                stderr: seq![seq![span(Tone::Plain, "cd error: "@), span(Tone::Plain, reason)]],
                request: read_next(state),
            },
        ),
{
}

/// A program that could not be started is reported on the error stream, and
/// the shell goes on: it stays as it is and asks for the next line.
pub proof fn lemma_failed_launch_is_reported(
    state: ShellView,
    program: Seq<char>,
    reason: Seq<char>,
)
    requires
        state.phase == Phase::Running,
    ensures
        react(
            state,
            EventView::Child { program, result: ChildResultView::LaunchFailed { reason } },
        ) == (
            state,
            ReactionView {
                stdout: Seq::empty(),
                stderr: seq![launch_failure(program, reason)],
                request: read_next(state),
            },
        ),
{
}

/// What `pwd` prints reads as the directory that the shell holds, letter for
/// letter, with or without colour on the terminal.
pub proof fn lemma_pwd_output_is_the_directory(directory: Seq<char>, out: Seq<char>)
    ensures
        renders(seq![span(Tone::Plain, directory)], out) <==> out == directory,
{
    let line = seq![span(Tone::Plain, directory)];
    lemma_plain_line_renders_as_text(line, out);
    let texts = line.map_values(|s: SpanView| s.text);
    texts.lemma_flatten_one_element();
}

/// The line that reports a refused `cd` reads as `cd error: ` followed by the
/// reason that the operating system gave.
pub proof fn lemma_cd_refusal_gives_the_reason(reason: Seq<char>, out: Seq<char>)
    ensures
        renders(cd_diagnostics(Err(reason))[0], out) <==> out == "cd error: "@ + reason,
{
    let line = cd_diagnostics(Err(reason))[0];
    lemma_plain_line_renders_as_text(line, out);
    let texts = line.map_values(|s: SpanView| s.text);
    assert(texts == seq!["cd error: "@].push(reason));
    seq!["cd error: "@].lemma_flatten_push(reason);
    seq!["cd error: "@].lemma_flatten_one_element();
}

} // verus!
