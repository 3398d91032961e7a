use linesh::launcher::{ChildResult, Command};
use linesh::shell::{Event, Phase, Reaction, Request, ShellState};
use linesh::style::{render, Span, Tone};

fn plain_span(text: &str) -> Span {
    Span::new(Tone::Plain, text)
}

fn prompt_in(directory: &str) -> Vec<Span> {
    vec![
        Span::new(Tone::OnYellow, " "),
        Span::new(Tone::BlackOnYellow, directory),
        Span::new(Tone::OnYellow, " "),
        Span::new(Tone::Yellow, "\u{e0b0}"),
        plain_span(" "),
    ]
}

fn read_in(directory: &str) -> Reaction {
    Reaction {
        stdout: Vec::new(),
        stderr: Vec::new(),
        request: Request::ReadLine { prompt: prompt_in(directory) },
    }
}

fn only(request: Request) -> Reaction {
    Reaction { stdout: Vec::new(), stderr: Vec::new(), request }
}

fn launch(program: &str, args: &[&str]) -> Reaction {
    only(Request::Launch { command: Command { name: program.to_string(), args: list(args) } })
}

fn line(text: &str) -> Event {
    Event::Line { text: text.to_string(), vars: Vec::new() }
}

fn line_with(text: &str, vars: &[(&str, &str)]) -> Event {
    Event::Line {
        text: text.to_string(),
        vars: vars.iter().map(|(n, v)| (n.to_string(), v.to_string())).collect(),
    }
}

fn shell_in(directory: &str) -> ShellState {
    ShellState::new(Some(directory.to_string()))
}

fn list(items: &[&str]) -> Vec<String> {
    items.iter().map(|w| w.to_string()).collect()
}

#[test]
fn shell_starts_running_in_the_reported_directory() {
    let shell = shell_in("/home/user");
    assert_eq!(shell.current_directory, "/home/user");
    assert_eq!(shell.phase, Phase::Running);
    assert_eq!(shell.request(), Request::ReadLine { prompt: prompt_in("/home/user") });
    let lost = ShellState::new(None);
    assert_eq!(lost.current_directory, "unknown");
    assert_eq!(lost.phase, Phase::Running);
}

#[test]
fn prompt_shows_the_directory() {
    let shell = shell_in("/srv/data");
    assert_eq!(shell.prompt(), prompt_in("/srv/data"));
    colored::control::set_override(false);
    assert_eq!(render(&shell.prompt()), " /srv/data \u{e0b0} ");
    colored::control::set_override(true);
    assert_eq!(
        render(&shell.prompt()),
        "\u{1b}[43m \u{1b}[0m\u{1b}[43;30m/srv/data\u{1b}[0m\u{1b}[43m \u{1b}[0m\
         \u{1b}[33m\u{e0b0}\u{1b}[0m "
    );
    colored::control::unset_override();
}

#[test]
fn blank_line_does_nothing() {
    for text in ["", " ", "   \t  ", "\u{a0}\u{3000}", "\r"] {
        let mut shell = shell_in("/a");
        assert_eq!(shell.step(line(text)), read_in("/a"), "{:?}", text);
        assert_eq!(shell, shell_in("/a"));
    }
}

#[test]
fn exit_ends_the_shell() {
    let mut shell = shell_in("/a");
    assert_eq!(shell.step(line("exit")), only(Request::Stop));
    assert_eq!(shell.phase, Phase::Terminated);
    assert_eq!(shell.current_directory, "/a");
    assert_eq!(shell.request(), Request::Stop);
}

#[test]
fn exit_with_arguments_or_spaces_ends_the_shell() {
    for text in ["  exit  ", "exit 3", "exit now please", "\texit"] {
        let mut shell = shell_in("/a");
        assert_eq!(shell.step(line(text)), only(Request::Stop), "{:?}", text);
        assert_eq!(shell.phase, Phase::Terminated);
    }
}

#[test]
fn ended_shell_reads_no_more_lines() {
    let mut shell = shell_in("/a");
    shell.step(line("exit"));
    let ended = shell.clone();
    let events = vec![
        line("pwd"),
        line("ls"),
        line(""),
        Event::EndOfInput,
        Event::ReadFailed { reason: "broken".to_string() },
        Event::Directory { outcome: Ok(Some("/b".to_string())) },
        Event::Directory { outcome: Err("denied".to_string()) },
        Event::Environment { vars: vec![("A".to_string(), "1".to_string())] },
        Event::Child {
            program: "ls".to_string(),
            result: ChildResult::LaunchFailed { reason: "gone".to_string() },
        },
    ];
    for event in events {
        assert_eq!(shell.step(event), only(Request::Stop));
        assert_eq!(shell, ended);
    }
}

#[test]
fn end_of_input_ends_the_shell_as_exit_does() {
    let mut by_exit = shell_in("/a");
    let mut by_end = shell_in("/a");
    let after_exit = by_exit.step(line("exit"));
    let after_end = by_end.step(Event::EndOfInput);
    assert_eq!(after_end, only(Request::Stop));
    assert_eq!(after_end, after_exit);
    assert_eq!(by_end, by_exit);
    assert_eq!(by_end.phase, Phase::Terminated);
}

#[test]
fn names_of_builtins_are_case_sensitive() {
    let mut shell = shell_in("/a");
    assert_eq!(
        shell.step(line("EXIT")),
        launch("EXIT", &[])
    );
    assert_eq!(
        shell.step(line("Pwd")),
        launch("Pwd", &[])
    );
    assert_eq!(shell.phase, Phase::Running);
}

#[test]
fn pwd_prints_the_stored_directory() {
    let mut shell = shell_in("/home/user");
    let reaction = shell.step(line("pwd"));
    assert_eq!(
        reaction,
        Reaction {
            stdout: vec![vec![plain_span("/home/user")]],
            stderr: Vec::new(),
            request: Request::ReadLine { prompt: prompt_in("/home/user") },
        }
    );
    assert_eq!(render(&reaction.stdout[0]), "/home/user");
    assert_eq!(shell, shell_in("/home/user"));
    let again = shell.step(line("pwd ignored arguments"));
    assert_eq!(again.stdout, vec![vec![plain_span("/home/user")]]);
}

#[test]
fn pwd_prints_the_last_directory_that_cd_took() {
    let mut shell = shell_in("/start");
    shell.step(line("cd first"));
    shell.step(Event::Directory { outcome: Ok(Some("/start/first".to_string())) });
    shell.step(line("cd nowhere"));
    shell.step(Event::Directory { outcome: Err("No such file or directory".to_string()) });
    shell.step(line("ls"));
    shell.step(Event::Child {
        program: "ls".to_string(),
        result: ChildResult::Exited { status: Some(0) },
    });
    let reaction = shell.step(line("pwd"));
    assert_eq!(reaction.stdout, vec![vec![plain_span("/start/first")]]);
    assert_eq!(reaction.request, Request::ReadLine { prompt: prompt_in("/start/first") });
}

#[test]
fn cd_asks_for_its_first_argument_or_the_root() {
    let mut shell = shell_in("/a");
    assert_eq!(
        shell.step(line("cd /tmp")),
        only(Request::ChangeDirectory { target: "/tmp".to_string() })
    );
    assert_eq!(
        shell.step(line("cd")),
        only(Request::ChangeDirectory { target: "/".to_string() })
    );
    assert_eq!(
        shell.step(line("  cd   ..   more ")),
        only(Request::ChangeDirectory { target: "..".to_string() })
    );
    assert_eq!(
        shell.step(line_with("cd $HOME", &[("HOME", "/home/me")])),
        only(Request::ChangeDirectory { target: "/home/me".to_string() })
    );
    assert_eq!(
        shell.step(line_with("cd $NOWHERE", &[("HOME", "/home/me")])),
        only(Request::ChangeDirectory { target: String::new() })
    );
    assert_eq!(shell, shell_in("/a"));
}

#[test]
fn cd_to_a_valid_directory_takes_the_resolved_path() {
    let mut shell = shell_in("/home/user");
    assert_eq!(
        shell.step(line("cd ../tmp/link")),
        only(Request::ChangeDirectory { target: "../tmp/link".to_string() })
    );
    assert_eq!(shell.current_directory, "/home/user");
    let reaction = shell.step(Event::Directory { outcome: Ok(Some("/var/real".to_string())) });
    assert_eq!(reaction, read_in("/var/real"));
    assert_eq!(shell.current_directory, "/var/real");
    assert_eq!(shell.phase, Phase::Running);
}

#[test]
fn cd_to_a_missing_directory_changes_nothing_and_reports() {
    let mut shell = shell_in("/home/user");
    shell.step(line("cd /no/such/dir"));
    let reaction = shell.step(Event::Directory {
        outcome: Err("No such file or directory (os error 2)".to_string()),
    });
    assert_eq!(
        reaction,
        Reaction {
            stdout: Vec::new(),
            stderr: vec![vec![
                plain_span("cd error: "),
                plain_span("No such file or directory (os error 2)"),
            ]],
            request: Request::ReadLine { prompt: prompt_in("/home/user") },
        }
    );
    assert_eq!(render(&reaction.stderr[0]), "cd error: No such file or directory (os error 2)");
    assert_eq!(shell, shell_in("/home/user"));
}

#[test]
fn cd_that_cannot_query_the_directory_is_in_unknown() {
    let mut shell = shell_in("/home/user");
    assert_eq!(shell.step(Event::Directory { outcome: Ok(None) }), read_in("unknown"));
    assert_eq!(shell.current_directory, "unknown");
}

#[test]
fn env_asks_for_the_variables_and_prints_them() {
    let mut shell = shell_in("/a");
    assert_eq!(shell.step(line("env")), only(Request::ListEnvironment));
    let vars = vec![
        ("B".to_string(), "2".to_string()),
        ("A".to_string(), "1".to_string()),
    ];
    let reaction = shell.step(Event::Environment { vars });
    assert_eq!(
        reaction,
        Reaction {
            stdout: vec![
                vec![Span::new(Tone::Green, "B"), plain_span(" = "), plain_span("2")],
                vec![Span::new(Tone::Green, "A"), plain_span(" = "), plain_span("1")],
            ],
            stderr: Vec::new(),
            request: Request::ReadLine { prompt: prompt_in("/a") },
        }
    );
    assert_eq!(shell, shell_in("/a"));
}

#[test]
fn other_commands_are_launched_with_their_arguments() {
    let mut shell = shell_in("/a");
    assert_eq!(
        shell.step(line("ls")),
        launch("ls", &[])
    );
    assert_eq!(
        shell.step(line("  grep  -n   main  src/main.rs ")),
        launch("grep", &["-n", "main", "src/main.rs"])
    );
    assert_eq!(
        shell.step(line_with("echo $USER $NOBODY $", &[("USER", "me")])),
        launch("echo", &["me", "", "$"])
    );
    assert_eq!(shell, shell_in("/a"));
}

#[test]
fn command_is_matched_after_expansion() {
    let mut shell = shell_in("/a");
    assert_eq!(
        shell.step(line_with("$CMD x", &[("CMD", "cd")])),
        only(Request::ChangeDirectory { target: "x".to_string() })
    );
    assert_eq!(
        shell.step(line_with("$UNSET x", &[])),
        launch("", &["x"])
    );
    assert_eq!(shell.step(line_with("$CMD", &[("CMD", "exit")])), only(Request::Stop));
    assert_eq!(shell.phase, Phase::Terminated);
}

#[test]
fn finished_program_is_not_reported() {
    let mut shell = shell_in("/a");
    for status in [Some(0), Some(1), Some(127), None] {
        let reaction = shell.step(Event::Child {
            program: "prog".to_string(),
            result: ChildResult::Exited { status },
        });
        assert_eq!(reaction, read_in("/a"));
    }
    assert_eq!(shell, shell_in("/a"));
}

#[test]
fn missing_program_is_reported_and_the_loop_goes_on() {
    let mut shell = shell_in("/a");
    assert_eq!(
        shell.step(line("nosuchbinary -x")),
        launch("nosuchbinary", &["-x"])
    );
    let reaction = shell.step(Event::Child {
        program: "nosuchbinary".to_string(),
        result: ChildResult::LaunchFailed {
            reason: "No such file or directory (os error 2)".to_string(),
        },
    });
    assert_eq!(
        reaction,
        Reaction {
            stdout: Vec::new(),
            stderr: vec![vec![
                Span::new(Tone::Red, "Failed to execute"),
                plain_span(" "),
                Span::new(Tone::Red, "nosuchbinary"),
                plain_span(": "),
                Span::new(Tone::RedBold, "No such file or directory (os error 2)"),
            ]],
            request: Request::ReadLine { prompt: prompt_in("/a") },
        }
    );
    assert_eq!(shell, shell_in("/a"));
    assert_eq!(
        shell.step(line("echo still here")),
        launch("echo", &["still", "here"])
    );
}

#[test]
fn failed_wait_is_reported_and_the_loop_goes_on() {
    let mut shell = shell_in("/a");
    let reaction = shell.step(Event::Child {
        program: "cat".to_string(),
        result: ChildResult::WaitFailed { reason: "Interrupted".to_string() },
    });
    assert_eq!(
        reaction,
        Reaction {
            stdout: Vec::new(),
            stderr: vec![vec![
                Span::new(Tone::RedBold, "Failed to wait on child process:"),
                plain_span(" "),
                Span::new(Tone::Red, "Interrupted"),
            ]],
            request: Request::ReadLine { prompt: prompt_in("/a") },
        }
    );
    assert_eq!(shell, shell_in("/a"));
}

#[test]
fn failed_read_is_reported_and_the_loop_goes_on() {
    let mut shell = shell_in("/a");
    let reaction = shell.step(Event::ReadFailed {
        reason: "stream did not contain valid UTF-8".to_string(),
    });
    assert_eq!(
        reaction,
        Reaction {
            stdout: Vec::new(),
            stderr: vec![vec![
                plain_span("Error reading line: "),
                plain_span("stream did not contain valid UTF-8"),
            ]],
            request: Request::ReadLine { prompt: prompt_in("/a") },
        }
    );
    assert_eq!(
        render(&reaction.stderr[0]),
        "Error reading line: stream did not contain valid UTF-8"
    );
    assert_eq!(shell, shell_in("/a"));
}

#[test]
fn dispatch_runs_builtins_and_launches_the_rest() {
    let mut shell = shell_in("/a");
    let cd = Command { name: "cd".to_string(), args: list(&["/tmp", "x"]) };
    assert_eq!(
        shell.dispatch(cd),
        only(Request::ChangeDirectory { target: "/tmp".to_string() })
    );
    let pwd = Command { name: "pwd".to_string(), args: Vec::new() };
    assert_eq!(shell.dispatch(pwd).stdout, vec![vec![plain_span("/a")]]);
    let env = Command { name: "env".to_string(), args: Vec::new() };
    assert_eq!(shell.dispatch(env), only(Request::ListEnvironment));
    let other = Command { name: "make".to_string(), args: list(&["-j", "4"]) };
    assert_eq!(shell.dispatch(other), launch("make", &["-j", "4"]));
    assert_eq!(shell, shell_in("/a"));
    let exit = Command { name: "exit".to_string(), args: Vec::new() };
    assert_eq!(shell.dispatch(exit), only(Request::Stop));
    assert_eq!(shell.phase, Phase::Terminated);
    let late = Command { name: "pwd".to_string(), args: Vec::new() };
    assert_eq!(shell.dispatch(late), only(Request::Stop));
}
