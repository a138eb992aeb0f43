use tmuxify::cli::{run_command, Args, Commands, Task};
use tmuxify::error::{MissingDependency, TmuxifyError};
use tmuxify::model::{Config, Pane, TmuxpLocation, Window, WindowLayout};
use tmuxify::ops::interactive::{
    commands_in, is_command, session_name_for, Answer, Reply, Request, Stage, Wizard,
};
use tmuxify::ops::write::{WriteOptions, WriteResult};
use tmuxify::ui::{Line, Span, Tone};

fn no_args() -> Args {
    Args {
        command: None,
        dry_run: false,
        force: false,
        project: None,
        tmuxp_location: None,
        session: None,
        start_dir: None,
    }
}

fn texts(reply: &Reply) -> Vec<String> {
    reply.lines.iter().map(|l| l.text()).collect()
}

fn confirm(prompt: &str, default: bool) -> Request {
    Request::Confirm { prompt: prompt.to_string(), default }
}

fn result() -> WriteResult {
    WriteResult {
        tmuxp_path: "/home/u/proj/.tmuxp.yaml".to_string(),
        envrc_path: "/home/u/proj/.envrc".to_string(),
        tmuxp_backed_up: true,
        envrc_backed_up: false,
    }
}

/// Answers up to the first window of a session in `/home/u/proj`.
fn at_first_window(args: Args) -> Wizard {
    let (w, _) = Wizard::new(args, false);
    let (w, _) = w.step(Answer::Dependencies(Ok(())));
    let (w, _) = w.step(Answer::CurrentDir("/home/u/proj".to_string()));
    let (w, _) = w.step(Answer::Text("demo".to_string()));
    let (w, _) = w.step(Answer::Chosen(1));
    w
}

/// Answers up to the question whether to write, for a session of one window
/// with one pane that runs nothing.
fn at_proceed(args: Args) -> Wizard {
    let w = at_first_window(args);
    let (w, _) = w.step(Answer::Text(String::new()));
    let (w, _) = w.step(Answer::Chosen(0));
    let (w, _) = w.step(Answer::Number(1));
    let (w, _) = w.step(Answer::Chosen(2));
    let (w, _) = w.step(Answer::Confirmed(false));
    let (w, _) = w.step(Answer::Rendered(Ok("yaml".to_string())));
    w
}

#[test]
fn run_command_picks_the_task() {
    assert_eq!(run_command(&no_args()), Task::Configure);
    let mut args = no_args();
    args.command = Some(Commands::Doctor);
    assert_eq!(run_command(&args), Task::Doctor);
}

#[test]
fn wizard_greets_and_checks_the_programs() {
    let (w, reply) = Wizard::new(no_args(), false);
    assert_eq!(texts(&reply), vec!["Welcome to tmuxify!", ""]);
    assert_eq!(reply.lines[0].spans[0].tone, Tone::Title);
    assert_eq!(reply.request, Request::Dependencies);
    assert_eq!(w.stage, Stage::Dependencies);
    assert_eq!(w.request(), Request::Dependencies);
    assert!(!w.is_finished());
}

#[test]
fn wizard_walks_through_a_whole_session() {
    let (w, _) = Wizard::new(no_args(), false);
    let (w, reply) = w.step(Answer::Dependencies(Ok(())));
    assert_eq!(reply.request, Request::CurrentDir);
    assert!(reply.lines.is_empty());

    let (w, reply) = w.step(Answer::CurrentDir("/home/u/proj".to_string()));
    assert_eq!(
        reply.request,
        Request::Text {
            prompt: "Session name".to_string(),
            default: Some("proj".to_string()),
            allow_empty: false,
        }
    );

    let (w, reply) = w.step(Answer::Text("demo".to_string()));
    assert_eq!(
        reply.request,
        Request::Choice {
            prompt: "Where should the tmuxp config be stored?".to_string(),
            items: vec!["home (~/.tmuxp/)".to_string(), "project (./.tmuxp.yaml)".to_string()],
            default: 0,
        }
    );

    let (w, reply) = w.step(Answer::Chosen(1));
    assert_eq!(w.location, TmuxpLocation::Project);
    assert_eq!(texts(&reply), vec!["", "Configuring windows and panes...", "", "Window #1"]);
    assert_eq!(
        reply.request,
        Request::Text {
            prompt: "  Window name (optional, press Enter to skip)".to_string(),
            default: None,
            allow_empty: true,
        }
    );

    let (w, reply) = w.step(Answer::Text(String::new()));
    assert_eq!(
        reply.request,
        Request::Choice {
            prompt: "  Layout".to_string(),
            items: vec![
                "tiled".to_string(),
                "even-horizontal".to_string(),
                "even-vertical".to_string(),
                "main-horizontal".to_string(),
                "main-vertical".to_string(),
            ],
            default: 0,
        }
    );

    let (w, reply) = w.step(Answer::Chosen(0));
    assert_eq!(
        reply.request,
        Request::Number { prompt: "  Number of panes".to_string(), default: 1 }
    );

    let (w, reply) = w.step(Answer::Number(2));
    assert_eq!(
        reply.lines,
        vec![Line {
            to_stderr: false,
            spans: vec![
                Span { tone: Tone::Plain, text: "    ".to_string() },
                Span { tone: Tone::Faint, text: "Pane #1".to_string() },
            ],
        }]
    );
    assert_eq!(
        reply.request,
        Request::Choice {
            prompt: "      Enter commands".to_string(),
            items: vec![
                "Single line".to_string(),
                "Multi-line (editor)".to_string(),
                "No commands".to_string(),
            ],
            default: 0,
        }
    );

    let (w, reply) = w.step(Answer::Chosen(0));
    assert_eq!(
        reply.request,
        Request::Text { prompt: "      Command".to_string(), default: None, allow_empty: true }
    );

    let (w, reply) = w.step(Answer::Text("echo hi".to_string()));
    assert_eq!(texts(&reply), vec!["    Pane #2"]);
    assert_eq!(w.stage, Stage::PaneMethod);

    let (w, reply) = w.step(Answer::Chosen(1));
    assert_eq!(
        reply.request,
        Request::Editor { initial: "# Enter commands (one per line)\n".to_string() }
    );

    let (w, reply) = w.step(Answer::Edited(Some("# c\nls\n\n  # x\n top \n".to_string())));
    assert!(reply.lines.is_empty());
    assert_eq!(reply.request, confirm("Add another window?", false));

    let (w, reply) = w.step(Answer::Confirmed(false));
    assert_eq!(reply.request, Request::Render);
    assert_eq!(
        w.config,
        Config::new(
            "demo".to_string(),
            "/home/u/proj".to_string(),
            vec![Window::new(
                None,
                Some(WindowLayout::Tiled),
                vec![
                    Pane::new(vec!["echo hi".to_string()]),
                    Pane::new(vec!["ls".to_string(), " top ".to_string()]),
                ],
            )],
        )
    );
    assert_eq!(w.project_dir, "/home/u/proj");
    assert_eq!(w.options(), WriteOptions { dry_run: false, force: false });

    let (w, reply) = w.step(Answer::Rendered(Ok("a: b\n".to_string())));
    assert_eq!(texts(&reply), vec!["", "Configuration preview:", "---", "a: b\n", "---", ""]);
    assert_eq!(reply.request, confirm("Proceed with this configuration?", true));

    let (w, reply) = w.step(Answer::Confirmed(true));
    assert_eq!(reply.request, Request::Write);

    let (w, reply) = w.step(Answer::Written(Ok(result())));
    assert_eq!(
        texts(&reply),
        vec![
            "",
            "",
            "Files generated:",
            "  /home/u/proj/.tmuxp.yaml (backed up existing file)",
            "  /home/u/proj/.envrc",
            "",
        ]
    );
    assert_eq!(reply.request, confirm("Run 'direnv allow' now?", true));

    let (w, reply) = w.step(Answer::Confirmed(true));
    assert_eq!(reply.request, Request::DirenvAllow);

    let (w, reply) = w.step(Answer::Allowed(Ok(())));
    assert_eq!(
        texts(&reply),
        vec![
            "",
            "\u{2713} All done! Your tmux session is ready.",
            "  cd into this directory to automatically attach to your session.",
        ]
    );
    assert_eq!(reply.request, Request::Finish);
    assert!(w.is_finished());
    assert_eq!(w.into_outcome(), Ok(()));
}

#[test]
fn wizard_takes_what_the_command_line_gave() {
    let args = Args {
        command: None,
        dry_run: true,
        force: true,
        project: Some("/srv/app".to_string()),
        tmuxp_location: Some("HOME".to_string()),
        session: Some("web".to_string()),
        start_dir: Some("/srv/app/src".to_string()),
    };
    let (w, _) = Wizard::new(args, false);
    let (w, reply) = w.step(Answer::Dependencies(Ok(())));
    assert_eq!(texts(&reply), vec!["", "Configuring windows and panes...", "", "Window #1"]);
    assert_eq!(w.stage, Stage::WindowName);
    assert_eq!(w.project_dir, "/srv/app");
    assert_eq!(w.location, TmuxpLocation::Home);
    assert_eq!(w.config.session_name, "web");
    assert_eq!(w.config.start_directory, "/srv/app/src");
    assert_eq!(w.options(), WriteOptions { dry_run: true, force: true });
}

#[test]
fn wizard_rejects_an_unknown_location() {
    let mut args = no_args();
    args.project = Some("/srv/app".to_string());
    args.session = Some("web".to_string());
    args.tmuxp_location = Some("weird".to_string());
    let (w, _) = Wizard::new(args, false);
    let (w, reply) = w.step(Answer::Dependencies(Ok(())));
    assert!(reply.lines.is_empty());
    assert_eq!(reply.request, Request::Finish);
    let e = w.into_outcome().unwrap_err();
    assert_eq!(e, TmuxifyError::InvalidLocation("weird".to_string()));
    assert_eq!(e.message(), "Invalid location: weird. Use 'home' or 'project'");
}

#[test]
fn wizard_starts_in_the_project_directory_by_default() {
    let w = at_first_window(no_args());
    assert_eq!(w.config.start_directory, "/home/u/proj");
    let mut args = no_args();
    args.start_dir = Some("/elsewhere".to_string());
    let w = at_first_window(args);
    assert_eq!(w.config.start_directory, "/elsewhere");
}

#[test]
fn wizard_picks_home_for_the_first_choice() {
    let (w, _) = Wizard::new(no_args(), false);
    let (w, _) = w.step(Answer::Dependencies(Ok(())));
    let (w, _) = w.step(Answer::CurrentDir("/".to_string()));
    assert_eq!(
        w.request(),
        Request::Text {
            prompt: "Session name".to_string(),
            default: Some("my-session".to_string()),
            allow_empty: false,
        }
    );
    let (w, _) = w.step(Answer::Text("s".to_string()));
    let (w, _) = w.step(Answer::Chosen(0));
    assert_eq!(w.location, TmuxpLocation::Home);
}

#[test]
fn wizard_warns_inside_tmux() {
    let (w, reply) = Wizard::new(no_args(), true);
    assert_eq!(reply.request, Request::TmuxSession);
    let (w, reply) = w.step(Answer::Session(Some("main".to_string())));
    assert_eq!(
        texts(&reply),
        vec![
            "Warning:",
            "You are currently inside a tmux session.",
            "Current session: main",
            "",
            "tmuxify is designed to create new tmux sessions.",
            "Running it from within tmux may cause unexpected behavior.",
            "",
        ]
    );
    assert!(reply.lines.iter().all(|l| l.to_stderr));
    assert_eq!(reply.lines[2].spans[1], Span { tone: Tone::Accent, text: "main".to_string() });
    assert_eq!(reply.request, confirm("Continue anyway?", false));

    let (w, reply) = w.step(Answer::Confirmed(true));
    assert_eq!(texts(&reply), vec![""]);
    assert_eq!(reply.request, Request::Dependencies);
    assert!(!w.is_finished());
}

#[test]
fn wizard_stops_when_the_user_stays_in_tmux() {
    let (w, _) = Wizard::new(no_args(), true);
    let (w, reply) = w.step(Answer::Session(None));
    assert_eq!(reply.lines.len(), 6);
    let (w, reply) = w.step(Answer::Confirmed(false));
    assert_eq!(texts(&reply), vec!["Aborted. Please run tmuxify from outside of tmux."]);
    assert_eq!(reply.request, Request::Finish);
    assert_eq!(w.into_outcome(), Ok(()));
}

#[test]
fn wizard_stops_on_missing_programs() {
    let (w, _) = Wizard::new(no_args(), false);
    let e = TmuxifyError::MissingDependencies(vec![MissingDependency {
        name: "tmux".to_string(),
        hint: "brew install tmux".to_string(),
    }]);
    let (w, reply) = w.step(Answer::Dependencies(Err(e.clone())));
    assert_eq!(
        texts(&reply),
        vec![
            "Error:",
            "Missing required dependencies:\n  tmux - install with: brew install tmux\n",
            "",
            "Run tmuxify doctor to check your system configuration.",
        ]
    );
    assert!(reply.lines.iter().all(|l| l.to_stderr));
    assert_eq!(reply.request, Request::Finish);
    assert_eq!(w.into_outcome(), Err(e));
}

#[test]
fn wizard_builds_several_windows() {
    let w = at_first_window(no_args());
    let (w, _) = w.step(Answer::Text("edit".to_string()));
    let (w, _) = w.step(Answer::Chosen(4));
    let (w, _) = w.step(Answer::Number(1));
    let (w, reply) = w.step(Answer::Chosen(2));
    assert!(reply.lines.is_empty());
    assert_eq!(reply.request, confirm("Add another window?", false));
    let (w, reply) = w.step(Answer::Confirmed(true));
    assert_eq!(texts(&reply), vec!["Window #2"]);
    let (w, _) = w.step(Answer::Text("run".to_string()));
    let (w, _) = w.step(Answer::Chosen(2));
    let (w, _) = w.step(Answer::Number(1));
    let (w, _) = w.step(Answer::Chosen(0));
    let (w, _) = w.step(Answer::Text(String::new()));
    assert_eq!(w.stage, Stage::AnotherWindow);
    assert_eq!(
        w.config.windows,
        vec![
            Window::new(
                Some("edit".to_string()),
                Some(WindowLayout::MainVertical),
                vec![Pane::empty()],
            ),
            Window::new(
                Some("run".to_string()),
                Some(WindowLayout::EvenVertical),
                vec![Pane::empty()],
            ),
        ]
    );
}

#[test]
fn wizard_takes_an_unsaved_edit_for_no_commands() {
    let w = at_first_window(no_args());
    let (w, _) = w.step(Answer::Text(String::new()));
    let (w, _) = w.step(Answer::Chosen(1));
    let (w, _) = w.step(Answer::Number(1));
    let (w, _) = w.step(Answer::Chosen(1));
    let (w, _) = w.step(Answer::Edited(None));
    assert_eq!(w.stage, Stage::AnotherWindow);
    assert_eq!(
        w.config.windows,
        vec![Window::new(None, Some(WindowLayout::EvenHorizontal), vec![Pane::empty()])]
    );
}

#[test]
fn wizard_ignores_what_it_did_not_ask_for() {
    let w = at_first_window(no_args());
    let before = w.clone();
    let (w, reply) = w.step(Answer::Confirmed(true));
    assert_eq!(w, before);
    assert!(reply.lines.is_empty());
    assert_eq!(reply.request, before.request());

    let (w, _) = w.step(Answer::Text("w".to_string()));
    let at_layout = w.clone();
    let (w, reply) = w.step(Answer::Chosen(5));
    assert_eq!(w, at_layout);
    assert_eq!(reply.request, at_layout.request());
    let (w, _) = w.step(Answer::Chosen(3));
    assert_eq!(w.layout, Some(WindowLayout::MainHorizontal));
}

#[test]
fn wizard_stays_finished() {
    let w = at_proceed(no_args());
    let (w, _) = w.step(Answer::Confirmed(false));
    assert!(w.is_finished());
    let (w, reply) = w.step(Answer::Confirmed(true));
    assert!(w.is_finished());
    assert_eq!(reply.request, Request::Finish);
    assert!(reply.lines.is_empty());
    assert_eq!(w.into_outcome(), Ok(()));
}

#[test]
fn wizard_writes_nothing_when_the_user_declines() {
    let w = at_proceed(no_args());
    assert_eq!(w.stage, Stage::Proceed);
    let (w, reply) = w.step(Answer::Confirmed(false));
    assert_eq!(texts(&reply), vec!["Aborted."]);
    assert_eq!(reply.request, Request::Finish);
    assert_eq!(w.into_outcome(), Ok(()));
}

#[test]
fn wizard_ends_a_dry_run_after_the_write() {
    let mut args = no_args();
    args.dry_run = true;
    let w = at_proceed(args);
    let (w, reply) = w.step(Answer::Confirmed(true));
    assert_eq!(reply.request, Request::Write);
    let (w, reply) = w.step(Answer::Written(Ok(result())));
    assert!(reply.lines.is_empty());
    assert_eq!(reply.request, Request::Finish);
    assert_eq!(w.into_outcome(), Ok(()));
}

#[test]
fn wizard_passes_errors_on() {
    let w = at_proceed(no_args());
    let (w, _) = w.step(Answer::Confirmed(true));
    let (w, reply) = w.step(Answer::Written(Err(TmuxifyError::MissingHome)));
    assert_eq!(reply.request, Request::Finish);
    assert!(reply.lines.is_empty());
    assert_eq!(w.into_outcome(), Err(TmuxifyError::MissingHome));

    let w = at_proceed(no_args());
    let (w, _) = w.step(Answer::Confirmed(true));
    let (w, _) = w.step(Answer::Written(Ok(result())));
    let (w, _) = w.step(Answer::Confirmed(true));
    let (w, reply) = w.step(Answer::Allowed(Err(TmuxifyError::Subprocess("denied".to_string()))));
    assert_eq!(reply.request, Request::Finish);
    assert_eq!(w.into_outcome(), Err(TmuxifyError::Subprocess("denied".to_string())));

    let w = at_first_window(no_args());
    let (w, _) = w.step(Answer::Text(String::new()));
    let (w, _) = w.step(Answer::Chosen(0));
    let (w, _) = w.step(Answer::Number(1));
    let (w, _) = w.step(Answer::Chosen(2));
    let (w, _) = w.step(Answer::Confirmed(false));
    let (w, reply) = w.step(Answer::Rendered(Err(TmuxifyError::Render("bad".to_string()))));
    assert_eq!(reply.request, Request::Finish);
    assert_eq!(w.into_outcome(), Err(TmuxifyError::Render("bad".to_string())));
}

#[test]
fn wizard_may_skip_direnv() {
    let w = at_proceed(no_args());
    let (w, _) = w.step(Answer::Confirmed(true));
    let (w, _) = w.step(Answer::Written(Ok(result())));
    let (w, reply) = w.step(Answer::Confirmed(false));
    assert!(reply.lines.is_empty());
    assert_eq!(reply.request, Request::Finish);
    assert_eq!(w.into_outcome(), Ok(()));
}

#[test]
fn editor_text_is_split_and_filtered() {
    assert_eq!(commands_in("a\nb"), vec!["a", "b"]);
    assert_eq!(commands_in("# Enter commands (one per line)\n"), Vec::<String>::new());
    assert_eq!(commands_in(""), Vec::<String>::new());
    assert_eq!(commands_in("  \n\t\n"), Vec::<String>::new());
    assert_eq!(commands_in("  ls -la  \r\n#no\n   # neither\necho '#'\n"), vec!["  ls -la  ", "echo '#'"]);
}

#[test]
fn command_lines_are_neither_empty_nor_comments() {
    assert!(is_command("ls"));
    assert!(is_command("l#"));
    assert!(!is_command(""));
    assert!(!is_command("#"));
    assert!(!is_command("# ls"));
}

#[test]
fn session_name_comes_from_the_directory() {
    assert_eq!(session_name_for("/home/u/proj"), "proj");
    assert_eq!(session_name_for("/home/u/proj/"), "proj");
    assert_eq!(session_name_for("/home/u/proj/."), "proj");
    assert_eq!(session_name_for("/"), "my-session");
    assert_eq!(session_name_for(""), "my-session");
    assert_eq!(session_name_for(".."), "my-session");
}

#[test]
fn wizard_asks_again_for_a_window_without_panes() {
    let w = at_first_window(no_args());
    let (w, _) = w.step(Answer::Text("edit".to_string()));
    let (w, _) = w.step(Answer::Chosen(0));
    let at_count = w.clone();
    let (w, reply) = w.step(Answer::Number(0));
    assert_eq!(w, at_count);
    assert!(reply.lines.is_empty());
    assert_eq!(
        reply.request,
        Request::Number { prompt: "  Number of panes".to_string(), default: 1 }
    );
    assert!(w.config.windows.is_empty());
    let (w, reply) = w.step(Answer::Number(3));
    assert_eq!(texts(&reply), vec!["    Pane #1"]);
    let (w, _) = w.step(Answer::Chosen(2));
    let (w, _) = w.step(Answer::Chosen(2));
    let (w, reply) = w.step(Answer::Chosen(2));
    assert_eq!(reply.request, confirm("Add another window?", false));
    assert_eq!(w.config.windows.len(), 1);
    assert_eq!(w.config.windows[0].panes.len(), 3);
}
