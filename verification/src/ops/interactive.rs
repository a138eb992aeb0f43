use vstd::prelude::*;
use vstd::string::*;
use crate::cli::args::Args;
use crate::error::{error_message, ErrorView, TmuxifyError};
use crate::model::config::{location_named, Config, ConfigView, TmuxpLocation};
use crate::model::pane::{Pane, PaneView};
use crate::model::window::{
    all_layouts, layout_text, pane_views, Window, WindowLayout, WindowView,
};
use crate::ops::write::{entry, summary_entry, WriteOptions, WriteResult, WriteResultView};
use crate::paths::{base_name, base_name_of};
use crate::text::{
    decimal, decimal_text, lines, lines_of, lowercase_of, string_view, trim, trimmed,
};
use crate::ui::{
    blank_line, err_line, line_views, out_line, span, span_views, toned_line, Line, LineView, Span,
    Tone,
};

verus! {

/// Where the interactive configuration stands: what it waits for.
#[derive(Debug, Clone, Copy, PartialEq, Eq, Structural)]
pub enum Stage {
    /// The name of the running tmux session.
    TmuxSession,
    /// Whether to go on inside tmux.
    TmuxConfirm,
    /// The check of the required programs.
    Dependencies,
    /// The current directory.
    CurrentDir,
    /// The session's name.
    SessionName,
    /// Where the session description goes.
    Location,
    /// The name of the window in hand.
    WindowName,
    /// The layout of the window in hand.
    Layout,
    /// The number of panes of the window in hand.
    PaneCount,
    /// How the commands of the pane in hand are entered.
    PaneMethod,
    /// The one command of the pane in hand.
    PaneCommand,
    /// The commands of the pane in hand, from the editor.
    PaneEditor,
    /// Whether there is another window.
    AnotherWindow,
    /// The session's YAML text.
    Preview,
    /// Whether to write the files.
    Proceed,
    /// The write of the files.
    Write,
    /// Whether to run `direnv allow`.
    DirenvConfirm,
    /// The run of `direnv allow`.
    DirenvAllow,
    /// Nothing: the configuration has ended.
    Finished,
}

/// What the interactive configuration asks of its surroundings. Each
/// request but the last is answered by the `Answer` of the same kind.
#[derive(Debug, Clone, PartialEq, Eq)]
pub enum Request {
    /// Ask the user yes or no.
    Confirm { prompt: String, default: bool },
    /// Ask the user for a line of text.
    Text { prompt: String, default: Option<String>, allow_empty: bool },
    /// Ask the user for a count.
    Number { prompt: String, default: usize },
    /// Ask the user to pick one of the items.
    Choice { prompt: String, items: Vec<String>, default: usize },
    /// Let the user edit the text.
    Editor { initial: String },
    /// Find the name of the running tmux session.
    TmuxSession,
    /// Check the required programs.
    Dependencies,
    /// Find the current directory.
    CurrentDir,
    /// Render the session as YAML.
    Render,
    /// Write the session's files.
    Write,
    /// Run `direnv allow` in the project directory.
    DirenvAllow,
    /// Stop: the configuration has ended.
    Finish,
}

/// A request as a value.
pub enum RequestView {
    Confirm { prompt: Seq<char>, default: bool },
    Text { prompt: Seq<char>, default: Option<Seq<char>>, allow_empty: bool },
    Number { prompt: Seq<char>, default: usize },
    Choice { prompt: Seq<char>, items: Seq<Seq<char>>, default: usize },
    Editor { initial: Seq<char> },
    TmuxSession,
    Dependencies,
    CurrentDir,
    Render,
    Write,
    DirenvAllow,
    Finish,
}

impl View for Request {
    type V = RequestView;

    open spec fn view(&self) -> RequestView {
        match self {
            Request::Confirm { prompt, default } => RequestView::Confirm {
                prompt: prompt@,
                default: *default,
            },
            Request::Text { prompt, default, allow_empty } => RequestView::Text {
                prompt: prompt@,
                default: string_view(*default),
                allow_empty: *allow_empty,
            },
            Request::Number { prompt, default } => RequestView::Number {
                prompt: prompt@,
                default: *default,
            },
            Request::Choice { prompt, items, default } => RequestView::Choice {
                prompt: prompt@,
                items: items.deep_view(),
                default: *default,
            },
            Request::Editor { initial } => RequestView::Editor { initial: initial@ },
            Request::TmuxSession => RequestView::TmuxSession,
            Request::Dependencies => RequestView::Dependencies,
            Request::CurrentDir => RequestView::CurrentDir,
            Request::Render => RequestView::Render,
            Request::Write => RequestView::Write,
            Request::DirenvAllow => RequestView::DirenvAllow,
            Request::Finish => RequestView::Finish,
        }
    }
}

/// What the surroundings found or the user said.
#[derive(Debug)]
pub enum Answer {
    /// The user said yes or no.
    Confirmed(bool),
    /// The user entered a line of text.
    Text(String),
    /// The user entered a count.
    Number(usize),
    /// The user picked the item at this position.
    Chosen(usize),
    /// The user edited the text and saved it, or did not.
    Edited(Option<String>),
    /// The name of the running tmux session, if it could be found.
    Session(Option<String>),
    /// The outcome of the check of the required programs.
    Dependencies(Result<(), TmuxifyError>),
    /// The current directory.
    CurrentDir(String),
    /// The session's YAML text, or why there is none.
    Rendered(Result<String, TmuxifyError>),
    /// What was written, or why nothing was.
    Written(Result<WriteResult, TmuxifyError>),
    /// The outcome of `direnv allow`.
    Allowed(Result<(), TmuxifyError>),
}

/// What follows an answer: lines to show, then the next request.
#[derive(Debug, Clone, PartialEq, Eq)]
pub struct Reply {
    pub lines: Vec<Line>,
    pub request: Request,
}

/// The interactive configuration: what is known so far, and what it waits
/// for.
#[derive(Debug, Clone, PartialEq, Eq)]
pub struct Wizard {
    pub stage: Stage,
    pub dry_run: bool,
    pub force: bool,
    /// The project directory, the session's name, the placement and the
    /// start directory as far as the command line gave them.
    pub project: Option<String>,
    pub session: Option<String>,
    pub tmuxp_location: Option<String>,
    pub start_dir: Option<String>,
    /// The project directory, once known.
    pub project_dir: String,
    /// The placement, once known.
    pub location: TmuxpLocation,
    /// The session as far as it is known.
    pub config: Config,
    /// The window in hand.
    pub window_name: Option<String>,
    pub layout: Option<WindowLayout>,
    pub pane_total: usize,
    pub panes: Vec<Pane>,
    /// Why the configuration failed, once it has.
    pub failure: Option<TmuxifyError>,
}

/// The interactive configuration as a value.
pub struct WizardView {
    pub stage: Stage,
    pub dry_run: bool,
    pub force: bool,
    pub project: Option<Seq<char>>,
    pub session: Option<Seq<char>>,
    pub tmuxp_location: Option<Seq<char>>,
    pub start_dir: Option<Seq<char>>,
    pub project_dir: Seq<char>,
    pub location: TmuxpLocation,
    pub config: ConfigView,
    pub window_name: Option<Seq<char>>,
    pub layout: Option<WindowLayout>,
    pub pane_total: usize,
    pub panes: Seq<PaneView>,
    pub failure: Option<ErrorView>,
}

impl View for Wizard {
    type V = WizardView;

    open spec fn view(&self) -> WizardView {
        WizardView {
            stage: self.stage,
            dry_run: self.dry_run,
            force: self.force,
            project: string_view(self.project),
            session: string_view(self.session),
            tmuxp_location: string_view(self.tmuxp_location),
            start_dir: string_view(self.start_dir),
            project_dir: self.project_dir@,
            location: self.location,
            config: self.config@,
            window_name: string_view(self.window_name),
            layout: self.layout,
            pane_total: self.pane_total,
            panes: pane_views(self.panes@),
            failure: match self.failure {
                Some(e) => Some(e@),
                None => None,
            },
        }
    }
}

/// The name that is offered for a session: that of the project directory,
/// or `my-session` where it has none.
pub open spec fn default_session_name(project_dir: Seq<char>) -> Seq<char> {
    match base_name(project_dir) {
        Some(name) => name,
        None => "my-session"@,
    }
}

/// The names of the layouts, in the order in which they are offered.
pub open spec fn layout_labels() -> Seq<Seq<char>> {
    all_layouts().map_values(|l: WindowLayout| layout_text(l))
}

/// The ways to enter a pane's commands, in the order in which they are
/// offered.
pub open spec fn method_labels() -> Seq<Seq<char>> {
    seq!["Single line"@, "Multi-line (editor)"@, "No commands"@]
}

/// The placements, in the order in which they are offered.
pub open spec fn location_labels() -> Seq<Seq<char>> {
    seq!["home (~/.tmuxp/)"@, "project (./.tmuxp.yaml)"@]
}

/// Whether a line of the editor's text, trimmed, is a command: it is not
/// empty and no comment.
pub open spec fn is_command_text(trimmed_line: Seq<char>) -> bool {
    trimmed_line.len() > 0 && trimmed_line[0] != '#'
}

/// The commands among the first `n` lines: the lines that hold a command,
/// as they were written.
pub open spec fn commands_among(all: Seq<Seq<char>>, n: int) -> Seq<Seq<char>>
    decreases n,
{
    if n <= 0 {
        Seq::empty()
    } else if is_command_text(trimmed(all[n - 1])) {
        commands_among(all, n - 1).push(all[n - 1])
    } else {
        commands_among(all, n - 1)
    }
}

/// The commands in the text that the user edited: its lines, without the
/// blank ones and the comments.
pub open spec fn editor_commands(text: Seq<char>) -> Seq<Seq<char>> {
    commands_among(lines_of(text), lines_of(text).len() as int)
}

/// The request that a configuration waits for.
pub open spec fn pending(w: WizardView) -> RequestView {
    match w.stage {
        Stage::TmuxSession => RequestView::TmuxSession,
        Stage::TmuxConfirm => RequestView::Confirm { prompt: "Continue anyway?"@, default: false },
        Stage::Dependencies => RequestView::Dependencies,
        Stage::CurrentDir => RequestView::CurrentDir,
        Stage::SessionName => RequestView::Text {
            prompt: "Session name"@,
            default: Some(default_session_name(w.project_dir)),
            allow_empty: false,
        },
        Stage::Location => RequestView::Choice {
            prompt: "Where should the tmuxp config be stored?"@,
            items: location_labels(),
            default: 0,
        },
        Stage::WindowName => RequestView::Text {
            prompt: "  Window name (optional, press Enter to skip)"@,
            default: None,
            allow_empty: true,
        },
        Stage::Layout => RequestView::Choice {
            prompt: "  Layout"@,
            items: layout_labels(),
            default: 0,
        },
        Stage::PaneCount => RequestView::Number { prompt: "  Number of panes"@, default: 1 },
        Stage::PaneMethod => RequestView::Choice {
            prompt: "      Enter commands"@,
            items: method_labels(),
            default: 0,
        },
        Stage::PaneCommand => RequestView::Text {
            prompt: "      Command"@,
            default: None,
            allow_empty: true,
        },
        Stage::PaneEditor => RequestView::Editor { initial: "# Enter commands (one per line)\n"@ },
        Stage::AnotherWindow => RequestView::Confirm {
            prompt: "Add another window?"@,
            default: false,
        },
        Stage::Preview => RequestView::Render,
        Stage::Proceed => RequestView::Confirm {
            prompt: "Proceed with this configuration?"@,
            default: true,
        },
        Stage::Write => RequestView::Write,
        Stage::DirenvConfirm => RequestView::Confirm {
            prompt: "Run 'direnv allow' now?"@,
            default: true,
        },
        Stage::DirenvAllow => RequestView::DirenvAllow,
        Stage::Finished => RequestView::Finish,
    }
}

/// The configuration has ended, well or with the given error.
pub open spec fn ended(w: WizardView, failure: Option<ErrorView>) -> WizardView {
    WizardView { stage: Stage::Finished, failure, ..w }
}

/// A new window is begun: it is announced by its number, and its name is
/// asked for.
pub open spec fn open_window(w: WizardView) -> (WizardView, Seq<LineView>) {
    (
        WizardView {
            stage: Stage::WindowName,
            window_name: None,
            layout: None,
            pane_total: 0,
            panes: Seq::empty(),
            ..w
        },
        seq![
            toned_line(
                Tone::Strong,
                "Window #"@ + decimal_text((w.config.windows.len() + 1) as nat),
            ),
        ],
    )
}

/// The window in hand is done: it joins the session, nothing is in hand
/// any more, and the user is asked for another window.
pub open spec fn close_window(w: WizardView) -> (WizardView, Seq<LineView>) {
    (
        WizardView {
            stage: Stage::AnotherWindow,
            config: ConfigView {
                windows: w.config.windows.push(
                    WindowView { window_name: w.window_name, layout: w.layout, panes: w.panes },
                ),
                ..w.config
            },
            window_name: None,
            layout: None,
            pane_total: 0,
            panes: Seq::empty(),
            ..w
        },
        Seq::empty(),
    )
}

/// A new pane is begun: it is announced by its number, and the way to
/// enter its commands is asked for.
pub open spec fn open_pane(w: WizardView) -> (WizardView, Seq<LineView>) {
    (
        WizardView { stage: Stage::PaneMethod, ..w },
        seq![
            out_line(
                seq![
                    span(Tone::Plain, "    "@),
                    span(Tone::Faint, "Pane #"@ + decimal_text((w.panes.len() + 1) as nat)),
                ],
            ),
        ],
    )
}

/// The pane in hand is done with the given commands: it joins the window,
/// which goes on with its next pane or is done too.
pub open spec fn add_pane(w: WizardView, commands: Seq<Seq<char>>) -> (WizardView, Seq<LineView>) {
    let next = WizardView { panes: w.panes.push(PaneView { shell_command: commands }), ..w };
    if next.panes.len() < next.pane_total {
        open_pane(next)
    } else {
        close_window(next)
    }
}

/// The placement is known: the start directory is settled, and the first
/// window is begun.
pub open spec fn with_location(w: WizardView, location: TmuxpLocation) -> (
    WizardView,
    Seq<LineView>,
) {
    let next = WizardView {
        location,
        config: ConfigView {
            start_directory: match w.start_dir {
                Some(dir) => dir,
                None => w.project_dir,
            },
            ..w.config
        },
        ..w
    };
    (
        open_window(next).0,
        seq![
            blank_line(),
            toned_line(Tone::Strong, "Configuring windows and panes..."@),
            blank_line(),
        ] + open_window(next).1,
    )
}

/// The session's name is known: the placement is taken from the command
/// line, where a word that names none ends the configuration, or asked
/// for.
pub open spec fn with_session(w: WizardView, name: Seq<char>) -> (WizardView, Seq<LineView>) {
    let next = WizardView { config: ConfigView { session_name: name, ..w.config }, ..w };
    match w.tmuxp_location {
        Some(word) => match location_named(lowercase_of(word)) {
            Some(location) => with_location(next, location),
            None => (ended(next, Some(ErrorView::InvalidLocation(word))), Seq::empty()),
        },
        None => (WizardView { stage: Stage::Location, ..next }, Seq::empty()),
    }
}

/// The project directory is known: the session's name is taken from the
/// command line or asked for.
pub open spec fn with_project_dir(w: WizardView, dir: Seq<char>) -> (WizardView, Seq<LineView>) {
    let next = WizardView { project_dir: dir, ..w };
    match w.session {
        Some(name) => with_session(next, name),
        None => (WizardView { stage: Stage::SessionName, ..next }, Seq::empty()),
    }
}

/// The warning that is shown inside tmux, with the session's name where it
/// is known.
pub open spec fn tmux_warning(session: Option<Seq<char>>) -> Seq<LineView> {
    seq![
        err_line(seq![span(Tone::Warning, "Warning:"@)]),
        err_line(seq![span(Tone::Plain, "You are currently inside a tmux session."@)]),
    ] + (match session {
        Some(name) => seq![
            err_line(seq![span(Tone::Plain, "Current session: "@), span(Tone::Accent, name)]),
        ],
        None => Seq::empty(),
    }) + seq![
        err_line(Seq::empty()),
        err_line(seq![span(Tone::Plain, "tmuxify is designed to create new tmux sessions."@)]),
        err_line(
            seq![span(Tone::Plain, "Running it from within tmux may cause unexpected behavior."@)],
        ),
        err_line(Seq::empty()),
    ]
}

/// What is shown where required programs are missing.
pub open spec fn dependency_complaint(e: ErrorView) -> Seq<LineView> {
    seq![
        err_line(seq![span(Tone::Failure, "Error:"@)]),
        err_line(seq![span(Tone::Plain, error_message(e))]),
        err_line(Seq::empty()),
        err_line(
            seq![
                span(Tone::Plain, "Run "@),
                span(Tone::Notice, "tmuxify doctor"@),
                span(Tone::Plain, " to check your system configuration."@),
            ],
        ),
    ]
}

/// The preview of the session's YAML text.
pub open spec fn preview_lines(yaml: Seq<char>) -> Seq<LineView> {
    seq![
        blank_line(),
        toned_line(Tone::Title, "Configuration preview:"@),
        toned_line(Tone::Plain, "---"@),
        toned_line(Tone::Plain, yaml),
        toned_line(Tone::Plain, "---"@),
        blank_line(),
    ]
}

/// What is shown after the files were written: the summary, line by line.
pub open spec fn written_lines(result: WriteResultView) -> Seq<LineView> {
    seq![
        blank_line(),
        blank_line(),
        toned_line(Tone::Plain, "Files generated:"@),
        toned_line(Tone::Plain, summary_entry(result.tmuxp_path, result.tmuxp_backed_up)),
        toned_line(Tone::Plain, summary_entry(result.envrc_path, result.envrc_backed_up)),
        blank_line(),
    ]
}

/// What is shown at the good end.
pub open spec fn farewell_lines() -> Seq<LineView> {
    seq![
        blank_line(),
        toned_line(Tone::Success, "\u{2713} All done! Your tmux session is ready."@),
        toned_line(
            Tone::Plain,
            "  cd into this directory to automatically attach to your session."@,
        ),
    ]
}

/// The state in which a configuration begins, and what it shows first.
pub open spec fn initial(args: Args, inside_tmux: bool) -> (WizardView, Seq<LineView>) {
    (
        WizardView {
            stage: if inside_tmux {
                Stage::TmuxSession
            } else {
                Stage::Dependencies
            },
            dry_run: args.dry_run,
            force: args.force,
            project: string_view(args.project),
            session: string_view(args.session),
            tmuxp_location: string_view(args.tmuxp_location),
            start_dir: string_view(args.start_dir),
            project_dir: Seq::empty(),
            location: TmuxpLocation::Home,
            config: ConfigView {
                session_name: Seq::empty(),
                start_directory: Seq::empty(),
                windows: Seq::empty(),
            },
            window_name: None,
            layout: None,
            pane_total: 0,
            panes: Seq::empty(),
            failure: None,
        },
        seq![toned_line(Tone::Title, "Welcome to tmuxify!"@), blank_line()],
    )
}

/// What an answer does to a configuration: the state that follows, and the
/// lines that are shown. An answer of another kind than the one waited for
/// changes nothing, and so do a choice that was not offered and a count of
/// no panes at all, since a window has at least one.
pub open spec fn transition(w: WizardView, a: Answer) -> (WizardView, Seq<LineView>) {
    match (w.stage, a) {
        (Stage::TmuxSession, Answer::Session(name)) => (
            WizardView { stage: Stage::TmuxConfirm, ..w },
            tmux_warning(string_view(name)),
        ),
        (Stage::TmuxConfirm, Answer::Confirmed(go_on)) => if go_on {
            (WizardView { stage: Stage::Dependencies, ..w }, seq![blank_line()])
        } else {
            (
                ended(w, None),
                seq![toned_line(Tone::Plain, "Aborted. Please run tmuxify from outside of tmux."@)],
            )
        },
        (Stage::Dependencies, Answer::Dependencies(outcome)) => match outcome {
            Ok(_) => match w.project {
                Some(dir) => with_project_dir(w, dir),
                None => (WizardView { stage: Stage::CurrentDir, ..w }, Seq::empty()),
            },
            Err(e) => (ended(w, Some(e@)), dependency_complaint(e@)),
        },
        (Stage::CurrentDir, Answer::CurrentDir(dir)) => with_project_dir(w, dir@),
        (Stage::SessionName, Answer::Text(name)) => with_session(w, name@),
        (Stage::Location, Answer::Chosen(at)) => with_location(
            w,
            if at == 0 {
                TmuxpLocation::Home
            } else {
                TmuxpLocation::Project
            },
        ),
        (Stage::WindowName, Answer::Text(name)) => (
            WizardView {
                stage: Stage::Layout,
                window_name: if name@.len() == 0 {
                    None
                } else {
                    Some(name@)
                },
                ..w
            },
            Seq::empty(),
        ),
        (Stage::Layout, Answer::Chosen(at)) => if at < all_layouts().len() {
            (
                WizardView { stage: Stage::PaneCount, layout: Some(all_layouts()[at as int]), ..w },
                Seq::empty(),
            )
        } else {
            (w, Seq::empty())
        },
        (Stage::PaneCount, Answer::Number(n)) => if n == 0 {
            (w, Seq::empty())
        } else {
            open_pane(WizardView { pane_total: n, panes: Seq::empty(), ..w })
        },
        (Stage::PaneMethod, Answer::Chosen(at)) => if at == 0 {
            (WizardView { stage: Stage::PaneCommand, ..w }, Seq::empty())
        } else if at == 1 {
            (WizardView { stage: Stage::PaneEditor, ..w }, Seq::empty())
        } else {
            add_pane(w, Seq::empty())
        },
        (Stage::PaneCommand, Answer::Text(command)) => add_pane(
            w,
            if command@.len() == 0 {
                Seq::empty()
            } else {
                seq![command@]
            },
        ),
        (Stage::PaneEditor, Answer::Edited(text)) => add_pane(
            w,
            match text {
                Some(t) => editor_commands(t@),
                None => Seq::empty(),
            },
        ),
        (Stage::AnotherWindow, Answer::Confirmed(more)) => if more {
            open_window(w)
        } else {
            (WizardView { stage: Stage::Preview, ..w }, Seq::empty())
        },
        (Stage::Preview, Answer::Rendered(outcome)) => match outcome {
            Ok(yaml) => (WizardView { stage: Stage::Proceed, ..w }, preview_lines(yaml@)),
            Err(e) => (ended(w, Some(e@)), Seq::empty()),
        },
        (Stage::Proceed, Answer::Confirmed(go_on)) => if go_on {
            (WizardView { stage: Stage::Write, ..w }, Seq::empty())
        } else {
            (ended(w, None), seq![toned_line(Tone::Plain, "Aborted."@)])
        },
        (Stage::Write, Answer::Written(outcome)) => match outcome {
            Ok(result) => if w.dry_run {
                (ended(w, None), Seq::empty())
            } else {
                (WizardView { stage: Stage::DirenvConfirm, ..w }, written_lines(result@))
            },
            Err(e) => (ended(w, Some(e@)), Seq::empty()),
        },
        (Stage::DirenvConfirm, Answer::Confirmed(go_on)) => if go_on {
            (WizardView { stage: Stage::DirenvAllow, ..w }, Seq::empty())
        } else {
            (ended(w, None), Seq::empty())
        },
        (Stage::DirenvAllow, Answer::Allowed(outcome)) => match outcome {
            Ok(_) => (ended(w, None), farewell_lines()),
            Err(e) => (ended(w, Some(e@)), Seq::empty()),
        },
        _ => (w, Seq::empty()),
    }
}

/// What holds of every state that a configuration reaches. Every window
/// of the session has a pane. While a pane is in hand, its window still
/// lacks panes. Once the user is asked for another window, and as long as
/// the configuration goes on from there, the session has a window. A
/// configuration that has failed has ended.
pub open spec fn sound(w: WizardView) -> bool {
    &&& forall|i: int|
        0 <= i < w.config.windows.len() ==> (#[trigger] w.config.windows[i]).panes.len() >= 1
    &&& (w.stage == Stage::PaneMethod || w.stage == Stage::PaneCommand || w.stage
        == Stage::PaneEditor) ==> w.panes.len() < w.pane_total
    &&& (w.stage == Stage::AnotherWindow || w.stage == Stage::Preview || w.stage == Stage::Proceed
        || w.stage == Stage::Write || w.stage == Stage::DirenvConfirm || w.stage
        == Stage::DirenvAllow) ==> w.config.windows.len() >= 1
    &&& w.failure is Some ==> w.stage == Stage::Finished
}

/// A configuration begins in a sound state.
pub proof fn lemma_initial_sound(args: Args, inside_tmux: bool)
    ensures
        sound(initial(args, inside_tmux).0),
{
}

/// Whatever the answer, a sound state is followed by a sound state, the
/// windows that the session has stay as they are and in their place, and
/// what the command line gave is kept.
pub proof fn lemma_step_sound(w: WizardView, a: Answer)
    requires
        sound(w),
    ensures
        sound(transition(w, a).0),
        w.config.windows.is_prefix_of(transition(w, a).0.config.windows),
        transition(w, a).0.config.windows.len() <= w.config.windows.len() + 1,
        transition(w, a).0.dry_run == w.dry_run,
        transition(w, a).0.force == w.force,
        transition(w, a).0.project == w.project,
        transition(w, a).0.session == w.session,
        transition(w, a).0.tmuxp_location == w.tmuxp_location,
        transition(w, a).0.start_dir == w.start_dir,
{
    let next = transition(w, a).0;
    assert(w.config.windows.is_prefix_of(next.config.windows)) by {
        if next.config.windows.len() == w.config.windows.len() + 1 {
            assert(next.config.windows.subrange(0, w.config.windows.len() as int)
                =~= w.config.windows);
        } else {
            assert(next.config.windows =~= w.config.windows);
        }
    }
}

/// Nothing follows the end: a configuration that has ended stays as it is
/// and shows nothing more.
pub proof fn lemma_end_is_final(w: WizardView, a: Answer)
    requires
        w.stage == Stage::Finished,
    ensures
        transition(w, a).0 == w,
        transition(w, a).1.len() == 0,
        pending(w) == RequestView::Finish,
{
}

/// The files are written only after the user has agreed: the write is
/// waited for only after a yes to the question whether to proceed, and a no
/// ends the configuration without an error.
pub proof fn lemma_write_needs_consent(w: WizardView, a: Answer)
    ensures
        transition(w, a).0.stage == Stage::Write && w.stage != Stage::Write ==> w.stage
            == Stage::Proceed && a == Answer::Confirmed(true),
        w.stage == Stage::Proceed && a == Answer::Confirmed(false) ==> transition(w, a).0.stage
            == Stage::Finished && transition(w, a).0.failure is None,
{
}

/// A dry run ends with the write: `direnv allow` is neither offered nor
/// run.
pub proof fn lemma_dry_run_ends_with_write(w: WizardView, a: Answer)
    requires
        w.dry_run,
        w.stage == Stage::Write,
    ensures
        transition(w, a).0.stage == Stage::Write || transition(w, a).0.stage == Stage::Finished,
        transition(w, a).0.stage == Stage::Write ==> transition(w, a).0 == w,
{
}

/// Whether a line of the editor's text, trimmed, is a command.
pub fn is_command(trimmed_line: &str) -> (r: bool)
    ensures
        r == is_command_text(trimmed_line@),
{
    trimmed_line.unicode_len() > 0 && trimmed_line.get_char(0) != '#'
}

/// The commands in the text that the user edited.
pub fn commands_in(text: &str) -> (r: Vec<String>)
    ensures
        r.deep_view() == editor_commands(text@),
{
    let all = lines(text);
    let mut out: Vec<String> = Vec::new();
    let mut i: usize = 0;
    while i < all.len()
        invariant
            i <= all.len(),
            all.deep_view() == lines_of(text@),
            out.deep_view() == commands_among(all.deep_view(), i as int),
        decreases all.len() - i,
    {
        let ghost before = out.deep_view();
        let bare = trim(all[i].as_str());
        proof {
            assert(all.deep_view()[i as int] == all@[i as int]@);
        }
        if is_command(bare.as_str()) {
            out.push(all[i].clone());
            proof {
                assert(out.deep_view() =~= before.push(all@[i as int]@));
            }
        }
        i = i + 1;
    }
    out
}

/// The name that is offered for a session.
pub fn session_name_for(project_dir: &str) -> (r: String)
    ensures
        r@ == default_session_name(project_dir@),
{
    match base_name_of(project_dir) {
        Some(name) => name,
        None => String::from_str("my-session"),
    }
}

/// A copy of an optional text.
fn copy_of(s: &Option<String>) -> (r: Option<String>)
    ensures
        string_view(r) == string_view(*s),
{
    match s {
        Some(t) => Some(t.clone()),
        None => None,
    }
}

/// The three ways to enter a pane's commands.
fn method_items() -> (r: Vec<String>)
    ensures
        r.deep_view() == method_labels(),
{
    let mut r: Vec<String> = Vec::new();
    r.push(String::from_str("Single line"));
    r.push(String::from_str("Multi-line (editor)"));
    r.push(String::from_str("No commands"));
    proof {
        assert(r.deep_view() =~= method_labels());
    }
    r
}

/// The two placements.
fn location_items() -> (r: Vec<String>)
    ensures
        r.deep_view() == location_labels(),
{
    let mut r: Vec<String> = Vec::new();
    r.push(String::from_str("home (~/.tmuxp/)"));
    r.push(String::from_str("project (./.tmuxp.yaml)"));
    proof {
        assert(r.deep_view() =~= location_labels());
    }
    r
}

/// The names of the layouts.
fn layout_items() -> (r: Vec<String>)
    ensures
        r.deep_view() == layout_labels(),
{
    let all = WindowLayout::all();
    let mut r: Vec<String> = Vec::new();
    let mut i: usize = 0;
    while i < all.len()
        invariant
            i <= all.len(),
            all@ == all_layouts(),
            r@.len() == i,
            forall|k: int| 0 <= k < i ==> (#[trigger] r@[k])@ == layout_text(all@[k]),
        decreases all.len() - i,
    {
        r.push(all[i].label());
        i = i + 1;
    }
    proof {
        assert(r.deep_view() =~= layout_labels());
    }
    r
}

/// A question to be answered with yes or no.
fn confirm(prompt: &str, default: bool) -> (r: Request)
    ensures
        r@ == (RequestView::Confirm { prompt: prompt@, default }),
{
    Request::Confirm { prompt: String::from_str(prompt), default }
}

/// A question to be answered with a line that may be empty.
fn free_text(prompt: &str) -> (r: Request)
    ensures
        r@ == (RequestView::Text { prompt: prompt@, default: None, allow_empty: true }),
{
    Request::Text { prompt: String::from_str(prompt), default: None, allow_empty: true }
}

impl Wizard {
    /// Begins a configuration with what the command line gave, inside tmux
    /// or not. It greets the user and makes its first request.
    pub fn new(args: Args, inside_tmux: bool) -> (r: (Wizard, Reply))
        ensures
            r.0@ == initial(args, inside_tmux).0,
            line_views(r.1.lines@) == initial(args, inside_tmux).1,
            r.1.request@ == pending(r.0@),
    {
        let wizard = Wizard {
            stage: if inside_tmux {
                Stage::TmuxSession
            } else {
                Stage::Dependencies
            },
            dry_run: args.dry_run,
            force: args.force,
            project: args.project,
            session: args.session,
            tmuxp_location: args.tmuxp_location,
            start_dir: args.start_dir,
            project_dir: String::new(),
            location: TmuxpLocation::Home,
            config: Config::new(String::new(), String::new(), Vec::new()),
            window_name: None,
            layout: None,
            pane_total: 0,
            panes: Vec::new(),
            failure: None,
        };
        let mut lines: Vec<Line> = Vec::new();
        lines.push(Line::toned(Tone::Title, "Welcome to tmuxify!"));
        lines.push(Line::blank());
        proof {
            assert(wizard@.panes =~= Seq::<PaneView>::empty());
            assert(wizard@.config.windows =~= Seq::<WindowView>::empty());
            assert(wizard@ == initial(args, inside_tmux).0);
            assert(line_views(lines@) =~= initial(args, inside_tmux).1);
        }
        let request = wizard.request();
        (wizard, Reply { lines, request })
    }

    /// What this configuration waits for.
    pub fn request(&self) -> (r: Request)
        ensures
            r@ == pending(self@),
    {
        match self.stage {
            Stage::TmuxSession => Request::TmuxSession,
            Stage::TmuxConfirm => confirm("Continue anyway?", false),
            Stage::Dependencies => Request::Dependencies,
            Stage::CurrentDir => Request::CurrentDir,
            Stage::SessionName => Request::Text {
                prompt: String::from_str("Session name"),
                default: Some(session_name_for(self.project_dir.as_str())),
                allow_empty: false,
            },
            Stage::Location => Request::Choice {
                prompt: String::from_str("Where should the tmuxp config be stored?"),
                items: location_items(),
                default: 0,
            },
            Stage::WindowName => free_text("  Window name (optional, press Enter to skip)"),
            Stage::Layout => Request::Choice {
                prompt: String::from_str("  Layout"),
                items: layout_items(),
                default: 0,
            },
            Stage::PaneCount => Request::Number {
                prompt: String::from_str("  Number of panes"),
                default: 1,
            },
            Stage::PaneMethod => Request::Choice {
                prompt: String::from_str("      Enter commands"),
                items: method_items(),
                default: 0,
            },
            Stage::PaneCommand => free_text("      Command"),
            Stage::PaneEditor => Request::Editor {
                initial: String::from_str("# Enter commands (one per line)\n"),
            },
            Stage::AnotherWindow => confirm("Add another window?", false),
            Stage::Preview => Request::Render,
            Stage::Proceed => confirm("Proceed with this configuration?", true),
            Stage::Write => Request::Write,
            Stage::DirenvConfirm => confirm("Run 'direnv allow' now?", true),
            Stage::DirenvAllow => Request::DirenvAllow,
            Stage::Finished => Request::Finish,
        }
    }

    /// How the files are to be written.
    pub fn options(&self) -> (r: WriteOptions)
        ensures
            r == (WriteOptions { dry_run: self@.dry_run, force: self@.force }),
    {
        WriteOptions { dry_run: self.dry_run, force: self.force }
    }

    /// Whether the configuration has ended.
    pub fn is_finished(&self) -> (r: bool)
        ensures
            r == (self@.stage == Stage::Finished),
    {
        match self.stage {
            Stage::Finished => true,
            _ => false,
        }
    }

    /// How the configuration ended: with the error that stopped it, or
    /// well, which includes that the user called it off.
    pub fn into_outcome(self) -> (r: Result<(), TmuxifyError>)
        ensures
            r is Ok <==> self@.failure is None,
            r is Err ==> Some(r->Err_0@) == self@.failure,
    {
        match self.failure {
            Some(e) => Err(e),
            None => Ok(()),
        }
    }

    /// Ends the configuration, well or with an error.
    fn end(self, failure: Option<TmuxifyError>) -> (r: Wizard)
        ensures
            r@ == ended(
                self@,
                match failure {
                    Some(e) => Some(e@),
                    None => None,
                },
            ),
    {
        let mut w = self;
        w.stage = Stage::Finished;
        w.failure = failure;
        w
    }

    /// Moves to another stage.
    fn at(self, stage: Stage) -> (r: Wizard)
        ensures
            r@ == (WizardView { stage, ..self@ }),
    {
        let mut w = self;
        w.stage = stage;
        w
    }

    /// Begins a new window.
    fn open_window(self, lines: &mut Vec<Line>) -> (r: Wizard)
        ensures
            r@ == open_window(self@).0,
            line_views(final(lines)@) == line_views(old(lines)@) + open_window(self@).1,
    {
        let ghost before = line_views(lines@);
        let number = decimal(self.config.windows.len() as u128 + 1);
        let title = String::from_str("Window #").concat(number.as_str());
        lines.push(Line::toned(Tone::Strong, title.as_str()));
        let mut w = self;
        w.stage = Stage::WindowName;
        w.window_name = None;
        w.layout = None;
        w.pane_total = 0;
        w.panes = Vec::new();
        proof {
            assert(w@.panes =~= Seq::<PaneView>::empty());
            assert(line_views(lines@) =~= before + open_window(self@).1);
        }
        w
    }

    /// Closes the window in hand.
    fn close_window(self, lines: &mut Vec<Line>) -> (r: Wizard)
        ensures
            r@ == close_window(self@).0,
            line_views(final(lines)@) == line_views(old(lines)@) + close_window(self@).1,
    {
        let Wizard {
            stage: _,
            dry_run,
            force,
            project,
            session,
            tmuxp_location,
            start_dir,
            project_dir,
            location,
            config,
            window_name,
            layout,
            pane_total: _,
            panes,
            failure,
        } = self;
        let mut config = config;
        let ghost windows = config@.windows;
        let window = Window::new(window_name, layout, panes);
        config.windows.push(window);
        let w = Wizard {
            stage: Stage::AnotherWindow,
            dry_run,
            force,
            project,
            session,
            tmuxp_location,
            start_dir,
            project_dir,
            location,
            config,
            window_name: None,
            layout: None,
            pane_total: 0,
            panes: Vec::new(),
            failure,
        };
        proof {
            assert(w@.panes =~= Seq::<PaneView>::empty());
            assert(w@.config.windows =~= windows.push(window@));
            assert(line_views(lines@) =~= line_views(lines@) + close_window(self@).1);
        }
        w
    }

    /// Begins a new pane.
    fn open_pane(self, lines: &mut Vec<Line>) -> (r: Wizard)
        ensures
            r@ == open_pane(self@).0,
            line_views(final(lines)@) == line_views(old(lines)@) + open_pane(self@).1,
    {
        let ghost before = line_views(lines@);
        let number = decimal(self.panes.len() as u128 + 1);
        let title = String::from_str("Pane #").concat(number.as_str());
        let mut spans: Vec<Span> = Vec::new();
        spans.push(Span::new(Tone::Plain, "    "));
        spans.push(Span::new(Tone::Faint, title.as_str()));
        proof {
            assert(span_views(spans@) =~= seq![
                span(Tone::Plain, "    "@),
                span(Tone::Faint, "Pane #"@ + decimal_text((self@.panes.len() + 1) as nat)),
            ]);
        }
        lines.push(Line::out(spans));
        proof {
            assert(line_views(lines@) =~= before + open_pane(self@).1);
        }
        self.at(Stage::PaneMethod)
    }

    /// Adds the pane in hand to its window.
    fn add_pane(self, commands: Vec<String>, lines: &mut Vec<Line>) -> (r: Wizard)
        ensures
            r@ == add_pane(self@, commands.deep_view()).0,
            line_views(final(lines)@) == line_views(old(lines)@) + add_pane(
                self@,
                commands.deep_view(),
            ).1,
    {
        let mut w = self;
        let ghost panes = w@.panes;
        let pane = Pane::new(commands);
        w.panes.push(pane);
        proof {
            assert(w@.panes =~= panes.push(pane@));
        }
        if w.panes.len() < w.pane_total {
            w.open_pane(lines)
        } else {
            w.close_window(lines)
        }
    }

    /// Goes on with the placement known.
    fn with_location(self, location: TmuxpLocation, lines: &mut Vec<Line>) -> (r: Wizard)
        ensures
            r@ == with_location(self@, location).0,
            line_views(final(lines)@) == line_views(old(lines)@) + with_location(
                self@,
                location,
            ).1,
    {
        let ghost before = line_views(lines@);
        let mut w = self;
        w.location = location;
        let start = match &w.start_dir {
            Some(dir) => dir.clone(),
            None => w.project_dir.clone(),
        };
        w.config.start_directory = start;
        lines.push(Line::blank());
        lines.push(Line::toned(Tone::Strong, "Configuring windows and panes..."));
        lines.push(Line::blank());
        let ghost middle = line_views(lines@);
        proof {
            assert(middle =~= before + seq![
                blank_line(),
                toned_line(Tone::Strong, "Configuring windows and panes..."@),
                blank_line(),
            ]);
        }
        let ghost next = w@;
        let r = w.open_window(lines);
        proof {
            assert(line_views(lines@) =~= before + with_location(self@, location).1);
        }
        r
    }

    /// Goes on with the session's name known.
    fn with_session(self, name: String, lines: &mut Vec<Line>) -> (r: Wizard)
        ensures
            r@ == with_session(self@, name@).0,
            line_views(final(lines)@) == line_views(old(lines)@) + with_session(self@, name@).1,
    {
        let ghost before = line_views(lines@);
        let mut w = self;
        w.config.session_name = name;
        let word = copy_of(&w.tmuxp_location);
        match word {
            Some(word) => match TmuxpLocation::from_str(word.as_str()) {
                Some(location) => w.with_location(location, lines),
                None => {
                    proof {
                        assert(line_views(lines@) =~= before + Seq::<LineView>::empty());
                    }
                    w.end(Some(TmuxifyError::InvalidLocation(word)))
                },
            },
            None => {
                proof {
                    assert(line_views(lines@) =~= before + Seq::<LineView>::empty());
                }
                w.at(Stage::Location)
            },
        }
    }

    /// Goes on with the project directory known.
    fn with_project_dir(self, dir: String, lines: &mut Vec<Line>) -> (r: Wizard)
        ensures
            r@ == with_project_dir(self@, dir@).0,
            line_views(final(lines)@) == line_views(old(lines)@) + with_project_dir(
                self@,
                dir@,
            ).1,
    {
        let ghost before = line_views(lines@);
        let mut w = self;
        w.project_dir = dir;
        let name = copy_of(&w.session);
        match name {
            Some(name) => w.with_session(name, lines),
            None => {
                proof {
                    assert(line_views(lines@) =~= before + Seq::<LineView>::empty());
                }
                w.at(Stage::SessionName)
            },
        }
    }

    /// Takes an answer: the state that follows it, the lines to show, and
    /// the next request. An answer of another kind than the one waited for
    /// changes nothing and has the request made again; so do a choice that
    /// was not offered and a count of no panes.
    pub fn step(self, answer: Answer) -> (r: (Wizard, Reply))
        ensures
            r.0@ == transition(self@, answer).0,
            line_views(r.1.lines@) == transition(self@, answer).1,
            r.1.request@ == pending(r.0@),
    {
        let mut lines: Vec<Line> = Vec::new();
        proof {
            assert(line_views(lines@) =~= Seq::<LineView>::empty());
        }
        let ghost none = Seq::<LineView>::empty();
        let wizard = match (self.stage, answer) {
            (Stage::TmuxSession, Answer::Session(name)) => {
                push_tmux_warning(&mut lines, &name);
                self.at(Stage::TmuxConfirm)
            },
            (Stage::TmuxConfirm, Answer::Confirmed(go_on)) => {
                if go_on {
                    lines.push(Line::blank());
                    proof {
                        assert(line_views(lines@) =~= seq![blank_line()]);
                    }
                    self.at(Stage::Dependencies)
                } else {
                    lines.push(
                        Line::toned(
                            Tone::Plain,
                            "Aborted. Please run tmuxify from outside of tmux.",
                        ),
                    );
                    proof {
                        assert(line_views(lines@) =~= seq![
                            toned_line(
                                Tone::Plain,
                                "Aborted. Please run tmuxify from outside of tmux."@,
                            ),
                        ]);
                    }
                    self.end(None)
                }
            },
            (Stage::Dependencies, Answer::Dependencies(outcome)) => match outcome {
                Ok(_) => {
                    let dir = copy_of(&self.project);
                    match dir {
                        Some(dir) => self.with_project_dir(dir, &mut lines),
                        None => self.at(Stage::CurrentDir),
                    }
                },
                Err(e) => {
                    push_dependency_complaint(&mut lines, &e);
                    self.end(Some(e))
                },
            },
            (Stage::CurrentDir, Answer::CurrentDir(dir)) => self.with_project_dir(dir, &mut lines),
            (Stage::SessionName, Answer::Text(name)) => self.with_session(name, &mut lines),
            (Stage::Location, Answer::Chosen(at)) => {
                let location = if at == 0 {
                    TmuxpLocation::Home
                } else {
                    TmuxpLocation::Project
                };
                self.with_location(location, &mut lines)
            },
            (Stage::WindowName, Answer::Text(name)) => {
                let mut w = self;
                if name.as_str().unicode_len() == 0 {
                    w.window_name = None;
                } else {
                    w.window_name = Some(name);
                }
                w.at(Stage::Layout)
            },
            (Stage::Layout, Answer::Chosen(at)) => {
                let all = WindowLayout::all();
                if at < all.len() {
                    let mut w = self;
                    w.layout = Some(all[at]);
                    w.at(Stage::PaneCount)
                } else {
                    self
                }
            },
            (Stage::PaneCount, Answer::Number(n)) => {
                if n == 0 {
                    self
                } else {
                    let mut w = self;
                    w.pane_total = n;
                    w.panes = Vec::new();
                    proof {
                        assert(w@.panes =~= Seq::<PaneView>::empty());
                    }
                    w.open_pane(&mut lines)
                }
            },
            (Stage::PaneMethod, Answer::Chosen(at)) => {
                if at == 0 {
                    self.at(Stage::PaneCommand)
                } else if at == 1 {
                    self.at(Stage::PaneEditor)
                } else {
                    let commands: Vec<String> = Vec::new();
                    proof {
                        assert(commands.deep_view() =~= Seq::<Seq<char>>::empty());
                    }
                    self.add_pane(commands, &mut lines)
                }
            },
            (Stage::PaneCommand, Answer::Text(command)) => {
                let mut commands: Vec<String> = Vec::new();
                if command.as_str().unicode_len() > 0 {
                    commands.push(command);
                    proof {
                        assert(commands.deep_view() =~= seq![command@]);
                    }
                } else {
                    proof {
                        assert(commands.deep_view() =~= Seq::<Seq<char>>::empty());
                    }
                }
                self.add_pane(commands, &mut lines)
            },
            (Stage::PaneEditor, Answer::Edited(text)) => {
                let commands = match text {
                    Some(t) => commands_in(t.as_str()),
                    None => {
                        let none: Vec<String> = Vec::new();
                        proof {
                            assert(none.deep_view() =~= Seq::<Seq<char>>::empty());
                        }
                        none
                    },
                };
                self.add_pane(commands, &mut lines)
            },
            (Stage::AnotherWindow, Answer::Confirmed(more)) => {
                if more {
                    self.open_window(&mut lines)
                } else {
                    self.at(Stage::Preview)
                }
            },
            (Stage::Preview, Answer::Rendered(outcome)) => match outcome {
                Ok(yaml) => {
                    lines.push(Line::blank());
                    lines.push(Line::toned(Tone::Title, "Configuration preview:"));
                    lines.push(Line::toned(Tone::Plain, "---"));
                    lines.push(Line::toned(Tone::Plain, yaml.as_str()));
                    lines.push(Line::toned(Tone::Plain, "---"));
                    lines.push(Line::blank());
                    proof {
                        assert(line_views(lines@) =~= preview_lines(yaml@));
                    }
                    self.at(Stage::Proceed)
                },
                Err(e) => self.end(Some(e)),
            },
            (Stage::Proceed, Answer::Confirmed(go_on)) => {
                if go_on {
                    self.at(Stage::Write)
                } else {
                    lines.push(Line::toned(Tone::Plain, "Aborted."));
                    proof {
                        assert(line_views(lines@) =~= seq![toned_line(Tone::Plain, "Aborted."@)]);
                    }
                    self.end(None)
                }
            },
            (Stage::Write, Answer::Written(outcome)) => match outcome {
                Ok(result) => {
                    if self.dry_run {
                        self.end(None)
                    } else {
                        lines.push(Line::blank());
                        lines.push(Line::blank());
                        lines.push(Line::toned(Tone::Plain, "Files generated:"));
                        lines.push(
                            Line::toned(
                                Tone::Plain,
                                entry(result.tmuxp_path.as_str(), result.tmuxp_backed_up).as_str(),
                            ),
                        );
                        lines.push(
                            Line::toned(
                                Tone::Plain,
                                entry(result.envrc_path.as_str(), result.envrc_backed_up).as_str(),
                            ),
                        );
                        lines.push(Line::blank());
                        proof {
                            assert(line_views(lines@) =~= written_lines(result@));
                        }
                        self.at(Stage::DirenvConfirm)
                    }
                },
                Err(e) => self.end(Some(e)),
            },
            (Stage::DirenvConfirm, Answer::Confirmed(go_on)) => {
                if go_on {
                    self.at(Stage::DirenvAllow)
                } else {
                    self.end(None)
                }
            },
            (Stage::DirenvAllow, Answer::Allowed(outcome)) => match outcome {
                Ok(_) => {
                    lines.push(Line::blank());
                    lines.push(
                        Line::toned(
                            Tone::Success,
                            "\u{2713} All done! Your tmux session is ready.",
                        ),
                    );
                    lines.push(
                        Line::toned(
                            Tone::Plain,
                            "  cd into this directory to automatically attach to your session.",
                        ),
                    );
                    proof {
                        assert(line_views(lines@) =~= farewell_lines());
                    }
                    self.end(None)
                },
                Err(e) => self.end(Some(e)),
            },
            _ => self,
        };
        let request = wizard.request();
        (wizard, Reply { lines, request })
    }
}

/// Appends the warning that is shown inside tmux.
fn push_tmux_warning(lines: &mut Vec<Line>, session: &Option<String>)
    ensures
        line_views(final(lines)@) == line_views(old(lines)@) + tmux_warning(string_view(*session)),
{
    let ghost before = line_views(lines@);
    lines.push(Line::complaint(Tone::Warning, "Warning:"));
    lines.push(Line::complaint(Tone::Plain, "You are currently inside a tmux session."));
    match session {
        Some(name) => {
            let mut spans: Vec<Span> = Vec::new();
            spans.push(Span::new(Tone::Plain, "Current session: "));
            spans.push(Span::new(Tone::Accent, name.as_str()));
            proof {
                assert(span_views(spans@) =~= seq![
                    span(Tone::Plain, "Current session: "@),
                    span(Tone::Accent, name@),
                ]);
            }
            lines.push(Line::err(spans));
        },
        None => {},
    }
    lines.push(silence());
    lines.push(Line::complaint(Tone::Plain, "tmuxify is designed to create new tmux sessions."));
    lines.push(
        Line::complaint(Tone::Plain, "Running it from within tmux may cause unexpected behavior."),
    );
    lines.push(silence());
    proof {
        assert(line_views(lines@) =~= before + tmux_warning(string_view(*session)));
    }
}

/// An empty line for stderr.
fn silence() -> (r: Line)
    ensures
        r@ == err_line(Seq::empty()),
{
    let spans: Vec<Span> = Vec::new();
    proof {
        assert(span_views(spans@) =~= Seq::<crate::ui::SpanView>::empty());
    }
    Line::err(spans)
}

/// Appends what is shown where required programs are missing.
fn push_dependency_complaint(lines: &mut Vec<Line>, e: &TmuxifyError)
    ensures
        line_views(final(lines)@) == line_views(old(lines)@) + dependency_complaint(e@),
{
    let ghost before = line_views(lines@);
    lines.push(Line::complaint(Tone::Failure, "Error:"));
    lines.push(Line::complaint(Tone::Plain, e.message().as_str()));
    lines.push(silence());
    let mut spans: Vec<Span> = Vec::new();
    spans.push(Span::new(Tone::Plain, "Run "));
    spans.push(Span::new(Tone::Notice, "tmuxify doctor"));
    spans.push(Span::new(Tone::Plain, " to check your system configuration."));
    proof {
        assert(span_views(spans@) =~= seq![
            span(Tone::Plain, "Run "@),
            span(Tone::Notice, "tmuxify doctor"@),
            span(Tone::Plain, " to check your system configuration."@),
        ]);
    }
    lines.push(Line::err(spans));
    proof {
        assert(line_views(lines@) =~= before + dependency_complaint(e@));
    }
}

} // verus!
