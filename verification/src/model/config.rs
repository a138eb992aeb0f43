use vstd::prelude::*;
use vstd::string::*;
use crate::error::TmuxifyError;
use crate::model::pane::{pane_entries, PaneView};
use crate::model::window::{
    layout_entries, layout_text, lemma_window_keys, name_entries, window_entries, window_node,
    Window, WindowView,
};
use crate::paths::{join, joined};
use crate::text::{
    contains_text, ends_with_text, lowercase_of, same_text, starts_with_text, text_view,
    to_lowercase,
};
use crate::yaml::{
    emit, entry_nodes, error_text, list_value, record_value, text_value, value_node, value_nodes,
    yaml_written, Node,
};

verus! {

/// Where the session description is stored.
#[derive(Debug, Clone, Copy, PartialEq, Eq, Structural)]
pub enum TmuxpLocation {
    /// Under `.tmuxp` in the user's home directory, one file per session.
    Home,
    /// In the project's root directory, as `.tmuxp.yaml`.
    Project,
}

/// The placement that a word in lower case stands for.
pub open spec fn location_named(word: Seq<char>) -> Option<TmuxpLocation> {
    if word == "home"@ {
        Some(TmuxpLocation::Home)
    } else if word == "project"@ {
        Some(TmuxpLocation::Project)
    } else {
        None
    }
}

impl TmuxpLocation {
    /// The placement that a word in lower case stands for: `home`,
    /// `project`, and no other.
    pub fn from_lowercase(word: &str) -> (r: Option<TmuxpLocation>)
        ensures
            r == location_named(word@),
    {
        if same_text(word, "home") {
            Some(TmuxpLocation::Home)
        } else if same_text(word, "project") {
            Some(TmuxpLocation::Project)
        } else {
            None
        }
    }

    /// The placement that a word stands for, whatever the case of its
    /// letters.
    pub fn from_str(s: &str) -> (r: Option<TmuxpLocation>)
        ensures
            r == location_named(lowercase_of(s@)),
    {
        let lowered = to_lowercase(s);
        TmuxpLocation::from_lowercase(lowered.as_str())
    }
}

/// A session: its name, the directory in which it starts, and its windows.
#[derive(Debug, Clone, PartialEq, Eq)]
pub struct Config {
    pub session_name: String,
    pub start_directory: String,
    pub windows: Vec<Window>,
}

/// A session as a value.
pub struct ConfigView {
    pub session_name: Seq<char>,
    pub start_directory: Seq<char>,
    pub windows: Seq<WindowView>,
}

/// The windows of a list, each as a value.
pub open spec fn window_views(windows: Seq<Window>) -> Seq<WindowView> {
    windows.map_values(|w: Window| w@)
}

impl View for Config {
    type V = ConfigView;

    open spec fn view(&self) -> ConfigView {
        ConfigView {
            session_name: self.session_name@,
            start_directory: self.start_directory@,
            windows: window_views(self.windows@),
        }
    }
}

/// The documents of a list of windows.
pub open spec fn window_nodes(windows: Seq<WindowView>) -> Seq<Node> {
    windows.map_values(|w: WindowView| window_node(w))
}

/// The entries of a session's record: always the same three, in this
/// order.
pub open spec fn config_entries(c: ConfigView) -> Seq<(Seq<char>, Node)> {
    seq![
        ("session_name"@, Node::Text(c.session_name)),
        ("start_directory"@, Node::Text(c.start_directory)),
        ("windows"@, Node::List(window_nodes(c.windows))),
    ]
}

/// The document of a session.
pub open spec fn config_node(c: ConfigView) -> Node {
    Node::Record(config_entries(c))
}

/// The file that the shell hook loads.
pub open spec fn load_path(session: Seq<char>, location: TmuxpLocation) -> Seq<char> {
    match location {
        TmuxpLocation::Home => "~/.tmuxp/"@ + session + ".yaml"@,
        TmuxpLocation::Project => "./.tmuxp.yaml"@,
    }
}

/// The shell hook: three lines, the last one closed by a newline.
pub open spec fn envrc_text(session: Seq<char>, location: TmuxpLocation) -> Seq<char> {
    "if [ -z \"$TMUX\" ]; then"@ + "\n  tmuxp load "@ + load_path(session, location) + "\n"@
        + "fi\n"@
}

/// The name of a session's file under `.tmuxp`.
pub open spec fn session_file(session: Seq<char>) -> Seq<char> {
    session + ".yaml"@
}

/// The path of the session description: the session's file directly under
/// `.tmuxp` in the home directory, which must be known, or `.tmuxp.yaml` in
/// the project directory, and in the current directory where none is given.
pub open spec fn file_path(
    session: Seq<char>,
    location: TmuxpLocation,
    project_dir: Option<Seq<char>>,
    home: Option<Seq<char>>,
) -> Option<Seq<char>> {
    match location {
        TmuxpLocation::Home => match home {
            Some(h) => Some(joined(h, ".tmuxp"@) + seq!['/'] + session_file(session)),
            None => None,
        },
        TmuxpLocation::Project => match project_dir {
            Some(dir) => Some(joined(dir, ".tmuxp.yaml"@)),
            None => Some(".tmuxp.yaml"@),
        },
    }
}

/// The three keys of a session's record differ from each other.
pub proof fn lemma_config_keys()
    ensures
        "session_name"@ != "start_directory"@,
        "session_name"@ != "windows"@,
        "start_directory"@ != "windows"@,
{
    reveal_strlit("session_name");
    reveal_strlit("start_directory");
    reveal_strlit("windows");
    assert("session_name"@.len() == 12);
    assert("start_directory"@.len() == 15);
    assert("windows"@.len() == 7);
}

/// `dirs::home_dir`: the user's home directory as text, if the system
/// knows one. Nothing is claimed of it: it depends on the environment.
#[verifier::external_body]
pub(crate) fn home_dir() -> (r: Option<String>)
{
    dirs::home_dir().map(|p| p.to_string_lossy().into_owned())
}

impl Config {
    /// A session with the given name, start directory and windows.
    pub fn new(session_name: String, start_directory: String, windows: Vec<Window>) -> (r: Config)
        ensures
            r.session_name == session_name,
            r.start_directory == start_directory,
            r.windows == windows,
    {
        Config { session_name, start_directory, windows }
    }

    /// The YAML value of this session.
    pub(crate) fn to_value(&self) -> (v: serde_yaml::Value)
        ensures
            value_node(v) == config_node(self@),
    {
        let mut items: Vec<serde_yaml::Value> = Vec::new();
        let mut i: usize = 0;
        while i < self.windows.len()
            invariant
                i <= self.windows.len(),
                items@.len() == i,
                forall|k: int|
                    0 <= k < i ==> value_node(#[trigger] items@[k]) == window_node(
                        self.windows@[k]@,
                    ),
            decreases self.windows.len() - i,
        {
            items.push(self.windows[i].to_value());
            i = i + 1;
        }
        proof {
            assert(value_nodes(items@) =~= window_nodes(self@.windows));
        }
        let mut entries: Vec<(String, serde_yaml::Value)> = Vec::new();
        entries.push(("session_name".to_string(), text_value(self.session_name.as_str())));
        entries.push(("start_directory".to_string(), text_value(self.start_directory.as_str())));
        entries.push(("windows".to_string(), list_value(items)));
        proof {
            lemma_config_keys();
            assert(entry_nodes(entries@) =~= config_entries(self@));
        }
        record_value(entries)
    }

    /// What becomes of the text that the YAML writer returned: the text
    /// itself, or the writer's complaint as an error of this library.
    pub fn rendered(written: Result<String, String>) -> (r: Result<String, TmuxifyError>)
        ensures
            match written {
                Ok(text) => r == Ok::<String, TmuxifyError>(text),
                Err(reason) => r == Err::<String, TmuxifyError>(TmuxifyError::Render(reason)),
            },
    {
        match written {
            Ok(text) => Ok(text),
            Err(reason) => Err(TmuxifyError::Render(reason)),
        }
    }

    /// This session as YAML text. It succeeds exactly when the YAML writer
    /// does for the session's document, and the text is then the one that
    /// the writer gives; where it fails, the error carries its message.
    pub fn to_yaml(&self) -> (r: Result<String, TmuxifyError>)
        ensures
            r is Ok <==> yaml_written(config_node(self@)) is Some,
            r is Ok ==> Some(r->Ok_0@) == yaml_written(config_node(self@)),
            r is Err ==> r->Err_0 is Render,
    {
        let v = self.to_value();
        let written = match emit(&v) {
            Ok(text) => Ok(text),
            Err(e) => Err(error_text(&e)),
        };
        Config::rendered(written)
    }

    /// The path of the session description, given the home directory as
    /// far as it is known.
    pub fn file_path_under(
        &self,
        location: TmuxpLocation,
        project_dir: Option<&str>,
        home: Option<&str>,
    ) -> (r: Result<String, TmuxifyError>)
        ensures
            match file_path(self@.session_name, location, text_view(project_dir), text_view(home)) {
                Some(path) => r is Ok && r->Ok_0@ == path,
                None => r is Err && r->Err_0 is MissingHome,
            },
    {
        match location {
            TmuxpLocation::Home => match home {
                Some(h) => {
                    let mut path = join(h, ".tmuxp");
                    proof {
                        reveal_strlit("/");
                        assert("/"@ =~= seq!['/']);
                    }
                    path.append("/");
                    path.append(self.session_name.as_str());
                    path.append(".yaml");
                    proof {
                        assert(path@ =~= joined(h@, ".tmuxp"@) + seq!['/'] + session_file(
                            self@.session_name,
                        ));
                    }
                    Ok(path)
                },
                None => Err(TmuxifyError::MissingHome),
            },
            TmuxpLocation::Project => match project_dir {
                Some(dir) => Ok(join(dir, ".tmuxp.yaml")),
                None => Ok(String::from_str(".tmuxp.yaml")),
            },
        }
    }

    /// The path of the session description. For a project it depends on
    /// the arguments alone. For the home directory it lies under the
    /// directory that the system reports, and is an error where it reports
    /// none.
    pub fn get_file_path(&self, location: TmuxpLocation, project_dir: Option<&str>) -> (r: Result<
        String,
        TmuxifyError,
    >)
        ensures
            location == TmuxpLocation::Project ==> r is Ok && Some(r->Ok_0@) == file_path(
                self@.session_name,
                location,
                text_view(project_dir),
                None,
            ),
            location == TmuxpLocation::Home ==> (r is Err ==> r->Err_0 is MissingHome) && (r is Ok
                ==> exists|home: Seq<char>|
                Some(r->Ok_0@) == #[trigger] file_path(
                    self@.session_name,
                    location,
                    text_view(project_dir),
                    Some(home),
                )),
    {
        match location {
            TmuxpLocation::Home => {
                let home = home_dir();
                match &home {
                    Some(h) => {
                        let r = self.file_path_under(location, project_dir, Some(h.as_str()));
                        proof {
                            assert(Some(r->Ok_0@) == file_path(
                                self@.session_name,
                                location,
                                text_view(project_dir),
                                Some(h@),
                            ));
                        }
                        r
                    },
                    None => self.file_path_under(location, project_dir, None),
                }
            },
            TmuxpLocation::Project => self.file_path_under(location, project_dir, None),
        }
    }

    /// The shell hook that loads this session on entering the project
    /// directory.
    pub fn generate_envrc(&self, location: TmuxpLocation) -> (r: String)
        ensures
            r@ == envrc_text(self@.session_name, location),
            contains_text(r@, load_path(self@.session_name, location)),
            starts_with_text(r@, "if [ -z \"$TMUX\" ]; then"@),
            ends_with_text(r@, "fi\n"@),
    {
        let mut out = String::from_str("if [ -z \"$TMUX\" ]; then");
        out.append("\n  tmuxp load ");
        match location {
            TmuxpLocation::Home => {
                out.append("~/.tmuxp/");
                out.append(self.session_name.as_str());
                out.append(".yaml");
            },
            TmuxpLocation::Project => {
                out.append("./.tmuxp.yaml");
            },
        }
        out.append("\n");
        out.append("fi\n");
        proof {
            assert(out@ =~= envrc_text(self@.session_name, location));
            lemma_envrc_shape(self@.session_name, location);
        }
        out
    }
}

/// Whether a record has an entry under the key.
pub open spec fn has_key(entries: Seq<(Seq<char>, Node)>, key: Seq<char>) -> bool {
    exists|i: int| 0 <= i < entries.len() && (#[trigger] entries[i]).0 == key
}

/// The document of a session holds the session's name under
/// `session_name` and its start directory under `start_directory`, and the
/// document of each window that has a layout holds the layout's tmux name
/// under `layout`.
pub proof fn lemma_document_fields(c: ConfigView)
    ensures
        config_node(c) is Record,
        config_entries(c)[0] == ("session_name"@, Node::Text(c.session_name)),
        config_entries(c)[1] == ("start_directory"@, Node::Text(c.start_directory)),
        config_entries(c)[2].0 == "windows"@,
        config_entries(c)[2].1 == Node::List(window_nodes(c.windows)),
        window_nodes(c.windows).len() == c.windows.len(),
        forall|i: int|
            0 <= i < c.windows.len() ==> #[trigger] window_nodes(c.windows)[i] == window_node(
                c.windows[i],
            ),
        forall|i: int|
            0 <= i < c.windows.len() && c.windows[i].layout is Some ==> window_entries(
                #[trigger] c.windows[i],
            ).contains(("layout"@, Node::Text(layout_text(c.windows[i].layout->0)))),
{
    assert forall|i: int| 0 <= i < c.windows.len() && c.windows[i].layout is Some implies
        window_entries(#[trigger] c.windows[i]).contains(
        ("layout"@, Node::Text(layout_text(c.windows[i].layout->0))),
    ) by {
        let w = c.windows[i];
        let at = name_entries(w.window_name).len() as int;
        assert(window_entries(w)[at] == ("layout"@, Node::Text(layout_text(w.layout->0))));
    }
}

/// A pane's record has the key `shell_command` exactly when the pane has
/// commands; a window's record has the key `window_name` exactly when the
/// window has a name, and the key `layout` exactly when it has a layout.
pub proof fn lemma_omissions(p: PaneView, w: WindowView)
    ensures
        has_key(pane_entries(p), "shell_command"@) <==> p.shell_command.len() > 0,
        p.shell_command.len() == 0 ==> pane_entries(p).len() == 0,
        has_key(window_entries(w), "window_name"@) <==> w.window_name is Some,
        has_key(window_entries(w), "layout"@) <==> w.layout is Some,
        has_key(window_entries(w), "panes"@),
{
    lemma_window_keys();
    let pe = pane_entries(p);
    if p.shell_command.len() > 0 {
        assert(pe[0].0 == "shell_command"@);
    }
    let we = window_entries(w);
    let names = name_entries(w.window_name).len() as int;
    let layouts = layout_entries(w.layout).len() as int;
    assert(we[names + layouts].0 == "panes"@);
    if w.window_name is Some {
        assert(we[0].0 == "window_name"@);
    }
    if w.layout is Some {
        assert(we[names].0 == "layout"@);
    }
}

/// Where the session description is placed. In the home directory its path
/// begins with that directory and ends with `.tmuxp/`, the session's name
/// and `.yaml`. In a project it is `.tmuxp.yaml` relative to the project
/// directory, which reads as the directory, `/.tmuxp.yaml` where the
/// directory is not empty and does not end in `/`; without a project
/// directory it is the relative path `.tmuxp.yaml`.
pub proof fn lemma_placement(
    session: Seq<char>,
    dir: Seq<char>,
    home: Seq<char>,
    any_dir: Option<Seq<char>>,
    any_home: Option<Seq<char>>,
)
    ensures
        file_path(session, TmuxpLocation::Home, any_dir, Some(home)) is Some,
        starts_with_text(file_path(session, TmuxpLocation::Home, any_dir, Some(home))->0, home),
        ends_with_text(
            file_path(session, TmuxpLocation::Home, any_dir, Some(home))->0,
            ".tmuxp/"@ + session + ".yaml"@,
        ),
        file_path(session, TmuxpLocation::Home, any_dir, None) is None,
        file_path(session, TmuxpLocation::Project, Some(dir), any_home) == Some(
            joined(dir, ".tmuxp.yaml"@),
        ),
        dir.len() > 0 && dir.last() != '/' ==> file_path(
            session,
            TmuxpLocation::Project,
            Some(dir),
            any_home,
        ) == Some(dir + "/.tmuxp.yaml"@),
        file_path(session, TmuxpLocation::Project, None, any_home) == Some(".tmuxp.yaml"@),
{
    reveal_strlit(".tmuxp");
    reveal_strlit(".tmuxp/");
    reveal_strlit(".tmuxp.yaml");
    reveal_strlit("/.tmuxp.yaml");
    let path = file_path(session, TmuxpLocation::Home, any_dir, Some(home))->0;
    let tail = ".tmuxp/"@ + session + ".yaml"@;
    assert(".tmuxp/"@ =~= ".tmuxp"@ + seq!['/']);
    let lead = if home.len() == 0 || home.last() == '/' {
        home
    } else {
        home + seq!['/']
    };
    assert(joined(home, ".tmuxp"@) =~= lead + ".tmuxp"@);
    assert(path =~= lead + tail);
    assert(path.subrange(path.len() - tail.len(), path.len() as int) =~= tail);
    assert(path.subrange(0, home.len() as int) =~= home);
    assert("/.tmuxp.yaml"@ =~= seq!['/'] + ".tmuxp.yaml"@);
    if dir.len() > 0 && dir.last() != '/' {
        assert(joined(dir, ".tmuxp.yaml"@) =~= dir + "/.tmuxp.yaml"@);
    }
}

/// The shell hook names the file to load, begins with the test for a
/// running tmux, and ends with `fi` and a newline.
pub proof fn lemma_envrc_shape(session: Seq<char>, location: TmuxpLocation)
    ensures
        contains_text(envrc_text(session, location), load_path(session, location)),
        starts_with_text(envrc_text(session, location), "if [ -z \"$TMUX\" ]; then"@),
        ends_with_text(envrc_text(session, location), "fi\n"@),
{
    let head = "if [ -z \"$TMUX\" ]; then"@;
    let lead = "\n  tmuxp load "@;
    let path = load_path(session, location);
    let text = envrc_text(session, location);
    let at = (head.len() + lead.len()) as int;
    assert(text.subrange(at, at + path.len()) =~= path);
    assert(text.subrange(0, head.len() as int) =~= head);
    assert(text.subrange(text.len() - "fi\n"@.len(), text.len() as int) =~= "fi\n"@);
}

} // verus!
