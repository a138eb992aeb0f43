use vstd::prelude::*;
use vstd::string::*;

verus! {

/// A required program that was not found, with the advice on how to get it.
#[derive(Debug, Clone, PartialEq, Eq)]
pub struct MissingDependency {
    pub name: String,
    pub hint: String,
}

/// Why an operation of this library failed.
#[derive(Debug, Clone, PartialEq, Eq)]
pub enum TmuxifyError {
    /// Required programs are not installed; never empty where the library
    /// returns it.
    MissingDependencies(Vec<MissingDependency>),
    /// A placement other than `home` or `project` was asked for.
    InvalidLocation(String),
    /// The home directory is unknown.
    MissingHome,
    /// The session description could not be rendered.
    Render(String),
    /// A file to back up has no file name.
    InvalidBackupPath,
    /// `direnv allow` ended with a failure; holds what it wrote to stderr.
    Subprocess(String),
}

/// An error as a value.
pub enum ErrorView {
    MissingDependencies(Seq<(Seq<char>, Seq<char>)>),
    InvalidLocation(Seq<char>),
    MissingHome,
    Render(Seq<char>),
    InvalidBackupPath,
    Subprocess(Seq<char>),
}

/// The entries of a missing-dependencies error, each as name and advice.
pub open spec fn missing_views(items: Seq<MissingDependency>) -> Seq<(Seq<char>, Seq<char>)> {
    items.map_values(|m: MissingDependency| (m.name@, m.hint@))
}

impl View for TmuxifyError {
    type V = ErrorView;

    open spec fn view(&self) -> ErrorView {
        match self {
            TmuxifyError::MissingDependencies(items) => ErrorView::MissingDependencies(
                missing_views(items@),
            ),
            TmuxifyError::InvalidLocation(given) => ErrorView::InvalidLocation(given@),
            TmuxifyError::MissingHome => ErrorView::MissingHome,
            TmuxifyError::Render(reason) => ErrorView::Render(reason@),
            TmuxifyError::InvalidBackupPath => ErrorView::InvalidBackupPath,
            TmuxifyError::Subprocess(stderr) => ErrorView::Subprocess(stderr@),
        }
    }
}

/// The line of the missing-dependencies message for one program.
pub open spec fn missing_line(name: Seq<char>, hint: Seq<char>) -> Seq<char> {
    "  "@ + name + " - install with: "@ + hint + "\n"@
}

/// The lines of the missing-dependencies message for the first `n` programs.
pub open spec fn missing_lines(items: Seq<(Seq<char>, Seq<char>)>, n: int) -> Seq<char>
    decreases n,
{
    if n <= 0 {
        Seq::empty()
    } else {
        missing_lines(items, n - 1) + missing_line(items[n - 1].0, items[n - 1].1)
    }
}

/// The message of an error, as it is shown to the user.
pub open spec fn error_message(e: ErrorView) -> Seq<char> {
    match e {
        ErrorView::MissingDependencies(items) => "Missing required dependencies:\n"@
            + missing_lines(items, items.len() as int),
        ErrorView::InvalidLocation(given) => "Invalid location: "@ + given
            + ". Use 'home' or 'project'"@,
        ErrorView::MissingHome => "Could not determine home directory"@,
        ErrorView::Render(reason) => reason,
        ErrorView::InvalidBackupPath => "Invalid path for backup"@,
        ErrorView::Subprocess(stderr) => "direnv allow failed: "@ + stderr,
    }
}

impl TmuxifyError {
    /// The message of this error.
    pub fn message(&self) -> (r: String)
        ensures
            r@ == error_message(self@),
    {
        match self {
            TmuxifyError::MissingDependencies(items) => {
                let mut out = String::from_str("Missing required dependencies:\n");
                let mut i: usize = 0;
                while i < items.len()
                    invariant
                        i <= items.len(),
                        out@ == "Missing required dependencies:\n"@ + missing_lines(
                            missing_views(items@),
                            i as int,
                        ),
                    decreases items.len() - i,
                {
                    let item = &items[i];
                    let ghost before = out@;
                    out.append("  ");
                    out.append(item.name.as_str());
                    out.append(" - install with: ");
                    out.append(item.hint.as_str());
                    out.append("\n");
                    proof {
                        assert(out@ =~= before + missing_line(item.name@, item.hint@));
                        assert(out@ =~= "Missing required dependencies:\n"@ + missing_lines(
                            missing_views(items@),
                            i + 1,
                        ));
                    }
                    i = i + 1;
                }
                out
            },
            TmuxifyError::InvalidLocation(given) => {
                let mut out = String::from_str("Invalid location: ");
                out.append(given.as_str());
                out.append(". Use 'home' or 'project'");
                out
            },
            TmuxifyError::MissingHome => String::from_str("Could not determine home directory"),
            TmuxifyError::Render(reason) => reason.clone(),
            TmuxifyError::InvalidBackupPath => String::from_str("Invalid path for backup"),
            TmuxifyError::Subprocess(stderr) => {
                let mut out = String::from_str("direnv allow failed: ");
                out.append(stderr.as_str());
                out
            },
        }
    }
}

} // verus!
