//! Builds the two files that let a terminal-multiplexer session start when
//! a project directory is entered: the session description that tmuxp
//! loads, as YAML, and the `.envrc` that direnv sources.
//!
//! `model` holds the session, its windows and panes, and renders them.
//! `ops` holds what is done with them: `validate` checks the machine,
//! `write` plans the files on disk, `doctor` reports on the setup, and
//! `interactive` leads the user through a configuration, one question at a
//! time.
//!
//! The library looks up programs on the search path, the home directory
//! and the local time by itself. It does not write to the terminal or to
//! the disk and starts no process: it says what is to be asked, shown,
//! written and run, and is told what came of it.

pub mod cli;
pub mod error;
pub mod model;
pub mod ops;
pub mod paths;
pub mod text;
pub mod ui;
pub mod yaml;
