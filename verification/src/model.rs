pub mod config;
pub mod pane;
pub mod window;

pub use config::{Config, ConfigView, TmuxpLocation};
pub use pane::{Pane, PaneView};
pub use window::{Window, WindowLayout, WindowView};
