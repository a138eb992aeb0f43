pub mod args;
pub mod commands;

pub use args::{Args, Commands};
pub use commands::{run_command, Task};
