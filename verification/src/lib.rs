//! Decision logic of a staged previsbine build: which stage runs next, what
//! must hold before it, how each external tool is invoked and how its
//! outcome is judged.
//!
//! The library performs no file operation and starts no process. Its
//! sequencer makes requests and is handed the responses; what it decides
//! from them is stated in contracts and proved.

pub mod builder;
pub mod error;
pub mod facts;
pub mod location;
pub mod names;
pub mod paths;
pub mod pattern;
pub mod plugin;
pub mod protocol;
pub mod stage;
pub mod text;
pub mod tools;
pub mod ui;
pub mod validation;

pub use builder::PrevisbineBuilder;
pub use paths::Paths;
pub use stage::{Args, BuildMode, BuildStage};
