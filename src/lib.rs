//! An idea journal: decides, step by step, what a run of the tool does
//! (first-time setup, capturing an idea, viewing or clearing the notes
//! configuration), while the program around it performs the I/O.

pub mod eureka;
pub mod laws;
pub mod types;

pub use eureka::{Eureka, Phase};
pub use types::{Action, ConfigFile, EditorCandidate, Event, Failure, RunState};
