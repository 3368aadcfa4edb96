//! Mira keeps bare copies of git repositories and mirrors them to their
//! destinations, as a JSON configuration lists them.
//!
//! The library decides; it runs nothing itself. Each level of the work is a
//! step function from a state and the reply to the pending request to the next
//! state, and a second function that says which request is pending in a state.
//! The caller performs the requests: it asks the file system, creates
//! directories and runs git.

pub mod config;
pub mod configuration;
pub mod exchange;
pub mod git;
pub mod mirror;
pub mod notice;
pub mod outcome;
pub mod path;
pub mod root;
pub mod run;
