//! A webhook-triggered build runner, reduced to its decisions.
//!
//! The library holds every rule of the runner as verified code: how a push
//! notification is authenticated, how the single build slot is handed out,
//! which git commands bring a working copy to the pushed ref and in which
//! order, and which files a build's report goes through. Whoever embeds it
//! performs the commands and file operations that the library asks for and
//! reports back what happened.

pub mod appstate;
pub mod auth;
pub mod cfg;
pub mod git;
pub mod journal;
pub mod payload;
pub mod pipeline;
pub mod reply;
pub mod report;
pub mod sync;
pub mod text;
