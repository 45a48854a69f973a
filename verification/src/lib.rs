//! State core of a terminal tool for reviewing patch series that are
//! distributed over a mailing-list archive.
//!
//! The crate holds the navigation state machine, the paginated feed window,
//! the bookmark and reply consolidation protocol and the layered
//! configuration resolver. Everything that touches the network, the file
//! system or a child process is left to the caller, which hands the outcome
//! back as plain values.

pub mod app_state;
pub mod bookmarked;
pub mod config;
pub mod cursor;
pub mod details;
pub mod error;
pub mod latest;
pub mod mailing_lists;
pub mod patch;
pub mod reviewed;
pub mod screen;
pub mod text;
