//! Verified core of a small note-taking application: notebooks, notes,
//! per-notebook note counters and the decisions the user interface and the
//! server functions take on them.

pub mod model;
pub mod count;
pub mod server;
pub mod record;
pub mod ui;
