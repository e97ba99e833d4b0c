//! Session tracking for a desktop study tool.
//!
//! A session is a named pointer to a folder / course / set; while it is
//! active, screenshot captures are filed under that context without asking
//! the user each time. This crate holds the session records and their store
//! ([`session`]), the layout of the session file that keeps the store across
//! restarts ([`persist`], over the JSON trees of [`json`]), what the commands
//! of the desktop shell decide ([`commands`], [`tray`], [`hierarchy`],
//! [`window`]), and the identifiers and timestamps that all of them share
//! ([`ident`], [`timestamp`]).
//!
//! The store does no locking and touches neither disk nor database: the
//! shell around it locks it for the length of one operation, reads and
//! writes the file, and asks the database.

pub mod commands;
pub mod hierarchy;
pub mod ident;
pub mod json;
pub mod persist;
pub mod session;
pub mod timestamp;
pub mod tray;
pub mod window;
