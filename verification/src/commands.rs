//! What the command handlers of the desktop shell decide before and after
//! they touch the database or the disk: the requests they take, the
//! identifiers they read from them, and the session commands themselves.

pub mod courses;
pub mod folders;
pub mod problem_attempts;
pub mod problems;
pub mod sessions;
pub mod sets;
pub mod subjects;
