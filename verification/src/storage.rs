//! Where delivered mail is kept.
pub mod maildir;
