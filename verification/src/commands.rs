//! The first command model of the server: a coarser command set, and replies built as text.
pub mod command;
pub mod smtp_command;
pub mod ehlo;
