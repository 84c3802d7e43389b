//! The first session model of the server, which only knows the greeting stage.
pub mod transaction;
