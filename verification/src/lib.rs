//! Patine: the protocol logic of an SMTP server (RFC 5321), verified with Verus.
use vstd::prelude::*;

pub mod text;
pub mod scan;
pub mod command;
pub mod commands;
pub mod config;
pub mod io;
pub mod request;
pub mod server;
pub mod storage;

verus! {

} // verus!
