//! Which role a session plays.
use vstd::prelude::*;

verus! {

/// The role of a session: accepting relayed mail, accepting submissions from local
/// users, or delivering to another server as a client.
#[derive(Debug, Eq, PartialEq)]
pub enum TransactionType {
    SERVER,
    SUBMISSION,
    CLIENT { exchange: Option<String> },
}

} // verus!
