//! A command that knows how to answer itself.
use vstd::prelude::*;

verus! {

/// A command that produces its reply text, or an error text when it cannot be answered.
pub trait Command {
    fn execute(&mut self) -> Result<String, String>;
}

} // verus!
