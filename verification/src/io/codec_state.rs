//! Whether the server codec is reading command lines or mail data.
use vstd::prelude::*;

verus! {

/// The mode of the command decoder.
#[derive(Debug, Clone, Copy, PartialEq, Eq, Structural)]
pub enum CodecState {
    /// Reading CRLF-terminated command lines.
    Regular,
    /// Reading mail data up to `<CRLF>.<CRLF>`.
    Data,
}

} // verus!
