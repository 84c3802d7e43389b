//! A codec for the client side of a session, keeping its own mode.
use vstd::prelude::*;
use crate::io::codec_state::CodecState;

verus! {

/// Client-side codec state.
pub struct SmtpClientCodec {
    state: CodecState,
}

} // verus!
