//! The codec that frames an SMTP byte stream, for either side of a session.
use core::marker::PhantomData;
use vstd::prelude::*;
use crate::io::codec_state::CodecState;

verus! {

/// A codec that decodes items of type `I` and encodes items of type `O`.
pub struct SmtpCodec<I, O> {
    pub codec_state: CodecState,
    pub marker: PhantomData<(I, O)>,
}

impl<I, O> SmtpCodec<I, O> {
    /// A codec reading command lines.
    pub fn new() -> (r: Self)
        ensures
            r.codec_state == CodecState::Regular,
    {
        Self { codec_state: CodecState::Regular, marker: PhantomData }
    }
}

} // verus!
