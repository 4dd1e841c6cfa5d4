//! The request to stop the event loop.

use vstd::prelude::*;
use crate::platform_message::binary::{exhaustive, BinaryDecodable, BinaryReader, CodecError};

verus! {

/// Asks the embedder to leave its event loop. Carries nothing and is
/// answered with nothing.
#[derive(Clone, Copy, Debug, PartialEq, Eq, Structural)]
pub struct Shutdown;

impl Shutdown {
    /// What reading the request's fields from the front of `input` gives:
    /// there are none.
    pub open spec fn fields(input: Seq<u8>) -> Result<(Self, nat), CodecError> {
        Ok((Shutdown, 0))
    }
}

impl BinaryDecodable for Shutdown {
    /// The request is its whole message: any byte is trailing data.
    open spec fn parse(input: Seq<u8>) -> Result<(Self, nat), CodecError> {
        exhaustive(Shutdown::fields(input), input.len())
    }

    fn decode(reader: &mut BinaryReader) -> (r: Result<Self, CodecError>) {
        reader.assert_finished()?;
        assert(reader.remaining() =~= old(reader).remaining().skip(0));
        Ok(Shutdown)
    }
}

} // verus!
