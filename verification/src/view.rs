//! View identifiers and the counter that hands them out.

use vstd::prelude::*;
use crate::platform_message::binary::{
    BinaryCodec, BinaryDecodable, BinaryEncodable, BinaryReader, BinaryWriter, CodecError,
};

verus! {

/// Names one view of the engine. Opaque but for the implicit view.
#[derive(Clone, Copy, Debug, PartialEq, Eq, Hash, Structural)]
pub struct ViewId(pub i64);

/// The number of the view that exists from startup, without being created.
pub const IMPLICIT_VIEW: i64 = 0;

impl ViewId {
    /// This is the view that exists from startup.
    pub open spec fn is_implicit(self) -> bool {
        self.0 == IMPLICIT_VIEW
    }

    /// The view that exists from startup, without being created.
    pub fn implicit() -> (id: ViewId)
        ensures
            id.is_implicit(),
            id == ViewId(IMPLICIT_VIEW),
    {
        ViewId(IMPLICIT_VIEW)
    }
}

impl BinaryEncodable for ViewId {
    open spec fn encoding(&self) -> Seq<u8> {
        self.0.encoding()
    }

    fn encode(&self, writer: &mut BinaryWriter) {
        writer.write::<i64>(&self.0)
    }
}

impl BinaryDecodable for ViewId {
    open spec fn parse(input: Seq<u8>) -> Result<(Self, nat), CodecError> {
        match i64::parse(input) {
            Ok((raw, used)) => Ok((ViewId(raw), used)),
            Err(e) => Err(e),
        }
    }

    fn decode(reader: &mut BinaryReader) -> (r: Result<Self, CodecError>) {
        match reader.read::<i64>() {
            Ok(raw) => Ok(ViewId(raw)),
            Err(e) => Err(e),
        }
    }
}

impl BinaryCodec for ViewId {
    proof fn lemma_round_trip(value: Self, rest: Seq<u8>) {
        i64::lemma_round_trip(value.0, rest);
    }
}

/// Hands out view identifiers in rising order, starting at one. Past the
/// largest value it wraps around, and it never hands out the implicit
/// view's identifier.
#[derive(Debug)]
pub struct ViewIdCounter {
    next: i64,
}

/// The identifier that a counter standing at `next` hands out.
pub open spec fn issued_id(next: i64) -> i64 {
    if next == 0 {
        1
    } else {
        next
    }
}

/// Where a counter standing at `next` stands after handing one out.
pub open spec fn following_id(next: i64) -> i64 {
    if issued_id(next) == i64::MAX {
        i64::MIN
    } else {
        (issued_id(next) + 1) as i64
    }
}

impl ViewIdCounter {
    /// Where the counter stands.
    pub closed spec fn next(&self) -> i64 {
        self.next
    }

    /// A counter whose first identifier is one.
    pub fn new() -> (counter: Self)
        ensures
            counter.next() == 1,
    {
        ViewIdCounter { next: 1 }
    }

    /// The identifier that the next call of `next_view_id` hands out.
    pub fn peek(&self) -> (id: ViewId)
        ensures
            id.0 == issued_id(self.next()),
            !id.is_implicit(),
    {
        if self.next == 0 {
            ViewId(1)
        } else {
            ViewId(self.next)
        }
    }

    /// Hands out the next identifier. It is never the implicit view's.
    pub fn next_view_id(&mut self) -> (id: ViewId)
        ensures
            id.0 == issued_id(old(self).next()),
            !id.is_implicit(),
            final(self).next() == following_id(old(self).next()),
    {
        let current: i64 = if self.next == 0 {
            1
        } else {
            self.next
        };
        self.next = if current == i64::MAX {
            i64::MIN
        } else {
            current + 1
        };
        ViewId(current)
    }
}

} // verus!
