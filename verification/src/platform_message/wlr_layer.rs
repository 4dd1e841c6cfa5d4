//! Requests about surfaces that are anchored to an edge of the screen.

use vstd::prelude::*;
use crate::platform_message::binary::{
    advanced, exhaustive, string_parse, BinaryDecodable, BinaryReader, CodecError,
};
use crate::view::ViewId;

verus! {

/// The layer of the screen that a surface is stacked in, from the bottom
/// up.
#[derive(Clone, Copy, Debug, PartialEq, Eq, Structural)]
pub enum Layer {
    Background,
    Bottom,
    Top,
    Overlay,
}

/// The layer that a number on the wire stands for.
pub open spec fn layer_of(code: u8) -> Option<Layer> {
    if code == 0 {
        Some(Layer::Background)
    } else if code == 1 {
        Some(Layer::Bottom)
    } else if code == 2 {
        Some(Layer::Top)
    } else if code == 3 {
        Some(Layer::Overlay)
    } else {
        None
    }
}

impl BinaryDecodable for Layer {
    open spec fn parse(input: Seq<u8>) -> Result<(Self, nat), CodecError> {
        match u8::parse(input) {
            Err(e) => Err(e),
            Ok((code, used)) => match layer_of(code) {
                Some(layer) => Ok((layer, used)),
                None => Err(CodecError::InvalidValue),
            },
        }
    }

    fn decode(reader: &mut BinaryReader) -> (r: Result<Self, CodecError>) {
        let code = reader.read::<u8>()?;
        if code == 0 {
            Ok(Layer::Background)
        } else if code == 1 {
            Ok(Layer::Bottom)
        } else if code == 2 {
            Ok(Layer::Top)
        } else if code == 3 {
            Ok(Layer::Overlay)
        } else {
            Err(CodecError::InvalidValue)
        }
    }
}

/// The edges of the screen that a surface is anchored to, one bit each.
#[derive(Clone, Copy, Debug, PartialEq, Eq, Structural)]
pub struct Anchor {
    pub bits: u32,
}

/// The bit of the top edge.
pub const ANCHOR_TOP: u32 = 1;

/// The bit of the bottom edge.
pub const ANCHOR_BOTTOM: u32 = 2;

/// The bit of the left edge.
pub const ANCHOR_LEFT: u32 = 4;

/// The bit of the right edge.
pub const ANCHOR_RIGHT: u32 = 8;

/// Every bit of `bits` stands for an edge.
pub open spec fn only_edges(bits: u32) -> bool {
    bits < 16
}

impl Anchor {
    /// The anchor holds no bit that stands for no edge.
    pub open spec fn is_valid(self) -> bool {
        only_edges(self.bits)
    }

    /// The anchor with exactly these bits, unless one of them stands for no
    /// edge.
    pub fn from_bits(bits: u32) -> (r: Option<Anchor>)
        ensures
            r == (if only_edges(bits) {
                Some(Anchor { bits })
            } else {
                None
            }),
    {
        if bits < 16 {
            Some(Anchor { bits })
        } else {
            None
        }
    }
}

impl BinaryDecodable for Anchor {
    open spec fn parse(input: Seq<u8>) -> Result<(Self, nat), CodecError> {
        match u32::parse(input) {
            Err(e) => Err(e),
            Ok((bits, used)) => if only_edges(bits) {
                Ok((Anchor { bits }, used))
            } else {
                Err(CodecError::InvalidValue)
            },
        }
    }

    fn decode(reader: &mut BinaryReader) -> (r: Result<Self, CodecError>) {
        let bits = reader.read::<u32>()?;
        match Anchor::from_bits(bits) {
            Some(anchor) => Ok(anchor),
            None => Err(CodecError::InvalidValue),
        }
    }
}

/// Asks for a new anchored surface in `layer`. Answered with the new
/// view's identifier.
#[derive(Debug, PartialEq, Eq)]
pub struct Create {
    pub layer: Layer,
    pub namespace: String,
}

/// What a `Create` holds.
pub ghost struct CreateView {
    pub layer: Layer,
    pub namespace: Seq<char>,
}

impl View for Create {
    type V = CreateView;

    open spec fn view(&self) -> CreateView {
        CreateView { layer: self.layer, namespace: self.namespace@ }
    }
}

impl Create {
    /// What reading the request's fields from the front of `input` gives: a
    /// layer, then the namespace as a string.
    pub open spec fn fields(input: Seq<u8>) -> Result<(CreateView, nat), CodecError> {
        match Layer::parse(input) {
            Err(e) => Err(e),
            Ok((layer, used)) => match string_parse(input.skip(used as int)) {
                Err(e) => Err(e),
                Ok((namespace, more)) => Ok((CreateView { layer, namespace }, used + more)),
            },
        }
    }

    /// What decoding a message gives: the request's fields, which have to
    /// fill the message. Bytes behind them are trailing data.
    pub open spec fn parse(input: Seq<u8>) -> Result<(CreateView, nat), CodecError> {
        exhaustive(Self::fields(input), input.len())
    }

    /// Reads the request at the reader's position, which has to fill what
    /// is left of the message.
    pub fn decode(reader: &mut BinaryReader) -> (r: Result<Self, CodecError>)
        ensures
            final(reader).bytes() == old(reader).bytes(),
            match Self::parse(old(reader).remaining()) {
                Ok((value, used)) => r.is_ok() && r.unwrap()@ == value && advanced(
                    *old(reader),
                    *final(reader),
                    used,
                ),
                Err(e) => r.is_err() && r.unwrap_err() == e,
            },
    {
        let layer = reader.read::<Layer>()?;
        let ghost used = Layer::parse(old(reader).remaining()).unwrap().1;
        let namespace = reader.read_string()?;
        proof {
            let more = string_parse(old(reader).remaining().skip(used as int)).unwrap().1;
            assert(old(reader).remaining().skip(used as int).skip(more as int) =~= old(
                reader,
            ).remaining().skip((used + more) as int));
        }
        reader.assert_finished()?;
        Ok(Create { layer, namespace })
    }
}

/// Sets the size and the anchor of an anchored surface.
#[derive(Clone, Copy, Debug, PartialEq, Eq, Structural)]
pub struct Update {
    pub view_id: ViewId,
    pub width: u32,
    pub height: u32,
    pub anchor: Anchor,
}

impl Update {
    /// What reading the request's fields from the front of `input` gives: a
    /// view identifier, a width, a height and an anchor.
    pub open spec fn fields(input: Seq<u8>) -> Result<(Self, nat), CodecError> {
        match ViewId::parse(input) {
            Err(e) => Err(e),
            Ok((view_id, a)) => match u32::parse(input.skip(a as int)) {
                Err(e) => Err(e),
                Ok((width, b)) => match u32::parse(input.skip((a + b) as int)) {
                    Err(e) => Err(e),
                    Ok((height, c)) => match Anchor::parse(input.skip((a + b + c) as int)) {
                        Err(e) => Err(e),
                        Ok((anchor, d)) => Ok(
                            (Update { view_id, width, height, anchor }, a + b + c + d),
                        ),
                    },
                },
            },
        }
    }
}

impl BinaryDecodable for Update {
    /// The request is its whole message: bytes behind its fields are
    /// trailing data.
    open spec fn parse(input: Seq<u8>) -> Result<(Self, nat), CodecError> {
        exhaustive(Update::fields(input), input.len())
    }

    fn decode(reader: &mut BinaryReader) -> (r: Result<Self, CodecError>) {
        let ghost input = reader.remaining();
        let view_id = reader.read::<ViewId>()?;
        let ghost a = ViewId::parse(input).unwrap().1;
        let width = reader.read::<u32>()?;
        let ghost b = u32::parse(input.skip(a as int)).unwrap().1;
        assert(input.skip(a as int).skip(b as int) =~= input.skip((a + b) as int));
        let height = reader.read::<u32>()?;
        let ghost c = u32::parse(input.skip((a + b) as int)).unwrap().1;
        assert(input.skip((a + b) as int).skip(c as int) =~= input.skip((a + b + c) as int));
        let anchor = reader.read::<Anchor>()?;
        let ghost d = Anchor::parse(input.skip((a + b + c) as int)).unwrap().1;
        assert(input.skip((a + b + c) as int).skip(d as int) =~= input.skip(
            (a + b + c + d) as int,
        ));
        reader.assert_finished()?;
        Ok(Update { view_id, width, height, anchor })
    }
}

/// Asks to take an anchored surface's view away.
#[derive(Clone, Copy, Debug, PartialEq, Eq, Structural)]
pub struct Remove {
    pub view_id: ViewId,
}

impl Remove {
    /// What reading the request's fields from the front of `input` gives: a
    /// view identifier.
    pub open spec fn fields(input: Seq<u8>) -> Result<(Self, nat), CodecError> {
        match ViewId::parse(input) {
            Err(e) => Err(e),
            Ok((view_id, used)) => Ok((Remove { view_id }, used)),
        }
    }
}

impl BinaryDecodable for Remove {
    /// The request is its whole message: bytes behind its field are
    /// trailing data.
    open spec fn parse(input: Seq<u8>) -> Result<(Self, nat), CodecError> {
        exhaustive(Remove::fields(input), input.len())
    }

    fn decode(reader: &mut BinaryReader) -> (r: Result<Self, CodecError>) {
        let view_id = reader.read::<ViewId>()?;
        reader.assert_finished()?;
        Ok(Remove { view_id })
    }
}

} // verus!
