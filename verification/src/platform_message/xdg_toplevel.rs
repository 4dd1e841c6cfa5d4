//! Requests about top-level windows, and the event that tells the
//! application that a window should close.

use vstd::prelude::*;
use crate::platform_message::binary::{
    advanced, exhaustive, string_parse, BinaryDecodable, BinaryEncodable, BinaryReader, BinaryWriter,
    CodecError,
};
use crate::shell::compositor::LogicalSizeConstraints;
use crate::view::ViewId;

verus! {

/// Asks for a new top-level window. Carries nothing and is answered with
/// the new view's identifier.
#[derive(Clone, Copy, Debug, PartialEq, Eq, Structural)]
pub struct Create;

impl Create {
    /// What reading the request's fields from the front of `input` gives:
    /// there are none.
    pub open spec fn fields(input: Seq<u8>) -> Result<(Self, nat), CodecError> {
        Ok((Create, 0))
    }
}

impl BinaryDecodable for Create {
    /// The request is its whole message: any byte is trailing data.
    open spec fn parse(input: Seq<u8>) -> Result<(Self, nat), CodecError> {
        exhaustive(Create::fields(input), input.len())
    }

    fn decode(reader: &mut BinaryReader) -> (r: Result<Self, CodecError>) {
        reader.assert_finished()?;
        assert(reader.remaining() =~= old(reader).remaining().skip(0));
        Ok(Create)
    }
}

/// Asks for the first commit of a window, which makes the platform
/// configure it.
#[derive(Clone, Copy, Debug, PartialEq, Eq, Structural)]
pub struct InitialCommit {
    pub view_id: ViewId,
}

impl InitialCommit {
    /// What reading the request's fields from the front of `input` gives: a
    /// view identifier.
    pub open spec fn fields(input: Seq<u8>) -> Result<(Self, nat), CodecError> {
        match ViewId::parse(input) {
            Err(e) => Err(e),
            Ok((view_id, used)) => Ok((InitialCommit { view_id }, used)),
        }
    }
}

impl BinaryDecodable for InitialCommit {
    /// The request is its whole message: bytes behind its field are
    /// trailing data.
    open spec fn parse(input: Seq<u8>) -> Result<(Self, nat), CodecError> {
        exhaustive(InitialCommit::fields(input), input.len())
    }

    fn decode(reader: &mut BinaryReader) -> (r: Result<Self, CodecError>) {
        let view_id = reader.read::<ViewId>()?;
        reader.assert_finished()?;
        Ok(InitialCommit { view_id })
    }
}

/// Sets the title and the application identifier of a window.
#[derive(Debug, PartialEq, Eq)]
pub struct Update {
    pub view_id: ViewId,
    pub title: String,
    pub app_id: String,
}

/// What an `Update` holds.
pub ghost struct UpdateView {
    pub view_id: ViewId,
    pub title: Seq<char>,
    pub app_id: Seq<char>,
}

impl View for Update {
    type V = UpdateView;

    open spec fn view(&self) -> UpdateView {
        UpdateView { view_id: self.view_id, title: self.title@, app_id: self.app_id@ }
    }
}

impl Update {
    /// What reading the request's fields from the front of `input` gives: a
    /// view identifier, then the title and the application identifier as
    /// strings.
    pub open spec fn fields(input: Seq<u8>) -> Result<(UpdateView, nat), CodecError> {
        match ViewId::parse(input) {
            Err(e) => Err(e),
            Ok((view_id, a)) => match string_parse(input.skip(a as int)) {
                Err(e) => Err(e),
                Ok((title, b)) => match string_parse(input.skip((a + b) as int)) {
                    Err(e) => Err(e),
                    Ok((app_id, c)) => Ok((UpdateView { view_id, title, app_id }, a + b + c)),
                },
            },
        }
    }

    /// What decoding a message gives: the request's fields, which have to
    /// fill the message. Bytes behind them are trailing data.
    pub open spec fn parse(input: Seq<u8>) -> Result<(UpdateView, nat), CodecError> {
        exhaustive(Self::fields(input), input.len())
    }

    /// Reads the request at the reader's position, which has to fill what
    /// is left of the message.
    pub fn decode(reader: &mut BinaryReader) -> (r: Result<Self, CodecError>)
        ensures
            final(reader).bytes() == old(reader).bytes(),
            match Self::parse(old(reader).remaining()) {
                Ok((value, used)) => r.is_ok() && r.unwrap()@ == value && advanced(
                    *old(reader),
                    *final(reader),
                    used,
                ),
                Err(e) => r.is_err() && r.unwrap_err() == e,
            },
    {
        let ghost input = reader.remaining();
        let view_id = reader.read::<ViewId>()?;
        let ghost a = ViewId::parse(input).unwrap().1;
        let title = reader.read_string()?;
        let ghost b = string_parse(input.skip(a as int)).unwrap().1;
        assert(input.skip(a as int).skip(b as int) =~= input.skip((a + b) as int));
        let app_id = reader.read_string()?;
        let ghost c = string_parse(input.skip((a + b) as int)).unwrap().1;
        assert(input.skip((a + b) as int).skip(c as int) =~= input.skip((a + b + c) as int));
        reader.assert_finished()?;
        Ok(Update { view_id, title, app_id })
    }
}

/// Sets the bounds of a window's size in logical pixels, as the
/// application's framework counts them: a view identifier, then the
/// minimum width, minimum height, maximum width and maximum height as
/// double-precision numbers. Nothing may follow them.
#[derive(Clone, Copy, Debug, PartialEq, Eq, Structural)]
pub struct UpdateViewConstraints {
    pub view_id: ViewId,
    pub constraints: LogicalSizeConstraints,
}

impl UpdateViewConstraints {
    /// What reading the request's fields from the front of `input` gives: a
    /// view identifier and four bounds of eight bytes each.
    pub open spec fn fields(input: Seq<u8>) -> Result<(Self, nat), CodecError> {
        match ViewId::parse(input) {
            Err(e) => Err(e),
            Ok((view_id, _)) => match u64::parse(input.skip(8)) {
                Err(e) => Err(e),
                Ok((min_width, _)) => match u64::parse(input.skip(16)) {
                    Err(e) => Err(e),
                    Ok((min_height, _)) => match u64::parse(input.skip(24)) {
                        Err(e) => Err(e),
                        Ok((max_width, _)) => match u64::parse(input.skip(32)) {
                            Err(e) => Err(e),
                            Ok((max_height, _)) => Ok(
                                (
                                    UpdateViewConstraints {
                                        view_id,
                                        constraints: LogicalSizeConstraints {
                                            min_width,
                                            min_height,
                                            max_width,
                                            max_height,
                                        },
                                    },
                                    40,
                                ),
                            ),
                        },
                    },
                },
            },
        }
    }
}

impl BinaryDecodable for UpdateViewConstraints {
    /// The request is its whole message: bytes behind its fields are
    /// trailing data.
    open spec fn parse(input: Seq<u8>) -> Result<(Self, nat), CodecError> {
        exhaustive(UpdateViewConstraints::fields(input), input.len())
    }

    fn decode(reader: &mut BinaryReader) -> (r: Result<Self, CodecError>) {
        let ghost input = reader.remaining();
        let view_id = reader.read::<ViewId>()?;
        let min_width = reader.read::<u64>()?;
        assert(input.skip(8).skip(8) =~= input.skip(16));
        let min_height = reader.read::<u64>()?;
        assert(input.skip(16).skip(8) =~= input.skip(24));
        let max_width = reader.read::<u64>()?;
        assert(input.skip(24).skip(8) =~= input.skip(32));
        let max_height = reader.read::<u64>()?;
        assert(input.skip(32).skip(8) =~= input.skip(40));
        reader.assert_finished()?;
        assert(reader.remaining() =~= input.skip(40));
        Ok(
            UpdateViewConstraints {
                view_id,
                constraints: LogicalSizeConstraints { min_width, min_height, max_width, max_height },
            },
        )
    }
}

/// Asks to take a window's view away.
#[derive(Clone, Copy, Debug, PartialEq, Eq, Structural)]
pub struct Remove {
    pub view_id: ViewId,
}

impl Remove {
    /// What reading the request's fields from the front of `input` gives: a
    /// view identifier.
    pub open spec fn fields(input: Seq<u8>) -> Result<(Self, nat), CodecError> {
        match ViewId::parse(input) {
            Err(e) => Err(e),
            Ok((view_id, used)) => Ok((Remove { view_id }, used)),
        }
    }
}

impl BinaryDecodable for Remove {
    /// The request is its whole message: bytes behind its field are
    /// trailing data.
    open spec fn parse(input: Seq<u8>) -> Result<(Self, nat), CodecError> {
        exhaustive(Remove::fields(input), input.len())
    }

    fn decode(reader: &mut BinaryReader) -> (r: Result<Self, CodecError>) {
        let view_id = reader.read::<ViewId>()?;
        reader.assert_finished()?;
        Ok(Remove { view_id })
    }
}

/// Tells the application that the platform wants a window closed. The
/// application answers with nothing.
#[derive(Clone, Copy, Debug, PartialEq, Eq, Structural)]
pub struct Close {
    pub view_id: ViewId,
}

impl BinaryEncodable for Close {
    open spec fn encoding(&self) -> Seq<u8> {
        self.view_id.encoding()
    }

    fn encode(&self, writer: &mut BinaryWriter) {
        writer.write::<i64>(&self.view_id.0)
    }
}

impl Close {
    /// Checks the application's answer, which holds nothing: any byte in
    /// it is trailing data.
    pub fn decode_response(reader: &mut BinaryReader) -> (r: Result<(), CodecError>)
        ensures
            final(reader).bytes() == old(reader).bytes(),
            old(reader).remaining().len() == 0 ==> r == Ok::<(), CodecError>(()),
            old(reader).remaining().len() != 0 ==> r == Err::<(), CodecError>(
                CodecError::TrailingData,
            ),
    {
        reader.assert_finished()
    }
}

} // verus!
