//! What holds of every message: a payload that decodes is used up to its
//! last byte. The same payload with anything behind it is refused as
//! trailing data, and the same payload cut short is refused as an
//! underflow.

use vstd::prelude::*;
use crate::platform_message::binary::{
    string_parse, uint_parse, BinaryDecodable, CodecError,
};
use crate::platform_message::wlr_layer::{Anchor, Layer};
use crate::platform_message::{
    kind_of, message_of, request_of, wlr_layer, xdg_toplevel, DecodeError, RequestKind, RequestView,
};
use crate::view::ViewId;

verus! {

/// What stands behind the first `n` bytes of an input does not change
/// when the input is made longer.
pub proof fn lemma_skip_of_longer(input: Seq<u8>, extra: Seq<u8>, n: nat)
    requires
        n <= input.len(),
    ensures
        (input + extra).skip(n as int) == input.skip(n as int) + extra,
{
    assert((input + extra).skip(n as int) =~= input.skip(n as int) + extra);
}

/// An integer that is read from an input is read from every longer input
/// too, with the same result.
pub proof fn lemma_uint_of_longer(input: Seq<u8>, extra: Seq<u8>, width: nat)
    requires
        uint_parse(input, width) is Ok,
    ensures
        uint_parse(input + extra, width) == uint_parse(input, width),
{
    assert((input + extra).take(width as int) =~= input.take(width as int));
}

/// A string that is read from an input is read from every longer input
/// too, with the same result, and lies within the input.
pub proof fn lemma_string_of_longer(input: Seq<u8>, extra: Seq<u8>)
    requires
        string_parse(input) is Ok,
    ensures
        string_parse(input + extra) == string_parse(input),
        string_parse(input).unwrap().1 <= input.len(),
{
    lemma_uint_of_longer(input, extra, 8);
    let len = uint_parse(input, 8).unwrap().0;
    assert((input + extra).subrange(8, 8 + len as int) =~= input.subrange(8, 8 + len as int));
}

/// A view identifier is read from every longer input with the same result.
proof fn lemma_view_id_of_longer(input: Seq<u8>, extra: Seq<u8>)
    requires
        ViewId::parse(input) is Ok,
    ensures
        ViewId::parse(input + extra) == ViewId::parse(input),
        ViewId::parse(input).unwrap().1 == 8,
        input.len() >= 8,
{
    lemma_uint_of_longer(input, extra, 8);
}

/// A 32-bit integer is read from every longer input with the same result.
proof fn lemma_u32_of_longer(input: Seq<u8>, extra: Seq<u8>)
    requires
        u32::parse(input) is Ok,
    ensures
        u32::parse(input + extra) == u32::parse(input),
        u32::parse(input).unwrap().1 == 4,
        input.len() >= 4,
{
    lemma_uint_of_longer(input, extra, 4);
}

/// A 64-bit integer is read from every longer input with the same result.
proof fn lemma_u64_of_longer(input: Seq<u8>, extra: Seq<u8>)
    requires
        u64::parse(input) is Ok,
    ensures
        u64::parse(input + extra) == u64::parse(input),
        u64::parse(input).unwrap().1 == 8,
        input.len() >= 8,
{
    lemma_uint_of_longer(input, extra, 8);
}

/// A layer is read from every longer input with the same result.
proof fn lemma_layer_of_longer(input: Seq<u8>, extra: Seq<u8>)
    requires
        Layer::parse(input) is Ok,
    ensures
        Layer::parse(input + extra) == Layer::parse(input),
        Layer::parse(input).unwrap().1 == 1,
        input.len() >= 1,
{
    lemma_uint_of_longer(input, extra, 1);
}

/// An anchor is read from every longer input with the same result.
proof fn lemma_anchor_of_longer(input: Seq<u8>, extra: Seq<u8>)
    requires
        Anchor::parse(input) is Ok,
    ensures
        Anchor::parse(input + extra) == Anchor::parse(input),
        Anchor::parse(input).unwrap().1 == 4,
        input.len() >= 4,
{
    lemma_uint_of_longer(input, extra, 4);
}

/// The fields of a layer `Create` are read from every longer input with
/// the same result.
proof fn lemma_layer_create_of_longer(input: Seq<u8>, extra: Seq<u8>)
    requires
        wlr_layer::Create::fields(input) is Ok,
    ensures
        wlr_layer::Create::fields(input + extra) == wlr_layer::Create::fields(input),
{
    lemma_layer_of_longer(input, extra);
    lemma_skip_of_longer(input, extra, 1);
    lemma_string_of_longer(input.skip(1), extra);
}

/// The fields of a layer `Update` are read from every longer input with
/// the same result.
proof fn lemma_layer_update_of_longer(input: Seq<u8>, extra: Seq<u8>)
    requires
        wlr_layer::Update::fields(input) is Ok,
    ensures
        wlr_layer::Update::fields(input + extra) == wlr_layer::Update::fields(input),
{
    lemma_view_id_of_longer(input, extra);
    lemma_skip_of_longer(input, extra, 8);
    lemma_u32_of_longer(input.skip(8), extra);
    lemma_skip_of_longer(input, extra, 12);
    lemma_u32_of_longer(input.skip(12), extra);
    lemma_skip_of_longer(input, extra, 16);
    lemma_anchor_of_longer(input.skip(16), extra);
}

/// The fields of a window `Update` are read from every longer input with
/// the same result.
proof fn lemma_window_update_of_longer(input: Seq<u8>, extra: Seq<u8>)
    requires
        xdg_toplevel::Update::fields(input) is Ok,
    ensures
        xdg_toplevel::Update::fields(input + extra) == xdg_toplevel::Update::fields(input),
{
    lemma_view_id_of_longer(input, extra);
    lemma_skip_of_longer(input, extra, 8);
    lemma_string_of_longer(input.skip(8), extra);
    let b = string_parse(input.skip(8)).unwrap().1;
    lemma_skip_of_longer(input, extra, 8 + b);
    lemma_string_of_longer(input.skip((8 + b) as int), extra);
}

/// The fields of view constraints are read from every longer input with
/// the same result.
proof fn lemma_constraints_of_longer(input: Seq<u8>, extra: Seq<u8>)
    requires
        xdg_toplevel::UpdateViewConstraints::fields(input) is Ok,
    ensures
        xdg_toplevel::UpdateViewConstraints::fields(input + extra)
            == xdg_toplevel::UpdateViewConstraints::fields(input),
        input.len() >= 40,
{
    lemma_view_id_of_longer(input, extra);
    lemma_skip_of_longer(input, extra, 8);
    lemma_u64_of_longer(input.skip(8), extra);
    lemma_skip_of_longer(input, extra, 16);
    lemma_u64_of_longer(input.skip(16), extra);
    lemma_skip_of_longer(input, extra, 24);
    lemma_u64_of_longer(input.skip(24), extra);
    lemma_skip_of_longer(input, extra, 32);
    lemma_u64_of_longer(input.skip(32), extra);
}

/// A payload that decodes to a request of `kind` is refused as trailing
/// data as soon as anything follows it.
pub proof fn lemma_longer_payload_is_refused(kind: RequestKind, payload: Seq<u8>, extra: Seq<u8>)
    requires
        request_of(kind, payload) is Ok,
        extra.len() > 0,
    ensures
        request_of(kind, payload + extra) == Err::<RequestView, CodecError>(
            CodecError::TrailingData,
        ),
{
    match kind {
        RequestKind::Shutdown => {},
        RequestKind::WlrLayerCreate => {
            lemma_layer_create_of_longer(payload, extra);
        },
        RequestKind::WlrLayerUpdate => {
            lemma_layer_update_of_longer(payload, extra);
        },
        RequestKind::WlrLayerRemove => {
            lemma_view_id_of_longer(payload, extra);
        },
        RequestKind::XdgToplevelCreate => {},
        RequestKind::XdgToplevelInitialCommit => {
            lemma_view_id_of_longer(payload, extra);
        },
        RequestKind::XdgToplevelUpdate => {
            lemma_window_update_of_longer(payload, extra);
        },
        RequestKind::XdgToplevelUpdateViewConstraints => {
            lemma_constraints_of_longer(payload, extra);
        },
        RequestKind::XdgToplevelRemove => {
            lemma_view_id_of_longer(payload, extra);
        },
    }
}

/// A message that decodes is refused as trailing data as soon as anything
/// follows its payload.
pub proof fn lemma_trailing_bytes_are_refused(channel: Seq<u8>, payload: Seq<u8>, extra: Seq<u8>)
    requires
        message_of(channel, payload) is Ok,
        extra.len() > 0,
    ensures
        message_of(channel, payload + extra) == Err::<RequestView, DecodeError>(
            DecodeError::Malformed(CodecError::TrailingData),
        ),
{
    lemma_longer_payload_is_refused(kind_of(channel).unwrap(), payload, extra);
}

/// An integer is never read past the end of its input: where fewer bytes
/// than its width are left, reading it fails as an underflow.
pub proof fn lemma_short_input_underflows(input: Seq<u8>, width: nat)
    requires
        input.len() < width,
    ensures
        uint_parse(input, width) == Err::<(nat, nat), CodecError>(CodecError::UnexpectedEof),
{
}

/// A string is never read past the end of its input: where the input ends
/// before the length or before the last byte that the length announces,
/// reading it fails as an underflow.
pub proof fn lemma_short_string_underflows(input: Seq<u8>)
    requires
        input.len() < 8 || input.len() - 8 < uint_parse(input, 8).unwrap().0,
    ensures
        string_parse(input) == Err::<(Seq<char>, nat), CodecError>(CodecError::UnexpectedEof),
{
}


/// What is left of a shortened input behind its first `n` bytes is what
/// was left of the whole input, shortened by as much.
pub proof fn lemma_skip_of_shorter(input: Seq<u8>, cut: nat, n: nat)
    requires
        n <= cut <= input.len(),
    ensures
        input.take(cut as int).skip(n as int) == input.skip(n as int).take(cut - n),
{
    assert(input.take(cut as int).skip(n as int) =~= input.skip(n as int).take(cut - n));
}

/// An integer that is read from an input is read with the same result
/// from the input cut short behind it, and not at all from the input cut
/// short within it.
pub proof fn lemma_uint_of_shorter(input: Seq<u8>, cut: nat, width: nat)
    requires
        uint_parse(input, width) is Ok,
        cut <= input.len(),
    ensures
        cut >= width ==> uint_parse(input.take(cut as int), width) == uint_parse(input, width),
        cut < width ==> uint_parse(input.take(cut as int), width) == Err::<
            (nat, nat),
            CodecError,
        >(CodecError::UnexpectedEof),
{
    if cut >= width {
        assert(input.take(cut as int).take(width as int) =~= input.take(width as int));
    }
}

/// A string that is read from an input is read with the same result from
/// the input cut short behind it, and not at all from the input cut short
/// within it.
pub proof fn lemma_string_of_shorter(input: Seq<u8>, cut: nat)
    requires
        string_parse(input) is Ok,
        cut <= input.len(),
    ensures
        cut >= string_parse(input).unwrap().1 ==> string_parse(input.take(cut as int))
            == string_parse(input),
        cut < string_parse(input).unwrap().1 ==> string_parse(input.take(cut as int)) == Err::<
            (Seq<char>, nat),
            CodecError,
        >(CodecError::UnexpectedEof),
{
    lemma_uint_of_shorter(input, cut, 8);
    let len = uint_parse(input, 8).unwrap().0;
    if cut >= 8 + len {
        assert(input.take(cut as int).subrange(8, 8 + len as int) =~= input.subrange(
            8,
            8 + len as int,
        ));
    }
}

/// A layer `Create` that is cut short is an underflow.
proof fn lemma_layer_create_of_shorter(input: Seq<u8>, cut: nat)
    requires
        wlr_layer::Create::fields(input) is Ok,
        cut < wlr_layer::Create::fields(input).unwrap().1,
        cut <= input.len(),
    ensures
        wlr_layer::Create::fields(input.take(cut as int)) == Err::<
            (wlr_layer::CreateView, nat),
            CodecError,
        >(CodecError::UnexpectedEof),
{
    lemma_uint_of_shorter(input, cut, 1);
    if cut >= 1 {
        lemma_skip_of_shorter(input, cut, 1);
        lemma_string_of_shorter(input.skip(1), (cut - 1) as nat);
    }
}

/// A layer `Update` that is cut short is an underflow.
proof fn lemma_layer_update_of_shorter(input: Seq<u8>, cut: nat)
    requires
        wlr_layer::Update::fields(input) is Ok,
        cut < wlr_layer::Update::fields(input).unwrap().1,
        cut <= input.len(),
    ensures
        wlr_layer::Update::fields(input.take(cut as int)) == Err::<
            (wlr_layer::Update, nat),
            CodecError,
        >(CodecError::UnexpectedEof),
{
    lemma_uint_of_shorter(input, cut, 8);
    if cut >= 8 {
        lemma_skip_of_shorter(input, cut, 8);
        lemma_uint_of_shorter(input.skip(8), (cut - 8) as nat, 4);
    }
    if cut >= 12 {
        lemma_skip_of_shorter(input, cut, 12);
        lemma_uint_of_shorter(input.skip(12), (cut - 12) as nat, 4);
    }
    if cut >= 16 {
        lemma_skip_of_shorter(input, cut, 16);
        lemma_uint_of_shorter(input.skip(16), (cut - 16) as nat, 4);
    }
}

/// A window `Update` that is cut short is an underflow.
proof fn lemma_window_update_of_shorter(input: Seq<u8>, cut: nat)
    requires
        xdg_toplevel::Update::fields(input) is Ok,
        cut < xdg_toplevel::Update::fields(input).unwrap().1,
        cut <= input.len(),
    ensures
        xdg_toplevel::Update::fields(input.take(cut as int)) == Err::<
            (xdg_toplevel::UpdateView, nat),
            CodecError,
        >(CodecError::UnexpectedEof),
{
    lemma_uint_of_shorter(input, cut, 8);
    lemma_string_of_longer(input.skip(8), Seq::empty());
    let b = string_parse(input.skip(8)).unwrap().1;
    if cut >= 8 {
        lemma_skip_of_shorter(input, cut, 8);
        lemma_string_of_shorter(input.skip(8), (cut - 8) as nat);
    }
    if cut >= 8 + b {
        lemma_skip_of_shorter(input, cut, 8 + b);
        lemma_string_of_shorter(input.skip((8 + b) as int), (cut - 8 - b) as nat);
    }
}

/// View constraints that are cut short are an underflow.
proof fn lemma_constraints_of_shorter(input: Seq<u8>, cut: nat)
    requires
        xdg_toplevel::UpdateViewConstraints::fields(input) is Ok,
        cut < 40,
        cut <= input.len(),
    ensures
        xdg_toplevel::UpdateViewConstraints::fields(input.take(cut as int)) == Err::<
            (xdg_toplevel::UpdateViewConstraints, nat),
            CodecError,
        >(CodecError::UnexpectedEof),
{
    lemma_uint_of_shorter(input, cut, 8);
    if cut >= 8 {
        lemma_skip_of_shorter(input, cut, 8);
        lemma_uint_of_shorter(input.skip(8), (cut - 8) as nat, 8);
    }
    if cut >= 16 {
        lemma_skip_of_shorter(input, cut, 16);
        lemma_uint_of_shorter(input.skip(16), (cut - 16) as nat, 8);
    }
    if cut >= 24 {
        lemma_skip_of_shorter(input, cut, 24);
        lemma_uint_of_shorter(input.skip(24), (cut - 24) as nat, 8);
    }
    if cut >= 32 {
        lemma_skip_of_shorter(input, cut, 32);
        lemma_uint_of_shorter(input.skip(32), (cut - 32) as nat, 8);
    }
}

/// A payload that decodes to a request of `kind` is refused as an
/// underflow when it is cut short anywhere.
pub proof fn lemma_shorter_payload_is_refused(kind: RequestKind, payload: Seq<u8>, cut: nat)
    requires
        request_of(kind, payload) is Ok,
        cut < payload.len(),
    ensures
        request_of(kind, payload.take(cut as int)) == Err::<RequestView, CodecError>(
            CodecError::UnexpectedEof,
        ),
{
    match kind {
        RequestKind::Shutdown => {},
        RequestKind::WlrLayerCreate => {
            lemma_layer_create_of_shorter(payload, cut);
        },
        RequestKind::WlrLayerUpdate => {
            lemma_layer_update_of_shorter(payload, cut);
        },
        RequestKind::WlrLayerRemove => {
            lemma_uint_of_shorter(payload, cut, 8);
        },
        RequestKind::XdgToplevelCreate => {},
        RequestKind::XdgToplevelInitialCommit => {
            lemma_uint_of_shorter(payload, cut, 8);
        },
        RequestKind::XdgToplevelUpdate => {
            lemma_window_update_of_shorter(payload, cut);
        },
        RequestKind::XdgToplevelUpdateViewConstraints => {
            lemma_constraints_of_shorter(payload, cut);
        },
        RequestKind::XdgToplevelRemove => {
            lemma_uint_of_shorter(payload, cut, 8);
        },
    }
}

/// A message that decodes is refused as an underflow when its payload is
/// cut short anywhere.
pub proof fn lemma_cut_payload_underflows(channel: Seq<u8>, payload: Seq<u8>, cut: nat)
    requires
        message_of(channel, payload) is Ok,
        cut < payload.len(),
    ensures
        message_of(channel, payload.take(cut as int)) == Err::<RequestView, DecodeError>(
            DecodeError::Malformed(CodecError::UnexpectedEof),
        ),
{
    lemma_shorter_payload_is_refused(kind_of(channel).unwrap(), payload, cut);
}

} // verus!
