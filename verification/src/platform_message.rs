//! Typed messages that cross the engine/platform boundary.
//!
//! Every request has one channel, named by a fixed byte string. A message
//! is decoded by finding its channel in the table and reading the request's
//! fields from the payload, which must hold nothing else.

use vstd::prelude::*;
use crate::platform_message::binary::{BinaryDecodable, BinaryReader, CodecError};

pub mod binary;
pub mod laws;
pub mod scalar;
pub mod shutdown;
pub mod wlr_layer;
pub mod xdg_toplevel;

verus! {

/// The requests that the embedder answers, in the order of the channel
/// table.
#[derive(Clone, Copy, Debug, PartialEq, Eq, Structural)]
pub enum RequestKind {
    Shutdown,
    WlrLayerCreate,
    WlrLayerUpdate,
    WlrLayerRemove,
    XdgToplevelCreate,
    XdgToplevelInitialCommit,
    XdgToplevelUpdate,
    XdgToplevelUpdateViewConstraints,
    XdgToplevelRemove,
}

impl RequestKind {
    /// The name of the request's channel.
    pub open spec fn channel_name(self) -> Seq<char> {
        match self {
            RequestKind::Shutdown => "nelly/graceful_shutdown"@,
            RequestKind::WlrLayerCreate => "wayland/wlr_layer/create"@,
            RequestKind::WlrLayerUpdate => "wayland/wlr_layer/update"@,
            RequestKind::WlrLayerRemove => "wayland/wlr_layer/remove"@,
            RequestKind::XdgToplevelCreate => "wayland/xdg_toplevel/create"@,
            RequestKind::XdgToplevelInitialCommit => "wayland/xdg_toplevel/initial_commit"@,
            RequestKind::XdgToplevelUpdate => "wayland/xdg_toplevel/update"@,
            RequestKind::XdgToplevelUpdateViewConstraints => "wayland/xdg_toplevel/update_view_constraints"@,
            RequestKind::XdgToplevelRemove => "wayland/xdg_toplevel/remove"@,
        }
    }

    /// The bytes that name the request's channel.
    pub open spec fn channel_bytes(self) -> Seq<u8> {
        vstd::utf8::encode_utf8(self.channel_name())
    }

    /// The name of the request's channel.
    pub fn channel(self) -> (name: &'static str)
        ensures
            name@ == self.channel_name(),
    {
        match self {
            RequestKind::Shutdown => "nelly/graceful_shutdown",
            RequestKind::WlrLayerCreate => "wayland/wlr_layer/create",
            RequestKind::WlrLayerUpdate => "wayland/wlr_layer/update",
            RequestKind::WlrLayerRemove => "wayland/wlr_layer/remove",
            RequestKind::XdgToplevelCreate => "wayland/xdg_toplevel/create",
            RequestKind::XdgToplevelInitialCommit => "wayland/xdg_toplevel/initial_commit",
            RequestKind::XdgToplevelUpdate => "wayland/xdg_toplevel/update",
            RequestKind::XdgToplevelUpdateViewConstraints => "wayland/xdg_toplevel/update_view_constraints",
            RequestKind::XdgToplevelRemove => "wayland/xdg_toplevel/remove",
        }
    }

    /// Tells whether `channel` is exactly the name of this request's
    /// channel.
    pub fn is_on(self, channel: &[u8]) -> (r: bool)
        ensures
            r == (channel@ == self.channel_bytes()),
    {
        same_bytes(channel, self.channel().as_bytes())
    }
}

/// Tells whether two byte strings are equal.
pub fn same_bytes(a: &[u8], b: &[u8]) -> (r: bool)
    ensures
        r == (a@ == b@),
{
    if a.len() != b.len() {
        return false;
    }
    let mut i: usize = 0;
    while i < a.len()
        invariant
            i <= a.len() == b.len(),
            a@.take(i as int) == b@.take(i as int),
        decreases a.len() - i,
    {
        if a[i] != b[i] {
            return false;
        }
        assert(a@.take(i + 1) =~= a@.take(i as int).push(a@[i as int]));
        assert(b@.take(i + 1) =~= b@.take(i as int).push(b@[i as int]));
        i += 1;
    }
    assert(a@ =~= a@.take(i as int));
    assert(b@ =~= b@.take(i as int));
    true
}

/// Tells whether `prefix` stands at the start of `bytes`.
pub fn starts_with(bytes: &[u8], prefix: &[u8]) -> (r: bool)
    ensures
        r == prefix@.is_prefix_of(bytes@),
{
    if bytes.len() < prefix.len() {
        return false;
    }
    let mut i: usize = 0;
    while i < prefix.len()
        invariant
            i <= prefix.len() <= bytes.len(),
            forall|k: int| 0 <= k < i ==> bytes@[k] == prefix@[k],
        decreases prefix.len() - i,
    {
        if bytes[i] != prefix[i] {
            return false;
        }
        i += 1;
    }
    assert(prefix@ =~= bytes@.subrange(0, prefix@.len() as int));
    true
}

/// The request whose channel is named `channel`: the first in the table
/// with exactly that name.
pub open spec fn kind_of(channel: Seq<u8>) -> Option<RequestKind> {
    if channel == RequestKind::Shutdown.channel_bytes() {
        Some(RequestKind::Shutdown)
    } else if channel == RequestKind::WlrLayerCreate.channel_bytes() {
        Some(RequestKind::WlrLayerCreate)
    } else if channel == RequestKind::WlrLayerUpdate.channel_bytes() {
        Some(RequestKind::WlrLayerUpdate)
    } else if channel == RequestKind::WlrLayerRemove.channel_bytes() {
        Some(RequestKind::WlrLayerRemove)
    } else if channel == RequestKind::XdgToplevelCreate.channel_bytes() {
        Some(RequestKind::XdgToplevelCreate)
    } else if channel == RequestKind::XdgToplevelInitialCommit.channel_bytes() {
        Some(RequestKind::XdgToplevelInitialCommit)
    } else if channel == RequestKind::XdgToplevelUpdate.channel_bytes() {
        Some(RequestKind::XdgToplevelUpdate)
    } else if channel == RequestKind::XdgToplevelUpdateViewConstraints.channel_bytes() {
        Some(RequestKind::XdgToplevelUpdateViewConstraints)
    } else if channel == RequestKind::XdgToplevelRemove.channel_bytes() {
        Some(RequestKind::XdgToplevelRemove)
    } else {
        None
    }
}

/// Finds the request that is sent on `channel`, if there is one.
pub fn find_channel(channel: &[u8]) -> (r: Option<RequestKind>)
    ensures
        r == kind_of(channel@),
{
    if RequestKind::Shutdown.is_on(channel) {
        Some(RequestKind::Shutdown)
    } else if RequestKind::WlrLayerCreate.is_on(channel) {
        Some(RequestKind::WlrLayerCreate)
    } else if RequestKind::WlrLayerUpdate.is_on(channel) {
        Some(RequestKind::WlrLayerUpdate)
    } else if RequestKind::WlrLayerRemove.is_on(channel) {
        Some(RequestKind::WlrLayerRemove)
    } else if RequestKind::XdgToplevelCreate.is_on(channel) {
        Some(RequestKind::XdgToplevelCreate)
    } else if RequestKind::XdgToplevelInitialCommit.is_on(channel) {
        Some(RequestKind::XdgToplevelInitialCommit)
    } else if RequestKind::XdgToplevelUpdate.is_on(channel) {
        Some(RequestKind::XdgToplevelUpdate)
    } else if RequestKind::XdgToplevelUpdateViewConstraints.is_on(channel) {
        Some(RequestKind::XdgToplevelUpdateViewConstraints)
    } else if RequestKind::XdgToplevelRemove.is_on(channel) {
        Some(RequestKind::XdgToplevelRemove)
    } else {
        None
    }
}

/// Why a message could not be decoded.
#[derive(Clone, Copy, Debug, PartialEq, Eq, Structural)]
pub enum DecodeError {
    /// No request is sent on this channel. Most such channels are the
    /// engine's own and are none of the embedder's business.
    UnknownChannel,
    /// The payload does not hold the request of its channel.
    Malformed(CodecError),
}

/// A decoded request of any kind.
#[derive(Debug, PartialEq, Eq)]
pub enum AnyPlatformRequest {
    Shutdown(shutdown::Shutdown),
    WlrLayerCreate(wlr_layer::Create),
    WlrLayerUpdate(wlr_layer::Update),
    WlrLayerRemove(wlr_layer::Remove),
    XdgToplevelCreate(xdg_toplevel::Create),
    XdgToplevelInitialCommit(xdg_toplevel::InitialCommit),
    XdgToplevelUpdate(xdg_toplevel::Update),
    XdgToplevelUpdateViewConstraints(xdg_toplevel::UpdateViewConstraints),
    XdgToplevelRemove(xdg_toplevel::Remove),
}

/// What a request of any kind holds.
pub ghost enum RequestView {
    Shutdown(shutdown::Shutdown),
    WlrLayerCreate(wlr_layer::CreateView),
    WlrLayerUpdate(wlr_layer::Update),
    WlrLayerRemove(wlr_layer::Remove),
    XdgToplevelCreate(xdg_toplevel::Create),
    XdgToplevelInitialCommit(xdg_toplevel::InitialCommit),
    XdgToplevelUpdate(xdg_toplevel::UpdateView),
    XdgToplevelUpdateViewConstraints(xdg_toplevel::UpdateViewConstraints),
    XdgToplevelRemove(xdg_toplevel::Remove),
}

impl View for AnyPlatformRequest {
    type V = RequestView;

    open spec fn view(&self) -> RequestView {
        match self {
            AnyPlatformRequest::Shutdown(r) => RequestView::Shutdown(*r),
            AnyPlatformRequest::WlrLayerCreate(r) => RequestView::WlrLayerCreate(r@),
            AnyPlatformRequest::WlrLayerUpdate(r) => RequestView::WlrLayerUpdate(*r),
            AnyPlatformRequest::WlrLayerRemove(r) => RequestView::WlrLayerRemove(*r),
            AnyPlatformRequest::XdgToplevelCreate(r) => RequestView::XdgToplevelCreate(*r),
            AnyPlatformRequest::XdgToplevelInitialCommit(r) => RequestView::XdgToplevelInitialCommit(
                *r,
            ),
            AnyPlatformRequest::XdgToplevelUpdate(r) => RequestView::XdgToplevelUpdate(r@),
            AnyPlatformRequest::XdgToplevelUpdateViewConstraints(
                r,
            ) => RequestView::XdgToplevelUpdateViewConstraints(*r),
            AnyPlatformRequest::XdgToplevelRemove(r) => RequestView::XdgToplevelRemove(*r),
        }
    }
}

/// The value of a parse, without the count of bytes that it used.
pub open spec fn value_of<T>(parsed: Result<(T, nat), CodecError>) -> Result<T, CodecError> {
    match parsed {
        Err(e) => Err(e),
        Ok((value, _)) => Ok(value),
    }
}

/// What the payload of a request of `kind` decodes to.
pub open spec fn request_of(kind: RequestKind, payload: Seq<u8>) -> Result<
    RequestView,
    CodecError,
> {
    match kind {
        RequestKind::Shutdown => match value_of(shutdown::Shutdown::parse(payload)) {
            Ok(r) => Ok(RequestView::Shutdown(r)),
            Err(e) => Err(e),
        },
        RequestKind::WlrLayerCreate => match value_of(wlr_layer::Create::parse(payload)) {
            Ok(r) => Ok(RequestView::WlrLayerCreate(r)),
            Err(e) => Err(e),
        },
        RequestKind::WlrLayerUpdate => match value_of(wlr_layer::Update::parse(payload)) {
            Ok(r) => Ok(RequestView::WlrLayerUpdate(r)),
            Err(e) => Err(e),
        },
        RequestKind::WlrLayerRemove => match value_of(wlr_layer::Remove::parse(payload)) {
            Ok(r) => Ok(RequestView::WlrLayerRemove(r)),
            Err(e) => Err(e),
        },
        RequestKind::XdgToplevelCreate => match value_of(xdg_toplevel::Create::parse(payload)) {
            Ok(r) => Ok(RequestView::XdgToplevelCreate(r)),
            Err(e) => Err(e),
        },
        RequestKind::XdgToplevelInitialCommit => match value_of(
            xdg_toplevel::InitialCommit::parse(payload),
        ) {
            Ok(r) => Ok(RequestView::XdgToplevelInitialCommit(r)),
            Err(e) => Err(e),
        },
        RequestKind::XdgToplevelUpdate => match value_of(xdg_toplevel::Update::parse(payload)) {
            Ok(r) => Ok(RequestView::XdgToplevelUpdate(r)),
            Err(e) => Err(e),
        },
        RequestKind::XdgToplevelUpdateViewConstraints => match value_of(
            xdg_toplevel::UpdateViewConstraints::parse(payload),
        ) {
            Ok(r) => Ok(RequestView::XdgToplevelUpdateViewConstraints(r)),
            Err(e) => Err(e),
        },
        RequestKind::XdgToplevelRemove => match value_of(xdg_toplevel::Remove::parse(payload)) {
            Ok(r) => Ok(RequestView::XdgToplevelRemove(r)),
            Err(e) => Err(e),
        },
    }
}

/// What a message decodes to.
pub open spec fn message_of(channel: Seq<u8>, payload: Seq<u8>) -> Result<RequestView, DecodeError> {
    match kind_of(channel) {
        None => Err(DecodeError::UnknownChannel),
        Some(kind) => match request_of(kind, payload) {
            Ok(request) => Ok(request),
            Err(e) => Err(DecodeError::Malformed(e)),
        },
    }
}

/// Decodes a payload as one value of `T`.
fn decode_payload<T: BinaryDecodable>(payload: &[u8]) -> (r: Result<T, CodecError>)
    ensures
        r == value_of(T::parse(payload@)),
{
    let mut reader = BinaryReader::new(payload);
    reader.read::<T>()
}

impl AnyPlatformRequest {
    /// The kind of this request.
    pub fn kind(&self) -> (kind: RequestKind)
        ensures
            kind == view_kind(self@),
    {
        match self {
            AnyPlatformRequest::Shutdown(_) => RequestKind::Shutdown,
            AnyPlatformRequest::WlrLayerCreate(_) => RequestKind::WlrLayerCreate,
            AnyPlatformRequest::WlrLayerUpdate(_) => RequestKind::WlrLayerUpdate,
            AnyPlatformRequest::WlrLayerRemove(_) => RequestKind::WlrLayerRemove,
            AnyPlatformRequest::XdgToplevelCreate(_) => RequestKind::XdgToplevelCreate,
            AnyPlatformRequest::XdgToplevelInitialCommit(_) => RequestKind::XdgToplevelInitialCommit,
            AnyPlatformRequest::XdgToplevelUpdate(_) => RequestKind::XdgToplevelUpdate,
            AnyPlatformRequest::XdgToplevelUpdateViewConstraints(
                _,
            ) => RequestKind::XdgToplevelUpdateViewConstraints,
            AnyPlatformRequest::XdgToplevelRemove(_) => RequestKind::XdgToplevelRemove,
        }
    }

    /// Decodes the message that arrived on `channel` with `payload`.
    ///
    /// Fails with `UnknownChannel` where the table holds no channel of
    /// exactly that name, and with `Malformed` where the payload ends
    /// early, holds a value that stands for nothing, or goes on after the
    /// request's last field.
    pub fn decode(channel: &[u8], payload: &[u8]) -> (r: Result<AnyPlatformRequest, DecodeError>)
        ensures
            match message_of(channel@, payload@) {
                Ok(request) => r.is_ok() && r.unwrap()@ == request,
                Err(e) => r.is_err() && r.unwrap_err() == e,
            },
    {
        let kind = match find_channel(channel) {
            Some(kind) => kind,
            None => {
                return Err(DecodeError::UnknownChannel);
            },
        };
        let decoded = match kind {
            RequestKind::Shutdown => match decode_payload::<shutdown::Shutdown>(payload) {
                Ok(r) => Ok(AnyPlatformRequest::Shutdown(r)),
                Err(e) => Err(e),
            },
            RequestKind::WlrLayerCreate => {
                let mut reader = BinaryReader::new(payload);
                match wlr_layer::Create::decode(&mut reader) {
                    Ok(r) => Ok(AnyPlatformRequest::WlrLayerCreate(r)),
                    Err(e) => Err(e),
                }
            },
            RequestKind::WlrLayerUpdate => match decode_payload::<wlr_layer::Update>(payload) {
                Ok(r) => Ok(AnyPlatformRequest::WlrLayerUpdate(r)),
                Err(e) => Err(e),
            },
            RequestKind::WlrLayerRemove => match decode_payload::<wlr_layer::Remove>(payload) {
                Ok(r) => Ok(AnyPlatformRequest::WlrLayerRemove(r)),
                Err(e) => Err(e),
            },
            RequestKind::XdgToplevelCreate => match decode_payload::<xdg_toplevel::Create>(payload) {
                Ok(r) => Ok(AnyPlatformRequest::XdgToplevelCreate(r)),
                Err(e) => Err(e),
            },
            RequestKind::XdgToplevelInitialCommit => match decode_payload::<
                xdg_toplevel::InitialCommit,
            >(payload) {
                Ok(r) => Ok(AnyPlatformRequest::XdgToplevelInitialCommit(r)),
                Err(e) => Err(e),
            },
            RequestKind::XdgToplevelUpdate => {
                let mut reader = BinaryReader::new(payload);
                match xdg_toplevel::Update::decode(&mut reader) {
                    Ok(r) => Ok(AnyPlatformRequest::XdgToplevelUpdate(r)),
                    Err(e) => Err(e),
                }
            },
            RequestKind::XdgToplevelUpdateViewConstraints => match decode_payload::<
                xdg_toplevel::UpdateViewConstraints,
            >(payload) {
                Ok(r) => Ok(AnyPlatformRequest::XdgToplevelUpdateViewConstraints(r)),
                Err(e) => Err(e),
            },
            RequestKind::XdgToplevelRemove => match decode_payload::<xdg_toplevel::Remove>(payload) {
                Ok(r) => Ok(AnyPlatformRequest::XdgToplevelRemove(r)),
                Err(e) => Err(e),
            },
        };
        match decoded {
            Ok(request) => Ok(request),
            Err(e) => Err(DecodeError::Malformed(e)),
        }
    }
}

/// The kind of a request, told from what it holds.
pub open spec fn view_kind(request: RequestView) -> RequestKind {
    match request {
        RequestView::Shutdown(_) => RequestKind::Shutdown,
        RequestView::WlrLayerCreate(_) => RequestKind::WlrLayerCreate,
        RequestView::WlrLayerUpdate(_) => RequestKind::WlrLayerUpdate,
        RequestView::WlrLayerRemove(_) => RequestKind::WlrLayerRemove,
        RequestView::XdgToplevelCreate(_) => RequestKind::XdgToplevelCreate,
        RequestView::XdgToplevelInitialCommit(_) => RequestKind::XdgToplevelInitialCommit,
        RequestView::XdgToplevelUpdate(_) => RequestKind::XdgToplevelUpdate,
        RequestView::XdgToplevelUpdateViewConstraints(_) => RequestKind::XdgToplevelUpdateViewConstraints,
        RequestView::XdgToplevelRemove(_) => RequestKind::XdgToplevelRemove,
    }
}

} // verus!
