//! State and rules shared by every kind of surface.

use vstd::prelude::*;

pub mod compositor;
pub mod xdg;

verus! {

/// An operation that the bound version of the protocol does not offer.
#[derive(Clone, Copy, Debug, Default, PartialEq, Eq, Structural)]
pub struct Unsupported;

/// The first version of the surface protocol with buffer transforms.
pub const TRANSFORM_SINCE: u32 = 2;

/// The first version of the surface protocol with buffer scales.
pub const SCALE_SINCE: u32 = 3;

/// The first version of the surface protocol in which a buffer's offset is
/// a request of its own.
pub const OFFSET_SINCE: u32 = 5;

/// How a buffer is attached at an offset.
#[derive(Clone, Copy, Debug, PartialEq, Eq, Structural)]
pub struct Attach {
    /// The offset to attach with.
    pub x: u32,
    pub y: u32,
    /// Whether to send `(offset_x, offset_y)` in a request of its own
    /// afterwards.
    pub send_offset: bool,
    pub offset_x: u32,
    pub offset_y: u32,
}

/// Tells how to attach a buffer at the offset `(x, y)` to a surface of the
/// given protocol version: from `OFFSET_SINCE` on the buffer is attached
/// at zero and the offset sent afterwards; before, the offset goes with
/// the attach.
pub fn attach(version: u32, x: u32, y: u32) -> (r: Attach)
    ensures
        version >= OFFSET_SINCE ==> r == (Attach {
            x: 0,
            y: 0,
            send_offset: true,
            offset_x: x,
            offset_y: y,
        }),
        version < OFFSET_SINCE ==> r == (Attach {
            x,
            y,
            send_offset: false,
            offset_x: x,
            offset_y: y,
        }),
{
    if version >= OFFSET_SINCE {
        Attach { x: 0, y: 0, send_offset: true, offset_x: x, offset_y: y }
    } else {
        Attach { x, y, send_offset: false, offset_x: x, offset_y: y }
    }
}

/// Tells whether a surface of the given protocol version takes a request
/// that exists since version `since`.
pub fn supported(version: u32, since: u32) -> (r: Result<(), Unsupported>)
    ensures
        version >= since ==> r == Ok::<(), Unsupported>(()),
        version < since ==> r == Err::<(), Unsupported>(Unsupported),
{
    if version < since {
        Err(Unsupported)
    } else {
        Ok(())
    }
}

} // verus!
