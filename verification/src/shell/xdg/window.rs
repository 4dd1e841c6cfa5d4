//! Top-level windows: what the platform tells about them.

use vstd::prelude::*;
use smithay_client_toolkit::reexports::protocols::xdg::shell::client::xdg_toplevel::{
    State, WmCapabilities,
};
use crate::platform_message::binary::{le_value, BinaryReader};
use crate::shell::compositor::Size;

verus! {

/// Who draws a window's decorations.
#[derive(Debug, Clone, Copy, PartialEq, Eq, Structural)]
pub enum DecorationMode {
    /// The window draws them itself.
    Client,
    /// The server draws them.
    Server,
}

/// The decorations that a window is created with.
#[derive(Debug, Clone, Copy, PartialEq, Eq, Structural)]
pub enum WindowDecorations {
    /// Whatever the server asks for.
    ServerDefault,
    /// The server's, if it agrees.
    RequestServer,
    /// The window's own, if the server agrees.
    RequestClient,
    /// The window's own, always.
    ClientOnly,
    /// None of the window's own.
    Undecorated,
}

/// What a window requests of the decoration protocol.
#[derive(Debug, Clone, Copy, PartialEq, Eq, Structural)]
pub enum DecorationRequest {
    ClientSide,
    ServerSide,
    /// Drop the preference.
    Unset,
}

/// The request that asks for a decoration mode, or for none in
/// particular.
pub fn decoration_request(mode: Option<DecorationMode>) -> (request: DecorationRequest)
    ensures
        request == (match mode {
            Some(DecorationMode::Client) => DecorationRequest::ClientSide,
            Some(DecorationMode::Server) => DecorationRequest::ServerSide,
            None => DecorationRequest::Unset,
        }),
{
    match mode {
        Some(DecorationMode::Client) => DecorationRequest::ClientSide,
        Some(DecorationMode::Server) => DecorationRequest::ServerSide,
        None => DecorationRequest::Unset,
    }
}

/// One state that the platform can report of a window.
#[derive(Debug, Clone, Copy, PartialEq, Eq, Structural)]
pub enum ToplevelState {
    Maximized,
    Fullscreen,
    Resizing,
    Activated,
    TiledLeft,
    TiledRight,
    TiledTop,
    TiledBottom,
    Suspended,
}

/// The state that a number stands for in the desktop-shell protocol, as
/// far as states are kept here.
pub open spec fn state_of(code: u32) -> Option<ToplevelState> {
    if code == 1 {
        Some(ToplevelState::Maximized)
    } else if code == 2 {
        Some(ToplevelState::Fullscreen)
    } else if code == 3 {
        Some(ToplevelState::Resizing)
    } else if code == 4 {
        Some(ToplevelState::Activated)
    } else if code == 5 {
        Some(ToplevelState::TiledLeft)
    } else if code == 6 {
        Some(ToplevelState::TiledRight)
    } else if code == 7 {
        Some(ToplevelState::TiledTop)
    } else if code == 8 {
        Some(ToplevelState::TiledBottom)
    } else if code == 9 {
        Some(ToplevelState::Suspended)
    } else {
        None
    }
}

/// The states that the platform can report of a window.
#[derive(Debug, Clone, Copy, PartialEq, Eq, Structural)]
pub struct WindowState {
    pub maximized: bool,
    pub fullscreen: bool,
    pub resizing: bool,
    pub activated: bool,
    pub tiled_left: bool,
    pub tiled_right: bool,
    pub tiled_top: bool,
    pub tiled_bottom: bool,
    pub suspended: bool,
}

impl WindowState {
    /// No state at all.
    pub open spec fn none() -> WindowState {
        WindowState {
            maximized: false,
            fullscreen: false,
            resizing: false,
            activated: false,
            tiled_left: false,
            tiled_right: false,
            tiled_top: false,
            tiled_bottom: false,
            suspended: false,
        }
    }

    /// This state with `state` set.
    pub open spec fn with(self, state: ToplevelState) -> WindowState {
        match state {
            ToplevelState::Maximized => WindowState { maximized: true, ..self },
            ToplevelState::Fullscreen => WindowState { fullscreen: true, ..self },
            ToplevelState::Resizing => WindowState { resizing: true, ..self },
            ToplevelState::Activated => WindowState { activated: true, ..self },
            ToplevelState::TiledLeft => WindowState { tiled_left: true, ..self },
            ToplevelState::TiledRight => WindowState { tiled_right: true, ..self },
            ToplevelState::TiledTop => WindowState { tiled_top: true, ..self },
            ToplevelState::TiledBottom => WindowState { tiled_bottom: true, ..self },
            ToplevelState::Suspended => WindowState { suspended: true, ..self },
        }
    }

    /// This state with the one that `code` stands for set; unchanged where
    /// `code` stands for none that is kept here.
    pub open spec fn with_code(self, code: nat) -> WindowState {
        if code > u32::MAX {
            self
        } else {
            match state_of(code as u32) {
                Some(state) => self.with(state),
                None => self,
            }
        }
    }

    /// The states that the first `count` four-byte numbers of `bytes`
    /// stand for.
    pub open spec fn of(bytes: Seq<u8>, count: nat) -> WindowState
        decreases count,
    {
        if count == 0 {
            WindowState::none()
        } else {
            WindowState::of(bytes, (count - 1) as nat).with_code(
                le_value(bytes.subrange(4 * (count - 1), 4 * count as int)),
            )
        }
    }

    /// Reads the list of states that the platform sends with a configure
    /// event: four-byte numbers in a row, one for each state that holds.
    /// Numbers that stand for no state, and bytes left over at the end,
    /// are passed over.
    pub fn decode(bytes: &[u8]) -> (state: WindowState)
        ensures
            state == WindowState::of(bytes@, bytes@.len() / 4),
    {
        let mut state = WindowState {
            maximized: false,
            fullscreen: false,
            resizing: false,
            activated: false,
            tiled_left: false,
            tiled_right: false,
            tiled_top: false,
            tiled_bottom: false,
            suspended: false,
        };
        let mut reader = BinaryReader::new(bytes);
        let count: usize = bytes.len() / 4;
        let mut i: usize = 0;
        while i < count
            invariant
                i <= count == bytes@.len() / 4,
                reader.bytes() == bytes@,
                reader.position() == 4 * i,
                state == WindowState::of(bytes@, i as nat),
            decreases count - i,
        {
            assert(reader.remaining().take(4) =~= bytes@.subrange(4 * i, 4 * (i + 1)));
            let code = match reader.read_uint(4) {
                Ok(code) => code,
                Err(_) => 0,
            };
            state = step(state, code);
            i += 1;
        }
        state
    }

    /// The window fills the screen but for the panels.
    pub fn is_maximized(&self) -> (r: bool)
        ensures
            r == self.maximized,
    {
        self.maximized
    }

    /// The window fills the whole screen.
    pub fn is_fullscreen(&self) -> (r: bool)
        ensures
            r == self.fullscreen,
    {
        self.fullscreen
    }

    /// The window is being resized.
    pub fn is_resizing(&self) -> (r: bool)
        ensures
            r == self.resizing,
    {
        self.resizing
    }

    /// All four tiled states are set.
    pub open spec fn all_tiled(self) -> bool {
        self.tiled_left && self.tiled_right && self.tiled_top && self.tiled_bottom
    }

    /// The window is tiled on all four sides.
    pub fn is_tiled(&self) -> (r: bool)
        ensures
            r == self.all_tiled(),
    {
        self.tiled_left && self.tiled_right && self.tiled_top && self.tiled_bottom
    }

    /// The window has the focus.
    pub fn is_activated(&self) -> (r: bool)
        ensures
            r == self.activated,
    {
        self.activated
    }
}

/// `state` with the state that `code` stands for set.
fn step(state: WindowState, code: u64) -> (next: WindowState)
    ensures
        next == state.with_code(code as nat),
{
    if code > 0xffff_ffff {
        return state;
    }
    match toplevel_state(code as u32) {
        Some(ToplevelState::Maximized) => WindowState { maximized: true, ..state },
        Some(ToplevelState::Fullscreen) => WindowState { fullscreen: true, ..state },
        Some(ToplevelState::Resizing) => WindowState { resizing: true, ..state },
        Some(ToplevelState::Activated) => WindowState { activated: true, ..state },
        Some(ToplevelState::TiledLeft) => WindowState { tiled_left: true, ..state },
        Some(ToplevelState::TiledRight) => WindowState { tiled_right: true, ..state },
        Some(ToplevelState::TiledTop) => WindowState { tiled_top: true, ..state },
        Some(ToplevelState::TiledBottom) => WindowState { tiled_bottom: true, ..state },
        Some(ToplevelState::Suspended) => WindowState { suspended: true, ..state },
        None => state,
    }
}

/// `State::try_from` of the desktop-shell protocol bindings, which tells
/// the state that a number stands for: one to four are maximized,
/// fullscreen, resizing and activated, five to eight the four tiled edges,
/// nine is suspended. A number that stands for no state, or for one that
/// is not kept here, gives `None`.
#[verifier::external_body]
fn toplevel_state(code: u32) -> (r: Option<ToplevelState>)
    ensures
        r == state_of(code),
{
    match State::try_from(code) {
        Ok(State::Maximized) => Some(ToplevelState::Maximized),
        Ok(State::Fullscreen) => Some(ToplevelState::Fullscreen),
        Ok(State::Resizing) => Some(ToplevelState::Resizing),
        Ok(State::Activated) => Some(ToplevelState::Activated),
        Ok(State::TiledLeft) => Some(ToplevelState::TiledLeft),
        Ok(State::TiledRight) => Some(ToplevelState::TiledRight),
        Ok(State::TiledTop) => Some(ToplevelState::TiledTop),
        Ok(State::TiledBottom) => Some(ToplevelState::TiledBottom),
        Ok(State::Suspended) => Some(ToplevelState::Suspended),
        _ => None,
    }
}

/// What the platform lets a window ask for.
#[derive(Debug, Clone, Copy, PartialEq, Eq, Structural)]
pub struct WindowManagerCapabilities {
    pub window_menu: bool,
    pub maximize: bool,
    pub fullscreen: bool,
    pub minimize: bool,
}

/// One thing that the platform lets a window ask for.
#[derive(Debug, Clone, Copy, PartialEq, Eq, Structural)]
pub enum Capability {
    WindowMenu,
    Maximize,
    Fullscreen,
    Minimize,
}

/// The capability that a number stands for in the desktop-shell protocol.
pub open spec fn capability_of(code: u32) -> Option<Capability> {
    if code == 1 {
        Some(Capability::WindowMenu)
    } else if code == 2 {
        Some(Capability::Maximize)
    } else if code == 3 {
        Some(Capability::Fullscreen)
    } else if code == 4 {
        Some(Capability::Minimize)
    } else {
        None
    }
}

/// `WmCapabilities::try_from` of the desktop-shell protocol bindings,
/// which tells the capability that a number stands for: one is the window
/// menu, two is maximize, three is fullscreen, four is minimize. Any other
/// number gives `None`.
#[verifier::external_body]
fn toplevel_capability(code: u32) -> (r: Option<Capability>)
    ensures
        r == capability_of(code),
{
    match WmCapabilities::try_from(code) {
        Ok(WmCapabilities::WindowMenu) => Some(Capability::WindowMenu),
        Ok(WmCapabilities::Maximize) => Some(Capability::Maximize),
        Ok(WmCapabilities::Fullscreen) => Some(Capability::Fullscreen),
        Ok(WmCapabilities::Minimize) => Some(Capability::Minimize),
        _ => None,
    }
}

impl WindowManagerCapabilities {
    /// No capability at all.
    pub open spec fn none() -> WindowManagerCapabilities {
        WindowManagerCapabilities {
            window_menu: false,
            maximize: false,
            fullscreen: false,
            minimize: false,
        }
    }

    /// These capabilities with the one that `code` stands for added;
    /// unchanged where `code` stands for none.
    pub open spec fn with_code(self, code: nat) -> WindowManagerCapabilities {
        if code > u32::MAX {
            self
        } else {
            match capability_of(code as u32) {
                Some(Capability::WindowMenu) => WindowManagerCapabilities {
                    window_menu: true,
                    ..self
                },
                Some(Capability::Maximize) => WindowManagerCapabilities { maximize: true, ..self },
                Some(Capability::Fullscreen) => WindowManagerCapabilities {
                    fullscreen: true,
                    ..self
                },
                Some(Capability::Minimize) => WindowManagerCapabilities { minimize: true, ..self },
                None => self,
            }
        }
    }

    /// The capabilities that the first `count` four-byte numbers of
    /// `bytes` stand for.
    pub open spec fn of(bytes: Seq<u8>, count: nat) -> WindowManagerCapabilities
        decreases count,
    {
        if count == 0 {
            WindowManagerCapabilities::none()
        } else {
            WindowManagerCapabilities::of(bytes, (count - 1) as nat).with_code(
                le_value(bytes.subrange(4 * (count - 1), 4 * count as int)),
            )
        }
    }

    /// Reads the list of capabilities that the platform sends: four-byte
    /// numbers in a row, one for each capability. Numbers that stand for
    /// none, and bytes left over at the end, are passed over.
    pub fn decode(bytes: &[u8]) -> (capabilities: WindowManagerCapabilities)
        ensures
            capabilities == WindowManagerCapabilities::of(bytes@, bytes@.len() / 4),
    {
        let mut capabilities = WindowManagerCapabilities {
            window_menu: false,
            maximize: false,
            fullscreen: false,
            minimize: false,
        };
        let mut reader = BinaryReader::new(bytes);
        let count: usize = bytes.len() / 4;
        let mut i: usize = 0;
        while i < count
            invariant
                i <= count == bytes@.len() / 4,
                reader.bytes() == bytes@,
                reader.position() == 4 * i,
                capabilities == WindowManagerCapabilities::of(bytes@, i as nat),
            decreases count - i,
        {
            assert(reader.remaining().take(4) =~= bytes@.subrange(4 * i, 4 * (i + 1)));
            let code = match reader.read_uint(4) {
                Ok(code) => code,
                Err(_) => 0,
            };
            if code <= 0xffff_ffff {
                capabilities = match toplevel_capability(code as u32) {
                    Some(Capability::WindowMenu) => WindowManagerCapabilities {
                        window_menu: true,
                        ..capabilities
                    },
                    Some(Capability::Maximize) => WindowManagerCapabilities {
                        maximize: true,
                        ..capabilities
                    },
                    Some(Capability::Fullscreen) => WindowManagerCapabilities {
                        fullscreen: true,
                        ..capabilities
                    },
                    Some(Capability::Minimize) => WindowManagerCapabilities {
                        minimize: true,
                        ..capabilities
                    },
                    None => capabilities,
                };
            }
            i += 1;
        }
        capabilities
    }
}

/// What the platform asks of a window: gathered from its events until the
/// surface is configured, then handed to the window.
#[derive(Debug, Clone, Copy, PartialEq, Eq)]
pub struct WindowConfigure {
    /// The width and the height that the platform suggests, where it
    /// suggests any.
    pub new_size: (Option<u32>, Option<u32>),
    /// The largest size that fits the screen, where the platform tells.
    pub suggested_bounds: Option<(u32, u32)>,
    pub decoration_mode: DecorationMode,
    pub state: WindowState,
    pub capabilities: WindowManagerCapabilities,
}

impl WindowConfigure {
    /// Takes a configure event of the window: the suggested size and the
    /// list of states. The rest stays as it is.
    pub fn configure(&mut self, width: i32, height: i32, states: &[u8])
        ensures
            final(self).new_size == (
                if width > 0 {
                    Some(width as u32)
                } else {
                    None
                },
                if height > 0 {
                    Some(height as u32)
                } else {
                    None
                },
            ),
            final(self).state == WindowState::of(states@, states@.len() / 4),
            final(self).suggested_bounds == old(self).suggested_bounds,
            final(self).decoration_mode == old(self).decoration_mode,
            final(self).capabilities == old(self).capabilities,
    {
        self.state = WindowState::decode(states);
        self.new_size = (suggested_dimension(width), suggested_dimension(height));
    }

    /// Takes the bounds that the platform suggests: none where both are
    /// zero. The rest stays as it is.
    pub fn configure_bounds(&mut self, width: i32, height: i32)
        ensures
            final(self).suggested_bounds == (if width == 0 && height == 0 {
                None
            } else {
                Some((width as u32, height as u32))
            }),
            final(self).new_size == old(self).new_size,
            final(self).decoration_mode == old(self).decoration_mode,
            final(self).state == old(self).state,
            final(self).capabilities == old(self).capabilities,
    {
        self.suggested_bounds = suggested_bounds(width, height);
    }

    /// Takes the list of capabilities that the platform sends. The rest
    /// stays as it is.
    pub fn wm_capabilities(&mut self, capabilities: &[u8])
        ensures
            final(self).capabilities == WindowManagerCapabilities::of(
                capabilities@,
                capabilities@.len() / 4,
            ),
            final(self).new_size == old(self).new_size,
            final(self).suggested_bounds == old(self).suggested_bounds,
            final(self).decoration_mode == old(self).decoration_mode,
            final(self).state == old(self).state,
    {
        self.capabilities = WindowManagerCapabilities::decode(capabilities);
    }

    /// The window fills the screen but for the panels.
    pub fn is_maximized(&self) -> (r: bool)
        ensures
            r == self.state.maximized,
    {
        self.state.maximized
    }

    /// The window fills the whole screen.
    pub fn is_fullscreen(&self) -> (r: bool)
        ensures
            r == self.state.fullscreen,
    {
        self.state.fullscreen
    }

    /// The window is being resized.
    pub fn is_resizing(&self) -> (r: bool)
        ensures
            r == self.state.resizing,
    {
        self.state.resizing
    }

    /// The window is tiled on all four sides.
    pub fn is_tiled(&self) -> (r: bool)
        ensures
            r == self.state.all_tiled(),
    {
        self.state.is_tiled()
    }

    /// The window has the focus.
    pub fn is_activated(&self) -> (r: bool)
        ensures
            r == self.state.activated,
    {
        self.state.activated
    }

    /// The window's left edge touches the tiling grid.
    pub fn is_tiled_left(&self) -> (r: bool)
        ensures
            r == self.state.tiled_left,
    {
        self.state.tiled_left
    }

    /// The window's right edge touches the tiling grid.
    pub fn is_tiled_right(&self) -> (r: bool)
        ensures
            r == self.state.tiled_right,
    {
        self.state.tiled_right
    }

    /// The window's top edge touches the tiling grid.
    pub fn is_tiled_top(&self) -> (r: bool)
        ensures
            r == self.state.tiled_top,
    {
        self.state.tiled_top
    }

    /// The window's bottom edge touches the tiling grid.
    pub fn is_tiled_bottom(&self) -> (r: bool)
        ensures
            r == self.state.tiled_bottom,
    {
        self.state.tiled_bottom
    }
}

/// A width or height that the platform suggests: `None` where it leaves
/// the choice to the window, which it says with zero, or sends a negative
/// number, which means nothing.
pub fn suggested_dimension(value: i32) -> (r: Option<u32>)
    ensures
        value > 0 ==> r == Some(value as u32),
        value <= 0 ==> r.is_none(),
{
    if value > 0 {
        Some(value as u32)
    } else {
        None
    }
}

/// The bounds that the platform suggests for a window: none where both
/// are zero.
pub fn suggested_bounds(width: i32, height: i32) -> (r: Option<(u32, u32)>)
    ensures
        width == 0 && height == 0 ==> r.is_none(),
        !(width == 0 && height == 0) ==> r == Some((width as u32, height as u32)),
{
    if width == 0 && height == 0 {
        None
    } else {
        Some((#[verifier::truncate] (width as u32), #[verifier::truncate] (height as u32)))
    }
}

/// The width and height of a window that nothing has sized yet.
pub const DEFAULT_WIDTH: u32 = 800;

/// See `DEFAULT_WIDTH`.
pub const DEFAULT_HEIGHT: u32 = 600;

/// The size that a window takes on a configure event, in logical pixels:
/// what the platform suggests, and for a dimension that it leaves open the
/// one that the window had before, or the default if it had none.
pub fn configured_size(previous: Option<Size>, width: Option<u32>, height: Option<u32>) -> (size:
    Size)
    ensures
        size.width == (match width {
            Some(w) => w,
            None => match previous {
                Some(p) => p.width,
                None => DEFAULT_WIDTH,
            },
        }),
        size.height == (match height {
            Some(h) => h,
            None => match previous {
                Some(p) => p.height,
                None => DEFAULT_HEIGHT,
            },
        }),
{
    let fallback = match previous {
        Some(previous) => previous,
        None => Size { width: DEFAULT_WIDTH, height: DEFAULT_HEIGHT },
    };
    Size {
        width: match width {
            Some(width) => width,
            None => fallback.width,
        },
        height: match height {
            Some(height) => height,
            None => fallback.height,
        },
    }
}

/// The physical size of a window whose logical width and height were
/// multiplied by its scale factor: each product, a double-precision bit
/// pattern, rounded to the nearest whole number and held to the range of
/// a dimension.
pub fn physical_size(scaled_width: u64, scaled_height: u64) -> (size: Size)
    ensures
        size.width == crate::double::nearest_u32_spec(scaled_width),
        size.height == crate::double::nearest_u32_spec(scaled_height),
{
    Size {
        width: crate::double::nearest_u32(scaled_width),
        height: crate::double::nearest_u32(scaled_height),
    }
}

} // verus!
