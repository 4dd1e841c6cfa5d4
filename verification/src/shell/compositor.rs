//! Per-surface state and the negotiation of a surface's size.
//!
//! A surface starts out unmapped. The first physical size that is applied
//! to it asks the engine to add the view; every later one only updates the
//! view's metrics. Sizes are held within the constraints that the
//! application set, which arrive in logical pixels and are turned into
//! physical pixels by rounding outward.

use vstd::prelude::*;
use crate::double::{ceiling, ceiling_within, floor, floor_within};
use crate::view::ViewId;

verus! {

/// The bit pattern of the scale factor one.
pub const UNIT_SCALE: u64 = 0x3ff0_0000_0000_0000;

/// A width and a height in physical pixels.
#[derive(Clone, Copy, Debug, PartialEq, Eq, Structural)]
pub struct Size {
    pub width: u32,
    pub height: u32,
}

/// Bounds on a surface's size in logical pixels, each a double-precision
/// bit pattern. Two values are equal when their bit patterns are.
#[derive(Clone, Copy, Debug, PartialEq, Eq, Structural)]
pub struct LogicalSizeConstraints {
    pub min_width: u64,
    pub min_height: u64,
    pub max_width: u64,
    pub max_height: u64,
}

/// Bounds on a surface's size in physical pixels.
#[derive(Clone, Copy, Debug, PartialEq, Eq, Structural)]
pub struct PhysicalSizeConstraints {
    pub min_width: u32,
    pub min_height: u32,
    pub max_width: u32,
    pub max_height: u32,
}

/// A lower bound in whole pixels: the value rounded up, or zero where that
/// is not a number from zero to `limit`.
pub open spec fn lower_bound(bits: u64, limit: nat) -> nat {
    match ceiling(bits) {
        Some(c) => if c <= limit {
            c
        } else {
            0
        },
        None => 0,
    }
}

/// An upper bound in whole pixels: the value rounded down, or `fallback`
/// where that is not a number from zero to `limit`.
pub open spec fn upper_bound(bits: u64, limit: nat, fallback: nat) -> nat {
    match floor(bits) {
        Some(f) => if f <= limit {
            f
        } else {
            fallback
        },
        None => fallback,
    }
}

/// `value` held within `min` and `max`.
pub open spec fn clamped(value: u32, min: u32, max: u32) -> u32 {
    if value < min {
        min
    } else if value > max {
        max
    } else {
        value
    }
}

impl LogicalSizeConstraints {
    /// The physical bounds that these bounds round to.
    pub open spec fn physical(self) -> PhysicalSizeConstraints {
        PhysicalSizeConstraints {
            min_width: lower_bound(self.min_width, u32::MAX as nat) as u32,
            min_height: lower_bound(self.min_height, u32::MAX as nat) as u32,
            max_width: upper_bound(self.max_width, u32::MAX as nat, u32::MAX as nat) as u32,
            max_height: upper_bound(self.max_height, u32::MAX as nat, u32::MAX as nat) as u32,
        }
    }

    /// The bounds as the windowing protocol takes them, or `None` where a
    /// minimum would lie above its maximum.
    pub open spec fn wayland(self) -> Option<(i32, i32, i32, i32)> {
        let min_width = lower_bound(self.min_width, i32::MAX as nat) as i32;
        let min_height = lower_bound(self.min_height, i32::MAX as nat) as i32;
        let max_width = upper_bound(self.max_width, i32::MAX as nat, 0) as i32;
        let max_height = upper_bound(self.max_height, i32::MAX as nat, 0) as i32;
        if min_width > max_width || min_height > max_height {
            None
        } else {
            Some((min_width, min_height, max_width, max_height))
        }
    }

    /// Rounds bounds that were already multiplied by the scale factor to
    /// whole physical pixels: minimums up, maximums down. A minimum that is
    /// not finite, negative or too large becomes zero; such a maximum
    /// becomes the largest value.
    pub fn to_physical(self) -> (r: PhysicalSizeConstraints)
        ensures
            r == self.physical(),
    {
        PhysicalSizeConstraints {
            min_width: physical_min(self.min_width),
            min_height: physical_min(self.min_height),
            max_width: physical_max(self.max_width),
            max_height: physical_max(self.max_height),
        }
    }

    /// Rounds logical bounds to the whole numbers that the windowing
    /// protocol takes: minimums up, maximums down, and zero for a bound that
    /// is not finite, negative or too large. Gives `None` where a minimum
    /// would lie above its maximum, which the protocol forbids.
    pub fn to_wayland_constraints(self) -> (r: Option<(i32, i32, i32, i32)>)
        ensures
            r == self.wayland(),
    {
        let min_width = wayland_min(self.min_width);
        let min_height = wayland_min(self.min_height);
        let max_width = wayland_max(self.max_width);
        let max_height = wayland_max(self.max_height);
        if min_width > max_width || min_height > max_height {
            None
        } else {
            Some((min_width, min_height, max_width, max_height))
        }
    }
}

/// A minimum in physical pixels.
fn physical_min(bits: u64) -> (r: u32)
    ensures
        r == lower_bound(bits, u32::MAX as nat),
{
    match ceiling_within(bits, 0xffff_ffff) {
        Some(value) => value as u32,
        None => 0,
    }
}

/// A maximum in physical pixels.
fn physical_max(bits: u64) -> (r: u32)
    ensures
        r == upper_bound(bits, u32::MAX as nat, u32::MAX as nat),
{
    match floor_within(bits, 0xffff_ffff) {
        Some(value) => value as u32,
        None => u32::MAX,
    }
}

/// A minimum as the windowing protocol takes it.
fn wayland_min(bits: u64) -> (r: i32)
    ensures
        r == lower_bound(bits, i32::MAX as nat),
{
    match ceiling_within(bits, 0x7fff_ffff) {
        Some(value) => value as i32,
        None => 0,
    }
}

/// A maximum as the windowing protocol takes it.
fn wayland_max(bits: u64) -> (r: i32)
    ensures
        r == upper_bound(bits, i32::MAX as nat, 0),
{
    match floor_within(bits, 0x7fff_ffff) {
        Some(value) => value as i32,
        None => 0,
    }
}

impl PhysicalSizeConstraints {
    /// No minimum lies above its maximum.
    pub open spec fn is_consistent(self) -> bool {
        self.min_width <= self.max_width && self.min_height <= self.max_height
    }

    /// `size` held within these bounds. Where a minimum lies above its
    /// maximum, a dimension below the minimum becomes the minimum and any
    /// other becomes the maximum.
    pub open spec fn constrained(self, size: Size) -> Size {
        Size {
            width: clamped(size.width, self.min_width, self.max_width),
            height: clamped(size.height, self.min_height, self.max_height),
        }
    }

    /// `size` lies within these bounds.
    pub open spec fn admits(self, size: Size) -> bool {
        self.min_width <= size.width <= self.max_width && self.min_height <= size.height
            <= self.max_height
    }

    /// Tells whether no minimum lies above its maximum.
    pub fn consistent(self) -> (r: bool)
        ensures
            r == self.is_consistent(),
    {
        self.min_width <= self.max_width && self.min_height <= self.max_height
    }

    /// Holds `size` within these bounds. The result lies within them
    /// wherever no minimum lies above its maximum; bounds that contradict
    /// each other still give a size, as `constrained` says.
    pub fn constrain_physical_size(self, size: Size) -> (r: Size)
        ensures
            r == self.constrained(size),
            self.is_consistent() ==> self.admits(r),
            self.admits(size) ==> r == size,
    {
        Size {
            width: clamp(size.width, self.min_width, self.max_width),
            height: clamp(size.height, self.min_height, self.max_height),
        }
    }
}

/// `value` held within `min` and `max`.
fn clamp(value: u32, min: u32, max: u32) -> (r: u32)
    ensures
        r == clamped(value, min, max),
{
    if value < min {
        min
    } else if value > max {
        max
    } else {
        value
    }
}


/// The metrics of one view, as the engine takes them.
#[derive(Clone, Copy, Debug, PartialEq, Eq, Structural)]
pub struct WindowMetrics {
    pub view_id: ViewId,
    pub width: usize,
    pub height: usize,
    /// The scale factor, as a double-precision bit pattern.
    pub pixel_ratio: u64,
}

/// What the caller has to ask of the engine after a size was applied.
#[derive(Clone, Copy, Debug, PartialEq, Eq, Structural)]
pub enum EngineCall {
    /// Nothing: the size did not change.
    Nothing,
    /// Add the view. The engine reports later whether that succeeded; hand
    /// its answer to `SurfaceData::add_view_completed`.
    AddView(WindowMetrics),
    /// Send new metrics for a view that is already there.
    UpdateMetrics(WindowMetrics),
}

/// What is known of one surface.
#[derive(Clone, Copy, Debug, PartialEq, Eq, Structural)]
pub struct SurfaceData {
    pub view_id: ViewId,
    /// The scale factor, as a double-precision bit pattern.
    pub scale_factor: u64,
    /// The engine was asked to add the view, and has not refused.
    pub was_mapped: bool,
    /// The last physical size that was sent to the engine.
    pub previous_size: Option<Size>,
    pub logical_size_constraints: Option<LogicalSizeConstraints>,
    /// A frame callback was requested and has not arrived.
    pub waiting_for_frame: bool,
}

/// The physical bounds in force on a surface that stores the logical
/// constraints `stored`, when the caller hands `scaled` as their products
/// with the scale factor: the bounds that `scaled` rounds to where
/// constraints are stored and products were handed, and none otherwise.
pub open spec fn bounds_in_force(
    stored: Option<LogicalSizeConstraints>,
    scaled: Option<LogicalSizeConstraints>,
) -> Option<PhysicalSizeConstraints> {
    match (stored, scaled) {
        (Some(_), Some(products)) => Some(products.physical()),
        _ => None,
    }
}

/// The size that is sent for a wish of `size`. A surface without
/// constraints sends the size as it is, whatever was handed as `scaled`.
/// A surface with constraints sends the size held within the bounds in
/// force; where the caller handed no products, no size can be held within
/// them, and none is sent.
pub open spec fn target_size(
    stored: Option<LogicalSizeConstraints>,
    size: Size,
    scaled: Option<LogicalSizeConstraints>,
) -> Option<Size> {
    match stored {
        None => Some(size),
        Some(_) => match scaled {
            Some(products) => Some(products.physical().constrained(size)),
            None => None,
        },
    }
}

impl SurfaceData {
    /// The metrics that are sent for this surface at `size`.
    pub open spec fn metrics(self, size: Size) -> WindowMetrics {
        WindowMetrics {
            view_id: self.view_id,
            width: size.width as usize,
            height: size.height as usize,
            pixel_ratio: self.scale_factor,
        }
    }

    /// The state and the engine call that follow a wish for `size`.
    pub open spec fn after_physical_size(
        self,
        size: Size,
        scaled: Option<LogicalSizeConstraints>,
    ) -> (SurfaceData, EngineCall) {
        match target_size(self.logical_size_constraints, size, scaled) {
            None => (self, EngineCall::Nothing),
            Some(target) => if self.previous_size == Some(target) {
                (self, EngineCall::Nothing)
            } else {
                (
                    SurfaceData { was_mapped: true, previous_size: Some(target), ..self },
                    if self.was_mapped {
                        EngineCall::UpdateMetrics(self.metrics(target))
                    } else {
                        EngineCall::AddView(self.metrics(target))
                    },
                )
            },
        }
    }

    /// The state after the engine's answer to an `AddView`: as it was after
    /// an acceptance; unmapped and without a size that was sent after a
    /// refusal.
    pub open spec fn after_add_view(self, success: bool) -> SurfaceData {
        if success {
            self
        } else {
            SurfaceData { was_mapped: false, previous_size: None, ..self }
        }
    }

    /// The state and the engine call that follow new logical constraints.
    pub open spec fn after_logical_size_constraints(
        self,
        constraints: LogicalSizeConstraints,
        scaled: LogicalSizeConstraints,
    ) -> (SurfaceData, EngineCall) {
        let stored = SurfaceData { logical_size_constraints: Some(constraints), ..self };
        if self.logical_size_constraints == Some(constraints) {
            (stored, EngineCall::Nothing)
        } else {
            match self.previous_size {
                Some(previous) => stored.after_physical_size(previous, Some(scaled)),
                None => (stored, EngineCall::Nothing),
            }
        }
    }

    /// The state of a fresh surface at the scale factor one.
    pub fn for_view(view_id: ViewId) -> (data: Self)
        ensures
            data == Self::initial(view_id, UNIT_SCALE),
    {
        Self::new(view_id, UNIT_SCALE)
    }

    /// The state of a fresh surface: `initial(view_id, scale_factor)`.
    pub open spec fn initial(view_id: ViewId, scale_factor: u64) -> SurfaceData {
        SurfaceData {
            view_id,
            scale_factor,
            was_mapped: view_id.is_implicit(),
            previous_size: None,
            logical_size_constraints: None,
            waiting_for_frame: false,
        }
    }

    /// The state of a fresh surface with the given scale factor. Only the
    /// implicit view counts as mapped from the start: the engine has it
    /// without being asked.
    pub fn new(view_id: ViewId, scale_factor: u64) -> (data: Self)
        ensures
            data == Self::initial(view_id, scale_factor),
    {
        SurfaceData {
            view_id,
            scale_factor,
            was_mapped: view_id.0 == crate::view::IMPLICIT_VIEW,
            previous_size: None,
            logical_size_constraints: None,
            waiting_for_frame: false,
        }
    }

    /// The view that this surface shows.
    pub fn view_id(&self) -> (id: ViewId)
        ensures
            id == self.view_id,
    {
        self.view_id
    }

    /// The scale factor, as a double-precision bit pattern.
    pub fn scale_factor(&self) -> (bits: u64)
        ensures
            bits == self.scale_factor,
    {
        self.scale_factor
    }

    /// Takes the scale factor that the platform prefers from now on. Sizes
    /// and bounds that were sent before are not computed again.
    pub fn set_scale_factor(&mut self, scale_factor: u64)
        ensures
            *final(self) == (SurfaceData { scale_factor, ..*old(self) }),
    {
        self.scale_factor = scale_factor;
    }

    /// Whether the engine was asked to add the view, and has not refused.
    pub fn was_mapped(&self) -> (mapped: bool)
        ensures
            mapped == self.was_mapped,
    {
        self.was_mapped
    }

    /// The last physical size that was sent to the engine.
    pub fn previous_physical_size(&self) -> (size: Option<Size>)
        ensures
            size == self.previous_size,
    {
        self.previous_size
    }

    /// Applies a physical size. `scaled` holds the surface's logical
    /// constraints multiplied by its scale factor, where it has any.
    ///
    /// A surface that stores constraints first holds the size within the
    /// bounds that `scaled` rounds to; handed no `scaled`, it sends nothing
    /// and stays as it is, so that no size ever leaves without its bounds.
    /// A surface that stores none takes the size as it is. Where the result
    /// is the size that was sent last, nothing happens. Otherwise the first
    /// size of an unmapped surface adds the view, and any later one updates
    /// its metrics.
    pub fn set_physical_size(&mut self, size: Size, scaled: Option<LogicalSizeConstraints>) -> (call:
        EngineCall)
        ensures
            (*final(self), call) == old(self).after_physical_size(size, scaled),
            final(self).view_id == old(self).view_id,
            final(self).scale_factor == old(self).scale_factor,
            final(self).logical_size_constraints == old(self).logical_size_constraints,
            call != EngineCall::Nothing ==> final(self).was_mapped,
            match call {
                EngineCall::Nothing => true,
                EngineCall::AddView(m) | EngineCall::UpdateMetrics(m) => {
                    &&& target_size(old(self).logical_size_constraints, size, scaled) matches Some(
                        target,
                    )
                    &&& final(self).previous_size == Some(target)
                    &&& m == old(self).metrics(target)
                    &&& old(self).logical_size_constraints.is_some() == bounds_in_force(
                        old(self).logical_size_constraints,
                        scaled,
                    ).is_some()
                    &&& bounds_in_force(old(self).logical_size_constraints, scaled) matches Some(
                        bounds,
                    ) ==> target == bounds.constrained(size) && (bounds.is_consistent()
                        ==> bounds.admits(target))
                },
            },
    {
        let target = match self.physical_size_constraints(scaled) {
            Some(bounds) => bounds.constrain_physical_size(size),
            None => {
                if self.logical_size_constraints.is_some() {
                    return EngineCall::Nothing;
                }
                size
            },
        };
        if self.previous_size == Some(target) {
            return EngineCall::Nothing;
        }
        let metrics = WindowMetrics {
            view_id: self.view_id,
            width: target.width as usize,
            height: target.height as usize,
            pixel_ratio: self.scale_factor,
        };
        let mapped = self.was_mapped;
        self.was_mapped = true;
        self.previous_size = Some(target);
        if mapped {
            EngineCall::UpdateMetrics(metrics)
        } else {
            EngineCall::AddView(metrics)
        }
    }

    /// Takes the engine's answer to an `AddView`. After a refusal the
    /// surface is as it was before any size was applied to it: unmapped,
    /// and with no size that was sent. So the next size adds the view once
    /// more, also where it is the very size that was refused.
    pub fn add_view_completed(&mut self, success: bool)
        ensures
            *final(self) == old(self).after_add_view(success),
            success ==> *final(self) == *old(self),
            !success ==> *final(self) == (SurfaceData {
                was_mapped: false,
                previous_size: None,
                ..*old(self)
            }),
    {
        if !success {
            self.was_mapped = false;
            self.previous_size = None;
        }
    }

    /// The physical bounds in force, given the stored logical constraints
    /// multiplied by the scale factor. A surface that stores no constraints
    /// has none in force, whatever was handed.
    pub fn physical_size_constraints(&self, scaled: Option<LogicalSizeConstraints>) -> (r: Option<
        PhysicalSizeConstraints,
    >)
        ensures
            r == bounds_in_force(self.logical_size_constraints, scaled),
    {
        if self.logical_size_constraints.is_none() {
            return None;
        }
        match scaled {
            Some(products) => Some(products.to_physical()),
            None => None,
        }
    }

    /// Stores new logical constraints. `scaled` holds them multiplied by
    /// the surface's scale factor.
    ///
    /// Where they are the constraints already stored, nothing happens.
    /// Otherwise the size that was sent last, if any, is applied again
    /// under the new bounds.
    pub fn set_logical_size_constraints(
        &mut self,
        constraints: LogicalSizeConstraints,
        scaled: LogicalSizeConstraints,
    ) -> (call: EngineCall)
        ensures
            (*final(self), call) == old(self).after_logical_size_constraints(constraints, scaled),
            final(self).logical_size_constraints == Some(constraints),
    {
        let previous = self.logical_size_constraints;
        self.logical_size_constraints = Some(constraints);
        if previous == Some(constraints) {
            return EngineCall::Nothing;
        }
        match self.previous_size {
            Some(previous_size) => self.set_physical_size(previous_size, Some(scaled)),
            None => EngineCall::Nothing,
        }
    }

    /// Whether a frame callback is outstanding.
    pub fn is_waiting_for_frame(&self) -> (waiting: bool)
        ensures
            waiting == self.waiting_for_frame,
    {
        self.waiting_for_frame
    }

    /// Records whether a frame callback is outstanding, and tells what was
    /// recorded before.
    pub fn swap_waiting_for_frame(&mut self, waiting: bool) -> (before: bool)
        ensures
            before == old(self).waiting_for_frame,
            *final(self) == (SurfaceData { waiting_for_frame: waiting, ..*old(self) }),
    {
        let before = self.waiting_for_frame;
        self.waiting_for_frame = waiting;
        before
    }
}

/// Applying the same size under the same bounds a second time asks nothing
/// of the engine and leaves the state as it is.
pub proof fn lemma_same_size_twice(
    state: SurfaceData,
    size: Size,
    scaled: Option<LogicalSizeConstraints>,
)
    ensures
        ({
            let (once, _) = state.after_physical_size(size, scaled);
            once.after_physical_size(size, scaled) == (once, EngineCall::Nothing)
        }),
{
}

/// Storing the same logical constraints a second time asks nothing of the
/// engine and leaves the state as it is.
pub proof fn lemma_same_constraints_twice(
    state: SurfaceData,
    constraints: LogicalSizeConstraints,
    scaled: LogicalSizeConstraints,
)
    ensures
        ({
            let (once, _) = state.after_logical_size_constraints(constraints, scaled);
            once.after_logical_size_constraints(constraints, scaled) == (once, EngineCall::Nothing)
        }),
{
}

/// A surface that stores constraints never sends a size without bounds:
/// handed no products, it sends nothing; handed products, every size that
/// it sends is the wish held within the bounds that they round to, and
/// lies within these wherever no minimum lies above its maximum.
pub proof fn lemma_sent_size_within_bounds(
    state: SurfaceData,
    size: Size,
    scaled: Option<LogicalSizeConstraints>,
)
    requires
        state.logical_size_constraints.is_some(),
    ensures
        ({
            let (next, call) = state.after_physical_size(size, scaled);
            match call {
                EngineCall::Nothing => next == state,
                EngineCall::AddView(m) | EngineCall::UpdateMetrics(m) => {
                    &&& scaled matches Some(products)
                    &&& m == state.metrics(products.physical().constrained(size))
                    &&& next.previous_size == Some(products.physical().constrained(size))
                    &&& products.physical().is_consistent() ==> {
                        &&& products.physical().min_width <= m.width
                            <= products.physical().max_width
                        &&& products.physical().min_height <= m.height
                            <= products.physical().max_height
                    }
                },
            }
        }),
{
}

/// Bounds whose minimum lies above the maximum still give a size: a
/// dimension below the minimum becomes the minimum, any other the maximum.
pub proof fn lemma_contradicting_bounds_give_a_size(bounds: PhysicalSizeConstraints, size: Size)
    requires
        bounds.min_width > bounds.max_width,
        bounds.min_height > bounds.max_height,
    ensures
        bounds.constrained(size).width == (if size.width < bounds.min_width {
            bounds.min_width
        } else {
            bounds.max_width
        }),
        bounds.constrained(size).height == (if size.height < bounds.min_height {
            bounds.min_height
        } else {
            bounds.max_height
        }),
{
}

/// A fresh surface of a view other than the implicit one answers its first
/// size with one `AddView` and a second, different size with one
/// `UpdateMetrics`, each carrying the size that was asked for.
pub proof fn lemma_add_then_update(view_id: ViewId, scale_factor: u64, first: Size, second: Size)
    requires
        !view_id.is_implicit(),
        first != second,
    ensures
        ({
            let fresh = SurfaceData::initial(view_id, scale_factor);
            let (mapped, add) = fresh.after_physical_size(first, None);
            let (resized, update) = mapped.after_physical_size(second, None);
            &&& add == EngineCall::AddView(fresh.metrics(first))
            &&& update == EngineCall::UpdateMetrics(fresh.metrics(second))
            &&& resized.previous_size == Some(second)
        }),
{
}

/// After the engine refused to add a view, the next size asks to add it
/// again, whether or not it is the size that was refused.
pub proof fn lemma_refused_view_is_added_again(
    state: SurfaceData,
    size: Size,
    scaled: Option<LogicalSizeConstraints>,
)
    ensures
        ({
            let refused = state.after_add_view(false);
            match target_size(state.logical_size_constraints, size, scaled) {
                Some(target) => refused.after_physical_size(size, scaled) == (
                    SurfaceData { was_mapped: true, previous_size: Some(target), ..state },
                    EngineCall::AddView(state.metrics(target)),
                ),
                None => refused.after_physical_size(size, scaled) == (
                    refused,
                    EngineCall::Nothing,
                ),
            }
        }),
{
}

} // verus!
