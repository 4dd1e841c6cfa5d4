//! The embedder's side of the engine's callbacks: the pixel format of the
//! session, the backing stores that the engine draws into, and the checks
//! that a frame passes before it is shown.

use vstd::prelude::*;
use std::collections::HashMap;
use crate::double::{is_negative, is_whole, sign_bit, whole_as_i32, whole_i32};
use crate::platform_message::{message_of, starts_with, AnyPlatformRequest, DecodeError};
use crate::registry::{ViewEntry, ViewRegistry};
use crate::shell::compositor::SurfaceData;
use crate::view::ViewId;

verus! {

broadcast use vstd::std_specs::hash::group_hash_axioms;

/// A pixel format of the platform's shared-memory buffers.
#[derive(Clone, Copy, Debug, PartialEq, Eq, Structural)]
pub enum ShmFormat {
    /// 32 bits: alpha, red, green, blue, from the highest byte down.
    Argb8888,
    /// As `Argb8888` with the alpha byte ignored.
    Xrgb8888,
    /// 32 bits: alpha, blue, green, red, from the highest byte down.
    Abgr8888,
    /// As `Abgr8888` with the alpha byte ignored.
    Xbgr8888,
    /// 16 bits: five of red, six of green, five of blue.
    Rgb565,
}

/// A pixel format that the engine's software renderer can draw in, named
/// by the order of a pixel's bytes in memory.
#[derive(Clone, Copy, Debug, PartialEq, Eq, Structural)]
pub enum SoftwarePixelFormat {
    Bgra8888,
    Rgba8888,
    Rgbx8888,
    Rgb565,
}

/// The one pixel format of a session: what the engine draws in, what the
/// platform is given, and whether the red and blue bytes of every pixel
/// change places on the way.
#[derive(Clone, Copy, Debug, PartialEq, Eq, Structural)]
pub struct PixelFormat {
    pub engine: SoftwarePixelFormat,
    pub platform: ShmFormat,
    pub swizzle: bool,
}

/// How many formats the preference table holds.
pub const PREFERENCES: usize = 6;

/// The preference table: formats that both sides share first, then those
/// that lose precision or the alpha channel, and the one that needs every
/// pixel's bytes reordered last.
pub open spec fn preference(rank: int) -> PixelFormat {
    if rank == 0 {
        PixelFormat {
            engine: SoftwarePixelFormat::Bgra8888,
            platform: ShmFormat::Argb8888,
            swizzle: false,
        }
    } else if rank == 1 {
        PixelFormat {
            engine: SoftwarePixelFormat::Rgba8888,
            platform: ShmFormat::Abgr8888,
            swizzle: false,
        }
    } else if rank == 2 {
        PixelFormat {
            engine: SoftwarePixelFormat::Rgb565,
            platform: ShmFormat::Rgb565,
            swizzle: false,
        }
    } else if rank == 3 {
        PixelFormat {
            engine: SoftwarePixelFormat::Bgra8888,
            platform: ShmFormat::Xrgb8888,
            swizzle: false,
        }
    } else if rank == 4 {
        PixelFormat {
            engine: SoftwarePixelFormat::Rgbx8888,
            platform: ShmFormat::Xbgr8888,
            swizzle: false,
        }
    } else {
        PixelFormat {
            engine: SoftwarePixelFormat::Rgba8888,
            platform: ShmFormat::Xrgb8888,
            swizzle: true,
        }
    }
}

/// The entry of the preference table at `rank`.
fn preference_at(rank: usize) -> (format: PixelFormat)
    ensures
        format == preference(rank as int),
{
    if rank == 0 {
        PixelFormat {
            engine: SoftwarePixelFormat::Bgra8888,
            platform: ShmFormat::Argb8888,
            swizzle: false,
        }
    } else if rank == 1 {
        PixelFormat {
            engine: SoftwarePixelFormat::Rgba8888,
            platform: ShmFormat::Abgr8888,
            swizzle: false,
        }
    } else if rank == 2 {
        PixelFormat {
            engine: SoftwarePixelFormat::Rgb565,
            platform: ShmFormat::Rgb565,
            swizzle: false,
        }
    } else if rank == 3 {
        PixelFormat {
            engine: SoftwarePixelFormat::Bgra8888,
            platform: ShmFormat::Xrgb8888,
            swizzle: false,
        }
    } else if rank == 4 {
        PixelFormat {
            engine: SoftwarePixelFormat::Rgbx8888,
            platform: ShmFormat::Xbgr8888,
            swizzle: false,
        }
    } else {
        PixelFormat {
            engine: SoftwarePixelFormat::Rgba8888,
            platform: ShmFormat::Xrgb8888,
            swizzle: true,
        }
    }
}

/// Tells whether `format` is among the advertised formats.
fn advertises(advertised: &[ShmFormat], format: ShmFormat) -> (r: bool)
    ensures
        r == advertised@.contains(format),
{
    let mut i: usize = 0;
    while i < advertised.len()
        invariant
            i <= advertised.len(),
            forall|k: int| 0 <= k < i ==> advertised@[k] != format,
        decreases advertised.len() - i,
    {
        if advertised[i] == format {
            return true;
        }
        i += 1;
    }
    false
}

impl PixelFormat {
    /// The format that the embedder uses where the platform advertises
    /// nothing to choose from.
    pub fn default_format() -> (format: PixelFormat)
        ensures
            format == preference(0),
    {
        preference_at(0)
    }

    /// Picks the session's format: the first of the preference table whose
    /// platform side is among the advertised formats. Gives `None` where
    /// the platform advertises none of them.
    pub fn negotiate(advertised: &[ShmFormat]) -> (r: Option<PixelFormat>)
        ensures
            match r {
                Some(format) => exists|rank: int|
                    {
                        &&& 0 <= rank < PREFERENCES
                        &&& format == preference(rank)
                        &&& advertised@.contains(preference(rank).platform)
                        &&& forall|better: int|
                            0 <= better < rank ==> !advertised@.contains(
                                #[trigger] preference(better).platform,
                            )
                    },
                None => forall|rank: int|
                    0 <= rank < PREFERENCES ==> !advertised@.contains(
                        #[trigger] preference(rank).platform,
                    ),
            },
    {
        let mut rank: usize = 0;
        while rank < PREFERENCES
            invariant
                rank <= PREFERENCES,
                forall|better: int|
                    0 <= better < rank ==> !advertised@.contains(
                        #[trigger] preference(better).platform,
                    ),
            decreases PREFERENCES - rank,
        {
            let candidate = preference_at(rank);
            if advertises(advertised, candidate.platform) {
                return Some(candidate);
            }
            rank += 1;
        }
        None
    }

    /// The bytes of one pixel.
    pub open spec fn pixel_bytes(self) -> int {
        if self.engine == SoftwarePixelFormat::Rgb565 {
            2
        } else {
            4
        }
    }

    /// The bytes of one pixel.
    pub fn bytes(self) -> (r: usize)
        ensures
            r == self.pixel_bytes(),
    {
        match self.engine {
            SoftwarePixelFormat::Rgb565 => 2,
            _ => 4,
        }
    }
}

/// The measures of a backing store's memory.
#[derive(Clone, Copy, Debug, PartialEq, Eq, Structural)]
pub struct BackingStoreLayout {
    pub width: i32,
    pub height: i32,
    /// The bytes of one row.
    pub stride: i32,
    /// The bytes of all rows.
    pub size: i32,
}

/// The layout of a backing store of the given width and height, both
/// double-precision bit patterns: `None` unless both are whole, carry no
/// minus sign, and give a store of at most `i32::MAX` bytes.
pub open spec fn layout_of(width: u64, height: u64, pixel_bytes: int) -> Option<
    BackingStoreLayout,
> {
    if !is_whole(width) || !is_whole(height) || is_negative(width) || is_negative(height) {
        None
    } else {
        let w = whole_i32(width);
        let h = whole_i32(height);
        if w * pixel_bytes * h > i32::MAX || w * pixel_bytes > i32::MAX {
            None
        } else {
            Some(
                BackingStoreLayout {
                    width: w as i32,
                    height: h as i32,
                    stride: (w * pixel_bytes) as i32,
                    size: (w * pixel_bytes * h) as i32,
                },
            )
        }
    }
}

/// Works out the layout of a backing store that the engine asks for. The
/// engine gives the size as double-precision numbers; a size that is not
/// in whole pixels, is negative or needs more bytes than the platform can
/// address is refused, and the engine tries again on a later frame.
pub fn backing_store_layout(width: u64, height: u64, format: PixelFormat) -> (r: Option<
    BackingStoreLayout,
>)
    ensures
        r == layout_of(width, height, format.pixel_bytes()),
{
    let w = match whole_as_i32(width) {
        Some(w) => w,
        None => {
            return None;
        },
    };
    let h = match whole_as_i32(height) {
        Some(h) => h,
        None => {
            return None;
        },
    };
    if sign_bit(width) || sign_bit(height) {
        return None;
    }
    let pixel: i64 = format.bytes() as i64;
    let stride: i64 = (w as i64) * pixel;
    if stride > 0x7fff_ffff {
        return None;
    }
    assert(0 <= stride * (h as i64) <= 0x7fff_ffff * 0x7fff_ffff) by (nonlinear_arith)
        requires
            0 <= stride <= 0x7fff_ffff,
            0 <= h <= 0x7fff_ffff,
    ;
    let size: i64 = stride * (h as i64);
    if size > 0x7fff_ffff {
        return None;
    }
    Some(BackingStoreLayout { width: w, height: h, stride: stride as i32, size: size as i32 })
}

/// A backing store of plain memory, as the engine is told of it.
#[derive(Clone, Copy, Debug, PartialEq, Eq, Structural)]
pub struct SoftwareStore {
    /// The address of the store's memory.
    pub allocation: usize,
    /// The bytes of one row.
    pub row_bytes: usize,
    /// The rows.
    pub height: usize,
    pub pixel_format: SoftwarePixelFormat,
}

/// What the engine is told of a store of `layout` at `allocation`, drawn
/// in the session's `format`.
pub open spec fn store_of(
    layout: BackingStoreLayout,
    format: PixelFormat,
    allocation: usize,
) -> SoftwareStore {
    SoftwareStore {
        allocation,
        row_bytes: layout.stride as usize,
        height: layout.height as usize,
        pixel_format: format.engine,
    }
}

/// The backing stores that the engine holds, each under the address of its
/// memory, with the platform buffer that was made for it.
pub struct BackingStores<B> {
    buffers: HashMap<usize, B>,
}

impl<B> View for BackingStores<B> {
    type V = Map<usize, B>;

    closed spec fn view(&self) -> Map<usize, B> {
        self.buffers@
    }
}

impl<B> BackingStores<B> {
    /// No backing stores.
    pub fn new() -> (stores: Self)
        ensures
            stores@ == Map::<usize, B>::empty(),
    {
        BackingStores { buffers: HashMap::new() }
    }

    /// Takes in a backing store that was made for the engine: memory at
    /// `allocation` for a picture of the given width and height, both
    /// double-precision bit patterns, with the platform buffer that shows
    /// it. On success the store is held under its address, and the result
    /// is what the engine is told of it.
    ///
    /// The store is refused, and the buffer handed back, where the size
    /// has no layout or a store is held at this address already: no store
    /// ever takes the place of one that the engine has not given back.
    pub fn create_backing_store(
        &mut self,
        width: u64,
        height: u64,
        format: PixelFormat,
        allocation: usize,
        buffer: B,
    ) -> (r: Result<SoftwareStore, B>)
        ensures
            match layout_of(width, height, format.pixel_bytes()) {
                Some(layout) => if old(self)@.contains_key(allocation) {
                    r == Err::<SoftwareStore, B>(buffer) && final(self)@ == old(self)@
                } else {
                    &&& r == Ok::<SoftwareStore, B>(store_of(layout, format, allocation))
                    &&& final(self)@ == old(self)@.insert(allocation, buffer)
                    &&& final(self)@.remove(allocation) == old(self)@
                },
                None => r == Err::<SoftwareStore, B>(buffer) && final(self)@ == old(self)@,
            },
    {
        let layout = match backing_store_layout(width, height, format) {
            Some(layout) => layout,
            None => {
                return Err(buffer);
            },
        };
        if self.buffers.contains_key(&allocation) {
            return Err(buffer);
        }
        self.buffers.insert(allocation, buffer);
        assert(self@.remove(allocation) =~= old(self)@);
        Ok(
            SoftwareStore {
                allocation,
                row_bytes: layout.stride as usize,
                height: layout.height as usize,
                pixel_format: format.engine,
            },
        )
    }

    /// Records the buffer of a backing store that was just handed to the
    /// engine. Hands back the buffer that was recorded under the same
    /// address before, if any.
    pub fn insert(&mut self, allocation: usize, buffer: B) -> (before: Option<B>)
        ensures
            final(self)@ == old(self)@.insert(allocation, buffer),
            before == (if old(self)@.contains_key(allocation) {
                Some(old(self)@[allocation])
            } else {
                None
            }),
    {
        self.buffers.insert(allocation, buffer)
    }

    /// The buffer of a backing store, if the engine holds that store.
    pub fn get(&self, allocation: usize) -> (buffer: Option<&B>)
        ensures
            buffer == (if self@.contains_key(allocation) {
                Some(&self@[allocation])
            } else {
                None
            }),
    {
        self.buffers.get(&allocation)
    }

    /// Takes back a backing store that the engine is done with, and hands
    /// out its buffer for release. A store is collected once: afterwards
    /// the address is free, and collecting it again gives `None`.
    pub fn collect(&mut self, allocation: usize) -> (buffer: Option<B>)
        ensures
            final(self)@ == old(self)@.remove(allocation),
            !final(self)@.contains_key(allocation),
            buffer == (if old(self)@.contains_key(allocation) {
                Some(old(self)@[allocation])
            } else {
                None
            }),
    {
        self.buffers.remove(&allocation)
    }

    /// How many backing stores the engine holds.
    pub fn len(&self) -> (n: usize)
        ensures
            n == self@.len(),
    {
        self.buffers.len()
    }
}

/// A store that was taken in at a free address is given back by exactly
/// one collection: the first collection of its address hands out its
/// buffer and leaves the stores as they were before it came, and every
/// later one hands out nothing and changes nothing.
pub proof fn lemma_created_store_is_collected_once<B>(
    stores: Map<usize, B>,
    allocation: usize,
    buffer: B,
)
    requires
        !stores.contains_key(allocation),
    ensures
        ({
            let held = stores.insert(allocation, buffer);
            let collected = held.remove(allocation);
            &&& held.contains_key(allocation) && held[allocation] == buffer
            &&& forall|other: usize|
                other != allocation ==> held.contains_key(other) == stores.contains_key(other)
            &&& collected == stores
            &&& !collected.contains_key(allocation)
            &&& collected.remove(allocation) == collected
        }),
{
    let held = stores.insert(allocation, buffer);
    assert(held.remove(allocation) =~= stores);
    assert(stores.remove(allocation) =~= stores);
}

/// A rectangle as the engine gives it: four double-precision bit patterns.
#[derive(Clone, Copy, Debug, PartialEq, Eq, Structural)]
pub struct Rect {
    pub left: u64,
    pub top: u64,
    pub right: u64,
    pub bottom: u64,
}

/// A rectangle of a buffer in whole pixels.
#[derive(Clone, Copy, Debug, PartialEq, Eq, Structural)]
pub struct Damage {
    pub x: i32,
    pub y: i32,
    pub width: i32,
    pub height: i32,
}

impl Rect {
    /// All four edges lie on whole pixels.
    pub open spec fn is_aligned(self) -> bool {
        is_whole(self.left) && is_whole(self.top) && is_whole(self.right) && is_whole(self.bottom)
    }

    /// The rectangle in whole pixels.
    pub open spec fn damage(self) -> Damage {
        Damage {
            x: whole_i32(self.left) as i32,
            y: whole_i32(self.top) as i32,
            width: whole_i32(self.right) as i32,
            height: whole_i32(self.bottom) as i32,
        }
    }

    /// The rectangle in whole pixels, or `None` where an edge does not lie
    /// on a whole pixel.
    pub fn to_damage(self) -> (r: Option<Damage>)
        ensures
            r == (if self.is_aligned() {
                Some(self.damage())
            } else {
                None
            }),
    {
        let x = whole_as_i32(self.left);
        let y = whole_as_i32(self.top);
        let width = whole_as_i32(self.right);
        let height = whole_as_i32(self.bottom);
        match (x, y, width, height) {
            (Some(x), Some(y), Some(width), Some(height)) => Some(Damage { x, y, width, height }),
            _ => None,
        }
    }
}

/// What a backing store is made of.
#[derive(Clone, Copy, Debug, PartialEq, Eq, Structural)]
pub enum BackingStore {
    /// Plain memory at `allocation`, drawn in `pixel_format`.
    Software { allocation: usize, pixel_format: SoftwarePixelFormat },
    /// Anything that is not plain memory.
    Other,
}

/// What a layer shows.
#[derive(Debug, PartialEq, Eq)]
pub enum LayerContent {
    /// A backing store, and the parts of it that were drawn anew.
    BackingStore { store: BackingStore, paint_region: Vec<Rect> },
    /// A view of the platform's own.
    PlatformView,
}

/// One layer of a frame.
#[derive(Debug, PartialEq, Eq)]
pub struct CompositionLayer {
    pub content: LayerContent,
    /// The layer's width, as a double-precision bit pattern.
    pub width: u64,
    /// The layer's height, as a double-precision bit pattern.
    pub height: u64,
}

/// Why a frame was not shown.
#[derive(Clone, Copy, Debug, PartialEq, Eq, Structural)]
pub enum PresentError {
    /// No view is registered under the identifier.
    UnknownView,
    /// The frame does not hold exactly one layer.
    LayerCount,
    /// The layer shows a view of the platform's own.
    PlatformView,
    /// The layer's backing store is not plain memory.
    NotSoftware,
    /// The layer's backing store was drawn in another format than the
    /// session's.
    WrongPixelFormat,
    /// The engine holds no backing store at that address.
    UnknownBackingStore,
    /// A rectangle of the paint region does not lie on whole pixels.
    UnalignedDamage,
}

/// What the caller has to do to show a frame.
#[derive(Debug, PartialEq, Eq)]
pub struct Presentation {
    /// Ask the platform for a frame callback: none is outstanding.
    pub request_frame: bool,
    /// The address of the backing store whose buffer is attached.
    pub allocation: usize,
    /// The parts of the buffer to mark as damaged, in order.
    pub damage: Vec<Damage>,
    /// The width of the part of the buffer that is shown.
    pub source_width: u64,
    /// The height of the part of the buffer that is shown.
    pub source_height: u64,
}

/// The damage of the rectangles of `region`, one for one.
pub open spec fn damage_of(region: Seq<Rect>) -> Seq<Damage> {
    region.map_values(|rect: Rect| rect.damage())
}

/// Every rectangle of `region` lies on whole pixels.
pub open spec fn all_aligned(region: Seq<Rect>) -> bool {
    forall|i: int| 0 <= i < region.len() ==> (#[trigger] region[i]).is_aligned()
}

/// Turns a paint region into damage, or gives `None` where one of its
/// rectangles does not lie on whole pixels.
pub fn damage_region(region: &Vec<Rect>) -> (r: Option<Vec<Damage>>)
    ensures
        all_aligned(region@) ==> r.is_some() && r.unwrap()@ == damage_of(region@),
        !all_aligned(region@) ==> r.is_none(),
{
    let mut damage: Vec<Damage> = Vec::new();
    let mut i: usize = 0;
    while i < region.len()
        invariant
            i <= region.len(),
            all_aligned(region@.take(i as int)),
            damage@ == damage_of(region@.take(i as int)),
        decreases region.len() - i,
    {
        match region[i].to_damage() {
            Some(d) => {
                damage.push(d);
            },
            None => {
                return None;
            },
        }
        assert(damage@ =~= damage_of(region@.take(i + 1)));
        i += 1;
    }
    assert(region@.take(i as int) =~= region@);
    Some(damage)
}

/// Why the frame `layers` for `view_id` is refused, if it is: the first of
/// the checks that fails.
pub open spec fn present_error<B>(
    views: Map<i64, ViewEntry>,
    stores: Map<usize, B>,
    format: PixelFormat,
    view_id: ViewId,
    layers: Seq<CompositionLayer>,
) -> Option<PresentError> {
    if !views.contains_key(view_id.0) {
        Some(PresentError::UnknownView)
    } else if layers.len() != 1 {
        Some(PresentError::LayerCount)
    } else {
        match layers[0].content {
            LayerContent::PlatformView => Some(PresentError::PlatformView),
            LayerContent::BackingStore { store, paint_region } => match store {
                BackingStore::Other => Some(PresentError::NotSoftware),
                BackingStore::Software { allocation, pixel_format } => if pixel_format
                    != format.engine {
                    Some(PresentError::WrongPixelFormat)
                } else if !stores.contains_key(allocation) {
                    Some(PresentError::UnknownBackingStore)
                } else if !all_aligned(paint_region@) {
                    Some(PresentError::UnalignedDamage)
                } else {
                    None
                },
            },
        }
    }
}

/// Checks a frame that the engine wants shown and tells what to do for it.
///
/// A frame is shown only if its view is registered, it holds exactly one
/// layer, and that layer is a backing store of plain memory in the
/// session's pixel format which the engine holds, with a paint region on
/// whole pixels. A frame that is refused changes nothing: the registered
/// views are as they were, and the backing stores are only read.
///
/// For a frame that is shown, the view's surface is marked as waiting for
/// a frame callback, and the caller is told to request one unless one was
/// outstanding already.
pub fn present_view<B>(
    views: &mut ViewRegistry,
    stores: &BackingStores<B>,
    format: PixelFormat,
    view_id: ViewId,
    layers: &[CompositionLayer],
) -> (r: Result<Presentation, PresentError>)
    ensures
        final(views).next() == old(views).next(),
        match present_error(old(views)@, stores@, format, view_id, layers@) {
            Some(e) => r is Err && r.unwrap_err() == e && final(views)@ == old(views)@,
            None => {
                &&& r is Ok
                &&& layers@[0].content matches LayerContent::BackingStore { store, paint_region }
                &&& store matches BackingStore::Software { allocation, .. }
                &&& r.unwrap().allocation == allocation
                &&& r.unwrap().damage@ == damage_of(paint_region@)
                &&& r.unwrap().source_width == layers@[0].width
                &&& r.unwrap().source_height == layers@[0].height
                &&& r.unwrap().request_frame == !old(views)@[view_id.0].data.waiting_for_frame
                &&& final(views)@ == old(views)@.insert(
                    view_id.0,
                    ViewEntry {
                        data: SurfaceData {
                            waiting_for_frame: true,
                            ..old(views)@[view_id.0].data
                        },
                        ..old(views)@[view_id.0]
                    },
                )
            },
        },
{
    let mut data: SurfaceData = match views.lookup(view_id) {
        Some(entry) => entry.data,
        None => {
            return Err(PresentError::UnknownView);
        },
    };
    if layers.len() != 1 {
        return Err(PresentError::LayerCount);
    }
    let layer = &layers[0];
    let (store, paint_region) = match &layer.content {
        LayerContent::BackingStore { store, paint_region } => (*store, paint_region),
        LayerContent::PlatformView => {
            return Err(PresentError::PlatformView);
        },
    };
    let (allocation, pixel_format) = match store {
        BackingStore::Software { allocation, pixel_format } => (allocation, pixel_format),
        BackingStore::Other => {
            return Err(PresentError::NotSoftware);
        },
    };
    if pixel_format != format.engine {
        return Err(PresentError::WrongPixelFormat);
    }
    if stores.get(allocation).is_none() {
        return Err(PresentError::UnknownBackingStore);
    }
    let damage = match damage_region(paint_region) {
        Some(damage) => damage,
        None => {
            return Err(PresentError::UnalignedDamage);
        },
    };
    let was_waiting = data.swap_waiting_for_frame(true);
    views.store_data(view_id, data);
    Ok(
        Presentation {
            request_frame: !was_waiting,
            allocation,
            damage,
            source_width: layer.width,
            source_height: layer.height,
        },
    )
}

/// Takes the platform's frame callback for a view: its surface waits for
/// none any more. A callback for a view that has left changes nothing.
pub fn frame_done(views: &mut ViewRegistry, view_id: ViewId) -> (found: bool)
    ensures
        final(views).next() == old(views).next(),
        found == old(views)@.contains_key(view_id.0),
        found ==> final(views)@ == old(views)@.insert(
            view_id.0,
            ViewEntry {
                data: SurfaceData { waiting_for_frame: false, ..old(views)@[view_id.0].data },
                ..old(views)@[view_id.0]
            },
        ),
        !found ==> final(views)@ == old(views)@,
{
    let mut data: SurfaceData = match views.lookup(view_id) {
        Some(entry) => entry.data,
        None => {
            return false;
        },
    };
    data.swap_waiting_for_frame(false);
    views.store_data(view_id, data)
}

/// The prefix of the channels that the engine keeps for itself.
pub open spec fn engine_prefix() -> Seq<u8> {
    vstd::utf8::encode_utf8("flutter/"@)
}

/// Tells whether a message that failed to decode is worth a line in the
/// log: not if it came on one of the engine's own channels, which the
/// embedder has no business with.
pub fn reports_decode_failure(channel: &[u8]) -> (r: bool)
    ensures
        r == !engine_prefix().is_prefix_of(channel@),
{
    !starts_with(channel, "flutter/".as_bytes())
}

/// What to do with a message that the engine sent.
#[derive(Debug, PartialEq, Eq)]
pub enum Incoming {
    /// Hand the request to the platform thread, which runs it and answers.
    Forward(AnyPlatformRequest),
    /// Answer at once with nothing, and write the failure to the log if
    /// `report` says so.
    ReplyEmpty { report: bool, error: DecodeError },
}

/// Takes a message from the engine on the engine's thread. A message that
/// decodes is forwarded; any other is answered with nothing at once, so
/// that the engine can free what it holds for the answer. Either way the
/// caller wakes the event loop afterwards.
pub fn platform_message(channel: &[u8], message: &[u8]) -> (incoming: Incoming)
    ensures
        match message_of(channel@, message@) {
            Ok(request) => incoming matches Incoming::Forward(r) && r@ == request,
            Err(e) => incoming matches Incoming::ReplyEmpty { report, error } && error == e
                && report == !engine_prefix().is_prefix_of(channel@),
        },
{
    match AnyPlatformRequest::decode(channel, message) {
        Ok(request) => Incoming::Forward(request),
        Err(error) => Incoming::ReplyEmpty { report: reports_decode_failure(channel), error },
    }
}

/// How long to wait before a task that is due at `target_time` is run,
/// when the engine's clock stands at `now`: no time at all for a task that
/// is due already. Both are nanoseconds on the engine's clock.
pub fn task_delay(target_time: u64, now: u64) -> (delay: u64)
    ensures
        target_time > now ==> delay == target_time - now,
        target_time <= now ==> delay == 0,
{
    if target_time > now {
        target_time - now
    } else {
        0
    }
}

} // verus!
