//! The running session: what platform requests and platform events do to
//! the registered views, and what the caller has to do on their behalf.
//!
//! Nothing here touches the windowing transport or the engine. Running a
//! request changes the session's own state and hands back the response
//! bytes with a list of effects, which the caller performs in order.

use vstd::prelude::*;
use crate::platform_message::binary::{le_bytes, BinaryWriter};
use crate::platform_message::wlr_layer::{Anchor, Layer};
use crate::platform_message::{AnyPlatformRequest, RequestView};
use crate::registry::{fresh_entry, RegistryError, SurfaceKind, ViewEntry, ViewRegistry};
use crate::shell::compositor::{EngineCall, LogicalSizeConstraints, Size, SurfaceData};
use crate::view::{following_id, issued_id, ViewId};

verus! {

/// Something that the caller has to do for a request.
#[derive(Clone, Copy, Debug, PartialEq, Eq, Structural)]
pub enum Effect {
    /// Stop the event loop, gracefully.
    StopLoop,
    /// Create a top-level window for the new view, decorated as the server
    /// prefers.
    CreateToplevel { view_id: ViewId },
    /// Create an anchored surface for the new view, with the namespace that
    /// the request holds.
    CreateLayerSurface { view_id: ViewId, layer: Layer },
    /// Commit the surface's pending state.
    Commit { view_id: ViewId },
    /// Set the window's title and application identifier to those that the
    /// request holds.
    SetTitleAndAppId { view_id: ViewId },
    /// Set the anchored surface's size and anchor.
    SetSizeAndAnchor { view_id: ViewId, width: u32, height: u32, anchor: Anchor },
    /// Set the window's smallest and largest size.
    SetSizeLimits { view_id: ViewId, min_width: i32, min_height: i32, max_width: i32, max_height: i32 },
    /// Multiply the constraints by the surface's scale factor and hand both
    /// to `Session::set_logical_size_constraints`.
    ApplyConstraints { view_id: ViewId, constraints: LogicalSizeConstraints },
    /// Ask the engine to let go of the view, and hand its confirmation to
    /// `Session::view_removed`.
    DetachView { view_id: ViewId },
}

/// Why a request could not be run.
#[derive(Clone, Copy, Debug, PartialEq, Eq, Structural)]
pub enum RunError {
    /// No view of the right kind is registered under the identifier that
    /// the request names, or it is already on its way out.
    ViewNotFound,
    /// No identifier is free for a new view.
    IdInUse,
}

/// What running a request gave.
#[derive(Debug, PartialEq, Eq)]
pub struct Outcome {
    /// The bytes to answer the engine with. May be empty.
    pub response: Vec<u8>,
    /// What the caller has to do, in order.
    pub effects: Vec<Effect>,
}

/// The answer to a request, whether it ran or not.
#[derive(Debug, PartialEq, Eq)]
pub struct Reply {
    /// The bytes to answer the engine with; empty after a failure.
    pub response: Vec<u8>,
    /// What the caller has to do, in order; nothing after a failure.
    pub effects: Vec<Effect>,
    /// Why the request failed, if it did.
    pub error: Option<RunError>,
}

/// What running a request gives and leaves behind.
pub ghost struct Plan {
    pub views: Map<i64, ViewEntry>,
    pub response: Seq<u8>,
    pub effects: Seq<Effect>,
}

/// The session's state, as far as requests and events read and change it.
pub struct Session {
    pub views: ViewRegistry,
    /// The event loop was asked to stop.
    pub stopped: bool,
}

/// A view of `kind` is registered under `id`.
pub open spec fn has_view(views: Map<i64, ViewEntry>, id: ViewId, kind: SurfaceKind) -> bool {
    views.contains_key(id.0) && views[id.0].kind == kind
}

/// What creating a view of `kind` gives, with `effect` for the caller.
pub open spec fn plan_create(
    views: Map<i64, ViewEntry>,
    next: i64,
    kind: SurfaceKind,
    effect: Effect,
) -> Result<Plan, RunError> {
    let id = issued_id(next);
    if views.contains_key(id) {
        Err(RunError::IdInUse)
    } else {
        Ok(
            Plan {
                views: views.insert(id, fresh_entry(id, kind)),
                response: le_bytes((id as u64) as nat, 8),
                effects: seq![effect],
            },
        )
    }
}

/// What asking a view of `kind` for `effects` gives.
pub open spec fn plan_update(
    views: Map<i64, ViewEntry>,
    id: ViewId,
    kind: SurfaceKind,
    effects: Seq<Effect>,
) -> Result<Plan, RunError> {
    if has_view(views, id, kind) {
        Ok(Plan { views, response: Seq::empty(), effects })
    } else {
        Err(RunError::ViewNotFound)
    }
}

/// What asking to take a view away gives.
pub open spec fn plan_remove(views: Map<i64, ViewEntry>, id: ViewId) -> Result<Plan, RunError> {
    if views.contains_key(id.0) && !views[id.0].detaching {
        Ok(
            Plan {
                views: views.insert(id.0, ViewEntry { detaching: true, ..views[id.0] }),
                response: Seq::empty(),
                effects: seq![Effect::DetachView { view_id: id }],
            },
        )
    } else {
        Err(RunError::ViewNotFound)
    }
}

/// The effects of new size constraints: the limits for the window, unless
/// a minimum lies above its maximum, then the constraints themselves.
pub open spec fn constraint_effects(id: ViewId, constraints: LogicalSizeConstraints) -> Seq<Effect> {
    let apply = Effect::ApplyConstraints { view_id: id, constraints };
    match constraints.wayland() {
        Some((min_width, min_height, max_width, max_height)) => seq![
            Effect::SetSizeLimits { view_id: id, min_width, min_height, max_width, max_height },
            apply,
        ],
        None => seq![apply],
    }
}

/// What running `request` gives when the registry holds `views` and its
/// counter stands at `next`.
pub open spec fn plan(request: RequestView, views: Map<i64, ViewEntry>, next: i64) -> Result<
    Plan,
    RunError,
> {
    match request {
        RequestView::Shutdown(_) => Ok(
            Plan { views, response: Seq::empty(), effects: seq![Effect::StopLoop] },
        ),
        RequestView::WlrLayerCreate(r) => plan_create(
            views,
            next,
            SurfaceKind::WlrLayer,
            Effect::CreateLayerSurface { view_id: ViewId(issued_id(next)), layer: r.layer },
        ),
        RequestView::WlrLayerUpdate(r) => plan_update(
            views,
            r.view_id,
            SurfaceKind::WlrLayer,
            seq![
                Effect::SetSizeAndAnchor {
                    view_id: r.view_id,
                    width: r.width,
                    height: r.height,
                    anchor: r.anchor,
                },
            ],
        ),
        RequestView::WlrLayerRemove(r) => plan_remove(views, r.view_id),
        RequestView::XdgToplevelCreate(_) => plan_create(
            views,
            next,
            SurfaceKind::XdgToplevel,
            Effect::CreateToplevel { view_id: ViewId(issued_id(next)) },
        ),
        RequestView::XdgToplevelInitialCommit(r) => plan_update(
            views,
            r.view_id,
            SurfaceKind::XdgToplevel,
            seq![Effect::Commit { view_id: r.view_id }],
        ),
        RequestView::XdgToplevelUpdate(r) => plan_update(
            views,
            r.view_id,
            SurfaceKind::XdgToplevel,
            seq![Effect::SetTitleAndAppId { view_id: r.view_id }],
        ),
        RequestView::XdgToplevelUpdateViewConstraints(r) => plan_update(
            views,
            r.view_id,
            SurfaceKind::XdgToplevel,
            constraint_effects(r.view_id, r.constraints),
        ),
        RequestView::XdgToplevelRemove(r) => plan_remove(views, r.view_id),
    }
}

/// The request names a new view, so running it moves the counter on.
pub open spec fn creates_view(request: RequestView) -> bool {
    request is WlrLayerCreate || request is XdgToplevelCreate
}

impl Session {
    /// A session without views that is running.
    pub fn new() -> (session: Self)
        ensures
            session.views@ == Map::<i64, ViewEntry>::empty(),
            session.views.next() == 1,
            session.views.is_fresh(),
            !session.stopped,
    {
        Session { views: ViewRegistry::new(), stopped: false }
    }

    /// Tells whether a view of `kind` is registered under `id`.
    fn has_view(&self, id: ViewId, kind: SurfaceKind) -> (r: bool)
        ensures
            r == has_view(self.views@, id, kind),
    {
        match self.views.lookup(id) {
            Some(entry) => entry.kind == kind,
            None => false,
        }
    }

    /// Names and registers a new view of `kind`, and encodes its identifier
    /// as the response.
    fn create(&mut self, kind: SurfaceKind) -> (r: Result<(ViewId, Vec<u8>), RunError>)
        ensures
            final(self).stopped == old(self).stopped,
            final(self).views.next() == following_id(old(self).views.next()),
            old(self).views.is_fresh() ==> r is Ok,
            old(self).views.is_fresh() && old(self).views.next() < i64::MAX ==> final(self).views.is_fresh(),
            match r {
                Ok((id, response)) => {
                    &&& id.0 == issued_id(old(self).views.next())
                    &&& !old(self).views@.contains_key(id.0)
                    &&& final(self).views@ == old(self).views@.insert(id.0, fresh_entry(id.0, kind))
                    &&& response@ == le_bytes((id.0 as u64) as nat, 8)
                },
                Err(e) => {
                    &&& e == RunError::IdInUse
                    &&& old(self).views@.contains_key(issued_id(old(self).views.next()))
                    &&& final(self).views@ == old(self).views@
                },
            },
    {
        match self.views.register(kind) {
            Ok(id) => {
                let mut writer = BinaryWriter::new();
                writer.write::<i64>(&id.0);
                let response = writer.into_bytes();
                assert(response@ =~= le_bytes((id.0 as u64) as nat, 8));
                Ok((id, response))
            },
            Err(RegistryError::IdInUse) => Err(RunError::IdInUse),
        }
    }

    /// Marks a view as detaching and asks the caller to detach it.
    fn remove(&mut self, id: ViewId) -> (r: Result<Outcome, RunError>)
        ensures
            final(self).stopped == old(self).stopped,
            final(self).views.next() == old(self).views.next(),
            old(self).views.is_fresh() ==> final(self).views.is_fresh(),
            match plan_remove(old(self).views@, id) {
                Ok(p) => r is Ok && final(self).views@ == p.views && r.unwrap().response@
                    == p.response && r.unwrap().effects@ == p.effects,
                Err(e) => r is Err && r.unwrap_err() == e && final(self).views@ == old(self).views@,
            },
    {
        if self.views.begin_removal(id) {
            let mut effects: Vec<Effect> = Vec::new();
            effects.push(Effect::DetachView { view_id: id });
            assert(effects@ =~= seq![Effect::DetachView { view_id: id }]);
            Ok(Outcome { response: Vec::new(), effects })
        } else {
            Err(RunError::ViewNotFound)
        }
    }

    /// Hands out `effects` for a registered view of `kind`.
    fn update(&self, id: ViewId, kind: SurfaceKind, effects: Vec<Effect>) -> (r: Result<
        Outcome,
        RunError,
    >)
        ensures
            match plan_update(self.views@, id, kind, effects@) {
                Ok(p) => r is Ok && r.unwrap().response@ == p.response && r.unwrap().effects@
                    == p.effects,
                Err(e) => r is Err && r.unwrap_err() == e,
            },
    {
        if self.has_view(id, kind) {
            Ok(Outcome { response: Vec::new(), effects })
        } else {
            Err(RunError::ViewNotFound)
        }
    }

    /// Runs a request against the session.
    ///
    /// On success the session has changed as the request asks, and the
    /// outcome holds the response for the engine and the effects for the
    /// caller. On failure the registered views are as they were; the caller
    /// still owes the engine an empty response.
    pub fn run(&mut self, request: &AnyPlatformRequest) -> (r: Result<Outcome, RunError>)
        ensures
            match plan(request@, old(self).views@, old(self).views.next()) {
                Ok(p) => r is Ok && final(self).views@ == p.views && r.unwrap().response@
                    == p.response && r.unwrap().effects@ == p.effects,
                Err(e) => r is Err && r.unwrap_err() == e && final(self).views@ == old(self).views@,
            },
            final(self).stopped == (old(self).stopped || (r is Ok && request@ is Shutdown)),
            final(self).views.next() == (if creates_view(request@) {
                following_id(old(self).views.next())
            } else {
                old(self).views.next()
            }),
            old(self).views.is_fresh() && old(self).views.next() < i64::MAX ==> final(self).views.is_fresh(),
            old(self).views.is_fresh() && creates_view(request@) ==> r is Ok,
    {
        match request {
            AnyPlatformRequest::Shutdown(_) => {
                self.stopped = true;
                Ok(Outcome { response: Vec::new(), effects: one(Effect::StopLoop) })
            },
            AnyPlatformRequest::WlrLayerCreate(r) => {
                let (view_id, response) = self.create(SurfaceKind::WlrLayer)?;
                let effect = Effect::CreateLayerSurface { view_id, layer: r.layer };
                Ok(Outcome { response, effects: one(effect) })
            },
            AnyPlatformRequest::WlrLayerUpdate(r) => {
                let effect = Effect::SetSizeAndAnchor {
                    view_id: r.view_id,
                    width: r.width,
                    height: r.height,
                    anchor: r.anchor,
                };
                self.update(r.view_id, SurfaceKind::WlrLayer, one(effect))
            },
            AnyPlatformRequest::WlrLayerRemove(r) => self.remove(r.view_id),
            AnyPlatformRequest::XdgToplevelCreate(_) => {
                let (view_id, response) = self.create(SurfaceKind::XdgToplevel)?;
                Ok(Outcome { response, effects: one(Effect::CreateToplevel { view_id }) })
            },
            AnyPlatformRequest::XdgToplevelInitialCommit(r) => {
                let effect = Effect::Commit { view_id: r.view_id };
                self.update(r.view_id, SurfaceKind::XdgToplevel, one(effect))
            },
            AnyPlatformRequest::XdgToplevelUpdate(r) => {
                let effect = Effect::SetTitleAndAppId { view_id: r.view_id };
                self.update(r.view_id, SurfaceKind::XdgToplevel, one(effect))
            },
            AnyPlatformRequest::XdgToplevelUpdateViewConstraints(r) => {
                let mut effects: Vec<Effect> = Vec::new();
                match r.constraints.to_wayland_constraints() {
                    Some((min_width, min_height, max_width, max_height)) => {
                        effects.push(
                            Effect::SetSizeLimits {
                                view_id: r.view_id,
                                min_width,
                                min_height,
                                max_width,
                                max_height,
                            },
                        );
                    },
                    None => {},
                }
                effects.push(
                    Effect::ApplyConstraints { view_id: r.view_id, constraints: r.constraints },
                );
                assert(effects@ =~= constraint_effects(r.view_id, r.constraints));
                self.update(r.view_id, SurfaceKind::XdgToplevel, effects)
            },
            AnyPlatformRequest::XdgToplevelRemove(r) => self.remove(r.view_id),
        }
    }

    /// Runs a request and gives the bytes that the engine is answered
    /// with. The engine holds memory for every message until it is
    /// answered, so there is always an answer: that of the request where it
    /// ran, and an empty one, with the reason, where it failed.
    pub fn answer(&mut self, request: &AnyPlatformRequest) -> (reply: Reply)
        ensures
            match plan(request@, old(self).views@, old(self).views.next()) {
                Ok(p) => {
                    &&& reply.error.is_none()
                    &&& reply.response@ == p.response
                    &&& reply.effects@ == p.effects
                    &&& final(self).views@ == p.views
                },
                Err(e) => {
                    &&& reply.error == Some(e)
                    &&& reply.response@ == Seq::<u8>::empty()
                    &&& reply.effects@ == Seq::<Effect>::empty()
                    &&& final(self).views@ == old(self).views@
                },
            },
            final(self).stopped == (old(self).stopped || (reply.error.is_none()
                && request@ is Shutdown)),
            final(self).views.next() == (if creates_view(request@) {
                following_id(old(self).views.next())
            } else {
                old(self).views.next()
            }),
    {
        match self.run(request) {
            Ok(outcome) => Reply {
                response: outcome.response,
                effects: outcome.effects,
                error: None,
            },
            Err(e) => Reply { response: Vec::new(), effects: Vec::new(), error: Some(e) },
        }
    }

    /// Takes the engine's confirmation that it let go of a view, and only
    /// then takes the view out of the registry. A confirmation for a view
    /// that was not on its way out changes nothing.
    pub fn view_removed(&mut self, id: ViewId) -> (entry: Option<ViewEntry>)
        ensures
            final(self).stopped == old(self).stopped,
            final(self).views.next() == old(self).views.next(),
            old(self).views@.contains_key(id.0) && old(self).views@[id.0].detaching ==> entry
                == Some(old(self).views@[id.0]) && final(self).views@ == old(self).views@.remove(
                id.0,
            ),
            !(old(self).views@.contains_key(id.0) && old(self).views@[id.0].detaching)
                ==> entry.is_none() && final(self).views@ == old(self).views@,
            old(self).views.is_fresh() ==> final(self).views.is_fresh(),
    {
        self.views.finish_removal(id)
    }

    /// Applies a physical size to a view's surface, as
    /// `SurfaceData::set_physical_size` does, and tells what to ask of the
    /// engine. Bounds that contradict each other fail nothing: they give
    /// the size that `PhysicalSizeConstraints::constrained` says.
    pub fn set_physical_size(
        &mut self,
        id: ViewId,
        size: Size,
        scaled: Option<LogicalSizeConstraints>,
    ) -> (r: Result<EngineCall, RunError>)
        ensures
            final(self).stopped == old(self).stopped,
            final(self).views.next() == old(self).views.next(),
            old(self).views@.contains_key(id.0) ==> ({
                let entry = old(self).views@[id.0];
                let (data, call) = entry.data.after_physical_size(size, scaled);
                &&& r == Ok::<EngineCall, RunError>(call)
                &&& final(self).views@ == old(self).views@.insert(
                    id.0,
                    ViewEntry { data, ..entry },
                )
            }),
            !old(self).views@.contains_key(id.0) ==> r == Err::<EngineCall, RunError>(
                RunError::ViewNotFound,
            ) && final(self).views@ == old(self).views@,
    {
        let mut data: SurfaceData = match self.views.lookup(id) {
            Some(entry) => entry.data,
            None => {
                return Err(RunError::ViewNotFound);
            },
        };
        let call = data.set_physical_size(size, scaled);
        self.views.store_data(id, data);
        Ok(call)
    }

    /// Stores new logical constraints for a view's surface, as
    /// `SurfaceData::set_logical_size_constraints` does, and tells what to
    /// ask of the engine.
    pub fn set_logical_size_constraints(
        &mut self,
        id: ViewId,
        constraints: LogicalSizeConstraints,
        scaled: LogicalSizeConstraints,
    ) -> (r: Result<EngineCall, RunError>)
        ensures
            final(self).stopped == old(self).stopped,
            final(self).views.next() == old(self).views.next(),
            old(self).views@.contains_key(id.0) ==> ({
                let entry = old(self).views@[id.0];
                let (data, call) = entry.data.after_logical_size_constraints(constraints, scaled);
                &&& r == Ok::<EngineCall, RunError>(call)
                &&& final(self).views@ == old(self).views@.insert(
                    id.0,
                    ViewEntry { data, ..entry },
                )
            }),
            !old(self).views@.contains_key(id.0) ==> r == Err::<EngineCall, RunError>(
                RunError::ViewNotFound,
            ) && final(self).views@ == old(self).views@,
    {
        let mut data: SurfaceData = match self.views.lookup(id) {
            Some(entry) => entry.data,
            None => {
                return Err(RunError::ViewNotFound);
            },
        };
        let call = data.set_logical_size_constraints(constraints, scaled);
        self.views.store_data(id, data);
        Ok(call)
    }

    /// Takes the engine's answer to an `AddView`. An answer for a view that
    /// has left the registry in the meantime changes nothing.
    pub fn add_view_completed(&mut self, id: ViewId, success: bool)
        ensures
            final(self).stopped == old(self).stopped,
            final(self).views.next() == old(self).views.next(),
            old(self).views@.contains_key(id.0) && !success ==> ({
                let entry = old(self).views@[id.0];
                final(self).views@ == old(self).views@.insert(
                    id.0,
                    ViewEntry { data: entry.data.after_add_view(false), ..entry },
                )
            }),
            !old(self).views@.contains_key(id.0) || success ==> final(self).views@ == old(self).views@,
    {
        if success {
            return ;
        }
        let mut data: SurfaceData = match self.views.lookup(id) {
            Some(entry) => entry.data,
            None => {
                return ;
            },
        };
        data.add_view_completed(success);
        self.views.store_data(id, data);
    }
}

/// The list that holds `effect` alone.
fn one(effect: Effect) -> (effects: Vec<Effect>)
    ensures
        effects@ == seq![effect],
{
    let mut effects: Vec<Effect> = Vec::new();
    effects.push(effect);
    assert(effects@ =~= seq![effect]);
    effects
}

} // verus!
