//! The views that are registered, each with the kind of surface that shows
//! it and that surface's state.
//!
//! The registry is a map from view identifiers to entries, so a view is
//! registered at most once. A view leaves in two steps: first it is marked
//! as detaching and the engine is asked to let go of it; only the engine's
//! confirmation takes the entry out.

use vstd::prelude::*;
use std::collections::HashMap;
use crate::shell::compositor::SurfaceData;
use crate::view::{issued_id, following_id, ViewId, ViewIdCounter, IMPLICIT_VIEW};

verus! {

broadcast use vstd::std_specs::hash::group_hash_axioms;

/// The kinds of surface that can show a view.
#[derive(Clone, Copy, Debug, PartialEq, Eq, Structural)]
pub enum SurfaceKind {
    /// A surface anchored to an edge of the screen.
    WlrLayer,
    /// A top-level window.
    XdgToplevel,
    /// A transient popup.
    XdgPopup,
}

/// One registered view.
#[derive(Clone, Copy, Debug, PartialEq, Eq, Structural)]
pub struct ViewEntry {
    pub kind: SurfaceKind,
    pub data: SurfaceData,
    /// The engine was asked to let go of the view and has not confirmed.
    pub detaching: bool,
}

/// Why a view could not be registered.
#[derive(Clone, Copy, Debug, PartialEq, Eq, Structural)]
pub enum RegistryError {
    /// The counter has wrapped around onto an identifier that is still
    /// registered.
    IdInUse,
}

/// The registered views and the counter that names new ones.
pub struct ViewRegistry {
    views: HashMap<i64, ViewEntry>,
    counter: ViewIdCounter,
}

impl View for ViewRegistry {
    type V = Map<i64, ViewEntry>;

    closed spec fn view(&self) -> Map<i64, ViewEntry> {
        self.views@
    }
}

/// A counter that stands at `next` has not wrapped around, and every view
/// of `views` but the implicit one was named by it.
pub open spec fn fresh(views: Map<i64, ViewEntry>, next: i64) -> bool {
    &&& next >= 1
    &&& forall|id: i64| #[trigger] views.contains_key(id) ==> id == IMPLICIT_VIEW || 1 <= id < next
}

/// The entry of a view that was just created.
pub open spec fn fresh_entry(id: i64, kind: SurfaceKind) -> ViewEntry {
    ViewEntry {
        kind,
        data: SurfaceData::initial(ViewId(id), crate::shell::compositor::UNIT_SCALE),
        detaching: false,
    }
}

impl ViewRegistry {
    /// Where the counter stands.
    pub closed spec fn next(&self) -> i64 {
        self.counter.next()
    }

    /// The counter has not wrapped around, and every registered view but
    /// the implicit one was named by it.
    pub open spec fn is_fresh(&self) -> bool {
        fresh(self@, self.next())
    }

    /// A registry without views, whose first identifier is one.
    pub fn new() -> (registry: Self)
        ensures
            registry@ == Map::<i64, ViewEntry>::empty(),
            registry.next() == 1,
            registry.is_fresh(),
    {
        ViewRegistry { views: HashMap::new(), counter: ViewIdCounter::new() }
    }

    /// Hands out the next identifier. It is never the implicit view's.
    pub fn allocate_id(&mut self) -> (id: ViewId)
        ensures
            id.0 == issued_id(old(self).next()),
            !id.is_implicit(),
            final(self).next() == following_id(old(self).next()),
            final(self)@ == old(self)@,
    {
        self.counter.next_view_id()
    }

    /// Registers `entry` under `id` and hands back the entry that was
    /// registered under it before, if any.
    pub fn insert(&mut self, id: ViewId, entry: ViewEntry) -> (before: Option<ViewEntry>)
        ensures
            final(self)@ == old(self)@.insert(id.0, entry),
            final(self).next() == old(self).next(),
            before == (if old(self)@.contains_key(id.0) {
                Some(old(self)@[id.0])
            } else {
                None
            }),
    {
        self.views.insert(id.0, entry)
    }

    /// The entry of a view, if it is registered.
    pub fn lookup(&self, id: ViewId) -> (entry: Option<&ViewEntry>)
        ensures
            entry == (if self@.contains_key(id.0) {
                Some(&self@[id.0])
            } else {
                None
            }),
    {
        self.views.get(&id.0)
    }

    /// Takes a view out and hands back its entry, if it was registered.
    pub fn remove(&mut self, id: ViewId) -> (entry: Option<ViewEntry>)
        ensures
            final(self)@ == old(self)@.remove(id.0),
            final(self).next() == old(self).next(),
            entry == (if old(self)@.contains_key(id.0) {
                Some(old(self)@[id.0])
            } else {
                None
            }),
            old(self).is_fresh() ==> final(self).is_fresh(),
    {
        self.views.remove(&id.0)
    }

    /// Names a new view and registers a fresh surface of `kind` for it.
    ///
    /// The new view never takes the place of a registered one: where the
    /// counter has wrapped around onto an identifier that is still in use,
    /// nothing is registered. That cannot happen while the registry is
    /// fresh.
    pub fn register(&mut self, kind: SurfaceKind) -> (r: Result<ViewId, RegistryError>)
        ensures
            final(self).next() == following_id(old(self).next()),
            match r {
                Ok(id) => {
                    &&& id.0 == issued_id(old(self).next())
                    &&& !id.is_implicit()
                    &&& !old(self)@.contains_key(id.0)
                    &&& final(self)@ == old(self)@.insert(id.0, fresh_entry(id.0, kind))
                },
                Err(e) => {
                    &&& e == RegistryError::IdInUse
                    &&& old(self)@.contains_key(issued_id(old(self).next()))
                    &&& final(self)@ == old(self)@
                },
            },
            old(self).is_fresh() ==> r is Ok,
            old(self).is_fresh() && old(self).next() < i64::MAX ==> final(self).is_fresh(),
    {
        let id = self.counter.next_view_id();
        if self.views.contains_key(&id.0) {
            return Err(RegistryError::IdInUse);
        }
        let entry = ViewEntry { kind, data: SurfaceData::for_view(id), detaching: false };
        self.views.insert(id.0, entry);
        proof {
            if old(self).is_fresh() && old(self).next() < i64::MAX {
                assert forall|other: i64| #[trigger] self@.contains_key(other) implies other
                    == IMPLICIT_VIEW || 1 <= other < self.next() by {
                    if other != id.0 {
                        assert(old(self)@.contains_key(other));
                    }
                }
            }
        }
        Ok(id)
    }

    /// Replaces the surface state of a registered view. Tells whether the
    /// view was registered; if not, nothing changes.
    pub fn store_data(&mut self, id: ViewId, data: SurfaceData) -> (found: bool)
        ensures
            found == old(self)@.contains_key(id.0),
            final(self).next() == old(self).next(),
            found ==> final(self)@ == old(self)@.insert(
                id.0,
                ViewEntry { data, ..old(self)@[id.0] },
            ),
            !found ==> final(self)@ == old(self)@,
            old(self).is_fresh() ==> final(self).is_fresh(),
    {
        let entry = match self.views.get(&id.0) {
            Some(entry) => *entry,
            None => {
                return false;
            },
        };
        self.views.insert(id.0, ViewEntry { data, ..entry });
        true
    }

    /// Marks a view as detaching. Tells whether there was such a view that
    /// was not detaching yet; if not, nothing changes.
    pub fn begin_removal(&mut self, id: ViewId) -> (marked: bool)
        ensures
            marked == (old(self)@.contains_key(id.0) && !old(self)@[id.0].detaching),
            final(self).next() == old(self).next(),
            marked ==> final(self)@ == old(self)@.insert(
                id.0,
                ViewEntry { detaching: true, ..old(self)@[id.0] },
            ),
            !marked ==> final(self)@ == old(self)@,
            old(self).is_fresh() ==> final(self).is_fresh(),
    {
        let entry = match self.views.get(&id.0) {
            Some(entry) => *entry,
            None => {
                return false;
            },
        };
        if entry.detaching {
            return false;
        }
        self.views.insert(id.0, ViewEntry { detaching: true, ..entry });
        true
    }

    /// Takes the engine's confirmation that it let go of a view. The entry
    /// leaves the registry only if the view was marked as detaching; a
    /// confirmation for any other view changes nothing.
    pub fn finish_removal(&mut self, id: ViewId) -> (entry: Option<ViewEntry>)
        ensures
            final(self).next() == old(self).next(),
            old(self)@.contains_key(id.0) && old(self)@[id.0].detaching ==> entry == Some(
                old(self)@[id.0],
            ) && final(self)@ == old(self)@.remove(id.0),
            !(old(self)@.contains_key(id.0) && old(self)@[id.0].detaching) ==> entry.is_none()
                && final(self)@ == old(self)@,
            old(self).is_fresh() ==> final(self).is_fresh(),
    {
        let detaching = match self.views.get(&id.0) {
            Some(entry) => entry.detaching,
            None => false,
        };
        if detaching {
            self.views.remove(&id.0)
        } else {
            None
        }
    }
}

/// Something that happens to the registry.
pub ghost enum ViewOp {
    /// A view of this kind is created, as `ViewRegistry::register` does.
    Create(SurfaceKind),
    /// A view is asked to leave, as `ViewRegistry::begin_removal` does.
    Remove(ViewId),
    /// The engine confirms that it let go of a view, as
    /// `ViewRegistry::finish_removal` does.
    Confirm(ViewId),
}

/// The views and the counter after `op`.
pub open spec fn after_op(views: Map<i64, ViewEntry>, next: i64, op: ViewOp) -> (
    Map<i64, ViewEntry>,
    i64,
) {
    match op {
        ViewOp::Create(kind) => {
            let id = issued_id(next);
            if views.contains_key(id) {
                (views, following_id(next))
            } else {
                (views.insert(id, fresh_entry(id, kind)), following_id(next))
            }
        },
        ViewOp::Remove(id) => if views.contains_key(id.0) && !views[id.0].detaching {
            (views.insert(id.0, ViewEntry { detaching: true, ..views[id.0] }), next)
        } else {
            (views, next)
        },
        ViewOp::Confirm(id) => if views.contains_key(id.0) && views[id.0].detaching {
            (views.remove(id.0), next)
        } else {
            (views, next)
        },
    }
}

/// The views and the counter after `ops`, one after the other.
pub open spec fn after_ops(views: Map<i64, ViewEntry>, next: i64, ops: Seq<ViewOp>) -> (
    Map<i64, ViewEntry>,
    i64,
)
    decreases ops.len(),
{
    if ops.len() == 0 {
        (views, next)
    } else {
        let (before, counter) = after_ops(views, next, ops.drop_last());
        after_op(before, counter, ops.last())
    }
}

/// While the registry is fresh, the identifier that the counter hands out
/// next is not the implicit view's and names no registered view.
pub proof fn lemma_next_id_is_free(views: Map<i64, ViewEntry>, next: i64)
    requires
        fresh(views, next),
    ensures
        issued_id(next) != IMPLICIT_VIEW,
        !views.contains_key(issued_id(next)),
{
}

/// Whatever is created, removed and confirmed, in whatever order, a fresh
/// registry stays fresh as long as the counter does not run out. So every
/// view that is created gets an identifier that no registered view has:
/// no two views that are registered at the same time share one.
pub proof fn lemma_views_never_share_an_id(views: Map<i64, ViewEntry>, next: i64, ops: Seq<ViewOp>)
    requires
        fresh(views, next),
        next + ops.len() <= i64::MAX,
    ensures
        fresh(after_ops(views, next, ops).0, after_ops(views, next, ops).1),
        next <= after_ops(views, next, ops).1 <= next + ops.len(),
    decreases ops.len(),
{
    if ops.len() > 0 {
        lemma_views_never_share_an_id(views, next, ops.drop_last());
        let (before, counter) = after_ops(views, next, ops.drop_last());
        let (after, moved) = after_op(before, counter, ops.last());
        assert forall|id: i64| #[trigger] after.contains_key(id) implies id == IMPLICIT_VIEW || 1
            <= id < moved by {
            if id != issued_id(counter) {
                assert(before.contains_key(id));
            }
        }
    }
}

/// Creating a view leaves every registered view under its identifier, with
/// its entry as it was, and the new view has an identifier of its own.
pub proof fn lemma_register_keeps_views(
    before: Map<i64, ViewEntry>,
    id: i64,
    kind: SurfaceKind,
    other: i64,
)
    requires
        !before.contains_key(id),
        before.contains_key(other),
    ensures
        other != id,
        before.insert(id, fresh_entry(id, kind)).contains_key(other),
        before.insert(id, fresh_entry(id, kind))[other] == before[other],
        before.insert(id, fresh_entry(id, kind)).contains_key(id),
{
}

} // verus!
