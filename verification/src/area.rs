//! The mouse area: a widget with one child, which it builds from the
//! interaction state.
//!
//! The host owns the tree, the layout and the events. It asks the area for
//! its child whenever it lays out, draws or walks the tree, and tells it of
//! every event together with the outcome of the hit test. The area answers
//! with the child to hand the event on to, and says when that child is new
//! and has to be laid out again.
use vstd::prelude::*;
use crate::content::{Cache, Content};
use crate::event::PointerEvent;
use crate::state::{MouseState, Tracker};

verus! {

/// A widget that shows what `view` builds for the current [`MouseState`].
pub struct MouseArea<T, F> {
    view: F,
    content: Content<T>,
}

impl<T, F: Fn(MouseState) -> T> MouseArea<T, F> {
    /// The builder of the child.
    pub closed spec fn builder(self) -> F {
        self.view
    }

    /// The area is well formed: its builder accepts every state.
    pub open spec fn wf(self) -> bool {
        forall|state: MouseState| call_requires(self.builder(), (state,))
    }

    /// What the area has cached.
    pub closed spec fn cache(self) -> Cache<T> {
        self.content@
    }

    /// The area is coherent: the child that it has cached, if any, is one
    /// that its builder builds for the cached state.
    ///
    /// A new area is coherent, and the area itself never ceases to be. The
    /// child is the host's to work on, though: an area whose child the host
    /// has changed is coherent only if the builder could have built the child
    /// as it then is.
    pub open spec fn coherent(self) -> bool {
        self.cache().built_by(self.builder())
    }

    /// A mouse area that shows what `view` builds. Nothing is built yet.
    pub fn new(view: F) -> (area: Self)
        requires
            forall|state: MouseState| call_requires(view, (state,)),
        ensures
            area.wf(),
            area.coherent(),
            area.builder() == view,
            area.cache() == Cache::<T>::Unresolved,
    {
        MouseArea { view, content: Content::new() }
    }

    /// The tracker with which the host starts where it mounts the area.
    pub fn state(&self) -> (tracker: Tracker)
        ensures
            tracker@ == MouseState::idle(),
    {
        Tracker::new()
    }

    /// Hands out the child as it is cached. Where none is cached yet, the
    /// one for the idle state is built first.
    ///
    /// Layout, drawing and every other walk of the tree go to this child: the
    /// area has no size and no looks of its own.
    pub fn resolve(&mut self) -> (child: &mut T)
        requires
            old(self).wf(),
        ensures
            final(self).wf(),
            final(self).builder() == old(self).builder(),
            old(self).cache().resolves_to(
                old(self).builder(),
                (Cache::Resolved { state: old(self).cache().state(), subtree: *child }),
            ),
            final(self).cache() == (Cache::Resolved {
                state: old(self).cache().state(),
                subtree: *final(child),
            }),
            old(self).coherent() ==> call_ensures(
                old(self).builder(),
                (old(self).cache().state(),),
                *child,
            ),
    {
        assert(call_requires(self.builder(), (MouseState::idle(),)));
        self.content.resolve(&self.view)
    }

    /// Brings the child up to date with the state that the host has kept,
    /// and hands it out for the host to match its own record of the tree
    /// against.
    pub fn diff(&mut self, tracker: &Tracker) -> (child: &T)
        requires
            old(self).wf(),
        ensures
            final(self).wf(),
            final(self).builder() == old(self).builder(),
            old(self).cache().updates_to(tracker@, old(self).builder(), final(self).cache()),
            final(self).cache().holds(tracker@),
            *child == final(self).cache()->subtree,
            old(self).coherent() ==> final(self).coherent(),
    {
        let state = tracker.mouse_state();
        assert(call_requires(self.builder(), (state,)));
        self.content.update(state, &self.view);
        self.content.resolve(&self.view)
    }

    /// The children of the area: always one, the child as it is cached.
    /// Where none is cached yet, the one for the idle state is built first.
    pub fn children(&mut self) -> (children: Vec<&T>)
        requires
            old(self).wf(),
        ensures
            final(self).wf(),
            final(self).builder() == old(self).builder(),
            old(self).cache().resolves_to(old(self).builder(), final(self).cache()),
            final(self).cache() is Resolved,
            children@.len() == 1,
            *children@[0] == final(self).cache()->subtree,
            old(self).coherent() ==> final(self).coherent(),
    {
        assert(call_requires(self.builder(), (MouseState::idle(),)));
        let child: &T = self.content.resolve(&self.view);
        vec![child]
    }

    /// Takes in an event. `inside` tells whether the pointer was within the
    /// bounds that the host gave the area when the event came.
    ///
    /// The tracker takes note of the event, and the child is brought up to
    /// date with the state that results. The area answers with the child, for
    /// the host to hand the event on to, and tells whether that child was
    /// built anew: if so, the host has to lay it out before it draws again.
    pub fn on_event(&mut self, tracker: &mut Tracker, event: PointerEvent, inside: bool) -> ((
        invalidated,
        child,
    ): (bool, &mut T))
        requires
            old(self).wf(),
        ensures
            final(self).wf(),
            final(self).builder() == old(self).builder(),
            final(tracker)@ == old(tracker)@.observed(event, inside),
            invalidated == !old(self).cache().holds(final(tracker)@),
            old(self).cache().updates_to(
                final(tracker)@,
                old(self).builder(),
                (Cache::Resolved { state: final(tracker)@, subtree: *child }),
            ),
            final(self).cache() == (Cache::Resolved {
                state: final(tracker)@,
                subtree: *final(child),
            }),
            invalidated || old(self).coherent() ==> call_ensures(
                old(self).builder(),
                (final(tracker)@,),
                *child,
            ),
    {
        tracker.observe(event, inside);
        let state = tracker.mouse_state();
        assert(call_requires(self.builder(), (state,)));
        let invalidated = self.content.update(state, &self.view);
        (invalidated, self.content.resolve(&self.view))
    }
}

} // verus!
