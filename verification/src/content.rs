//! The cached child of a mouse area.
//!
//! The child is built by a function from [`MouseState`] to a subtree, the
//! builder. Building is the caller's work and may be costly, so the subtree
//! is kept together with the state it was built for and is built again only
//! for another state.
use vstd::prelude::*;
use crate::state::MouseState;

verus! {

/// What a mouse area has cached: nothing yet, or a subtree together with the
/// state it was built for.
pub enum Cache<T> {
    /// No subtree was built yet.
    Unresolved,
    /// `subtree` is shown for `state`.
    Resolved { state: MouseState, subtree: T },
}

impl<T> Cache<T> {
    /// The state that the cache stands for: the cached one, or the idle
    /// state while nothing is cached.
    pub open spec fn state(self) -> MouseState {
        match self {
            Cache::Resolved { state, .. } => state,
            Cache::Unresolved => MouseState::idle(),
        }
    }

    /// A subtree is cached, and it is the one for `state`.
    pub open spec fn holds(self, state: MouseState) -> bool {
        self is Resolved && self->state == state
    }

    /// The cache is coherent: whatever is cached is a subtree that `view`
    /// builds for the cached state.
    ///
    /// An empty cache is coherent, and so is all that [`Content::update`] and
    /// [`Content::resolve`] build. Only a caller who changes the subtree
    /// through the handle that it was given can leave the cache otherwise.
    pub open spec fn built_by<F: Fn(MouseState) -> T>(self, view: F) -> bool {
        self matches Cache::Resolved { state, subtree } ==> call_ensures(view, (state,), subtree)
    }

    /// `next` is what an update for `state` makes of this cache: the cache
    /// itself where it already holds `state`, and else a subtree that `view`
    /// has built for `state`.
    pub open spec fn updates_to<F: Fn(MouseState) -> T>(
        self,
        state: MouseState,
        view: F,
        next: Cache<T>,
    ) -> bool {
        if self.holds(state) {
            next == self
        } else {
            next.holds(state) && next.built_by(view)
        }
    }

    /// `next` is what resolving makes of this cache: the cache itself where
    /// it holds a subtree, and else the subtree that `view` has built for the
    /// idle state.
    pub open spec fn resolves_to<F: Fn(MouseState) -> T>(self, view: F, next: Cache<T>) -> bool {
        if self is Resolved {
            next == self
        } else {
            next.holds(MouseState::idle()) && next.built_by(view)
        }
    }
}

/// The cache itself.
pub struct Content<T> {
    mouse_state: MouseState,
    element: Option<T>,
}

impl<T> View for Content<T> {
    type V = Cache<T>;

    closed spec fn view(&self) -> Cache<T> {
        match self.element {
            Some(subtree) => Cache::Resolved { state: self.mouse_state, subtree },
            None => Cache::Unresolved,
        }
    }
}

impl<T> Content<T> {
    /// An empty cache.
    pub fn new() -> (content: Content<T>)
        ensures
            content@ == Cache::<T>::Unresolved,
    {
        Content { mouse_state: MouseState::default(), element: None }
    }

    /// Tells whether a subtree is cached.
    pub fn is_resolved(&self) -> (resolved: bool)
        ensures
            resolved == (self@ is Resolved),
    {
        self.element.is_some()
    }

    /// The state that the cache stands for.
    pub fn mouse_state(&self) -> (state: MouseState)
        ensures
            state == self@.state(),
    {
        if self.element.is_some() {
            self.mouse_state
        } else {
            MouseState::default()
        }
    }

    /// Makes the cache hold the subtree for `mouse_state`, and tells whether
    /// it had to build one.
    ///
    /// Nothing happens where the cache holds a subtree for that state
    /// already. Otherwise `view` builds one, which takes the place of what
    /// was cached.
    pub fn update<F: Fn(MouseState) -> T>(&mut self, mouse_state: MouseState, view: &F) -> (changed:
        bool)
        requires
            call_requires(*view, (mouse_state,)),
        ensures
            changed == !old(self)@.holds(mouse_state),
            old(self)@.updates_to(mouse_state, *view, final(self)@),
            final(self)@.holds(mouse_state),
            changed || old(self)@.built_by(*view) ==> final(self)@.built_by(*view),
    {
        if mouse_state == self.mouse_state && self.element.is_some() {
            return false;
        }
        self.mouse_state = mouse_state;
        self.element = Some(view(mouse_state));
        true
    }

    /// Hands out the cached subtree. Where none is cached yet, `view` first
    /// builds the one for the idle state.
    ///
    /// The subtree is handed out for the caller to work on: the cache keeps
    /// whatever the caller leaves in it, for the same state.
    pub fn resolve<F: Fn(MouseState) -> T>(&mut self, view: &F) -> (subtree: &mut T)
        requires
            old(self)@ is Unresolved ==> call_requires(*view, (MouseState::idle(),)),
        ensures
            old(self)@.resolves_to(
                *view,
                (Cache::Resolved { state: old(self)@.state(), subtree: *subtree }),
            ),
            old(self)@.built_by(*view) ==> call_ensures(*view, (old(self)@.state(),), *subtree),
            final(self)@ == (Cache::Resolved {
                state: old(self)@.state(),
                subtree: *final(subtree),
            }),
    {
        if self.element.is_none() {
            self.mouse_state = MouseState::default();
            self.element = Some(view(MouseState::default()));
        }
        self.element.as_mut().unwrap()
    }
}

} // verus!
