//! What holds of a mouse area across calls.
use vstd::prelude::*;
use crate::content::Cache;
use crate::event::PointerEvent;
use crate::state::MouseState;

verus! {

/// Never stale: an update for a state that the cache does not hold builds
/// anew, whatever was cached. Resolving then builds nothing and hands out
/// the subtree that the builder has built for that very state, not one kept
/// from another state and not one built for the idle state before any event.
pub proof fn lemma_resolve_after_rebuild<T, F: Fn(MouseState) -> T>(
    view: F,
    before: Cache<T>,
    state: MouseState,
    updated: Cache<T>,
    resolved: Cache<T>,
)
    requires
        !before.holds(state),
        before.updates_to(state, view, updated),
        updated.resolves_to(view, resolved),
    ensures
        resolved == updated,
        resolved.holds(state),
        call_ensures(view, (state,), resolved->subtree),
{
}

/// Coherence: after an update for `state` on a coherent cache, resolving
/// builds nothing and hands out a subtree that the builder has built for
/// that very state.
///
/// Where the cache holds `state` already, the update keeps what is cached,
/// with all that the caller has done to it through the handle: it is for
/// this case that the cache has to be coherent beforehand.
pub proof fn lemma_resolve_after_update<T, F: Fn(MouseState) -> T>(
    view: F,
    before: Cache<T>,
    state: MouseState,
    updated: Cache<T>,
    resolved: Cache<T>,
)
    requires
        before.built_by(view),
        before.updates_to(state, view, updated),
        updated.resolves_to(view, resolved),
    ensures
        resolved == updated,
        resolved.holds(state),
        resolved.built_by(view),
        call_ensures(view, (state,), resolved->subtree),
{
}

/// With a builder that builds one subtree for each state, a coherent cache
/// that holds `state` holds the very subtree that the builder builds for it.
pub proof fn lemma_coherent_subtree_is_the_built_one<T, F: Fn(MouseState) -> T>(
    view: F,
    cache: Cache<T>,
    state: MouseState,
    built: T,
)
    requires
        forall|s: MouseState, a: T, b: T|
            call_ensures(view, (s,), a) && call_ensures(view, (s,), b) ==> a == b,
        cache.built_by(view),
        cache.holds(state),
        call_ensures(view, (state,), built),
    ensures
        cache == (Cache::Resolved { state, subtree: built }),
{
}

/// Resolving keeps a coherent cache coherent, and builds for the idle state
/// only where nothing is cached.
pub proof fn lemma_resolve_keeps_coherence<T, F: Fn(MouseState) -> T>(
    view: F,
    before: Cache<T>,
    after: Cache<T>,
)
    requires
        before.built_by(view),
        before.resolves_to(view, after),
    ensures
        after.built_by(view),
        after.holds(before.state()),
        before is Resolved ==> after == before,
{
}

/// Idempotence: of two updates in a row for the same state, the second finds
/// the cache holding that state, so it reports no change and leaves the cache
/// as the first one left it.
pub proof fn lemma_update_twice<T, F: Fn(MouseState) -> T>(
    view: F,
    before: Cache<T>,
    state: MouseState,
    once: Cache<T>,
    twice: Cache<T>,
)
    requires
        before.updates_to(state, view, once),
        once.updates_to(state, view, twice),
    ensures
        once.holds(state),
        twice == once,
{
}

/// An update changes the cache exactly where the cache does not hold the
/// state yet, and what it leaves is coherent where the cache was.
pub proof fn lemma_update_keeps_coherence<T, F: Fn(MouseState) -> T>(
    view: F,
    before: Cache<T>,
    state: MouseState,
    after: Cache<T>,
)
    requires
        before.built_by(view),
        before.updates_to(state, view, after),
    ensures
        after.built_by(view),
        after.holds(state),
        before.holds(state) ==> after == before,
{
}

/// Invalidation: where the cache holds the state that was tracked before an
/// event, it has to be rebuilt for the state after the event exactly when the
/// event changes the state.
pub proof fn lemma_rebuild_iff_state_changes<T>(
    cache: Cache<T>,
    before: MouseState,
    event: PointerEvent,
    inside: bool,
)
    requires
        cache.holds(before),
    ensures
        !cache.holds(before.observed(event, inside)) <==> before.observed(event, inside) != before,
{
}

/// The area is hovered exactly while the pointer is inside its bounds.
pub proof fn lemma_hover_follows_pointer(before: MouseState, event: PointerEvent, inside: bool)
    ensures
        before.observed(event, inside).hovered == inside,
{
}

/// A press inside the bounds sets the flag; one outside leaves it as it was.
pub proof fn lemma_press_starts_inside(before: MouseState, event: PointerEvent, inside: bool)
    requires
        event.is_press(),
    ensures
        inside ==> before.observed(event, inside).pressed,
        !inside ==> before.observed(event, inside).pressed == before.pressed,
{
}

/// A release clears the flag wherever the pointer is.
pub proof fn lemma_release_ends_press(before: MouseState, event: PointerEvent, inside: bool)
    requires
        event.is_release(),
    ensures
        !before.observed(event, inside).pressed,
{
}

/// No other event touches the flag: a pointer that leaves the bounds without
/// a release leaves the area pressed.
pub proof fn lemma_press_is_sticky(before: MouseState, event: PointerEvent, inside: bool)
    requires
        !event.is_press(),
        !event.is_release(),
    ensures
        before.observed(event, inside).pressed == before.pressed,
{
}

} // verus!
