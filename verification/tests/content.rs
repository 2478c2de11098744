use std::cell::Cell;

use mouse_area::{Content, MouseState};

fn state(hovered: bool, pressed: bool) -> MouseState {
    MouseState { hovered, pressed }
}

fn describe(state: MouseState) -> String {
    format!("hovered={} pressed={}", state.hovered, state.pressed)
}

#[test]
fn new_content_is_unresolved() {
    let content: Content<String> = Content::new();
    assert!(!content.is_resolved());
    assert_eq!(content.mouse_state(), MouseState::default());
}

#[test]
fn resolve_builds_for_the_idle_state() {
    let mut content = Content::new();
    assert_eq!(*content.resolve(&describe), "hovered=false pressed=false");
    assert!(content.is_resolved());
    assert_eq!(content.mouse_state(), MouseState::default());
}

#[test]
fn resolve_builds_once() {
    let built = Cell::new(0);
    let view = |state: MouseState| {
        built.set(built.get() + 1);
        describe(state)
    };
    let mut content = Content::new();
    content.resolve(&view);
    content.resolve(&view);
    content.resolve(&view);
    assert_eq!(built.get(), 1);
}

#[test]
fn first_update_builds_even_for_the_idle_state() {
    let mut content = Content::new();
    assert!(content.update(MouseState::default(), &describe));
    assert!(content.is_resolved());
    assert_eq!(*content.resolve(&describe), "hovered=false pressed=false");
}

#[test]
fn resolve_after_update_is_built_from_that_state() {
    for hovered in [false, true] {
        for pressed in [false, true] {
            let mut content = Content::new();
            content.update(state(!hovered, pressed), &describe);
            content.update(state(hovered, pressed), &describe);
            assert_eq!(content.mouse_state(), state(hovered, pressed));
            assert_eq!(*content.resolve(&describe), describe(state(hovered, pressed)));
        }
    }
}

#[test]
fn update_twice_builds_once() {
    let built = Cell::new(0);
    let view = |state: MouseState| {
        built.set(built.get() + 1);
        describe(state)
    };
    let mut content = Content::new();
    assert!(content.update(state(true, false), &view));
    assert!(!content.update(state(true, false), &view));
    assert_eq!(built.get(), 1);
    assert_eq!(*content.resolve(&view), "hovered=true pressed=false");
    assert_eq!(built.get(), 1);
}

#[test]
fn update_after_resolve_keeps_the_idle_subtree() {
    let built = Cell::new(0);
    let view = |state: MouseState| {
        built.set(built.get() + 1);
        describe(state)
    };
    let mut content = Content::new();
    content.resolve(&view);
    assert!(!content.update(MouseState::default(), &view));
    assert_eq!(built.get(), 1);
}

#[test]
fn update_for_another_state_rebuilds() {
    let mut content = Content::new();
    assert!(content.update(state(true, false), &describe));
    assert!(content.update(state(true, true), &describe));
    assert_eq!(*content.resolve(&describe), "hovered=true pressed=true");
    assert!(content.update(state(true, false), &describe));
    assert_eq!(*content.resolve(&describe), "hovered=true pressed=false");
}

#[test]
fn the_cache_keeps_what_the_caller_leaves_in_the_subtree() {
    let mut content = Content::new();
    content.update(state(true, false), &describe);
    content.resolve(&describe).push_str(" (focused)");
    assert!(!content.update(state(true, false), &describe));
    assert_eq!(*content.resolve(&describe), "hovered=true pressed=false (focused)");
    assert!(content.update(state(false, false), &describe));
    assert_eq!(*content.resolve(&describe), "hovered=false pressed=false");
}
