//! The handle-ownership discipline: create once, destroy once, parents
//! outlive children, one image sequence at a time.

use libass::HandleTable;

#[test]
fn context_create_and_destroy_once() {
    let mut t = HandleTable::new();
    let ctx = t.create_context().unwrap();
    assert!(t.destroy_context(ctx).is_ok());
    // The second destroy of the same handle is refused deterministically.
    assert!(t.destroy_context(ctx).is_err());
}

#[test]
fn renderer_destroy_twice_refused() {
    let mut t = HandleTable::new();
    let ctx = t.create_context().unwrap();
    let r = t.create_renderer(ctx).unwrap();
    assert!(t.destroy_renderer(r).is_ok());
    assert!(t.destroy_renderer(r).is_err());
}

#[test]
fn track_destroy_twice_refused() {
    let mut t = HandleTable::new();
    let ctx = t.create_context().unwrap();
    let tr = t.create_track(ctx).unwrap();
    assert!(t.destroy_track(tr).is_ok());
    assert!(t.destroy_track(tr).is_err());
}

#[test]
fn context_outlives_its_children() {
    let mut t = HandleTable::new();
    let ctx = t.create_context().unwrap();
    let r = t.create_renderer(ctx).unwrap();
    let tr = t.create_track(ctx).unwrap();
    // While a renderer or track lives, the context cannot go.
    assert!(t.destroy_context(ctx).is_err());
    assert!(t.destroy_renderer(r).is_ok());
    assert!(t.destroy_context(ctx).is_err());
    assert!(t.destroy_track(tr).is_ok());
    assert!(t.destroy_context(ctx).is_ok());
}

#[test]
fn children_need_a_live_context() {
    let mut t = HandleTable::new();
    let ctx = t.create_context().unwrap();
    t.destroy_context(ctx).unwrap();
    assert!(t.create_renderer(ctx).is_err());
    assert!(t.create_track(ctx).is_err());
}

#[test]
fn second_image_sequence_refused_while_one_is_held() {
    let mut t = HandleTable::new();
    let ctx = t.create_context().unwrap();
    let r = t.create_renderer(ctx).unwrap();
    assert!(t.begin_frame(r).is_ok());
    // A second render call may not lend a sequence while one is out.
    assert!(t.begin_frame(r).is_err());
    assert!(t.end_frame(r).is_ok());
    assert!(t.begin_frame(r).is_ok());
    assert!(t.end_frame(r).is_ok());
}

#[test]
fn renderer_cannot_go_while_sequence_is_held() {
    let mut t = HandleTable::new();
    let ctx = t.create_context().unwrap();
    let r = t.create_renderer(ctx).unwrap();
    t.begin_frame(r).unwrap();
    assert!(t.destroy_renderer(r).is_err());
    t.end_frame(r).unwrap();
    assert!(t.destroy_renderer(r).is_ok());
}

#[test]
fn frame_needs_a_live_renderer() {
    let mut t = HandleTable::new();
    let ctx = t.create_context().unwrap();
    let r = t.create_renderer(ctx).unwrap();
    assert!(t.end_frame(r).is_err());
    t.destroy_renderer(r).unwrap();
    assert!(t.begin_frame(r).is_err());
}

#[test]
fn identifiers_are_never_reused() {
    let mut t = HandleTable::new();
    let c1 = t.create_context().unwrap();
    let r1 = t.create_renderer(c1).unwrap();
    t.destroy_renderer(r1).unwrap();
    let r2 = t.create_renderer(c1).unwrap();
    assert_ne!(r1, r2);
    let c2 = t.create_context().unwrap();
    assert_ne!(c1, c2);
}
