use webview_preview::{
    ChildViewport, ClientIdentity, CmdError, IdentifierAllocator, LoadTarget, Rect, ViewportKind,
    WindowState, create_window_with_viewport,
};

fn fresh_window() -> (IdentifierAllocator, WindowState) {
    let mut alloc = IdentifierAllocator::new();
    let w = create_window_with_viewport(&mut alloc, LoadTarget::Placeholder, ClientIdentity::Mobile);
    (alloc, w)
}

#[test]
fn create_window_defaults() {
    let (alloc, w) = fresh_window();
    assert_eq!(w.window_id, 0);
    assert_eq!(w.geometry, Rect { x: 100, y: 100, width: 375, height: 667 });
    assert!(w.always_on_top);
    assert_eq!(w.viewports.len(), 1);
    assert_eq!(w.viewports[0].kind, ViewportKind::Base { window_id: 0 });
    assert_eq!(w.viewports[0].geometry, Rect { x: 0, y: 0, width: 375, height: 617 });
    assert_eq!(w.viewports[0].target, LoadTarget::Placeholder);
    assert_eq!(w.viewports[0].identity, ClientIdentity::Mobile);
    assert_eq!(alloc.window_counter, 1);
    assert_eq!(alloc.recreation_counter, 0);
}

#[test]
fn created_windows_get_distinct_labels() {
    let mut alloc = IdentifierAllocator::new();
    let w0 = create_window_with_viewport(&mut alloc, LoadTarget::Placeholder, ClientIdentity::Mobile);
    let w1 = create_window_with_viewport(&mut alloc, LoadTarget::Placeholder, ClientIdentity::Mobile);
    let w2 = create_window_with_viewport(&mut alloc, LoadTarget::Placeholder, ClientIdentity::Desktop);
    assert_eq!(w0.window_id, 0);
    assert_eq!(w1.window_id, 1);
    assert_eq!(w2.window_id, 2);
    assert_ne!(w0.viewports[0].kind, w1.viewports[0].kind);
    assert_ne!(w1.viewports[0].kind, w2.viewports[0].kind);
    assert_ne!(w0.viewports[0].kind, w2.viewports[0].kind);
    // successive windows step diagonally so they do not perfectly overlap
    assert_eq!((w0.geometry.x, w0.geometry.y), (100, 100));
    assert_eq!((w1.geometry.x, w1.geometry.y), (130, 130));
    assert_eq!((w2.geometry.x, w2.geometry.y), (160, 160));
}

#[test]
fn switch_preserves_geometry_and_changes_label() {
    // one base viewport of size (375, 617) at (0, 0)
    let (mut alloc, mut w) = fresh_window();
    let old_kind = w.viewports[0].kind;
    let r = w.switch_client_identity(&mut alloc, false, "https://example.com/", true);
    assert_eq!(r, Ok(()));
    let active = w.find_active().expect("a recreated viewport must be active");
    assert_eq!(active.geometry, Rect { x: 0, y: 0, width: 375, height: 617 });
    assert_ne!(active.kind, old_kind);
    assert_eq!(active.kind, ViewportKind::Recreated { generation: 0 });
    assert_eq!(active.identity, ClientIdentity::Desktop);
}

#[test]
fn switch_supersedes_old_viewport_even_if_it_stays_attached() {
    // the host toolkit refused to close the old surface: it stays in the
    // set, but the locator must never hand it out again
    let (mut alloc, mut w) = fresh_window();
    let old_kind = w.viewports[0].kind;
    let r = w.switch_client_identity(&mut alloc, true, "", false);
    assert_eq!(r, Ok(()));
    assert_eq!(w.viewports.len(), 2);
    let active = w.find_active().expect("a recreated viewport must be active");
    assert_ne!(active.kind, old_kind);
    assert_eq!(active.kind, ViewportKind::Recreated { generation: 0 });
}

#[test]
fn switch_generations_increase_across_windows() {
    let mut alloc = IdentifierAllocator::new();
    let mut w0 = create_window_with_viewport(&mut alloc, LoadTarget::Placeholder, ClientIdentity::Mobile);
    let mut w1 = create_window_with_viewport(&mut alloc, LoadTarget::Placeholder, ClientIdentity::Mobile);
    assert_eq!(w0.switch_client_identity(&mut alloc, false, "", true), Ok(()));
    assert_eq!(w1.switch_client_identity(&mut alloc, true, "", true), Ok(()));
    assert_eq!(w0.switch_client_identity(&mut alloc, true, "", true), Ok(()));
    assert_eq!(w0.find_active().unwrap().kind, ViewportKind::Recreated { generation: 2 });
    assert_eq!(w1.find_active().unwrap().kind, ViewportKind::Recreated { generation: 1 });
    assert_eq!(alloc.recreation_counter, 3);
}

#[test]
fn switch_empty_url_loads_placeholder() {
    let (mut alloc, mut w) = fresh_window();
    let r = w.switch_client_identity(&mut alloc, true, "", true);
    assert_eq!(r, Ok(()));
    assert_eq!(w.find_active().unwrap().target, LoadTarget::Placeholder);
}

#[test]
fn switch_placeholder_url_loads_placeholder() {
    let (mut alloc, mut w) = fresh_window();
    let r = w.switch_client_identity(&mut alloc, true, "about:blank", true);
    assert_eq!(r, Ok(()));
    assert_eq!(w.find_active().unwrap().target, LoadTarget::Placeholder);
}

#[test]
fn switch_keeps_current_url() {
    let (mut alloc, mut w) = fresh_window();
    assert_eq!(w.navigate("https://example.com/page"), Ok(()));
    let r = w.switch_client_identity(&mut alloc, false, "https://example.com/page", true);
    assert_eq!(r, Ok(()));
    assert_eq!(
        w.find_active().unwrap().target,
        LoadTarget::Url(String::from("https://example.com/page"))
    );
}

#[test]
fn switch_invalid_url_fails_and_leaves_no_active_viewport() {
    let (mut alloc, mut w) = fresh_window();
    let r = w.switch_client_identity(&mut alloc, false, "not a url", true);
    assert_eq!(r, Err(CmdError::InvalidUrl));
    // the old surface was already detached; the counter already stepped
    assert!(w.find_active().is_none());
    assert_eq!(alloc.recreation_counter, 1);
}

#[test]
fn switch_without_viewports_reports_not_found() {
    let mut alloc = IdentifierAllocator::new();
    let mut w = WindowState {
        window_id: 0,
        geometry: Rect { x: 100, y: 100, width: 375, height: 667 },
        always_on_top: true,
        viewports: Vec::new(),
    };
    let r = w.switch_client_identity(&mut alloc, true, "https://example.com/", true);
    assert_eq!(r, Err(CmdError::ViewportNotFound));
    assert_eq!(alloc.recreation_counter, 0);
}

#[test]
fn navigate_sets_active_viewport_target() {
    let (_alloc, mut w) = fresh_window();
    assert_eq!(w.navigate("https://example.com/"), Ok(()));
    assert_eq!(
        w.find_active().unwrap().target,
        LoadTarget::Url(String::from("https://example.com/"))
    );
}

#[test]
fn navigate_rejects_malformed_url_and_changes_nothing() {
    let (_alloc, mut w) = fresh_window();
    assert_eq!(w.navigate("https://example.com/start"), Ok(()));
    let before = w.clone();
    assert_eq!(w.navigate("not a url"), Err(CmdError::InvalidUrl));
    assert_eq!(w, before);
    assert_eq!(
        w.find_active().unwrap().target,
        LoadTarget::Url(String::from("https://example.com/start"))
    );
}

#[test]
fn navigate_without_viewports_reports_not_found() {
    let mut w = WindowState {
        window_id: 4,
        geometry: Rect { x: 100, y: 100, width: 375, height: 667 },
        always_on_top: true,
        viewports: Vec::new(),
    };
    assert_eq!(w.navigate("https://example.com/"), Err(CmdError::ViewportNotFound));
}

#[test]
fn resize_viewport_twice_equals_once() {
    let (_alloc, mut once) = fresh_window();
    let mut twice = once.clone();
    assert_eq!(once.resize_viewport(400, 700), Ok(()));
    assert_eq!(twice.resize_viewport(400, 700), Ok(()));
    assert_eq!(twice.resize_viewport(400, 700), Ok(()));
    assert_eq!(once, twice);
    assert_eq!(once.find_active().unwrap().geometry, Rect { x: 0, y: 0, width: 400, height: 700 });
}

#[test]
fn resize_viewport_keeps_position() {
    let (_alloc, mut w) = fresh_window();
    assert_eq!(w.reposition_viewport(10, 20), Ok(()));
    assert_eq!(w.resize_viewport(500, 500), Ok(()));
    assert_eq!(w.find_active().unwrap().geometry, Rect { x: 10, y: 20, width: 500, height: 500 });
}

#[test]
fn resize_viewport_without_viewports_reports_not_found() {
    let mut w = WindowState {
        window_id: 9,
        geometry: Rect { x: 0, y: 0, width: 375, height: 667 },
        always_on_top: false,
        viewports: Vec::new(),
    };
    assert_eq!(w.resize_viewport(10, 10), Err(CmdError::ViewportNotFound));
}

#[test]
fn resize_window_leaves_viewport_alone() {
    let (_alloc, mut w) = fresh_window();
    assert_eq!(w.resize_window(800, 600), Ok(()));
    assert_eq!(w.geometry, Rect { x: 100, y: 100, width: 800, height: 600 });
    assert_eq!(w.viewports[0].geometry, Rect { x: 0, y: 0, width: 375, height: 617 });
}

#[test]
fn reposition_viewport_moves_active_only() {
    let (_alloc, mut w) = fresh_window();
    assert_eq!(w.reposition_viewport(-5, 40), Ok(()));
    assert_eq!(w.find_active().unwrap().geometry, Rect { x: -5, y: 40, width: 375, height: 617 });
    assert_eq!(w.geometry, Rect { x: 100, y: 100, width: 375, height: 667 });
}

#[test]
fn set_always_on_top_toggles_flag() {
    let (_alloc, mut w) = fresh_window();
    assert_eq!(w.set_always_on_top(false), Ok(()));
    assert!(!w.always_on_top);
    assert_eq!(w.set_always_on_top(true), Ok(()));
    assert!(w.always_on_top);
}

#[test]
fn run_script_and_devtools_need_an_active_viewport() {
    let (_alloc, w) = fresh_window();
    assert_eq!(w.run_script("document.title"), Ok(()));
    assert_eq!(w.open_devtools(), Ok(()));
    let empty = WindowState {
        window_id: 2,
        geometry: Rect { x: 0, y: 0, width: 375, height: 667 },
        always_on_top: true,
        viewports: Vec::new(),
    };
    assert_eq!(empty.run_script("1 + 1"), Err(CmdError::ViewportNotFound));
    assert_eq!(empty.open_devtools(), Err(CmdError::ViewportNotFound));
}

#[test]
fn allocator_streams_are_independent() {
    let mut alloc = IdentifierAllocator::new();
    assert_eq!(alloc.next_window_id(), 0);
    assert_eq!(alloc.next_recreation_id(), 0);
    assert_eq!(alloc.next_recreation_id(), 1);
    assert_eq!(alloc.next_window_id(), 1);
    assert_eq!(alloc.window_counter, 2);
    assert_eq!(alloc.recreation_counter, 2);
}

#[test]
fn stale_viewport_from_failed_close_is_removed_model() {
    // after a tolerated close failure the stale surface still counts in
    // the set, and a later successful switch removes the active one only
    let (mut alloc, mut w) = fresh_window();
    assert_eq!(w.switch_client_identity(&mut alloc, true, "", false), Ok(()));
    assert_eq!(w.viewports.len(), 2);
    assert_eq!(w.switch_client_identity(&mut alloc, true, "", true), Ok(()));
    assert_eq!(w.viewports.len(), 2);
    let kinds: Vec<ViewportKind> = w.viewports.iter().map(|v| v.kind).collect();
    assert!(kinds.contains(&ViewportKind::Base { window_id: 0 }));
    assert!(kinds.contains(&ViewportKind::Recreated { generation: 1 }));
    assert_eq!(w.find_active().unwrap().kind, ViewportKind::Recreated { generation: 1 });
}

#[test]
fn switch_applies_requested_identity() {
    let (mut alloc, mut w) = fresh_window();
    assert_eq!(w.switch_client_identity(&mut alloc, false, "", true), Ok(()));
    assert_eq!(w.find_active().unwrap().identity, ClientIdentity::Desktop);
    assert_eq!(w.switch_client_identity(&mut alloc, true, "", true), Ok(()));
    assert_eq!(w.find_active().unwrap().identity, ClientIdentity::Mobile);
}

#[test]
fn switch_after_reposition_preserves_moved_geometry() {
    let (mut alloc, mut w) = fresh_window();
    assert_eq!(w.reposition_viewport(7, 9), Ok(()));
    assert_eq!(w.resize_viewport(300, 500), Ok(()));
    assert_eq!(w.switch_client_identity(&mut alloc, true, "", true), Ok(()));
    assert_eq!(w.find_active().unwrap().geometry, Rect { x: 7, y: 9, width: 300, height: 500 });
}
