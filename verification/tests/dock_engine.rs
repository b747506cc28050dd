use swaydgets::commands::{focus_command, i64_to_string, u64_to_string};
use swaydgets::config::{CalendarConfig, Config, DockConfig, EdgeConfig, Position, Size};
use swaydgets::extract::extract_windows;
use swaydgets::icons::{contains_sub, get_icon_for_app, icon_for_lowered};
use swaydgets::layout::{
    anchor_pair, detector_size, dock_size, entry_layout, orientation_of, Orientation,
};
use swaydgets::registry::WindowRegistry;
use swaydgets::render::plan_dock_entries;
use swaydgets::tree::{NodeKind, WindowNode, WindowProps, WindowRecord};
use swaydgets::visibility::{CrossingDetail, VisibilityController, VisibilityState};

fn leaf(id: i64, app_id: Option<&str>, title: Option<&str>) -> WindowNode {
    WindowNode {
        id,
        node_type: NodeKind::Container,
        name: title.map(|t| t.to_string()),
        app_id: app_id.map(|a| a.to_string()),
        window_properties: None,
        focused: false,
        nodes: Vec::new(),
        floating_nodes: Vec::new(),
    }
}

fn extract(root: &WindowNode) -> Vec<WindowRecord> {
    let mut out = Vec::new();
    extract_windows(root, &mut out);
    out
}

#[test]
fn two_leaves_one_empty_title() {
    // Tree with two leaf windows; the second has an empty title and is still
    // extracted (its name is present), but the renderer skips it.
    let root = WindowNode {
        id: 0,
        node_type: NodeKind::Root,
        name: None,
        app_id: None,
        window_properties: None,
        focused: false,
        nodes: vec![
            leaf(1, Some("firefox"), Some("Mozilla Firefox")),
            leaf(2, Some("xterm"), Some("")),
        ],
        floating_nodes: Vec::new(),
    };
    let records = extract(&root);
    assert_eq!(records.len(), 2);
    assert_eq!(records[0].id, 1);
    assert_eq!(records[0].title, "Mozilla Firefox");
    assert_eq!(records[0].app_id, "firefox");

    let entries = plan_dock_entries(&records);
    assert_eq!(entries.len(), 1);
    assert_eq!(entries[0].id, 1);
    assert_eq!(entries[0].title, "Mozilla Firefox");
    assert_eq!(entries[0].icon, "firefox");
}

#[test]
fn extraction_order_depth_first() {
    // Depth-first, children before floating children, each subtree complete
    // before the next sibling.
    let mut a = leaf(1, Some("a"), Some("A"));
    a.nodes = vec![leaf(2, Some("b"), Some("B"))];
    a.floating_nodes = vec![leaf(3, Some("c"), Some("C"))];
    let b = leaf(4, Some("d"), Some("D"));
    let root = WindowNode {
        id: 0,
        node_type: NodeKind::Root,
        name: None,
        app_id: None,
        window_properties: None,
        focused: false,
        nodes: vec![a, b],
        floating_nodes: vec![leaf(5, Some("e"), Some("E"))],
    };
    let ids: Vec<i64> = extract(&root).iter().map(|r| r.id).collect();
    assert_eq!(ids, vec![1, 2, 3, 4, 5]);
}

#[test]
fn extraction_deterministic() {
    let build = || {
        let mut a = leaf(1, Some("a"), Some("A"));
        a.floating_nodes = vec![leaf(2, Some("b"), Some("B"))];
        a
    };
    let first: Vec<i64> = extract(&build()).iter().map(|r| r.id).collect();
    let second: Vec<i64> = extract(&build()).iter().map(|r| r.id).collect();
    assert_eq!(first, second);
}

#[test]
fn node_without_app_id_or_properties_excluded() {
    let mut bare = leaf(7, None, Some("Named but bare"));
    bare.window_properties = None;
    let records = extract(&bare);
    assert!(records.is_empty());
}

#[test]
fn node_without_name_excluded() {
    let node = leaf(8, Some("firefox"), None);
    assert!(extract(&node).is_empty());
}

#[test]
fn non_container_excluded() {
    let mut ws = leaf(9, Some("firefox"), Some("Workspace 1"));
    ws.node_type = NodeKind::Workspace;
    assert!(extract(&ws).is_empty());
}

#[test]
fn app_id_falls_back_to_window_class() {
    let mut node = leaf(10, None, Some("X11 window"));
    node.window_properties = Some(WindowProps { class: Some("XTerm".to_string()) });
    let records = extract(&node);
    assert_eq!(records.len(), 1);
    assert_eq!(records[0].app_id, "XTerm");
}

#[test]
fn app_id_falls_back_to_empty() {
    let mut node = leaf(11, None, Some("X11 window"));
    node.window_properties = Some(WindowProps { class: None });
    let records = extract(&node);
    assert_eq!(records.len(), 1);
    assert_eq!(records[0].app_id, "");
}

#[test]
fn focused_flag_carried() {
    let mut node = leaf(12, Some("code"), Some("editor"));
    node.focused = true;
    let records = extract(&node);
    assert!(records[0].focused);
}

#[test]
fn registry_starts_empty_and_replaces_wholesale() {
    let mut reg = WindowRegistry::new();
    assert_eq!(reg.len(), 0);
    assert!(reg.snapshot().is_empty());

    let records = extract(&leaf(1, Some("firefox"), Some("Mozilla Firefox")));
    reg.replace(records);
    assert_eq!(reg.len(), 1);
    let snap = reg.snapshot();
    assert_eq!(snap.len(), 1);
    assert_eq!(snap[0].id, 1);
    assert_eq!(snap[0].title, "Mozilla Firefox");

    reg.replace(Vec::new());
    assert_eq!(reg.len(), 0);
}

#[test]
fn registry_snapshot_is_a_copy() {
    let mut reg = WindowRegistry::new();
    reg.replace(extract(&leaf(1, Some("a"), Some("A"))));
    let mut snap = reg.snapshot();
    snap.clear();
    assert_eq!(reg.len(), 1);
}

#[test]
fn plan_resolves_icons_case_insensitively() {
    let records = extract(&leaf(3, Some("Firefox-Nightly"), Some("Nightly")));
    let entries = plan_dock_entries(&records);
    assert_eq!(entries.len(), 1);
    assert_eq!(entries[0].icon, "firefox");
}

#[test]
fn empty_registry_renders_zero_entries() {
    let entries = plan_dock_entries(&Vec::new());
    assert!(entries.is_empty());
}

#[test]
fn debounce_reentry_keeps_dock_visible() {
    // hide_timeout 300 ms: enter at 0, qualifying leave at 100 (deadline 400),
    // re-enter at 350; the dock is still visible at 500 even when the armed
    // callback fires.
    let mut c = VisibilityController::new(300);
    assert!(c.on_enter());
    assert_eq!(c.state, VisibilityState::Visible);
    let sched = c.on_leave(CrossingDetail::Nonlinear, 100).expect("hide must be armed");
    assert_eq!(sched.deadline, 400);
    assert_eq!(
        c.state,
        VisibilityState::PendingHide { deadline: 400, token: sched.token }
    );
    assert!(!c.on_enter());
    assert_eq!(c.state, VisibilityState::Visible);
    assert!(!c.on_timeout(sched.token, 400));
    assert!(!c.on_timeout(sched.token, 500));
    assert_eq!(c.state, VisibilityState::Visible);
}

#[test]
fn debounce_expiry_hides_exactly_once() {
    // Same episode without re-entry: hidden at 401, and only once.
    let mut c = VisibilityController::new(300);
    c.on_enter();
    let sched = c.on_leave(CrossingDetail::NonlinearVirtual, 100).expect("hide must be armed");
    assert!(!c.on_timeout(sched.token, 399));
    assert_eq!(
        c.state,
        VisibilityState::PendingHide { deadline: 400, token: sched.token }
    );
    assert!(c.on_timeout(sched.token, 401));
    assert_eq!(c.state, VisibilityState::Hidden);
    assert!(!c.on_timeout(sched.token, 402));
    assert_eq!(c.state, VisibilityState::Hidden);
}

#[test]
fn stale_token_never_hides() {
    // leave/enter/leave in quick succession: the first armed callback carries
    // a stale token and must not hide the dock armed by the second.
    let mut c = VisibilityController::new(300);
    c.on_enter();
    let first = c.on_leave(CrossingDetail::Ancestor, 100).expect("armed");
    c.on_enter();
    let second = c.on_leave(CrossingDetail::Ancestor, 200).expect("armed");
    assert_ne!(first.token, second.token);
    assert!(!c.on_timeout(first.token, 450));
    assert!(matches!(c.state, VisibilityState::PendingHide { .. }));
    assert!(c.on_timeout(second.token, 500));
    assert_eq!(c.state, VisibilityState::Hidden);
}

#[test]
fn nonqualifying_leave_is_ignored() {
    let mut c = VisibilityController::new(300);
    c.on_enter();
    assert!(c.on_leave(CrossingDetail::Inferior, 100).is_none());
    assert_eq!(c.state, VisibilityState::Visible);
    assert!(c.on_leave(CrossingDetail::Virtual, 100).is_none());
    assert_eq!(c.state, VisibilityState::Visible);
    assert!(c.on_leave(CrossingDetail::Unknown, 100).is_none());
    assert_eq!(c.state, VisibilityState::Visible);
}

#[test]
fn leave_while_hidden_is_ignored() {
    let mut c = VisibilityController::new(300);
    assert!(c.on_leave(CrossingDetail::Nonlinear, 100).is_none());
    assert_eq!(c.state, VisibilityState::Hidden);
}

#[test]
fn every_qualifying_detail_arms_a_hide() {
    for detail in [
        CrossingDetail::Nonlinear,
        CrossingDetail::NonlinearVirtual,
        CrossingDetail::Ancestor,
    ] {
        let mut c = VisibilityController::new(50);
        c.on_enter();
        let sched = c.on_leave(detail, 10).expect("armed");
        assert_eq!(sched.deadline, 60);
    }
}

#[test]
fn orientation_table() {
    assert_eq!(orientation_of(EdgeConfig::Left), Orientation::Vertical);
    assert_eq!(orientation_of(EdgeConfig::Right), Orientation::Vertical);
    assert_eq!(orientation_of(EdgeConfig::Top), Orientation::Horizontal);
    assert_eq!(orientation_of(EdgeConfig::Bottom), Orientation::Horizontal);
}

#[test]
fn anchor_table() {
    assert_eq!(anchor_pair(EdgeConfig::Left), (EdgeConfig::Top, EdgeConfig::Bottom));
    assert_eq!(anchor_pair(EdgeConfig::Right), (EdgeConfig::Top, EdgeConfig::Bottom));
    assert_eq!(anchor_pair(EdgeConfig::Top), (EdgeConfig::Left, EdgeConfig::Right));
    assert_eq!(anchor_pair(EdgeConfig::Bottom), (EdgeConfig::Left, EdgeConfig::Right));
}

#[test]
fn surface_sizes() {
    assert_eq!(dock_size(EdgeConfig::Bottom), (800, 60));
    assert_eq!(dock_size(EdgeConfig::Left), (60, 800));
    assert_eq!(detector_size(EdgeConfig::Top), (800, 1));
    assert_eq!(detector_size(EdgeConfig::Right), (1, 800));
}

#[test]
fn entry_layout_crosses_strip_axis() {
    assert_eq!(entry_layout(Orientation::Horizontal), Orientation::Vertical);
    assert_eq!(entry_layout(Orientation::Vertical), Orientation::Horizontal);
}

#[test]
fn icon_table_matches() {
    assert_eq!(get_icon_for_app("firefox"), "firefox");
    assert_eq!(get_icon_for_app("google-chrome-stable"), "google-chrome");
    assert_eq!(get_icon_for_app("org.gnome.Terminal"), "terminal");
    assert_eq!(get_icon_for_app("com.visualstudio.code"), "visual-studio-code");
    assert_eq!(get_icon_for_app("xterm"), "application-x-executable");
    assert_eq!(get_icon_for_app(""), "application-x-executable");
}

#[test]
fn icon_match_is_case_insensitive() {
    // Would fail if the case folding handed its input back unchanged.
    assert_eq!(get_icon_for_app("FIREFOX"), "firefox");
    assert_eq!(get_icon_for_app("Google-Chrome"), "google-chrome");
}

#[test]
fn icon_for_lowered_expects_folded_input() {
    assert_eq!(icon_for_lowered("firefox"), "firefox");
    assert_eq!(icon_for_lowered("FIREFOX"), "application-x-executable");
}

#[test]
fn substring_search() {
    assert!(contains_sub("hello world", "o w"));
    assert!(contains_sub("hello", ""));
    assert!(contains_sub("hello", "hello"));
    assert!(!contains_sub("hello", "hello!"));
    assert!(!contains_sub("short", "much longer needle"));
    assert!(!contains_sub("", "x"));
}

#[test]
fn decimal_formatting() {
    assert_eq!(u64_to_string(0), "0");
    assert_eq!(u64_to_string(7), "7");
    assert_eq!(u64_to_string(1234567890), "1234567890");
    assert_eq!(u64_to_string(u64::MAX), "18446744073709551615");
    assert_eq!(i64_to_string(-42), "-42");
    assert_eq!(i64_to_string(i64::MIN), "-9223372036854775808");
}

#[test]
fn focus_command_text() {
    assert_eq!(focus_command(42), "[con_id=42] focus");
    assert_eq!(focus_command(0), "[con_id=0] focus");
    assert_eq!(focus_command(-7), "[con_id=-7] focus");
}

#[test]
fn config_defaults() {
    let dock = DockConfig::default();
    assert!(!dock.enabled);
    assert_eq!(dock.edge, EdgeConfig::Bottom);
    assert_eq!(dock.hide_timeout, 300);

    let cal = CalendarConfig::default();
    assert!(cal.enabled);
    assert_eq!(cal.position, Position { x: 25, y: 25 });
    assert_eq!(cal.size, Size { width: 300, height: 250 });

    let config = Config::default();
    assert_eq!(config.dock, dock);
    assert_eq!(config.calendar, cal);
}
