use wctx::display::XDisplay;
use wctx::service::{Signals, WindowsService};
use wctx::tracker::{
    ConfigureEvent, EnterStep, FocusStep, NotifyDetail, NotifyMode, Publication, Refetch, Refetched,
    Slot, Tracker, MOVE_DELAY_MS,
};
use wctx::types::{WindowContext, WindowProp, WindowState, WindowType};
use wctx::walk::TreeWalk;
use wctx::xwindow::{parse_wm_class, Atoms, RawAttributes, Rect, TypeAtoms, XWindow};

fn atoms() -> Atoms {
    Atoms {
        utf8_string: 1,
        active_window: 2,
        wm_name: 3,
        wm_pid: 4,
        wm_state: 5,
        wm_state_maximized_horz: 6,
        wm_state_maximized_vert: 7,
        wm_state_fullscreen: 8,
        wm_window_role: 9,
        wm_window_type: 10,
    }
}

fn type_atoms() -> TypeAtoms {
    TypeAtoms {
        combo: 100,
        desktop: 101,
        dialog: 102,
        dnd: 103,
        dock: 104,
        dropdown_menu: 105,
        menu: 106,
        normal: 107,
        notification: 108,
        popup_menu: 109,
        splash: 110,
        toolbar: 111,
        tooltip: 112,
        utility: 113,
    }
}

fn monitor(name: &str, x: i16, y: i16, w: u16, h: u16) -> XDisplay {
    XDisplay { name: name.to_string(), x, y, w, h }
}

fn two_monitors() -> Vec<XDisplay> {
    vec![monitor("DP-1", 0, 0, 1920, 1080), monitor("DP-2", 1920, 0, 1920, 1080)]
}

fn window(id: u32, top_id: u32, title: &str, display: &str) -> XWindow {
    XWindow {
        id,
        top_id,
        name: format!("app{}", id),
        class: format!("class{}", id),
        pid: 1000 + id,
        title: title.to_string(),
        window_type: WindowType::Normal,
        role: String::new(),
        state: WindowState::Normal,
        display: display.to_string(),
    }
}

fn tracker() -> Tracker {
    Tracker::new(atoms(), type_atoms(), two_monitors(), MOVE_DELAY_MS)
}

fn configure(window: u32, x: i16, y: i16) -> ConfigureEvent {
    ConfigureEvent { window, x, y, width: 800, height: 600, override_redirect: false }
}

#[test]
fn title_change_is_published_for_active() {
    let mut t = tracker();
    t.set_window(WindowContext::Active, window(42, 42, "A", "DP-1"));
    let mut service = WindowsService::new();
    let step = t.on_property(42, atoms().wm_name);
    assert_eq!(step, Some(Refetch::Title(42)));
    let prop = t.refetched_prop(&Refetched::Title(Some(b"B".to_vec())));
    let published = t.on_changed(42, prop);
    match published {
        Some(Publication::Update(ctx, key, value)) => {
            assert_eq!(ctx, WindowContext::Active);
            assert_eq!(key, WindowProp::Title);
            assert_eq!(value, "B");
            let signals = service.update_window(ctx, key.as_str(), &value).unwrap();
            assert_eq!(signals, Signals { active: true, pointer: false });
        }
        _ => panic!("expected a title update"),
    }
    assert_eq!(t.active_window.title, "B");
    assert_eq!(service.active_window.title, "B");
    // The same title again publishes nothing.
    let again = t.refetched_prop(&Refetched::Title(Some(b"B".to_vec())));
    assert!(t.on_changed(42, again).is_none());
}

#[test]
fn focus_to_new_window_resolves_and_publishes() {
    let mut t = tracker();
    t.set_window(WindowContext::Active, window(1, 1, "one", "DP-1"));
    t.set_window(WindowContext::Pointer, window(2, 2, "two", "DP-1"));
    let step = t.on_focus_in(3, NotifyMode::Normal, NotifyDetail::NonlinearVirtual);
    let target = match step {
        FocusStep::Resolve(w) => w,
        _ => panic!("expected a resolve step"),
    };
    assert_eq!(target, 3);
    // Window 3 has no class; its child 7 does.
    let mut walk = TreeWalk::new(target);
    let mut found = None;
    while let Some(node) = walk.next() {
        let class: &[u8] = if node == 7 { b"fx\0Firefox\0" } else { b"" };
        if let Some(m) = parse_wm_class(node, class) {
            found = Some(m);
            break;
        }
        let children = if node == 3 { vec![7] } else { vec![] };
        walk.descend(&children);
    }
    assert!(t.wants_attributes(Slot::Active, &found));
    let found = found.unwrap();
    assert_eq!(found.id, 7);
    let raw = RawAttributes {
        pid: Some(4242),
        title: Some("Mozilla Firefox".as_bytes().to_vec()),
        type_atom: Some(107),
        role: Some(b"browser".to_vec()),
        states: Some(vec![6, 7]),
        geometry: Some(Rect { x: 2000, y: 100, w: 800, h: 600 }),
    };
    let w = XWindow::new(found, target, &raw, &t.atoms, &t.types, &t.displays);
    let published = t.set_window(WindowContext::Active, w);
    match published {
        Publication::Replace(ctx, d) => {
            assert_eq!(ctx, WindowContext::Active);
            assert_eq!(d.id, "7");
            assert_eq!(d.name, "fx");
            assert_eq!(d.class, "firefox");
            assert_eq!(d.pid, 4242);
            assert_eq!(d.title, "Mozilla Firefox");
            assert_eq!(d.window_type, WindowType::Normal);
            assert_eq!(d.role, "browser");
            assert_eq!(d.state, WindowState::Maximized);
            assert_eq!(d.display, "DP-2");
        }
        _ => panic!("expected a replacement"),
    }
    assert_eq!(t.active_window.top_id, 3);
}

#[test]
fn focus_to_pointer_window_adopts_its_record() {
    let mut t = tracker();
    t.set_window(WindowContext::Active, window(1, 1, "one", "DP-1"));
    t.set_window(WindowContext::Pointer, window(2, 20, "two", "DP-2"));
    let step = t.on_focus_in(2, NotifyMode::Normal, NotifyDetail::NonlinearVirtual);
    match step {
        FocusStep::Publish(Publication::Replace(ctx, d)) => {
            assert_eq!(ctx, WindowContext::Active);
            assert_eq!(d.id, "2");
            assert_eq!(d.title, "two");
            assert_eq!(d.display, "DP-2");
        }
        _ => panic!("expected the pointer record to be adopted"),
    }
    assert_eq!(t.active_window.id, 2);
    assert_eq!(t.active_window.top_id, 20);
    assert_eq!(t.active_window.title, "two");
}

#[test]
fn geometry_burst_publishes_display_once() {
    let mut t = tracker();
    t.set_window(WindowContext::Active, window(5, 50, "w", "DP-1"));
    let mut published = Vec::new();
    for i in 0..10u64 {
        let x = 100 + 200 * i as i16;
        t.on_configure(configure(50, x, 100), i / 2);
        if let Some(p) = t.settle(Slot::Active, i / 2) {
            published.push(p);
        }
    }
    // Last geometry: x = 1900, center at 2300, on DP-2.
    assert!(t.settle(Slot::Active, 4 + MOVE_DELAY_MS - 1).is_none());
    if let Some(p) = t.settle(Slot::Active, 4 + MOVE_DELAY_MS) {
        published.push(p);
    }
    assert!(t.settle(Slot::Active, 100).is_none());
    assert_eq!(published.len(), 1);
    match &published[0] {
        Publication::Update(ctx, key, value) => {
            assert_eq!(*ctx, WindowContext::Active);
            assert_eq!(*key, WindowProp::Display);
            assert_eq!(value, "DP-2");
        }
        _ => panic!("expected a display update"),
    }
    assert_eq!(t.active_window.display, "DP-2");
}

#[test]
fn randr_change_remaps_displays() {
    let mut t = tracker();
    t.set_window(WindowContext::Active, window(5, 50, "w", "DP-1"));
    t.set_displays(vec![monitor("HDMI-1", 0, 0, 2560, 1440)]);
    t.on_configure(configure(50, 1000, 500), 0);
    let p = t.settle(Slot::Active, MOVE_DELAY_MS).expect("a display update");
    match p {
        Publication::Update(_, key, value) => {
            assert_eq!(key, WindowProp::Display);
            assert_eq!(value, "HDMI-1");
        }
        _ => panic!("expected a display update"),
    }
}

#[test]
fn coincident_contexts_update_both() {
    let mut t = tracker();
    t.set_window(WindowContext::Both, window(9, 9, "nine", "DP-1"));
    let mut service = WindowsService::new();
    assert_eq!(t.on_property(9, atoms().wm_state), Some(Refetch::State(9)));
    let prop = t.refetched_prop(&Refetched::State(Some(vec![8])));
    let published = t.on_changed(9, prop).expect("a state update");
    match published {
        Publication::Update(ctx, key, value) => {
            assert_eq!(ctx, WindowContext::Both);
            assert_eq!(key, WindowProp::State);
            assert_eq!(value, "FULLSCREEN");
            let signals = service.update_window(ctx, key.as_str(), &value).unwrap();
            assert_eq!(signals, Signals { active: true, pointer: true });
        }
        _ => panic!("expected a state update"),
    }
    assert_eq!(t.active_window.state, WindowState::Fullscreen);
    assert_eq!(t.pointer_window.state, WindowState::Fullscreen);
    assert_eq!(service.active_window.state, WindowState::Fullscreen);
    assert_eq!(service.pointer_window.state, WindowState::Fullscreen);
}

#[test]
fn pointer_update_on_shared_window_reaches_both() {
    let mut t = tracker();
    t.set_window(WindowContext::Both, window(9, 9, "nine", "DP-1"));
    t.pointer_window.title = "other".to_string();
    let prop = t.refetched_prop(&Refetched::Title(Some(b"nine".to_vec())));
    match t.on_changed(9, prop) {
        Some(Publication::Update(ctx, _, _)) => assert_eq!(ctx, WindowContext::Both),
        _ => panic!("expected an update for both"),
    }
    assert_eq!(t.pointer_window.title, "nine");
}

#[test]
fn override_redirect_windows_get_no_mask() {
    let t = tracker();
    assert_eq!(t.on_create(77, true), None);
    assert_eq!(t.on_create(77, false), Some(77));
}

#[test]
fn focus_other_than_handoff_changes_nothing() {
    let mut t = tracker();
    t.set_window(WindowContext::Active, window(1, 1, "one", "DP-1"));
    t.set_window(WindowContext::Pointer, window(2, 2, "two", "DP-1"));
    for (mode, detail) in [
        (NotifyMode::Grab, NotifyDetail::NonlinearVirtual),
        (NotifyMode::Normal, NotifyDetail::Nonlinear),
        (NotifyMode::WhileGrabbed, NotifyDetail::Inferior),
    ] {
        assert!(matches!(t.on_focus_in(2, mode, detail), FocusStep::Ignore));
        assert_eq!(t.active_window.id, 1);
    }
    // Focus on the active window itself is ignored too.
    assert!(matches!(
        t.on_focus_in(1, NotifyMode::Normal, NotifyDetail::NonlinearVirtual),
        FocusStep::Ignore
    ));
}

#[test]
fn enter_steps() {
    let mut t = tracker();
    t.set_window(WindowContext::Active, window(1, 10, "one", "DP-1"));
    t.set_window(WindowContext::Pointer, window(2, 20, "two", "DP-1"));
    assert_eq!(t.on_enter(20, 0), EnterStep::Ignore);
    assert_eq!(t.on_enter(5, 2), EnterStep::Ignore);
    assert_eq!(t.on_enter(10, 0), EnterStep::MeasureActive(1));
    assert_eq!(t.on_enter(30, 0), EnterStep::Resolve(30));
    let p = t.on_active_measured(Some(Rect { x: 2000, y: 0, w: 100, h: 100 }));
    match p {
        Publication::Replace(ctx, d) => {
            assert_eq!(ctx, WindowContext::Pointer);
            assert_eq!(d.id, "1");
            assert_eq!(d.display, "DP-2");
        }
        _ => panic!("expected a replacement"),
    }
    assert_eq!(t.active_window.display, "DP-1");
    assert_eq!(t.pointer_window.display, "DP-2");
}

#[test]
fn property_of_untracked_window_is_ignored() {
    let mut t = tracker();
    t.set_window(WindowContext::Active, window(1, 1, "one", "DP-1"));
    assert_eq!(t.on_property(99, atoms().wm_name), None);
    assert_eq!(t.on_property(1, 12345), None);
    assert_eq!(t.on_property(1, atoms().wm_window_role), Some(Refetch::Role(1)));
}

#[test]
fn configure_of_override_or_other_window_is_held_nowhere() {
    let mut t = tracker();
    t.set_window(WindowContext::Active, window(1, 10, "one", "DP-1"));
    let mut e = configure(10, 2000, 0);
    e.override_redirect = true;
    t.on_configure(e, 0);
    t.on_configure(configure(11, 2000, 0), 0);
    assert_eq!(t.next_deadline(), None);
    t.on_configure(configure(10, 2000, 0), 3);
    assert_eq!(t.next_deadline(), Some(3 + MOVE_DELAY_MS));
}

#[test]
fn missing_match_builds_empty_record() {
    let t = tracker();
    let raw = RawAttributes { pid: None, title: None, type_atom: None, role: None, states: None, geometry: None };
    let m = parse_wm_class(0, b"a\0b\0").unwrap();
    let w = XWindow::new(m, 5, &raw, &t.atoms, &t.types, &t.displays);
    assert_eq!(w.id, 0);
    assert_eq!(w.top_id, 0);
    assert_eq!(w.window_type, WindowType::Unset);
    assert_eq!(w.state, WindowState::Unset);
}

#[test]
fn absent_attributes_take_defaults() {
    let t = tracker();
    let raw = RawAttributes { pid: None, title: None, type_atom: Some(999), role: None, states: None, geometry: None };
    let m = parse_wm_class(8, b"a\0b\0").unwrap();
    let w = XWindow::new(m, 8, &raw, &t.atoms, &t.types, &t.displays);
    assert_eq!(w.pid, 0);
    assert_eq!(w.title, "");
    assert_eq!(w.window_type, WindowType::Unset);
    assert_eq!(w.state, WindowState::Normal);
    assert_eq!(w.display, "");
    let raw = RawAttributes { pid: None, title: Some(vec![0xff, 0xfe]), type_atom: None, role: None, states: None, geometry: None };
    let m = parse_wm_class(8, b"a\0b\0").unwrap();
    let w = XWindow::new(m, 8, &raw, &t.atoms, &t.types, &t.displays);
    assert_eq!(w.window_type, WindowType::Normal);
    assert_eq!(w.title, "");
    assert_eq!(w.as_dict().id, "8");
}
