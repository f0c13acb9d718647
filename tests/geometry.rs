use wctx::debouncer::Debouncer;
use wctx::display::{calc_window_display, pick_display, XDisplay};
use wctx::walk::TreeWalk;
use wctx::xwindow::{
    cascade_descends, is_app_window, parse_wm_class, property_text, resolve_step, Atoms, ResolveStep, TypeAtoms,
};
use wctx::types::{WindowState, WindowType};

fn monitor(name: &str, x: i16, y: i16, w: u16, h: u16) -> XDisplay {
    XDisplay { name: name.to_string(), x, y, w, h }
}

fn atoms() -> Atoms {
    Atoms {
        utf8_string: 1,
        active_window: 2,
        wm_name: 3,
        wm_pid: 4,
        wm_state: 5,
        wm_state_maximized_horz: 6,
        wm_state_maximized_vert: 7,
        wm_state_fullscreen: 8,
        wm_window_role: 9,
        wm_window_type: 10,
    }
}

#[test]
fn display_of_center_point() {
    let ds = vec![monitor("DP-1", 0, 0, 1920, 1080), monitor("DP-2", 1920, 0, 1920, 1080)];
    assert_eq!(calc_window_display(&ds, 100, 100, 800, 600), "DP-1");
    // Mostly on DP-1 by area, but the center is on DP-2.
    assert_eq!(calc_window_display(&ds, 1500, 0, 900, 400), "DP-2");
    assert_eq!(pick_display(&ds, 1919, 0, 0, 0), Some(0));
    assert_eq!(pick_display(&ds, 1920, 0, 0, 0), Some(1));
}

#[test]
fn display_of_largest_overlap() {
    let ds = vec![monitor("A", 0, 0, 100, 100), monitor("B", 200, 0, 100, 100)];
    // Center (180, 50) is between the two; 20 columns on A, 80 on B.
    assert_eq!(calc_window_display(&ds, 80, 0, 200, 100), "B");
    // Equal overlaps go to the first monitor.
    assert_eq!(calc_window_display(&ds, 60, 0, 180, 100), "A");
}

#[test]
fn display_of_nothing() {
    let ds = vec![monitor("A", 0, 0, 100, 100)];
    assert_eq!(calc_window_display(&ds, 500, 500, 10, 10), "");
    assert_eq!(calc_window_display(&Vec::new(), 0, 0, 10, 10), "");
    assert_eq!(pick_display(&ds, -50, -50, 20, 20), None);
}

#[test]
fn display_of_overlapping_monitors_goes_to_the_first() {
    let ds = vec![monitor("mirror", 0, 0, 1920, 1080), monitor("main", 0, 0, 1920, 1080)];
    assert_eq!(calc_window_display(&ds, 10, 10, 100, 100), "mirror");
}

#[test]
fn display_from_name_bytes() {
    let d = XDisplay::from_name_bytes(b"eDP-1", 0, 0, 1, 1).unwrap();
    assert_eq!(d.name, "eDP-1");
    assert!(XDisplay::from_name_bytes(&[0xc3], 0, 0, 1, 1).is_none());
}

#[test]
fn debouncer_yields_last_of_burst() {
    let mut d: Debouncer<u32> = Debouncer::new(15);
    for (i, t) in [0u64, 3, 6, 9, 12, 14].iter().enumerate() {
        d.push(i as u32, *t);
        assert_eq!(d.next(*t + 1), None);
    }
    assert_eq!(d.deadline(), Some(29));
    assert_eq!(d.next(28), None);
    assert_eq!(d.next(29), Some(5));
    assert_eq!(d.next(1000), None);
    assert_eq!(d.deadline(), None);
}

#[test]
fn debouncer_rearms_after_yield() {
    let mut d: Debouncer<&str> = Debouncer::new(10);
    d.push("a", 0);
    assert_eq!(d.next(10), Some("a"));
    d.push("b", 50);
    d.push("c", 55);
    assert_eq!(d.next(64), None);
    assert_eq!(d.next(65), Some("c"));
}

#[test]
fn debouncer_deadline_saturates() {
    let mut d: Debouncer<u8> = Debouncer::new(10);
    d.push(1, u64::MAX - 3);
    assert_eq!(d.deadline(), Some(u64::MAX));
}

#[test]
fn wm_class_names_are_tokens() {
    let m = parse_wm_class(5, b"My App\0Some Class\0").unwrap();
    assert_eq!(m.id, 5);
    assert_eq!(m.name, "my-app");
    assert_eq!(m.class, "some-class");
    let m = parse_wm_class(5, "Éclair X\0Ünï Code\0".as_bytes()).unwrap();
    assert_eq!(m.name, "Éclair-x");
    assert_eq!(m.class, "Ünï-code");
}

#[test]
fn wm_class_edge_cases() {
    assert!(parse_wm_class(1, b"").is_none());
    assert!(parse_wm_class(1, b"noseparator").is_none());
    let m = parse_wm_class(1, b"inst\0").unwrap();
    assert_eq!(m.name, "inst");
    assert_eq!(m.class, "");
    let m = parse_wm_class(1, b"inst\0Cls").unwrap();
    assert_eq!(m.class, "cls");
    assert!(parse_wm_class(1, b"a\xff\0b\0").is_none());
    assert!(is_app_window(b"x\0y\0"));
    assert!(!is_app_window(b""));
}

#[test]
fn property_text_decodes_or_empties() {
    assert_eq!(property_text(&Some("Título".as_bytes().to_vec())), "Título");
    assert_eq!(property_text(&Some(vec![0xe2, 0x82])), "");
    assert_eq!(property_text(&None), "");
}

#[test]
fn state_from_atoms() {
    let a = atoms();
    assert_eq!(a.state_of(&vec![8]), WindowState::Fullscreen);
    assert_eq!(a.state_of(&vec![6, 7, 8]), WindowState::Fullscreen);
    assert_eq!(a.state_of(&vec![7, 6]), WindowState::Maximized);
    assert_eq!(a.state_of(&vec![6]), WindowState::Normal);
    assert_eq!(a.state_of(&vec![]), WindowState::Normal);
    assert_eq!(a.window_state(&None), WindowState::Normal);
}

#[test]
fn type_from_atom() {
    let t = TypeAtoms {
        combo: 100,
        desktop: 101,
        dialog: 102,
        dnd: 103,
        dock: 104,
        dropdown_menu: 105,
        menu: 106,
        normal: 107,
        notification: 108,
        popup_menu: 109,
        splash: 110,
        toolbar: 111,
        tooltip: 112,
        utility: 113,
    };
    assert_eq!(t.type_of(104), WindowType::Dock);
    assert_eq!(t.type_of(113), WindowType::Utility);
    assert_eq!(t.type_of(1), WindowType::Unset);
}

#[test]
fn tree_walk_is_preorder_and_visits_once() {
    // 1 -> [2, 3], 2 -> [4, 1], 3 -> [2]
    let mut walk = TreeWalk::new(1);
    let mut seen = Vec::new();
    while let Some(n) = walk.next() {
        seen.push(n);
        let children = match n {
            1 => vec![2, 3],
            2 => vec![4, 1, 0],
            3 => vec![2],
            _ => vec![],
        };
        walk.descend(&children);
    }
    assert_eq!(seen, vec![1, 2, 4, 3]);
}

#[test]
fn tree_walk_stops_at_depth_bound() {
    // Each window has one child with the next number.
    let mut walk = TreeWalk::new(1);
    let mut count = 0;
    while let Some(n) = walk.next() {
        count += 1;
        walk.descend(&vec![n + 1]);
    }
    assert_eq!(count, 17);
    assert!(TreeWalk::new(0).next().is_none());
}

#[test]
fn walk_steps() {
    assert!(cascade_descends(true, &None));
    assert!(cascade_descends(true, &Some(Vec::new())));
    assert!(!cascade_descends(true, &Some(b"a\0b\0".to_vec())));
    assert!(!cascade_descends(false, &None));
    match resolve_step(4, &Some(b"Term\0XTerm\0".to_vec())) {
        ResolveStep::Found(m) => {
            assert_eq!(m.id, 4);
            assert_eq!(m.class, "xterm");
        }
        ResolveStep::Descend => panic!("expected a match"),
    }
    assert!(matches!(resolve_step(4, &None), ResolveStep::Descend));
    assert!(matches!(resolve_step(4, &Some(b"noclass".to_vec())), ResolveStep::Descend));
}
