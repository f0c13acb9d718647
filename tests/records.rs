use wctx::service::{Signals, WindowsService};
use wctx::text::{decimal, parse_u32, text_eq};
use wctx::types::{
    parse_int_string, DictMap, DictValue, InvalidArgs, WindowContext, WindowDict, WindowProp, WindowState,
    WindowType,
};

fn sample() -> WindowDict {
    WindowDict::new("7", "fx", "firefox", 4242, "Title", WindowType::Dialog, "browser", WindowState::Maximized, "DP-1")
}

fn text(m: &DictMap, key: &str) -> Option<String> {
    for (k, v) in m {
        if k == key {
            if let DictValue::Str(s) = v {
                return Some(s.clone());
            }
        }
    }
    None
}

#[test]
fn published_bag_has_exactly_nine_keys() {
    let m = sample().as_map();
    let keys: Vec<&str> = m.iter().map(|(k, _)| k.as_str()).collect();
    assert_eq!(keys, vec!["id", "name", "class", "pid", "title", "type", "role", "state", "display"]);
    assert_eq!(text(&m, "type"), Some("DIALOG".to_string()));
    assert_eq!(text(&m, "state"), Some("MAXIMIZED".to_string()));
    assert!(matches!(m[3].1, DictValue::U32(4242)));
}

#[test]
fn published_bag_reads_back() {
    let d = sample();
    let back = WindowDict::try_from(&d.as_map()).unwrap();
    assert_eq!(back.id, "7");
    assert_eq!(back.class, "firefox");
    assert_eq!(back.pid, 4242);
    assert_eq!(back.window_type, WindowType::Dialog);
    assert_eq!(back.state, WindowState::Maximized);
    assert_eq!(back.display, "DP-1");
}

fn with(key: &str, value: DictValue) -> DictMap {
    let mut m = sample().as_map();
    for entry in m.iter_mut() {
        if entry.0 == key {
            entry.1 = value.clone();
        }
    }
    m
}

fn without(key: &str) -> DictMap {
    sample().as_map().into_iter().filter(|(k, _)| k != key).collect()
}

#[test]
fn empty_record_publishes_empty_enums() {
    let m = WindowDict::default().as_map();
    assert_eq!(text(&m, "type"), Some(String::new()));
    assert_eq!(text(&m, "state"), Some(String::new()));
    let back = WindowDict::try_from(&m).unwrap();
    assert_eq!(back.window_type, WindowType::Unset);
    assert_eq!(back.state, WindowState::Unset);
    assert_eq!(back.pid, 0);
}

#[test]
fn bag_missing_a_key_is_refused() {
    assert_eq!(WindowDict::try_from(&Vec::new()).unwrap_err(), InvalidArgs::MissingKey(WindowProp::ID));
    assert_eq!(WindowDict::try_from(&without("title")).unwrap_err(), InvalidArgs::MissingKey(WindowProp::Title));
    assert_eq!(WindowDict::try_from(&without("display")).unwrap_err(), InvalidArgs::MissingKey(WindowProp::Display));
    // A missing key is reported before a bad value.
    let mut m = without("role");
    m[0].1 = DictValue::U32(1);
    assert_eq!(WindowDict::try_from(&m).unwrap_err(), InvalidArgs::MissingKey(WindowProp::Role));
}

#[test]
fn bag_errors_name_the_first_bad_field() {
    let m = with("name", DictValue::U32(3));
    assert_eq!(WindowDict::try_from(&m).unwrap_err(), InvalidArgs::NotText(WindowProp::Name));
    let m = with("pid", DictValue::Str("9".to_string()));
    assert_eq!(WindowDict::try_from(&m).unwrap_err(), InvalidArgs::NotInteger(WindowProp::PID));
    let m = with("state", DictValue::Str("HUGE".to_string()));
    assert_eq!(WindowDict::try_from(&m).unwrap_err(), InvalidArgs::NotVariant(WindowProp::State));
    let mut m = with("type", DictValue::Other);
    m[0].1 = DictValue::Other;
    assert_eq!(WindowDict::try_from(&m).unwrap_err(), InvalidArgs::NotText(WindowProp::ID));
}

#[test]
fn signed_pid_saturates_at_zero() {
    let m = with("pid", DictValue::I32(-5));
    assert_eq!(WindowDict::try_from(&m).unwrap().pid, 0);
    let m = with("pid", DictValue::I32(77));
    assert_eq!(WindowDict::try_from(&m).unwrap().pid, 77);
    let m = with("pid", DictValue::U32(4_000_000_000));
    assert_eq!(WindowDict::try_from(&m).unwrap().pid, 4_000_000_000);
}

#[test]
fn unknown_keys_are_ignored_in_a_bag() {
    let mut m = sample().as_map();
    m.insert(0, ("colour".to_string(), DictValue::U32(1)));
    m.insert(1, ("id".to_string(), DictValue::Str("3".to_string())));
    assert_eq!(WindowDict::try_from(&m).unwrap().id, "3");
}

#[test]
fn update_parses_each_field() {
    let mut d = sample();
    d.update(WindowProp::PID, "").unwrap();
    assert_eq!(d.pid, 0);
    d.update(WindowProp::PID, "+12").unwrap();
    assert_eq!(d.pid, 12);
    assert_eq!(d.update(WindowProp::PID, "x1"), Err(InvalidArgs::NotInteger(WindowProp::PID)));
    assert_eq!(d.pid, 12);
    d.update(WindowProp::Type, "POPUP_MENU").unwrap();
    assert_eq!(d.window_type, WindowType::PopupMenu);
    assert_eq!(d.update(WindowProp::Type, "popup_menu"), Err(InvalidArgs::NotVariant(WindowProp::Type)));
    d.update(WindowProp::State, "").unwrap();
    assert_eq!(d.state, WindowState::Unset);
    d.update(WindowProp::Display, "HDMI-1").unwrap();
    assert_eq!(d.display, "HDMI-1");
}

#[test]
fn service_unknown_key_changes_nothing() {
    let mut s = WindowsService::new();
    s.set_window(WindowContext::Both, &sample().as_map()).unwrap();
    assert_eq!(s.update_window(WindowContext::Both, "colour", "red"), Err(InvalidArgs::UnknownKey));
    assert_eq!(s.update_window(WindowContext::Active, "pid", "-1"), Err(InvalidArgs::NotInteger(WindowProp::PID)));
    assert_eq!(s.active_window.pid, 4242);
    assert_eq!(s.pointer_window.pid, 4242);
}

#[test]
fn service_contexts_and_signals() {
    let mut s = WindowsService::new();
    let sig = s.set_window(WindowContext::Pointer, &sample().as_map()).unwrap();
    assert_eq!(sig, Signals { active: false, pointer: true });
    assert_eq!(s.pointer_window.id, "7");
    assert_eq!(s.active_window.id, "");
    let sig = s.update_window(WindowContext::Both, "title", "New").unwrap();
    assert_eq!(sig, Signals { active: true, pointer: true });
    assert_eq!(s.active_window.title, "New");
    assert_eq!(s.pointer_window.title, "New");
    let m = s.active_window();
    assert_eq!(m.len(), 9);
    assert_eq!(text(&s.pointer_window(), "title"), Some("New".to_string()));
    let bad = with("title", DictValue::I32(1));
    assert_eq!(s.set_window(WindowContext::Active, &bad), Err(InvalidArgs::NotText(WindowProp::Title)));
    let partial = without("pid");
    assert_eq!(s.set_window(WindowContext::Both, &partial), Err(InvalidArgs::MissingKey(WindowProp::PID)));
    assert_eq!(s.pointer_window.title, "New");
    assert_eq!(s.active_window.title, "New");
}

#[test]
fn int_strings() {
    assert_eq!(parse_int_string(""), Ok(0));
    assert_eq!(parse_int_string("42"), Ok(42));
    assert_eq!(parse_int_string("+7"), Ok(7));
    assert_eq!(parse_int_string("4294967295"), Ok(4294967295));
    assert!(parse_int_string("4294967296").is_err());
    assert!(parse_int_string("-1").is_err());
    assert!(parse_int_string("+").is_err());
    assert!(parse_int_string(" 1").is_err());
    assert_eq!(parse_u32("007"), Some(7));
}

#[test]
fn decimal_text_round_trips() {
    assert_eq!(decimal(0), "0");
    assert_eq!(decimal(1200), "1200");
    assert_eq!(decimal(u32::MAX), "4294967295");
    assert_eq!(parse_u32(&decimal(987654)), Some(987654));
    assert!(text_eq("abc", "abc"));
    assert!(!text_eq("abc", "abd"));
    assert!(!text_eq("ab", "abc"));
}

#[test]
fn enum_texts() {
    assert_eq!(WindowType::DropdownMenu.as_str(), "DROPDOWN_MENU");
    assert_eq!(WindowType::DND.as_str(), "DND");
    assert_eq!(WindowType::from_text("TOOLTIP"), Some(WindowType::Tooltip));
    assert_eq!(WindowType::from_text(""), Some(WindowType::Unset));
    assert_eq!(WindowType::from_text("Normal"), None);
    assert_eq!(WindowState::Fullscreen.as_str(), "FULLSCREEN");
    assert_eq!(WindowContext::from_text("both"), Some(WindowContext::Both));
    assert_eq!(WindowContext::from_text("Both"), None);
    assert_eq!(WindowContext::Pointer.as_str(), "pointer");
    assert_eq!(WindowProp::from_key("pid"), Some(WindowProp::PID));
    assert_eq!(WindowProp::from_key("PID"), None);
}
