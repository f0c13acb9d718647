use wctx::adapters::{gnome_step, script_object_path, uses_runtime_dir, GnomeAction, GnomeReply};
use wctx::providers::{detect, WindowProvider};
use wctx::query::{Printer, QueryFormat, QueryProperty, WindowProperty};
use wctx::types::{WindowDict, WindowState, WindowType};

fn sample(id: &str) -> WindowDict {
    WindowDict::new(id, "term", "kitty", 31, "shell", WindowType::Normal, "", WindowState::Fullscreen, "DP-1")
}

#[test]
fn property_text_of_each_kind() {
    let d = sample("12");
    assert_eq!(d.prop(QueryProperty::ID).to_text(), "12");
    assert_eq!(d.prop(QueryProperty::PID).to_text(), "31");
    assert_eq!(d.prop(QueryProperty::State).to_text(), "FULLSCREEN");
    assert_eq!(d.prop(QueryProperty::Type).to_text(), "NORMAL");
    assert_eq!(d.prop(QueryProperty::Role).to_text(), "");
    assert!(matches!(d.prop(QueryProperty::Class), WindowProperty::Class(ref c) if c == "kitty"));
    assert_eq!(WindowProperty::Type(WindowType::Unset).to_text(), "");
}

#[test]
fn format_and_property_names() {
    assert_eq!(QueryFormat::default(), QueryFormat::Flat);
    assert_eq!(QueryFormat::JSON.as_str(), "json");
    assert_eq!(QueryProperty::PID.as_str(), "pid");
    assert_eq!(QueryProperty::Display.as_str(), "display");
}

#[test]
fn printer_line_breaks() {
    assert!(Printer::new(Some(QueryProperty::Title), QueryFormat::Flat, false).linebreak);
    assert!(!Printer::new(Some(QueryProperty::Title), QueryFormat::CSV, true).linebreak);
    assert!(!Printer::new(Some(QueryProperty::Title), QueryFormat::TOML, false).linebreak);
    assert!(Printer::new(None, QueryFormat::JSON, true).linebreak);
    assert!(!Printer::new(None, QueryFormat::JSON, false).linebreak);
    assert!(!Printer::new(None, QueryFormat::Flat, true).linebreak);
}

#[test]
fn printer_skips_repeats() {
    let mut p = Printer::new(None, QueryFormat::Flat, true);
    assert!(p.first);
    assert!(p.accept(sample("1"), "out-1".to_string()));
    assert!(!p.first);
    assert!(!p.accept(sample("1"), "out-1".to_string()));
    assert!(p.accept(sample("1"), "out-2".to_string()));
    assert!(p.accept(sample("2"), "out-2".to_string()));
    assert_eq!(p.output, "out-2");
}

#[test]
fn provider_detection() {
    assert_eq!(detect(Some(WindowProvider::GNOME), "x11", "", ""), Some(WindowProvider::GNOME));
    assert_eq!(detect(None, "x11", "6", "gnome"), Some(WindowProvider::X11));
    assert_eq!(detect(None, "wayland", "6", "gnome"), Some(WindowProvider::KWin));
    assert_eq!(detect(None, "wayland", "", "gnome"), Some(WindowProvider::GNOME));
    assert_eq!(detect(None, "wayland", "", "sway"), None);
    assert_eq!(WindowProvider::KWin.name(), "KWin");
}

#[test]
fn gnome_setup_steps() {
    assert_eq!(gnome_step(&GnomeReply::Enabled(true)), GnomeAction::RunUntilExit);
    assert_eq!(gnome_step(&GnomeReply::Enabled(false)), GnomeAction::CheckDirectory);
    assert_eq!(gnome_step(&GnomeReply::DirectoryExists(true)), GnomeAction::Fail);
    assert_eq!(gnome_step(&GnomeReply::DirectoryExists(false)), GnomeAction::InstallRemote);
    assert_eq!(gnome_step(&GnomeReply::RemoteInstall(None)), GnomeAction::InstallFiles);
    assert_eq!(gnome_step(&GnomeReply::RemoteInstall(Some("successful".to_string()))), GnomeAction::EnableAgain);
    assert_eq!(gnome_step(&GnomeReply::RemoteInstall(Some("cancelled".to_string()))), GnomeAction::Stop);
    assert_eq!(gnome_step(&GnomeReply::RemoteInstall(Some("error".to_string()))), GnomeAction::Fail);
    assert_eq!(gnome_step(&GnomeReply::EnabledAfterInstall(false)), GnomeAction::Fail);
}

#[test]
fn kwin_script_paths() {
    assert_eq!(script_object_path(0), "/Scripting/Script0");
    assert_eq!(script_object_path(12), "/Scripting/Script12");
    assert_eq!(script_object_path(-1), "/Scripting/Script-1");
    assert_eq!(script_object_path(i32::MIN), "/Scripting/Script-2147483648");
    assert!(uses_runtime_dir("/run/user/1000"));
    assert!(!uses_runtime_dir(""));
}
