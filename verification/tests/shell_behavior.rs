use menu_shell::dispatch::{classify, dispatch_menu_event, has_window, MenuEventKind};
use menu_shell::greet::greet;
use menu_shell::menu::{native_menu_bar, MenuEntry};
use menu_shell::shell::{select_strategy, MenuStrategy, SetupError, Shell};
use menu_shell::text::str_eq;

#[test]
fn greet_world() {
    assert_eq!(greet("World"), "Hello, World! You've been greeted from Rust!");
}

#[test]
fn greet_empty_name() {
    assert_eq!(greet(""), "Hello, ! You've been greeted from Rust!");
}

#[test]
fn greet_keeps_name_untransformed() {
    assert_eq!(
        greet(" Ada  Lovelace "),
        "Hello,  Ada  Lovelace ! You've been greeted from Rust!"
    );
    assert_eq!(
        greet("\u{540d}\u{524d}"),
        "Hello, \u{540d}\u{524d}! You've been greeted from Rust!"
    );
}

#[test]
fn classify_recognizes_only_open_settings() {
    assert!(matches!(classify("open_settings"), MenuEventKind::OpenSettings));
    let others = [
        "services",
        "hide",
        "hide_others",
        "show_all",
        "quit",
        "undo",
        "redo",
        "cut",
        "copy",
        "paste",
        "select_all",
        "minimize",
        "close_window",
        "",
        "OPEN_SETTINGS",
        "open_setting",
        "open_settings ",
    ];
    for id in others {
        assert!(matches!(classify(id), MenuEventKind::Other), "{id:?}");
    }
}

#[test]
fn settings_click_with_main_window_emits_once() {
    let windows = vec!["other".to_string(), "main".to_string()];
    let r = dispatch_menu_event("open_settings", &windows);
    let emission = r.expect("an emission is owed");
    assert_eq!(emission.window, "main");
    assert_eq!(emission.event, "menu:open-settings");
}

#[test]
fn settings_click_without_main_window_is_silent() {
    let windows = vec!["settings".to_string(), "about".to_string()];
    assert!(dispatch_menu_event("open_settings", &windows).is_none());
    let none: Vec<String> = Vec::new();
    assert!(dispatch_menu_event("open_settings", &none).is_none());
}

#[test]
fn predefined_identifiers_never_emit() {
    let windows = vec!["main".to_string()];
    let others = [
        "services",
        "hide",
        "hide_others",
        "show_all",
        "quit",
        "undo",
        "redo",
        "cut",
        "copy",
        "paste",
        "select_all",
        "minimize",
        "close_window",
        "",
    ];
    for id in others {
        assert!(dispatch_menu_event(id, &windows).is_none(), "{id:?}");
    }
}

#[test]
fn window_lookup_is_exact() {
    let windows = vec!["alpha".to_string(), "main".to_string()];
    assert!(has_window(&windows, "main"));
    assert!(!has_window(&windows, "Main"));
    assert!(!has_window(&windows, "mai"));
    let none: Vec<String> = Vec::new();
    assert!(!has_window(&none, "main"));
}

#[test]
fn string_comparison_is_character_wise() {
    assert!(str_eq("abc", "abc"));
    assert!(!str_eq("abc", "abd"));
    assert!(!str_eq("abc", "ab"));
    assert!(!str_eq("", "a"));
    assert!(str_eq("", ""));
    assert!(str_eq("Settings\u{2026}", "Settings\u{2026}"));
    assert!(!str_eq("Settings\u{2026}", "Settings..."));
}

#[test]
fn strategy_native_only_on_designated_platform() {
    assert!(matches!(select_strategy("macos"), MenuStrategy::NativeTopLevelMenu));
    for platform in ["linux", "windows", "ios", "android", "", "Macos"] {
        assert!(matches!(select_strategy(platform), MenuStrategy::NoOp), "{platform:?}");
    }
}

#[test]
fn menu_bar_has_three_submenus_in_order() {
    let bar = native_menu_bar("demo");
    assert_eq!(bar.submenus.len(), 3);
    assert_eq!(bar.submenus[0].title, "demo");
    assert_eq!(bar.submenus[1].title, "Edit");
    assert_eq!(bar.submenus[2].title, "Window");
    assert_eq!(bar.submenus[0].entries.len(), 9);
    assert_eq!(bar.submenus[1].entries.len(), 7);
    assert_eq!(bar.submenus[2].entries.len(), 5);
}

#[test]
fn menu_bar_carries_exactly_one_custom_identifier() {
    let bar = native_menu_bar("demo");
    let mut ids: Vec<String> = Vec::new();
    for submenu in &bar.submenus {
        for entry in &submenu.entries {
            if let MenuEntry::Custom { id, .. } = entry {
                ids.push(id.clone());
            }
        }
    }
    assert_eq!(ids, vec!["open_settings".to_string(), "open_settings".to_string()]);
}

#[test]
fn settings_entry_shape() {
    let bar = native_menu_bar("demo");
    match &bar.submenus[0].entries[0] {
        MenuEntry::Custom { id, label, enabled, shortcut } => {
            assert_eq!(id.as_str(), "open_settings");
            assert_eq!(label.as_str(), "Settings\u{2026}");
            assert!(*enabled);
            assert_eq!(shortcut.as_deref(), Some("CmdOrCtrl+,"));
        }
        _ => panic!("the app submenu must start with the settings entry"),
    }
    match &bar.submenus[2].entries[2] {
        MenuEntry::Custom { id, .. } => assert_eq!(id.as_str(), "open_settings"),
        _ => panic!("the window submenu must carry the settings entry"),
    }
}

#[test]
fn shell_on_designated_platform_plans_menu_and_runs() {
    let mut shell = Shell::new("macos");
    assert!(shell.menu_plan("demo").is_some());
    shell.complete_setup(Ok(()));
    assert!(shell.is_running());
}

#[test]
fn shell_on_other_platform_plans_no_menu_and_still_runs() {
    let mut shell = Shell::new("linux");
    assert!(shell.menu_plan("demo").is_none());
    shell.complete_setup(Ok(()));
    assert!(shell.is_running());
}

#[test]
fn setup_failure_prevents_running() {
    let mut shell = Shell::new("macos");
    assert!(shell.menu_plan("demo").is_some());
    shell.complete_setup(Err(SetupError { detail: "native menu build failed".to_string() }));
    assert!(!shell.is_running());
}
