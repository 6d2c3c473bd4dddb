use zmouse::cli::{parse_command, Command};
use zmouse::config::{Action, Config, DeviceConfig, DeviceId, KeyMapping, Mapping, ScrollConfig};
use zmouse::engine::{Injected, TapKind, Verdict};
use zmouse::files::{
    config_file_in, default_path, fault_message, load_path, path_for, save_path, FileFault,
};
use zmouse::hid::{
    friendly_transport, is_builtin_trackpad, mice_report, select_mice, MouseDevice,
};
use zmouse::keymap::modifier_flag;
use zmouse::menu::{
    device_titles, floor_items, floor_presets, guard_items, guard_presets, set_scroll_floor,
    set_scroll_guard, should_reload, toggle_scroll_boost, toggle_scroll_filter,
};
use zmouse::probe::{demo_remap, hid_line, page_name, scroll_arrow, tap_line};
use zmouse::report::{countable, problem_lines, startup_lines};

fn mouse(name: Option<&str>, usage: Option<i64>, page: Option<i64>) -> MouseDevice {
    MouseDevice {
        name: name.map(str::to_string),
        vendor_id: Some(0x0b05),
        product_id: None,
        serial: None,
        location_id: Some(17969152),
        registry_entry_id: Some(4295289702),
        primary_usage: usage,
        primary_usage_page: page,
        transport: None,
    }
}

#[test]
fn commands_are_found() {
    for (arg, cmd) in [
        ("", Command::Menu),
        ("-psn_0_12345", Command::Menu),
        ("-psn", Command::Menu),
        ("menu", Command::Menu),
        ("list", Command::List),
        ("tap", Command::Tap),
        ("probe", Command::Probe),
        ("scrolldbg", Command::ScrollDbg),
        ("run", Command::Run),
        ("edit", Command::Edit),
        ("help", Command::Help),
        ("-h", Command::Help),
        ("--help", Command::Help),
        ("List", Command::Unknown),
        ("runs", Command::Unknown),
        ("-ps", Command::Unknown),
        (" ", Command::Unknown),
    ] {
        assert_eq!(parse_command(arg), cmd, "{arg}");
    }
}

#[test]
fn config_file_stands_below_its_directory() {
    for (dir, file) in [
        ("/Users/x/Library/Application Support", "/Users/x/Library/Application Support/zmouse/config.toml"),
        ("/cfg/", "/cfg/zmouse/config.toml"),
        ("/", "/zmouse/config.toml"),
        ("", "zmouse/config.toml"),
    ] {
        let got = config_file_in(&dir.as_bytes().to_vec());
        assert_eq!(String::from_utf8(got).unwrap(), file);
        let joined = std::path::Path::new(dir).join("zmouse").join("config.toml");
        assert_eq!(joined.to_str().unwrap(), file);
    }
}

#[test]
fn there_is_a_path_where_there_is_a_directory() {
    assert_eq!(path_for(None), None);
    assert_eq!(path_for(Some(b"/cfg".to_vec())), Some(b"/cfg/zmouse/config.toml".to_vec()));
}

#[test]
fn default_path_is_the_users_config_file() {
    let expected = dirs::config_dir().map(|d| {
        d.join("zmouse").join("config.toml").into_os_string().into_encoded_bytes()
    });
    assert_eq!(default_path(), expected);
}

#[test]
fn paths_are_chosen_in_order() {
    assert_eq!(load_path(Some(1), Some(2)), Ok(1));
    assert_eq!(load_path(None, Some(2)), Ok(2));
    assert_eq!(
        load_path::<u8>(None, None),
        Err("could not determine config directory".to_string())
    );
    assert_eq!(save_path(Some(1), Some(2), 3), 1);
    assert_eq!(save_path(None, Some(2), 3), 2);
    assert_eq!(save_path(None, None, 3), 3);
}

#[test]
fn file_faults_in_words() {
    assert_eq!(fault_message(FileFault::Read, "a.toml", "gone"), "cannot read a.toml: gone");
    assert_eq!(fault_message(FileFault::Parse, "a.toml", "bad"), "parse error in a.toml: bad");
    assert_eq!(fault_message(FileFault::Serialize, "a.toml", "odd"), "serialize error: odd");
    assert_eq!(fault_message(FileFault::CreateDir, "d", "no"), "cannot create d: no");
    assert_eq!(fault_message(FileFault::Write, "a.toml", "full"), "cannot write a.toml: full");
}

#[test]
fn built_in_trackpad_is_never_offered() {
    let builtin = mouse(Some("Apple Internal Keyboard / Trackpad"), Some(2), Some(1));
    let magic_pad = mouse(Some("Magic TRACKPAD"), Some(2), Some(1));
    let internal = mouse(Some("apple INTERNAL keyboard"), Some(2), Some(1));
    let magic_mouse = mouse(Some("Magic Mouse"), Some(2), Some(1));
    let unnamed = mouse(None, Some(1), Some(1));
    assert!(is_builtin_trackpad(&builtin) && is_builtin_trackpad(&magic_pad));
    assert!(is_builtin_trackpad(&internal));
    assert!(!is_builtin_trackpad(&magic_mouse) && !is_builtin_trackpad(&unnamed));
    let keyboard = mouse(Some("Keyboard"), Some(6), Some(1));
    let other_page = mouse(Some("Remote"), Some(2), Some(0x0c));
    let blank = mouse(Some("Blank"), None, None);
    let picked = select_mice(&vec![
        builtin, magic_mouse, keyboard, other_page, magic_pad, unnamed, internal, blank,
    ]);
    let names: Vec<Option<&str>> = picked.iter().map(|m| m.name.as_deref()).collect();
    assert_eq!(names, vec![Some("Magic Mouse"), None]);
}

#[test]
fn connected_mice_are_listed() {
    assert_eq!(
        mice_report(&vec![]),
        vec!["No mice found (is anything connected? did the HID manager open?)."]
    );
    let mut second = mouse(None, None, None);
    second.vendor_id = None;
    second.serial = Some("S1".into());
    second.location_id = None;
    second.registry_entry_id = None;
    assert_eq!(
        mice_report(&vec![mouse(Some("ROG CHAKRAM CORE"), None, None), second]),
        vec![
            "Found 2 mouse device(s):",
            "",
            "[0] ROG CHAKRAM CORE",
            "    vendor=0x0b05 product=0x0000",
            "    serial=<none>",
            "    locationID=17969152 registryEntryID=4295289702",
            "",
            "[1] <unknown>",
            "    vendor=0x0000 product=0x0000",
            "    serial=S1",
            "    locationID=<none> registryEntryID=<none>",
            "",
        ]
    );
}

#[test]
fn transports_become_labels() {
    assert_eq!(friendly_transport(&Some("USB".into())).as_deref(), Some("USB"));
    assert_eq!(friendly_transport(&Some("Bluetooth".into())).as_deref(), Some("Bluetooth"));
    assert_eq!(friendly_transport(&Some("  ".into())), None);
    assert_eq!(friendly_transport(&None), None);
}

fn config() -> Config {
    Config {
        scroll: ScrollConfig {
            jitter_filter: true,
            reversal_guard_ms: 90,
            boost_weak_ticks: true,
            min_tick_pixels: 12,
        },
        device: vec![
            DeviceConfig {
                registry_id: Some(42),
                vendor_id: None,
                product_id: None,
                also: vec![DeviceId { vendor_id: Some(1), product_id: Some(2), ..Default::default() }],
                name: Some("Test Mouse".into()),
                mapping: vec![
                    Mapping { button: 4, action: Action::Button { button: 2 } },
                    Mapping { button: 5, action: Action::Disabled },
                ],
                key: vec![KeyMapping {
                    key: "7".into(),
                    action: Action::Keystroke { key: "v".into(), mods: vec!["cmd".into()] },
                }],
            },
            DeviceConfig {
                registry_id: None,
                vendor_id: None,
                product_id: None,
                also: vec![],
                name: None,
                mapping: vec![],
                key: vec![],
            },
        ],
    }
}

#[test]
fn startup_summary_lists_everything() {
    assert!(countable(&config()) && countable(&Config::default()));
    assert_eq!(
        startup_lines(&config()),
        vec![
            "Scroll-wheel jitter filter: ON (reversal guard 90 ms).",
            "Weak-tick boost: ON (floor 12 px/line).",
            "Loaded 3 mapping(s):",
            "  Test Mouse (registry_id 42 (+ vendor 0x0001 product 0x0002))",
            "    button 4 -> mouse button 2",
            "    button 5 -> disabled",
            "    key '7' -> cmd+v",
            "  <unnamed> (<no identity>)",
            "",
        ]
    );
    assert_eq!(
        startup_lines(&Config::default()),
        vec!["No mappings configured — nothing to remap. Add some to your config.", ""]
    );
    assert_eq!(
        problem_lines(&config()),
        vec![
            "Config problems (these mappings will be no-ops):",
            "  - device '<unnamed>' has no identity: set vendor_id+product_id or registry_id",
            "",
        ]
    );
    assert!(problem_lines(&Config::default()).is_empty());
}

#[test]
fn presets_are_checked_by_value() {
    assert_eq!(guard_presets(), vec![40, 60, 80, 100, 120, 150]);
    assert_eq!(floor_presets(), vec![6, 8, 10, 14, 20]);
    let mut s = ScrollConfig::default();
    let items = guard_items(&s);
    assert_eq!(items[2].title, "80 ms");
    assert_eq!(items[2].tag, 80);
    let checked: Vec<bool> = items.iter().map(|i| i.checked).collect();
    assert_eq!(checked, vec![false, false, true, false, false, false]);
    assert_eq!(floor_items(&s)[4].title, "20 px/line");
    set_scroll_guard(&mut s, 150);
    assert!(s.jitter_filter && guard_items(&s)[5].checked && !guard_items(&s)[2].checked);
    set_scroll_floor(&mut s, 14);
    assert!(s.boost_weak_ticks && floor_items(&s)[3].checked);
    s.reversal_guard_ms = 77;
    assert!(guard_items(&s).iter().all(|i| !i.checked));
    s.reversal_guard_ms = u64::MAX;
    assert!(guard_items(&s).iter().all(|i| !i.checked));
}

#[test]
fn clicks_change_the_scroll_settings() {
    let start = ScrollConfig::default();
    let mut s = start;
    toggle_scroll_filter(&mut s);
    assert!(s.jitter_filter);
    toggle_scroll_filter(&mut s);
    toggle_scroll_boost(&mut s);
    assert!(s.boost_weak_ticks);
    toggle_scroll_boost(&mut s);
    assert_eq!(s, start);
    set_scroll_guard(&mut s, -3);
    assert_eq!((s.reversal_guard_ms, s.jitter_filter), (0, true));
    set_scroll_floor(&mut s, 0);
    assert_eq!((s.min_tick_pixels, s.boost_weak_ticks), (1, true));
}

#[test]
fn changed_files_are_reloaded() {
    assert!(should_reload(Some(2), Some(1)));
    assert!(should_reload(Some(1), Some(2)));
    assert!(should_reload(Some(1), None));
    assert!(!should_reload(Some(1), Some(1)));
    assert!(!should_reload(None, Some(1)));
    assert!(!should_reload(None, None));
}

#[test]
fn menu_names_the_devices() {
    assert_eq!(
        device_titles(&config()),
        vec!["  Test Mouse — 2 mapping(s)", "  <unnamed> — 0 mapping(s)"]
    );
}

#[test]
fn probe_lines_are_aligned() {
    assert_eq!(
        hid_line(123, Some(4295289702), Some(0x0b05), None, "button", 4, 1),
        format!(
            "[HID] t={:>20} device={:<20} vid=0x{:04x} pid=0x{:04x} page={:<8} usage={} value={}",
            123, "4295289702", 0x0b05, 0, "button", 4, 1
        )
    );
    assert_eq!(
        hid_line(u64::MAX, None, None, Some(-1), "keyboard", 0, -7),
        format!(
            "[HID] t={:>20} device={:<20} vid=0x{:04x} pid=0x{:04x} page={:<8} usage={} value={}",
            u64::MAX, "<none>", 0, -1i64, "keyboard", 0, -7
        )
    );
    assert_eq!(
        tap_line(5, "KeyDown", TapKind::KeyDown, 26, 9),
        format!("[TAP] t={:>20} type={:<16} keycode=26", 5, "KeyDown")
    );
    assert_eq!(
        tap_line(5, "OtherMouseUp", TapKind::OtherMouseUp, 26, 9),
        format!("[TAP] t={:>20} type={:<16} button=9", 5, "OtherMouseUp")
    );
}

#[test]
fn probe_logs_buttons_keys_and_live_controls() {
    assert_eq!(page_name(0x07, 0), Some("keyboard"));
    assert_eq!(page_name(0x09, 1), Some("button"));
    assert_eq!(page_name(0x0C, 1), Some("consumer"));
    assert_eq!(page_name(0x0C, 0), None);
    assert_eq!(page_name(0x01, 1), None);
}

#[test]
fn scroll_direction_is_shown() {
    assert_eq!(scroll_arrow(1, false, true), "up");
    assert_eq!(scroll_arrow(0, true, false), "up");
    assert_eq!(scroll_arrow(-1, true, false), "up");
    assert_eq!(scroll_arrow(-1, false, false), "down");
    assert_eq!(scroll_arrow(0, false, true), "down");
    assert_eq!(scroll_arrow(0, false, false), "--");
}

#[test]
fn demo_remaps_the_back_button_only() {
    let cmd = modifier_flag("cmd").unwrap();
    let (v, inject) = demo_remap(TapKind::OtherMouseDown, 3);
    assert_eq!(v, Verdict::Drop);
    assert_eq!(
        inject,
        vec![
            Injected::Key { code: 8, down: true, flags: cmd, user_data: 0 },
            Injected::Key { code: 8, down: false, flags: cmd, user_data: 0 },
        ]
    );
    assert_eq!(demo_remap(TapKind::OtherMouseUp, 3), (Verdict::Drop, vec![]));
    assert_eq!(demo_remap(TapKind::OtherMouseDown, 4), (Verdict::Keep, vec![]));
    assert_eq!(demo_remap(TapKind::ScrollWheel, 3), (Verdict::Keep, vec![]));
}
