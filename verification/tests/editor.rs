use zmouse::config::{
    vidpid_key, Action, Config, DeviceConfig, DeviceId, KeyMapping, Mapping, ScrollConfig,
};
use zmouse::editor::{CapturedPress, EditorApp};
use zmouse::edits::captured_press;
use zmouse::forms::{ActionForm, ActionKind, IdentityRow, KeyRow, MappingRow, ModSet};
use zmouse::hid::MouseDevice;

fn mouse(name: Option<&str>, vp: Option<(i64, i64)>, reg: Option<u64>, transport: Option<&str>) -> MouseDevice {
    MouseDevice {
        name: name.map(str::to_string),
        vendor_id: vp.map(|p| p.0),
        product_id: vp.map(|p| p.1),
        serial: None,
        location_id: None,
        registry_entry_id: reg,
        primary_usage: Some(2),
        primary_usage_page: Some(1),
        transport: transport.map(str::to_string),
    }
}

fn keystroke(key: &str, mods: &[&str]) -> Action {
    Action::Keystroke {
        key: key.to_string(),
        mods: mods.iter().map(|m| m.to_string()).collect(),
    }
}

fn config() -> Config {
    Config {
        scroll: ScrollConfig { jitter_filter: true, ..ScrollConfig::default() },
        device: vec![DeviceConfig {
            registry_id: Some(42),
            vendor_id: Some(1),
            product_id: Some(2),
            also: vec![
                DeviceId { label: Some(" Dongle ".into()), registry_id: Some(7), ..Default::default() },
                DeviceId::default(),
            ],
            name: Some("Test Mouse".into()),
            mapping: vec![
                Mapping { button: 3, action: keystroke("c", &["SHIFT", "command", "fn"]) },
                Mapping { button: 4, action: Action::Button { button: 2 } },
                Mapping { button: 5, action: Action::Disabled },
            ],
            key: vec![KeyMapping { key: "7".into(), action: keystroke("v", &["cmd"]) }],
        }],
    }
}

fn press(registry: u64, vp: Option<(i64, i64)>, button: i64) -> CapturedPress {
    CapturedPress {
        registry,
        vendor_id: vp.map(|p| p.0),
        product_id: vp.map(|p| p.1),
        button,
    }
}

#[test]
fn modifier_boxes_read_and_write_names() {
    let m = ModSet::from_slice(&["Super".into(), "ALT".into(), "fn".into(), "x".into()]);
    assert_eq!(m, ModSet { cmd: true, shift: false, opt: true, ctrl: false });
    assert_eq!(m.to_vec(), vec!["cmd", "opt"]);
    let all = ModSet { cmd: true, shift: true, opt: true, ctrl: true };
    assert_eq!(all.to_vec(), vec!["cmd", "shift", "opt", "ctrl"]);
    assert_eq!(ModSet::from_slice(&all.to_vec()), all);
    assert!(ModSet::default().to_vec().is_empty());
}

#[test]
fn forms_show_actions_and_give_them_back() {
    let f = ActionForm::disabled();
    assert_eq!((f.kind, f.key.as_str(), f.target_button), (ActionKind::Disabled, "", 2));
    assert!(matches!(f.to_action(), Action::Disabled));
    let f = ActionForm::from_action(&Action::Button { button: 7 });
    assert_eq!((f.kind, f.target_button), (ActionKind::Button, 7));
    assert!(matches!(f.to_action(), Action::Button { button: 7 }));
    let f = ActionForm::from_action(&keystroke("C", &["ctrl", "CMD"]));
    assert_eq!(f.kind, ActionKind::Keystroke);
    assert!(matches!(f.clone().to_action(), Action::Keystroke { key, mods }
        if key == "C" && mods == ["cmd", "ctrl"]));
    let row = MappingRow::from_mapping(&Mapping { button: 4, action: Action::Disabled });
    assert_eq!(row.button, 4);
    assert_eq!(row.to_mapping().button, 4);
    let row = KeyRow::from_mapping(&KeyMapping { key: "7".into(), action: keystroke("v", &[]) });
    assert_eq!(row.source, "7");
    assert_eq!(row.to_key_mapping().key, "7");
}

#[test]
fn identity_rows_convert_and_match() {
    let id = DeviceId { label: Some("  USB ".into()), vendor_id: Some(1), product_id: Some(2), registry_id: Some(9) };
    let row = IdentityRow::from_device_id(&id);
    assert_eq!(row.label, "  USB ");
    assert_eq!(row.to_device_id().label.as_deref(), Some("USB"));
    assert_eq!(row.device_key(), Some(vidpid_key(1, 2)));
    assert_eq!(row.desc(), "vendor 0x0001 product 0x0002");
    assert!(row.matches(&mouse(None, Some((1, 2)), Some(1), None)));
    // With both ids set the registry id does not count.
    assert!(!row.matches(&mouse(None, None, Some(9), None)));
    let by_registry = IdentityRow { registry_id: Some(9), vendor_id: Some(1), ..Default::default() };
    assert!(by_registry.matches(&mouse(None, Some((5, 5)), Some(9), None)));
    assert!(!by_registry.matches(&mouse(None, None, None, None)));
    assert!(!IdentityRow::default().matches(&mouse(None, None, None, None)));
    assert_eq!(IdentityRow { label: " \t".into(), ..Default::default() }.to_device_id().label, None);
}

#[test]
fn labels_come_from_the_connection() {
    let row = IdentityRow { label: " old ".into(), vendor_id: Some(1), product_id: Some(2), registry_id: None };
    let here = vec![
        mouse(None, Some((9, 9)), None, Some("SPI")),
        mouse(None, Some((1, 2)), None, Some("Bluetooth")),
        mouse(None, Some((1, 2)), None, Some("USB")),
    ];
    assert_eq!(row.auto_label(&here).as_deref(), Some("Bluetooth"));
    assert_eq!(row.display_label(&here), "Bluetooth");
    assert_eq!(row.auto_label(&vec![]), None);
    assert_eq!(row.display_label(&vec![]), "old");
    // The first matching device decides, even where it reports nothing.
    let silent = vec![mouse(None, Some((1, 2)), None, None), mouse(None, Some((1, 2)), None, Some("USB"))];
    assert_eq!(row.auto_label(&silent), None);
    assert!(row.is_connected(&here) && !row.is_connected(&vec![]));
}

#[test]
fn opening_shows_the_configuration() {
    let app = EditorApp::new(config(), vec![mouse(None, Some((1, 2)), None, Some("USB"))]);
    assert_eq!(app.selected, Some(0));
    let d = &app.devices[0];
    assert_eq!(d.name, "Test Mouse");
    assert_eq!(d.identities.len(), 3);
    assert_eq!(d.identities[0].label, "USB");
    assert_eq!(d.identities[1].label, " Dongle ");
    assert_eq!(d.identities[2].label, "");
    assert_eq!(d.mappings.len(), 3);
    assert_eq!(d.keys.len(), 1);
    assert!(app.scroll.jitter_filter);
    assert!(EditorApp::new(Config::default(), vec![]).selected.is_none());
}

#[test]
fn saving_keeps_keys_and_triggers() {
    let before = config();
    let keys = before.device[0].device_keys();
    let app = EditorApp::new(before, vec![]);
    let after = app.to_config();
    assert!(after.scroll.jitter_filter);
    let d = &after.device[0];
    assert_eq!(d.device_keys(), keys);
    assert_eq!((d.registry_id, d.vendor_id, d.product_id), (None, None, None));
    assert_eq!(d.also[1].label.as_deref(), Some("Dongle"));
    assert_eq!(d.name.as_deref(), Some("Test Mouse"));
    // Modifiers come out in a fixed order under their usual names; `fn` is not offered.
    assert!(matches!(&d.mapping[0].action, Action::Keystroke { key, mods }
        if key == "c" && mods == &["cmd", "shift"]));
    for k in keys {
        for b in [3, 4, 5] {
            assert!(after.resolve().contains_key(&(k, b)));
        }
        assert!(after.resolve_keys().contains_key(&(k, 26)));
    }
    // Another time through the editor changes nothing.
    let again = EditorApp::new(app.to_config(), vec![]).to_config();
    assert_eq!(format!("{again:?}"), format!("{after:?}"));
}

#[test]
fn blank_names_are_not_saved() {
    let mut app = EditorApp::new(config(), vec![]);
    app.devices[0].name = " Test Mouse ".into();
    assert_eq!(app.to_config().device[0].name.as_deref(), Some(" Test Mouse "));
    assert_eq!(app.devices[0].heading().as_deref(), Some("· Test Mouse"));
    app.devices[0].name = " \n".into();
    assert_eq!(app.to_config().device[0].name, None);
    assert_eq!(app.devices[0].heading(), None);
    assert_eq!(
        app.devices[0].title(),
        "vendor 0x0001 product 0x0002, registry_id 7, <no identity>"
    );
    app.devices[0].identities.clear();
    assert_eq!(app.devices[0].ident_desc(), "no identity");
    assert!(app.devices[0].has_no_identity());
}

#[test]
fn devices_are_listed_with_their_state() {
    let mut app = EditorApp::new(config(), vec![mouse(None, None, Some(7), Some("Bluetooth"))]);
    assert_eq!(app.device_label(0), "● Test Mouse");
    assert_eq!(
        app.identity_labels(0),
        vec![
            "○ vendor 0x0001 product 0x0002".to_string(),
            "● Bluetooth — registry_id 7".to_string(),
            "○ <no identity>".to_string(),
        ]
    );
    app.connected.clear();
    assert_eq!(app.device_label(0), "○ Test Mouse");
    assert_eq!(app.identity_labels(0)[1], "○ Dongle — registry_id 7");
    assert!(!app.is_connected(&app.devices[0]));
    assert_eq!(app.merge_target(), Some((0, "Test Mouse".to_string())));
}

#[test]
fn only_new_devices_are_offered() {
    let mut app = EditorApp::new(
        config(),
        vec![
            mouse(Some("Known"), Some((1, 2)), Some(5), None),
            mouse(Some("Known too"), None, Some(7), None),
            mouse(Some("New"), Some((3, 4)), Some(6), Some("USB")),
            mouse(None, Some((3, 5)), None, None),
            mouse(Some("No identity"), Some((1, 0)), None, None),
            mouse(Some("None at all"), None, None, None),
        ],
    );
    assert_eq!(app.existing_keys(), vec![vidpid_key(1, 2), 7]);
    let offers = app.addable();
    let names: Vec<&str> = offers.iter().map(|a| a.name.as_str()).collect();
    assert_eq!(names, vec!["New", "(vendor 0x0003 product 0x0005)", "No identity"]);
    assert_eq!(offers[0].id.label, "USB");
    assert_eq!(offers[0].id.registry_id, None);
    app.add_device(&offers[0]);
    assert_eq!(app.selected, Some(1));
    assert_eq!(app.devices[1].name, "New");
    app.add_device(&offers[1]);
    assert_eq!(app.devices[2].name, "");
    assert_eq!(app.devices[2].title(), "vendor 0x0003 product 0x0005");
    app.merge(0, &offers[2]);
    assert_eq!(app.devices[0].identities.len(), 4);
    assert!(app.addable().is_empty());
    // A removed device is offered again.
    let connected = app.connected.clone();
    app.remove_device(1, connected);
    assert_eq!(app.selected, None);
    assert_eq!(app.merge_target(), None);
    assert_eq!(app.addable().len(), 1);
}

#[test]
fn rows_are_added_and_removed() {
    let mut app = EditorApp::new(config(), vec![]);
    app.add_mapping(0);
    assert_eq!(app.devices[0].mappings[3].button, 3);
    assert_eq!(app.devices[0].mappings[3].action.kind, ActionKind::Disabled);
    app.remove_mapping(0, 0);
    let buttons: Vec<i64> = app.devices[0].mappings.iter().map(|m| m.button).collect();
    assert_eq!(buttons, vec![4, 5, 3]);
    app.add_key(0);
    assert_eq!(app.devices[0].keys[1].source, "");
    app.remove_key(0, 0);
    assert_eq!(app.devices[0].keys.len(), 1);
    app.remove_identity(0, 1);
    assert_eq!(app.devices[0].identities.len(), 2);
    assert_eq!(app.devices[0].identities[1].registry_id, None);
}

#[test]
fn stale_selection_is_given_up() {
    let mut app = EditorApp::new(config(), vec![]);
    assert_eq!(app.selection(), Some(0));
    app.selected = Some(3);
    assert_eq!(app.selection(), None);
    assert_eq!(app.selected, None);
    assert_eq!(app.selection(), None);
}

#[test]
fn presses_are_read_from_hid_values() {
    assert_eq!(
        captured_press(0x09, 1, 4, Some(8), Some(1), None),
        Some(CapturedPress { registry: 8, vendor_id: Some(1), product_id: None, button: 3 })
    );
    assert_eq!(captured_press(0x09, 1, 1, None, None, None).unwrap().registry, 0);
    assert_eq!(captured_press(0x09, 0, 4, Some(8), None, None), None);
    assert_eq!(captured_press(0x07, 1, 4, Some(8), None, None), None);
}

#[test]
fn capture_skips_the_click_that_began_it() {
    let mut app = EditorApp::new(config(), vec![]);
    let mut pending = Some(press(1, None, 9));
    app.begin_capture(1, &mut pending);
    assert_eq!((app.capturing, pending), (Some(1), None));
    pending = Some(press(1, None, 0));
    app.capture_frame(0, &mut pending);
    assert_eq!((app.capturing, pending), (Some(1), None));
    assert_eq!(app.devices[0].mappings[1].button, 4);
    // Nothing pressed yet.
    app.capture_frame(0, &mut pending);
    assert_eq!(app.capturing, Some(1));
    pending = Some(press(50, Some((1, 2)), 8));
    app.capture_frame(0, &mut pending);
    assert_eq!((app.capturing, pending), (None, None));
    assert_eq!(app.devices[0].mappings[1].button, 8);
    assert_eq!(app.capture_note, "Captured button 8.");
    // While nothing is captured a press stays pending.
    pending = Some(press(50, None, 8));
    app.capture_frame(0, &mut pending);
    assert_eq!(pending, Some(press(50, None, 8)));
}

fn capture(app: &mut EditorApp, row: usize, p: CapturedPress) -> String {
    let mut pending = None;
    app.begin_capture(row, &mut pending);
    app.capture_frame(0, &mut pending);
    pending = Some(p);
    app.capture_frame(0, &mut pending);
    app.capture_note.clone()
}

#[test]
fn capture_says_what_it_caught() {
    let mut app = EditorApp::new(config(), vec![]);
    assert_eq!(
        capture(&mut app, 0, press(50, Some((1, 2)), 0)),
        "That's your left (primary) click — it's protected and can't be remapped."
    );
    assert_eq!(app.devices[0].mappings[0].button, 3);
    assert_eq!(
        capture(&mut app, 0, press(50, Some((1, 2)), 1)),
        "Captured button 1 (right click)."
    );
    assert_eq!(app.devices[0].mappings[0].button, 1);
    assert_eq!(
        capture(&mut app, 0, press(50, Some((9, 9)), 2)),
        "Captured button 2 (middle click) — note: that press came from a different device, not this one."
    );
    // By registry id, and from an unknown sender.
    assert_eq!(capture(&mut app, 0, press(7, None, 6)), "Captured button 6.");
    assert_eq!(capture(&mut app, 0, press(0, None, 5)), "Captured button 5.");
    // A row that is gone: the press is reported all the same.
    assert_eq!(capture(&mut app, 9, press(0, None, 4)), "Captured button 4.");
    assert_eq!(app.devices[0].mappings[0].button, 5);
    // A device without any identity accepts every press.
    app.devices[0].identities.clear();
    assert_eq!(capture(&mut app, 0, press(50, None, 6)), "Captured button 6.");
}

#[test]
fn saving_is_reported() {
    let mut app = EditorApp::new(config(), vec![]);
    app.note_saved("/tmp/c.toml", Ok(()));
    assert_eq!(
        app.status,
        "Saved to /tmp/c.toml — the running app applies it automatically."
    );
    app.note_saved("/tmp/c.toml", Err("disk full".into()));
    assert_eq!(app.status, "Save failed: disk full");
}

#[test]
fn capture_touches_one_row_only() {
    let mut app = EditorApp::new(config(), vec![]);
    let before = format!("{:?}", app.to_config());
    capture(&mut app, 1, press(50, Some((1, 2)), 8));
    app.devices[0].mappings[1].button = 4;
    assert_eq!(format!("{:?}", app.to_config()), before);
    assert_eq!(app.devices[0].mappings[1].action.kind, ActionKind::Button);
}

#[test]
fn entered_buttons_spare_the_left_one() {
    let mut app = EditorApp::new(config(), vec![]);
    for (entered, button) in [(0, 1), (-5, 1), (i64::MIN, 1), (1, 1), (17, 17), (31, 31), (32, 31)] {
        app.devices[0].mappings[0].set_button(entered);
        assert_eq!(app.devices[0].mappings[0].button, button);
    }
    for (entered, button) in [(-1, 0), (0, 0), (5, 5), (31, 31), (i64::MAX, 31)] {
        app.devices[0].mappings[0].action.set_target_button(entered);
        assert_eq!(app.devices[0].mappings[0].action.target_button, button);
    }
    assert!(app.to_config().device[0].mapping.iter().all(|m| m.button != 0));
}

#[test]
fn entered_scroll_settings_stay_in_range() {
    let mut app = EditorApp::new(config(), vec![]);
    for (entered, ms) in [(0, 10), (10, 10), (90, 90), (500, 500), (u64::MAX, 500)] {
        app.set_guard(entered);
        assert_eq!(app.scroll.reversal_guard_ms, ms);
    }
    for (entered, px) in [(i64::MIN, 1), (0, 1), (12, 12), (60, 60), (61, 60)] {
        app.set_floor(entered);
        assert_eq!(app.scroll.min_tick_pixels, px);
    }
    assert!(app.scroll.jitter_filter && !app.scroll.boost_weak_ticks);
}
