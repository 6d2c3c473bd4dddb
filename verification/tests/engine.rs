use zmouse::config::{vidpid_key, Action, Config, DeviceConfig, KeyMapping, Mapping, ScrollConfig};
use zmouse::engine::{
    apply_action, apply_settings, boost_weak_scroll, describe, event_in_range, handle_tap,
    is_enabled, is_scroll_glitch, load_config, mark_installed, record_hid, send_keystroke,
    set_enabled, user_data, Boost, DeviceIdent, Engine, Injected, TapEvent, TapKind, Verdict, ZMOUSE_TAG,
};
use zmouse::keymap::combine_mods;
use zmouse::mappings::Mappings;

const MS: u128 = 1_000_000;

fn event(kind: TapKind) -> TapEvent {
    TapEvent { kind, user_data: 0, continuous: 0, line: 0, pixel: 0, keycode: 0, button: 0 }
}

fn button(kind: TapKind, button: i64) -> TapEvent {
    TapEvent { button, ..event(kind) }
}

fn scroll(line: i64, pixel: i64) -> TapEvent {
    TapEvent { line, pixel, ..event(TapKind::ScrollWheel) }
}

fn keystroke(key: &str, mods: &[&str]) -> Action {
    Action::Keystroke {
        key: key.to_string(),
        mods: mods.iter().map(|m| m.to_string()).collect(),
    }
}

/// A mouse (vendor 1, product 2) with three buttons and a key, and another one by registry id.
fn config() -> Config {
    Config {
        scroll: ScrollConfig {
            jitter_filter: true,
            reversal_guard_ms: 80,
            boost_weak_ticks: true,
            min_tick_pixels: 10,
        },
        device: vec![
            DeviceConfig {
                registry_id: None,
                vendor_id: Some(1),
                product_id: Some(2),
                also: vec![],
                name: None,
                mapping: vec![
                    Mapping { button: 3, action: keystroke("c", &["cmd"]) },
                    Mapping { button: 4, action: Action::Button { button: 2 } },
                    Mapping { button: 5, action: Action::Disabled },
                    Mapping { button: 0, action: Action::Disabled },
                ],
                key: vec![KeyMapping { key: "7".into(), action: keystroke("v", &["cmd"]) }],
            },
            DeviceConfig {
                registry_id: Some(77),
                vendor_id: None,
                product_id: None,
                also: vec![],
                name: None,
                mapping: vec![Mapping { button: 3, action: Action::Button { button: 9 } }],
                key: vec![],
            },
        ],
    }
}

fn engine() -> Engine {
    let mut e = Engine::new(Mappings::new(), Mappings::new());
    load_config(&mut e, &config());
    mark_installed(&mut e);
    e
}

fn key(code: u16, down: bool, mods: &[&str]) -> Injected {
    let mods: Vec<String> = mods.iter().map(|m| m.to_string()).collect();
    Injected::Key { code, down, flags: combine_mods(&mods), user_data: 0x5245_4D53 }
}

#[test]
fn button_is_handled_by_the_device_that_pressed_it() {
    let mut e = engine();
    record_hid(&mut e, 0x09, 4, Some(500), Some(1), Some(2));
    let r = handle_tap(&mut e, &button(TapKind::OtherMouseDown, 3), 0);
    assert_eq!(r.verdict, Verdict::Drop);
    assert_eq!(r.inject, vec![key(8, true, &["cmd"]), key(8, false, &["cmd"])]);
    // The release is dropped too, and sends nothing.
    let r = handle_tap(&mut e, &button(TapKind::OtherMouseUp, 3), 1);
    assert_eq!(r.verdict, Verdict::Drop);
    assert!(r.inject.is_empty());
    // Another mouse presses the same button: its own mapping applies.
    record_hid(&mut e, 0x09, 4, Some(77), None, None);
    let r = handle_tap(&mut e, &button(TapKind::OtherMouseDown, 3), 2);
    assert_eq!(r.inject, vec![Injected::Mouse { button: 9, down: true, user_data: 0x5245_4D53 }]);
    // A third one has none.
    record_hid(&mut e, 0x09, 4, Some(78), Some(1), Some(3));
    let r = handle_tap(&mut e, &button(TapKind::OtherMouseDown, 3), 3);
    assert_eq!(r.verdict, Verdict::Keep);
}

#[test]
fn remapped_button_stays_down_with_its_trigger() {
    let mut e = engine();
    record_hid(&mut e, 0x09, 5, Some(500), Some(1), Some(2));
    let r = handle_tap(&mut e, &button(TapKind::OtherMouseDown, 4), 0);
    assert_eq!(r.inject, vec![Injected::Mouse { button: 2, down: true, user_data: 0x5245_4D53 }]);
    let r = handle_tap(&mut e, &button(TapKind::OtherMouseUp, 4), 0);
    assert_eq!(r.inject, vec![Injected::Mouse { button: 2, down: false, user_data: 0x5245_4D53 }]);
    record_hid(&mut e, 0x09, 6, Some(500), Some(1), Some(2));
    let r = handle_tap(&mut e, &button(TapKind::OtherMouseDown, 5), 0);
    assert_eq!((r.verdict, r.inject.len()), (Verdict::Drop, 0));
}

#[test]
fn left_button_always_passes() {
    let mut e = engine();
    record_hid(&mut e, 0x09, 1, Some(500), Some(1), Some(2));
    let r = handle_tap(&mut e, &button(TapKind::OtherMouseDown, 0), 0);
    assert_eq!(r.verdict, Verdict::Keep);
    assert!(r.inject.is_empty() && !r.reenable && r.boost.is_none());
}

#[test]
fn events_of_unknown_origin_pass() {
    let mut e = engine();
    let r = handle_tap(&mut e, &button(TapKind::OtherMouseDown, 3), 0);
    assert_eq!(r.verdict, Verdict::Keep);
    // No registry id, or a page that is neither buttons nor keyboard: nothing is recorded.
    record_hid(&mut e, 0x09, 4, None, Some(1), Some(2));
    record_hid(&mut e, 0x01, 4, Some(500), Some(1), Some(2));
    let r = handle_tap(&mut e, &button(TapKind::OtherMouseDown, 3), 0);
    assert_eq!(r.verdict, Verdict::Keep);
    let r = handle_tap(&mut e, &TapEvent { keycode: 26, ..event(TapKind::KeyDown) }, 0);
    assert_eq!(r.verdict, Verdict::Keep);
}

#[test]
fn keys_are_remapped_for_their_device_only() {
    let mut e = engine();
    let seven = TapEvent { keycode: 26, ..event(TapKind::KeyDown) };
    record_hid(&mut e, 0x07, 0x24, Some(500), Some(1), Some(2));
    let r = handle_tap(&mut e, &seven, 0);
    assert_eq!(r.verdict, Verdict::Drop);
    assert_eq!(r.inject, vec![key(9, true, &["cmd"]), key(9, false, &["cmd"])]);
    let r = handle_tap(&mut e, &TapEvent { kind: TapKind::KeyUp, ..seven }, 0);
    assert_eq!((r.verdict, r.inject.len()), (Verdict::Drop, 0));
    // A real keyboard types the same key.
    record_hid(&mut e, 0x07, 0x24, Some(1), None, None);
    assert_eq!(handle_tap(&mut e, &seven, 0).verdict, Verdict::Keep);
}

#[test]
fn own_events_pass_untouched() {
    let mut e = engine();
    record_hid(&mut e, 0x09, 4, Some(500), Some(1), Some(2));
    let own = TapEvent { user_data: ZMOUSE_TAG, ..button(TapKind::OtherMouseDown, 3) };
    let r = handle_tap(&mut e, &own, 0);
    assert_eq!((r.verdict, r.inject.len()), (Verdict::Keep, 0));
    let own = TapEvent { user_data: ZMOUSE_TAG, ..scroll(1, 1) };
    let r = handle_tap(&mut e, &own, 0);
    assert_eq!((r.verdict, r.boost), (Verdict::Keep, None));
}

#[test]
fn injected_events_are_tagged_and_pass() {
    let mut e = engine();
    for (usage, b) in [(4, 3), (5, 4)] {
        record_hid(&mut e, 0x09, usage, Some(500), Some(1), Some(2));
        let r = handle_tap(&mut e, &button(TapKind::OtherMouseDown, b), 0);
        assert!(!r.inject.is_empty());
        for i in &r.inject {
            assert_eq!(user_data(i), 0x5245_4D53);
            let back = match *i {
                Injected::Key { code, down, user_data, .. } => TapEvent {
                    user_data,
                    keycode: code as i64,
                    ..event(if down { TapKind::KeyDown } else { TapKind::KeyUp })
                },
                Injected::Mouse { button: b, user_data, .. } => {
                    TapEvent { user_data, ..button(TapKind::OtherMouseDown, b) }
                }
            };
            let r = handle_tap(&mut e, &back, 1);
            assert_eq!((r.verdict, r.inject.len()), (Verdict::Keep, 0));
        }
    }
}

#[test]
fn self_mapped_button_does_not_loop() {
    let mut e = engine();
    let mut cfg = config();
    cfg.device[1].mapping[0].action = Action::Button { button: 3 };
    load_config(&mut e, &cfg);
    record_hid(&mut e, 0x09, 4, Some(77), None, None);
    let r = handle_tap(&mut e, &button(TapKind::OtherMouseDown, 3), 0);
    let back = TapEvent {
        user_data: user_data(&r.inject[0]),
        ..button(TapKind::OtherMouseDown, 3)
    };
    let r = handle_tap(&mut e, &back, 0);
    assert_eq!((r.verdict, r.inject.len()), (Verdict::Keep, 0));
}

#[test]
fn disabled_tap_is_switched_on_again() {
    let mut e = engine();
    assert!(is_enabled(&e));
    assert!(set_enabled(&mut e, false));
    assert!(!is_enabled(&e));
    let r = handle_tap(&mut e, &event(TapKind::TapDisabledByTimeout), 0);
    assert!(r.reenable && is_enabled(&e));
    assert_eq!(r.verdict, Verdict::Keep);
    let r = handle_tap(&mut e, &event(TapKind::TapDisabledByUserInput), 0);
    assert!(r.reenable);
    // Without a tap there is nothing to switch.
    let mut bare = Engine::new(Mappings::new(), Mappings::new());
    assert!(!set_enabled(&mut bare, true));
    assert!(!is_enabled(&bare));
    assert!(!handle_tap(&mut bare, &event(TapKind::TapDisabledByTimeout), 0).reenable);
}

#[test]
fn reversal_within_the_guard_is_dropped() {
    let mut e = engine();
    assert!(!is_scroll_glitch(&mut e, &scroll(1, 10), 1000 * MS));
    // Against the direction, 79.999999 ms later: dropped, and the anchor stays.
    assert!(is_scroll_glitch(&mut e, &scroll(-1, -10), 1080 * MS - 1));
    assert!(is_scroll_glitch(&mut e, &scroll(-2, -20), 1080 * MS - 1));
    // Exactly the guard later: a genuine reversal.
    assert!(!is_scroll_glitch(&mut e, &scroll(-1, -10), 1080 * MS));
    // The direction has changed over now.
    assert!(is_scroll_glitch(&mut e, &scroll(1, 10), 1081 * MS));
    assert!(!is_scroll_glitch(&mut e, &scroll(-3, -10), 1082 * MS));
    // A clock that went backwards counts as no time at all.
    assert!(is_scroll_glitch(&mut e, &scroll(1, 10), 0));
}

#[test]
fn filter_ignores_trackpads_and_horizontal_ticks() {
    let mut e = engine();
    assert!(!is_scroll_glitch(&mut e, &scroll(1, 10), 0));
    let pad = TapEvent { continuous: 1, ..scroll(-1, -10) };
    assert!(!is_scroll_glitch(&mut e, &pad, 1));
    assert!(!is_scroll_glitch(&mut e, &scroll(0, 0), 1));
    assert_eq!(handle_tap(&mut e, &scroll(-1, -1), 1).verdict, Verdict::Drop);
    let r = handle_tap(&mut e, &TapEvent { pixel: 1, ..pad }, 2);
    assert_eq!((r.verdict, r.boost), (Verdict::Keep, None));
}

#[test]
fn filter_that_is_off_drops_nothing() {
    let mut e = engine();
    let mut cfg = config();
    cfg.scroll.jitter_filter = false;
    apply_settings(&mut e, &cfg);
    assert!(!is_scroll_glitch(&mut e, &scroll(1, 10), 0));
    assert!(!is_scroll_glitch(&mut e, &scroll(-1, -10), 1));
    // The mappings are still in force.
    record_hid(&mut e, 0x09, 4, Some(500), Some(1), Some(2));
    assert_eq!(
        handle_tap(&mut e, &button(TapKind::OtherMouseDown, 3), 2).verdict,
        Verdict::Drop
    );
}

#[test]
fn weak_ticks_are_raised_to_the_floor() {
    let e = engine();
    assert_eq!(boost_weak_scroll(&e, &scroll(1, 1)), Some(Boost { pixel: 10, line: 1 }));
    assert_eq!(boost_weak_scroll(&e, &scroll(-2, -3)), Some(Boost { pixel: -20, line: -2 }));
    assert_eq!(boost_weak_scroll(&e, &scroll(1, 10)), None);
    assert_eq!(boost_weak_scroll(&e, &scroll(1, -10)), None);
    assert_eq!(boost_weak_scroll(&e, &scroll(1, 25)), None);
    assert_eq!(boost_weak_scroll(&e, &scroll(0, 1)), None);
    let mut e = e;
    let r = handle_tap(&mut e, &scroll(1, 1), 0);
    assert_eq!((r.verdict, r.boost), (Verdict::Keep, Some(Boost { pixel: 10, line: 1 })));
}

#[test]
fn floor_is_at_least_one_pixel() {
    let mut e = engine();
    let mut cfg = config();
    cfg.scroll.min_tick_pixels = -5;
    apply_settings(&mut e, &cfg);
    assert_eq!(boost_weak_scroll(&e, &scroll(3, 1)), Some(Boost { pixel: 3, line: 3 }));
    cfg.scroll.boost_weak_ticks = false;
    apply_settings(&mut e, &cfg);
    assert_eq!(boost_weak_scroll(&e, &scroll(3, 1)), None);
}

#[test]
fn range_of_a_tick_is_told_beforehand() {
    let mut e = engine();
    assert!(event_in_range(&e, &scroll(1, 1), 0));
    assert!(!event_in_range(&e, &scroll(i64::MAX / 2, 1), 0));
    assert!(!event_in_range(&e, &scroll(1, i64::MIN), 0));
    assert!(event_in_range(&e, &TapEvent { continuous: 1, ..scroll(i64::MAX, 1) }, 0));
    assert!(event_in_range(&e, &TapEvent { user_data: ZMOUSE_TAG, ..scroll(i64::MAX, 1) }, 0));
    assert!(event_in_range(&e, &button(TapKind::OtherMouseDown, 3), 0));
    // A tick that is dropped as a glitch never gets as far as the boost.
    assert!(!is_scroll_glitch(&mut e, &scroll(1, 10), 0));
    assert!(event_in_range(&e, &scroll(i64::MIN, 1), 1));
    assert_eq!(handle_tap(&mut e, &scroll(i64::MIN, 1), 1).verdict, Verdict::Drop);
}

#[test]
fn lookup_prefers_the_stable_key() {
    let mut m = Mappings::new();
    let vp = vidpid_key(1, 2);
    m.insert((vp, 3), Action::Disabled);
    m.insert((500, 3), Action::Button { button: 1 });
    m.insert((500, 4), Action::Button { button: 2 });
    let known = DeviceIdent { registry: 500, vidpid: Some(vp) };
    assert!(matches!(known.lookup(&m, 3), Some(Action::Disabled)));
    assert!(matches!(known.lookup(&m, 4), Some(Action::Button { button: 2 })));
    assert!(known.lookup(&m, 5).is_none());
    let moved = DeviceIdent { registry: 501, vidpid: Some(vp) };
    assert!(matches!(moved.lookup(&m, 3), Some(Action::Disabled)));
    assert!(moved.lookup(&m, 4).is_none());
    let plain = DeviceIdent { registry: 500, vidpid: None };
    assert!(matches!(plain.lookup(&m, 3), Some(Action::Button { button: 1 })));
}

#[test]
fn tables_keep_pairs_apart() {
    let mut m = Mappings::new();
    m.insert((0, -1), Action::Button { button: 1 });
    m.insert((0, i64::MIN), Action::Button { button: 2 });
    m.insert((u64::MAX, i64::MAX), Action::Button { button: 3 });
    m.insert((0, -1), Action::Button { button: 4 });
    assert!(matches!(m.get(&(0, -1)), Some(Action::Button { button: 4 })));
    assert!(matches!(m.get(&(0, i64::MIN)), Some(Action::Button { button: 2 })));
    assert!(matches!(m.get(&(u64::MAX, i64::MAX)), Some(Action::Button { button: 3 })));
    assert!(!m.contains_key(&(1, -1)));
    assert!(!m.contains_key(&(u64::MAX, i64::MIN)));
}

#[test]
fn actions_send_their_events() {
    assert_eq!(
        send_keystroke("V", &["Cmd".to_string()]),
        vec![key(9, true, &["cmd"]), key(9, false, &["cmd"])]
    );
    assert!(send_keystroke("nope", &[]).is_empty());
    assert!(apply_action(&keystroke("c", &[]), false).is_empty());
    assert_eq!(apply_action(&keystroke("c", &[]), true).len(), 2);
    assert!(apply_action(&Action::Disabled, true).is_empty());
}

#[test]
fn actions_in_words() {
    assert_eq!(describe(&Action::Disabled), "disabled");
    assert_eq!(describe(&Action::Button { button: 2 }), "mouse button 2");
    assert_eq!(describe(&Action::Button { button: -2 }), "mouse button -2");
    assert_eq!(describe(&keystroke("c", &[])), "key 'c'");
    assert_eq!(describe(&keystroke("c", &["cmd", "shift"])), "cmd+shift+c");
}

#[test]
fn reloading_swaps_the_tables() {
    let mut e = engine();
    record_hid(&mut e, 0x09, 4, Some(500), Some(1), Some(2));
    load_config(&mut e, &Config::default());
    let r = handle_tap(&mut e, &button(TapKind::OtherMouseDown, 3), 0);
    assert_eq!(r.verdict, Verdict::Keep);
    assert!(is_enabled(&e));
    let r = handle_tap(&mut e, &scroll(1, 1), 0);
    assert_eq!(r.boost, None);
}

#[test]
fn press_changes_the_owner_of_its_button_only() {
    let mut e = engine();
    record_hid(&mut e, 0x09, 4, Some(500), Some(1), Some(2));
    record_hid(&mut e, 0x09, 5, Some(78), None, None);
    let r = handle_tap(&mut e, &button(TapKind::OtherMouseDown, 3), 0);
    assert_eq!(r.verdict, Verdict::Drop);
    let r = handle_tap(&mut e, &button(TapKind::OtherMouseDown, 4), 0);
    assert_eq!(r.verdict, Verdict::Keep);
}

#[test]
fn release_goes_the_way_of_its_press() {
    for (b, verdict) in [(3, Verdict::Drop), (6, Verdict::Keep)] {
        let mut e = engine();
        record_hid(&mut e, 0x09, b + 1, Some(500), Some(1), Some(2));
        for kind in [TapKind::OtherMouseDown, TapKind::OtherMouseUp] {
            let r = handle_tap(&mut e, &button(kind, b as i64), 0);
            assert_eq!(r.verdict, verdict);
        }
    }
}
