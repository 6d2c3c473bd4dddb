use zmouse::config::{
    default_min_tick_pixels, default_reversal_guard_ms, identity_desc, identity_key, vidpid_key,
    Action, Config, DeviceConfig, DeviceId, KeyMapping, Mapping, ScrollConfig, PROTECTED_BUTTON,
    VIDPID_TAG,
};

fn device(registry_id: Option<u64>, vendor_id: Option<i64>, product_id: Option<i64>) -> DeviceConfig {
    DeviceConfig {
        registry_id,
        vendor_id,
        product_id,
        also: vec![],
        name: None,
        mapping: vec![],
        key: vec![],
    }
}

fn keystroke(key: &str, mods: &[&str]) -> Action {
    Action::Keystroke {
        key: key.to_string(),
        mods: mods.iter().map(|m| m.to_string()).collect(),
    }
}

fn config(device: Vec<DeviceConfig>) -> Config {
    Config { scroll: ScrollConfig::default(), device }
}

#[test]
fn vidpid_device_resolves_under_composite_key() {
    let cfg = Config {
        scroll: ScrollConfig::default(),
        device: vec![DeviceConfig {
            registry_id: None,
            vendor_id: Some(0x1532),
            product_id: Some(0x00b7),
            also: vec![],
            name: Some("Wireless Mouse".into()),
            mapping: vec![Mapping {
                button: 3,
                action: Action::Button { button: 2 },
            }],
            key: vec![],
        }],
    };
    assert!(cfg.validate().is_empty());
    let key = vidpid_key(0x1532, 0x00b7);
    // The vendor/product key is tagged above the registry-id range, so it can't collide.
    assert!(key & VIDPID_TAG != 0);
    assert!(matches!(
        cfg.resolve().get(&(key, 3)),
        Some(Action::Button { button: 2 })
    ));
    // A device with no identity at all is flagged.
    let orphan = Config {
        scroll: ScrollConfig::default(),
        device: vec![DeviceConfig {
            registry_id: None,
            vendor_id: None,
            product_id: None,
            also: vec![],
            name: None,
            mapping: vec![],
            key: vec![],
        }],
    };
    assert!(!orphan.validate().is_empty());
}

#[test]
fn grouped_device_shares_mappings_across_identities() {
    // One physical mouse, three identities (Bluetooth vid/pid, dongle pointer, dongle keyboard).
    let cfg = Config {
        scroll: ScrollConfig::default(),
        device: vec![DeviceConfig {
            registry_id: None,
            vendor_id: Some(0x068e), // Bluetooth
            product_id: Some(0x00b5),
            also: vec![
                DeviceId {
                    vendor_id: Some(0x1532), // dongle pointer
                    product_id: Some(0x00aa),
                    ..Default::default()
                },
                DeviceId {
                    registry_id: Some(4295298668), // dongle keyboard (fallback id)
                    ..Default::default()
                },
            ],
            name: Some("Naga V2 HS".into()),
            mapping: vec![Mapping {
                button: 3,
                action: Action::Button { button: 2 },
            }],
            key: vec![KeyMapping {
                key: "7".into(),
                action: Action::Keystroke {
                    key: "v".into(),
                    mods: vec!["cmd".into()],
                },
            }],
        }],
    };
    assert!(cfg.validate().is_empty());
    let buttons = cfg.resolve();
    // The button mapping is reachable under every identity.
    assert!(buttons.contains_key(&(vidpid_key(0x068e, 0x00b5), 3)));
    assert!(buttons.contains_key(&(vidpid_key(0x1532, 0x00aa), 3)));
    assert!(buttons.contains_key(&(4295298668, 3)));
    // The key mapping ("7" -> keycode 26) too.
    let keys = cfg.resolve_keys();
    assert!(keys.contains_key(&(vidpid_key(0x068e, 0x00b5), 26)));
    assert!(keys.contains_key(&(4295298668, 26)));
}

#[test]
fn scroll_cleanup_is_off_by_default() {
    let d = ScrollConfig::default();
    assert!(!d.jitter_filter);
    assert_eq!(d.reversal_guard_ms, 80);
    assert!(!d.boost_weak_ticks);
    assert_eq!(d.min_tick_pixels, 10);
    assert_eq!(default_reversal_guard_ms(), 80);
    assert_eq!(default_min_tick_pixels(), 10);
    assert!(Config::default().device.is_empty());
    assert_eq!(Config::default().scroll, d);
}

#[test]
fn vidpid_key_packs_low_sixteen_bits() {
    assert_eq!(vidpid_key(0x1532, 0x00b7), 0x8000_0000_1532_00b7);
    assert_eq!(vidpid_key(0, 0), VIDPID_TAG);
    assert_eq!(vidpid_key(-1, 0x1_0002), 0x8000_0000_ffff_0002);
    assert_ne!(vidpid_key(1, 2), vidpid_key(2, 1));
}

#[test]
fn identity_prefers_vendor_and_product() {
    assert_eq!(identity_key(Some(7), Some(1), Some(2)), Some(vidpid_key(1, 2)));
    assert_eq!(identity_key(Some(7), Some(1), None), Some(7));
    assert_eq!(identity_key(Some(7), None, Some(2)), Some(7));
    assert_eq!(identity_key(None, Some(1), None), None);
    assert_eq!(
        identity_desc(Some(7), Some(0x1532), Some(0xb7)),
        "vendor 0x1532 product 0x00b7"
    );
    assert_eq!(identity_desc(Some(4295298668), Some(1), None), "registry_id 4295298668");
    assert_eq!(identity_desc(None, None, Some(1)), "<no identity>");
    assert_eq!(
        identity_desc(None, Some(-1), Some(0x12345)),
        "vendor 0xffffffffffffffff product 0x12345"
    );
}

#[test]
fn identity_survives_a_new_registry_id() {
    assert_eq!(
        identity_key(Some(1), Some(0x68e), Some(0xb5)),
        identity_key(Some(2), Some(0x68e), Some(0xb5))
    );
}

#[test]
fn device_id_key_and_words() {
    let id = DeviceId { registry_id: Some(9), ..Default::default() };
    assert_eq!(id.device_key(), Some(9));
    assert_eq!(id.desc(), "registry_id 9");
    let copy = id.clone();
    assert_eq!(copy.registry_id, Some(9));
    assert_eq!(copy.label, None);
}

#[test]
fn device_lists_keys_and_identities_in_order() {
    let mut d = device(Some(5), None, None);
    assert_eq!(d.device_key(), Some(5));
    assert_eq!(d.ident_desc(), "registry_id 5");
    d.also = vec![
        DeviceId { vendor_id: Some(1), product_id: Some(2), ..Default::default() },
        DeviceId { vendor_id: Some(1), ..Default::default() },
        DeviceId { registry_id: Some(6), ..Default::default() },
    ];
    assert_eq!(d.device_keys(), vec![5, vidpid_key(1, 2), 6]);
    assert_eq!(
        d.ident_desc(),
        "registry_id 5 (+ vendor 0x0001 product 0x0002, <no identity>, registry_id 6)"
    );
    let ids = d.identities();
    assert_eq!(ids.len(), 4);
    assert_eq!(ids[0].registry_id, Some(5));
    assert_eq!(ids[3].registry_id, Some(6));
    d.registry_id = None;
    assert_eq!(d.identities().len(), 3);
}

#[test]
fn left_button_is_left_out_of_the_table() {
    let mut d = device(Some(5), None, None);
    d.mapping = vec![
        Mapping { button: PROTECTED_BUTTON, action: Action::Disabled },
        Mapping { button: -1, action: Action::Disabled },
    ];
    let t = config(vec![d]).resolve();
    assert!(!t.contains_key(&(5, 0)));
    assert!(t.get(&(5, 0)).is_none());
    assert!(matches!(t.get(&(5, -1)), Some(Action::Disabled)));
}

#[test]
fn the_last_mapping_wins() {
    let mut a = device(Some(5), None, None);
    a.mapping = vec![
        Mapping { button: 3, action: Action::Button { button: 10 } },
        Mapping { button: 3, action: Action::Button { button: 11 } },
        Mapping { button: 4, action: Action::Button { button: 12 } },
    ];
    let mut b = device(Some(5), None, None);
    b.mapping = vec![Mapping { button: 4, action: Action::Button { button: 13 } }];
    let t = config(vec![a, b]).resolve();
    assert!(matches!(t.get(&(5, 3)), Some(Action::Button { button: 11 })));
    assert!(matches!(t.get(&(5, 4)), Some(Action::Button { button: 13 })));
    assert!(t.get(&(5, 5)).is_none());
}

#[test]
fn one_mouse_does_not_affect_another() {
    let mut a = device(Some(5), None, None);
    a.mapping = vec![Mapping { button: 3, action: Action::Disabled }];
    a.key = vec![KeyMapping { key: "7".into(), action: Action::Disabled }];
    let mut b = device(Some(6), None, None);
    b.mapping = vec![Mapping { button: 4, action: Action::Disabled }];
    let cfg = config(vec![a, b]);
    let t = cfg.resolve();
    assert!(t.contains_key(&(5, 3)) && t.contains_key(&(6, 4)));
    assert!(!t.contains_key(&(5, 4)) && !t.contains_key(&(6, 3)));
    let k = cfg.resolve_keys();
    assert!(k.contains_key(&(5, 26)) && !k.contains_key(&(6, 26)));
}

#[test]
fn unknown_source_keys_are_skipped() {
    let mut d = device(Some(42), None, None);
    d.key = vec![
        KeyMapping { key: "nope".into(), action: Action::Disabled },
        KeyMapping { key: "7".into(), action: keystroke("v", &["cmd"]) },
        KeyMapping { key: "=".into(), action: keystroke("x", &[]) },
    ];
    let keys = config(vec![d]).resolve_keys();
    assert!(matches!(keys.get(&(42, 26)), Some(Action::Keystroke { key, mods })
        if key == "v" && mods == &["cmd".to_string()]));
    assert!(keys.contains_key(&(42, 24)));
    assert!(!keys.contains_key(&(42, 0)));
}

#[test]
fn validation_names_every_problem() {
    let mut orphan = device(None, Some(1), None);
    orphan.name = Some("Ghost".into());
    let mut d = device(Some(5), None, None);
    d.also = vec![DeviceId::default()];
    d.mapping = vec![
        Mapping { button: 0, action: keystroke("hyper", &["cmd", "meta"]) },
        Mapping { button: 3, action: Action::Disabled },
    ];
    d.key = vec![
        KeyMapping { key: "zz".into(), action: keystroke("yy", &["bogus"]) },
        KeyMapping { key: "7".into(), action: Action::Button { button: 2 } },
    ];
    let id = "registry_id 5 (+ <no identity>)";
    assert_eq!(
        config(vec![device(None, None, None), orphan, d]).validate(),
        vec![
            "device '<unnamed>' has no identity: set vendor_id+product_id or registry_id".to_string(),
            "device 'Ghost' has no identity: set vendor_id+product_id or registry_id".to_string(),
            format!("device {id} has an `also` entry with no identity (needs vendor_id+product_id or registry_id)"),
            format!("device {id} button 0: the left (primary) button is protected and won't be remapped"),
            format!("device {id} button 0: unknown key 'hyper'"),
            format!("device {id} button 0: unknown modifier 'meta'"),
            format!("device {id} key 'zz': unknown source key"),
            format!("device {id} key 'zz': unknown target key 'yy'"),
            format!("device {id} key 'zz': unknown modifier 'bogus'"),
        ]
    );
}

#[test]
fn clean_configuration_has_no_problems() {
    let mut d = device(Some(5), None, None);
    d.mapping = vec![Mapping { button: 3, action: keystroke("C", &["CMD", "Shift"]) }];
    d.key = vec![KeyMapping { key: "PageUp".into(), action: keystroke("esc", &["fn"]) }];
    assert!(config(vec![d]).validate().is_empty());
    assert!(Config::default().validate().is_empty());
}

#[test]
fn keystroke_mapping_resolves_to_its_key_code() {
    let cfg = config(vec![DeviceConfig {
        name: Some("Test Mouse".into()),
        mapping: vec![
            Mapping { button: 3, action: keystroke("c", &["cmd"]) },
            Mapping { button: 4, action: Action::Button { button: 2 } },
            Mapping { button: 5, action: Action::Disabled },
        ],
        key: vec![KeyMapping { key: "7".into(), action: keystroke("v", &["cmd"]) }],
        ..device(Some(42), None, None)
    }]);
    let keys = cfg.resolve_keys();
    assert!(matches!(keys.get(&(42, 26)), Some(Action::Keystroke { key, .. }) if key == "v"));
    let buttons = cfg.resolve();
    assert!(matches!(buttons.get(&(42, 5)), Some(Action::Disabled)));
    assert!(
        matches!(buttons.get(&(42, 3)), Some(Action::Keystroke { key, mods })
        if key == "c" && mods == &["cmd".to_string()])
    );
}
