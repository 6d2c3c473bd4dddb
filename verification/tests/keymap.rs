use zmouse::keymap::{combine_mods, key_code, modifier_flag, EventFlags};

fn names(v: &[&str]) -> Vec<String> {
    v.iter().map(|s| s.to_string()).collect()
}

#[test]
fn key_names_fold_case() {
    assert_eq!(key_code("C"), Some(8));
    assert_eq!(key_code("c"), Some(8));
    assert_eq!(key_code("Forward_Delete"), Some(117));
    assert_eq!(key_code("PAGEUP"), key_code("page_up"));
}

#[test]
fn key_table_spot_values() {
    for (name, code) in [
        ("a", 0),
        ("m", 46),
        ("0", 29),
        ("5", 23),
        ("7", 26),
        ("return", 36),
        ("enter", 36),
        ("backspace", 51),
        ("esc", 53),
        ("left", 123),
        ("up", 126),
        ("f1", 122),
        ("f12", 111),
        ("-", 27),
        ("minus", 27),
        ("=", 24),
        ("\\", 42),
        ("'", 39),
        ("`", 50),
        ("grave", 50),
    ] {
        assert_eq!(key_code(name), Some(code), "{name}");
    }
}

#[test]
fn unknown_keys_have_no_code() {
    for name in ["", "f13", "aa", "é", "É", " c", "K"] {
        assert_eq!(key_code(name), if name == "K" { Some(40) } else { None }, "{name}");
    }
}

#[test]
fn modifier_names_and_bits() {
    assert_eq!(modifier_flag("Super").unwrap().bits(), 0x0010_0000);
    assert_eq!(modifier_flag("shift").unwrap().bits(), 0x0002_0000);
    assert_eq!(modifier_flag("ALT").unwrap().bits(), 0x0008_0000);
    assert_eq!(modifier_flag("control").unwrap().bits(), 0x0004_0000);
    assert_eq!(modifier_flag("function").unwrap().bits(), 0x0080_0000);
    assert_eq!(modifier_flag("meta"), None);
}

#[test]
fn combining_ignores_order_repetition_and_unknown_names() {
    let a = combine_mods(&names(&["cmd", "shift"]));
    assert_eq!(a.bits(), 0x0012_0000);
    assert_eq!(a, combine_mods(&names(&["Shift", "command", "nope", "cmd"])));
    assert_eq!(combine_mods(&names(&[])), EventFlags::empty());
    assert_eq!(combine_mods(&names(&["nope"])).bits(), 0);
    let all = combine_mods(&names(&["fn", "ctrl", "opt", "shift", "cmd"]));
    assert_eq!(all.bits(), 0x009e_0000);
    assert_eq!(
        a.union(modifier_flag("fn").unwrap()),
        combine_mods(&names(&["cmd", "shift", "fn"]))
    );
}
