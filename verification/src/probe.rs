//! The diagnostic commands: the lines that `probe` logs, the direction that `scrolldbg` shows, and
//! the fixed remap of `tap`.

use vstd::prelude::*;
use vstd::string::*;

use crate::engine::{Injected, TapKind, Verdict, HID_USAGE_PAGE_BUTTON, HID_USAGE_PAGE_KEYBOARD};
use crate::hid::{id_or_zero, registry_or_none, registry_text};
use crate::keymap::{command_flag, EventFlags};
use crate::text::{
    decimal, decimal_signed, decimal_text, hex_id, hex_id_text, pad_left, pad_right, padded_left,
    padded_right, signed_text,
};

verus! {

/// HID usage page of consumer controls.
pub const HID_USAGE_PAGE_CONSUMER: u32 = 0x0C;

/// The name of the page of an HID value worth logging. Pages that no button uses are left out, and
/// so are the idle values of the consumer page.
pub open spec fn logged_page(usage_page: u32, value: i64) -> Option<Seq<char>> {
    if usage_page == HID_USAGE_PAGE_KEYBOARD {
        Some("keyboard"@)
    } else if usage_page == HID_USAGE_PAGE_BUTTON {
        Some("button"@)
    } else if usage_page == HID_USAGE_PAGE_CONSUMER && value != 0 {
        Some("consumer"@)
    } else {
        None
    }
}

/// Whether an HID value is worth logging, and under which page name.
pub fn page_name(usage_page: u32, value: i64) -> (r: Option<&'static str>)
    ensures
        r is Some == logged_page(usage_page, value) is Some,
        r is Some ==> r->0@ == logged_page(usage_page, value)->0,
{
    if usage_page == HID_USAGE_PAGE_KEYBOARD {
        Some("keyboard")
    } else if usage_page == HID_USAGE_PAGE_BUTTON {
        Some("button")
    } else if usage_page == HID_USAGE_PAGE_CONSUMER && value != 0 {
        Some("consumer")
    } else {
        None
    }
}

/// The log line of an HID value.
pub open spec fn hid_entry(
    time: u64,
    registry: Option<u64>,
    vendor_id: Option<i64>,
    product_id: Option<i64>,
    page: Seq<char>,
    usage: u32,
    value: i64,
) -> Seq<char> {
    "[HID] t="@ + pad_left(decimal(time as nat), 20) + " device="@ + pad_right(
        registry_or_none(registry),
        20,
    ) + " vid=0x"@ + hex_id(id_or_zero(vendor_id)) + " pid=0x"@ + hex_id(id_or_zero(product_id))
        + " page="@ + pad_right(page, 8) + " usage="@ + decimal(usage as nat) + " value="@
        + decimal_signed(value as int)
}

/// Renders the log line of an HID value.
pub fn hid_line(
    time: u64,
    registry: Option<u64>,
    vendor_id: Option<i64>,
    product_id: Option<i64>,
    page: &str,
    usage: u32,
    value: i64,
) -> (r: String)
    ensures
        r@ == hid_entry(time, registry, vendor_id, product_id, page@, usage, value),
{
    let vendor: i64 = match vendor_id {
        Some(v) => v,
        None => 0,
    };
    let product: i64 = match product_id {
        Some(p) => p,
        None => 0,
    };
    let mut s: String = "[HID] t=".to_owned();
    s.append(padded_left(decimal_text(time).as_str(), 20).as_str());
    s.append(" device=");
    s.append(padded_right(registry_text(registry).as_str(), 20).as_str());
    s.append(" vid=0x");
    s.append(hex_id_text(vendor).as_str());
    s.append(" pid=0x");
    s.append(hex_id_text(product).as_str());
    s.append(" page=");
    s.append(padded_right(page, 8).as_str());
    s.append(" usage=");
    s.append(decimal_text(usage as u64).as_str());
    s.append(" value=");
    s.append(signed_text(value).as_str());
    s
}

/// The log line of an event at the tap: its key code where it is a keystroke, else its button.
pub open spec fn tap_entry(
    time: u64,
    kind_name: Seq<char>,
    kind: TapKind,
    keycode: i64,
    button: i64,
) -> Seq<char> {
    "[TAP] t="@ + pad_left(decimal(time as nat), 20) + " type="@ + pad_right(kind_name, 16) + " "@
        + if kind is KeyDown || kind is KeyUp {
        "keycode="@ + decimal_signed(keycode as int)
    } else {
        "button="@ + decimal_signed(button as int)
    }
}

/// Renders the log line of an event at the tap.
pub fn tap_line(time: u64, kind_name: &str, kind: TapKind, keycode: i64, button: i64) -> (r: String)
    ensures
        r@ == tap_entry(time, kind_name@, kind, keycode, button),
{
    let mut s: String = "[TAP] t=".to_owned();
    s.append(padded_left(decimal_text(time).as_str(), 20).as_str());
    s.append(" type=");
    s.append(padded_right(kind_name, 16).as_str());
    s.append(" ");
    let mut detail: String = String::new();
    if matches!(kind, TapKind::KeyDown | TapKind::KeyUp) {
        detail.append("keycode=");
        detail.append(signed_text(keycode).as_str());
        assert(detail@ =~= "keycode="@ + decimal_signed(keycode as int));
    } else {
        detail.append("button=");
        detail.append(signed_text(button).as_str());
        assert(detail@ =~= "button="@ + decimal_signed(button as int));
    }
    s.append(detail.as_str());
    s
}

/// The direction of a scroll event by its line movement and by the sign of its fixed-point
/// movement; upward movement in either counts first.
pub open spec fn arrow_of(line: i64, fixed_up: bool, fixed_down: bool) -> Seq<char> {
    if line > 0 || fixed_up {
        "up"@
    } else if line < 0 || fixed_down {
        "down"@
    } else {
        "--"@
    }
}

/// The direction of a scroll event, for display.
pub fn scroll_arrow(line: i64, fixed_up: bool, fixed_down: bool) -> (r: &'static str)
    ensures
        r@ == arrow_of(line, fixed_up, fixed_down),
{
    if line > 0 || fixed_up {
        "up"
    } else if line < 0 || fixed_down {
        "down"
    } else {
        "--"
    }
}

/// The button that the `tap` command remaps: "back".
pub const TARGET_BUTTON: i64 = 3;

/// Virtual key code of the letter C.
pub const KEY_C: u16 = 8;

/// The keystroke that the `tap` command sends: Cmd+C, without a tag.
pub open spec fn copy_keystroke() -> Seq<Injected> {
    seq![
        Injected::Key { code: KEY_C, down: true, flags: command_flag(), user_data: 0 },
        Injected::Key { code: KEY_C, down: false, flags: command_flag(), user_data: 0 },
    ]
}

/// What the `tap` command does about a button event: its target's press becomes the keystroke, its
/// release is swallowed, everything else passes.
pub fn demo_remap(kind: TapKind, button: i64) -> (r: (Verdict, Vec<Injected>))
    ensures
        (r.0 is Drop) == (button == TARGET_BUTTON && (kind is OtherMouseDown
            || kind is OtherMouseUp)),
        r.1@ == (if button == TARGET_BUTTON && kind is OtherMouseDown {
            copy_keystroke()
        } else {
            Seq::empty()
        }),
{
    let mut inject: Vec<Injected> = Vec::new();
    if button != TARGET_BUTTON {
        return (Verdict::Keep, inject);
    }
    match kind {
        TapKind::OtherMouseDown => {
            let mut flags: EventFlags = EventFlags::empty();
            flags.command = true;
            inject.push(Injected::Key { code: KEY_C, down: true, flags, user_data: 0 });
            inject.push(Injected::Key { code: KEY_C, down: false, flags, user_data: 0 });
            assert(inject@ =~= copy_keystroke());
            (Verdict::Drop, inject)
        },
        TapKind::OtherMouseUp => (Verdict::Drop, inject),
        _ => (Verdict::Keep, inject),
    }
}

} // verus!
