//! What holds of everything that is printed, chosen in the menu, or given on the command line.

use vstd::prelude::*;
use vstd::utf8::{encode_utf8, is_ascii_chars_encode_utf8};

use crate::cli::command_of;
use crate::config::{default_scroll, ActionView, ConfigView, DeviceConfigView, ScrollConfig};
use crate::engine::{described, Injected, TapKind};
use crate::files::{config_file, fault_words, FileFault};
use crate::lists::gather;
use crate::menu::{
    boost_toggled, device_title, filter_toggled, floor_chosen, floor_values, guard_chosen,
    guard_values, preset_items,
};
use crate::probe::{arrow_of, copy_keystroke, hid_entry, logged_page, tap_entry, TARGET_BUTTON};
use crate::report::{
    bulleted, button_line, device_entry, device_report, key_line, mapping_count, problem_report,
    scroll_report,
};
use crate::text::{decimal, decimal_signed, hex_id, join, pad_left, pad_right};

verus! {

// ---------------------------------------------------------------------------------------------
// The command line
// ---------------------------------------------------------------------------------------------
/// Whether an argument is a process serial number, as some systems pass it.
pub open spec fn is_serial_number(arg: Seq<char>) -> bool {
    arg.len() >= 4 && arg[0] == '-' && arg[1] == 'p' && arg[2] == 's' && arg[3] == 'n'
}

/// Each command is named by its word alone, and by no other argument; no argument and a process
/// serial number name the menu.
#[verifier::rlimit(60)]
pub proof fn commands_are_named_by_their_words(arg: Seq<char>)
    ensures
        command_of(arg) is Menu <==> arg.len() == 0 || is_serial_number(arg) || arg == "menu"@,
        command_of(arg) is List <==> arg == "list"@,
        command_of(arg) is Tap <==> arg == "tap"@,
        command_of(arg) is Probe <==> arg == "probe"@,
        command_of(arg) is ScrollDbg <==> arg == "scrolldbg"@,
        command_of(arg) is Run <==> arg == "run"@,
        command_of(arg) is Edit <==> arg == "edit"@,
        command_of(arg) is Help <==> arg == "help"@ || arg == "-h"@ || arg == "--help"@,
{
    reveal_strlit("-psn");
    reveal_strlit("menu");
    reveal_strlit("list");
    reveal_strlit("tap");
    reveal_strlit("probe");
    reveal_strlit("scrolldbg");
    reveal_strlit("run");
    reveal_strlit("edit");
    reveal_strlit("help");
    reveal_strlit("-h");
    reveal_strlit("--help");
    if is_serial_number(arg) {
        assert(arg.take(4) =~= "-psn"@);
    }
    if arg.len() >= 4 && arg.take(4) == "-psn"@ {
        assert(arg[0] == arg.take(4)[0] && arg[1] == arg.take(4)[1]);
        assert(arg[2] == arg.take(4)[2] && arg[3] == arg.take(4)[3]);
    }
    assert("menu"@[0] == 'm' && "list"@[0] == 'l' && "tap"@[0] == 't' && "probe"@[0] == 'p');
    assert("scrolldbg"@[0] == 's' && "run"@[0] == 'r' && "edit"@[0] == 'e' && "help"@[0] == 'h');
    assert("-h"@.len() == 2 && "--help"@[1] == '-' && "--help"@[0] == '-');
}

// ---------------------------------------------------------------------------------------------
// The configuration file
// ---------------------------------------------------------------------------------------------
/// The bytes of `zmouse/config.toml`.
pub open spec fn file_bytes() -> Seq<u8> {
    seq![
        0x7Au8, 0x6D, 0x6F, 0x75, 0x73, 0x65,
        0x2Fu8, 0x63, 0x6F, 0x6E, 0x66, 0x69, 0x67,
        0x2Eu8, 0x74, 0x6F, 0x6D, 0x6C,
    ]
}

/// The configuration file is `zmouse/config.toml` below its directory, with one separator between
/// the parts; whatever the directory, nothing of it is lost.
pub proof fn config_file_is_below_its_directory(dir: Seq<u8>)
    ensures
        dir.len() == 0 || dir.last() == 0x2F ==> config_file(dir) == dir + file_bytes(),
        dir.len() > 0 && dir.last() != 0x2F ==> config_file(dir) == dir + seq![0x2Fu8]
            + file_bytes(),
{
    reveal_strlit("zmouse");
    reveal_strlit("config.toml");
    is_ascii_chars_encode_utf8("zmouse"@);
    is_ascii_chars_encode_utf8("config.toml"@);
    let name = encode_utf8("zmouse"@);
    let file = encode_utf8("config.toml"@);
    assert forall|i: int| 0 <= i < 6 implies name[i] == #[trigger] file_bytes()[i] by {
        assert("zmouse"@[i] as u8 == name[i]);
    }
    assert forall|i: int| 0 <= i < 11 implies file[i] == #[trigger] file_bytes()[i + 7] by {
        assert("config.toml"@[i] as u8 == file[i]);
    }
    assert(name + seq![0x2Fu8] + file =~= file_bytes());
    if dir.len() == 0 || dir.last() == 0x2F {
        assert((dir + name).last() == name.last());
        assert(config_file(dir) =~= dir + (name + seq![0x2Fu8] + file));
    } else {
        assert((dir.push(0x2F) + name).last() == name.last());
        assert(config_file(dir) =~= dir + seq![0x2Fu8] + (name + seq![0x2Fu8] + file));
    }
}

/// A fault names what failed, the file but for a fault that is not of a file, and the cause.
pub proof fn faults_name_file_and_cause(path: Seq<char>, cause: Seq<char>)
    ensures
        fault_words(FileFault::Read, path, cause) == "cannot read "@ + path + ": "@ + cause,
        fault_words(FileFault::Parse, path, cause) == "parse error in "@ + path + ": "@ + cause,
        fault_words(FileFault::Serialize, path, cause) == "serialize error: "@ + cause,
        fault_words(FileFault::CreateDir, path, cause) == "cannot create "@ + path + ": "@ + cause,
        fault_words(FileFault::Write, path, cause) == "cannot write "@ + path + ": "@ + cause,
{
}

/// Without a configuration all scroll cleanup is off, with a guard of 80 ms and a floor of 10
/// pixels.
pub proof fn cleanup_is_off_by_default()
    ensures
        !default_scroll().jitter_filter && !default_scroll().boost_weak_ticks,
        default_scroll().reversal_guard_ms == 80,
        default_scroll().min_tick_pixels == 10,
{
}

// ---------------------------------------------------------------------------------------------
// The menu
// ---------------------------------------------------------------------------------------------
/// Choosing a guard or a floor sets that value, at least 0 ms or 1 pixel, and switches its cleanup
/// on; a switch turns its cleanup over. Each leaves the other settings as they are.
pub proof fn menu_changes_what_it_says(s: ScrollConfig, tag: isize)
    ensures
        ({
            let t = guard_chosen(s, tag as int);
            &&& tag >= 0 ==> t.reversal_guard_ms == tag
            &&& tag < 0 ==> t.reversal_guard_ms == 0
            &&& t.jitter_filter
            &&& t.boost_weak_ticks == s.boost_weak_ticks && t.min_tick_pixels == s.min_tick_pixels
        }),
        ({
            let t = floor_chosen(s, tag as int);
            &&& tag >= 1 ==> t.min_tick_pixels == tag
            &&& tag < 1 ==> t.min_tick_pixels == 1
            &&& t.boost_weak_ticks
            &&& t.jitter_filter == s.jitter_filter && t.reversal_guard_ms == s.reversal_guard_ms
        }),
        ({
            let t = filter_toggled(s);
            &&& t.jitter_filter != s.jitter_filter
            &&& t.reversal_guard_ms == s.reversal_guard_ms && t.boost_weak_ticks
                == s.boost_weak_ticks && t.min_tick_pixels == s.min_tick_pixels
        }),
        ({
            let t = boost_toggled(s);
            &&& t.boost_weak_ticks != s.boost_weak_ticks
            &&& t.reversal_guard_ms == s.reversal_guard_ms && t.jitter_filter == s.jitter_filter
                && t.min_tick_pixels == s.min_tick_pixels
        }),
{
}

/// A submenu has an item for each value, in order, titled by the value and its unit, carrying the
/// value, and checked exactly where it is the one in force. The values on offer rise.
pub proof fn submenus_show_their_values(values: Seq<i64>, unit: Seq<char>, current: int, i: int)
    requires
        0 <= i < values.len(),
    ensures
        ({
            let items = preset_items(values, unit, current);
            &&& items.len() == values.len()
            &&& items[i].title == decimal_signed(values[i] as int) + unit
            &&& items[i].tag == values[i]
            &&& items[i].checked <==> values[i] == current
        }),
        guard_values() =~= seq![40i64, 60, 80, 100, 120, 150],
        floor_values() =~= seq![6i64, 8, 10, 14, 20],
{
}

/// A configured device is shown by its name and the number of its button mappings.
pub proof fn configured_devices_are_titled(dev: DeviceConfigView)
    ensures
        device_title(dev) == "  "@ + (match dev.name {
            Some(n) => n,
            None => "<unnamed>"@,
        }) + " — "@ + decimal(dev.mapping.len()) + " mapping(s)"@,
{
}

// ---------------------------------------------------------------------------------------------
// The summary of a configuration
// ---------------------------------------------------------------------------------------------
proof fn lemma_single_lines(n: nat, f: spec_fn(int) -> Seq<Seq<char>>)
    requires
        forall|i: int| 0 <= i < n ==> (#[trigger] f(i)).len() == 1,
    ensures
        gather(n, f).len() == n,
        forall|i: int| 0 <= i < n ==> #[trigger] gather(n, f)[i] == f(i)[0],
    decreases n,
{
    if n > 0 {
        lemma_single_lines((n - 1) as nat, f);
        assert(f(n - 1).len() == 1);
        let front = gather((n - 1) as nat, f);
        assert forall|i: int| 0 <= i < n implies #[trigger] gather(n, f)[i] == f(i)[0] by {
            if i < n - 1 {
                assert(front[i] == f(i)[0]);
            }
        }
    }
}

/// An action in words: what is held and pressed, which button it acts as, or that it is disabled.
pub proof fn actions_in_words(action: ActionView)
    ensures
        match action {
            ActionView::Disabled => described(action) == "disabled"@,
            ActionView::Button { button } => described(action) == "mouse button "@
                + decimal_signed(button as int),
            ActionView::Keystroke { key, mods } => {
                &&& mods.len() == 0 ==> described(action) == "key '"@ + key + "'"@
                &&& mods.len() > 0 ==> described(action) == join(mods, "+"@) + "+"@ + key
            },
        },
{
}

/// Problems are reported under one heading, a line each, in order, with an empty line at the end;
/// where there are none nothing is said.
pub proof fn every_problem_is_reported(problems: Seq<Seq<char>>)
    ensures
        problems.len() == 0 ==> problem_report(problems).len() == 0,
        problems.len() > 0 ==> {
            let lines = problem_report(problems);
            &&& lines.len() == problems.len() + 2
            &&& lines[0] == "Config problems (these mappings will be no-ops):"@
            &&& forall|i: int|
                0 <= i < problems.len() ==> lines[i + 1] == "  - "@ + #[trigger] problems[i]
            &&& lines.last() == ""@
        },
{
    let f = bulleted(problems);
    lemma_single_lines(problems.len(), f);
    if problems.len() > 0 {
        let lines = problem_report(problems);
        assert forall|i: int| 0 <= i < problems.len() implies lines[i + 1] == "  - "@
            + #[trigger] problems[i] by {
            assert(gather(problems.len(), f)[i] == f(i)[0]);
        }
    }
}

/// A device is summed up in a line for itself and one for each of its mappings, first those of
/// buttons, then those of keys, in order.
pub proof fn device_summary_lists_its_mappings(dev: DeviceConfigView)
    ensures
        ({
            let lines = device_report(dev);
            let m = dev.mapping.len() as int;
            &&& lines.len() == 1 + m + dev.key.len()
            &&& lines[0] == "  "@ + (match dev.name {
                Some(n) => n,
                None => "<unnamed>"@,
            }) + " ("@ + dev.ident_desc() + ")"@
            &&& forall|i: int|
                0 <= i < m ==> lines[1 + i] == "    button "@ + decimal_signed(
                    (#[trigger] dev.mapping[i]).button as int,
                ) + " -> "@ + described(dev.mapping[i].action)
            &&& forall|i: int|
                0 <= i < dev.key.len() ==> lines[1 + m + i] == "    key '"@ + (
                #[trigger] dev.key[i]).key + "' -> "@ + described(dev.key[i].action)
        }),
{
    let lines = device_report(dev);
    let m = dev.mapping.len() as int;
    let fm = button_line(dev);
    let fk = key_line(dev);
    lemma_single_lines(dev.mapping.len(), fm);
    lemma_single_lines(dev.key.len(), fk);
    assert forall|i: int| 0 <= i < m implies lines[1 + i] == "    button "@ + decimal_signed(
        (#[trigger] dev.mapping[i]).button as int,
    ) + " -> "@ + described(dev.mapping[i].action) by {
        assert(gather(dev.mapping.len(), fm)[i] == fm(i)[0]);
    }
    assert forall|i: int| 0 <= i < dev.key.len() implies lines[1 + m + i] == "    key '"@ + (
    #[trigger] dev.key[i]).key + "' -> "@ + described(dev.key[i].action) by {
        assert(gather(dev.key.len(), fk)[i] == fk(i)[0]);
    }
}

/// Mappings of both kinds are counted, device by device.
pub proof fn mappings_are_counted(
    dev: DeviceConfigView,
    xs: Seq<DeviceConfigView>,
    ys: Seq<DeviceConfigView>,
)
    ensures
        mapping_count(seq![dev]) == dev.mapping.len() + dev.key.len(),
        mapping_count(xs + ys) == mapping_count(xs) + mapping_count(ys),
    decreases ys.len(),
{
    assert(seq![dev].drop_last() =~= Seq::empty());
    assert(mapping_count(seq![dev].drop_last()) == 0);
    assert(seq![dev].last() == dev);
    if ys.len() == 0 {
        assert(xs + ys =~= xs);
    } else {
        assert((xs + ys).drop_last() =~= xs + ys.drop_last());
        assert((xs + ys).last() == ys.last());
        mappings_are_counted(dev, xs, ys.drop_last());
    }
}

/// The scroll settings that are on are named with their values, the filter first; those that are
/// off are not named.
pub proof fn scroll_settings_are_named(scroll: ScrollConfig)
    ensures
        ({
            let lines = scroll_report(scroll);
            let filter = "Scroll-wheel jitter filter: ON (reversal guard "@ + decimal(
                scroll.reversal_guard_ms as nat,
            ) + " ms)."@;
            let boost = "Weak-tick boost: ON (floor "@ + decimal_signed(
                scroll.min_tick_pixels as int,
            ) + " px/line)."@;
            match (scroll.jitter_filter, scroll.boost_weak_ticks) {
                (true, true) => lines =~= seq![filter, boost],
                (true, false) => lines =~= seq![filter],
                (false, true) => lines =~= seq![boost],
                (false, false) => lines.len() == 0,
            }
        }),
{
}

/// The summary is that of the scroll settings, then the number of mappings and every device in
/// order, with an empty line at the end; without any mapping it says so instead.
pub proof fn summary_holds_every_device(config: ConfigView, i: int)
    ensures
        ({
            let head = scroll_report(config.scroll);
            let lines = config.summary();
            &&& lines.take(head.len() as int) == head
            &&& lines.last() == ""@
            &&& mapping_count(config.device) == 0 ==> lines.len() == head.len() + 2
                && lines[head.len() as int]
                == "No mappings configured — nothing to remap. Add some to your config."@
            &&& mapping_count(config.device) > 0 ==> lines[head.len() as int] == "Loaded "@
                + decimal(mapping_count(config.device)) + " mapping(s):"@
            &&& mapping_count(config.device) > 0 && 0 <= i < config.device.len() ==> exists|
                a: Seq<Seq<char>>,
                b: Seq<Seq<char>>,
            |
                lines == #[trigger] (a + device_report(config.device[i]) + b)
        }),
{
    let head = scroll_report(config.scroll);
    let lines = config.summary();
    assert(lines.take(head.len() as int) =~= head);
    if mapping_count(config.device) > 0 && 0 <= i < config.device.len() {
        let f = device_entry(config.device);
        let n = config.device.len();
        lemma_part(n, f, i);
        let (a, b) = choose|a: Seq<Seq<char>>, b: Seq<Seq<char>>|
            gather(n, f) == #[trigger] (a + f(i) + b);
        let count = seq!["Loaded "@ + decimal(mapping_count(config.device)) + " mapping(s):"@];
        assert(lines =~= (head + count + a) + device_report(config.device[i]) + (b + seq![""@]));
    }
}

proof fn lemma_part(n: nat, f: spec_fn(int) -> Seq<Seq<char>>, i: int)
    requires
        0 <= i < n,
    ensures
        exists|a: Seq<Seq<char>>, b: Seq<Seq<char>>| gather(n, f) == #[trigger] (a + f(i) + b),
    decreases n,
{
    if i == n - 1 {
        assert(gather(n, f) =~= gather((n - 1) as nat, f) + f(i) + Seq::empty());
    } else {
        lemma_part((n - 1) as nat, f, i);
        let (a, b) = choose|a: Seq<Seq<char>>, b: Seq<Seq<char>>|
            gather((n - 1) as nat, f) == #[trigger] (a + f(i) + b);
        assert(gather(n, f) =~= a + f(i) + (b + f(n - 1)));
    }
}

// ---------------------------------------------------------------------------------------------
// The diagnostic commands
// ---------------------------------------------------------------------------------------------
/// Values of the keyboard, button and consumer pages are logged, but for a consumer control at
/// rest; each under the name of its page.
pub proof fn pages_are_logged_by_name(page: u32, value: i64)
    ensures
        logged_page(page, value) == Some("keyboard"@) || page != 0x07,
        logged_page(page, value) == Some("button"@) || page != 0x09,
        page == 0x0C && value != 0 ==> logged_page(page, value) == Some("consumer"@),
        page == 0x0C && value == 0 ==> logged_page(page, value) is None,
        page != 0x07 && page != 0x09 && page != 0x0C ==> logged_page(page, value) is None,
{
}

/// A log line of the HID stream gives the time, the device with its vendor and product, the page,
/// the usage and the value, in that order and in columns; what is not known is `<none>` or zero.
pub proof fn hid_lines_give_every_part(
    time: u64,
    registry: Option<u64>,
    vendor_id: Option<i64>,
    product_id: Option<i64>,
    page: Seq<char>,
    usage: u32,
    value: i64,
)
    ensures
        ({
            let device = match registry {
                Some(r) => decimal(r as nat),
                None => "<none>"@,
            };
            let vendor: i64 = match vendor_id {
                Some(v) => v,
                None => 0,
            };
            let product: i64 = match product_id {
                Some(p) => p,
                None => 0,
            };
            let line = "[HID] t="@ + pad_left(decimal(time as nat), 20) + " device="@ + pad_right(
                device,
                20,
            ) + " vid=0x"@ + hex_id(vendor) + " pid=0x"@ + hex_id(product) + " page="@ + pad_right(
                page,
                8,
            ) + " usage="@ + decimal(usage as nat) + " value="@ + decimal_signed(value as int);
            hid_entry(time, registry, vendor_id, product_id, page, usage, value) == line
        }),
{
}

/// A log line of the tap gives the time and the type in columns, and then the key code of a
/// keystroke, or the button of anything else.
pub proof fn tap_lines_give_key_or_button(
    time: u64,
    name: Seq<char>,
    kind: TapKind,
    keycode: i64,
    button: i64,
)
    ensures
        ({
            let head = "[TAP] t="@ + pad_left(decimal(time as nat), 20) + " type="@ + pad_right(
                name,
                16,
            ) + " "@;
            let key = kind is KeyDown || kind is KeyUp;
            &&& key ==> tap_entry(time, name, kind, keycode, button) =~= head + ("keycode="@
                + decimal_signed(keycode as int))
            &&& !key ==> tap_entry(time, name, kind, keycode, button) =~= head + ("button="@
                + decimal_signed(button as int))
        }),
{
}

/// The fixed remap is of the back button, to a press and a release of the letter C with command and
/// nothing else held, untagged.
pub proof fn demo_copies()
    ensures
        TARGET_BUTTON == 3,
        copy_keystroke().len() == 2,
        forall|i: int|
            0 <= i < 2 ==> (#[trigger] copy_keystroke()[i] matches Injected::Key {
                code,
                down,
                flags,
                user_data,
            } && code == 8 && down == (i == 0) && user_data == 0 && flags.command && !flags.shift
                && !flags.alternate && !flags.control && !flags.secondary_fn),
{
}

/// A scroll event points up where either of its movements does, down where either does and none
/// points up, and nowhere else.
pub proof fn arrows_point_where_the_wheel_turns(line: i64, up: bool, down: bool)
    ensures
        line > 0 || up ==> arrow_of(line, up, down) == "up"@,
        line <= 0 && !up && (line < 0 || down) ==> arrow_of(line, up, down) == "down"@,
        line == 0 && !up && !down ==> arrow_of(line, up, down) == "--"@,
{
}

} // verus!
