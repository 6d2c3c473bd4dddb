//! The menu bar's model: what its items say, which of them are checked, and how a click changes
//! the scroll settings.

use vstd::prelude::*;
use vstd::string::*;

use crate::config::{Config, DeviceConfigView, ScrollConfig};
use crate::text::{decimal, decimal_signed, decimal_text, signed_text, texts};
use crate::validate::name_or;

verus! {

/// An item that stands for a preset value, which it carries as its tag.
#[derive(Debug)]
pub struct PresetItem {
    pub title: String,
    pub tag: i64,
    pub checked: bool,
}

#[verifier::ext_equal]
pub struct PresetItemView {
    pub title: Seq<char>,
    pub tag: i64,
    pub checked: bool,
}

impl View for PresetItem {
    type V = PresetItemView;

    open spec fn view(&self) -> PresetItemView {
        PresetItemView { title: self.title@, tag: self.tag, checked: self.checked }
    }
}

/// The models of a list of preset items.
pub open spec fn items(v: Seq<PresetItem>) -> Seq<PresetItemView> {
    Seq::new(v.len(), |i: int| v[i]@)
}

/// The values (ms) offered for the jitter guard.
pub open spec fn guard_values() -> Seq<i64> {
    seq![40i64, 60, 80, 100, 120, 150]
}

/// The values (pixels per line) offered for the weak-tick floor.
pub open spec fn floor_values() -> Seq<i64> {
    seq![6i64, 8, 10, 14, 20]
}

/// The values (ms) offered in the "Jitter guard" submenu.
pub fn guard_presets() -> (r: Vec<i64>)
    ensures
        r@ == guard_values(),
{
    let r: Vec<i64> = vec![40, 60, 80, 100, 120, 150];
    assert(r@ =~= guard_values());
    r
}

/// The values (pixels per line) offered in the "Weak-tick floor" submenu.
pub fn floor_presets() -> (r: Vec<i64>)
    ensures
        r@ == floor_values(),
{
    let r: Vec<i64> = vec![6, 8, 10, 14, 20];
    assert(r@ =~= floor_values());
    r
}

/// The items of a preset submenu: one for each value, with its unit, checked where the value is
/// the one in force.
pub open spec fn preset_items(values: Seq<i64>, unit: Seq<char>, current: int) -> Seq<
    PresetItemView,
> {
    Seq::new(
        values.len(),
        |i: int|
            PresetItemView {
                title: decimal_signed(values[i] as int) + unit,
                tag: values[i],
                checked: values[i] == current,
            },
    )
}

fn build_items(values: &Vec<i64>, unit: &str, current: i128) -> (r: Vec<PresetItem>)
    ensures
        items(r@) == preset_items(values@, unit@, current as int),
{
    let mut out: Vec<PresetItem> = Vec::new();
    let n: usize = values.len();
    let mut i: usize = 0;
    while i < n
        invariant
            i <= n == values@.len(),
            out@.len() == i,
            forall|j: int|
                0 <= j < i ==> (#[trigger] out@[j])@ == preset_items(
                    values@,
                    unit@,
                    current as int,
                )[j],
        decreases n - i,
    {
        let mut title: String = signed_text(values[i]);
        title.append(unit);
        out.push(PresetItem { title, tag: values[i], checked: values[i] as i128 == current });
        i += 1;
    }
    assert(items(out@) =~= preset_items(values@, unit@, current as int));
    out
}

/// The items of the "Jitter guard" submenu.
pub fn guard_items(scroll: &ScrollConfig) -> (r: Vec<PresetItem>)
    ensures
        items(r@) == preset_items(guard_values(), " ms"@, scroll.reversal_guard_ms as int),
{
    build_items(&guard_presets(), " ms", scroll.reversal_guard_ms as i128)
}

/// The items of the "Weak-tick floor" submenu.
pub fn floor_items(scroll: &ScrollConfig) -> (r: Vec<PresetItem>)
    ensures
        items(r@) == preset_items(floor_values(), " px/line"@, scroll.min_tick_pixels as int),
{
    build_items(&floor_presets(), " px/line", scroll.min_tick_pixels as i128)
}

/// Scroll settings with the jitter filter switched over.
pub open spec fn filter_toggled(s: ScrollConfig) -> ScrollConfig {
    ScrollConfig { jitter_filter: !s.jitter_filter, ..s }
}

/// Scroll settings with a guard chosen, at least 0 ms; that switches the filter on.
pub open spec fn guard_chosen(s: ScrollConfig, tag: int) -> ScrollConfig {
    ScrollConfig {
        reversal_guard_ms: if tag < 0 {
            0
        } else {
            tag as u64
        },
        jitter_filter: true,
        ..s
    }
}

/// Scroll settings with the weak-tick boost switched over.
pub open spec fn boost_toggled(s: ScrollConfig) -> ScrollConfig {
    ScrollConfig { boost_weak_ticks: !s.boost_weak_ticks, ..s }
}

/// Scroll settings with a floor chosen, at least 1 pixel; that switches the boost on.
pub open spec fn floor_chosen(s: ScrollConfig, tag: int) -> ScrollConfig {
    ScrollConfig {
        min_tick_pixels: if tag < 1 {
            1
        } else {
            tag as i64
        },
        boost_weak_ticks: true,
        ..s
    }
}

/// Switches the jitter filter on or off.
pub fn toggle_scroll_filter(scroll: &mut ScrollConfig)
    ensures
        *final(scroll) == filter_toggled(*old(scroll)),
{
    scroll.jitter_filter = !scroll.jitter_filter;
}

/// Sets the jitter guard (ms) from the tag of the chosen item.
pub fn set_scroll_guard(scroll: &mut ScrollConfig, tag: isize)
    ensures
        *final(scroll) == guard_chosen(*old(scroll), tag as int),
{
    scroll.reversal_guard_ms = if tag < 0 {
        0
    } else {
        tag as u64
    };
    scroll.jitter_filter = true;
}

/// Switches the weak-tick boost on or off.
pub fn toggle_scroll_boost(scroll: &mut ScrollConfig)
    ensures
        *final(scroll) == boost_toggled(*old(scroll)),
{
    scroll.boost_weak_ticks = !scroll.boost_weak_ticks;
}

/// Sets the weak-tick floor (pixels per line) from the tag of the chosen item.
pub fn set_scroll_floor(scroll: &mut ScrollConfig, tag: isize)
    ensures
        *final(scroll) == floor_chosen(*old(scroll), tag as int),
{
    scroll.min_tick_pixels = if tag < 1 {
        1
    } else {
        tag as i64
    };
    scroll.boost_weak_ticks = true;
}

/// A switch clicked twice is where it was.
pub proof fn toggles_undo_themselves(s: ScrollConfig)
    ensures
        filter_toggled(filter_toggled(s)) == s,
        boost_toggled(boost_toggled(s)) == s,
{
}

/// After a guard has been chosen its item is the only one checked in the submenu, and the filter is
/// on; other settings are as they were.
pub proof fn chosen_guard_is_checked(s: ScrollConfig, chosen: int, i: int)
    requires
        0 <= chosen < guard_values().len(),
        0 <= i < guard_values().len(),
    ensures
        ({
            let t = guard_chosen(s, guard_values()[chosen] as int);
            &&& t.jitter_filter
            &&& t.boost_weak_ticks == s.boost_weak_ticks
            &&& t.min_tick_pixels == s.min_tick_pixels
            &&& preset_items(guard_values(), " ms"@, t.reversal_guard_ms as int)[i].checked == (i
                == chosen)
        }),
{
}

/// After a floor has been chosen its item is the only one checked in the submenu, and the boost is
/// on; other settings are as they were.
pub proof fn chosen_floor_is_checked(s: ScrollConfig, chosen: int, i: int)
    requires
        0 <= chosen < floor_values().len(),
        0 <= i < floor_values().len(),
    ensures
        ({
            let t = floor_chosen(s, floor_values()[chosen] as int);
            &&& t.boost_weak_ticks
            &&& t.jitter_filter == s.jitter_filter
            &&& t.reversal_guard_ms == s.reversal_guard_ms
            &&& preset_items(floor_values(), " px/line"@, t.min_tick_pixels as int)[i].checked == (i
                == chosen)
        }),
{
}

/// A value that is not among the presets leaves every item of the submenu unchecked.
pub proof fn custom_value_checks_no_item(values: Seq<i64>, unit: Seq<char>, current: int, i: int)
    requires
        0 <= i < values.len(),
        forall|j: int| 0 <= j < values.len() ==> #[trigger] values[j] != current,
    ensures
        !preset_items(values, unit, current)[i].checked,
{
}

/// Whether the configuration file has changed since it was last read: it is there, and its
/// modification time is another one. Times are nanoseconds from a fixed point.
pub fn should_reload(current: Option<i128>, last: Option<i128>) -> (r: bool)
    ensures
        r == (current is Some && current != last),
{
    match (current, last) {
        (Some(c), Some(l)) => c != l,
        (Some(_), None) => true,
        (None, _) => false,
    }
}

/// The title of the item that stands for a configured device.
pub open spec fn device_title(dev: DeviceConfigView) -> Seq<char> {
    "  "@ + name_or(dev.name, "<unnamed>"@) + " — "@ + decimal(dev.mapping.len())
        + " mapping(s)"@
}

/// The titles of the items that stand for the configured devices.
pub fn device_titles(config: &Config) -> (r: Vec<String>)
    ensures
        texts(r@) == Seq::new(
            config@.device.len(),
            |i: int| device_title(config@.device[i]),
        ),
{
    let mut out: Vec<String> = Vec::new();
    let n: usize = config.device.len();
    let mut i: usize = 0;
    while i < n
        invariant
            i <= n == config.device@.len(),
            out@.len() == i,
            forall|j: int|
                0 <= j < i ==> (#[trigger] out@[j])@ == device_title(config@.device[j]),
        decreases n - i,
    {
        let dev = &config.device[i];
        let mut s: String = "  ".to_owned();
        match &dev.name {
            Some(name) => s.append(name.as_str()),
            None => s.append("<unnamed>"),
        }
        s.append(" — ");
        s.append(decimal_text(dev.mapping.len() as u64).as_str());
        s.append(" mapping(s)");
        out.push(s);
        i += 1;
    }
    assert(texts(out@) =~= Seq::new(
        config@.device.len(),
        |i: int| device_title(config@.device[i]),
    ));
    out
}

} // verus!
