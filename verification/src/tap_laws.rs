//! What becomes of an input on its whole way: from the device that produced it, through the
//! configuration in force, to what the tap does about it. Everything here is said in terms of the
//! event, the configuration and the result alone.

use vstd::prelude::*;

use crate::config::{ActionView, ScrollConfig};
use crate::engine::{
    action_events, after_hid, after_tap, boosted, in_range, initial_settings, is_glitch, outcome,
    settings_from, Boost, EngineView, Injected, ScrollSettings, TapEvent, TapOutcomeView,
};
use crate::keymap::{code_of, EventFlags};
use crate::name_laws::modifier_names_set_their_flags;
use crate::text::lower;
use crate::text_laws::reads;

verus! {

// ---------------------------------------------------------------------------------------------
// Actions
// ---------------------------------------------------------------------------------------------
/// Whether a list of modifier names holds a word, in any ASCII case.
pub open spec fn spelled(mods: Seq<Seq<char>>, word: Seq<char>) -> bool {
    exists|i: int| 0 <= i < mods.len() && reads(#[trigger] mods[i], word)
}

/// Whether exactly the modifiers that a list of names spells are held.
pub open spec fn holds(flags: EventFlags, mods: Seq<Seq<char>>) -> bool {
    &&& flags.command == (spelled(mods, "cmd"@) || spelled(mods, "command"@) || spelled(
        mods,
        "super"@,
    ))
    &&& flags.shift == spelled(mods, "shift"@)
    &&& flags.alternate == (spelled(mods, "opt"@) || spelled(mods, "option"@) || spelled(
        mods,
        "alt"@,
    ))
    &&& flags.control == (spelled(mods, "ctrl"@) || spelled(mods, "control"@))
    &&& flags.secondary_fn == (spelled(mods, "fn"@) || spelled(mods, "function"@))
}

/// Whether posted events perform an action on the press or the release of its trigger.
pub open spec fn performs(events: Seq<Injected>, action: ActionView, pressed: bool) -> bool {
    match action {
        ActionView::Disabled => events.len() == 0,
        ActionView::Button { button } => {
            &&& events.len() == 1
            &&& events[0] == (Injected::Mouse { button, down: pressed, user_data: 0x5245_4D53 })
        },
        ActionView::Keystroke { key, mods } => if pressed && code_of(lower(key)) is Some {
            &&& events.len() == 2
            &&& events[0] matches Injected::Key { code, down, flags, user_data }
            &&& code == code_of(lower(key))->0 && down && holds(flags, mods) && user_data
                == 0x5245_4D53
            &&& events[1] == (Injected::Key { code, down: false, flags, user_data })
        } else {
            events.len() == 0
        },
    }
}

/// A keystroke whose key is known is, on the press of its trigger and whatever its modifiers, a
/// press and then a release of that key with exactly the named modifiers held; on the release it is
/// nothing. A button goes down and up with its trigger. A disabled trigger sends nothing.
pub proof fn actions_are_performed(action: ActionView, pressed: bool)
    ensures
        performs(action_events(action, pressed), action, pressed),
{
    if let ActionView::Keystroke { key, mods } = action {
        modifier_names_set_their_flags(mods);
    }
}

// ---------------------------------------------------------------------------------------------
// Buttons and keys
// ---------------------------------------------------------------------------------------------
/// The key under which a device is found first: the tag, its vendor and its product, sixteen bits
/// each.
pub open spec fn pair_key(vendor_id: i64, product_id: i64) -> int {
    0x8000_0000_0000_0000 + (vendor_id as int % 0x1_0000) * 0x1_0000 + product_id as int % 0x1_0000
}

/// The action that a table has for a trigger of a device: under its vendor and product where both
/// are known and the table has it there, else under its registry id.
pub open spec fn tabled(
    m: Map<(u64, i64), ActionView>,
    registry: u64,
    vendor_id: Option<i64>,
    product_id: Option<i64>,
    sub: i64,
) -> Option<ActionView> {
    let pair = (pair_key(vendor_id->0, product_id->0) as u64, sub);
    if vendor_id is Some && product_id is Some && m.contains_key(pair) {
        Some(m[pair])
    } else if m.contains_key((registry, sub)) {
        Some(m[(registry, sub)])
    } else {
        None
    }
}

/// Whether an event goes on as it is.
pub open spec fn passes(o: TapOutcomeView) -> bool {
    o.verdict is Keep && !o.reenable && o.boost is None && o.inject.len() == 0
}

/// A button that a device has just used, on a press or anything else, is dropped and performed as
/// mapped where the table has an action for that device and that button, and goes on as it is where
/// it has none. Nothing but the owner of the button changes.
pub proof fn button_is_remapped_for_its_device(
    s: EngineView,
    usage: u32,
    registry: u64,
    vendor_id: Option<i64>,
    product_id: Option<i64>,
    e: TapEvent,
    now: u128,
)
    requires
        e.kind is OtherMouseDown || e.kind is OtherMouseUp || e.kind is Other,
        e.user_data != 0x5245_4D53,
        e.button == usage - 1,
        e.button != 0,
    ensures
        ({
            let t = after_hid(s, 0x09, usage, Some(registry), vendor_id, product_id);
            let o = outcome(t, e, now);
            &&& t == (EngineView { last_device_for_button: t.last_device_for_button, ..s })
            &&& after_tap(t, e, now) == t
            &&& match tabled(s.mappings, registry, vendor_id, product_id, e.button) {
                Some(action) => o.verdict is Drop && !o.reenable && o.boost is None && performs(
                    o.inject,
                    action,
                    e.kind is OtherMouseDown,
                ),
                None => passes(o),
            }
        }),
{
    if let Some(action) = tabled(s.mappings, registry, vendor_id, product_id, e.button) {
        actions_are_performed(action, e.kind is OtherMouseDown);
    }
}

/// A key that a device has just typed is dropped and performed as mapped where the table has an
/// action for that device and that key, and goes on as it is where it has none.
pub proof fn key_is_remapped_for_its_device(
    s: EngineView,
    usage: u32,
    registry: u64,
    vendor_id: Option<i64>,
    product_id: Option<i64>,
    e: TapEvent,
    now: u128,
)
    requires
        e.kind is KeyDown || e.kind is KeyUp,
        e.user_data != 0x5245_4D53,
    ensures
        ({
            let t = after_hid(s, 0x07, usage, Some(registry), vendor_id, product_id);
            let o = outcome(t, e, now);
            &&& t == (EngineView { last_keyboard_device: t.last_keyboard_device, ..s })
            &&& after_tap(t, e, now) == t
            &&& match tabled(s.key_mappings, registry, vendor_id, product_id, e.keycode) {
                Some(action) => o.verdict is Drop && !o.reenable && o.boost is None && performs(
                    o.inject,
                    action,
                    e.kind is KeyDown,
                ),
                None => passes(o),
            }
        }),
{
    if let Some(action) = tabled(s.key_mappings, registry, vendor_id, product_id, e.keycode) {
        actions_are_performed(action, e.kind is KeyDown);
    }
}

/// What one device does is remembered until the same input comes from another one: whatever other
/// buttons and keys are used in between, a button stays with the device that used it last.
pub proof fn button_stays_with_its_device(
    s: EngineView,
    usage: u32,
    registry: u64,
    vendor_id: Option<i64>,
    product_id: Option<i64>,
    page: u32,
    other_usage: u32,
    other: Option<u64>,
    other_vendor: Option<i64>,
    other_product: Option<i64>,
    between: TapEvent,
    e: TapEvent,
    t1: u128,
    t2: u128,
)
    requires
        e.kind is OtherMouseDown || e.kind is OtherMouseUp,
        e.button == usage - 1,
        page != 0x09 || other_usage != usage || other is None,
    ensures
        ({
            let t = after_hid(s, 0x09, usage, Some(registry), vendor_id, product_id);
            let u = after_tap(
                after_hid(t, page, other_usage, other, other_vendor, other_product),
                between,
                t1,
            );
            outcome(u, e, t2) == outcome(t, e, t2)
        }),
{
}

/// The same holds of keys: whatever buttons are used and whatever passes the tap in between, a key
/// comes from the device that typed last.
pub proof fn keys_stay_with_the_device_that_types(
    s: EngineView,
    usage: u32,
    registry: u64,
    vendor_id: Option<i64>,
    product_id: Option<i64>,
    page: u32,
    other_usage: u32,
    other: Option<u64>,
    other_vendor: Option<i64>,
    other_product: Option<i64>,
    between: TapEvent,
    e: TapEvent,
    t1: u128,
    t2: u128,
)
    requires
        e.kind is KeyDown || e.kind is KeyUp,
        page != 0x07 || other is None,
    ensures
        ({
            let t = after_hid(s, 0x07, usage, Some(registry), vendor_id, product_id);
            let u = after_tap(
                after_hid(t, page, other_usage, other, other_vendor, other_product),
                between,
                t1,
            );
            outcome(u, e, t2) == outcome(t, e, t2)
        }),
{
}

/// A value of another page, or without a registry id, leaves the engine as it is.
pub proof fn unattributed_input_changes_nothing(
    s: EngineView,
    page: u32,
    usage: u32,
    registry: Option<u64>,
    vendor_id: Option<i64>,
    product_id: Option<i64>,
)
    requires
        registry is None || (page != 0x07 && page != 0x09),
    ensures
        after_hid(s, page, usage, registry, vendor_id, product_id) == s,
{
}

/// What passes whatever is mapped: an event with the engine's own tag, the left button, and a
/// button or key before any device has used it.
pub proof fn untouchable_input_passes(s: EngineView, e: TapEvent, now: u128)
    requires
        ({
            ||| e.user_data == 0x5245_4D53 && !(e.kind is TapDisabledByTimeout)
                && !(e.kind is TapDisabledByUserInput)
            ||| e.button == 0 && (e.kind is OtherMouseDown || e.kind is OtherMouseUp
                || e.kind is Other)
            ||| !s.last_device_for_button.contains_key(e.button) && (e.kind is OtherMouseDown
                || e.kind is OtherMouseUp || e.kind is Other)
            ||| s.last_keyboard_device is None && (e.kind is KeyDown || e.kind is KeyUp)
        }),
    ensures
        passes(outcome(s, e, now)),
        after_tap(s, e, now) == s,
{
}

/// The notice that the system has switched the tap off switches an installed tap on, and one that
/// is not installed stays as it is; nothing is dropped, boosted or injected.
pub proof fn switched_off_tap_comes_back(s: EngineView, e: TapEvent, now: u128)
    requires
        e.kind is TapDisabledByTimeout || e.kind is TapDisabledByUserInput,
    ensures
        ({
            let o = outcome(s, e, now);
            &&& o.verdict is Keep && o.boost is None && o.inject.len() == 0
            &&& o.reenable == s.installed
            &&& after_tap(s, e, now).enabled == (s.enabled || s.installed)
            &&& after_tap(s, e, now) == (EngineView {
                enabled: after_tap(s, e, now).enabled,
                ..s
            })
        }),
{
}

// ---------------------------------------------------------------------------------------------
// Scrolling
// ---------------------------------------------------------------------------------------------
/// What a configuration asks for is what is in force, but for a floor below one pixel, which is one
/// pixel. Before any configuration all cleanup is off.
pub proof fn configured_settings_are_in_force(scroll: ScrollConfig)
    ensures
        ({
            let set = settings_from(scroll);
            &&& set.filter == scroll.jitter_filter
            &&& set.guard_ms == scroll.reversal_guard_ms
            &&& set.boost == scroll.boost_weak_ticks
            &&& scroll.min_tick_pixels >= 1 ==> set.min_pixels == scroll.min_tick_pixels
            &&& scroll.min_tick_pixels < 1 ==> set.min_pixels == 1
        }),
        !initial_settings().filter,
        initial_settings().guard_ms == 80,
        !initial_settings().boost,
        initial_settings().min_pixels == 10,
{
}

/// Whether two movements point in opposite directions.
pub open spec fn opposite(a: int, b: int) -> bool {
    a > 0 && b < 0 || a < 0 && b > 0
}

/// Whether an event is a tick of a discrete wheel that the engine has not posted itself.
pub open spec fn is_tick(e: TapEvent) -> bool {
    e.kind is ScrollWheel && e.user_data != 0x5245_4D53 && e.continuous == 0 && e.line != 0
}

/// After a configuration has been applied, a tick that follows an accepted one is dropped exactly
/// where the filter is on, the two point in opposite directions, and the second comes less than the
/// configured guard after the first, whole milliseconds and all. The first tick itself is accepted.
pub proof fn reversal_is_dropped_within_the_guard(
    s: EngineView,
    scroll: ScrollConfig,
    first: TapEvent,
    t0: u128,
    second: TapEvent,
    t1: u128,
)
    requires
        is_tick(first),
        is_tick(second),
        s.scroll_state is None,
        t0 <= t1,
    ensures
        ({
            let c = EngineView { settings: settings_from(scroll), ..s };
            let d = after_tap(c, first, t0);
            let o = outcome(d, second, t1);
            &&& outcome(c, first, t0).verdict is Keep
            &&& o.verdict is Drop <==> scroll.jitter_filter && opposite(
                first.line as int,
                second.line as int,
            ) && t1 < t0 + scroll.reversal_guard_ms * 1_000_000
            &&& o.inject.len() == 0 && !o.reenable
            &&& o.verdict is Drop ==> o.boost is None
        }),
{
}

/// A reversal after the guard, however long after, is accepted and becomes the tick that the next
/// ones are held against; a dropped one does not.
pub proof fn accepted_tick_is_the_new_anchor(
    settings: ScrollSettings,
    s: EngineView,
    dir: i8,
    t0: u128,
    e: TapEvent,
    now: u128,
)
    requires
        s.settings == settings,
        settings.filter,
        s.scroll_state == Some((dir, t0)),
        dir == 1 || dir == -1,
        is_tick(e),
    ensures
        ({
            let glitch = opposite(dir as int, e.line as int) && settings.guard_ms > 0 && now < t0
                + settings.guard_ms * 1_000_000;
            &&& outcome(s, e, now).verdict is Drop <==> glitch
            &&& is_glitch(settings, s.scroll_state, e, now) <==> glitch
            &&& after_tap(s, e, now) == (EngineView {
                scroll_state: if glitch {
                    Some((dir, t0))
                } else if e.line > 0 {
                    Some((1i8, now))
                } else {
                    Some((-1i8, now))
                },
                ..s
            })
        }),
{
}

/// With the last accepted tick at some time and the guard past, no scroll event is a glitch.
pub proof fn nothing_is_a_glitch_after_the_guard(
    settings: ScrollSettings,
    dir: i8,
    t0: u128,
    e: TapEvent,
    now: u128,
)
    requires
        now >= t0 + settings.guard_ms * 1_000_000,
    ensures
        !is_glitch(settings, Some((dir, t0)), e, now),
{
}

/// No scroll event injects anything or switches the tap; only a notice that the tap is off does the
/// latter.
pub proof fn scrolling_posts_nothing(s: EngineView, e: TapEvent, now: u128)
    ensures
        e.kind is ScrollWheel ==> outcome(s, e, now).inject.len() == 0,
        outcome(s, e, now).reenable <==> s.installed && (e.kind is TapDisabledByTimeout
            || e.kind is TapDisabledByUserInput),
        !(e.kind is ScrollWheel) ==> outcome(s, e, now).boost is None,
{
}

/// Nothing but a tick moves the anchor of the filter, and nothing but a notice switches the engine:
/// any other event leaves it as it is.
pub proof fn other_events_leave_the_engine(s: EngineView, e: TapEvent, now: u128)
    requires
        !is_tick(e),
        !(e.kind is TapDisabledByTimeout) && !(e.kind is TapDisabledByUserInput),
    ensures
        after_tap(s, e, now) == s,
{
}

/// Scrolling that is not a tick of a discrete wheel, and all scrolling while the filter is off, is
/// kept and leaves no trace; what is not a tick is not boosted either.
pub proof fn other_scrolling_leaves_no_trace(s: EngineView, e: TapEvent, now: u128)
    requires
        e.kind is ScrollWheel,
        !s.settings.filter || !is_tick(e),
    ensures
        outcome(s, e, now).verdict is Keep,
        outcome(s, e, now).inject.len() == 0,
        !is_tick(e) ==> passes(outcome(s, e, now)),
        after_tap(s, e, now) == s,
{
}

/// The filter treats both directions alike: turning every movement round changes no verdict.
pub proof fn filter_is_symmetric(
    s: EngineView,
    e: TapEvent,
    now: u128,
    turned: EngineView,
    f: TapEvent,
)
    requires
        e.kind is ScrollWheel,
        e.line > i64::MIN,
        s.scroll_state is Some ==> (s.scroll_state->0).0 == 1 || (s.scroll_state->0).0 == -1,
        f == (TapEvent { line: (-e.line) as i64, ..e }),
        turned == (EngineView {
            scroll_state: match s.scroll_state {
                Some((dir, at)) => Some(((-dir) as i8, at)),
                None => None,
            },
            ..s
        }),
    ensures
        outcome(turned, f, now).verdict == outcome(s, e, now).verdict,
{
}

/// A weak tick, in either direction and of any number of lines, is raised to the configured floor
/// for its lines; a tick that moves at least that far is left as it is. Nothing is boosted while
/// the boost is off.
pub proof fn weak_ticks_reach_the_configured_floor(
    s: EngineView,
    scroll: ScrollConfig,
    e: TapEvent,
    now: u128,
)
    requires
        is_tick(e),
        ({
            let floor: int = if scroll.min_tick_pixels < 1 {
                1
            } else {
                scroll.min_tick_pixels as int
            };
            i64::MIN < e.line * floor <= i64::MAX
        }),
    ensures
        ({
            let c = EngineView { settings: settings_from(scroll), ..s };
            let o = outcome(c, e, now);
            let floor: int = if scroll.min_tick_pixels < 1 {
                1
            } else {
                scroll.min_tick_pixels as int
            };
            let reach = e.line * floor;
            let weak = if e.line > 0 {
                -reach < e.pixel < reach
            } else {
                reach < e.pixel < -reach
            };
            o.verdict is Keep ==> if scroll.boost_weak_ticks && weak {
                o.boost == Some(Boost { pixel: reach as i64, line: e.line })
            } else {
                o.boost is None
            }
        }),
{
    let floor: int = if scroll.min_tick_pixels < 1 {
        1
    } else {
        scroll.min_tick_pixels as int
    };
    assert(e.line > 0 && floor >= 1 ==> e.line * floor > 0) by (nonlinear_arith);
    assert(e.line < 0 && floor >= 1 ==> e.line * floor < 0) by (nonlinear_arith);
}

/// Every event can be handled but a tick whose floor, or whose own movement, has no magnitude
/// within the machine's range; and that one, too, while the boost is off.
pub proof fn only_extreme_ticks_are_out_of_range(s: EngineView, e: TapEvent, now: u128)
    ensures
        !is_tick(e) || !s.settings.boost ==> in_range(s, e, now),
        e.pixel > i64::MIN && i64::MIN < e.line * s.settings.min_pixels <= i64::MAX ==> in_range(
            s,
            e,
            now,
        ),
        outcome(s, e, now).verdict is Drop ==> in_range(s, e, now),
{
}

/// With the boost on, every discrete vertical tick that moves less than the floor for its lines is
/// boosted, to exactly that floor; no other scroll event is.
pub proof fn every_weak_tick_is_boosted(settings: ScrollSettings, e: TapEvent)
    ensures
        ({
            let reach = e.line * settings.min_pixels;
            let weak = (-reach < e.pixel < reach) || (reach < e.pixel < -reach);
            let due = settings.boost && e.continuous == 0 && e.line != 0 && weak;
            &&& boosted(settings, e) is Some <==> due
            &&& due ==> boosted(settings, e) == Some(Boost { pixel: reach as i64, line: e.line })
        }),
{
    if e.line == 0 {
        assert(e.line * settings.min_pixels == 0) by (nonlinear_arith)
            requires
                e.line == 0,
        ;
    }
}

/// A boost is symmetric too: a tick turned round is raised as far the other way.
pub proof fn boost_is_symmetric(settings: ScrollSettings, e: TapEvent, f: TapEvent)
    requires
        e.line > i64::MIN,
        e.pixel > i64::MIN,
        i64::MIN < e.line * settings.min_pixels <= i64::MAX,
        f == (TapEvent { line: (-e.line) as i64, pixel: (-e.pixel) as i64, ..e }),
    ensures
        boosted(settings, f) is Some == boosted(settings, e) is Some,
        boosted(settings, e) is Some ==> boosted(settings, f)->0.pixel == -boosted(
            settings,
            e,
        )->0.pixel,
{
    assert((-e.line) * settings.min_pixels == -(e.line * settings.min_pixels)) by (nonlinear_arith);
}

} // verus!
