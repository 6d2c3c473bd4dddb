//! What holds of every event that the engine decides about.

use vstd::prelude::*;

use crate::config::{vidpid, ActionView, ConfigView, ScrollConfig, PROTECTED_BUTTON};
use crate::engine::{
    action_events, after_hid, after_scroll, after_tap, boosted, direction, elapsed, filtered,
    in_range, initial_settings, is_glitch, keep, magnitude, mapped_action, outcome, replace,
    settings_from, tap_disabled, tick_in_range, DeviceIdent, EngineView, Injected, ScrollSettings,
    TapEvent, TapKind, TapOutcomeView, HID_USAGE_PAGE_BUTTON, HID_USAGE_PAGE_KEYBOARD, ZMOUSE_TAG,
};
use crate::mappings::{button_action, key_action};

verus! {

// ---------------------------------------------------------------------------------------------
// What is never touched
// ---------------------------------------------------------------------------------------------
/// An event that carries the engine's tag passes and changes nothing.
pub proof fn own_events_pass(s: EngineView, e: TapEvent, now: u128)
    requires
        e.user_data == ZMOUSE_TAG,
        !tap_disabled(e),
    ensures
        outcome(s, e, now) == keep(),
        after_tap(s, e, now) == s,
{
}

/// Whatever the engine injects carries its tag, and when it comes by the tap, in any state and at
/// any time, it passes and changes nothing: a remap cannot feed itself.
pub proof fn injected_events_pass(
    s: EngineView,
    e: TapEvent,
    now: u128,
    i: int,
    rest: TapEvent,
    t: EngineView,
    later: u128,
)
    requires
        0 <= i < outcome(s, e, now).inject.len(),
    ensures
        ({
            let injected = outcome(s, e, now).inject[i];
            let back = injected.seen_again(rest);
            &&& injected.tag() == ZMOUSE_TAG
            &&& back.user_data == ZMOUSE_TAG
            &&& in_range(t, back, later)
            &&& outcome(t, back, later) == keep()
            &&& after_tap(t, back, later) == t
        }),
{
}

/// The left button passes, whatever is mapped, and changes nothing.
pub proof fn left_button_passes(s: EngineView, e: TapEvent, now: u128)
    requires
        e.button == PROTECTED_BUTTON,
        e.kind is OtherMouseDown || e.kind is OtherMouseUp || e.kind is Other,
    ensures
        outcome(s, e, now) == keep(),
        after_tap(s, e, now) == s,
{
}

/// A trackpad's scrolling passes as it is, whatever the settings, and changes nothing.
pub proof fn trackpad_scrolling_passes(s: EngineView, e: TapEvent, now: u128)
    requires
        e.kind is ScrollWheel,
        e.continuous != 0,
    ensures
        outcome(s, e, now) == keep(),
        after_tap(s, e, now) == s,
{
}

/// A key typed on a device without a mapping for it passes, whatever other devices have mapped: a
/// real keyboard is never touched.
pub proof fn unmapped_keyboard_passes(s: EngineView, e: TapEvent, now: u128)
    requires
        e.kind is KeyDown || e.kind is KeyUp,
        s.last_keyboard_device is Some ==> s.last_keyboard_device->0.action_in(
            s.key_mappings,
            e.keycode,
        ) is None,
    ensures
        outcome(s, e, now) == keep(),
        after_tap(s, e, now) == s,
{
}

/// A button whose origin is unknown passes.
pub proof fn unknown_origin_passes(s: EngineView, e: TapEvent, now: u128)
    requires
        e.kind is OtherMouseDown || e.kind is OtherMouseUp,
        !s.last_device_for_button.contains_key(e.button),
    ensures
        outcome(s, e, now) == keep(),
        after_tap(s, e, now) == s,
{
}

// ---------------------------------------------------------------------------------------------
// The device behind an event
// ---------------------------------------------------------------------------------------------
/// A button is handled by the mappings of the device that pressed it just before: those under its
/// vendor/product key, or else under its registry id.
pub proof fn button_follows_its_device(
    s: EngineView,
    config: ConfigView,
    usage: u32,
    registry: u64,
    vendor_id: Option<i64>,
    product_id: Option<i64>,
    e: TapEvent,
    now: u128,
)
    requires
        s.mappings == config.button_table(),
        e.kind is OtherMouseDown || e.kind is OtherMouseUp,
        e.user_data != ZMOUSE_TAG,
        e.button == usage - 1,
    ensures
        ({
            let t = after_hid(
                s,
                HID_USAGE_PAGE_BUTTON,
                usage,
                Some(registry),
                vendor_id,
                product_id,
            );
            let stable = if vendor_id is Some && product_id is Some {
                button_action(config.device, vidpid(vendor_id->0, product_id->0), e.button)
            } else {
                None
            };
            let fallback = button_action(config.device, registry, e.button);
            outcome(t, e, now) == (if stable is Some {
                replace(action_events(stable->0, e.kind is OtherMouseDown))
            } else if fallback is Some {
                replace(action_events(fallback->0, e.kind is OtherMouseDown))
            } else {
                keep()
            })
        }),
{
}

/// A keystroke is handled by the mappings of the device that typed it just before.
pub proof fn keystroke_follows_its_device(
    s: EngineView,
    config: ConfigView,
    usage: u32,
    registry: u64,
    vendor_id: Option<i64>,
    product_id: Option<i64>,
    e: TapEvent,
    now: u128,
)
    requires
        s.key_mappings == config.key_table(),
        e.kind is KeyDown || e.kind is KeyUp,
        e.user_data != ZMOUSE_TAG,
    ensures
        ({
            let t = after_hid(
                s,
                HID_USAGE_PAGE_KEYBOARD,
                usage,
                Some(registry),
                vendor_id,
                product_id,
            );
            let stable = if vendor_id is Some && product_id is Some {
                key_action(config.device, vidpid(vendor_id->0, product_id->0), e.keycode)
            } else {
                None
            };
            let fallback = key_action(config.device, registry, e.keycode);
            outcome(t, e, now) == (if stable is Some {
                replace(action_events(stable->0, e.kind is KeyDown))
            } else if fallback is Some {
                replace(action_events(fallback->0, e.kind is KeyDown))
            } else {
                keep()
            })
        }),
{
}

/// A press on one button leaves the owner of every other button, and the keyboard, as they were.
pub proof fn press_moves_one_button(
    s: EngineView,
    usage: u32,
    registry: Option<u64>,
    vendor_id: Option<i64>,
    product_id: Option<i64>,
    other: TapEvent,
)
    requires
        other.button != usage - 1,
    ensures
        mapped_action(
            after_hid(s, HID_USAGE_PAGE_BUTTON, usage, registry, vendor_id, product_id),
            other,
        ) == mapped_action(s, other),
{
}

/// Where the vendor/product key has a mapping, the registry id plays no part: the mapping holds
/// after a reconnect.
pub proof fn stable_key_wins(
    m: Map<(u64, i64), ActionView>,
    key: u64,
    old_registry: u64,
    new_registry: u64,
    sub: i64,
)
    requires
        m.contains_key((key, sub)),
    ensures
        (DeviceIdent { registry: old_registry, vidpid: Some(key) }).action_in(m, sub) == (
        DeviceIdent { registry: new_registry, vidpid: Some(key) }).action_in(m, sub),
{
}

// ---------------------------------------------------------------------------------------------
// Press and release
// ---------------------------------------------------------------------------------------------
/// The release of a button or a key goes the way of its press: both are dropped, or neither.
pub proof fn press_and_release_agree(
    s: EngineView,
    down: TapEvent,
    up: TapEvent,
    t1: u128,
    t2: u128,
)
    requires
        ({
            ||| down.kind is KeyDown && up == (TapEvent { kind: TapKind::KeyUp, ..down })
            ||| down.kind is OtherMouseDown && up == (TapEvent {
                kind: TapKind::OtherMouseUp,
                ..down
            })
        }),
    ensures
        after_tap(s, down, t1) == s,
        outcome(after_tap(s, down, t1), up, t2).verdict == outcome(s, down, t1).verdict,
{
}

/// A keystroke is sent once for each press of its trigger: nothing on the release. A disabled
/// trigger sends nothing, and a remapped button stays down as long as its trigger.
pub proof fn actions_fire_once(action: ActionView)
    ensures
        action is Keystroke ==> action_events(action, false).len() == 0,
        action is Disabled ==> action_events(action, true).len() == 0 && action_events(
            action,
            false,
        ).len() == 0,
        action matches ActionView::Button { button } ==> action_events(action, true) == seq![
            Injected::Mouse { button, down: true, user_data: ZMOUSE_TAG },
        ] && action_events(action, false) == seq![
            Injected::Mouse { button, down: false, user_data: ZMOUSE_TAG },
        ],
{
}

// ---------------------------------------------------------------------------------------------
// Scrolling
// ---------------------------------------------------------------------------------------------
/// A dropped tick leaves the filter anchored to the last accepted one.
pub proof fn glitch_keeps_anchor(
    settings: ScrollSettings,
    last: Option<(i8, u128)>,
    e: TapEvent,
    now: u128,
)
    requires
        is_glitch(settings, last, e, now),
    ensures
        after_scroll(settings, last, e, now) == last,
{
}

/// The filter lets these through: everything while it is off, the first tick, a tick in the
/// direction of the last one, and a reversal after the guard window.
pub proof fn genuine_scrolling_passes(
    settings: ScrollSettings,
    last: Option<(i8, u128)>,
    e: TapEvent,
    now: u128,
)
    requires
        ({
            ||| !settings.filter
            ||| last is None
            ||| direction(e.line) == (last->0).0
            ||| elapsed((last->0).1, now) >= settings.guard_ms * 1_000_000
        }),
    ensures
        !is_glitch(settings, last, e, now),
{
}

/// The last accepted tick after a run of scroll events, each with its time.
pub open spec fn after_scrolls(
    settings: ScrollSettings,
    last: Option<(i8, u128)>,
    run: Seq<(TapEvent, u128)>,
) -> Option<(i8, u128)>
    decreases run.len(),
{
    if run.len() == 0 {
        last
    } else {
        after_scroll(
            settings,
            after_scrolls(settings, last, run.drop_last()),
            run.last().0,
            run.last().1,
        )
    }
}

/// However many ticks run against an accepted one within its guard window, each of them is
/// dropped.
pub proof fn glitches_within_guard_are_dropped(
    settings: ScrollSettings,
    dir: i8,
    accepted_at: u128,
    run: Seq<(TapEvent, u128)>,
)
    requires
        forall|i: int|
            0 <= i < run.len() ==> filtered(settings, (#[trigger] run[i]).0) && direction(
                run[i].0.line,
            ) != dir && elapsed(accepted_at, run[i].1) < settings.guard_ms * 1_000_000,
    ensures
        after_scrolls(settings, Some((dir, accepted_at)), run) == Some((dir, accepted_at)),
        forall|i: int|
            0 <= i < run.len() ==> is_glitch(
                settings,
                after_scrolls(settings, Some((dir, accepted_at)), run.take(i)),
                (#[trigger] run[i]).0,
                run[i].1,
            ),
    decreases run.len(),
{
    if run.len() > 0 {
        let rest = run.drop_last();
        assert forall|i: int| 0 <= i < rest.len() implies filtered(
            settings,
            (#[trigger] rest[i]).0,
        ) && direction(rest[i].0.line) != dir && elapsed(accepted_at, rest[i].1)
            < settings.guard_ms * 1_000_000 by {
            assert(rest[i] == run[i]);
        }
        glitches_within_guard_are_dropped(settings, dir, accepted_at, rest);
        assert(run.last() == run[run.len() - 1]);
        assert forall|i: int| 0 <= i < run.len() implies is_glitch(
            settings,
            after_scrolls(settings, Some((dir, accepted_at)), run.take(i)),
            (#[trigger] run[i]).0,
            run[i].1,
        ) by {
            if i < rest.len() {
                assert(rest[i] == run[i]);
                assert(rest.take(i) =~= run.take(i));
            } else {
                assert(run.take(i) =~= rest);
            }
        }
    }
}

/// A boost keeps the direction, reaches the floor exactly, never weakens a tick, and has nothing
/// more to do on the tick that it has raised.
pub proof fn boost_raises_to_the_floor(settings: ScrollSettings, e: TapEvent)
    requires
        settings.min_pixels >= 1,
        tick_in_range(settings, e),
        boosted(settings, e) is Some,
    ensures
        ({
            let b = boosted(settings, e)->0;
            &&& b.line == e.line
            &&& b.pixel == e.line * settings.min_pixels
            &&& direction(b.pixel) == direction(e.line)
            &&& magnitude(b.pixel as int) > magnitude(e.pixel as int)
            &&& boosted(settings, TapEvent { pixel: b.pixel, ..e }) is None
        }),
{
    assert(e.line > 0 && settings.min_pixels >= 1 ==> e.line * settings.min_pixels > 0)
        by (nonlinear_arith);
    assert(e.line < 0 && settings.min_pixels >= 1 ==> e.line * settings.min_pixels < 0)
        by (nonlinear_arith);
}

/// A tick that already moves as far as the floor, in either direction, is left as it is.
pub proof fn strong_ticks_are_left_alone(settings: ScrollSettings, e: TapEvent)
    requires
        magnitude(e.pixel as int) >= magnitude(e.line * settings.min_pixels),
    ensures
        boosted(settings, e) is None,
{
}

// ---------------------------------------------------------------------------------------------
// The engine as a whole
// ---------------------------------------------------------------------------------------------
/// Every operation keeps the engine valid, and so it is from the start.
pub proof fn engine_stays_valid(
    s: EngineView,
    scroll: ScrollConfig,
    page: u32,
    usage: u32,
    registry: Option<u64>,
    vendor_id: Option<i64>,
    product_id: Option<i64>,
    e: TapEvent,
    now: u128,
)
    requires
        s.valid(),
    ensures
        initial_settings().min_pixels >= 1,
        settings_from(scroll).min_pixels >= 1,
        after_hid(s, page, usage, registry, vendor_id, product_id).valid(),
        after_tap(s, e, now).valid(),
{
}

/// No event changes the tables or the settings: only a configuration does.
pub proof fn events_change_no_mapping(
    s: EngineView,
    page: u32,
    usage: u32,
    registry: Option<u64>,
    vendor_id: Option<i64>,
    product_id: Option<i64>,
    e: TapEvent,
    now: u128,
)
    ensures
        ({
            let t = after_tap(s, e, now);
            t.mappings == s.mappings && t.key_mappings == s.key_mappings && t.settings == s.settings
        }),
        ({
            let t = after_hid(s, page, usage, registry, vendor_id, product_id);
            t.mappings == s.mappings && t.key_mappings == s.key_mappings && t.settings == s.settings
        }),
{
}

/// A tap that the system has switched off comes back on, and the notice itself passes.
pub proof fn tap_heals_itself(s: EngineView, e: TapEvent, now: u128)
    requires
        s.installed,
        tap_disabled(e),
    ensures
        outcome(s, e, now) == (TapOutcomeView { reenable: true, ..keep() }),
        after_tap(s, e, now) == (EngineView { enabled: true, ..s }),
{
}

} // verus!
