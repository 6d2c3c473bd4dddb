//! The per-device mapping engine: what to do with each intercepted event.
//!
//! Two streams meet here. The HID stream says which device produced a button or a keystroke; the
//! event tap, which sees the same input a moment later on the same thread, lets the engine keep,
//! drop, rewrite or replace it. The engine only decides: the caller reads the events, hands them
//! in as plain values, and carries out the outcome.

use std::collections::HashMap;

use vstd::prelude::*;
use vstd::string::*;

use crate::config::{vidpid, vidpid_key, Action, ActionView, Config, ScrollConfig, PROTECTED_BUTTON};
use crate::keymap::{code_of, combine_mods, flags_named, key_code, EventFlags};
use crate::mappings::{at, Mappings};
use crate::text::{decimal_signed, join, joined, lower, signed_text, texts};

verus! {

broadcast use vstd::std_specs::hash::group_hash_axioms;

/// HID usage page of mouse buttons.
pub const HID_USAGE_PAGE_BUTTON: u32 = 0x09;

/// HID usage page of keyboards.
pub const HID_USAGE_PAGE_KEYBOARD: u32 = 0x07;

/// The user data of every event that is posted for a mapping, by which the tap lets it pass instead
/// of handling it again.
pub const ZMOUSE_TAG: i64 = 0x5245_4D53;

/// The device that produced an HID event, under both keys that a mapping may use.
#[derive(Clone, Copy, Debug, PartialEq, Eq, Structural)]
pub struct DeviceIdent {
    pub registry: u64,
    pub vidpid: Option<u64>,
}

/// The kinds of event that reach the tap.
#[derive(Clone, Copy, Debug, PartialEq, Eq, Structural)]
pub enum TapKind {
    TapDisabledByTimeout,
    TapDisabledByUserInput,
    ScrollWheel,
    KeyDown,
    KeyUp,
    OtherMouseDown,
    OtherMouseUp,
    Other,
}

/// An event at the tap: its kind and the fields that a decision may read.
#[derive(Clone, Copy, Debug, PartialEq, Eq, Structural)]
pub struct TapEvent {
    pub kind: TapKind,
    /// The event source's user data: the tag of an event that the engine asked for.
    pub user_data: i64,
    /// Not zero for a trackpad's continuous scrolling.
    pub continuous: i64,
    /// Vertical scroll movement in lines.
    pub line: i64,
    /// Vertical scroll movement in pixels.
    pub pixel: i64,
    pub keycode: i64,
    pub button: i64,
}

/// Whether the intercepted event goes on to the applications.
#[derive(Clone, Copy, Debug, PartialEq, Eq, Structural)]
pub enum Verdict {
    Keep,
    Drop,
}

/// An event to post in place of another one. Its user data is what the tap reads of it when it
/// comes by; 0 stands for none.
#[derive(Clone, Copy, Debug, PartialEq, Eq, Structural)]
pub enum Injected {
    Key { code: u16, down: bool, flags: EventFlags, user_data: i64 },
    Mouse { button: i64, down: bool, user_data: i64 },
}

/// The stronger movement to write into a weak scroll tick.
#[derive(Clone, Copy, Debug, PartialEq, Eq, Structural)]
pub struct Boost {
    pub pixel: i64,
    pub line: i64,
}

/// What to do about an event at the tap.
#[derive(Debug)]
pub struct TapOutcome {
    pub verdict: Verdict,
    /// The system has switched the tap off: switch it on again.
    pub reenable: bool,
    pub boost: Option<Boost>,
    /// Events to post, in order.
    pub inject: Vec<Injected>,
}

#[verifier::ext_equal]
pub struct TapOutcomeView {
    pub verdict: Verdict,
    pub reenable: bool,
    pub boost: Option<Boost>,
    pub inject: Seq<Injected>,
}

impl View for TapOutcome {
    type V = TapOutcomeView;

    open spec fn view(&self) -> TapOutcomeView {
        TapOutcomeView {
            verdict: self.verdict,
            reenable: self.reenable,
            boost: self.boost,
            inject: self.inject@,
        }
    }
}

/// The scroll settings in force.
#[derive(Clone, Copy, Debug, PartialEq, Eq, Structural)]
pub struct ScrollSettings {
    pub filter: bool,
    pub guard_ms: u64,
    pub boost: bool,
    pub min_pixels: i64,
}

/// The engine's state.
pub struct Engine {
    mappings: Mappings,
    key_mappings: Mappings,
    /// Button number to the device that last used it.
    last_device_for_button: HashMap<i64, DeviceIdent>,
    /// The device that last typed.
    last_keyboard_device: Option<DeviceIdent>,
    /// Direction and time of the last accepted scroll tick.
    scroll_state: Option<(i8, u128)>,
    settings: ScrollSettings,
    enabled: bool,
    installed: bool,
}

#[verifier::ext_equal]
pub struct EngineView {
    pub mappings: Map<(u64, i64), ActionView>,
    pub key_mappings: Map<(u64, i64), ActionView>,
    pub last_device_for_button: Map<i64, DeviceIdent>,
    pub last_keyboard_device: Option<DeviceIdent>,
    pub scroll_state: Option<(i8, u128)>,
    pub settings: ScrollSettings,
    pub enabled: bool,
    pub installed: bool,
}

impl View for Engine {
    type V = EngineView;

    closed spec fn view(&self) -> EngineView {
        EngineView {
            mappings: self.mappings@,
            key_mappings: self.key_mappings@,
            last_device_for_button: self.last_device_for_button@,
            last_keyboard_device: self.last_keyboard_device,
            scroll_state: self.scroll_state,
            settings: self.settings,
            enabled: self.enabled,
            installed: self.installed,
        }
    }
}

// ---------------------------------------------------------------------------------------------
// Lookup
// ---------------------------------------------------------------------------------------------
impl DeviceIdent {
    /// The action that a table holds for this device: under its vendor/product key, or else under
    /// its registry id.
    pub open spec fn action_in(
        self,
        m: Map<(u64, i64), ActionView>,
        sub: i64,
    ) -> Option<ActionView> {
        if self.vidpid is Some && m.contains_key((self.vidpid->0, sub)) {
            Some(m[(self.vidpid->0, sub)])
        } else {
            at(m, self.registry, sub)
        }
    }

    /// Finds this device's action for a button number or a key code.
    pub fn lookup<'a>(&self, map: &'a Mappings, sub: i64) -> (r: Option<&'a Action>)
        ensures
            r is Some == self.action_in(map@, sub) is Some,
            r is Some ==> r->0@ == self.action_in(map@, sub)->0,
    {
        if let Some(vp) = self.vidpid {
            if let Some(a) = map.get(&(vp, sub)) {
                return Some(a);
            }
        }
        map.get(&(self.registry, sub))
    }
}

// ---------------------------------------------------------------------------------------------
// Actions
// ---------------------------------------------------------------------------------------------
impl Injected {
    /// The user data that the event carries.
    pub open spec fn tag(self) -> i64 {
        match self {
            Injected::Key { user_data, .. } => user_data,
            Injected::Mouse { user_data, .. } => user_data,
        }
    }

    /// The event as it comes by the tap once it has been posted. What the posting does not set is
    /// as in `rest`.
    pub open spec fn seen_again(self, rest: TapEvent) -> TapEvent {
        match self {
            Injected::Key { code, down, user_data, .. } => TapEvent {
                kind: if down {
                    TapKind::KeyDown
                } else {
                    TapKind::KeyUp
                },
                user_data,
                keycode: code as i64,
                ..rest
            },
            Injected::Mouse { button, down, user_data } => TapEvent {
                kind: if down {
                    TapKind::OtherMouseDown
                } else {
                    TapKind::OtherMouseUp
                },
                user_data,
                button,
                ..rest
            },
        }
    }
}

/// The user data to stamp on a posted event.
pub fn user_data(injected: &Injected) -> (r: i64)
    ensures
        r == injected.tag(),
{
    match *injected {
        Injected::Key { user_data, .. } => user_data,
        Injected::Mouse { user_data, .. } => user_data,
    }
}

/// Whether every event of a list carries the engine's tag.
pub open spec fn all_tagged(events: Seq<Injected>) -> bool {
    forall|i: int| 0 <= i < events.len() ==> (#[trigger] events[i]).tag() == ZMOUSE_TAG
}

/// The events of a keystroke: press and release with the modifiers held, or none where the key
/// name is unknown.
pub open spec fn keystroke(key: Seq<char>, mods: Seq<Seq<char>>) -> Seq<Injected> {
    match code_of(lower(key)) {
        Some(code) => seq![
            Injected::Key {
                code,
                down: true,
                flags: flags_named(mods),
                user_data: ZMOUSE_TAG,
            },
            Injected::Key {
                code,
                down: false,
                flags: flags_named(mods),
                user_data: ZMOUSE_TAG,
            },
        ],
        None => Seq::empty(),
    }
}

/// The events of an action: a keystroke once, on the press; a button on press and release alike.
pub open spec fn action_events(action: ActionView, is_down: bool) -> Seq<Injected> {
    match action {
        ActionView::Disabled => Seq::empty(),
        ActionView::Keystroke { key, mods } => if is_down {
            keystroke(key, mods)
        } else {
            Seq::empty()
        },
        ActionView::Button { button } => seq![
            Injected::Mouse { button, down: is_down, user_data: ZMOUSE_TAG },
        ],
    }
}

/// The events that send a keystroke.
pub fn send_keystroke(key: &str, mods: &[String]) -> (r: Vec<Injected>)
    ensures
        r@ == keystroke(key@, texts(mods@)),
        all_tagged(r@),
{
    let mut out: Vec<Injected> = Vec::new();
    if let Some(code) = key_code(key) {
        let flags: EventFlags = combine_mods(mods);
        out.push(Injected::Key { code, down: true, flags, user_data: ZMOUSE_TAG });
        out.push(Injected::Key { code, down: false, flags, user_data: ZMOUSE_TAG });
    }
    assert(out@ =~= keystroke(key@, texts(mods@)));
    out
}

/// The events that perform a mapped action on the press or the release of its trigger.
pub fn apply_action(action: &Action, is_down: bool) -> (r: Vec<Injected>)
    ensures
        r@ == action_events(action@, is_down),
        all_tagged(r@),
{
    let mut out: Vec<Injected> = Vec::new();
    match action {
        Action::Disabled => {},
        Action::Keystroke { key, mods } => {
            if is_down {
                out = send_keystroke(key.as_str(), mods.as_slice());
            }
        },
        Action::Button { button } => {
            out.push(
                Injected::Mouse { button: *button, down: is_down, user_data: ZMOUSE_TAG },
            );
        },
    }
    assert(out@ =~= action_events(action@, is_down));
    out
}

/// An action in words.
pub open spec fn described(action: ActionView) -> Seq<char> {
    match action {
        ActionView::Disabled => "disabled"@,
        ActionView::Button { button } => "mouse button "@
            + decimal_signed(button as int),
        ActionView::Keystroke { key, mods } => if mods.len() == 0 {
            "key '"@ + key + "'"@
        } else {
            join(mods, "+"@) + "+"@ + key
        },
    }
}

/// Puts an action into words.
pub fn describe(action: &Action) -> (r: String)
    ensures
        r@ == described(action@),
{
    match action {
        Action::Disabled => "disabled".to_owned(),
        Action::Button { button } => {
            let mut s: String = "mouse button ".to_owned();
            s.append(signed_text(*button).as_str());
            s
        },
        Action::Keystroke { key, mods } => {
            if mods.len() == 0 {
                let mut s: String = "key '".to_owned();
                s.append(key.as_str());
                s.append("'");
                s
            } else {
                let mut s: String = joined(mods, "+");
                s.append("+");
                s.append(key.as_str());
                s
            }
        },
    }
}

// ---------------------------------------------------------------------------------------------
// Settings and switches
// ---------------------------------------------------------------------------------------------
/// The settings before any configuration has been applied.
pub open spec fn initial_settings() -> ScrollSettings {
    ScrollSettings { filter: false, guard_ms: 80, boost: false, min_pixels: 10 }
}

/// The settings that a configuration asks for; the tick floor is at least one pixel.
pub open spec fn settings_from(scroll: ScrollConfig) -> ScrollSettings {
    ScrollSettings {
        filter: scroll.jitter_filter,
        guard_ms: scroll.reversal_guard_ms,
        boost: scroll.boost_weak_ticks,
        min_pixels: if scroll.min_tick_pixels < 1 {
            1
        } else {
            scroll.min_tick_pixels
        },
    }
}

impl EngineView {
    /// What every operation of the engine keeps: a tick floor of at least one pixel.
    pub open spec fn valid(self) -> bool {
        self.settings.min_pixels >= 1
    }
}

impl Engine {
    /// An engine with the given tables that has seen no event and is not installed yet.
    pub fn new(mappings: Mappings, key_mappings: Mappings) -> (r: Engine)
        ensures
            r@ == (EngineView {
                mappings: mappings@,
                key_mappings: key_mappings@,
                last_device_for_button: Map::empty(),
                last_keyboard_device: None,
                scroll_state: None,
                settings: initial_settings(),
                enabled: false,
                installed: false,
            }),
    {
        Engine {
            mappings,
            key_mappings,
            last_device_for_button: HashMap::new(),
            last_keyboard_device: None,
            scroll_state: None,
            settings: ScrollSettings { filter: false, guard_ms: 80, boost: false, min_pixels: 10 },
            enabled: false,
            installed: false,
        }
    }
}

/// Applies the settings of a configuration that are not mappings. Safe on every (re)load.
pub fn apply_settings(engine: &mut Engine, cfg: &Config)
    ensures
        final(engine)@ == (EngineView { settings: settings_from(cfg@.scroll), ..old(engine)@ }),
{
    let floor: i64 = if cfg.scroll.min_tick_pixels < 1 {
        1
    } else {
        cfg.scroll.min_tick_pixels
    };
    engine.settings = ScrollSettings {
        filter: cfg.scroll.jitter_filter,
        guard_ms: cfg.scroll.reversal_guard_ms,
        boost: cfg.scroll.boost_weak_ticks,
        min_pixels: floor,
    };
}

/// Puts a configuration into force: its tables replace the old ones and its settings apply.
pub fn load_config(engine: &mut Engine, cfg: &Config)
    ensures
        final(engine)@ == (EngineView {
            mappings: cfg@.button_table(),
            key_mappings: cfg@.key_table(),
            settings: settings_from(cfg@.scroll),
            ..old(engine)@
        }),
{
    engine.mappings = cfg.resolve();
    engine.key_mappings = cfg.resolve_keys();
    apply_settings(engine, cfg);
}

/// Notes that the tap has been installed and switched on.
pub fn mark_installed(engine: &mut Engine)
    ensures
        final(engine)@ == (EngineView { installed: true, enabled: true, ..old(engine)@ }),
{
    engine.installed = true;
    engine.enabled = true;
}

/// Switches remapping on or off. The result says whether there is a tap to switch; without one
/// nothing changes.
pub fn set_enabled(engine: &mut Engine, on: bool) -> (r: bool)
    ensures
        r == old(engine)@.installed,
        final(engine)@ == (EngineView {
            enabled: if old(engine)@.installed {
                on
            } else {
                old(engine)@.enabled
            },
            ..old(engine)@
        }),
{
    if engine.installed {
        engine.enabled = on;
    }
    engine.installed
}

/// Whether remapping is switched on.
pub fn is_enabled(engine: &Engine) -> (r: bool)
    ensures
        r == engine@.enabled,
{
    engine.enabled
}

// ---------------------------------------------------------------------------------------------
// The HID stream
// ---------------------------------------------------------------------------------------------
/// The device that an HID event came from.
pub open spec fn ident_of(
    registry: u64,
    vendor_id: Option<i64>,
    product_id: Option<i64>,
) -> DeviceIdent {
    DeviceIdent {
        registry,
        vidpid: if vendor_id is Some && product_id is Some {
            Some(vidpid(vendor_id->0, product_id->0))
        } else {
            None
        },
    }
}

/// The state after an HID event: a button event makes its device the button's owner, a keyboard
/// event makes its device the one that types. Other pages, and events without a registry id,
/// change nothing.
pub open spec fn after_hid(
    s: EngineView,
    page: u32,
    usage: u32,
    registry: Option<u64>,
    vendor_id: Option<i64>,
    product_id: Option<i64>,
) -> EngineView {
    if registry is None {
        s
    } else if page == HID_USAGE_PAGE_BUTTON {
        EngineView {
            last_device_for_button: s.last_device_for_button.insert(
                (usage - 1) as i64,
                ident_of(registry->0, vendor_id, product_id),
            ),
            ..s
        }
    } else if page == HID_USAGE_PAGE_KEYBOARD {
        EngineView {
            last_keyboard_device: Some(ident_of(registry->0, vendor_id, product_id)),
            ..s
        }
    } else {
        s
    }
}

/// Records which device produced a button or keyboard event. HID usages of buttons count from 1,
/// button numbers from 0. `registry` is `None` where the sender or its id is unknown.
pub fn record_hid(
    engine: &mut Engine,
    page: u32,
    usage: u32,
    registry: Option<u64>,
    vendor_id: Option<i64>,
    product_id: Option<i64>,
)
    ensures
        final(engine)@ == after_hid(
            old(engine)@,
            page,
            usage,
            registry,
            vendor_id,
            product_id,
        ),
{
    if page != HID_USAGE_PAGE_BUTTON && page != HID_USAGE_PAGE_KEYBOARD {
        return;
    }
    let registry: u64 = match registry {
        Some(r) => r,
        None => {
            return;
        },
    };
    let vidpid: Option<u64> = match (vendor_id, product_id) {
        (Some(v), Some(p)) => Some(vidpid_key(v, p)),
        _ => None,
    };
    let ident: DeviceIdent = DeviceIdent { registry, vidpid };
    if page == HID_USAGE_PAGE_BUTTON {
        let button: i64 = usage as i64 - 1;
        engine.last_device_for_button.insert(button, ident);
    } else {
        engine.last_keyboard_device = Some(ident);
    }
}

// ---------------------------------------------------------------------------------------------
// Scrolling
// ---------------------------------------------------------------------------------------------
/// The direction of a scroll movement: 1, -1, or 0 for none.
pub open spec fn direction(line: i64) -> i8 {
    if line > 0 {
        1
    } else if line < 0 {
        -1i8
    } else {
        0
    }
}

/// The nanoseconds from one time to another; none where the second is the earlier one.
pub open spec fn elapsed(from: u128, to: u128) -> int {
    if to >= from {
        to - from
    } else {
        0
    }
}

/// Whether the jitter filter looks at a scroll event at all: it is on, and the event is a vertical
/// tick of a discrete wheel.
pub open spec fn filtered(settings: ScrollSettings, e: TapEvent) -> bool {
    settings.filter && e.continuous == 0 && e.line != 0
}

/// Whether a scroll event is a glitch: it runs against the last accepted tick, too soon after it.
pub open spec fn is_glitch(
    settings: ScrollSettings,
    last: Option<(i8, u128)>,
    e: TapEvent,
    now: u128,
) -> bool {
    &&& filtered(settings, e)
    &&& last is Some
    &&& direction(e.line) != (last->0).0
    &&& elapsed((last->0).1, now) < settings.guard_ms * 1_000_000
}

/// The last accepted tick after a scroll event.
pub open spec fn after_scroll(
    settings: ScrollSettings,
    last: Option<(i8, u128)>,
    e: TapEvent,
    now: u128,
) -> Option<(i8, u128)> {
    if filtered(settings, e) && !is_glitch(settings, last, e, now) {
        Some((direction(e.line), now))
    } else {
        last
    }
}

fn scroll_reverses(engine: &Engine, e: &TapEvent, now: u128) -> (r: bool)
    requires
        filtered(engine@.settings, *e),
    ensures
        r == is_glitch(engine@.settings, engine@.scroll_state, *e, now),
{
    let dir: i8 = if e.line > 0 {
        1
    } else {
        -1
    };
    let guard: u128 = engine.settings.guard_ms as u128 * 1_000_000;
    match engine.scroll_state {
        Some((last_dir, last_at)) => {
            let passed: u128 = if now >= last_at {
                now - last_at
            } else {
                0
            };
            dir != last_dir && passed < guard
        },
        None => false,
    }
}

/// Decides whether a scroll event is a spurious jump of the encoder. `now` is in nanoseconds.
pub fn is_scroll_glitch(engine: &mut Engine, e: &TapEvent, now: u128) -> (r: bool)
    ensures
        r == is_glitch(old(engine)@.settings, old(engine)@.scroll_state, *e, now),
        final(engine)@ == (EngineView {
            scroll_state: after_scroll(
                old(engine)@.settings,
                old(engine)@.scroll_state,
                *e,
                now,
            ),
            ..old(engine)@
        }),
{
    if !engine.settings.filter {
        return false;
    }
    if e.continuous != 0 {
        return false;
    }
    if e.line == 0 {
        return false;
    }
    if scroll_reverses(engine, e, now) {
        return true;
    }
    let dir: i8 = if e.line > 0 {
        1
    } else {
        -1
    };
    engine.scroll_state = Some((dir, now));
    false
}

/// The magnitude of a number.
pub open spec fn magnitude(n: int) -> int {
    if n < 0 {
        -n
    } else {
        n
    }
}

/// Whether the boost looks at a scroll event at all: it is on, and the event is a vertical tick of
/// a discrete wheel.
pub open spec fn boostable(settings: ScrollSettings, e: TapEvent) -> bool {
    settings.boost && e.continuous == 0 && e.line != 0
}

/// Whether the numbers of a tick that the boost looks at stay in range: the floor for its lines,
/// and the magnitudes of that floor and of its own pixels.
pub open spec fn tick_in_range(settings: ScrollSettings, e: TapEvent) -> bool {
    boostable(settings, e) ==> i64::MIN < e.line * settings.min_pixels <= i64::MAX && e.pixel
        > i64::MIN
}

/// The stronger movement that a weak tick is raised to: the floor for its lines. A tick that moves
/// as far already has none.
pub open spec fn boosted(settings: ScrollSettings, e: TapEvent) -> Option<Boost> {
    if boostable(settings, e) && magnitude(e.pixel as int) < magnitude(
        e.line * settings.min_pixels,
    ) {
        Some(Boost { pixel: (e.line * settings.min_pixels) as i64, line: e.line })
    } else {
        None
    }
}

/// Raises a weak tick of a discrete wheel to a full detent: the movement to write into the event,
/// or none where it is left as it is.
pub fn boost_weak_scroll(engine: &Engine, e: &TapEvent) -> (r: Option<Boost>)
    requires
        tick_in_range(engine@.settings, *e),
    ensures
        r == boosted(engine@.settings, *e),
{
    if !engine.settings.boost {
        return None;
    }
    if e.continuous != 0 {
        return None;
    }
    if e.line == 0 {
        return None;
    }
    let want: i64 = e.line * engine.settings.min_pixels;
    let pixel_size: i64 = if e.pixel < 0 {
        -e.pixel
    } else {
        e.pixel
    };
    let want_size: i64 = if want < 0 {
        -want
    } else {
        want
    };
    if pixel_size < want_size {
        Some(Boost { pixel: want, line: e.line })
    } else {
        None
    }
}

// ---------------------------------------------------------------------------------------------
// The tap
// ---------------------------------------------------------------------------------------------
/// The event goes on as it is.
pub open spec fn keep() -> TapOutcomeView {
    TapOutcomeView { verdict: Verdict::Keep, reenable: false, boost: None, inject: Seq::empty() }
}

/// The event is dropped, and the given ones take its place.
pub open spec fn replace(inject: Seq<Injected>) -> TapOutcomeView {
    TapOutcomeView { verdict: Verdict::Drop, reenable: false, boost: None, inject }
}

/// The action mapped to the trigger of a key or button event, by the device that it came from.
pub open spec fn mapped_action(s: EngineView, e: TapEvent) -> Option<ActionView> {
    if e.kind is KeyDown || e.kind is KeyUp {
        match s.last_keyboard_device {
            Some(ident) => ident.action_in(s.key_mappings, e.keycode),
            None => None,
        }
    } else if e.button == PROTECTED_BUTTON || !s.last_device_for_button.contains_key(e.button) {
        None
    } else {
        s.last_device_for_button[e.button].action_in(s.mappings, e.button)
    }
}

/// Whether an event is the system's notice that it has switched the tap off.
pub open spec fn tap_disabled(e: TapEvent) -> bool {
    e.kind is TapDisabledByTimeout || e.kind is TapDisabledByUserInput
}

/// What is to be done about an event.
pub open spec fn outcome(s: EngineView, e: TapEvent, now: u128) -> TapOutcomeView {
    if tap_disabled(e) {
        TapOutcomeView { reenable: s.installed, ..keep() }
    } else if e.user_data == ZMOUSE_TAG {
        keep()
    } else if e.kind is ScrollWheel {
        if is_glitch(s.settings, s.scroll_state, e, now) {
            replace(Seq::empty())
        } else {
            TapOutcomeView { boost: boosted(s.settings, e), ..keep() }
        }
    } else {
        match mapped_action(s, e) {
            Some(action) => replace(
                action_events(action, e.kind is KeyDown || e.kind is OtherMouseDown),
            ),
            None => keep(),
        }
    }
}

/// The state after an event.
pub open spec fn after_tap(s: EngineView, e: TapEvent, now: u128) -> EngineView {
    if tap_disabled(e) {
        EngineView { enabled: s.enabled || s.installed, ..s }
    } else if e.user_data != ZMOUSE_TAG && e.kind is ScrollWheel {
        EngineView { scroll_state: after_scroll(s.settings, s.scroll_state, e, now), ..s }
    } else {
        s
    }
}

/// Whether handling an event stays within the range of its numbers: a scroll tick that gets as far
/// as the boost has to.
pub open spec fn in_range(s: EngineView, e: TapEvent, now: u128) -> bool {
    (e.kind is ScrollWheel && e.user_data != ZMOUSE_TAG && !is_glitch(
        s.settings,
        s.scroll_state,
        e,
        now,
    )) ==> tick_in_range(s.settings, e)
}

/// Whether an event can be handled within the range of its numbers.
pub fn event_in_range(engine: &Engine, e: &TapEvent, now: u128) -> (r: bool)
    ensures
        r == in_range(engine@, *e, now),
{
    if !matches!(e.kind, TapKind::ScrollWheel) || e.user_data == ZMOUSE_TAG {
        return true;
    }
    if e.continuous != 0 || e.line == 0 || !engine.settings.boost {
        return true;
    }
    if engine.settings.filter && scroll_reverses(engine, e, now) {
        return true;
    }
    assert(-0x8000_0000_0000_0000 <= e.line <= 0x8000_0000_0000_0000 && -0x8000_0000_0000_0000
        <= engine.settings.min_pixels <= 0x8000_0000_0000_0000
        ==> -0x4000_0000_0000_0000_0000_0000_0000_0000 <= e.line * engine.settings.min_pixels
        <= 0x4000_0000_0000_0000_0000_0000_0000_0000) by (nonlinear_arith);
    let want: i128 = e.line as i128 * engine.settings.min_pixels as i128;
    (i64::MIN as i128) < want && want <= (i64::MAX as i128) && e.pixel > i64::MIN
}

fn passed() -> (r: TapOutcome)
    ensures
        r@ == keep(),
{
    let r: TapOutcome = TapOutcome {
        verdict: Verdict::Keep,
        reenable: false,
        boost: None,
        inject: Vec::new(),
    };
    assert(r@ =~= keep());
    r
}

/// Decides about an event at the tap. `now` is in nanoseconds.
pub fn handle_tap(engine: &mut Engine, e: &TapEvent, now: u128) -> (r: TapOutcome)
    requires
        in_range(old(engine)@, *e, now),
    ensures
        r@ == outcome(old(engine)@, *e, now),
        all_tagged(r.inject@),
        final(engine)@ == after_tap(old(engine)@, *e, now),
{
    if matches!(e.kind, TapKind::TapDisabledByTimeout | TapKind::TapDisabledByUserInput) {
        let reenable: bool = set_enabled(engine, true);
        let mut r: TapOutcome = passed();
        r.reenable = reenable;
        return r;
    }
    if e.user_data == ZMOUSE_TAG {
        return passed();
    }
    if matches!(e.kind, TapKind::ScrollWheel) {
        if is_scroll_glitch(engine, e, now) {
            let mut r: TapOutcome = passed();
            r.verdict = Verdict::Drop;
            return r;
        }
        let mut r: TapOutcome = passed();
        r.boost = boost_weak_scroll(engine, e);
        return r;
    }
    let is_key: bool = matches!(e.kind, TapKind::KeyDown | TapKind::KeyUp);
    let action: Option<&Action> = if is_key {
        match engine.last_keyboard_device {
            Some(ident) => ident.lookup(&engine.key_mappings, e.keycode),
            None => None,
        }
    } else if e.button == PROTECTED_BUTTON {
        None
    } else {
        match engine.last_device_for_button.get(&e.button) {
            Some(ident) => ident.lookup(&engine.mappings, e.button),
            None => None,
        }
    };
    match action {
        Some(action) => {
            let is_down: bool = matches!(e.kind, TapKind::KeyDown | TapKind::OtherMouseDown);
            TapOutcome {
                verdict: Verdict::Drop,
                reenable: false,
                boost: None,
                inject: apply_action(action, is_down),
            }
        },
        None => passed(),
    }
}

} // verus!
