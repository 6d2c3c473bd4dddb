//! The configuration model: scroll settings, and for each device its identities and its button
//! and keystroke mappings.
//!
//! A device answers to a stable vendor/product key, or to its kernel registry id where it has no
//! such pair. One physical mouse can present several identities (its dongle, its Bluetooth link,
//! a separate keyboard interface); all of them share the device's mappings.

use vstd::prelude::*;
use vstd::string::*;

use crate::text::{decimal, decimal_text, hex_id, hex_id_text, join, joined, texts};

verus! {

/// The left mouse button. It is the user's recovery input, so it is never remapped.
pub const PROTECTED_BUTTON: i64 = 0;

/// Marks a vendor/product key, so that it differs from every registry id below it.
pub const VIDPID_TAG: u64 = 0x8000_0000_0000_0000;

/// Scroll-wheel cleanup for worn encoders.
#[derive(Clone, Copy, Debug, PartialEq, Eq, Structural)]
pub struct ScrollConfig {
    /// Drop spurious ticks against the direction of scrolling (discrete wheels only).
    pub jitter_filter: bool,
    /// A tick against the direction within this many milliseconds is a glitch.
    pub reversal_guard_ms: u64,
    /// Raise a weak tick to a full detent, so that pixel-precise applications notice it.
    pub boost_weak_ticks: bool,
    /// The pixels that a single tick should move at least, per line.
    pub min_tick_pixels: i64,
}

/// One hardware identity: a vendor/product pair (preferred) or a registry id (fallback).
#[derive(Debug)]
pub struct DeviceId {
    /// How the identity was connected when it was last seen; shown to the user, never matched.
    pub label: Option<String>,
    pub registry_id: Option<u64>,
    pub vendor_id: Option<i64>,
    pub product_id: Option<i64>,
}

/// What a trigger does.
#[derive(Debug)]
pub enum Action {
    /// Send a keystroke, optionally with modifiers.
    Keystroke { key: String, mods: Vec<String> },
    /// Act as another mouse button.
    Button { button: i64 },
    /// Swallow the trigger.
    Disabled,
}

/// What a mouse button does. Buttons count from 0: left, right, middle, back, forward, ...
#[derive(Debug)]
pub struct Mapping {
    pub button: i64,
    pub action: Action,
}

/// What a button that types a key does, by the name of that key.
#[derive(Debug)]
pub struct KeyMapping {
    pub key: String,
    pub action: Action,
}

/// A device: its identities and the mappings that all of them share.
#[derive(Debug)]
pub struct DeviceConfig {
    /// Kernel registry entry id; it changes when the device reconnects.
    pub registry_id: Option<u64>,
    /// USB vendor id; with `product_id` it is the stable identity.
    pub vendor_id: Option<i64>,
    pub product_id: Option<i64>,
    /// Further identities of the same physical device.
    pub also: Vec<DeviceId>,
    pub name: Option<String>,
    pub mapping: Vec<Mapping>,
    pub key: Vec<KeyMapping>,
}

/// The whole configuration.
#[derive(Debug)]
pub struct Config {
    pub scroll: ScrollConfig,
    pub device: Vec<DeviceConfig>,
}

// ---------------------------------------------------------------------------------------------
// Models
// ---------------------------------------------------------------------------------------------
/// The text of an optional string.
pub open spec fn opt_text(o: Option<String>) -> Option<Seq<char>> {
    match o {
        Some(s) => Some(s@),
        None => None,
    }
}

#[verifier::ext_equal]
pub struct DeviceIdView {
    pub label: Option<Seq<char>>,
    pub registry_id: Option<u64>,
    pub vendor_id: Option<i64>,
    pub product_id: Option<i64>,
}

#[verifier::ext_equal]
pub enum ActionView {
    Keystroke { key: Seq<char>, mods: Seq<Seq<char>> },
    Button { button: i64 },
    Disabled,
}

#[verifier::ext_equal]
pub struct MappingView {
    pub button: i64,
    pub action: ActionView,
}

#[verifier::ext_equal]
pub struct KeyMappingView {
    pub key: Seq<char>,
    pub action: ActionView,
}

#[verifier::ext_equal]
pub struct DeviceConfigView {
    pub registry_id: Option<u64>,
    pub vendor_id: Option<i64>,
    pub product_id: Option<i64>,
    pub also: Seq<DeviceIdView>,
    pub name: Option<Seq<char>>,
    pub mapping: Seq<MappingView>,
    pub key: Seq<KeyMappingView>,
}

#[verifier::ext_equal]
pub struct ConfigView {
    pub scroll: ScrollConfig,
    pub device: Seq<DeviceConfigView>,
}

impl View for DeviceId {
    type V = DeviceIdView;

    open spec fn view(&self) -> DeviceIdView {
        DeviceIdView {
            label: opt_text(self.label),
            registry_id: self.registry_id,
            vendor_id: self.vendor_id,
            product_id: self.product_id,
        }
    }
}

impl View for Action {
    type V = ActionView;

    open spec fn view(&self) -> ActionView {
        match *self {
            Action::Keystroke { key, mods } => ActionView::Keystroke {
                key: key@,
                mods: texts(mods@),
            },
            Action::Button { button } => ActionView::Button { button },
            Action::Disabled => ActionView::Disabled,
        }
    }
}

impl View for Mapping {
    type V = MappingView;

    open spec fn view(&self) -> MappingView {
        MappingView { button: self.button, action: self.action@ }
    }
}

impl View for KeyMapping {
    type V = KeyMappingView;

    open spec fn view(&self) -> KeyMappingView {
        KeyMappingView { key: self.key@, action: self.action@ }
    }
}

impl View for DeviceConfig {
    type V = DeviceConfigView;

    open spec fn view(&self) -> DeviceConfigView {
        DeviceConfigView {
            registry_id: self.registry_id,
            vendor_id: self.vendor_id,
            product_id: self.product_id,
            also: Seq::new(self.also@.len(), |i: int| self.also@[i]@),
            name: opt_text(self.name),
            mapping: Seq::new(self.mapping@.len(), |i: int| self.mapping@[i]@),
            key: Seq::new(self.key@.len(), |i: int| self.key@[i]@),
        }
    }
}

impl View for Config {
    type V = ConfigView;

    open spec fn view(&self) -> ConfigView {
        ConfigView {
            scroll: self.scroll,
            device: Seq::new(self.device@.len(), |i: int| self.device@[i]@),
        }
    }
}

// ---------------------------------------------------------------------------------------------
// Defaults and copies
// ---------------------------------------------------------------------------------------------
/// The guard window of a configuration that names none.
pub fn default_reversal_guard_ms() -> (r: u64)
    ensures
        r == 80,
{
    80
}

/// The tick floor of a configuration that names none.
pub fn default_min_tick_pixels() -> (r: i64)
    ensures
        r == 10,
{
    10
}

/// Scroll cleanup as it stands when a configuration says nothing about it: off.
pub open spec fn default_scroll() -> ScrollConfig {
    ScrollConfig {
        jitter_filter: false,
        reversal_guard_ms: 80,
        boost_weak_ticks: false,
        min_tick_pixels: 10,
    }
}

impl Default for ScrollConfig {
    fn default() -> (r: Self)
        ensures
            r == default_scroll(),
    {
        ScrollConfig {
            jitter_filter: false,
            reversal_guard_ms: default_reversal_guard_ms(),
            boost_weak_ticks: false,
            min_tick_pixels: default_min_tick_pixels(),
        }
    }
}

impl Default for DeviceId {
    fn default() -> (r: Self)
        ensures
            r@ == (DeviceIdView {
                label: None,
                registry_id: None,
                vendor_id: None,
                product_id: None,
            }),
    {
        DeviceId { label: None, registry_id: None, vendor_id: None, product_id: None }
    }
}

impl Default for Config {
    fn default() -> (r: Self)
        ensures
            r@ == (ConfigView { scroll: default_scroll(), device: Seq::empty() }),
    {
        let r: Config = Config { scroll: ScrollConfig::default(), device: Vec::new() };
        assert(r@.device =~= Seq::empty());
        r
    }
}

/// Copies a list of strings.
pub(crate) fn clone_strings(v: &Vec<String>) -> (r: Vec<String>)
    ensures
        texts(r@) == texts(v@),
{
    let mut out: Vec<String> = Vec::new();
    let n: usize = v.len();
    let mut i: usize = 0;
    while i < n
        invariant
            i <= n == v@.len(),
            out@.len() == i,
            forall|j: int| 0 <= j < i ==> (#[trigger] out@[j])@ == v@[j]@,
        decreases n - i,
    {
        out.push(v[i].clone());
        i += 1;
    }
    assert(texts(out@) =~= texts(v@));
    out
}

/// Copies an optional string.
pub(crate) fn clone_opt(o: &Option<String>) -> (r: Option<String>)
    ensures
        opt_text(r) == opt_text(*o),
{
    match o {
        Some(s) => Some(s.clone()),
        None => None,
    }
}

impl Clone for Action {
    fn clone(&self) -> (r: Self)
        ensures
            r@ == self@,
    {
        match self {
            Action::Keystroke { key, mods } => Action::Keystroke {
                key: key.clone(),
                mods: clone_strings(mods),
            },
            Action::Button { button } => Action::Button { button: *button },
            Action::Disabled => Action::Disabled,
        }
    }
}

impl Clone for KeyMapping {
    fn clone(&self) -> (r: Self)
        ensures
            r@ == self@,
    {
        KeyMapping { key: self.key.clone(), action: self.action.clone() }
    }
}

impl Clone for DeviceId {
    fn clone(&self) -> (r: Self)
        ensures
            r@ == self@,
    {
        DeviceId {
            label: clone_opt(&self.label),
            registry_id: self.registry_id,
            vendor_id: self.vendor_id,
            product_id: self.product_id,
        }
    }
}

// ---------------------------------------------------------------------------------------------
// Identities
// ---------------------------------------------------------------------------------------------
/// The low sixteen bits of an id, as a number.
pub open spec fn low16(n: i64) -> int {
    n as int % 0x1_0000
}

/// The key of a vendor/product pair: the tag, then the vendor's and the product's low sixteen bits.
pub open spec fn vidpid(vendor_id: i64, product_id: i64) -> u64 {
    (VIDPID_TAG + low16(vendor_id) * 0x1_0000 + low16(product_id)) as u64
}

/// Packs a vendor id and a product id into one stable lookup key.
pub fn vidpid_key(vendor_id: i64, product_id: i64) -> (r: u64)
    ensures
        r == vidpid(vendor_id, product_id),
        r == VIDPID_TAG + low16(vendor_id) * 0x1_0000 + low16(product_id),
{
    let v: u64 = (vendor_id as u64) & 0xFFFF;
    let p: u64 = (product_id as u64) & 0xFFFF;
    assert((vendor_id as u64) & 0xFFFFu64 == vendor_id % 0x1_0000i64) by (bit_vector);
    assert((product_id as u64) & 0xFFFFu64 == product_id % 0x1_0000i64) by (bit_vector);
    assert(v <= 0xFFFF && p <= 0xFFFF ==> 0x8000_0000_0000_0000u64 | (v << 16) | p
        == 0x8000_0000_0000_0000u64 + v * 0x1_0000 + p) by (bit_vector);
    VIDPID_TAG | (v << 16) | p
}

/// The lookup key of an identity: its vendor/product key where both ids are set, else its
/// registry id.
pub open spec fn key_of(
    registry_id: Option<u64>,
    vendor_id: Option<i64>,
    product_id: Option<i64>,
) -> Option<u64> {
    if vendor_id is Some && product_id is Some {
        Some(vidpid(vendor_id->0, product_id->0))
    } else {
        registry_id
    }
}

/// The stable lookup key of an identity; `None` where it has none.
pub fn identity_key(
    registry_id: Option<u64>,
    vendor_id: Option<i64>,
    product_id: Option<i64>,
) -> (r: Option<u64>)
    ensures
        r == key_of(registry_id, vendor_id, product_id),
{
    match (vendor_id, product_id) {
        (Some(v), Some(p)) => Some(vidpid_key(v, p)),
        _ => registry_id,
    }
}

/// An identity in words.
pub open spec fn desc_of(
    registry_id: Option<u64>,
    vendor_id: Option<i64>,
    product_id: Option<i64>,
) -> Seq<char> {
    if vendor_id is Some && product_id is Some {
        "vendor 0x"@ + hex_id(vendor_id->0) + " product 0x"@ + hex_id(
            product_id->0,
        )
    } else if registry_id is Some {
        "registry_id "@ + decimal(registry_id->0 as nat)
    } else {
        "<no identity>"@
    }
}

/// Human-readable form of an identity, for logs and the editor.
pub fn identity_desc(
    registry_id: Option<u64>,
    vendor_id: Option<i64>,
    product_id: Option<i64>,
) -> (r: String)
    ensures
        r@ == desc_of(registry_id, vendor_id, product_id),
{
    match (vendor_id, product_id, registry_id) {
        (Some(v), Some(p), _) => {
            let mut s: String = "vendor 0x".to_owned();
            s.append(hex_id_text(v).as_str());
            s.append(" product 0x");
            s.append(hex_id_text(p).as_str());
            s
        },
        (_, _, Some(r)) => {
            let mut s: String = "registry_id ".to_owned();
            s.append(decimal_text(r).as_str());
            s
        },
        _ => "<no identity>".to_owned(),
    }
}

impl DeviceIdView {
    pub open spec fn device_key(self) -> Option<u64> {
        key_of(self.registry_id, self.vendor_id, self.product_id)
    }

    pub open spec fn desc(self) -> Seq<char> {
        desc_of(self.registry_id, self.vendor_id, self.product_id)
    }
}

impl DeviceId {
    /// This identity's lookup key.
    pub fn device_key(&self) -> (r: Option<u64>)
        ensures
            r == self@.device_key(),
    {
        identity_key(self.registry_id, self.vendor_id, self.product_id)
    }

    /// This identity in words.
    pub fn desc(&self) -> (r: String)
        ensures
            r@ == self@.desc(),
    {
        identity_desc(self.registry_id, self.vendor_id, self.product_id)
    }
}

/// The keys that a list of identities answers to, in order; an identity without a key adds none.
pub open spec fn keys_of(ids: Seq<DeviceIdView>) -> Seq<u64>
    decreases ids.len(),
{
    if ids.len() == 0 {
        Seq::empty()
    } else {
        match ids.last().device_key() {
            Some(k) => keys_of(ids.drop_last()).push(k),
            None => keys_of(ids.drop_last()),
        }
    }
}

/// A list of zero or one key.
pub open spec fn opt_key(k: Option<u64>) -> Seq<u64> {
    match k {
        Some(k) => seq![k],
        None => Seq::empty(),
    }
}

impl DeviceConfigView {
    /// The key of the identity that stands in the device's own fields.
    pub open spec fn device_key(self) -> Option<u64> {
        key_of(self.registry_id, self.vendor_id, self.product_id)
    }

    /// Every key that the device answers to: its own, then those of its further identities.
    pub open spec fn device_keys(self) -> Seq<u64> {
        opt_key(self.device_key()) + keys_of(self.also)
    }

    /// Whether the device answers to a key.
    pub open spec fn answers_to(self, k: u64) -> bool {
        self.device_keys().contains(k)
    }

    /// The device's own identity in words, followed by its further identities.
    pub open spec fn ident_desc(self) -> Seq<char> {
        let primary = desc_of(self.registry_id, self.vendor_id, self.product_id);
        if self.also.len() == 0 {
            primary
        } else {
            primary + " (+ "@ + join(
                Seq::new(self.also.len(), |i: int| self.also[i].desc()),
                ", "@,
            ) + ")"@
        }
    }

    /// The device's identities as one list: the one in its own fields, where any is set, then the
    /// further ones.
    pub open spec fn identities(self) -> Seq<DeviceIdView> {
        if self.registry_id is Some || self.vendor_id is Some || self.product_id is Some {
            seq![
                DeviceIdView {
                    label: None,
                    registry_id: self.registry_id,
                    vendor_id: self.vendor_id,
                    product_id: self.product_id,
                },
            ] + self.also
        } else {
            self.also
        }
    }
}

impl DeviceConfig {
    /// The device's primary lookup key, from its own identity fields.
    pub fn device_key(&self) -> (r: Option<u64>)
        ensures
            r == self@.device_key(),
    {
        identity_key(self.registry_id, self.vendor_id, self.product_id)
    }

    /// Every lookup key that the device answers to: its primary key, then those of `also`.
    pub fn device_keys(&self) -> (r: Vec<u64>)
        ensures
            r@ == self@.device_keys(),
    {
        let mut keys: Vec<u64> = Vec::new();
        if let Some(k) = self.device_key() {
            keys.push(k);
        }
        let ghost ids = self@.also;
        let n: usize = self.also.len();
        let mut i: usize = 0;
        assert(keys@ =~= opt_key(self@.device_key()) + keys_of(ids.take(0)));
        while i < n
            invariant
                i <= n == self.also@.len(),
                ids == self@.also,
                keys@ == opt_key(self@.device_key()) + keys_of(ids.take(i as int)),
            decreases n - i,
        {
            assert(ids.take(i + 1).drop_last() =~= ids.take(i as int));
            if let Some(k) = self.also[i].device_key() {
                keys.push(k);
            }
            i += 1;
            assert(keys@ =~= opt_key(self@.device_key()) + keys_of(ids.take(i as int)));
        }
        assert(ids.take(n as int) =~= ids);
        keys
    }

    /// The device's identities in words, for logs and validation messages.
    pub fn ident_desc(&self) -> (r: String)
        ensures
            r@ == self@.ident_desc(),
    {
        let primary: String = identity_desc(self.registry_id, self.vendor_id, self.product_id);
        if self.also.len() == 0 {
            return primary;
        }
        let mut parts: Vec<String> = Vec::new();
        let n: usize = self.also.len();
        let mut i: usize = 0;
        while i < n
            invariant
                i <= n == self.also@.len(),
                parts@.len() == i,
                forall|j: int| 0 <= j < i ==> (#[trigger] parts@[j])@ == self@.also[j].desc(),
            decreases n - i,
        {
            parts.push(self.also[i].desc());
            i += 1;
        }
        assert(texts(parts@) =~= Seq::new(
            self@.also.len(),
            |i: int| self@.also[i].desc(),
        ));
        let mut s: String = primary;
        s.append(" (+ ");
        s.append(joined(&parts, ", ").as_str());
        s.append(")");
        s
    }

    /// The device's identities as one list.
    pub fn identities(&self) -> (r: Vec<DeviceId>)
        ensures
            Seq::new(r@.len(), |i: int| r@[i]@) == self@.identities(),
    {
        let mut out: Vec<DeviceId> = Vec::new();
        if self.registry_id.is_some() || self.vendor_id.is_some() || self.product_id.is_some() {
            out.push(
                DeviceId {
                    label: None,
                    registry_id: self.registry_id,
                    vendor_id: self.vendor_id,
                    product_id: self.product_id,
                },
            );
        }
        let base: usize = out.len();
        let n: usize = self.also.len();
        let mut i: usize = 0;
        while i < n
            invariant
                i <= n == self.also@.len(),
                base <= 1,
                self@.identities().len() == base + n,
                forall|j: int| 0 <= j < n ==> self@.identities()[base + j] == self.also@[j]@,
                out@.len() == base + i,
                forall|j: int| 0 <= j < base + i ==> (#[trigger] out@[j])@ == self@.identities()[j],
            decreases n - i,
        {
            out.push(self.also[i].clone());
            i += 1;
        }
        assert(Seq::new(out@.len(), |i: int| out@[i]@) =~= self@.identities());
        out
    }
}

} // verus!
