//! The lookup tables that the engine works from: (device key, button or key code) to action.

use std::collections::HashMap;

use vstd::prelude::*;

use crate::config::{
    Action, ActionView, Config, ConfigView, DeviceConfig, DeviceConfigView, KeyMappingView,
    MappingView, PROTECTED_BUTTON,
};
use crate::keymap::{code_of, key_code};
use crate::text::lower;

verus! {

broadcast use vstd::std_specs::hash::group_hash_axioms;

/// A table from (device key, button number or key code) to action.
pub struct Mappings {
    entries: HashMap<u128, Action>,
}

/// The two parts of a table key as one number; every pair has a number of its own.
spec fn packed(key: u64, sub: i64) -> u128 {
    (key * 0x1_0000_0000_0000_0000 + sub + 0x8000_0000_0000_0000) as u128
}

fn pack(key: u64, sub: i64) -> (r: u128)
    ensures
        r == packed(key, sub),
        r == key * 0x1_0000_0000_0000_0000 + sub + 0x8000_0000_0000_0000,
{
    let low: u128 = (sub as i128 + 0x8000_0000_0000_0000) as u128;
    (key as u128) * 0x1_0000_0000_0000_0000 + low
}

impl View for Mappings {
    type V = Map<(u64, i64), ActionView>;

    closed spec fn view(&self) -> Map<(u64, i64), ActionView> {
        Map::new(
            |k: (u64, i64)| self.entries@.contains_key(packed(k.0, k.1)),
            |k: (u64, i64)| self.entries@[packed(k.0, k.1)]@,
        )
    }
}

/// What a table holds under a key.
pub open spec fn at(
    m: Map<(u64, i64), ActionView>,
    key: u64,
    sub: i64,
) -> Option<ActionView> {
    if m.contains_key((key, sub)) {
        Some(m[(key, sub)])
    } else {
        None
    }
}

impl Mappings {
    /// A table without entries.
    pub fn new() -> (r: Mappings)
        ensures
            r@ == Map::<(u64, i64), ActionView>::empty(),
    {
        let r: Mappings = Mappings { entries: HashMap::new() };
        assert(r@ =~= Map::<(u64, i64), ActionView>::empty());
        r
    }

    /// Sets the action under a key, in place of one that was there before.
    pub fn insert(&mut self, k: (u64, i64), action: Action)
        ensures
            final(self)@ == old(self)@.insert(k, action@),
    {
        let p: u128 = pack(k.0, k.1);
        self.entries.insert(p, action);
        assert forall|x: (u64, i64)| #[trigger] packed(x.0, x.1) == p implies x == k by {
            let px: int = x.0 * 0x1_0000_0000_0000_0000 + x.1 + 0x8000_0000_0000_0000;
            assert(packed(x.0, x.1) == px);
        }
        assert(self@ =~= old(self)@.insert(k, action@));
    }

    /// The action under a key.
    pub fn get(&self, k: &(u64, i64)) -> (r: Option<&Action>)
        ensures
            r is Some == self@.contains_key(*k),
            r is Some ==> r->0@ == self@[*k],
    {
        self.entries.get(&pack(k.0, k.1))
    }

    /// Whether there is an action under a key.
    pub fn contains_key(&self, k: &(u64, i64)) -> (r: bool)
        ensures
            r == self@.contains_key(*k),
    {
        self.entries.contains_key(&pack(k.0, k.1))
    }
}

/// The action of the last mapping in a list for a button.
pub open spec fn last_button(
    ms: Seq<MappingView>,
    button: i64,
) -> Option<ActionView>
    decreases ms.len(),
{
    if ms.len() == 0 {
        None
    } else if ms.last().button == button {
        Some(ms.last().action)
    } else {
        last_button(ms.drop_last(), button)
    }
}

/// The action that a list of devices gives a button of the device with key `d`: that of the last
/// device which answers to the key and maps the button. The protected button has none.
pub open spec fn button_action(
    devs: Seq<DeviceConfigView>,
    d: u64,
    button: i64,
) -> Option<ActionView>
    decreases devs.len(),
{
    if button == PROTECTED_BUTTON || devs.len() == 0 {
        None
    } else if devs.last().answers_to(d) && last_button(devs.last().mapping, button) is Some {
        last_button(devs.last().mapping, button)
    } else {
        button_action(devs.drop_last(), d, button)
    }
}

/// Whether a keystroke mapping is triggered by a key code.
pub open spec fn triggers(k: KeyMappingView, code: i64) -> bool {
    match code_of(lower(k.key)) {
        Some(c) => c == code,
        None => false,
    }
}

/// The action of the last keystroke mapping in a list for a key code.
pub open spec fn last_key(
    ks: Seq<KeyMappingView>,
    code: i64,
) -> Option<ActionView>
    decreases ks.len(),
{
    if ks.len() == 0 {
        None
    } else if triggers(ks.last(), code) {
        Some(ks.last().action)
    } else {
        last_key(ks.drop_last(), code)
    }
}

/// The action that a list of devices gives a key code typed by the device with key `d`: that of
/// the last device which answers to the key and maps the code.
pub open spec fn key_action(
    devs: Seq<DeviceConfigView>,
    d: u64,
    code: i64,
) -> Option<ActionView>
    decreases devs.len(),
{
    if devs.len() == 0 {
        None
    } else if devs.last().answers_to(d) && last_key(devs.last().key, code) is Some {
        last_key(devs.last().key, code)
    } else {
        key_action(devs.drop_last(), d, code)
    }
}

impl ConfigView {
    /// The table of all button actions.
    pub open spec fn button_table(self) -> Map<(u64, i64), ActionView> {
        Map::new(
            |k: (u64, i64)| button_action(self.device, k.0, k.1) is Some,
            |k: (u64, i64)| button_action(self.device, k.0, k.1)->0,
        )
    }

    /// The table of all keystroke actions.
    pub open spec fn key_table(self) -> Map<(u64, i64), ActionView> {
        Map::new(
            |k: (u64, i64)| key_action(self.device, k.0, k.1) is Some,
            |k: (u64, i64)| key_action(self.device, k.0, k.1)->0,
        )
    }
}

/// Adds a device's button mappings under one of its keys.
fn add_buttons(map: &mut Mappings, key: u64, dev: &DeviceConfig)
    ensures
        forall|d: u64, b: i64|
            #[trigger] at(final(map)@, d, b) == (if d == key && b != PROTECTED_BUTTON
                && last_button(dev@.mapping, b) is Some {
                last_button(dev@.mapping, b)
            } else {
                at(old(map)@, d, b)
            }),
{
    let ghost start = map@;
    let ghost ms = dev@.mapping;
    let n: usize = dev.mapping.len();
    let mut i: usize = 0;
    while i < n
        invariant
            i <= n == dev.mapping@.len(),
            ms == dev@.mapping,
            forall|d: u64, b: i64|
                #[trigger] at(map@, d, b) == (if d == key && b != PROTECTED_BUTTON && last_button(
                    ms.take(i as int),
                    b,
                ) is Some {
                    last_button(ms.take(i as int), b)
                } else {
                    at(start, d, b)
                }),
        decreases n - i,
    {
        let ghost before = map@;
        let m = &dev.mapping[i];
        assert(ms.take(i + 1).drop_last() =~= ms.take(i as int));
        assert(ms.take(i + 1).last() == m@);
        if m.button != PROTECTED_BUTTON {
            map.insert((key, m.button), m.action.clone());
        }
        assert forall|d: u64, b: i64| #[trigger]
            at(map@, d, b) == (if d == key && b != PROTECTED_BUTTON && last_button(
                ms.take(i + 1),
                b,
            ) is Some {
                last_button(ms.take(i + 1), b)
            } else {
                at(start, d, b)
            }) by {
            assert(at(before, d, b) == at(before, d, b));
        }
        i += 1;
    }
    assert(ms.take(n as int) =~= ms);
}

/// Adds a device's keystroke mappings under one of its keys.
fn add_keys(map: &mut Mappings, key: u64, dev: &DeviceConfig)
    ensures
        forall|d: u64, c: i64|
            #[trigger] at(final(map)@, d, c) == (if d == key && last_key(dev@.key, c) is Some {
                last_key(dev@.key, c)
            } else {
                at(old(map)@, d, c)
            }),
{
    let ghost start = map@;
    let ghost ks = dev@.key;
    let n: usize = dev.key.len();
    let mut i: usize = 0;
    while i < n
        invariant
            i <= n == dev.key@.len(),
            ks == dev@.key,
            forall|d: u64, c: i64|
                #[trigger] at(map@, d, c) == (if d == key && last_key(
                    ks.take(i as int),
                    c,
                ) is Some {
                    last_key(ks.take(i as int), c)
                } else {
                    at(start, d, c)
                }),
        decreases n - i,
    {
        let ghost before = map@;
        let k = &dev.key[i];
        assert(ks.take(i + 1).drop_last() =~= ks.take(i as int));
        assert(ks.take(i + 1).last() == k@);
        if let Some(code) = key_code(k.key.as_str()) {
            map.insert((key, code as i64), k.action.clone());
        }
        assert forall|d: u64, c: i64| #[trigger]
            at(map@, d, c) == (if d == key && last_key(ks.take(i + 1), c) is Some {
                last_key(ks.take(i + 1), c)
            } else {
                at(start, d, c)
            }) by {
            assert(at(before, d, c) == at(before, d, c));
        }
        i += 1;
    }
    assert(ks.take(n as int) =~= ks);
}

impl Config {
    /// Flattens the button mappings into a table. A device with several identities gives the same
    /// actions under each of them; the left button is left out.
    pub fn resolve(&self) -> (r: Mappings)
        ensures
            r@ == self@.button_table(),
    {
        let mut map: Mappings = Mappings::new();
        let ghost devs = self@.device;
        let n: usize = self.device.len();
        let mut i: usize = 0;
        while i < n
            invariant
                i <= n == self.device@.len(),
                devs == self@.device,
                forall|d: u64, b: i64|
                    #[trigger] at(map@, d, b) == button_action(devs.take(i as int), d, b),
            decreases n - i,
        {
            let dev = &self.device[i];
            let keys: Vec<u64> = dev.device_keys();
            let ghost start = map@;
            let kn: usize = keys.len();
            let mut j: usize = 0;
            while j < kn
                invariant
                    j <= kn == keys@.len(),
                    keys@ == dev@.device_keys(),
                    forall|d: u64, b: i64|
                        #[trigger] at(map@, d, b) == (if keys@.take(j as int).contains(d) && b
                            != PROTECTED_BUTTON && last_button(dev@.mapping, b) is Some {
                            last_button(dev@.mapping, b)
                        } else {
                            at(start, d, b)
                        }),
                decreases kn - j,
            {
                let ghost before = map@;
                add_buttons(&mut map, keys[j], dev);
                proof {
                    lemma_take_contains(keys@, j as int);
                    assert forall|d: u64, b: i64| #[trigger]
                        at(map@, d, b) == (if keys@.take(j + 1).contains(d) && b
                            != PROTECTED_BUTTON && last_button(dev@.mapping, b) is Some {
                            last_button(dev@.mapping, b)
                        } else {
                            at(start, d, b)
                        }) by {
                        assert(at(before, d, b) == at(before, d, b));
                    }
                }
                j += 1;
            }
            assert(keys@.take(kn as int) =~= keys@);
            assert(devs.take(i + 1).drop_last() =~= devs.take(i as int));
            assert(devs.take(i + 1).last() == dev@);
            assert forall|d: u64, b: i64| #[trigger]
                at(map@, d, b) == button_action(devs.take(i + 1), d, b) by {
                assert(at(start, d, b) == button_action(devs.take(i as int), d, b));
            }
            i += 1;
        }
        assert(devs.take(n as int) =~= devs);
        assert forall|k: (u64, i64)| #[trigger]
            map@.contains_key(k) == self@.button_table().contains_key(k) by {
            assert(at(map@, k.0, k.1) == button_action(devs, k.0, k.1));
        }
        assert forall|k: (u64, i64)| #[trigger] map@.contains_key(k) implies map@[k]
            == self@.button_table()[k] by {
            assert(at(map@, k.0, k.1) == button_action(devs, k.0, k.1));
        }
        assert(map@ =~= self@.button_table());
        map
    }

    /// Flattens the keystroke mappings into a table by key code. Unknown key names are skipped.
    pub fn resolve_keys(&self) -> (r: Mappings)
        ensures
            r@ == self@.key_table(),
    {
        let mut map: Mappings = Mappings::new();
        let ghost devs = self@.device;
        let n: usize = self.device.len();
        let mut i: usize = 0;
        while i < n
            invariant
                i <= n == self.device@.len(),
                devs == self@.device,
                forall|d: u64, c: i64|
                    #[trigger] at(map@, d, c) == key_action(devs.take(i as int), d, c),
            decreases n - i,
        {
            let dev = &self.device[i];
            let keys: Vec<u64> = dev.device_keys();
            let ghost start = map@;
            let kn: usize = keys.len();
            let mut j: usize = 0;
            while j < kn
                invariant
                    j <= kn == keys@.len(),
                    keys@ == dev@.device_keys(),
                    forall|d: u64, c: i64|
                        #[trigger] at(map@, d, c) == (if keys@.take(j as int).contains(d)
                            && last_key(dev@.key, c) is Some {
                            last_key(dev@.key, c)
                        } else {
                            at(start, d, c)
                        }),
                decreases kn - j,
            {
                let ghost before = map@;
                add_keys(&mut map, keys[j], dev);
                proof {
                    lemma_take_contains(keys@, j as int);
                    assert forall|d: u64, c: i64| #[trigger]
                        at(map@, d, c) == (if keys@.take(j + 1).contains(d) && last_key(
                            dev@.key,
                            c,
                        ) is Some {
                            last_key(dev@.key, c)
                        } else {
                            at(start, d, c)
                        }) by {
                        assert(at(before, d, c) == at(before, d, c));
                    }
                }
                j += 1;
            }
            assert(keys@.take(kn as int) =~= keys@);
            assert(devs.take(i + 1).drop_last() =~= devs.take(i as int));
            assert(devs.take(i + 1).last() == dev@);
            assert forall|d: u64, c: i64| #[trigger]
                at(map@, d, c) == key_action(devs.take(i + 1), d, c) by {
                assert(at(start, d, c) == key_action(devs.take(i as int), d, c));
            }
            i += 1;
        }
        assert(devs.take(n as int) =~= devs);
        assert forall|k: (u64, i64)| #[trigger]
            map@.contains_key(k) == self@.key_table().contains_key(k) by {
            assert(at(map@, k.0, k.1) == key_action(devs, k.0, k.1));
        }
        assert forall|k: (u64, i64)| #[trigger] map@.contains_key(k) implies map@[k]
            == self@.key_table()[k] by {
            assert(at(map@, k.0, k.1) == key_action(devs, k.0, k.1));
        }
        assert(map@ =~= self@.key_table());
        map
    }
}

/// One more element of a list is one more value that its front part holds.
proof fn lemma_take_contains(s: Seq<u64>, j: int)
    requires
        0 <= j < s.len(),
    ensures
        forall|d: u64| #[trigger] s.take(j + 1).contains(d) == (s.take(j).contains(d) || d == s[j]),
{
    assert forall|d: u64| #[trigger] s.take(j + 1).contains(d) == (s.take(j).contains(d) || d
        == s[j]) by {
        let more = s.take(j + 1);
        let less = s.take(j);
        assert(more[j] == s[j]);
        if less.contains(d) {
            let i = choose|i: int| 0 <= i < less.len() && less[i] == d;
            assert(more[i] == d);
        }
        if more.contains(d) {
            let i = choose|i: int| 0 <= i < more.len() && more[i] == d;
            if i < j {
                assert(less[i] == d);
            }
        }
    }
}

} // verus!
