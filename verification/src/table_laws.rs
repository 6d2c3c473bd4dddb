//! What the tables of a configuration hold, said of its devices and mappings themselves.

use vstd::prelude::*;

use crate::config::{
    desc_of, key_of, keys_of, vidpid, ConfigView, DeviceConfigView, DeviceIdView, KeyMappingView,
    MappingView,
};
use crate::forms::IdentityRowView;
use crate::keymap::code_of;
use crate::mappings::{button_action, key_action, last_button, last_key};
use crate::tap_laws::pair_key;
use crate::text::lower;

verus! {

// ---------------------------------------------------------------------------------------------
// Keys
// ---------------------------------------------------------------------------------------------
/// The key of a vendor and a product is the tag and sixteen bits of each.
pub proof fn pair_key_is_packed(vendor_id: i64, product_id: i64)
    ensures
        vidpid(vendor_id, product_id) == pair_key(vendor_id, product_id),
{
}

/// Whether an identity is found under a key: by its vendor and product where it has both, else by
/// its registry id.
pub open spec fn found_under(
    registry_id: Option<u64>,
    vendor_id: Option<i64>,
    product_id: Option<i64>,
    k: u64,
) -> bool {
    match (vendor_id, product_id) {
        (Some(v), Some(p)) => k == pair_key(v, p),
        _ => registry_id == Some(k),
    }
}

/// An identity has the key that it is found under, and none where it is found under none.
pub proof fn identities_are_found_under_their_key(
    registry_id: Option<u64>,
    vendor_id: Option<i64>,
    product_id: Option<i64>,
    k: u64,
)
    ensures
        key_of(registry_id, vendor_id, product_id) == Some(k) <==> found_under(
            registry_id,
            vendor_id,
            product_id,
            k,
        ),
{
}

/// Wherever an identity stands, in a device's own fields, among its further ones or in a row of the
/// editor, it has the key and the words of its ids.
pub proof fn ids_alone_make_an_identity(d: DeviceConfigView, id: DeviceIdView, row: IdentityRowView)
    ensures
        d.device_key() == key_of(d.registry_id, d.vendor_id, d.product_id),
        id.device_key() == key_of(id.registry_id, id.vendor_id, id.product_id),
        row.device_key() == key_of(row.registry_id, row.vendor_id, row.product_id),
        id.desc() == desc_of(id.registry_id, id.vendor_id, id.product_id),
        row.desc() == desc_of(row.registry_id, row.vendor_id, row.product_id),
{
}

/// Whether a device is found under a key by any of its identities.
pub open spec fn device_found_under(dev: DeviceConfigView, k: u64) -> bool {
    found_under(dev.registry_id, dev.vendor_id, dev.product_id, k) || exists|i: int|
        0 <= i < dev.also.len() && found_under(
            (#[trigger] dev.also[i]).registry_id,
            dev.also[i].vendor_id,
            dev.also[i].product_id,
            k,
        )
}

proof fn lemma_keys_of(ids: Seq<DeviceIdView>, k: u64)
    ensures
        keys_of(ids).contains(k) <==> exists|i: int|
            0 <= i < ids.len() && found_under(
                (#[trigger] ids[i]).registry_id,
                ids[i].vendor_id,
                ids[i].product_id,
                k,
            ),
    decreases ids.len(),
{
    if ids.len() > 0 {
        let rest = ids.drop_last();
        lemma_keys_of(rest, k);
        let all = keys_of(ids);
        let front = keys_of(rest);
        let last = ids.last();
        assert(last == ids[ids.len() - 1]);
        if all.contains(k) {
            let i = choose|i: int| 0 <= i < all.len() && all[i] == k;
            if i < front.len() {
                assert(front[i] == k);
                let j = choose|j: int|
                    0 <= j < rest.len() && found_under(
                        (#[trigger] rest[j]).registry_id,
                        rest[j].vendor_id,
                        rest[j].product_id,
                        k,
                    );
                assert(ids[j] == rest[j]);
            }
        }
        if exists|i: int|
            0 <= i < ids.len() && found_under(
                (#[trigger] ids[i]).registry_id,
                ids[i].vendor_id,
                ids[i].product_id,
                k,
            ) {
            let i = choose|i: int|
                0 <= i < ids.len() && found_under(
                    (#[trigger] ids[i]).registry_id,
                    ids[i].vendor_id,
                    ids[i].product_id,
                    k,
                );
            if i < rest.len() {
                assert(rest[i] == ids[i]);
                let j = choose|j: int| 0 <= j < front.len() && front[j] == k;
                assert(all[j] == k);
            } else {
                assert(all[front.len() as int] == k);
            }
        }
    }
}

/// A device answers to exactly the keys that one of its identities is found under.
pub proof fn devices_answer_to_every_identity(dev: DeviceConfigView, k: u64)
    ensures
        dev.answers_to(k) <==> device_found_under(dev, k),
{
    lemma_keys_of(dev.also, k);
    let own = key_of(dev.registry_id, dev.vendor_id, dev.product_id);
    let keys = dev.device_keys();
    let further = keys_of(dev.also);
    if own == Some(k) {
        assert(keys[0] == k);
    }
    let n: int = if own is Some {
        1
    } else {
        0
    };
    if further.contains(k) {
        let i = choose|i: int| 0 <= i < further.len() && further[i] == k;
        assert(keys[n + i] == k);
    }
    if keys.contains(k) {
        let i = choose|i: int| 0 <= i < keys.len() && keys[i] == k;
        if i >= n {
            assert(further[i - n] == k);
        }
    }
}

/// The key of an identity as a list: of one where it is found under one, else of none.
pub open spec fn own_keys(
    registry_id: Option<u64>,
    vendor_id: Option<i64>,
    product_id: Option<i64>,
) -> Seq<u64> {
    match (vendor_id, product_id, registry_id) {
        (Some(v), Some(p), _) => seq![pair_key(v, p) as u64],
        (_, _, Some(r)) => seq![r],
        _ => Seq::empty(),
    }
}

/// A device's keys are those of its own identity and then those of its further ones, each identity
/// giving its key in its place: none is lost, added or moved.
pub proof fn every_identity_gives_its_key(
    dev: DeviceConfigView,
    id: DeviceIdView,
    xs: Seq<DeviceIdView>,
    ys: Seq<DeviceIdView>,
)
    ensures
        dev.device_keys() == own_keys(dev.registry_id, dev.vendor_id, dev.product_id) + keys_of(
            dev.also,
        ),
        keys_of(seq![id]) == own_keys(id.registry_id, id.vendor_id, id.product_id),
        keys_of(xs + ys) == keys_of(xs) + keys_of(ys),
    decreases ys.len(),
{
    assert(dev.device_keys() =~= own_keys(dev.registry_id, dev.vendor_id, dev.product_id) + keys_of(
        dev.also,
    ));
    assert(seq![id].drop_last() =~= Seq::empty());
    assert(keys_of(seq![id].drop_last()) =~= Seq::empty());
    assert(seq![id].last() == id);
    assert(keys_of(seq![id]) =~= own_keys(id.registry_id, id.vendor_id, id.product_id));
    if ys.len() == 0 {
        assert(xs + ys =~= xs);
        assert(keys_of(xs) + keys_of(ys) =~= keys_of(xs));
    } else {
        assert((xs + ys).drop_last() =~= xs + ys.drop_last());
        assert((xs + ys).last() == ys.last());
        every_identity_gives_its_key(dev, id, xs, ys.drop_last());
        assert(keys_of(xs + ys) =~= keys_of(xs) + keys_of(ys));
    }
}

// ---------------------------------------------------------------------------------------------
// Buttons
// ---------------------------------------------------------------------------------------------
/// Whether a mapping of a configuration is for a button of the device with a key.
pub open spec fn maps_button(devs: Seq<DeviceConfigView>, i: int, j: int, d: u64, b: i64) -> bool {
    &&& 0 <= i < devs.len()
    &&& 0 <= j < devs[i].mapping.len()
    &&& devs[i].mapping[j].button == b
    &&& device_found_under(devs[i], d)
}

/// Whether one place in a configuration comes before another, or is the same.
pub open spec fn not_after(i: int, j: int, k: int, l: int) -> bool {
    i < k || (i == k && j <= l)
}

proof fn lemma_last_button(ms: Seq<MappingView>, b: i64) -> (j: int)
    ensures
        last_button(ms, b) is Some ==> 0 <= j < ms.len() && ms[j].button == b && last_button(ms, b)
            == Some(ms[j].action),
        last_button(ms, b) is Some ==> forall|k: int|
            j < k < ms.len() ==> (#[trigger] ms[k]).button != b,
        last_button(ms, b) is None ==> forall|k: int|
            0 <= k < ms.len() ==> (#[trigger] ms[k]).button != b,
    decreases ms.len(),
{
    if ms.len() == 0 {
        0
    } else if ms.last().button == b {
        ms.len() - 1
    } else {
        let rest = ms.drop_last();
        let j = lemma_last_button(rest, b);
        assert forall|k: int| 0 <= k < ms.len() && ms[k].button == b implies k < rest.len() && (
        #[trigger] ms[k]) == rest[k] by {}
        j
    }
}

proof fn lemma_button_action(devs: Seq<DeviceConfigView>, d: u64, b: i64) -> (at: (int, int))
    requires
        b != 0,
    ensures
        button_action(devs, d, b) is Some ==> maps_button(devs, at.0, at.1, d, b) && button_action(
            devs,
            d,
            b,
        ) == Some(devs[at.0].mapping[at.1].action),
        button_action(devs, d, b) is Some ==> forall|k: int, l: int| #[trigger]
            maps_button(devs, k, l, d, b) ==> not_after(k, l, at.0, at.1),
        button_action(devs, d, b) is None ==> forall|k: int, l: int|
            !#[trigger] maps_button(devs, k, l, d, b),
    decreases devs.len(),
{
    if devs.len() == 0 {
        (0, 0)
    } else {
        let n = devs.len() - 1;
        let last = devs.last();
        assert(last == devs[n]);
        devices_answer_to_every_identity(last, d);
        let j = lemma_last_button(last.mapping, b);
        let rest = devs.drop_last();
        let at = lemma_button_action(rest, d, b);
        assert forall|k: int, l: int| #[trigger] maps_button(devs, k, l, d, b) && k < n implies
            maps_button(rest, k, l, d, b) by {
            assert(rest[k] == devs[k]);
        }
        if last.answers_to(d) && last_button(last.mapping, b) is Some {
            assert(maps_button(devs, n, j, d, b));
            assert forall|k: int, l: int| #[trigger] maps_button(devs, k, l, d, b) implies not_after(
                k,
                l,
                n,
                j,
            ) by {
                if k == n && l > j {
                    assert(last.mapping[l].button == b);
                }
            }
            (n, j)
        } else {
            assert forall|k: int, l: int| #[trigger] maps_button(devs, k, l, d, b) implies k < n by {
                if k == n {
                    assert(last.mapping[l].button == b);
                }
            }
            if button_action(rest, d, b) is Some {
                assert(rest[at.0] == devs[at.0]);
            }
            at
        }
    }
}

/// The button table has an action for a device and a button exactly where some mapping is for it
/// and the button is not the left one; the action is that of the last such mapping. Every identity
/// of a device counts.
pub proof fn button_table_is_exact(config: ConfigView, d: u64, b: i64)
    ensures
        config.button_table().contains_key((d, b)) <==> b != 0 && exists|i: int, j: int| #[trigger]
            maps_button(config.device, i, j, d, b),
        forall|i: int, j: int|
            b != 0 && #[trigger] maps_button(config.device, i, j, d, b) && (forall|k: int, l: int|
                #[trigger] maps_button(config.device, k, l, d, b) ==> not_after(k, l, i, j))
                ==> config.button_table()[(d, b)] == config.device[i].mapping[j].action,
{
    if b != 0 {
        let at = lemma_button_action(config.device, d, b);
        assert forall|i: int, j: int|
            #[trigger] maps_button(config.device, i, j, d, b) && (forall|k: int, l: int| #[trigger]
                maps_button(config.device, k, l, d, b) ==> not_after(k, l, i, j)) implies
            config.button_table()[(d, b)] == config.device[i].mapping[j].action by {
            assert(not_after(i, j, at.0, at.1));
            assert(not_after(at.0, at.1, i, j));
        }
    }
}

// ---------------------------------------------------------------------------------------------
// Keystrokes
// ---------------------------------------------------------------------------------------------
/// Whether a keystroke mapping of a configuration is for a key code of the device with a key.
pub open spec fn maps_key(devs: Seq<DeviceConfigView>, i: int, j: int, d: u64, c: i64) -> bool {
    &&& 0 <= i < devs.len()
    &&& 0 <= j < devs[i].key.len()
    &&& code_of(lower(devs[i].key[j].key)) is Some
    &&& code_of(lower(devs[i].key[j].key))->0 == c
    &&& device_found_under(devs[i], d)
}

spec fn types(k: KeyMappingView, c: i64) -> bool {
    code_of(lower(k.key)) is Some && code_of(lower(k.key))->0 == c
}

proof fn lemma_last_key(ks: Seq<KeyMappingView>, c: i64) -> (j: int)
    ensures
        last_key(ks, c) is Some ==> 0 <= j < ks.len() && types(ks[j], c) && last_key(ks, c) == Some(
            ks[j].action,
        ),
        last_key(ks, c) is Some ==> forall|k: int|
            j < k < ks.len() ==> !types(#[trigger] ks[k], c),
        last_key(ks, c) is None ==> forall|k: int|
            0 <= k < ks.len() ==> !types(#[trigger] ks[k], c),
    decreases ks.len(),
{
    if ks.len() == 0 {
        0
    } else if types(ks.last(), c) {
        ks.len() - 1
    } else {
        let rest = ks.drop_last();
        let j = lemma_last_key(rest, c);
        assert forall|k: int| 0 <= k < ks.len() && types(ks[k], c) implies k < rest.len() && (
        #[trigger] ks[k]) == rest[k] by {}
        j
    }
}

proof fn lemma_key_action(devs: Seq<DeviceConfigView>, d: u64, c: i64) -> (at: (int, int))
    ensures
        key_action(devs, d, c) is Some ==> maps_key(devs, at.0, at.1, d, c) && key_action(
            devs,
            d,
            c,
        ) == Some(devs[at.0].key[at.1].action),
        key_action(devs, d, c) is Some ==> forall|k: int, l: int| #[trigger]
            maps_key(devs, k, l, d, c) ==> not_after(k, l, at.0, at.1),
        key_action(devs, d, c) is None ==> forall|k: int, l: int|
            !#[trigger] maps_key(devs, k, l, d, c),
    decreases devs.len(),
{
    if devs.len() == 0 {
        (0, 0)
    } else {
        let n = devs.len() - 1;
        let last = devs.last();
        assert(last == devs[n]);
        devices_answer_to_every_identity(last, d);
        let j = lemma_last_key(last.key, c);
        let rest = devs.drop_last();
        let at = lemma_key_action(rest, d, c);
        assert forall|k: int, l: int| #[trigger] maps_key(devs, k, l, d, c) && k < n implies
            maps_key(rest, k, l, d, c) by {
            assert(rest[k] == devs[k]);
        }
        if last.answers_to(d) && last_key(last.key, c) is Some {
            assert(maps_key(devs, n, j, d, c));
            assert forall|k: int, l: int| #[trigger] maps_key(devs, k, l, d, c) implies not_after(
                k,
                l,
                n,
                j,
            ) by {
                if k == n && l > j {
                    assert(types(last.key[l], c));
                }
            }
            (n, j)
        } else {
            assert forall|k: int, l: int| #[trigger] maps_key(devs, k, l, d, c) implies k < n by {
                if k == n {
                    assert(types(last.key[l], c));
                }
            }
            if key_action(rest, d, c) is Some {
                assert(rest[at.0] == devs[at.0]);
            }
            at
        }
    }
}

/// The keystroke table has an action for a device and a key code exactly where some mapping names a
/// key with that code, in any ASCII case; the action is that of the last such mapping. Every
/// identity of a device counts.
pub proof fn key_table_is_exact(config: ConfigView, d: u64, c: i64)
    ensures
        config.key_table().contains_key((d, c)) <==> exists|i: int, j: int| #[trigger]
            maps_key(config.device, i, j, d, c),
        forall|i: int, j: int|
            #[trigger] maps_key(config.device, i, j, d, c) && (forall|k: int, l: int| #[trigger]
                maps_key(config.device, k, l, d, c) ==> not_after(k, l, i, j))
                ==> config.key_table()[(d, c)] == config.device[i].key[j].action,
{
    let at = lemma_key_action(config.device, d, c);
    assert forall|i: int, j: int|
        #[trigger] maps_key(config.device, i, j, d, c) && (forall|k: int, l: int| #[trigger]
            maps_key(config.device, k, l, d, c) ==> not_after(k, l, i, j)) implies
        config.key_table()[(d, c)] == config.device[i].key[j].action by {
        assert(not_after(i, j, at.0, at.1));
        assert(not_after(at.0, at.1, i, j));
    }
}

} // verus!
