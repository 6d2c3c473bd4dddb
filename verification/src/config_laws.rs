//! What holds of every configuration and of the tables made from it.

use vstd::prelude::*;

use crate::config::{
    key_of, low16, vidpid, ActionView, ConfigView, DeviceConfigView, KeyMappingView, MappingView,
    PROTECTED_BUTTON, VIDPID_TAG,
};
use crate::engine::{keystroke, Injected, ZMOUSE_TAG};
use crate::keymap::{code_of, flag_of, flags_named, names_flag, EventFlags};
use crate::lists::{gather, lemma_gather_empty};
use crate::mappings::{button_action, key_action, last_button, last_key, triggers};
use crate::text::lower;
use crate::validate::{
    action_problems, also_problem, button_place, button_problem, device_problem, device_problems,
    key_place, key_problem, known_key, known_mod, mod_problem,
};

verus! {

// ---------------------------------------------------------------------------------------------
// Identities
// ---------------------------------------------------------------------------------------------
/// A vendor/product key carries the tag, so no registry id below the tag is equal to it.
pub proof fn vidpid_key_is_no_registry_id(vendor_id: i64, product_id: i64, registry_id: u64)
    requires
        registry_id < VIDPID_TAG,
    ensures
        vidpid(vendor_id, product_id) >= VIDPID_TAG,
        vidpid(vendor_id, product_id) & VIDPID_TAG != 0,
        vidpid(vendor_id, product_id) != registry_id,
{
    let k = vidpid(vendor_id, product_id);
    assert(k >= VIDPID_TAG);
    assert(k >= 0x8000_0000_0000_0000u64 ==> k & 0x8000_0000_0000_0000u64 != 0) by (bit_vector);
}

/// Two vendor/product pairs have the same key exactly when both ids agree in their low sixteen
/// bits, which are all that a USB id has.
pub proof fn vidpid_key_tells_pairs_apart(v1: i64, p1: i64, v2: i64, p2: i64)
    ensures
        vidpid(v1, p1) == vidpid(v2, p2) <==> low16(v1) == low16(v2) && low16(p1) == low16(p2),
        0 <= v1 < 0x1_0000 && 0 <= p1 < 0x1_0000 && 0 <= v2 < 0x1_0000 && 0 <= p2 < 0x1_0000
            && vidpid(v1, p1) == vidpid(v2, p2) ==> v1 == v2 && p1 == p2,
{
}

/// A device with a vendor and a product id keeps its key whatever registry id it is given, so its
/// mappings survive a reconnect.
pub proof fn reconnect_keeps_key(
    old_registry: Option<u64>,
    new_registry: Option<u64>,
    vendor_id: i64,
    product_id: i64,
)
    ensures
        key_of(old_registry, Some(vendor_id), Some(product_id)) == key_of(
            new_registry,
            Some(vendor_id),
            Some(product_id),
        ),
{
}

// ---------------------------------------------------------------------------------------------
// Tables
// ---------------------------------------------------------------------------------------------
/// No configuration maps the left button, on any device.
pub proof fn left_button_is_never_mapped(config: ConfigView, d: u64)
    ensures
        !config.button_table().contains_key((d, PROTECTED_BUTTON)),
{
}

/// The devices of a list that answer to a key.
pub open spec fn answering(devs: Seq<DeviceConfigView>, d: u64) -> Seq<DeviceConfigView>
    decreases devs.len(),
{
    if devs.len() == 0 {
        Seq::empty()
    } else if devs.last().answers_to(d) {
        answering(devs.drop_last(), d).push(devs.last())
    } else {
        answering(devs.drop_last(), d)
    }
}

/// What a device does depends only on the entries that answer to its key: a mapping of one mouse
/// never affects another.
pub proof fn mappings_are_per_device(xs: Seq<DeviceConfigView>, ys: Seq<DeviceConfigView>, d: u64)
    requires
        answering(xs, d) == answering(ys, d),
    ensures
        forall|b: i64| #[trigger] button_action(xs, d, b) == button_action(ys, d, b),
        forall|c: i64| #[trigger] key_action(xs, d, c) == key_action(ys, d, c),
{
    assert forall|b: i64| #[trigger] button_action(xs, d, b) == button_action(ys, d, b) by {
        lemma_only_answering(xs, d, b);
        lemma_only_answering(ys, d, b);
    }
    assert forall|c: i64| #[trigger] key_action(xs, d, c) == key_action(ys, d, c) by {
        lemma_only_answering(xs, d, c);
        lemma_only_answering(ys, d, c);
    }
}

proof fn lemma_only_answering(devs: Seq<DeviceConfigView>, d: u64, sub: i64)
    ensures
        button_action(devs, d, sub) == button_action(answering(devs, d), d, sub),
        key_action(devs, d, sub) == key_action(answering(devs, d), d, sub),
    decreases devs.len(),
{
    if devs.len() > 0 {
        let rest = devs.drop_last();
        lemma_only_answering(rest, d, sub);
        if devs.last().answers_to(d) {
            assert(answering(rest, d).push(devs.last()).drop_last() =~= answering(rest, d));
        }
    }
}

/// Two keys that the same devices answer to have the same actions: the identities of one physical
/// device share its mappings.
pub proof fn identities_share_mappings(devs: Seq<DeviceConfigView>, k1: u64, k2: u64)
    requires
        forall|i: int|
            0 <= i < devs.len() ==> (#[trigger] devs[i]).answers_to(k1) == devs[i].answers_to(k2),
    ensures
        forall|b: i64| #[trigger] button_action(devs, k1, b) == button_action(devs, k2, b),
        forall|c: i64| #[trigger] key_action(devs, k1, c) == key_action(devs, k2, c),
    decreases devs.len(),
{
    if devs.len() > 0 {
        let rest = devs.drop_last();
        assert(devs.last() == devs[devs.len() - 1]);
        assert forall|i: int| 0 <= i < rest.len() implies (#[trigger] rest[i]).answers_to(k1)
            == rest[i].answers_to(k2) by {
            assert(rest[i] == devs[i]);
        }
        identities_share_mappings(rest, k1, k2);
        assert forall|b: i64| #[trigger]
            button_action(devs, k1, b) == button_action(devs, k2, b) by {
            assert(button_action(rest, k1, b) == button_action(rest, k2, b));
        }
        assert forall|c: i64| #[trigger] key_action(devs, k1, c) == key_action(devs, k2, c) by {
            assert(key_action(rest, k1, c) == key_action(rest, k2, c));
        }
    }
}

/// Every button mapping is reachable under every key of its device, unless it is for the left
/// button; and nothing else is in the table.
pub proof fn button_table_is_complete(devs: Seq<DeviceConfigView>, d: u64, b: i64)
    ensures
        button_action(devs, d, b) is Some <==> b != PROTECTED_BUTTON && exists|i: int, j: int|
            #![trigger devs[i], devs[i].mapping[j]]
            0 <= i < devs.len() && devs[i].answers_to(d) && 0 <= j < devs[i].mapping.len()
                && devs[i].mapping[j].button == b,
    decreases devs.len(),
{
    if devs.len() > 0 && b != PROTECTED_BUTTON {
        let rest = devs.drop_last();
        let last = devs.last();
        assert(last == devs[devs.len() - 1]);
        button_table_is_complete(rest, d, b);
        lemma_last_button(last.mapping, b);
        if last.answers_to(d) && last_button(last.mapping, b) is Some {
            let j = choose|j: int|
                0 <= j < last.mapping.len() && (#[trigger] last.mapping[j]).button == b;
            assert(devs[devs.len() - 1].mapping[j].button == b);
        } else {
            if button_action(rest, d, b) is Some {
                let (i, j) = choose|i: int, j: int|
                    #![trigger rest[i], rest[i].mapping[j]]
                    0 <= i < rest.len() && rest[i].answers_to(d) && 0 <= j < rest[i].mapping.len()
                        && rest[i].mapping[j].button == b;
                assert(devs[i] == rest[i]);
                assert(devs[i].mapping[j].button == b);
            }
            if exists|i: int, j: int|
                #![trigger devs[i], devs[i].mapping[j]]
                0 <= i < devs.len() && devs[i].answers_to(d) && 0 <= j < devs[i].mapping.len()
                    && devs[i].mapping[j].button == b {
                let (i, j) = choose|i: int, j: int|
                    #![trigger devs[i], devs[i].mapping[j]]
                    0 <= i < devs.len() && devs[i].answers_to(d) && 0 <= j < devs[i].mapping.len()
                        && devs[i].mapping[j].button == b;
                if i < rest.len() {
                    assert(rest[i] == devs[i]);
                    assert(rest[i].mapping[j].button == b);
                } else {
                    assert(last.mapping[j].button == b);
                }
            }
        }
    }
}

proof fn lemma_last_button(ms: Seq<MappingView>, b: i64)
    ensures
        last_button(ms, b) is Some <==> exists|j: int|
            0 <= j < ms.len() && (#[trigger] ms[j]).button == b,
    decreases ms.len(),
{
    if ms.len() > 0 {
        let rest = ms.drop_last();
        lemma_last_button(rest, b);
        if ms.last().button == b {
            assert(ms[ms.len() - 1].button == b);
        } else {
            if last_button(rest, b) is Some {
                let j = choose|j: int| 0 <= j < rest.len() && (#[trigger] rest[j]).button == b;
                assert(ms[j].button == b);
            }
            if exists|j: int| 0 <= j < ms.len() && (#[trigger] ms[j]).button == b {
                let j = choose|j: int| 0 <= j < ms.len() && (#[trigger] ms[j]).button == b;
                assert(rest[j].button == b);
            }
        }
    }
}

/// Every keystroke mapping with a known source key is reachable under every key of its device, and
/// nothing else is in the table.
pub proof fn key_table_is_complete(devs: Seq<DeviceConfigView>, d: u64, c: i64)
    ensures
        key_action(devs, d, c) is Some <==> exists|i: int, j: int|
            #![trigger devs[i], devs[i].key[j]]
            0 <= i < devs.len() && devs[i].answers_to(d) && 0 <= j < devs[i].key.len() && triggers(
                devs[i].key[j],
                c,
            ),
    decreases devs.len(),
{
    if devs.len() > 0 {
        let rest = devs.drop_last();
        let last = devs.last();
        assert(last == devs[devs.len() - 1]);
        key_table_is_complete(rest, d, c);
        lemma_last_key(last.key, c);
        if last.answers_to(d) && last_key(last.key, c) is Some {
            let j = choose|j: int| 0 <= j < last.key.len() && triggers(#[trigger] last.key[j], c);
            assert(triggers(devs[devs.len() - 1].key[j], c));
        } else {
            if key_action(rest, d, c) is Some {
                let (i, j) = choose|i: int, j: int|
                    #![trigger rest[i], rest[i].key[j]]
                    0 <= i < rest.len() && rest[i].answers_to(d) && 0 <= j < rest[i].key.len()
                        && triggers(rest[i].key[j], c);
                assert(devs[i] == rest[i]);
                assert(triggers(devs[i].key[j], c));
            }
            if exists|i: int, j: int|
                #![trigger devs[i], devs[i].key[j]]
                0 <= i < devs.len() && devs[i].answers_to(d) && 0 <= j < devs[i].key.len()
                    && triggers(devs[i].key[j], c) {
                let (i, j) = choose|i: int, j: int|
                    #![trigger devs[i], devs[i].key[j]]
                    0 <= i < devs.len() && devs[i].answers_to(d) && 0 <= j < devs[i].key.len()
                        && triggers(devs[i].key[j], c);
                if i < rest.len() {
                    assert(rest[i] == devs[i]);
                    assert(triggers(rest[i].key[j], c));
                } else {
                    assert(triggers(last.key[j], c));
                }
            }
        }
    }
}

proof fn lemma_last_key(ks: Seq<KeyMappingView>, c: i64)
    ensures
        last_key(ks, c) is Some <==> exists|j: int|
            0 <= j < ks.len() && triggers(#[trigger] ks[j], c),
    decreases ks.len(),
{
    if ks.len() > 0 {
        let rest = ks.drop_last();
        lemma_last_key(rest, c);
        if triggers(ks.last(), c) {
            assert(triggers(ks[ks.len() - 1], c));
        } else {
            if last_key(rest, c) is Some {
                let j = choose|j: int| 0 <= j < rest.len() && triggers(#[trigger] rest[j], c);
                assert(triggers(ks[j], c));
            }
            if exists|j: int| 0 <= j < ks.len() && triggers(#[trigger] ks[j], c) {
                let j = choose|j: int| 0 <= j < ks.len() && triggers(#[trigger] ks[j], c);
                assert(triggers(rest[j], c));
            }
        }
    }
}

// ---------------------------------------------------------------------------------------------
// Validation
// ---------------------------------------------------------------------------------------------
/// Whether every key and modifier that an action names is known.
pub open spec fn action_clean(action: ActionView) -> bool {
    match action {
        ActionView::Keystroke { key, mods } => known_key(key) && forall|i: int|
            0 <= i < mods.len() ==> known_mod(#[trigger] mods[i]),
        _ => true,
    }
}

/// Whether a device is in order: it has an identity, each further one has a key, no mapping is for
/// the left button, and every key and modifier name is known.
pub open spec fn device_clean(dev: DeviceConfigView) -> bool {
    &&& dev.device_keys().len() > 0
    &&& forall|i: int| 0 <= i < dev.also.len() ==> (#[trigger] dev.also[i]).device_key() is Some
    &&& forall|i: int|
        0 <= i < dev.mapping.len() ==> (#[trigger] dev.mapping[i]).button != PROTECTED_BUTTON
            && action_clean(dev.mapping[i].action)
    &&& forall|i: int|
        0 <= i < dev.key.len() ==> known_key((#[trigger] dev.key[i]).key) && action_clean(
            dev.key[i].action,
        )
}

/// Validation finds nothing exactly where every device is in order.
pub proof fn validation_is_exact(config: ConfigView)
    ensures
        config.problems().len() == 0 <==> forall|i: int|
            0 <= i < config.device.len() ==> device_clean(#[trigger] config.device[i]),
{
    let f = device_problem(config.device);
    lemma_gather_empty(config.device.len(), f);
    assert forall|i: int| 0 <= i < config.device.len() implies (f(i).len() == 0 <==> device_clean(
        #[trigger] config.device[i],
    )) by {
        lemma_device_problems(config.device[i]);
    }
    if forall|i: int| 0 <= i < config.device.len() ==> device_clean(#[trigger] config.device[i]) {
        assert forall|i: int| 0 <= i < config.device.len() implies (#[trigger] f(i)).len() == 0 by {
            assert(device_clean(config.device[i]));
        }
    }
    if config.problems().len() == 0 {
        assert forall|i: int| 0 <= i < config.device.len() implies device_clean(
            #[trigger] config.device[i],
        ) by {
            assert(f(i).len() == 0);
        }
    }
}

proof fn lemma_action_problems(place: Seq<char>, unknown_key: Seq<char>, action: ActionView)
    ensures
        action_problems(place, unknown_key, action).len() == 0 <==> action_clean(action),
{
    if let ActionView::Keystroke { key, mods } = action {
        let f = mod_problem(place, mods);
        lemma_gather_empty(mods.len(), f);
        assert forall|i: int| 0 <= i < mods.len() implies (f(i).len() == 0 <==> known_mod(
            #[trigger] mods[i],
        )) by {}
        if gather(mods.len(), f).len() == 0 {
            assert forall|i: int| 0 <= i < mods.len() implies known_mod(#[trigger] mods[i]) by {
                assert(f(i).len() == 0);
            }
        }
    }
}

proof fn lemma_device_problems(dev: DeviceConfigView)
    ensures
        device_problems(dev).len() == 0 <==> device_clean(dev),
{
    let ident = dev.ident_desc();
    let fa = also_problem(dev);
    let fm = button_problem(dev);
    let fk = key_problem(dev);
    lemma_gather_empty(dev.also.len(), fa);
    lemma_gather_empty(dev.mapping.len(), fm);
    lemma_gather_empty(dev.key.len(), fk);
    assert forall|i: int| 0 <= i < dev.mapping.len() implies ((#[trigger] fm(i)).len() == 0 <==>
        dev.mapping[i].button != PROTECTED_BUTTON && action_clean(dev.mapping[i].action)) by {
        lemma_action_problems(
            button_place(ident, dev.mapping[i].button),
            ": unknown key '"@,
            dev.mapping[i].action,
        );
    }
    assert forall|i: int| 0 <= i < dev.key.len() implies ((#[trigger] fk(i)).len() == 0 <==>
        known_key(dev.key[i].key) && action_clean(dev.key[i].action)) by {
        lemma_action_problems(
            key_place(ident, dev.key[i].key),
            ": unknown target key '"@,
            dev.key[i].action,
        );
    }
    if device_problems(dev).len() == 0 {
        assert forall|i: int| 0 <= i < dev.also.len() implies (
        #[trigger] dev.also[i]).device_key() is Some by {
            assert(fa(i).len() == 0);
        }
        assert forall|i: int| 0 <= i < dev.mapping.len() implies (
        #[trigger] dev.mapping[i]).button != PROTECTED_BUTTON && action_clean(
            dev.mapping[i].action,
        ) by {
            assert(fm(i).len() == 0);
        }
        assert forall|i: int| 0 <= i < dev.key.len() implies known_key(
            (#[trigger] dev.key[i]).key,
        ) && action_clean(dev.key[i].action) by {
            assert(fk(i).len() == 0);
        }
    }
    if device_clean(dev) {
        assert forall|i: int| 0 <= i < dev.also.len() implies (#[trigger] fa(i)).len() == 0 by {
            assert(dev.also[i].device_key() is Some);
        }
        assert forall|i: int| 0 <= i < dev.mapping.len() implies (#[trigger] fm(i)).len() == 0 by {
            assert(action_clean(dev.mapping[i].action));
        }
        assert forall|i: int| 0 <= i < dev.key.len() implies (#[trigger] fk(i)).len() == 0 by {
            assert(action_clean(dev.key[i].action));
        }
    }
}

/// A keystroke with an unknown key does nothing; one with a known key is a press and a release of
/// that key with the same modifiers held.
pub proof fn unknown_key_is_a_no_op(key: Seq<char>, mods: Seq<Seq<char>>)
    ensures
        !known_key(key) ==> keystroke(key, mods).len() == 0,
        known_key(key) ==> {
            let code = code_of(lower(key))->0;
            let flags = flags_named(mods);
            keystroke(key, mods) == seq![
                Injected::Key { code, down: true, flags, user_data: ZMOUSE_TAG },
                Injected::Key { code, down: false, flags, user_data: ZMOUSE_TAG },
            ]
        },
{
}

// ---------------------------------------------------------------------------------------------
// Modifiers
// ---------------------------------------------------------------------------------------------
/// Combining is the union of what the parts stand for: order and repetition do not matter.
pub proof fn combining_is_union(xs: Seq<Seq<char>>, ys: Seq<Seq<char>>, f: EventFlags)
    ensures
        names_flag(xs + ys, f) == (names_flag(xs, f) || names_flag(ys, f)),
{
    let all = xs + ys;
    if names_flag(xs, f) {
        let i = choose|i: int|
            0 <= i < xs.len() && flag_of(lower(#[trigger] xs[i])) == Some(f);
        assert(all[i] == xs[i]);
    }
    if names_flag(ys, f) {
        let i = choose|i: int|
            0 <= i < ys.len() && flag_of(lower(#[trigger] ys[i])) == Some(f);
        assert(all[xs.len() + i] == ys[i]);
    }
    if names_flag(all, f) {
        let i = choose|i: int|
            0 <= i < all.len() && flag_of(lower(#[trigger] all[i])) == Some(f);
        if i < xs.len() {
            assert(xs[i] == all[i]);
        } else {
            assert(ys[i - xs.len()] == all[i]);
        }
    }
}

/// A flag word stands for one set of modifiers only.
pub proof fn flag_words_are_distinct(a: EventFlags, b: EventFlags)
    ensures
        a.word() == b.word() ==> a == b,
{
}

} // verus!
