//! What a validation says: each flaw of a configuration, in its own words, and nothing else.

use vstd::prelude::*;

use crate::config::{desc_of, ActionView, ConfigView, DeviceConfigView};
use crate::keymap::{code_of, flag_of};
use crate::lists::{gather, lemma_gather_contains, lemma_gather_split};
use crate::name_laws::modifier_names_stand_for_flags;
use crate::table_laws::{device_found_under, devices_answer_to_every_identity};
use crate::text::{decimal_signed, join, lower};
use crate::text_laws::reads;
use crate::validate::{
    action_problems, also_problem, button_place, button_problem, button_problems, device_problem,
    device_problems, key_place, key_problem, key_problems, line_if, mod_problem,
};

verus! {

/// Whether a name is that of no modifier, in any ASCII case.
pub open spec fn is_no_modifier(name: Seq<char>) -> bool {
    &&& !reads(name, "cmd"@) && !reads(name, "command"@) && !reads(name, "super"@)
    &&& !reads(name, "shift"@)
    &&& !reads(name, "opt"@) && !reads(name, "option"@) && !reads(name, "alt"@)
    &&& !reads(name, "ctrl"@) && !reads(name, "control"@)
    &&& !reads(name, "fn"@) && !reads(name, "function"@)
}

/// Whether a text is said of the action at a place: that its key is unknown, or one of its
/// modifiers.
pub open spec fn said_of_action(
    text: Seq<char>,
    place: Seq<char>,
    unknown_key: Seq<char>,
    action: ActionView,
) -> bool {
    match action {
        ActionView::Keystroke { key, mods } => {
            ||| code_of(lower(key)) is None && text == place + unknown_key + key + "'"@
            ||| exists|i: int|
                0 <= i < mods.len() && is_no_modifier(#[trigger] mods[i]) && text == place
                    + ": unknown modifier '"@ + mods[i] + "'"@
        },
        _ => false,
    }
}

/// Whether a text is said of a device that has no identity at all.
pub open spec fn said_of_stranger(text: Seq<char>, dev: DeviceConfigView) -> bool {
    &&& forall|k: u64| !#[trigger] device_found_under(dev, k)
    &&& text == "device '"@ + (match dev.name {
        Some(n) => n,
        None => "<unnamed>"@,
    }) + "' has no identity: set vendor_id+product_id or registry_id"@
}

/// Whether a text is said of a device: of its identities, its button mappings or its keystroke
/// mappings.
pub open spec fn said_of_device(text: Seq<char>, dev: DeviceConfigView) -> bool {
    let who = dev.ident_desc();
    ||| said_of_stranger(text, dev)
    ||| exists|i: int|
        0 <= i < dev.also.len() && (#[trigger] dev.also[i]).registry_id is None && (
        dev.also[i].vendor_id is None || dev.also[i].product_id is None) && text == "device "@ + who
            + " has an `also` entry with no identity (needs vendor_id+product_id or registry_id)"@
    ||| exists|i: int|
        {
            let m = #[trigger] dev.mapping[i];
            let place = "device "@ + who + " button "@ + decimal_signed(m.button as int);
            0 <= i < dev.mapping.len() && ((m.button == 0 && text == place
                + ": the left (primary) button is protected and won't be remapped"@)
                || said_of_action(text, place, ": unknown key '"@, m.action))
        }
    ||| exists|i: int|
        {
            let k = #[trigger] dev.key[i];
            let place = "device "@ + who + " key '"@ + k.key + "'"@;
            0 <= i < dev.key.len() && ((code_of(lower(k.key)) is None && text == place
                + ": unknown source key"@) || said_of_action(
                text,
                place,
                ": unknown target key '"@,
                k.action,
            ))
        }
}

proof fn lemma_line_if(holds: bool, line: Seq<char>, text: Seq<char>)
    ensures
        line_if(holds, line).contains(text) <==> holds && text == line,
{
    if holds {
        assert(line_if(holds, line)[0] == line);
    }
}

proof fn lemma_sum<T>(a: Seq<T>, b: Seq<T>, x: T)
    ensures
        (a + b).contains(x) <==> a.contains(x) || b.contains(x),
{
    let s = a + b;
    if a.contains(x) {
        let i = choose|i: int| 0 <= i < a.len() && a[i] == x;
        assert(s[i] == x);
    }
    if b.contains(x) {
        let i = choose|i: int| 0 <= i < b.len() && b[i] == x;
        assert(s[a.len() + i] == x);
    }
    if s.contains(x) {
        let i = choose|i: int| 0 <= i < s.len() && s[i] == x;
        if i < a.len() {
            assert(a[i] == x);
        } else {
            assert(b[i - a.len()] == x);
        }
    }
}

proof fn lemma_action(text: Seq<char>, place: Seq<char>, unknown_key: Seq<char>, action: ActionView)
    ensures
        action_problems(place, unknown_key, action).contains(text) <==> said_of_action(
            text,
            place,
            unknown_key,
            action,
        ),
{
    if let ActionView::Keystroke { key, mods } = action {
        let head = line_if(code_of(lower(key)) is None, place + unknown_key + key + "'"@);
        let f = mod_problem(place, mods);
        lemma_line_if(code_of(lower(key)) is None, place + unknown_key + key + "'"@, text);
        lemma_sum(head, gather(mods.len(), f), text);
        lemma_gather_contains(mods.len(), f, text);
        assert forall|i: int| 0 <= i < mods.len() implies (#[trigger] f(i)).contains(text) == (
        is_no_modifier(mods[i]) && text == place + ": unknown modifier '"@ + mods[i] + "'"@) by {
            modifier_names_stand_for_flags(mods[i]);
            lemma_line_if(
                flag_of(lower(mods[i])) is None,
                place + ": unknown modifier '"@ + mods[i] + "'"@,
                text,
            );
        }
        if gather(mods.len(), f).contains(text) {
            let i = choose|i: int| 0 <= i < mods.len() && (#[trigger] f(i)).contains(text);
            assert(is_no_modifier(mods[i]));
        }
        if exists|i: int|
            0 <= i < mods.len() && is_no_modifier(#[trigger] mods[i]) && text == place
                + ": unknown modifier '"@ + mods[i] + "'"@ {
            let i = choose|i: int|
                0 <= i < mods.len() && is_no_modifier(#[trigger] mods[i]) && text == place
                    + ": unknown modifier '"@ + mods[i] + "'"@;
            assert(f(i).contains(text));
        }
    }
}

proof fn lemma_stranger(dev: DeviceConfigView)
    ensures
        dev.device_keys().len() == 0 <==> forall|k: u64| !#[trigger] device_found_under(dev, k),
{
    assert forall|k: u64| #[trigger] device_found_under(dev, k) == dev.answers_to(k) by {
        devices_answer_to_every_identity(dev, k);
    }
    if dev.device_keys().len() > 0 {
        let k = dev.device_keys()[0];
        assert(dev.device_keys().contains(k));
        assert(device_found_under(dev, k));
    }
}

#[verifier::rlimit(60)]
proof fn lemma_device(text: Seq<char>, dev: DeviceConfigView)
    ensures
        device_problems(dev).contains(text) <==> said_of_device(text, dev),
{
    let who = dev.ident_desc();
    let stranger = dev.device_keys().len() == 0;
    let name = match dev.name {
        Some(n) => n,
        None => "<unnamed>"@,
    };
    let line = "device '"@ + name + "' has no identity: set vendor_id+product_id or registry_id"@;
    let s0 = line_if(stranger, line);
    let fa = also_problem(dev);
    let fm = button_problem(dev);
    let fk = key_problem(dev);
    let s1 = gather(dev.also.len(), fa);
    let s2 = gather(dev.mapping.len(), fm);
    let s3 = gather(dev.key.len(), fk);
    lemma_stranger(dev);
    lemma_line_if(stranger, line, text);
    lemma_sum(s0, s1, text);
    lemma_sum(s0 + s1, s2, text);
    lemma_sum(s0 + s1 + s2, s3, text);
    lemma_gather_contains(dev.also.len(), fa, text);
    lemma_gather_contains(dev.mapping.len(), fm, text);
    lemma_gather_contains(dev.key.len(), fk, text);
    let also_line = "device "@ + who
        + " has an `also` entry with no identity (needs vendor_id+product_id or registry_id)"@;
    assert forall|i: int| 0 <= i < dev.also.len() implies (#[trigger] fa(i)).contains(text) == (
    dev.also[i].registry_id is None && (dev.also[i].vendor_id is None || dev.also[i].product_id is None)
        && text == also_line) by {
        lemma_line_if(dev.also[i].device_key() is None, also_line, text);
    }
    assert forall|i: int| 0 <= i < dev.mapping.len() implies (#[trigger] fm(i)).contains(text) == ({
        let m = dev.mapping[i];
        let place = "device "@ + who + " button "@ + decimal_signed(m.button as int);
        ||| m.button == 0 && text == place
            + ": the left (primary) button is protected and won't be remapped"@
        ||| said_of_action(text, place, ": unknown key '"@, m.action)
    }) by {
        let m = dev.mapping[i];
        let place = button_place(who, m.button);
        lemma_line_if(
            m.button == 0,
            place + ": the left (primary) button is protected and won't be remapped"@,
            text,
        );
        lemma_action(text, place, ": unknown key '"@, m.action);
        lemma_sum(
            line_if(
                m.button == 0,
                place + ": the left (primary) button is protected and won't be remapped"@,
            ),
            action_problems(place, ": unknown key '"@, m.action),
            text,
        );
        assert(fm(i) == button_problems(who, m));
    }
    assert forall|i: int| 0 <= i < dev.key.len() implies (#[trigger] fk(i)).contains(text) == ({
        let k = dev.key[i];
        let place = "device "@ + who + " key '"@ + k.key + "'"@;
        ||| code_of(lower(k.key)) is None && text == place + ": unknown source key"@
        ||| said_of_action(text, place, ": unknown target key '"@, k.action)
    }) by {
        let k = dev.key[i];
        let place = key_place(who, k.key);
        lemma_line_if(code_of(lower(k.key)) is None, place + ": unknown source key"@, text);
        lemma_action(text, place, ": unknown target key '"@, k.action);
        lemma_sum(
            line_if(code_of(lower(k.key)) is None, place + ": unknown source key"@),
            action_problems(place, ": unknown target key '"@, k.action),
            text,
        );
        assert(fk(i) == key_problems(who, k));
    }
    if s1.contains(text) {
        let i = choose|i: int| 0 <= i < dev.also.len() && (#[trigger] fa(i)).contains(text);
        assert(dev.also[i].registry_id is None);
    }
    if s2.contains(text) {
        let i = choose|i: int| 0 <= i < dev.mapping.len() && (#[trigger] fm(i)).contains(text);
        let m = dev.mapping[i];
    }
    if s3.contains(text) {
        let i = choose|i: int| 0 <= i < dev.key.len() && (#[trigger] fk(i)).contains(text);
        let k = dev.key[i];
    }
    if said_of_device(text, dev) && !said_of_stranger(text, dev) {
        if exists|i: int|
            0 <= i < dev.also.len() && (#[trigger] dev.also[i]).registry_id is None && (
            dev.also[i].vendor_id is None || dev.also[i].product_id is None) && text == also_line {
            let i = choose|i: int|
                0 <= i < dev.also.len() && (#[trigger] dev.also[i]).registry_id is None && (
                dev.also[i].vendor_id is None || dev.also[i].product_id is None) && text
                    == also_line;
            assert(fa(i).contains(text));
        } else if exists|i: int|
            {
                let m = #[trigger] dev.mapping[i];
                let place = "device "@ + who + " button "@ + decimal_signed(m.button as int);
                0 <= i < dev.mapping.len() && ((m.button == 0 && text == place
                    + ": the left (primary) button is protected and won't be remapped"@)
                    || said_of_action(text, place, ": unknown key '"@, m.action))
            } {
            let i = choose|i: int|
                {
                    let m = #[trigger] dev.mapping[i];
                    let place = "device "@ + who + " button "@ + decimal_signed(m.button as int);
                    0 <= i < dev.mapping.len() && ((m.button == 0 && text == place
                        + ": the left (primary) button is protected and won't be remapped"@)
                        || said_of_action(text, place, ": unknown key '"@, m.action))
                };
            assert(fm(i).contains(text));
        } else {
            let i = choose|i: int|
                {
                    let k = #[trigger] dev.key[i];
                    let place = "device "@ + who + " key '"@ + k.key + "'"@;
                    0 <= i < dev.key.len() && ((code_of(lower(k.key)) is None && text == place
                        + ": unknown source key"@) || said_of_action(
                        text,
                        place,
                        ": unknown target key '"@,
                        k.action,
                    ))
                };
            assert(fk(i).contains(text));
        }
    }
}

/// Validation says a text exactly where it is said of one of the devices.
pub proof fn every_flaw_is_named(config: ConfigView, text: Seq<char>)
    ensures
        config.problems().contains(text) <==> exists|i: int|
            0 <= i < config.device.len() && said_of_device(text, #[trigger] config.device[i]),
{
    let f = device_problem(config.device);
    lemma_gather_contains(config.device.len(), f, text);
    assert forall|i: int| 0 <= i < config.device.len() implies (#[trigger] f(i)).contains(text)
        == said_of_device(text, config.device[i]) by {
        lemma_device(text, config.device[i]);
    }
    if config.problems().contains(text) {
        let i = choose|i: int| 0 <= i < config.device.len() && (#[trigger] f(i)).contains(text);
        assert(said_of_device(text, config.device[i]));
    }
    if exists|i: int|
        0 <= i < config.device.len() && said_of_device(text, #[trigger] config.device[i]) {
        let i = choose|i: int|
            0 <= i < config.device.len() && said_of_device(text, #[trigger] config.device[i]);
        assert(f(i).contains(text));
    }
}

/// The problems of two lists of devices are those of the first and then those of the second.
pub proof fn problems_come_device_by_device(a: ConfigView, b: ConfigView)
    ensures
        (ConfigView { device: a.device + b.device, ..a }).problems() == a.problems() + b.problems(),
{
    let all = a.device + b.device;
    let n = a.device.len();
    assert forall|i: int| 0 <= i < b.device.len() implies device_problem(all)(n + i)
        == #[trigger] device_problem(b.device)(i) by {
        assert(all[n + i] == b.device[i]);
    }
    lemma_gather_split(
        n,
        b.device.len(),
        device_problem(all),
        device_problem(a.device),
        device_problem(b.device),
    );
}

/// A device is described by its own identity, and by its further ones in brackets.
pub proof fn devices_in_words(dev: DeviceConfigView)
    ensures
        ({
            let own = desc_of(dev.registry_id, dev.vendor_id, dev.product_id);
            let further = Seq::new(
                dev.also.len(),
                |i: int|
                    desc_of(dev.also[i].registry_id, dev.also[i].vendor_id, dev.also[i].product_id),
            );
            &&& dev.also.len() == 0 ==> dev.ident_desc() == own
            &&& dev.also.len() > 0 ==> dev.ident_desc() == own + " (+ "@ + join(further, ", "@)
                + ")"@
        }),
{
    assert(Seq::new(dev.also.len(), |i: int| dev.also[i].desc()) =~= Seq::new(
        dev.also.len(),
        |i: int| desc_of(dev.also[i].registry_id, dev.also[i].vendor_id, dev.also[i].product_id),
    ));
}

} // verus!
