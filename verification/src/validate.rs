//! Problems of a configuration, in words.

use vstd::prelude::*;
use vstd::string::*;

use crate::config::{
    Action, ActionView, Config, ConfigView, DeviceConfig, DeviceConfigView, KeyMapping,
    KeyMappingView, Mapping, MappingView, PROTECTED_BUTTON,
};
use crate::keymap::{code_of, flag_of, key_code, modifier_flag};
use crate::lists::{gather, note};
use crate::text::{decimal_signed, lower, signed_text, texts};

verus! {

/// A name, or a stand-in for one.
pub open spec fn name_or(name: Option<Seq<char>>, other: Seq<char>) -> Seq<char> {
    match name {
        Some(n) => n,
        None => other,
    }
}

/// Whether a key name is known.
pub open spec fn known_key(key: Seq<char>) -> bool {
    code_of(lower(key)) is Some
}

/// Whether a modifier name is known.
pub open spec fn known_mod(name: Seq<char>) -> bool {
    flag_of(lower(name)) is Some
}

/// A list of one text where a condition holds, else of none.
pub open spec fn line_if(holds: bool, line: Seq<char>) -> Seq<Seq<char>> {
    if holds {
        seq![line]
    } else {
        Seq::empty()
    }
}

/// The problems of an action: an unknown key, then each unknown modifier.
pub open spec fn action_problems(
    place: Seq<char>,
    unknown_key: Seq<char>,
    action: ActionView,
) -> Seq<Seq<char>> {
    match action {
        ActionView::Keystroke { key, mods } => line_if(
            !known_key(key),
            place + unknown_key + key + "'"@,
        ) + gather(mods.len(), mod_problem(place, mods)),
        _ => Seq::empty(),
    }
}

pub open spec fn mod_problem(place: Seq<char>, mods: Seq<Seq<char>>) -> spec_fn(int) -> Seq<
    Seq<char>,
> {
    |i: int| line_if(!known_mod(mods[i]), place + ": unknown modifier '"@ + mods[i] + "'"@)
}

/// Where a button mapping stands.
pub open spec fn button_place(ident: Seq<char>, button: i64) -> Seq<char> {
    "device "@ + ident + " button "@ + decimal_signed(button as int)
}

/// Where a keystroke mapping stands.
pub open spec fn key_place(ident: Seq<char>, key: Seq<char>) -> Seq<char> {
    "device "@ + ident + " key '"@ + key + "'"@
}

/// The problems of a button mapping: the protected button, then its action's.
pub open spec fn button_problems(ident: Seq<char>, m: MappingView) -> Seq<Seq<char>> {
    line_if(
        m.button == PROTECTED_BUTTON,
        button_place(ident, m.button)
            + ": the left (primary) button is protected and won't be remapped"@,
    ) + action_problems(button_place(ident, m.button), ": unknown key '"@, m.action)
}

/// The problems of a keystroke mapping: an unknown source key, then its action's.
pub open spec fn key_problems(ident: Seq<char>, k: KeyMappingView) -> Seq<Seq<char>> {
    line_if(!known_key(k.key), key_place(ident, k.key) + ": unknown source key"@)
        + action_problems(key_place(ident, k.key), ": unknown target key '"@, k.action)
}

pub open spec fn also_problem(dev: DeviceConfigView) -> spec_fn(int) -> Seq<Seq<char>> {
    |i: int|
        line_if(
            dev.also[i].device_key() is None,
            "device "@ + dev.ident_desc()
                + " has an `also` entry with no identity (needs vendor_id+product_id or registry_id)"@,
        )
}

pub open spec fn button_problem(dev: DeviceConfigView) -> spec_fn(int) -> Seq<Seq<char>> {
    |i: int| button_problems(dev.ident_desc(), dev.mapping[i])
}

pub open spec fn key_problem(dev: DeviceConfigView) -> spec_fn(int) -> Seq<Seq<char>> {
    |i: int| key_problems(dev.ident_desc(), dev.key[i])
}

/// The problems of a device: no identity at all, further identities without one, then those of
/// its button mappings and of its keystroke mappings.
pub open spec fn device_problems(dev: DeviceConfigView) -> Seq<Seq<char>> {
    line_if(
        dev.device_keys().len() == 0,
        "device '"@ + name_or(dev.name, "<unnamed>"@)
            + "' has no identity: set vendor_id+product_id or registry_id"@,
    ) + gather(dev.also.len(), also_problem(dev)) + gather(
        dev.mapping.len(),
        button_problem(dev),
    ) + gather(dev.key.len(), key_problem(dev))
}

pub open spec fn device_problem(devs: Seq<DeviceConfigView>) -> spec_fn(int) -> Seq<Seq<char>> {
    |i: int| device_problems(devs[i])
}

impl ConfigView {
    /// The problems of a configuration, device by device.
    pub open spec fn problems(self) -> Seq<Seq<char>> {
        gather(self.device.len(), device_problem(self.device))
    }
}

fn note_action(out: &mut Vec<String>, place: &str, unknown_key: &str, action: &Action)
    ensures
        texts(final(out)@) == texts(old(out)@) + action_problems(
            place@,
            unknown_key@,
            action@,
        ),
{
    let ghost start = texts(out@);
    match action {
        Action::Keystroke { key, mods } => {
            if key_code(key.as_str()).is_none() {
                let mut s: String = place.to_owned();
                s.append(unknown_key);
                s.append(key.as_str());
                s.append("'");
                note(out, s);
            }
            let ghost seen = line_if(!known_key(key@), place@ + unknown_key@ + key@ + "'"@);
            assert(texts(out@) =~= start + seen);
            let ghost f = mod_problem(place@, texts(mods@));
            let n: usize = mods.len();
            let mut i: usize = 0;
            while i < n
                invariant
                    i <= n == mods@.len(),
                    f == mod_problem(place@, texts(mods@)),
                    texts(out@) =~= start + seen + gather(i as nat, f),
                decreases n - i,
            {
                let ghost before = texts(out@);
                if modifier_flag(mods[i].as_str()).is_none() {
                    let mut s: String = place.to_owned();
                    s.append(": unknown modifier '");
                    s.append(mods[i].as_str());
                    s.append("'");
                    note(out, s);
                }
                assert(texts(out@) =~= before + f(i as int));
                i += 1;
            }
            assert(texts(out@) =~= start + (seen + gather(n as nat, f)));
        },
        _ => {
            assert(texts(out@) =~= start + action_problems(
                place@,
                unknown_key@,
                action@,
            ));
        },
    }
}

fn note_button(out: &mut Vec<String>, ident: &str, m: &Mapping)
    ensures
        texts(final(out)@) == texts(old(out)@) + button_problems(
            ident@,
            m@,
        ),
{
    let ghost start = texts(out@);
    let mut place: String = "device ".to_owned();
    place.append(ident);
    place.append(" button ");
    place.append(signed_text(m.button).as_str());
    if m.button == PROTECTED_BUTTON {
        let mut s: String = place.clone();
        s.append(": the left (primary) button is protected and won't be remapped");
        note(out, s);
    }
    let ghost mid = texts(out@);
    note_action(out, place.as_str(), ": unknown key '", &m.action);
    assert(texts(out@) =~= start + button_problems(ident@, m@));
}

fn note_key(out: &mut Vec<String>, ident: &str, k: &KeyMapping)
    ensures
        texts(final(out)@) == texts(old(out)@) + key_problems(ident@, k@),
{
    let ghost start = texts(out@);
    let mut place: String = "device ".to_owned();
    place.append(ident);
    place.append(" key '");
    place.append(k.key.as_str());
    place.append("'");
    if key_code(k.key.as_str()).is_none() {
        let mut s: String = place.clone();
        s.append(": unknown source key");
        note(out, s);
    }
    note_action(out, place.as_str(), ": unknown target key '", &k.action);
    assert(texts(out@) =~= start + key_problems(ident@, k@));
}

fn note_device(out: &mut Vec<String>, dev: &DeviceConfig)
    ensures
        texts(final(out)@) == texts(old(out)@) + device_problems(dev@),
{
    let ghost start = texts(out@);
    let ident: String = dev.ident_desc();
    if dev.device_keys().len() == 0 {
        let mut s: String = "device '".to_owned();
        match &dev.name {
            Some(name) => s.append(name.as_str()),
            None => s.append("<unnamed>"),
        }
        s.append("' has no identity: set vendor_id+product_id or registry_id");
        note(out, s);
    }
    let ghost g0 = line_if(
        dev@.device_keys().len() == 0,
        "device '"@ + name_or(dev@.name, "<unnamed>"@)
            + "' has no identity: set vendor_id+product_id or registry_id"@,
    );
    assert(texts(out@) =~= start + g0);

    let ghost fa = also_problem(dev@);
    let an: usize = dev.also.len();
    let mut a: usize = 0;
    while a < an
        invariant
            a <= an == dev.also@.len(),
            ident@ == dev@.ident_desc(),
            fa == also_problem(dev@),
            texts(out@) =~= start + g0 + gather(a as nat, fa),
        decreases an - a,
    {
        let ghost before = texts(out@);
        if dev.also[a].device_key().is_none() {
            let mut s: String = "device ".to_owned();
            s.append(ident.as_str());
            s.append(
                " has an `also` entry with no identity (needs vendor_id+product_id or registry_id)",
            );
            note(out, s);
        }
        assert(texts(out@) =~= before + fa(a as int));
        a += 1;
    }
    let ghost g1 = gather(an as nat, fa);

    let ghost fm = button_problem(dev@);
    let mn: usize = dev.mapping.len();
    let mut m: usize = 0;
    while m < mn
        invariant
            m <= mn == dev.mapping@.len(),
            ident@ == dev@.ident_desc(),
            fm == button_problem(dev@),
            texts(out@) =~= start + g0 + g1 + gather(m as nat, fm),
        decreases mn - m,
    {
        note_button(out, ident.as_str(), &dev.mapping[m]);
        assert(fm(m as int) == button_problems(ident@, dev.mapping@[m as int]@));
        m += 1;
    }
    let ghost g2 = gather(mn as nat, fm);

    let ghost fk = key_problem(dev@);
    let kn: usize = dev.key.len();
    let mut k: usize = 0;
    while k < kn
        invariant
            k <= kn == dev.key@.len(),
            ident@ == dev@.ident_desc(),
            fk == key_problem(dev@),
            texts(out@) =~= start + g0 + g1 + g2 + gather(k as nat, fk),
        decreases kn - k,
    {
        note_key(out, ident.as_str(), &dev.key[k]);
        assert(fk(k as int) == key_problems(ident@, dev.key@[k as int]@));
        k += 1;
    }
    assert(texts(out@) =~= start + device_problems(dev@));
}

impl Config {
    /// The problems of this configuration, in words; none where it is in order.
    pub fn validate(&self) -> (r: Vec<String>)
        ensures
            texts(r@) == self@.problems(),
    {
        let mut out: Vec<String> = Vec::new();
        let ghost f = device_problem(self@.device);
        let n: usize = self.device.len();
        let mut i: usize = 0;
        assert(texts(out@) =~= gather(0, f));
        while i < n
            invariant
                i <= n == self.device@.len(),
                f == device_problem(self@.device),
                texts(out@) == gather(i as nat, f),
            decreases n - i,
        {
            note_device(&mut out, &self.device[i]);
            assert(f(i as int) == device_problems(self.device@[i as int]@));
            i += 1;
        }
        out
    }
}

} // verus!
