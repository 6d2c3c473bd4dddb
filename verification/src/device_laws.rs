//! What holds of every connected device: whether it is offered, how it is recognised, how it is
//! labelled, and how it is listed.

use vstd::prelude::*;

use crate::config::desc_of;
use crate::editor::EditorView;
use crate::editor_laws::offered_mice_are_exact;
use crate::edits::{identity_for, offer, offer_at};
use crate::forms::{first_match, IdentityRowView};
use crate::hid::{
    decimal_or_none, listing, mouse_entry, offered_of, registry_or_none, transport_label,
    MouseDeviceView,
};
use crate::lists::{gather, lemma_gather_split};
use crate::table_laws::found_under;
use crate::text::{contains_run, decimal, decimal_signed, hex_id, lower, trim};
use crate::text_laws::{
    all_space, blank_is_white_space_throughout, lower_case_reads_the_same, no_capitals, reads,
};

verus! {

// ---------------------------------------------------------------------------------------------
// Selection
// ---------------------------------------------------------------------------------------------
/// Whether a text holds a word somewhere in one piece, in any ASCII case.
pub open spec fn mentions(s: Seq<char>, word: Seq<char>) -> bool {
    exists|i: int|
        0 <= i <= s.len() - word.len() && reads(#[trigger] s.subrange(i, i + word.len()), word)
}

proof fn lemma_mentions(s: Seq<char>, word: Seq<char>)
    requires
        no_capitals(word),
    ensures
        contains_run(lower(s), word) <==> mentions(s, word),
{
    let t = lower(s);
    assert forall|i: int| 0 <= i <= s.len() - word.len() implies (t.subrange(i, i + word.len())
        == word) == reads(#[trigger] s.subrange(i, i + word.len()), word) by {
        let cut = s.subrange(i, i + word.len());
        assert(t.subrange(i, i + word.len()) =~= lower(cut));
        lower_case_reads_the_same(cut, word);
    }
    if contains_run(t, word) {
        let i = choose|i: int|
            0 <= i <= t.len() - word.len() && #[trigger] t.subrange(i, i + word.len()) == word;
        assert(reads(s.subrange(i, i + word.len()), word));
    }
    if mentions(s, word) {
        let i = choose|i: int|
            0 <= i <= s.len() - word.len() && reads(
                #[trigger] s.subrange(i, i + word.len()),
                word,
            );
        assert(t.subrange(i, i + word.len()) == word);
    }
}

/// Whether a device may be remapped: a mouse or a pointer of the generic desktop page whose name
/// mentions neither a trackpad nor Apple's internal devices.
pub open spec fn remappable(d: MouseDeviceView) -> bool {
    &&& d.primary_usage_page == Some(1i64)
    &&& d.primary_usage == Some(1i64) || d.primary_usage == Some(2i64)
    &&& match d.name {
        Some(name) => !mentions(name, "trackpad"@) && !mentions(name, "apple internal"@),
        None => true,
    }
}

proof fn lemma_remappable(d: MouseDeviceView)
    ensures
        d.offered() == remappable(d),
        d.name is Some ==> d.is_builtin_trackpad() == (mentions(d.name->0, "trackpad"@) || mentions(
            d.name->0,
            "apple internal"@,
        )),
        d.name is None ==> !d.is_builtin_trackpad(),
{
    reveal_strlit("trackpad");
    reveal_strlit("apple internal");
    if let Some(name) = d.name {
        lemma_mentions(name, "trackpad"@);
        lemma_mentions(name, "apple internal"@);
    }
}

/// A device counts as a built-in trackpad exactly where its name mentions a trackpad or Apple's
/// internal devices; one without a name does not.
pub proof fn trackpads_are_known_by_name(d: MouseDeviceView)
    ensures
        d.is_builtin_trackpad() <==> d.name is Some && (mentions(d.name->0, "trackpad"@)
            || mentions(d.name->0, "apple internal"@)),
{
    lemma_remappable(d);
}

/// Of a single device nothing is left out but what may not be remapped, and a longer list is
/// selected from piece by piece, in order.
pub proof fn selection_goes_device_by_device(
    d: MouseDeviceView,
    xs: Seq<MouseDeviceView>,
    ys: Seq<MouseDeviceView>,
)
    ensures
        offered_of(seq![d]) == (if remappable(d) {
            seq![d]
        } else {
            Seq::empty()
        }),
        offered_of(xs + ys) == offered_of(xs) + offered_of(ys),
        offered_of(Seq::empty()) == Seq::<MouseDeviceView>::empty(),
    decreases ys.len(),
{
    lemma_remappable(d);
    assert(seq![d].drop_last() =~= Seq::empty());
    assert(offered_of(seq![d].drop_last()) =~= Seq::empty());
    assert(offered_of(seq![d]) =~= if remappable(d) {
        seq![d]
    } else {
        Seq::empty()
    });
    if ys.len() == 0 {
        assert(xs + ys =~= xs);
        assert(offered_of(xs) + offered_of(ys) =~= offered_of(xs));
    } else {
        assert((xs + ys).drop_last() =~= xs + ys.drop_last());
        assert((xs + ys).last() == ys.last());
        selection_goes_device_by_device(d, xs, ys.drop_last());
        assert(offered_of(xs + ys) =~= offered_of(xs) + offered_of(ys));
    }
}

/// A device is selected exactly where it is connected and may be remapped.
pub proof fn exactly_the_remappable_are_selected(all: Seq<MouseDeviceView>, d: MouseDeviceView)
    ensures
        offered_of(all).contains(d) <==> all.contains(d) && remappable(d),
{
    offered_mice_are_exact(all, d);
    lemma_remappable(d);
}

// ---------------------------------------------------------------------------------------------
// Recognition and labels
// ---------------------------------------------------------------------------------------------
/// An identity refers to a connected device exactly where both are found under the same vendor and
/// product, or, where the identity lacks one of the two, have the same registry id.
pub proof fn identities_refer_by_key(id: IdentityRowView, c: MouseDeviceView)
    ensures
        id.vendor_id is Some && id.product_id is Some ==> (id.matches(c) <==> c.vendor_id
            == id.vendor_id && c.product_id == id.product_id),
        id.vendor_id is None || id.product_id is None ==> (id.matches(c) <==> id.registry_id is Some
            && c.registry_entry_id == id.registry_id),
        id.device_key() is None ==> !id.matches(c),
{
}

/// A connection is labelled by what the system reports of it; a blank report, or none, is no label.
pub proof fn connections_are_labelled_as_reported(transport: Option<Seq<char>>)
    ensures
        transport_label(transport) is Some <==> transport is Some && !all_space(transport->0),
        transport_label(transport) is Some ==> transport_label(transport) == transport,
{
    if let Some(t) = transport {
        blank_is_white_space_throughout(t);
    }
}

proof fn lemma_first_match(id: IdentityRowView, connected: Seq<MouseDeviceView>) -> (n: int)
    ensures
        0 <= n <= connected.len(),
        forall|i: int| 0 <= i < n ==> !id.matches(#[trigger] connected[i]),
        n < connected.len() ==> id.matches(connected[n]) && first_match(id, connected) == Some(
            connected[n],
        ),
        n == connected.len() ==> first_match(id, connected) is None,
    decreases connected.len(),
{
    if connected.len() == 0 || id.matches(connected[0]) {
        0
    } else {
        let rest = connected.drop_first();
        let n = lemma_first_match(id, rest) + 1;
        assert forall|i: int| 0 <= i < n implies !id.matches(#[trigger] connected[i]) by {
            if i > 0 {
                assert(rest[i - 1] == connected[i]);
            }
        }
        n
    }
}

/// An identity is shown under the label of the first connected device that it refers to; where that
/// has none, or none is connected, under its own label without the white space around it.
pub proof fn live_label_comes_first(id: IdentityRowView, connected: Seq<MouseDeviceView>, n: int)
    requires
        0 <= n <= connected.len(),
        forall|i: int| 0 <= i < n ==> !id.matches(#[trigger] connected[i]),
        n < connected.len() ==> id.matches(connected[n]),
    ensures
        id.connected_among(connected) == (n < connected.len()),
        id.auto_label(connected) == (if n < connected.len() {
            transport_label(connected[n].transport)
        } else {
            None
        }),
        n < connected.len() && transport_label(connected[n].transport) is Some
            ==> id.display_label(connected) == transport_label(connected[n].transport)->0,
        n == connected.len() || transport_label(connected[n].transport) is None
            ==> id.display_label(connected) == trim(id.label),
{
    let m = lemma_first_match(id, connected);
    if m < n {
        assert(!id.matches(connected[m]));
    } else if n < m {
        assert(!id.matches(connected[n]));
    }
}

// ---------------------------------------------------------------------------------------------
// Offers
// ---------------------------------------------------------------------------------------------
/// A connected device is offered, once, exactly where it has a key that is not listed. It is
/// offered under its vendor and product where it has both, else under its registry id; labelled by
/// its connection; and by its name, or by its ids in brackets where it has none.
pub proof fn new_devices_are_offered(c: MouseDeviceView, existing: Seq<u64>, k: u64)
    requires
        c.vendor_id is Some && c.product_id is Some ==> found_under(
            None,
            c.vendor_id,
            c.product_id,
            k,
        ),
        c.vendor_id is None || c.product_id is None ==> c.registry_entry_id == Some(k),
    ensures
        existing.contains(k) ==> offer(c, existing).len() == 0,
        !existing.contains(k) ==> {
            let a = offer(c, existing)[0];
            let paired = c.vendor_id is Some && c.product_id is Some;
            &&& offer(c, existing).len() == 1
            &&& a.id.device_key() == Some(k)
            &&& a.id.vendor_id == (if paired {
                c.vendor_id
            } else {
                None
            })
            &&& a.id.product_id == (if paired {
                c.product_id
            } else {
                None
            })
            &&& a.id.registry_id == (if paired {
                None
            } else {
                c.registry_entry_id
            })
            &&& a.id.label == (match transport_label(c.transport) {
                Some(l) => l,
                None => Seq::empty(),
            })
            &&& c.name is Some ==> a.name == c.name->0
            &&& c.name is None ==> a.name == "("@ + desc_of(
                a.id.registry_id,
                a.id.vendor_id,
                a.id.product_id,
            ) + ")"@
        },
{
}

/// Offers come in the order of the connected devices, each for itself.
pub proof fn offers_come_in_order(
    s: EditorView,
    c: MouseDeviceView,
    xs: Seq<MouseDeviceView>,
    ys: Seq<MouseDeviceView>,
)
    ensures
        (EditorView { connected: xs + ys, ..s }).addable() == (EditorView {
            connected: xs,
            ..s
        }).addable() + (EditorView { connected: ys, ..s }).addable(),
        (EditorView { connected: seq![c], ..s }).addable() == offer(c, s.existing_keys()),
{
    let k = s.existing_keys();
    let all = xs + ys;
    let n = xs.len();
    assert forall|i: int| 0 <= i < ys.len() implies offer_at(all, k)(n + i) == #[trigger] offer_at(
        ys,
        k,
    )(i) by {
        assert(all[n + i] == ys[i]);
    }
    lemma_gather_split(n, ys.len(), offer_at(all, k), offer_at(xs, k), offer_at(ys, k));
    let f = offer_at(seq![c], k);
    assert(gather(0, f) =~= Seq::empty());
    assert(gather(1, f) =~= f(0));
}

/// A connected device without any key is not offered.
pub proof fn keyless_devices_are_not_offered(c: MouseDeviceView, existing: Seq<u64>)
    requires
        c.vendor_id is None || c.product_id is None,
        c.registry_entry_id is None,
    ensures
        offer(c, existing).len() == 0,
{
}

/// Once added, a connected device is recognised as connected by the identity it was added under.
pub proof fn offered_identity_refers_to_its_device(c: MouseDeviceView)
    requires
        identity_for(c).device_key() is Some,
    ensures
        identity_for(c).matches(c),
{
}

// ---------------------------------------------------------------------------------------------
// Words
// ---------------------------------------------------------------------------------------------
/// An identity is described by its vendor and product where it has both, else by its registry id,
/// else as having none.
pub proof fn identities_in_words(
    registry_id: Option<u64>,
    vendor_id: Option<i64>,
    product_id: Option<i64>,
)
    ensures
        ({
            let words = desc_of(registry_id, vendor_id, product_id);
            match (vendor_id, product_id, registry_id) {
                (Some(v), Some(p), _) => words == "vendor 0x"@ + hex_id(v) + " product 0x"@
                    + hex_id(p),
                (_, _, Some(r)) => words == "registry_id "@ + decimal(r as nat),
                _ => words == "<no identity>"@,
            }
        }),
{
}

proof fn lemma_fives(ds: Seq<MouseDeviceView>, n: nat)
    requires
        n <= ds.len(),
    ensures
        gather(n, mouse_entry(ds)).len() == 5 * n,
        forall|i: int, j: int|
            0 <= i < n && 0 <= j < 5 ==> gather(n, mouse_entry(ds))[5 * i + j]
                == #[trigger] mouse_entry(ds)(i)[j],
    decreases n,
{
    if n > 0 {
        let m = (n - 1) as nat;
        lemma_fives(ds, m);
        let f = mouse_entry(ds);
        assert(gather(n, f) == gather(m, f) + f(n - 1));
        assert forall|i: int, j: int| 0 <= i < n && 0 <= j < 5 implies gather(n, f)[5 * i + j]
            == #[trigger] f(i)[j] by {
            if i < m {
                assert(gather(m, f)[5 * i + j] == f(i)[j]);
            }
        }
    }
}

/// The listing counts the devices, and then gives five lines to each, in order: its number and
/// name, its vendor and product, its serial number, its place and registry id, and an empty line.
#[verifier::rlimit(60)]
pub proof fn listing_shows_every_device(ds: Seq<MouseDeviceView>, i: int)
    requires
        0 <= i < ds.len(),
    ensures
        ({
            let lines = listing(ds);
            let d = ds[i];
            let at = 2 + 5 * i;
            &&& lines.len() == 2 + 5 * ds.len()
            &&& lines[0] == "Found "@ + decimal(ds.len()) + " mouse device(s):"@
            &&& lines[1] == ""@
            &&& d.name is Some ==> lines[at] == "["@ + decimal(i as nat) + "] "@ + d.name->0
            &&& d.name is None ==> lines[at] == "["@ + decimal(i as nat) + "] "@ + "<unknown>"@
            &&& d.vendor_id is Some && d.product_id is Some ==> lines[at + 1] == "    vendor=0x"@
                + hex_id(d.vendor_id->0) + " product=0x"@ + hex_id(d.product_id->0)
            &&& d.vendor_id is None && d.product_id is None ==> lines[at + 1] == "    vendor=0x"@
                + hex_id(0) + " product=0x"@ + hex_id(0)
            &&& d.vendor_id is Some && d.product_id is None ==> lines[at + 1] == "    vendor=0x"@
                + hex_id(d.vendor_id->0) + " product=0x"@ + hex_id(0)
            &&& d.vendor_id is None && d.product_id is Some ==> lines[at + 1] == "    vendor=0x"@
                + hex_id(0) + " product=0x"@ + hex_id(d.product_id->0)
            &&& d.serial is Some ==> lines[at + 2] == "    serial="@ + d.serial->0
            &&& d.serial is None ==> lines[at + 2] == "    serial="@ + "<none>"@
            &&& lines[at + 3] == "    locationID="@ + decimal_or_none(d.location_id)
                + " registryEntryID="@ + registry_or_none(d.registry_entry_id)
            &&& lines[at + 4] == ""@
        }),
        ds[i].location_id is Some ==> decimal_or_none(ds[i].location_id) == decimal_signed(
            ds[i].location_id->0 as int,
        ),
        ds[i].location_id is None ==> decimal_or_none(ds[i].location_id) == "<none>"@,
        ds[i].registry_entry_id is Some ==> registry_or_none(ds[i].registry_entry_id) == decimal(
            ds[i].registry_entry_id->0 as nat,
        ),
        ds[i].registry_entry_id is None ==> registry_or_none(ds[i].registry_entry_id) == "<none>"@,
{
    lemma_fives(ds, ds.len());
    let f = mouse_entry(ds);
    let lines = listing(ds);
    assert forall|j: int| 0 <= j < 5 implies lines[2 + 5 * i + j] == #[trigger] f(i)[j] by {}
    assert(lines[2 + 5 * i] == f(i)[0]);
    assert(lines[2 + 5 * i + 1] == f(i)[1]);
    assert(lines[2 + 5 * i + 2] == f(i)[2]);
    assert(lines[2 + 5 * i + 3] == f(i)[3]);
    assert(lines[2 + 5 * i + 4] == f(i)[4]);
}

} // verus!
