//! What holds of every edit: what a configuration keeps on its way through the editor, and what a
//! capture can and cannot do.

use vstd::prelude::*;

use crate::config::{
    keys_of, opt_key, ActionView, ConfigView, DeviceConfigView, DeviceIdView, PROTECTED_BUTTON,
};
use crate::editor::{
    device_row, identity_row, opened, AddableView, CapturedPress, DeviceRowView, EditorView,
};
use crate::edits::{
    added_row, after_frame, device_row_keys, entered_button, identity_for, new_mapping_row, offer,
    offer_at, row_key, with_button,
};
use crate::engine::action_events;
use crate::forms::{form_of, mods_named, row_of_id, IdentityRowView, ModSet};
use crate::hid::{offered_of, MouseDeviceView};
use crate::keymap::{alternate_flag, command_flag, control_flag, flag_of, flags_named, shift_flag};
use crate::lists::lemma_gather_contains;
use crate::mappings::{button_action, key_action, last_button, last_key};
use crate::text::{is_blank, lemma_trim_idempotent, lower, trim};

verus! {

// ---------------------------------------------------------------------------------------------
// Actions
// ---------------------------------------------------------------------------------------------
proof fn lemma_offered_names()
    ensures
        flag_of(lower("cmd"@)) == Some(command_flag()),
        flag_of(lower("shift"@)) == Some(shift_flag()),
        flag_of(lower("opt"@)) == Some(alternate_flag()),
        flag_of(lower("ctrl"@)) == Some(control_flag()),
{
    reveal_strlit("cmd");
    reveal_strlit("command");
    reveal_strlit("super");
    reveal_strlit("shift");
    reveal_strlit("opt");
    reveal_strlit("option");
    reveal_strlit("alt");
    reveal_strlit("ctrl");
    reveal_strlit("control");
    assert(lower("cmd"@) =~= "cmd"@);
    assert(lower("shift"@) =~= "shift"@);
    assert(lower("opt"@) =~= "opt"@);
    assert(lower("ctrl"@) =~= "ctrl"@);
    assert("shift"@.len() == 5 && "cmd"@.len() == 3);
    assert("super"@[1] != "shift"@[1]);
    assert("opt"@[0] != "cmd"@[0]);
    assert("ctrl"@.len() == 4);
}

/// The ticked modifiers come back from their names.
pub proof fn modifiers_survive_naming(m: ModSet)
    ensures
        mods_named(m.names()) == m,
        !flags_named(m.names()).secondary_fn,
{
    lemma_offered_names();
    let names = m.names();
    assert forall|i: int| 0 <= i < names.len() implies {
        let n = #[trigger] names[i];
        ||| m.cmd && n == "cmd"@
        ||| m.shift && n == "shift"@
        ||| m.opt && n == "opt"@
        ||| m.ctrl && n == "ctrl"@
    } by {}
    let c: int = if m.cmd { 1 } else { 0 };
    let h: int = if m.shift { 1 } else { 0 };
    let o: int = if m.opt { 1 } else { 0 };
    if m.cmd {
        assert(names[0] == "cmd"@);
    }
    if m.shift {
        assert(names[c] == "shift"@);
    }
    if m.opt {
        assert(names[c + h] == "opt"@);
    }
    if m.ctrl {
        assert(names[c + h + o] == "ctrl"@);
    }
}

/// Whether an action uses the `fn` modifier, which the editor does not offer.
pub open spec fn uses_fn(action: ActionView) -> bool {
    match action {
        ActionView::Keystroke { key, mods } => flags_named(mods).secondary_fn,
        _ => false,
    }
}

/// An action does the same after it has been shown in a form and read back, unless it uses the
/// `fn` modifier.
pub proof fn form_keeps_effect(action: ActionView, is_down: bool)
    requires
        !uses_fn(action),
    ensures
        action_events(form_of(action).action(), is_down) == action_events(action, is_down),
{
    if let ActionView::Keystroke { key, mods } = action {
        let m = mods_named(mods);
        modifiers_survive_naming(m);
        assert(flags_named(m.names()) == flags_named(mods));
    }
}

/// An action that has been through a form once is not changed by another time.
pub proof fn form_is_stable(action: ActionView)
    ensures
        form_of(form_of(action).action()) == form_of(action),
        form_of(form_of(action).action()).action() == form_of(action).action(),
{
    if let ActionView::Keystroke { key, mods } = action {
        modifiers_survive_naming(mods_named(mods));
    }
}

// ---------------------------------------------------------------------------------------------
// A configuration on its way through the editor
// ---------------------------------------------------------------------------------------------
/// The configuration that is saved when the editor is opened on one and nothing is edited.
pub open spec fn resaved(config: ConfigView, connected: Seq<MouseDeviceView>) -> ConfigView {
    opened(config, connected).config()
}

proof fn lemma_keys_of_pointwise(xs: Seq<DeviceIdView>, ys: Seq<DeviceIdView>)
    requires
        xs.len() == ys.len(),
        forall|i: int|
            0 <= i < xs.len() ==> (#[trigger] xs[i]).device_key() == ys[i].device_key(),
    ensures
        keys_of(xs) == keys_of(ys),
    decreases xs.len(),
{
    if xs.len() > 0 {
        assert(xs[xs.len() - 1].device_key() == ys[xs.len() - 1].device_key());
        assert forall|i: int| 0 <= i < xs.drop_last().len() implies (
        #[trigger] xs.drop_last()[i]).device_key() == ys.drop_last()[i].device_key() by {
            assert(xs[i].device_key() == ys[i].device_key());
        }
        lemma_keys_of_pointwise(xs.drop_last(), ys.drop_last());
    }
}

proof fn lemma_keys_of_front(x: DeviceIdView, s: Seq<DeviceIdView>)
    ensures
        keys_of(seq![x] + s) == opt_key(x.device_key()) + keys_of(s),
    decreases s.len(),
{
    let all = seq![x] + s;
    if s.len() == 0 {
        assert(all.drop_last() =~= Seq::empty());
        assert(keys_of(all.drop_last()) =~= Seq::empty());
        assert(all.last() == x);
        assert(keys_of(all) =~= opt_key(x.device_key()) + keys_of(s));
    } else {
        assert(all.drop_last() =~= seq![x] + s.drop_last());
        assert(all.last() == s.last());
        lemma_keys_of_front(x, s.drop_last());
        assert(keys_of(all) =~= opt_key(x.device_key()) + keys_of(s));
    }
}

/// A device answers to the same keys, in the same order, after it has been through the editor.
pub proof fn editor_keeps_device_keys(d: DeviceConfigView, connected: Seq<MouseDeviceView>)
    ensures
        device_row(d, connected).device_config().device_keys() == d.device_keys(),
{
    let e = device_row(d, connected).device_config();
    lemma_keys_of_pointwise(e.also, d.identities());
    if d.registry_id is Some || d.vendor_id is Some || d.product_id is Some {
        lemma_keys_of_front(d.identities()[0], d.also);
    }
    assert(e.device_keys() =~= d.device_keys());
}

/// An action as the editor writes it.
pub open spec fn rewritten(action: Option<ActionView>) -> Option<ActionView> {
    match action {
        Some(a) => Some(form_of(a).action()),
        None => None,
    }
}

proof fn lemma_last_through_editor(d: DeviceConfigView, n: int, k: int, connected: Seq<
    MouseDeviceView,
>, sub: i64)
    requires
        0 <= n <= d.mapping.len(),
        0 <= k <= d.key.len(),
    ensures
        last_button(device_row(d, connected).device_config().mapping.take(n), sub) == rewritten(
            last_button(d.mapping.take(n), sub),
        ),
        last_key(device_row(d, connected).device_config().key.take(k), sub) == rewritten(
            last_key(d.key.take(k), sub),
        ),
    decreases n + k,
{
    let e = device_row(d, connected).device_config();
    if n > 0 {
        assert(e.mapping.take(n).drop_last() =~= e.mapping.take(n - 1));
        assert(d.mapping.take(n).drop_last() =~= d.mapping.take(n - 1));
        lemma_last_through_editor(d, n - 1, k, connected, sub);
    } else if k > 0 {
        assert(e.key.take(k).drop_last() =~= e.key.take(k - 1));
        assert(d.key.take(k).drop_last() =~= d.key.take(k - 1));
        lemma_last_through_editor(d, n, k - 1, connected, sub);
    }
    if k > 0 && n > 0 {
        assert(e.key.take(k).drop_last() =~= e.key.take(k - 1));
        assert(d.key.take(k).drop_last() =~= d.key.take(k - 1));
        lemma_last_through_editor(d, n, k - 1, connected, sub);
    }
}

/// Opening a configuration and saving it maps the same triggers of the same devices; each action
/// is the old one as the editor writes it.
pub proof fn editor_keeps_mappings(
    config: ConfigView,
    connected: Seq<MouseDeviceView>,
    d: u64,
    sub: i64,
)
    ensures
        button_action(resaved(config, connected).device, d, sub) == rewritten(
            button_action(config.device, d, sub),
        ),
        key_action(resaved(config, connected).device, d, sub) == rewritten(
            key_action(config.device, d, sub),
        ),
    decreases config.device.len(),
{
    if config.device.len() > 0 {
        let last = config.device.last();
        let rest = ConfigView { device: config.device.drop_last(), ..config };
        editor_keeps_mappings(rest, connected, d, sub);
        let e = resaved(config, connected);
        assert(e.device.drop_last() =~= resaved(rest, connected).device);
        assert(e.device.last() == device_row(last, connected).device_config());
        editor_keeps_device_keys(last, connected);
        lemma_last_through_editor(
            last,
            last.mapping.len() as int,
            last.key.len() as int,
            connected,
            sub,
        );
        let f = e.device.last();
        assert(f.mapping.take(last.mapping.len() as int) =~= f.mapping);
        assert(last.mapping.take(last.mapping.len() as int) =~= last.mapping);
        assert(f.key.take(last.key.len() as int) =~= f.key);
        assert(last.key.take(last.key.len() as int) =~= last.key);
    }
}

/// The scroll settings come out of the editor as they went in.
pub proof fn editor_keeps_scroll_settings(config: ConfigView, connected: Seq<MouseDeviceView>)
    ensures
        resaved(config, connected).scroll == config.scroll,
        resaved(config, connected).device.len() == config.device.len(),
{
}

proof fn lemma_identity_stable(id: DeviceIdView, connected: Seq<MouseDeviceView>)
    ensures
        ({
            let once = identity_row(id, connected).device_id();
            identity_row(once, connected).device_id() == once
        }),
{
    let row = identity_row(id, connected);
    let once = row.device_id();
    lemma_trim_idempotent(row.label);
    assert(trim(Seq::<char>::empty()) =~= Seq::empty());
    let base = row_of_id(once);
    if is_blank(row.label) {
        // Nothing was filled in, so nothing is filled in now: the lookup sees the same ids.
        assert(base.label =~= Seq::empty());
        lemma_same_match(base, row_of_id(id), connected);
        assert(row_of_id(id).auto_label(connected) is None || !is_blank(
            row_of_id(id).auto_label(connected)->0,
        ));
        assert(identity_row(once, connected) == base);
    } else {
        assert(base.label == trim(row.label));
        assert(!is_blank(base.label));
    }
}

proof fn lemma_same_match(a: IdentityRowView, b: IdentityRowView, connected: Seq<MouseDeviceView>)
    requires
        a.registry_id == b.registry_id,
        a.vendor_id == b.vendor_id,
        a.product_id == b.product_id,
    ensures
        a.auto_label(connected) == b.auto_label(connected),
    decreases connected.len(),
{
    if connected.len() > 0 {
        lemma_same_match(a, b, connected.drop_first());
    }
}

proof fn lemma_device_stable(d: DeviceConfigView, connected: Seq<MouseDeviceView>)
    ensures
        ({
            let once = device_row(d, connected).device_config();
            device_row(once, connected).device_config() == once
        }),
{
    let row = device_row(d, connected);
    let once = row.device_config();
    let twice = device_row(once, connected).device_config();
    assert(once.identities() == once.also);
    assert forall|i: int| 0 <= i < once.also.len() implies twice.also[i] == once.also[i] by {
        lemma_identity_stable(d.identities()[i], connected);
    }
    assert(twice.also =~= once.also);
    assert forall|i: int| 0 <= i < once.mapping.len() implies twice.mapping[i]
        == once.mapping[i] by {
        form_is_stable(d.mapping[i].action);
    }
    assert(twice.mapping =~= once.mapping);
    assert forall|i: int| 0 <= i < once.key.len() implies twice.key[i] == once.key[i] by {
        form_is_stable(d.key[i].action);
    }
    assert(twice.key =~= once.key);
    assert(trim(Seq::<char>::empty()) =~= Seq::empty());
    assert(twice.name == once.name);
}

/// A configuration that has been through the editor once is not changed by another time.
pub proof fn editor_is_stable(config: ConfigView, connected: Seq<MouseDeviceView>)
    ensures
        resaved(resaved(config, connected), connected) == resaved(config, connected),
{
    let once = resaved(config, connected);
    let twice = resaved(once, connected);
    assert forall|i: int| 0 <= i < once.device.len() implies twice.device[i] == once.device[i] by {
        lemma_device_stable(config.device[i], connected);
    }
    assert(twice.device =~= once.device);
}

// ---------------------------------------------------------------------------------------------
// Adding devices
// ---------------------------------------------------------------------------------------------
/// The keys that the editor counts as listed are those of the identities in it.
pub proof fn existing_keys_are_exact(s: EditorView, k: u64)
    ensures
        s.existing_keys().contains(k) <==> exists|i: int, j: int|
            #![trigger s.devices[i], s.devices[i].identities[j]]
            0 <= i < s.devices.len() && 0 <= j < s.devices[i].identities.len()
                && s.devices[i].identities[j].device_key() == Some(k),
{
    let f = device_row_keys(s.devices);
    lemma_gather_contains(s.devices.len(), f, k);
    if s.existing_keys().contains(k) {
        let i = choose|i: int| 0 <= i < s.devices.len() && (#[trigger] f(i)).contains(k);
        let g = row_key(s.devices[i]);
        lemma_gather_contains(s.devices[i].identities.len(), g, k);
        let j = choose|j: int|
            0 <= j < s.devices[i].identities.len() && (#[trigger] g(j)).contains(k);
        assert(s.devices[i].identities[j].device_key() == Some(k));
    }
    if exists|i: int, j: int|
        #![trigger s.devices[i], s.devices[i].identities[j]]
        0 <= i < s.devices.len() && 0 <= j < s.devices[i].identities.len()
            && s.devices[i].identities[j].device_key() == Some(k) {
        let (i, j) = choose|i: int, j: int|
            #![trigger s.devices[i], s.devices[i].identities[j]]
            0 <= i < s.devices.len() && 0 <= j < s.devices[i].identities.len()
                && s.devices[i].identities[j].device_key() == Some(k);
        let g = row_key(s.devices[i]);
        assert(g(j)[0] == k);
        assert(g(j).contains(k));
        lemma_gather_contains(s.devices[i].identities.len(), g, k);
        assert(f(i).contains(k));
    }
}

/// A device is offered exactly where it is connected, has a key, and is not listed under that key;
/// so a listed one is never offered, and one whose row is removed is offered again.
pub proof fn offers_are_exact(s: EditorView, a: AddableView)
    ensures
        s.addable().contains(a) <==> exists|i: int|
            0 <= i < s.connected.len() && offer(
                #[trigger] s.connected[i],
                s.existing_keys(),
            ).contains(a),
        s.addable().contains(a) ==> a.id.device_key() is Some && !s.existing_keys().contains(
            a.id.device_key()->0,
        ),
{
    let f = offer_at(s.connected, s.existing_keys());
    lemma_gather_contains(s.connected.len(), f, a);
    if s.addable().contains(a) {
        let i = choose|i: int| 0 <= i < s.connected.len() && (#[trigger] f(i)).contains(a);
        assert(offer(s.connected[i], s.existing_keys()).contains(a));
    }
    if exists|i: int|
        0 <= i < s.connected.len() && offer(#[trigger] s.connected[i], s.existing_keys()).contains(
            a,
        ) {
        let i = choose|i: int|
            0 <= i < s.connected.len() && offer(
                #[trigger] s.connected[i],
                s.existing_keys(),
            ).contains(a);
        assert(f(i).contains(a));
    }
}

/// A device that has been added, or merged into another, is not offered any more.
pub proof fn added_device_is_not_offered_again(
    s: EditorView,
    a: AddableView,
    sel: int,
    b: AddableView,
)
    requires
        s.addable().contains(a),
        b.id.device_key() == a.id.device_key(),
    ensures
        !(EditorView { devices: s.devices.push(added_row(a)), ..s }).addable().contains(b),
        0 <= sel < s.devices.len() ==> !s.with_device(
            sel,
            DeviceRowView {
                identities: s.devices[sel].identities.push(a.id),
                ..s.devices[sel]
            },
        ).addable().contains(b),
{
    offers_are_exact(s, a);
    let k = a.id.device_key()->0;
    let added = EditorView { devices: s.devices.push(added_row(a)), ..s };
    assert(added.devices[s.devices.len() as int].identities[0].device_key() == Some(k));
    existing_keys_are_exact(added, k);
    offers_are_exact(added, b);
    if 0 <= sel < s.devices.len() {
        let merged = s.with_device(
            sel,
            DeviceRowView { identities: s.devices[sel].identities.push(a.id), ..s.devices[sel] },
        );
        let n = s.devices[sel].identities.len() as int;
        assert(merged.devices[sel].identities[n].device_key() == Some(k));
        existing_keys_are_exact(merged, k);
        offers_are_exact(merged, b);
    }
}

/// A device that is still connected when its row is removed is offered again at once, unless
/// another row has its key as well.
pub proof fn removed_device_is_offered_again(
    s: EditorView,
    sel: int,
    connected: Seq<MouseDeviceView>,
    c: int,
)
    requires
        0 <= sel < s.devices.len(),
        0 <= c < connected.len(),
        identity_for(connected[c]).device_key() is Some,
        forall|i: int, j: int|
            #![trigger s.devices[i].identities[j]]
            0 <= i < s.devices.len() && i != sel && 0 <= j < s.devices[i].identities.len()
                ==> s.devices[i].identities[j].device_key() != identity_for(
                connected[c],
            ).device_key(),
    ensures
        ({
            let t = EditorView {
                devices: s.devices.remove(sel),
                selected: None,
                connected,
                ..s
            };
            exists|a: AddableView| #[trigger]
                t.addable().contains(a) && a.id == identity_for(connected[c])
        }),
{
    let t = EditorView { devices: s.devices.remove(sel), selected: None, connected, ..s };
    let k = identity_for(connected[c]).device_key()->0;
    existing_keys_are_exact(t, k);
    if t.existing_keys().contains(k) {
        let (i, j) = choose|i: int, j: int|
            #![trigger t.devices[i], t.devices[i].identities[j]]
            0 <= i < t.devices.len() && 0 <= j < t.devices[i].identities.len()
                && t.devices[i].identities[j].device_key() == Some(k);
        let at = if i < sel {
            i
        } else {
            i + 1
        };
        assert(t.devices[i] == s.devices[at]);
        assert(s.devices[at].identities[j].device_key() == Some(k));
    }
    let o = offer(connected[c], t.existing_keys());
    assert(o.contains(o[0]));
    offers_are_exact(t, o[0]);
    assert(offer(t.connected[c], t.existing_keys()).contains(o[0]));
}

/// The built-in keyboard and trackpad are never offered for remapping; every other pointer is.
pub proof fn offered_mice_are_exact(all: Seq<MouseDeviceView>, d: MouseDeviceView)
    ensures
        offered_of(all).contains(d) <==> all.contains(d) && d.is_pointer()
            && !d.is_builtin_trackpad(),
    decreases all.len(),
{
    if all.len() > 0 {
        let rest = all.drop_last();
        offered_mice_are_exact(rest, d);
        let front = offered_of(rest);
        let out = offered_of(all);
        if all.contains(d) {
            let i = choose|i: int| 0 <= i < all.len() && all[i] == d;
            if i < rest.len() {
                assert(rest[i] == d);
            }
        }
        if rest.contains(d) {
            let i = choose|i: int| 0 <= i < rest.len() && rest[i] == d;
            assert(all[i] == d);
        }
        assert(all[all.len() - 1] == all.last());
        if all.last().offered() {
            assert(out[front.len() as int] == all.last());
            if front.contains(d) {
                let i = choose|i: int| 0 <= i < front.len() && front[i] == d;
                assert(out[i] == d);
            }
            if out.contains(d) {
                let i = choose|i: int| 0 <= i < out.len() && out[i] == d;
                if i < front.len() {
                    assert(front[i] == d);
                }
            }
        }
    }
}

// ---------------------------------------------------------------------------------------------
// Capturing a button
// ---------------------------------------------------------------------------------------------
/// A capture never assigns the left button: a row that has it after a frame had it before.
pub proof fn capture_spares_left_button(
    s: EditorView,
    sel: int,
    pending: Option<CapturedPress>,
    i: int,
    j: int,
)
    requires
        0 <= sel < s.devices.len(),
        0 <= i < s.devices.len(),
        0 <= j < s.devices[i].mappings.len(),
        after_frame(s, sel, pending).devices[i].mappings[j].button == PROTECTED_BUTTON,
    ensures
        s.devices[i].mappings[j].button == PROTECTED_BUTTON,
{
}

/// Whether no mapping row is for the left button.
pub open spec fn left_button_is_free(s: EditorView) -> bool {
    forall|i: int, j: int|
        #![trigger s.devices[i].mappings[j]]
        0 <= i < s.devices.len() && 0 <= j < s.devices[i].mappings.len()
            ==> s.devices[i].mappings[j].button != PROTECTED_BUTTON
}

/// The editor never assigns the left button: where no row is for it, none is after entering any
/// number, after a capture frame, after a row has been added or removed, after anything else of a
/// device has changed, or after a device has been added or removed; and what is saved does not map
/// it.
pub proof fn editor_never_assigns_left_button(
    s: EditorView,
    sel: int,
    row: int,
    entered: i64,
    pending: Option<CapturedPress>,
    d: DeviceRowView,
    a: AddableView,
    connected: Seq<MouseDeviceView>,
)
    requires
        left_button_is_free(s),
    ensures
        0 <= sel < s.devices.len() ==> {
            let was = s.devices[sel];
            &&& 0 <= row ==> left_button_is_free(
                s.with_device(sel, with_button(was, row, entered_button(entered))),
            )
            &&& left_button_is_free(after_frame(s, sel, pending))
            &&& left_button_is_free(
                s.with_device(
                    sel,
                    DeviceRowView { mappings: was.mappings.push(new_mapping_row()), ..was },
                ),
            )
            &&& 0 <= row < was.mappings.len() ==> left_button_is_free(
                s.with_device(sel, DeviceRowView { mappings: was.mappings.remove(row), ..was }),
            )
            &&& d.mappings == was.mappings ==> left_button_is_free(s.with_device(sel, d))
            &&& left_button_is_free(
                EditorView { devices: s.devices.remove(sel), selected: None, connected, ..s },
            )
        },
        left_button_is_free(EditorView { devices: s.devices.push(added_row(a)), ..s }),
        forall|i: int, j: int|
            #![trigger s.config().device[i].mapping[j]]
            0 <= i < s.config().device.len() && 0 <= j < s.config().device[i].mapping.len()
                ==> s.config().device[i].mapping[j].button != PROTECTED_BUTTON,
{
}

/// A capture changes the button of the row that asked for it, and nothing else that would be saved
/// or shown but the capture's own note.
pub proof fn capture_changes_one_row(
    s: EditorView,
    sel: int,
    pending: Option<CapturedPress>,
    i: int,
    j: int,
)
    requires
        0 <= sel < s.devices.len(),
    ensures
        ({
            let t = after_frame(s, sel, pending);
            &&& t.devices.len() == s.devices.len()
            &&& t.connected == s.connected && t.selected == s.selected
            &&& t.status == s.status && t.scroll == s.scroll
            &&& 0 <= i < s.devices.len() ==> {
                &&& t.devices[i].name == s.devices[i].name
                &&& t.devices[i].identities == s.devices[i].identities
                &&& t.devices[i].keys == s.devices[i].keys
                &&& t.devices[i].mappings.len() == s.devices[i].mappings.len()
                &&& 0 <= j < s.devices[i].mappings.len() ==> {
                    &&& t.devices[i].mappings[j].action == s.devices[i].mappings[j].action
                    &&& s.capturing is None || i != sel || j != s.capturing->0
                        ==> t.devices[i].mappings[j] == s.devices[i].mappings[j]
                }
            }
        }),
{
}

/// The first frame of a capture assigns nothing, whatever was pressed: the click that began it does
/// not count. The capture goes on.
pub proof fn first_frame_discards_the_click(
    s: EditorView,
    sel: int,
    row: usize,
    pending: Option<CapturedPress>,
)
    ensures
        ({
            let begun = EditorView {
                capturing: Some(row),
                capture_armed: false,
                capture_note: Seq::empty(),
                ..s
            };
            after_frame(begun, sel, pending) == (EditorView { capture_armed: true, ..begun })
        }),
{
}

} // verus!
