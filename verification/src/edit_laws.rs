//! What the editor does with every configuration and every press, said of their fields themselves.

use vstd::prelude::*;

use crate::config::{ActionView, ConfigView, DeviceConfigView, DeviceIdView};
use crate::editor::{opened, press_matches, AddableView, CapturedPress, DeviceRowView, EditorView};
use crate::editor_laws::resaved;
use crate::edits::{
    added_row, after_frame, clamped, entered_button, from_elsewhere, identity_entry, new_key_row,
    new_mapping_row, press_of, FIRST_TARGET, HIGHEST_FLOOR, LAST_TARGET, LONGEST_GUARD,
    LOWEST_FLOOR, SHORTEST_GUARD,
};
use crate::forms::{form_of, IdentityRowView, ModSet};
use crate::hid::MouseDeviceView;
use crate::name_laws::modifier_names_set_their_flags;
use crate::tap_laws::spelled;
use crate::text::{decimal_signed, is_blank, join, trim};

verus! {

// ---------------------------------------------------------------------------------------------
// Forms
// ---------------------------------------------------------------------------------------------
/// One text where a box is ticked, else none.
pub open spec fn where_ticked(ticked: bool, name: Seq<char>) -> Seq<Seq<char>> {
    if ticked {
        seq![name]
    } else {
        Seq::empty()
    }
}

/// The modifiers of a list that the editor writes back, under their usual names and in its order.
pub open spec fn tidied(mods: Seq<Seq<char>>) -> Seq<Seq<char>> {
    where_ticked(
        spelled(mods, "cmd"@) || spelled(mods, "command"@) || spelled(mods, "super"@),
        "cmd"@,
    ) + where_ticked(spelled(mods, "shift"@), "shift"@) + where_ticked(
        spelled(mods, "opt"@) || spelled(mods, "option"@) || spelled(mods, "alt"@),
        "opt"@,
    ) + where_ticked(spelled(mods, "ctrl"@) || spelled(mods, "control"@), "ctrl"@)
}

/// An action as it comes out of the editor: the same button, the same key, and the same modifiers
/// under their usual names.
pub open spec fn tidied_action(action: ActionView) -> ActionView {
    match action {
        ActionView::Keystroke { key, mods } => ActionView::Keystroke { key, mods: tidied(mods) },
        _ => action,
    }
}

/// A form gives the action back that it was made of, with its modifiers tidied.
pub proof fn forms_give_actions_back(action: ActionView)
    ensures
        form_of(action).action() == tidied_action(action),
        form_of(action).kind is Keystroke == action is Keystroke,
        form_of(action).kind is Button == action is Button,
        form_of(action).kind is Disabled == action is Disabled,
        action matches ActionView::Button { button } ==> form_of(action).target_button == button,
        !(action is Button) ==> form_of(action).target_button == 2,
{
    if let ActionView::Keystroke { key, mods } = action {
        modifier_names_set_their_flags(mods);
        assert(form_of(action).mods.names() =~= tidied(mods));
    }
}

/// The boxes that are ticked are written by name, each in its place.
pub proof fn ticked_boxes_are_written(m: ModSet)
    ensures
        m.names() == where_ticked(m.cmd, "cmd"@) + where_ticked(m.shift, "shift"@) + where_ticked(
            m.opt,
            "opt"@,
        ) + where_ticked(m.ctrl, "ctrl"@),
{
}

// ---------------------------------------------------------------------------------------------
// Opening and saving
// ---------------------------------------------------------------------------------------------
/// The place of a further identity among all identities of a device: after its own, where any field
/// of that is set.
pub open spec fn shift_of(d: DeviceConfigView) -> int {
    if d.registry_id is None && d.vendor_id is None && d.product_id is None {
        0
    } else {
        1
    }
}

/// Whether two identities have the same ids.
pub open spec fn same_ids(a: DeviceIdView, b: DeviceIdView) -> bool {
    a.registry_id == b.registry_id && a.vendor_id == b.vendor_id && a.product_id == b.product_id
}

/// The editor opens with a row for every device, in order, the first one selected, and nothing
/// being captured or said.
pub proof fn editor_opens_on_everything(
    config: ConfigView,
    connected: Seq<MouseDeviceView>,
    i: int,
    j: int,
)
    ensures
        ({
            let s = opened(config, connected);
            &&& s.devices.len() == config.device.len()
            &&& config.device.len() > 0 ==> s.selected == Some(0usize)
            &&& config.device.len() == 0 ==> s.selected is None
            &&& s.connected == connected && s.scroll == config.scroll
            &&& s.capturing is None && !s.capture_armed
            &&& s.status.len() == 0 && s.capture_note.len() == 0
            &&& 0 <= i < config.device.len() ==> {
                let d = config.device[i];
                let r = s.devices[i];
                &&& d.name is Some ==> r.name == d.name->0
                &&& d.name is None ==> r.name.len() == 0
                &&& r.identities.len() == d.also.len() + shift_of(d)
                &&& r.mappings.len() == d.mapping.len() && r.keys.len() == d.key.len()
                &&& 0 <= j < d.mapping.len() ==> r.mappings[j].button == d.mapping[j].button
                    && r.mappings[j].action == form_of(d.mapping[j].action)
                &&& 0 <= j < d.key.len() ==> r.keys[j].source == d.key[j].key && r.keys[j].action
                    == form_of(d.key[j].action)
            }
        }),
{
}

/// A device's identities are its own, where any field of it is set and then without a label, and
/// its further ones, as they are.
pub proof fn identities_are_listed_in_order(d: DeviceConfigView, j: int)
    ensures
        ({
            let n = shift_of(d);
            let ids = d.identities();
            &&& ids.len() == d.also.len() + n
            &&& n == 1 ==> ids[0] == (DeviceIdView {
                label: None,
                registry_id: d.registry_id,
                vendor_id: d.vendor_id,
                product_id: d.product_id,
            })
            &&& 0 <= j < d.also.len() ==> ids[j + n] == d.also[j]
        }),
{
}

/// A label that is not blank is shown as it is; a blank one is filled in with that of the
/// connection where there is one.
pub proof fn blank_labels_are_filled_in(
    config: ConfigView,
    connected: Seq<MouseDeviceView>,
    i: int,
    j: int,
)
    requires
        0 <= i < config.device.len(),
        0 <= j < config.device[i].identities().len(),
    ensures
        ({
            let id = config.device[i].identities()[j];
            let row = opened(config, connected).devices[i].identities[j];
            let bare = IdentityRowView {
                label: match id.label {
                    Some(l) => l,
                    None => Seq::empty(),
                },
                registry_id: id.registry_id,
                vendor_id: id.vendor_id,
                product_id: id.product_id,
            };
            &&& row.registry_id == id.registry_id && row.vendor_id == id.vendor_id
                && row.product_id == id.product_id
            &&& !is_blank(bare.label) ==> row.label == bare.label
            &&& is_blank(bare.label) && bare.auto_label(connected) is None ==> row.label
                == bare.label
            &&& is_blank(bare.label) && bare.auto_label(connected) is Some ==> row.label
                == bare.auto_label(connected)->0
        }),
{
}

/// Saving what was opened keeps every device in its place with its name, unless that is blank;
/// every identity with its ids, the device's own one first; and every mapping with its trigger and
/// its action, tidied.
#[verifier::rlimit(60)]
pub proof fn saving_keeps_every_field(
    config: ConfigView,
    connected: Seq<MouseDeviceView>,
    i: int,
    j: int,
)
    requires
        0 <= i < config.device.len(),
    ensures
        ({
            let d = config.device[i];
            let e = resaved(config, connected).device[i];
            let n = shift_of(d);
            &&& resaved(config, connected).scroll == config.scroll
            &&& resaved(config, connected).device.len() == config.device.len()
            &&& e.registry_id is None && e.vendor_id is None && e.product_id is None
            &&& e.name == (if d.name is Some && !is_blank(d.name->0) {
                d.name
            } else {
                None
            })
            &&& e.also.len() == d.also.len() + n
            &&& n == 1 ==> e.also[0].registry_id == d.registry_id && e.also[0].vendor_id
                == d.vendor_id && e.also[0].product_id == d.product_id
            &&& 0 <= j < d.also.len() ==> same_ids(e.also[j + n], d.also[j])
            &&& 0 <= j < d.also.len() && d.also[j].label is Some && !is_blank(d.also[j].label->0)
                ==> e.also[j + n].label == Some(trim(d.also[j].label->0))
            &&& e.mapping.len() == d.mapping.len() && e.key.len() == d.key.len()
            &&& 0 <= j < d.mapping.len() ==> e.mapping[j].button == d.mapping[j].button
                && e.mapping[j].action == tidied_action(d.mapping[j].action)
            &&& 0 <= j < d.key.len() ==> e.key[j].key == d.key[j].key && e.key[j].action
                == tidied_action(d.key[j].action)
        }),
{
    let d = config.device[i];
    if 0 <= j < d.mapping.len() {
        forms_give_actions_back(d.mapping[j].action);
    }
    if 0 <= j < d.key.len() {
        forms_give_actions_back(d.key[j].action);
    }
    assert(trim(Seq::<char>::empty()) =~= Seq::empty());
    if 0 <= j < d.also.len() {
        assert(d.identities()[j + shift_of(d)] == d.also[j]);
    }
}

/// Saving writes every row of the model, whatever has been edited: names, ids, labels, triggers and
/// actions.
pub proof fn saving_writes_every_row(s: EditorView, i: int, j: int)
    requires
        0 <= i < s.devices.len(),
    ensures
        ({
            let r = s.devices[i];
            let e = s.config().device[i];
            &&& s.config().scroll == s.scroll
            &&& s.config().device.len() == s.devices.len()
            &&& e.registry_id is None && e.vendor_id is None && e.product_id is None
            &&& is_blank(r.name) ==> e.name is None
            &&& !is_blank(r.name) ==> e.name == Some(r.name)
            &&& e.also.len() == r.identities.len()
            &&& 0 <= j < r.identities.len() ==> {
                let id = r.identities[j];
                &&& e.also[j].registry_id == id.registry_id
                &&& e.also[j].vendor_id == id.vendor_id
                &&& e.also[j].product_id == id.product_id
                &&& is_blank(id.label) ==> e.also[j].label is None
                &&& !is_blank(id.label) ==> e.also[j].label == Some(trim(id.label))
            }
            &&& e.mapping.len() == r.mappings.len() && e.key.len() == r.keys.len()
            &&& 0 <= j < r.mappings.len() ==> {
                let m = r.mappings[j];
                &&& e.mapping[j].button == m.button
                &&& m.action.kind is Button ==> e.mapping[j].action == (ActionView::Button {
                    button: m.action.target_button,
                })
                &&& m.action.kind is Disabled ==> e.mapping[j].action is Disabled
                &&& m.action.kind is Keystroke ==> e.mapping[j].action == (ActionView::Keystroke {
                    key: m.action.key,
                    mods: m.action.mods.names(),
                })
            }
            &&& 0 <= j < r.keys.len() ==> {
                let k = r.keys[j];
                &&& e.key[j].key == k.source
                &&& k.action.kind is Button ==> e.key[j].action == (ActionView::Button {
                    button: k.action.target_button,
                })
                &&& k.action.kind is Disabled ==> e.key[j].action is Disabled
                &&& k.action.kind is Keystroke ==> e.key[j].action == (ActionView::Keystroke {
                    key: k.action.key,
                    mods: k.action.mods.names(),
                })
            }
        }),
{
}

// ---------------------------------------------------------------------------------------------
// Rows
// ---------------------------------------------------------------------------------------------
/// A new row is for the back button, or for no key yet, and swallows its trigger; it proposes the
/// middle button.
pub proof fn new_rows_swallow_their_trigger()
    ensures
        new_mapping_row().button == 3,
        new_mapping_row().action.action() is Disabled,
        new_mapping_row().action.target_button == 2,
        new_key_row().source.len() == 0,
        new_key_row().action.action() is Disabled,
        new_key_row().action.target_button == 2,
{
}

/// An added device has the identity that was offered, no mapping yet, and the offered name, unless
/// that is a description in brackets.
pub proof fn added_devices_start_empty(a: AddableView)
    ensures
        ({
            let r = added_row(a);
            &&& r.identities.len() == 1 && r.identities[0] == a.id
            &&& r.mappings.len() == 0 && r.keys.len() == 0
            &&& a.name.len() > 0 && a.name[0] == '(' ==> r.name.len() == 0
            &&& a.name.len() == 0 || a.name[0] != '(' ==> r.name == a.name
        }),
{
}

/// What is entered in a number field is kept where it is in range, and moved to the nearer end
/// where it is not. Buttons run from 1 to 31, targets from 0 to 31, guards from 10 to 500 ms, and
/// floors from 1 to 60 pixels.
pub proof fn entered_numbers_stay_in_range(n: i64, x: int, first: int, last: int)
    requires
        first <= last,
    ensures
        1 <= n <= 31 ==> entered_button(n) == n,
        n < 1 ==> entered_button(n) == 1,
        n > 31 ==> entered_button(n) == 31,
        first <= x <= last ==> clamped(x, first, last) == x,
        x < first ==> clamped(x, first, last) == first,
        x > last ==> clamped(x, first, last) == last,
        FIRST_TARGET == 0 && LAST_TARGET == 31,
        SHORTEST_GUARD == 10 && LONGEST_GUARD == 500,
        LOWEST_FLOOR == 1 && HIGHEST_FLOOR == 60,
{
}

/// A device is called by its name, or, where that is blank, by its identities; without any it is
/// said to have none. Its list entry begins with a full dot where it is connected, else with a
/// hollow one.
pub proof fn devices_are_called_by_name(s: EditorView, i: int)
    requires
        0 <= i < s.devices.len(),
    ensures
        ({
            let d = s.devices[i];
            let ids = Seq::new(d.identities.len(), |j: int| d.identities[j].desc());
            &&& !is_blank(d.name) ==> d.title() == d.name
            &&& is_blank(d.name) && d.identities.len() == 0 ==> d.title() == "no identity"@
            &&& is_blank(d.name) && d.identities.len() > 0 ==> d.title() == join(ids, ", "@)
            &&& is_blank(d.name) ==> d.heading() is None
            &&& !is_blank(d.name) ==> d.heading() == Some("· "@ + trim(d.name))
            &&& d.connected_among(s.connected) ==> s.device_label(i) == "●"@ + " "@ + d.title()
            &&& !d.connected_among(s.connected) ==> s.device_label(i) == "○"@ + " "@ + d.title()
        }),
{
}

/// An identity is listed with its dot, its label where it has one, and its ids.
pub proof fn identities_are_listed_with_their_label(
    id: IdentityRowView,
    connected: Seq<MouseDeviceView>,
)
    ensures
        ({
            let dot = if id.connected_among(connected) {
                "●"@
            } else {
                "○"@
            };
            let label = id.display_label(connected);
            &&& label.len() == 0 ==> identity_entry(id, connected) == dot + " "@ + id.desc()
            &&& label.len() > 0 ==> identity_entry(id, connected) == dot + " "@ + (label + " — "@
                + id.desc())
        }),
{
}

/// A device is connected where any of its identities refers to a connected device.
pub proof fn any_identity_connects_a_device(d: DeviceRowView, connected: Seq<MouseDeviceView>)
    ensures
        d.connected_among(connected) <==> exists|i: int, j: int|
            #![trigger d.identities[i], connected[j]]
            0 <= i < d.identities.len() && 0 <= j < connected.len() && d.identities[i].matches(
                connected[j],
            ),
{
    if d.connected_among(connected) {
        let i = choose|i: int|
            0 <= i < d.identities.len() && (#[trigger] d.identities[i]).connected_among(connected);
        let j = choose|j: int|
            0 <= j < connected.len() && d.identities[i].matches(#[trigger] connected[j]);
    }
    if exists|i: int, j: int|
        #![trigger d.identities[i], connected[j]]
        0 <= i < d.identities.len() && 0 <= j < connected.len() && d.identities[i].matches(
            connected[j],
        ) {
        let (i, j) = choose|i: int, j: int|
            #![trigger d.identities[i], connected[j]]
            0 <= i < d.identities.len() && 0 <= j < connected.len() && d.identities[i].matches(
                connected[j],
            );
        assert(d.identities[i].connected_among(connected));
    }
}

// ---------------------------------------------------------------------------------------------
// Capturing
// ---------------------------------------------------------------------------------------------
/// A value is a press exactly where it is of the button page and not zero; the press is of the
/// button before its usage, by the device that sent it, whose registry id is 0 where unknown.
pub proof fn presses_are_buttons_going_down(
    page: u32,
    value: i64,
    usage: u32,
    registry: Option<u64>,
    vendor_id: Option<i64>,
    product_id: Option<i64>,
)
    ensures
        ({
            let p = press_of(page, value, usage, registry, vendor_id, product_id);
            &&& p is Some <==> page == 0x09 && value != 0
            &&& p is Some ==> p->0.button == usage - 1 && p->0.vendor_id == vendor_id
                && p->0.product_id == product_id
            &&& p is Some && registry is Some ==> p->0.registry == registry->0
            &&& p is Some && registry is None ==> p->0.registry == 0
        }),
{
}

/// Whether a press may have come from a device: its sender is unknown, the device has no key, or
/// one of its identities is that of the sender.
pub open spec fn may_be_from(press: CapturedPress, d: DeviceRowView) -> bool {
    ||| press.registry == 0
    ||| forall|i: int|
        0 <= i < d.identities.len() ==> {
            let id = #[trigger] d.identities[i];
            id.registry_id is None && (id.vendor_id is None || id.product_id is None)
        }
    ||| exists|i: int|
        0 <= i < d.identities.len() && {
            let id = #[trigger] d.identities[i];
            if id.vendor_id is Some && id.product_id is Some {
                press.vendor_id == id.vendor_id && press.product_id == id.product_id
            } else {
                id.registry_id == Some(press.registry)
            }
        }
}

proof fn lemma_may_be_from(press: CapturedPress, d: DeviceRowView)
    ensures
        from_elsewhere(d, press) == !may_be_from(press, d),
{
    if d.pressed_by(press) {
        let i = choose|i: int|
            0 <= i < d.identities.len() && press_matches(
                #[trigger] d.identities[i],
                press,
            );
        assert(may_be_from(press, d));
    }
    if d.has_no_identity() {
        assert forall|i: int| 0 <= i < d.identities.len() implies {
            let id = #[trigger] d.identities[i];
            id.registry_id is None && (id.vendor_id is None || id.product_id is None)
        } by {
            assert(d.identities[i].device_key() is None);
        }
    }
    if press.registry != 0 && may_be_from(press, d) {
        if forall|i: int|
            0 <= i < d.identities.len() ==> {
                let id = #[trigger] d.identities[i];
                id.registry_id is None && (id.vendor_id is None || id.product_id is None)
            } {
            assert(d.has_no_identity());
        } else {
            let i = choose|i: int|
                0 <= i < d.identities.len() && {
                    let id = #[trigger] d.identities[i];
                    if id.vendor_id is Some && id.product_id is Some {
                        press.vendor_id == id.vendor_id && press.product_id == id.product_id
                    } else {
                        id.registry_id == Some(press.registry)
                    }
                };
            assert(press_matches(d.identities[i], press));
        }
    }
}

/// An armed capture that a press reaches ends there. Any button but the left one is assigned to the
/// waiting row and named in the note, which also tells where it came from another device; the left
/// one is refused.
pub proof fn capture_assigns_the_pressed_button(s: EditorView, sel: int, press: CapturedPress)
    requires
        0 <= sel < s.devices.len(),
        s.capturing is Some,
        s.capture_armed,
    ensures
        ({
            let t = after_frame(s, sel, Some(press));
            let row = s.capturing->0 as int;
            let name = if press.button == 1 {
                " (right click)"@
            } else if press.button == 2 {
                " (middle click)"@
            } else {
                ""@
            };
            let caught = "Captured button "@ + decimal_signed(press.button as int) + name;
            &&& t.capturing is None
            &&& press.button == 0 ==> t.devices == s.devices && t.capture_note
                == "That's your left (primary) click — it's protected and can't be remapped."@
            &&& press.button != 0 && row < s.devices[sel].mappings.len()
                ==> t.devices[sel].mappings[row].button == press.button
            &&& press.button != 0 && may_be_from(press, s.devices[sel]) ==> t.capture_note
                == caught + "."@
            &&& press.button != 0 && !may_be_from(press, s.devices[sel]) ==> t.capture_note
                == caught + " — note: that press came from a different device, not this one."@
        }),
{
    lemma_may_be_from(press, s.devices[sel]);
}

/// A capture that no press reaches waits on: one that is armed stays as it is, one that is not is
/// armed. Without a capture nothing happens at all.
pub proof fn capture_waits_for_a_press(
    s: EditorView,
    sel: int,
    pending: Option<CapturedPress>,
)
    ensures
        s.capturing is None ==> after_frame(s, sel, pending) == s,
        s.capturing is Some && s.capture_armed ==> after_frame(s, sel, None) == s,
        s.capturing is Some && !s.capture_armed ==> after_frame(s, sel, pending) == (EditorView {
            capture_armed: true,
            ..s
        }),
{
}

} // verus!
