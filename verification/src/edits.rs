//! What the editor shows and what a click in it does.

use vstd::prelude::*;
use vstd::string::*;

use crate::config::{opt_key, ScrollConfig, PROTECTED_BUTTON};
use crate::editor::{
    Addable, AddableView, CapturedPress, DeviceRow, DeviceRowView, EditorApp, EditorView,
};
use crate::engine::HID_USAGE_PAGE_BUTTON;
use crate::forms::{
    disabled_form, empty_identity, text_or_empty, ActionForm, ActionFormView, IdentityRow,
    IdentityRowView, KeyRow, KeyRowView, MappingRow, MappingRowView,
};
use crate::hid::{friendly_transport, mice, transport_label, MouseDevice, MouseDeviceView};
use crate::lists::gather;
use crate::text::{decimal_signed, signed_text, texts};

verus! {

// ---------------------------------------------------------------------------------------------
// What is shown
// ---------------------------------------------------------------------------------------------
/// The mark of a connected or an absent device.
pub open spec fn mark(connected: bool) -> Seq<char> {
    if connected {
        "●"@
    } else {
        "○"@
    }
}

fn mark_text(connected: bool) -> (r: &'static str)
    ensures
        r@ == mark(connected),
{
    if connected {
        "●"
    } else {
        "○"
    }
}

/// An identity as it is listed: its mark, its label where it has one, and its ids.
pub open spec fn identity_entry(id: IdentityRowView, connected: Seq<MouseDeviceView>) -> Seq<char> {
    let label = id.display_label(connected);
    mark(id.connected_among(connected)) + " "@ + if label.len() == 0 {
        id.desc()
    } else {
        label + " — "@ + id.desc()
    }
}

/// The keys that the identities of a device answer to.
pub open spec fn row_key(d: DeviceRowView) -> spec_fn(int) -> Seq<u64> {
    |i: int| opt_key(d.identities[i].device_key())
}

pub open spec fn device_row_keys(ds: Seq<DeviceRowView>) -> spec_fn(int) -> Seq<u64> {
    |i: int| gather(ds[i].identities.len(), row_key(ds[i]))
}

/// The identity under which a connected device is added: its vendor and product where it has
/// both, else its registry id; labelled by its connection.
pub open spec fn identity_for(c: MouseDeviceView) -> IdentityRowView {
    let label = text_or_empty(transport_label(c.transport));
    if c.vendor_id is Some && c.product_id is Some {
        IdentityRowView {
            label,
            vendor_id: c.vendor_id,
            product_id: c.product_id,
            ..empty_identity()
        }
    } else {
        IdentityRowView { label, registry_id: c.registry_entry_id, ..empty_identity() }
    }
}

/// The offer to add a connected device: none where it has no key, or one that is listed already.
pub open spec fn offer(c: MouseDeviceView, existing: Seq<u64>) -> Seq<AddableView> {
    let id = identity_for(c);
    match id.device_key() {
        Some(k) => if existing.contains(k) {
            Seq::empty()
        } else {
            seq![
                AddableView {
                    id,
                    name: match c.name {
                        Some(n) => n,
                        None => "("@ + id.desc() + ")"@,
                    },
                },
            ]
        },
        None => Seq::empty(),
    }
}

pub open spec fn offer_at(connected: Seq<MouseDeviceView>, existing: Seq<u64>) -> spec_fn(
    int,
) -> Seq<AddableView> {
    |i: int| offer(connected[i], existing)
}

/// The models of a list of offers.
pub open spec fn offers(v: Seq<Addable>) -> Seq<AddableView> {
    Seq::new(v.len(), |i: int| v[i]@)
}

impl EditorView {
    /// A device as it is listed: its mark and what it is called.
    pub open spec fn device_label(self, i: int) -> Seq<char> {
        mark(self.devices[i].connected_among(self.connected)) + " "@ + self.devices[i].title()
    }

    /// Every key that a listed device answers to.
    pub open spec fn existing_keys(self) -> Seq<u64> {
        gather(self.devices.len(), device_row_keys(self.devices))
    }

    /// The connected devices that can be added.
    pub open spec fn addable(self) -> Seq<AddableView> {
        gather(self.connected.len(), offer_at(self.connected, self.existing_keys()))
    }
}

fn has_key(keys: &Vec<u64>, k: u64) -> (r: bool)
    ensures
        r == keys@.contains(k),
{
    let n: usize = keys.len();
    let mut i: usize = 0;
    while i < n
        invariant
            i <= n == keys@.len(),
            forall|j: int| 0 <= j < i ==> keys@[j] != k,
        decreases n - i,
    {
        if keys[i] == k {
            return true;
        }
        i += 1;
    }
    false
}

fn offer_for(c: &MouseDevice, existing: &Vec<u64>) -> (r: Option<Addable>)
    ensures
        r is Some == (offer(c@, existing@).len() == 1),
        r is Some ==> offer(c@, existing@) == seq![r->0@],
        r is None ==> offer(c@, existing@).len() == 0,
{
    let mut id: IdentityRow = IdentityRow::default();
    if c.vendor_id.is_some() && c.product_id.is_some() {
        id.vendor_id = c.vendor_id;
        id.product_id = c.product_id;
    } else {
        id.registry_id = c.registry_entry_id;
    }
    id.label = match friendly_transport(&c.transport) {
        Some(l) => l,
        None => String::new(),
    };
    assert(id@ =~= identity_for(c@));
    let key: u64 = match id.device_key() {
        Some(k) => k,
        None => {
            return None;
        },
    };
    if has_key(existing, key) {
        return None;
    }
    let name: String = match &c.name {
        Some(n) => n.clone(),
        None => {
            let mut s: String = "(".to_owned();
            s.append(id.desc().as_str());
            s.append(")");
            s
        },
    };
    Some(Addable { id, name })
}

impl EditorApp {
    /// A device as it is listed.
    pub fn device_label(&self, i: usize) -> (r: String)
        requires
            i < self@.devices.len(),
        ensures
            r@ == self@.device_label(i as int),
    {
        let d = &self.devices[i];
        let mut s: String = mark_text(self.is_connected(d)).to_owned();
        s.append(" ");
        s.append(d.title().as_str());
        s
    }

    /// The identities of a device as they are listed.
    pub fn identity_labels(&self, i: usize) -> (r: Vec<String>)
        requires
            i < self@.devices.len(),
        ensures
            texts(r@) == Seq::new(
                self@.devices[i as int].identities.len(),
                |j: int| identity_entry(self@.devices[i as int].identities[j], self@.connected),
            ),
    {
        let d = &self.devices[i];
        let mut out: Vec<String> = Vec::new();
        let n: usize = d.identities.len();
        let mut j: usize = 0;
        while j < n
            invariant
                j <= n == d.identities@.len(),
                out@.len() == j,
                forall|k: int|
                    0 <= k < j ==> (#[trigger] out@[k])@ == identity_entry(
                        d@.identities[k],
                        self@.connected,
                    ),
            decreases n - j,
        {
            let id = &d.identities[j];
            let mut s: String = mark_text(self.identity_connected(id)).to_owned();
            s.append(" ");
            let mut text: String = id.display_label(&self.connected);
            if text.as_str().unicode_len() == 0 {
                text = id.desc();
            } else {
                text.append(" — ");
                text.append(id.desc().as_str());
            }
            s.append(text.as_str());
            out.push(s);
            j += 1;
        }
        assert(texts(out@) =~= Seq::new(
            self@.devices[i as int].identities.len(),
            |j: int| identity_entry(self@.devices[i as int].identities[j], self@.connected),
        ));
        out
    }

    /// Every key that a listed device answers to.
    pub fn existing_keys(&self) -> (r: Vec<u64>)
        ensures
            r@ == self@.existing_keys(),
    {
        let mut keys: Vec<u64> = Vec::new();
        let ghost f = device_row_keys(self@.devices);
        let n: usize = self.devices.len();
        let mut i: usize = 0;
        while i < n
            invariant
                i <= n == self.devices@.len(),
                f == device_row_keys(self@.devices),
                keys@ =~= gather(i as nat, f),
            decreases n - i,
        {
            let d = &self.devices[i];
            let ghost g = row_key(d@);
            let ghost start = keys@;
            let m: usize = d.identities.len();
            let mut j: usize = 0;
            while j < m
                invariant
                    j <= m == d.identities@.len(),
                    g == row_key(d@),
                    keys@ =~= start + gather(j as nat, g),
                decreases m - j,
            {
                let ghost before = keys@;
                if let Some(k) = d.identities[j].device_key() {
                    keys.push(k);
                }
                assert(keys@ =~= before + g(j as int));
                j += 1;
            }
            assert(f(i as int) == gather(m as nat, g));
            i += 1;
        }
        keys
    }

    /// The connected devices that can be added: those with a key that is not listed yet.
    pub fn addable(&self) -> (r: Vec<Addable>)
        ensures
            offers(r@) == self@.addable(),
    {
        let existing: Vec<u64> = self.existing_keys();
        let mut out: Vec<Addable> = Vec::new();
        let ghost f = offer_at(self@.connected, existing@);
        let n: usize = self.connected.len();
        let mut i: usize = 0;
        assert(offers(out@) =~= gather(0, f));
        while i < n
            invariant
                i <= n == self.connected@.len(),
                existing@ == self@.existing_keys(),
                f == offer_at(self@.connected, existing@),
                offers(out@) == gather(i as nat, f),
            decreases n - i,
        {
            let ghost before = offers(out@);
            if let Some(a) = offer_for(&self.connected[i], &existing) {
                out.push(a);
            }
            assert(offers(out@) =~= before + f(i as int));
            i += 1;
        }
        out
    }

    /// The device that an offer can be merged into: the selected one, with what it is called.
    pub fn merge_target(&self) -> (r: Option<(usize, String)>)
        ensures
            r is Some == (self@.selected is Some && self@.selected->0 < self@.devices.len()),
            r is Some ==> (r->0).0 == self@.selected->0 && (r->0).1@
                == self@.devices[self@.selected->0 as int].title(),
    {
        match self.selected {
            Some(i) => {
                if i < self.devices.len() {
                    Some((i, self.devices[i].title()))
                } else {
                    None
                }
            },
            None => None,
        }
    }
}

// ---------------------------------------------------------------------------------------------
// What a click does
// ---------------------------------------------------------------------------------------------
impl EditorView {
    /// The editor with another row for one device.
    pub open spec fn with_device(self, i: int, d: DeviceRowView) -> EditorView {
        EditorView { devices: self.devices.update(i, d), ..self }
    }
}

/// The row of a device that has just been added. A name in brackets is only a description.
pub open spec fn added_row(a: AddableView) -> DeviceRowView {
    DeviceRowView {
        name: if a.name.len() > 0 && a.name[0] == '(' {
            Seq::empty()
        } else {
            a.name
        },
        identities: seq![a.id],
        mappings: Seq::empty(),
        keys: Seq::empty(),
    }
}

/// A new button mapping: "back" is swallowed.
pub open spec fn new_mapping_row() -> MappingRowView {
    MappingRowView { button: 3, action: disabled_form() }
}

/// A new keystroke mapping, of no key yet.
pub open spec fn new_key_row() -> KeyRowView {
    KeyRowView { source: Seq::empty(), action: disabled_form() }
}

impl EditorApp {
    /// Adds a connected device and selects it.
    pub fn add_device(&mut self, a: &Addable)
        ensures
            final(self)@ == (EditorView {
                devices: old(self)@.devices.push(added_row(a@)),
                selected: Some(old(self)@.devices.len() as usize),
                ..old(self)@
            }),
    {
        let described: bool = a.name.as_str().unicode_len() > 0 && a.name.as_str().get_char(0)
            == '(';
        let name: String = if described {
            String::new()
        } else {
            a.name.clone()
        };
        let mut identities: Vec<IdentityRow> = Vec::new();
        identities.push(a.id.clone());
        let row: DeviceRow = DeviceRow {
            name,
            identities,
            mappings: Vec::new(),
            keys: Vec::new(),
        };
        assert(row@ =~= added_row(a@));
        let at: usize = self.devices.len();
        self.devices.push(row);
        self.selected = Some(at);
        assert(self@ =~= EditorView {
            devices: old(self)@.devices.push(added_row(a@)),
            selected: Some(at),
            ..old(self)@
        });
    }

    /// Adds the identity of a connected device to a listed one, as the same physical device.
    pub fn merge(&mut self, sel: usize, a: &Addable)
        requires
            sel < old(self)@.devices.len(),
        ensures
            final(self)@ == old(self)@.with_device(
                sel as int,
                DeviceRowView {
                    identities: old(self)@.devices[sel as int].identities.push(a@.id),
                    ..old(self)@.devices[sel as int]
                },
            ),
    {
        let ghost d = self@.devices[sel as int];
        self.devices[sel].identities.push(a.id.clone());
        assert(self.devices@[sel as int]@ =~= DeviceRowView {
            identities: d.identities.push(a@.id),
            ..d
        });
        assert(self@ =~= old(self)@.with_device(
            sel as int,
            DeviceRowView { identities: d.identities.push(a@.id), ..d },
        ));
    }

    /// Appends a new button mapping to a device.
    pub fn add_mapping(&mut self, sel: usize)
        requires
            sel < old(self)@.devices.len(),
        ensures
            final(self)@ == old(self)@.with_device(
                sel as int,
                DeviceRowView {
                    mappings: old(self)@.devices[sel as int].mappings.push(new_mapping_row()),
                    ..old(self)@.devices[sel as int]
                },
            ),
    {
        let ghost d = self@.devices[sel as int];
        self.devices[sel].mappings.push(
            MappingRow { button: 3, action: ActionForm::disabled() },
        );
        let ghost e = DeviceRowView { mappings: d.mappings.push(new_mapping_row()), ..d };
        assert(self.devices@[sel as int]@ =~= e);
        assert(self@ =~= old(self)@.with_device(sel as int, e));
    }

    /// Removes a button mapping of a device.
    pub fn remove_mapping(&mut self, sel: usize, i: usize)
        requires
            sel < old(self)@.devices.len(),
            i < old(self)@.devices[sel as int].mappings.len(),
        ensures
            final(self)@ == old(self)@.with_device(
                sel as int,
                DeviceRowView {
                    mappings: old(self)@.devices[sel as int].mappings.remove(i as int),
                    ..old(self)@.devices[sel as int]
                },
            ),
    {
        let ghost d = self@.devices[sel as int];
        self.devices[sel].mappings.remove(i);
        let ghost e = DeviceRowView { mappings: d.mappings.remove(i as int), ..d };
        assert(self.devices@[sel as int]@ =~= e);
        assert(self@ =~= old(self)@.with_device(sel as int, e));
    }

    /// Appends a new keystroke mapping to a device.
    pub fn add_key(&mut self, sel: usize)
        requires
            sel < old(self)@.devices.len(),
        ensures
            final(self)@ == old(self)@.with_device(
                sel as int,
                DeviceRowView {
                    keys: old(self)@.devices[sel as int].keys.push(new_key_row()),
                    ..old(self)@.devices[sel as int]
                },
            ),
    {
        let ghost d = self@.devices[sel as int];
        self.devices[sel].keys.push(
            KeyRow { source: String::new(), action: ActionForm::disabled() },
        );
        let ghost e = DeviceRowView { keys: d.keys.push(new_key_row()), ..d };
        assert(self.devices@[sel as int]@ =~= e);
        assert(self@ =~= old(self)@.with_device(sel as int, e));
    }

    /// Removes a keystroke mapping of a device.
    pub fn remove_key(&mut self, sel: usize, i: usize)
        requires
            sel < old(self)@.devices.len(),
            i < old(self)@.devices[sel as int].keys.len(),
        ensures
            final(self)@ == old(self)@.with_device(
                sel as int,
                DeviceRowView {
                    keys: old(self)@.devices[sel as int].keys.remove(i as int),
                    ..old(self)@.devices[sel as int]
                },
            ),
    {
        let ghost d = self@.devices[sel as int];
        self.devices[sel].keys.remove(i);
        let ghost e = DeviceRowView { keys: d.keys.remove(i as int), ..d };
        assert(self.devices@[sel as int]@ =~= e);
        assert(self@ =~= old(self)@.with_device(sel as int, e));
    }

    /// Removes an identity of a device.
    pub fn remove_identity(&mut self, sel: usize, i: usize)
        requires
            sel < old(self)@.devices.len(),
            i < old(self)@.devices[sel as int].identities.len(),
        ensures
            final(self)@ == old(self)@.with_device(
                sel as int,
                DeviceRowView {
                    identities: old(self)@.devices[sel as int].identities.remove(i as int),
                    ..old(self)@.devices[sel as int]
                },
            ),
    {
        let ghost d = self@.devices[sel as int];
        self.devices[sel].identities.remove(i);
        let ghost e = DeviceRowView { identities: d.identities.remove(i as int), ..d };
        assert(self.devices@[sel as int]@ =~= e);
        assert(self@ =~= old(self)@.with_device(sel as int, e));
    }

    /// Removes a device. The devices that are connected by now take the place of those seen before,
    /// so that the removed one is offered again.
    pub fn remove_device(&mut self, sel: usize, connected: Vec<MouseDevice>)
        requires
            sel < old(self)@.devices.len(),
        ensures
            final(self)@ == (EditorView {
                devices: old(self)@.devices.remove(sel as int),
                selected: None,
                connected: mice(connected@),
                ..old(self)@
            }),
    {
        self.devices.remove(sel);
        self.selected = None;
        self.connected = connected;
        assert(self@ =~= EditorView {
            devices: old(self)@.devices.remove(sel as int),
            selected: None,
            connected: mice(connected@),
            ..old(self)@
        });
    }

    /// The device to edit. A selection that no device stands under any more is given up.
    pub fn selection(&mut self) -> (r: Option<usize>)
        ensures
            r == (if old(self)@.selected is Some && old(self)@.selected->0
                < old(self)@.devices.len() {
                old(self)@.selected
            } else {
                None
            }),
            final(self)@ == (EditorView { selected: r, ..old(self)@ }),
    {
        if let Some(sel) = self.selected {
            if sel >= self.devices.len() {
                self.selected = None;
            }
        }
        self.selected
    }

    /// Notes how saving went.
    pub fn note_saved(&mut self, path: &str, outcome: Result<(), String>)
        ensures
            final(self)@ == (EditorView {
                status: match outcome {
                    Ok(_) => "Saved to "@ + path@ + " — the running app applies it automatically."@,
                    Err(e) => "Save failed: "@ + e@,
                },
                ..old(self)@
            }),
    {
        let mut s: String = String::new();
        match outcome {
            Ok(_) => {
                s.append("Saved to ");
                s.append(path);
                s.append(" — the running app applies it automatically.");
                assert(s@ =~= "Saved to "@ + path@
                    + " — the running app applies it automatically."@);
            },
            Err(e) => {
                s.append("Save failed: ");
                s.append(e.as_str());
                assert(s@ =~= "Save failed: "@ + e@);
            },
        }
        self.status = s;
    }
}

// ---------------------------------------------------------------------------------------------
// Number fields
// ---------------------------------------------------------------------------------------------
/// The first button that a mapping can be for: the one after the left button, which is protected.
pub const FIRST_BUTTON: i64 = 1;

/// The last button that a mapping can be for.
pub const LAST_BUTTON: i64 = 31;

/// The first button that a mapping can act as.
pub const FIRST_TARGET: i64 = 0;

/// The last button that a mapping can act as.
pub const LAST_TARGET: i64 = 31;

/// The shortest jitter guard (ms) that can be entered.
pub const SHORTEST_GUARD: u64 = 10;

/// The longest jitter guard (ms) that can be entered.
pub const LONGEST_GUARD: u64 = 500;

/// The lowest weak-tick floor (pixels per line) that can be entered.
pub const LOWEST_FLOOR: i64 = 1;

/// The highest weak-tick floor (pixels per line) that can be entered.
pub const HIGHEST_FLOOR: i64 = 60;

/// The number of a range that comes nearest to another.
pub open spec fn clamped(n: int, first: int, last: int) -> int {
    if n < first {
        first
    } else if n > last {
        last
    } else {
        n
    }
}

/// The button that entering a number gives a mapping row.
pub open spec fn entered_button(n: i64) -> i64 {
    clamped(n as int, FIRST_BUTTON as int, LAST_BUTTON as int) as i64
}

fn clamp(n: i64, first: i64, last: i64) -> (r: i64)
    ensures
        r == clamped(n as int, first as int, last as int),
{
    if n < first {
        first
    } else if n > last {
        last
    } else {
        n
    }
}

impl MappingRow {
    /// Enters the button that the mapping is for. It stays within the buttons that can be mapped,
    /// and so it is never the left one.
    pub fn set_button(&mut self, button: i64)
        ensures
            final(self)@ == (MappingRowView { button: entered_button(button), ..old(self)@ }),
            FIRST_BUTTON <= final(self)@.button <= LAST_BUTTON,
            final(self)@.button != PROTECTED_BUTTON,
            FIRST_BUTTON <= button <= LAST_BUTTON ==> final(self)@.button == button,
    {
        self.button = clamp(button, FIRST_BUTTON, LAST_BUTTON);
    }
}

impl ActionForm {
    /// Enters the button to act as.
    pub fn set_target_button(&mut self, button: i64)
        ensures
            final(self)@ == (ActionFormView {
                target_button: clamped(
                    button as int,
                    FIRST_TARGET as int,
                    LAST_TARGET as int,
                ) as i64,
                ..old(self)@
            }),
            FIRST_TARGET <= final(self)@.target_button <= LAST_TARGET,
    {
        self.target_button = clamp(button, FIRST_TARGET, LAST_TARGET);
    }
}

impl EditorApp {
    /// Enters the jitter guard (ms).
    pub fn set_guard(&mut self, ms: u64)
        ensures
            final(self)@ == (EditorView {
                scroll: ScrollConfig {
                    reversal_guard_ms: clamped(
                        ms as int,
                        SHORTEST_GUARD as int,
                        LONGEST_GUARD as int,
                    ) as u64,
                    ..old(self)@.scroll
                },
                ..old(self)@
            }),
    {
        self.scroll.reversal_guard_ms =
        if ms < SHORTEST_GUARD {
            SHORTEST_GUARD
        } else if ms > LONGEST_GUARD {
            LONGEST_GUARD
        } else {
            ms
        };
    }

    /// Enters the weak-tick floor (pixels per line).
    pub fn set_floor(&mut self, pixels: i64)
        ensures
            final(self)@ == (EditorView {
                scroll: ScrollConfig {
                    min_tick_pixels: clamped(
                        pixels as int,
                        LOWEST_FLOOR as int,
                        HIGHEST_FLOOR as int,
                    ) as i64,
                    ..old(self)@.scroll
                },
                ..old(self)@
            }),
    {
        self.scroll.min_tick_pixels = clamp(pixels, LOWEST_FLOOR, HIGHEST_FLOOR);
    }
}

// ---------------------------------------------------------------------------------------------
// Capturing a button
// ---------------------------------------------------------------------------------------------
/// The press that an HID value stands for: a button going down. HID usages of buttons count from
/// 1, button numbers from 0. A registry id of 0 stands for an unknown sender.
pub open spec fn press_of(
    page: u32,
    value: i64,
    usage: u32,
    registry: Option<u64>,
    vendor_id: Option<i64>,
    product_id: Option<i64>,
) -> Option<CapturedPress> {
    if page == HID_USAGE_PAGE_BUTTON && value != 0 {
        Some(
            CapturedPress {
                registry: match registry {
                    Some(r) => r,
                    None => 0,
                },
                vendor_id,
                product_id,
                button: (usage - 1) as i64,
            },
        )
    } else {
        None
    }
}

/// Reads a button press out of an HID value.
pub fn captured_press(
    page: u32,
    value: i64,
    usage: u32,
    registry: Option<u64>,
    vendor_id: Option<i64>,
    product_id: Option<i64>,
) -> (r: Option<CapturedPress>)
    ensures
        r == press_of(page, value, usage, registry, vendor_id, product_id),
{
    if page != HID_USAGE_PAGE_BUTTON {
        return None;
    }
    if value == 0 {
        return None;
    }
    let registry: u64 = match registry {
        Some(r) => r,
        None => 0,
    };
    Some(CapturedPress { registry, vendor_id, product_id, button: usage as i64 - 1 })
}

/// The usual name of a button, in brackets.
pub open spec fn click_name(button: i64) -> Seq<char> {
    if button == 0 {
        " (left click)"@
    } else if button == 1 {
        " (right click)"@
    } else if button == 2 {
        " (middle click)"@
    } else {
        ""@
    }
}

/// What is said after a capture.
pub open spec fn capture_words(button: i64, wrong_device: bool) -> Seq<char> {
    if button == PROTECTED_BUTTON {
        "That's your left (primary) click — it's protected and can't be remapped."@
    } else if wrong_device {
        "Captured button "@ + decimal_signed(button as int) + click_name(button)
            + " — note: that press came from a different device, not this one."@
    } else {
        "Captured button "@ + decimal_signed(button as int) + click_name(button) + "."@
    }
}

/// Whether a press certainly came from another device than the one being edited.
pub open spec fn from_elsewhere(d: DeviceRowView, press: CapturedPress) -> bool {
    press.registry != 0 && !d.has_no_identity() && !d.pressed_by(press)
}

/// A device with another button in one of its mapping rows; without that row, as it was.
pub open spec fn with_button(d: DeviceRowView, row: int, button: i64) -> DeviceRowView {
    if row < d.mappings.len() {
        DeviceRowView {
            mappings: d.mappings.update(row, MappingRowView { button, ..d.mappings[row] }),
            ..d
        }
    } else {
        d
    }
}

/// The editor after a press has been captured for a mapping row. The protected button is not
/// assigned.
pub open spec fn after_press(
    s: EditorView,
    sel: int,
    row: int,
    press: CapturedPress,
) -> EditorView {
    EditorView {
        devices: if press.button == PROTECTED_BUTTON {
            s.devices
        } else {
            s.devices.update(sel, with_button(s.devices[sel], row, press.button))
        },
        capturing: None,
        capture_note: capture_words(press.button, from_elsewhere(s.devices[sel], press)),
        ..s
    }
}

/// The editor after a frame in which a press may have been pending.
pub open spec fn after_frame(
    s: EditorView,
    sel: int,
    pending: Option<CapturedPress>,
) -> EditorView {
    if s.capturing is None {
        s
    } else if !s.capture_armed {
        EditorView { capture_armed: true, ..s }
    } else if pending is Some {
        after_press(s, sel, s.capturing->0 as int, pending->0)
    } else {
        s
    }
}

fn click_name_text(button: i64) -> (r: &'static str)
    ensures
        r@ == click_name(button),
{
    match button {
        0 => " (left click)",
        1 => " (right click)",
        2 => " (middle click)",
        _ => "",
    }
}

impl EditorApp {
    /// Begins a capture for a mapping row. A press that is still pending does not count.
    pub fn begin_capture(&mut self, row: usize, pending: &mut Option<CapturedPress>)
        ensures
            final(self)@ == (EditorView {
                capturing: Some(row),
                capture_armed: false,
                capture_note: Seq::empty(),
                ..old(self)@
            }),
            *final(pending) == None::<CapturedPress>,
    {
        *pending = None;
        self.capture_note = String::new();
        self.capturing = Some(row);
        self.capture_armed = false;
    }

    /// Lets a frame pass: the first one after a capture began discards the click that began it;
    /// a later one assigns the pending press.
    pub fn capture_frame(&mut self, sel: usize, pending: &mut Option<CapturedPress>)
        requires
            sel < old(self)@.devices.len(),
        ensures
            final(self)@ == after_frame(old(self)@, sel as int, *old(pending)),
            *final(pending) == (if old(self)@.capturing is Some {
                None
            } else {
                *old(pending)
            }),
    {
        let row: usize = match self.capturing {
            Some(row) => row,
            None => {
                return;
            },
        };
        if !self.capture_armed {
            *pending = None;
            self.capture_armed = true;
            return;
        }
        let press: CapturedPress = match *pending {
            Some(p) => p,
            None => {
                return;
            },
        };
        *pending = None;
        let ghost s = self@;
        let ghost d = s.devices[sel as int];
        let same_device: bool = self.devices[sel].has_no_identity() || self.devices[sel].pressed(
            &press,
        );
        let wrong_device: bool = !(press.registry == 0 || same_device);
        let button: i64 = press.button;
        if button == PROTECTED_BUTTON {
            self.capture_note =
            "That's your left (primary) click — it's protected and can't be remapped.".to_owned();
        } else {
            if row < self.devices[sel].mappings.len() {
                self.devices[sel].mappings[row].button = button;
            }
            assert(self.devices@[sel as int]@ =~= with_button(d, row as int, button));
            assert(self@.devices =~= s.devices.update(
                sel as int,
                with_button(d, row as int, button),
            ));
            let mut note: String = "Captured button ".to_owned();
            note.append(signed_text(button).as_str());
            note.append(click_name_text(button));
            if wrong_device {
                note.append(" — note: that press came from a different device, not this one.");
            } else {
                note.append(".");
            }
            self.capture_note = note;
        }
        self.capturing = None;
    }
}

} // verus!
