//! Connected pointing devices: which of them are offered for remapping, and how they are listed.

use vstd::prelude::*;
use vstd::string::*;

use crate::config::{clone_opt, opt_text};
use crate::lists::{gather, note};
use crate::text::{
    blank, contains_run, decimal, decimal_signed, decimal_text, has_run, hex_id, hex_id_text,
    is_blank, lower, lower_chars, signed_text, texts,
};
use crate::validate::name_or;

verus! {

/// What can be read of a connected device.
#[derive(Debug)]
pub struct MouseDevice {
    pub name: Option<String>,
    pub vendor_id: Option<i64>,
    pub product_id: Option<i64>,
    pub serial: Option<String>,
    pub location_id: Option<i64>,
    pub registry_entry_id: Option<u64>,
    pub primary_usage: Option<i64>,
    pub primary_usage_page: Option<i64>,
    /// How the device is connected, as the system reports it ("USB", "Bluetooth", ...).
    pub transport: Option<String>,
}

#[verifier::ext_equal]
pub struct MouseDeviceView {
    pub name: Option<Seq<char>>,
    pub vendor_id: Option<i64>,
    pub product_id: Option<i64>,
    pub serial: Option<Seq<char>>,
    pub location_id: Option<i64>,
    pub registry_entry_id: Option<u64>,
    pub primary_usage: Option<i64>,
    pub primary_usage_page: Option<i64>,
    pub transport: Option<Seq<char>>,
}

impl View for MouseDevice {
    type V = MouseDeviceView;

    open spec fn view(&self) -> MouseDeviceView {
        MouseDeviceView {
            name: opt_text(self.name),
            vendor_id: self.vendor_id,
            product_id: self.product_id,
            serial: opt_text(self.serial),
            location_id: self.location_id,
            registry_entry_id: self.registry_entry_id,
            primary_usage: self.primary_usage,
            primary_usage_page: self.primary_usage_page,
            transport: opt_text(self.transport),
        }
    }
}

impl Clone for MouseDevice {
    fn clone(&self) -> (r: Self)
        ensures
            r@ == self@,
    {
        MouseDevice {
            name: clone_opt(&self.name),
            vendor_id: self.vendor_id,
            product_id: self.product_id,
            serial: clone_opt(&self.serial),
            location_id: self.location_id,
            registry_entry_id: self.registry_entry_id,
            primary_usage: self.primary_usage,
            primary_usage_page: self.primary_usage_page,
            transport: clone_opt(&self.transport),
        }
    }
}

/// The models of a list of devices.
pub open spec fn mice(v: Seq<MouseDevice>) -> Seq<MouseDeviceView> {
    Seq::new(v.len(), |i: int| v[i]@)
}

impl MouseDeviceView {
    /// Whether a device is a mouse or a pointer of the generic desktop page.
    pub open spec fn is_pointer(self) -> bool {
        self.primary_usage_page == Some(0x01i64) && (self.primary_usage == Some(0x02i64)
            || self.primary_usage == Some(0x01i64))
    }

    /// Whether a device is a trackpad or the built-in keyboard and trackpad, by its name.
    pub open spec fn is_builtin_trackpad(self) -> bool {
        match self.name {
            Some(n) => contains_run(lower(n), "trackpad"@) || contains_run(
                lower(n),
                "apple internal"@,
            ),
            None => false,
        }
    }

    /// Whether a device is offered for remapping.
    pub open spec fn offered(self) -> bool {
        self.is_pointer() && !self.is_builtin_trackpad()
    }
}

/// Is this a trackpad, or the Mac's built-in keyboard and trackpad? Those are never offered: a
/// remapped primary input can lock its user out. A Magic Mouse is a legitimate target.
pub fn is_builtin_trackpad(d: &MouseDevice) -> (r: bool)
    ensures
        r == d@.is_builtin_trackpad(),
{
    match &d.name {
        Some(name) => {
            let n: Vec<char> = lower_chars(name.as_str());
            has_run(&n, "trackpad") || has_run(&n, "apple internal")
        },
        None => false,
    }
}

fn is_pointer(d: &MouseDevice) -> (r: bool)
    ensures
        r == d@.is_pointer(),
{
    matches!(d.primary_usage_page, Some(0x01)) && matches!(
        d.primary_usage,
        Some(0x02) | Some(0x01)
    )
}

/// The offered ones of a list of devices, in order.
pub open spec fn offered_of(ds: Seq<MouseDeviceView>) -> Seq<MouseDeviceView>
    decreases ds.len(),
{
    if ds.len() == 0 {
        Seq::empty()
    } else if ds.last().offered() {
        offered_of(ds.drop_last()).push(ds.last())
    } else {
        offered_of(ds.drop_last())
    }
}

/// Picks the devices to offer for remapping out of all that are connected.
pub fn select_mice(all: &Vec<MouseDevice>) -> (r: Vec<MouseDevice>)
    ensures
        mice(r@) == offered_of(mice(all@)),
{
    let mut out: Vec<MouseDevice> = Vec::new();
    let n: usize = all.len();
    let mut i: usize = 0;
    assert(mice(out@) =~= offered_of(mice(all@).take(0)));
    while i < n
        invariant
            i <= n == all@.len(),
            mice(out@) == offered_of(mice(all@).take(i as int)),
        decreases n - i,
    {
        let ghost before = out@;
        assert(mice(all@).take(i + 1).drop_last() =~= mice(all@).take(i as int));
        if is_pointer(&all[i]) && !is_builtin_trackpad(&all[i]) {
            out.push(all[i].clone());
            assert(mice(out@) =~= mice(before).push(all@[i as int]@));
        }
        i += 1;
    }
    assert(mice(all@).take(n as int) =~= mice(all@));
    out
}

/// The label of a connection: what the system reports, where it reports anything.
pub open spec fn transport_label(transport: Option<Seq<char>>) -> Option<Seq<char>> {
    match transport {
        Some(t) => if is_blank(t) {
            None
        } else {
            Some(t)
        },
        None => None,
    }
}

/// How a device is connected, as a label ("USB", "Bluetooth", ...).
pub fn friendly_transport(transport: &Option<String>) -> (r: Option<String>)
    ensures
        opt_text(r) == transport_label(opt_text(*transport)),
{
    match transport {
        Some(t) => {
            if blank(t.as_str()) {
                None
            } else {
                Some(t.clone())
            }
        },
        None => None,
    }
}

/// A number, or a stand-in where there is none.
pub open spec fn decimal_or_none(n: Option<i64>) -> Seq<char> {
    match n {
        Some(n) => decimal_signed(n as int),
        None => "<none>"@,
    }
}

/// A registry id, or a stand-in where there is none.
pub open spec fn registry_or_none(n: Option<u64>) -> Seq<char> {
    match n {
        Some(n) => decimal(n as nat),
        None => "<none>"@,
    }
}

/// An id, zero where there is none.
pub open spec fn id_or_zero(n: Option<i64>) -> i64 {
    match n {
        Some(n) => n,
        None => 0,
    }
}

/// Renders a registry id, or a stand-in where there is none.
pub fn registry_text(n: Option<u64>) -> (r: String)
    ensures
        r@ == registry_or_none(n),
{
    match n {
        Some(n) => decimal_text(n),
        None => "<none>".to_owned(),
    }
}

/// The lines that describe one device of a listing.
pub open spec fn mouse_lines(i: int, d: MouseDeviceView) -> Seq<Seq<char>> {
    seq![
        "["@ + decimal(i as nat) + "] "@ + name_or(d.name, "<unknown>"@),
        "    vendor=0x"@ + hex_id(id_or_zero(d.vendor_id)) + " product=0x"@ + hex_id(
            id_or_zero(d.product_id),
        ),
        "    serial="@ + name_or(d.serial, "<none>"@),
        "    locationID="@ + decimal_or_none(d.location_id) + " registryEntryID="@
            + registry_or_none(d.registry_entry_id),
        ""@,
    ]
}

pub open spec fn mouse_entry(ds: Seq<MouseDeviceView>) -> spec_fn(int) -> Seq<Seq<char>> {
    |i: int| mouse_lines(i, ds[i])
}

/// The lines of a listing.
pub open spec fn listing(ds: Seq<MouseDeviceView>) -> Seq<Seq<char>> {
    if ds.len() == 0 {
        seq!["No mice found (is anything connected? did the HID manager open?)."@]
    } else {
        seq!["Found "@ + decimal(ds.len()) + " mouse device(s):"@, ""@] + gather(
            ds.len(),
            mouse_entry(ds),
        )
    }
}

fn note_mouse(out: &mut Vec<String>, i: usize, d: &MouseDevice)
    ensures
        texts(final(out)@) == texts(old(out)@) + mouse_lines(i as int, d@),
{
    let ghost start = texts(out@);
    let mut s: String = "[".to_owned();
    s.append(decimal_text(i as u64).as_str());
    s.append("] ");
    match &d.name {
        Some(name) => s.append(name.as_str()),
        None => s.append("<unknown>"),
    }
    note(out, s);
    let vendor: i64 = match d.vendor_id {
        Some(v) => v,
        None => 0,
    };
    let product: i64 = match d.product_id {
        Some(p) => p,
        None => 0,
    };
    let mut s: String = "    vendor=0x".to_owned();
    s.append(hex_id_text(vendor).as_str());
    s.append(" product=0x");
    s.append(hex_id_text(product).as_str());
    note(out, s);
    let mut s: String = "    serial=".to_owned();
    match &d.serial {
        Some(serial) => s.append(serial.as_str()),
        None => s.append("<none>"),
    }
    note(out, s);
    let mut s: String = "    locationID=".to_owned();
    match d.location_id {
        Some(l) => s.append(signed_text(l).as_str()),
        None => s.append("<none>"),
    }
    s.append(" registryEntryID=");
    s.append(registry_text(d.registry_entry_id).as_str());
    note(out, s);
    note(out, "".to_owned());
    assert(texts(out@) =~= start + mouse_lines(i as int, d@));
}

/// The lines of the `list` command for the devices on offer.
pub fn mice_report(ds: &Vec<MouseDevice>) -> (r: Vec<String>)
    ensures
        texts(r@) == listing(mice(ds@)),
{
    let mut out: Vec<String> = Vec::new();
    if ds.len() == 0 {
        note(
            &mut out,
            "No mice found (is anything connected? did the HID manager open?).".to_owned(),
        );
        assert(texts(out@) =~= listing(mice(ds@)));
        return out;
    }
    let n: usize = ds.len();
    let mut s: String = "Found ".to_owned();
    s.append(decimal_text(n as u64).as_str());
    s.append(" mouse device(s):");
    note(&mut out, s);
    note(&mut out, "".to_owned());
    let ghost head = texts(out@);
    assert(head =~= seq!["Found "@ + decimal(n as nat) + " mouse device(s):"@, ""@]);
    let ghost f = mouse_entry(mice(ds@));
    let mut i: usize = 0;
    while i < n
        invariant
            i <= n == ds@.len(),
            f == mouse_entry(mice(ds@)),
            texts(out@) =~= head + gather(i as nat, f),
        decreases n - i,
    {
        note_mouse(&mut out, i, &ds[i]);
        assert(f(i as int) == mouse_lines(i as int, ds@[i as int]@));
        i += 1;
    }
    out
}

} // verus!
