//! The editor's model: the devices being edited, the ones that are connected, and the capture of a
//! button by pressing it. The window only shows this model and reports clicks to it.

use vstd::prelude::*;
use vstd::string::*;

use crate::config::{
    opt_text, Config, ConfigView, DeviceConfig, DeviceConfigView, DeviceId, DeviceIdView,
    KeyMapping, Mapping, ScrollConfig,
};
use crate::forms::{
    key_row, mapping_row, row_of_id, text_or_empty, IdentityRow, IdentityRowView, KeyRow,
    KeyRowView, MappingRow, MappingRowView,
};
use crate::hid::{mice, MouseDevice, MouseDeviceView};
use crate::text::{blank, is_blank, join, joined, texts, trim, trimmed};

verus! {

/// A button press seen in the HID stream, with what identifies its device.
#[derive(Clone, Copy, Debug, PartialEq, Eq, Structural)]
pub struct CapturedPress {
    pub registry: u64,
    pub vendor_id: Option<i64>,
    pub product_id: Option<i64>,
    pub button: i64,
}

/// Editable form of a device.
#[derive(Debug)]
pub struct DeviceRow {
    pub name: String,
    pub identities: Vec<IdentityRow>,
    pub mappings: Vec<MappingRow>,
    pub keys: Vec<KeyRow>,
}

#[verifier::ext_equal]
pub struct DeviceRowView {
    pub name: Seq<char>,
    pub identities: Seq<IdentityRowView>,
    pub mappings: Seq<MappingRowView>,
    pub keys: Seq<KeyRowView>,
}

impl View for DeviceRow {
    type V = DeviceRowView;

    open spec fn view(&self) -> DeviceRowView {
        DeviceRowView {
            name: self.name@,
            identities: Seq::new(self.identities@.len(), |i: int| self.identities@[i]@),
            mappings: Seq::new(self.mappings@.len(), |i: int| self.mappings@[i]@),
            keys: Seq::new(self.keys@.len(), |i: int| self.keys@[i]@),
        }
    }
}

/// A connected device that can be added, with the name to offer it under.
#[derive(Debug)]
pub struct Addable {
    pub id: IdentityRow,
    pub name: String,
}

#[verifier::ext_equal]
pub struct AddableView {
    pub id: IdentityRowView,
    pub name: Seq<char>,
}

impl View for Addable {
    type V = AddableView;

    open spec fn view(&self) -> AddableView {
        AddableView { id: self.id@, name: self.name@ }
    }
}

/// The editor's state.
#[derive(Debug)]
pub struct EditorApp {
    pub devices: Vec<DeviceRow>,
    pub connected: Vec<MouseDevice>,
    /// The device that is being edited.
    pub selected: Option<usize>,
    pub status: String,
    pub scroll: ScrollConfig,
    /// The mapping row of the selected device that is waiting for a press.
    pub capturing: Option<usize>,
    /// Set one frame after a capture begins, so that the click which began it does not count.
    pub capture_armed: bool,
    pub capture_note: String,
}

#[verifier::ext_equal]
pub struct EditorView {
    pub devices: Seq<DeviceRowView>,
    pub connected: Seq<MouseDeviceView>,
    pub selected: Option<usize>,
    pub status: Seq<char>,
    pub scroll: ScrollConfig,
    pub capturing: Option<usize>,
    pub capture_armed: bool,
    pub capture_note: Seq<char>,
}

impl View for EditorApp {
    type V = EditorView;

    open spec fn view(&self) -> EditorView {
        EditorView {
            devices: Seq::new(self.devices@.len(), |i: int| self.devices@[i]@),
            connected: mice(self.connected@),
            selected: self.selected,
            status: self.status@,
            scroll: self.scroll,
            capturing: self.capturing,
            capture_armed: self.capture_armed,
            capture_note: self.capture_note@,
        }
    }
}

// ---------------------------------------------------------------------------------------------
// Devices
// ---------------------------------------------------------------------------------------------
impl DeviceRowView {
    /// The device's identities in words.
    pub open spec fn ident_desc(self) -> Seq<char> {
        if self.identities.len() == 0 {
            "no identity"@
        } else {
            join(Seq::new(self.identities.len(), |i: int| self.identities[i].desc()), ", "@)
        }
    }

    /// Whether none of the identities has a key.
    pub open spec fn has_no_identity(self) -> bool {
        forall|i: int|
            0 <= i < self.identities.len() ==> (#[trigger] self.identities[i]).device_key() is None
    }

    /// What the device is called: its name, or its identities where it has none.
    pub open spec fn title(self) -> Seq<char> {
        if is_blank(self.name) {
            self.ident_desc()
        } else {
            self.name
        }
    }

    /// The name that heads the device's identities, if it has one.
    pub open spec fn heading(self) -> Option<Seq<char>> {
        if is_blank(self.name) {
            None
        } else {
            Some("· "@ + trim(self.name))
        }
    }

    /// Whether any identity of the device is connected.
    pub open spec fn connected_among(self, connected: Seq<MouseDeviceView>) -> bool {
        exists|i: int|
            0 <= i < self.identities.len() && (#[trigger] self.identities[i]).connected_among(
                connected,
            )
    }

    /// Whether a press came from one of the device's identities.
    pub open spec fn pressed_by(self, press: CapturedPress) -> bool {
        exists|i: int|
            0 <= i < self.identities.len() && press_matches(#[trigger] self.identities[i], press)
    }
}

/// Whether a press came from the device of an identity.
pub open spec fn press_matches(id: IdentityRowView, press: CapturedPress) -> bool {
    if id.vendor_id is Some && id.product_id is Some {
        press.vendor_id == id.vendor_id && press.product_id == id.product_id
    } else {
        id.registry_id == Some(press.registry)
    }
}

fn press_from(id: &IdentityRow, press: &CapturedPress) -> (r: bool)
    ensures
        r == press_matches(id@, *press),
{
    match (id.vendor_id, id.product_id) {
        (Some(v), Some(p)) => match (press.vendor_id, press.product_id) {
            (Some(pv), Some(pp)) => pv == v && pp == p,
            _ => false,
        },
        _ => match id.registry_id {
            Some(r) => r == press.registry,
            None => false,
        },
    }
}

impl DeviceRow {
    /// The device's identities in words, for display where it has no name.
    pub fn ident_desc(&self) -> (r: String)
        ensures
            r@ == self@.ident_desc(),
    {
        if self.identities.len() == 0 {
            return "no identity".to_owned();
        }
        let mut parts: Vec<String> = Vec::new();
        let n: usize = self.identities.len();
        let mut i: usize = 0;
        while i < n
            invariant
                i <= n == self.identities@.len(),
                parts@.len() == i,
                forall|j: int| 0 <= j < i ==> (#[trigger] parts@[j])@ == self@.identities[j].desc(),
            decreases n - i,
        {
            parts.push(self.identities[i].desc());
            i += 1;
        }
        assert(texts(parts@) =~= Seq::new(
            self@.identities.len(),
            |i: int| self@.identities[i].desc(),
        ));
        joined(&parts, ", ")
    }

    /// True where no identity has a usable key.
    pub fn has_no_identity(&self) -> (r: bool)
        ensures
            r == self@.has_no_identity(),
    {
        let n: usize = self.identities.len();
        let mut i: usize = 0;
        while i < n
            invariant
                i <= n == self.identities@.len(),
                forall|j: int|
                    0 <= j < i ==> (#[trigger] self@.identities[j]).device_key() is None,
            decreases n - i,
        {
            if self.identities[i].device_key().is_some() {
                assert(self@.identities[i as int].device_key() is Some);
                return false;
            }
            i += 1;
        }
        true
    }

    /// What the device is called.
    pub fn title(&self) -> (r: String)
        ensures
            r@ == self@.title(),
    {
        if blank(self.name.as_str()) {
            self.ident_desc()
        } else {
            self.name.clone()
        }
    }

    /// The name that heads the device's identities; none where it is blank.
    pub fn heading(&self) -> (r: Option<String>)
        ensures
            opt_text(r) == self@.heading(),
    {
        if blank(self.name.as_str()) {
            return None;
        }
        let mut s: String = "· ".to_owned();
        s.append(trimmed(self.name.as_str()));
        Some(s)
    }

    pub(crate) fn pressed(&self, press: &CapturedPress) -> (r: bool)
        ensures
            r == self@.pressed_by(*press),
    {
        let n: usize = self.identities.len();
        let mut i: usize = 0;
        while i < n
            invariant
                i <= n == self.identities@.len(),
                forall|j: int|
                    0 <= j < i ==> !press_matches(#[trigger] self@.identities[j], *press),
            decreases n - i,
        {
            if press_from(&self.identities[i], press) {
                assert(press_matches(self@.identities[i as int], *press));
                return true;
            }
            i += 1;
        }
        false
    }
}

// ---------------------------------------------------------------------------------------------
// From the configuration and back
// ---------------------------------------------------------------------------------------------
/// The row that shows an identity; where it has no label, that of its connection.
pub open spec fn identity_row(
    id: DeviceIdView,
    connected: Seq<MouseDeviceView>,
) -> IdentityRowView {
    let row = row_of_id(id);
    if is_blank(row.label) && row.auto_label(connected) is Some {
        IdentityRowView { label: row.auto_label(connected)->0, ..row }
    } else {
        row
    }
}

/// The row that shows a device.
pub open spec fn device_row(d: DeviceConfigView, connected: Seq<MouseDeviceView>) -> DeviceRowView {
    DeviceRowView {
        name: text_or_empty(d.name),
        identities: Seq::new(
            d.identities().len(),
            |i: int| identity_row(d.identities()[i], connected),
        ),
        mappings: Seq::new(d.mapping.len(), |i: int| mapping_row(d.mapping[i])),
        keys: Seq::new(d.key.len(), |i: int| key_row(d.key[i])),
    }
}

/// The editor as it opens on a configuration: the first device is selected.
pub open spec fn opened(config: ConfigView, connected: Seq<MouseDeviceView>) -> EditorView {
    EditorView {
        devices: Seq::new(config.device.len(), |i: int| device_row(config.device[i], connected)),
        connected,
        selected: if config.device.len() == 0 {
            None
        } else {
            Some(0)
        },
        status: Seq::empty(),
        scroll: config.scroll,
        capturing: None,
        capture_armed: false,
        capture_note: Seq::empty(),
    }
}

impl DeviceRowView {
    /// The device that a row stands for. Its identities are equal, so all of them stand in `also`;
    /// a blank name is none.
    pub open spec fn device_config(self) -> DeviceConfigView {
        DeviceConfigView {
            registry_id: None,
            vendor_id: None,
            product_id: None,
            also: Seq::new(self.identities.len(), |i: int| self.identities[i].device_id()),
            name: if is_blank(self.name) {
                None
            } else {
                Some(self.name)
            },
            mapping: Seq::new(self.mappings.len(), |i: int| self.mappings[i].mapping()),
            key: Seq::new(self.keys.len(), |i: int| self.keys[i].key_mapping()),
        }
    }
}

impl EditorView {
    /// The configuration that the editor would save.
    pub open spec fn config(self) -> ConfigView {
        ConfigView {
            scroll: self.scroll,
            device: Seq::new(self.devices.len(), |i: int| self.devices[i].device_config()),
        }
    }
}

fn open_identity(id: &DeviceId, connected: &Vec<MouseDevice>) -> (r: IdentityRow)
    ensures
        r@ == identity_row(id@, mice(connected@)),
{
    let mut row: IdentityRow = IdentityRow::from_device_id(id);
    if blank(row.label.as_str()) {
        if let Some(l) = row.auto_label(connected) {
            row.label = l;
        }
    }
    row
}

fn open_device(d: &DeviceConfig, connected: &Vec<MouseDevice>) -> (r: DeviceRow)
    ensures
        r@ == device_row(d@, mice(connected@)),
{
    let name: String = match &d.name {
        Some(n) => n.clone(),
        None => String::new(),
    };
    let ghost want = device_row(d@, mice(connected@));
    let ids: Vec<DeviceId> = d.identities();
    let mut identities: Vec<IdentityRow> = Vec::new();
    let n: usize = ids.len();
    let mut i: usize = 0;
    assert(want.identities.len() == n);
    while i < n
        invariant
            i <= n == ids@.len(),
            Seq::new(ids@.len(), |i: int| ids@[i]@) == d@.identities(),
            want == device_row(d@, mice(connected@)),
            identities@.len() == i,
            forall|j: int| 0 <= j < i ==> (#[trigger] identities@[j])@ == want.identities[j],
        decreases n - i,
    {
        assert(d@.identities()[i as int] == ids@[i as int]@);
        identities.push(open_identity(&ids[i], connected));
        i += 1;
    }
    let mut mappings: Vec<MappingRow> = Vec::new();
    let n: usize = d.mapping.len();
    let mut i: usize = 0;
    while i < n
        invariant
            i <= n == d.mapping@.len(),
            want == device_row(d@, mice(connected@)),
            mappings@.len() == i,
            forall|j: int| 0 <= j < i ==> (#[trigger] mappings@[j])@ == want.mappings[j],
        decreases n - i,
    {
        mappings.push(MappingRow::from_mapping(&d.mapping[i]));
        i += 1;
    }
    let mut keys: Vec<KeyRow> = Vec::new();
    let n: usize = d.key.len();
    let mut i: usize = 0;
    while i < n
        invariant
            i <= n == d.key@.len(),
            want == device_row(d@, mice(connected@)),
            keys@.len() == i,
            forall|j: int| 0 <= j < i ==> (#[trigger] keys@[j])@ == want.keys[j],
        decreases n - i,
    {
        keys.push(KeyRow::from_mapping(&d.key[i]));
        i += 1;
    }
    let r: DeviceRow = DeviceRow { name, identities, mappings, keys };
    assert(r@ =~= want);
    r
}

fn close_device(d: &DeviceRow) -> (r: DeviceConfig)
    ensures
        r@ == d@.device_config(),
{
    let name: Option<String> = if blank(d.name.as_str()) {
        None
    } else {
        Some(d.name.clone())
    };
    let ghost want = d@.device_config();
    let mut also: Vec<DeviceId> = Vec::new();
    let n: usize = d.identities.len();
    let mut i: usize = 0;
    while i < n
        invariant
            i <= n == d.identities@.len(),
            want == d@.device_config(),
            also@.len() == i,
            forall|j: int| 0 <= j < i ==> (#[trigger] also@[j])@ == want.also[j],
        decreases n - i,
    {
        also.push(d.identities[i].to_device_id());
        i += 1;
    }
    let mut mapping: Vec<Mapping> = Vec::new();
    let n: usize = d.mappings.len();
    let mut i: usize = 0;
    while i < n
        invariant
            i <= n == d.mappings@.len(),
            want == d@.device_config(),
            mapping@.len() == i,
            forall|j: int| 0 <= j < i ==> (#[trigger] mapping@[j])@ == want.mapping[j],
        decreases n - i,
    {
        mapping.push(d.mappings[i].to_mapping());
        i += 1;
    }
    let mut key: Vec<KeyMapping> = Vec::new();
    let n: usize = d.keys.len();
    let mut i: usize = 0;
    while i < n
        invariant
            i <= n == d.keys@.len(),
            want == d@.device_config(),
            key@.len() == i,
            forall|j: int| 0 <= j < i ==> (#[trigger] key@[j])@ == want.key[j],
        decreases n - i,
    {
        key.push(d.keys[i].to_key_mapping());
        i += 1;
    }
    let r: DeviceConfig = DeviceConfig {
        registry_id: None,
        vendor_id: None,
        product_id: None,
        also,
        name,
        mapping,
        key,
    };
    assert(r@ =~= want);
    r
}

impl EditorApp {
    /// Opens the editor on a configuration, with the devices that are connected.
    pub fn new(config: Config, connected: Vec<MouseDevice>) -> (r: Self)
        ensures
            r@ == opened(config@, mice(connected@)),
    {
        let ghost want = opened(config@, mice(connected@));
        let mut devices: Vec<DeviceRow> = Vec::new();
        let n: usize = config.device.len();
        let mut i: usize = 0;
        while i < n
            invariant
                i <= n == config.device@.len(),
                want == opened(config@, mice(connected@)),
                devices@.len() == i,
                forall|j: int| 0 <= j < i ==> (#[trigger] devices@[j])@ == want.devices[j],
            decreases n - i,
        {
            devices.push(open_device(&config.device[i], &connected));
            i += 1;
        }
        let selected: Option<usize> = if n == 0 {
            None
        } else {
            Some(0)
        };
        let r: EditorApp = EditorApp {
            devices,
            connected,
            selected,
            status: String::new(),
            scroll: config.scroll,
            capturing: None,
            capture_armed: false,
            capture_note: String::new(),
        };
        assert(r@ =~= want);
        r
    }

    /// The configuration to save.
    pub fn to_config(&self) -> (r: Config)
        ensures
            r@ == self@.config(),
    {
        let ghost want = self@.config();
        let mut device: Vec<DeviceConfig> = Vec::new();
        let n: usize = self.devices.len();
        let mut i: usize = 0;
        while i < n
            invariant
                i <= n == self.devices@.len(),
                want == self@.config(),
                device@.len() == i,
                forall|j: int| 0 <= j < i ==> (#[trigger] device@[j])@ == want.device[j],
            decreases n - i,
        {
            device.push(close_device(&self.devices[i]));
            i += 1;
        }
        let r: Config = Config { scroll: self.scroll, device };
        assert(r@ =~= want);
        r
    }

    /// Is the device of an identity connected?
    pub fn identity_connected(&self, id: &IdentityRow) -> (r: bool)
        ensures
            r == id@.connected_among(self@.connected),
    {
        id.is_connected(&self.connected)
    }

    /// Is any identity of a device connected?
    pub fn is_connected(&self, dev: &DeviceRow) -> (r: bool)
        ensures
            r == dev@.connected_among(self@.connected),
    {
        let n: usize = dev.identities.len();
        let mut i: usize = 0;
        while i < n
            invariant
                i <= n == dev.identities@.len(),
                forall|j: int|
                    0 <= j < i ==> !(#[trigger] dev@.identities[j]).connected_among(
                        self@.connected,
                    ),
            decreases n - i,
        {
            if self.identity_connected(&dev.identities[i]) {
                assert(dev@.identities[i as int].connected_among(self@.connected));
                return true;
            }
            i += 1;
        }
        false
    }
}

} // verus!
