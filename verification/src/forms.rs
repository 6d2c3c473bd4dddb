//! The editor's forms: editable counterparts of actions, mappings and identities, and the way
//! between the two.

use vstd::prelude::*;
use vstd::string::*;

use crate::config::{
    desc_of, identity_desc, identity_key, key_of, opt_text, Action, ActionView, DeviceId,
    DeviceIdView, KeyMapping, KeyMappingView, Mapping, MappingView,
};
use crate::hid::{friendly_transport, mice, transport_label, MouseDevice, MouseDeviceView};
use crate::keymap::{combine_mods, flags_named, EventFlags};
use crate::text::{blank, is_blank, texts, trim, trimmed};
use crate::validate::line_if;

verus! {

/// Which action a mapping row stands for.
#[derive(Clone, Copy, Debug, PartialEq, Eq, Structural)]
pub enum ActionKind {
    Keystroke,
    Button,
    Disabled,
}

/// The modifiers that the editor offers.
#[derive(Clone, Copy, Debug, PartialEq, Eq, Structural)]
pub struct ModSet {
    pub cmd: bool,
    pub shift: bool,
    pub opt: bool,
    pub ctrl: bool,
}

/// No modifier ticked.
pub open spec fn no_mods() -> ModSet {
    ModSet { cmd: false, shift: false, opt: false, ctrl: false }
}

/// The offered modifiers that a list of names stands for.
pub open spec fn mods_named(mods: Seq<Seq<char>>) -> ModSet {
    ModSet {
        cmd: flags_named(mods).command,
        shift: flags_named(mods).shift,
        opt: flags_named(mods).alternate,
        ctrl: flags_named(mods).control,
    }
}

impl ModSet {
    /// The names of the ticked modifiers, in a fixed order.
    pub open spec fn names(self) -> Seq<Seq<char>> {
        line_if(self.cmd, "cmd"@) + line_if(self.shift, "shift"@) + line_if(self.opt, "opt"@)
            + line_if(self.ctrl, "ctrl"@)
    }

    /// The offered modifiers among a list of names, in any ASCII case; other names are ignored.
    pub fn from_slice(mods: &[String]) -> (r: Self)
        ensures
            r == mods_named(texts(mods@)),
    {
        let f: EventFlags = combine_mods(mods);
        ModSet { cmd: f.command, shift: f.shift, opt: f.alternate, ctrl: f.control }
    }

    /// The names of the ticked modifiers.
    pub fn to_vec(&self) -> (r: Vec<String>)
        ensures
            texts(r@) == self.names(),
    {
        let mut v: Vec<String> = Vec::new();
        if self.cmd {
            v.push("cmd".to_owned());
        }
        if self.shift {
            v.push("shift".to_owned());
        }
        if self.opt {
            v.push("opt".to_owned());
        }
        if self.ctrl {
            v.push("ctrl".to_owned());
        }
        assert(texts(v@) =~= self.names());
        v
    }
}

impl Default for ModSet {
    fn default() -> (r: Self)
        ensures
            r == no_mods(),
    {
        ModSet { cmd: false, shift: false, opt: false, ctrl: false }
    }
}

/// The action half of a mapping row. The fields of the kinds that are not chosen keep their values.
#[derive(Debug)]
pub struct ActionForm {
    pub kind: ActionKind,
    pub key: String,
    pub mods: ModSet,
    pub target_button: i64,
}

#[verifier::ext_equal]
pub struct ActionFormView {
    pub kind: ActionKind,
    pub key: Seq<char>,
    pub mods: ModSet,
    pub target_button: i64,
}

impl View for ActionForm {
    type V = ActionFormView;

    open spec fn view(&self) -> ActionFormView {
        ActionFormView {
            kind: self.kind,
            key: self.key@,
            mods: self.mods,
            target_button: self.target_button,
        }
    }
}

impl Clone for ActionForm {
    fn clone(&self) -> (r: Self)
        ensures
            r@ == self@,
    {
        ActionForm {
            kind: self.kind,
            key: self.key.clone(),
            mods: self.mods,
            target_button: self.target_button,
        }
    }
}

/// The form of a new row.
pub open spec fn disabled_form() -> ActionFormView {
    ActionFormView {
        kind: ActionKind::Disabled,
        key: Seq::empty(),
        mods: no_mods(),
        target_button: 2,
    }
}

/// The form that shows an action.
pub open spec fn form_of(action: ActionView) -> ActionFormView {
    match action {
        ActionView::Keystroke { key, mods } => ActionFormView {
            kind: ActionKind::Keystroke,
            key,
            mods: mods_named(mods),
            ..disabled_form()
        },
        ActionView::Button { button } => ActionFormView {
            kind: ActionKind::Button,
            target_button: button,
            ..disabled_form()
        },
        ActionView::Disabled => disabled_form(),
    }
}

impl ActionFormView {
    /// The action that a form stands for.
    pub open spec fn action(self) -> ActionView {
        match self.kind {
            ActionKind::Keystroke => ActionView::Keystroke {
                key: self.key,
                mods: self.mods.names(),
            },
            ActionKind::Button => ActionView::Button { button: self.target_button },
            ActionKind::Disabled => ActionView::Disabled,
        }
    }
}

impl ActionForm {
    /// The form of a new row: the trigger is swallowed.
    pub fn disabled() -> (r: Self)
        ensures
            r@ == disabled_form(),
    {
        ActionForm {
            kind: ActionKind::Disabled,
            key: String::new(),
            mods: ModSet::default(),
            target_button: 2,
        }
    }

    /// The form that shows an action.
    pub fn from_action(action: &Action) -> (r: Self)
        ensures
            r@ == form_of(action@),
    {
        let mut f: ActionForm = ActionForm::disabled();
        match action {
            Action::Keystroke { key, mods } => {
                f.kind = ActionKind::Keystroke;
                f.key = key.clone();
                f.mods = ModSet::from_slice(mods.as_slice());
            },
            Action::Button { button } => {
                f.kind = ActionKind::Button;
                f.target_button = *button;
            },
            Action::Disabled => {},
        }
        f
    }

    /// The action that the form stands for.
    pub fn to_action(&self) -> (r: Action)
        ensures
            r@ == self@.action(),
    {
        match self.kind {
            ActionKind::Keystroke => Action::Keystroke {
                key: self.key.clone(),
                mods: self.mods.to_vec(),
            },
            ActionKind::Button => Action::Button { button: self.target_button },
            ActionKind::Disabled => Action::Disabled,
        }
    }
}

/// Editable form of a button mapping.
#[derive(Debug)]
pub struct MappingRow {
    pub button: i64,
    pub action: ActionForm,
}

#[verifier::ext_equal]
pub struct MappingRowView {
    pub button: i64,
    pub action: ActionFormView,
}

impl View for MappingRow {
    type V = MappingRowView;

    open spec fn view(&self) -> MappingRowView {
        MappingRowView { button: self.button, action: self.action@ }
    }
}

/// The row that shows a button mapping.
pub open spec fn mapping_row(m: MappingView) -> MappingRowView {
    MappingRowView { button: m.button, action: form_of(m.action) }
}

impl MappingRowView {
    /// The button mapping that a row stands for.
    pub open spec fn mapping(self) -> MappingView {
        MappingView { button: self.button, action: self.action.action() }
    }
}

impl MappingRow {
    /// The row that shows a button mapping.
    pub fn from_mapping(m: &Mapping) -> (r: Self)
        ensures
            r@ == mapping_row(m@),
    {
        MappingRow { button: m.button, action: ActionForm::from_action(&m.action) }
    }

    /// The button mapping that the row stands for.
    pub fn to_mapping(&self) -> (r: Mapping)
        ensures
            r@ == self@.mapping(),
    {
        Mapping { button: self.button, action: self.action.to_action() }
    }
}

/// Editable form of a keystroke mapping.
#[derive(Debug)]
pub struct KeyRow {
    pub source: String,
    pub action: ActionForm,
}

#[verifier::ext_equal]
pub struct KeyRowView {
    pub source: Seq<char>,
    pub action: ActionFormView,
}

impl View for KeyRow {
    type V = KeyRowView;

    open spec fn view(&self) -> KeyRowView {
        KeyRowView { source: self.source@, action: self.action@ }
    }
}

/// The row that shows a keystroke mapping.
pub open spec fn key_row(k: KeyMappingView) -> KeyRowView {
    KeyRowView { source: k.key, action: form_of(k.action) }
}

impl KeyRowView {
    /// The keystroke mapping that a row stands for.
    pub open spec fn key_mapping(self) -> KeyMappingView {
        KeyMappingView { key: self.source, action: self.action.action() }
    }
}

impl KeyRow {
    /// The row that shows a keystroke mapping.
    pub fn from_mapping(k: &KeyMapping) -> (r: Self)
        ensures
            r@ == key_row(k@),
    {
        KeyRow { source: k.key.clone(), action: ActionForm::from_action(&k.action) }
    }

    /// The keystroke mapping that the row stands for.
    pub fn to_key_mapping(&self) -> (r: KeyMapping)
        ensures
            r@ == self@.key_mapping(),
    {
        KeyMapping { key: self.source.clone(), action: self.action.to_action() }
    }
}

/// Editable form of an identity. All identities of a device are equal.
#[derive(Debug)]
pub struct IdentityRow {
    pub label: String,
    pub registry_id: Option<u64>,
    pub vendor_id: Option<i64>,
    pub product_id: Option<i64>,
}

#[verifier::ext_equal]
pub struct IdentityRowView {
    pub label: Seq<char>,
    pub registry_id: Option<u64>,
    pub vendor_id: Option<i64>,
    pub product_id: Option<i64>,
}

impl View for IdentityRow {
    type V = IdentityRowView;

    open spec fn view(&self) -> IdentityRowView {
        IdentityRowView {
            label: self.label@,
            registry_id: self.registry_id,
            vendor_id: self.vendor_id,
            product_id: self.product_id,
        }
    }
}

impl Clone for IdentityRow {
    fn clone(&self) -> (r: Self)
        ensures
            r@ == self@,
    {
        IdentityRow {
            label: self.label.clone(),
            registry_id: self.registry_id,
            vendor_id: self.vendor_id,
            product_id: self.product_id,
        }
    }
}

/// A row without any data.
pub open spec fn empty_identity() -> IdentityRowView {
    IdentityRowView { label: Seq::empty(), registry_id: None, vendor_id: None, product_id: None }
}

impl Default for IdentityRow {
    fn default() -> (r: Self)
        ensures
            r@ == empty_identity(),
    {
        IdentityRow { label: String::new(), registry_id: None, vendor_id: None, product_id: None }
    }
}

/// A text that may be missing, empty where it is.
pub open spec fn text_or_empty(t: Option<Seq<char>>) -> Seq<char> {
    match t {
        Some(t) => t,
        None => Seq::empty(),
    }
}

/// The row that shows an identity.
pub open spec fn row_of_id(id: DeviceIdView) -> IdentityRowView {
    IdentityRowView {
        label: text_or_empty(id.label),
        registry_id: id.registry_id,
        vendor_id: id.vendor_id,
        product_id: id.product_id,
    }
}

/// The first of the connected devices that an identity refers to.
pub open spec fn first_match(id: IdentityRowView, connected: Seq<MouseDeviceView>) -> Option<
    MouseDeviceView,
>
    decreases connected.len(),
{
    if connected.len() == 0 {
        None
    } else if id.matches(connected[0]) {
        Some(connected[0])
    } else {
        first_match(id, connected.drop_first())
    }
}

impl IdentityRowView {
    /// The identity that a row stands for; a blank label is none.
    pub open spec fn device_id(self) -> DeviceIdView {
        DeviceIdView {
            label: if is_blank(self.label) {
                None
            } else {
                Some(trim(self.label))
            },
            registry_id: self.registry_id,
            vendor_id: self.vendor_id,
            product_id: self.product_id,
        }
    }

    pub open spec fn device_key(self) -> Option<u64> {
        key_of(self.registry_id, self.vendor_id, self.product_id)
    }

    pub open spec fn desc(self) -> Seq<char> {
        desc_of(self.registry_id, self.vendor_id, self.product_id)
    }

    /// Whether the identity refers to a connected device: by vendor and product where it has both,
    /// else by registry id.
    pub open spec fn matches(self, c: MouseDeviceView) -> bool {
        if self.vendor_id is Some && self.product_id is Some {
            c.vendor_id == self.vendor_id && c.product_id == self.product_id
        } else {
            self.registry_id is Some && c.registry_entry_id == self.registry_id
        }
    }

    /// Whether any of the connected devices is the one that the identity refers to.
    pub open spec fn connected_among(self, connected: Seq<MouseDeviceView>) -> bool {
        exists|i: int| 0 <= i < connected.len() && self.matches(#[trigger] connected[i])
    }

    /// The label of the connection of the device that the identity refers to.
    pub open spec fn auto_label(self, connected: Seq<MouseDeviceView>) -> Option<Seq<char>> {
        match first_match(self, connected) {
            Some(c) => transport_label(c.transport),
            None => None,
        }
    }

    /// The label to show: that of the connection, or else the one last stored.
    pub open spec fn display_label(self, connected: Seq<MouseDeviceView>) -> Seq<char> {
        match self.auto_label(connected) {
            Some(l) => l,
            None => trim(self.label),
        }
    }
}

impl IdentityRow {
    /// The row that shows an identity.
    pub fn from_device_id(id: &DeviceId) -> (r: Self)
        ensures
            r@ == row_of_id(id@),
    {
        let label: String = match &id.label {
            Some(l) => l.clone(),
            None => String::new(),
        };
        IdentityRow {
            label,
            registry_id: id.registry_id,
            vendor_id: id.vendor_id,
            product_id: id.product_id,
        }
    }

    /// The identity that the row stands for.
    pub fn to_device_id(&self) -> (r: DeviceId)
        ensures
            r@ == self@.device_id(),
    {
        let label: Option<String> = if blank(self.label.as_str()) {
            None
        } else {
            Some(trimmed(self.label.as_str()).to_owned())
        };
        DeviceId {
            label,
            registry_id: self.registry_id,
            vendor_id: self.vendor_id,
            product_id: self.product_id,
        }
    }

    /// The identity's lookup key.
    pub fn device_key(&self) -> (r: Option<u64>)
        ensures
            r == self@.device_key(),
    {
        identity_key(self.registry_id, self.vendor_id, self.product_id)
    }

    /// The identity in words.
    pub fn desc(&self) -> (r: String)
        ensures
            r@ == self@.desc(),
    {
        identity_desc(self.registry_id, self.vendor_id, self.product_id)
    }

    /// Does this identity refer to the given connected device?
    pub fn matches(&self, c: &MouseDevice) -> (r: bool)
        ensures
            r == self@.matches(c@),
    {
        if let (Some(v), Some(p)) = (self.vendor_id, self.product_id) {
            match (c.vendor_id, c.product_id) {
                (Some(cv), Some(cp)) => cv == v && cp == p,
                _ => false,
            }
        } else if let Some(r) = self.registry_id {
            match c.registry_entry_id {
                Some(cr) => cr == r,
                None => false,
            }
        } else {
            false
        }
    }

    /// Is the device that this identity refers to connected?
    pub fn is_connected(&self, connected: &Vec<MouseDevice>) -> (r: bool)
        ensures
            r == self@.connected_among(mice(connected@)),
    {
        let n: usize = connected.len();
        let mut i: usize = 0;
        while i < n
            invariant
                i <= n == connected@.len(),
                forall|j: int| 0 <= j < i ==> !self@.matches(#[trigger] mice(connected@)[j]),
            decreases n - i,
        {
            if self.matches(&connected[i]) {
                assert(self@.matches(mice(connected@)[i as int]));
                return true;
            }
            i += 1;
        }
        false
    }

    /// The label of the connection of the device that this identity refers to, if it is connected.
    pub fn auto_label(&self, connected: &Vec<MouseDevice>) -> (r: Option<String>)
        ensures
            opt_text(r) == self@.auto_label(mice(connected@)),
    {
        let ghost cs = mice(connected@);
        let n: usize = connected.len();
        let mut i: usize = 0;
        assert(cs.skip(0) =~= cs);
        while i < n
            invariant
                i <= n == connected@.len(),
                cs == mice(connected@),
                first_match(self@, cs.skip(i as int)) == first_match(self@, cs),
            decreases n - i,
        {
            assert(cs.skip(i as int).drop_first() =~= cs.skip(i + 1));
            if self.matches(&connected[i]) {
                return friendly_transport(&connected[i].transport);
            }
            i += 1;
        }
        None
    }

    /// The label to show for this identity.
    pub fn display_label(&self, connected: &Vec<MouseDevice>) -> (r: String)
        ensures
            r@ == self@.display_label(mice(connected@)),
    {
        match self.auto_label(connected) {
            Some(l) => l,
            None => trimmed(self.label.as_str()).to_owned(),
        }
    }
}

} // verus!
