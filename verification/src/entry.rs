use vstd::prelude::*;

verus! {

/// Broad category of a favorited item, used by the HUD to pick an icon.
#[derive(Clone, Copy, Debug, PartialEq, Eq, Structural, Hash)]
pub enum EntryKind {
    Empty,
    Weapon,
    Spell,
    Shout,
    Power,
    Consumable,
    Armor,
}

/// One favorited item in a cycle: a stable identity, a display name, and
/// presentation hints. Built fully-formed by the host; the core never
/// fabricates identity fields. The default value is the sentinel "no item"
/// entry that stands in wherever a slot has nothing to offer.
#[derive(Debug, Hash)]
pub struct CycleEntry {
    /// Stable identity of the underlying item.
    pub form_string: String,
    /// Display name shown in notifications and on the HUD.
    pub name: String,
    /// Icon category hint.
    pub kind: EntryKind,
    /// Packed RGBA color hint.
    pub color: u32,
}

/// Full-value equality of two entries: identity, name, and both
/// presentation hints must agree. This is the key for the "already in the
/// cycle" check that `toggle` performs.
pub open spec fn entry_eq(a: CycleEntry, b: CycleEntry) -> bool {
    a.form_string@ == b.form_string@ && a.name@ == b.name@ && a.kind == b.kind && a.color
        == b.color
}

/// The sentinel "no item" entry: empty identity and name, empty kind,
/// zero color.
pub open spec fn is_empty_entry(e: CycleEntry) -> bool {
    e.form_string@ == Seq::<char>::empty() && e.name@ == Seq::<char>::empty() && e.kind
        == EntryKind::Empty && e.color == 0
}

impl PartialEq for CycleEntry {
    fn eq(&self, other: &Self) -> (r: bool) {
        self.form_string == other.form_string && self.name == other.name && self.kind
            == other.kind && self.color == other.color
    }
}

impl vstd::std_specs::cmp::PartialEqSpecImpl for CycleEntry {
    open spec fn obeys_eq_spec() -> bool {
        true
    }

    open spec fn eq_spec(&self, other: &Self) -> bool {
        entry_eq(*self, *other)
    }
}

impl Clone for CycleEntry {
    fn clone(&self) -> (r: Self)
        ensures
            r == *self,
    {
        CycleEntry {
            form_string: self.form_string.clone(),
            name: self.name.clone(),
            kind: self.kind,
            color: self.color,
        }
    }
}

impl Default for CycleEntry {
    /// The sentinel empty entry.
    fn default() -> (r: Self)
        ensures
            is_empty_entry(r),
    {
        CycleEntry {
            form_string: String::new(),
            name: String::new(),
            kind: EntryKind::Empty,
            color: 0,
        }
    }
}

} // verus!
