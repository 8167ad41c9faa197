use vstd::prelude::*;

verus! {

/// What a raw key press means to the controller, given the user's current
/// key bindings. The four slot actions name a cycle; `Activate` fires the
/// current utility selection; `ShowHide` toggles HUD visibility;
/// `Irrelevant` is the catch-all for unbound keys and is a no-op everywhere.
#[derive(Clone, Copy, Debug, PartialEq, Eq, Structural, Hash)]
pub enum Action {
    Power,
    Utility,
    Left,
    Right,
    Activate,
    ShowHide,
    Irrelevant,
}

/// The key bindings and flags the controller reads from the user's
/// configuration. The host's settings store supplies these as plain values;
/// the core only consumes them.
#[derive(Clone, Copy, Debug, PartialEq, Eq, Structural)]
pub struct Settings {
    pub left: u32,
    pub right: u32,
    pub power: u32,
    pub utility: u32,
    pub activate: u32,
    pub showhide: u32,
    /// Whether the HUD fades out when idle and key presses re-reveal it.
    pub fade: bool,
}

/// The action a raw key code classifies to under the given bindings, with
/// earlier bindings winning when one key is bound to several actions:
/// left, then right, power, utility, activate, show/hide.
pub open spec fn classify(key: u32, settings: Settings) -> Action {
    if key == settings.left {
        Action::Left
    } else if key == settings.right {
        Action::Right
    } else if key == settings.power {
        Action::Power
    } else if key == settings.utility {
        Action::Utility
    } else if key == settings.activate {
        Action::Activate
    } else if key == settings.showhide {
        Action::ShowHide
    } else {
        Action::Irrelevant
    }
}

/// True exactly for the four actions that name a cycle slot.
pub open spec fn is_slot(a: Action) -> bool {
    a == Action::Power || a == Action::Utility || a == Action::Left || a == Action::Right
}

/// Turn a raw key code into an `Action` using the current bindings.
pub fn action_for_key(key: u32, settings: &Settings) -> (r: Action)
    ensures
        r == classify(key, *settings),
{
    if key == settings.left {
        Action::Left
    } else if key == settings.right {
        Action::Right
    } else if key == settings.power {
        Action::Power
    } else if key == settings.utility {
        Action::Utility
    } else if key == settings.activate {
        Action::Activate
    } else if key == settings.showhide {
        Action::ShowHide
    } else {
        Action::Irrelevant
    }
}

} // verus!
