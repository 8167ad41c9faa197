use vstd::prelude::*;
use vstd::string::StringExecFns;

use crate::action::{is_slot, Action};
use crate::cycles::{rotated, toggle_outcome, toggled, CycleData, MenuEventResponse};
use crate::entry::{is_empty_entry, CycleEntry};

verus! {

/// What the controller did with a key event, for the layers above: whether
/// the event was consumed, and which per-slot ready-delay timers the host
/// must start or stop (`Irrelevant` meaning none).
#[derive(Clone, Copy, Debug, PartialEq, Eq, Structural, Hash)]
pub struct KeyEventResponse {
    pub handled: bool,
    pub start_timer: Action,
    pub stop_timer: Action,
}

impl Default for KeyEventResponse {
    /// The zero-value response: not handled, no timers touched.
    fn default() -> (r: Self)
        ensures
            r == (KeyEventResponse {
                handled: false,
                start_timer: Action::Irrelevant,
                stop_timer: Action::Irrelevant,
            }),
    {
        Self {
            handled: false,
            stop_timer: Action::Irrelevant,
            start_timer: Action::Irrelevant,
        }
    }
}

/// A side effect the host must perform for the controller. The controller
/// never touches the HUD or the screen itself; it hands one of these back
/// beside the response value.
#[derive(Clone, Copy, Debug, PartialEq, Eq, Structural, Hash)]
pub enum HudCommand {
    /// Nothing to do beyond what the response value already says.
    NoEffect,
    /// Fade the HUD back in to full visibility.
    Reveal,
    /// Toggle HUD visibility.
    ToggleVisibility,
}

/// The up/down state of the button behind a key event, as the host's input
/// layer delivers it.
#[derive(Clone, Copy, Debug, PartialEq, Eq, Structural)]
pub struct ButtonState {
    pub is_down: bool,
    pub is_up: bool,
}

/// Reported by operations whose behavior is reserved but not designed yet,
/// so that callers fail loudly instead of mistaking silence for work done.
#[derive(Clone, Copy, Debug, PartialEq, Eq, Structural)]
pub struct NotImplemented;

/// The fade gate: while the user has fade-based show/hide enabled and the
/// HUD is not mid-transition, any key event other than show/hide is
/// consumed to re-reveal the HUD instead of acting on a cycle.
pub open spec fn fade_gate(action: Action, fade_enabled: bool, is_transitioning: bool) -> bool {
    action != Action::ShowHide && fade_enabled && !is_transitioning
}

/// The verb of the notification shown after a toggle.
pub open spec fn toggle_verb(result: MenuEventResponse) -> Seq<char> {
    match result {
        MenuEventResponse::ItemAdded => "added to"@,
        MenuEventResponse::ItemRemoved => "removed from"@,
        MenuEventResponse::NoChange => "not changed in"@,
    }
}

/// The name under which a slot's cycle is mentioned to the player.
pub open spec fn cycle_label(action: Action) -> Seq<char> {
    match action {
        Action::Power => "powers"@,
        Action::Left => "left-hand"@,
        Action::Right => "right-hand"@,
        Action::Utility => "utility items"@,
        _ => "any"@,
    }
}

/// The notification the player sees after a toggle: the item's name, what
/// happened, and which cycle it happened to.
pub fn toggle_notification(result: MenuEventResponse, action: Action, item: &CycleEntry) -> (msg:
    String)
    ensures
        msg@ == item.name@ + " "@ + toggle_verb(result) + " "@ + cycle_label(action) + " cycle"@,
{
    let verb: &str = match result {
        MenuEventResponse::ItemAdded => "added to",
        MenuEventResponse::ItemRemoved => "removed from",
        MenuEventResponse::NoChange => "not changed in",
    };
    let label: &str = match action {
        Action::Power => "powers",
        Action::Left => "left-hand",
        Action::Right => "right-hand",
        Action::Utility => "utility items",
        _ => "any",
    };
    let mut msg = item.name.clone();
    msg.append(" ");
    msg.append(verb);
    msg.append(" ");
    msg.append(label);
    msg.append(" cycle");
    proof {
        assert(msg@ =~= item.name@ + " "@ + toggle_verb(result) + " "@ + cycle_label(action)
            + " cycle"@);
    }
    msg
}

/// Hand out a copy of a tracked equipped entry, or the sentinel empty
/// entry where nothing is tracked.
fn cloned_or_empty(tracked_entry: &Option<CycleEntry>) -> (r: CycleEntry)
    ensures
        match *tracked_entry {
            Some(e) => r == e,
            None => is_empty_entry(r),
        },
{
    match tracked_entry {
        Some(e) => e.clone(),
        None => CycleEntry::default(),
    }
}

/// The single authoritative owner of cycle state: one `CycleData` plus the
/// advisory record of what is currently equipped in each slot. The host
/// keeps one controller per session and routes every event through it.
#[derive(Debug)]
pub struct Controller {
    /// Our currently-active cycles.
    cycles: CycleData,
    equipped_power: Option<CycleEntry>,
    equipped_utility: Option<CycleEntry>,
    equipped_left: Option<CycleEntry>,
    equipped_right: Option<CycleEntry>,
}

impl Controller {
    /// The rotation of the given slot.
    pub closed spec fn cycle_slot(&self, which: Action) -> Seq<CycleEntry> {
        self.cycles.slot(which)
    }

    /// The entry tracked as equipped in the given slot; actions without an
    /// equip slot track nothing.
    pub closed spec fn equipped(&self, which: Action) -> Option<CycleEntry> {
        match which {
            Action::Power => self.equipped_power,
            Action::Utility => self.equipped_utility,
            Action::Left => self.equipped_left,
            Action::Right => self.equipped_right,
            _ => None::<CycleEntry>,
        }
    }

    /// The cycles are duplicate-free.
    pub closed spec fn wf(&self) -> bool {
        self.cycles.wf()
    }

    /// Make a controller from whatever the persistence layer recovered:
    /// the stored cycles where the store was readable, empty cycles where
    /// it was missing or corrupt. Construction itself never fails, so a
    /// damaged store can never prevent startup. Nothing is tracked as
    /// equipped yet.
    pub fn new(stored: Option<CycleData>) -> (r: Controller)
        requires
            stored matches Some(d) ==> d.wf(),
        ensures
            r.wf(),
            stored matches Some(d) ==> forall|a: Action| r.cycle_slot(a) == d.slot(a),
            stored is None ==> forall|a: Action| r.cycle_slot(a) == Seq::<CycleEntry>::empty(),
            forall|a: Action| r.equipped(a) is None,
    {
        let cycles = match stored {
            Some(d) => d,
            None => CycleData::new(),
        };
        Controller {
            cycles,
            equipped_power: None,
            equipped_utility: None,
            equipped_left: None,
            equipped_right: None,
        }
    }

    /// The entry currently equipped in the given slot, or the sentinel
    /// empty entry for slots with no equip history and for actions without
    /// an equip slot. Read-only.
    pub fn equipped_in_slot(&self, slot: Action) -> (r: Box<CycleEntry>)
        ensures
            match self.equipped(slot) {
                Some(e) => *r == e,
                None => is_empty_entry(*r),
            },
    {
        let candidate = match slot {
            Action::Power => cloned_or_empty(&self.equipped_power),
            Action::Utility => cloned_or_empty(&self.equipped_utility),
            Action::Left => cloned_or_empty(&self.equipped_left),
            Action::Right => cloned_or_empty(&self.equipped_right),
            _ => CycleEntry::default(),
        };
        Box::new(candidate)
    }

    /// The entries of one slot's cycle, top first, for display layers.
    pub fn cycle_entries(&self, which: Action) -> (r: Vec<CycleEntry>)
        ensures
            r@ == self.cycle_slot(which),
    {
        self.cycles.entries(which)
    }

    /// Handle a key event the host classified for us.
    ///
    /// While the fade gate holds, the event is consumed to re-reveal the
    /// HUD and nothing else happens. Otherwise a slot action advances that
    /// slot's cycle by one and asks the host to start the slot's
    /// ready-delay timer; activate asks the host to stop the utility
    /// timer; show/hide asks the host to toggle HUD visibility; an
    /// irrelevant key is a pure no-op. Equip tracking never changes here.
    pub fn handle_key_event(
        &mut self,
        action: Action,
        _button: &ButtonState,
        fade_enabled: bool,
        is_transitioning: bool,
    ) -> (r: (KeyEventResponse, HudCommand))
        requires
            old(self).wf(),
        ensures
            final(self).wf(),
            forall|a: Action| final(self).equipped(a) == old(self).equipped(a),
            fade_gate(action, fade_enabled, is_transitioning) ==> r.0 == (KeyEventResponse {
                handled: true,
                start_timer: Action::Irrelevant,
                stop_timer: Action::Irrelevant,
            }) && r.1 == HudCommand::Reveal && forall|a: Action|
                final(self).cycle_slot(a) == old(self).cycle_slot(a),
            !fade_gate(action, fade_enabled, is_transitioning) && is_slot(action) ==> r.0 == (
            KeyEventResponse {
                handled: true,
                start_timer: action,
                stop_timer: Action::Irrelevant,
            }) && r.1 == HudCommand::NoEffect && final(self).cycle_slot(action) == rotated(
                old(self).cycle_slot(action),
                1,
            ) && forall|a: Action|
                a != action ==> final(self).cycle_slot(a) == old(self).cycle_slot(a),
            action == Action::Activate && !fade_gate(action, fade_enabled, is_transitioning)
                ==> r.0 == (KeyEventResponse {
                handled: true,
                start_timer: Action::Irrelevant,
                stop_timer: Action::Utility,
            }) && r.1 == HudCommand::NoEffect && forall|a: Action|
                final(self).cycle_slot(a) == old(self).cycle_slot(a),
            action == Action::ShowHide ==> r.0 == (KeyEventResponse {
                handled: true,
                start_timer: Action::Irrelevant,
                stop_timer: Action::Irrelevant,
            }) && r.1 == HudCommand::ToggleVisibility && forall|a: Action|
                final(self).cycle_slot(a) == old(self).cycle_slot(a),
            action == Action::Irrelevant && !fade_gate(action, fade_enabled, is_transitioning)
                ==> r.0 == (KeyEventResponse {
                handled: false,
                start_timer: Action::Irrelevant,
                stop_timer: Action::Irrelevant,
            }) && r.1 == HudCommand::NoEffect && forall|a: Action|
                final(self).cycle_slot(a) == old(self).cycle_slot(a),
    {
        if !matches!(action, Action::ShowHide) && fade_enabled && !is_transitioning {
            return (
                KeyEventResponse {
                    handled: true,
                    start_timer: Action::Irrelevant,
                    stop_timer: Action::Irrelevant,
                },
                HudCommand::Reveal,
            );
        }
        match action {
            Action::Power | Action::Utility | Action::Left | Action::Right => {
                let _next = self.cycles.advance(action, 1);
                (
                    KeyEventResponse {
                        handled: true,
                        start_timer: action,
                        stop_timer: Action::Irrelevant,
                    },
                    HudCommand::NoEffect,
                )
            },
            Action::Activate => (
                KeyEventResponse {
                    handled: true,
                    start_timer: Action::Irrelevant,
                    stop_timer: Action::Utility,
                },
                HudCommand::NoEffect,
            ),
            Action::ShowHide => (
                KeyEventResponse {
                    handled: true,
                    start_timer: Action::Irrelevant,
                    stop_timer: Action::Irrelevant,
                },
                HudCommand::ToggleVisibility,
            ),
            Action::Irrelevant => (KeyEventResponse::default(), HudCommand::NoEffect),
        }
    }

    /// Toggle an item's membership in the cycle the action names and
    /// report what changed. The result depends on the in-memory state
    /// alone; persisting the change afterwards is the host's business, and
    /// a failed write cannot alter what this returned. Actions without a
    /// slot change nothing and report `NoChange`.
    pub fn toggle_item(&mut self, action: Action, item: CycleEntry) -> (r: MenuEventResponse)
        requires
            old(self).wf(),
        ensures
            final(self).wf(),
            forall|a: Action| final(self).equipped(a) == old(self).equipped(a),
            is_slot(action) ==> r == toggle_outcome(old(self).cycle_slot(action), item)
                && final(self).cycle_slot(action) == toggled(old(self).cycle_slot(action), item),
            forall|a: Action| a != action ==> final(self).cycle_slot(a) == old(self).cycle_slot(a),
            !is_slot(action) ==> r == MenuEventResponse::NoChange && forall|a: Action|
                final(self).cycle_slot(a) == old(self).cycle_slot(a),
    {
        self.cycles.toggle(action, item)
    }

    /// Reserved hook for equip changes made outside the cycling UI (for
    /// instance through an inventory menu). Its eventual job is to rotate
    /// the slot's cycle so the newly equipped item sits on top; that
    /// behavior is not designed yet, so the call reports `NotImplemented`
    /// and changes nothing.
    pub fn on_equip_change(&self) -> (r: Result<(), NotImplemented>)
        ensures
            r is Err,
    {
        Err(NotImplemented)
    }
}

} // verus!
