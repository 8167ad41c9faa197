use cycle_hud::action::{action_for_key, Action, Settings};
use cycle_hud::control::{
    toggle_notification, ButtonState, Controller, HudCommand, KeyEventResponse,
};
use cycle_hud::cycles::{CycleData, MenuEventResponse};
use cycle_hud::entry::{CycleEntry, EntryKind};

fn weapon(id: &str, name: &str) -> CycleEntry {
    CycleEntry {
        form_string: id.to_string(),
        name: name.to_string(),
        kind: EntryKind::Weapon,
        color: 0xff0000ff,
    }
}

fn pressed() -> ButtonState {
    ButtonState { is_down: true, is_up: false }
}

#[test]
fn controller_survives_missing_store() {
    // A missing or corrupt store hands the controller nothing at all, and
    // construction must still succeed with empty cycles everywhere.
    let controller = Controller::new(None);
    for slot in [Action::Power, Action::Utility, Action::Left, Action::Right] {
        assert!(controller.cycle_entries(slot).is_empty());
    }
}

#[test]
fn controller_adopts_recovered_store() {
    let x = weapon("form-x", "Sword");
    let data = CycleData::from_parts(Vec::new(), Vec::new(), vec![x.clone()], Vec::new());
    let controller = Controller::new(Some(data));
    assert_eq!(controller.cycle_entries(Action::Left), vec![x]);
    assert!(controller.cycle_entries(Action::Right).is_empty());
}

#[test]
fn equipped_defaults_to_sentinel() {
    let controller = Controller::new(None);
    for slot in [
        Action::Power,
        Action::Utility,
        Action::Left,
        Action::Right,
        Action::Activate,
        Action::ShowHide,
        Action::Irrelevant,
    ] {
        assert_eq!(*controller.equipped_in_slot(slot), CycleEntry::default());
    }
}

#[test]
fn key_event_advances_slot_and_starts_timer() {
    let mut controller = Controller::new(None);
    let x = weapon("form-x", "Sword");
    let y = weapon("form-y", "Axe");
    controller.toggle_item(Action::Left, x.clone());
    controller.toggle_item(Action::Left, y.clone());

    let (response, command) = controller.handle_key_event(Action::Left, &pressed(), false, false);
    assert_eq!(
        response,
        KeyEventResponse {
            handled: true,
            start_timer: Action::Left,
            stop_timer: Action::Irrelevant,
        }
    );
    assert_eq!(command, HudCommand::NoEffect);
    assert_eq!(controller.cycle_entries(Action::Left), vec![y, x]);
}

#[test]
fn key_event_activate_stops_utility_timer() {
    let mut controller = Controller::new(None);
    let (response, command) =
        controller.handle_key_event(Action::Activate, &pressed(), false, false);
    assert_eq!(
        response,
        KeyEventResponse {
            handled: true,
            start_timer: Action::Irrelevant,
            stop_timer: Action::Utility,
        }
    );
    assert_eq!(command, HudCommand::NoEffect);
}

#[test]
fn key_event_irrelevant_is_a_no_op() {
    let mut controller = Controller::new(None);
    let (response, command) =
        controller.handle_key_event(Action::Irrelevant, &pressed(), false, false);
    assert_eq!(response, KeyEventResponse::default());
    assert!(!response.handled);
    assert_eq!(command, HudCommand::NoEffect);
}

#[test]
fn scenario_show_hide_without_fade() {
    // Fade disabled in settings: show/hide asks the host to toggle
    // visibility exactly once and touches no timer.
    let mut controller = Controller::new(None);
    let (response, command) =
        controller.handle_key_event(Action::ShowHide, &pressed(), false, false);
    assert!(response.handled);
    assert_eq!(response.start_timer, Action::Irrelevant);
    assert_eq!(response.stop_timer, Action::Irrelevant);
    assert_eq!(command, HudCommand::ToggleVisibility);
}

#[test]
fn scenario_fade_gate_consumes_slot_event() {
    // Fade enabled and the HUD not mid-transition: the event only
    // re-reveals the HUD and the cycle is not advanced.
    let mut controller = Controller::new(None);
    let x = weapon("form-x", "Sword");
    let y = weapon("form-y", "Axe");
    controller.toggle_item(Action::Power, x.clone());
    controller.toggle_item(Action::Power, y.clone());

    let (response, command) = controller.handle_key_event(Action::Power, &pressed(), true, false);
    assert_eq!(
        response,
        KeyEventResponse {
            handled: true,
            start_timer: Action::Irrelevant,
            stop_timer: Action::Irrelevant,
        }
    );
    assert_eq!(command, HudCommand::Reveal);
    assert_eq!(controller.cycle_entries(Action::Power), vec![x, y]);
}

#[test]
fn fade_gate_opens_while_transitioning() {
    // While a fade is already running, the event falls through to the
    // slot logic and the cycle advances.
    let mut controller = Controller::new(None);
    let x = weapon("form-x", "Sword");
    controller.toggle_item(Action::Power, x.clone());
    let (response, _) = controller.handle_key_event(Action::Power, &pressed(), true, true);
    assert_eq!(response.start_timer, Action::Power);
}

#[test]
fn toggle_item_result_is_independent_of_persistence() {
    // The toggle result reflects the in-memory change alone; whether the
    // host's later write succeeds or fails cannot alter it. A host that
    // never writes at all still sees the correct results and state.
    let mut controller = Controller::new(None);
    let x = weapon("form-x", "Sword");
    let added = controller.toggle_item(Action::Left, x.clone());
    assert_eq!(added, MenuEventResponse::ItemAdded);
    assert_eq!(controller.cycle_entries(Action::Left), vec![x.clone()]);

    let removed = controller.toggle_item(Action::Left, x.clone());
    assert_eq!(removed, MenuEventResponse::ItemRemoved);
    assert!(controller.cycle_entries(Action::Left).is_empty());
}

#[test]
fn toggle_item_for_non_slot_reports_no_change() {
    let mut controller = Controller::new(None);
    let x = weapon("form-x", "Sword");
    assert_eq!(
        controller.toggle_item(Action::Activate, x.clone()),
        MenuEventResponse::NoChange
    );
    assert_eq!(
        controller.toggle_item(Action::Irrelevant, x),
        MenuEventResponse::NoChange
    );
}

#[test]
fn toggle_item_only_touches_named_slot() {
    let mut controller = Controller::new(None);
    let x = weapon("form-x", "Sword");
    let y = weapon("form-y", "Axe");
    controller.toggle_item(Action::Right, y.clone());
    controller.toggle_item(Action::Left, x.clone());
    assert_eq!(controller.cycle_entries(Action::Right), vec![y]);
    assert_eq!(controller.cycle_entries(Action::Left), vec![x]);
}

#[test]
fn notification_messages() {
    let x = weapon("form-x", "Sword of Dawn");
    assert_eq!(
        toggle_notification(MenuEventResponse::ItemAdded, Action::Left, &x),
        "Sword of Dawn added to left-hand cycle"
    );
    assert_eq!(
        toggle_notification(MenuEventResponse::ItemRemoved, Action::Power, &x),
        "Sword of Dawn removed from powers cycle"
    );
    assert_eq!(
        toggle_notification(MenuEventResponse::NoChange, Action::Activate, &x),
        "Sword of Dawn not changed in any cycle"
    );
    assert_eq!(
        toggle_notification(MenuEventResponse::ItemAdded, Action::Utility, &x),
        "Sword of Dawn added to utility items cycle"
    );
    assert_eq!(
        toggle_notification(MenuEventResponse::ItemRemoved, Action::Right, &x),
        "Sword of Dawn removed from right-hand cycle"
    );
}

#[test]
fn on_equip_change_reports_not_implemented() {
    let controller = Controller::new(None);
    assert!(controller.on_equip_change().is_err());
}

#[test]
fn key_classification_follows_bindings() {
    let settings = Settings {
        left: 10,
        right: 11,
        power: 12,
        utility: 13,
        activate: 14,
        showhide: 15,
        fade: true,
    };
    assert_eq!(action_for_key(10, &settings), Action::Left);
    assert_eq!(action_for_key(11, &settings), Action::Right);
    assert_eq!(action_for_key(12, &settings), Action::Power);
    assert_eq!(action_for_key(13, &settings), Action::Utility);
    assert_eq!(action_for_key(14, &settings), Action::Activate);
    assert_eq!(action_for_key(15, &settings), Action::ShowHide);
    assert_eq!(action_for_key(99, &settings), Action::Irrelevant);
}

#[test]
fn key_classification_earlier_binding_wins() {
    // One key bound to several actions: left outranks right.
    let settings = Settings {
        left: 10,
        right: 10,
        power: 12,
        utility: 13,
        activate: 14,
        showhide: 15,
        fade: false,
    };
    assert_eq!(action_for_key(10, &settings), Action::Left);
}

#[test]
fn changed_membership_marks_writes() {
    assert!(MenuEventResponse::ItemAdded.changed_membership());
    assert!(MenuEventResponse::ItemRemoved.changed_membership());
    assert!(!MenuEventResponse::NoChange.changed_membership());
}
