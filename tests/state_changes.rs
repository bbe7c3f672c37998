use philipshue_cli::args::{ChangeStateArgs, LightState};
use philipshue_cli::state_change::{change_to_send, StateChange};

fn args(light: &str) -> ChangeStateArgs {
    ChangeStateArgs {
        light: light.to_string(),
        brightness: None,
        saturation: None,
        hue: None,
        transition_time: None,
    }
}

#[test]
fn new_change_is_empty() {
    assert!(StateChange::new().is_empty());
    assert!(StateChange::from(args("3")).is_empty());
}

#[test]
fn any_supplied_field_makes_the_change_non_empty() {
    assert!(!StateChange::new().bri(0).is_empty());
    assert!(!StateChange::new().sat(1).is_empty());
    assert!(!StateChange::new().hue(2).is_empty());
    assert!(!StateChange::new().transition_time(3).is_empty());
    assert!(!StateChange::new().on(false).is_empty());
}

#[test]
fn builders_set_one_field_and_keep_the_others() {
    let c = StateChange::new().bri(10).hue(400).sat(20).transition_time(7).on(true);
    assert_eq!(
        c,
        StateChange {
            on: Some(true),
            bri: Some(10),
            sat: Some(20),
            hue: Some(400),
            transition_time: Some(7),
        }
    );
    assert_eq!(c.bri(11).bri, Some(11));
    assert_eq!(c.bri(11).hue, Some(400));
}

#[test]
fn from_args_copies_exactly_the_supplied_fields() {
    let mut a = args("kitchen");
    a.saturation = Some(254);
    a.transition_time = Some(40);
    let c = StateChange::from(a);
    assert_eq!(
        c,
        StateChange { on: None, bri: None, sat: Some(254), hue: None, transition_time: Some(40) }
    );
}

#[test]
fn light_state_converts_to_bool() {
    assert!(bool::from(LightState::On));
    assert!(!bool::from(LightState::Off));
    assert_eq!(StateChange::new().with_state(Some(LightState::Off)).on, Some(false));
    assert_eq!(StateChange::new().with_state(None), StateChange::new());
}

#[test]
fn change_state_with_brightness_only_sends_brightness() {
    let mut a = args("3");
    a.brightness = Some(200);
    let sent = change_to_send(a, None);
    assert_eq!(
        sent,
        Some(StateChange { on: None, bri: Some(200), sat: None, hue: None, transition_time: None })
    );
}

#[test]
fn change_state_without_flags_sends_nothing() {
    assert_eq!(change_to_send(args("3"), None), None);
}

#[test]
fn change_state_with_only_a_state_sends_it() {
    let sent = change_to_send(args("3"), Some(LightState::On));
    assert_eq!(sent, Some(StateChange::new().on(true)));
}
