use vstd::prelude::*;
use crate::args::{ChangeStateArgs, LightState};

verus! {

/// A sparse update of a light's state: each field is set or left alone.
///
/// The fields are independent: setting one never sets or clears another.
#[derive(Clone, Copy, Debug, PartialEq, Eq, Structural)]
pub struct StateChange {
    pub on: Option<bool>,
    pub bri: Option<u8>,
    pub sat: Option<u8>,
    pub hue: Option<u16>,
    /// Transition time in deciseconds.
    pub transition_time: Option<u16>,
}

impl StateChange {
    /// True when no field is set.
    pub open spec fn spec_is_empty(self) -> bool {
        &&& self.on is None
        &&& self.bri is None
        &&& self.sat is None
        &&& self.hue is None
        &&& self.transition_time is None
    }

    /// The state change that sets nothing.
    pub fn new() -> (r: StateChange)
        ensures
            r.spec_is_empty(),
    {
        StateChange { on: None, bri: None, sat: None, hue: None, transition_time: None }
    }

    /// Sets the on/off field and keeps the others.
    pub fn on(self, on: bool) -> (r: StateChange)
        ensures
            r == (StateChange { on: Some(on), ..self }),
    {
        StateChange { on: Some(on), ..self }
    }

    /// Sets the brightness and keeps the other fields.
    pub fn bri(self, bri: u8) -> (r: StateChange)
        ensures
            r == (StateChange { bri: Some(bri), ..self }),
    {
        StateChange { bri: Some(bri), ..self }
    }

    /// Sets the saturation and keeps the other fields.
    pub fn sat(self, sat: u8) -> (r: StateChange)
        ensures
            r == (StateChange { sat: Some(sat), ..self }),
    {
        StateChange { sat: Some(sat), ..self }
    }

    /// Sets the hue and keeps the other fields.
    pub fn hue(self, hue: u16) -> (r: StateChange)
        ensures
            r == (StateChange { hue: Some(hue), ..self }),
    {
        StateChange { hue: Some(hue), ..self }
    }

    /// Sets the transition time and keeps the other fields.
    pub fn transition_time(self, transition_time: u16) -> (r: StateChange)
        ensures
            r == (StateChange { transition_time: Some(transition_time), ..self }),
    {
        StateChange { transition_time: Some(transition_time), ..self }
    }

    /// Whether the change sets no field at all; such a change is never sent.
    pub fn is_empty(&self) -> (r: bool)
        ensures
            r == self.spec_is_empty(),
    {
        self.on.is_none() && self.bri.is_none() && self.sat.is_none() && self.hue.is_none()
            && self.transition_time.is_none()
    }

    /// Adds the on/off field when a state was given, and keeps the change as it is
    /// otherwise.
    pub fn with_state(self, state: Option<LightState>) -> (r: StateChange)
        ensures
            r == state_change_with(self, state),
    {
        match state {
            Some(s) => self.on(bool::from(s)),
            None => self,
        }
    }
}

/// The state change that carries exactly the supplied fields of `args`.
pub open spec fn state_change_of(args: ChangeStateArgs) -> StateChange {
    StateChange {
        on: None,
        bri: args.brightness,
        sat: args.saturation,
        hue: args.hue,
        transition_time: args.transition_time,
    }
}

/// `change` with its on/off field set from `state`, where a state was given.
pub open spec fn state_change_with(change: StateChange, state: Option<LightState>) -> StateChange {
    match state {
        Some(s) => StateChange { on: Some(s == LightState::On), ..change },
        None => change,
    }
}

impl From<ChangeStateArgs> for StateChange {
    fn from(value: ChangeStateArgs) -> (r: StateChange)
        ensures
            r == state_change_of(value),
    {
        let mut state_change = StateChange::new();
        if let Some(brightness) = value.brightness {
            state_change = state_change.bri(brightness);
        }
        if let Some(saturation) = value.saturation {
            state_change = state_change.sat(saturation);
        }
        if let Some(light_hue) = value.hue {
            state_change = state_change.hue(light_hue);
        }
        if let Some(transition_time) = value.transition_time {
            state_change = state_change.transition_time(transition_time);
        }
        state_change
    }
}

impl vstd::std_specs::convert::FromSpecImpl<ChangeStateArgs> for StateChange {
    open spec fn obeys_from_spec() -> bool {
        true
    }

    open spec fn from_spec(v: ChangeStateArgs) -> StateChange {
        state_change_of(v)
    }
}

/// A change built from the arguments is empty exactly when none of its optional
/// fields was supplied, and setting an on/off state always makes it non-empty.
pub proof fn lemma_empty_iff_nothing_supplied(args: ChangeStateArgs, state: Option<LightState>)
    ensures
        state_change_with(state_change_of(args), state).spec_is_empty() <==> (
        args.brightness is None && args.saturation is None && args.hue is None
            && args.transition_time is None && state is None),
{
}

} // verus!

verus! {

/// The change that `change-state` sends, or `None` where the composed change is
/// empty and nothing is to be sent.
pub fn change_to_send(args: ChangeStateArgs, state: Option<LightState>) -> (r: Option<StateChange>)
    ensures
        state_change_with(state_change_of(args), state).spec_is_empty() ==> r is None,
        !state_change_with(state_change_of(args), state).spec_is_empty() ==> r == Some(
            state_change_with(state_change_of(args), state),
        ),
{
    let state_change = StateChange::from(args).with_state(state);
    if state_change.is_empty() {
        None
    } else {
        Some(state_change)
    }
}

} // verus!
