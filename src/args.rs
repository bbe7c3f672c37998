use vstd::prelude::*;

verus! {

/// The parsed command line.
pub struct Args {
    pub command: Commands,
}

/// The commands that the controller understands.
pub enum Commands {
    /// Pair with the bridge and store the credential.
    Login { bridge_url: Option<String>, device_type: Option<String> },
    /// Show one light with its whole state.
    GetLight { light: String },
    /// List the number and the name of every light.
    ListLights,
    /// Show every light with its whole state.
    GetLights,
    /// Send a state change to one light, once.
    ChangeState { change_state_args: ChangeStateArgs, state: Option<LightState> },
    /// Turn one light on and reassert its state for a number of seconds.
    StayOn { change_state_args: ChangeStateArgs, stay_on_for: u64 },
}

/// The light and the optional fields of a state change.
#[derive(Clone, Debug, PartialEq, Eq)]
pub struct ChangeStateArgs {
    /// The light number or the light name.
    pub light: String,
    pub brightness: Option<u8>,
    pub saturation: Option<u8>,
    pub hue: Option<u16>,
    /// Transition time in deciseconds.
    pub transition_time: Option<u16>,
}

/// The on/off state that `change-state` may set.
#[derive(Clone, Copy, Debug, PartialEq, Eq, Structural)]
pub enum LightState {
    On,
    Off,
}

impl From<LightState> for bool {
    fn from(val: LightState) -> (r: bool)
        ensures
            r == (val == LightState::On),
    {
        match val {
            LightState::On => true,
            LightState::Off => false,
        }
    }
}

impl vstd::std_specs::convert::FromSpecImpl<LightState> for bool {
    open spec fn obeys_from_spec() -> bool {
        true
    }

    open spec fn from_spec(v: LightState) -> bool {
        v == LightState::On
    }
}

} // verus!
