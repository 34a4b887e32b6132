//! The command set of the tool, and the state change each light operation
//! asks for.

use vstd::prelude::*;

use crate::address::IpAddress;

verus! {

/// Parsed command line: an optional bridge address that overrides the cached
/// or discovered one for this run, and the command to execute.
#[derive(Clone, Debug, PartialEq, Eq, Structural)]
pub struct Opt {
    pub bridge: Option<IpAddress>,
    pub cmd: Command,
}

/// One user intent.
#[derive(Clone, Copy, Debug, PartialEq, Eq, Structural)]
pub enum Command {
    /// Pair with the bridge to get a username.
    Pair,
    /// Show the cached configuration.
    Config,
    /// List the groups of the bridge.
    Groups,
    /// Control one group.
    Group { group: usize, op: LightOperation },
    /// List the lights of the bridge.
    Lights,
    /// Control one light.
    Light { light: usize, op: LightOperation },
}

/// What to do with a light or a group.
#[derive(Clone, Copy, Debug, PartialEq, Eq, Structural)]
pub enum LightOperation {
    /// Turn on, optionally at a given brightness.
    On { bri: Option<u8> },
    /// Turn off.
    Off,
    /// Run a special mode.
    Mode { mode: LightMode },
}

/// The special modes.
#[derive(Clone, Copy, Debug, PartialEq, Eq, Structural)]
pub enum LightMode {
    /// Flicker between dim and bright random levels until stopped.
    Halloween,
}

/// A state change for a light or group: each field that is `None` is left
/// as it is on the bridge.
#[derive(Clone, Copy, Debug, PartialEq, Eq, Structural)]
pub struct LightCommand {
    pub on: Option<bool>,
    pub bri: Option<u8>,
}

impl LightCommand {
    /// The change that changes nothing.
    pub fn empty() -> (r: LightCommand)
        ensures
            r == (LightCommand { on: None, bri: None }),
    {
        LightCommand { on: None, bri: None }
    }

    /// This change, switching the light on as well.
    pub fn turn_on(self) -> (r: LightCommand)
        ensures
            r == (LightCommand { on: Some(true), ..self }),
    {
        LightCommand { on: Some(true), ..self }
    }

    /// This change, switching the light off as well.
    pub fn turn_off(self) -> (r: LightCommand)
        ensures
            r == (LightCommand { on: Some(false), ..self }),
    {
        LightCommand { on: Some(false), ..self }
    }

    /// This change, setting the brightness as well.
    pub fn with_bri(self, bri: u8) -> (r: LightCommand)
        ensures
            r == (LightCommand { bri: Some(bri), ..self }),
    {
        LightCommand { bri: Some(bri), ..self }
    }
}

impl LightOperation {
    /// The state change of this operation, as `to_command` builds it.
    pub open spec fn command_of(self) -> LightCommand {
        match self {
            LightOperation::On { bri } => LightCommand { on: Some(true), bri },
            LightOperation::Off => LightCommand { on: Some(false), bri: None },
            LightOperation::Mode { .. } => LightCommand { on: None, bri: None },
        }
    }

    /// The state change this operation sends once: `On` switches on, at the
    /// given brightness if there is one; `Off` switches off; a mode sends the
    /// empty change (its own steps come from the mode).
    pub fn to_command(&self) -> (r: LightCommand)
        ensures
            r == self.command_of(),
    {
        match self {
            LightOperation::On { bri } => {
                let mut command = LightCommand::empty().turn_on();
                if let Some(bri) = bri {
                    command = command.with_bri(*bri);
                }
                command
            },
            LightOperation::Off => LightCommand::empty().turn_off(),
            LightOperation::Mode { mode: _ } => LightCommand::empty(),
        }
    }
}

} // verus!
