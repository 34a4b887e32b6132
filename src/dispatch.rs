//! What a run does: whether it needs a bridge, how it gets its credential,
//! and which action the command asks for.

use vstd::prelude::*;

use crate::address::{address_choice, resolve_address, AddressChoice, IpAddress};
use crate::config::Config;
use crate::options::{Command, LightCommand, LightMode, LightOperation};

verus! {

/// How the run obtains a credential for the bridge.
#[derive(Clone, Debug)]
pub enum Credential {
    /// Pair with the bridge first.
    Pair,
    /// Use the cached credential as it is.
    Cached(String),
}

/// What the run needs of the bridge before its action.
#[derive(Clone, Debug)]
pub enum BridgePlan {
    /// No bridge at all.
    NotNeeded,
    /// A bridge found as `address` says, authenticated as `credential` says.
    Connect { address: AddressChoice, credential: Credential },
}

/// The action a command asks for once the bridge is ready.
#[derive(Clone, Copy, Debug, PartialEq, Eq, Structural)]
pub enum Action {
    /// Nothing more (pairing was the whole work).
    Nothing,
    /// Print the configuration.
    ShowConfig,
    /// Print one line per group.
    ListGroups,
    /// Print one line per light.
    ListLights,
    /// Send one state change to a group.
    SetGroup { group: usize, command: LightCommand },
    /// Send one state change to a light.
    SetLight { light: usize, command: LightCommand },
    /// Run the flicker effect on a group until stopped.
    GroupHalloween { group: usize },
    /// Run the flicker effect on a light until stopped.
    LightHalloween { light: usize },
}

/// Whether a command talks to the bridge: all but showing the configuration.
pub open spec fn needs_bridge(cmd: Command) -> bool {
    cmd != Command::Config
}

/// Whether the run pairs: always for `pair`, otherwise when no credential is
/// cached.
pub open spec fn needs_pairing(cmd: Command, username: Option<Seq<char>>) -> bool {
    cmd == Command::Pair || username.is_none()
}

/// What the run needs of the bridge. Showing the configuration needs none.
/// Every other command finds the bridge by the order of `address_choice`;
/// it pairs when the command is `pair` or no credential is cached, and
/// otherwise uses the cached credential without asking the bridge.
pub fn bridge_plan(cmd: &Command, flag: Option<IpAddress>, config: &Config) -> (r: BridgePlan)
    ensures
        !needs_bridge(*cmd) <==> r is NotNeeded,
        r is Connect ==> r->address == address_choice(flag, config.bridge.ip),
        r is Connect ==> (r->credential is Pair <==> needs_pairing(
            *cmd,
            config.cached().1,
        )),
        r is Connect && r->credential is Cached ==> Some(r->credential->0@) == config.cached().1,
{
    if let Command::Config = cmd {
        return BridgePlan::NotNeeded;
    }
    let address = resolve_address(flag, config.bridge.ip);
    let credential = if let Command::Pair = cmd {
        Credential::Pair
    } else {
        match &config.bridge.username {
            Some(username) => Credential::Cached(username.clone()),
            None => Credential::Pair,
        }
    };
    BridgePlan::Connect { address, credential }
}

/// The action of a command. `pair` has none left; the listing commands list;
/// a light or group operation sends exactly one state change (`to_command`),
/// but for a mode, which runs the effect.
pub fn plan_action(cmd: &Command) -> (r: Action)
    ensures
        r == (match *cmd {
            Command::Pair => Action::Nothing,
            Command::Config => Action::ShowConfig,
            Command::Groups => Action::ListGroups,
            Command::Lights => Action::ListLights,
            Command::Group { group, op } => match op {
                LightOperation::Mode { .. } => Action::GroupHalloween { group },
                _ => Action::SetGroup { group, command: op.command_of() },
            },
            Command::Light { light, op } => match op {
                LightOperation::Mode { .. } => Action::LightHalloween { light },
                _ => Action::SetLight { light, command: op.command_of() },
            },
        }),
{
    match cmd {
        Command::Pair => Action::Nothing,
        Command::Config => Action::ShowConfig,
        Command::Groups => Action::ListGroups,
        Command::Lights => Action::ListLights,
        Command::Group { group, op } => match op {
            LightOperation::Mode { mode: LightMode::Halloween } => Action::GroupHalloween {
                group: *group,
            },
            _ => Action::SetGroup { group: *group, command: op.to_command() },
        },
        Command::Light { light, op } => match op {
            LightOperation::Mode { mode: LightMode::Halloween } => Action::LightHalloween {
                light: *light,
            },
            _ => Action::SetLight { light: *light, command: op.to_command() },
        },
    }
}

} // verus!
