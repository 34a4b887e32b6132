//! Control Philips Hue lights from the command line: the verified core.
//!
//! The library holds the decisions of the tool: how the bridge address and
//! credential are chosen, what a pairing does to the cached configuration,
//! which state change each light operation asks for, how group members are
//! ordered, and the brightness draws of the flicker effect. Talking to the
//! bridge, reading and writing files and the terminal stay with the caller.

mod address;
mod config;
mod dispatch;
mod halloween;
mod ids;
mod options;

pub use address::{
    address_choice, lemma_address_precedence, resolve_address, AddressChoice, IpAddress,
};
pub use config::{
    lemma_aborted_pairing_keeps_config, lemma_pairing_sets_both, pairing_result, Bridge, Config,
    ConfigError, ConfigFile, Paired,
};
pub use dispatch::{bridge_plan, plan_action, Action, BridgePlan, Credential};
pub use halloween::{halloween_command, pause_millis, rand_bri, Phase};
pub use ids::{digits_value, is_light_id, parse_id, sort_light_ids};
pub use options::{Command, LightCommand, LightMode, LightOperation, Opt};
