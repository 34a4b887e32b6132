use blilys::{
    bridge_plan, halloween_command, parse_id, pause_millis, plan_action, rand_bri,
    resolve_address, sort_light_ids, Action, AddressChoice, Bridge, BridgePlan, Command, Config,
    ConfigError, ConfigFile, Credential, IpAddress, LightCommand, LightMode, LightOperation,
    Paired, Phase,
};

fn strings(items: &[&str]) -> Vec<String> {
    items.iter().map(|s| s.to_string()).collect()
}

fn paired_config() -> Config {
    Config {
        path: Some("/home/user/.config/blilys/config.toml".to_string()),
        bridge: Bridge {
            ip: Some(IpAddress::V4(192, 168, 1, 2)),
            username: Some("abc".to_string()),
        },
    }
}

#[test]
fn explicit_address_wins_over_cached() {
    let flag = IpAddress::V4(10, 0, 0, 1);
    let cached = IpAddress::V4(192, 168, 1, 2);
    assert_eq!(resolve_address(Some(flag), Some(cached)), AddressChoice::Known(flag));
    assert_eq!(resolve_address(Some(flag), None), AddressChoice::Known(flag));
}

#[test]
fn cached_address_wins_over_discovery() {
    let cached = IpAddress::V6(0xfe80, 0, 0, 0, 0, 0, 0, 1);
    assert_eq!(resolve_address(None, Some(cached)), AddressChoice::Known(cached));
}

#[test]
fn discovery_only_without_any_address() {
    assert_eq!(resolve_address(None, None), AddressChoice::Discover);
}

#[test]
fn missing_file_gives_empty_config() {
    let config = Config::read_file("/tmp/none/config.toml".to_string(), ConfigFile::Missing)
        .expect("a missing file is no error");
    assert_eq!(config.path.as_deref(), Some("/tmp/none/config.toml"));
    assert!(config.bridge.ip.is_none());
    assert!(config.bridge.username.is_none());
}

#[test]
fn malformed_file_is_parse_error() {
    let r = Config::read_file("c.toml".to_string(), ConfigFile::Malformed);
    assert_eq!(r.err(), Some(ConfigError::Parse));
}

#[test]
fn unreadable_file_is_io_error() {
    let r = Config::read_file("c.toml".to_string(), ConfigFile::Unreadable);
    assert_eq!(r.err(), Some(ConfigError::Io));
}

#[test]
fn parsed_file_keeps_its_record() {
    let bridge = Bridge { ip: Some(IpAddress::V4(192, 168, 1, 2)), username: Some("abc".to_string()) };
    let config = Config::read_file("c.toml".to_string(), ConfigFile::Parsed(bridge)).unwrap();
    assert_eq!(config.path.as_deref(), Some("c.toml"));
    assert_eq!(config.bridge.ip, Some(IpAddress::V4(192, 168, 1, 2)));
    assert_eq!(config.bridge.username.as_deref(), Some("abc"));
}

#[test]
fn default_config_is_empty() {
    let config = Config::default();
    assert!(config.path.is_none());
    assert!(config.bridge.ip.is_none());
    assert!(config.bridge.username.is_none());
}

#[test]
fn pairing_sets_address_and_credential_together() {
    let mut config = paired_config();
    let save = config.apply_pairing(Some(Paired {
        ip: IpAddress::V4(10, 0, 0, 7),
        username: "fresh-user".to_string(),
    }));
    assert!(save);
    assert_eq!(config.bridge.ip, Some(IpAddress::V4(10, 0, 0, 7)));
    assert_eq!(config.bridge.username.as_deref(), Some("fresh-user"));
    assert_eq!(config.path.as_deref(), Some("/home/user/.config/blilys/config.toml"));

    let mut empty = Config::default();
    assert!(empty.apply_pairing(Some(Paired {
        ip: IpAddress::V4(10, 0, 0, 8),
        username: "u".to_string(),
    })));
    assert_eq!(empty.bridge.ip, Some(IpAddress::V4(10, 0, 0, 8)));
    assert_eq!(empty.bridge.username.as_deref(), Some("u"));
}

#[test]
fn aborted_pairing_leaves_config_unchanged() {
    let mut config = paired_config();
    assert!(!config.apply_pairing(None));
    assert_eq!(config.bridge.ip, Some(IpAddress::V4(192, 168, 1, 2)));
    assert_eq!(config.bridge.username.as_deref(), Some("abc"));

    let mut empty = Config::default();
    assert!(!empty.apply_pairing(None));
    assert!(empty.bridge.ip.is_none());
    assert!(empty.bridge.username.is_none());
}

#[test]
fn group_members_sort_numerically() {
    let sorted = sort_light_ids(&strings(&["2", "10", "1"])).unwrap();
    assert_eq!(sorted.join(", "), "1, 2, 10");
}

#[test]
fn group_members_sort_keeps_duplicates() {
    let sorted = sort_light_ids(&strings(&["30", "4", "4", "100", "0"])).unwrap();
    assert_eq!(sorted, strings(&["0", "4", "4", "30", "100"]));
}

#[test]
fn group_members_sort_of_nothing() {
    assert_eq!(sort_light_ids(&Vec::new()), Some(Vec::new()));
}

#[test]
fn group_members_sort_refuses_non_numeric_id() {
    assert_eq!(sort_light_ids(&strings(&["1", "x2"])), None);
    assert_eq!(sort_light_ids(&strings(&["1", ""])), None);
}

#[test]
fn light_ids_parse_as_decimal() {
    assert_eq!(parse_id("0"), Some(0));
    assert_eq!(parse_id("42"), Some(42));
    assert_eq!(parse_id("007"), Some(7));
    assert_eq!(parse_id(""), None);
    assert_eq!(parse_id("a1"), None);
    assert_eq!(parse_id("1 "), None);
    assert_eq!(parse_id("-1"), None);
    assert_eq!(parse_id(&usize::MAX.to_string()), Some(usize::MAX));
    assert_eq!(parse_id(&format!("{}0", usize::MAX)), None);
}

#[test]
fn halloween_draws_stay_in_range() {
    let mut phase = Phase::Dim;
    for step in 0..2000 {
        let command = halloween_command(phase);
        assert_eq!(command.on, None);
        let bri = command.bri.unwrap();
        if step % 2 == 0 {
            assert_eq!(phase, Phase::Dim);
            assert!((1..50).contains(&bri));
        } else {
            assert_eq!(phase, Phase::Bright);
            assert!((70..120).contains(&bri));
        }
        phase = phase.next();
    }
}

#[test]
fn random_brightness_and_pause_stay_in_range() {
    let mut above_low = false;
    let mut pause_above_low = false;
    for _ in 0..1000 {
        let bri = rand_bri(1, 50);
        assert!((1..50).contains(&bri));
        above_low |= bri != 1;
        assert_eq!(rand_bri(7, 8), 7);
        let pause = pause_millis();
        assert!((200..1000).contains(&pause));
        pause_above_low |= pause != 200;
    }
    assert!(above_low);
    assert!(pause_above_low);
}

#[test]
fn light_on_with_brightness_sends_one_change() {
    let cmd = Command::Light { light: 3, op: LightOperation::On { bri: Some(80) } };
    assert_eq!(
        plan_action(&cmd),
        Action::SetLight { light: 3, command: LightCommand { on: Some(true), bri: Some(80) } }
    );
    match bridge_plan(&cmd, None, &paired_config()) {
        BridgePlan::Connect { address, credential: Credential::Cached(username) } => {
            assert_eq!(address, AddressChoice::Known(IpAddress::V4(192, 168, 1, 2)));
            assert_eq!(username, "abc");
        }
        other => panic!("unexpected plan {:?}", other),
    }
}

#[test]
fn config_before_pairing_needs_no_bridge() {
    let config = Config::read_file("c.toml".to_string(), ConfigFile::Missing).unwrap();
    assert!(matches!(bridge_plan(&Command::Config, None, &config), BridgePlan::NotNeeded));
    assert_eq!(plan_action(&Command::Config), Action::ShowConfig);
}

#[test]
fn missing_credential_triggers_pairing() {
    let config = Config::default();
    let cmd = Command::Group { group: 1, op: LightOperation::Off };
    match bridge_plan(&cmd, Some(IpAddress::V4(10, 0, 0, 1)), &config) {
        BridgePlan::Connect { address, credential: Credential::Pair } => {
            assert_eq!(address, AddressChoice::Known(IpAddress::V4(10, 0, 0, 1)));
        }
        other => panic!("unexpected plan {:?}", other),
    }
    match bridge_plan(&Command::Lights, None, &config) {
        BridgePlan::Connect { address, credential: Credential::Pair } => {
            assert_eq!(address, AddressChoice::Discover);
        }
        other => panic!("unexpected plan {:?}", other),
    }
}

#[test]
fn pair_command_pairs_even_with_cached_credential() {
    match bridge_plan(&Command::Pair, None, &paired_config()) {
        BridgePlan::Connect { credential: Credential::Pair, .. } => {}
        other => panic!("unexpected plan {:?}", other),
    }
    assert_eq!(plan_action(&Command::Pair), Action::Nothing);
}

#[test]
fn operations_map_to_state_changes() {
    assert_eq!(
        LightOperation::On { bri: None }.to_command(),
        LightCommand { on: Some(true), bri: None }
    );
    assert_eq!(LightOperation::Off.to_command(), LightCommand { on: Some(false), bri: None });
    assert_eq!(
        LightOperation::Mode { mode: LightMode::Halloween }.to_command(),
        LightCommand { on: None, bri: None }
    );
    assert_eq!(
        plan_action(&Command::Group { group: 2, op: LightOperation::Off }),
        Action::SetGroup { group: 2, command: LightCommand { on: Some(false), bri: None } }
    );
    assert_eq!(
        plan_action(&Command::Group { group: 2, op: LightOperation::Mode { mode: LightMode::Halloween } }),
        Action::GroupHalloween { group: 2 }
    );
    assert_eq!(
        plan_action(&Command::Light { light: 5, op: LightOperation::Mode { mode: LightMode::Halloween } }),
        Action::LightHalloween { light: 5 }
    );
    assert_eq!(plan_action(&Command::Groups), Action::ListGroups);
    assert_eq!(plan_action(&Command::Lights), Action::ListLights);
}
