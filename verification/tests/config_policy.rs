use marf_squash::config::{
    apply_config_overrides, build_pox_constants, enforce_minimum_tenure_height, BurnchainConfig,
    BurnchainOverrides, ConfigError, EpochConfig, EpochRead, PoxConstants, PoxDefaults,
    MAINNET_MIN_TENURE_HEIGHT,
};

const MAINNET: PoxConstants = PoxConstants {
    reward_cycle_length: 2100,
    prepare_length: 100,
    sunset_start: 1000,
    sunset_end: 2000,
    v1_unlock_height: 781552,
};

const TESTNET: PoxConstants = PoxConstants {
    reward_cycle_length: 900,
    prepare_length: 50,
    sunset_start: 3000,
    sunset_end: 4000,
    v1_unlock_height: 6,
};

const DEFAULTS: PoxDefaults = PoxDefaults { mainnet: MAINNET, nakamoto_testnet: TESTNET };

const NOTHING: BurnchainOverrides = BurnchainOverrides {
    pox_reward_length: None,
    pox_prepare_length: None,
    sunset_start: None,
    sunset_end: None,
    pox_2_activation: None,
};

const EVERYTHING: BurnchainOverrides = BurnchainOverrides {
    pox_reward_length: Some(20),
    pox_prepare_length: Some(5),
    sunset_start: Some(u32::MAX),
    sunset_end: Some(12),
    pox_2_activation: Some(13),
};

fn overridden() -> PoxConstants {
    PoxConstants {
        reward_cycle_length: 20,
        prepare_length: 5,
        sunset_start: 4_294_967_295,
        sunset_end: 12,
        v1_unlock_height: 13,
    }
}

fn section(section: Option<BurnchainOverrides>) -> BurnchainConfig<'static> {
    BurnchainConfig { path: "node.toml", section: Ok(section) }
}

fn epoch_34(start: Option<u64>) -> Option<EpochConfig<'static>> {
    Some(EpochConfig { path: "node.toml", read: EpochRead::Epoch34Start(start) })
}

#[test]
fn mainnet_accepts_from_the_last_tenure_of_epoch_33() {
    assert_eq!(MAINNET_MIN_TENURE_HEIGHT, 943_331);
    assert_eq!(enforce_minimum_tenure_height(943_331, true, None), Ok(()));
    assert_eq!(enforce_minimum_tenure_height(943_332, true, None), Ok(()));
    assert_eq!(enforce_minimum_tenure_height(u32::MAX, true, None), Ok(()));
    assert_eq!(
        enforce_minimum_tenure_height(943_330, true, None),
        Err(ConfigError::BelowMinimum { height: 943_330, min: 943_331 })
    );
}

#[test]
fn mainnet_does_not_look_at_the_config() {
    assert_eq!(enforce_minimum_tenure_height(943_331, true, epoch_34(Some(9_999_999))), Ok(()));
    assert_eq!(enforce_minimum_tenure_height(943_331, true, epoch_34(None)), Ok(()));
}

#[test]
fn other_networks_accept_from_one_below_epoch_34() {
    assert_eq!(enforce_minimum_tenure_height(99, false, epoch_34(Some(100))), Ok(()));
    assert_eq!(enforce_minimum_tenure_height(100, false, epoch_34(Some(100))), Ok(()));
    assert_eq!(
        enforce_minimum_tenure_height(98, false, epoch_34(Some(100))),
        Err(ConfigError::BelowMinimum { height: 98, min: 99 })
    );
    assert_eq!(enforce_minimum_tenure_height(0, false, epoch_34(Some(1))), Ok(()));
    assert_eq!(
        enforce_minimum_tenure_height(u32::MAX, false, epoch_34(Some(u64::MAX))),
        Err(ConfigError::BelowMinimum { height: 4_294_967_295, min: u64::MAX - 1 })
    );
}

#[test]
fn unusable_config_refuses_every_height() {
    assert_eq!(
        enforce_minimum_tenure_height(u32::MAX, false, epoch_34(None)),
        Err(ConfigError::Epoch34Missing { path: "node.toml" })
    );
    assert_eq!(
        enforce_minimum_tenure_height(
            u32::MAX,
            false,
            Some(EpochConfig {
                path: "node.toml",
                read: EpochRead::ParseFailed("bad toml".to_string()),
            })
        ),
        Err(ConfigError::Parse { path: "node.toml", cause: "bad toml".to_string() })
    );
    assert_eq!(
        enforce_minimum_tenure_height(
            u32::MAX,
            false,
            Some(EpochConfig {
                path: "node.toml",
                read: EpochRead::LoadFailed("bad peer".to_string()),
            })
        ),
        Err(ConfigError::Load { path: "node.toml", cause: "bad peer".to_string() })
    );
}

#[test]
fn config_errors_read_as_the_operator_sees_them() {
    assert_eq!(
        ConfigError::Parse { path: "a.toml", cause: "oops".to_string() }.message(),
        "Failed to parse config file 'a.toml': oops"
    );
    assert_eq!(
        ConfigError::Load { path: "a.toml", cause: "oops".to_string() }.message(),
        "Failed to load config 'a.toml': oops"
    );
    assert_eq!(
        ConfigError::Epoch34Missing { path: "a.toml" }.message(),
        "Error: config 'a.toml' does not define epoch 3.4.\n\
         Epoch 3.4 activation height is required to validate \
         --tenure-start-bitcoin-height."
    );
    assert_eq!(
        ConfigError::BelowMinimum { height: 98, min: 99 }.message(),
        "Error: --tenure-start-bitcoin-height 98 is below the minimum \
         acceptable height 99.\n\
         A squashed snapshot can only be used from epoch 3.4 onwards. The tenure at \
         height 99 is the last tenure of epoch 3.3; its blocks are the last ones \
         included before epoch 3.4 activates."
    );
    assert_eq!(
        ConfigError::ConfigRequired.message(),
        "Error: --config is required for non-mainnet networks.\n\
         Each testnet has its own PoX parameters (reward cycle length, \
         prepare phase length, etc.) that cannot be inferred from the \
         database. Pass the node config TOML with --config."
    );
}

#[test]
fn every_override_lands_in_its_constant() {
    let mut pox = MAINNET;
    let notices = apply_config_overrides(section(Some(EVERYTHING)), &mut pox).unwrap();
    assert_eq!(pox, overridden());
    assert_eq!(
        notices,
        vec![
            "Config override: pox_reward_length = 20".to_string(),
            "Config override: pox_prepare_length = 5".to_string(),
        ]
    );
}

#[test]
fn absent_settings_leave_the_constants() {
    let mut pox = MAINNET;
    assert!(apply_config_overrides(section(None), &mut pox).unwrap().is_empty());
    assert_eq!(pox, MAINNET);
    assert!(apply_config_overrides(section(Some(NOTHING)), &mut pox).unwrap().is_empty());
    assert_eq!(pox, MAINNET);

    let prepare_only = BurnchainOverrides { pox_prepare_length: Some(9), ..NOTHING };
    let notices = apply_config_overrides(section(Some(prepare_only)), &mut pox).unwrap();
    assert_eq!(notices, vec!["Config override: pox_prepare_length = 9".to_string()]);
    assert_eq!(pox, PoxConstants { prepare_length: 9, ..MAINNET });
}

#[test]
fn overriding_twice_is_overriding_once() {
    let mut once = TESTNET;
    apply_config_overrides(section(Some(EVERYTHING)), &mut once).unwrap();
    let mut twice = once;
    apply_config_overrides(section(Some(EVERYTHING)), &mut twice).unwrap();
    assert_eq!(once, twice);
}

#[test]
fn unparsed_config_changes_nothing() {
    let mut pox = TESTNET;
    let config = BurnchainConfig { path: "x.toml", section: Err("eof".to_string()) };
    assert_eq!(
        apply_config_overrides(config, &mut pox),
        Err(ConfigError::Parse { path: "x.toml", cause: "eof".to_string() })
    );
    assert_eq!(pox, TESTNET);
}

#[test]
fn mainnet_constants_need_no_config() {
    assert_eq!(build_pox_constants(true, DEFAULTS, None), Ok((MAINNET, vec![])));
    let (pox, notices) =
        build_pox_constants(true, DEFAULTS, Some(section(Some(EVERYTHING)))).unwrap();
    assert_eq!(pox, overridden());
    assert_eq!(notices.len(), 2);
}

#[test]
fn other_networks_start_from_the_testnet_constants() {
    assert_eq!(build_pox_constants(false, DEFAULTS, None), Err(ConfigError::ConfigRequired));
    assert_eq!(build_pox_constants(false, DEFAULTS, Some(section(None))), Ok((TESTNET, vec![])));
    let reward_only = BurnchainOverrides { pox_reward_length: Some(77), ..NOTHING };
    let (pox, notices) =
        build_pox_constants(false, DEFAULTS, Some(section(Some(reward_only)))).unwrap();
    assert_eq!(pox, PoxConstants { reward_cycle_length: 77, ..TESTNET });
    assert_eq!(notices, vec!["Config override: pox_reward_length = 77".to_string()]);
    let broken = BurnchainConfig { path: "x.toml", section: Err("eof".to_string()) };
    assert_eq!(
        build_pox_constants(false, DEFAULTS, Some(broken)),
        Err(ConfigError::Parse { path: "x.toml", cause: "eof".to_string() })
    );
}
