//! Node-config policy: PoX constants, config overrides, and the lowest Bitcoin
//! height that a snapshot may be taken at.

use crate::text::{decimal, decimal_text};
use vstd::prelude::*;

verus! {

/// On mainnet, Bitcoin height 943332 was a fast block at which no Stacks tenure
/// started, so the last tenure that belongs entirely to epoch 3.3 is at height
/// 943331.
pub const MAINNET_MIN_TENURE_HEIGHT: u64 = 943_331;

/// The PoX parameters that a node config can override.
#[derive(Debug, Clone, Copy, PartialEq, Eq)]
pub struct PoxConstants {
    /// Length of a reward cycle, in burn blocks.
    pub reward_cycle_length: u32,
    /// Length of the prepare phase, in burn blocks.
    pub prepare_length: u32,
    /// Burn height at which PoX rewards begin to phase out.
    pub sunset_start: u64,
    /// Burn height at which PoX rewards have ended.
    pub sunset_end: u64,
    /// Burn height at which tokens locked by the first PoX contract unlock.
    pub v1_unlock_height: u32,
}

/// The built-in PoX parameters that overrides start from.
#[derive(Debug, Clone, Copy, PartialEq, Eq)]
pub struct PoxDefaults {
    /// Those of mainnet.
    pub mainnet: PoxConstants,
    /// Those of a Nakamoto testnet.
    pub nakamoto_testnet: PoxConstants,
}

/// PoX settings in the `[burnchain]` section of a node config.
#[derive(Debug, Clone, Copy, PartialEq, Eq)]
pub struct BurnchainOverrides {
    /// Replaces the reward-cycle length.
    pub pox_reward_length: Option<u32>,
    /// Replaces the prepare-phase length.
    pub pox_prepare_length: Option<u32>,
    /// Replaces the start of the sunset.
    pub sunset_start: Option<u32>,
    /// Replaces the end of the sunset.
    pub sunset_end: Option<u32>,
    /// Replaces the unlock height of the first PoX contract.
    pub pox_2_activation: Option<u32>,
}

/// The `[burnchain]` section that a node config file was found to hold.
#[derive(Debug, PartialEq, Eq)]
pub struct BurnchainConfig<'a> {
    /// Path of the file.
    pub path: &'a str,
    /// The section, if the file has one, or why the file could not be parsed.
    pub section: Result<Option<BurnchainOverrides>, String>,
}

/// What a node config file was found to say of epoch 3.4.
#[derive(Debug, PartialEq, Eq)]
pub enum EpochRead {
    /// The file could not be parsed.
    ParseFailed(String),
    /// The file was parsed, and is not a valid config.
    LoadFailed(String),
    /// The start height of epoch 3.4, if the config defines that epoch.
    Epoch34Start(Option<u64>),
}

/// The epoch schedule of a node config file.
#[derive(Debug, PartialEq, Eq)]
pub struct EpochConfig<'a> {
    /// Path of the file.
    pub path: &'a str,
    /// What it says of epoch 3.4.
    pub read: EpochRead,
}

/// Why a node config, or a height held against it, was refused.
#[derive(Debug, PartialEq, Eq)]
pub enum ConfigError<'a> {
    /// The config file could not be parsed.
    Parse {
        /// Path of the file.
        path: &'a str,
        /// Why it could not.
        cause: String,
    },
    /// The config file is not a valid config.
    Load {
        /// Path of the file.
        path: &'a str,
        /// Why it is not.
        cause: String,
    },
    /// The config does not define epoch 3.4.
    Epoch34Missing {
        /// Path of the file.
        path: &'a str,
    },
    /// The height is too low for a snapshot.
    BelowMinimum {
        /// The height.
        height: u64,
        /// The lowest height that is accepted.
        min: u64,
    },
    /// A network other than mainnet was given no config.
    ConfigRequired,
}

impl<'a> ConfigError<'a> {
    /// The message of the error.
    pub open spec fn text(self) -> Seq<char> {
        match self {
            ConfigError::Parse { path, cause } => "Failed to parse config file '"@ + path@ + "': "@
                + cause@,
            ConfigError::Load { path, cause } => "Failed to load config '"@ + path@ + "': "@
                + cause@,
            ConfigError::Epoch34Missing { path } => "Error: config '"@ + path@
                + "' does not define epoch 3.4.\nEpoch 3.4 activation height is required to validate --tenure-start-bitcoin-height."@,
            ConfigError::BelowMinimum { height, min } => "Error: --tenure-start-bitcoin-height "@
                + decimal_text(height as nat) + " is below the minimum acceptable height "@
                + decimal_text(min as nat)
                + ".\nA squashed snapshot can only be used from epoch 3.4 onwards. The tenure at height "@
                + decimal_text(min as nat)
                + " is the last tenure of epoch 3.3; its blocks are the last ones included before epoch 3.4 activates."@,
            ConfigError::ConfigRequired => "Error: --config is required for non-mainnet networks.\nEach testnet has its own PoX parameters (reward cycle length, prepare phase length, etc.) that cannot be inferred from the database. Pass the node config TOML with --config."@,
        }
    }

    /// Renders the error for the operator.
    pub fn message(&self) -> (s: String)
        ensures
            s@ == self.text(),
    {
        match self {
            ConfigError::Parse { path, cause } => String::from_str(
                "Failed to parse config file '",
            ).concat(path).concat("': ").concat(cause.as_str()),
            ConfigError::Load { path, cause } => String::from_str("Failed to load config '").concat(
                path,
            ).concat("': ").concat(cause.as_str()),
            ConfigError::Epoch34Missing { path } => String::from_str("Error: config '").concat(
                path,
            ).concat(
                "' does not define epoch 3.4.\nEpoch 3.4 activation height is required to validate --tenure-start-bitcoin-height.",
            ),
            ConfigError::BelowMinimum { height, min } => String::from_str(
                "Error: --tenure-start-bitcoin-height ",
            ).concat(decimal(*height).as_str()).concat(
                " is below the minimum acceptable height ",
            ).concat(decimal(*min).as_str()).concat(
                ".\nA squashed snapshot can only be used from epoch 3.4 onwards. The tenure at height ",
            ).concat(decimal(*min).as_str()).concat(
                " is the last tenure of epoch 3.3; its blocks are the last ones included before epoch 3.4 activates.",
            ),
            ConfigError::ConfigRequired => String::from_str(
                "Error: --config is required for non-mainnet networks.\nEach testnet has its own PoX parameters (reward cycle length, prepare phase length, etc.) that cannot be inferred from the database. Pass the node config TOML with --config.",
            ),
        }
    }
}

/// The lowest Bitcoin height that a snapshot may be taken at: the last tenure
/// of epoch 3.3.
pub open spec fn minimum_tenure_height<'a>(mainnet: bool, config: Option<EpochConfig<'a>>) -> Result<
    u64,
    ConfigError<'a>,
> {
    if mainnet {
        Ok(MAINNET_MIN_TENURE_HEIGHT)
    } else {
        match config->0.read {
            EpochRead::ParseFailed(cause) => Err(
                ConfigError::Parse { path: config->0.path, cause },
            ),
            EpochRead::LoadFailed(cause) => Err(ConfigError::Load { path: config->0.path, cause }),
            EpochRead::Epoch34Start(None) => Err(
                ConfigError::Epoch34Missing { path: config->0.path },
            ),
            EpochRead::Epoch34Start(Some(start)) => Ok((start - 1) as u64),
        }
    }
}

/// The verdict on a tenure that starts at `bitcoin_height`.
pub open spec fn height_verdict<'a>(
    bitcoin_height: u32,
    mainnet: bool,
    config: Option<EpochConfig<'a>>,
) -> Result<(), ConfigError<'a>> {
    match minimum_tenure_height(mainnet, config) {
        Err(e) => Err(e),
        Ok(min) => if bitcoin_height < min {
            Err(ConfigError::BelowMinimum { height: bitcoin_height as u64, min })
        } else {
            Ok(())
        },
    }
}

/// Accepts `bitcoin_height` if it is at least that of the last tenure of epoch
/// 3.3: a squashed snapshot can only be used from epoch 3.4 onwards.
///
/// Mainnet has a fixed minimum and needs no config; elsewhere the minimum is
/// one below the start of epoch 3.4.
pub fn enforce_minimum_tenure_height<'a>(
    bitcoin_height: u32,
    mainnet: bool,
    config: Option<EpochConfig<'a>>,
) -> (r: Result<(), ConfigError<'a>>)
    requires
        mainnet || config is Some,
        !mainnet ==> config->0.read != EpochRead::Epoch34Start(Some(0)),
    ensures
        r == height_verdict(bitcoin_height, mainnet, config),
{
    let height: u64 = bitcoin_height as u64;
    let min: u64 = match (mainnet, config) {
        (false, Some(config)) => match config.read {
            EpochRead::ParseFailed(cause) => {
                return Err(ConfigError::Parse { path: config.path, cause });
            },
            EpochRead::LoadFailed(cause) => {
                return Err(ConfigError::Load { path: config.path, cause });
            },
            EpochRead::Epoch34Start(None) => {
                return Err(ConfigError::Epoch34Missing { path: config.path });
            },
            EpochRead::Epoch34Start(Some(start)) => start - 1,
        },
        _ => MAINNET_MIN_TENURE_HEIGHT,
    };
    if height < min {
        return Err(ConfigError::BelowMinimum { height, min });
    }
    Ok(())
}

/// `pox` with each setting that `section` holds put in its place.
pub open spec fn overridden(pox: PoxConstants, section: Option<BurnchainOverrides>) -> PoxConstants {
    match section {
        None => pox,
        Some(bc) => PoxConstants {
            reward_cycle_length: bc.pox_reward_length.unwrap_or(pox.reward_cycle_length),
            prepare_length: bc.pox_prepare_length.unwrap_or(pox.prepare_length),
            sunset_start: match bc.sunset_start {
                Some(v) => v as u64,
                None => pox.sunset_start,
            },
            sunset_end: match bc.sunset_end {
                Some(v) => v as u64,
                None => pox.sunset_end,
            },
            v1_unlock_height: bc.pox_2_activation.unwrap_or(pox.v1_unlock_height),
        },
    }
}

/// The lines that tell the operator of a replaced reward-cycle or prepare-phase
/// length.
pub open spec fn override_notices(section: Option<BurnchainOverrides>) -> Seq<Seq<char>> {
    match section {
        None => Seq::empty(),
        Some(bc) => {
            let reward: Seq<Seq<char>> = match bc.pox_reward_length {
                Some(v) => seq![
                    "Config override: pox_reward_length = "@ + decimal_text(v as nat),
                ],
                None => Seq::empty(),
            };
            let prepare: Seq<Seq<char>> = match bc.pox_prepare_length {
                Some(v) => seq![
                    "Config override: pox_prepare_length = "@ + decimal_text(v as nat),
                ],
                None => Seq::empty(),
            };
            reward + prepare
        },
    }
}

/// The texts of a list of lines.
pub open spec fn line_texts(lines: Seq<String>) -> Seq<Seq<char>> {
    lines.map_values(|line: String| line@)
}

/// Applies the PoX settings of a node config to `pox` and returns the lines to
/// show the operator. A file that could not be parsed leaves `pox` as it was.
pub fn apply_config_overrides<'a>(config: BurnchainConfig<'a>, pox: &mut PoxConstants) -> (r: Result<
    Vec<String>,
    ConfigError<'a>,
>)
    ensures
        match config.section {
            Err(cause) => {
                &&& r == Err::<Vec<String>, ConfigError<'a>>(
                    ConfigError::Parse { path: config.path, cause },
                )
                &&& *final(pox) == *old(pox)
            },
            Ok(section) => {
                &&& r matches Ok(notices)
                &&& line_texts(notices@) == override_notices(section)
                &&& *final(pox) == overridden(*old(pox), section)
            },
        },
        r is Ok <==> config.section is Ok,
        !(config.section matches Ok(Some(_))) ==> *final(pox) == *old(pox),
        config.section matches Ok(Some(bc)) ==> {
            &&& final(pox).reward_cycle_length == match bc.pox_reward_length {
                Some(v) => v,
                None => old(pox).reward_cycle_length,
            }
            &&& final(pox).prepare_length == match bc.pox_prepare_length {
                Some(v) => v,
                None => old(pox).prepare_length,
            }
            &&& final(pox).sunset_start == match bc.sunset_start {
                Some(v) => v as u64,
                None => old(pox).sunset_start,
            }
            &&& final(pox).sunset_end == match bc.sunset_end {
                Some(v) => v as u64,
                None => old(pox).sunset_end,
            }
            &&& final(pox).v1_unlock_height == match bc.pox_2_activation {
                Some(v) => v,
                None => old(pox).v1_unlock_height,
            }
        },
{
    let mut notices: Vec<String> = Vec::new();
    let bc = match config.section {
        Err(cause) => {
            return Err(ConfigError::Parse { path: config.path, cause });
        },
        Ok(None) => {
            assert(line_texts(notices@) =~= Seq::<Seq<char>>::empty());
            return Ok(notices);
        },
        Ok(Some(bc)) => bc,
    };
    if let Some(v) = bc.pox_reward_length {
        notices.push(
            String::from_str("Config override: pox_reward_length = ").concat(
                decimal(v as u64).as_str(),
            ),
        );
        pox.reward_cycle_length = v;
    }
    if let Some(v) = bc.pox_prepare_length {
        notices.push(
            String::from_str("Config override: pox_prepare_length = ").concat(
                decimal(v as u64).as_str(),
            ),
        );
        pox.prepare_length = v;
    }
    if let Some(v) = bc.sunset_start {
        pox.sunset_start = v as u64;
    }
    if let Some(v) = bc.sunset_end {
        pox.sunset_end = v as u64;
    }
    if let Some(v) = bc.pox_2_activation {
        pox.v1_unlock_height = v;
    }
    assert(line_texts(notices@) =~= override_notices(Some(bc)));
    Ok(notices)
}

/// Builds the PoX constants of a network, with the lines to show the operator.
///
/// On mainnet the built-in constants are canonical and a config may override
/// them; any other network starts from the Nakamoto testnet constants and needs
/// a config, because each testnet has its own PoX parameters.
pub fn build_pox_constants<'a>(
    mainnet: bool,
    defaults: PoxDefaults,
    config: Option<BurnchainConfig<'a>>,
) -> (r: Result<(PoxConstants, Vec<String>), ConfigError<'a>>)
    ensures
        match config {
            None => if mainnet {
                &&& r matches Ok((pox, notices))
                &&& pox == defaults.mainnet
                &&& notices@.len() == 0
            } else {
                r == Err::<(PoxConstants, Vec<String>), ConfigError<'a>>(
                    ConfigError::ConfigRequired,
                )
            },
            Some(BurnchainConfig { path, section: Err(cause) }) => r == Err::<
                (PoxConstants, Vec<String>),
                ConfigError<'a>,
            >(ConfigError::Parse { path, cause }),
            Some(BurnchainConfig { path, section: Ok(section) }) => {
                &&& r matches Ok((pox, notices))
                &&& pox == overridden(
                    if mainnet {
                        defaults.mainnet
                    } else {
                        defaults.nakamoto_testnet
                    },
                    section,
                )
                &&& line_texts(notices@) == override_notices(section)
            },
        },
        r is Ok <==> match config {
            Some(config) => config.section is Ok,
            None => mainnet,
        },
        r matches Ok((pox, _)) ==> {
            let base = if mainnet {
                defaults.mainnet
            } else {
                defaults.nakamoto_testnet
            };
            match config {
                Some(BurnchainConfig { section: Ok(Some(bc)), .. }) => {
                    &&& pox.reward_cycle_length == match bc.pox_reward_length {
                        Some(v) => v,
                        None => base.reward_cycle_length,
                    }
                    &&& pox.prepare_length == match bc.pox_prepare_length {
                        Some(v) => v,
                        None => base.prepare_length,
                    }
                    &&& pox.sunset_start == match bc.sunset_start {
                        Some(v) => v as u64,
                        None => base.sunset_start,
                    }
                    &&& pox.sunset_end == match bc.sunset_end {
                        Some(v) => v as u64,
                        None => base.sunset_end,
                    }
                    &&& pox.v1_unlock_height == match bc.pox_2_activation {
                        Some(v) => v,
                        None => base.v1_unlock_height,
                    }
                },
                _ => pox == base,
            }
        },
{
    let mut pox = if mainnet {
        defaults.mainnet
    } else {
        defaults.nakamoto_testnet
    };
    match config {
        Some(config) => match apply_config_overrides(config, &mut pox) {
            Ok(notices) => Ok((pox, notices)),
            Err(e) => Err(e),
        },
        None => if mainnet {
            Ok((pox, Vec::new()))
        } else {
            Err(ConfigError::ConfigRequired)
        },
    }
}

/// Each setting is applied on its own: where the section holds it, its constant
/// takes the value set, whatever the other settings are, and where the section
/// does not, the constant stays as it was.
pub proof fn each_setting_is_applied_alone(pox: PoxConstants, bc: BurnchainOverrides)
    ensures
        ({
            let after = overridden(pox, Some(bc));
            &&& bc.pox_reward_length matches Some(v) ==> after.reward_cycle_length == v
            &&& bc.pox_reward_length is None ==> after.reward_cycle_length
                == pox.reward_cycle_length
            &&& bc.pox_prepare_length matches Some(v) ==> after.prepare_length == v
            &&& bc.pox_prepare_length is None ==> after.prepare_length == pox.prepare_length
            &&& bc.sunset_start matches Some(v) ==> after.sunset_start == v
            &&& bc.sunset_start is None ==> after.sunset_start == pox.sunset_start
            &&& bc.sunset_end matches Some(v) ==> after.sunset_end == v
            &&& bc.sunset_end is None ==> after.sunset_end == pox.sunset_end
            &&& bc.pox_2_activation matches Some(v) ==> after.v1_unlock_height == v
            &&& bc.pox_2_activation is None ==> after.v1_unlock_height == pox.v1_unlock_height
        }),
{
}

/// The operator is told of a reward-cycle length and of a prepare-phase length
/// exactly if the section sets them, in that order, each with the value that
/// then stands in the constants, and of nothing else.
pub proof fn notices_tell_what_was_applied(pox: PoxConstants, bc: BurnchainOverrides)
    ensures
        ({
            let after = overridden(pox, Some(bc));
            let lines = override_notices(Some(bc));
            let reward = "Config override: pox_reward_length = "@ + decimal_text(
                after.reward_cycle_length as nat,
            );
            let prepare = "Config override: pox_prepare_length = "@ + decimal_text(
                after.prepare_length as nat,
            );
            &&& bc.pox_reward_length is Some && bc.pox_prepare_length is Some ==> lines.len() == 2
            &&& bc.pox_reward_length is Some != bc.pox_prepare_length is Some ==> lines.len() == 1
            &&& bc.pox_reward_length is None && bc.pox_prepare_length is None ==> lines.len() == 0
            &&& bc.pox_reward_length is Some ==> lines.first() == reward
            &&& bc.pox_prepare_length is Some ==> lines.last() == prepare
        }),
        override_notices(None).len() == 0,
{
}

/// The texts of a list of lines are those of each line in turn, and no others.
pub proof fn each_line_has_its_text(lines: Seq<String>)
    ensures
        line_texts(lines).len() == lines.len(),
        forall|i: int| 0 <= i < lines.len() ==> #[trigger] line_texts(lines)[i] == lines[i]@,
{
}

/// The messages are fixed words around the facts that they tell, in the same
/// order whatever the facts are.
pub proof fn config_messages_quote_their_facts<'a>() -> (words: Seq<Seq<char>>)
    ensures
        forall|path: &'a str, cause: String|
            #[trigger] (ConfigError::Parse { path, cause }).text() == words[0] + path@
                + words[1] + cause@,
        forall|path: &'a str, cause: String|
            #[trigger] (ConfigError::Load { path, cause }).text() == words[2] + path@
                + words[1] + cause@,
        forall|path: &'a str|
            #[trigger] (ConfigError::Epoch34Missing { path }).text() == words[3] + path@
                + words[4],
        forall|height: u64, min: u64|
            #[trigger] (ConfigError::BelowMinimum { height, min }).text() == words[5]
                + decimal_text(height as nat) + words[6] + decimal_text(min as nat) + words[7]
                + decimal_text(min as nat) + words[8],
{
    seq![
        "Failed to parse config file '"@,
        "': "@,
        "Failed to load config '"@,
        "Error: config '"@,
        "' does not define epoch 3.4.\nEpoch 3.4 activation height is required to validate --tenure-start-bitcoin-height."@,
        "Error: --tenure-start-bitcoin-height "@,
        " is below the minimum acceptable height "@,
        ".\nA squashed snapshot can only be used from epoch 3.4 onwards. The tenure at height "@,
        " is the last tenure of epoch 3.3; its blocks are the last ones included before epoch 3.4 activates."@,
    ]
}

/// Applying the settings of a config a second time changes nothing.
pub proof fn overrides_are_idempotent(pox: PoxConstants, section: Option<BurnchainOverrides>)
    ensures
        overridden(overridden(pox, section), section) == overridden(pox, section),
{
}

/// A config without any of the settings leaves every constant as it was.
pub proof fn empty_section_overrides_nothing(pox: PoxConstants)
    ensures
        overridden(pox, None) == pox,
        overridden(
            pox,
            Some(
                BurnchainOverrides {
                    pox_reward_length: None,
                    pox_prepare_length: None,
                    sunset_start: None,
                    sunset_end: None,
                    pox_2_activation: None,
                },
            ),
        ) == pox,
{
}

/// On mainnet the verdict is the same whatever the config says, and accepts the
/// heights from the fixed minimum on.
pub proof fn mainnet_verdict_ignores_config<'a>(
    bitcoin_height: u32,
    config: Option<EpochConfig<'a>>,
    other: Option<EpochConfig<'a>>,
)
    ensures
        height_verdict(bitcoin_height, true, config) == height_verdict(bitcoin_height, true, other),
        height_verdict(bitcoin_height, true, config) is Ok <==> bitcoin_height >= 943_331,
        height_verdict(bitcoin_height, true, config) matches Err(e) ==> e == (
        ConfigError::BelowMinimum { height: bitcoin_height as u64, min: 943_331 }),
{
}

/// Off mainnet, a height is accepted exactly if the config defines epoch 3.4
/// and the burn block after that height is at or past the start of the epoch:
/// the tenure is the last of epoch 3.3 or a later one.
pub proof fn accepted_tenure_reaches_epoch_34<'a>(bitcoin_height: u32, config: EpochConfig<'a>)
    requires
        config.read != EpochRead::Epoch34Start(Some(0)),
    ensures
        height_verdict(bitcoin_height, false, Some(config)) is Ok <==> (config.read matches
            EpochRead::Epoch34Start(Some(start)) && bitcoin_height + 1 >= start),
{
}

/// Off mainnet, a refusal says what is so: how the config failed, that it does
/// not define epoch 3.4, or the height and the one below the start of the epoch.
pub proof fn height_refusals_are_true<'a>(bitcoin_height: u32, config: EpochConfig<'a>)
    requires
        config.read != EpochRead::Epoch34Start(Some(0)),
    ensures
        height_verdict(bitcoin_height, false, Some(config)) matches Err(e) ==> match e {
            ConfigError::Parse { path, cause } => path == config.path && config.read
                == EpochRead::ParseFailed(cause),
            ConfigError::Load { path, cause } => path == config.path && config.read
                == EpochRead::LoadFailed(cause),
            ConfigError::Epoch34Missing { path } => path == config.path && config.read
                == EpochRead::Epoch34Start(None),
            ConfigError::BelowMinimum { height, min } => {
                &&& height == bitcoin_height
                &&& height < min
                &&& config.read matches EpochRead::Epoch34Start(Some(start))
                &&& min + 1 == start
            },
            ConfigError::ConfigRequired => false,
        },
{
}

/// A network that accepts a height accepts every greater one.
pub proof fn acceptance_is_upward_closed<'a>(
    lower: u32,
    higher: u32,
    mainnet: bool,
    config: Option<EpochConfig<'a>>,
)
    requires
        lower <= higher,
        height_verdict(lower, mainnet, config) is Ok,
    ensures
        height_verdict(higher, mainnet, config) is Ok,
{
}

} // verus!
