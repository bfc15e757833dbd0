//! The builder's configuration data model. Reading and writing the on-disk
//! form is the surrounding application's concern; the library owns the plain
//! values.

use vstd::prelude::*;

verus! {

/// Which equipment the optimizer may pick from.
pub struct Items {
    pub helmets: Vec<String>,
    pub chest_plates: Vec<String>,
    pub leggings: Vec<String>,
    pub boots: Vec<String>,
    pub rings: Vec<String>,
    pub bracelets: Vec<String>,
    pub necklaces: Vec<String>,
    pub weapon: String,
    pub illegal_combinations: Option<Vec<Vec<String>>>,
}

/// The character the optimizer builds for.
pub struct Player {
    pub lvl: i32,
    pub available_point: i16,
    pub base_hp: i32,
}

/// Settings for the build-site integration and its local database.
pub struct Hppeng {
    pub url_prefix: String,
    pub url_suffix: String,
    pub log_builds: bool,
    pub db_path: String,
    pub migrations_path: String,
    pub items_file: String,
    pub log_db_errors: bool,
    pub db_retry_count: u8,
}

/// Remote item-data API settings.
pub struct Api {
    pub url: String,
    pub version: String,
    pub module: String,
    pub query: String,
}

/// Minimum health the optimizer must reach.
pub struct ThresholdFirst {
    pub min_hp: Option<i32>,
}

/// Minimum sustain and damage statistics.
pub struct ThresholdSecond {
    pub min_hpr_raw: Option<i16>,
    pub min_hpr_pct: Option<i16>,
    pub min_mr: Option<i16>,
    pub min_ls: Option<i16>,
    pub min_ms: Option<i16>,
    pub min_spd: Option<i16>,
    pub min_sd_raw: Option<i16>,
    pub min_sd_pct: Option<i16>,
    pub min_exp_bonus: Option<i32>,
    pub min_hpr: Option<i32>,
}

/// Minimum elemental defenses.
pub struct ThresholdThird {
    pub min_earth_defense: Option<i16>,
    pub min_thunder_defense: Option<i16>,
    pub min_water_defense: Option<i16>,
    pub min_fire_defense: Option<i16>,
    pub min_air_defense: Option<i16>,
}

/// Minimum elemental damage bonuses.
pub struct ThresholdFourth {
    pub min_neutral_dam_pct: Option<i16>,
    pub min_earth_dam_pct: Option<i16>,
    pub min_thunder_dam_pct: Option<i16>,
    pub min_water_dam_pct: Option<i16>,
    pub min_fire_dam_pct: Option<i16>,
    pub min_air_dam_pct: Option<i16>,
}

/// Minimum skill points and effective health.
pub struct ThresholdFifth {
    pub min_earth_point: Option<i16>,
    pub min_thunder_point: Option<i16>,
    pub min_water_point: Option<i16>,
    pub min_fire_point: Option<i16>,
    pub min_air_point: Option<i16>,
    pub min_ehp: Option<i32>,
}

/// Everything the builder binary is configured with.
pub struct Config {
    pub items: Items,
    pub player: Player,
    pub hppeng: Hppeng,
    pub api: Option<Api>,
    pub threshold_first: Option<ThresholdFirst>,
    pub threshold_second: Option<ThresholdSecond>,
    pub threshold_third: Option<ThresholdThird>,
    pub threshold_fourth: Option<ThresholdFourth>,
    pub threshold_fifth: Option<ThresholdFifth>,
}

impl Default for Items {
    /// Empty selections.
    fn default() -> (items: Items)
        ensures
            items.helmets@.len() == 0,
            items.chest_plates@.len() == 0,
            items.leggings@.len() == 0,
            items.boots@.len() == 0,
            items.rings@.len() == 0,
            items.bracelets@.len() == 0,
            items.necklaces@.len() == 0,
            items.weapon@ == Seq::<char>::empty(),
            items.illegal_combinations is None,
    {
        Items {
            helmets: Vec::new(),
            chest_plates: Vec::new(),
            leggings: Vec::new(),
            boots: Vec::new(),
            rings: Vec::new(),
            bracelets: Vec::new(),
            necklaces: Vec::new(),
            weapon: String::new(),
            illegal_combinations: None,
        }
    }
}

impl Default for Player {
    /// A blank character.
    fn default() -> (player: Player)
        ensures
            player.lvl == 0,
            player.available_point == 0,
            player.base_hp == 0,
    {
        Player { lvl: 0, available_point: 0, base_hp: 0 }
    }
}

impl Default for Hppeng {
    /// Empty paths and URLs, no logging, no retries.
    fn default() -> (hppeng: Hppeng)
        ensures
            hppeng.url_prefix@ == Seq::<char>::empty(),
            hppeng.url_suffix@ == Seq::<char>::empty(),
            !hppeng.log_builds,
            hppeng.db_path@ == Seq::<char>::empty(),
            hppeng.migrations_path@ == Seq::<char>::empty(),
            hppeng.items_file@ == Seq::<char>::empty(),
            !hppeng.log_db_errors,
            hppeng.db_retry_count == 0,
    {
        Hppeng {
            url_prefix: String::new(),
            url_suffix: String::new(),
            log_builds: false,
            db_path: String::new(),
            migrations_path: String::new(),
            items_file: String::new(),
            log_db_errors: false,
            db_retry_count: 0,
        }
    }
}

impl Default for Config {
    /// Default sub-sections; every optional section absent.
    fn default() -> (config: Config)
        ensures
            config.items.helmets@.len() == 0,
            config.items.weapon@ == Seq::<char>::empty(),
            config.items.illegal_combinations is None,
            config.player.lvl == 0,
            config.player.available_point == 0,
            config.player.base_hp == 0,
            config.hppeng.db_retry_count == 0,
            !config.hppeng.log_builds,
            config.api is None,
            config.threshold_first is None,
            config.threshold_second is None,
            config.threshold_third is None,
            config.threshold_fourth is None,
            config.threshold_fifth is None,
    {
        Config {
            items: Items::default(),
            player: Player::default(),
            hppeng: Hppeng::default(),
            api: None,
            threshold_first: None,
            threshold_second: None,
            threshold_third: None,
            threshold_fourth: None,
            threshold_fifth: None,
        }
    }
}

/// The configuration tab's state: the current configuration and the message
/// of the last failure to load or apply one, if any.
pub struct ConfigFile {
    pub error_message: Option<String>,
    pub config: Config,
}

impl ConfigFile {
    /// The configuration to persist. Writing it to disk, and ignoring a
    /// failure to do so, is the surrounding application's part.
    pub fn save_config(&self) -> (config: &Config)
        ensures
            config == &self.config,
    {
        &self.config
    }
}

impl Default for ConfigFile {
    /// No error yet, default configuration.
    fn default() -> (file: ConfigFile)
        ensures
            file.error_message is None,
            file.config.api is None,
    {
        ConfigFile { error_message: None, config: Config::default() }
    }
}

} // verus!
