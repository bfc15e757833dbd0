use builder_monitor::config::{Config, ConfigFile, Player};

#[test]
fn save_config_hands_out_the_current_configuration() {
    let mut file = ConfigFile::default();
    file.config.player = Player {
        lvl: 106,
        available_point: 200,
        base_hp: 500,
    };
    file.config.items.weapon = "Idol".to_string();
    let snapshot = file.save_config();
    assert_eq!(snapshot.player.lvl, 106);
    assert_eq!(snapshot.player.available_point, 200);
    assert_eq!(snapshot.player.base_hp, 500);
    assert_eq!(snapshot.items.weapon, "Idol");
}

#[test]
fn default_configuration_is_empty() {
    let config = Config::default();
    assert!(config.items.helmets.is_empty());
    assert!(config.items.weapon.is_empty());
    assert!(config.items.illegal_combinations.is_none());
    assert_eq!(config.player.lvl, 0);
    assert!(!config.hppeng.log_builds);
    assert_eq!(config.hppeng.db_retry_count, 0);
    assert!(config.api.is_none());
    assert!(config.threshold_first.is_none());
    assert!(config.threshold_second.is_none());
    assert!(config.threshold_third.is_none());
    assert!(config.threshold_fourth.is_none());
    assert!(config.threshold_fifth.is_none());
}

#[test]
fn default_config_file_has_no_error() {
    let file = ConfigFile::default();
    assert!(file.error_message.is_none());
}
