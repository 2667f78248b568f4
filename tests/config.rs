use gamevault::config::{get_config_path, is_absolute_path, resolve_path, AppConfig, ConfigError, ConfigLayer};

const EXE_DIR: &str = "/opt/gamevault";

fn empty_layer() -> ConfigLayer {
    ConfigLayer {
        game_library: None,
        database: None,
        cache: None,
        port: None,
        auto_open_browser: None,
        bind_address: None,
    }
}

#[test]
fn test_default_config() {
    let config = AppConfig::load(&Vec::new());
    assert!(config.is_ok());
}

#[test]
fn test_default_port() {
    let config = AppConfig::load(&Vec::new()).unwrap();
    assert_eq!(config.server.port, 3000);
}

#[test]
fn test_default_bind_address() {
    let config = AppConfig::load(&Vec::new()).unwrap();
    assert_eq!(config.server.bind_address, "127.0.0.1");
}

#[test]
fn test_default_auto_open_browser() {
    let config = AppConfig::load(&Vec::new()).unwrap();
    assert!(config.server.auto_open_browser);
}

#[test]
fn test_resolve_absolute_path() {
    let path = "/home/user/games";
    let resolved = resolve_path(EXE_DIR, path);
    assert!(is_absolute_path(&resolved));
    assert_eq!(resolved, path);
}

#[test]
fn test_resolve_relative_path() {
    let resolved = resolve_path(EXE_DIR, "./games");
    assert!(is_absolute_path(&resolved));
    assert!(resolved.contains("games"));
}

#[test]
fn test_database_url_format() {
    let config = AppConfig::load(&Vec::new()).unwrap();
    let db_url = config.database_url(EXE_DIR);
    assert!(db_url.starts_with("sqlite:"));
    assert!(db_url.contains("?mode=rwc"));
}

#[test]
fn default_paths_are_kept() {
    let config = AppConfig::load(&Vec::new()).unwrap();
    assert_eq!(config.paths.game_library, ".");
    assert_eq!(config.paths.database, "sqlite:./data/gamevault.db?mode=rwc");
    assert_eq!(config.paths.cache, "./cache");
}

#[test]
fn later_layer_wins_field_by_field() {
    let mut file = empty_layer();
    file.port = Some(8080);
    file.game_library = Some("D:\\Games".to_string());
    let mut env = empty_layer();
    env.port = Some(9000);
    let config = AppConfig::load(&vec![file, env]).unwrap();
    assert_eq!(config.server.port, 9000);
    assert_eq!(config.paths.game_library, "D:\\Games");
    assert_eq!(config.server.bind_address, "127.0.0.1");
}

#[test]
fn out_of_range_port_is_refused() {
    let mut layer = empty_layer();
    layer.port = Some(70000);
    let result = AppConfig::load(&vec![layer]);
    assert!(matches!(result, Err(ConfigError::InvalidPort(70000))));
    let mut negative = empty_layer();
    negative.port = Some(-1);
    assert!(matches!(AppConfig::load(&vec![negative]), Err(ConfigError::InvalidPort(-1))));
}

#[test]
fn database_path_becomes_url() {
    let mut layer = empty_layer();
    layer.database = Some("data/games.db".to_string());
    let config = AppConfig::load(&vec![layer]).unwrap();
    assert_eq!(config.database_url(EXE_DIR), "sqlite:/opt/gamevault/data/games.db?mode=rwc");
    assert_eq!(config.games_path(EXE_DIR), "/opt/gamevault/.");
    assert_eq!(config.cache_path("/opt/gamevault/"), "/opt/gamevault/./cache");
}

#[test]
fn windows_drive_paths_are_absolute() {
    assert!(is_absolute_path("C:\\Games"));
    assert_eq!(resolve_path(EXE_DIR, "C:\\Games"), "C:\\Games");
    assert!(!is_absolute_path("games"));
    assert_eq!(get_config_path(EXE_DIR), "/opt/gamevault/config.toml");
}
