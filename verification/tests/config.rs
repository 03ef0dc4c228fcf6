use synoplayer::config::model::AppConfig;

#[test]
fn base_url_https() {
    let mut config = AppConfig::default();
    config.server.host = "nas.local".to_string();
    config.server.port = 5001;
    config.server.https = true;
    assert_eq!(config.base_url(), "https://nas.local:5001");
}

#[test]
fn base_url_http() {
    let mut config = AppConfig::default();
    config.server.host = "nas.local".to_string();
    config.server.port = 5000;
    config.server.https = false;
    assert_eq!(config.base_url(), "http://nas.local:5000");
}

#[test]
fn default_config_values() {
    let config = AppConfig::default();
    assert_eq!(config.server.host, "localhost");
    assert!(config.cache.max_size_mb > 0);
    assert_eq!(config.base_url(), format!("https://localhost:{}", config.server.port));
}

#[test]
fn config_and_session_paths_end_with_file_names() {
    assert!(AppConfig::config_path().ends_with("config.toml"));
    assert!(AppConfig::session_path().ends_with("session.json"));
}
