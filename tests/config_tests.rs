use imgcache::config::{Config, ServerConfig};

fn server(cache_max_mb: u64) -> ServerConfig {
    ServerConfig {
        bind: "127.0.0.1".to_string(),
        port: 8080,
        cache_enabled: true,
        cache_dir: "cache".to_string(),
        cache_ttl_secs: 60,
        cache_max_mb,
        default_format: "avif".to_string(),
    }
}

#[test]
fn cache_max_bytes_is_mebibytes() {
    assert_eq!(server(0).cache_max_bytes(), 0);
    assert_eq!(server(1).cache_max_bytes(), 1_048_576);
    assert_eq!(server(1024).cache_max_bytes(), 1_073_741_824);
}

#[test]
fn template_names_every_section() {
    let t = Config::template();
    assert!(t.contains("[server]"));
    assert!(t.contains("[avif]"));
    assert!(t.contains("[[backends]]"));
    assert!(t.contains("cache_max_mb"));
}

#[test]
fn template_is_valid_toml() {
    let value: toml::Value = toml::from_str(Config::template()).unwrap();
    assert_eq!(value["server"]["default_format"].as_str(), Some("avif"));
    assert_eq!(value["avif"]["quality"].as_integer(), Some(70));
}
