use zhihu_cli::commands::auth::validate_secret;
use zhihu_cli::config::{join_path, Config};
use zhihu_cli::error::ZhihuError;

fn config(secret: Option<&str>) -> Config {
    Config { access_secret: secret.map(str::to_string) }
}

#[test]
fn resolve_secret_prefers_env_over_config() {
    let mut cfg = Config::default();
    cfg.set_secret("from-config".into());
    assert_eq!(Config::resolve_secret(Some("from-env"), &cfg).unwrap(), "from-env");
}

#[test]
fn resolve_secret_returns_env_when_config_missing() {
    assert_eq!(Config::resolve_secret(Some("env-only"), &Config::default()).unwrap(), "env-only");
}

#[test]
fn resolve_secret_falls_back_to_config() {
    let mut cfg = Config::default();
    cfg.set_secret("from-config".into());
    assert_eq!(Config::resolve_secret(None, &cfg).unwrap(), "from-config");
}

#[test]
fn resolve_secret_returns_config_when_env_unset() {
    let mut cfg = Config::default();
    cfg.set_secret("cfg-only".into());
    assert_eq!(Config::resolve_secret(None, &cfg).unwrap(), "cfg-only");
}

#[test]
fn resolve_secret_errors_when_missing() {
    let err = Config::resolve_secret(None, &Config::default()).unwrap_err();
    assert!(matches!(err, ZhihuError::MissingSecret));
}

#[test]
fn resolve_secret_trims_and_skips_blank_values() {
    assert_eq!(Config::resolve_secret(Some("  e  "), &config(Some("c"))).unwrap(), "e");
    assert_eq!(Config::resolve_secret(Some("   "), &config(Some(" c "))).unwrap(), "c");
    assert!(matches!(
        Config::resolve_secret(Some(""), &config(Some("\t"))),
        Err(ZhihuError::MissingSecret)
    ));
    assert_eq!(Config::env_secret(Some(" x ")), Some("x".to_string()));
    assert_eq!(Config::env_secret(Some(" ")), None);
    assert_eq!(Config::env_secret(None), None);
}

#[test]
fn set_secret_replaces_the_stored_secret() {
    let mut cfg = config(Some("old"));
    cfg.set_secret("new".into());
    assert_eq!(cfg.access_secret.as_deref(), Some("new"));
}

#[test]
fn config_path_lives_in_home_directory() {
    assert_eq!(Config::config_path(Some("/home/u")).unwrap(), "/home/u/.zhihu-cli/config.toml");
    assert_eq!(Config::config_path(Some("/home/u/")).unwrap(), "/home/u/.zhihu-cli/config.toml");
    assert_eq!(Config::config_dir(Some("/root")).unwrap(), "/root/.zhihu-cli");
    assert!(matches!(Config::config_path(None), Err(ZhihuError::ConfigDirNotFound)));
}

#[test]
fn join_path_matches_std_path_join() {
    for (base, name) in [("/a", "b"), ("/a/", "b"), ("", "b"), ("a", "b.toml"), ("/", "x")] {
        let expected = std::path::Path::new(base).join(name);
        assert_eq!(join_path(base, name), expected.to_str().unwrap());
    }
}

#[test]
fn saved_secret_is_the_secret_used() {
    for input in ["  my-key  ", "k", "\tx y\n"] {
        let accepted = validate_secret(input).unwrap();
        let mut cfg = Config::default();
        cfg.set_secret(accepted.clone());
        assert_eq!(Config::resolve_secret(None, &cfg).unwrap(), accepted);
        assert_eq!(Config::resolve_secret(Some("  "), &cfg).unwrap(), accepted);
    }
}
