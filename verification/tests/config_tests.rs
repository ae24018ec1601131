use torizon_cloud_cli::config::{
    apply_login, config_dir_under, env_profile, credentials_path, credentials_path_under, join_path, Config,
    ConfigError, Profile, DEFAULT_API_BASE, DEFAULT_TOKEN_URL,
};

fn profile(id: &str) -> Profile {
    Profile {
        client_id: id.to_string(),
        client_secret: "secret".to_string(),
        api_base: None,
        token_url: None,
    }
}

#[test]
fn defaults_fall_back_to_constants() {
    let p = profile("a");
    assert_eq!(p.api_base(), DEFAULT_API_BASE);
    assert_eq!(p.token_url(), DEFAULT_TOKEN_URL);
}

#[test]
fn overrides_take_precedence() {
    let p = Profile {
        api_base: Some("https://example.test/api".to_string()),
        ..profile("a")
    };
    assert_eq!(p.api_base(), "https://example.test/api");
}

#[test]
fn resolve_uses_explicit_name() {
    let mut cfg = Config::default();
    cfg.profiles.insert("staging".into(), profile("s"));
    cfg.profiles.insert("prod".into(), profile("p"));
    assert_eq!(cfg.resolve(Some("prod")).unwrap().client_id, "p");
}

#[test]
fn resolve_uses_default_then_sole_profile() {
    let mut cfg = Config::default();
    cfg.profiles.insert("only".into(), profile("o"));
    // sole profile is used when no name and no default
    assert_eq!(cfg.resolve(None).unwrap().client_id, "o");
    // explicit default wins even with several profiles
    cfg.profiles.insert("other".into(), profile("x"));
    cfg.default = Some("other".into());
    assert_eq!(cfg.resolve(None).unwrap().client_id, "x");
}

#[test]
fn resolve_errors_when_ambiguous() {
    let mut cfg = Config::default();
    cfg.profiles.insert("a".into(), profile("a"));
    cfg.profiles.insert("b".into(), profile("b"));
    assert!(cfg.resolve(None).is_err());
    assert!(cfg.resolve(Some("missing")).is_err());
}

#[test]
fn token_url_override_takes_precedence() {
    let p = Profile {
        token_url: Some("https://kc.example.test/token".to_string()),
        ..profile("a")
    };
    assert_eq!(p.token_url(), "https://kc.example.test/token");
    assert_eq!(p.api_base(), DEFAULT_API_BASE);
}

#[test]
fn resolve_reports_which_error() {
    let mut cfg = Config::default();
    assert!(matches!(cfg.resolve(None), Err(ConfigError::NoProfileSelected)));
    cfg.profiles.insert("a".into(), profile("a"));
    cfg.profiles.insert("b".into(), profile("b"));
    assert!(matches!(cfg.resolve(None), Err(ConfigError::NoProfileSelected)));
    match cfg.resolve(Some("missing")) {
        Err(ConfigError::ProfileNotFound(name)) => assert_eq!(name, "missing"),
        other => panic!("unexpected {:?}", other),
    }
    // a default naming a missing profile is reported as not found
    cfg.default = Some("gone".into());
    match cfg.resolve(None) {
        Err(ConfigError::ProfileNotFound(name)) => assert_eq!(name, "gone"),
        other => panic!("unexpected {:?}", other),
    }
    // an explicit name wins over the default
    assert_eq!(cfg.resolve(Some("b")).unwrap().client_id, "b");
}

#[test]
fn config_error_messages() {
    assert_eq!(
        ConfigError::NoConfigDir.message("/x/credentials.toml"),
        "could not determine the user config directory"
    );
    assert_eq!(
        ConfigError::ProfileNotFound("prod".to_string()).message("/x/credentials.toml"),
        "profile `prod` not found in /x/credentials.toml"
    );
    assert_eq!(
        ConfigError::NoProfileSelected.message("/x/credentials.toml"),
        "no profile specified and no default set; run `torizon login` first"
    );
}

#[test]
fn login_then_resolve_scenario() {
    let mut cfg = Config::default();
    apply_login(&mut cfg, "work", profile("w"), false);
    assert_eq!(cfg.default.as_deref(), Some("work"));
    assert_eq!(cfg.resolve(None).unwrap().client_id, "w");
    apply_login(&mut cfg, "home", profile("h"), true);
    // no_default keeps the existing default
    assert_eq!(cfg.default.as_deref(), Some("work"));
    assert_eq!(cfg.resolve(None).unwrap().client_id, "w");
    assert_eq!(cfg.resolve(Some("home")).unwrap().client_id, "h");
    // logging in again replaces the profile
    apply_login(&mut cfg, "home", profile("h2"), true);
    assert_eq!(cfg.resolve(Some("home")).unwrap().client_id, "h2");
    assert_eq!(cfg.profiles.len(), 2);
}

#[test]
fn no_default_never_marks_the_profile() {
    let mut cfg = Config::default();
    apply_login(&mut cfg, "ci", profile("c"), true);
    assert!(cfg.default.is_none());
    // the sole profile is still selected without a name
    assert_eq!(cfg.resolve(None).unwrap().client_id, "c");
    assert_eq!(cfg.resolve(Some("ci")).unwrap().client_id, "c");
}

#[test]
fn paths_are_joined_with_single_separators() {
    assert_eq!(join_path("/home/u/.config", "torizon"), "/home/u/.config/torizon");
    assert_eq!(join_path("/home/u/.config/", "torizon"), "/home/u/.config/torizon");
    assert_eq!(join_path("", "torizon"), "torizon");
    assert_eq!(config_dir_under("/home/u/.config"), "/home/u/.config/torizon");
    assert_eq!(
        credentials_path_under("/home/u/.config"),
        "/home/u/.config/torizon/credentials.toml"
    );
}

#[test]
fn credentials_path_is_under_the_config_dir() {
    match credentials_path() {
        Ok(p) => assert!(p.ends_with("torizon/credentials.toml"), "{}", p),
        Err(e) => assert!(matches!(e, ConfigError::NoConfigDir)),
    }
}

#[test]
fn environment_credentials_need_no_login() {
    let p = env_profile(None, Some("id".to_string()), Some("sec".to_string())).unwrap();
    assert_eq!(p.client_id, "id");
    assert_eq!(p.client_secret, "sec");
    assert_eq!(p.api_base(), DEFAULT_API_BASE);
    assert_eq!(p.token_url(), DEFAULT_TOKEN_URL);
    // an explicit profile name selects a stored profile
    assert!(env_profile(Some("prod"), Some("id".to_string()), Some("sec".to_string())).is_none());
    // both variables are needed, and neither may be empty
    assert!(env_profile(None, Some("id".to_string()), None).is_none());
    assert!(env_profile(None, None, Some("sec".to_string())).is_none());
    assert!(env_profile(None, Some(String::new()), Some("sec".to_string())).is_none());
}
