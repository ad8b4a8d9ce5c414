use spotify_adblock::config::{
    config_home, load_config, locate, settle, size_accepted, Config, ConfigContents, ConfigError,
    ConfigHome, ConfigLocation, FoundConfig, MAX_CONFIG_SIZE,
};

fn list(patterns: &[&str]) -> Vec<String> {
    patterns.iter().map(|p| p.to_string()).collect()
}

fn found(contents: ConfigContents) -> Option<FoundConfig> {
    Some(FoundConfig { path: String::from("/etc/spotify-adblock/config.toml"), contents })
}

#[test]
fn empty_rules_match_nothing() {
    let config = Config::empty();
    assert!(config.allowlist.is_empty());
    assert!(config.denylist.is_empty());
    for text in ["", "a", "api-dealer.spotify.com"] {
        assert!(!config.is_allowlisted(text));
        assert!(!config.is_denylisted(text));
    }
}

#[test]
fn rules_hold_the_given_patterns_in_order() {
    let config = Config::from_patterns(&list(&["b+", "a+"]), &list(&["c", "d", "e"])).unwrap();
    assert_eq!(config.allowlist.patterns(), &["b+", "a+"]);
    assert_eq!(config.denylist.patterns(), &["c", "d", "e"]);
}

#[test]
fn rules_match_when_some_pattern_matches() {
    let config = Config::from_patterns(&list(&["^a+$", "b"]), &list(&["\\.mp3$"])).unwrap();
    assert!(config.is_allowlisted("aaa"));
    assert!(config.is_allowlisted("xbx"));
    assert!(!config.is_allowlisted("xax"));
    assert!(!config.is_allowlisted(""));
    assert!(config.is_denylisted("song.mp3"));
    assert!(!config.is_denylisted("song.mp3?x"));
    assert!(!config.is_denylisted("aaa"));
}

#[test]
fn patterns_are_regular_expressions_not_literals() {
    let config = Config::from_patterns(&list(&["a.c"]), &list(&[])).unwrap();
    assert!(config.is_allowlisted("abc"));
    assert!(config.is_allowlisted("a.c"));
    assert!(!config.is_allowlisted("ac"));
}

#[test]
fn two_empty_lists_compile() {
    let config = Config::from_patterns(&list(&[]), &list(&[])).unwrap();
    assert!(config.allowlist.is_empty() && config.denylist.is_empty());
}

#[test]
fn broken_allow_pattern_is_reported() {
    let error = Config::from_patterns(&list(&["ok", "("]), &list(&["fine"])).unwrap_err();
    assert!(matches!(error, ConfigError::Allowlist(_)));
    assert!(!error.message().is_empty());
}

#[test]
fn broken_deny_pattern_is_reported() {
    let error = Config::from_patterns(&list(&["ok"]), &list(&["[a-"])).unwrap_err();
    assert!(matches!(error, ConfigError::Denylist(_)));
    assert!(!error.message().is_empty());
}

#[test]
fn allow_list_is_reported_first() {
    let error = Config::from_patterns(&list(&["("]), &list(&[")"])).unwrap_err();
    assert!(matches!(error, ConfigError::Allowlist(_)));
}

#[test]
fn compiled_sets_are_put_together() {
    let allow = regex::RegexSet::new(["a"]);
    let deny = regex::RegexSet::new(["b"]);
    let config = Config::from_compiled(allow, deny).unwrap();
    assert!(config.is_allowlisted("a") && !config.is_allowlisted("b"));
    assert!(config.is_denylisted("b") && !config.is_denylisted("a"));
    let broken = regex::RegexSet::new(["("]);
    let message = broken.clone().unwrap_err().to_string();
    assert_eq!(
        Config::from_compiled(regex::RegexSet::new(["a"]), broken.clone()).unwrap_err(),
        ConfigError::Denylist(message.clone())
    );
    assert_eq!(
        Config::from_compiled(broken.clone(), broken).unwrap_err(),
        ConfigError::Allowlist(message)
    );
}

#[test]
fn first_existing_location_wins() {
    assert_eq!(locate(true, true, true), Some(ConfigLocation::WorkingDirectory));
    assert_eq!(locate(true, false, false), Some(ConfigLocation::WorkingDirectory));
    assert_eq!(locate(true, false, true), Some(ConfigLocation::WorkingDirectory));
    assert_eq!(locate(false, true, true), Some(ConfigLocation::ConfigHome));
    assert_eq!(locate(false, true, false), Some(ConfigLocation::ConfigHome));
    assert_eq!(locate(false, false, true), Some(ConfigLocation::SystemWide));
    assert_eq!(locate(false, false, false), None);
}

#[test]
fn configuration_home_comes_from_the_variable_first() {
    assert_eq!(config_home(true), ConfigHome::FromVariable);
    assert_eq!(config_home(false), ConfigHome::UnderHome);
}

#[test]
fn sets_built_with_other_options_are_read_under_them() {
    let folded = regex::RegexSetBuilder::new(["dealer"]).case_insensitive(true).build();
    let plain = regex::RegexSet::new(["dealer"]);
    let config = Config::from_compiled(folded, plain).unwrap();
    assert_eq!(config.allowlist.patterns(), config.denylist.patterns());
    assert!(config.is_allowlisted("DEALER"));
    assert!(!config.is_denylisted("DEALER"));
    assert!(config.is_denylisted("dealer"));
}

#[test]
fn locations_have_their_file_names() {
    assert_eq!(ConfigLocation::WorkingDirectory.file_name(), "config.toml");
    assert_eq!(ConfigLocation::ConfigHome.file_name(), "spotify-adblock/config.toml");
    assert_eq!(ConfigLocation::SystemWide.file_name(), "/etc/spotify-adblock/config.toml");
}

#[test]
fn size_limit_is_one_mebibyte() {
    assert_eq!(MAX_CONFIG_SIZE, 1024 * 1024);
    assert!(size_accepted(0));
    assert!(size_accepted(1048576));
    assert!(!size_accepted(1048577));
    assert!(!size_accepted(usize::MAX));
}

#[test]
fn missing_file_gives_empty_rules() {
    let loaded = load_config(None);
    assert_eq!(loaded.notice, None);
    assert_eq!(loaded.error.as_deref(), Some("[*] Error: No config file found"));
    assert!(loaded.config.allowlist.is_empty() && loaded.config.denylist.is_empty());
}

#[test]
fn unreadable_file_gives_empty_rules() {
    let loaded = load_config(found(ConfigContents::Unreadable(String::from("denied"))));
    assert_eq!(
        loaded.notice.as_deref(),
        Some("[*] Config file: /etc/spotify-adblock/config.toml")
    );
    assert_eq!(loaded.error.as_deref(), Some("[*] Error: Read config file (denied)"));
    assert!(loaded.config.allowlist.is_empty() && loaded.config.denylist.is_empty());
}

#[test]
fn oversized_file_gives_empty_rules() {
    let loaded = load_config(found(ConfigContents::TooLarge));
    assert_eq!(
        loaded.error.as_deref(),
        Some("[*] Error: Config file too large (exceeds 1048576 bytes)")
    );
    assert!(loaded.notice.is_some());
    assert!(loaded.config.allowlist.is_empty() && loaded.config.denylist.is_empty());
}

#[test]
fn invalid_file_gives_empty_rules() {
    let loaded = load_config(found(ConfigContents::Invalid(String::from("missing field"))));
    assert_eq!(loaded.error.as_deref(), Some("[*] Error: Parse config file (missing field)"));
    assert!(loaded.config.allowlist.is_empty() && loaded.config.denylist.is_empty());
}

#[test]
fn lists_are_compiled() {
    let loaded = load_config(found(ConfigContents::Lists {
        allowlist: list(&["^audio"]),
        denylist: list(&["ads", "track"]),
    }));
    assert_eq!(loaded.error, None);
    assert_eq!(
        loaded.notice.as_deref(),
        Some("[*] Config file: /etc/spotify-adblock/config.toml")
    );
    assert_eq!(loaded.config.allowlist.patterns(), &["^audio"]);
    assert_eq!(loaded.config.denylist.patterns(), &["ads", "track"]);
    assert!(loaded.config.is_allowlisted("audio.example"));
    assert!(loaded.config.is_denylisted("tracker"));
}

#[test]
fn broken_lists_give_empty_rules() {
    let loaded = load_config(found(ConfigContents::Lists {
        allowlist: list(&["fine"]),
        denylist: list(&["(broken"]),
    }));
    let error = loaded.error.unwrap();
    assert!(error.starts_with("[*] Error: Parse config file ("));
    assert!(error.ends_with(")"));
    assert!(error.len() > "[*] Error: Parse config file ()".len());
    assert!(loaded.config.allowlist.is_empty() && loaded.config.denylist.is_empty());
    assert!(!loaded.config.is_allowlisted("fine"));
}

#[test]
fn settled_compilation() {
    let (config, line) = settle(Config::from_patterns(&list(&["a"]), &list(&[])));
    assert_eq!(line, None);
    assert!(config.is_allowlisted("a"));
    let (config, line) = settle(Err(ConfigError::Denylist(String::from("oops"))));
    assert_eq!(line.as_deref(), Some("[*] Error: Parse config file (oops)"));
    assert!(config.allowlist.is_empty() && config.denylist.is_empty());
}
