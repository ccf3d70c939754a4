use zcat::args::{CliArgs, CliCommand, Mode};
use zcat::config::{ConfigEdit, ConfigError, SessionConfig, apply_config_edits, parse_override};

fn args(cfg: Vec<&str>) -> CliArgs {
    CliArgs {
        command: CliCommand::Read { keyexpr: "demo/chan".to_string(), ignore_eof: false },
        mode: None,
        connect: vec![],
        listen: vec![],
        no_multicast_scouting: false,
        cfg: cfg.into_iter().map(|s| s.to_string()).collect(),
    }
}

fn edit(key: &str, value: &str) -> ConfigEdit {
    ConfigEdit { key: key.to_string(), value: value.to_string() }
}

#[test]
fn override_splits_at_first_colon() {
    assert_eq!(
        parse_override(&"transport/unicast/max_links:2".to_string()),
        Ok(edit("transport/unicast/max_links", "2"))
    );
    assert_eq!(parse_override(&"a:b:c".to_string()), Ok(edit("a", "b:c")));
    assert_eq!(parse_override(&"a:".to_string()), Ok(edit("a", "")));
}

#[test]
fn override_without_colon_is_rejected() {
    assert_eq!(
        parse_override(&"max_links=2".to_string()),
        Err(ConfigError::MissingColon("max_links=2".to_string()))
    );
    assert_eq!(parse_override(&String::new()), Err(ConfigError::MissingColon(String::new())));
}

#[test]
fn override_with_empty_key_is_rejected() {
    assert_eq!(
        parse_override(&":2".to_string()),
        Err(ConfigError::EmptyKey(":2".to_string()))
    );
}

#[test]
fn edits_from_flags_then_overrides() {
    let mut a = args(vec!["x/y:1", "z:\"w\""]);
    a.mode = Some(Mode::Client);
    a.connect = vec!["tcp/127.0.0.1:7447".to_string()];
    a.listen = vec!["tcp/0.0.0.0:7447".to_string(), "udp/0.0.0.0:7448".to_string()];
    a.no_multicast_scouting = true;
    assert_eq!(
        a.config_edits(),
        Ok(vec![
            edit("mode", "\"client\""),
            edit("connect/endpoints", "[\"tcp/127.0.0.1:7447\"]"),
            edit("listen/endpoints", "[\"tcp/0.0.0.0:7447\",\"udp/0.0.0.0:7448\"]"),
            edit("scouting/multicast/enabled", "false"),
            edit("x/y", "1"),
            edit("z", "\"w\""),
        ])
    );
}

#[test]
fn no_flags_no_edits() {
    assert_eq!(args(vec![]).config_edits(), Ok(vec![]));
}

#[test]
fn first_malformed_override_is_reported() {
    assert_eq!(
        args(vec!["a:1", "bad", ":also"]).config_edits(),
        Err(ConfigError::MissingColon("bad".to_string()))
    );
}

#[test]
fn config_accepts_known_setting() {
    let mut config = SessionConfig::new(zenoh::Config::default());
    let r = args(vec!["transport/unicast/max_links:2"]).config(&mut config);
    assert_eq!(r, Ok(()));
}

#[test]
fn config_rejection_names_the_key() {
    let mut config = SessionConfig::new(zenoh::Config::default());
    let r = args(vec!["transport/unicast/max_links:not json"]).config(&mut config);
    assert_eq!(
        r,
        Err(ConfigError::Rejected {
            key: "transport/unicast/max_links".to_string(),
            value: "not json".to_string(),
        })
    );
}

#[test]
fn config_flags_are_accepted_by_zenoh() {
    let mut a = args(vec![]);
    a.mode = Some(Mode::Client);
    a.connect = vec!["tcp/127.0.0.1:7447".to_string()];
    a.no_multicast_scouting = true;
    let mut config = SessionConfig::new(zenoh::Config::default());
    assert_eq!(a.config(&mut config), Ok(()));
}

#[test]
fn apply_nothing_succeeds() {
    let mut config = SessionConfig::new(zenoh::Config::default());
    assert_eq!(apply_config_edits(&mut config, &vec![]), Ok(()));
}

#[test]
fn config_reports_missing_colon() {
    let mut config = SessionConfig::new(zenoh::Config::default());
    let r = args(vec!["transport/unicast/max_links"]).config(&mut config);
    assert_eq!(r, Err(ConfigError::MissingColon("transport/unicast/max_links".to_string())));
}

#[test]
fn config_reports_empty_key() {
    let mut config = SessionConfig::new(zenoh::Config::default());
    let r = args(vec![":5"]).config(&mut config);
    assert_eq!(r, Err(ConfigError::EmptyKey(":5".to_string())));
}

#[test]
fn config_malformed_override_comes_before_refused_value() {
    let mut config = SessionConfig::new(zenoh::Config::default());
    let r = args(vec!["transport/unicast/max_links:two", "nocolon"]).config(&mut config);
    assert_eq!(r, Err(ConfigError::MissingColon("nocolon".to_string())));
}

#[test]
fn config_later_override_wins() {
    let mut a = args(vec!["mode:\"peer\""]);
    a.mode = Some(Mode::Client);
    let mut config = SessionConfig::new(zenoh::Config::default());
    assert_eq!(a.config(&mut config), Ok(()));
    let c = config.into_inner();
    let mode = c.get_json("mode").unwrap();
    assert!(mode.contains("peer") && !mode.contains("client"), "{mode}");
}

#[test]
fn config_endpoints_split_at_first_colon() {
    let mut config = SessionConfig::new(zenoh::Config::default());
    let r = args(vec!["connect/endpoints:[\"tcp/127.0.0.1:7447\"]"]).config(&mut config);
    assert_eq!(r, Ok(()));
    let c = config.into_inner();
    let endpoints = c.get_json("connect/endpoints").unwrap();
    assert!(endpoints.contains("tcp/127.0.0.1:7447"), "{endpoints}");
}
