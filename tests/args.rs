use zcat::args::{
    ArgError, CliArgs, CliCommand, CongestionControl, Mode, Params, Reliability, parse_priority,
};
use zcat::topic::Topic;

fn args_with(command: CliCommand) -> CliArgs {
    CliArgs {
        command,
        mode: None,
        connect: vec![],
        listen: vec![],
        no_multicast_scouting: false,
        cfg: vec![],
    }
}

fn write(keyexpr: &str) -> CliCommand {
    CliCommand::Write {
        keyexpr: keyexpr.to_string(),
        reliability: None,
        congestion_control: None,
        priority: None,
        express: false,
        buffer: 32768,
    }
}

#[test]
fn topic_accepts_plain_paths() {
    for s in ["demo/chan", "a", "demo/*/chan", "demo/**", "a/b$*c", "x-y_z/0.1"] {
        let t = Topic::parse(&s.to_string()).expect(s);
        assert_eq!(t.as_str(), s);
    }
}

#[test]
fn topic_rejects_malformed_paths() {
    for s in ["", "/a", "a/", "a//b", "a#b", "a?b", "a*b", "a/$b", "**/**"] {
        assert!(Topic::parse(&s.to_string()).is_none(), "{s}");
    }
}

#[test]
fn read_params_keep_ignore_eof() {
    let a = args_with(CliCommand::Read { keyexpr: "demo/chan".to_string(), ignore_eof: true });
    match a.params() {
        Ok(Params::Read(sp)) => {
            assert_eq!(sp.keyexpr.as_str(), "demo/chan");
            assert!(sp.ignore_eof);
        },
        _ => panic!("expected read parameters"),
    }
}

#[test]
fn read_params_reject_bad_keyexpr() {
    let a = args_with(CliCommand::Read { keyexpr: "bad#topic".to_string(), ignore_eof: false });
    assert_eq!(a.params().err(), Some(ArgError::InvalidKeyExpr("bad#topic".to_string())));
}

#[test]
fn write_params_defaults() {
    match args_with(write("demo/chan")).params() {
        Ok(Params::Write(pp)) => {
            assert_eq!(pp.keyexpr.as_str(), "demo/chan");
            assert_eq!(pp.reliability, Reliability::Reliable);
            assert_eq!(pp.congestion_control, CongestionControl::Drop);
            assert_eq!(pp.priority, 5);
            assert!(!pp.express);
            assert_eq!(pp.buffer, 32768);
        },
        _ => panic!("expected write parameters"),
    }
}

#[test]
fn write_params_explicit_values() {
    let a = args_with(CliCommand::Write {
        keyexpr: "demo/chan".to_string(),
        reliability: Some("besteffort".to_string()),
        congestion_control: Some("block".to_string()),
        priority: Some(1),
        express: true,
        buffer: 16,
    });
    match a.params() {
        Ok(Params::Write(pp)) => {
            assert_eq!(pp.reliability, Reliability::BestEffort);
            assert_eq!(pp.congestion_control, CongestionControl::Block);
            assert_eq!(pp.priority, 1);
            assert!(pp.express);
            assert_eq!(pp.buffer, 16);
        },
        _ => panic!("expected write parameters"),
    }
}

#[test]
fn write_params_reject_each_bad_flag() {
    let bad_topic = args_with(write(""));
    assert_eq!(bad_topic.params().err(), Some(ArgError::InvalidKeyExpr(String::new())));

    let mut c = write("demo/chan");
    if let CliCommand::Write { reliability, .. } = &mut c {
        *reliability = Some("sometimes".to_string());
    }
    assert_eq!(
        args_with(c).params().err(),
        Some(ArgError::InvalidReliability("sometimes".to_string()))
    );

    let mut c = write("demo/chan");
    if let CliCommand::Write { congestion_control, .. } = &mut c {
        *congestion_control = Some("wait".to_string());
    }
    assert_eq!(
        args_with(c).params().err(),
        Some(ArgError::InvalidCongestionControl("wait".to_string()))
    );

    let mut c = write("demo/chan");
    if let CliCommand::Write { priority, .. } = &mut c {
        *priority = Some(8);
    }
    assert_eq!(args_with(c).params().err(), Some(ArgError::InvalidPriority(8)));
}

#[test]
fn keyexpr_error_comes_before_flag_errors() {
    let a = args_with(CliCommand::Write {
        keyexpr: "a//b".to_string(),
        reliability: Some("never".to_string()),
        congestion_control: None,
        priority: Some(0),
        express: false,
        buffer: 1,
    });
    assert_eq!(a.params().err(), Some(ArgError::InvalidKeyExpr("a//b".to_string())));
}

#[test]
fn priority_range_edges() {
    assert_eq!(parse_priority(0), Err(ArgError::InvalidPriority(0)));
    assert_eq!(parse_priority(1), Ok(1));
    assert_eq!(parse_priority(7), Ok(7));
    assert_eq!(parse_priority(8), Err(ArgError::InvalidPriority(8)));
    assert_eq!(parse_priority(255), Err(ArgError::InvalidPriority(255)));
}

#[test]
fn mode_names() {
    assert_eq!(Mode::Router.to_str(), "router");
    assert_eq!(Mode::Peer.to_str(), "peer");
    assert_eq!(Mode::Client.to_str(), "client");
}
