use vstd::prelude::*;
use crate::topic::{Topic, keyexpr_accepts};

verus! {

/// How a publisher's messages are delivered.
#[derive(Clone, Copy, Debug, PartialEq, Eq)]
pub enum Reliability {
    Reliable,
    BestEffort,
}

/// What a publisher does when its outbound buffer is full.
#[derive(Clone, Copy, Debug, PartialEq, Eq)]
pub enum CongestionControl {
    Drop,
    Block,
}

/// The lowest (most urgent) priority level a publisher may ask for.
pub const PRIORITY_MIN: u8 = 1;

/// The highest (least urgent) priority level a publisher may ask for.
pub const PRIORITY_MAX: u8 = 7;

/// The priority level of a publisher that asks for none (zenoh's `Data`).
pub const PRIORITY_DEFAULT: u8 = 5;

/// The read size of a publisher that asks for none.
pub const BUFFER_DEFAULT: usize = 32768;

/// The relay's subcommand, as it was given on the command line.
#[derive(Clone, Debug)]
pub enum CliCommand {
    /// Subscribe to `keyexpr` and write what arrives to standard output.
    Read { keyexpr: String, ignore_eof: bool },
    /// Publish standard input on `keyexpr`.
    Write {
        keyexpr: String,
        reliability: Option<String>,
        congestion_control: Option<String>,
        priority: Option<u8>,
        express: bool,
        buffer: usize,
    },
}

/// Settings of the publishing side.
#[derive(Clone, Debug)]
pub struct PubParams {
    pub keyexpr: Topic,
    pub reliability: Reliability,
    pub congestion_control: CongestionControl,
    /// Between `PRIORITY_MIN` and `PRIORITY_MAX`.
    pub priority: u8,
    pub express: bool,
    pub buffer: usize,
}

/// Settings of the subscribing side.
#[derive(Clone, Debug)]
pub struct SubParams {
    pub keyexpr: Topic,
    /// Keep running after an end marker instead of closing the session.
    pub ignore_eof: bool,
}

/// What the relay does, with its settings.
#[derive(Clone, Debug)]
pub enum Params {
    Write(PubParams),
    Read(SubParams),
}

/// A rejected argument of the subcommand, with the text that was given.
#[derive(Clone, Debug, PartialEq, Eq)]
pub enum ArgError {
    InvalidKeyExpr(String),
    InvalidReliability(String),
    InvalidCongestionControl(String),
    InvalidPriority(u8),
}

fn text_is(s: &String, lit: &str) -> (r: bool)
    ensures
        r == (s@ == lit@),
{
    let owned = lit.to_owned();
    s.eq(&owned)
}

/// The reliability named `reliable` or `besteffort`.
pub open spec fn reliability_named(s: Seq<char>) -> Option<Reliability> {
    if s == "reliable"@ {
        Some(Reliability::Reliable)
    } else if s == "besteffort"@ {
        Some(Reliability::BestEffort)
    } else {
        None
    }
}

/// The congestion policy named `drop` or `block`.
pub open spec fn congestion_control_named(s: Seq<char>) -> Option<CongestionControl> {
    if s == "drop"@ {
        Some(CongestionControl::Drop)
    } else if s == "block"@ {
        Some(CongestionControl::Block)
    } else {
        None
    }
}

/// Reads a reliability flag's value.
pub fn parse_reliability(s: &String) -> (r: Result<Reliability, ArgError>)
    ensures
        match reliability_named(s@) {
            Some(v) => r == Ok::<Reliability, ArgError>(v),
            None => r matches Err(ArgError::InvalidReliability(t)) && t@ == s@,
        },
{
    if text_is(s, "reliable") {
        Ok(Reliability::Reliable)
    } else if text_is(s, "besteffort") {
        Ok(Reliability::BestEffort)
    } else {
        Err(ArgError::InvalidReliability(s.clone()))
    }
}

/// Reads a congestion-control flag's value.
pub fn parse_congestion_control(s: &String) -> (r: Result<CongestionControl, ArgError>)
    ensures
        match congestion_control_named(s@) {
            Some(v) => r == Ok::<CongestionControl, ArgError>(v),
            None => r matches Err(ArgError::InvalidCongestionControl(t)) && t@ == s@,
        },
{
    if text_is(s, "drop") {
        Ok(CongestionControl::Drop)
    } else if text_is(s, "block") {
        Ok(CongestionControl::Block)
    } else {
        Err(ArgError::InvalidCongestionControl(s.clone()))
    }
}

/// Checks a priority flag's value against the admitted levels.
pub fn parse_priority(p: u8) -> (r: Result<u8, ArgError>)
    ensures
        PRIORITY_MIN <= p <= PRIORITY_MAX ==> r == Ok::<u8, ArgError>(p),
        !(PRIORITY_MIN <= p <= PRIORITY_MAX) ==> r == Err::<u8, ArgError>(ArgError::InvalidPriority(p)),
{
    if PRIORITY_MIN <= p && p <= PRIORITY_MAX {
        Ok(p)
    } else {
        Err(ArgError::InvalidPriority(p))
    }
}

/// The session role that the command line asks for.
#[derive(Clone, Copy, Debug, PartialEq, Eq)]
pub enum Mode {
    Router,
    Peer,
    Client,
}

impl Mode {
    pub open spec fn spec_name(self) -> Seq<char> {
        match self {
            Mode::Router => "router"@,
            Mode::Peer => "peer"@,
            Mode::Client => "client"@,
        }
    }

    /// The role's name in zenoh's configuration (as `WhatAmI::to_str` gives it).
    pub fn to_str(self) -> (r: &'static str)
        ensures
            r@ == self.spec_name(),
    {
        match self {
            Mode::Router => "router",
            Mode::Peer => "peer",
            Mode::Client => "client",
        }
    }
}

/// The command line, parsed into plain values.
#[derive(Clone, Debug)]
pub struct CliArgs {
    pub command: CliCommand,
    /// The session role; zenoh's default (peer) when absent.
    pub mode: Option<Mode>,
    /// Endpoints to connect to.
    pub connect: Vec<String>,
    /// Endpoints to listen on.
    pub listen: Vec<String>,
    /// Turns off multicast scouting.
    pub no_multicast_scouting: bool,
    /// Configuration changes, each written `KEY:VALUE`.
    pub cfg: Vec<String>,
}

impl CliCommand {
    /// The key expression that the subcommand names.
    pub open spec fn spec_keyexpr(self) -> Seq<char> {
        match self {
            CliCommand::Read { keyexpr, .. } => keyexpr@,
            CliCommand::Write { keyexpr, .. } => keyexpr@,
        }
    }
}

impl CliArgs {
    /// Validates the subcommand's arguments and fills in the defaults:
    /// reliable delivery, the drop policy and priority level 5.
    /// The key expression is checked first, then reliability, congestion
    /// control and priority, and the first rejected one is reported.
    pub fn params(&self) -> (r: Result<Params, ArgError>)
        ensures
            r is Err && r->Err_0 is InvalidKeyExpr <==> !keyexpr_accepts(self.command.spec_keyexpr()),
            self.command is Read ==> (r is Ok <==> keyexpr_accepts(self.command.spec_keyexpr())),
            match self.command {
                CliCommand::Read { keyexpr, ignore_eof } => {
                    if keyexpr_accepts(keyexpr@) {
                        r matches Ok(Params::Read(sp)) && sp.keyexpr.view() == keyexpr@
                            && sp.ignore_eof == ignore_eof
                    } else {
                        r matches Err(ArgError::InvalidKeyExpr(t)) && t@ == keyexpr@
                    }
                },
                CliCommand::Write {
                    keyexpr,
                    reliability,
                    congestion_control,
                    priority,
                    express,
                    buffer,
                } => {
                    if !keyexpr_accepts(keyexpr@) {
                        r matches Err(ArgError::InvalidKeyExpr(t)) && t@ == keyexpr@
                    } else if reliability matches Some(s) && reliability_named(s@) is None {
                        r matches Err(ArgError::InvalidReliability(t)) && t@ == reliability->0@
                    } else if congestion_control matches Some(s) && congestion_control_named(s@) is None {
                        r matches Err(ArgError::InvalidCongestionControl(t))
                            && t@ == congestion_control->0@
                    } else if priority matches Some(p) && !(PRIORITY_MIN <= p <= PRIORITY_MAX) {
                        r == Err::<Params, ArgError>(ArgError::InvalidPriority(priority->0))
                    } else {
                        r matches Ok(Params::Write(pp))
                        && pp.keyexpr.view() == keyexpr@
                        && pp.reliability == match reliability {
                            Some(s) => reliability_named(s@)->0,
                            None => Reliability::Reliable,
                        }
                        && pp.congestion_control == match congestion_control {
                            Some(s) => congestion_control_named(s@)->0,
                            None => CongestionControl::Drop,
                        }
                        && pp.priority == match priority {
                            Some(p) => p,
                            None => PRIORITY_DEFAULT,
                        }
                        && pp.express == express
                        && pp.buffer == buffer
                    }
                },
            },
    {
        match &self.command {
            CliCommand::Read { keyexpr, ignore_eof } => {
                match Topic::parse(keyexpr) {
                    Some(t) => Ok(Params::Read(SubParams { keyexpr: t, ignore_eof: *ignore_eof })),
                    None => Err(ArgError::InvalidKeyExpr(keyexpr.clone())),
                }
            },
            CliCommand::Write {
                keyexpr,
                reliability,
                congestion_control,
                priority,
                express,
                buffer,
            } => {
                let topic = match Topic::parse(keyexpr) {
                    Some(t) => t,
                    None => {
                        return Err(ArgError::InvalidKeyExpr(keyexpr.clone()));
                    },
                };
                let reliability = match reliability {
                    Some(s) => parse_reliability(s)?,
                    None => Reliability::Reliable,
                };
                let congestion_control = match congestion_control {
                    Some(s) => parse_congestion_control(s)?,
                    None => CongestionControl::Drop,
                };
                let priority = match priority {
                    Some(p) => parse_priority(*p)?,
                    None => PRIORITY_DEFAULT,
                };
                Ok(
                    Params::Write(
                        PubParams {
                            keyexpr: topic,
                            reliability,
                            congestion_control,
                            priority,
                            express: *express,
                            buffer: *buffer,
                        },
                    ),
                )
            },
        }
    }
}

} // verus!
