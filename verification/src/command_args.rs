//! The settings the server starts with.
use vstd::prelude::*;
use std::time::Duration;

verus! {

/// The duration of `secs` seconds that `Duration::from_secs` builds.
pub uninterp spec fn duration_from_secs(secs: u64) -> Duration;

/// `Duration::from_secs`: its result depends on the number of seconds alone.
pub assume_specification[ Duration::from_secs ](secs: u64) -> (d: Duration)
    ensures
        d == duration_from_secs(secs),
;

/// The values found on the command line: the port, the update interval and
/// the vibe-check interval, in seconds, each where it was given.
#[derive(Debug, Clone, Copy)]
pub struct CommandMatches {
    pub port: Option<u16>,
    pub update_interval: Option<u64>,
    pub vibe_check_interval: Option<u64>,
}

/// The settings of the server.
#[derive(Debug, Clone, Copy)]
pub struct ParsedArgs {
    pub port: u16,
    pub update_client_interval: Duration,
    pub vibe_check_interval: Duration,
}

/// The port used when none is given.
pub const DEFAULT_PORT: u16 = 10002;

/// The interval, in seconds, used when none is given.
pub const DEFAULT_INTERVAL_SECS: u64 = 15;

/// An option's value, or its default.
pub open spec fn given_or(value: Option<u64>, default: u64) -> u64 {
    match value {
        Some(v) => v,
        None => default,
    }
}

/// The settings for the values found on the command line. The port defaults
/// to 10002. Both intervals are read from the `update_interval` option and
/// default to 15 seconds; the `vibe_check_interval` option is accepted but
/// not read.
pub fn parse_commands(matches: &CommandMatches) -> (args: ParsedArgs)
    ensures
        args.port == match matches.port {
            Some(p) => p,
            None => DEFAULT_PORT,
        },
        args.update_client_interval == duration_from_secs(
            given_or(matches.update_interval, DEFAULT_INTERVAL_SECS),
        ),
        args.vibe_check_interval == duration_from_secs(
            given_or(matches.update_interval, DEFAULT_INTERVAL_SECS),
        ),
{
    let mut port: u16 = DEFAULT_PORT;
    let mut update_client_interval = Duration::from_secs(DEFAULT_INTERVAL_SECS);
    let mut vibe_check_interval = Duration::from_secs(DEFAULT_INTERVAL_SECS);
    if let Some(value) = matches.port {
        port = value;
    }
    if let Some(value) = matches.update_interval {
        update_client_interval = Duration::from_secs(value);
    }
    if let Some(value) = matches.update_interval {
        vibe_check_interval = Duration::from_secs(value);
    }
    ParsedArgs { port, update_client_interval, vibe_check_interval }
}

} // verus!
