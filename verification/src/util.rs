//! Agent settings.
use vstd::prelude::*;
use crate::text::{parse_unsigned, parse_unsigned_bounded};

verus! {

/// The port an agent listens on when none is configured.
pub const DEFAULT_PORT: u16 = 51243;

/// The port an agent listens on when none is configured.
pub fn get_default_port() -> (port: u16)
    ensures
        port == DEFAULT_PORT,
{
    DEFAULT_PORT
}

/// The port an agent listens on for a configured value (the `AGENT_PORT` setting): the
/// value read as a port number, or the default port when it is absent or not a port number.
pub open spec fn spec_port_setting(value: Option<Seq<char>>) -> u16 {
    match value {
        Some(v) => match parse_unsigned(v) {
            Some(p) => if p <= u16::MAX {
                p as u16
            } else {
                DEFAULT_PORT
            },
            None => DEFAULT_PORT,
        },
        None => DEFAULT_PORT,
    }
}

/// The port for a configured value (see [`spec_port_setting`]).
pub fn port_from_setting(value: Option<&str>) -> (port: u16)
    ensures
        port == spec_port_setting(
            match value {
                Some(v) => Some(v@),
                None => None,
            },
        ),
{
    match value {
        None => DEFAULT_PORT,
        Some(v) => match parse_unsigned_bounded(v, u16::MAX as u64) {
            Some(p) => p as u16,
            None => DEFAULT_PORT,
        },
    }
}

/// Whether an agent serves a request: when a secret is configured (the `AGENT_SECRET`
/// setting), only a request whose `X-MONITORING-SECRET` header carries exactly that secret;
/// when none is configured, every request.
pub open spec fn spec_agent_allows(secret: Option<Seq<char>>, header: Option<Seq<char>>) -> bool {
    match secret {
        None => true,
        Some(s) => match header {
            Some(h) => h == s,
            None => false,
        },
    }
}

/// Whether an agent serves a request (see [`spec_agent_allows`]).
pub fn agent_allows(secret: Option<&str>, header: Option<&str>) -> (b: bool)
    ensures
        b == spec_agent_allows(
            match secret {
                Some(s) => Some(s@),
                None => None,
            },
            match header {
                Some(h) => Some(h@),
                None => None,
            },
        ),
{
    match secret {
        None => true,
        Some(s) => match header {
            None => false,
            Some(h) => {
                let given = String::from_str(h);
                let expected = String::from_str(s);
                given == expected
            },
        },
    }
}

} // verus!
