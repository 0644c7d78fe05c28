//! The configuration: where the service listens and where the origin is.
//!
//! It is built once, from values that the caller has read, and handed to
//! whatever needs it.

use vstd::prelude::*;
use crate::text::{chars_of, parse_bounded, parse_unsigned};

verus! {

/// The address on which the service listens when none is given.
pub const DEFAULT_HOST: &'static str = "127.0.0.1";

/// The port on which the service listens when none is given, or none that
/// can be read.
pub const DEFAULT_PORT: u16 = 8080;

/// The address of the origin when none is given.
pub const DEFAULT_ORIGIN: &'static str = "http://194.102.105.201";

/// The configuration of the service.
#[derive(Clone, Debug, PartialEq, Eq)]
pub struct Config {
    pub app_host: String,
    pub app_port: u16,
    /// The address of the origin, without a slash at its end.
    pub filmapik_url: String,
}

/// The port that `text` writes: an unsigned integer of at most 16 bits.
pub open spec fn port_of(text: Option<Seq<char>>) -> u16 {
    match text {
        Some(t) => match parse_unsigned(t, 0xffff) {
            Some(n) => n as u16,
            None => DEFAULT_PORT,
        },
        None => DEFAULT_PORT,
    }
}

/// The text, or `default` where there is none.
pub open spec fn text_or(text: Option<Seq<char>>, default: Seq<char>) -> Seq<char> {
    match text {
        Some(t) => t,
        None => default,
    }
}

/// Reads a port; the default where there is no text or it writes no port.
pub fn read_port(text: &Option<String>) -> (r: u16)
    ensures
        r == port_of(text.deep_view()),
{
    match text {
        Some(t) => {
            let v = chars_of(t.as_str());
            match parse_bounded(&v, 0xffff) {
                Some(n) => n as u16,
                None => DEFAULT_PORT,
            }
        },
        None => DEFAULT_PORT,
    }
}

impl Config {
    /// The configuration for the values given; each one that is missing
    /// takes its default.
    pub fn resolve(host: Option<String>, port: Option<String>, origin: Option<String>) -> (r:
        Config)
        ensures
            r.app_host@ == text_or(host.deep_view(), DEFAULT_HOST@),
            r.app_port == port_of(port.deep_view()),
            r.filmapik_url@ == text_or(origin.deep_view(), DEFAULT_ORIGIN@),
    {
        let app_port = read_port(&port);
        Config {
            app_host: match host {
                Some(h) => h,
                None => String::from_str(DEFAULT_HOST),
            },
            app_port: app_port,
            filmapik_url: match origin {
                Some(u) => u,
                None => String::from_str(DEFAULT_ORIGIN),
            },
        }
    }
}

} // verus!
