//! Building probe definitions from their configured settings, with the
//! defaults that apply where a setting is left out.
use vstd::prelude::*;
use vstd::string::*;
use crate::http_types::{lower_of, lowercase, parse_uri, uri_accepts};
use crate::probe::{Method, Probe};

verus! {

/// Why a probe definition was refused.
#[derive(Clone, Copy, Debug, PartialEq, Eq, Structural)]
pub enum ConfigError {
    /// An `exec` method whose command holds no program.
    EmptyCommand,
    /// An `http_get` method whose parts do not form a URI.
    InvalidUri,
    /// A success or failure threshold of zero.
    ZeroThreshold,
    /// A duration too long to be held in milliseconds.
    DurationOutOfRange,
}

pub open spec fn digit_char(d: nat) -> char {
    if d == 0 { '0' }
    else if d == 1 { '1' }
    else if d == 2 { '2' }
    else if d == 3 { '3' }
    else if d == 4 { '4' }
    else if d == 5 { '5' }
    else if d == 6 { '6' }
    else if d == 7 { '7' }
    else if d == 8 { '8' }
    else { '9' }
}

/// The decimal digits of `n`, most significant first, without leading zeros.
pub open spec fn decimal(n: nat) -> Seq<char>
    decreases n,
{
    if n < 10 {
        seq![digit_char(n)]
    } else {
        decimal(n / 10).push(digit_char(n % 10))
    }
}

pub open spec fn text_of(o: Option<String>) -> Option<Seq<char>> {
    match o {
        Some(s) => Some(s@),
        None => None,
    }
}

/// The URI of an `http_get` method: scheme (lower-cased, by default `http`),
/// `://`, host (by default `localhost`), `:` and the port where one is given,
/// then the path (by default `/`).
pub open spec fn uri_text(
    host: Option<Seq<char>>,
    scheme: Option<Seq<char>>,
    path: Option<Seq<char>>,
    port: Option<u16>,
) -> Seq<char> {
    let scheme = match scheme {
        Some(s) => lower_of(s),
        None => seq!['h', 't', 't', 'p'],
    };
    let host = match host {
        Some(h) => h,
        None => seq!['l', 'o', 'c', 'a', 'l', 'h', 'o', 's', 't'],
    };
    let port = match port {
        Some(p) => seq![':'] + decimal(p as nat),
        None => Seq::empty(),
    };
    let path = match path {
        Some(p) => p,
        None => seq!['/'],
    };
    scheme + seq![':', '/', '/'] + host + port + path
}

fn digit_str(d: u16) -> (r: &'static str)
    requires
        d < 10,
    ensures
        r@ == seq![digit_char(d as nat)],
{
    match d {
        0 => { proof { reveal_strlit("0"); } "0" },
        1 => { proof { reveal_strlit("1"); } "1" },
        2 => { proof { reveal_strlit("2"); } "2" },
        3 => { proof { reveal_strlit("3"); } "3" },
        4 => { proof { reveal_strlit("4"); } "4" },
        5 => { proof { reveal_strlit("5"); } "5" },
        6 => { proof { reveal_strlit("6"); } "6" },
        7 => { proof { reveal_strlit("7"); } "7" },
        8 => { proof { reveal_strlit("8"); } "8" },
        _ => { proof { reveal_strlit("9"); } "9" },
    }
}

fn push_decimal(s: &mut String, n: u16)
    ensures
        final(s)@ == old(s)@ + decimal(n as nat),
    decreases n,
{
    if n >= 10 {
        push_decimal(s, n / 10);
    }
    let d = digit_str(n % 10);
    s.append(d);
    assert(final(s)@ =~= old(s)@ + decimal(n as nat));
}

/// Writes out the URI of an `http_get` method from its parts.
pub fn http_get_uri(host: &Option<String>, scheme: &Option<String>, path: &Option<String>, port: Option<u16>) -> (r: String)
    ensures
        r@ == uri_text(text_of(*host), text_of(*scheme), text_of(*path), port),
{
    proof {
        reveal_strlit("http");
        reveal_strlit("://");
        reveal_strlit("localhost");
        reveal_strlit(":");
        reveal_strlit("/");
    }
    let mut uri = match scheme {
        Some(s) => lowercase(s.as_str()),
        None => String::from_str("http"),
    };
    uri.append("://");
    match host {
        Some(h) => uri.append(h.as_str()),
        None => uri.append("localhost"),
    }
    match port {
        Some(p) => {
            uri.append(":");
            push_decimal(&mut uri, p);
        },
        None => {},
    }
    match path {
        Some(p) => uri.append(p.as_str()),
        None => uri.append("/"),
    }
    assert(uri@ =~= uri_text(text_of(*host), text_of(*scheme), text_of(*path), port));
    uri
}

/// A duration given in seconds, or by default, in milliseconds; `None`
/// where that does not fit in a `u64`.
pub open spec fn millis(seconds: Option<u64>, default_seconds: nat) -> Option<u64> {
    let secs: nat = match seconds {
        Some(s) => s as nat,
        None => default_seconds,
    };
    if secs * 1000 <= u64::MAX { Some((secs * 1000) as u64) } else { None }
}

pub open spec fn threshold(t: Option<usize>, default_threshold: usize) -> usize {
    match t {
        Some(t) => t,
        None => default_threshold,
    }
}

/// The error, if any, that refuses these settings: durations are checked
/// before thresholds.
pub open spec fn settings_error(
    initial_delay_seconds: Option<u64>,
    period_seconds: Option<u64>,
    timeout_seconds: Option<u64>,
    success_threshold: Option<usize>,
    failure_threshold: Option<usize>,
) -> Option<ConfigError> {
    if millis(initial_delay_seconds, 0) is None || millis(period_seconds, 10) is None || millis(
        timeout_seconds,
        1,
    ) is None {
        Some(ConfigError::DurationOutOfRange)
    } else if threshold(success_threshold, 1) == 0 || threshold(failure_threshold, 3) == 0 {
        Some(ConfigError::ZeroThreshold)
    } else {
        None
    }
}

fn millis_of(seconds: Option<u64>, default_seconds: u64) -> (r: Option<u64>)
    ensures
        r == millis(seconds, default_seconds as nat),
{
    let secs: u64 = match seconds {
        Some(s) => s,
        None => default_seconds,
    };
    secs.checked_mul(1000)
}

impl Method {
    /// An `exec` method from its command line: the first word is the
    /// program, the rest its arguments. An empty command is refused.
    pub fn exec(command: Vec<String>) -> (r: Result<Method, ConfigError>)
        ensures
            command@.len() > 0 ==> r is Ok,
            match r {
                Ok(Method::Exec { program, args }) => command@.len() > 0 && program == command@[0]
                    && args@ == command@.drop_first(),
                Ok(_) => false,
                Err(e) => command@.len() == 0 && e == ConfigError::EmptyCommand,
            },
    {
        let mut command = command;
        if command.len() == 0 {
            Err(ConfigError::EmptyCommand)
        } else {
            let ghost whole = command@;
            let program = command.remove(0);
            assert(command@ =~= whole.drop_first());
            Ok(Method::Exec { program, args: command })
        }
    }

    /// An `http_get` method from the parts of its URI (see `uri_text`) and
    /// its request headers. Parts that do not form a URI are refused.
    pub fn http_get(
        host: Option<String>,
        scheme: Option<String>,
        path: Option<String>,
        headers: http::HeaderMap,
        port: Option<u16>,
    ) -> (r: Result<Method, ConfigError>)
        ensures
            uri_accepts(uri_text(text_of(host), text_of(scheme), text_of(path), port)) ==> r is Ok,
            match r {
                Ok(Method::HttpGet { uri, headers: h }) => uri_accepts(
                    uri_text(text_of(host), text_of(scheme), text_of(path), port),
                ) && h == headers,
                Ok(_) => false,
                Err(e) => !uri_accepts(uri_text(text_of(host), text_of(scheme), text_of(path), port))
                    && e == ConfigError::InvalidUri,
            },
    {
        let text = http_get_uri(&host, &scheme, &path, port);
        match parse_uri(text.as_str()) {
            Ok(uri) => Ok(Method::HttpGet { uri, headers }),
            Err(_) => Err(ConfigError::InvalidUri),
        }
    }
}

impl Probe {
    /// A probe from its settings, each optional: durations are given in
    /// seconds and default to 0 (initial delay), 10 (period) and 1
    /// (timeout); thresholds default to 1 (success) and 3 (failure).
    pub fn from_settings(
        method: Method,
        initial_delay_seconds: Option<u64>,
        period_seconds: Option<u64>,
        timeout_seconds: Option<u64>,
        success_threshold: Option<usize>,
        failure_threshold: Option<usize>,
    ) -> (r: Result<Probe, ConfigError>)
        ensures
            match r {
                Ok(p) => settings_error(
                    initial_delay_seconds,
                    period_seconds,
                    timeout_seconds,
                    success_threshold,
                    failure_threshold,
                ) is None && p.wf() && p.method == method && Some(p.initial_delay) == millis(
                    initial_delay_seconds,
                    0,
                ) && Some(p.period) == millis(period_seconds, 10) && Some(p.timeout) == millis(
                    timeout_seconds,
                    1,
                ) && p.success_threshold == threshold(success_threshold, 1) && p.failure_threshold
                    == threshold(failure_threshold, 3),
                Err(e) => settings_error(
                    initial_delay_seconds,
                    period_seconds,
                    timeout_seconds,
                    success_threshold,
                    failure_threshold,
                ) == Some(e),
            },
    {
        let initial_delay = millis_of(initial_delay_seconds, 0);
        let period = millis_of(period_seconds, 10);
        let timeout = millis_of(timeout_seconds, 1);
        let success_threshold = match success_threshold {
            Some(t) => t,
            None => 1,
        };
        let failure_threshold = match failure_threshold {
            Some(t) => t,
            None => 3,
        };
        match (initial_delay, period, timeout) {
            (Some(initial_delay), Some(period), Some(timeout)) => {
                if success_threshold == 0 || failure_threshold == 0 {
                    Err(ConfigError::ZeroThreshold)
                } else {
                    Ok(Probe { method, initial_delay, period, timeout, success_threshold, failure_threshold })
                }
            },
            _ => Err(ConfigError::DurationOutOfRange),
        }
    }
}

} // verus!
