//! Startup configuration, resolved once from the values the environment
//! offered and passed by reference into the components that need it.

use vstd::prelude::*;

verus! {

/// A required configuration value was absent; fatal at startup.
#[derive(Debug, PartialEq, Eq, Structural)]
pub enum ConfigError {
    Missing,
}

/// Everything the handlers need from the environment, resolved once.
#[derive(Clone, Debug)]
pub struct Config {
    /// Identity-provider client id.
    pub client_id: String,
    /// Identity-provider client secret.
    pub client_secret: String,
    /// This service's own base URL, used to build the redirect URI.
    pub base_url: String,
    /// Listening port; 8000 when unset or unreadable.
    pub port: u16,
    /// The allow-listed account identifier.
    pub check_id: String,
}

pub open spec fn is_dec_digit(c: char) -> bool {
    48 <= c as int <= 57
}

pub open spec fn digit_val(c: char) -> int {
    c as int - 48
}

pub open spec fn all_dec_digits(s: Seq<char>) -> bool {
    forall|i: int| 0 <= i < s.len() ==> is_dec_digit(#[trigger] s[i])
}

/// The value of a string of decimal digits, most significant first.
pub open spec fn dec_value(s: Seq<char>) -> int
    decreases s.len(),
{
    if s.len() == 0 {
        0
    } else {
        dec_value(s.drop_last()) * 10 + digit_val(s.last())
    }
}

/// A port string is read as a nonempty run of decimal digits whose value
/// fits a `u16`; anything else is rejected.
pub open spec fn spec_parse_port(s: Seq<char>) -> Option<u16> {
    if s.len() > 0 && all_dec_digits(s) && dec_value(s) <= 65535 {
        Some(dec_value(s) as u16)
    } else {
        None
    }
}

/// The port a given (or absent) setting resolves to: the parsed value, or
/// 8000 when there is nothing to parse or parsing fails.
pub open spec fn spec_port_value(s: Seq<char>) -> u16 {
    match spec_parse_port(s) {
        Some(v) => v,
        None => 8000,
    }
}

proof fn lemma_dec_value_nonneg(s: Seq<char>)
    requires
        all_dec_digits(s),
    ensures
        dec_value(s) >= 0,
    decreases s.len(),
{
    if s.len() > 0 {
        assert(all_dec_digits(s.drop_last()));
        lemma_dec_value_nonneg(s.drop_last());
    }
}

/// Extending a digit string never shrinks its value: once a prefix is past
/// the `u16` bound, the whole string is too.
proof fn lemma_dec_value_grows(s: Seq<char>, j: int)
    requires
        all_dec_digits(s),
        0 <= j <= s.len(),
    ensures
        dec_value(s) >= dec_value(s.take(j)),
    decreases s.len() - j,
{
    if j == s.len() {
        assert(s.take(j) =~= s);
    } else {
        assert(s.take(j + 1).drop_last() =~= s.take(j));
        assert(s.take(j + 1).last() == s[j]);
        assert(all_dec_digits(s.take(j)));
        lemma_dec_value_nonneg(s.take(j));
        lemma_dec_value_grows(s, j + 1);
    }
}

/// Reads a port number: a nonempty all-digit string whose value fits a
/// `u16`; any other shape gives `None`.
pub fn parse_port(s: &String) -> (r: Option<u16>)
    ensures
        r == spec_parse_port(s@),
{
    let st = s.as_str();
    let n = st.unicode_len();
    if n == 0 {
        return None;
    }
    let mut acc: u32 = 0;
    let mut i: usize = 0;
    while i < n
        invariant
            st@ == s@,
            n == s@.len(),
            0 < n,
            i <= n,
            all_dec_digits(s@.take(i as int)),
            acc == dec_value(s@.take(i as int)),
            acc <= 65535,
        decreases n - i,
    {
        let c = st.get_char(i);
        let u = c as u32;
        if u < 48 || u > 57 {
            assert(!is_dec_digit(s@[i as int]));
            return None;
        }
        let d = u - 48;
        acc = acc * 10 + d;
        proof {
            assert(s@.take(i as int + 1).drop_last() =~= s@.take(i as int));
            assert(s@.take(i as int + 1).last() == s@[i as int]);
        }
        i = i + 1;
        if acc > 65535 {
            proof {
                if all_dec_digits(s@) {
                    lemma_dec_value_grows(s@, i as int);
                }
            }
            return None;
        }
    }
    proof {
        assert(s@.take(n as int) =~= s@);
    }
    Some(acc as u16)
}

/// The listening port: the parsed setting when one was given and readable,
/// else the default 8000.
pub fn read_port(port: Option<String>) -> (r: u16)
    ensures
        match port {
            Some(p) => r == spec_port_value(p@),
            None => r == 8000,
        },
{
    match port {
        Some(p) => match parse_port(&p) {
            Some(v) => v,
            None => 8000,
        },
        None => 8000,
    }
}

impl Config {
    /// Resolves the configuration from the values the environment offered:
    /// client id, client secret and base URL are required; the port and the
    /// allow-listed account identifier fall back to their defaults.
    pub fn resolve(
        client_id: Option<String>,
        client_secret: Option<String>,
        base_url: Option<String>,
        port: Option<String>,
        check_id: Option<String>,
    ) -> (r: Result<Config, ConfigError>)
        ensures
            r is Ok <==> client_id is Some && client_secret is Some && base_url is Some,
            r matches Ok(c) ==> {
                &&& client_id matches Some(ci) && c.client_id == ci
                &&& client_secret matches Some(cs) && c.client_secret == cs
                &&& base_url matches Some(b) && c.base_url == b
                &&& match port {
                    Some(p) => c.port == spec_port_value(p@),
                    None => c.port == 8000,
                }
                &&& match check_id {
                    Some(v) => c.check_id == v,
                    None => c.check_id@ == "41701337"@,
                }
            },
    {
        let ci = match client_id {
            Some(v) => v,
            None => {
                return Err(ConfigError::Missing);
            },
        };
        let cs = match client_secret {
            Some(v) => v,
            None => {
                return Err(ConfigError::Missing);
            },
        };
        let b = match base_url {
            Some(v) => v,
            None => {
                return Err(ConfigError::Missing);
            },
        };
        let p = read_port(port);
        let check = crate::utils::get_check_twitch_id(check_id);
        Ok(
            Config {
                client_id: ci,
                client_secret: cs,
                base_url: b,
                port: p,
                check_id: check,
            },
        )
    }
}

} // verus!
