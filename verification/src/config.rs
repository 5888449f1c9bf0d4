//! Configuration values and the parameters derived from them.
//!
//! The configuration is loaded once at process start by the surrounding
//! program; this module holds the value itself, the broker URI derived from
//! host and port, and the fixed connection parameters.

use vstd::prelude::*;

verus! {

/// The immutable configuration of the agent: broker address, credentials,
/// topic filter and output destination. Loaded once at startup and passed by
/// reference from then on.
pub struct Config {
    pub host: String,
    pub port: u16,
    pub id: String,
    pub username: String,
    pub password: String,
    pub topic: String,
    pub output_file: String,
}

/// The decimal digits of `n`, most significant first.
pub open spec fn dec_rep(n: nat) -> Seq<char>
    decreases n,
{
    if n < 10 {
        seq![digit_char(n)]
    } else {
        dec_rep(n / 10) + seq![digit_char(n % 10)]
    }
}

/// The character for one decimal digit.
pub open spec fn digit_char(d: nat) -> char {
    if d == 0 {
        '0'
    } else if d == 1 {
        '1'
    } else if d == 2 {
        '2'
    } else if d == 3 {
        '3'
    } else if d == 4 {
        '4'
    } else if d == 5 {
        '5'
    } else if d == 6 {
        '6'
    } else if d == 7 {
        '7'
    } else if d == 8 {
        '8'
    } else {
        '9'
    }
}

/// Appends the character for one decimal digit.
fn push_digit(s: &mut String, d: u16)
    requires
        d < 10,
    ensures
        final(s)@ == old(s)@ + seq![digit_char(d as nat)],
{
    let lit: &str = if d == 0 {
        "0"
    } else if d == 1 {
        "1"
    } else if d == 2 {
        "2"
    } else if d == 3 {
        "3"
    } else if d == 4 {
        "4"
    } else if d == 5 {
        "5"
    } else if d == 6 {
        "6"
    } else if d == 7 {
        "7"
    } else if d == 8 {
        "8"
    } else {
        "9"
    };
    proof {
        reveal_strlit("0");
        reveal_strlit("1");
        reveal_strlit("2");
        reveal_strlit("3");
        reveal_strlit("4");
        reveal_strlit("5");
        reveal_strlit("6");
        reveal_strlit("7");
        reveal_strlit("8");
        reveal_strlit("9");
        assert(lit@ =~= seq![digit_char(d as nat)]);
    }
    s.append(lit);
}

/// Appends the decimal representation of `n`.
fn push_decimal(s: &mut String, n: u16)
    ensures
        final(s)@ == old(s)@ + dec_rep(n as nat),
    decreases n,
{
    if n >= 10 {
        push_decimal(s, n / 10);
    }
    push_digit(s, n % 10);
    proof {
        assert(s@ =~= old(s)@ + dec_rep(n as nat));
    }
}

/// The broker URI derived from a host and port: `tcp://<host>:<port>`.
pub open spec fn uri_of(host: Seq<char>, port: nat) -> Seq<char> {
    "tcp://"@ + host + seq![':'] + dec_rep(port)
}

impl Config {
    /// Renders the broker URI `tcp://<host>:<port>` for this configuration.
    pub fn server_uri(&self) -> (r: String)
        ensures
            r@ == uri_of(self.host@, self.port as nat),
    {
        let mut r = "tcp://".to_owned();
        r.append(self.host.as_str());
        r.append(":");
        push_decimal(&mut r, self.port);
        proof {
            reveal_strlit(":");
            assert(":"@ =~= seq![':']);
            assert(r@ =~= uri_of(self.host@, self.port as nat));
        }
        r
    }
}

/// The fixed parameters of a connection attempt: keep-alive interval,
/// session persistence and the subscription's quality-of-service level.
pub struct ConnectParams {
    pub keep_alive_secs: u64,
    pub clean_session: bool,
    pub qos: i32,
}

impl ConnectParams {
    /// The agent's connection parameters: a 20 s keep-alive, a persistent
    /// session (clean-session disabled) and quality-of-service level 1.
    pub fn standard() -> (p: ConnectParams)
        ensures
            p.keep_alive_secs == 20,
            !p.clean_session,
            p.qos == 1,
    {
        ConnectParams { keep_alive_secs: 20, clean_session: false, qos: 1 }
    }
}

} // verus!
