//! Where the database is: the host and the port of a connection.
//!
//! The settings come as optional texts, as an environment holds them. A
//! missing host is `localhost`; a port that is missing or is no number that
//! fits sixteen bits is 7687.

use vstd::prelude::*;

verus! {

/// The port that is used where none is given.
pub const DEFAULT_PORT: u16 = 7687;

/// What a connection is opened with.
#[derive(Clone, Debug, PartialEq, Eq)]
pub struct ConnectionConfig {
    pub host: String,
    pub port: u16,
}

/// The value of a decimal digit.
pub open spec fn digit_value(c: char) -> Option<int> {
    if '0' <= c && c <= '9' {
        Some(c as int - '0' as int)
    } else {
        None
    }
}

/// The number that a non-empty run of decimal digits writes.
pub open spec fn decimal(s: Seq<char>) -> Option<int>
    decreases s.len(),
{
    if s.len() == 0 {
        None
    } else {
        match digit_value(s.last()) {
            None => None,
            Some(d) => if s.len() == 1 {
                Some(d)
            } else {
                match decimal(s.drop_last()) {
                    Some(v) => Some(v * 10 + d),
                    None => None,
                }
            },
        }
    }
}

/// The text without a plus sign in front.
pub open spec fn unsigned_part(s: Seq<char>) -> Seq<char> {
    if s.len() > 0 && s[0] == '+' {
        s.drop_first()
    } else {
        s
    }
}

/// The port that a text names: decimal digits, with or without a plus sign
/// in front, whose value is at most 65535. Nothing else is a port: no
/// spaces, no minus sign, no empty text.
pub open spec fn port_of(s: Seq<char>) -> Option<u16> {
    match decimal(unsigned_part(s)) {
        Some(v) => if v <= u16::MAX {
            Some(v as u16)
        } else {
            None
        },
        None => None,
    }
}

/// The configuration that the two settings give.
pub open spec fn config_of(host: Option<String>, port: Option<String>) -> (Seq<char>, u16) {
    (
        match host {
            Some(h) => h@,
            None => "localhost"@,
        },
        match port {
            Some(p) => match port_of(p@) {
                Some(n) => n,
                None => DEFAULT_PORT,
            },
            None => DEFAULT_PORT,
        },
    )
}

/// A run of digits that goes on from a number over `bound` writes a number
/// over `bound`, or is no number at all.
proof fn lemma_decimal_grows(s: Seq<char>, n: int, bound: int)
    requires
        0 < n <= s.len(),
        bound >= 0,
        decimal(s.subrange(0, n)) matches Some(v) && v > bound,
    ensures
        decimal(s) matches Some(w) ==> w > bound,
    decreases s.len() - n,
{
    if n == s.len() {
        assert(s.subrange(0, n) =~= s);
    } else {
        let next = s.subrange(0, n + 1);
        assert(next.drop_last() =~= s.subrange(0, n));
        if decimal(next) is Some {
            lemma_decimal_grows(s, n + 1, bound);
        } else {
            lemma_decimal_prefix(s, n + 1);
        }
    }
}

/// Where a prefix is no number, the whole is none either.
proof fn lemma_decimal_prefix(s: Seq<char>, n: int)
    requires
        0 < n <= s.len(),
        decimal(s.subrange(0, n)) is None,
    ensures
        decimal(s) is None,
    decreases s.len() - n,
{
    if n == s.len() {
        assert(s.subrange(0, n) =~= s);
    } else {
        let next = s.subrange(0, n + 1);
        assert(next.drop_last() =~= s.subrange(0, n));
        lemma_decimal_prefix(s, n + 1);
    }
}

/// Reads a port number.
pub fn parse_port(text: &str) -> (r: Option<u16>)
    ensures
        r == port_of(text@),
{
    let n: usize = text.unicode_len();
    let start: usize = if n > 0 && text.get_char(0) == '+' {
        1
    } else {
        0
    };
    if start == n {
        return None;
    }
    let ghost digits = text@.subrange(start as int, n as int);
    assert(digits =~= unsigned_part(text@));
    let mut value: u32 = 0;
    let mut i: usize = start;
    while i < n
        invariant
            start <= i <= n,
            start < n,
            n == text@.len(),
            digits == text@.subrange(start as int, n as int),
            digits == unsigned_part(text@),
            value <= u16::MAX,
            i == start ==> value == 0,
            i > start ==> decimal(digits.subrange(0, i - start)) == Some(value as int),
        decreases n - i,
    {
        let c: char = text.get_char(i);
        let ghost upto = digits.subrange(0, i + 1 - start);
        proof {
            assert(upto.last() == c);
            assert(upto.drop_last() =~= digits.subrange(0, i - start));
        }
        if c < '0' || c > '9' {
            proof {
                assert(digit_value(c) is None);
                assert(decimal(upto) is None);
                lemma_decimal_prefix(digits, i + 1 - start);
            }
            return None;
        }
        let d: u32 = c as u32 - '0' as u32;
        value = value * 10 + d;
        proof {
            assert(digit_value(c) == Some(d as int));
            assert(decimal(upto) == Some(value as int));
        }
        if value > 65535 {
            proof {
                lemma_decimal_grows(digits, i + 1 - start, u16::MAX as int);
            }
            return None;
        }
        i = i + 1;
    }
    assert(digits.subrange(0, n - start) =~= digits);
    Some(value as u16)
}

/// Builds the configuration from the two settings, with the defaults where
/// a setting is missing or the port cannot be read.
pub fn connection_config(host: Option<String>, port: Option<String>) -> (r: ConnectionConfig)
    ensures
        (r.host@, r.port) == config_of(host, port),
{
    let host = match host {
        Some(h) => h,
        None => "localhost".to_owned(),
    };
    let port = match port {
        Some(p) => match parse_port(p.as_str()) {
            Some(n) => n,
            None => DEFAULT_PORT,
        },
        None => DEFAULT_PORT,
    };
    ConnectionConfig { host, port }
}

} // verus!
