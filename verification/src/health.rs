//! The health-check endpoint: which port it listens on, where a client
//! finds it, what it answers, and how a client reads the answer.

use vstd::prelude::*;
use crate::text::{chars_of, push_char};

verus! {

/// The port used when none is configured.
pub const DEFAULT_PORT: u16 = 8079;

pub open spec fn is_digit(c: char) -> bool {
    '0' <= c && c <= '9'
}

pub open spec fn digit_value(c: char) -> nat {
    (c as nat - '0' as nat) as nat
}

pub open spec fn all_digits(s: Seq<char>) -> bool {
    forall|i: int| 0 <= i < s.len() ==> is_digit(#[trigger] s[i])
}

/// The number that a string of decimal digits denotes.
pub open spec fn digits_value(s: Seq<char>) -> nat
    decreases s.len(),
{
    if s.len() == 0 {
        0
    } else {
        digits_value(s.drop_last()) * 10 + digit_value(s.last())
    }
}

/// The digits of a port number once an optional leading `+` is removed.
pub open spec fn unsigned_digits(s: Seq<char>) -> Seq<char> {
    if s.len() > 0 && s[0] == '+' {
        s.drop_first()
    } else {
        s
    }
}

/// How `str::parse::<u16>` reads a string: an optional `+`, then at least
/// one decimal digit and nothing else, denoting a number below 65536.
pub open spec fn parse_u16_spec(s: Seq<char>) -> Option<u16> {
    let ds = unsigned_digits(s);
    if ds.len() > 0 && all_digits(ds) && digits_value(ds) <= u16::MAX {
        Some(digits_value(ds) as u16)
    } else {
        None
    }
}

/// The decimal digits of `n`, most significant first, without leading zeros.
pub open spec fn decimal(n: nat) -> Seq<char>
    decreases n,
{
    if n < 10 {
        seq![('0' as u8 + n as u8) as char]
    } else {
        decimal(n / 10).push(('0' as u8 + (n % 10) as u8) as char)
    }
}

fn digit_char(d: u16) -> (c: char)
    requires
        d < 10,
    ensures
        c == ('0' as u8 + d as u8) as char,
        is_digit(c),
        digit_value(c) == d,
{
    let b: u8 = 48u8 + d as u8;
    b as char
}

/// Reads a port number as `str::parse::<u16>` does.
pub fn parse_port(s: &str) -> (port: Option<u16>)
    ensures
        port == parse_u16_spec(s@),
{
    let chars = chars_of(s);
    let mut start: usize = 0;
    if chars.len() > 0 && chars[0] == '+' {
        start = 1;
    }
    let ghost ds = unsigned_digits(s@);
    assert(ds == chars@.subrange(start as int, chars@.len() as int));
    if start == chars.len() {
        return None;
    }
    let mut acc: u32 = 0;
    let mut over = false;
    let mut i: usize = start;
    while i < chars.len()
        invariant
            chars@ == s@,
            start <= i <= chars.len(),
            ds == unsigned_digits(s@),
            ds == chars@.subrange(start as int, chars@.len() as int),
            all_digits(chars@.subrange(start as int, i as int)),
            !over ==> acc == digits_value(chars@.subrange(start as int, i as int)),
            !over ==> acc <= u16::MAX,
            over ==> digits_value(chars@.subrange(start as int, i as int)) > u16::MAX,
        decreases chars.len() - i,
    {
        let c = chars[i];
        let ghost pre = chars@.subrange(start as int, i as int);
        let ghost next = chars@.subrange(start as int, i + 1);
        assert(next.drop_last() == pre);
        if !(c >= '0' && c <= '9') {
            assert(ds[i - start] == c);
            assert(!is_digit(ds[i - start]));
            return None;
        }
        let d: u32 = (c as u32) - 48;
        if !over {
            let v: u32 = acc * 10 + d;
            if v > 65535 {
                over = true;
            } else {
                acc = v;
            }
        }
        i = i + 1;
    }
    assert(chars@.subrange(start as int, i as int) == ds);
    if over {
        None
    } else {
        Some(acc as u16)
    }
}

/// The port named by the `PORT` setting when it reads as a port number,
/// the default port otherwise.
pub fn get_port(setting: Option<&str>) -> (port: u16)
    ensures
        port == (match setting {
            Some(p) => match parse_u16_spec(p@) {
                Some(n) => n,
                None => DEFAULT_PORT,
            },
            None => DEFAULT_PORT,
        }),
{
    match setting {
        Some(p) => match parse_port(p) {
            Some(n) => n,
            None => DEFAULT_PORT,
        },
        None => DEFAULT_PORT,
    }
}

fn push_decimal(out: &mut String, n: u16)
    ensures
        final(out)@ == old(out)@ + decimal(n as nat),
    decreases n,
{
    if n >= 10 {
        push_decimal(out, n / 10);
        push_char(out, digit_char(n % 10));
        assert(old(out)@ + decimal(n as nat) == old(out)@ + decimal((n / 10) as nat) + seq![
            digit_char_spec((n % 10) as nat),
        ]);
    } else {
        push_char(out, digit_char(n));
    }
}

pub open spec fn digit_char_spec(d: nat) -> char {
    ('0' as u8 + d as u8) as char
}

/// The text of a URL of the local health endpoint, as characters.
pub open spec fn health_url_spec(port: u16) -> Seq<char> {
    "http://localhost:"@ + decimal(port as nat) + "/health"@
}

/// The URL at which the local health endpoint answers on `port`.
pub fn health_check_url(port: u16) -> (url: String)
    ensures
        url@ == health_url_spec(port),
{
    let mut url = String::from_str("http://localhost:");
    push_decimal(&mut url, port);
    url.append("/health");
    url
}

/// The body of the health endpoint's answer.
pub struct HealthResponse {
    pub status: String,
    pub version: String,
}

/// The answer of a running service: status `ok` and the given version.
pub fn health_response(version: String) -> (r: HealthResponse)
    ensures
        r.status@ == "ok"@,
        r.version == version,
{
    HealthResponse { status: String::from_str("ok"), version }
}

/// What a client concludes from asking the health endpoint.
#[derive(PartialEq, Eq, Debug, Clone, Copy)]
pub enum HealthCheckOutcome {
    /// The endpoint answered with a success status.
    Passed,
    /// The endpoint answered with this other status.
    FailedStatus(u16),
    /// No answer could be had.
    Unreachable,
}

/// Whether an HTTP status is a success (200 to 299).
pub open spec fn is_success_status(code: u16) -> bool {
    200 <= code <= 299
}

/// Reads the status of the answer (`None`: no answer) as a check outcome.
pub fn health_check_outcome(status: Option<u16>) -> (o: HealthCheckOutcome)
    ensures
        o == (match status {
            Some(code) => if is_success_status(code) {
                HealthCheckOutcome::Passed
            } else {
                HealthCheckOutcome::FailedStatus(code)
            },
            None => HealthCheckOutcome::Unreachable,
        }),
{
    match status {
        Some(code) => if 200 <= code && code <= 299 {
            HealthCheckOutcome::Passed
        } else {
            HealthCheckOutcome::FailedStatus(code)
        },
        None => HealthCheckOutcome::Unreachable,
    }
}

proof fn lemma_decimal_digits(n: nat)
    ensures
        decimal(n).len() > 0,
        all_digits(decimal(n)),
        digits_value(decimal(n)) == n,
        decimal(n)[0] != '+',
    decreases n,
{
    if n >= 10 {
        lemma_decimal_digits(n / 10);
        let d = decimal(n);
        lemma_digit_char((n % 10) as nat);
        assert(d.drop_last() == decimal(n / 10));
        assert(n == (n / 10) * 10 + n % 10) by (nonlinear_arith);
        assert(digits_value(d) == digits_value(decimal(n / 10)) * 10 + (n % 10));
        assert forall|i: int| 0 <= i < d.len() implies is_digit(#[trigger] d[i]) by {
            if i < d.len() - 1 {
                assert(d[i] == decimal(n / 10)[i]);
            }
        }
    } else {
        lemma_digit_char(n);
        let d = decimal(n);
        assert(d.drop_last() == Seq::<char>::empty());
        assert(digits_value(d) == digits_value(d.drop_last()) * 10 + digit_value(d.last()));
    }
}

proof fn lemma_digit_char(d: nat)
    requires
        d < 10,
    ensures
        is_digit(('0' as u8 + d as u8) as char),
        digit_value(('0' as u8 + d as u8) as char) == d,
        ('0' as u8 + d as u8) as char != '+',
{
    assert(d as u8 == d);
    assert(('0' as u8 + d as u8) as char as nat == 48 + d);
}

/// The number written in a health URL reads back as the port it was
/// written from: a port rendered in decimal parses to itself.
pub proof fn lemma_port_decimal_roundtrip(port: u16)
    ensures
        parse_u16_spec(decimal(port as nat)) == Some(port),
{
    lemma_decimal_digits(port as nat);
}

} // verus!
