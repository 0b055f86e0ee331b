//! Utilities: time spans and the parsing of numeric parameters
use std::num::{NonZeroU64, ParseIntError};

use vstd::prelude::*;

verus! {

/// A point in time or a span of time, in nanoseconds.
///
/// Points in time count from an origin that the caller chooses once (the
/// start of the service) and read from a monotonic clock.
pub type Nanos = u128;

/// Nanoseconds in a millisecond
pub const NANOS_PER_MILLI: u128 = 1_000_000;

/// Nanoseconds in a second
pub const NANOS_PER_SEC: u128 = 1_000_000_000;

#[verifier::external_type_specification]
#[verifier::external_body]
pub struct ExParseIntError(ParseIntError);

/// Whether `c` is an ASCII decimal digit
pub open spec fn is_digit(c: char) -> bool {
    '0' <= c && c <= '9'
}

/// The value of a string of decimal digits, most significant first
pub open spec fn digits_value(s: Seq<char>) -> nat
    decreases s.len(),
{
    if s.len() == 0 {
        0
    } else {
        digits_value(s.drop_last()) * 10 + (s.last() as nat - '0' as nat) as nat
    }
}

/// The digits of an unsigned decimal literal: `s` without one leading `+`
pub open spec fn unsigned_digits(s: Seq<char>) -> Seq<char> {
    if s.len() > 0 && s[0] == '+' {
        s.drop_first()
    } else {
        s
    }
}

/// The value of `s` read as a decimal `u64` that is not zero: an optional
/// `+` followed by one or more digits, with no other character
pub open spec fn nonzero_u64_of(s: Seq<char>) -> Option<u64> {
    let d = unsigned_digits(s);
    if d.len() > 0 && (forall|i: int| 0 <= i < d.len() ==> is_digit(#[trigger] d[i]))
        && 0 < digits_value(d) <= u64::MAX {
        Some(digits_value(d) as u64)
    } else {
        None
    }
}

/// Relies on `<NonZeroU64 as FromStr>::from_str`: it accepts exactly an
/// optional `+` followed by decimal digits whose value is neither zero nor
/// above `u64::MAX`, and returns that value.
#[verifier::external_body]
fn parse_nonzero_u64(s: &str) -> (r: Result<u64, ParseIntError>)
    ensures
        r is Ok <==> nonzero_u64_of(s@) is Some,
        r is Ok ==> nonzero_u64_of(s@) == Some(r->Ok_0),
{
    s.parse::<NonZeroU64>().map(NonZeroU64::get)
}

/// A span of `ms` milliseconds
pub fn from_millis(ms: u64) -> (r: Nanos)
    ensures
        r == ms * NANOS_PER_MILLI,
{
    assert(ms * NANOS_PER_MILLI <= u128::MAX) by (nonlinear_arith)
        requires
            ms <= u64::MAX,
    ;
    ms as u128 * NANOS_PER_MILLI
}

/// A span of `secs` seconds
pub fn from_secs(secs: u64) -> (r: Nanos)
    ensures
        r == secs * NANOS_PER_SEC,
{
    assert(secs * NANOS_PER_SEC <= u128::MAX) by (nonlinear_arith)
        requires
            secs <= u64::MAX,
    ;
    secs as u128 * NANOS_PER_SEC
}

/// The whole milliseconds in a span
pub fn as_millis(span: Nanos) -> (r: u128)
    ensures
        r == span / NANOS_PER_MILLI,
{
    span / NANOS_PER_MILLI
}

/// The whole seconds in a span
pub fn as_secs(span: Nanos) -> (r: u128)
    ensures
        r == span / NANOS_PER_SEC,
{
    span / NANOS_PER_SEC
}

/// Parse a non-zero duration provided in milliseconds
pub fn parse_millis(s: &str) -> (r: Result<Nanos, ParseIntError>)
    ensures
        r is Ok <==> nonzero_u64_of(s@) is Some,
        r is Ok ==> r->Ok_0 == nonzero_u64_of(s@)->Some_0 * NANOS_PER_MILLI,
{
    match parse_nonzero_u64(s) {
        Ok(v) => Ok(from_millis(v)),
        Err(e) => Err(e),
    }
}

/// Parse a non-zero duration provided in seconds
pub fn parse_secs(s: &str) -> (r: Result<Nanos, ParseIntError>)
    ensures
        r is Ok <==> nonzero_u64_of(s@) is Some,
        r is Ok ==> r->Ok_0 == nonzero_u64_of(s@)->Some_0 * NANOS_PER_SEC,
{
    match parse_nonzero_u64(s) {
        Ok(v) => Ok(from_secs(v)),
        Err(e) => Err(e),
    }
}

/// The characters of `s`, in order
pub(crate) fn chars_of(s: &str) -> (r: Vec<char>)
    ensures
        r@ == s@,
{
    let mut r: Vec<char> = Vec::new();
    for c in it: s.chars()
        invariant
            it.seq() == s@,
            r@ == s@.take(it.index()),
    {
        r.push(c);
        assert(r@ =~= s@.take(it.index() + 1));
    }
    assert(r@ =~= s@);
    r
}

/// Why a URI cannot serve as the base URI of the API
#[derive(Clone, Copy, Debug, PartialEq, Eq, Structural)]
pub enum BaseUriError {
    /// The URI has a query
    HasQuery,
}

/// Decide how a URI with the given path, and with a query or not, serves as
/// a base URI: rejected if it has a query, else whether a slash must be
/// appended so that its path ends with one
pub fn base_uri_needs_slash(has_query: bool, path: &str) -> (r: Result<bool, BaseUriError>)
    ensures
        r is Err <==> has_query,
        r is Ok ==> (r->Ok_0 <==> !(path@.len() > 0 && path@.last() == '/')),
{
    if has_query {
        return Err(BaseUriError::HasQuery);
    }
    let c = chars_of(path);
    let n = c.len();
    Ok(!(n > 0 && c[n - 1] == '/'))
}

/// Failure to retrieve the device with the given index, for a reason other
/// than the index being invalid
#[derive(Clone, Copy, Debug, PartialEq, Eq, Structural)]
pub struct DeviceRetrievalError(pub u32);

} // verus!
