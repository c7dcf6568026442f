//! Header wire-format rules and header lookup.
//!
//! The validity of a header name or value is decided by `hyper`'s own
//! parsers, behind trusted wrappers whose contracts restate the parsers'
//! byte-level rules. Lookup compares names ASCII case-insensitively over
//! their UTF-8 bytes, as HTTP requires.

use crate::error::HyperError;
use vstd::prelude::*;

verus! {

use vstd::string::StringSliceAdditionalSpecFns;
use vstd::utf8::encode_utf8;

/// The ASCII-lowercase image of one byte: `'A'..='Z'` shifted to
/// `'a'..='z'`, every other byte unchanged.
pub open spec fn lower_byte(b: u8) -> u8 {
    if 65 <= b <= 90 {
        (b + 32) as u8
    } else {
        b
    }
}

/// Two byte sequences are equal once both are ASCII-lowercased.
pub open spec fn eq_ignore_ascii_case(a: Seq<u8>, b: Seq<u8>) -> bool {
    a.len() == b.len() && (forall|i: int|
        0 <= i < a.len() ==> lower_byte(#[trigger] a[i]) == lower_byte(b[i]))
}

/// Two header names (as character sequences) denote the same header: their
/// UTF-8 bytes are equal up to ASCII case.
pub open spec fn name_matches(a: Seq<char>, b: Seq<char>) -> bool {
    eq_ignore_ascii_case(encode_utf8(a), encode_utf8(b))
}

/// A byte allowed in a header name: the HTTP token characters
/// `!#$%&'*+-.^_`|~`, digits, and letters of either case.
pub open spec fn is_header_name_byte(b: u8) -> bool {
    ||| b == 33
    ||| b == 35
    ||| b == 36
    ||| b == 37
    ||| b == 38
    ||| b == 39
    ||| b == 42
    ||| b == 43
    ||| b == 45
    ||| b == 46
    ||| 48 <= b <= 57
    ||| 65 <= b <= 90
    ||| b == 94
    ||| b == 95
    ||| b == 96
    ||| 97 <= b <= 122
    ||| b == 124
    ||| b == 126
}

/// A valid header name: one to 65535 bytes, all of them token characters.
pub open spec fn valid_header_name_bytes(bytes: Seq<u8>) -> bool {
    &&& 1 <= bytes.len() <= 65535
    &&& forall|i: int| 0 <= i < bytes.len() ==> is_header_name_byte(#[trigger] bytes[i])
}

/// A byte allowed in a header value: horizontal tab or any byte that is
/// neither a control character nor DEL.
pub open spec fn is_header_value_byte(b: u8) -> bool {
    b == 9 || (32 <= b && b != 127)
}

/// A valid header value: every byte allowed (the empty value is allowed).
pub open spec fn valid_header_value_bytes(bytes: Seq<u8>) -> bool {
    forall|i: int| 0 <= i < bytes.len() ==> is_header_value_byte(#[trigger] bytes[i])
}

/// A header pair whose name and value both obey the wire-format rules.
pub open spec fn header_pair_valid(pair: (Seq<char>, Seq<char>)) -> bool {
    valid_header_name_bytes(encode_utf8(pair.0)) && valid_header_value_bytes(
        encode_utf8(pair.1),
    )
}

/// Every pair of the sequence obeys the wire-format rules.
pub open spec fn headers_ok(hs: Seq<(Seq<char>, Seq<char>)>) -> bool {
    forall|i: int| 0 <= i < hs.len() ==> #[trigger] header_pair_valid(hs[i])
}

/// Relies on `hyper::header::HeaderName::from_bytes`: it accepts exactly
/// the names of one to 65535 bytes made of HTTP token characters, letters
/// of either case included (uppercase is normalized, not rejected).
#[verifier::external_body]
pub(crate) fn header_name_is_valid(name: &str) -> (r: bool)
    ensures
        r == valid_header_name_bytes(name.spec_bytes()),
{
    hyper::header::HeaderName::from_bytes(name.as_bytes()).is_ok()
}

/// Relies on `hyper::header::HeaderValue::from_str`: it accepts exactly the
/// strings whose bytes are horizontal tab or neither control nor DEL.
#[verifier::external_body]
pub(crate) fn header_value_is_valid(value: &str) -> (r: bool)
    ensures
        r == valid_header_value_bytes(value.spec_bytes()),
{
    hyper::header::HeaderValue::from_str(value).is_ok()
}

/// Lowercase one byte.
fn lower_byte_exec(b: u8) -> (r: u8)
    ensures
        r == lower_byte(b),
{
    if 65 <= b && b <= 90 {
        b + 32
    } else {
        b
    }
}

/// Whether `a` and `b` are equal under ASCII case-insensitive comparison of
/// their UTF-8 bytes.
#[verifier::loop_isolation(false)]
pub fn str_eq_ignore_ascii_case(a: &str, b: &str) -> (r: bool)
    ensures
        r == eq_ignore_ascii_case(a.spec_bytes(), b.spec_bytes()),
{
    let ab = a.as_bytes();
    let bb = b.as_bytes();
    if ab.len() != bb.len() {
        return false;
    }
    let n = ab.len();
    let mut i: usize = 0;
    while i < n
        invariant
            0 <= i <= n,
            forall|j: int| 0 <= j < i ==> lower_byte(#[trigger] ab@[j]) == lower_byte(bb@[j]),
        decreases n - i,
    {
        if lower_byte_exec(ab[i]) != lower_byte_exec(bb[i]) {
            assert(lower_byte(ab@[i as int]) != lower_byte(bb@[i as int]));
            return false;
        }
        i += 1;
    }
    true
}

/// Validates every header pair against the wire-format rules and keeps an
/// owned copy. Fails on the first violating pair, name before value, with
/// the error carrying the offending text; no pair after the first violation
/// is judged.
#[verifier::loop_isolation(false)]
pub fn build_headers(headers: &[(&str, &str)]) -> (r: Result<
    Vec<(String, String)>,
    HyperError,
>)
    ensures
        r is Ok <==> headers_ok(headers.deep_view()),
        r matches Ok(v) ==> v.deep_view() == headers.deep_view(),
        r is Err ==> exists|i: int|
            0 <= i < headers.deep_view().len() && (forall|j: int|
                0 <= j < i ==> #[trigger] header_pair_valid(headers.deep_view()[j])) && ((
            !valid_header_name_bytes(encode_utf8(headers.deep_view()[i].0)) && (
            r matches Err(HyperError::InvalidHeaderName(n)) && n@ == headers.deep_view()[i].0))
                || (valid_header_name_bytes(encode_utf8(headers.deep_view()[i].0))
                && !valid_header_value_bytes(encode_utf8(headers.deep_view()[i].1)) && (
                r matches Err(HyperError::InvalidHeaderValue(v)) && v@
                    == headers.deep_view()[i].1))),
{
    let ghost hv = headers.deep_view();
    proof {
        assert(hv.len() == headers@.len());
    }
    let mut out: Vec<(String, String)> = Vec::new();
    let n = headers.len();
    let mut i: usize = 0;
    while i < n
        invariant
            n == headers@.len(),
            hv == headers.deep_view(),
            hv.len() == headers@.len(),
            0 <= i <= n,
            forall|j: int| 0 <= j < i ==> #[trigger] header_pair_valid(hv[j]),
            out.deep_view() =~= hv.take(i as int),
        decreases n - i,
    {
        let pair = &headers[i];
        let name: &str = pair.0;
        let value: &str = pair.1;
        assert(name@ == hv[i as int].0);
        assert(value@ == hv[i as int].1);
        if !header_name_is_valid(name) {
            proof {
                assert(!header_pair_valid(hv[i as int]));
                assert(!headers_ok(hv));
            }
            return Err(HyperError::InvalidHeaderName(name.to_owned()));
        }
        if !header_value_is_valid(value) {
            proof {
                assert(!header_pair_valid(hv[i as int]));
                assert(!headers_ok(hv));
            }
            return Err(HyperError::InvalidHeaderValue(value.to_owned()));
        }
        out.push((name.to_owned(), value.to_owned()));
        assert(out.deep_view() =~= hv.take(i + 1 as int));
        i += 1;
    }
    assert(out.deep_view() =~= hv);
    Ok(out)
}

} // verus!
