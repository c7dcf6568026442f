//! URI well-formedness and status reason phrases, taken from `hyper`.
//!
//! Both are pure functions of their argument, but their full statement is a
//! grammar and a table; each result is therefore given a name that the
//! callers' contracts speak of.

use vstd::prelude::*;

verus! {

/// Whether a string of characters parses as a URI. Named, not written out:
/// the URI grammar is decided by `hyper`'s parser.
pub uninterp spec fn uri_well_formed(uri: Seq<char>) -> bool;

/// The canonical reason phrase of a status code, if the code has one.
/// Named, not written out: the table is `hyper`'s.
pub uninterp spec fn reason_phrase(status: u16) -> Option<Seq<char>>;

/// Relies on `str::parse::<hyper::Uri>`: whether the text is a well-formed
/// URI is a function of its characters alone.
#[verifier::external_body]
pub(crate) fn uri_is_valid(uri: &str) -> (r: bool)
    ensures
        r == uri_well_formed(uri@),
{
    uri.parse::<hyper::Uri>().is_ok()
}

/// Relies on `hyper::StatusCode::canonical_reason`, with
/// `StatusCode::from_u16` converting the argument: the phrase is a fixed
/// table keyed by the code alone, and codes outside `100..=999` have no
/// status code and so no phrase.
#[verifier::external_body]
pub(crate) fn canonical_reason(status: u16) -> (r: Option<&'static str>)
    ensures
        r is Some <==> reason_phrase(status) is Some,
        r matches Some(msg) ==> Some(msg@) == reason_phrase(status),
        !(100 <= status <= 999) ==> r is None,
{
    hyper::StatusCode::from_u16(status).ok().and_then(|code| code.canonical_reason())
}

} // verus!
