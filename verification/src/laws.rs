//! Laws of the connection lifecycle, stated and proved over the
//! mathematical model that the executable functions are specified against.

use crate::completed_state;
use crate::flushed_state;
use crate::initiated_state;
use crate::is_supported;
use crate::method::Method;
use crate::read_bytes;
use crate::read_state;
use crate::taken_state;
use crate::written_state;
use crate::ConnView;
use vstd::prelude::*;

verus! {

/// After a request is initiated with a supported method, a request is
/// pending and no response is.
pub proof fn lemma_initiate_marks_request(
    method: Method,
    uri: Seq<char>,
    headers: Seq<(Seq<char>, Seq<char>)>,
)
    requires
        is_supported(method),
    ensures
        initiated_state(method, uri, headers).request is Some,
        initiated_state(method, uri, headers).response is None,
{
}

/// Writing `b1` then `b2` then flushing commits a request body of
/// `b1 ++ b2`.
pub proof fn lemma_write_write_flush(
    method: Method,
    uri: Seq<char>,
    headers: Seq<(Seq<char>, Seq<char>)>,
    b1: Seq<u8>,
    b2: Seq<u8>,
)
    ensures
        flushed_state(
            written_state(written_state(initiated_state(method, uri, headers), b1), b2),
        ).request matches Some(req) && req.body == b1 + b2,
{
    assert(Seq::<u8>::empty() + b1 + b2 =~= b1 + b2);
}

/// A flush replaces the body rather than appending to it: writing `b1`,
/// flushing, writing `b3` and flushing again leaves a body of `b3` alone.
pub proof fn lemma_flush_replaces(
    method: Method,
    uri: Seq<char>,
    headers: Seq<(Seq<char>, Seq<char>)>,
    b1: Seq<u8>,
    b3: Seq<u8>,
)
    ensures
        flushed_state(
            written_state(
                flushed_state(written_state(initiated_state(method, uri, headers), b1)),
                b3,
            ),
        ).request matches Some(req) && req.body == b3,
{
    assert(Seq::<u8>::empty() + b3 =~= b3);
}

/// After a submit completes — the pending request handed out and the
/// transport's answer stored — a response is set and no request is pending.
pub proof fn lemma_submit_sets_response(
    s: ConnView,
    status: u16,
    headers: Seq<(Seq<char>, Seq<char>)>,
    body: Seq<u8>,
)
    ensures
        completed_state(taken_state(s), status, headers, body).response is Some,
        completed_state(taken_state(s), status, headers, body).request is None,
{
}

/// Reading into a buffer of `k` bytes and then one of `m` bytes delivers
/// the same bytes as one read into a buffer of `k + m`.
pub proof fn lemma_read_concat(s: ConnView, k: nat, m: nat)
    ensures
        read_bytes(s, k) + read_bytes(read_state(s, k), m) == read_bytes(s, k + m),
{
    let c = s.read_cursor;
    let s2 = read_state(s, k);
    assert(s2.read_cursor =~= c.skip(vstd::math::min(k as int, c.len() as int)));
    assert(read_bytes(s, k) + read_bytes(s2, m) =~= read_bytes(s, k + m));
}

/// A read into a buffer at least as large as the remaining body delivers
/// the whole remainder and exhausts the cursor.
pub proof fn lemma_read_all(s: ConnView, k: nat)
    requires
        k >= s.read_cursor.len(),
    ensures
        read_bytes(s, k) == s.read_cursor,
        read_state(s, k).read_cursor == Seq::<u8>::empty(),
{
    assert(read_bytes(s, k) =~= s.read_cursor);
    assert(read_state(s, k).read_cursor =~= Seq::<u8>::empty());
}

/// Once the body is exhausted, a read of any size delivers nothing and
/// leaves the connection as it was.
pub proof fn lemma_read_exhausted(s: ConnView, k: nat)
    requires
        s.read_cursor.len() == 0,
    ensures
        read_bytes(s, k) == Seq::<u8>::empty(),
        read_state(s, k) == s,
{
    assert(read_bytes(s, k) =~= Seq::<u8>::empty());
    assert(read_state(s, k) =~~= s);
}

} // verus!
