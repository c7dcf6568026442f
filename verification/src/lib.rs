//! A synchronous HTTP connection state machine in the style of the
//! `embedded_svc` blocking `Connection` contract, backed by `hyper` for
//! wire-format validation.
//!
//! The connection walks one request/response cycle at a time: initiate a
//! request (method, URI, headers), buffer body bytes with `write`, commit
//! them with `flush`, hand the finished request out with `take_request`,
//! store the transport's answer with `complete_response`, then read the
//! response status, headers and body. The network transport itself is
//! driven by the surrounding application; this library owns and verifies
//! the lifecycle, buffering, validation and lookup logic.

use vstd::prelude::*;

mod error;
mod headers;
mod laws;
mod method;
mod wire;

pub use error::HyperError;
pub use headers::build_headers;
pub use headers::eq_ignore_ascii_case;
pub use headers::header_pair_valid;
pub use headers::headers_ok;
pub use headers::is_header_name_byte;
pub use headers::is_header_value_byte;
pub use headers::lower_byte;
pub use headers::name_matches;
pub use headers::str_eq_ignore_ascii_case;
pub use headers::valid_header_name_bytes;
pub use headers::valid_header_value_bytes;
pub use laws::lemma_flush_replaces;
pub use laws::lemma_initiate_marks_request;
pub use laws::lemma_read_all;
pub use laws::lemma_read_concat;
pub use laws::lemma_read_exhausted;
pub use laws::lemma_submit_sets_response;
pub use laws::lemma_write_write_flush;
pub use method::is_supported;
pub use method::map_method;
pub use method::Method;
pub use wire::reason_phrase;
pub use wire::uri_well_formed;

verus! {

use vstd::math::min;

/// The mathematical value of a pending outbound request.
#[verifier::ext_equal]
pub struct ReqView {
    pub method: Method,
    pub uri: Seq<char>,
    pub headers: Seq<(Seq<char>, Seq<char>)>,
    pub body: Seq<u8>,
}

/// The mathematical value of a received response head.
#[verifier::ext_equal]
pub struct RespView {
    pub status: u16,
    pub headers: Seq<(Seq<char>, Seq<char>)>,
}

/// The mathematical value of a whole connection: at most one pending
/// request, at most one received response, the bytes written since the
/// last flush, and the response body bytes not yet read.
#[verifier::ext_equal]
pub struct ConnView {
    pub request: Option<ReqView>,
    pub response: Option<RespView>,
    pub write_buffer: Seq<u8>,
    pub read_cursor: Seq<u8>,
}

/// An outbound request ready to be handed to a transport: a supported
/// method, a well-formed URI, validated headers, and the body committed by
/// the last flush.
pub struct PendingRequest {
    pub method: Method,
    pub uri: String,
    pub headers: Vec<(String, String)>,
    pub body: Vec<u8>,
}

impl View for PendingRequest {
    type V = ReqView;

    open spec fn view(&self) -> ReqView {
        ReqView {
            method: self.method,
            uri: self.uri@,
            headers: self.headers.deep_view(),
            body: self.body@,
        }
    }
}

/// The head of a received response: its status code and headers, or
/// nothing while no response has been received.
pub struct ResponseHead {
    data: Option<(u16, Vec<(String, String)>)>,
}

impl View for ResponseHead {
    type V = Option<RespView>;

    closed spec fn view(&self) -> Option<RespView> {
        match self.data {
            Some((status, headers)) => Some(
                RespView { status, headers: headers.deep_view() },
            ),
            None => None,
        }
    }
}

/// The not-yet-read remainder of a response body.
pub struct BodyReader {
    buf: Vec<u8>,
}

impl View for BodyReader {
    type V = Seq<u8>;

    closed spec fn view(&self) -> Seq<u8> {
        self.buf@
    }
}

/// A blocking HTTP connection: one request/response cycle at a time.
pub struct HyperHttpConnection {
    request: Option<PendingRequest>,
    write_buffer: Vec<u8>,
    head: ResponseHead,
    body: BodyReader,
}

impl View for HyperHttpConnection {
    type V = ConnView;

    closed spec fn view(&self) -> ConnView {
        ConnView {
            request: match self.request {
                Some(req) => Some(req@),
                None => None,
            },
            response: self.head@,
            write_buffer: self.write_buffer@,
            read_cursor: self.body@,
        }
    }
}

/// A connection with no request, no response, and empty buffers.
pub open spec fn idle_state() -> ConnView {
    ConnView {
        request: None,
        response: None,
        write_buffer: Seq::empty(),
        read_cursor: Seq::empty(),
    }
}

/// The connection right after a request is initiated: the request pending
/// with an empty body, any previous response discarded, both buffers
/// cleared.
pub open spec fn initiated_state(
    method: Method,
    uri: Seq<char>,
    headers: Seq<(Seq<char>, Seq<char>)>,
) -> ConnView {
    ConnView {
        request: Some(ReqView { method, uri, headers, body: Seq::empty() }),
        response: None,
        write_buffer: Seq::empty(),
        read_cursor: Seq::empty(),
    }
}

/// The connection after `data` is written: the bytes are appended to the
/// write buffer. (Writing requires a pending request; on a connection
/// without one this value is never reached.)
pub open spec fn written_state(s: ConnView, data: Seq<u8>) -> ConnView {
    ConnView { write_buffer: s.write_buffer + data, ..s }
}

/// The connection after a flush: everything written so far replaces the
/// pending request's body, and the write buffer empties. Without a pending
/// request a flush fails and changes nothing.
pub open spec fn flushed_state(s: ConnView) -> ConnView {
    match s.request {
        Some(req) => ConnView {
            request: Some(ReqView { body: s.write_buffer, ..req }),
            write_buffer: Seq::empty(),
            ..s
        },
        None => s,
    }
}

/// The connection after the pending request is handed to the transport:
/// the request is gone, everything else keeps its value.
pub open spec fn taken_state(s: ConnView) -> ConnView {
    ConnView { request: None, ..s }
}

/// The connection after the transport's answer is stored: the response
/// head is set and the read cursor holds the whole body.
pub open spec fn completed_state(
    s: ConnView,
    status: u16,
    headers: Seq<(Seq<char>, Seq<char>)>,
    body: Seq<u8>,
) -> ConnView {
    ConnView { response: Some(RespView { status, headers }), read_cursor: body, ..s }
}

/// How many bytes a read into a buffer of capacity `cap` delivers.
pub open spec fn read_count(s: ConnView, cap: nat) -> int {
    min(cap as int, s.read_cursor.len() as int)
}

/// The bytes a read into a buffer of capacity `cap` delivers: the next
/// `read_count` bytes of the cursor.
pub open spec fn read_bytes(s: ConnView, cap: nat) -> Seq<u8> {
    s.read_cursor.take(read_count(s, cap))
}

/// The connection after such a read: the delivered bytes leave the cursor.
pub open spec fn read_state(s: ConnView, cap: nat) -> ConnView {
    ConnView { read_cursor: s.read_cursor.skip(read_count(s, cap)), ..s }
}

/// The status code reported for a response state: the response's own code,
/// or the documented sentinel 500 while no response is set.
pub open spec fn status_of(response: Option<RespView>) -> u16 {
    match response {
        Some(resp) => resp.status,
        None => 500,
    }
}

impl ResponseHead {
    /// The status code of the response, or the sentinel 500 if none is set.
    pub fn status(&self) -> (r: u16)
        ensures
            r == status_of(self@),
    {
        match &self.data {
            Some((status, _)) => *status,
            None => 500,
        }
    }

    /// The canonical reason phrase of the response's status, if a response
    /// is set and its code has one.
    pub fn status_message(&self) -> (r: Option<&'static str>)
        ensures
            self@ is None ==> r is None,
            self@ matches Some(resp) ==> (r is Some <==> reason_phrase(resp.status) is Some),
            self@ matches Some(resp) ==> (r matches Some(msg) ==> Some(msg@) == reason_phrase(
                resp.status,
            )),
    {
        match &self.data {
            Some((status, _)) => wire::canonical_reason(*status),
            None => None,
        }
    }

    /// Whether a response is set.
    pub fn is_initiated(&self) -> (r: bool)
        ensures
            r == (self@ is Some),
    {
        self.data.is_some()
    }

    /// The value of the first response header whose name equals `name` up
    /// to ASCII case, or nothing if no header matches or no response is
    /// set.
    #[verifier::loop_isolation(false)]
    pub fn header(&self, name: &str) -> (r: Option<&str>)
        ensures
            self@ is None ==> r is None,
            self@ matches Some(resp) ==> ((r is Some) <==> exists|i: int|
                0 <= i < resp.headers.len() && #[trigger] name_matches(
                    resp.headers[i].0,
                    name@,
                )),
            self@ matches Some(resp) ==> (r matches Some(v) ==> exists|i: int|
                0 <= i < resp.headers.len() && #[trigger] name_matches(resp.headers[i].0, name@)
                    && (forall|j: int|
                    0 <= j < i ==> !name_matches(#[trigger] resp.headers[j].0, name@)) && v@
                    == resp.headers[i].1),
    {
        match &self.data {
            None => None,
            Some((_, hs)) => {
                let ghost rhs = hs.deep_view();
                assert(self@ matches Some(resp) && resp.headers == rhs);
                let n = hs.len();
                let mut i: usize = 0;
                while i < n
                    invariant
                        n == hs@.len(),
                        rhs == hs.deep_view(),
                        rhs.len() == hs@.len(),
                        0 <= i <= n,
                        forall|j: int| 0 <= j < i ==> !name_matches(#[trigger] rhs[j].0, name@),
                    decreases n - i,
                {
                    let pair = &hs[i];
                    assert(pair.0@ == rhs[i as int].0 && pair.1@ == rhs[i as int].1);
                    if headers::str_eq_ignore_ascii_case(pair.0.as_str(), name) {
                        assert(name_matches(rhs[i as int].0, name@));
                        return Some(pair.1.as_str());
                    }
                    i += 1;
                }
                None
            },
        }
    }
}

impl BodyReader {
    /// Copies the next body bytes into the front of `out`: as many as are
    /// buffered, at most `out.len()`. Returns how many were copied; 0 means
    /// the body is exhausted (or `out` is empty).
    pub fn read(&mut self, out: &mut [u8]) -> (r: Result<usize, HyperError>)
        ensures
            r matches Ok(n) && n == min(old(out)@.len() as int, old(self)@.len() as int),
            final(self)@ == old(self)@.skip(min(old(out)@.len() as int, old(self)@.len() as int)),
            final(out)@ =~= old(self)@.take(min(old(out)@.len() as int, old(self)@.len() as int))
                + old(out)@.skip(min(old(out)@.len() as int, old(self)@.len() as int)),
    {
        let n = if out.len() < self.buf.len() {
            out.len()
        } else {
            self.buf.len()
        };
        let mut i: usize = 0;
        while i < n
            invariant
                n == min(old(out)@.len() as int, old(self)@.len() as int),
                0 <= i <= n,
                self.buf@ == old(self)@,
                out@.len() == old(out)@.len(),
                n <= out@.len(),
                n <= self.buf@.len(),
                forall|j: int| 0 <= j < i ==> out@[j] == old(self)@[j],
                forall|j: int| i <= j < out@.len() ==> out@[j] == old(out)@[j],
            decreases n - i,
        {
            out[i] = self.buf[i];
            i += 1;
        }
        let rest = self.buf.split_off(n);
        self.buf = rest;
        assert(final(out)@ =~= old(self)@.take(n as int) + old(out)@.skip(n as int));
        Ok(n)
    }
}

impl HyperHttpConnection {
    /// Creates a connection in the idle state: no request, no response,
    /// empty buffers.
    pub fn new() -> (r: Self)
        ensures
            r@ == idle_state(),
    {
        let r = HyperHttpConnection {
            request: None,
            write_buffer: Vec::new(),
            head: ResponseHead { data: None },
            body: BodyReader { buf: Vec::new() },
        };
        assert(r@ =~~= idle_state());
        r
    }

    /// Begins a request: validates the method against the supported set,
    /// every header against the wire-format rules (all of them before any
    /// state changes), and the URI; then stores the pending request with an
    /// empty body, discards any previous response, and clears both buffers.
    /// On any validation failure the connection is left exactly as it was.
    pub fn initiate_request(
        &mut self,
        method: Method,
        uri: &str,
        headers: &[(&str, &str)],
    ) -> (r: Result<(), HyperError>)
        ensures
            r is Ok <==> (is_supported(method) && headers_ok(headers.deep_view())
                && uri_well_formed(uri@)),
            r is Ok ==> final(self)@ == initiated_state(method, uri@, headers.deep_view()),
            r is Err ==> final(self)@ == old(self)@,
            !is_supported(method) ==> r == Err::<(), HyperError>(
                HyperError::UnsupportedMethod(method),
            ),
            is_supported(method) && !headers_ok(headers.deep_view()) ==> exists|i: int|
                0 <= i < headers.deep_view().len() && (forall|j: int|
                    0 <= j < i ==> #[trigger] header_pair_valid(headers.deep_view()[j])) && ((
                !valid_header_name_bytes(
                    vstd::utf8::encode_utf8(headers.deep_view()[i].0),
                ) && (r matches Err(HyperError::InvalidHeaderName(n)) && n@
                    == headers.deep_view()[i].0)) || (valid_header_name_bytes(
                    vstd::utf8::encode_utf8(headers.deep_view()[i].0),
                ) && !valid_header_value_bytes(
                    vstd::utf8::encode_utf8(headers.deep_view()[i].1),
                ) && (r matches Err(HyperError::InvalidHeaderValue(v)) && v@
                    == headers.deep_view()[i].1))),
            is_supported(method) && headers_ok(headers.deep_view()) && !uri_well_formed(uri@)
                ==> (r matches Err(HyperError::Http(u)) && u@ == uri@),
    {
        let method = match method::map_method(method) {
            Ok(m) => m,
            Err(e) => {
                return Err(e);
            },
        };
        let owned_headers = match headers::build_headers(headers) {
            Ok(hs) => hs,
            Err(e) => {
                return Err(e);
            },
        };
        if !wire::uri_is_valid(uri) {
            return Err(HyperError::Http(uri.to_owned()));
        }
        self.request = Some(
            PendingRequest {
                method,
                uri: uri.to_owned(),
                headers: owned_headers,
                body: Vec::new(),
            },
        );
        self.head = ResponseHead { data: None };
        self.body = BodyReader { buf: Vec::new() };
        self.write_buffer.clear();
        assert(self@ =~~= initiated_state(method, uri@, headers.deep_view()));
        Ok(())
    }

    /// Whether a request has been initiated and not yet handed out.
    pub fn is_request_initiated(&self) -> (r: bool)
        ensures
            r == (self@.request is Some),
    {
        self.request.is_some()
    }

    /// Buffers body bytes to be committed by the next flush. Accepts every
    /// byte handed to it and reports how many, which is all of them. Fails
    /// with `NoRequest` when no request is initiated.
    pub fn write(&mut self, buf: &[u8]) -> (r: Result<usize, HyperError>)
        ensures
            old(self)@.request is Some ==> (r matches Ok(n) && n == buf@.len() && final(self)@
                == written_state(old(self)@, buf@)),
            old(self)@.request is None ==> (r == Err::<usize, HyperError>(HyperError::NoRequest)
                && final(self)@ == old(self)@),
    {
        if self.request.is_none() {
            return Err(HyperError::NoRequest);
        }
        self.write_buffer.extend_from_slice(buf);
        assert(self@ =~~= written_state(old(self)@, buf@));
        Ok(buf.len())
    }

    /// Commits the body: everything written since the last flush replaces
    /// the pending request's body, and the write buffer empties. Fails with
    /// `NoRequest` when no request is initiated.
    pub fn flush(&mut self) -> (r: Result<(), HyperError>)
        ensures
            old(self)@.request is Some ==> (r is Ok && final(self)@ == flushed_state(old(self)@)),
            old(self)@.request is None ==> (r == Err::<(), HyperError>(HyperError::NoRequest)
                && final(self)@ == old(self)@),
    {
        match &mut self.request {
            None => Err(HyperError::NoRequest),
            Some(req) => {
                let mut body: Vec<u8> = Vec::new();
                core::mem::swap(&mut body, &mut self.write_buffer);
                req.body = body;
                assert(self@ =~~= flushed_state(old(self)@));
                Ok(())
            },
        }
    }

    /// Hands the pending request out for submission, leaving none pending;
    /// everything else keeps its value. Fails with `NoRequest` when no
    /// request is initiated. The surrounding transport sends the request
    /// and reports its answer through `complete_response`.
    pub fn take_request(&mut self) -> (r: Result<PendingRequest, HyperError>)
        ensures
            old(self)@.request is Some ==> (r matches Ok(req) && Some(req@) == old(self)@.request
                && final(self)@ == taken_state(old(self)@)),
            old(self)@.request is None ==> (r matches Err(e) && e == HyperError::NoRequest
                && final(self)@ == old(self)@),
    {
        match self.request.take() {
            None => Err(HyperError::NoRequest),
            Some(req) => {
                assert(self@ =~~= taken_state(old(self)@));
                Ok(req)
            },
        }
    }

    /// Stores the transport's answer: the response head is set and the
    /// whole body is buffered for reading.
    pub fn complete_response(
        &mut self,
        status: u16,
        headers: Vec<(String, String)>,
        body: Vec<u8>,
    )
        ensures
            final(self)@ == completed_state(old(self)@, status, headers.deep_view(), body@),
    {
        let ghost hv = headers.deep_view();
        let ghost bv = body@;
        self.head = ResponseHead { data: Some((status, headers)) };
        self.body = BodyReader { buf: body };
        assert(self@ =~~= completed_state(old(self)@, status, hv, bv));
    }

    /// Whether a response has been received and not yet superseded.
    pub fn is_response_initiated(&self) -> (r: bool)
        ensures
            r == (self@.response is Some),
    {
        self.head.is_initiated()
    }

    /// The status code of the response, or the sentinel 500 if none is set.
    pub fn status(&self) -> (r: u16)
        ensures
            r == status_of(self@.response),
    {
        self.head.status()
    }

    /// The canonical reason phrase of the response's status, if a response
    /// is set and its code has one.
    pub fn status_message(&self) -> (r: Option<&'static str>)
        ensures
            self@.response is None ==> r is None,
            self@.response matches Some(resp) ==> (r is Some <==> reason_phrase(resp.status)
                is Some),
            self@.response matches Some(resp) ==> (r matches Some(msg) ==> Some(msg@)
                == reason_phrase(resp.status)),
    {
        self.head.status_message()
    }

    /// The value of the first response header whose name equals `name` up
    /// to ASCII case, or nothing if no header matches or no response is
    /// set.
    pub fn header(&self, name: &str) -> (r: Option<&str>)
        ensures
            self@.response is None ==> r is None,
            self@.response matches Some(resp) ==> ((r is Some) <==> exists|i: int|
                0 <= i < resp.headers.len() && #[trigger] name_matches(
                    resp.headers[i].0,
                    name@,
                )),
            self@.response matches Some(resp) ==> (r matches Some(v) ==> exists|i: int|
                0 <= i < resp.headers.len() && #[trigger] name_matches(resp.headers[i].0, name@)
                    && (forall|j: int|
                    0 <= j < i ==> !name_matches(#[trigger] resp.headers[j].0, name@)) && v@
                    == resp.headers[i].1),
    {
        self.head.header(name)
    }

    /// Copies the next response body bytes into the front of `out`: as many
    /// as remain, at most `out.len()`. Returns how many were copied; 0
    /// means the body is exhausted, or no response is set.
    pub fn read(&mut self, out: &mut [u8]) -> (r: Result<usize, HyperError>)
        ensures
            r matches Ok(n) && n == read_count(old(self)@, old(out)@.len()),
            final(self)@ == read_state(old(self)@, old(out)@.len()),
            final(out)@ =~= read_bytes(old(self)@, old(out)@.len()) + old(out)@.skip(
                read_count(old(self)@, old(out)@.len()),
            ),
    {
        let r = self.body.read(out);
        assert(self@ =~~= read_state(old(self)@, old(out)@.len()));
        r
    }

    /// Splits the connection into a view of the response head and a reader
    /// of the response body, usable at the same time.
    pub fn split(&mut self) -> (r: (&ResponseHead, &mut BodyReader))
        ensures
            r.0@ == old(self)@.response,
            r.1@ == old(self)@.read_cursor,
            final(self)@ == (ConnView { read_cursor: final(r.1)@, ..old(self)@ }),
    {
        (&self.head, &mut self.body)
    }
}

impl Default for HyperHttpConnection {
    /// An idle connection, as `new` gives.
    fn default() -> (r: Self)
        ensures
            r@ == idle_state(),
    {
        Self::new()
    }
}

} // verus!
