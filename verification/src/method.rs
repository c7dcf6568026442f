//! HTTP request methods and the set of them this connection supports.

use crate::error::HyperError;
use vstd::prelude::*;

verus! {

/// An HTTP request method, covering the verbs of the blocking client
/// interface this connection serves. Only the nine methods of
/// [`is_supported`] can be sent; the rest are rejected when a request is
/// initiated.
#[derive(Clone, Copy, Debug, PartialEq, Eq, Structural)]
pub enum Method {
    Delete,
    Get,
    Head,
    Post,
    Put,
    Connect,
    Options,
    Trace,
    Copy,
    Lock,
    MkCol,
    Move,
    Propfind,
    Proppatch,
    Search,
    Unlock,
    Bind,
    Rebind,
    Unbind,
    Acl,
    Report,
    MkActivity,
    Checkout,
    Merge,
    MSearch,
    Notify,
    Subscribe,
    Unsubscribe,
    Patch,
    Purge,
    MkCalendar,
    Link,
    Unlink,
}

/// The methods a request may be initiated with.
pub open spec fn is_supported(method: Method) -> bool {
    match method {
        Method::Delete
        | Method::Get
        | Method::Head
        | Method::Post
        | Method::Put
        | Method::Connect
        | Method::Options
        | Method::Trace
        | Method::Patch => true,
        _ => false,
    }
}

/// Accepts a supported method unchanged and rejects any other with
/// `UnsupportedMethod` carrying the offending method.
pub fn map_method(method: Method) -> (r: Result<Method, HyperError>)
    ensures
        is_supported(method) ==> r == Ok::<Method, HyperError>(method),
        !is_supported(method) ==> r == Err::<Method, HyperError>(
            HyperError::UnsupportedMethod(method),
        ),
{
    match method {
        Method::Delete
        | Method::Get
        | Method::Head
        | Method::Post
        | Method::Put
        | Method::Connect
        | Method::Options
        | Method::Trace
        | Method::Patch => Ok(method),
        _ => Err(HyperError::UnsupportedMethod(method)),
    }
}

} // verus!
