//! The request/response lifecycle: initiation, buffering, submission,
//! reading, and the sequencing errors.

use native_svc::{HyperError, HyperHttpConnection, Method};

fn headers(pairs: &[(&str, &str)]) -> Vec<(String, String)> {
    pairs
        .iter()
        .map(|&(n, v)| (n.to_string(), v.to_string()))
        .collect()
}

#[test]
fn supported_methods_mark_request_pending() {
    let supported = [
        Method::Delete,
        Method::Get,
        Method::Head,
        Method::Post,
        Method::Put,
        Method::Connect,
        Method::Options,
        Method::Trace,
        Method::Patch,
    ];
    for method in supported {
        let mut conn = HyperHttpConnection::new();
        conn.initiate_request(method, "http://example/get", &[])
            .unwrap();
        assert!(conn.is_request_initiated());
        assert!(!conn.is_response_initiated());
    }
}

#[test]
fn unsupported_method_is_rejected() {
    let mut conn = HyperHttpConnection::new();
    let err = conn
        .initiate_request(Method::Copy, "http://example/get", &[])
        .unwrap_err();
    assert_eq!(err, HyperError::UnsupportedMethod(Method::Copy));
    assert!(!conn.is_request_initiated());
}

#[test]
fn write_then_flush_concatenates_writes() {
    let mut conn = HyperHttpConnection::new();
    conn.initiate_request(Method::Post, "http://example/post", &[])
        .unwrap();
    assert_eq!(conn.write(b"hello, "), Ok(7));
    assert_eq!(conn.write(b"world"), Ok(5));
    conn.flush().unwrap();
    let req = conn.take_request().unwrap();
    assert_eq!(req.body, b"hello, world".to_vec());
}

#[test]
fn second_flush_replaces_the_body() {
    let mut conn = HyperHttpConnection::new();
    conn.initiate_request(Method::Post, "http://example/post", &[])
        .unwrap();
    conn.write(b"first").unwrap();
    conn.flush().unwrap();
    conn.write(b"second").unwrap();
    conn.flush().unwrap();
    let req = conn.take_request().unwrap();
    assert_eq!(req.body, b"second".to_vec());
}

#[test]
fn submit_sets_response_and_clears_request() {
    let mut conn = HyperHttpConnection::new();
    conn.initiate_request(Method::Get, "http://example/get", &[])
        .unwrap();
    let _req = conn.take_request().unwrap();
    conn.complete_response(200, Vec::new(), b"ok".to_vec());
    assert!(conn.is_response_initiated());
    assert!(!conn.is_request_initiated());
}

#[test]
fn small_reads_equal_one_large_read() {
    let body: Vec<u8> = (0..=99u8).collect();

    let mut conn = HyperHttpConnection::new();
    conn.complete_response(200, Vec::new(), body.clone());
    let mut collected = Vec::new();
    let mut buf = [0u8; 7];
    loop {
        let n = conn.read(&mut buf).unwrap();
        if n == 0 {
            break;
        }
        collected.extend_from_slice(&buf[..n]);
    }
    assert_eq!(collected, body);

    let mut conn2 = HyperHttpConnection::new();
    conn2.complete_response(200, Vec::new(), body.clone());
    let mut big = [0u8; 200];
    let n = conn2.read(&mut big).unwrap();
    assert_eq!(&big[..n], &body[..]);

    // after the last byte, reads keep returning 0
    for _ in 0..3 {
        assert_eq!(conn.read(&mut buf), Ok(0));
        assert_eq!(conn2.read(&mut big), Ok(0));
    }
}

#[test]
fn sequencing_errors_do_not_panic() {
    let mut conn = HyperHttpConnection::new();
    assert_eq!(conn.flush(), Err(HyperError::NoRequest));
    assert_eq!(conn.write(b"data"), Err(HyperError::NoRequest));
    assert!(matches!(conn.take_request(), Err(HyperError::NoRequest)));
    assert_eq!(conn.status(), 500);
    assert_eq!(conn.status_message(), None);
    assert_eq!(conn.header("Content-Type"), None);
    let mut buf = [0u8; 16];
    assert_eq!(conn.read(&mut buf), Ok(0));
}

#[test]
fn initiating_discards_previous_response() {
    let mut conn = HyperHttpConnection::new();
    conn.initiate_request(Method::Get, "http://example/a", &[])
        .unwrap();
    let _ = conn.take_request().unwrap();
    conn.complete_response(200, headers(&[("X-A", "1")]), b"aaa".to_vec());
    assert!(conn.is_response_initiated());

    conn.initiate_request(Method::Get, "http://example/b", &[])
        .unwrap();
    assert!(conn.is_request_initiated());
    assert!(!conn.is_response_initiated());
    assert_eq!(conn.status(), 500);
    let mut buf = [0u8; 8];
    assert_eq!(conn.read(&mut buf), Ok(0));
}

#[test]
fn failed_initiate_keeps_previous_request() {
    let mut conn = HyperHttpConnection::new();
    conn.initiate_request(Method::Get, "http://example/keep", &[])
        .unwrap();
    let err = conn
        .initiate_request(Method::Get, "http://example/next", &[("bad name", "v")])
        .unwrap_err();
    assert_eq!(err, HyperError::InvalidHeaderName("bad name".to_string()));
    assert!(conn.is_request_initiated());
    let req = conn.take_request().unwrap();
    assert_eq!(req.uri, "http://example/keep");
}

#[test]
fn split_reads_head_and_body_together() {
    let mut conn = HyperHttpConnection::new();
    conn.complete_response(
        200,
        headers(&[("Content-Type", "text/plain")]),
        b"split body".to_vec(),
    );
    let (head, body) = conn.split();
    assert_eq!(head.status(), 200);
    let mut buf = [0u8; 5];
    assert_eq!(body.read(&mut buf), Ok(5));
    assert_eq!(head.header("content-type"), Some("text/plain"));
    assert_eq!(&buf, b"split");
    assert_eq!(body.read(&mut buf), Ok(5));
    assert_eq!(&buf, b" body");
}

#[test]
fn default_connection_is_idle() {
    let conn = HyperHttpConnection::default();
    assert!(!conn.is_request_initiated());
    assert!(!conn.is_response_initiated());
}

#[test]
fn get_flow_end_to_end() {
    // the request side of the cycle, up to the transport's hand-off
    let mut conn = HyperHttpConnection::new();
    conn.initiate_request(Method::Get, "http://example/get", &[])
        .unwrap();
    let req = conn.take_request().unwrap();
    assert_eq!(req.method, Method::Get);
    assert_eq!(req.uri, "http://example/get");
    assert!(req.headers.is_empty());
    assert!(req.body.is_empty());
    conn.complete_response(200, Vec::new(), b"hello from example".to_vec());
    assert_eq!(conn.status(), 200);
    assert_eq!(conn.status_message(), Some("OK"));
    let mut collected = Vec::new();
    let mut buf = [0u8; 4];
    loop {
        let n = conn.read(&mut buf).unwrap();
        if n == 0 {
            break;
        }
        collected.extend_from_slice(&buf[..n]);
    }
    assert_eq!(collected, b"hello from example".to_vec());
}

#[test]
fn post_flow_echoes_body() {
    let mut conn = HyperHttpConnection::new();
    conn.initiate_request(
        Method::Post,
        "http://example/post",
        &[("Content-Type", "application/json")],
    )
    .unwrap();
    assert_eq!(conn.write(b"{\"a\":1}"), Ok(7));
    conn.flush().unwrap();
    // an echoing transport: the response body is the request body
    let req = conn.take_request().unwrap();
    assert_eq!(req.method, Method::Post);
    assert_eq!(
        req.headers,
        vec![("Content-Type".to_string(), "application/json".to_string())]
    );
    conn.complete_response(200, Vec::new(), req.body.clone());
    assert_eq!(conn.status(), 200);
    let mut buf = [0u8; 64];
    let n = conn.read(&mut buf).unwrap();
    let echoed = String::from_utf8(buf[..n].to_vec()).unwrap();
    assert!(echoed.contains("\"a\":1"));
    assert_eq!(echoed, "{\"a\":1}");
}
