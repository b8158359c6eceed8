use edgedb_wasm::dict::Dict;
use edgedb_wasm::server::abi::http_server_v1::Response;
use edgedb_wasm::server::hyper;
use edgedb_wasm::server::tenant::http::{ConvertInput, FromWasm, InvalidResponse, Process};
use edgedb_wasm::server::unix_sock::{self, collect_headers, HttpRequest, SetDirectory, Signal};

fn headers(pairs: &[(&str, &str)]) -> Vec<(Vec<u8>, Vec<u8>)> {
    pairs.iter().map(|(n, v)| (n.as_bytes().to_vec(), v.as_bytes().to_vec())).collect()
}

#[test]
fn header_round_trip() {
    let list = vec![
        (b"Accept".to_vec(), b"text/html".to_vec()),
        (b"accept".to_vec(), b"*/*".to_vec()),
        (b"X-Bytes".to_vec(), vec![0, 255, 128, 10]),
        (b"Accept".to_vec(), b"text/html".to_vec()),
        (vec![], vec![]),
        (b"Cookie".to_vec(), b"a=1".to_vec()),
        (b"Cookie".to_vec(), b"b=2".to_vec()),
    ];
    let input = hyper::ConvertRequest {
        method: "GET".to_string(),
        path: "/".to_string(),
        path_and_query: None,
        headers: list.clone(),
        body: vec![],
    };
    assert_eq!(input.as_v1().headers, list);

    let request = HttpRequest {
        method: "GET".to_string(),
        url: "/x".to_string(),
        headers: list.clone(),
        body: None,
    };
    let input = request.read_full().expect("a URI");
    assert_eq!(input.as_v1().headers, list);
}

#[test]
fn http_request_as_the_guest_sees_it() {
    let input = hyper::ConvertRequest {
        method: "POST".to_string(),
        path: "/db/main/wasm/echo/x".to_string(),
        path_and_query: Some("/db/main/wasm/echo/x?y=1&z".to_string()),
        headers: headers(&[("content-type", "text/plain")]),
        body: b"payload".to_vec(),
    };
    assert_eq!(input.path(), "/db/main/wasm/echo/x");
    let request = input.as_v1();
    assert_eq!(request.method, "POST");
    assert_eq!(request.uri, "/db/main/wasm/echo/x?y=1&z");
    assert_eq!(request.headers, headers(&[("content-type", "text/plain")]));
    assert_eq!(request.body, b"payload".to_vec());
}

#[test]
fn uri_without_path_and_query_is_the_root() {
    let input = hyper::ConvertRequest {
        method: "OPTIONS".to_string(),
        path: "".to_string(),
        path_and_query: None,
        headers: vec![],
        body: vec![],
    };
    assert_eq!(input.as_v1().uri, "/");
}

#[test]
fn authority_is_dropped() {
    let request = HttpRequest {
        method: "GET".to_string(),
        url: "http://user@example.com:8080/db/main/wasm/greeting/x?y=1".to_string(),
        headers: vec![],
        body: Some(b"body".to_vec()),
    };
    let input = request.read_full().expect("a URI");
    assert_eq!(input.path(), "/db/main/wasm/greeting/x");
    let seen = input.as_v1();
    assert_eq!(seen.uri, "/db/main/wasm/greeting/x?y=1");
    assert_eq!(seen.method, "GET");
    assert_eq!(seen.body, b"body".to_vec());

    let request = HttpRequest {
        method: "GET".to_string(),
        url: "https://example.com".to_string(),
        headers: vec![],
        body: None,
    };
    let input = request.read_full().expect("a URI");
    assert_eq!(input.as_v1().uri, "/");
    assert_eq!(input.as_v1().body, Vec::<u8>::new());

    // An authority alone has neither path nor query.
    let request = HttpRequest {
        method: "CONNECT".to_string(),
        url: "example.com:443".to_string(),
        headers: vec![],
        body: None,
    };
    let input = request.read_full().expect("a URI");
    assert_eq!(input.path(), "");
    assert_eq!(input.as_v1().uri, "/");
}

#[test]
fn url_that_is_no_uri() {
    for url in ["", "with space", "/a b", "http://", "\u{7f}"] {
        let request = HttpRequest {
            method: "GET".to_string(),
            url: url.to_string(),
            headers: vec![],
            body: None,
        };
        assert!(request.read_full().is_err(), "{url:?}");
    }
}

#[test]
fn response_on_the_http_front_end() {
    let wasm = Response {
        status_code: 201,
        headers: headers(&[("Set-Cookie", "a=1"), ("Set-Cookie", "b=2"), ("x-empty", "")]),
        body: b"made".to_vec(),
    };
    let reply = hyper::Response::from_wasm(wasm).expect("valid");
    assert_eq!(reply.status, 201);
    assert_eq!(reply.headers, headers(&[("Set-Cookie", "a=1"), ("Set-Cookie", "b=2"), ("x-empty", "")]));
    assert_eq!(reply.body, b"made".to_vec());
}

#[test]
fn status_that_cannot_be_sent() {
    for code in [0u16, 1, 99, 1000, 1001, 65535] {
        let wasm = Response { status_code: code, headers: vec![], body: vec![] };
        assert_eq!(hyper::Response::from_wasm(wasm).err(), Some(InvalidResponse::Status), "{code}");
    }
    for code in [100u16, 200, 404, 599, 999] {
        let wasm = Response { status_code: code, headers: vec![], body: vec![] };
        assert_eq!(hyper::Response::from_wasm(wasm).expect("valid").status, code);
    }
}

#[test]
fn header_that_cannot_be_sent() {
    let bad_name = Response {
        status_code: 200,
        headers: vec![(b"ok".to_vec(), b"1".to_vec()), (b"bad name".to_vec(), b"1".to_vec())],
        body: vec![],
    };
    assert_eq!(hyper::Response::from_wasm(bad_name).err(), Some(InvalidResponse::Header(1)));
    let empty_name = Response { status_code: 200, headers: vec![(vec![], b"1".to_vec())], body: vec![] };
    assert_eq!(hyper::Response::from_wasm(empty_name).err(), Some(InvalidResponse::Header(0)));
    for byte in [0u8, 10, 13, 31, 127] {
        let bad_value = Response {
            status_code: 200,
            headers: vec![(b"a".to_vec(), b"1".to_vec()), (b"b".to_vec(), b"2".to_vec()), (b"c".to_vec(), vec![b'x', byte])],
            body: vec![],
        };
        assert_eq!(hyper::Response::from_wasm(bad_value).err(), Some(InvalidResponse::Header(2)), "{byte}");
    }
    for byte in [9u8, 32, 126, 128, 255] {
        let value = Response { status_code: 200, headers: vec![(b"a".to_vec(), vec![byte])], body: vec![] };
        assert!(hyper::Response::from_wasm(value).is_ok(), "{byte}");
    }
    // The status is looked at first.
    let both = Response { status_code: 1, headers: vec![(b"bad name".to_vec(), vec![])], body: vec![] };
    assert_eq!(hyper::Response::from_wasm(both).err(), Some(InvalidResponse::Status));
}

#[test]
fn checked_response() {
    let wasm = || Response { status_code: 200, headers: headers(&[("a", "b")]), body: b"c".to_vec() };
    assert_eq!(hyper::Response::checked(wasm(), false, None).err(), Some(InvalidResponse::Status));
    assert_eq!(hyper::Response::checked(wasm(), false, Some(0)).err(), Some(InvalidResponse::Status));
    assert_eq!(hyper::Response::checked(wasm(), true, Some(0)).err(), Some(InvalidResponse::Header(0)));
    let reply = hyper::Response::checked(wasm(), true, None).expect("valid");
    assert_eq!((reply.status, reply.headers, reply.body), (200, headers(&[("a", "b")]), b"c".to_vec()));
}

#[test]
fn response_on_the_local_front_end() {
    let wasm = Response {
        status_code: 200,
        headers: headers(&[("a", "1"), ("b", "2"), ("a", "3"), ("A", "4")]),
        body: b"text".to_vec(),
    };
    let reply = unix_sock::Response::from_wasm(wasm).expect("always");
    assert_eq!(reply.status, 200);
    assert_eq!(reply.body, Some(b"text".to_vec()));
    assert_eq!(reply.headers.len(), 3);
    assert_eq!(reply.headers.get(&b"a".to_vec()), Some(&b"3".to_vec()));
    assert_eq!(reply.headers.get(&b"b".to_vec()), Some(&b"2".to_vec()));
    assert_eq!(reply.headers.get(&b"A".to_vec()), Some(&b"4".to_vec()));
    assert_eq!(reply.headers.get(&b"c".to_vec()), None);
}

#[test]
fn header_table() {
    let table = collect_headers(vec![]);
    assert_eq!(table.len(), 0);
    let table = collect_headers(headers(&[("k", "1"), ("k", "2"), ("k", "3")]));
    assert_eq!(table.len(), 1);
    assert_eq!(table.get(&b"k".to_vec()), Some(&b"3".to_vec()));
}

#[test]
fn replies_of_the_front_ends() {
    let reply = <hyper::Process as Process>::err_not_found();
    assert_eq!((reply.status, reply.headers.len()), (404, 0));
    assert_eq!(reply.body, b"Try /db/default/<wasm-file-name>/".to_vec());
    let reply = <hyper::Process as Process>::err_internal_server_error();
    assert_eq!((reply.status, reply.headers.len()), (500, 0));
    assert_eq!(reply.body, b"Wasm failed to handle request".to_vec());
    let reply = <unix_sock::Process as Process>::err_not_found();
    assert_eq!((reply.status, reply.headers.len()), (404, 0));
    assert_eq!(reply.body, Some(b"Try /db/<database>/<wasm-file-name>/".to_vec()));
    let reply = <unix_sock::Process as Process>::err_internal_server_error();
    assert_eq!((reply.status, reply.headers.len()), (500, 0));
    assert_eq!(reply.body, Some(b"Wasm failed to handle request".to_vec()));
}

#[test]
fn signals() {
    match Signal::from_result(Ok::<u8, String>(7)) {
        Signal::Success(value) => assert_eq!(value, 7),
        Signal::Failure { .. } => panic!("a success"),
    }
    match Signal::<u8>::from_result(Err("no wasm directory".to_string())) {
        Signal::Failure { error } => assert_eq!(error, "no wasm directory"),
        Signal::Success(_) => panic!("a failure"),
    }
}

#[test]
fn envelopes() {
    let request = unix_sock::Request::SetDirectory(SetDirectory {
        database: "main".to_string(),
        directory: "/srv/main".to_string(),
    });
    match request {
        unix_sock::Request::SetDirectory(SetDirectory { database, directory }) => {
            assert_eq!((database.as_str(), directory.as_str()), ("main", "/srv/main"));
        }
        unix_sock::Request::Http(_) => panic!("a directory"),
    }
}

#[test]
fn dictionary() {
    let mut d: Dict<String, u32> = Dict::new();
    assert_eq!(d.len(), 0);
    assert_eq!(d.pop(), None);
    d.insert("a".to_string(), 1);
    d.insert("b".to_string(), 2);
    d.insert("a".to_string(), 3);
    assert_eq!(d.len(), 2);
    assert_eq!(d.get(&"a".to_string()), Some(&3));
    assert!(d.contains_key(&"b".to_string()));
    assert!(!d.contains_key(&"c".to_string()));
    assert!(!d.insert_if_absent("a".to_string(), 9));
    assert!(d.insert_if_absent("c".to_string(), 9));
    assert_eq!(d.get(&"a".to_string()), Some(&3));
    assert_eq!(d.get(&"c".to_string()), Some(&9));
    assert_eq!(d.remove(&"a".to_string()), Some(3));
    assert_eq!(d.remove(&"a".to_string()), None);
    assert_eq!(d.len(), 2);
    let mut rest = vec![];
    while let Some(entry) = d.pop() {
        rest.push(entry);
    }
    rest.sort();
    assert_eq!(rest, vec![("b".to_string(), 2), ("c".to_string(), 9)]);
}
