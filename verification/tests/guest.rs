use edgedb_wasm::macros::{init_hook, web_handler, HookError};
use edgedb_wasm::sdk::bindgen::{as_i32, as_i64, AsI32, AsI64};
use edgedb_wasm::sdk::bug::BugContext;
use edgedb_wasm::sdk::client::transaction::{is_retryable, retry, transaction, Transaction, MAX_ITERATIONS};
use edgedb_wasm::sdk::client::{
    execute_query, execute_query_json, execute_query_single, execute_query_single_json, query_flags,
    query_required_single, single, NO_DATA, NO_RESULT_EXPECTED,
};
use edgedb_wasm::sdk::http_server::handle_request;
use edgedb_wasm::sdk::log::{convert_filter, HostLogger};
use edgedb_wasm::sdk::web::{response, Registration};
use edgedb_wasm::server::abi::client_v1::{Capabilities, Cardinality, Data, IoFormat, MODIFICATIONS};
use edgedb_wasm::server::abi::http_server_v1::{Request, Response};
use edgedb_wasm::server::abi::log_v1::{convert_level, HostLevel, Level, LevelFilter};
use edgedb_wasm::server::options::{Conflict, Listen, Options};
use edgedb_wasm::server::worker::{classify, Role};
use std::cell::{Cell, RefCell};

const CONFLICT: u32 = 0x0503_0100;
const SYNTAX: u32 = 0x0401_0100;

#[test]
fn integers_keep_their_bits() {
    assert_eq!(as_i32(7i32), 7);
    assert_eq!(as_i32(-7i32), -7);
    assert_eq!(as_i32(7u32), 7);
    assert_eq!(as_i32(0x7fff_ffffu32), i32::MAX);
    assert_eq!(as_i32(0x8000_0000u32), i32::MIN);
    assert_eq!(as_i32(u32::MAX), -1);
    assert_eq!(as_i32(65535u16), 65535);
    assert_eq!(as_i32(0u16), 0);
    assert_eq!(as_i64(-1i64), -1);
    assert_eq!(as_i64(1u64), 1);
    assert_eq!(as_i64(0x7fff_ffff_ffff_ffffu64), i64::MAX);
    assert_eq!(as_i64(0x8000_0000_0000_0000u64), i64::MIN);
    assert_eq!(as_i64(u64::MAX), -1);
    assert_eq!(3u32.as_i32(), 3);
    assert_eq!(3u64.as_i64(), 3);
    for x in [0u32, 1, 0x7fff_ffff, 0x8000_0000, 0x8000_0001, 0xdead_beef, u32::MAX] {
        assert_eq!(as_i32(x) as u32, x);
    }
}

#[test]
fn sdk_bugs() {
    assert_eq!(Ok::<u8, String>(1).wrap_bug().ok(), Some(1));
    let bug = Err::<u8, String>("invalid body".to_string()).wrap_bug().expect_err("err");
    assert_eq!(bug.source, Some("invalid body".to_string()));
    assert_eq!(bug.to_string(), "bug detected");
}

#[test]
fn handler_is_registered_once() {
    let mut registration: Registration<fn(u8) -> u8> = Registration::new();
    assert!(!registration.is_registered());
    assert!(registration.get().is_none());
    fn double(x: u8) -> u8 {
        x * 2
    }
    registration.register_handler(double);
    assert!(registration.is_registered());
    assert_eq!(registration.get().expect("registered")(4), 8);
}

#[test]
fn response_builder() {
    let built = response()
        .status(200)
        .header("Content-Type", "text/html")
        .body(b"Hello <b>World</b>".to_vec())
        .expect("response is built");
    assert_eq!(built.status().as_u16(), 200);
    assert_eq!(built.headers().len(), 1);
    assert_eq!(built.body(), &b"Hello <b>World</b>".to_vec());
}

#[test]
fn guest_without_handler() {
    let request = Request { method: "GET".to_string(), uri: "/".to_string(), headers: vec![], body: vec![] };
    let response = handle_request(None::<&fn(Request) -> Response>, request);
    assert_eq!(response.status_code, 404);
    assert!(response.headers.is_empty());
    assert_eq!(response.body, b"Page Not Found (Web handler is not set)".to_vec());
}

#[test]
fn guest_with_handler() {
    let echo = |req: Request| Response {
        status_code: 200,
        headers: req.headers,
        body: format!("{} {}", req.method, req.uri).into_bytes(),
    };
    let request = Request {
        method: "PUT".to_string(),
        uri: "/a?b".to_string(),
        headers: vec![(b"k".to_vec(), b"v".to_vec())],
        body: vec![],
    };
    let response = handle_request(Some(&echo), request);
    assert_eq!(response.status_code, 200);
    assert_eq!(response.headers, vec![(b"k".to_vec(), b"v".to_vec())]);
    assert_eq!(response.body, b"PUT /a?b".to_vec());
}

#[test]
fn filters_cross_unchanged() {
    for filter in [
        LevelFilter::Off,
        LevelFilter::Error,
        LevelFilter::Warn,
        LevelFilter::Info,
        LevelFilter::Debug,
        LevelFilter::Trace,
    ] {
        assert_eq!(convert_filter(convert_level(filter)), filter);
        assert_eq!(HostLogger::init(convert_level(filter)).max_level, filter);
    }
    assert_eq!(convert_filter(None), LevelFilter::Off);
    assert_eq!(convert_filter(Some(Level::Debug)), LevelFilter::Debug);
}

#[test]
fn guest_logger_passes_on_what_the_host_wants() {
    let levels = [HostLevel::Error, HostLevel::Warn, HostLevel::Info, HostLevel::Debug, HostLevel::Trace];
    let filters = [
        LevelFilter::Off,
        LevelFilter::Error,
        LevelFilter::Warn,
        LevelFilter::Info,
        LevelFilter::Debug,
        LevelFilter::Trace,
    ];
    for (f, filter) in filters.iter().enumerate() {
        let logger = HostLogger { max_level: *filter };
        for (l, level) in levels.iter().enumerate() {
            assert_eq!(logger.enabled(*level), l + 1 <= f, "{level:?} under {filter:?}");
        }
    }
    let logger = HostLogger { max_level: LevelFilter::Info };
    let record = logger
        .log("app", HostLevel::Warn, "careful", Some(3), Some("main.rs".to_string()), None)
        .expect("passed on");
    assert_eq!(record.target, "app");
    assert_eq!(record.level, Level::Warn);
    assert_eq!(record.message, "careful");
    assert_eq!(record.line, Some(3));
    assert_eq!(record.file, Some("main.rs".to_string()));
    assert_eq!(record.source_module, None);
    assert!(logger.log("app", HostLevel::Debug, "noise", None, None, None).is_none());
    assert!(logger.log("app", HostLevel::Info, "news", None, None, None).is_some());
}

#[test]
fn flags_of_a_guests_queries() {
    let flags = query_flags(IoFormat::Binary, Cardinality::Many);
    assert_eq!(flags.implicit_limit, None);
    assert!(!flags.implicit_typenames);
    assert!(!flags.implicit_typeids);
    assert!(flags.explicit_objectids);
    assert_eq!(flags.allow_capabilities, Capabilities { bits: MODIFICATIONS });
    assert_eq!(flags.io_format, IoFormat::Binary);
    assert_eq!(flags.expected_cardinality, Cardinality::Many);
    let flags = query_flags(IoFormat::Json, Cardinality::AtMostOne);
    assert_eq!(flags.io_format, IoFormat::Json);
    assert_eq!(flags.expected_cardinality, Cardinality::AtMostOne);
    assert_eq!(flags.try_into_protocol().expect("known bits").allow_capabilities, 1);
}

#[test]
fn rows_to_decode() {
    let data = || Data { chunks: vec![vec![1], vec![2], vec![3]] };
    let none = || Data { chunks: vec![] };
    assert_eq!(execute_query(true, data()).ok(), Some(vec![vec![1], vec![2], vec![3]]));
    assert_eq!(execute_query(true, none()).ok(), Some(vec![]));
    assert_eq!(execute_query_single(true, data()).ok(), Some(Some(vec![1])));
    assert_eq!(execute_query_single(true, none()).ok(), Some(None));
    assert_eq!(execute_query_json(true, data()).ok(), Some(vec![1]));
    assert_eq!(execute_query_single_json(true, data()).ok(), Some(Some(vec![1])));
    assert_eq!(execute_query_single_json(true, none()).ok(), Some(None));
    assert_eq!(single(vec![vec![9], vec![8]]), Some(vec![9]));
    assert_eq!(single(vec![]), None);
}

#[test]
fn query_without_result() {
    let data = || Data { chunks: vec![vec![1]] };
    for error in [
        execute_query(false, data()).expect_err("no result"),
        execute_query_single(false, data()).expect_err("no result"),
        execute_query_json(false, data()).expect_err("no result"),
        execute_query_single_json(false, data()).expect_err("no result"),
    ] {
        assert_eq!(error.code, NO_RESULT_EXPECTED);
        assert_eq!(error.code, 0xFF02_FF00);
        assert!(error.messages.is_empty());
        assert_eq!(error.source, None);
        assert!(error.headers.is_empty());
    }
}

#[test]
fn query_that_gave_no_row() {
    let error = execute_query_json(true, Data { chunks: vec![] }).expect_err("no data");
    assert_eq!(error.code, NO_DATA);
    assert_eq!(error.code, 0xFF03_0000);
    assert_eq!(error.messages, vec!["query row returned zero results".to_string()]);
    assert_eq!(error.source, None);
    assert!(error.headers.is_empty());
    assert_eq!(query_required_single(Some(5)).ok(), Some(5));
    let error = query_required_single(None::<u8>).expect_err("no data");
    assert_eq!(error.code, NO_DATA);
    assert_eq!(error.messages, vec!["query row returned zero results".to_string()]);
}

#[test]
fn errors_that_ask_for_another_attempt() {
    assert!(is_retryable(&vec![CONFLICT]));
    assert!(is_retryable(&vec![0x0503_0101]));
    assert!(is_retryable(&vec![0x0503_0102]));
    assert!(is_retryable(&vec![0xFF01_0200]));
    assert!(!is_retryable(&vec![SYNTAX]));
    assert!(!is_retryable(&vec![0x0503_0000]));
    assert!(!is_retryable(&vec![0]));
    assert!(!is_retryable(&vec![1]));
    assert!(!is_retryable(&vec![]));
    // One error with the tag anywhere in the chain is enough.
    assert!(is_retryable(&vec![0xFE00_0000, SYNTAX, CONFLICT]));
    assert!(is_retryable(&vec![CONFLICT, SYNTAX]));
    assert!(!is_retryable(&vec![0xFE00_0000, SYNTAX]));
}

#[test]
fn attempts_are_bounded() {
    assert_eq!(MAX_ITERATIONS, 3);
    assert!(retry(0, true));
    assert!(retry(1, true));
    assert!(retry(2, true));
    assert!(!retry(3, true));
    assert!(!retry(4, true));
    assert!(!retry(u32::MAX, true));
    assert!(!retry(0, false));
    assert!(!retry(2, false));
}

#[test]
fn retry_scenario() {
    // Two failures that ask for another attempt, then success.
    let runs = Cell::new(0u32);
    let settled = RefCell::new(vec![]);
    let result = transaction(
        |attempt| {
            runs.set(runs.get() + 1);
            if attempt < 2 {
                Err(vec![CONFLICT])
            } else {
                Ok("done")
            }
        },
        |commit| {
            settled.borrow_mut().push(commit);
            Ok(())
        },
        |codes: &Vec<u32>| is_retryable(codes),
    );
    assert_eq!(result, (Ok("done"), 3));
    assert_eq!(runs.get(), 3);
    assert_eq!(*settled.borrow(), vec![false, false, true]);

    // A body that never stops failing is run MAX_ITERATIONS times, and the
    // last error is what comes back.
    let runs = Cell::new(0u32);
    let result = transaction(
        |attempt| {
            runs.set(runs.get() + 1);
            Err::<(), _>(vec![CONFLICT, attempt])
        },
        |_commit| Ok(()),
        |codes: &Vec<u32>| is_retryable(codes),
    );
    assert_eq!(result, (Err(vec![CONFLICT, 2]), MAX_ITERATIONS));
    assert_eq!(runs.get(), MAX_ITERATIONS);
}

#[test]
fn error_without_the_tag_ends_the_transaction() {
    let runs = Cell::new(0u32);
    let settled = RefCell::new(vec![]);
    let result = transaction(
        |_attempt| {
            runs.set(runs.get() + 1);
            Err::<(), _>(vec![SYNTAX])
        },
        |commit| {
            settled.borrow_mut().push(commit);
            Ok(())
        },
        |codes: &Vec<u32>| is_retryable(codes),
    );
    assert_eq!(result, (Err(vec![SYNTAX]), 1));
    assert_eq!(runs.get(), 1);
    assert_eq!(*settled.borrow(), vec![false]);
}

#[test]
fn first_attempt_succeeds() {
    let result = transaction(|attempt| Ok::<u32, Vec<u32>>(attempt + 40), |_commit| Ok(()), |_: &Vec<u32>| true);
    assert_eq!(result, (Ok(40), 1));
}

#[test]
fn failure_to_settle_ends_the_transaction() {
    // A commit that fails is not tried again, whatever its error says.
    let runs = Cell::new(0u32);
    let result = transaction(
        |_attempt| {
            runs.set(runs.get() + 1);
            Ok::<u8, Vec<u32>>(1)
        },
        |_commit| Err(vec![CONFLICT]),
        |codes: &Vec<u32>| is_retryable(codes),
    );
    assert_eq!(result, (Err(vec![CONFLICT]), 1));
    assert_eq!(runs.get(), 1);
    // Neither is a rollback that fails; its error takes the place of the body's.
    let result = transaction(
        |_attempt| Err::<u8, Vec<u32>>(vec![CONFLICT]),
        |commit| if commit { Ok(()) } else { Err(vec![SYNTAX]) },
        |codes: &Vec<u32>| is_retryable(codes),
    );
    assert_eq!(result, (Err(vec![SYNTAX]), 1));
}

#[test]
fn transaction_is_opened_lazily() {
    let mut tx: Transaction<u32> = Transaction::new(0);
    assert_eq!(tx.iteration, 0);
    assert!(!tx.is_open());
    assert_eq!(tx.take(), None);
    tx.opened(4);
    assert!(tx.is_open());
    assert_eq!(tx.transaction, Some(4));
    assert_eq!(tx.take(), Some(4));
    assert!(!tx.is_open());
    assert_eq!(Transaction::<u32>::new(2).iteration, 2);
}

#[test]
fn hook_names() {
    assert_eq!(web_handler("handler"), "_edgedb_sdk_init_web_handler_handler");
    assert_eq!(web_handler(""), "_edgedb_sdk_init_web_handler_");
    assert_eq!(init_hook("init", 0, 0, false), Ok("_edgedb_sdk_init_init".to_string()));
    // The host finds both among the init hooks.
    assert_eq!(classify(&web_handler("handler")), Role::Init);
    assert_eq!(classify(&init_hook("warm_up", 0, 0, false).expect("a hook")), Role::Init);
}

#[test]
fn functions_that_are_no_hooks() {
    assert_eq!(init_hook("f", 1, 0, false), Err(vec![HookError::Generics]));
    assert_eq!(init_hook("f", 0, 2, false), Err(vec![HookError::Params]));
    assert_eq!(init_hook("f", 0, 0, true), Err(vec![HookError::ReturnValue]));
    assert_eq!(
        init_hook("f", 3, 1, true),
        Err(vec![HookError::Generics, HookError::Params, HookError::ReturnValue])
    );
    assert_eq!(init_hook("f", 0, 1, true), Err(vec![HookError::Params, HookError::ReturnValue]));
    assert_eq!(HookError::Generics.message(), "no generics allowed on init hook");
    assert_eq!(HookError::Params.message(), "no params allowed on init hook");
    assert_eq!(HookError::ReturnValue.message(), "no return value allowed on init hook");
}

fn options(fd: Option<i32>, unix_socket: Option<&str>, wasm_dir: Option<&str>) -> Options {
    Options {
        port: 5657,
        unix_socket: unix_socket.map(str::to_string),
        fd,
        wasm_dir: wasm_dir.map(str::to_string),
    }
}

#[test]
fn ways_to_listen() {
    match options(Some(3), None, None).listen() {
        Ok(Listen::Fd(3)) => {}
        other => panic!("{other:?}"),
    }
    match options(None, Some("/run/wasm.sock"), None).listen() {
        Ok(Listen::UnixSocket(path)) => assert_eq!(path, "/run/wasm.sock"),
        other => panic!("{other:?}"),
    }
    match options(None, None, Some("/srv/wasm")).listen() {
        Ok(Listen::Http { port, wasm_dir }) => assert_eq!((port, wasm_dir.as_str()), (5657, "/srv/wasm")),
        other => panic!("{other:?}"),
    }
    let missing = options(None, None, None).listen().expect_err("no directory");
    assert_eq!(missing.to_string(), "--wasm-dir is required in HTTP (test) mode");
    // The file descriptor goes before the socket, the socket before the port.
    match options(Some(4), Some("/run/wasm.sock"), Some("/srv")).listen() {
        Ok(Listen::Fd(4)) => {}
        other => panic!("{other:?}"),
    }
}

#[test]
fn options_that_do_not_go_together() {
    assert_eq!(options(None, None, None).check(), Ok(()));
    assert_eq!(options(Some(3), None, None).check(), Ok(()));
    assert_eq!(options(None, Some("s"), None).check(), Ok(()));
    assert_eq!(options(None, None, Some("d")).check(), Ok(()));
    assert_eq!(options(Some(3), Some("s"), None).check(), Err(Conflict::FdAndUnixSocket));
    assert_eq!(options(Some(3), None, Some("d")).check(), Err(Conflict::FdAndWasmDir));
    assert_eq!(options(None, Some("s"), Some("d")).check(), Err(Conflict::UnixSocketAndWasmDir));
    assert_eq!(options(Some(3), Some("s"), Some("d")).check(), Err(Conflict::FdAndUnixSocket));
}
