//! A host in miniature: files, modules, workers and guests are plain
//! values, and every decision is the library's.

use edgedb_wasm::sdk::http_server::handle_request;
use edgedb_wasm::server::abi::http_server_v1::{Request, Response};
use edgedb_wasm::server::hyper;
use edgedb_wasm::server::module::{FileState, Lookup, ModuleCache, Refresh};
use edgedb_wasm::server::tenant::http::{ConvertInput, Process};
use edgedb_wasm::server::tenant::{build_failed, handle, BuildError, Directories, Workers};
use edgedb_wasm::server::unix_sock;
use edgedb_wasm::server::worker::{call_init, Export, Name, Turnstile, Worker};
use std::collections::HashMap;

/// A module file: when it was last modified, and what the guest in it
/// answers, if it answers at all.
#[derive(Clone)]
struct File {
    mtime: u128,
    greeting: Option<&'static str>,
    exports: Vec<&'static str>,
}

struct Instance {
    greeting: Option<&'static str>,
    initialized: Vec<String>,
    requests: u32,
    turnstile: Turnstile,
}

struct Host {
    files: HashMap<String, File>,
    directories: Directories,
    cache: ModuleCache,
    modules: HashMap<u64, File>,
    workers: Workers,
    instances: HashMap<u64, Instance>,
    next_id: u64,
    compiles: u32,
}

impl Host {
    fn new() -> Host {
        Host {
            files: HashMap::new(),
            directories: Directories::new(),
            cache: ModuleCache::new(),
            modules: HashMap::new(),
            workers: Workers::new(),
            instances: HashMap::new(),
            next_id: 0,
            compiles: 0,
        }
    }

    fn write(&mut self, path: &str, mtime: u128, greeting: Option<&'static str>) {
        let exports = vec!["memory", "_edgedb_sdk_init_web_handler_handler", "_start", "_edgedb_sdk_pre_init"];
        self.files.insert(path.to_string(), File { mtime, greeting, exports });
    }

    fn set_directory(&mut self, database: &str, directory: &str) {
        self.directories.set_directory(database, directory);
        self.workers.set_directory(database, directory);
    }

    fn get_module(&mut self, name: &Name) -> Result<(u64, String), BuildError> {
        let (directory, file) = self
            .directories
            .get_module(&name.database, &name.wasm_name)
            .ok_or(BuildError::UnknownDatabase)?;
        let path = format!("{directory}/{file}");
        loop {
            match self.cache.lookup(&path) {
                Lookup::Compile { cell } => match self.files.get(&path).cloned() {
                    Some(file) => {
                        self.compiles += 1;
                        self.next_id += 1;
                        assert!(self.cache.compiled(&path, cell, self.next_id, file.mtime));
                        self.modules.insert(self.next_id, file);
                        return Ok((self.next_id, directory));
                    }
                    None => {
                        assert!(self.cache.failed(&path, cell));
                        return Err(BuildError::UnknownModule);
                    }
                },
                Lookup::Cached { cell, module, modification_time } => {
                    let state = match self.files.get(&path) {
                        Some(file) => FileState::Modified(file.mtime),
                        None => FileState::Missing,
                    };
                    match self.cache.refresh(&path, cell, modification_time, state) {
                        Refresh::Use => return Ok((module, directory)),
                        Refresh::Reload => continue,
                        Refresh::NotFound => return Err(BuildError::UnknownModule),
                    }
                }
                Lookup::Wait { .. } => panic!("one request at a time"),
                Lookup::Exhausted => panic!("cells left"),
            }
        }
    }

    fn get_worker(&mut self, name: &Name) -> Result<u64, BuildError> {
        let (module, directory) = self.get_module(name)?;
        if let Some(id) = self.workers.get_worker(name, module) {
            return Ok(id);
        }
        let file = self.modules[&module].clone();
        let exports: Vec<Export> = file
            .exports
            .iter()
            .map(|name| Export { name: name.to_string(), is_func: *name != "memory" })
            .collect();
        let initialized = call_init(&exports).into_iter().map(|i| exports[i].name.clone()).collect();
        self.next_id += 1;
        let id = self.next_id;
        let own = Name { database: name.database.clone(), wasm_name: name.wasm_name.clone() };
        self.workers.replace(Worker::new(id, own, module, directory, file.greeting.is_some()));
        self.instances.insert(
            id,
            Instance { greeting: file.greeting, initialized, requests: 0, turnstile: Turnstile::new() },
        );
        Ok(id)
    }

    fn serve<P: Process>(&mut self, input: &P::ConvertInput) -> P::Output {
        let name = match handle::<P>(input) {
            Ok(name) => name,
            Err(not_found) => return not_found,
        };
        let id = match self.get_worker(&name) {
            Ok(id) => id,
            Err(e) => return build_failed::<P>(&e),
        };
        let instance = self.instances.get_mut(&id).expect("registered");
        let record = Worker::new(id, name, 0, String::new(), instance.greeting.is_some());
        if let Some(not_found) = record.handle_http::<P>() {
            return not_found;
        }
        let ticket = instance.turnstile.arrive().expect("tickets left");
        assert!(instance.turnstile.start(ticket));
        instance.requests += 1;
        let greeting = instance.greeting.expect("has a handler");
        let handler = |req: Request| {
            if req.uri.ends_with("/trap") {
                return Response { status_code: 0, headers: vec![], body: vec![] };
            }
            Response {
                status_code: 200,
                headers: vec![(b"Content-Type".to_vec(), b"text/html".to_vec())],
                body: greeting.as_bytes().to_vec(),
            }
        };
        let response = handle_request(Some(&handler), input.as_v1());
        assert!(instance.turnstile.finish(ticket));
        let outcome = if response.status_code == 0 { Err("wasm trap".to_string()) } else { Ok(response) };
        let (reply, sound) = record.reply::<P>(outcome);
        if !sound {
            self.workers.poison(record.full_name(), id);
        }
        reply
    }

    fn get(&mut self, path: &str) -> (u16, Vec<u8>) {
        let input = hyper::ConvertRequest {
            method: "GET".to_string(),
            path: path.split('?').next().unwrap_or("").to_string(),
            path_and_query: Some(path.to_string()),
            headers: vec![],
            body: vec![],
        };
        let reply = self.serve::<hyper::Process>(&input);
        (reply.status, reply.body)
    }
}

#[test]
fn requests_are_served_by_one_worker() {
    let mut host = Host::new();
    host.set_directory("main", "/srv/main");
    host.write("/srv/main/greeting.wasm", 10, Some("Hello from <b>wasm</b>!"));
    for _ in 0..4 {
        assert_eq!(host.get("/db/main/wasm/greeting/"), (200, b"Hello from <b>wasm</b>!".to_vec()));
    }
    assert_eq!(host.compiles, 1);
    assert_eq!(host.instances.len(), 1);
    let instance = host.instances.values().next().expect("one");
    assert_eq!(instance.requests, 4);
    assert_eq!(instance.initialized, vec!["_edgedb_sdk_pre_init", "_edgedb_sdk_init_web_handler_handler"]);
}

#[test]
fn reload_scenario() {
    let mut host = Host::new();
    host.set_directory("main", "/srv/main");
    host.write("/srv/main/greeting.wasm", 10, Some("one"));
    assert_eq!(host.get("/db/main/wasm/greeting/"), (200, b"one".to_vec()));
    let name = Name { database: "main".to_string(), wasm_name: "greeting".to_string() };
    let first = host.get_worker(&name).expect("served");
    // The file changes between two requests.
    host.write("/srv/main/greeting.wasm", 11, Some("two"));
    assert_eq!(host.get("/db/main/wasm/greeting/"), (200, b"two".to_vec()));
    let second = host.get_worker(&name).expect("served");
    assert_ne!(first, second);
    assert_eq!(host.compiles, 2);
    // The worker of the old module is no longer to be had.
    assert_eq!(host.workers.get_worker(&name, 1), None);
    assert_eq!(host.get("/db/main/wasm/greeting/more?x=1"), (200, b"two".to_vec()));
    assert_eq!(host.compiles, 2);
}

#[test]
fn unknown_database_and_module() {
    let mut host = Host::new();
    assert_eq!(host.get("/db/main/wasm/greeting/").0, 404);
    host.set_directory("main", "/srv/main");
    assert_eq!(host.get("/db/main/wasm/greeting/").0, 404);
    assert_eq!(host.get("/db/main/wasm/Name_with_leading_underscore/").0, 404);
    assert_eq!(host.get("/elsewhere").0, 404);
    host.write("/srv/main/greeting.wasm", 1, Some("hi"));
    // A failure is not cached: the next request finds the file.
    assert_eq!(host.get("/db/main/wasm/greeting/"), (200, b"hi".to_vec()));
    assert_eq!(host.get("/db/other/wasm/greeting/").0, 404);
}

#[test]
fn file_that_goes_away() {
    let mut host = Host::new();
    host.set_directory("main", "/srv/main");
    host.write("/srv/main/a.wasm", 1, Some("a"));
    assert_eq!(host.get("/db/main/wasm/a").0, 200);
    host.files.clear();
    assert_eq!(host.get("/db/main/wasm/a").0, 404);
    assert_eq!(host.get("/db/main/wasm/a").0, 404);
    host.write("/srv/main/a.wasm", 1, Some("again"));
    assert_eq!(host.get("/db/main/wasm/a"), (200, b"again".to_vec()));
    assert_eq!(host.compiles, 2);
}

#[test]
fn directory_change_scenario() {
    let mut host = Host::new();
    host.set_directory("main", "/srv/old");
    host.set_directory("other", "/srv/other");
    host.write("/srv/old/a.wasm", 1, Some("old a"));
    host.write("/srv/old/b.wasm", 1, Some("old b"));
    host.write("/srv/new/a.wasm", 1, Some("new a"));
    host.write("/srv/other/a.wasm", 1, Some("other a"));
    assert_eq!(host.get("/db/main/wasm/a"), (200, b"old a".to_vec()));
    assert_eq!(host.get("/db/main/wasm/b"), (200, b"old b".to_vec()));
    assert_eq!(host.get("/db/other/wasm/a"), (200, b"other a".to_vec()));
    host.set_directory("main", "/srv/new");
    // A module that the new directory holds gets a new worker; one that it
    // does not hold is not found.
    assert_eq!(host.get("/db/main/wasm/a"), (200, b"new a".to_vec()));
    assert_eq!(host.get("/db/main/wasm/b").0, 404);
    assert_eq!(host.get("/db/other/wasm/a"), (200, b"other a".to_vec()));
    assert_eq!(host.compiles, 4);
}

#[test]
fn guest_without_the_http_interface() {
    let mut host = Host::new();
    host.set_directory("main", "/srv");
    host.write("/srv/quiet.wasm", 1, None);
    for _ in 0..3 {
        assert_eq!(host.get("/db/main/wasm/quiet/").0, 404);
    }
    // The worker is set up all the same, once.
    assert_eq!(host.compiles, 1);
    assert_eq!(host.instances.len(), 1);
    let instance = host.instances.values().next().expect("one");
    assert_eq!(instance.requests, 0);
    assert_eq!(instance.initialized.len(), 2);
}

#[test]
fn failed_request_costs_the_instance() {
    let mut host = Host::new();
    host.set_directory("main", "/srv");
    host.write("/srv/a.wasm", 1, Some("fine"));
    assert_eq!(host.get("/db/main/wasm/a/ok"), (200, b"fine".to_vec()));
    assert_eq!(host.instances.len(), 1);
    let (status, body) = host.get("/db/main/wasm/a/trap");
    assert_eq!((status, body), (500, b"Wasm failed to handle request".to_vec()));
    // The next request is served by a new instance of the same module.
    assert_eq!(host.get("/db/main/wasm/a/ok"), (200, b"fine".to_vec()));
    assert_eq!(host.instances.len(), 2);
    assert_eq!(host.compiles, 1);
}

#[test]
fn local_front_end_serves_the_same_guests() {
    let mut host = Host::new();
    host.set_directory("main", "/srv");
    host.write("/srv/a.wasm", 1, Some("local"));
    let request = unix_sock::HttpRequest {
        method: "GET".to_string(),
        url: "http://localhost/db/main/wasm/a/x?y".to_string(),
        headers: vec![(b"k".to_vec(), b"v".to_vec())],
        body: None,
    };
    let input = request.read_full().expect("a URI");
    let reply = host.serve::<unix_sock::Process>(&input);
    assert_eq!(reply.status, 200);
    assert_eq!(reply.body, Some(b"local".to_vec()));
    assert_eq!(reply.headers.get(&b"Content-Type".to_vec()), Some(&b"text/html".to_vec()));
}

#[test]
fn one_request_in_the_guest() {
    let mut turnstile = Turnstile::new();
    let a = turnstile.arrive().expect("ticket");
    let b = turnstile.arrive().expect("ticket");
    let c = turnstile.arrive().expect("ticket");
    assert_eq!((a, b, c), (0, 1, 2));
    // Who came first goes first.
    assert!(!turnstile.start(b));
    assert!(!turnstile.start(c));
    assert!(turnstile.start(a));
    // While a request is in the guest, nobody else enters.
    assert!(!turnstile.start(a));
    assert!(!turnstile.start(b));
    assert!(!turnstile.finish(b));
    assert!(!turnstile.start(b));
    assert!(turnstile.finish(a));
    assert!(!turnstile.finish(a));
    // A request that gives up lets those behind it move up.
    turnstile.abandon(b);
    assert!(!turnstile.start(b));
    assert!(turnstile.start(c));
    let d = turnstile.arrive().expect("ticket");
    assert_eq!(d, 3);
    assert!(!turnstile.start(d));
    turnstile.abandon(a);
    assert!(turnstile.finish(c));
    assert!(turnstile.start(d));
    assert!(turnstile.finish(d));
    assert!(!turnstile.start(d));
}
