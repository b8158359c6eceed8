//! A tenant: the directories, modules and workers of one deployment, and
//! the routing of requests to them.

pub mod http;

use vstd::prelude::*;
use crate::data::copy_text;
use crate::dict::Dict;
use crate::server::tenant::http::{ConvertInput, Process};
use crate::server::worker::{Name, Worker};
use crate::text::{chars_of, range_is, split, split_ranges, ranges_of};

verus! {

/// An ASCII letter.
pub open spec fn is_ascii_letter(c: char) -> bool {
    ('a' <= c && c <= 'z') || ('A' <= c && c <= 'Z')
}

/// An ASCII digit.
pub open spec fn is_ascii_digit(c: char) -> bool {
    '0' <= c && c <= '9'
}

/// A character that may follow the first one in a module name.
pub open spec fn is_name_char(c: char) -> bool {
    is_ascii_letter(c) || is_ascii_digit(c) || c == '_' || c == '-'
}

/// The rule for module names: nonempty, an ASCII letter first, then ASCII
/// letters, digits, `_` or `-`.
pub open spec fn valid_name(name: Seq<char>) -> bool {
    &&& name.len() > 0
    &&& is_ascii_letter(name[0])
    &&& forall|i: int| 1 <= i < name.len() ==> is_name_char(#[trigger] name[i])
}

/// Whether `c` is an ASCII letter.
fn letter(c: char) -> (r: bool)
    ensures
        r == is_ascii_letter(c),
{
    (c >= 'a' && c <= 'z') || (c >= 'A' && c <= 'Z')
}

/// Whether `c` may follow the first character of a module name.
fn name_char(c: char) -> (r: bool)
    ensures
        r == is_name_char(c),
{
    letter(c) || (c >= '0' && c <= '9') || c == '_' || c == '-'
}

/// Whether the characters of `s` from `from` to `to` form a module name.
fn valid_name_range(s: &Vec<char>, from: usize, to: usize) -> (r: bool)
    requires
        from <= to <= s.len(),
    ensures
        r == valid_name(s@.subrange(from as int, to as int)),
{
    let ghost name = s@.subrange(from as int, to as int);
    if from == to {
        return false;
    }
    if !letter(s[from]) {
        return false;
    }
    let mut i: usize = from + 1;
    while i < to
        invariant
            from < i <= to <= s.len(),
            name == s@.subrange(from as int, to as int),
            forall|j: int| 1 <= j < i - from ==> is_name_char(#[trigger] name[j]),
        decreases to - i,
    {
        if !name_char(s[i]) {
            assert(name[i - from] == s@[i as int]);
            return false;
        }
        i = i + 1;
    }
    true
}

/// Whether `name` may name a module.
pub fn is_valid_name(name: &str) -> (r: bool)
    ensures
        r == valid_name(name@),
{
    let chars = chars_of(name);
    assert(chars@.subrange(0, chars@.len() as int) == chars@);
    valid_name_range(&chars, 0, chars.len())
}

/// A name that begins with a digit is no module name.
pub proof fn lemma_leading_digit_is_invalid(name: Seq<char>)
    requires
        name.len() > 0,
        is_ascii_digit(name[0]),
    ensures
        !valid_name(name),
{
}

/// The word that opens every routed path.
pub open spec fn word_db() -> Seq<char> {
    seq!['d', 'b']
}

/// The word that stands between the database and the module.
pub open spec fn word_wasm() -> Seq<char> {
    seq!['w', 'a', 's', 'm']
}

/// Where a path leads: `Some((database, module))` for
/// `/db/{database}/wasm/{module}` followed by any further segments, with a
/// module that obeys the name rule; `None` for every other path.
pub open spec fn route_of(path: Seq<char>) -> Option<(Seq<char>, Seq<char>)> {
    let segments = split(path, '/');
    if segments.len() >= 5 && segments[0].len() == 0 && segments[1] == word_db() && segments[3]
        == word_wasm() && valid_name(segments[4]) {
        Some((segments[2], segments[4]))
    } else {
        None
    }
}

/// The worker that the path of a request names, if it names one.
pub fn parse_route(path: &str) -> (r: Option<Name>)
    ensures
        match r {
            Some(name) => route_of(path@) == Some((name.database@, name.wasm_name@)),
            None => route_of(path@) is None,
        },
{
    let chars = chars_of(path);
    let ranges = split_ranges(&chars, '/');
    assert(split(path@, '/') == ranges_of(chars@, ranges@));
    if ranges.len() < 5 {
        return None;
    }
    let word_db = vec!['d', 'b'];
    let word_wasm = vec!['w', 'a', 's', 'm'];
    let first = ranges[0];
    let db = ranges[1];
    let database = ranges[2];
    let wasm = ranges[3];
    let module = ranges[4];
    if first.1 != first.0 {
        return None;
    }
    if !range_is(&chars, db.0, db.1, &word_db) {
        return None;
    }
    if !range_is(&chars, wasm.0, wasm.1, &word_wasm) {
        return None;
    }
    if !valid_name_range(&chars, module.0, module.1) {
        return None;
    }
    Some(
        Name {
            database: path.substring_char(database.0, database.1).to_owned(),
            wasm_name: path.substring_char(module.0, module.1).to_owned(),
        },
    )
}

/// A path whose module segment begins with a digit leads nowhere.
pub proof fn lemma_leading_digit_is_not_routed(path: Seq<char>)
    requires
        split(path, '/').len() >= 5,
        split(path, '/')[4].len() > 0,
        is_ascii_digit(split(path, '/')[4][0]),
    ensures
        route_of(path) is None,
{
    lemma_leading_digit_is_invalid(split(path, '/')[4]);
}

/// A path with one more `/` at its end leads where the path itself leads.
pub proof fn lemma_trailing_slash_routes_alike(path: Seq<char>)
    ensures
        route_of(path.push('/')) == route_of(path),
{
    crate::text::lemma_split_push_sep(path, '/');
    crate::text::lemma_split_nonempty(path, '/');
}

/// Where a request goes: to the worker that its path names, or back to
/// the sender as "not found".
pub fn handle<P: Process>(input: &P::ConvertInput) -> (r: Result<Name, P::Output>)
    ensures
        match r {
            Ok(name) => route_of(input.route_path()) == Some(name@),
            Err(out) => route_of(input.route_path()) is None && out@ == P::not_found(),
        },
{
    match parse_route(input.path()) {
        Some(name) => Ok(name),
        None => Err(P::err_not_found()),
    }
}

/// Why no worker could be had for a request.
#[derive(Debug)]
pub enum BuildError {
    /// No directory is configured for the database.
    UnknownDatabase,
    /// The directory of the database holds no file of the module.
    UnknownModule,
    /// The module could not be read, compiled, linked or initialized.
    Failed(String),
}

impl BuildError {
    /// Whether the error says that the request names nothing that exists.
    pub open spec fn is_not_found(&self) -> bool {
        self is UnknownDatabase || self is UnknownModule
    }
}

/// What the sender of a request is told where no worker could be had: a
/// database or a module that does not exist is not found, every other
/// failure is an internal server error.
pub fn build_failed<P: Process>(error: &BuildError) -> (r: P::Output)
    ensures
        r@ == if error.is_not_found() {
            P::not_found()
        } else {
            P::internal_server_error()
        },
{
    match error {
        BuildError::UnknownDatabase => P::err_not_found(),
        BuildError::UnknownModule => P::err_not_found(),
        BuildError::Failed(_) => P::err_internal_server_error(),
    }
}

/// The extension of a module's file.
pub open spec fn extension() -> Seq<char> {
    seq!['.', 'w', 'a', 's', 'm']
}

/// The module that a file of a directory holds, by the file's name:
/// `Some(name)` for `{name}.wasm` with a name that obeys the name rule.
pub open spec fn module_in(file_name: Seq<char>) -> Option<Seq<char>> {
    let n = file_name.len() - extension().len();
    if n >= 0 && file_name.subrange(n, file_name.len() as int) == extension() && valid_name(
        file_name.subrange(0, n),
    ) {
        Some(file_name.subrange(0, n))
    } else {
        None
    }
}

/// The name of the module that the file `file_name` holds, if it holds one.
pub fn module_of_file(file_name: &str) -> (r: Option<String>)
    ensures
        match r {
            Some(name) => module_in(file_name@) == Some(name@),
            None => module_in(file_name@) is None,
        },
{
    let chars = chars_of(file_name);
    let extension = vec!['.', 'w', 'a', 's', 'm'];
    if chars.len() < extension.len() {
        return None;
    }
    let n = chars.len() - extension.len();
    if !range_is(&chars, n, chars.len(), &extension) {
        return None;
    }
    if !valid_name_range(&chars, 0, n) {
        return None;
    }
    Some(file_name.substring_char(0, n).to_owned())
}

/// What the file of a module is called after its name.
pub open spec fn file_name_of(wasm_name: Seq<char>) -> Seq<char> {
    wasm_name + extension()
}

/// The file of a module is found again as that module's file.
pub proof fn lemma_file_names_its_module(wasm_name: Seq<char>)
    requires
        valid_name(wasm_name),
    ensures
        module_in(file_name_of(wasm_name)) == Some(wasm_name),
{
    let file = file_name_of(wasm_name);
    let n = wasm_name.len() as int;
    assert(file.subrange(n, file.len() as int) =~= extension());
}

/// The directory of each database that has one.
pub struct Directories {
    directories: Dict<String, String>,
}

impl View for Directories {
    type V = Map<Seq<char>, Seq<char>>;

    closed spec fn view(&self) -> Map<Seq<char>, Seq<char>> {
        self.directories@.map_values(|d: String| d@)
    }
}

impl Directories {
    /// The invariant of the type.
    pub closed spec fn wf(&self) -> bool {
        self.directories.wf()
    }

    /// No database has a directory.
    pub fn new() -> (r: Self)
        ensures
            r.wf(),
            r@ == Map::<Seq<char>, Seq<char>>::empty(),
    {
        Directories { directories: Dict::new() }
    }

    /// Serves the modules of `database` from `directory` from now on.
    pub fn set_directory(&mut self, database: &str, directory: &str)
        requires
            old(self).wf(),
        ensures
            final(self).wf(),
            final(self)@ == old(self)@.insert(database@, directory@),
    {
        self.directories.insert(database.to_owned(), directory.to_owned());
    }

    /// The directory and the file name of the module `wasm_name` of
    /// `database`; `None` where no directory is configured for the database.
    pub fn get_module(&self, database: &str, wasm_name: &str) -> (r: Option<(String, String)>)
        requires
            self.wf(),
        ensures
            match r {
                Some((directory, file)) => self@.contains_key(database@) && directory@
                    == self@[database@] && file@ == file_name_of(wasm_name@),
                None => !self@.contains_key(database@),
            },
    {
        let key = database.to_owned();
        match self.directories.get(&key) {
            Some(directory) => {
                proof {
                    reveal_strlit(".wasm");
                }
                let mut file = wasm_name.to_owned();
                file.append(".wasm");
                Some((copy_text(directory), file))
            },
            None => None,
        }
    }
}

/// The client pools of a tenant: one for each database that has been
/// asked for.
pub struct Clients<P> {
    pools: Dict<String, P>,
}

impl<P> View for Clients<P> {
    type V = Map<Seq<char>, P>;

    closed spec fn view(&self) -> Map<Seq<char>, P> {
        self.pools@
    }
}

impl<P> Clients<P> {
    /// The invariant of the type.
    pub closed spec fn wf(&self) -> bool {
        self.pools.wf()
    }

    /// No pool has been made.
    pub fn new() -> (r: Self)
        ensures
            r.wf(),
            r@ == Map::<Seq<char>, P>::empty(),
    {
        Clients { pools: Dict::new() }
    }

    /// The pool of `database`, if one has been made.
    pub fn get_client(&self, database: &str) -> (r: Option<&P>)
        requires
            self.wf(),
        ensures
            match r {
                Some(pool) => self@.contains_key(database@) && *pool == self@[database@],
                None => !self@.contains_key(database@),
            },
    {
        let key = database.to_owned();
        self.pools.get(&key)
    }

    /// Keeps `pool` as the pool of `database`, unless the database has
    /// one already: a database has one pool for the tenant's lifetime.
    /// Returns whether `pool` was kept.
    pub fn add_client(&mut self, database: &str, pool: P) -> (r: bool)
        requires
            old(self).wf(),
        ensures
            final(self).wf(),
            r == !old(self)@.contains_key(database@),
            final(self)@ == if r {
                old(self)@.insert(database@, pool)
            } else {
                old(self)@
            },
    {
        self.pools.insert_if_absent(database.to_owned(), pool)
    }
}

/// Whether a worker outlives the change of the directory of `database`
/// to `directory`: one of another database does, and one whose module was
/// read from that directory.
pub open spec fn stays(worker: Worker, database: Seq<char>, directory: Seq<char>) -> bool {
    worker.name.database@ != database || worker.directory@ == directory
}

/// The workers that outlive the change of the directory of `database` to `directory`.
pub open spec fn purged(
    workers: Map<(Seq<char>, Seq<char>), Worker>,
    database: Seq<char>,
    directory: Seq<char>,
) -> Map<(Seq<char>, Seq<char>), Worker> {
    Map::new(
        |name: (Seq<char>, Seq<char>)|
            workers.contains_key(name) && stays(workers[name], database, directory),
        |name: (Seq<char>, Seq<char>)| workers[name],
    )
}

/// Whether the worker registered under `name` can serve a request for `module`.
pub open spec fn serves(
    workers: Map<(Seq<char>, Seq<char>), Worker>,
    name: (Seq<char>, Seq<char>),
    module: u64,
) -> bool {
    workers.contains_key(name) && workers[name].module == module && !workers[name].poisoned
}

/// The workers of a tenant: at most one under each name.
pub struct Workers {
    workers: Dict<Name, Worker>,
}

impl View for Workers {
    type V = Map<(Seq<char>, Seq<char>), Worker>;

    closed spec fn view(&self) -> Map<(Seq<char>, Seq<char>), Worker> {
        self.workers@
    }
}

impl Workers {
    /// The invariant of the type: each worker is registered under its own name.
    pub closed spec fn wf(&self) -> bool {
        &&& self.workers.wf()
        &&& forall|name: (Seq<char>, Seq<char>)| #[trigger]
            self.workers@.contains_key(name) ==> self.workers@[name].name@ == name
    }

    /// What `wf` says of the view.
    pub proof fn lemma_wf(&self)
        requires
            self.wf(),
        ensures
            forall|name: (Seq<char>, Seq<char>)| #[trigger]
                self@.contains_key(name) ==> self@[name].name@ == name,
    {
    }

    /// No worker is registered.
    pub fn new() -> (r: Self)
        ensures
            r.wf(),
            r@ == Map::<(Seq<char>, Seq<char>), Worker>::empty(),
    {
        Workers { workers: Dict::new() }
    }

    /// The worker that serves `name` with the module `module`, if one is
    /// registered; `None` where a worker has to be made.
    pub fn get_worker(&self, name: &Name, module: u64) -> (r: Option<u64>)
        requires
            self.wf(),
        ensures
            match r {
                Some(id) => serves(self@, name@, module) && id == self@[name@].id,
                None => !serves(self@, name@, module),
            },
    {
        match self.workers.get(name) {
            Some(worker) => if worker.module == module && !worker.poisoned {
                Some(worker.id)
            } else {
                None
            },
            None => None,
        }
    }

    /// Registers `worker` under its name, in place of the worker that was
    /// registered there.
    pub fn replace(&mut self, worker: Worker)
        requires
            old(self).wf(),
        ensures
            final(self).wf(),
            final(self)@ == old(self)@.insert(worker.name@, worker),
    {
        let key = Name {
            database: copy_text(&worker.name.database),
            wasm_name: copy_text(&worker.name.wasm_name),
        };
        self.workers.insert(key, worker);
    }

    /// Marks the worker `id` as unfit, if it is still registered under `name`.
    pub fn poison(&mut self, name: &Name, id: u64)
        requires
            old(self).wf(),
        ensures
            final(self).wf(),
            final(self)@ == if old(self)@.contains_key(name@) && old(self)@[name@].id == id {
                old(self)@.insert(name@, Worker { poisoned: true, ..old(self)@[name@] })
            } else {
                old(self)@
            },
    {
        let registered = match self.workers.get(name) {
            Some(worker) => worker.id == id,
            None => false,
        };
        if registered {
            match self.workers.remove(name) {
                Some(worker) => {
                    let key = Name {
                        database: copy_text(&name.database),
                        wasm_name: copy_text(&name.wasm_name),
                    };
                    let marked = Worker { poisoned: true, ..worker };
                    self.workers.insert(key, marked);
                },
                None => {},
            }
        }
    }

    /// Drops the workers of `database` whose module was not read from
    /// `directory`, which is the directory of that database from now on.
    pub fn set_directory(&mut self, database: &str, directory: &str)
        requires
            old(self).wf(),
        ensures
            final(self).wf(),
            final(self)@ == purged(old(self)@, database@, directory@),
    {
        let database = database.to_owned();
        let directory = directory.to_owned();
        let ghost all = self.workers@;
        let mut kept: Dict<Name, Worker> = Dict::new();
        loop
            invariant
                self.workers.wf(),
                kept.wf(),
                forall|name: (Seq<char>, Seq<char>)| #[trigger]
                    self.workers@.contains_key(name) ==> all.contains_key(name) && self.workers@[name]
                        == all[name],
                forall|name: (Seq<char>, Seq<char>)| #[trigger]
                    all.contains_key(name) ==> all[name].name@ == name,
                forall|name: (Seq<char>, Seq<char>)| #[trigger]
                    kept@.contains_key(name) <==> all.contains_key(name)
                        && !self.workers@.contains_key(name) && stays(
                        all[name],
                        database@,
                        directory@,
                    ),
                forall|name: (Seq<char>, Seq<char>)| #[trigger]
                    kept@.contains_key(name) ==> kept@[name] == all[name],
            ensures
                self.workers@ == Map::<(Seq<char>, Seq<char>), Worker>::empty(),
            decreases self.workers@.len(),
        {
            match self.workers.pop() {
                Some((name, worker)) => {
                    if worker.name.database != database || worker.directory == directory {
                        kept.insert(name, worker);
                    }
                },
                None => {
                    break ;
                },
            }
        }
        self.workers = kept;
    }
}

/// Under each name at most one worker is to be seen: a worker that is
/// registered takes the place of the one that was there, and touches no
/// other name.
pub proof fn lemma_one_worker_per_name(
    workers: Map<(Seq<char>, Seq<char>), Worker>,
    worker: Worker,
    other: (Seq<char>, Seq<char>),
)
    ensures
        workers.insert(worker.name@, worker)[worker.name@] == worker,
        other != worker.name@ ==> workers.insert(worker.name@, worker).contains_key(other)
            == workers.contains_key(other),
        other != worker.name@ && workers.contains_key(other) ==> workers.insert(
            worker.name@,
            worker,
        )[other] == workers[other],
{
}

/// After the directory of a database has changed, no worker of that
/// database whose module came from another directory serves a request: a
/// lookup under its name asks for a new worker.
pub proof fn lemma_directory_change_drops_workers(
    workers: Map<(Seq<char>, Seq<char>), Worker>,
    database: Seq<char>,
    directory: Seq<char>,
    name: (Seq<char>, Seq<char>),
    module: u64,
)
    requires
        workers.contains_key(name),
        workers[name].name@ == name,
        name.0 == database,
        workers[name].directory@ != directory,
    ensures
        !purged(workers, database, directory).contains_key(name),
        !serves(purged(workers, database, directory), name, module),
{
}

/// The change of a directory leaves every other database's workers, and
/// the workers whose module came from the new directory, as they are.
pub proof fn lemma_directory_change_keeps_workers(
    workers: Map<(Seq<char>, Seq<char>), Worker>,
    database: Seq<char>,
    directory: Seq<char>,
    name: (Seq<char>, Seq<char>),
)
    requires
        workers.contains_key(name),
        workers[name].name@ == name,
        name.0 != database || workers[name].directory@ == directory,
    ensures
        purged(workers, database, directory).contains_key(name),
        purged(workers, database, directory)[name] == workers[name],
{
}

} // verus!
