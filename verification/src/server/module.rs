//! Compiled modules and the cache that hands them out.
//!
//! The cache decides; its caller does the work. A caller asks for a path
//! with [`ModuleCache::lookup`] and is told to compile, to wait for the
//! compile that another caller runs, or to check the cached module against
//! the file. It reports back with [`ModuleCache::compiled`],
//! [`ModuleCache::failed`] and [`ModuleCache::refresh`], each under a guard
//! that it holds only for the call. Cells are told apart by a number that
//! is never handed out twice, so that a report about a cell that has been
//! replaced meanwhile changes nothing.

use vstd::prelude::*;
use crate::dict::Dict;

verus! {

/// A compiled guest artifact as the host's logic sees it.
#[derive(Debug)]
pub struct Module {
    /// Identity of the compiled artifact; no two modules share it.
    pub id: u64,
    /// The file that was compiled.
    pub path: String,
    /// The directory that was configured for the database when the file was read.
    pub directory: String,
    /// Modification time of the file when it was read, in nanoseconds.
    pub modification_time: u128,
}

/// What the file system says of a module file.
#[derive(Clone, Copy, Debug, PartialEq, Eq)]
pub enum FileState {
    /// There is no such file.
    Missing,
    /// The file is there; its modification time cannot be had.
    Unknown,
    /// The file is there, last modified at this time, in nanoseconds.
    Modified(u128),
}

/// What a cell of the cache holds.
#[derive(Clone, Copy, Debug, PartialEq, Eq)]
pub enum CellState {
    /// One caller is compiling the file; the others wait.
    Compiling,
    /// The file was compiled into `module` when it was last modified at `modification_time`.
    Ready { module: u64, modification_time: u128 },
}

/// The one-shot cell of a path.
#[derive(Clone, Copy, Debug, PartialEq, Eq)]
pub struct Cell {
    pub id: u64,
    pub state: CellState,
}

/// The answer to a lookup.
#[derive(Clone, Copy, Debug, PartialEq, Eq)]
pub enum Lookup {
    /// The caller is the first for this path: it compiles and reports to `cell`.
    Compile { cell: u64 },
    /// Another caller compiles: wait until `cell` is settled, then look up again.
    Wait { cell: u64 },
    /// The path has a module; check it against the file with `refresh`.
    Cached { cell: u64, module: u64, modification_time: u128 },
    /// Every cell number has been handed out; nothing was changed.
    Exhausted,
}

/// The answer to a freshness check.
#[derive(Clone, Copy, Debug, PartialEq, Eq)]
pub enum Refresh {
    /// The cached module stands for the file.
    Use,
    /// The file is newer: look up again, which leads to a compile.
    Reload,
    /// The file is gone.
    NotFound,
}

/// The cache as a mathematical value: the cell of each path, and how many
/// cell numbers have been handed out.
pub ghost struct CacheView {
    pub cells: Map<Seq<char>, Cell>,
    pub issued: nat,
}

/// What the freshness check answers for a module read at `cached` and a
/// file in state `file`: a missing file is not found, an unknown time
/// skips the check, a later time reloads, any other uses the module.
pub open spec fn refresh_decision(cached: u128, file: FileState) -> Refresh {
    match file {
        FileState::Missing => Refresh::NotFound,
        FileState::Unknown => Refresh::Use,
        FileState::Modified(t) => if t > cached {
            Refresh::Reload
        } else {
            Refresh::Use
        },
    }
}

impl CacheView {
    /// No cell carries a number that has not been handed out, and no two
    /// paths share a cell.
    pub open spec fn wf(self) -> bool {
        &&& forall|p: Seq<char>| #[trigger]
            self.cells.contains_key(p) ==> self.cells[p].id < self.issued
        &&& forall|p: Seq<char>, q: Seq<char>|
            #![trigger self.cells[p], self.cells[q]]
            self.cells.contains_key(p) && self.cells.contains_key(q) && p != q ==> self.cells[p].id
                != self.cells[q].id
    }

    /// The paths that are being compiled.
    pub open spec fn compiling(self) -> Set<Seq<char>> {
        Set::new(
            |p: Seq<char>| self.cells.contains_key(p) && self.cells[p].state is Compiling,
        )
    }

    /// Whether the cell of `path` is the one numbered `cell`.
    pub open spec fn holds(self, path: Seq<char>, cell: u64) -> bool {
        self.cells.contains_key(path) && self.cells[path].id == cell
    }

    /// A lookup of `path`: the cache after it, and the answer.
    pub open spec fn lookup(self, path: Seq<char>) -> (CacheView, Lookup) {
        if self.cells.contains_key(path) {
            let cell = self.cells[path];
            match cell.state {
                CellState::Compiling => (self, Lookup::Wait { cell: cell.id }),
                CellState::Ready { module, modification_time } => (
                    self,
                    Lookup::Cached { cell: cell.id, module, modification_time },
                ),
            }
        } else if self.issued < u64::MAX {
            let id = self.issued as u64;
            (
                CacheView {
                    cells: self.cells.insert(path, Cell { id, state: CellState::Compiling }),
                    issued: self.issued + 1,
                },
                Lookup::Compile { cell: id },
            )
        } else {
            (self, Lookup::Exhausted)
        }
    }

    /// Whether `cell` is the cell of `path` and still being compiled.
    pub open spec fn awaits(self, path: Seq<char>, cell: u64) -> bool {
        self.holds(path, cell) && self.cells[path].state is Compiling
    }

    /// The report that the compile of `cell` gave `module`.
    pub open spec fn compiled(
        self,
        path: Seq<char>,
        cell: u64,
        module: u64,
        modification_time: u128,
    ) -> CacheView {
        if self.awaits(path, cell) {
            CacheView {
                cells: self.cells.insert(
                    path,
                    Cell { id: cell, state: CellState::Ready { module, modification_time } },
                ),
                issued: self.issued,
            }
        } else {
            self
        }
    }

    /// The report that the compile of `cell` failed.
    pub open spec fn failed(self, path: Seq<char>, cell: u64) -> CacheView {
        if self.awaits(path, cell) {
            CacheView { cells: self.cells.remove(path), issued: self.issued }
        } else {
            self
        }
    }

    /// Whether `cell` is the cell of `path` and holds a module.
    pub open spec fn settled(self, path: Seq<char>, cell: u64) -> bool {
        self.holds(path, cell) && self.cells[path].state is Ready
    }

    /// The freshness check of a module that was taken from `cell` and read
    /// at `cached`, against a file in state `file`.
    pub open spec fn refresh(self, path: Seq<char>, cell: u64, cached: u128, file: FileState) -> (
        CacheView,
        Refresh,
    ) {
        let decision = refresh_decision(cached, file);
        if decision != Refresh::Use && self.settled(path, cell) {
            (CacheView { cells: self.cells.remove(path), issued: self.issued }, decision)
        } else {
            (self, decision)
        }
    }

    /// The report that nothing refers to `module` any more.
    pub open spec fn released(self, path: Seq<char>, module: u64) -> CacheView {
        if self.cells.contains_key(path) && self.cells[path].state == (CellState::Ready {
            module,
            modification_time: self.cells[path].state->modification_time,
        }) {
            CacheView { cells: self.cells.remove(path), issued: self.issued }
        } else {
            self
        }
    }
}

/// The module cache: at most one cell per path.
pub struct ModuleCache {
    cells: Dict<String, Cell>,
    next_cell: u64,
}

impl View for ModuleCache {
    type V = CacheView;

    closed spec fn view(&self) -> CacheView {
        CacheView { cells: self.cells@, issued: self.next_cell as nat }
    }
}

impl ModuleCache {
    /// The invariant of the type.
    pub closed spec fn wf(&self) -> bool {
        self.cells.wf() && self@.wf()
    }

    /// What `wf` says of the view.
    pub proof fn lemma_wf(&self)
        requires
            self.wf(),
        ensures
            self@.wf(),
            self@.issued <= u64::MAX,
    {
    }

    /// A cache without cells.
    pub fn new() -> (cache: Self)
        ensures
            cache.wf(),
            cache@ == (CacheView { cells: Map::empty(), issued: 0 }),
    {
        ModuleCache { cells: Dict::new(), next_cell: 0 }
    }

    /// Asks for the module of `path`.
    pub fn lookup(&mut self, path: &str) -> (r: Lookup)
        requires
            old(self).wf(),
        ensures
            final(self).wf(),
            (final(self)@, r) == old(self)@.lookup(path@),
    {
        let key = path.to_owned();
        let found = match self.cells.get(&key) {
            Some(cell) => Some(*cell),
            None => None,
        };
        match found {
            Some(cell) => match cell.state {
                CellState::Compiling => Lookup::Wait { cell: cell.id },
                CellState::Ready { module, modification_time } => Lookup::Cached {
                    cell: cell.id,
                    module,
                    modification_time,
                },
            },
            None => {
                if self.next_cell == u64::MAX {
                    return Lookup::Exhausted;
                }
                let id = self.next_cell;
                self.cells.insert(key, Cell { id, state: CellState::Compiling });
                self.next_cell = id + 1;
                Lookup::Compile { cell: id }
            },
        }
    }

    /// Reports that the compile of `cell` gave `module`, read from a file
    /// last modified at `modification_time`. Returns whether the cell took it.
    pub fn compiled(&mut self, path: &str, cell: u64, module: u64, modification_time: u128) -> (r:
        bool)
        requires
            old(self).wf(),
        ensures
            final(self).wf(),
            final(self)@ == old(self)@.compiled(path@, cell, module, modification_time),
            r == old(self)@.awaits(path@, cell),
    {
        let key = path.to_owned();
        let awaited = match self.cells.get(&key) {
            Some(c) => c.id == cell && matches!(c.state, CellState::Compiling),
            None => false,
        };
        if awaited {
            self.cells.insert(
                key,
                Cell { id: cell, state: CellState::Ready { module, modification_time } },
            );
        }
        awaited
    }

    /// Reports that the compile of `cell` failed: the cell is dropped, and
    /// the next caller compiles anew. Returns whether the cell was dropped.
    pub fn failed(&mut self, path: &str, cell: u64) -> (r: bool)
        requires
            old(self).wf(),
        ensures
            final(self).wf(),
            final(self)@ == old(self)@.failed(path@, cell),
            r == old(self)@.awaits(path@, cell),
    {
        let key = path.to_owned();
        let awaited = match self.cells.get(&key) {
            Some(c) => c.id == cell && matches!(c.state, CellState::Compiling),
            None => false,
        };
        if awaited {
            self.cells.remove(&key);
        }
        awaited
    }

    /// Checks a module that was taken from `cell`, and read when the file
    /// was last modified at `cached`, against the file as it is now. Where
    /// the module no longer stands for the file, the cell is dropped,
    /// unless another caller has replaced it already.
    pub fn refresh(&mut self, path: &str, cell: u64, cached: u128, file: FileState) -> (r: Refresh)
        requires
            old(self).wf(),
        ensures
            final(self).wf(),
            (final(self)@, r) == old(self)@.refresh(path@, cell, cached, file),
    {
        let decision = match file {
            FileState::Missing => Refresh::NotFound,
            FileState::Unknown => Refresh::Use,
            FileState::Modified(t) => if t > cached {
                Refresh::Reload
            } else {
                Refresh::Use
            },
        };
        if matches!(decision, Refresh::Use) {
            return decision;
        }
        let key = path.to_owned();
        let settled = match self.cells.get(&key) {
            Some(c) => c.id == cell && matches!(c.state, CellState::Ready { .. }),
            None => false,
        };
        if settled {
            self.cells.remove(&key);
        }
        decision
    }

    /// Reports that nothing refers to `module` any more: its cell is dropped.
    pub fn released(&mut self, path: &str, module: u64)
        requires
            old(self).wf(),
        ensures
            final(self).wf(),
            final(self)@ == old(self)@.released(path@, module),
    {
        let key = path.to_owned();
        let held = match self.cells.get(&key) {
            Some(c) => match c.state {
                CellState::Ready { module: m, .. } => m == module,
                CellState::Compiling => false,
            },
            None => false,
        };
        if held {
            self.cells.remove(&key);
        }
    }
}

/// A compile starts only for a path for which none is running: a lookup
/// answers `Compile` only where the path is not being compiled, and from
/// then on the path counts as being compiled. No other answer changes
/// which paths are being compiled.
pub proof fn lemma_one_compile_per_path(cache: CacheView, path: Seq<char>)
    requires
        cache.wf(),
    ensures
        cache.lookup(path).0.wf(),
        cache.lookup(path).1 is Compile ==> !cache.compiling().contains(path)
            && cache.lookup(path).0.compiling() == cache.compiling().insert(path)
            && cache.lookup(path).0.awaits(path, cache.lookup(path).1->Compile_cell),
        !(cache.lookup(path).1 is Compile) ==> cache.lookup(path).0 == cache,
        cache.compiling().contains(path) ==> cache.lookup(path).1 is Wait,
{
}

/// A path that is being compiled stays so until the caller that compiles
/// reports: a freshness check, a release, and a report that names another
/// path or another cell leave it as it is. The report of the compiling
/// caller itself ends the compile.
pub proof fn lemma_compile_ends_with_its_report(
    cache: CacheView,
    path: Seq<char>,
    cell: u64,
    other: Seq<char>,
    other_cell: u64,
    module: u64,
    time: u128,
    file: FileState,
)
    requires
        cache.wf(),
        cache.awaits(path, cell),
    ensures
        cache.refresh(other, other_cell, time, file).0.awaits(path, cell),
        cache.released(other, module).awaits(path, cell),
        other != path || other_cell != cell ==> cache.compiled(
            other,
            other_cell,
            module,
            time,
        ).awaits(path, cell) && cache.failed(other, other_cell).awaits(path, cell),
        !cache.compiled(path, cell, module, time).compiling().contains(path),
        !cache.failed(path, cell).compiling().contains(path),
{
}

/// A file that has not changed is not compiled again: once the compile of
/// a path has been reported, a lookup answers with that module, and the
/// check against a file that is no newer keeps the cache as it is.
pub proof fn lemma_unchanged_file_is_not_recompiled(
    cache: CacheView,
    path: Seq<char>,
    cell: u64,
    module: u64,
    time: u128,
    now: u128,
)
    requires
        cache.wf(),
        cache.awaits(path, cell),
        now <= time,
    ensures
        ({
            let ready = cache.compiled(path, cell, module, time);
            &&& ready.wf()
            &&& ready.lookup(path) == (
                ready,
                Lookup::Cached { cell, module, modification_time: time },
            )
            &&& ready.refresh(path, cell, time, FileState::Modified(now)) == (ready, Refresh::Use)
            &&& ready.refresh(path, cell, time, FileState::Unknown) == (ready, Refresh::Use)
        }),
{
}

/// A file that is newer than the module, or gone, costs the module its
/// cell: the next lookup starts a compile, unless the cell numbers are used up.
pub proof fn lemma_changed_file_is_recompiled(
    cache: CacheView,
    path: Seq<char>,
    cell: u64,
    time: u128,
    file: FileState,
)
    requires
        cache.wf(),
        cache.settled(path, cell),
        refresh_decision(time, file) != Refresh::Use,
        cache.issued < u64::MAX,
    ensures
        cache.refresh(path, cell, time, file).0.wf(),
        cache.refresh(path, cell, time, file).0.lookup(path).1 is Compile,
{
}

/// What a caller can do to the cache.
pub ghost enum Event {
    Lookup { path: Seq<char> },
    Compiled { path: Seq<char>, cell: u64, module: u64, modification_time: u128 },
    Failed { path: Seq<char>, cell: u64 },
    Refresh { path: Seq<char>, cell: u64, cached: u128, file: FileState },
    Released { path: Seq<char>, module: u64 },
}

impl CacheView {
    /// The cache after `event`.
    pub open spec fn step(self, event: Event) -> CacheView {
        match event {
            Event::Lookup { path } => self.lookup(path).0,
            Event::Compiled { path, cell, module, modification_time } => self.compiled(
                path,
                cell,
                module,
                modification_time,
            ),
            Event::Failed { path, cell } => self.failed(path, cell),
            Event::Refresh { path, cell, cached, file } => self.refresh(path, cell, cached, file).0,
            Event::Released { path, module } => self.released(path, module),
        }
    }
}

/// The cache after a history of events, from a cache without cells.
pub open spec fn after(history: Seq<Event>) -> CacheView
    decreases history.len(),
{
    if history.len() == 0 {
        CacheView { cells: Map::empty(), issued: 0 }
    } else {
        after(history.drop_last()).step(history.last())
    }
}

/// The compiles that a history has started and not ended, each as the
/// path and the cell that the lookup answered with. A compile starts
/// with a lookup that is answered by `Compile`, and ends with the report
/// that it gave a module or failed.
pub open spec fn compiles(history: Seq<Event>) -> Set<(Seq<char>, u64)>
    decreases history.len(),
{
    if history.len() == 0 {
        Set::empty()
    } else {
        let before = compiles(history.drop_last());
        match history.last() {
            Event::Lookup { path } => match after(history.drop_last()).lookup(path).1 {
                Lookup::Compile { cell } => before.insert((path, cell)),
                _ => before,
            },
            Event::Compiled { path, cell, module, modification_time } => before.remove((path, cell)),
            Event::Failed { path, cell } => before.remove((path, cell)),
            _ => before,
        }
    }
}

/// Whatever the callers do, every compile that runs is the compile of
/// the cell that its path has in the cache.
pub proof fn lemma_compiles_are_in_the_cache(history: Seq<Event>)
    ensures
        after(history).wf(),
        forall|path: Seq<char>, cell: u64| #[trigger]
            compiles(history).contains((path, cell)) ==> after(history).awaits(path, cell),
    decreases history.len(),
{
    if history.len() > 0 {
        lemma_compiles_are_in_the_cache(history.drop_last());
        let cache = after(history.drop_last());
        let running = compiles(history.drop_last());
        assert forall|path: Seq<char>, cell: u64| #[trigger]
            compiles(history).contains((path, cell)) implies after(history).awaits(path, cell) by {
            if running.contains((path, cell)) {
                assert(cache.awaits(path, cell));
            }
        }
    }
}

/// At most one compile runs for a path at any time: two compiles that a
/// history has started for one path and not ended are one and the same.
pub proof fn lemma_at_most_one_compile_runs(history: Seq<Event>, path: Seq<char>, one: u64, other: u64)
    requires
        compiles(history).contains((path, one)),
        compiles(history).contains((path, other)),
    ensures
        one == other,
{
    lemma_compiles_are_in_the_cache(history);
}

} // verus!
