use edgedb_wasm::server::module::{FileState, Lookup, ModuleCache, Refresh};

/// Runs a lookup to its end as a caller would, with a file last modified
/// at `mtime`; counts the compiles in `compiles`.
fn get_module(cache: &mut ModuleCache, path: &str, mtime: u128, next_module: &mut u64, compiles: &mut u32) -> u64 {
    loop {
        match cache.lookup(path) {
            Lookup::Compile { cell } => {
                *compiles += 1;
                *next_module += 1;
                assert!(cache.compiled(path, cell, *next_module, mtime));
                return *next_module;
            }
            Lookup::Cached { cell, module, modification_time } => {
                match cache.refresh(path, cell, modification_time, FileState::Modified(mtime)) {
                    Refresh::Use => return module,
                    Refresh::Reload => continue,
                    Refresh::NotFound => panic!("file is there"),
                }
            }
            Lookup::Wait { .. } => panic!("nobody else compiles"),
            Lookup::Exhausted => panic!("cells left"),
        }
    }
}

#[test]
fn first_lookup_compiles() {
    let mut cache = ModuleCache::new();
    assert_eq!(cache.lookup("/srv/a.wasm"), Lookup::Compile { cell: 0 });
    assert_eq!(cache.lookup("/srv/b.wasm"), Lookup::Compile { cell: 1 });
}

#[test]
fn one_compile_per_path_at_a_time() {
    let mut cache = ModuleCache::new();
    let first = cache.lookup("/srv/a.wasm");
    assert_eq!(first, Lookup::Compile { cell: 0 });
    // Whoever asks while the compile runs is told to wait for it.
    for _ in 0..5 {
        assert_eq!(cache.lookup("/srv/a.wasm"), Lookup::Wait { cell: 0 });
    }
    // Another path compiles on its own.
    assert_eq!(cache.lookup("/srv/b.wasm"), Lookup::Compile { cell: 1 });
    assert_eq!(cache.lookup("/srv/a.wasm"), Lookup::Wait { cell: 0 });
    // Nobody but the compiling caller ends the compile.
    assert_eq!(cache.refresh("/srv/a.wasm", 0, 0, FileState::Missing), Refresh::NotFound);
    assert_eq!(cache.lookup("/srv/a.wasm"), Lookup::Wait { cell: 0 });
    assert!(!cache.compiled("/srv/a.wasm", 1, 9, 5));
    assert!(!cache.failed("/srv/a.wasm", 7));
    assert!(!cache.failed("/srv/c.wasm", 0));
    cache.released("/srv/a.wasm", 0);
    assert_eq!(cache.lookup("/srv/a.wasm"), Lookup::Wait { cell: 0 });
    // The report of the compiling caller settles the cell.
    assert!(cache.compiled("/srv/a.wasm", 0, 11, 5));
    assert_eq!(
        cache.lookup("/srv/a.wasm"),
        Lookup::Cached { cell: 0, module: 11, modification_time: 5 }
    );
    // A second report for the same cell changes nothing.
    assert!(!cache.compiled("/srv/a.wasm", 0, 12, 6));
    assert_eq!(
        cache.lookup("/srv/a.wasm"),
        Lookup::Cached { cell: 0, module: 11, modification_time: 5 }
    );
}

#[test]
fn unchanged_file_is_not_recompiled() {
    let mut cache = ModuleCache::new();
    let mut next_module = 0;
    let mut compiles = 0;
    let first = get_module(&mut cache, "/srv/a.wasm", 1_000, &mut next_module, &mut compiles);
    assert_eq!(compiles, 1);
    for _ in 0..10 {
        let again = get_module(&mut cache, "/srv/a.wasm", 1_000, &mut next_module, &mut compiles);
        assert_eq!(again, first);
    }
    assert_eq!(compiles, 1);
    // An older time on disk does not count as a change either.
    assert_eq!(get_module(&mut cache, "/srv/a.wasm", 999, &mut next_module, &mut compiles), first);
    assert_eq!(compiles, 1);
}

#[test]
fn reload() {
    let mut cache = ModuleCache::new();
    let mut next_module = 0;
    let mut compiles = 0;
    let old = get_module(&mut cache, "/srv/a.wasm", 1_000, &mut next_module, &mut compiles);
    let new = get_module(&mut cache, "/srv/a.wasm", 1_001, &mut next_module, &mut compiles);
    assert_ne!(old, new);
    assert_eq!(compiles, 2);
    assert_eq!(get_module(&mut cache, "/srv/a.wasm", 1_001, &mut next_module, &mut compiles), new);
    assert_eq!(compiles, 2);
}

#[test]
fn refresh_decisions() {
    let mut cache = ModuleCache::new();
    assert_eq!(cache.lookup("p"), Lookup::Compile { cell: 0 });
    assert!(cache.compiled("p", 0, 1, 50));
    assert_eq!(cache.refresh("p", 0, 50, FileState::Modified(49)), Refresh::Use);
    assert_eq!(cache.refresh("p", 0, 50, FileState::Modified(50)), Refresh::Use);
    assert_eq!(cache.refresh("p", 0, 50, FileState::Unknown), Refresh::Use);
    assert_eq!(cache.lookup("p"), Lookup::Cached { cell: 0, module: 1, modification_time: 50 });
    assert_eq!(cache.refresh("p", 0, 50, FileState::Modified(51)), Refresh::Reload);
    assert_eq!(cache.lookup("p"), Lookup::Compile { cell: 1 });
}

#[test]
fn missing_file_evicts_at_once() {
    let mut cache = ModuleCache::new();
    assert_eq!(cache.lookup("p"), Lookup::Compile { cell: 0 });
    assert!(cache.compiled("p", 0, 1, 50));
    assert_eq!(cache.refresh("p", 0, 50, FileState::Missing), Refresh::NotFound);
    assert_eq!(cache.lookup("p"), Lookup::Compile { cell: 1 });
}

#[test]
fn refresh_leaves_a_newer_cell_alone() {
    let mut cache = ModuleCache::new();
    assert_eq!(cache.lookup("p"), Lookup::Compile { cell: 0 });
    assert!(cache.compiled("p", 0, 1, 50));
    // Two callers hold the module of cell 0 and both see a newer file.
    assert_eq!(cache.refresh("p", 0, 50, FileState::Modified(60)), Refresh::Reload);
    assert_eq!(cache.lookup("p"), Lookup::Compile { cell: 1 });
    assert!(cache.compiled("p", 1, 2, 60));
    // The late caller must not drop the refresh that the first started.
    assert_eq!(cache.refresh("p", 0, 50, FileState::Modified(60)), Refresh::Reload);
    assert_eq!(cache.lookup("p"), Lookup::Cached { cell: 1, module: 2, modification_time: 60 });
}

#[test]
fn failed_compile_is_not_cached() {
    let mut cache = ModuleCache::new();
    assert_eq!(cache.lookup("p"), Lookup::Compile { cell: 0 });
    assert_eq!(cache.lookup("p"), Lookup::Wait { cell: 0 });
    assert!(cache.failed("p", 0));
    // The next caller tries again, in a cell of its own.
    assert_eq!(cache.lookup("p"), Lookup::Compile { cell: 1 });
    // A late report from the failed compile changes nothing.
    assert!(!cache.failed("p", 0));
    assert!(!cache.compiled("p", 0, 3, 1));
    assert_eq!(cache.lookup("p"), Lookup::Wait { cell: 1 });
}

#[test]
fn released_module_is_compiled_anew() {
    let mut cache = ModuleCache::new();
    assert_eq!(cache.lookup("p"), Lookup::Compile { cell: 0 });
    assert!(cache.compiled("p", 0, 7, 50));
    cache.released("p", 8);
    assert_eq!(cache.lookup("p"), Lookup::Cached { cell: 0, module: 7, modification_time: 50 });
    cache.released("q", 7);
    assert_eq!(cache.lookup("p"), Lookup::Cached { cell: 0, module: 7, modification_time: 50 });
    cache.released("p", 7);
    assert_eq!(cache.lookup("p"), Lookup::Compile { cell: 1 });
}
