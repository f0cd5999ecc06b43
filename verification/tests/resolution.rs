//! Tests of library discovery, symbol binding, and the memoized binding
//! outcome.

use mpv_embed::cache::BindingCache;
use mpv_embed::errors::MpvError;
use mpv_embed::handle::create;
use mpv_embed::resolver::{
    candidate_names, search_paths, AttemptOutcome, LoadTarget, PathFacts, Resolver,
};
use mpv_embed::symbols::{
    bind, optional_symbol_name, required_symbol_names, SymbolProbe, SymbolTableShape,
};

fn all_found_probe(set_log_level_present: bool) -> SymbolProbe {
    SymbolProbe { failures: vec![None; 8], set_log_level_present }
}

#[test]
fn candidate_names_in_preference_order() {
    let names = candidate_names();
    assert_eq!(names.len(), 3);
    assert_eq!(names[0], "libmpv-2.dll");
    assert_eq!(names[1], "mpv.dll");
    assert_eq!(names[2], "libmpv.dll");
}

#[test]
fn required_symbol_names_in_lookup_order() {
    let names = required_symbol_names();
    assert_eq!(
        names,
        vec![
            "mpv_create",
            "mpv_destroy",
            "mpv_initialize",
            "mpv_set_option",
            "mpv_set_option_string",
            "mpv_set_property",
            "mpv_get_property",
            "mpv_command",
        ]
    );
    assert_eq!(optional_symbol_name(), "mpv_set_log_level");
}

#[test]
fn search_paths_with_every_location_known() {
    let f = PathFacts {
        exe_dir: Some("/opt/app/bin".to_string()),
        exe_ancestor: Some("/opt/app".to_string()),
        cwd: Some("/work".to_string()),
        cwd_parent: Some("/".to_string()),
        resources_sdk_exists: true,
        dev_sdk_exists: true,
        parent_sdk_exists: true,
    };
    let paths = search_paths(&f);
    assert_eq!(
        paths,
        vec![
            ".",
            "/opt/app/bin",
            "/opt/app/resources/mpv-sdk",
            "/work/mpv-sdk",
            "//mpv-sdk",
        ]
    );
}

#[test]
fn search_paths_with_nothing_known() {
    let f = PathFacts {
        exe_dir: None,
        exe_ancestor: None,
        cwd: None,
        cwd_parent: None,
        resources_sdk_exists: false,
        dev_sdk_exists: false,
        parent_sdk_exists: false,
    };
    assert_eq!(search_paths(&f), vec!["."]);
}

#[test]
fn search_paths_skips_absent_sdk_directories() {
    let f = PathFacts {
        exe_dir: Some("bin".to_string()),
        exe_ancestor: Some("app".to_string()),
        cwd: Some("work".to_string()),
        cwd_parent: Some("up".to_string()),
        resources_sdk_exists: false,
        dev_sdk_exists: true,
        parent_sdk_exists: false,
    };
    assert_eq!(search_paths(&f), vec![".", "bin", "work/mpv-sdk"]);
}

#[test]
fn resolution_first_success_wins() {
    let names = candidate_names();
    let paths = vec![".".to_string()];
    let mut r = Resolver::new(names, paths);

    match r.next_target() {
        Some(LoadTarget::ByName(n)) => assert_eq!(n, "libmpv-2.dll"),
        other => panic!("expected a bare-name attempt, got {:?}", other.is_none()),
    }
    r.step(AttemptOutcome::LoadFailed("no such library".to_string()));

    match r.next_target() {
        Some(LoadTarget::AtPath(p)) => assert_eq!(p, "./libmpv-2.dll"),
        other => panic!("expected a path attempt, got {:?}", other.is_none()),
    }
    let shape = SymbolTableShape { has_set_log_level: true };
    r.step(AttemptOutcome::Bound(shape));

    assert!(r.finished());
    assert_eq!(r.outcome(), Some(Ok(shape)));
    assert!(r.next_target().is_none());
}

#[test]
fn resolution_keeps_only_the_last_error() {
    let names = vec!["one.dll".to_string(), "two.dll".to_string()];
    let paths = vec!["a".to_string(), "b".to_string()];
    let mut r = Resolver::new(names, paths);

    // one.dll: bare load fails, then both locations fail differently.
    r.step(AttemptOutcome::LoadFailed("bare".to_string()));
    r.step(AttemptOutcome::FileAbsent);
    r.step(AttemptOutcome::LoadFailed("bad image".to_string()));
    // two.dll: bare load fails, first location absent, second bind-fails.
    r.step(AttemptOutcome::LoadFailed("bare again".to_string()));
    r.step(AttemptOutcome::FileAbsent);
    r.step(AttemptOutcome::BindFailed("mpv_command: not found".to_string()));

    assert_eq!(
        r.outcome(),
        Some(Err(
            "Failed to load symbols from b/two.dll: mpv_command: not found".to_string()
        ))
    );
}

#[test]
fn resolution_without_any_recorded_attempt_reports_generic_failure() {
    let names = candidate_names();
    let mut r = Resolver::new(names, Vec::new());
    // Every bare load fails and there are no search locations; bare load
    // errors are deliberately discarded.
    r.step(AttemptOutcome::LoadFailed("a".to_string()));
    r.step(AttemptOutcome::LoadFailed("b".to_string()));
    r.step(AttemptOutcome::LoadFailed("c".to_string()));
    assert_eq!(r.outcome(), Some(Err("No mpv DLL found".to_string())));
}

#[test]
fn resolution_bare_bind_failure_abandons_the_name() {
    let names = vec!["one.dll".to_string(), "two.dll".to_string()];
    let paths = vec!["a".to_string()];
    let mut r = Resolver::new(names, paths);

    // one.dll loads by bare name but binding fails: the binder's error is
    // recorded verbatim and the search moves straight to the next name,
    // skipping one.dll's explicit locations.
    r.step(AttemptOutcome::BindFailed("mpv_create: not found".to_string()));
    match r.next_target() {
        Some(LoadTarget::ByName(n)) => assert_eq!(n, "two.dll"),
        _ => panic!("expected the next bare-name attempt"),
    }
    r.step(AttemptOutcome::LoadFailed("bare".to_string()));
    r.step(AttemptOutcome::FileAbsent);
    assert_eq!(r.outcome(), Some(Err("mpv_create: not found".to_string())));
}

#[test]
fn binding_succeeds_without_optional_entry_point() {
    let probe = all_found_probe(false);
    let table = bind(&probe).expect("binding must succeed with all required symbols");
    assert!(!table.has_set_log_level);
}

#[test]
fn binding_records_present_optional_entry_point() {
    let probe = all_found_probe(true);
    let table = bind(&probe).expect("binding must succeed with all required symbols");
    assert!(table.has_set_log_level);
}

#[test]
fn binding_failure_names_the_missing_entry_point() {
    let mut failures: Vec<Option<String>> = vec![None; 8];
    failures[2] = Some("symbol not found".to_string());
    let probe = SymbolProbe { failures, set_log_level_present: true };
    assert_eq!(
        bind(&probe),
        Err("mpv_initialize: symbol not found".to_string())
    );
}

#[test]
fn binding_failure_names_the_first_missing_entry_point() {
    let mut failures: Vec<Option<String>> = vec![None; 8];
    failures[1] = Some("first".to_string());
    failures[5] = Some("second".to_string());
    let probe = SymbolProbe { failures, set_log_level_present: false };
    assert_eq!(bind(&probe), Err("mpv_destroy: first".to_string()));
}

#[test]
fn memoized_failure_repeats_without_reprobing() {
    let mut cache = BindingCache::new();
    assert!(cache.needs_probe());
    assert_eq!(cache.probe_count(), 0);

    cache.record(Err("No mpv DLL found".to_string()));
    assert!(!cache.needs_probe());
    assert_eq!(cache.probe_count(), 1);

    for _ in 0..3 {
        let table = cache.cached().expect("outcome is memoized");
        let r = create(&table, false);
        match r {
            Err(MpvError::Unavailable { reason }) => assert_eq!(reason, "No mpv DLL found"),
            _ => panic!("creation must fail with the memoized resolution failure"),
        }
    }
    // Reading the memoized outcome never probed again.
    assert_eq!(cache.probe_count(), 1);
}

#[test]
fn memoized_success_is_shared_by_later_requests() {
    let mut cache = BindingCache::new();
    cache.record(Ok(SymbolTableShape { has_set_log_level: true }));
    assert_eq!(
        cache.cached(),
        Some(Ok(SymbolTableShape { has_set_log_level: true }))
    );
    assert_eq!(cache.probe_count(), 1);
}
