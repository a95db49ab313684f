use vcs_hooks::platform::Platform;
use vcs_hooks::toolchain::{
    cargo_invocation, get_rust_env_paths, resolve_tool_mode, rustup_invocation, setup_step,
    SetupDecision, SetupEvent, VersionCache, VersionSpec,
};

fn version(raw: &str) -> VersionSpec {
    VersionSpec { raw: raw.to_string() }
}

#[test]
fn setup_without_version_is_done() {
    let cache = VersionCache::new();
    for event in [
        SetupEvent::Begin,
        SetupEvent::Connectivity { online: true, tool_dir_exists: true },
        SetupEvent::InstallOutcome { changed: true },
    ] {
        let r = setup_step(false, &None, &cache, "rust", event);
        assert_eq!(r, (SetupDecision::Done, false));
    }
}

#[test]
fn setup_global_mode_queries_nothing() {
    let cache = VersionCache::new();
    let r = setup_step(true, &Some(version("1.70.0")), &cache, "rust", SetupEvent::Begin);
    assert_eq!(r, (SetupDecision::Done, false));
}

#[test]
fn setup_begins_by_querying_install_state() {
    let cache = VersionCache::new();
    let r = setup_step(false, &Some(version("1.70.0")), &cache, "rust", SetupEvent::Begin);
    assert_eq!(r, (SetupDecision::QueryInstalled, false));
}

#[test]
fn setup_already_installed_is_done() {
    let cache = VersionCache::new();
    let v = Some(version("1.70.0"));
    let r = setup_step(false, &v, &cache, "rust", SetupEvent::InstallState { already: true });
    assert_eq!(r, (SetupDecision::Done, false));
    let r = setup_step(false, &v, &cache, "rust", SetupEvent::InstallState { already: false });
    assert_eq!(r, (SetupDecision::QueryConnectivity, false));
}

#[test]
fn setup_offline_falls_back_to_global() {
    let cache = VersionCache::new();
    let v = Some(version("1.70.0"));
    let r = setup_step(
        false,
        &v,
        &cache,
        "rust",
        SetupEvent::Connectivity { online: false, tool_dir_exists: true },
    );
    assert_eq!(r, (SetupDecision::UseGlobal, false));
}

#[test]
fn setup_cache_hit_with_tool_dir_skips_install() {
    let mut cache = VersionCache::new();
    cache.record("rust", version("1.70.0"));
    let v = Some(version("1.70.0"));
    let r = setup_step(
        false,
        &v,
        &cache,
        "rust",
        SetupEvent::Connectivity { online: true, tool_dir_exists: true },
    );
    assert_eq!(r, (SetupDecision::Done, false));
}

#[test]
fn setup_cache_miss_installs() {
    let cache = VersionCache::new();
    let v = Some(version("1.70.0"));
    let r = setup_step(
        false,
        &v,
        &cache,
        "rust",
        SetupEvent::Connectivity { online: true, tool_dir_exists: true },
    );
    assert_eq!(r, (SetupDecision::Install, false));
}

#[test]
fn setup_version_change_installs() {
    let mut cache = VersionCache::new();
    cache.record("rust", version("1.69.0"));
    let v = Some(version("1.70.0"));
    let r = setup_step(
        false,
        &v,
        &cache,
        "rust",
        SetupEvent::Connectivity { online: true, tool_dir_exists: true },
    );
    assert_eq!(r, (SetupDecision::Install, false));
}

#[test]
fn setup_missing_tool_dir_installs_despite_cache() {
    let mut cache = VersionCache::new();
    cache.record("rust", version("1.70.0"));
    let v = Some(version("1.70.0"));
    let r = setup_step(
        false,
        &v,
        &cache,
        "rust",
        SetupEvent::Connectivity { online: true, tool_dir_exists: false },
    );
    assert_eq!(r, (SetupDecision::Install, false));
}

#[test]
fn setup_records_version_only_on_actual_install() {
    let cache = VersionCache::new();
    let v = Some(version("1.70.0"));
    let r = setup_step(false, &v, &cache, "rust", SetupEvent::InstallOutcome { changed: true });
    assert_eq!(r, (SetupDecision::Done, true));
    let r = setup_step(false, &v, &cache, "rust", SetupEvent::InstallOutcome { changed: false });
    assert_eq!(r, (SetupDecision::Done, false));
}

#[test]
fn version_cache_remembers_last_recorded() {
    let mut cache = VersionCache::new();
    assert!(cache.last_for("rust").is_none());
    cache.record("rust", version("1.69.0"));
    cache.record("rust", version("1.70.0"));
    assert_eq!(cache.last_for("rust").unwrap().raw, "1.70.0");
    assert!(cache.last_for("node").is_none());
}

#[test]
fn tool_mode_goes_global_when_asked() {
    let (global, spec) = resolve_tool_mode(true, false, Some(version("1.70.0")));
    assert!(global);
    assert!(spec.is_none());
    let (global, spec) = resolve_tool_mode(false, true, Some(version("1.70.0")));
    assert!(global);
    assert!(spec.is_none());
    let (global, spec) = resolve_tool_mode(false, false, Some(version("1.70.0")));
    assert!(!global);
    assert_eq!(spec.unwrap().raw, "1.70.0");
}

#[test]
fn rust_env_paths_exact_order() {
    let proto = vec!["/proto/bin".to_string(), "/proto/shims".to_string()];
    let r = get_rust_env_paths(
        proto,
        Some("/custom/install".to_string()),
        Some("/custom/cargo".to_string()),
        "/home/user",
    );
    assert_eq!(
        r,
        vec![
            "/proto/bin".to_string(),
            "/proto/shims".to_string(),
            "/custom/install/bin".to_string(),
            "/custom/cargo/bin".to_string(),
            "/home/user/.cargo/bin".to_string(),
        ]
    );
}

#[test]
fn rust_env_paths_without_overrides() {
    let r = get_rust_env_paths(vec!["/proto/bin".to_string()], None, None, "/home/user");
    assert_eq!(r, vec!["/proto/bin".to_string(), "/home/user/.cargo/bin".to_string()]);
}

#[test]
fn cargo_invocation_prepends_paths() {
    let paths = vec!["/a".to_string(), "/b".to_string()];
    let inv = cargo_invocation(
        vec!["build".to_string()],
        &paths,
        Some("/usr/bin:/bin".to_string()),
        "/work",
        Platform::Posix,
    );
    assert_eq!(inv.program, "cargo");
    assert_eq!(inv.args, vec!["build".to_string()]);
    assert_eq!(inv.path_env, "/a:/b:/usr/bin:/bin");
    assert_eq!(inv.cwd, "/work");
}

#[test]
fn rustup_invocation_without_current_path() {
    let paths = vec!["/a".to_string()];
    let inv = rustup_invocation(
        vec!["toolchain".to_string(), "list".to_string()],
        &paths,
        None,
        "/work",
        Platform::Windows,
    );
    assert_eq!(inv.program, "rustup");
    assert_eq!(inv.path_env, "/a");
    let inv = rustup_invocation(vec![], &vec![], Some("C:/old".to_string()), "/w", Platform::Windows);
    assert_eq!(inv.path_env, "C:/old");
}
