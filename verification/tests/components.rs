use vcs_hooks::layout::{parse_gitdir, resolve_layout, HookError, VcsMetadata};
use vcs_hooks::platform::Platform;
use vcs_hooks::render::{is_tool_content, render_hook, render_shim};
use vcs_hooks::state::HookConfig;
use vcs_hooks::text::{contains_str, starts_with_str, str_eq};

#[test]
fn renders_posix_script_exactly() {
    let commands = vec!["lint".to_string(), "test".to_string()];
    let script = render_hook("pre-commit", &commands, Platform::Posix);
    assert_eq!(
        script,
        "#!/bin/sh\n\
         # Automatically generated by the hooks manager. Do not edit!\n\
         # hook: pre-commit\n\
         \n\
         lint || exit $?\n\
         test || exit $?\n"
    );
}

#[test]
fn renders_windows_script_exactly() {
    let commands = vec!["notify".to_string()];
    let script = render_hook("post-push", &commands, Platform::Windows);
    assert_eq!(
        script,
        "# Automatically generated by the hooks manager. Do not edit!\n\
         # hook: post-push\n\
         \n\
         notify\n\
         if ($LASTEXITCODE -ne 0) { exit $LASTEXITCODE }\n"
    );
}

#[test]
fn renders_posix_shim_exactly() {
    let shim = render_shim("/repo/.toolhooks/pre-commit.sh", Platform::Posix);
    assert_eq!(
        shim,
        "#!/bin/sh\n\
         # Automatically generated by the hooks manager. Do not edit!\n\
         \"/repo/.toolhooks/pre-commit.sh\" \"$@\" || exit $?\n"
    );
}

#[test]
fn renders_windows_shim_exactly() {
    let shim = render_shim("/repo/.toolhooks/pre-commit.ps1", Platform::Windows);
    assert_eq!(
        shim,
        "#!/bin/sh\n\
         # Automatically generated by the hooks manager. Do not edit!\n\
         powershell.exe -NoProfile -ExecutionPolicy Bypass -File \
         \"/repo/.toolhooks/pre-commit.ps1\" || exit $?\n"
    );
}

#[test]
fn detects_ownership_marker() {
    let commands = vec!["lint".to_string()];
    let script = render_hook("pre-commit", &commands, Platform::Posix);
    assert!(is_tool_content(&script));
    let shim = render_shim("/repo/.toolhooks/pre-commit.sh", Platform::Windows);
    assert!(is_tool_content(&shim));
    assert!(!is_tool_content("#!/bin/sh\nexit 1\n"));
    assert!(!is_tool_content(""));
}

#[test]
fn resolves_normal_checkout_layout() {
    let layout = resolve_layout("/repo", &VcsMetadata::Directory).unwrap();
    assert_eq!(layout.local_dir, "/repo/.toolhooks");
    assert_eq!(layout.vcs_hooks_dir, "/repo/.git/hooks");
}

#[test]
fn rejects_malformed_worktree_redirect() {
    let meta = VcsMetadata::RedirectFile { content: "not a redirect".to_string() };
    match resolve_layout("/repo/tree", &meta) {
        Err(HookError::MalformedWorktreeRedirect) => {},
        Ok(_) => panic!("malformed redirect was accepted"),
    }
}

#[test]
fn parses_gitdir_redirects() {
    assert_eq!(
        parse_gitdir("gitdir: /repo/.git/worktrees/tree\n").as_deref(),
        Some("/repo/.git/worktrees/tree")
    );
    assert_eq!(
        parse_gitdir("gitdir: /repo/.git/worktrees/tree").as_deref(),
        Some("/repo/.git/worktrees/tree")
    );
    assert_eq!(parse_gitdir("gitdir:/no/space"), None);
    assert_eq!(parse_gitdir(""), None);
    assert_eq!(parse_gitdir("gitdir: ").as_deref(), Some(""));
}

#[test]
fn string_helpers_behave() {
    assert!(str_eq("pre-commit", "pre-commit"));
    assert!(!str_eq("pre-commit", "pre-push"));
    assert!(starts_with_str("gitdir: /x", "gitdir: "));
    assert!(!starts_with_str("git", "gitdir: "));
    assert!(contains_str("abc def ghi", "def"));
    assert!(!contains_str("abc", "abcd"));
    assert!(contains_str("anything", ""));
}

#[test]
fn config_rejects_empty_and_duplicate_events() {
    let mut config = HookConfig::new();
    assert!(!config.add("", vec!["x".to_string()]));
    assert!(config.add("pre-commit", vec!["lint".to_string()]));
    assert!(!config.add("pre-commit", vec!["test".to_string()]));
    assert_eq!(config.entries.len(), 1);
}
