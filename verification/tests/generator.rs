use vcs_hooks::engine::Action;
use vcs_hooks::layout::{resolve_layout, Layout, VcsMetadata};
use vcs_hooks::platform::Platform;
use vcs_hooks::state::{HookConfig, HookState, ScriptFile, SlotEntry};

fn layout_for(root: &str) -> Layout {
    resolve_layout(root, &VcsMetadata::Directory).unwrap()
}

fn sample_config() -> HookConfig {
    let mut config = HookConfig::new();
    assert!(config.add(
        "pre-commit",
        vec!["lint".to_string(), "test".to_string()],
    ));
    assert!(config.add("post-push", vec!["notify".to_string()]));
    config
}

fn has_action(actions: &[Action], want: &str) -> bool {
    actions.iter().any(|a| match a {
        Action::CreateLocalDir { path } => path == want,
        Action::WriteScript { path, .. } => path == want,
        Action::WriteSlotLink { path, .. } => path == want,
        Action::WriteSlotFile { path, .. } => path == want,
        Action::RemoveSlot { path } => path == want,
        Action::RemoveScript { path } => path == want,
        Action::RemoveLocalDir { path } => path == want,
    })
}

#[test]
fn doesnt_generate_when_no_hooks() {
    let mut state = HookState::new();
    let config = HookConfig::new();
    let layout = layout_for("/repo");
    let actions = state.generate(&config, Platform::Posix, &layout, true);
    assert!(actions.is_empty());
    assert!(!state.local_dir_exists);
}

#[test]
fn doesnt_generate_when_no_commands() {
    let mut state = HookState::new();
    let mut config = HookConfig::new();
    assert!(config.add("pre-commit", vec![]));
    assert!(config.add("post-push", vec![]));
    let layout = layout_for("/repo");
    let actions = state.generate(&config, Platform::Posix, &layout, true);
    assert!(actions.is_empty());
    assert!(!state.local_dir_exists);
    assert!(state.script_for("pre-commit").is_none());
    assert!(state.script_for("post-push").is_none());
}

#[test]
fn cleans_up_hooks() {
    let mut state = HookState::new();
    let config = sample_config();
    let layout = layout_for("/repo");
    state.generate(&config, Platform::Posix, &layout, true);
    let actions = state.cleanup(Platform::Posix, &layout);
    assert!(has_action(&actions, "/repo/.git/hooks/pre-commit"));
    assert!(has_action(&actions, "/repo/.git/hooks/post-push"));
    assert!(has_action(&actions, "/repo/.toolhooks"));
    assert!(state.script_for("pre-commit").is_none());
    assert!(state.slot_for("pre-commit").is_none());
    assert!(state.slot_for("post-push").is_none());
    assert!(!state.local_dir_exists);
}

#[test]
fn creates_local_hook_files() {
    let mut state = HookState::new();
    let config = sample_config();
    let layout = layout_for("/repo");
    let actions = state.generate(&config, Platform::Posix, &layout, true);
    assert!(has_action(&actions, "/repo/.toolhooks/pre-commit.sh"));
    assert!(has_action(&actions, "/repo/.toolhooks/post-push.sh"));
    let script = state.script_for("pre-commit").unwrap();
    assert!(script.executable);
    let script = state.script_for("post-push").unwrap();
    assert!(script.executable);
}

#[test]
fn links_git_hooks() {
    let mut state = HookState::new();
    let config = sample_config();
    let layout = layout_for("/repo");
    let actions = state.generate(&config, Platform::Posix, &layout, true);
    assert!(has_action(&actions, "/repo/.git/hooks/pre-commit"));
    assert!(has_action(&actions, "/repo/.git/hooks/post-push"));
    match state.slot_for("pre-commit").unwrap() {
        SlotEntry::Link { target } => assert_eq!(target, "/repo/.toolhooks/pre-commit.sh"),
        SlotEntry::File { .. } => panic!("expected a symlink"),
    }
    match state.slot_for("post-push").unwrap() {
        SlotEntry::Link { target } => assert_eq!(target, "/repo/.toolhooks/post-push.sh"),
        SlotEntry::File { .. } => panic!("expected a symlink"),
    }
}

#[test]
fn supports_git_worktrees() {
    let meta = VcsMetadata::RedirectFile {
        content: "gitdir: /repo/.git/worktrees/tree\n".to_string(),
    };
    let layout = resolve_layout("/repo/tree", &meta).unwrap();
    assert_eq!(layout.local_dir, "/repo/tree/.toolhooks");
    assert_eq!(layout.vcs_hooks_dir, "/repo/.git/worktrees/tree/hooks");
    let mut state = HookState::new();
    let config = sample_config();
    let actions = state.generate(&config, Platform::Posix, &layout, true);
    assert!(has_action(&actions, "/repo/tree/.toolhooks/pre-commit.sh"));
    assert!(has_action(&actions, "/repo/tree/.toolhooks/post-push.sh"));
    assert!(has_action(&actions, "/repo/.git/worktrees/tree/hooks/pre-commit"));
    assert!(has_action(&actions, "/repo/.git/worktrees/tree/hooks/post-push"));
}

#[test]
fn hooks_generator_test_creates_local_hook_files() {
    let mut state = HookState::new();
    let config = sample_config();
    let layout = layout_for("/repo");
    let actions = state.generate(&config, Platform::Windows, &layout, false);
    assert!(has_action(&actions, "/repo/.toolhooks/pre-commit.ps1"));
    assert!(has_action(&actions, "/repo/.toolhooks/post-push.ps1"));
    let script = state.script_for("pre-commit").unwrap();
    assert!(!script.executable);
}

#[test]
fn hooks_generator_test_links_git_hooks() {
    let mut state = HookState::new();
    let config = sample_config();
    let layout = layout_for("/repo");
    let actions = state.generate(&config, Platform::Windows, &layout, false);
    assert!(has_action(&actions, "/repo/.git/hooks/pre-commit"));
    assert!(has_action(&actions, "/repo/.git/hooks/post-push"));
    match state.slot_for("pre-commit").unwrap() {
        SlotEntry::File { content } => assert_eq!(
            content,
            "#!/bin/sh\n\
             # Automatically generated by the hooks manager. Do not edit!\n\
             powershell.exe -NoProfile -ExecutionPolicy Bypass -File \
             \"/repo/.toolhooks/pre-commit.ps1\" || exit $?\n"
        ),
        SlotEntry::Link { .. } => panic!("expected a shim file without symlink support"),
    }
}

#[test]
fn round_trip_restores_fresh_state() {
    let mut state = HookState::new();
    let config = sample_config();
    let layout = layout_for("/repo");
    let generated = state.generate(&config, Platform::Posix, &layout, true);
    assert!(has_action(&generated, "/repo/.toolhooks"));
    assert!(has_action(&generated, "/repo/.toolhooks/pre-commit.sh"));
    assert!(has_action(&generated, "/repo/.toolhooks/post-push.sh"));
    assert!(has_action(&generated, "/repo/.git/hooks/pre-commit"));
    assert!(has_action(&generated, "/repo/.git/hooks/post-push"));
    let removed = state.cleanup(Platform::Posix, &layout);
    assert!(has_action(&removed, "/repo/.toolhooks/pre-commit.sh"));
    assert!(has_action(&removed, "/repo/.toolhooks/post-push.sh"));
    assert!(has_action(&removed, "/repo/.git/hooks/pre-commit"));
    assert!(has_action(&removed, "/repo/.git/hooks/post-push"));
    assert!(has_action(&removed, "/repo/.toolhooks"));
    assert!(!state.local_dir_exists);
    assert!(!state.stray_local_files);
    assert!(state.script_for("pre-commit").is_none());
    assert!(state.script_for("post-push").is_none());
    assert!(state.slot_for("pre-commit").is_none());
    assert!(state.slot_for("post-push").is_none());
}

#[test]
fn round_trip_keeps_user_hook_in_place() {
    // The round trip is the identity even when a user-owned hook occupies
    // an active slot: generate skips it, cleanup leaves it.
    let mut state = HookState::new();
    state.record_slot(
        "pre-commit",
        SlotEntry::File { content: "#!/bin/sh\nexit 1\n".to_string() },
    );
    let config = sample_config();
    let layout = layout_for("/repo");
    state.generate(&config, Platform::Posix, &layout, true);
    state.cleanup(Platform::Posix, &layout);
    assert!(!state.local_dir_exists);
    assert!(state.script_for("pre-commit").is_none());
    assert!(state.script_for("post-push").is_none());
    assert!(state.slot_for("post-push").is_none());
    match state.slot_for("pre-commit").unwrap() {
        SlotEntry::File { content } => assert_eq!(content, "#!/bin/sh\nexit 1\n"),
        SlotEntry::Link { .. } => panic!("user hook was replaced"),
    }
}

#[test]
fn generate_twice_gives_same_state() {
    let mut once = HookState::new();
    let mut twice = HookState::new();
    let config = sample_config();
    let layout = layout_for("/repo");
    once.generate(&config, Platform::Posix, &layout, true);
    twice.generate(&config, Platform::Posix, &layout, true);
    twice.generate(&config, Platform::Posix, &layout, true);
    assert_eq!(once.local_dir_exists, twice.local_dir_exists);
    for event in ["pre-commit", "post-push"] {
        let a = once.script_for(event).unwrap();
        let b = twice.script_for(event).unwrap();
        assert_eq!(a.content, b.content);
        assert_eq!(a.executable, b.executable);
        match (once.slot_for(event).unwrap(), twice.slot_for(event).unwrap()) {
            (SlotEntry::Link { target: ta }, SlotEntry::Link { target: tb }) => {
                assert_eq!(ta, tb)
            },
            _ => panic!("expected symlinks on both runs"),
        }
    }
}

#[test]
fn cleanup_twice_is_noop_second_time() {
    let mut state = HookState::new();
    let config = sample_config();
    let layout = layout_for("/repo");
    state.generate(&config, Platform::Posix, &layout, true);
    let first = state.cleanup(Platform::Posix, &layout);
    assert!(!first.is_empty());
    let second = state.cleanup(Platform::Posix, &layout);
    assert!(second.is_empty());
}

#[test]
fn cleanup_on_fresh_state_is_noop() {
    let mut state = HookState::new();
    let layout = layout_for("/repo");
    let actions = state.cleanup(Platform::Posix, &layout);
    assert!(actions.is_empty());
}

#[test]
fn skips_user_owned_hook_slot() {
    let mut state = HookState::new();
    state.record_slot(
        "pre-commit",
        SlotEntry::File { content: "#!/bin/sh\nexit 1\n".to_string() },
    );
    let config = sample_config();
    let layout = layout_for("/repo");
    let actions = state.generate(&config, Platform::Posix, &layout, true);
    // The user's hook is left in place; its script is still rendered.
    assert!(!has_action(&actions, "/repo/.git/hooks/pre-commit"));
    assert!(has_action(&actions, "/repo/.toolhooks/pre-commit.sh"));
    match state.slot_for("pre-commit").unwrap() {
        SlotEntry::File { content } => assert_eq!(content, "#!/bin/sh\nexit 1\n"),
        SlotEntry::Link { .. } => panic!("user hook was overwritten"),
    }
    // The other event is wired normally.
    assert!(has_action(&actions, "/repo/.git/hooks/post-push"));
    let removed = state.cleanup(Platform::Posix, &layout);
    assert!(!has_action(&removed, "/repo/.git/hooks/pre-commit"));
    assert!(has_action(&removed, "/repo/.git/hooks/post-push"));
    match state.slot_for("pre-commit").unwrap() {
        SlotEntry::File { content } => assert_eq!(content, "#!/bin/sh\nexit 1\n"),
        SlotEntry::Link { .. } => panic!("user hook was replaced"),
    }
}

#[test]
fn cleanup_is_driven_by_store_not_config() {
    // Scripts observed on disk are removed even when the configuration
    // has changed since they were generated.
    let mut state = HookState::new();
    state.local_dir_exists = true;
    state.record_script(
        "old-event",
        ScriptFile { content: "#!/bin/sh\nwhatever\n".to_string(), executable: true },
    );
    state.record_slot(
        "old-event",
        SlotEntry::Link { target: "/repo/.toolhooks/old-event.sh".to_string() },
    );
    let layout = layout_for("/repo");
    let actions = state.cleanup(Platform::Posix, &layout);
    assert!(has_action(&actions, "/repo/.toolhooks/old-event.sh"));
    assert!(has_action(&actions, "/repo/.git/hooks/old-event"));
    assert!(has_action(&actions, "/repo/.toolhooks"));
    assert!(state.script_for("old-event").is_none());
    assert!(state.slot_for("old-event").is_none());
    assert!(!state.local_dir_exists);
}

#[test]
fn keeps_directory_with_stray_files() {
    let mut state = HookState::new();
    let config = sample_config();
    let layout = layout_for("/repo");
    state.generate(&config, Platform::Posix, &layout, true);
    state.stray_local_files = true;
    let removed = state.cleanup(Platform::Posix, &layout);
    assert!(!has_action(&removed, "/repo/.toolhooks"));
    assert!(state.local_dir_exists);
}
