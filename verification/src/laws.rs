//! The guarantees the generator gives as proved statements: doing
//! nothing on an empty configuration, restoring a clean filesystem after
//! a generate/cleanup round trip, idempotence of both operations, and
//! never touching a hook the user owns.

use vstd::prelude::*;
use crate::engine::{
    spec_cleanup, spec_cleanup_actions, spec_cleanup_removed, spec_gen_actions, spec_gen_one,
    spec_gen_one_actions, spec_generate, spec_new_slot, spec_script, spec_slot_owned,
    spec_slot_writable, ActionView,
};
use crate::layout::{spec_script_path, spec_slot_path, LayoutView};
use crate::text::is_prefix_of;
use crate::platform::Platform;
use crate::render::lemma_shim_has_marker;
use crate::state::{config_wf, HookStateView, ScriptFileView};

verus! {

/// Some configured event has at least one command.
pub open spec fn cfg_any_commands(cfg: Seq<(Seq<char>, Seq<Seq<char>>)>) -> bool {
    exists|i: int| 0 <= i < cfg.len() && cfg[i].1.len() > 0
}

/// `e` is a configured event with at least one command.
pub open spec fn cfg_active_event(cfg: Seq<(Seq<char>, Seq<Seq<char>>)>, e: Seq<char>) -> bool {
    exists|i: int| 0 <= i < cfg.len() && cfg[i].0 == e && cfg[i].1.len() > 0
}

/// What `spec_generate` does, key by key: scripts of active events are
/// (re)placed, writable slots of active events are wired, and everything
/// else — every other script, every other slot, in particular every slot
/// this tool cannot prove it owns — is exactly as before.
pub open spec fn gen_characterized(
    s: HookStateView,
    cfg: Seq<(Seq<char>, Seq<Seq<char>>)>,
    p: Platform,
    layout: LayoutView,
    symlinks: bool,
    g: HookStateView,
) -> bool {
    &&& g.stray_local_files == s.stray_local_files
    &&& g.local_dir_exists == (s.local_dir_exists || cfg_any_commands(cfg))
    &&& forall|i: int|
        0 <= i < cfg.len() && (#[trigger] cfg[i]).1.len() > 0 ==> g.scripts.contains_key(cfg[i].0)
            && g.scripts[cfg[i].0] == spec_script(cfg[i].0, cfg[i].1, p)
    &&& forall|e: Seq<char>|
        !(#[trigger] cfg_active_event(cfg, e)) ==> g.scripts.contains_key(e)
            == s.scripts.contains_key(e) && (s.scripts.contains_key(e) ==> g.scripts[e]
            == s.scripts[e])
    &&& forall|i: int|
        0 <= i < cfg.len() && (#[trigger] cfg[i]).1.len() > 0 && spec_slot_writable(
            s.slots,
            cfg[i].0,
            spec_script_path(layout, cfg[i].0, p),
        ) ==> g.slots.contains_key(cfg[i].0) && g.slots[cfg[i].0] == spec_new_slot(
            symlinks,
            p,
            spec_script_path(layout, cfg[i].0, p),
        )
    &&& forall|i: int|
        0 <= i < cfg.len() && (#[trigger] cfg[i]).1.len() > 0 && !spec_slot_writable(
            s.slots,
            cfg[i].0,
            spec_script_path(layout, cfg[i].0, p),
        ) ==> g.slots.contains_key(cfg[i].0) && g.slots[cfg[i].0] == s.slots[cfg[i].0]
    &&& forall|e: Seq<char>|
        !(#[trigger] cfg_active_event(cfg, e)) ==> g.slots.contains_key(e)
            == s.slots.contains_key(e) && (s.slots.contains_key(e) ==> g.slots[e] == s.slots[e])
}

/// `spec_generate` satisfies its key-by-key characterization whenever
/// event names are unique.
pub proof fn lemma_generate_characterization(
    s: HookStateView,
    cfg: Seq<(Seq<char>, Seq<Seq<char>>)>,
    p: Platform,
    layout: LayoutView,
    symlinks: bool,
)
    requires
        config_wf(cfg),
    ensures
        gen_characterized(s, cfg, p, layout, symlinks, spec_generate(s, cfg, p, layout, symlinks)),
    decreases cfg.len(),
{
    if cfg.len() == 0 {
        assert(!cfg_any_commands(cfg));
        assert(forall|e: Seq<char>| !cfg_active_event(cfg, e));
    } else {
        let dl = cfg.drop_last();
        let x = cfg.last();
        assert(forall|i: int| 0 <= i < dl.len() ==> dl[i] == cfg[i]);
        assert(config_wf(dl));
        lemma_generate_characterization(s, dl, p, layout, symlinks);
        let gp = spec_generate(s, dl, p, layout, symlinks);
        let g = spec_gen_one(gp, x.0, x.1, p, layout, symlinks);
        assert(g == spec_generate(s, cfg, p, layout, symlinks));

        // How activity in `cfg` relates to activity in its prefix.
        assert forall|e: Seq<char>| #[trigger]
            cfg_active_event(cfg, e) implies (cfg_active_event(dl, e) || (e == x.0 && x.1.len()
            > 0)) by {
            let i = choose|i: int| 0 <= i < cfg.len() && cfg[i].0 == e && cfg[i].1.len() > 0;
            if i < cfg.len() - 1 {
                assert(dl[i] == cfg[i]);
                assert(cfg_active_event(dl, e));
            }
        }
        assert forall|e: Seq<char>| #[trigger]
            cfg_active_event(dl, e) implies cfg_active_event(cfg, e) by {
            let i = choose|i: int| 0 <= i < dl.len() && dl[i].0 == e && dl[i].1.len() > 0;
            assert(cfg[i].0 == e && cfg[i].1.len() > 0);
        }
        if cfg_any_commands(dl) {
            let i = choose|i: int| 0 <= i < dl.len() && dl[i].1.len() > 0;
            assert(cfg[i].1.len() > 0);
            assert(cfg_any_commands(cfg));
        }
        if x.1.len() > 0 {
            assert(cfg[cfg.len() - 1].1.len() > 0);
            assert(cfg_any_commands(cfg));
        }
        if cfg_any_commands(cfg) && !cfg_any_commands(dl) && x.1.len() == 0 {
            let i = choose|i: int| 0 <= i < cfg.len() && cfg[i].1.len() > 0;
            assert(i < cfg.len() - 1 ==> dl[i].1.len() > 0);
            assert(false);
        }

        // The last event's name appears nowhere in the prefix.
        assert(forall|i: int| 0 <= i < dl.len() ==> dl[i].0 != x.0);
        assert(!cfg_active_event(dl, x.0));

        if x.1.len() > 0 {
            // The prefix left the last event's slot and script alone.
            assert(gp.slots.contains_key(x.0) == s.slots.contains_key(x.0));
            assert(s.slots.contains_key(x.0) ==> gp.slots[x.0] == s.slots[x.0]);
            assert(spec_slot_writable(gp.slots, x.0, spec_script_path(layout, x.0, p))
                == spec_slot_writable(s.slots, x.0, spec_script_path(layout, x.0, p)));
        }

        // Keys outside the active events are untouched.
        assert forall|e: Seq<char>|
            !(#[trigger] cfg_active_event(cfg, e)) implies g.scripts.contains_key(e)
            == s.scripts.contains_key(e) && (s.scripts.contains_key(e) ==> g.scripts[e]
            == s.scripts[e]) by {
            assert(!cfg_active_event(dl, e));
            if x.1.len() > 0 {
                assert(cfg[cfg.len() - 1].0 == x.0 && cfg[cfg.len() - 1].1.len() > 0);
                assert(cfg_active_event(cfg, x.0));
                assert(e != x.0);
            }
        }
        assert forall|e: Seq<char>|
            !(#[trigger] cfg_active_event(cfg, e)) implies g.slots.contains_key(e)
            == s.slots.contains_key(e) && (s.slots.contains_key(e) ==> g.slots[e]
            == s.slots[e]) by {
            assert(!cfg_active_event(dl, e));
            if x.1.len() > 0 {
                assert(cfg[cfg.len() - 1].0 == x.0 && cfg[cfg.len() - 1].1.len() > 0);
                assert(cfg_active_event(cfg, x.0));
                assert(e != x.0);
            }
        }

        // Transfer each per-index claim from the prefix to `cfg`.
        assert forall|i: int|
            0 <= i < cfg.len() && (#[trigger] cfg[i]).1.len() > 0 implies g.scripts.contains_key(
            cfg[i].0,
        ) && g.scripts[cfg[i].0] == spec_script(cfg[i].0, cfg[i].1, p) by {
            if i < cfg.len() - 1 {
                assert(dl[i] == cfg[i]);
                assert(cfg[i].0 != x.0);
            }
        }
        assert forall|i: int|
            0 <= i < cfg.len() && (#[trigger] cfg[i]).1.len() > 0 && spec_slot_writable(
                s.slots,
                cfg[i].0,
                spec_script_path(layout, cfg[i].0, p),
            ) implies g.slots.contains_key(cfg[i].0) && g.slots[cfg[i].0] == spec_new_slot(
            symlinks,
            p,
            spec_script_path(layout, cfg[i].0, p),
        ) by {
            if i < cfg.len() - 1 {
                assert(dl[i] == cfg[i]);
                assert(cfg[i].0 != x.0);
            }
        }
        assert forall|i: int|
            0 <= i < cfg.len() && (#[trigger] cfg[i]).1.len() > 0 && !spec_slot_writable(
                s.slots,
                cfg[i].0,
                spec_script_path(layout, cfg[i].0, p),
            ) implies g.slots.contains_key(cfg[i].0) && g.slots[cfg[i].0] == s.slots[cfg[i].0] by {
            if i < cfg.len() - 1 {
                assert(dl[i] == cfg[i]);
                assert(cfg[i].0 != x.0);
            }
        }
    }
}

/// A configuration in which every event has zero commands generates
/// nothing: the state is untouched and no filesystem action is issued —
/// in particular, the tool-owned directory is not created.
pub proof fn lemma_generate_all_empty(
    s: HookStateView,
    cfg: Seq<(Seq<char>, Seq<Seq<char>>)>,
    p: Platform,
    layout: LayoutView,
    symlinks: bool,
)
    requires
        forall|i: int| 0 <= i < cfg.len() ==> (#[trigger] cfg[i]).1.len() == 0,
    ensures
        spec_generate(s, cfg, p, layout, symlinks) == s,
        spec_gen_actions(s, cfg, p, layout, symlinks) == Seq::<ActionView>::empty(),
    decreases cfg.len(),
{
    if cfg.len() > 0 {
        let dl = cfg.drop_last();
        assert(forall|i: int| 0 <= i < dl.len() ==> (#[trigger] dl[i]) == cfg[i]);
        lemma_generate_all_empty(s, dl, p, layout, symlinks);
        assert(cfg.last().1.len() == 0);
        assert(spec_gen_one_actions(s, cfg.last().0, cfg.last().1, p, layout, symlinks)
            =~= Seq::<ActionView>::empty());
        assert(spec_gen_actions(s, cfg, p, layout, symlinks) =~= Seq::<ActionView>::empty());
    }
}

/// Generating is idempotent: running `generate` a second time with the
/// same configuration leaves the state exactly as after the first run.
pub proof fn lemma_generate_idempotent(
    s: HookStateView,
    cfg: Seq<(Seq<char>, Seq<Seq<char>>)>,
    p: Platform,
    layout: LayoutView,
    symlinks: bool,
)
    requires
        config_wf(cfg),
    ensures
        spec_generate(spec_generate(s, cfg, p, layout, symlinks), cfg, p, layout, symlinks)
            == spec_generate(s, cfg, p, layout, symlinks),
{
    let g1 = spec_generate(s, cfg, p, layout, symlinks);
    let g2 = spec_generate(g1, cfg, p, layout, symlinks);
    lemma_generate_characterization(s, cfg, p, layout, symlinks);
    lemma_generate_characterization(g1, cfg, p, layout, symlinks);
    assert forall|e: Seq<char>|
        #[trigger] g2.scripts.contains_key(e) == g1.scripts.contains_key(e) && (
        g1.scripts.contains_key(e) ==> g2.scripts[e] == g1.scripts[e]) by {
        if cfg_active_event(cfg, e) {
            let i = choose|i: int| 0 <= i < cfg.len() && cfg[i].0 == e && cfg[i].1.len() > 0;
            assert(g1.scripts[cfg[i].0] == spec_script(cfg[i].0, cfg[i].1, p));
            assert(g2.scripts[cfg[i].0] == spec_script(cfg[i].0, cfg[i].1, p));
        }
    }
    assert forall|e: Seq<char>|
        #[trigger] g2.slots.contains_key(e) == g1.slots.contains_key(e) && (
        g1.slots.contains_key(e) ==> g2.slots[e] == g1.slots[e]) by {
        if cfg_active_event(cfg, e) {
            let i = choose|i: int| 0 <= i < cfg.len() && cfg[i].0 == e && cfg[i].1.len() > 0;
            let t = spec_script_path(layout, e, p);
            if spec_slot_writable(s.slots, e, t) {
                assert(g1.slots[e] == spec_new_slot(symlinks, p, t));
                if !symlinks {
                    lemma_shim_has_marker(t, p);
                }
                assert(spec_slot_owned(g1.slots[e], t));
                assert(spec_slot_writable(g1.slots, e, t));
                assert(g2.slots[e] == spec_new_slot(symlinks, p, t));
            } else {
                assert(g1.slots.contains_key(e) && g1.slots[e] == s.slots[e]);
                assert(!spec_slot_writable(g1.slots, e, t));
                assert(g2.slots[e] == g1.slots[e]);
            }
        }
    }
    assert(g2.scripts =~= g1.scripts);
    assert(g2.slots =~= g1.slots);
}

/// Cleaning up twice is the same as cleaning up once: the second call
/// finds nothing of ours and is a no-op.
pub proof fn lemma_cleanup_idempotent(s: HookStateView, layout: LayoutView, p: Platform)
    ensures
        spec_cleanup(spec_cleanup(s, layout, p), layout, p) == spec_cleanup(s, layout, p),
{
    let c1 = spec_cleanup(s, layout, p);
    assert(spec_cleanup_removed(c1, layout, p) =~= Set::<Seq<char>>::empty());
    assert(c1.slots.remove_keys(Set::<Seq<char>>::empty()) =~= c1.slots);
}

/// A `cleanup` of a state that holds no scripts and no removable
/// directory issues no action at all: the second of two consecutive
/// cleanups does nothing.
pub proof fn lemma_cleanup_noop_when_clean(
    s: HookStateView,
    pairs: Seq<(Seq<char>, ScriptFileView)>,
    layout: LayoutView,
    p: Platform,
)
    requires
        pairs.len() == 0,
        s.local_dir_exists ==> s.stray_local_files,
    ensures
        spec_cleanup_actions(s, pairs, layout, p) == Seq::<ActionView>::empty(),
{
    assert(spec_cleanup_actions(s, pairs, layout, p) =~= Seq::<ActionView>::empty());
}

/// Round trip: from a filesystem with nothing generated — no tool-owned
/// directory, no stored scripts, and no occupied slot for any active
/// event — `generate` followed by `cleanup` restores the state exactly.
pub proof fn lemma_generate_cleanup_round_trip(
    s: HookStateView,
    cfg: Seq<(Seq<char>, Seq<Seq<char>>)>,
    p: Platform,
    layout: LayoutView,
    symlinks: bool,
)
    requires
        config_wf(cfg),
        !s.local_dir_exists,
        !s.stray_local_files,
        s.scripts == Map::<Seq<char>, ScriptFileView>::empty(),
        forall|i: int|
            0 <= i < cfg.len() && (#[trigger] cfg[i]).1.len() > 0 && s.slots.contains_key(
                cfg[i].0,
            ) ==> !spec_slot_owned(
                s.slots[cfg[i].0],
                spec_script_path(layout, cfg[i].0, p),
            ),
    ensures
        spec_cleanup(spec_generate(s, cfg, p, layout, symlinks), layout, p) == s,
{
    let g = spec_generate(s, cfg, p, layout, symlinks);
    let c = spec_cleanup(g, layout, p);
    lemma_generate_characterization(s, cfg, p, layout, symlinks);
    assert(c.scripts =~= s.scripts);
    assert(c.local_dir_exists == s.local_dir_exists);
    let removed = spec_cleanup_removed(g, layout, p);
    assert forall|e: Seq<char>|
        #[trigger] c.slots.contains_key(e) == s.slots.contains_key(e) && (s.slots.contains_key(e)
            ==> c.slots[e] == s.slots[e]) by {
        if cfg_active_event(cfg, e) {
            let i = choose|i: int| 0 <= i < cfg.len() && cfg[i].0 == e && cfg[i].1.len() > 0;
            let t = spec_script_path(layout, e, p);
            if s.slots.contains_key(e) {
                // A hook the user owns: generate skipped it, cleanup keeps it.
                assert(!spec_slot_writable(s.slots, e, t));
                assert(g.slots.contains_key(e) && g.slots[e] == s.slots[e]);
                assert(!spec_slot_owned(g.slots[e], t));
                assert(!removed.contains(e));
                assert(c.slots[e] == s.slots[e]);
            } else {
                assert(spec_slot_writable(s.slots, e, t));
                assert(g.slots[e] == spec_new_slot(symlinks, p, t));
                if !symlinks {
                    lemma_shim_has_marker(t, p);
                }
                assert(spec_slot_owned(g.slots[e], t));
                assert(g.scripts.contains_key(e));
                assert(removed.contains(e));
                assert(!c.slots.contains_key(e));
            }
        } else {
            assert(g.slots.contains_key(e) == s.slots.contains_key(e));
            if g.scripts.contains_key(e) {
                assert(s.scripts.contains_key(e));
                assert(false);
            }
            assert(!removed.contains(e));
        }
    }
    assert(c.slots =~= s.slots);
}

/// Ownership safety: a hook slot this tool cannot prove it owns is never
/// overwritten by `generate` and never deleted by `cleanup`, while every
/// active event still gets its script.
pub proof fn lemma_foreign_slot_untouched(
    s: HookStateView,
    cfg: Seq<(Seq<char>, Seq<Seq<char>>)>,
    p: Platform,
    layout: LayoutView,
    symlinks: bool,
    e: Seq<char>,
)
    requires
        config_wf(cfg),
        s.slots.contains_key(e),
        !spec_slot_owned(s.slots[e], spec_script_path(layout, e, p)),
    ensures
        spec_generate(s, cfg, p, layout, symlinks).slots.contains_key(e),
        spec_generate(s, cfg, p, layout, symlinks).slots[e] == s.slots[e],
        spec_cleanup(s, layout, p).slots.contains_key(e),
        spec_cleanup(s, layout, p).slots[e] == s.slots[e],
        spec_cleanup(spec_generate(s, cfg, p, layout, symlinks), layout, p).slots.contains_key(e),
        spec_cleanup(spec_generate(s, cfg, p, layout, symlinks), layout, p).slots[e] == s.slots[e],
        forall|i: int|
            0 <= i < cfg.len() && (#[trigger] cfg[i]).1.len() > 0 ==> spec_generate(
                s,
                cfg,
                p,
                layout,
                symlinks,
            ).scripts.contains_key(cfg[i].0),
{
    let g = spec_generate(s, cfg, p, layout, symlinks);
    lemma_generate_characterization(s, cfg, p, layout, symlinks);
    let t = spec_script_path(layout, e, p);
    if cfg_active_event(cfg, e) {
        let i = choose|i: int| 0 <= i < cfg.len() && cfg[i].0 == e && cfg[i].1.len() > 0;
        assert(!spec_slot_writable(s.slots, e, t));
        assert(g.slots[cfg[i].0] == s.slots[cfg[i].0]);
    }
    assert(g.slots.contains_key(e) && g.slots[e] == s.slots[e]);
    assert(!spec_cleanup_removed(s, layout, p).contains(e));
    assert(!spec_cleanup_removed(g, layout, p).contains(e));
}

/// Where one generation action is allowed to land: directory creation
/// names the tool-owned directory itself, script writes stay inside it,
/// and slot writes stay inside the resolved VCS hook directory. Nothing
/// else is ever written by `generate`.
pub open spec fn placed_correctly(a: ActionView, local_dir: Seq<char>, vcs_dir: Seq<char>) -> bool {
    match a {
        ActionView::CreateLocalDir { path } => path == local_dir,
        ActionView::WriteScript { path, .. } => is_prefix_of(local_dir + "/"@, path),
        ActionView::WriteSlotLink { path, .. } => is_prefix_of(vcs_dir + "/"@, path),
        ActionView::WriteSlotFile { path, .. } => is_prefix_of(vcs_dir + "/"@, path),
        ActionView::RemoveSlot { .. } => false,
        ActionView::RemoveScript { .. } => false,
        ActionView::RemoveLocalDir { .. } => false,
    }
}

/// Every action of `generate` lands where the layout says: scripts under
/// the tool-owned directory at the resolved (worktree) root, slot writes
/// under the hook directory the VCS consults — for a linked worktree the
/// shared directory its redirect names, never the worktree's own
/// metadata entry.
pub proof fn lemma_generate_actions_placement(
    s: HookStateView,
    cfg: Seq<(Seq<char>, Seq<Seq<char>>)>,
    p: Platform,
    layout: LayoutView,
    symlinks: bool,
)
    ensures
        forall|k: int|
            0 <= k < spec_gen_actions(s, cfg, p, layout, symlinks).len() ==> placed_correctly(
                spec_gen_actions(s, cfg, p, layout, symlinks)[k],
                layout.local_dir,
                layout.vcs_hooks_dir,
            ),
    decreases cfg.len(),
{
    if cfg.len() > 0 {
        let dl = cfg.drop_last();
        let x = cfg.last();
        lemma_generate_actions_placement(s, dl, p, layout, symlinks);
        let acts = spec_gen_actions(s, cfg, p, layout, symlinks);
        let prev = spec_gen_actions(s, dl, p, layout, symlinks);
        let gp = spec_generate(s, dl, p, layout, symlinks);
        let one = spec_gen_one_actions(gp, x.0, x.1, p, layout, symlinks);
        if x.1.len() > 0 {
            let t = spec_script_path(layout, x.0, p);
            assert(t.subrange(0, (layout.local_dir + "/"@).len() as int) =~= layout.local_dir
                + "/"@);
            assert(is_prefix_of(layout.local_dir + "/"@, t));
            let sp = spec_slot_path(layout, x.0);
            assert(sp.subrange(0, (layout.vcs_hooks_dir + "/"@).len() as int)
                =~= layout.vcs_hooks_dir + "/"@);
            assert(is_prefix_of(layout.vcs_hooks_dir + "/"@, sp));
        }
        assert forall|k: int| 0 <= k < acts.len() implies placed_correctly(
            acts[k],
            layout.local_dir,
            layout.vcs_hooks_dir,
        ) by {
            if k < prev.len() {
                assert(acts[k] == prev[k]);
            } else {
                assert(acts[k] == one[k - prev.len()]);
            }
        }
    }
}

} // verus!
