//! The Hooks Generator: `generate` and `cleanup`, as transformations of a
//! [`HookState`] that also report the filesystem actions realising them.
//!
//! `generate` renders a script for every configured event with at least
//! one command, stores it, and wires the VCS hook slot to it — by symlink
//! where supported, by a marker-carrying shim otherwise — skipping any
//! slot it cannot prove it owns. `cleanup` reverses exactly that, driven
//! by the stored scripts rather than the configuration, and never touches
//! a slot it does not own.

use vstd::prelude::*;
use crate::layout::{Layout, LayoutView, script_path, slot_path, spec_script_path, spec_slot_path};
use crate::platform::Platform;
use crate::render::{
    is_tool_content, render_hook, render_shim, spec_is_tool_content, spec_render, spec_shim,
};
use crate::state::{
    HookConfig, HookState, HookStateView, ScriptFile, ScriptFileView, SlotEntry, SlotEntryView,
};
use crate::table::{lemma_assoc_contains, Table};
use crate::text::str_eq;

verus! {

/// One filesystem mutation the caller is to perform, in order.
pub enum Action {
    /// Create the tool-owned script directory (and its parents).
    CreateLocalDir { path: String },
    /// Write a script file, overwriting any previous content, and set or
    /// clear its executable bit.
    WriteScript { path: String, content: String, executable: bool },
    /// Place a symlink at a VCS hook slot, replacing what stood there.
    WriteSlotLink { path: String, target: String },
    /// Write a shim file at a VCS hook slot, replacing what stood there.
    WriteSlotFile { path: String, content: String },
    /// Delete the entry at a VCS hook slot.
    RemoveSlot { path: String },
    /// Delete a stored script file.
    RemoveScript { path: String },
    /// Delete the tool-owned script directory, which is now empty.
    RemoveLocalDir { path: String },
}

/// Mathematical view of [`Action`].
pub enum ActionView {
    CreateLocalDir { path: Seq<char> },
    WriteScript { path: Seq<char>, content: Seq<char>, executable: bool },
    WriteSlotLink { path: Seq<char>, target: Seq<char> },
    WriteSlotFile { path: Seq<char>, content: Seq<char> },
    RemoveSlot { path: Seq<char> },
    RemoveScript { path: Seq<char> },
    RemoveLocalDir { path: Seq<char> },
}

impl View for Action {
    type V = ActionView;

    open spec fn view(&self) -> ActionView {
        match self {
            Action::CreateLocalDir { path } => (ActionView::CreateLocalDir { path: path@ }),
            Action::WriteScript { path, content, executable } => (ActionView::WriteScript {
                path: path@,
                content: content@,
                executable: *executable,
            }),
            Action::WriteSlotLink { path, target } => (ActionView::WriteSlotLink {
                path: path@,
                target: target@,
            }),
            Action::WriteSlotFile { path, content } => (ActionView::WriteSlotFile {
                path: path@,
                content: content@,
            }),
            Action::RemoveSlot { path } => (ActionView::RemoveSlot { path: path@ }),
            Action::RemoveScript { path } => (ActionView::RemoveScript { path: path@ }),
            Action::RemoveLocalDir { path } => (ActionView::RemoveLocalDir { path: path@ }),
        }
    }
}

/// The views of a sequence of actions.
pub open spec fn actions_view(s: Seq<Action>) -> Seq<ActionView> {
    Seq::new(s.len(), |i: int| s[i]@)
}

/// A slot entry proves our ownership when it is a symlink to the expected
/// script, or a file carrying the ownership marker.
pub open spec fn spec_slot_owned(e: SlotEntryView, expected: Seq<char>) -> bool {
    match e {
        SlotEntryView::Link { target } => target == expected,
        SlotEntryView::File { content } => spec_is_tool_content(content),
    }
}

/// A slot may be (over)written when it is empty or provably ours. A slot
/// that is neither belongs to the user and is left untouched.
pub open spec fn spec_slot_writable(
    slots: Map<Seq<char>, SlotEntryView>,
    event: Seq<char>,
    expected: Seq<char>,
) -> bool {
    !slots.contains_key(event) || spec_slot_owned(slots[event], expected)
}

/// The slot entry `generate` places: a symlink where supported, else a
/// shim file that forwards to the script.
pub open spec fn spec_new_slot(symlinks: bool, p: Platform, target: Seq<char>) -> SlotEntryView {
    if symlinks {
        SlotEntryView::Link { target }
    } else {
        SlotEntryView::File { content: spec_shim(target, p) }
    }
}

/// The script `generate` stores for one event.
pub open spec fn spec_script(event: Seq<char>, cmds: Seq<Seq<char>>, p: Platform) -> ScriptFileView {
    ScriptFileView { content: spec_render(event, cmds, p), executable: p is Posix }
}

/// The state after `generate` handles one configured event.
pub open spec fn spec_gen_one(
    s: HookStateView,
    event: Seq<char>,
    cmds: Seq<Seq<char>>,
    p: Platform,
    layout: LayoutView,
    symlinks: bool,
) -> HookStateView {
    if cmds.len() == 0 {
        s
    } else {
        let target = spec_script_path(layout, event, p);
        HookStateView {
            local_dir_exists: true,
            stray_local_files: s.stray_local_files,
            scripts: s.scripts.insert(event, spec_script(event, cmds, p)),
            slots: if spec_slot_writable(s.slots, event, target) {
                s.slots.insert(event, spec_new_slot(symlinks, p, target))
            } else {
                s.slots
            },
        }
    }
}

/// The state after `generate` handles a whole configuration, first entry
/// first.
pub open spec fn spec_generate(
    s: HookStateView,
    cfg: Seq<(Seq<char>, Seq<Seq<char>>)>,
    p: Platform,
    layout: LayoutView,
    symlinks: bool,
) -> HookStateView
    decreases cfg.len(),
{
    if cfg.len() == 0 {
        s
    } else {
        spec_gen_one(
            spec_generate(s, cfg.drop_last(), p, layout, symlinks),
            cfg.last().0,
            cfg.last().1,
            p,
            layout,
            symlinks,
        )
    }
}

/// The actions `generate` performs for one configured event, from state
/// `s`: create the directory on first use, write the script, wire the
/// slot where permitted.
pub open spec fn spec_gen_one_actions(
    s: HookStateView,
    event: Seq<char>,
    cmds: Seq<Seq<char>>,
    p: Platform,
    layout: LayoutView,
    symlinks: bool,
) -> Seq<ActionView> {
    if cmds.len() == 0 {
        Seq::empty()
    } else {
        let target = spec_script_path(layout, event, p);
        let dir_acts: Seq<ActionView> = if s.local_dir_exists {
            Seq::empty()
        } else {
            seq![ActionView::CreateLocalDir { path: layout.local_dir }]
        };
        let script_acts = seq![
            ActionView::WriteScript {
                path: target,
                content: spec_render(event, cmds, p),
                executable: p is Posix,
            },
        ];
        let slot_acts: Seq<ActionView> = if spec_slot_writable(s.slots, event, target) {
            if symlinks {
                seq![ActionView::WriteSlotLink { path: spec_slot_path(layout, event), target }]
            } else {
                seq![
                    ActionView::WriteSlotFile {
                        path: spec_slot_path(layout, event),
                        content: spec_shim(target, p),
                    },
                ]
            }
        } else {
            Seq::empty()
        };
        dir_acts + script_acts + slot_acts
    }
}

/// The actions `generate` performs for a whole configuration, in order.
pub open spec fn spec_gen_actions(
    s: HookStateView,
    cfg: Seq<(Seq<char>, Seq<Seq<char>>)>,
    p: Platform,
    layout: LayoutView,
    symlinks: bool,
) -> Seq<ActionView>
    decreases cfg.len(),
{
    if cfg.len() == 0 {
        Seq::empty()
    } else {
        spec_gen_actions(s, cfg.drop_last(), p, layout, symlinks) + spec_gen_one_actions(
            spec_generate(s, cfg.drop_last(), p, layout, symlinks),
            cfg.last().0,
            cfg.last().1,
            p,
            layout,
            symlinks,
        )
    }
}

/// The events whose VCS slot `cleanup` removes: those with a stored
/// script whose slot is provably ours.
pub open spec fn spec_cleanup_removed(
    s: HookStateView,
    layout: LayoutView,
    p: Platform,
) -> Set<Seq<char>> {
    Set::new(
        |e: Seq<char>|
            s.scripts.contains_key(e) && s.slots.contains_key(e) && spec_slot_owned(
                s.slots[e],
                spec_script_path(layout, e, p),
            ),
    )
}

/// The state after `cleanup`: no stored scripts, the directory gone
/// unless it holds files we do not own, and our slots unwired.
pub open spec fn spec_cleanup(s: HookStateView, layout: LayoutView, p: Platform) -> HookStateView {
    HookStateView {
        local_dir_exists: s.local_dir_exists && s.stray_local_files,
        stray_local_files: s.stray_local_files,
        scripts: Map::empty(),
        slots: s.slots.remove_keys(spec_cleanup_removed(s, layout, p)),
    }
}

/// The slots removed after the first `j` stored scripts are handled.
pub open spec fn spec_removed_prefix(
    s: HookStateView,
    pairs: Seq<(Seq<char>, ScriptFileView)>,
    layout: LayoutView,
    p: Platform,
    j: int,
) -> Set<Seq<char>> {
    Set::new(
        |e: Seq<char>|
            (exists|k: int| 0 <= k < j && pairs[k].0 == e) && s.slots.contains_key(e)
                && spec_slot_owned(s.slots[e], spec_script_path(layout, e, p)),
    )
}

/// The actions `cleanup` performs for one stored script: unwire the slot
/// where it is provably ours, then delete the script file.
pub open spec fn spec_cleanup_pair_actions(
    s: HookStateView,
    pair: (Seq<char>, ScriptFileView),
    layout: LayoutView,
    p: Platform,
) -> Seq<ActionView> {
    let target = spec_script_path(layout, pair.0, p);
    let slot_acts: Seq<ActionView> = if s.slots.contains_key(pair.0) && spec_slot_owned(
        s.slots[pair.0],
        target,
    ) {
        seq![ActionView::RemoveSlot { path: spec_slot_path(layout, pair.0) }]
    } else {
        Seq::empty()
    };
    slot_acts + seq![ActionView::RemoveScript { path: target }]
}

/// The per-script actions of `cleanup`, in storage order.
pub open spec fn spec_cleanup_loop_actions(
    s: HookStateView,
    pairs: Seq<(Seq<char>, ScriptFileView)>,
    layout: LayoutView,
    p: Platform,
) -> Seq<ActionView>
    decreases pairs.len(),
{
    if pairs.len() == 0 {
        Seq::empty()
    } else {
        spec_cleanup_loop_actions(s, pairs.drop_last(), layout, p) + spec_cleanup_pair_actions(
            s,
            pairs.last(),
            layout,
            p,
        )
    }
}

/// All actions of `cleanup`: per-script work, then directory removal if
/// the directory exists and holds nothing foreign.
pub open spec fn spec_cleanup_actions(
    s: HookStateView,
    pairs: Seq<(Seq<char>, ScriptFileView)>,
    layout: LayoutView,
    p: Platform,
) -> Seq<ActionView> {
    spec_cleanup_loop_actions(s, pairs, layout, p) + (if s.local_dir_exists
        && !s.stray_local_files {
        seq![ActionView::RemoveLocalDir { path: layout.local_dir }]
    } else {
        Seq::<ActionView>::empty()
    })
}

impl HookState {
    /// Renders and stores a script for every configured event with at
    /// least one command, and wires the VCS hook slot to it unless a
    /// user-owned hook occupies the slot. An all-empty configuration
    /// performs no action at all and in particular never creates the
    /// tool-owned directory. The returned actions realise the state
    /// change on disk when performed in order.
    pub fn generate(
        &mut self,
        config: &HookConfig,
        p: Platform,
        layout: &Layout,
        symlinks_supported: bool,
    ) -> (actions: Vec<Action>)
        requires
            old(self).wf(),
        ensures
            final(self).wf(),
            final(self)@ == spec_generate(old(self)@, config@, p, layout@, symlinks_supported),
            actions_view(actions@) == spec_gen_actions(
                old(self)@,
                config@,
                p,
                layout@,
                symlinks_supported,
            ),
    {
        let mut actions: Vec<Action> = Vec::new();
        let n = config.entries.len();
        let mut i: usize = 0;
        proof {
            assert(config@.take(0) =~= Seq::<(Seq<char>, Seq<Seq<char>>)>::empty());
            assert(actions_view(actions@) =~= Seq::<ActionView>::empty());
        }
        while i < n
            invariant
                self.wf(),
                n == config.entries@.len(),
                n == config@.len(),
                i <= n,
                self@ == spec_generate(old(self)@, config@.take(i as int), p, layout@, symlinks_supported),
                actions_view(actions@) == spec_gen_actions(
                    old(self)@,
                    config@.take(i as int),
                    p,
                    layout@,
                    symlinks_supported,
                ),
            decreases n - i,
        {
            let ghost prev = self@;
            let ghost prev_actions = actions@;
            let ghost entry = config@[i as int];
            let event: &str = config.entries[i].0.as_str();
            let commands: &Vec<String> = &config.entries[i].1;
            proof {
                assert(entry.0 == event@);
                assert(entry.1 =~= crate::render::command_views(commands@));
            }
            if commands.len() >= 1 {
                let content = render_hook(event, commands, p);
                let target = script_path(layout, event, p);
                if !self.local_dir_exists {
                    actions.push(Action::CreateLocalDir { path: layout.local_dir.clone() });
                    self.local_dir_exists = true;
                }
                let executable = match p {
                    Platform::Posix => true,
                    Platform::Windows => false,
                };
                self.scripts.set(event, ScriptFile { content: content.clone(), executable });
                actions.push(Action::WriteScript { path: target.clone(), content, executable });
                let writable = match self.slots.get(event) {
                    Option::None => true,
                    Option::Some(SlotEntry::Link { target: t }) => str_eq(t.as_str(), target.as_str()),
                    Option::Some(SlotEntry::File { content: c }) => is_tool_content(c.as_str()),
                };
                proof {
                    assert(writable == spec_slot_writable(
                        prev.slots,
                        entry.0,
                        spec_script_path(layout@, entry.0, p),
                    ));
                }
                if writable {
                    let spath = slot_path(layout, event);
                    if symlinks_supported {
                        self.slots.set(event, SlotEntry::Link { target: target.clone() });
                        actions.push(Action::WriteSlotLink { path: spath, target });
                    } else {
                        let shim = render_shim(target.as_str(), p);
                        self.slots.set(event, SlotEntry::File { content: shim.clone() });
                        actions.push(Action::WriteSlotFile { path: spath, content: shim });
                    }
                }
            }
            proof {
                assert(config@.take(i + 1).drop_last() =~= config@.take(i as int));
                assert(config@.take(i + 1).last() == entry);
                assert(self@ == spec_gen_one(prev, entry.0, entry.1, p, layout@, symlinks_supported));
                assert(actions_view(actions@) =~= prev_actions.map_values(|a: Action| a@)
                    + spec_gen_one_actions(prev, entry.0, entry.1, p, layout@, symlinks_supported));
                assert(prev_actions.map_values(|a: Action| a@) =~= actions_view(prev_actions));
                assert(actions_view(actions@) == spec_gen_actions(
                    old(self)@,
                    config@.take(i + 1),
                    p,
                    layout@,
                    symlinks_supported,
                ));
            }
            i = i + 1;
        }
        proof {
            assert(config@.take(n as int) =~= config@);
        }
        actions
    }

    /// Reverses `generate`, driven by what is stored rather than by the
    /// configuration: for every stored script, the VCS slot is unwired
    /// where it is provably ours and the script is deleted; the tool-owned
    /// directory is removed when nothing foreign remains in it. A hook
    /// slot this tool does not own is never touched. Idempotent: on a
    /// clean state this is a no-op. The returned actions realise the
    /// state change on disk when performed in order.
    pub fn cleanup(&mut self, p: Platform, layout: &Layout) -> (actions: Vec<Action>)
        requires
            old(self).wf(),
        ensures
            final(self).wf(),
            final(self)@ == spec_cleanup(old(self)@, layout@, p),
            actions_view(actions@) == spec_cleanup_actions(
                old(self)@,
                old(self).script_pairs(),
                layout@,
                p,
            ),
    {
        let ghost s0 = self@;
        let ghost pairs = self.script_pairs();
        let mut actions: Vec<Action> = Vec::new();
        let n = self.scripts.entries.len();
        let mut j: usize = 0;
        proof {
            assert(spec_removed_prefix(s0, pairs, layout@, p, 0) =~= Set::<Seq<char>>::empty());
            assert(s0.slots.remove_keys(Set::<Seq<char>>::empty()) =~= s0.slots);
            assert(actions_view(actions@) =~= Seq::<ActionView>::empty());
        }
        while j < n
            invariant
                old(self).wf(),
                s0 == old(self)@,
                pairs == old(self).script_pairs(),
                self.scripts == old(self).scripts,
                self.local_dir_exists == s0.local_dir_exists,
                self.stray_local_files == s0.stray_local_files,
                n == self.scripts.entries@.len(),
                n == pairs.len(),
                j <= n,
                self.slots.wf(),
                self.slots@ == s0.slots.remove_keys(spec_removed_prefix(s0, pairs, layout@, p, j as int)),
                actions_view(actions@) == spec_cleanup_loop_actions(s0, pairs.take(j as int), layout@, p),
            decreases n - j,
        {
            let ghost prev_actions = actions@;
            let name = self.scripts.entries[j].0.clone();
            proof {
                assert(name@ == pairs[j as int].0);
                assert(forall|k: int| 0 <= k < j ==> pairs[k].0 != pairs[j as int].0);
                assert(!spec_removed_prefix(s0, pairs, layout@, p, j as int).contains(name@));
            }
            let target = script_path(layout, name.as_str(), p);
            let owned = match self.slots.get(name.as_str()) {
                Option::None => false,
                Option::Some(SlotEntry::Link { target: t }) => str_eq(t.as_str(), target.as_str()),
                Option::Some(SlotEntry::File { content: c }) => is_tool_content(c.as_str()),
            };
            proof {
                assert(owned == (s0.slots.contains_key(name@) && spec_slot_owned(
                    s0.slots[name@],
                    spec_script_path(layout@, name@, p),
                )));
            }
            if owned {
                actions.push(Action::RemoveSlot { path: slot_path(layout, name.as_str()) });
                self.slots.remove(name.as_str());
                proof {
                    assert(spec_removed_prefix(s0, pairs, layout@, p, j + 1) =~= spec_removed_prefix(
                        s0,
                        pairs,
                        layout@,
                        p,
                        j as int,
                    ).insert(name@));
                    assert(self.slots@ =~= s0.slots.remove_keys(
                        spec_removed_prefix(s0, pairs, layout@, p, j + 1),
                    ));
                }
            } else {
                proof {
                    assert(spec_removed_prefix(s0, pairs, layout@, p, j + 1) =~= spec_removed_prefix(
                        s0,
                        pairs,
                        layout@,
                        p,
                        j as int,
                    ));
                }
            }
            actions.push(Action::RemoveScript { path: target });
            proof {
                assert(pairs.take(j + 1).drop_last() =~= pairs.take(j as int));
                assert(pairs.take(j + 1).last() == pairs[j as int]);
                assert(actions_view(actions@) =~= actions_view(prev_actions)
                    + spec_cleanup_pair_actions(s0, pairs[j as int], layout@, p));
                assert(actions_view(actions@) == spec_cleanup_loop_actions(
                    s0,
                    pairs.take(j + 1),
                    layout@,
                    p,
                ));
            }
            j = j + 1;
        }
        proof {
            assert(pairs.take(n as int) =~= pairs);
        }
        self.scripts = Table::new();
        if self.local_dir_exists && !self.stray_local_files {
            actions.push(Action::RemoveLocalDir { path: layout.local_dir.clone() });
            self.local_dir_exists = false;
        }
        proof {
            assert forall|e: Seq<char>|
                spec_removed_prefix(s0, pairs, layout@, p, n as int).contains(e)
                    == spec_cleanup_removed(s0, layout@, p).contains(e) by {
                let entries = old(self).scripts.entries@;
                lemma_assoc_contains::<ScriptFile>(entries, e);
                if exists|k: int| 0 <= k < pairs.len() && pairs[k].0 == e {
                    let k = choose|k: int| 0 <= k < pairs.len() && pairs[k].0 == e;
                    assert(entries[k].0@ == e);
                }
                if s0.scripts.contains_key(e) {
                    let i = choose|i: int| 0 <= i < entries.len() && entries[i].0@ == e;
                    assert(pairs[i].0 == e);
                }
            }
            assert(spec_removed_prefix(s0, pairs, layout@, p, n as int) =~= spec_cleanup_removed(
                s0,
                layout@,
                p,
            ));
            assert(self@ == spec_cleanup(s0, layout@, p));
            assert(actions_view(actions@) =~= spec_cleanup_actions(s0, pairs, layout@, p));
        }
        actions
    }
}

} // verus!
