//! The filesystem state this subsystem owns and reasons about: the
//! tool-owned script directory and the VCS hook slots. A `HookState` is
//! built by the caller from what stands on disk; `generate` and `cleanup`
//! transform it and report the filesystem actions that realise the change.

use vstd::prelude::*;
use crate::table::Table;

verus! {

/// A script stored in the tool-owned directory.
pub struct ScriptFile {
    pub content: String,
    /// The POSIX executable permission bit; always clear on Windows.
    pub executable: bool,
}

/// Mathematical view of [`ScriptFile`].
pub struct ScriptFileView {
    pub content: Seq<char>,
    pub executable: bool,
}

impl View for ScriptFile {
    type V = ScriptFileView;

    open spec fn view(&self) -> ScriptFileView {
        ScriptFileView { content: self.content@, executable: self.executable }
    }
}

/// What stands at a VCS hook slot: a symlink to some target, or a plain
/// file with some content (a shim of ours, or a hook the user wrote).
pub enum SlotEntry {
    Link { target: String },
    File { content: String },
}

/// Mathematical view of [`SlotEntry`].
pub enum SlotEntryView {
    Link { target: Seq<char> },
    File { content: Seq<char> },
}

impl View for SlotEntry {
    type V = SlotEntryView;

    open spec fn view(&self) -> SlotEntryView {
        match self {
            SlotEntry::Link { target } => (SlotEntryView::Link { target: target@ }),
            SlotEntry::File { content } => (SlotEntryView::File { content: content@ }),
        }
    }
}

/// The parts of the filesystem this subsystem reads and writes, keyed by
/// event name. One value describes one resolved root.
pub struct HookState {
    /// Whether the tool-owned script directory exists.
    pub local_dir_exists: bool,
    /// Whether the tool-owned directory also holds files this subsystem
    /// does not own; such a directory is never deleted.
    pub stray_local_files: bool,
    /// The scripts in the tool-owned directory, by event name.
    pub scripts: Table<ScriptFile>,
    /// The occupied VCS hook slots, by event name.
    pub slots: Table<SlotEntry>,
}

/// Mathematical view of [`HookState`].
pub struct HookStateView {
    pub local_dir_exists: bool,
    pub stray_local_files: bool,
    pub scripts: Map<Seq<char>, ScriptFileView>,
    pub slots: Map<Seq<char>, SlotEntryView>,
}

impl View for HookState {
    type V = HookStateView;

    open spec fn view(&self) -> HookStateView {
        HookStateView {
            local_dir_exists: self.local_dir_exists,
            stray_local_files: self.stray_local_files,
            scripts: self.scripts@,
            slots: self.slots@,
        }
    }
}

impl HookState {
    /// Both tables keep their keys unique.
    pub open spec fn wf(&self) -> bool {
        self.scripts.wf() && self.slots.wf()
    }

    /// The stored scripts as (event, script) pairs, in storage order.
    pub open spec fn script_pairs(&self) -> Seq<(Seq<char>, ScriptFileView)> {
        Seq::new(
            self.scripts.entries@.len(),
            |i: int| (self.scripts.entries@[i].0@, self.scripts.entries@[i].1@),
        )
    }

    /// A state with nothing generated and no occupied slot: a fresh
    /// checkout.
    pub fn new() -> (r: HookState)
        ensures
            r.wf(),
            !r@.local_dir_exists,
            !r@.stray_local_files,
            r@.scripts == Map::<Seq<char>, ScriptFileView>::empty(),
            r@.slots == Map::<Seq<char>, SlotEntryView>::empty(),
            r.script_pairs() == Seq::<(Seq<char>, ScriptFileView)>::empty(),
    {
        let r = HookState {
            local_dir_exists: false,
            stray_local_files: false,
            scripts: Table::new(),
            slots: Table::new(),
        };
        proof {
            assert(r.script_pairs() =~= Seq::<(Seq<char>, ScriptFileView)>::empty());
        }
        r
    }

    /// Records a script observed in the tool-owned directory.
    pub fn record_script(&mut self, event: &str, script: ScriptFile)
        requires
            old(self).wf(),
        ensures
            final(self).wf(),
            final(self)@ == (HookStateView {
                scripts: old(self)@.scripts.insert(event@, script@),
                ..old(self)@
            }),
    {
        self.scripts.set(event, script);
    }

    /// Records what was observed at the VCS hook slot for `event`.
    pub fn record_slot(&mut self, event: &str, entry: SlotEntry)
        requires
            old(self).wf(),
        ensures
            final(self).wf(),
            final(self)@ == (HookStateView {
                slots: old(self)@.slots.insert(event@, entry@),
                ..old(self)@
            }),
    {
        self.slots.set(event, entry);
    }

    /// The stored script for `event`, if one exists.
    pub fn script_for(&self, event: &str) -> (r: Option<&ScriptFile>)
        requires
            self.wf(),
        ensures
            match r {
                Some(s) => self@.scripts.contains_key(event@) && s@ == self@.scripts[event@],
                None => !self@.scripts.contains_key(event@),
            },
    {
        self.scripts.get(event)
    }

    /// The occupied slot for `event`, if any.
    pub fn slot_for(&self, event: &str) -> (r: Option<&SlotEntry>)
        requires
            self.wf(),
        ensures
            match r {
                Some(e) => self@.slots.contains_key(event@) && e@ == self@.slots[event@],
                None => !self@.slots.contains_key(event@),
            },
    {
        self.slots.get(event)
    }
}

/// The mapping from hook event names to ordered command lists, as project
/// configuration supplies it. An event with zero commands is semantically
/// absent: it never produces a script.
pub struct HookConfig {
    pub entries: Vec<(String, Vec<String>)>,
}

impl View for HookConfig {
    type V = Seq<(Seq<char>, Seq<Seq<char>>)>;

    open spec fn view(&self) -> Seq<(Seq<char>, Seq<Seq<char>>)> {
        Seq::new(
            self.entries@.len(),
            |i: int| (
                self.entries@[i].0@,
                Seq::new(self.entries@[i].1@.len(), |j: int| self.entries@[i].1@[j]@),
            ),
        )
    }
}

/// Event names are non-empty and unique.
pub open spec fn config_wf(cfg: Seq<(Seq<char>, Seq<Seq<char>>)>) -> bool {
    &&& forall|i: int| 0 <= i < cfg.len() ==> cfg[i].0.len() > 0
    &&& forall|i: int, j: int| 0 <= i < j < cfg.len() ==> cfg[i].0 != cfg[j].0
}

impl HookConfig {
    /// Validated: event names non-empty and unique.
    pub open spec fn wf(&self) -> bool {
        config_wf(self@)
    }

    /// An empty configuration.
    pub fn new() -> (r: HookConfig)
        ensures
            r.wf(),
            r@ == Seq::<(Seq<char>, Seq<Seq<char>>)>::empty(),
    {
        let r = HookConfig { entries: Vec::new() };
        proof {
            assert(r@ =~= Seq::<(Seq<char>, Seq<Seq<char>>)>::empty());
        }
        r
    }

    /// Adds an event with its command list. Returns `true` and appends
    /// the entry when `event` is non-empty and not yet present; returns
    /// `false` and leaves the configuration unchanged otherwise.
    pub fn add(&mut self, event: &str, commands: Vec<String>) -> (r: bool)
        requires
            old(self).wf(),
        ensures
            final(self).wf(),
            r == (event@.len() > 0 && forall|i: int|
                0 <= i < old(self)@.len() ==> (#[trigger] old(self)@[i]).0 != event@),
            r ==> final(self)@ == old(self)@.push(
                (event@, Seq::new(commands@.len(), |j: int| commands@[j]@)),
            ),
            !r ==> final(self)@ == old(self)@,
    {
        if event.unicode_len() == 0 {
            return false;
        }
        let n = self.entries.len();
        let mut i: usize = 0;
        while i < n
            invariant
                old(self).wf(),
                *self == *old(self),
                n == self.entries@.len(),
                i <= n,
                forall|j: int| 0 <= j < i ==> self.entries@[j].0@ != event@,
            decreases n - i,
        {
            if crate::text::str_eq(self.entries[i].0.as_str(), event) {
                proof {
                    assert(old(self)@[i as int].0 == event@);
                }
                return false;
            }
            i = i + 1;
        }
        let ghost before = self@;
        self.entries.push((event.to_owned(), commands));
        proof {
            assert(forall|j: int| 0 <= j < before.len() ==> self@[j] == before[j]);
            assert(self@ =~= before.push(
                (event@, Seq::new(self.entries@[n as int].1@.len(), |j: int| self.entries@[n as int].1@[j]@)),
            ));
        }
        true
    }
}

} // verus!
