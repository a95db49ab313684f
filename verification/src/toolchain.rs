//! Decisions of the toolchain-setup pass: which step comes next when a
//! tool version is being set up, which mode (pinned version or global
//! binary) a tool runs in, the search-path list its commands see, and
//! the description of one command invocation.
//!
//! The outside work — loading the tool plugin, probing whether a version
//! is installed, probing connectivity, running the installer — is the
//! caller's: it performs one step at a time and hands the outcome back
//! as a [`SetupEvent`]; [`setup_step`] answers with the next
//! [`SetupDecision`]. The version cache is an explicit, caller-owned
//! mapping with a lifecycle of one setup invocation.

use vstd::prelude::*;
use vstd::string::*;
use crate::platform::Platform;
use crate::table::Table;
use crate::text::{str_eq, string_views};

verus! {

/// A requested toolchain version, as plain text.
#[derive(Clone)]
pub struct VersionSpec {
    pub raw: String,
}

impl View for VersionSpec {
    type V = Seq<char>;

    open spec fn view(&self) -> Seq<char> {
        self.raw@
    }
}

/// The caller-owned record of the last version set up, per tool name.
pub struct VersionCache {
    pub versions: Table<VersionSpec>,
}

impl View for VersionCache {
    type V = Map<Seq<char>, Seq<char>>;

    open spec fn view(&self) -> Map<Seq<char>, Seq<char>> {
        self.versions@
    }
}

impl VersionCache {
    /// Unique tool names.
    pub open spec fn wf(&self) -> bool {
        self.versions.wf()
    }

    /// An empty cache: nothing has been set up yet.
    pub fn new() -> (r: VersionCache)
        ensures
            r.wf(),
            r@ == Map::<Seq<char>, Seq<char>>::empty(),
    {
        VersionCache { versions: Table::new() }
    }

    /// The version last set up for `tool`, if any.
    pub fn last_for(&self, tool: &str) -> (r: Option<&VersionSpec>)
        requires
            self.wf(),
        ensures
            match r {
                Some(v) => self@.contains_key(tool@) && v@ == self@[tool@],
                None => !self@.contains_key(tool@),
            },
    {
        self.versions.get(tool)
    }

    /// Records that `version` was set up for `tool`.
    pub fn record(&mut self, tool: &str, version: VersionSpec)
        requires
            old(self).wf(),
        ensures
            final(self).wf(),
            final(self)@ == old(self)@.insert(tool@, version@),
    {
        self.versions.set(tool, version);
    }
}

/// What the caller's last piece of outside work reported.
#[derive(Clone, Copy, PartialEq, Eq, Structural, Debug)]
pub enum SetupEvent {
    /// The pass begins; nothing has been asked yet.
    Begin,
    /// The toolchain answered whether the requested version is already
    /// set up.
    InstallState { already: bool },
    /// The connectivity probe answered whether the registry is reachable,
    /// and whether the tool's install directory exists.
    Connectivity { online: bool, tool_dir_exists: bool },
    /// The installer finished, reporting whether it actually installed.
    InstallOutcome { changed: bool },
}

/// The next step of the setup pass.
#[derive(Clone, Copy, PartialEq, Eq, Structural, Debug)]
pub enum SetupDecision {
    /// The pass is over; nothing further to do.
    Done,
    /// Fall back to the global binary on the search path; the pass is
    /// over.
    UseGlobal,
    /// Ask the toolchain whether the requested version is already set up.
    QueryInstalled,
    /// Probe connectivity and the tool's install directory.
    QueryConnectivity,
    /// Run the installer for the requested version.
    Install,
}

/// An install is due when the cache holds no version for `tool`, or a
/// different one than requested.
pub open spec fn spec_needs_install(
    cache: Map<Seq<char>, Seq<char>>,
    tool: Seq<char>,
    version: Seq<char>,
) -> bool {
    !cache.contains_key(tool) || cache[tool] != version
}

/// The next decision of the setup pass, with a flag saying whether the
/// requested version is to be recorded in the cache now.
pub open spec fn spec_setup_step(
    global: bool,
    version: Option<Seq<char>>,
    cache: Map<Seq<char>, Seq<char>>,
    tool: Seq<char>,
    event: SetupEvent,
) -> (SetupDecision, bool) {
    match version {
        Option::None => (SetupDecision::Done, false),
        Option::Some(v) => match event {
            SetupEvent::Begin => if global {
                (SetupDecision::Done, false)
            } else {
                (SetupDecision::QueryInstalled, false)
            },
            SetupEvent::InstallState { already } => if already {
                (SetupDecision::Done, false)
            } else {
                (SetupDecision::QueryConnectivity, false)
            },
            SetupEvent::Connectivity { online, tool_dir_exists } => if !online {
                (SetupDecision::UseGlobal, false)
            } else if spec_needs_install(cache, tool, v) || !tool_dir_exists {
                (SetupDecision::Install, false)
            } else {
                (SetupDecision::Done, false)
            },
            SetupEvent::InstallOutcome { changed } => (SetupDecision::Done, changed),
        },
    }
}

/// The view of an optional version.
pub open spec fn spec_version_of(version: Option<VersionSpec>) -> Option<Seq<char>> {
    match version {
        Option::None => Option::None,
        Option::Some(v) => Option::Some(v@),
    }
}

/// One step of the setup pass. With no version requested the pass is a
/// no-op; in global mode nothing is queried; an already-set-up version
/// is left alone; offline, the pass falls back to the global binary; an
/// install runs when the cache names no (or another) version, or the
/// install directory is missing; and the cache is updated exactly when
/// the installer reports that it installed.
pub fn setup_step(
    global: bool,
    version: &Option<VersionSpec>,
    cache: &VersionCache,
    tool: &str,
    event: SetupEvent,
) -> (r: (SetupDecision, bool))
    requires
        cache.wf(),
    ensures
        r == spec_setup_step(
            global,
            spec_version_of(*version),
            cache@,
            tool@,
            event,
        ),
{
    match version {
        Option::None => (SetupDecision::Done, false),
        Option::Some(v) => match event {
            SetupEvent::Begin => if global {
                (SetupDecision::Done, false)
            } else {
                (SetupDecision::QueryInstalled, false)
            },
            SetupEvent::InstallState { already } => if already {
                (SetupDecision::Done, false)
            } else {
                (SetupDecision::QueryConnectivity, false)
            },
            SetupEvent::Connectivity { online, tool_dir_exists } => {
                if !online {
                    (SetupDecision::UseGlobal, false)
                } else {
                    let needs = match cache.versions.get(tool) {
                        Option::None => true,
                        Option::Some(last) => !str_eq(last.raw.as_str(), v.raw.as_str()),
                    };
                    if needs || !tool_dir_exists {
                        (SetupDecision::Install, false)
                    } else {
                        (SetupDecision::Done, false)
                    }
                }
            },
            SetupEvent::InstallOutcome { changed } => (SetupDecision::Done, changed),
        },
    }
}

/// Decides the mode a tool runs in: global (the binary already on the
/// search path) with no pinned version, or pinned to the requested
/// version. Global wins when the environment asks for it or the runtime
/// requirement itself is global.
pub fn resolve_tool_mode(
    use_global_on_path: bool,
    req_is_global: bool,
    req_spec: Option<VersionSpec>,
) -> (r: (bool, Option<VersionSpec>))
    ensures
        r.0 == (use_global_on_path || req_is_global),
        r.0 ==> r.1 is None,
        !r.0 ==> r.1 == req_spec,
{
    if use_global_on_path || req_is_global {
        (true, Option::None)
    } else {
        (false, req_spec)
    }
}

/// `bin` appended under an optional base directory.
pub open spec fn spec_opt_bin(base: Option<Seq<char>>) -> Seq<Seq<char>> {
    match base {
        Option::None => Seq::empty(),
        Option::Some(b) => seq![b + "/bin"@],
    }
}

/// The view of an optional string.
pub open spec fn spec_opt_string(s: Option<String>) -> Option<Seq<char>> {
    match s {
        Option::None => Option::None,
        Option::Some(v) => Option::Some(v@),
    }
}

/// The search paths a toolchain command sees: the toolchain's own paths
/// first, then `bin` under each configured override directory that is
/// set, then `<home>/.cargo/bin` last.
pub open spec fn spec_rust_env_paths(
    proto_paths: Seq<Seq<char>>,
    cargo_install_root: Option<Seq<char>>,
    cargo_home: Option<Seq<char>>,
    home: Seq<char>,
) -> Seq<Seq<char>> {
    proto_paths + spec_opt_bin(cargo_install_root) + spec_opt_bin(cargo_home) + seq![
        home + "/.cargo/bin"@,
    ]
}

/// Builds the search-path list for toolchain commands. The caller reads
/// the two override variables and the home directory from the
/// environment and hands them in as plain values.
pub fn get_rust_env_paths(
    proto_paths: Vec<String>,
    cargo_install_root: Option<String>,
    cargo_home: Option<String>,
    home: &str,
) -> (r: Vec<String>)
    ensures
        string_views(r@) == spec_rust_env_paths(
            string_views(proto_paths@),
            spec_opt_string(cargo_install_root),
            spec_opt_string(cargo_home),
            home@,
        ),
{
    let ghost proto = string_views(proto_paths@);
    let ghost root_v = spec_opt_string(cargo_install_root);
    let ghost home_v = spec_opt_string(cargo_home);
    let mut paths = proto_paths;
    match cargo_install_root {
        Option::None => {},
        Option::Some(value) => {
            let mut s = value;
            s.append("/bin");
            paths.push(s);
        },
    }
    proof {
        assert(string_views(paths@) =~= proto + spec_opt_bin(root_v));
    }
    let ghost mid = string_views(paths@);
    match cargo_home {
        Option::None => {},
        Option::Some(value) => {
            let mut s = value;
            s.append("/bin");
            paths.push(s);
        },
    }
    proof {
        assert(string_views(paths@) =~= mid + spec_opt_bin(home_v));
    }
    let ghost tail = string_views(paths@);
    let mut last = home.to_owned();
    last.append("/.cargo/bin");
    paths.push(last);
    proof {
        assert(string_views(paths@) =~= tail + seq![home@ + "/.cargo/bin"@]);
        assert(string_views(paths@) =~= spec_rust_env_paths(proto, root_v, home_v, home@));
    }
    paths
}

/// One command invocation, as a plain value the caller executes: the
/// program, its arguments, the search-path variable to run it with, and
/// the working directory.
pub struct CommandInvocation {
    pub program: String,
    pub args: Vec<String>,
    pub path_env: String,
    pub cwd: String,
}

/// The separator between entries of the search-path variable.
pub open spec fn spec_path_sep(p: Platform) -> Seq<char> {
    match p {
        Platform::Posix => ":"@,
        Platform::Windows => ";"@,
    }
}

/// Paths joined by the separator, in order.
pub open spec fn spec_join_paths(paths: Seq<Seq<char>>, sep: Seq<char>) -> Seq<char>
    decreases paths.len(),
{
    if paths.len() == 0 {
        Seq::empty()
    } else if paths.len() == 1 {
        paths[0]
    } else {
        spec_join_paths(paths.drop_last(), sep) + sep + paths.last()
    }
}

/// The search-path variable with `paths` prepended to the current value,
/// if there is one.
pub open spec fn spec_prepended_path(
    paths: Seq<Seq<char>>,
    current: Option<Seq<char>>,
    p: Platform,
) -> Seq<char> {
    match current {
        Option::None => spec_join_paths(paths, spec_path_sep(p)),
        Option::Some(cur) => if paths.len() == 0 {
            cur
        } else {
            spec_join_paths(paths, spec_path_sep(p)) + spec_path_sep(p) + cur
        },
    }
}

/// Joins `paths` with the platform's separator and prepends them to the
/// current search-path value, if any.
fn prepend_paths(paths: &Vec<String>, current: Option<String>, p: Platform) -> (r: String)
    ensures
        r@ == spec_prepended_path(string_views(paths@), spec_opt_string(current), p),
{
    let ghost views = string_views(paths@);
    let sep = match p {
        Platform::Posix => ":",
        Platform::Windows => ";",
    };
    let mut joined = String::new();
    let n = paths.len();
    let mut i: usize = 0;
    while i < n
        invariant
            n == paths@.len(),
            views == string_views(paths@),
            sep@ == spec_path_sep(p),
            i <= n,
            joined@ == spec_join_paths(views.take(i as int), sep@),
        decreases n - i,
    {
        if i > 0 {
            joined.append(sep);
        }
        joined.append(paths[i].as_str());
        proof {
            assert(views.take(i + 1).drop_last() =~= views.take(i as int));
            assert(views.take(i + 1).last() == views[i as int]);
            assert(joined@ =~= spec_join_paths(views.take(i + 1), sep@));
        }
        i = i + 1;
    }
    proof {
        assert(views.take(n as int) =~= views);
    }
    match current {
        Option::None => joined,
        Option::Some(cur) => {
            if paths.len() == 0 {
                cur
            } else {
                let mut r = joined;
                r.append(sep);
                r.append(cur.as_str());
                r
            }
        },
    }
}

/// Describes one invocation of `program`: the given arguments, the
/// search paths prepended to the current path variable, and the working
/// directory. The caller executes it.
pub fn tool_invocation(
    program: &str,
    args: Vec<String>,
    env_paths: &Vec<String>,
    current_path: Option<String>,
    working_dir: &str,
    p: Platform,
) -> (r: CommandInvocation)
    ensures
        r.program@ == program@,
        r.args@ == args@,
        r.path_env@ == spec_prepended_path(
            string_views(env_paths@),
            spec_opt_string(current_path),
            p,
        ),
        r.cwd@ == working_dir@,
{
    CommandInvocation {
        program: program.to_owned(),
        args,
        path_env: prepend_paths(env_paths, current_path, p),
        cwd: working_dir.to_owned(),
    }
}

/// The invocation `exec_cargo` performs: `cargo` with the given
/// arguments, paths, and working directory.
pub fn cargo_invocation(
    args: Vec<String>,
    env_paths: &Vec<String>,
    current_path: Option<String>,
    working_dir: &str,
    p: Platform,
) -> (r: CommandInvocation)
    ensures
        r.program@ == "cargo"@,
        r.args@ == args@,
        r.path_env@ == spec_prepended_path(
            string_views(env_paths@),
            spec_opt_string(current_path),
            p,
        ),
        r.cwd@ == working_dir@,
{
    tool_invocation("cargo", args, env_paths, current_path, working_dir, p)
}

/// The invocation `exec_rustup` performs: `rustup` with the given
/// arguments, paths, and working directory.
pub fn rustup_invocation(
    args: Vec<String>,
    env_paths: &Vec<String>,
    current_path: Option<String>,
    working_dir: &str,
    p: Platform,
) -> (r: CommandInvocation)
    ensures
        r.program@ == "rustup"@,
        r.args@ == args@,
        r.path_env@ == spec_prepended_path(
            string_views(env_paths@),
            spec_opt_string(current_path),
            p,
        ),
        r.cwd@ == working_dir@,
{
    tool_invocation("rustup", args, env_paths, current_path, working_dir, p)
}

} // verus!
