//! Resolution of where hook files live: the tool-owned local script
//! directory and the hook directory the VCS actually consults, following
//! the redirect a linked worktree leaves in place of its metadata
//! directory.

use vstd::prelude::*;
use vstd::string::*;
use crate::platform::Platform;
use crate::text::{is_prefix_of, starts_with_str};

verus! {

/// Why a layout could not be resolved.
#[derive(Clone, Copy, PartialEq, Eq, Structural, Debug)]
pub enum HookError {
    /// The worktree's metadata entry is a redirect file, but its content
    /// does not name the shared metadata directory.
    MalformedWorktreeRedirect,
}

/// What stands at `<root>/.git`: either the metadata directory itself
/// (a normal checkout), or the redirect file a linked worktree holds,
/// whose content points at the worktree's shared metadata directory.
pub enum VcsMetadata {
    Directory,
    RedirectFile { content: String },
}

/// Mathematical view of [`VcsMetadata`].
pub enum VcsMetadataView {
    Directory,
    RedirectFile { content: Seq<char> },
}

impl View for VcsMetadata {
    type V = VcsMetadataView;

    open spec fn view(&self) -> VcsMetadataView {
        match self {
            VcsMetadata::Directory => VcsMetadataView::Directory,
            VcsMetadata::RedirectFile { content } => (VcsMetadataView::RedirectFile {
                content: content@,
            }),
        }
    }
}

/// The two directories one generation run works with.
pub struct Layout {
    /// The tool-owned directory holding the rendered scripts, at the
    /// (worktree) root.
    pub local_dir: String,
    /// The directory the VCS consults for hooks, after following any
    /// worktree redirect.
    pub vcs_hooks_dir: String,
}

/// Mathematical view of [`Layout`].
pub struct LayoutView {
    pub local_dir: Seq<char>,
    pub vcs_hooks_dir: Seq<char>,
}

impl View for Layout {
    type V = LayoutView;

    open spec fn view(&self) -> LayoutView {
        LayoutView { local_dir: self.local_dir@, vcs_hooks_dir: self.vcs_hooks_dir@ }
    }
}

/// The tool-owned script directory at `root`.
pub open spec fn spec_local_dir(root: Seq<char>) -> Seq<char> {
    root + "/.toolhooks"@
}

/// The hook directory of a normal checkout at `root`.
pub open spec fn spec_default_hooks_dir(root: Seq<char>) -> Seq<char> {
    root + "/.git/hooks"@
}

/// The hook directory of a linked worktree whose redirect names `gitdir`.
pub open spec fn spec_shared_hooks_dir(gitdir: Seq<char>) -> Seq<char> {
    gitdir + "/hooks"@
}

/// Strips one trailing newline, if present.
pub open spec fn spec_trim_newline(s: Seq<char>) -> Seq<char> {
    if s.len() > 0 && s.last() == '\n' {
        s.drop_last()
    } else {
        s
    }
}

/// The shared metadata directory a worktree redirect file names, if the
/// content is well formed: the prefix `gitdir: ` followed by the path,
/// with an optional trailing newline.
pub open spec fn spec_parse_gitdir(content: Seq<char>) -> Option<Seq<char>> {
    if is_prefix_of("gitdir: "@, content) {
        Some(spec_trim_newline(content.subrange("gitdir: "@.len() as int, content.len() as int)))
    } else {
        None
    }
}

/// Parses the content of a worktree redirect file, returning the shared
/// metadata directory it names. Returns `None` exactly when the content
/// does not start with the redirect prefix.
pub fn parse_gitdir(content: &str) -> (r: Option<String>)
    ensures
        match r {
            Some(path) => spec_parse_gitdir(content@) == Some(path@),
            None => spec_parse_gitdir(content@) is None,
        },
{
    proof {
        reveal_strlit("gitdir: ");
    }
    if !starts_with_str(content, "gitdir: ") {
        return None;
    }
    let n = content.unicode_len();
    proof {
        assert(content@.subrange(0, 8)[7] == ' ');
        assert(content@[7] == ' ');
    }
    let mut end = n;
    if content.get_char(n - 1) == '\n' {
        end = n - 1;
    }
    let path = content.substring_char(8, end).to_owned();
    proof {
        let c = content@;
        let rest = c.subrange(8, n as int);
        if end < n {
            assert(rest.len() > 0);
            assert(rest.last() == c[n - 1]);
            assert(spec_trim_newline(rest) =~= c.subrange(8, end as int));
        } else {
            if rest.len() > 0 {
                assert(rest.last() == c[n - 1]);
            }
            assert(spec_trim_newline(rest) =~= c.subrange(8, end as int));
        }
    }
    Some(path)
}

/// Resolves the two directories for the checkout at `root`, whose
/// metadata entry is `meta`. For a normal checkout the VCS consults a
/// fixed subdirectory of the metadata directory; for a linked worktree
/// the redirect is followed to the shared hook directory, while the
/// rendered scripts stay under the worktree's own root.
pub fn resolve_layout(root: &str, meta: &VcsMetadata) -> (r: Result<Layout, HookError>)
    ensures
        match meta@ {
            VcsMetadataView::Directory => r matches Ok(layout) && layout@ == (LayoutView {
                local_dir: spec_local_dir(root@),
                vcs_hooks_dir: spec_default_hooks_dir(root@),
            }),
            VcsMetadataView::RedirectFile { content } => match spec_parse_gitdir(content) {
                Some(gitdir) => r matches Ok(layout) && layout@ == (LayoutView {
                    local_dir: spec_local_dir(root@),
                    vcs_hooks_dir: spec_shared_hooks_dir(gitdir),
                }),
                None => r matches Err(e) && e == HookError::MalformedWorktreeRedirect,
            },
        },
{
    let mut local_dir = root.to_owned();
    local_dir.append("/.toolhooks");
    match meta {
        VcsMetadata::Directory => {
            let mut vcs = root.to_owned();
            vcs.append("/.git/hooks");
            Ok(Layout { local_dir, vcs_hooks_dir: vcs })
        },
        VcsMetadata::RedirectFile { content } => {
            match parse_gitdir(content.as_str()) {
                Some(gitdir) => {
                    let mut vcs = gitdir;
                    vcs.append("/hooks");
                    Ok(Layout { local_dir, vcs_hooks_dir: vcs })
                },
                None => Err(HookError::MalformedWorktreeRedirect),
            }
        },
    }
}

/// The path of the locally stored script for `event`.
pub open spec fn spec_script_path(layout: LayoutView, event: Seq<char>, p: Platform) -> Seq<char> {
    layout.local_dir + "/"@ + event + p.spec_extension()
}

/// Returns the path of the locally stored script for `event` under this
/// layout: `<local_dir>/<event><extension>`.
pub fn script_path(layout: &Layout, event: &str, p: Platform) -> (r: String)
    ensures
        r@ == spec_script_path(layout@, event@, p),
{
    let mut s = layout.local_dir.clone();
    s.append("/");
    s.append(event);
    s.append(p.extension());
    s
}

/// The path of the VCS hook slot for `event`: the entry the VCS invokes,
/// named exactly after the event.
pub open spec fn spec_slot_path(layout: LayoutView, event: Seq<char>) -> Seq<char> {
    layout.vcs_hooks_dir + "/"@ + event
}

/// Returns the path of the VCS hook slot for `event` under this layout.
pub fn slot_path(layout: &Layout, event: &str) -> (r: String)
    ensures
        r@ == spec_slot_path(layout@, event@),
{
    let mut s = layout.vcs_hooks_dir.clone();
    s.append("/");
    s.append(event);
    s
}

} // verus!
