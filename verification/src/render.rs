//! Platform Script Renderer: pure construction of hook script text.
//!
//! A rendered script embeds an ownership marker comment so that later runs
//! can prove this tool authored a file before overwriting or deleting it,
//! and runs each configured command in order with explicit fail-fast
//! propagation of a non-zero exit status.

use vstd::prelude::*;
use vstd::string::*;
use crate::platform::Platform;
use crate::text::{contains_str, has_substring, is_match_at};

verus! {

/// The ownership marker embedded in every file this tool writes.
pub open spec fn spec_marker() -> Seq<char> {
    "Automatically generated by the hooks manager. Do not edit!"@
}

/// Returns the ownership marker text.
pub fn marker() -> (r: &'static str)
    ensures
        r@ == spec_marker(),
{
    "Automatically generated by the hooks manager. Do not edit!"
}

/// The comment prefix that precedes the marker: a shebang line on POSIX,
/// a bare comment on Windows.
pub open spec fn spec_preamble_prefix(p: Platform) -> Seq<char> {
    match p {
        Platform::Posix => "#!/bin/sh\n# "@,
        Platform::Windows => "# "@,
    }
}

/// Everything before the command lines: shebang (POSIX), marker comment,
/// event-name comment, blank separator.
pub open spec fn spec_preamble(event: Seq<char>, p: Platform) -> Seq<char> {
    spec_preamble_prefix(p) + spec_marker() + "\n# hook: "@ + event + "\n\n"@
}

/// One command statement with explicit fail-fast propagation.
pub open spec fn spec_command_line(cmd: Seq<char>, p: Platform) -> Seq<char> {
    match p {
        Platform::Posix => cmd + " || exit $?\n"@,
        Platform::Windows => cmd + "\nif ($LASTEXITCODE -ne 0) { exit $LASTEXITCODE }\n"@,
    }
}

/// The command statements of a script, in configuration order.
pub open spec fn spec_command_lines(cmds: Seq<Seq<char>>, p: Platform) -> Seq<char>
    decreases cmds.len(),
{
    if cmds.len() == 0 {
        Seq::empty()
    } else {
        spec_command_lines(cmds.drop_last(), p) + spec_command_line(cmds.last(), p)
    }
}

/// The full text of a rendered hook script.
pub open spec fn spec_render(event: Seq<char>, cmds: Seq<Seq<char>>, p: Platform) -> Seq<char> {
    spec_preamble(event, p) + spec_command_lines(cmds, p)
}

/// The views of a sequence of command strings.
pub open spec fn command_views(cmds: Seq<String>) -> Seq<Seq<char>> {
    crate::text::string_views(cmds)
}

/// Renders the hook script for `event` running `commands` in order on
/// platform `p`. Pure string construction; cannot fail on valid input.
pub fn render_hook(event: &str, commands: &Vec<String>, p: Platform) -> (r: String)
    requires
        commands@.len() >= 1,
    ensures
        r@ == spec_render(event@, command_views(commands@), p),
{
    let ghost cmds = command_views(commands@);
    let mut s = String::new();
    match p {
        Platform::Posix => s.append("#!/bin/sh\n# "),
        Platform::Windows => s.append("# "),
    }
    s.append(marker());
    s.append("\n# hook: ");
    s.append(event);
    s.append("\n\n");
    assert(s@ =~= spec_preamble(event@, p));
    let n = commands.len();
    let mut i: usize = 0;
    while i < n
        invariant
            n == commands@.len(),
            cmds == command_views(commands@),
            i <= n,
            s@ == spec_preamble(event@, p) + spec_command_lines(cmds.take(i as int), p),
        decreases n - i,
    {
        s.append(commands[i].as_str());
        match p {
            Platform::Posix => s.append(" || exit $?\n"),
            Platform::Windows => s.append("\nif ($LASTEXITCODE -ne 0) { exit $LASTEXITCODE }\n"),
        }
        proof {
            assert(cmds.take(i + 1).drop_last() =~= cmds.take(i as int));
            assert(cmds.take(i + 1).last() == cmds[i as int]);
            assert(s@ =~= spec_preamble(event@, p) + spec_command_lines(
                cmds.take(i + 1),
                p,
            ));
        }
        i = i + 1;
    }
    proof {
        assert(cmds.take(n as int) =~= cmds);
    }
    s
}

/// The text of a shim script: a portable stand-in for a symlink that
/// forwards execution to the locally stored script by absolute path.
pub open spec fn spec_shim(target: Seq<char>, p: Platform) -> Seq<char> {
    match p {
        Platform::Posix => "#!/bin/sh\n# "@ + spec_marker() + "\n\""@ + target
            + "\" \"$@\" || exit $?\n"@,
        Platform::Windows => "#!/bin/sh\n# "@ + spec_marker()
            + "\npowershell.exe -NoProfile -ExecutionPolicy Bypass -File \""@ + target
            + "\" || exit $?\n"@,
    }
}

/// Renders the shim placed at a VCS hook slot when symlinks are not
/// available, forwarding to the script at `target`.
pub fn render_shim(target: &str, p: Platform) -> (r: String)
    ensures
        r@ == spec_shim(target@, p),
{
    let mut s = String::new();
    s.append("#!/bin/sh\n# ");
    s.append(marker());
    match p {
        Platform::Posix => s.append("\n\""),
        Platform::Windows => s.append("\npowershell.exe -NoProfile -ExecutionPolicy Bypass -File \""),
    }
    s.append(target);
    match p {
        Platform::Posix => s.append("\" \"$@\" || exit $?\n"),
        Platform::Windows => s.append("\" || exit $?\n"),
    }
    assert(s@ =~= spec_shim(target@, p));
    s
}

/// A file's content proves tool ownership when it carries the marker.
pub open spec fn spec_is_tool_content(content: Seq<char>) -> bool {
    has_substring(content, spec_marker())
}

/// Whether `content` carries the ownership marker, proving that this tool
/// wrote the file it was read from.
pub fn is_tool_content(content: &str) -> (r: bool)
    ensures
        r == spec_is_tool_content(content@),
{
    contains_str(content, marker())
}

/// Every rendered hook script carries the ownership marker.
pub proof fn lemma_render_has_marker(event: Seq<char>, cmds: Seq<Seq<char>>, p: Platform)
    ensures
        spec_is_tool_content(spec_render(event, cmds, p)),
{
    let s = spec_render(event, cmds, p);
    let pre = spec_preamble_prefix(p);
    let m = spec_marker();
    assert(s.subrange(pre.len() as int, pre.len() + m.len() as int) =~= m);
    assert(is_match_at(s, m, pre.len() as int));
}

/// Every rendered shim carries the ownership marker.
pub proof fn lemma_shim_has_marker(target: Seq<char>, p: Platform)
    ensures
        spec_is_tool_content(spec_shim(target, p)),
{
    let s = spec_shim(target, p);
    let pre = "#!/bin/sh\n# "@;
    let m = spec_marker();
    assert(s.subrange(pre.len() as int, pre.len() + m.len() as int) =~= m);
    assert(is_match_at(s, m, pre.len() as int));
}

} // verus!
