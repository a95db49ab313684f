//! The target execution environment for rendered hook scripts.

use vstd::prelude::*;

verus! {

/// The family of shells a rendered script targets: POSIX `sh`, or the
/// Windows scripting host (PowerShell).
#[derive(Clone, Copy, PartialEq, Eq, Structural, Debug)]
pub enum Platform {
    Posix,
    Windows,
}

impl Platform {
    /// The file extension of a locally stored hook script on this platform.
    pub open spec fn spec_extension(self) -> Seq<char> {
        match self {
            Platform::Posix => ".sh"@,
            Platform::Windows => ".ps1"@,
        }
    }

    /// Returns the file extension used for local hook scripts: `.sh` for
    /// POSIX shells, `.ps1` for the Windows scripting host.
    pub fn extension(self) -> (r: &'static str)
        ensures
            r@ == self.spec_extension(),
    {
        match self {
            Platform::Posix => ".sh",
            Platform::Windows => ".ps1",
        }
    }
}

} // verus!
