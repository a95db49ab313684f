//! Generator for version-control hook scripts.
//!
//! Given a mapping from hook events (such as `pre-commit`) to ordered command
//! lists, the library renders a platform-appropriate script per event, decides
//! where the script and the VCS-side reference to it belong (following
//! worktree redirects), and computes the filesystem actions that realise or
//! undo that state. All decisions are verified; a thin unverified driver
//! performs the actual filesystem calls.

pub mod engine;
pub mod laws;
pub mod layout;
pub mod platform;
pub mod render;
pub mod state;
pub mod table;
pub mod text;
pub mod toolchain;

pub use platform::Platform;
