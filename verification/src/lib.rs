//! Multi-remote Git automation: the verified core.
//!
//! MultiGit keeps one local Git repository in step with several hosting
//! providers. This crate holds its data models, configuration handling,
//! conflict decisions, scheduling and the text processing behind its
//! commands, each with a contract checked by Verus.
pub mod cli;
pub mod clock;
pub mod daemon;
pub mod engine;
pub mod error;
pub mod git;
pub mod models;
pub mod named_map;
pub mod pathname;
pub mod text;

use vstd::prelude::*;

verus! {

/// The library's name.
pub const NAME: &'static str = "multigit";

/// The library's version.
pub const VERSION: &'static str = "0.1.0";

/// The full version string: `multigit v0.1.0`.
pub fn version() -> (r: String)
    ensures
        r@ == "multigit v0.1.0"@,
{
    proof {
        reveal_strlit("multigit");
        reveal_strlit(" v");
        reveal_strlit("0.1.0");
        reveal_strlit("multigit v0.1.0");
    }
    text::concat3(NAME, " v", VERSION)
}

} // verus!
