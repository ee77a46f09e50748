//! The logic behind the command-line commands.
pub mod remotes;
pub mod conflicts;
pub mod changelog;
pub mod commit;
pub mod naming;
pub mod parser;
pub mod git_args;
pub mod setup;
pub mod targets;
pub mod worktree;
pub mod prompts;
