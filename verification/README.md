# multigit

Keeps one Git repository in step with several hosting providers (GitHub, GitLab,
Bitbucket, Codeberg, Gitea and self-hosted servers): push to and fetch from all of them,
find diverged branches, choose a resolution, run a sync daemon, and a set of everyday
Git helpers (conventional commits, changelogs, stashes, undo, mirrors).

## Layout

- `src/` is the library, written in Verus. Every function there carries a contract that
  Verus proves: configuration merging and remote bookkeeping, the credential table and
  the routing of credential operations, conflict detection and resolution, health
  reports, sync results, the retry policy, sync schedules and the daemon's PID file,
  remote URL conversion, and the decisions and text of the command-line commands
  (commit messages, changelog sections, git argument lists, prompts' validation).
  Calls into outside crates (`url`, `chrono`, `dirs`) and into a few std functions stand
  behind small trusted wrappers whose contracts are stated in their doc comments.
- `tests/` runs the library on concrete values.
- `app/` is the command-line program around the library: argument parsing with `clap`, prompts
  with `dialoguer`, Git access with `git2` and the `git` executable, configuration files
  with `serde` and `toml`, signals with `nix`, and the async runtime.
