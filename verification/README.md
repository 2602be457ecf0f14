# workc

`workc` is a local workflow tool that lets a developer switch context between
tasks: each task has its own workspace, the repos it works on, the skills
mounted into it and the knowledge collected while working on it.

This crate is the tool's library, written in Verus: its rules carry
`requires`/`ensures` contracts that Verus proves.

- `src/domain` — identifiers and timestamps, errors, tasks and their
  metadata rules, the repo catalog, the skill registry, knowledge, editors,
  and the registry of workspaces.
- `src/application` — the use-case services (tasks, the repo catalog, task
  repos, task skills, the skill registry, knowledge), the ports they need
  from the outside world (clock, git, editor launcher, stores), and the
  verified decisions each service makes on what those ports return.
- `src/presenters` — plain-text rendering of every result.
- `src/cli` — the command-line commands as plain values, the requests they
  make, and running them against the services.
- `src/strings.rs`, `src/sorting.rs`, `src/text_sets.rs` — text helpers
  (blank checks, trimming, code-point order, decimal rendering), a stable
  sort, and sorted sets of texts.
- `app/` — the executable: argument parsing with `clap`, JSON output with
  `serde`, and the wiring to the file-system, git and editor adapters.
