# mtc

A small machine orchestrator: a control plane that tracks worker nodes and the
one-shot command "machines" it places on them, a worker agent that runs them,
and the `mtc` command line client.

## Layout

- `src/` — the library, verified with Verus.
  - `cluster.rs` — the control plane's state and every decision its HTTP routes
    make: registration, heartbeats, cordon/uncordon/drain, the stale-node reaper,
    worker launches and stops, machine placement, claim, report, stop, listings
    and the refusal messages.
  - `rules.rs` — the rules those decisions follow, as spec functions: how a
    request changes a node, where a machine goes, what an answer says.
  - `responses.rs` — the answers and reports the services exchange.
  - `tables.rs` — the keyed node, machine and launch tables (one entry per key).
  - `model.rs`, `ids.rs` — nodes, machines, their states and identifiers.
  - `launcher.rs`, `worker.rs`, `client.rs`, `settings.rs` — the launcher, worker
    and client logic.
  - `text.rs`, `sorting.rs` — trimming, decimal rendering, joining, and ordering
    by name.
  - `laws.rs` — properties that relate several operations.
  - `random.rs` — the trusted calls into `uuid` and `rand`.
- `app/` — the programs around the library: the axum control plane, the worker
  agent and the clap client, chosen by the executable's name (`mtcworker`,
  `mtccontrolplane`/`controlplane`, anything else runs `mtc`).
- `tests/` — tests of the library.
