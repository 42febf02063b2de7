# impulse_edge

The decisions of an HTTP/3 edge proxy's admission and control planes, written in Rust and proved
with Verus:

- `src/admission` decides on requests before they are forwarded: API keys, JSON web tokens and the
  key sets they are checked against, brownouts, rate limits, quotas and permits. `jwks_cache` holds
  the fetched key sets, with their freshness, retention and refresh rules.
- `src/control_api` is the administrative interface: who an operator is, what they may do, which
  audit records an operation leaves, how reloads, rollbacks and restarts are answered, and what is
  rendered of the running state.
- `src/bootstrap` says what is recorded of requests on the bootstrap listener.
- `src/text`, `src/json`, `src/crypto`, `src/number`, `src/keyed`, `src/headers` are what the rest is built on.

The files named `laws.rs` and `jwks_laws.rs` state properties that span several functions.

Clocks, sockets, threads, files and signature checks are outside the library: a function takes what
they yield as an argument, and where a decision waits for one of them, it is a step from an event to
the next action. `app/` performs those actions.

Calls into other crates go through small functions marked `external_body`, each with a comment on
what is taken on trust.
