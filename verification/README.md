# fabric

The domain layer of Fabric, the service that lets Demeter run projects and their resources on
several clusters, written in Verus.

## Layout

- `src/` holds the verified library: the checks and events of the use cases. The creation of
  resources and secrets, the sending and the acceptance of invites, the transfer of ownership
  and a round of usage collection are verified step functions. Each takes what has been read so far and answers with the next
  read, the effect to perform, or the refusal. Its contract fixes which check comes first and
  that no effect happens before every check has passed.
  - `domain/project`: projects, members, invites, API keys.
  - `domain/resource`: resources and the status fields generated for them.
  - `domain/usage`: usage metering.
  - `domain/worker`: workers.
  - `domain/auth`: permissions.
  - `domain/event`: the events on the bus.
- Calls into argon2, bech32, base64, rand, uuid, chrono and serde_json go through small trusted
  wrappers in `domain/crypto.rs`, `domain/json.rs` and `domain/utils`. Each wrapper's doc
  comment says what its contract claims.
- `app/` runs the step functions against the caches, the cluster, Auth0, Stripe and the event
  bus, and holds what needs async code, floating point or Kubernetes types.
- `tests/` exercises the library on concrete values.

Times are `i128` nanoseconds since the Unix epoch, UTC, which holds every instant chrono
represents.
