# buzz_delivery

Durable workflow delivery, verified with Verus: the identity of a delivery and
its wake hints, the checks an agent makes before it acts on one, the relay's
endpoints for runs and deliveries, and the desktop's switch-perf log.

- `src/workflow_delivery.rs`: bindings, `message-v1` recipients, wakes.
- `src/delivery_verifier.rs`: verification of a claimed delivery on its signed
  artifacts, in three stages around the two answers that come from outside (the
  workflow that a definition describes, what a receipt asserts).
- `src/workflow_api.rs`: requests, records and the rules on them.
- `src/run_reads.rs`, `src/deliveries.rs`: the endpoints as machines that ask one
  question at a time; `src/relay_io.rs` lists the questions and the replies.
- `src/wire.rs`: the answers of the endpoints, member by member.
- `src/perf_log.rs`: shaping of a log line, and rotation as a machine.
- `src/event.rs`, `src/ids.rs`, `src/hex_text.rs`, `src/text.rs`, `src/kind.rs`:
  events, identifiers and text.

Public proof functions named `law_...` state what holds of the library as a whole.

`app/` runs the machines: HTTP handlers over a trait of relay services, the
agent's entry points on signed events, and the log's file system.
