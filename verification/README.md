# steady_performant

The decision logic of a high-throughput FizzBuzz actor pipeline, verified
with Verus.

A generator writes consecutive values into a large channel, a heartbeat paces
the work in bursts, a worker turns batches of values into FizzBuzz messages
(either in batches of at most half a channel, or by converting whatever the
readable ring regions of one channel hold into the writable regions of the
other, however either ring is split), and a logger tallies the messages and reports its counters.

- `src/actor/` holds each actor's state and the steps that decide what it
  sends and how its counters move, with contracts proved by Verus.
- `src/pipeline.rs` holds properties that span actors.
- `app/` runs the actors on the steady_state framework: channels, waiting,
  telemetry and log output.
- `tests/` runs the library on concrete inputs.
