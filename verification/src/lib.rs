//! Decision logic of a batching FizzBuzz actor pipeline: a generator of
//! consecutive values, a heartbeat that paces the work, a worker that turns
//! values into FizzBuzz messages, and a logger that tallies them.
//!
//! Each actor's waiting, channel traffic and logging happen in the program
//! around this library; the library holds the state of each actor and the
//! steps that decide what it sends and how its counters move.

pub mod actor;
pub mod arg;
pub mod pipeline;
