# aletheia

A processing-near-memory experiment library, verified with Verus.

- `src/engine/` — the memory engine: `u32` buffers and the memory
  operations (copy, vector add/and/or, scan, stride scan, pointer chase,
  random access) that run on them in CPU mode or memory-engine mode. The
  data each operation produces is specified by `operation_output`; both
  modes produce it. `engine/laws.rs` holds properties of the operations.
- `src/workloads/` — dataset scan, pointer chase, vector add and the
  working-set sweep built on the engine.
- `src/node.rs`, `src/protocol.rs` — the host/node protocol messages and
  what a node decides for a command.
- `src/runtime/` — the executor and the local/remote scan policy.
- `src/experiment.rs` — sweep modes, cache levels, size labels and the
  parser of sizes such as `64KB`.
- `src/timing.rs`, `src/random.rs`, `src/ids.rs` — the clock, shuffling
  and request ids, behind small trusted wrappers.
- `app/` — plain Rust around the library: JSON wire format, perf-event
  counters, experiment records, the TCP transport, floating-point
  comparisons and the node, host and demo programs.

The host program in `app/` offers the scan, the benchmark and the
working-set sweep; workloads that would need execution-policy operations
the library does not define (vector add, stride scan and pointer chase on
a node, and the dataset-scaling and stride-testing experiments) are not
offered.
