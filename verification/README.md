# cann

A safe Rust layer over the Huawei Ascend CANN NPU runtime whose behaviour is
stated in Verus contracts and proved.

- `src/sys/`: constants and enum values of the C interface (error codes, data
  types, formats, memory policies, copy kinds, graph status codes).
- `src/error.rs`: the error value, its messages, and the closed out-of-memory
  and recoverable classifications.
- `src/text.rs`: decimal rendering and parsing, splitting at dots, and C
  string buffers, with read-back proofs.
- `src/version.rs`, `context.rs`, `device.rs`, `stream.rs`, `event.rs`,
  `buffer.rs`, `tensor.rs`, `op.rs`, `graph.rs`: the runtime objects. No NPU
  runtime is linked in this build, so each runtime entry point reports the
  "runtime not linked" error (code `-1`); the decisions around runtime calls
  (version probe order, workspace alignment, status conversion, argument
  checks, data type and format mappings) are verified functions.
- `app/`: the command-line entry point and the operator arguments that carry
  floating-point values.
- `tests/`: ordinary Rust tests of the library.
