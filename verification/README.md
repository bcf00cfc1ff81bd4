# prost_canonical_serde

Canonical protobuf JSON for prost-generated types, with its decision logic
verified by Verus.

- `src/` is the verified library. From a plain model of a derive input (the
  fields, variants and attributes of a struct or enum) it decides what the
  generated `serde` implementations do: the JSON and proto names of each
  field, how each field is written and read, in which order keys are routed
  and entries written, which names and numbers read each enum variant,
  which attribute combinations are refused and with which message. `src/laws.rs` states and proves the
  properties that hold across these functions (declaration order, flatten and
  transparent limits, names written are names read back, ...). `src/runtime.rs`
  holds the small runtime items that generated code uses.
- `src/parser.rs` asks the Rust parser (through `syn`) whether a text is a
  path or a type; a verdict keeps the text it was asked about. `src/syntax.rs`
  records, for each attribute value that must be a path or a type, the
  verdict on exactly that text; the planners take it as part of their input.
- `app/` turns `syn` input into that model and the plans back into tokens
  with `quote`, and holds the `serde`-bound runtime traits.
- `tests/` runs the library on concrete inputs.
