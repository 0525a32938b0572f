# cel_cxx

The verified core of a Common Expression Language (CEL) library, written in
Verus. The evaluator itself is a C++ engine; this crate holds the logic around
it, proved against its contracts:

- `src/types`: CEL types, their models, display texts, equality and map-key
  conversions, with the map-key laws in `src/types/laws.rs`.
- `src/error.rs`: status codes and errors, their texts, and the lookup of a
  CEL error in a chain of error sources.
- `src/function`: signatures read from Rust function types, overload tables,
  the function registry and bindings, the declarations and descriptors handed
  to the engine, and the laws of overload tables in `src/function/laws.rs`.
- `src/env_options.rs`: environment options, their consistency, and the
  libraries and extensions they enable.
- `src/macros/expr.rs`: expression trees of macro expansion.
- `src/marker.rs`, `src/rt.rs`, `src/program.rs`: markers of synchronous and
  asynchronous evaluation and of runtimes.

`app/` holds what Verus does not take: standard-error conversions, futures,
and the async runtime adapters. `tests/` runs the library on concrete values.
