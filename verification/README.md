# cranelift_codegen_meta value types

The value types of Cranelift's meta language, verified with Verus: lane types
(integers and floats), SIMD vectors, dynamically-scaled vectors, CPU flag types
and reference types, with their lane widths and counts, their unique type
numbers, their names (as printed, and as written in generated Rust source) and
their documentation strings.

Layout of `src/`:

- `shared.rs`: the integer, float, flag and reference kinds and their iterators.
- `constants.rs`: the bases of the type numbering scheme.
- `lane.rs`, `vector.rs`, `special.rs`, `reference.rs`, `value.rs`: the types.
- `text.rs`: decimal notation and ASCII upper case, as specifications and code.
- `arith.rs`: base-2 logarithms and powers of two.
- `laws.rs`: properties across functions (unique type numbers, the numbering
  ranges, width round trips, complete iteration).
