# space_kit

A small engine toolkit written in Verus: every function under `src/` carries a contract that
Verus proves.

- `src/glamour/`: matrices of any shape over a generic scalar type, vectors, quaternions,
  affine transformations, orthographic and perspective projections, rotation and view
  matrices. Scalar operations that only a numeric crate can perform (`sqrt`, `tan`, tolerant
  comparison) are called through small trusted wrappers in `scalar.rs` and `approx_eq.rs`.
- `src/ply/`: the in-memory model of Stanford PLY files and their grammar, written as
  functions on bytes: the header (`header.rs`) and the ASCII and binary bodies (`body.rs`).
- `src/pacman.rs`: the movement directions of the player character.
- `src/hierarchy.rs`: the scene hierarchy of identifiers and their data, its structure held in a
  `daggy` graph behind trusted wrappers, with its breadth-first update.
- `app/`: what the verifier does not see: file reading, `serde` support for the library's
  types, and `Display` adaptors.
- `tests/`: the tests, run against the compiled library.
