# type_signature

Structural signatures for Rust types, verified with Verus.

A `TypeSignatureHasher` describes a type by its name, the signatures of its generic
arguments, the hashes of its const generic arguments, and the names and types of the fields
of each variant. `TypeSignatureHasher::const_hash` mixes all of this into one `u64`: pin it in
a test or a file header, and a change to the type's layout shows up as a changed hash.

Layout:

- `src/__macro_export.rs`: the mixing step, string and const-argument hashes, and the laws of
  mixing (it never maps two values, or two accumulators, to one result).
- `src/model.rs`: the abstract value of a signature and the exact sequence of values that its
  hash mixes.
- `src/hasher.rs`: `TypeSignatureHasher`, its view, `const_hash` and `clone`.
- `src/signature.rs`, `src/std_types.rs`: the `TypeSignature` trait and its implementations for
  types of the standard library.
- `src/derive.rs`: deriving a signature from a type's definition (names, `rename`, `skip`,
  generics, structs, enums and unions), the errors that refuse a definition and their
  messages, and the `where` clause of the derived impl.
- `src/laws.rs`: what changes a signature's hash and what does not.
- `app/lib.rs`: turning a `syn::DeriveInput` into the library's `TypeDef` (given the texts and
  signatures of the types it mentions), and the signatures of `f32` and `f64`.
