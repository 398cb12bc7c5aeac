//! Structural signatures for types.
//!
//! A [`TypeSignatureHasher`] describes a type by its name, the signatures of its generic
//! arguments, the hashes of its const generic arguments and the names and types of the fields
//! of each of its variants. Its [`TypeSignatureHasher::const_hash`] folds all of this into one
//! `u64`, so that a change in the layout of a type shows up as a change in its hash.

pub mod __macro_export;
pub mod model;
pub mod hasher;
pub mod signature;
pub mod std_types;
pub mod derive;
pub mod laws;
pub mod signature_laws;

pub use hasher::TypeSignatureHasher;
pub use signature::TypeSignature;
