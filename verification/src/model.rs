//! The abstract value of a signature and the hash that it determines.

use vstd::prelude::*;

use crate::__macro_export::{hash_chars, mix_all};

verus! {

/// What a signature says of a type: its name, the signatures of its generic type arguments,
/// the hashes of its const generic arguments, and its variants.
pub struct SignatureModel {
    pub name: Seq<char>,
    pub generics: Seq<SignatureModel>,
    pub const_hashes: Seq<u64>,
    pub variants: Seq<VariantModel>,
}

/// One variant of a type: its name and its fields, in order.
pub struct VariantModel {
    pub name: Seq<char>,
    pub fields: Seq<FieldModel>,
}

/// One field of a variant: its name and the signature of its type.
pub struct FieldModel {
    pub name: Seq<char>,
    pub ty: SignatureModel,
}

/// The starting accumulator of a signature's hash.
pub const SIGNATURE_SEED: u64 = 0x1b6142dc880364edu64;

/// The values that a field contributes: the hash of its name, then the hash of its type.
pub open spec fn field_values(field: FieldModel) -> Seq<u64>
    decreases field, 0int,
{
    seq![hash_chars(field.name), signature_hash(field.ty)]
}

/// The values of each field, in order.
pub open spec fn field_pieces(fields: Seq<FieldModel>) -> Seq<Seq<u64>>
    decreases fields, 0int,
{
    Seq::new(
        fields.len(),
        |j: int|
            if 0 <= j < fields.len() {
                field_values(fields[j])
            } else {
                Seq::empty()
            },
    )
}

/// The values of a list of fields: those of each field, one after the other.
pub open spec fn fields_values(fields: Seq<FieldModel>) -> Seq<u64>
    decreases fields, 1int,
{
    field_pieces(fields).flatten_alt()
}

/// The values that a variant contributes: the hash of its name, its number of fields, then
/// the values of each field.
pub open spec fn variant_values(variant: VariantModel) -> Seq<u64>
    decreases variant, 0int,
{
    seq![hash_chars(variant.name), variant.fields.len() as u64] + fields_values(variant.fields)
}

/// The values of each variant, in order.
pub open spec fn variant_pieces(variants: Seq<VariantModel>) -> Seq<Seq<u64>>
    decreases variants, 0int,
{
    Seq::new(
        variants.len(),
        |i: int|
            if 0 <= i < variants.len() {
                variant_values(variants[i])
            } else {
                Seq::empty()
            },
    )
}

/// The values of a list of variants: those of each variant, one after the other.
pub open spec fn variants_values(variants: Seq<VariantModel>) -> Seq<u64>
    decreases variants, 1int,
{
    variant_pieces(variants).flatten_alt()
}

/// The hashes of a signature's generic arguments, in order.
pub open spec fn generic_hashes(sig: SignatureModel) -> Seq<u64>
    decreases sig, 0int,
{
    Seq::new(
        sig.generics.len(),
        |i: int|
            if 0 <= i < sig.generics.len() {
                signature_hash(sig.generics[i])
            } else {
                0
            },
    )
}

/// The values that a signature's hash is made of, in the order they are mixed:
/// the hash of the name; the number of generic arguments and the hash of each;
/// the number of const generic hashes and each of them; the number of variants and the
/// values of each variant.
pub open spec fn signature_values(sig: SignatureModel) -> Seq<u64>
    decreases sig, 1int,
{
    seq![hash_chars(sig.name), sig.generics.len() as u64] + generic_hashes(sig) + seq![
        sig.const_hashes.len() as u64,
    ] + sig.const_hashes + seq![sig.variants.len() as u64] + variants_values(sig.variants)
}

/// The hash of a signature: all its values mixed into the seed.
pub open spec fn signature_hash(sig: SignatureModel) -> u64
    decreases sig, 2int,
{
    mix_all(SIGNATURE_SEED, signature_values(sig))
}

} // verus!
