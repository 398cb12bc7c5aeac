//! Laws that relate the hashes of signatures to their parts.

use vstd::prelude::*;

use crate::__macro_export::{
    const_bool_hash, const_usize_hash, hash_bytes, lemma_hash_bytes_single_difference,
    lemma_mix_all_single_difference, lemma_mix_injective_in_value, BOOL_FALSE_VALUE,
    BOOL_TRUE_VALUE,
};
use crate::__macro_export::{
    hash_chars, lemma_mix_all_append, lemma_mix_injective_in_acc, mix, mix_all,
};
use crate::derive::{
    derive_error, derived_model, field_attr_rename, field_error, field_name, field_skipped,
    fields_error, fields_model, first_some, last_some, const_generic_models, generic_models,
    const_param_error, const_support_error, data_error, data_model, union_field_error,
    union_field_model, union_field_skipped, union_model, variant_def_model, variant_error,
    renamed, type_attr_rename, type_attrs_error, FieldAttr, FieldDef, GenericArg, TypeAttr, TypeData,
    TypeDef, UnionFieldDef, VariantDef, dedup, field_types, generic_constraints_model,
    type_param_names, union_field_types, variants_field_types, const_value_hash,
};
use crate::model::{
    field_pieces, field_values, fields_values, generic_hashes, signature_hash, signature_values,
    variant_pieces, variant_values, variants_values, FieldModel, SignatureModel, VariantModel,
    SIGNATURE_SEED,
};

verus! {

/// Two distinct `usize` const generic arguments hash differently.
pub proof fn law_const_usize_hash_injective(a: usize, b: usize)
    ensures
        a != b ==> const_usize_hash(a) != const_usize_hash(b),
{
    lemma_mix_injective_in_value(crate::__macro_export::hash_chars("usize"@), a as u64, b as u64);
}

/// The two `bool` const generic arguments hash differently.
pub proof fn law_const_bool_hash_injective()
    ensures
        const_bool_hash(true) != const_bool_hash(false),
{
    lemma_mix_injective_in_value(
        crate::__macro_export::hash_chars("bool"@),
        BOOL_TRUE_VALUE,
        BOOL_FALSE_VALUE,
    );
}

/// Changing one generic argument of a signature to one that hashes differently, and nothing
/// else, changes the signature's hash.
pub proof fn law_generic_argument_changes_hash(sig1: SignatureModel, sig2: SignatureModel, i: int)
    requires
        sig1.name == sig2.name,
        sig1.const_hashes == sig2.const_hashes,
        sig1.variants == sig2.variants,
        sig1.generics.len() == sig2.generics.len(),
        0 <= i < sig1.generics.len(),
        forall|j: int| 0 <= j < sig1.generics.len() && j != i ==> sig1.generics[j] == sig2.generics[j],
        signature_hash(sig1.generics[i]) != signature_hash(sig2.generics[i]),
    ensures
        signature_hash(sig1) != signature_hash(sig2),
{
    let v1 = signature_values(sig1);
    let v2 = signature_values(sig2);
    let g1 = generic_hashes(sig1);
    let g2 = generic_hashes(sig2);
    assert(v1.len() == v2.len());
    assert(v1[2 + i] == g1[i]);
    assert(v2[2 + i] == g2[i]);
    assert forall|j: int| 0 <= j < v1.len() && j != 2 + i implies v1[j] == v2[j] by {
        if 2 <= j < 2 + g1.len() {
            assert(g1[j - 2] == g2[j - 2]);
        }
    }
    lemma_mix_all_single_difference(SIGNATURE_SEED, v1, v2, 2 + i);
}

/// Changing one const generic hash of a signature, and nothing else, changes the
/// signature's hash.
pub proof fn law_const_generic_changes_hash(sig1: SignatureModel, sig2: SignatureModel, i: int)
    requires
        sig1.name == sig2.name,
        sig1.generics == sig2.generics,
        sig1.variants == sig2.variants,
        sig1.const_hashes.len() == sig2.const_hashes.len(),
        0 <= i < sig1.const_hashes.len(),
        forall|j: int|
            0 <= j < sig1.const_hashes.len() && j != i ==> sig1.const_hashes[j]
                == sig2.const_hashes[j],
        sig1.const_hashes[i] != sig2.const_hashes[i],
    ensures
        signature_hash(sig1) != signature_hash(sig2),
{
    let v1 = signature_values(sig1);
    let v2 = signature_values(sig2);
    let k = 3 + sig1.generics.len();
    assert(generic_hashes(sig1) == generic_hashes(sig2));
    assert(v1.len() == v2.len());
    assert(v1[k + i] == sig1.const_hashes[i]);
    assert(v2[k + i] == sig2.const_hashes[i]);
    assert forall|j: int| 0 <= j < v1.len() && j != k + i implies v1[j] == v2[j] by {
        if k <= j < k + sig1.const_hashes.len() {
            assert(sig1.const_hashes[j - k] == sig2.const_hashes[j - k]);
        }
    }
    lemma_mix_all_single_difference(SIGNATURE_SEED, v1, v2, k + i);
}

/// Changing one byte of a type's name, and nothing else, changes the signature's hash.
pub proof fn law_name_byte_changes_hash(sig1: SignatureModel, sig2: SignatureModel, i: int)
    requires
        sig1.generics == sig2.generics,
        sig1.const_hashes == sig2.const_hashes,
        sig1.variants == sig2.variants,
        vstd::utf8::encode_utf8(sig1.name).len() == vstd::utf8::encode_utf8(sig2.name).len(),
        0 <= i < vstd::utf8::encode_utf8(sig1.name).len(),
        vstd::utf8::encode_utf8(sig1.name)[i] != vstd::utf8::encode_utf8(sig2.name)[i],
        forall|j: int|
            0 <= j < vstd::utf8::encode_utf8(sig1.name).len() && j != i
                ==> vstd::utf8::encode_utf8(sig1.name)[j] == vstd::utf8::encode_utf8(sig2.name)[j],
    ensures
        signature_hash(sig1) != signature_hash(sig2),
{
    let b1 = vstd::utf8::encode_utf8(sig1.name);
    let b2 = vstd::utf8::encode_utf8(sig2.name);
    lemma_hash_bytes_single_difference(b1, b2, i);
    let v1 = signature_values(sig1);
    let v2 = signature_values(sig2);
    assert(generic_hashes(sig1) == generic_hashes(sig2));
    assert(v1[0] == hash_bytes(b1));
    assert(v2[0] == hash_bytes(b2));
    assert forall|j: int| 0 <= j < v1.len() && j != 0 implies v1[j] == v2[j] by {}
    lemma_mix_all_single_difference(SIGNATURE_SEED, v1, v2, 0);
}


/// Whether mixing `x` and mixing `y` from any one accumulator always give different results.
pub open spec fn diverge(x: Seq<u64>, y: Seq<u64>) -> bool {
    forall|acc: u64| #[trigger] mix_all(acc, x) != mix_all(acc, y)
}

/// Accumulators that differ stay different when one sequence is mixed into both.
proof fn lemma_mix_all_keeps_apart(a1: u64, a2: u64, s: Seq<u64>)
    requires
        a1 != a2,
    ensures
        mix_all(a1, s) != mix_all(a2, s),
    decreases s.len(),
{
    if s.len() > 0 {
        lemma_mix_all_keeps_apart(a1, a2, s.drop_last());
        lemma_mix_injective_in_acc(mix_all(a1, s.drop_last()), mix_all(a2, s.drop_last()), s.last());
    }
}

/// Diverging sequences still diverge with a common prefix and a common suffix.
proof fn lemma_diverge_in_context(p: Seq<u64>, x: Seq<u64>, y: Seq<u64>, q: Seq<u64>)
    requires
        diverge(x, y),
    ensures
        diverge(p + x + q, p + y + q),
{
    assert forall|acc: u64| #[trigger] mix_all(acc, p + x + q) != mix_all(acc, p + y + q) by {
        lemma_mix_all_append(acc, p, x);
        lemma_mix_all_append(acc, p, y);
        lemma_mix_all_append(acc, p + x, q);
        lemma_mix_all_append(acc, p + y, q);
        assert(mix_all(mix_all(acc, p), x) != mix_all(mix_all(acc, p), y));
        lemma_mix_all_keeps_apart(mix_all(acc, p + x), mix_all(acc, p + y), q);
    }
}

/// Flattening distributes over concatenation.
proof fn lemma_flatten_concat(a: Seq<Seq<u64>>, b: Seq<Seq<u64>>)
    ensures
        (a + b).flatten_alt() == a.flatten_alt() + b.flatten_alt(),
    decreases b.len(),
{
    if b.len() == 0 {
        assert(a + b =~= a);
        assert(a.flatten_alt() + b.flatten_alt() =~= a.flatten_alt());
    } else {
        lemma_flatten_concat(a, b.drop_last());
        assert((a + b).drop_last() =~= a + b.drop_last());
        assert(a.flatten_alt() + b.flatten_alt() =~= a.flatten_alt() + b.drop_last().flatten_alt()
            + b.last());
    }
}

/// Flattening one piece gives that piece.
proof fn lemma_flatten_single(x: Seq<u64>)
    ensures
        seq![x].flatten_alt() == x,
{
    let s = seq![x];
    assert(s.drop_last() =~= Seq::<Seq<u64>>::empty());
    let e = s.drop_last();
    assert(e.flatten_alt() =~= Seq::<u64>::empty());
    assert(e.flatten_alt() + x =~= x);
}

/// Replacing one piece by a diverging one makes the flattened sequences diverge.
proof fn lemma_flatten_update_diverges(pieces: Seq<Seq<u64>>, k: int, x: Seq<u64>)
    requires
        0 <= k < pieces.len(),
        diverge(pieces[k], x),
    ensures
        diverge(pieces.flatten_alt(), pieces.update(k, x).flatten_alt()),
{
    let before = pieces.take(k);
    let after = pieces.skip(k + 1);
    assert(pieces =~= before + seq![pieces[k]] + after);
    assert(pieces.update(k, x) =~= before + seq![x] + after);
    lemma_flatten_concat(before + seq![pieces[k]], after);
    lemma_flatten_concat(before, seq![pieces[k]]);
    lemma_flatten_concat(before + seq![x], after);
    lemma_flatten_concat(before, seq![x]);
    lemma_flatten_single(pieces[k]);
    lemma_flatten_single(x);
    lemma_diverge_in_context(before.flatten_alt(), pieces[k], x, after.flatten_alt());
}

/// The value pieces of fields where one field's type is replaced.
proof fn lemma_field_pieces_update(fields: Seq<FieldModel>, k: int, f: FieldModel)
    requires
        0 <= k < fields.len(),
    ensures
        field_pieces(fields.update(k, f)) == field_pieces(fields).update(k, field_values(f)),
{
    assert(field_pieces(fields.update(k, f)) =~= field_pieces(fields).update(k, field_values(f)));
}

/// The value pieces of variants where one variant is replaced.
proof fn lemma_variant_pieces_update(variants: Seq<VariantModel>, k: int, v: VariantModel)
    requires
        0 <= k < variants.len(),
    ensures
        variant_pieces(variants.update(k, v)) == variant_pieces(variants).update(
            k,
            variant_values(v),
        ),
{
    assert(variant_pieces(variants.update(k, v)) =~= variant_pieces(variants).update(
        k,
        variant_values(v),
    ));
}

/// A signature whose one field of one variant is replaced.
pub open spec fn with_field(
    sig: SignatureModel,
    variant_idx: int,
    field_idx: int,
    field: FieldModel,
) -> SignatureModel {
    SignatureModel {
        variants: sig.variants.update(
            variant_idx,
            VariantModel {
                fields: sig.variants[variant_idx].fields.update(field_idx, field),
                ..sig.variants[variant_idx]
            },
        ),
        ..sig
    }
}

/// A signature whose one variant is renamed.
pub open spec fn with_variant_name(
    sig: SignatureModel,
    variant_idx: int,
    name: Seq<char>,
) -> SignatureModel {
    SignatureModel {
        variants: sig.variants.update(variant_idx, VariantModel { name, ..sig.variants[variant_idx] }),
        ..sig
    }
}

/// Replacing a variant's values by diverging ones makes the signature's values diverge.
proof fn lemma_variant_change_diverges(sig: SignatureModel, variant_idx: int, new_variant: VariantModel)
    requires
        0 <= variant_idx < sig.variants.len(),
        diverge(variant_values(sig.variants[variant_idx]), variant_values(new_variant)),
    ensures
        signature_hash(sig) != signature_hash(
            SignatureModel { variants: sig.variants.update(variant_idx, new_variant), ..sig },
        ),
{
    let new_sig = SignatureModel { variants: sig.variants.update(variant_idx, new_variant), ..sig };
    lemma_variant_pieces_update(sig.variants, variant_idx, new_variant);
    lemma_flatten_update_diverges(variant_pieces(sig.variants), variant_idx, variant_values(new_variant));
    let prefix = seq![crate::__macro_export::hash_chars(sig.name), sig.generics.len() as u64] + generic_hashes(sig) + seq![
        sig.const_hashes.len() as u64,
    ] + sig.const_hashes + seq![sig.variants.len() as u64];
    assert(generic_hashes(new_sig) == generic_hashes(sig));
    lemma_diverge_in_context(prefix, variants_values(sig.variants), variants_values(new_sig.variants), seq![]);
    assert(prefix + variants_values(sig.variants) + seq![] =~= signature_values(sig));
    assert(prefix + variants_values(new_sig.variants) + seq![] =~= signature_values(new_sig));
    assert(mix_all(SIGNATURE_SEED, signature_values(sig)) != mix_all(SIGNATURE_SEED, signature_values(new_sig)));
}

/// Replacing a field's values by diverging ones makes the signature's values diverge.
proof fn lemma_field_change_diverges(sig: SignatureModel, variant_idx: int, field_idx: int, new_field: FieldModel)
    requires
        0 <= variant_idx < sig.variants.len(),
        0 <= field_idx < sig.variants[variant_idx].fields.len(),
        diverge(field_values(sig.variants[variant_idx].fields[field_idx]), field_values(new_field)),
    ensures
        signature_hash(sig) != signature_hash(with_field(sig, variant_idx, field_idx, new_field)),
{
    let variant = sig.variants[variant_idx];
    let new_variant = VariantModel { fields: variant.fields.update(field_idx, new_field), ..variant };
    lemma_field_pieces_update(variant.fields, field_idx, new_field);
    lemma_flatten_update_diverges(field_pieces(variant.fields), field_idx, field_values(new_field));
    let head = seq![crate::__macro_export::hash_chars(variant.name), variant.fields.len() as u64];
    lemma_diverge_in_context(head, fields_values(variant.fields), fields_values(new_variant.fields), seq![]);
    assert(head + fields_values(variant.fields) + seq![] =~= variant_values(variant));
    assert(head + fields_values(new_variant.fields) + seq![] =~= variant_values(new_variant));
    lemma_variant_change_diverges(sig, variant_idx, new_variant);
}

/// Changing the type of one field of one variant to one that hashes differently, and nothing
/// else, changes the signature's hash.
pub proof fn law_field_type_changes_hash(
    sig: SignatureModel,
    variant_idx: int,
    field_idx: int,
    new_ty: SignatureModel,
)
    requires
        0 <= variant_idx < sig.variants.len(),
        0 <= field_idx < sig.variants[variant_idx].fields.len(),
        signature_hash(new_ty) != signature_hash(sig.variants[variant_idx].fields[field_idx].ty),
    ensures
        signature_hash(sig) != signature_hash(
            with_field(
                sig,
                variant_idx,
                field_idx,
                FieldModel { ty: new_ty, ..sig.variants[variant_idx].fields[field_idx] },
            ),
        ),
{
    let field = sig.variants[variant_idx].fields[field_idx];
    let new_field = FieldModel { ty: new_ty, ..field };
    let name_hash = crate::__macro_export::hash_chars(field.name);
    assert forall|acc: u64|
        #[trigger] mix_all(acc, field_values(field)) != mix_all(acc, field_values(new_field)) by {
        crate::__macro_export::lemma_mix_all_pair(acc, name_hash, signature_hash(field.ty));
        crate::__macro_export::lemma_mix_all_pair(acc, name_hash, signature_hash(new_ty));
        lemma_mix_injective_in_value(mix(acc, name_hash), signature_hash(field.ty), signature_hash(new_ty));
    }
    lemma_field_change_diverges(sig, variant_idx, field_idx, new_field);
}

/// Renaming one field of one variant to a name that hashes differently, and nothing else,
/// changes the signature's hash.
pub proof fn law_field_name_changes_hash(
    sig: SignatureModel,
    variant_idx: int,
    field_idx: int,
    new_name: Seq<char>,
)
    requires
        0 <= variant_idx < sig.variants.len(),
        0 <= field_idx < sig.variants[variant_idx].fields.len(),
        crate::__macro_export::hash_chars(new_name) != crate::__macro_export::hash_chars(
            sig.variants[variant_idx].fields[field_idx].name,
        ),
    ensures
        signature_hash(sig) != signature_hash(
            with_field(
                sig,
                variant_idx,
                field_idx,
                FieldModel { name: new_name, ..sig.variants[variant_idx].fields[field_idx] },
            ),
        ),
{
    let field = sig.variants[variant_idx].fields[field_idx];
    let new_field = FieldModel { name: new_name, ..field };
    let old_hash = crate::__macro_export::hash_chars(field.name);
    let new_hash = crate::__macro_export::hash_chars(new_name);
    let ty_hash = signature_hash(field.ty);
    assert forall|acc: u64|
        #[trigger] mix_all(acc, field_values(field)) != mix_all(acc, field_values(new_field)) by {
        crate::__macro_export::lemma_mix_all_pair(acc, old_hash, ty_hash);
        crate::__macro_export::lemma_mix_all_pair(acc, new_hash, ty_hash);
        lemma_mix_injective_in_value(acc, old_hash, new_hash);
        lemma_mix_injective_in_acc(mix(acc, old_hash), mix(acc, new_hash), ty_hash);
    }
    lemma_field_change_diverges(sig, variant_idx, field_idx, new_field);
}

/// Renaming one variant to a name that hashes differently, and nothing else, changes the
/// signature's hash.
pub proof fn law_variant_name_changes_hash(sig: SignatureModel, variant_idx: int, new_name: Seq<char>)
    requires
        0 <= variant_idx < sig.variants.len(),
        crate::__macro_export::hash_chars(new_name) != crate::__macro_export::hash_chars(
            sig.variants[variant_idx].name,
        ),
    ensures
        signature_hash(sig) != signature_hash(with_variant_name(sig, variant_idx, new_name)),
{
    let variant = sig.variants[variant_idx];
    let new_variant = VariantModel { name: new_name, ..variant };
    let old_hash = crate::__macro_export::hash_chars(variant.name);
    let new_hash = crate::__macro_export::hash_chars(new_name);
    let count = variant.fields.len() as u64;
    let rest = fields_values(variant.fields);
    assert(diverge(variant_values(variant), variant_values(new_variant))) by {
        assert forall|acc: u64|
            #[trigger] mix_all(acc, variant_values(variant)) != mix_all(acc, variant_values(new_variant)) by {
            crate::__macro_export::lemma_mix_all_pair(acc, old_hash, count);
            crate::__macro_export::lemma_mix_all_pair(acc, new_hash, count);
            lemma_mix_injective_in_value(acc, old_hash, new_hash);
            lemma_mix_injective_in_acc(mix(acc, old_hash), mix(acc, new_hash), count);
            lemma_mix_all_append(acc, seq![old_hash, count], rest);
            lemma_mix_all_append(acc, seq![new_hash, count], rest);
            lemma_mix_all_keeps_apart(mix_all(acc, seq![old_hash, count]), mix_all(acc, seq![new_hash, count]), rest);
        }
    }
    lemma_variant_change_diverges(sig, variant_idx, new_variant);
}

/// Whether a field's name in the signature does not depend on its position: it has a name of
/// its own or is renamed.
pub open spec fn field_has_name(field: FieldDef) -> bool {
    field.ident is Some || last_some(field.attrs@, |a: FieldAttr| field_attr_rename(a)) is Some
}

/// Field lists that agree, position by position, on what is skipped, on names and on types
/// give the same fields.
pub proof fn lemma_fields_model_congruent(fields1: Seq<FieldDef>, fields2: Seq<FieldDef>)
    requires
        fields1.len() == fields2.len(),
        forall|i: int|
            0 <= i < fields1.len() ==> {
                &&& field_skipped(#[trigger] fields1[i]) == field_skipped(fields2[i])
                &&& field_name(fields1[i], i) == field_name(fields2[i], i)
                &&& fields1[i].ty@ == fields2[i].ty@
            },
    ensures
        fields_model(fields1) == fields_model(fields2),
    decreases fields1.len(),
{
    if fields1.len() > 0 {
        let n = fields1.len() - 1;
        assert(field_skipped(fields1[n]) == field_skipped(fields2[n]));
        lemma_fields_model_congruent(fields1.drop_last(), fields2.drop_last());
    }
}

/// A skipped field is left out of the signature: with it or without it, among fields that
/// have names after it, the fields are the same; and when its own attributes are recognized,
/// so are the errors.
pub proof fn law_skipped_field_is_omitted(
    before: Seq<FieldDef>,
    skipped: FieldDef,
    after: Seq<FieldDef>,
)
    requires
        field_skipped(skipped),
        forall|i: int| 0 <= i < after.len() ==> field_has_name(#[trigger] after[i]),
    ensures
        fields_model(before.push(skipped) + after) == fields_model(before + after),
        field_error(skipped) is None ==> fields_error(before.push(skipped) + after)
            == fields_error(before + after),
    decreases after.len(),
{
    if after.len() == 0 {
        assert(before.push(skipped) + after =~= before.push(skipped));
        assert(before + after =~= before);
        assert(before.push(skipped).drop_last() =~= before);
    } else {
        let last = after.last();
        law_skipped_field_is_omitted(before, skipped, after.drop_last());
        assert((before.push(skipped) + after).drop_last() =~= before.push(skipped)
            + after.drop_last());
        assert((before + after).drop_last() =~= before + after.drop_last());
        assert((before.push(skipped) + after).last() == last);
        assert((before + after).last() == last);
        assert(field_has_name(last));
        assert(field_name(last, (before.push(skipped) + after).len() - 1) == field_name(
            last,
            (before + after).len() - 1,
        ));
    }
}

/// Renaming a field to its previous name keeps the signature: a field renamed to a name gives
/// the same fields as one declared under that name.
pub proof fn law_field_rename_matches_original(
    fields: Seq<FieldDef>,
    k: int,
    renamed: FieldDef,
)
    requires
        0 <= k < fields.len(),
        fields[k].ident is Some,
        last_some(fields[k].attrs@, |a: FieldAttr| field_attr_rename(a)) is None,
        last_some(renamed.attrs@, |a: FieldAttr| field_attr_rename(a)) == Some(
            fields[k].ident->Some_0@,
        ),
        field_skipped(renamed) == field_skipped(fields[k]),
        renamed.ty@ == fields[k].ty@,
    ensures
        fields_model(fields.update(k, renamed)) == fields_model(fields),
{
    let updated = fields.update(k, renamed);
    assert forall|i: int| 0 <= i < updated.len() implies {
        &&& field_skipped(#[trigger] updated[i]) == field_skipped(fields[i])
        &&& field_name(updated[i], i) == field_name(fields[i], i)
        &&& updated[i].ty@ == fields[i].ty@
    } by {}
    lemma_fields_model_congruent(updated, fields);
}

/// Renaming a type to the name of another type with the same attributes otherwise, generics
/// and fields gives the same signature.
pub proof fn law_rename_matches_original(original: TypeDef, renamed: TypeDef)
    requires
        last_some(original.attrs@, |a: TypeAttr| type_attr_rename(a)) is None,
        last_some(renamed.attrs@, |a: TypeAttr| type_attr_rename(a)) == Some(original.ident@),
        type_attrs_error(original.attrs@) == type_attrs_error(renamed.attrs@),
        renamed.generics@ == original.generics@,
        renamed.data == original.data,
    ensures
        derive_error(renamed) == derive_error(original),
        derived_model(renamed) == derived_model(original),
{
}

/// Lifetime parameters do not affect the signature of a type.
proof fn lemma_lifetime_arg_omitted(before: Seq<GenericArg>, lifetime: GenericArg, after: Seq<GenericArg>)
    requires
        lifetime is Lifetime,
    ensures
        generic_models(before.push(lifetime) + after) == generic_models(before + after),
        const_generic_models(before.push(lifetime) + after) == const_generic_models(before + after),
    decreases after.len(),
{
    if after.len() == 0 {
        assert(before.push(lifetime) + after =~= before.push(lifetime));
        assert(before + after =~= before);
        assert(before.push(lifetime).drop_last() =~= before);
    } else {
        lemma_lifetime_arg_omitted(before, lifetime, after.drop_last());
        assert((before.push(lifetime) + after).drop_last() =~= before.push(lifetime)
            + after.drop_last());
        assert((before + after).drop_last() =~= before + after.drop_last());
        assert((before.push(lifetime) + after).last() == after.last());
        assert((before + after).last() == after.last());
    }
}

/// A lifetime parameter, wherever it stands among a type's generic parameters, does not
/// affect its signature.
pub proof fn law_lifetime_does_not_affect_signature(
    without: TypeDef,
    with: TypeDef,
    k: int,
    lifetime: GenericArg,
)
    requires
        lifetime is Lifetime,
        0 <= k <= without.generics@.len(),
        with.generics@ == without.generics@.insert(k, lifetime),
        with.ident == without.ident,
        with.attrs@ == without.attrs@,
        with.data == without.data,
    ensures
        derive_error(with) == derive_error(without),
        derived_model(with) == derived_model(without),
{
    let g = without.generics@;
    assert(g.insert(k, lifetime) =~= g.take(k).push(lifetime) + g.skip(k));
    assert(g =~= g.take(k) + g.skip(k));
    lemma_lifetime_arg_omitted(g.take(k), lifetime, g.skip(k));
    lemma_first_some_insert_none(g.take(k), lifetime, g.skip(k), |a: GenericArg| const_param_error(a));
    lemma_first_some_insert_none(g.take(k), lifetime, g.skip(k), |a: GenericArg| const_support_error(a));
}


/// An item on which `f` gives `None` does not change the first `Some` of `f`.
pub proof fn lemma_first_some_insert_none<A, B>(
    before: Seq<A>,
    x: A,
    after: Seq<A>,
    f: spec_fn(A) -> Option<B>,
)
    requires
        f(x) is None,
    ensures
        first_some(before.push(x) + after, f) == first_some(before + after, f),
    decreases after.len(),
{
    if after.len() == 0 {
        assert(before.push(x) + after =~= before.push(x));
        assert(before + after =~= before);
        assert(before.push(x).drop_last() =~= before);
    } else {
        lemma_first_some_insert_none(before, x, after.drop_last(), f);
        assert((before.push(x) + after).drop_last() =~= before.push(x) + after.drop_last());
        assert((before + after).drop_last() =~= before + after.drop_last());
        assert((before.push(x) + after).last() == after.last());
        assert((before + after).last() == after.last());
    }
}

/// Sequences on whose items `f` gives the same results have the same first `Some`.
pub proof fn lemma_first_some_congruent<A, B>(s1: Seq<A>, s2: Seq<A>, f: spec_fn(A) -> Option<B>)
    requires
        s1.len() == s2.len(),
        forall|i: int| 0 <= i < s1.len() ==> f(#[trigger] s1[i]) == f(s2[i]),
    ensures
        first_some(s1, f) == first_some(s2, f),
    decreases s1.len(),
{
    if s1.len() > 0 {
        assert(f(s1[s1.len() - 1]) == f(s2[s1.len() - 1]));
        lemma_first_some_congruent(s1.drop_last(), s2.drop_last(), f);
    }
}

/// A skipped union field is left out of the signature's variants.
proof fn lemma_union_skipped_field_omitted(
    before: Seq<UnionFieldDef>,
    skipped: UnionFieldDef,
    after: Seq<UnionFieldDef>,
)
    requires
        union_field_skipped(skipped),
    ensures
        union_model(before.push(skipped) + after) == union_model(before + after),
    decreases after.len(),
{
    if after.len() == 0 {
        assert(before.push(skipped) + after =~= before.push(skipped));
        assert(before + after =~= before);
        assert(before.push(skipped).drop_last() =~= before);
    } else {
        lemma_union_skipped_field_omitted(before, skipped, after.drop_last());
        assert((before.push(skipped) + after).drop_last() =~= before.push(skipped)
            + after.drop_last());
        assert((before + after).drop_last() =~= before + after.drop_last());
        assert((before.push(skipped) + after).last() == after.last());
        assert((before + after).last() == after.last());
    }
}

/// Union field lists that agree, position by position, on what is skipped and on the
/// variant each field makes give the same variants.
proof fn lemma_union_model_congruent(fields1: Seq<UnionFieldDef>, fields2: Seq<UnionFieldDef>)
    requires
        fields1.len() == fields2.len(),
        forall|i: int|
            0 <= i < fields1.len() ==> union_field_skipped(#[trigger] fields1[i])
                == union_field_skipped(fields2[i]) && union_field_model(fields1[i])
                == union_field_model(fields2[i]),
    ensures
        union_model(fields1) == union_model(fields2),
    decreases fields1.len(),
{
    if fields1.len() > 0 {
        assert(union_field_skipped(fields1[fields1.len() - 1]) == union_field_skipped(
            fields2[fields1.len() - 1],
        ));
        lemma_union_model_congruent(fields1.drop_last(), fields2.drop_last());
    }
}

/// `fields2` is `fields1` with a skipped field, whose attributes are recognized, inserted at
/// `k`, before fields that all have names.
pub open spec fn inserts_skipped_field(
    fields1: Seq<FieldDef>,
    fields2: Seq<FieldDef>,
    k: int,
    skipped: FieldDef,
) -> bool {
    &&& 0 <= k <= fields1.len()
    &&& fields2 == fields1.insert(k, skipped)
    &&& field_skipped(skipped)
    &&& field_error(skipped) is None
    &&& forall|i: int| k <= i < fields1.len() ==> field_has_name(#[trigger] fields1[i])
}

/// A field list with a skipped field inserted gives the same fields and the same errors.
proof fn lemma_inserted_skipped_field(
    fields1: Seq<FieldDef>,
    fields2: Seq<FieldDef>,
    k: int,
    skipped: FieldDef,
)
    requires
        inserts_skipped_field(fields1, fields2, k, skipped),
    ensures
        fields_model(fields2) == fields_model(fields1),
        fields_error(fields2) == fields_error(fields1),
{
    let before = fields1.take(k);
    let after = fields1.skip(k);
    assert(fields2 =~= before.push(skipped) + after);
    assert(fields1 =~= before + after);
    assert forall|i: int| 0 <= i < after.len() implies field_has_name(#[trigger] after[i]) by {
        assert(after[i] == fields1[k + i]);
    }
    law_skipped_field_is_omitted(before, skipped, after);
}

/// `data2` is `data1` with one skipped field added: to a struct's fields, to one variant's
/// fields (the variant otherwise unchanged), or to a union's fields. A skipped field of a
/// struct or a variant comes before fields that all have names.
pub open spec fn adds_skipped_field(data1: TypeData, data2: TypeData) -> bool {
    match (data1, data2) {
        (TypeData::Struct(f1), TypeData::Struct(f2)) => exists|k: int, s: FieldDef|
            inserts_skipped_field(f1@, f2@, k, s),
        (TypeData::Enum(v1), TypeData::Enum(v2)) => {
            &&& v1@.len() == v2@.len()
            &&& exists|j: int, k: int, s: FieldDef|
                {
                    &&& 0 <= j < v1@.len()
                    &&& forall|i: int| 0 <= i < v1@.len() && i != j ==> v1@[i] == v2@[i]
                    &&& v2@[j].ident == v1@[j].ident
                    &&& v2@[j].attrs@ == v1@[j].attrs@
                    &&& inserts_skipped_field(v1@[j].fields@, v2@[j].fields@, k, s)
                }
        },
        (TypeData::Union(u1), TypeData::Union(u2)) => exists|k: int, s: UnionFieldDef|
            {
                &&& 0 <= k <= u1@.len()
                &&& u2@ == u1@.insert(k, s)
                &&& union_field_skipped(s)
                &&& union_field_error(s) is None
            },
        _ => false,
    }
}

/// A skipped field adds nothing to a signature: a type with one more skipped field (in a
/// struct, an enum variant or a union) derives the same signature, and the same errors.
pub proof fn law_skipped_field_is_omitted_from_signature(without: TypeDef, with: TypeDef)
    requires
        adds_skipped_field(without.data, with.data),
        with.ident == without.ident,
        with.attrs@ == without.attrs@,
        with.generics@ == without.generics@,
    ensures
        derive_error(with) == derive_error(without),
        derived_model(with) == derived_model(without),
{
    match (without.data, with.data) {
        (TypeData::Struct(f1), TypeData::Struct(f2)) => {
            let (k, s) = choose|k: int, s: FieldDef| inserts_skipped_field(f1@, f2@, k, s);
            lemma_inserted_skipped_field(f1@, f2@, k, s);
            assert(data_model(with.data) =~= data_model(without.data));
        },
        (TypeData::Enum(v1), TypeData::Enum(v2)) => {
            let (j, k, s) = choose|j: int, k: int, s: FieldDef|
                {
                    &&& 0 <= j < v1@.len()
                    &&& forall|i: int| 0 <= i < v1@.len() && i != j ==> v1@[i] == v2@[i]
                    &&& v2@[j].ident == v1@[j].ident
                    &&& v2@[j].attrs@ == v1@[j].attrs@
                    &&& inserts_skipped_field(v1@[j].fields@, v2@[j].fields@, k, s)
                };
            lemma_inserted_skipped_field(v1@[j].fields@, v2@[j].fields@, k, s);
            assert forall|i: int| 0 <= i < v1@.len() implies variant_error(#[trigger] v1@[i])
                == variant_error(v2@[i]) && variant_def_model(v1@[i]) == variant_def_model(
                v2@[i],
            ) by {
                if i == j {
                    assert(variant_def_model(v1@[i]) =~= variant_def_model(v2@[i]));
                }
            }
            lemma_first_some_congruent(v1@, v2@, |v: VariantDef| variant_error(v));
            assert(data_model(with.data) =~= data_model(without.data));
        },
        (TypeData::Union(u1), TypeData::Union(u2)) => {
            let (k, s) = choose|k: int, s: UnionFieldDef|
                {
                    &&& 0 <= k <= u1@.len()
                    &&& u2@ == u1@.insert(k, s)
                    &&& union_field_skipped(s)
                    &&& union_field_error(s) is None
                };
            let before = u1@.take(k);
            let after = u1@.skip(k);
            assert(u2@ =~= before.push(s) + after);
            assert(u1@ =~= before + after);
            lemma_union_skipped_field_omitted(before, s, after);
            lemma_first_some_insert_none(before, s, after, |f: UnionFieldDef| union_field_error(f));
        },
        _ => {},
    }
}

/// `renamed` is `field` renamed to its own former name: `field` has a name and no `rename`
/// entry; `renamed` renames to that name, is skipped alike, has the same type, and raises the
/// same error as `field`, if any.
pub open spec fn renames_to_former_name(field: FieldDef, renamed: FieldDef) -> bool {
    &&& field.ident is Some
    &&& last_some(field.attrs@, |a: FieldAttr| field_attr_rename(a)) is None
    &&& last_some(renamed.attrs@, |a: FieldAttr| field_attr_rename(a)) == Some(
        field.ident->Some_0@,
    )
    &&& field_skipped(renamed) == field_skipped(field)
    &&& renamed.ty@ == field.ty@
    &&& field_error(renamed) == field_error(field)
}

/// The same for a union field.
pub open spec fn union_renames_to_former_name(field: UnionFieldDef, renamed: UnionFieldDef) -> bool {
    &&& last_some(field.attrs@, |a: FieldAttr| field_attr_rename(a)) is None
    &&& last_some(renamed.attrs@, |a: FieldAttr| field_attr_rename(a)) == Some(field.ident@)
    &&& union_field_skipped(renamed) == union_field_skipped(field)
    &&& renamed.ty@ == field.ty@
    &&& union_field_error(renamed) == union_field_error(field)
}

/// `data2` is `data1` with one field renamed to its own former name: in a struct, in one
/// variant (the variant otherwise unchanged), or in a union.
pub open spec fn renames_field(data1: TypeData, data2: TypeData) -> bool {
    match (data1, data2) {
        (TypeData::Struct(f1), TypeData::Struct(f2)) => exists|k: int|
            {
                &&& 0 <= k < f1@.len()
                &&& f2@ == f1@.update(k, f2@[k])
                &&& renames_to_former_name(f1@[k], f2@[k])
            },
        (TypeData::Enum(v1), TypeData::Enum(v2)) => {
            &&& v1@.len() == v2@.len()
            &&& exists|j: int, k: int|
                {
                    &&& 0 <= j < v1@.len()
                    &&& forall|i: int| 0 <= i < v1@.len() && i != j ==> v1@[i] == v2@[i]
                    &&& v2@[j].ident == v1@[j].ident
                    &&& v2@[j].attrs@ == v1@[j].attrs@
                    &&& 0 <= k < v1@[j].fields@.len()
                    &&& v2@[j].fields@ == v1@[j].fields@.update(k, v2@[j].fields@[k])
                    &&& renames_to_former_name(v1@[j].fields@[k], v2@[j].fields@[k])
                }
        },
        (TypeData::Union(u1), TypeData::Union(u2)) => exists|k: int|
            {
                &&& 0 <= k < u1@.len()
                &&& u2@ == u1@.update(k, u2@[k])
                &&& union_renames_to_former_name(u1@[k], u2@[k])
            },
        _ => false,
    }
}

/// A field list with one field renamed to its former name gives the same fields and errors.
proof fn lemma_renamed_field(fields: Seq<FieldDef>, k: int, renamed: FieldDef)
    requires
        0 <= k < fields.len(),
        renames_to_former_name(fields[k], renamed),
    ensures
        fields_model(fields.update(k, renamed)) == fields_model(fields),
        fields_error(fields.update(k, renamed)) == fields_error(fields),
{
    law_field_rename_matches_original(fields, k, renamed);
    let updated = fields.update(k, renamed);
    assert forall|i: int| 0 <= i < fields.len() implies field_error(#[trigger] fields[i])
        == field_error(updated[i]) by {}
    lemma_first_some_congruent(fields, updated, |f: FieldDef| field_error(f));
}

/// Renaming a field to its previous name keeps the signature: a type with one field (of a
/// struct, an enum variant or a union) renamed to its former name, by a `rename` entry,
/// derives the same signature, and the same errors.
pub proof fn law_field_rename_keeps_signature(plain: TypeDef, renamed: TypeDef)
    requires
        renames_field(plain.data, renamed.data),
        renamed.ident == plain.ident,
        renamed.attrs@ == plain.attrs@,
        renamed.generics@ == plain.generics@,
    ensures
        derive_error(renamed) == derive_error(plain),
        derived_model(renamed) == derived_model(plain),
{
    match (plain.data, renamed.data) {
        (TypeData::Struct(f1), TypeData::Struct(f2)) => {
            let k = choose|k: int|
                {
                    &&& 0 <= k < f1@.len()
                    &&& f2@ == f1@.update(k, f2@[k])
                    &&& renames_to_former_name(f1@[k], f2@[k])
                };
            lemma_renamed_field(f1@, k, f2@[k]);
            assert(data_model(renamed.data) =~= data_model(plain.data));
        },
        (TypeData::Enum(v1), TypeData::Enum(v2)) => {
            let (j, k) = choose|j: int, k: int|
                {
                    &&& 0 <= j < v1@.len()
                    &&& forall|i: int| 0 <= i < v1@.len() && i != j ==> v1@[i] == v2@[i]
                    &&& v2@[j].ident == v1@[j].ident
                    &&& v2@[j].attrs@ == v1@[j].attrs@
                    &&& 0 <= k < v1@[j].fields@.len()
                    &&& v2@[j].fields@ == v1@[j].fields@.update(k, v2@[j].fields@[k])
                    &&& renames_to_former_name(v1@[j].fields@[k], v2@[j].fields@[k])
                };
            lemma_renamed_field(v1@[j].fields@, k, v2@[j].fields@[k]);
            assert forall|i: int| 0 <= i < v1@.len() implies variant_error(#[trigger] v1@[i])
                == variant_error(v2@[i]) && variant_def_model(v1@[i]) == variant_def_model(
                v2@[i],
            ) by {
                if i == j {
                    assert(variant_def_model(v1@[i]) =~= variant_def_model(v2@[i]));
                }
            }
            lemma_first_some_congruent(v1@, v2@, |v: VariantDef| variant_error(v));
            assert(data_model(renamed.data) =~= data_model(plain.data));
        },
        (TypeData::Union(u1), TypeData::Union(u2)) => {
            let k = choose|k: int|
                {
                    &&& 0 <= k < u1@.len()
                    &&& u2@ == u1@.update(k, u2@[k])
                    &&& union_renames_to_former_name(u1@[k], u2@[k])
                };
            assert(union_field_model(u1@[k]) =~= union_field_model(u2@[k]));
            assert forall|i: int| 0 <= i < u1@.len() implies union_field_skipped(
                #[trigger] u1@[i],
            ) == union_field_skipped(u2@[i]) && union_field_model(u1@[i]) == union_field_model(
                u2@[i],
            ) && union_field_error(u1@[i]) == union_field_error(u2@[i]) by {}
            lemma_union_model_congruent(u1@, u2@);
            lemma_first_some_congruent(u1@, u2@, |f: UnionFieldDef| union_field_error(f));
        },
        _ => {},
    }
}

/// A `where` clause does not affect a type's signature: two definitions that differ only in
/// their `where` predicates, and in names that rename to the same signature name, derive the
/// same signature and the same errors.
pub proof fn law_where_clause_does_not_affect_signature(plain: TypeDef, bounded: TypeDef)
    requires
        renamed(bounded.ident@, bounded.attrs@) == renamed(plain.ident@, plain.attrs@),
        type_attrs_error(bounded.attrs@) == type_attrs_error(plain.attrs@),
        bounded.generics@ == plain.generics@,
        bounded.data == plain.data,
    ensures
        derive_error(bounded) == derive_error(plain),
        derived_model(bounded) == derived_model(plain),
{
}

/// `with` is `without` with one lifetime parameter added among its generics, or with one
/// skipped field added (to a struct, an enum variant or a union); its name and attributes may
/// differ as long as they rename to the same signature name and raise the same error.
pub open spec fn adds_lifetime_or_skipped_field(without: TypeDef, with: TypeDef) -> bool {
    &&& renamed(with.ident@, with.attrs@) == renamed(without.ident@, without.attrs@)
    &&& type_attrs_error(with.attrs@) == type_attrs_error(without.attrs@)
    &&& {
        ||| {
            &&& with.data == without.data
            &&& exists|k: int, lifetime: GenericArg|
                {
                    &&& lifetime is Lifetime
                    &&& 0 <= k <= without.generics@.len()
                    &&& with.generics@ == without.generics@.insert(k, lifetime)
                }
        }
        ||| {
            &&& with.generics@ == without.generics@
            &&& adds_skipped_field(without.data, with.data)
        }
    }
}

/// One added lifetime parameter or skipped field keeps the signature and the errors.
proof fn lemma_lifetime_or_skipped_field_step(without: TypeDef, with: TypeDef)
    requires
        adds_lifetime_or_skipped_field(without, with),
    ensures
        derive_error(with) == derive_error(without),
        derived_model(with) == derived_model(without),
{
    let same_names = TypeDef {
        ident: without.ident,
        attrs: without.attrs,
        generics: with.generics,
        where_predicates: without.where_predicates,
        data: with.data,
    };
    if with.data == without.data && exists|k: int, lifetime: GenericArg|
        {
            &&& lifetime is Lifetime
            &&& 0 <= k <= without.generics@.len()
            &&& with.generics@ == without.generics@.insert(k, lifetime)
        } {
        let (k, lifetime) = choose|k: int, lifetime: GenericArg|
            {
                &&& lifetime is Lifetime
                &&& 0 <= k <= without.generics@.len()
                &&& with.generics@ == without.generics@.insert(k, lifetime)
            };
        law_lifetime_does_not_affect_signature(without, same_names, k, lifetime);
    } else {
        law_skipped_field_is_omitted_from_signature(without, same_names);
    }
}

/// Lifetime parameters, and skipped fields (such as the markers that hold the lifetimes),
/// change nothing: a type reached from another by adding any number of lifetime parameters
/// and skipped fields, one at a time (`defs[i + 1]` adds one to `defs[i]`), derives the same
/// signature and the same errors as the type it started from.
pub proof fn law_lifetimes_and_skipped_fields_keep_signature(defs: Seq<TypeDef>)
    requires
        defs.len() > 0,
        forall|i: int|
            0 <= i < defs.len() - 1 ==> adds_lifetime_or_skipped_field(
                #[trigger] defs[i],
                defs[i + 1],
            ),
    ensures
        derive_error(defs.last()) == derive_error(defs[0]),
        derived_model(defs.last()) == derived_model(defs[0]),
    decreases defs.len(),
{
    if defs.len() > 1 {
        let shorter = defs.drop_last();
        assert forall|i: int| 0 <= i < shorter.len() - 1 implies adds_lifetime_or_skipped_field(
            #[trigger] shorter[i],
            shorter[i + 1],
        ) by {
            assert(shorter[i] == defs[i]);
            assert(shorter[i + 1] == defs[i + 1]);
        }
        law_lifetimes_and_skipped_fields_keep_signature(shorter);
        let n = defs.len() - 2;
        assert(adds_lifetime_or_skipped_field(defs[n], defs[n + 1]));
        lemma_lifetime_or_skipped_field_step(defs[n], defs[n + 1]);
    }
}

/// Within a list of field models, a field counts only through its name and its type's hash.
proof fn lemma_fields_values_by_hash(fields1: Seq<FieldModel>, fields2: Seq<FieldModel>)
    requires
        fields1.len() == fields2.len(),
        forall|j: int|
            0 <= j < fields1.len() ==> (#[trigger] fields1[j]).name == fields2[j].name
                && signature_hash(fields1[j].ty) == signature_hash(fields2[j].ty),
    ensures
        fields_values(fields1) == fields_values(fields2),
{
    assert forall|j: int| 0 <= j < fields1.len() implies field_values(#[trigger] fields1[j])
        == field_values(fields2[j]) by {
        assert(field_values(fields1[j]) =~= field_values(fields2[j]));
    }
    assert(field_pieces(fields1) =~= field_pieces(fields2));
}

/// Two variants count alike when they agree on names, numbers of fields and field hashes.
pub open spec fn variants_agree_by_hash(v1: VariantModel, v2: VariantModel) -> bool {
    &&& v1.name == v2.name
    &&& v1.fields.len() == v2.fields.len()
    &&& forall|j: int|
        0 <= j < v1.fields.len() ==> (#[trigger] v1.fields[j]).name == v2.fields[j].name
            && signature_hash(v1.fields[j].ty) == signature_hash(v2.fields[j].ty)
}

/// A signature's generic arguments and field types count only through their hashes: two
/// signatures with the same name, const hashes, numbers of generics, variants and fields, and
/// names, whose generic arguments and field types hash alike position by position, hash alike,
/// however those arguments and types are built.
pub proof fn law_parts_count_only_by_hash(sig1: SignatureModel, sig2: SignatureModel)
    requires
        sig1.name == sig2.name,
        sig1.const_hashes == sig2.const_hashes,
        sig1.generics.len() == sig2.generics.len(),
        forall|i: int|
            0 <= i < sig1.generics.len() ==> signature_hash(#[trigger] sig1.generics[i])
                == signature_hash(sig2.generics[i]),
        sig1.variants.len() == sig2.variants.len(),
        forall|i: int|
            0 <= i < sig1.variants.len() ==> variants_agree_by_hash(
                #[trigger] sig1.variants[i],
                sig2.variants[i],
            ),
    ensures
        signature_hash(sig1) == signature_hash(sig2),
{
    assert(generic_hashes(sig1) =~= generic_hashes(sig2));
    assert forall|i: int| 0 <= i < sig1.variants.len() implies variant_values(
        #[trigger] sig1.variants[i],
    ) == variant_values(sig2.variants[i]) by {
        let v1 = sig1.variants[i];
        let v2 = sig2.variants[i];
        assert(variants_agree_by_hash(v1, v2));
        lemma_fields_values_by_hash(v1.fields, v2.fields);
    }
    assert(variant_pieces(sig1.variants) =~= variant_pieces(sig2.variants));
    assert(signature_values(sig1) =~= signature_values(sig2));
}

/// Any two signatures whose mixed values (names, counts, hashes of the parts, in the order of
/// `signature_values`) have one length and differ in exactly one place have different hashes,
/// whatever their numbers of generics, const hashes, variants and fields.
pub proof fn law_single_value_difference_changes_hash(
    sig1: SignatureModel,
    sig2: SignatureModel,
    i: int,
)
    requires
        signature_values(sig1).len() == signature_values(sig2).len(),
        0 <= i < signature_values(sig1).len(),
        signature_values(sig1)[i] != signature_values(sig2)[i],
        forall|j: int|
            0 <= j < signature_values(sig1).len() && j != i ==> signature_values(sig1)[j]
                == signature_values(sig2)[j],
    ensures
        signature_hash(sig1) != signature_hash(sig2),
{
    lemma_mix_all_single_difference(SIGNATURE_SEED, signature_values(sig1), signature_values(sig2), i);
}

/// The signatures of the type arguments among `args`, in order.
proof fn lemma_generic_models_are_type_arguments(args: Seq<GenericArg>)
    ensures
        generic_models(args) == args.filter(|a: GenericArg| a is Type).map_values(
            |a: GenericArg| a->Type_1@,
        ),
    decreases args.len(),
{
    if args.len() > 0 {
        let init = args.drop_last();
        lemma_generic_models_are_type_arguments(init);
        reveal(Seq::filter);
        let is_type = |a: GenericArg| a is Type;
        let signature = |a: GenericArg| a->Type_1@;
        let kept = init.filter(is_type);
        assert(init =~= args.drop_last());
        if args.last() is Type {
            assert(args.filter(is_type) == kept.push(args.last()));
            assert(kept.push(args.last()).map_values(signature) =~= kept.map_values(signature).push(
                signature(args.last()),
            ));
        } else {
            assert(args.filter(is_type) == kept);
        }
    }
}

/// The generics of a derived signature are the signatures of the type's type arguments, one per
/// type parameter, in order; lifetime and const parameters add none.
pub proof fn law_derived_generics_are_the_type_arguments(def: TypeDef)
    ensures
        derived_model(def).generics == def.generics@.filter(|a: GenericArg| a is Type).map_values(
            |a: GenericArg| a->Type_1@,
        ),
{
    lemma_generic_models_are_type_arguments(def.generics@);
}

/// The hashes of the const arguments among `args`, in order.
proof fn lemma_const_models_are_const_arguments(args: Seq<GenericArg>)
    ensures
        const_generic_models(args) == args.filter(|a: GenericArg| a is Const).map_values(
            |a: GenericArg| mix(hash_chars(a->Const_0@), const_value_hash(a->Const_2)),
        ),
    decreases args.len(),
{
    if args.len() > 0 {
        reveal(Seq::filter);
        let is_const = |a: GenericArg| a is Const;
        let hash = |a: GenericArg| mix(hash_chars(a->Const_0@), const_value_hash(a->Const_2));
        let init = args.drop_last();
        lemma_const_models_are_const_arguments(init);
        let kept = init.filter(is_const);
        if args.last() is Const {
            assert(args.filter(is_const) == kept.push(args.last()));
            assert(kept.push(args.last()).map_values(hash) =~= kept.map_values(hash).push(
                hash(args.last()),
            ));
        } else {
            assert(args.filter(is_const) == kept);
        }
    }
}

/// The const hashes of a derived signature are, one per const parameter and in order, the
/// hash of the parameter's name mixed with the hash of its value; type and lifetime
/// parameters add none.
pub proof fn law_derived_const_hashes_are_the_const_arguments(def: TypeDef)
    ensures
        derived_model(def).const_hashes == def.generics@.filter(|a: GenericArg| a is Const).map_values(
            |a: GenericArg| mix(hash_chars(a->Const_0@), const_value_hash(a->Const_2)),
        ),
{
    lemma_const_models_are_const_arguments(def.generics@);
}

/// Each variant of a derived enum signature is named by the last `rename` entry of the
/// variant's attributes, if it has one, and else by the variant's own name; there is one per
/// variant of the enum.
pub proof fn law_enum_variant_is_named_by_its_last_rename(def: TypeDef, j: int)
    requires
        def.data is Enum,
        0 <= j < def.data->Enum_0@.len(),
    ensures
        derived_model(def).variants.len() == def.data->Enum_0@.len(),
        derived_model(def).variants[j].name == match last_some(
            def.data->Enum_0@[j].attrs@,
            |a: TypeAttr| type_attr_rename(a),
        ) {
            Some(name) => name,
            None => def.data->Enum_0@[j].ident@,
        },
{
}

/// Renaming an enum variant to its former name keeps the signature: an enum whose variant `j`
/// is declared under another name, with a `rename` entry that gives its former name, derives
/// the same signature, and the same errors, as the enum with the variant under that name.
pub proof fn law_variant_rename_keeps_signature(plain: TypeDef, renamed_def: TypeDef, j: int)
    requires
        plain.data is Enum,
        renamed_def.data is Enum,
        plain.data->Enum_0@.len() == renamed_def.data->Enum_0@.len(),
        0 <= j < plain.data->Enum_0@.len(),
        forall|i: int|
            0 <= i < plain.data->Enum_0@.len() && i != j ==> plain.data->Enum_0@[i]
                == renamed_def.data->Enum_0@[i],
        last_some(plain.data->Enum_0@[j].attrs@, |a: TypeAttr| type_attr_rename(a)) is None,
        last_some(renamed_def.data->Enum_0@[j].attrs@, |a: TypeAttr| type_attr_rename(a)) == Some(
            plain.data->Enum_0@[j].ident@,
        ),
        renamed_def.data->Enum_0@[j].fields == plain.data->Enum_0@[j].fields,
        variant_error(renamed_def.data->Enum_0@[j]) == variant_error(plain.data->Enum_0@[j]),
        renamed_def.ident == plain.ident,
        renamed_def.attrs@ == plain.attrs@,
        renamed_def.generics@ == plain.generics@,
    ensures
        derive_error(renamed_def) == derive_error(plain),
        derived_model(renamed_def) == derived_model(plain),
{
    let v1 = plain.data->Enum_0@;
    let v2 = renamed_def.data->Enum_0@;
    assert forall|i: int| 0 <= i < v1.len() implies variant_error(#[trigger] v1[i]) == variant_error(
        v2[i],
    ) && variant_def_model(v1[i]) == variant_def_model(v2[i]) by {}
    lemma_first_some_congruent(v1, v2, |v: VariantDef| variant_error(v));
    assert(data_model(renamed_def.data) =~= data_model(plain.data));
}

/// One more item is in a sequence exactly when it is that item or already was.
proof fn lemma_push_contains<A>(s: Seq<A>, x: A, t: A)
    ensures
        s.push(x).contains(t) <==> (s.contains(t) || x == t),
{
    if s.contains(t) {
        let k = choose|k: int| 0 <= k < s.len() && s[k] == t;
        assert(s.push(x)[k] == t);
    }
    if x == t {
        assert(s.push(x)[s.len() as int] == t);
    }
    if s.push(x).contains(t) {
        let k = choose|k: int| 0 <= k < s.push(x).len() && s.push(x)[k] == t;
        if k < s.len() {
            assert(s[k] == t);
        }
    }
}

/// An item is in a concatenation exactly when it is in one of its parts.
proof fn lemma_concat_contains<A>(a: Seq<A>, b: Seq<A>, t: A)
    ensures
        (a + b).contains(t) <==> (a.contains(t) || b.contains(t)),
{
    if a.contains(t) {
        let k = choose|k: int| 0 <= k < a.len() && a[k] == t;
        assert((a + b)[k] == t);
    }
    if b.contains(t) {
        let k = choose|k: int| 0 <= k < b.len() && b[k] == t;
        assert((a + b)[a.len() + k] == t);
    }
    if (a + b).contains(t) {
        let k = choose|k: int| 0 <= k < (a + b).len() && (a + b)[k] == t;
        if k < a.len() {
            assert(a[k] == t);
        } else {
            assert(b[k - a.len()] == t);
        }
    }
}

/// Whether a field of `fields` that is not skipped has the type `t`, as written.
pub open spec fn keeps_field_of_type(fields: Seq<FieldDef>, t: Seq<char>) -> bool {
    exists|i: int| 0 <= i < fields.len() && !field_skipped(#[trigger] fields[i]) && fields[i].ty_text@ == t
}

/// Whether a union field of `fields` that is not skipped has the type `t`, as written.
pub open spec fn keeps_union_field_of_type(fields: Seq<UnionFieldDef>, t: Seq<char>) -> bool {
    exists|i: int|
        0 <= i < fields.len() && !union_field_skipped(#[trigger] fields[i]) && fields[i].ty_text@ == t
}

/// Whether a variant of `variants` has a field that is not skipped and has the type `t`.
pub open spec fn keeps_variant_field_of_type(variants: Seq<VariantDef>, t: Seq<char>) -> bool {
    exists|j: int| 0 <= j < variants.len() && keeps_field_of_type(#[trigger] variants[j].fields@, t)
}

proof fn lemma_field_types_contains(fields: Seq<FieldDef>, t: Seq<char>)
    ensures
        field_types(fields).contains(t) <==> keeps_field_of_type(fields, t),
    decreases fields.len(),
{
    if fields.len() > 0 {
        let init = fields.drop_last();
        let last = fields.last();
        lemma_field_types_contains(init, t);
        if !field_skipped(last) {
            lemma_push_contains(field_types(init), last.ty_text@, t);
        }
        if keeps_field_of_type(fields, t) {
            let i = choose|i: int|
                0 <= i < fields.len() && !field_skipped(#[trigger] fields[i]) && fields[i].ty_text@ == t;
            if i < init.len() {
                assert(init[i] == fields[i]);
            }
        }
        if keeps_field_of_type(init, t) {
            let i = choose|i: int|
                0 <= i < init.len() && !field_skipped(#[trigger] init[i]) && init[i].ty_text@ == t;
            assert(fields[i] == init[i]);
        }
        if !field_skipped(last) && last.ty_text@ == t {
            assert(fields[fields.len() - 1] == last);
        }
    }
}

proof fn lemma_union_field_types_contains(fields: Seq<UnionFieldDef>, t: Seq<char>)
    ensures
        union_field_types(fields).contains(t) <==> keeps_union_field_of_type(fields, t),
    decreases fields.len(),
{
    if fields.len() > 0 {
        let init = fields.drop_last();
        let last = fields.last();
        lemma_union_field_types_contains(init, t);
        if !union_field_skipped(last) {
            lemma_push_contains(union_field_types(init), last.ty_text@, t);
        }
        if keeps_union_field_of_type(fields, t) {
            let i = choose|i: int|
                0 <= i < fields.len() && !union_field_skipped(#[trigger] fields[i])
                    && fields[i].ty_text@ == t;
            if i < init.len() {
                assert(init[i] == fields[i]);
            }
        }
        if keeps_union_field_of_type(init, t) {
            let i = choose|i: int|
                0 <= i < init.len() && !union_field_skipped(#[trigger] init[i]) && init[i].ty_text@ == t;
            assert(fields[i] == init[i]);
        }
        if !union_field_skipped(last) && last.ty_text@ == t {
            assert(fields[fields.len() - 1] == last);
        }
    }
}

proof fn lemma_variants_field_types_contains(variants: Seq<VariantDef>, t: Seq<char>)
    ensures
        variants_field_types(variants).contains(t) <==> keeps_variant_field_of_type(variants, t),
    decreases variants.len(),
{
    if variants.len() > 0 {
        let init = variants.drop_last();
        let last = variants.last();
        lemma_variants_field_types_contains(init, t);
        lemma_field_types_contains(last.fields@, t);
        lemma_concat_contains(variants_field_types(init), field_types(last.fields@), t);
        if keeps_variant_field_of_type(variants, t) {
            let j = choose|j: int| 0 <= j < variants.len() && keeps_field_of_type(#[trigger] variants[j].fields@, t);
            if j < init.len() {
                assert(init[j] == variants[j]);
            }
        }
        if keeps_variant_field_of_type(init, t) {
            let j = choose|j: int| 0 <= j < init.len() && keeps_field_of_type(#[trigger] init[j].fields@, t);
            assert(variants[j] == init[j]);
        }
        if keeps_field_of_type(last.fields@, t) {
            assert(variants[variants.len() - 1] == last);
        }
    }
}

/// Dropping repeats keeps every item, and leaves none twice.
proof fn lemma_dedup(s: Seq<Seq<char>>, t: Seq<char>)
    ensures
        dedup(s).contains(t) <==> s.contains(t),
        forall|i: int, k: int| 0 <= i < k < dedup(s).len() ==> dedup(s)[i] != dedup(s)[k],
    decreases s.len(),
{
    if s.len() > 0 {
        let init = s.drop_last();
        lemma_dedup(init, t);
        lemma_dedup(init, s.last());
        lemma_push_contains(init, s.last(), t);
        assert(s =~= init.push(s.last()));
        if !dedup(init).contains(s.last()) {
            lemma_push_contains(dedup(init), s.last(), t);
            let d = dedup(init).push(s.last());
            assert forall|i: int, k: int| 0 <= i < k < d.len() implies d[i] != d[k] by {
                if k == d.len() - 1 {
                    assert(d[i] == dedup(init)[i]);
                }
            }
        }
    }
}

/// The field types that a derived impl bounds are exactly the types, as written, of the fields
/// that are not skipped: of a struct's fields, of every enum variant's fields (each type
/// once), or of a union's fields. A type with no type parameter bounds none.
pub proof fn law_bounded_field_types_are_the_kept_field_types(def: TypeDef, t: Seq<char>)
    ensures
        type_param_names(def.generics@).len() == 0 ==> generic_constraints_model(def).len() == 0,
        type_param_names(def.generics@).len() > 0 ==> (generic_constraints_model(def).contains(t)
            <==> match def.data {
            TypeData::Struct(fields) => keeps_field_of_type(fields@, t),
            TypeData::Enum(variants) => keeps_variant_field_of_type(variants@, t),
            TypeData::Union(fields) => keeps_union_field_of_type(fields@, t),
        }),
        def.data is Enum ==> forall|i: int, k: int|
            0 <= i < k < generic_constraints_model(def).len() ==> generic_constraints_model(def)[i]
                != generic_constraints_model(def)[k],
{
    match def.data {
        TypeData::Struct(fields) => lemma_field_types_contains(fields@, t),
        TypeData::Enum(variants) => {
            lemma_dedup(variants_field_types(variants@), t);
            lemma_variants_field_types_contains(variants@, t);
        },
        TypeData::Union(fields) => lemma_union_field_types_contains(fields@, t),
    }
}

} // verus!
