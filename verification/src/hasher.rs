//! The executable signature of a type and its hash.

use vstd::prelude::*;

use crate::__macro_export::{
    hash_chars, hash_str, lemma_mix_all_append, lemma_mix_all_pair, lemma_mix_all_single,
    lemma_mix_all_take_step, mix_all, mix_values,
};
use crate::model::{
    field_pieces, fields_values, generic_hashes, signature_hash, signature_values, variant_pieces,
    variants_values, FieldModel, SignatureModel, VariantModel, SIGNATURE_SEED,
};

verus! {

/// A hashable type for generating a signature for a type.
#[derive(Debug, Hash)]
pub struct TypeSignatureHasher {
    /// The name of the type being hashed.
    pub ty_name: String,
    /// The types of the generic arguments.
    pub ty_generics: Vec<TypeSignatureHasher>,
    /// Hashes of const generics.
    pub const_generic_hashes: Vec<u64>,
    /// The "variants" of a type.
    ///
    /// For each "variant", it has the name of the variant and a list of the field names and types.
    pub variants: Vec<(String, Vec<(String, TypeSignatureHasher)>)>,
}

/// The abstract value of a field given as a name and a signature.
pub open spec fn field_model(field: (String, TypeSignatureHasher)) -> FieldModel
    decreases field, 0int,
{
    FieldModel { name: field.0@, ty: hasher_model(field.1) }
}

/// The abstract value of a variant given as a name and its fields.
pub open spec fn variant_model(variant: (String, Vec<(String, TypeSignatureHasher)>)) -> VariantModel
    decreases variant, 1int,
{
    VariantModel {
        name: variant.0@,
        fields: Seq::new(
            variant.1@.len(),
            |j: int|
                if 0 <= j < variant.1@.len() {
                    field_model(variant.1@[j])
                } else {
                    arbitrary()
                },
        ),
    }
}

/// The abstract value of a signature.
pub open spec fn hasher_model(h: TypeSignatureHasher) -> SignatureModel
    decreases h, 2int,
{
    SignatureModel {
        name: h.ty_name@,
        generics: Seq::new(
            h.ty_generics@.len(),
            |i: int|
                if 0 <= i < h.ty_generics@.len() {
                    hasher_model(h.ty_generics@[i])
                } else {
                    arbitrary()
                },
        ),
        const_hashes: h.const_generic_hashes@,
        variants: Seq::new(
            h.variants@.len(),
            |i: int|
                if 0 <= i < h.variants@.len() {
                    variant_model(h.variants@[i])
                } else {
                    arbitrary()
                },
        ),
    }
}

impl View for TypeSignatureHasher {
    type V = SignatureModel;

    open spec fn view(&self) -> SignatureModel {
        hasher_model(*self)
    }
}


/// Flattening the first `i + 1` pieces is flattening the first `i`, then piece `i`.
proof fn lemma_flatten_take_step(pieces: Seq<Seq<u64>>, i: int)
    requires
        0 <= i < pieces.len(),
    ensures
        pieces.take(i + 1).flatten_alt() == pieces.take(i).flatten_alt() + pieces[i],
{
    assert(pieces.take(i + 1).drop_last() =~= pieces.take(i));
}

impl TypeSignatureHasher {
    /// Generate a hash of this signature.
    ///
    /// The hash is the mix, into a fixed seed, of the values of [`signature_values`]: the hash of
    /// the type's name, the number and hashes of its generic arguments, the number and values of
    /// its const generic hashes, and the number of its variants followed by, for each variant,
    /// the hash of its name, its number of fields and, for each field, the hashes of its name
    /// and of its type.
    pub fn const_hash(&self) -> (hash: u64)
        ensures
            hash == signature_hash(self@),
        decreases self,
    {
        let ghost sig = self@;
        let mut accumulator = SIGNATURE_SEED;

        // Mix in the name of the type
        mix_values(&mut accumulator, hash_str(self.ty_name.as_str()));
        mix_values(&mut accumulator, self.ty_generics.len() as u64);
        let ghost head = seq![hash_chars(sig.name), sig.generics.len() as u64];
        let ghost after_head = accumulator;
        proof {
            lemma_mix_all_pair(SIGNATURE_SEED, head[0], head[1]);
            assert(generic_hashes(sig).take(0) =~= Seq::<u64>::empty());
        }

        // Mix in the types of each generic.
        let mut generic_idx: usize = 0;
        while generic_idx < self.ty_generics.len()
            invariant
                sig == self@,
                generic_idx <= self.ty_generics@.len(),
                accumulator == mix_all(after_head, generic_hashes(sig).take(generic_idx as int)),
            decreases self.ty_generics@.len() - generic_idx,
        {
            proof {
                lemma_mix_all_take_step(after_head, generic_hashes(sig), generic_idx as int);
            }
            let generic_hash = self.ty_generics[generic_idx].const_hash();
            mix_values(&mut accumulator, generic_hash);
            generic_idx += 1;
        }
        proof {
            assert(generic_hashes(sig).take(self.ty_generics@.len() as int) =~= generic_hashes(sig));
        }

        // Mix in each const generic argument
        mix_values(&mut accumulator, self.const_generic_hashes.len() as u64);
        let ghost after_consts_len = accumulator;
        proof {
            assert(sig.const_hashes.take(0) =~= Seq::<u64>::empty());
        }
        let mut const_generic_idx: usize = 0;
        while const_generic_idx < self.const_generic_hashes.len()
            invariant
                sig == self@,
                const_generic_idx <= self.const_generic_hashes@.len(),
                accumulator == mix_all(
                    after_consts_len,
                    sig.const_hashes.take(const_generic_idx as int),
                ),
            decreases self.const_generic_hashes@.len() - const_generic_idx,
        {
            proof {
                lemma_mix_all_take_step(after_consts_len, sig.const_hashes, const_generic_idx as int);
            }
            mix_values(&mut accumulator, self.const_generic_hashes[const_generic_idx]);
            const_generic_idx += 1;
        }
        proof {
            assert(sig.const_hashes.take(sig.const_hashes.len() as int) =~= sig.const_hashes);
        }

        // Mix in the types and names of each field.
        mix_values(&mut accumulator, self.variants.len() as u64);
        let ghost after_variants_len = accumulator;
        let ghost vpieces = variant_pieces(sig.variants);
        proof {
            assert(vpieces.take(0) =~= Seq::<Seq<u64>>::empty());
            assert(vpieces.len() == self.variants@.len());
        }
        let mut variant_idx: usize = 0;
        while variant_idx < self.variants.len()
            invariant
                sig == self@,
                vpieces == variant_pieces(sig.variants),
                vpieces.len() == self.variants@.len(),
                variant_idx <= self.variants@.len(),
                accumulator == mix_all(
                    after_variants_len,
                    vpieces.take(variant_idx as int).flatten_alt(),
                ),
            decreases self.variants@.len() - variant_idx,
        {
            let variant_name = &self.variants[variant_idx].0;
            let variant_fields = &self.variants[variant_idx].1;
            let ghost vm = sig.variants[variant_idx as int];
            let ghost before_variant = accumulator;
            mix_values(&mut accumulator, hash_str(variant_name.as_str()));
            mix_values(&mut accumulator, variant_fields.len() as u64);
            let ghost after_variant_head = accumulator;
            let ghost fpieces = field_pieces(vm.fields);
            proof {
                lemma_mix_all_pair(before_variant, hash_chars(vm.name), vm.fields.len() as u64);
                assert(fpieces.take(0) =~= Seq::<Seq<u64>>::empty());
                assert(vm == variant_model(self.variants@[variant_idx as int]));
                assert(vm.fields.len() == variant_fields@.len());
                assert(fpieces.len() == vm.fields.len());
            }
            let mut field_idx: usize = 0;
            while field_idx < variant_fields.len()
                invariant
                    sig == self@,
                    variant_idx < self.variants@.len(),
                    vm == sig.variants[variant_idx as int],
                    *variant_fields == self.variants@[variant_idx as int].1,
                    fpieces == field_pieces(vm.fields),
                    vm == variant_model(self.variants@[variant_idx as int]),
                    fpieces.len() == variant_fields@.len(),
                    field_idx <= variant_fields@.len(),
                    accumulator == mix_all(
                        after_variant_head,
                        fpieces.take(field_idx as int).flatten_alt(),
                    ),
                decreases variant_fields@.len() - field_idx,
            {
                let field_name = &variant_fields[field_idx].0;
                let field_hasher = &variant_fields[field_idx].1;
                let ghost before_field = accumulator;
                proof {
                    assert(vm.fields[field_idx as int] == field_model(variant_fields@[field_idx as int]));
                }
                mix_values(&mut accumulator, hash_str(field_name.as_str()));
                let field_hash = field_hasher.const_hash();
                mix_values(&mut accumulator, field_hash);
                proof {
                    let fm = vm.fields[field_idx as int];
                    lemma_mix_all_pair(before_field, hash_chars(fm.name), signature_hash(fm.ty));
                    lemma_flatten_take_step(fpieces, field_idx as int);
                    lemma_mix_all_append(
                        after_variant_head,
                        fpieces.take(field_idx as int).flatten_alt(),
                        fpieces[field_idx as int],
                    );
                }
                field_idx += 1;
            }
            proof {
                assert(fpieces.take(variant_fields@.len() as int) =~= fpieces);
                lemma_mix_all_append(
                    before_variant,
                    seq![hash_chars(vm.name), vm.fields.len() as u64],
                    fields_values(vm.fields),
                );
                lemma_flatten_take_step(vpieces, variant_idx as int);
                lemma_mix_all_append(
                    after_variants_len,
                    vpieces.take(variant_idx as int).flatten_alt(),
                    vpieces[variant_idx as int],
                );
            }
            variant_idx += 1;
        }
        proof {
            assert(vpieces.take(self.variants@.len() as int) =~= vpieces);
            let a = head;
            let b = generic_hashes(sig);
            let c = seq![sig.const_hashes.len() as u64];
            let d = sig.const_hashes;
            let e = seq![sig.variants.len() as u64];
            let f = variants_values(sig.variants);
            lemma_mix_all_single(mix_all(after_head, b), c[0]);
            lemma_mix_all_single(mix_all(after_consts_len, d), e[0]);
            lemma_mix_all_append(SIGNATURE_SEED, a, b);
            lemma_mix_all_append(SIGNATURE_SEED, a + b, c);
            lemma_mix_all_append(SIGNATURE_SEED, a + b + c, d);
            lemma_mix_all_append(SIGNATURE_SEED, a + b + c + d, e);
            lemma_mix_all_append(SIGNATURE_SEED, a + b + c + d + e, f);
        }
        accumulator
    }
}


impl Clone for TypeSignatureHasher {
    /// A copy of this signature, with the same abstract value.
    fn clone(&self) -> (copy: Self)
        ensures
            copy@ == self@,
        decreases self,
    {
        let mut ty_generics: Vec<TypeSignatureHasher> = Vec::new();
        let mut i: usize = 0;
        while i < self.ty_generics.len()
            invariant
                i <= self.ty_generics@.len(),
                ty_generics@.len() == i,
                forall|k: int| 0 <= k < i ==> (#[trigger] ty_generics@[k])@ == self.ty_generics@[k]@,
            decreases self.ty_generics@.len() - i,
        {
            let g = self.ty_generics[i].clone();
            ty_generics.push(g);
            i += 1;
        }
        let mut const_generic_hashes: Vec<u64> = Vec::new();
        let mut i: usize = 0;
        while i < self.const_generic_hashes.len()
            invariant
                i <= self.const_generic_hashes@.len(),
                const_generic_hashes@ == self.const_generic_hashes@.take(i as int),
            decreases self.const_generic_hashes@.len() - i,
        {
            const_generic_hashes.push(self.const_generic_hashes[i]);
            proof {
                assert(self.const_generic_hashes@.take(i + 1) =~= self.const_generic_hashes@.take(
                    i as int,
                ).push(self.const_generic_hashes@[i as int]));
            }
            i += 1;
        }
        proof {
            assert(self.const_generic_hashes@.take(i as int) =~= self.const_generic_hashes@);
        }
        let mut variants: Vec<(String, Vec<(String, TypeSignatureHasher)>)> = Vec::new();
        let mut i: usize = 0;
        while i < self.variants.len()
            invariant
                i <= self.variants@.len(),
                variants@.len() == i,
                forall|k: int|
                    0 <= k < i ==> variant_model(#[trigger] variants@[k]) == variant_model(
                        self.variants@[k],
                    ),
            decreases self.variants@.len() - i,
        {
            let source = &self.variants[i].1;
            let mut fields: Vec<(String, TypeSignatureHasher)> = Vec::new();
            let mut j: usize = 0;
            while j < source.len()
                invariant
                    i < self.variants@.len(),
                    *source == self.variants@[i as int].1,
                    j <= source@.len(),
                    fields@.len() == j,
                    forall|k: int|
                        0 <= k < j ==> field_model(#[trigger] fields@[k]) == field_model(
                            source@[k],
                        ),
                decreases source@.len() - j,
            {
                let name = source[j].0.clone();
                let ty = source[j].1.clone();
                fields.push((name, ty));
                j += 1;
            }
            let name = self.variants[i].0.clone();
            proof {
                assert(variant_model((name, fields)).fields =~= variant_model(
                    self.variants@[i as int],
                ).fields);
            }
            variants.push((name, fields));
            i += 1;
        }
        let copy = TypeSignatureHasher {
            ty_name: self.ty_name.clone(),
            ty_generics,
            const_generic_hashes,
            variants,
        };
        proof {
            assert(copy@.generics =~= self@.generics);
            assert(copy@.variants =~= self@.variants);
        }
        copy
    }
}

} // verus!
