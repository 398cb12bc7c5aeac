//! The [`TypeSignature`] trait and its implementations for types of the standard library.
//!
//! Types of the standard library that have no implementation here, and why:
//! - `f32` and `f64`: this library holds no floating-point types.
//! - `*const T` and `*mut T`: this library holds no raw pointers.
//! - `core::ptr::NonNull<T>`: its parameter is bounded by an unstable trait
//!   (`PointeeSized`), so the type cannot be declared to Verus.
//! - `core::num::NonZero*`: the parameter of `NonZero<T>` is bounded by an unstable trait
//!   (`ZeroablePrimitive`), for the same reason.
//! - `std::ffi::OsStr`, `std::ffi::OsString`, `alloc::ffi::CString`: this library does not use
//!   the `ffi` modules.
//! - `alloc::collections::BinaryHeap<T>`, `alloc::collections::LinkedList<T>`,
//!   `alloc::rc::Weak<T>`, `alloc::sync::Weak<T>`: their allocator parameter is bounded by an
//!   unstable trait (`Allocator`), so they cannot be declared either.

use vstd::prelude::*;

use crate::__macro_export::hash_const_usize;
use crate::hasher::TypeSignatureHasher;
use crate::model::{signature_hash, SignatureModel};

verus! {

/// The abstract signature of a type of the standard library: a name and the signatures of its
/// generic arguments, with no variants. Such a signature is not formally correct, but good
/// enough for standard library types since they won't change.
pub open spec fn builtin_model(
    name: Seq<char>,
    generics: Seq<SignatureModel>,
    const_hashes: Seq<u64>,
) -> SignatureModel {
    SignatureModel { name, generics, const_hashes, variants: seq![] }
}

/// Builds the signature of a type of the standard library.
pub fn builtin_signature(
    name: &str,
    generics: Vec<TypeSignatureHasher>,
    const_generic_hashes: Vec<u64>,
) -> (sig: TypeSignatureHasher)
    ensures
        sig@ == builtin_model(
            name@,
            generics@.map_values(|g: TypeSignatureHasher| g@),
            const_generic_hashes@,
        ),
{
    let sig = TypeSignatureHasher {
        ty_name: name.to_owned(),
        ty_generics: generics,
        const_generic_hashes,
        variants: Vec::new(),
    };
    proof {
        assert(sig@.generics =~= generics@.map_values(|g: TypeSignatureHasher| g@));
        assert(sig@.variants =~= Seq::empty());
    }
    sig
}

/// Builds the signature of a type of the standard library that has no generic arguments.
pub fn builtin_leaf_signature(name: &str) -> (sig: TypeSignatureHasher)
    ensures
        sig@ == builtin_model(name@, seq![], seq![]),
{
    let sig = builtin_signature(name, Vec::new(), Vec::new());
    proof {
        assert(sig@.generics =~= seq![]);
        assert(sig@.const_hashes =~= seq![]);
    }
    sig
}

/// Builds the signature of a type of the standard library that has generic type arguments
/// and no const arguments.
pub fn builtin_generic_signature(name: &str, generics: Vec<TypeSignatureHasher>) -> (sig:
    TypeSignatureHasher)
    ensures
        sig@ == builtin_model(name@, generics@.map_values(|g: TypeSignatureHasher| g@), seq![]),
{
    let sig = builtin_signature(name, generics, Vec::new());
    proof {
        assert(sig@.const_hashes =~= seq![]);
    }
    sig
}

/// Builds the signature of a type of the standard library that has one generic type argument.
pub fn builtin_unary_signature(name: &str, generic: TypeSignatureHasher) -> (sig:
    TypeSignatureHasher)
    ensures
        sig@ == builtin_model(name@, seq![generic@], seq![]),
{
    let ghost model = generic@;
    let sig = builtin_generic_signature(name, vec![generic]);
    proof {
        assert(sig@.generics =~= seq![model]);
    }
    sig
}

/// Builds the signature of a type of the standard library that has two generic type
/// arguments.
pub fn builtin_binary_signature(
    name: &str,
    first: TypeSignatureHasher,
    second: TypeSignatureHasher,
) -> (sig: TypeSignatureHasher)
    ensures
        sig@ == builtin_model(name@, seq![first@, second@], seq![]),
{
    let ghost models = seq![first@, second@];
    let sig = builtin_generic_signature(name, vec![first, second]);
    proof {
        assert(sig@.generics =~= models);
    }
    sig
}

/// A type that can be made into a signature.
///
/// If implementing for a custom type, please use [`crate::derive::derive_type_signature`] to build the
/// signature from the type's definition.
pub trait TypeSignature {
    /// The abstract value of this type's signature.
    spec fn signature_model() -> SignatureModel;

    /// The signature of this type.
    ///
    /// For a fixed type, if the hash of this value changes, it will be treated as a breaking
    /// change.
    fn signature() -> (sig: TypeSignatureHasher)
        ensures
            sig@ == Self::signature_model(),
    ;

    /// The hash of this type's signature.
    ///
    /// For a fixed type, if this value changes, it will be treated as a breaking change.
    fn const_hash() -> (hash: u64)
        ensures
            hash == signature_hash(Self::signature_model()),
    {
        Self::signature().const_hash()
    }
}

impl TypeSignature for u8 {
    open spec fn signature_model() -> SignatureModel {
        builtin_model("$crate :: TypeSignature impl for u8"@, seq![], seq![])
    }

    fn signature() -> (sig: TypeSignatureHasher) {
        builtin_leaf_signature("$crate :: TypeSignature impl for u8")
    }
}

impl TypeSignature for u16 {
    open spec fn signature_model() -> SignatureModel {
        builtin_model("$crate :: TypeSignature impl for u16"@, seq![], seq![])
    }

    fn signature() -> (sig: TypeSignatureHasher) {
        builtin_leaf_signature("$crate :: TypeSignature impl for u16")
    }
}

impl TypeSignature for u32 {
    open spec fn signature_model() -> SignatureModel {
        builtin_model("$crate :: TypeSignature impl for u32"@, seq![], seq![])
    }

    fn signature() -> (sig: TypeSignatureHasher) {
        builtin_leaf_signature("$crate :: TypeSignature impl for u32")
    }
}

impl TypeSignature for usize {
    open spec fn signature_model() -> SignatureModel {
        builtin_model("$crate :: TypeSignature impl for usize"@, seq![], seq![])
    }

    fn signature() -> (sig: TypeSignatureHasher) {
        builtin_leaf_signature("$crate :: TypeSignature impl for usize")
    }
}

impl TypeSignature for u64 {
    open spec fn signature_model() -> SignatureModel {
        builtin_model("$crate :: TypeSignature impl for u64"@, seq![], seq![])
    }

    fn signature() -> (sig: TypeSignatureHasher) {
        builtin_leaf_signature("$crate :: TypeSignature impl for u64")
    }
}

impl TypeSignature for u128 {
    open spec fn signature_model() -> SignatureModel {
        builtin_model("$crate :: TypeSignature impl for u128"@, seq![], seq![])
    }

    fn signature() -> (sig: TypeSignatureHasher) {
        builtin_leaf_signature("$crate :: TypeSignature impl for u128")
    }
}

impl TypeSignature for i8 {
    open spec fn signature_model() -> SignatureModel {
        builtin_model("$crate :: TypeSignature impl for i8"@, seq![], seq![])
    }

    fn signature() -> (sig: TypeSignatureHasher) {
        builtin_leaf_signature("$crate :: TypeSignature impl for i8")
    }
}

impl TypeSignature for i16 {
    open spec fn signature_model() -> SignatureModel {
        builtin_model("$crate :: TypeSignature impl for i16"@, seq![], seq![])
    }

    fn signature() -> (sig: TypeSignatureHasher) {
        builtin_leaf_signature("$crate :: TypeSignature impl for i16")
    }
}

impl TypeSignature for i32 {
    open spec fn signature_model() -> SignatureModel {
        builtin_model("$crate :: TypeSignature impl for i32"@, seq![], seq![])
    }

    fn signature() -> (sig: TypeSignatureHasher) {
        builtin_leaf_signature("$crate :: TypeSignature impl for i32")
    }
}

impl TypeSignature for isize {
    open spec fn signature_model() -> SignatureModel {
        builtin_model("$crate :: TypeSignature impl for isize"@, seq![], seq![])
    }

    fn signature() -> (sig: TypeSignatureHasher) {
        builtin_leaf_signature("$crate :: TypeSignature impl for isize")
    }
}

impl TypeSignature for i64 {
    open spec fn signature_model() -> SignatureModel {
        builtin_model("$crate :: TypeSignature impl for i64"@, seq![], seq![])
    }

    fn signature() -> (sig: TypeSignatureHasher) {
        builtin_leaf_signature("$crate :: TypeSignature impl for i64")
    }
}

impl TypeSignature for i128 {
    open spec fn signature_model() -> SignatureModel {
        builtin_model("$crate :: TypeSignature impl for i128"@, seq![], seq![])
    }

    fn signature() -> (sig: TypeSignatureHasher) {
        builtin_leaf_signature("$crate :: TypeSignature impl for i128")
    }
}

impl TypeSignature for bool {
    open spec fn signature_model() -> SignatureModel {
        builtin_model("$crate :: TypeSignature impl for bool"@, seq![], seq![])
    }

    fn signature() -> (sig: TypeSignatureHasher) {
        builtin_leaf_signature("$crate :: TypeSignature impl for bool")
    }
}

impl TypeSignature for char {
    open spec fn signature_model() -> SignatureModel {
        builtin_model("$crate :: TypeSignature impl for char"@, seq![], seq![])
    }

    fn signature() -> (sig: TypeSignatureHasher) {
        builtin_leaf_signature("$crate :: TypeSignature impl for char")
    }
}

impl TypeSignature for str {
    open spec fn signature_model() -> SignatureModel {
        builtin_model("$crate :: TypeSignature impl for str"@, seq![], seq![])
    }

    fn signature() -> (sig: TypeSignatureHasher) {
        builtin_leaf_signature("$crate :: TypeSignature impl for str")
    }
}

impl TypeSignature for () {
    open spec fn signature_model() -> SignatureModel {
        builtin_model("$crate :: TypeSignature impl for ()"@, seq![], seq![])
    }

    fn signature() -> (sig: TypeSignatureHasher) {
        builtin_leaf_signature("$crate :: TypeSignature impl for ()")
    }
}

impl<'a, T: TypeSignature> TypeSignature for &'a T {
    open spec fn signature_model() -> SignatureModel {
        builtin_model("$crate :: TypeSignature impl for &T"@, seq![T::signature_model()], seq![])
    }

    fn signature() -> (sig: TypeSignatureHasher) {
        builtin_unary_signature("$crate :: TypeSignature impl for &T", T::signature())
    }
}

impl<'a, T: TypeSignature> TypeSignature for &'a mut T {
    open spec fn signature_model() -> SignatureModel {
        builtin_model("$crate :: TypeSignature impl for &mut T"@, seq![T::signature_model()], seq![])
    }

    fn signature() -> (sig: TypeSignatureHasher) {
        builtin_unary_signature("$crate :: TypeSignature impl for &mut T", T::signature())
    }
}

impl<T: TypeSignature> TypeSignature for [T] {
    open spec fn signature_model() -> SignatureModel {
        builtin_model("$crate :: TypeSignature impl for [T]"@, seq![T::signature_model()], seq![])
    }

    fn signature() -> (sig: TypeSignatureHasher) {
        builtin_unary_signature("$crate :: TypeSignature impl for [T]", T::signature())
    }
}

impl<T: TypeSignature> TypeSignature for Option<T> {
    open spec fn signature_model() -> SignatureModel {
        builtin_model("$crate :: TypeSignature impl for Option<T>"@, seq![T::signature_model()], seq![])
    }

    fn signature() -> (sig: TypeSignatureHasher) {
        builtin_unary_signature("$crate :: TypeSignature impl for Option<T>", T::signature())
    }
}

impl<T: TypeSignature> TypeSignature for core::marker::PhantomData<T> {
    open spec fn signature_model() -> SignatureModel {
        builtin_model("$crate :: TypeSignature impl for core::marker::PhantomData<T>"@, seq![T::signature_model()], seq![])
    }

    fn signature() -> (sig: TypeSignatureHasher) {
        builtin_unary_signature("$crate :: TypeSignature impl for core::marker::PhantomData<T>", T::signature())
    }
}

impl<T: TypeSignature> TypeSignature for core::ops::Range<T> {
    open spec fn signature_model() -> SignatureModel {
        builtin_model("$crate :: TypeSignature impl for core::ops::Range<T>"@, seq![T::signature_model()], seq![])
    }

    fn signature() -> (sig: TypeSignatureHasher) {
        builtin_unary_signature("$crate :: TypeSignature impl for core::ops::Range<T>", T::signature())
    }
}

impl<T: TypeSignature> TypeSignature for Box<T> {
    open spec fn signature_model() -> SignatureModel {
        builtin_model("$crate :: TypeSignature impl for alloc::boxed::Box<T>"@, seq![T::signature_model()], seq![])
    }

    fn signature() -> (sig: TypeSignatureHasher) {
        builtin_unary_signature("$crate :: TypeSignature impl for alloc::boxed::Box<T>", T::signature())
    }
}

impl<T: TypeSignature> TypeSignature for std::rc::Rc<T> {
    open spec fn signature_model() -> SignatureModel {
        builtin_model("$crate :: TypeSignature impl for alloc::rc::Rc<T>"@, seq![T::signature_model()], seq![])
    }

    fn signature() -> (sig: TypeSignatureHasher) {
        builtin_unary_signature("$crate :: TypeSignature impl for alloc::rc::Rc<T>", T::signature())
    }
}

impl<T: TypeSignature> TypeSignature for std::sync::Arc<T> {
    open spec fn signature_model() -> SignatureModel {
        builtin_model("$crate :: TypeSignature impl for alloc::sync::Arc<T>"@, seq![T::signature_model()], seq![])
    }

    fn signature() -> (sig: TypeSignatureHasher) {
        builtin_unary_signature("$crate :: TypeSignature impl for alloc::sync::Arc<T>", T::signature())
    }
}

impl<T: TypeSignature> TypeSignature for Vec<T> {
    open spec fn signature_model() -> SignatureModel {
        builtin_model("$crate :: TypeSignature impl for alloc::vec::Vec<T>"@, seq![T::signature_model()], seq![])
    }

    fn signature() -> (sig: TypeSignatureHasher) {
        builtin_unary_signature("$crate :: TypeSignature impl for alloc::vec::Vec<T>", T::signature())
    }
}

impl<T: TypeSignature> TypeSignature for std::collections::VecDeque<T> {
    open spec fn signature_model() -> SignatureModel {
        builtin_model("$crate :: TypeSignature impl for alloc::collections::VecDeque<T>"@, seq![T::signature_model()], seq![])
    }

    fn signature() -> (sig: TypeSignatureHasher) {
        builtin_unary_signature("$crate :: TypeSignature impl for alloc::collections::VecDeque<T>", T::signature())
    }
}

impl<T: TypeSignature> TypeSignature for std::collections::HashSet<T> {
    open spec fn signature_model() -> SignatureModel {
        builtin_model("$crate :: TypeSignature impl for std::collections::HashSet<T>"@, seq![T::signature_model()], seq![])
    }

    fn signature() -> (sig: TypeSignatureHasher) {
        builtin_unary_signature("$crate :: TypeSignature impl for std::collections::HashSet<T>", T::signature())
    }
}

impl<T: TypeSignature> TypeSignature for std::collections::BTreeSet<T> {
    open spec fn signature_model() -> SignatureModel {
        builtin_model("$crate :: TypeSignature impl for alloc::collections::BTreeSet<T>"@, seq![T::signature_model()], seq![])
    }

    fn signature() -> (sig: TypeSignatureHasher) {
        builtin_unary_signature("$crate :: TypeSignature impl for alloc::collections::BTreeSet<T>", T::signature())
    }
}

impl<T: TypeSignature, E: TypeSignature> TypeSignature for Result<T, E> {
    open spec fn signature_model() -> SignatureModel {
        builtin_model("$crate :: TypeSignature impl for Result<T, E>"@, seq![T::signature_model(), E::signature_model()], seq![])
    }

    fn signature() -> (sig: TypeSignatureHasher) {
        builtin_binary_signature("$crate :: TypeSignature impl for Result<T, E>", T::signature(), E::signature())
    }
}

impl<K: TypeSignature, V: TypeSignature> TypeSignature for std::collections::HashMap<K, V> {
    open spec fn signature_model() -> SignatureModel {
        builtin_model("$crate :: TypeSignature impl for std::collections::HashMap<K, V>"@, seq![K::signature_model(), V::signature_model()], seq![])
    }

    fn signature() -> (sig: TypeSignatureHasher) {
        builtin_binary_signature("$crate :: TypeSignature impl for std::collections::HashMap<K, V>", K::signature(), V::signature())
    }
}

impl<K: TypeSignature, V: TypeSignature> TypeSignature for std::collections::BTreeMap<K, V> {
    open spec fn signature_model() -> SignatureModel {
        builtin_model("$crate :: TypeSignature impl for alloc::collections::BTreeMap<K, V>"@, seq![K::signature_model(), V::signature_model()], seq![])
    }

    fn signature() -> (sig: TypeSignatureHasher) {
        builtin_binary_signature("$crate :: TypeSignature impl for alloc::collections::BTreeMap<K, V>", K::signature(), V::signature())
    }
}

impl TypeSignature for String {
    open spec fn signature_model() -> SignatureModel {
        builtin_model("$crate :: TypeSignature impl for alloc::string::String"@, seq![], seq![])
    }

    fn signature() -> (sig: TypeSignatureHasher) {
        builtin_leaf_signature("$crate :: TypeSignature impl for alloc::string::String")
    }
}

impl<T: TypeSignature, const N: usize> TypeSignature for [T; N] {
    open spec fn signature_model() -> SignatureModel {
        builtin_model("TypeSignature impl for [T; N]"@, seq![T::signature_model()], seq![crate::__macro_export::const_usize_hash(N)])
    }

    fn signature() -> (sig: TypeSignatureHasher) {
        let const_hash = hash_const_usize(N);
        let sig = builtin_signature("TypeSignature impl for [T; N]", vec![T::signature()], vec![const_hash]);
        proof {
            assert(sig@.generics =~= seq![T::signature_model()]);
            assert(sig@.const_hashes =~= seq![crate::__macro_export::const_usize_hash(N)]);
        }
        sig
    }
}

impl<T0: TypeSignature> TypeSignature for (T0,) {
    open spec fn signature_model() -> SignatureModel {
        builtin_model("$crate :: TypeSignature impl for (T0)"@, seq![T0::signature_model()], seq![])
    }

    fn signature() -> (sig: TypeSignatureHasher) {
        builtin_unary_signature("$crate :: TypeSignature impl for (T0)", T0::signature())
    }
}

impl<T0: TypeSignature, T1: TypeSignature> TypeSignature for (T0, T1) {
    open spec fn signature_model() -> SignatureModel {
        builtin_model("$crate :: TypeSignature impl for (T0, T1)"@, seq![T0::signature_model(), T1::signature_model()], seq![])
    }

    fn signature() -> (sig: TypeSignatureHasher) {
        builtin_binary_signature("$crate :: TypeSignature impl for (T0, T1)", T0::signature(), T1::signature())
    }
}

impl<T0: TypeSignature, T1: TypeSignature, T2: TypeSignature> TypeSignature for (T0, T1, T2) {
    open spec fn signature_model() -> SignatureModel {
        builtin_model("$crate :: TypeSignature impl for (T0, T1, T2)"@, seq![T0::signature_model(), T1::signature_model(), T2::signature_model()], seq![])
    }

    fn signature() -> (sig: TypeSignatureHasher) {
        let sig = builtin_generic_signature("$crate :: TypeSignature impl for (T0, T1, T2)", vec![T0::signature(), T1::signature(), T2::signature()]);
        proof {
            assert(sig@.generics =~= seq![T0::signature_model(), T1::signature_model(), T2::signature_model()]);
        }
        sig
    }
}

impl<T0: TypeSignature, T1: TypeSignature, T2: TypeSignature, T3: TypeSignature> TypeSignature for (T0, T1, T2, T3) {
    open spec fn signature_model() -> SignatureModel {
        builtin_model("$crate :: TypeSignature impl for (T0, T1, T2, T3)"@, seq![T0::signature_model(), T1::signature_model(), T2::signature_model(), T3::signature_model()], seq![])
    }

    fn signature() -> (sig: TypeSignatureHasher) {
        let sig = builtin_generic_signature("$crate :: TypeSignature impl for (T0, T1, T2, T3)", vec![T0::signature(), T1::signature(), T2::signature(), T3::signature()]);
        proof {
            assert(sig@.generics =~= seq![T0::signature_model(), T1::signature_model(), T2::signature_model(), T3::signature_model()]);
        }
        sig
    }
}

impl<T0: TypeSignature, T1: TypeSignature, T2: TypeSignature, T3: TypeSignature, T4: TypeSignature> TypeSignature for (T0, T1, T2, T3, T4) {
    open spec fn signature_model() -> SignatureModel {
        builtin_model("$crate :: TypeSignature impl for (T0, T1, T2, T3, T4)"@, seq![T0::signature_model(), T1::signature_model(), T2::signature_model(), T3::signature_model(), T4::signature_model()], seq![])
    }

    fn signature() -> (sig: TypeSignatureHasher) {
        let sig = builtin_generic_signature("$crate :: TypeSignature impl for (T0, T1, T2, T3, T4)", vec![T0::signature(), T1::signature(), T2::signature(), T3::signature(), T4::signature()]);
        proof {
            assert(sig@.generics =~= seq![T0::signature_model(), T1::signature_model(), T2::signature_model(), T3::signature_model(), T4::signature_model()]);
        }
        sig
    }
}

impl<T0: TypeSignature, T1: TypeSignature, T2: TypeSignature, T3: TypeSignature, T4: TypeSignature, T5: TypeSignature> TypeSignature for (T0, T1, T2, T3, T4, T5) {
    open spec fn signature_model() -> SignatureModel {
        builtin_model("$crate :: TypeSignature impl for (T0, T1, T2, T3, T4, T5)"@, seq![T0::signature_model(), T1::signature_model(), T2::signature_model(), T3::signature_model(), T4::signature_model(), T5::signature_model()], seq![])
    }

    fn signature() -> (sig: TypeSignatureHasher) {
        let sig = builtin_generic_signature("$crate :: TypeSignature impl for (T0, T1, T2, T3, T4, T5)", vec![T0::signature(), T1::signature(), T2::signature(), T3::signature(), T4::signature(), T5::signature()]);
        proof {
            assert(sig@.generics =~= seq![T0::signature_model(), T1::signature_model(), T2::signature_model(), T3::signature_model(), T4::signature_model(), T5::signature_model()]);
        }
        sig
    }
}

impl<T0: TypeSignature, T1: TypeSignature, T2: TypeSignature, T3: TypeSignature, T4: TypeSignature, T5: TypeSignature, T6: TypeSignature> TypeSignature for (T0, T1, T2, T3, T4, T5, T6) {
    open spec fn signature_model() -> SignatureModel {
        builtin_model("$crate :: TypeSignature impl for (T0, T1, T2, T3, T4, T5, T6)"@, seq![T0::signature_model(), T1::signature_model(), T2::signature_model(), T3::signature_model(), T4::signature_model(), T5::signature_model(), T6::signature_model()], seq![])
    }

    fn signature() -> (sig: TypeSignatureHasher) {
        let sig = builtin_generic_signature("$crate :: TypeSignature impl for (T0, T1, T2, T3, T4, T5, T6)", vec![T0::signature(), T1::signature(), T2::signature(), T3::signature(), T4::signature(), T5::signature(), T6::signature()]);
        proof {
            assert(sig@.generics =~= seq![T0::signature_model(), T1::signature_model(), T2::signature_model(), T3::signature_model(), T4::signature_model(), T5::signature_model(), T6::signature_model()]);
        }
        sig
    }
}

impl<T0: TypeSignature, T1: TypeSignature, T2: TypeSignature, T3: TypeSignature, T4: TypeSignature, T5: TypeSignature, T6: TypeSignature, T7: TypeSignature> TypeSignature for (T0, T1, T2, T3, T4, T5, T6, T7) {
    open spec fn signature_model() -> SignatureModel {
        builtin_model("$crate :: TypeSignature impl for (T0, T1, T2, T3, T4, T5, T6, T7)"@, seq![T0::signature_model(), T1::signature_model(), T2::signature_model(), T3::signature_model(), T4::signature_model(), T5::signature_model(), T6::signature_model(), T7::signature_model()], seq![])
    }

    fn signature() -> (sig: TypeSignatureHasher) {
        let sig = builtin_generic_signature("$crate :: TypeSignature impl for (T0, T1, T2, T3, T4, T5, T6, T7)", vec![T0::signature(), T1::signature(), T2::signature(), T3::signature(), T4::signature(), T5::signature(), T6::signature(), T7::signature()]);
        proof {
            assert(sig@.generics =~= seq![T0::signature_model(), T1::signature_model(), T2::signature_model(), T3::signature_model(), T4::signature_model(), T5::signature_model(), T6::signature_model(), T7::signature_model()]);
        }
        sig
    }
}

impl<T0: TypeSignature, T1: TypeSignature, T2: TypeSignature, T3: TypeSignature, T4: TypeSignature, T5: TypeSignature, T6: TypeSignature, T7: TypeSignature, T8: TypeSignature> TypeSignature for (T0, T1, T2, T3, T4, T5, T6, T7, T8) {
    open spec fn signature_model() -> SignatureModel {
        builtin_model("$crate :: TypeSignature impl for (T0, T1, T2, T3, T4, T5, T6, T7, T8)"@, seq![T0::signature_model(), T1::signature_model(), T2::signature_model(), T3::signature_model(), T4::signature_model(), T5::signature_model(), T6::signature_model(), T7::signature_model(), T8::signature_model()], seq![])
    }

    fn signature() -> (sig: TypeSignatureHasher) {
        let sig = builtin_generic_signature("$crate :: TypeSignature impl for (T0, T1, T2, T3, T4, T5, T6, T7, T8)", vec![T0::signature(), T1::signature(), T2::signature(), T3::signature(), T4::signature(), T5::signature(), T6::signature(), T7::signature(), T8::signature()]);
        proof {
            assert(sig@.generics =~= seq![T0::signature_model(), T1::signature_model(), T2::signature_model(), T3::signature_model(), T4::signature_model(), T5::signature_model(), T6::signature_model(), T7::signature_model(), T8::signature_model()]);
        }
        sig
    }
}

impl<T0: TypeSignature, T1: TypeSignature, T2: TypeSignature, T3: TypeSignature, T4: TypeSignature, T5: TypeSignature, T6: TypeSignature, T7: TypeSignature, T8: TypeSignature, T9: TypeSignature> TypeSignature for (T0, T1, T2, T3, T4, T5, T6, T7, T8, T9) {
    open spec fn signature_model() -> SignatureModel {
        builtin_model("$crate :: TypeSignature impl for (T0, T1, T2, T3, T4, T5, T6, T7, T8, T9)"@, seq![T0::signature_model(), T1::signature_model(), T2::signature_model(), T3::signature_model(), T4::signature_model(), T5::signature_model(), T6::signature_model(), T7::signature_model(), T8::signature_model(), T9::signature_model()], seq![])
    }

    fn signature() -> (sig: TypeSignatureHasher) {
        let sig = builtin_generic_signature("$crate :: TypeSignature impl for (T0, T1, T2, T3, T4, T5, T6, T7, T8, T9)", vec![T0::signature(), T1::signature(), T2::signature(), T3::signature(), T4::signature(), T5::signature(), T6::signature(), T7::signature(), T8::signature(), T9::signature()]);
        proof {
            assert(sig@.generics =~= seq![T0::signature_model(), T1::signature_model(), T2::signature_model(), T3::signature_model(), T4::signature_model(), T5::signature_model(), T6::signature_model(), T7::signature_model(), T8::signature_model(), T9::signature_model()]);
        }
        sig
    }
}

impl<T0: TypeSignature, T1: TypeSignature, T2: TypeSignature, T3: TypeSignature, T4: TypeSignature, T5: TypeSignature, T6: TypeSignature, T7: TypeSignature, T8: TypeSignature, T9: TypeSignature, T10: TypeSignature> TypeSignature for (T0, T1, T2, T3, T4, T5, T6, T7, T8, T9, T10) {
    open spec fn signature_model() -> SignatureModel {
        builtin_model("$crate :: TypeSignature impl for (T0, T1, T2, T3, T4, T5, T6, T7, T8, T9, T10)"@, seq![T0::signature_model(), T1::signature_model(), T2::signature_model(), T3::signature_model(), T4::signature_model(), T5::signature_model(), T6::signature_model(), T7::signature_model(), T8::signature_model(), T9::signature_model(), T10::signature_model()], seq![])
    }

    fn signature() -> (sig: TypeSignatureHasher) {
        let sig = builtin_generic_signature("$crate :: TypeSignature impl for (T0, T1, T2, T3, T4, T5, T6, T7, T8, T9, T10)", vec![T0::signature(), T1::signature(), T2::signature(), T3::signature(), T4::signature(), T5::signature(), T6::signature(), T7::signature(), T8::signature(), T9::signature(), T10::signature()]);
        proof {
            assert(sig@.generics =~= seq![T0::signature_model(), T1::signature_model(), T2::signature_model(), T3::signature_model(), T4::signature_model(), T5::signature_model(), T6::signature_model(), T7::signature_model(), T8::signature_model(), T9::signature_model(), T10::signature_model()]);
        }
        sig
    }
}

impl<T0: TypeSignature, T1: TypeSignature, T2: TypeSignature, T3: TypeSignature, T4: TypeSignature, T5: TypeSignature, T6: TypeSignature, T7: TypeSignature, T8: TypeSignature, T9: TypeSignature, T10: TypeSignature, T11: TypeSignature> TypeSignature for (T0, T1, T2, T3, T4, T5, T6, T7, T8, T9, T10, T11) {
    open spec fn signature_model() -> SignatureModel {
        builtin_model("$crate :: TypeSignature impl for (T0, T1, T2, T3, T4, T5, T6, T7, T8, T9, T10, T11)"@, seq![T0::signature_model(), T1::signature_model(), T2::signature_model(), T3::signature_model(), T4::signature_model(), T5::signature_model(), T6::signature_model(), T7::signature_model(), T8::signature_model(), T9::signature_model(), T10::signature_model(), T11::signature_model()], seq![])
    }

    fn signature() -> (sig: TypeSignatureHasher) {
        let sig = builtin_generic_signature("$crate :: TypeSignature impl for (T0, T1, T2, T3, T4, T5, T6, T7, T8, T9, T10, T11)", vec![T0::signature(), T1::signature(), T2::signature(), T3::signature(), T4::signature(), T5::signature(), T6::signature(), T7::signature(), T8::signature(), T9::signature(), T10::signature(), T11::signature()]);
        proof {
            assert(sig@.generics =~= seq![T0::signature_model(), T1::signature_model(), T2::signature_model(), T3::signature_model(), T4::signature_model(), T5::signature_model(), T6::signature_model(), T7::signature_model(), T8::signature_model(), T9::signature_model(), T10::signature_model(), T11::signature_model()]);
        }
        sig
    }
}

impl<T0: TypeSignature, T1: TypeSignature, T2: TypeSignature, T3: TypeSignature, T4: TypeSignature, T5: TypeSignature, T6: TypeSignature, T7: TypeSignature, T8: TypeSignature, T9: TypeSignature, T10: TypeSignature, T11: TypeSignature, T12: TypeSignature> TypeSignature for (T0, T1, T2, T3, T4, T5, T6, T7, T8, T9, T10, T11, T12) {
    open spec fn signature_model() -> SignatureModel {
        builtin_model("$crate :: TypeSignature impl for (T0, T1, T2, T3, T4, T5, T6, T7, T8, T9, T10, T11, T12)"@, seq![T0::signature_model(), T1::signature_model(), T2::signature_model(), T3::signature_model(), T4::signature_model(), T5::signature_model(), T6::signature_model(), T7::signature_model(), T8::signature_model(), T9::signature_model(), T10::signature_model(), T11::signature_model(), T12::signature_model()], seq![])
    }

    fn signature() -> (sig: TypeSignatureHasher) {
        let sig = builtin_generic_signature("$crate :: TypeSignature impl for (T0, T1, T2, T3, T4, T5, T6, T7, T8, T9, T10, T11, T12)", vec![T0::signature(), T1::signature(), T2::signature(), T3::signature(), T4::signature(), T5::signature(), T6::signature(), T7::signature(), T8::signature(), T9::signature(), T10::signature(), T11::signature(), T12::signature()]);
        proof {
            assert(sig@.generics =~= seq![T0::signature_model(), T1::signature_model(), T2::signature_model(), T3::signature_model(), T4::signature_model(), T5::signature_model(), T6::signature_model(), T7::signature_model(), T8::signature_model(), T9::signature_model(), T10::signature_model(), T11::signature_model(), T12::signature_model()]);
        }
        sig
    }
}

impl<T0: TypeSignature, T1: TypeSignature, T2: TypeSignature, T3: TypeSignature, T4: TypeSignature, T5: TypeSignature, T6: TypeSignature, T7: TypeSignature, T8: TypeSignature, T9: TypeSignature, T10: TypeSignature, T11: TypeSignature, T12: TypeSignature, T13: TypeSignature> TypeSignature for (T0, T1, T2, T3, T4, T5, T6, T7, T8, T9, T10, T11, T12, T13) {
    open spec fn signature_model() -> SignatureModel {
        builtin_model("$crate :: TypeSignature impl for (T0, T1, T2, T3, T4, T5, T6, T7, T8, T9, T10, T11, T12, T13)"@, seq![T0::signature_model(), T1::signature_model(), T2::signature_model(), T3::signature_model(), T4::signature_model(), T5::signature_model(), T6::signature_model(), T7::signature_model(), T8::signature_model(), T9::signature_model(), T10::signature_model(), T11::signature_model(), T12::signature_model(), T13::signature_model()], seq![])
    }

    fn signature() -> (sig: TypeSignatureHasher) {
        let sig = builtin_generic_signature("$crate :: TypeSignature impl for (T0, T1, T2, T3, T4, T5, T6, T7, T8, T9, T10, T11, T12, T13)", vec![T0::signature(), T1::signature(), T2::signature(), T3::signature(), T4::signature(), T5::signature(), T6::signature(), T7::signature(), T8::signature(), T9::signature(), T10::signature(), T11::signature(), T12::signature(), T13::signature()]);
        proof {
            assert(sig@.generics =~= seq![T0::signature_model(), T1::signature_model(), T2::signature_model(), T3::signature_model(), T4::signature_model(), T5::signature_model(), T6::signature_model(), T7::signature_model(), T8::signature_model(), T9::signature_model(), T10::signature_model(), T11::signature_model(), T12::signature_model(), T13::signature_model()]);
        }
        sig
    }
}

impl<T0: TypeSignature, T1: TypeSignature, T2: TypeSignature, T3: TypeSignature, T4: TypeSignature, T5: TypeSignature, T6: TypeSignature, T7: TypeSignature, T8: TypeSignature, T9: TypeSignature, T10: TypeSignature, T11: TypeSignature, T12: TypeSignature, T13: TypeSignature, T14: TypeSignature> TypeSignature for (T0, T1, T2, T3, T4, T5, T6, T7, T8, T9, T10, T11, T12, T13, T14) {
    open spec fn signature_model() -> SignatureModel {
        builtin_model("$crate :: TypeSignature impl for (T0, T1, T2, T3, T4, T5, T6, T7, T8, T9, T10, T11, T12, T13, T14)"@, seq![T0::signature_model(), T1::signature_model(), T2::signature_model(), T3::signature_model(), T4::signature_model(), T5::signature_model(), T6::signature_model(), T7::signature_model(), T8::signature_model(), T9::signature_model(), T10::signature_model(), T11::signature_model(), T12::signature_model(), T13::signature_model(), T14::signature_model()], seq![])
    }

    fn signature() -> (sig: TypeSignatureHasher) {
        let sig = builtin_generic_signature("$crate :: TypeSignature impl for (T0, T1, T2, T3, T4, T5, T6, T7, T8, T9, T10, T11, T12, T13, T14)", vec![T0::signature(), T1::signature(), T2::signature(), T3::signature(), T4::signature(), T5::signature(), T6::signature(), T7::signature(), T8::signature(), T9::signature(), T10::signature(), T11::signature(), T12::signature(), T13::signature(), T14::signature()]);
        proof {
            assert(sig@.generics =~= seq![T0::signature_model(), T1::signature_model(), T2::signature_model(), T3::signature_model(), T4::signature_model(), T5::signature_model(), T6::signature_model(), T7::signature_model(), T8::signature_model(), T9::signature_model(), T10::signature_model(), T11::signature_model(), T12::signature_model(), T13::signature_model(), T14::signature_model()]);
        }
        sig
    }
}

impl<T0: TypeSignature, T1: TypeSignature, T2: TypeSignature, T3: TypeSignature, T4: TypeSignature, T5: TypeSignature, T6: TypeSignature, T7: TypeSignature, T8: TypeSignature, T9: TypeSignature, T10: TypeSignature, T11: TypeSignature, T12: TypeSignature, T13: TypeSignature, T14: TypeSignature, T15: TypeSignature> TypeSignature for (T0, T1, T2, T3, T4, T5, T6, T7, T8, T9, T10, T11, T12, T13, T14, T15) {
    open spec fn signature_model() -> SignatureModel {
        builtin_model("$crate :: TypeSignature impl for (T0, T1, T2, T3, T4, T5, T6, T7, T8, T9, T10, T11, T12, T13, T14, T15)"@, seq![T0::signature_model(), T1::signature_model(), T2::signature_model(), T3::signature_model(), T4::signature_model(), T5::signature_model(), T6::signature_model(), T7::signature_model(), T8::signature_model(), T9::signature_model(), T10::signature_model(), T11::signature_model(), T12::signature_model(), T13::signature_model(), T14::signature_model(), T15::signature_model()], seq![])
    }

    fn signature() -> (sig: TypeSignatureHasher) {
        let sig = builtin_generic_signature("$crate :: TypeSignature impl for (T0, T1, T2, T3, T4, T5, T6, T7, T8, T9, T10, T11, T12, T13, T14, T15)", vec![T0::signature(), T1::signature(), T2::signature(), T3::signature(), T4::signature(), T5::signature(), T6::signature(), T7::signature(), T8::signature(), T9::signature(), T10::signature(), T11::signature(), T12::signature(), T13::signature(), T14::signature(), T15::signature()]);
        proof {
            assert(sig@.generics =~= seq![T0::signature_model(), T1::signature_model(), T2::signature_model(), T3::signature_model(), T4::signature_model(), T5::signature_model(), T6::signature_model(), T7::signature_model(), T8::signature_model(), T9::signature_model(), T10::signature_model(), T11::signature_model(), T12::signature_model(), T13::signature_model(), T14::signature_model(), T15::signature_model()]);
        }
        sig
    }
}

impl<T: TypeSignature> TypeSignature for core::mem::MaybeUninit<T> {
    open spec fn signature_model() -> SignatureModel {
        builtin_model("$crate :: TypeSignature impl for core::mem::MaybeUninit<T>"@, seq![T::signature_model()], seq![])
    }

    fn signature() -> (sig: TypeSignatureHasher) {
        builtin_unary_signature("$crate :: TypeSignature impl for core::mem::MaybeUninit<T>", T::signature())
    }
}

impl<T: TypeSignature> TypeSignature for core::mem::ManuallyDrop<T> {
    open spec fn signature_model() -> SignatureModel {
        builtin_model("$crate :: TypeSignature impl for core::mem::ManuallyDrop<T>"@, seq![T::signature_model()], seq![])
    }

    fn signature() -> (sig: TypeSignatureHasher) {
        builtin_unary_signature("$crate :: TypeSignature impl for core::mem::ManuallyDrop<T>", T::signature())
    }
}

impl<T: TypeSignature> TypeSignature for core::num::Saturating<T> {
    open spec fn signature_model() -> SignatureModel {
        builtin_model("$crate :: TypeSignature impl for core::num::Saturating<T>"@, seq![T::signature_model()], seq![])
    }

    fn signature() -> (sig: TypeSignatureHasher) {
        builtin_unary_signature("$crate :: TypeSignature impl for core::num::Saturating<T>", T::signature())
    }
}

impl<T: TypeSignature> TypeSignature for core::num::Wrapping<T> {
    open spec fn signature_model() -> SignatureModel {
        builtin_model("$crate :: TypeSignature impl for core::num::Wrapping<T>"@, seq![T::signature_model()], seq![])
    }

    fn signature() -> (sig: TypeSignatureHasher) {
        builtin_unary_signature("$crate :: TypeSignature impl for core::num::Wrapping<T>", T::signature())
    }
}

impl<T: TypeSignature> TypeSignature for core::ops::RangeFrom<T> {
    open spec fn signature_model() -> SignatureModel {
        builtin_model("$crate :: TypeSignature impl for core::ops::RangeFrom<T>"@, seq![T::signature_model()], seq![])
    }

    fn signature() -> (sig: TypeSignatureHasher) {
        builtin_unary_signature("$crate :: TypeSignature impl for core::ops::RangeFrom<T>", T::signature())
    }
}

impl<T: TypeSignature> TypeSignature for core::ops::RangeInclusive<T> {
    open spec fn signature_model() -> SignatureModel {
        builtin_model("$crate :: TypeSignature impl for core::ops::RangeInclusive<T>"@, seq![T::signature_model()], seq![])
    }

    fn signature() -> (sig: TypeSignatureHasher) {
        builtin_unary_signature("$crate :: TypeSignature impl for core::ops::RangeInclusive<T>", T::signature())
    }
}

impl<T: TypeSignature> TypeSignature for core::ops::RangeTo<T> {
    open spec fn signature_model() -> SignatureModel {
        builtin_model("$crate :: TypeSignature impl for core::ops::RangeTo<T>"@, seq![T::signature_model()], seq![])
    }

    fn signature() -> (sig: TypeSignatureHasher) {
        builtin_unary_signature("$crate :: TypeSignature impl for core::ops::RangeTo<T>", T::signature())
    }
}

impl<T: TypeSignature> TypeSignature for core::ops::RangeToInclusive<T> {
    open spec fn signature_model() -> SignatureModel {
        builtin_model("$crate :: TypeSignature impl for core::ops::RangeToInclusive<T>"@, seq![T::signature_model()], seq![])
    }

    fn signature() -> (sig: TypeSignatureHasher) {
        builtin_unary_signature("$crate :: TypeSignature impl for core::ops::RangeToInclusive<T>", T::signature())
    }
}

impl<T: TypeSignature> TypeSignature for core::pin::Pin<T> {
    open spec fn signature_model() -> SignatureModel {
        builtin_model("$crate :: TypeSignature impl for core::pin::Pin<T>"@, seq![T::signature_model()], seq![])
    }

    fn signature() -> (sig: TypeSignatureHasher) {
        builtin_unary_signature("$crate :: TypeSignature impl for core::pin::Pin<T>", T::signature())
    }
}

impl TypeSignature for core::net::IpAddr {
    open spec fn signature_model() -> SignatureModel {
        builtin_model("$crate :: TypeSignature impl for core::net::IpAddr"@, seq![], seq![])
    }

    fn signature() -> (sig: TypeSignatureHasher) {
        builtin_leaf_signature("$crate :: TypeSignature impl for core::net::IpAddr")
    }
}

impl TypeSignature for core::net::Ipv4Addr {
    open spec fn signature_model() -> SignatureModel {
        builtin_model("$crate :: TypeSignature impl for core::net::Ipv4Addr"@, seq![], seq![])
    }

    fn signature() -> (sig: TypeSignatureHasher) {
        builtin_leaf_signature("$crate :: TypeSignature impl for core::net::Ipv4Addr")
    }
}

impl TypeSignature for core::net::Ipv6Addr {
    open spec fn signature_model() -> SignatureModel {
        builtin_model("$crate :: TypeSignature impl for core::net::Ipv6Addr"@, seq![], seq![])
    }

    fn signature() -> (sig: TypeSignatureHasher) {
        builtin_leaf_signature("$crate :: TypeSignature impl for core::net::Ipv6Addr")
    }
}

impl TypeSignature for core::net::SocketAddr {
    open spec fn signature_model() -> SignatureModel {
        builtin_model("$crate :: TypeSignature impl for core::net::SocketAddr"@, seq![], seq![])
    }

    fn signature() -> (sig: TypeSignatureHasher) {
        builtin_leaf_signature("$crate :: TypeSignature impl for core::net::SocketAddr")
    }
}

impl TypeSignature for core::net::SocketAddrV4 {
    open spec fn signature_model() -> SignatureModel {
        builtin_model("$crate :: TypeSignature impl for core::net::SocketAddrV4"@, seq![], seq![])
    }

    fn signature() -> (sig: TypeSignatureHasher) {
        builtin_leaf_signature("$crate :: TypeSignature impl for core::net::SocketAddrV4")
    }
}

impl TypeSignature for core::net::SocketAddrV6 {
    open spec fn signature_model() -> SignatureModel {
        builtin_model("$crate :: TypeSignature impl for core::net::SocketAddrV6"@, seq![], seq![])
    }

    fn signature() -> (sig: TypeSignatureHasher) {
        builtin_leaf_signature("$crate :: TypeSignature impl for core::net::SocketAddrV6")
    }
}

impl TypeSignature for core::ops::RangeFull {
    open spec fn signature_model() -> SignatureModel {
        builtin_model("$crate :: TypeSignature impl for core::ops::RangeFull"@, seq![], seq![])
    }

    fn signature() -> (sig: TypeSignatureHasher) {
        builtin_leaf_signature("$crate :: TypeSignature impl for core::ops::RangeFull")
    }
}

impl TypeSignature for core::sync::atomic::AtomicU8 {
    open spec fn signature_model() -> SignatureModel {
        builtin_model("$crate :: TypeSignature impl for core::sync::atomic::AtomicU8"@, seq![], seq![])
    }

    fn signature() -> (sig: TypeSignatureHasher) {
        builtin_leaf_signature("$crate :: TypeSignature impl for core::sync::atomic::AtomicU8")
    }
}

impl TypeSignature for core::sync::atomic::AtomicU16 {
    open spec fn signature_model() -> SignatureModel {
        builtin_model("$crate :: TypeSignature impl for core::sync::atomic::AtomicU16"@, seq![], seq![])
    }

    fn signature() -> (sig: TypeSignatureHasher) {
        builtin_leaf_signature("$crate :: TypeSignature impl for core::sync::atomic::AtomicU16")
    }
}

impl TypeSignature for core::sync::atomic::AtomicU32 {
    open spec fn signature_model() -> SignatureModel {
        builtin_model("$crate :: TypeSignature impl for core::sync::atomic::AtomicU32"@, seq![], seq![])
    }

    fn signature() -> (sig: TypeSignatureHasher) {
        builtin_leaf_signature("$crate :: TypeSignature impl for core::sync::atomic::AtomicU32")
    }
}

impl TypeSignature for core::sync::atomic::AtomicU64 {
    open spec fn signature_model() -> SignatureModel {
        builtin_model("$crate :: TypeSignature impl for core::sync::atomic::AtomicU64"@, seq![], seq![])
    }

    fn signature() -> (sig: TypeSignatureHasher) {
        builtin_leaf_signature("$crate :: TypeSignature impl for core::sync::atomic::AtomicU64")
    }
}

impl TypeSignature for core::sync::atomic::AtomicUsize {
    open spec fn signature_model() -> SignatureModel {
        builtin_model("$crate :: TypeSignature impl for core::sync::atomic::AtomicUsize"@, seq![], seq![])
    }

    fn signature() -> (sig: TypeSignatureHasher) {
        builtin_leaf_signature("$crate :: TypeSignature impl for core::sync::atomic::AtomicUsize")
    }
}

impl TypeSignature for core::sync::atomic::AtomicI8 {
    open spec fn signature_model() -> SignatureModel {
        builtin_model("$crate :: TypeSignature impl for core::sync::atomic::AtomicI8"@, seq![], seq![])
    }

    fn signature() -> (sig: TypeSignatureHasher) {
        builtin_leaf_signature("$crate :: TypeSignature impl for core::sync::atomic::AtomicI8")
    }
}

impl TypeSignature for core::sync::atomic::AtomicI16 {
    open spec fn signature_model() -> SignatureModel {
        builtin_model("$crate :: TypeSignature impl for core::sync::atomic::AtomicI16"@, seq![], seq![])
    }

    fn signature() -> (sig: TypeSignatureHasher) {
        builtin_leaf_signature("$crate :: TypeSignature impl for core::sync::atomic::AtomicI16")
    }
}

impl TypeSignature for core::sync::atomic::AtomicI32 {
    open spec fn signature_model() -> SignatureModel {
        builtin_model("$crate :: TypeSignature impl for core::sync::atomic::AtomicI32"@, seq![], seq![])
    }

    fn signature() -> (sig: TypeSignatureHasher) {
        builtin_leaf_signature("$crate :: TypeSignature impl for core::sync::atomic::AtomicI32")
    }
}

impl TypeSignature for core::sync::atomic::AtomicI64 {
    open spec fn signature_model() -> SignatureModel {
        builtin_model("$crate :: TypeSignature impl for core::sync::atomic::AtomicI64"@, seq![], seq![])
    }

    fn signature() -> (sig: TypeSignatureHasher) {
        builtin_leaf_signature("$crate :: TypeSignature impl for core::sync::atomic::AtomicI64")
    }
}

impl TypeSignature for core::sync::atomic::AtomicIsize {
    open spec fn signature_model() -> SignatureModel {
        builtin_model("$crate :: TypeSignature impl for core::sync::atomic::AtomicIsize"@, seq![], seq![])
    }

    fn signature() -> (sig: TypeSignatureHasher) {
        builtin_leaf_signature("$crate :: TypeSignature impl for core::sync::atomic::AtomicIsize")
    }
}

impl TypeSignature for core::time::Duration {
    open spec fn signature_model() -> SignatureModel {
        builtin_model("$crate :: TypeSignature impl for core::time::Duration"@, seq![], seq![])
    }

    fn signature() -> (sig: TypeSignatureHasher) {
        builtin_leaf_signature("$crate :: TypeSignature impl for core::time::Duration")
    }
}

impl TypeSignature for std::path::Path {
    open spec fn signature_model() -> SignatureModel {
        builtin_model("$crate :: TypeSignature impl for std::path::Path"@, seq![], seq![])
    }

    fn signature() -> (sig: TypeSignatureHasher) {
        builtin_leaf_signature("$crate :: TypeSignature impl for std::path::Path")
    }
}

impl TypeSignature for std::path::PathBuf {
    open spec fn signature_model() -> SignatureModel {
        builtin_model("$crate :: TypeSignature impl for std::path::PathBuf"@, seq![], seq![])
    }

    fn signature() -> (sig: TypeSignatureHasher) {
        builtin_leaf_signature("$crate :: TypeSignature impl for std::path::PathBuf")
    }
}

impl TypeSignature for std::time::Instant {
    open spec fn signature_model() -> SignatureModel {
        builtin_model("$crate :: TypeSignature impl for std::time::Instant"@, seq![], seq![])
    }

    fn signature() -> (sig: TypeSignatureHasher) {
        builtin_leaf_signature("$crate :: TypeSignature impl for std::time::Instant")
    }
}

impl TypeSignature for std::time::SystemTime {
    open spec fn signature_model() -> SignatureModel {
        builtin_model("$crate :: TypeSignature impl for std::time::SystemTime"@, seq![], seq![])
    }

    fn signature() -> (sig: TypeSignatureHasher) {
        builtin_leaf_signature("$crate :: TypeSignature impl for std::time::SystemTime")
    }
}

impl<'a, B: TypeSignature + std::borrow::ToOwned + ?Sized + 'a> TypeSignature for std::borrow::Cow<'a, B> {
    open spec fn signature_model() -> SignatureModel {
        builtin_model("TypeSignature impl for Cow<'a, B>"@, seq![B::signature_model()], seq![])
    }

    fn signature() -> (sig: TypeSignatureHasher) {
        builtin_unary_signature("TypeSignature impl for Cow<'a, B>", B::signature())
    }
}

} // verus!
