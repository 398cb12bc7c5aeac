//! What the signature of each generic type of the standard library is made of: the
//! signatures of its type arguments, each in its place, and nothing else.

use vstd::prelude::*;

use crate::__macro_export::const_usize_hash;
use crate::model::{signature_hash, VariantModel};
use crate::laws::law_generic_argument_changes_hash;
use crate::signature::TypeSignature;

verus! {

/// The generics of the signature of `&'a T` are the signature of `T`, it has no const hashes;
/// it has no variants.
pub proof fn law_signature_of_ref<'a, T: TypeSignature>()
    ensures
        <&'a T as TypeSignature>::signature_model().generics == seq![T::signature_model()],
        <&'a T as TypeSignature>::signature_model().const_hashes == Seq::<u64>::empty(),
        <&'a T as TypeSignature>::signature_model().variants == Seq::<VariantModel>::empty(),
{
}

/// The generics of the signature of `&'a mut T` are the signature of `T`, it has no const hashes;
/// it has no variants.
pub proof fn law_signature_of_mut_ref<'a, T: TypeSignature>()
    ensures
        <&'a mut T as TypeSignature>::signature_model().generics == seq![T::signature_model()],
        <&'a mut T as TypeSignature>::signature_model().const_hashes == Seq::<u64>::empty(),
        <&'a mut T as TypeSignature>::signature_model().variants == Seq::<VariantModel>::empty(),
{
}

/// The generics of the signature of `[T]` are the signature of `T`, it has no const hashes;
/// it has no variants.
pub proof fn law_signature_of_slice<T: TypeSignature>()
    ensures
        <[T] as TypeSignature>::signature_model().generics == seq![T::signature_model()],
        <[T] as TypeSignature>::signature_model().const_hashes == Seq::<u64>::empty(),
        <[T] as TypeSignature>::signature_model().variants == Seq::<VariantModel>::empty(),
{
}

/// The generics of the signature of `Option<T>` are the signature of `T`, it has no const hashes;
/// it has no variants.
pub proof fn law_signature_of_option<T: TypeSignature>()
    ensures
        <Option<T> as TypeSignature>::signature_model().generics == seq![T::signature_model()],
        <Option<T> as TypeSignature>::signature_model().const_hashes == Seq::<u64>::empty(),
        <Option<T> as TypeSignature>::signature_model().variants == Seq::<VariantModel>::empty(),
{
}

/// The generics of the signature of `PhantomData<T>` are the signature of `T`, it has no const hashes;
/// it has no variants.
pub proof fn law_signature_of_phantom_data<T: TypeSignature>()
    ensures
        <core::marker::PhantomData<T> as TypeSignature>::signature_model().generics == seq![T::signature_model()],
        <core::marker::PhantomData<T> as TypeSignature>::signature_model().const_hashes == Seq::<u64>::empty(),
        <core::marker::PhantomData<T> as TypeSignature>::signature_model().variants == Seq::<VariantModel>::empty(),
{
}

/// The generics of the signature of `Range<T>` are the signature of `T`, it has no const hashes;
/// it has no variants.
pub proof fn law_signature_of_range<T: TypeSignature>()
    ensures
        <core::ops::Range<T> as TypeSignature>::signature_model().generics == seq![T::signature_model()],
        <core::ops::Range<T> as TypeSignature>::signature_model().const_hashes == Seq::<u64>::empty(),
        <core::ops::Range<T> as TypeSignature>::signature_model().variants == Seq::<VariantModel>::empty(),
{
}

/// The generics of the signature of `Box<T>` are the signature of `T`, it has no const hashes;
/// it has no variants.
pub proof fn law_signature_of_box<T: TypeSignature>()
    ensures
        <Box<T> as TypeSignature>::signature_model().generics == seq![T::signature_model()],
        <Box<T> as TypeSignature>::signature_model().const_hashes == Seq::<u64>::empty(),
        <Box<T> as TypeSignature>::signature_model().variants == Seq::<VariantModel>::empty(),
{
}

/// The generics of the signature of `Rc<T>` are the signature of `T`, it has no const hashes;
/// it has no variants.
pub proof fn law_signature_of_rc<T: TypeSignature>()
    ensures
        <std::rc::Rc<T> as TypeSignature>::signature_model().generics == seq![T::signature_model()],
        <std::rc::Rc<T> as TypeSignature>::signature_model().const_hashes == Seq::<u64>::empty(),
        <std::rc::Rc<T> as TypeSignature>::signature_model().variants == Seq::<VariantModel>::empty(),
{
}

/// The generics of the signature of `Arc<T>` are the signature of `T`, it has no const hashes;
/// it has no variants.
pub proof fn law_signature_of_arc<T: TypeSignature>()
    ensures
        <std::sync::Arc<T> as TypeSignature>::signature_model().generics == seq![T::signature_model()],
        <std::sync::Arc<T> as TypeSignature>::signature_model().const_hashes == Seq::<u64>::empty(),
        <std::sync::Arc<T> as TypeSignature>::signature_model().variants == Seq::<VariantModel>::empty(),
{
}

/// The generics of the signature of `Vec<T>` are the signature of `T`, it has no const hashes;
/// it has no variants.
pub proof fn law_signature_of_vec<T: TypeSignature>()
    ensures
        <Vec<T> as TypeSignature>::signature_model().generics == seq![T::signature_model()],
        <Vec<T> as TypeSignature>::signature_model().const_hashes == Seq::<u64>::empty(),
        <Vec<T> as TypeSignature>::signature_model().variants == Seq::<VariantModel>::empty(),
{
}

/// The generics of the signature of `VecDeque<T>` are the signature of `T`, it has no const hashes;
/// it has no variants.
pub proof fn law_signature_of_vec_deque<T: TypeSignature>()
    ensures
        <std::collections::VecDeque<T> as TypeSignature>::signature_model().generics == seq![T::signature_model()],
        <std::collections::VecDeque<T> as TypeSignature>::signature_model().const_hashes == Seq::<u64>::empty(),
        <std::collections::VecDeque<T> as TypeSignature>::signature_model().variants == Seq::<VariantModel>::empty(),
{
}

/// The generics of the signature of `HashSet<T>` are the signature of `T`, it has no const hashes;
/// it has no variants.
pub proof fn law_signature_of_hash_set<T: TypeSignature>()
    ensures
        <std::collections::HashSet<T> as TypeSignature>::signature_model().generics == seq![T::signature_model()],
        <std::collections::HashSet<T> as TypeSignature>::signature_model().const_hashes == Seq::<u64>::empty(),
        <std::collections::HashSet<T> as TypeSignature>::signature_model().variants == Seq::<VariantModel>::empty(),
{
}

/// The generics of the signature of `BTreeSet<T>` are the signature of `T`, it has no const hashes;
/// it has no variants.
pub proof fn law_signature_of_b_tree_set<T: TypeSignature>()
    ensures
        <std::collections::BTreeSet<T> as TypeSignature>::signature_model().generics == seq![T::signature_model()],
        <std::collections::BTreeSet<T> as TypeSignature>::signature_model().const_hashes == Seq::<u64>::empty(),
        <std::collections::BTreeSet<T> as TypeSignature>::signature_model().variants == Seq::<VariantModel>::empty(),
{
}

/// The generics of the signature of `Result<T, E>` are the signatures of `T` and `E`, in that order,, it has no const hashes;
/// it has no variants.
pub proof fn law_signature_of_result<T: TypeSignature, E: TypeSignature>()
    ensures
        <Result<T, E> as TypeSignature>::signature_model().generics == seq![T::signature_model(), E::signature_model()],
        <Result<T, E> as TypeSignature>::signature_model().const_hashes == Seq::<u64>::empty(),
        <Result<T, E> as TypeSignature>::signature_model().variants == Seq::<VariantModel>::empty(),
{
}

/// The generics of the signature of `HashMap<K, V>` are the signatures of `K` and `V`, in that order,, it has no const hashes;
/// it has no variants.
pub proof fn law_signature_of_hash_map<K: TypeSignature, V: TypeSignature>()
    ensures
        <std::collections::HashMap<K, V> as TypeSignature>::signature_model().generics == seq![K::signature_model(), V::signature_model()],
        <std::collections::HashMap<K, V> as TypeSignature>::signature_model().const_hashes == Seq::<u64>::empty(),
        <std::collections::HashMap<K, V> as TypeSignature>::signature_model().variants == Seq::<VariantModel>::empty(),
{
}

/// The generics of the signature of `BTreeMap<K, V>` are the signatures of `K` and `V`, in that order,, it has no const hashes;
/// it has no variants.
pub proof fn law_signature_of_b_tree_map<K: TypeSignature, V: TypeSignature>()
    ensures
        <std::collections::BTreeMap<K, V> as TypeSignature>::signature_model().generics == seq![K::signature_model(), V::signature_model()],
        <std::collections::BTreeMap<K, V> as TypeSignature>::signature_model().const_hashes == Seq::<u64>::empty(),
        <std::collections::BTreeMap<K, V> as TypeSignature>::signature_model().variants == Seq::<VariantModel>::empty(),
{
}

/// The generics of the signature of `[T; N]` are the signature of `T` and its const hash is that of `N`;
/// it has no variants.
pub proof fn law_signature_of_array<T: TypeSignature, const N: usize>()
    ensures
        <[T; N] as TypeSignature>::signature_model().generics == seq![T::signature_model()],
        <[T; N] as TypeSignature>::signature_model().const_hashes == seq![const_usize_hash(N)],
        <[T; N] as TypeSignature>::signature_model().variants == Seq::<VariantModel>::empty(),
{
}

/// The generics of the signature of `(T0,)` are the signature of `T0`, it has no const hashes;
/// it has no variants.
pub proof fn law_signature_of_tuple_1<T0: TypeSignature>()
    ensures
        <(T0,) as TypeSignature>::signature_model().generics == seq![T0::signature_model()],
        <(T0,) as TypeSignature>::signature_model().const_hashes == Seq::<u64>::empty(),
        <(T0,) as TypeSignature>::signature_model().variants == Seq::<VariantModel>::empty(),
{
}

/// The generics of the signature of `(T0, T1)` are the signatures of `T0` and `T1`, in that order,, it has no const hashes;
/// it has no variants.
pub proof fn law_signature_of_tuple_2<T0: TypeSignature, T1: TypeSignature>()
    ensures
        <(T0, T1) as TypeSignature>::signature_model().generics == seq![T0::signature_model(), T1::signature_model()],
        <(T0, T1) as TypeSignature>::signature_model().const_hashes == Seq::<u64>::empty(),
        <(T0, T1) as TypeSignature>::signature_model().variants == Seq::<VariantModel>::empty(),
{
}

/// The generics of the signature of `(T0, T1, T2)` are the signatures of `T0`, `T1` and `T2`, in that order,, it has no const hashes;
/// it has no variants.
pub proof fn law_signature_of_tuple_3<T0: TypeSignature, T1: TypeSignature, T2: TypeSignature>()
    ensures
        <(T0, T1, T2) as TypeSignature>::signature_model().generics == seq![T0::signature_model(), T1::signature_model(), T2::signature_model()],
        <(T0, T1, T2) as TypeSignature>::signature_model().const_hashes == Seq::<u64>::empty(),
        <(T0, T1, T2) as TypeSignature>::signature_model().variants == Seq::<VariantModel>::empty(),
{
}

/// The generics of the signature of `(T0, T1, T2, T3)` are the signatures of `T0`, `T1`, `T2` and `T3`, in that order,, it has no const hashes;
/// it has no variants.
pub proof fn law_signature_of_tuple_4<T0: TypeSignature, T1: TypeSignature, T2: TypeSignature, T3: TypeSignature>()
    ensures
        <(T0, T1, T2, T3) as TypeSignature>::signature_model().generics == seq![T0::signature_model(), T1::signature_model(), T2::signature_model(), T3::signature_model()],
        <(T0, T1, T2, T3) as TypeSignature>::signature_model().const_hashes == Seq::<u64>::empty(),
        <(T0, T1, T2, T3) as TypeSignature>::signature_model().variants == Seq::<VariantModel>::empty(),
{
}

/// The generics of the signature of `(T0, T1, T2, T3, T4)` are the signatures of `T0`, `T1`, `T2`, `T3` and `T4`, in that order,, it has no const hashes;
/// it has no variants.
pub proof fn law_signature_of_tuple_5<T0: TypeSignature, T1: TypeSignature, T2: TypeSignature, T3: TypeSignature, T4: TypeSignature>()
    ensures
        <(T0, T1, T2, T3, T4) as TypeSignature>::signature_model().generics == seq![T0::signature_model(), T1::signature_model(), T2::signature_model(), T3::signature_model(), T4::signature_model()],
        <(T0, T1, T2, T3, T4) as TypeSignature>::signature_model().const_hashes == Seq::<u64>::empty(),
        <(T0, T1, T2, T3, T4) as TypeSignature>::signature_model().variants == Seq::<VariantModel>::empty(),
{
}

/// The generics of the signature of `(T0, T1, T2, T3, T4, T5)` are the signatures of `T0`, `T1`, `T2`, `T3`, `T4` and `T5`, in that order,, it has no const hashes;
/// it has no variants.
pub proof fn law_signature_of_tuple_6<T0: TypeSignature, T1: TypeSignature, T2: TypeSignature, T3: TypeSignature, T4: TypeSignature, T5: TypeSignature>()
    ensures
        <(T0, T1, T2, T3, T4, T5) as TypeSignature>::signature_model().generics == seq![T0::signature_model(), T1::signature_model(), T2::signature_model(), T3::signature_model(), T4::signature_model(), T5::signature_model()],
        <(T0, T1, T2, T3, T4, T5) as TypeSignature>::signature_model().const_hashes == Seq::<u64>::empty(),
        <(T0, T1, T2, T3, T4, T5) as TypeSignature>::signature_model().variants == Seq::<VariantModel>::empty(),
{
}

/// The generics of the signature of `(T0, T1, T2, T3, T4, T5, T6)` are the signatures of `T0`, `T1`, `T2`, `T3`, `T4`, `T5` and `T6`, in that order,, it has no const hashes;
/// it has no variants.
pub proof fn law_signature_of_tuple_7<T0: TypeSignature, T1: TypeSignature, T2: TypeSignature, T3: TypeSignature, T4: TypeSignature, T5: TypeSignature, T6: TypeSignature>()
    ensures
        <(T0, T1, T2, T3, T4, T5, T6) as TypeSignature>::signature_model().generics == seq![T0::signature_model(), T1::signature_model(), T2::signature_model(), T3::signature_model(), T4::signature_model(), T5::signature_model(), T6::signature_model()],
        <(T0, T1, T2, T3, T4, T5, T6) as TypeSignature>::signature_model().const_hashes == Seq::<u64>::empty(),
        <(T0, T1, T2, T3, T4, T5, T6) as TypeSignature>::signature_model().variants == Seq::<VariantModel>::empty(),
{
}

/// The generics of the signature of `(T0, T1, T2, T3, T4, T5, T6, T7)` are the signatures of `T0`, `T1`, `T2`, `T3`, `T4`, `T5`, `T6` and `T7`, in that order,, it has no const hashes;
/// it has no variants.
pub proof fn law_signature_of_tuple_8<T0: TypeSignature, T1: TypeSignature, T2: TypeSignature, T3: TypeSignature, T4: TypeSignature, T5: TypeSignature, T6: TypeSignature, T7: TypeSignature>()
    ensures
        <(T0, T1, T2, T3, T4, T5, T6, T7) as TypeSignature>::signature_model().generics == seq![T0::signature_model(), T1::signature_model(), T2::signature_model(), T3::signature_model(), T4::signature_model(), T5::signature_model(), T6::signature_model(), T7::signature_model()],
        <(T0, T1, T2, T3, T4, T5, T6, T7) as TypeSignature>::signature_model().const_hashes == Seq::<u64>::empty(),
        <(T0, T1, T2, T3, T4, T5, T6, T7) as TypeSignature>::signature_model().variants == Seq::<VariantModel>::empty(),
{
}

/// The generics of the signature of `(T0, T1, T2, T3, T4, T5, T6, T7, T8)` are the signatures of `T0`, `T1`, `T2`, `T3`, `T4`, `T5`, `T6`, `T7` and `T8`, in that order,, it has no const hashes;
/// it has no variants.
pub proof fn law_signature_of_tuple_9<T0: TypeSignature, T1: TypeSignature, T2: TypeSignature, T3: TypeSignature, T4: TypeSignature, T5: TypeSignature, T6: TypeSignature, T7: TypeSignature, T8: TypeSignature>()
    ensures
        <(T0, T1, T2, T3, T4, T5, T6, T7, T8) as TypeSignature>::signature_model().generics == seq![T0::signature_model(), T1::signature_model(), T2::signature_model(), T3::signature_model(), T4::signature_model(), T5::signature_model(), T6::signature_model(), T7::signature_model(), T8::signature_model()],
        <(T0, T1, T2, T3, T4, T5, T6, T7, T8) as TypeSignature>::signature_model().const_hashes == Seq::<u64>::empty(),
        <(T0, T1, T2, T3, T4, T5, T6, T7, T8) as TypeSignature>::signature_model().variants == Seq::<VariantModel>::empty(),
{
}

/// The generics of the signature of `(T0, T1, T2, T3, T4, T5, T6, T7, T8, T9)` are the signatures of `T0`, `T1`, `T2`, `T3`, `T4`, `T5`, `T6`, `T7`, `T8` and `T9`, in that order,, it has no const hashes;
/// it has no variants.
pub proof fn law_signature_of_tuple_10<T0: TypeSignature, T1: TypeSignature, T2: TypeSignature, T3: TypeSignature, T4: TypeSignature, T5: TypeSignature, T6: TypeSignature, T7: TypeSignature, T8: TypeSignature, T9: TypeSignature>()
    ensures
        <(T0, T1, T2, T3, T4, T5, T6, T7, T8, T9) as TypeSignature>::signature_model().generics == seq![T0::signature_model(), T1::signature_model(), T2::signature_model(), T3::signature_model(), T4::signature_model(), T5::signature_model(), T6::signature_model(), T7::signature_model(), T8::signature_model(), T9::signature_model()],
        <(T0, T1, T2, T3, T4, T5, T6, T7, T8, T9) as TypeSignature>::signature_model().const_hashes == Seq::<u64>::empty(),
        <(T0, T1, T2, T3, T4, T5, T6, T7, T8, T9) as TypeSignature>::signature_model().variants == Seq::<VariantModel>::empty(),
{
}

/// The generics of the signature of `(T0, T1, T2, T3, T4, T5, T6, T7, T8, T9, T10)` are the signatures of `T0`, `T1`, `T2`, `T3`, `T4`, `T5`, `T6`, `T7`, `T8`, `T9` and `T10`, in that order,, it has no const hashes;
/// it has no variants.
pub proof fn law_signature_of_tuple_11<T0: TypeSignature, T1: TypeSignature, T2: TypeSignature, T3: TypeSignature, T4: TypeSignature, T5: TypeSignature, T6: TypeSignature, T7: TypeSignature, T8: TypeSignature, T9: TypeSignature, T10: TypeSignature>()
    ensures
        <(T0, T1, T2, T3, T4, T5, T6, T7, T8, T9, T10) as TypeSignature>::signature_model().generics == seq![T0::signature_model(), T1::signature_model(), T2::signature_model(), T3::signature_model(), T4::signature_model(), T5::signature_model(), T6::signature_model(), T7::signature_model(), T8::signature_model(), T9::signature_model(), T10::signature_model()],
        <(T0, T1, T2, T3, T4, T5, T6, T7, T8, T9, T10) as TypeSignature>::signature_model().const_hashes == Seq::<u64>::empty(),
        <(T0, T1, T2, T3, T4, T5, T6, T7, T8, T9, T10) as TypeSignature>::signature_model().variants == Seq::<VariantModel>::empty(),
{
}

/// The generics of the signature of `(T0, T1, T2, T3, T4, T5, T6, T7, T8, T9, T10, T11)` are the signatures of `T0`, `T1`, `T2`, `T3`, `T4`, `T5`, `T6`, `T7`, `T8`, `T9`, `T10` and `T11`, in that order,, it has no const hashes;
/// it has no variants.
pub proof fn law_signature_of_tuple_12<T0: TypeSignature, T1: TypeSignature, T2: TypeSignature, T3: TypeSignature, T4: TypeSignature, T5: TypeSignature, T6: TypeSignature, T7: TypeSignature, T8: TypeSignature, T9: TypeSignature, T10: TypeSignature, T11: TypeSignature>()
    ensures
        <(T0, T1, T2, T3, T4, T5, T6, T7, T8, T9, T10, T11) as TypeSignature>::signature_model().generics == seq![T0::signature_model(), T1::signature_model(), T2::signature_model(), T3::signature_model(), T4::signature_model(), T5::signature_model(), T6::signature_model(), T7::signature_model(), T8::signature_model(), T9::signature_model(), T10::signature_model(), T11::signature_model()],
        <(T0, T1, T2, T3, T4, T5, T6, T7, T8, T9, T10, T11) as TypeSignature>::signature_model().const_hashes == Seq::<u64>::empty(),
        <(T0, T1, T2, T3, T4, T5, T6, T7, T8, T9, T10, T11) as TypeSignature>::signature_model().variants == Seq::<VariantModel>::empty(),
{
}

/// The generics of the signature of `(T0, T1, T2, T3, T4, T5, T6, T7, T8, T9, T10, T11, T12)` are the signatures of `T0`, `T1`, `T2`, `T3`, `T4`, `T5`, `T6`, `T7`, `T8`, `T9`, `T10`, `T11` and `T12`, in that order,, it has no const hashes;
/// it has no variants.
pub proof fn law_signature_of_tuple_13<T0: TypeSignature, T1: TypeSignature, T2: TypeSignature, T3: TypeSignature, T4: TypeSignature, T5: TypeSignature, T6: TypeSignature, T7: TypeSignature, T8: TypeSignature, T9: TypeSignature, T10: TypeSignature, T11: TypeSignature, T12: TypeSignature>()
    ensures
        <(T0, T1, T2, T3, T4, T5, T6, T7, T8, T9, T10, T11, T12) as TypeSignature>::signature_model().generics == seq![T0::signature_model(), T1::signature_model(), T2::signature_model(), T3::signature_model(), T4::signature_model(), T5::signature_model(), T6::signature_model(), T7::signature_model(), T8::signature_model(), T9::signature_model(), T10::signature_model(), T11::signature_model(), T12::signature_model()],
        <(T0, T1, T2, T3, T4, T5, T6, T7, T8, T9, T10, T11, T12) as TypeSignature>::signature_model().const_hashes == Seq::<u64>::empty(),
        <(T0, T1, T2, T3, T4, T5, T6, T7, T8, T9, T10, T11, T12) as TypeSignature>::signature_model().variants == Seq::<VariantModel>::empty(),
{
}

/// The generics of the signature of `(T0, T1, T2, T3, T4, T5, T6, T7, T8, T9, T10, T11, T12, T13)` are the signatures of `T0`, `T1`, `T2`, `T3`, `T4`, `T5`, `T6`, `T7`, `T8`, `T9`, `T10`, `T11`, `T12` and `T13`, in that order,, it has no const hashes;
/// it has no variants.
pub proof fn law_signature_of_tuple_14<T0: TypeSignature, T1: TypeSignature, T2: TypeSignature, T3: TypeSignature, T4: TypeSignature, T5: TypeSignature, T6: TypeSignature, T7: TypeSignature, T8: TypeSignature, T9: TypeSignature, T10: TypeSignature, T11: TypeSignature, T12: TypeSignature, T13: TypeSignature>()
    ensures
        <(T0, T1, T2, T3, T4, T5, T6, T7, T8, T9, T10, T11, T12, T13) as TypeSignature>::signature_model().generics == seq![T0::signature_model(), T1::signature_model(), T2::signature_model(), T3::signature_model(), T4::signature_model(), T5::signature_model(), T6::signature_model(), T7::signature_model(), T8::signature_model(), T9::signature_model(), T10::signature_model(), T11::signature_model(), T12::signature_model(), T13::signature_model()],
        <(T0, T1, T2, T3, T4, T5, T6, T7, T8, T9, T10, T11, T12, T13) as TypeSignature>::signature_model().const_hashes == Seq::<u64>::empty(),
        <(T0, T1, T2, T3, T4, T5, T6, T7, T8, T9, T10, T11, T12, T13) as TypeSignature>::signature_model().variants == Seq::<VariantModel>::empty(),
{
}

/// The generics of the signature of `(T0, T1, T2, T3, T4, T5, T6, T7, T8, T9, T10, T11, T12, T13, T14)` are the signatures of `T0`, `T1`, `T2`, `T3`, `T4`, `T5`, `T6`, `T7`, `T8`, `T9`, `T10`, `T11`, `T12`, `T13` and `T14`, in that order,, it has no const hashes;
/// it has no variants.
pub proof fn law_signature_of_tuple_15<T0: TypeSignature, T1: TypeSignature, T2: TypeSignature, T3: TypeSignature, T4: TypeSignature, T5: TypeSignature, T6: TypeSignature, T7: TypeSignature, T8: TypeSignature, T9: TypeSignature, T10: TypeSignature, T11: TypeSignature, T12: TypeSignature, T13: TypeSignature, T14: TypeSignature>()
    ensures
        <(T0, T1, T2, T3, T4, T5, T6, T7, T8, T9, T10, T11, T12, T13, T14) as TypeSignature>::signature_model().generics == seq![T0::signature_model(), T1::signature_model(), T2::signature_model(), T3::signature_model(), T4::signature_model(), T5::signature_model(), T6::signature_model(), T7::signature_model(), T8::signature_model(), T9::signature_model(), T10::signature_model(), T11::signature_model(), T12::signature_model(), T13::signature_model(), T14::signature_model()],
        <(T0, T1, T2, T3, T4, T5, T6, T7, T8, T9, T10, T11, T12, T13, T14) as TypeSignature>::signature_model().const_hashes == Seq::<u64>::empty(),
        <(T0, T1, T2, T3, T4, T5, T6, T7, T8, T9, T10, T11, T12, T13, T14) as TypeSignature>::signature_model().variants == Seq::<VariantModel>::empty(),
{
}

/// The generics of the signature of `(T0, T1, T2, T3, T4, T5, T6, T7, T8, T9, T10, T11, T12, T13, T14, T15)` are the signatures of `T0`, `T1`, `T2`, `T3`, `T4`, `T5`, `T6`, `T7`, `T8`, `T9`, `T10`, `T11`, `T12`, `T13`, `T14` and `T15`, in that order,, it has no const hashes;
/// it has no variants.
pub proof fn law_signature_of_tuple_16<T0: TypeSignature, T1: TypeSignature, T2: TypeSignature, T3: TypeSignature, T4: TypeSignature, T5: TypeSignature, T6: TypeSignature, T7: TypeSignature, T8: TypeSignature, T9: TypeSignature, T10: TypeSignature, T11: TypeSignature, T12: TypeSignature, T13: TypeSignature, T14: TypeSignature, T15: TypeSignature>()
    ensures
        <(T0, T1, T2, T3, T4, T5, T6, T7, T8, T9, T10, T11, T12, T13, T14, T15) as TypeSignature>::signature_model().generics == seq![T0::signature_model(), T1::signature_model(), T2::signature_model(), T3::signature_model(), T4::signature_model(), T5::signature_model(), T6::signature_model(), T7::signature_model(), T8::signature_model(), T9::signature_model(), T10::signature_model(), T11::signature_model(), T12::signature_model(), T13::signature_model(), T14::signature_model(), T15::signature_model()],
        <(T0, T1, T2, T3, T4, T5, T6, T7, T8, T9, T10, T11, T12, T13, T14, T15) as TypeSignature>::signature_model().const_hashes == Seq::<u64>::empty(),
        <(T0, T1, T2, T3, T4, T5, T6, T7, T8, T9, T10, T11, T12, T13, T14, T15) as TypeSignature>::signature_model().variants == Seq::<VariantModel>::empty(),
{
}

/// The generics of the signature of `MaybeUninit<T>` are the signature of `T`, it has no const hashes;
/// it has no variants.
pub proof fn law_signature_of_maybe_uninit<T: TypeSignature>()
    ensures
        <core::mem::MaybeUninit<T> as TypeSignature>::signature_model().generics == seq![T::signature_model()],
        <core::mem::MaybeUninit<T> as TypeSignature>::signature_model().const_hashes == Seq::<u64>::empty(),
        <core::mem::MaybeUninit<T> as TypeSignature>::signature_model().variants == Seq::<VariantModel>::empty(),
{
}

/// The generics of the signature of `ManuallyDrop<T>` are the signature of `T`, it has no const hashes;
/// it has no variants.
pub proof fn law_signature_of_manually_drop<T: TypeSignature>()
    ensures
        <core::mem::ManuallyDrop<T> as TypeSignature>::signature_model().generics == seq![T::signature_model()],
        <core::mem::ManuallyDrop<T> as TypeSignature>::signature_model().const_hashes == Seq::<u64>::empty(),
        <core::mem::ManuallyDrop<T> as TypeSignature>::signature_model().variants == Seq::<VariantModel>::empty(),
{
}

/// The generics of the signature of `Saturating<T>` are the signature of `T`, it has no const hashes;
/// it has no variants.
pub proof fn law_signature_of_saturating<T: TypeSignature>()
    ensures
        <core::num::Saturating<T> as TypeSignature>::signature_model().generics == seq![T::signature_model()],
        <core::num::Saturating<T> as TypeSignature>::signature_model().const_hashes == Seq::<u64>::empty(),
        <core::num::Saturating<T> as TypeSignature>::signature_model().variants == Seq::<VariantModel>::empty(),
{
}

/// The generics of the signature of `Wrapping<T>` are the signature of `T`, it has no const hashes;
/// it has no variants.
pub proof fn law_signature_of_wrapping<T: TypeSignature>()
    ensures
        <core::num::Wrapping<T> as TypeSignature>::signature_model().generics == seq![T::signature_model()],
        <core::num::Wrapping<T> as TypeSignature>::signature_model().const_hashes == Seq::<u64>::empty(),
        <core::num::Wrapping<T> as TypeSignature>::signature_model().variants == Seq::<VariantModel>::empty(),
{
}

/// The generics of the signature of `RangeFrom<T>` are the signature of `T`, it has no const hashes;
/// it has no variants.
pub proof fn law_signature_of_range_from<T: TypeSignature>()
    ensures
        <core::ops::RangeFrom<T> as TypeSignature>::signature_model().generics == seq![T::signature_model()],
        <core::ops::RangeFrom<T> as TypeSignature>::signature_model().const_hashes == Seq::<u64>::empty(),
        <core::ops::RangeFrom<T> as TypeSignature>::signature_model().variants == Seq::<VariantModel>::empty(),
{
}

/// The generics of the signature of `RangeInclusive<T>` are the signature of `T`, it has no const hashes;
/// it has no variants.
pub proof fn law_signature_of_range_inclusive<T: TypeSignature>()
    ensures
        <core::ops::RangeInclusive<T> as TypeSignature>::signature_model().generics == seq![T::signature_model()],
        <core::ops::RangeInclusive<T> as TypeSignature>::signature_model().const_hashes == Seq::<u64>::empty(),
        <core::ops::RangeInclusive<T> as TypeSignature>::signature_model().variants == Seq::<VariantModel>::empty(),
{
}

/// The generics of the signature of `RangeTo<T>` are the signature of `T`, it has no const hashes;
/// it has no variants.
pub proof fn law_signature_of_range_to<T: TypeSignature>()
    ensures
        <core::ops::RangeTo<T> as TypeSignature>::signature_model().generics == seq![T::signature_model()],
        <core::ops::RangeTo<T> as TypeSignature>::signature_model().const_hashes == Seq::<u64>::empty(),
        <core::ops::RangeTo<T> as TypeSignature>::signature_model().variants == Seq::<VariantModel>::empty(),
{
}

/// The generics of the signature of `RangeToInclusive<T>` are the signature of `T`, it has no const hashes;
/// it has no variants.
pub proof fn law_signature_of_range_to_inclusive<T: TypeSignature>()
    ensures
        <core::ops::RangeToInclusive<T> as TypeSignature>::signature_model().generics == seq![T::signature_model()],
        <core::ops::RangeToInclusive<T> as TypeSignature>::signature_model().const_hashes == Seq::<u64>::empty(),
        <core::ops::RangeToInclusive<T> as TypeSignature>::signature_model().variants == Seq::<VariantModel>::empty(),
{
}

/// The generics of the signature of `Pin<T>` are the signature of `T`, it has no const hashes;
/// it has no variants.
pub proof fn law_signature_of_pin<T: TypeSignature>()
    ensures
        <core::pin::Pin<T> as TypeSignature>::signature_model().generics == seq![T::signature_model()],
        <core::pin::Pin<T> as TypeSignature>::signature_model().const_hashes == Seq::<u64>::empty(),
        <core::pin::Pin<T> as TypeSignature>::signature_model().variants == Seq::<VariantModel>::empty(),
{
}

/// The generics of the signature of `Cow<'a, B>` are the signature of `B`, it has no const hashes;
/// it has no variants.
pub proof fn law_signature_of_cow<'a, B: TypeSignature + std::borrow::ToOwned + ?Sized + 'a>()
    ensures
        <std::borrow::Cow<'a, B> as TypeSignature>::signature_model().generics == seq![B::signature_model()],
        <std::borrow::Cow<'a, B> as TypeSignature>::signature_model().const_hashes == Seq::<u64>::empty(),
        <std::borrow::Cow<'a, B> as TypeSignature>::signature_model().variants == Seq::<VariantModel>::empty(),
{
}

/// Two maps whose value types hash differently hash differently.
pub proof fn law_map_value_type_changes_hash<K: TypeSignature, V1: TypeSignature, V2: TypeSignature>()
    requires
        signature_hash(V1::signature_model()) != signature_hash(V2::signature_model()),
    ensures
        signature_hash(<std::collections::HashMap<K, V1> as TypeSignature>::signature_model())
            != signature_hash(<std::collections::HashMap<K, V2> as TypeSignature>::signature_model()),
        signature_hash(<std::collections::BTreeMap<K, V1> as TypeSignature>::signature_model())
            != signature_hash(<std::collections::BTreeMap<K, V2> as TypeSignature>::signature_model()),
{
    law_generic_argument_changes_hash(
        <std::collections::HashMap<K, V1> as TypeSignature>::signature_model(),
        <std::collections::HashMap<K, V2> as TypeSignature>::signature_model(),
        1,
    );
    law_generic_argument_changes_hash(
        <std::collections::BTreeMap<K, V1> as TypeSignature>::signature_model(),
        <std::collections::BTreeMap<K, V2> as TypeSignature>::signature_model(),
        1,
    );
}

/// Two triples whose last element types hash differently hash differently, and so do two
/// whose first element types do.
pub proof fn law_triple_element_type_changes_hash<
    T0: TypeSignature,
    T1: TypeSignature,
    A: TypeSignature,
    B: TypeSignature,
>()
    requires
        signature_hash(A::signature_model()) != signature_hash(B::signature_model()),
    ensures
        signature_hash(<(T0, T1, A) as TypeSignature>::signature_model())
            != signature_hash(<(T0, T1, B) as TypeSignature>::signature_model()),
        signature_hash(<(A, T0, T1) as TypeSignature>::signature_model())
            != signature_hash(<(B, T0, T1) as TypeSignature>::signature_model()),
{
    law_generic_argument_changes_hash(
        <(T0, T1, A) as TypeSignature>::signature_model(),
        <(T0, T1, B) as TypeSignature>::signature_model(),
        2,
    );
    law_generic_argument_changes_hash(
        <(A, T0, T1) as TypeSignature>::signature_model(),
        <(B, T0, T1) as TypeSignature>::signature_model(),
        0,
    );
}

} // verus!
