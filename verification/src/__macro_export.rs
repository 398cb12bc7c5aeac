//! The mixing primitives that signatures are hashed with.

use vstd::prelude::*;
use vstd::string::StringSliceAdditionalSpecFns;

verus! {

/// Multiplier applied to the accumulator on each mixing step.
pub const ACC_MULTIPLIER: u64 = 0x35ce5fac9b4899b5u64;

/// Increment added to the accumulator on each mixing step.
pub const ACC_INCREMENT: u64 = 0x1e5d49b970ead075u64;

/// Multiplier applied to the mixed-in value.
pub const VALUE_MULTIPLIER: u64 = 0x13fd608d551cc1d1u64;

/// Increment added to the mixed-in value.
pub const VALUE_INCREMENT: u64 = 0x87b5240745caca0fu64;

/// Starting accumulator of [`hash_str`].
pub const STR_SEED: u64 = 0x1124262e5999d5bbu64;

/// Value mixed into the hash of a `true` const generic argument.
pub const BOOL_TRUE_VALUE: u64 = 0x7907e475126f2049u64;

/// Value mixed into the hash of a `false` const generic argument.
pub const BOOL_FALSE_VALUE: u64 = 0xa656facee66fd217u64;

/// The number that both 64-bit wrapping operations reduce by.
pub open spec fn word_modulus() -> int {
    0x1_0000_0000_0000_0000
}

/// The accumulator half of one mixing step: `acc * ACC_MULTIPLIER + ACC_INCREMENT`, wrapping.
pub closed spec fn scramble_acc(acc: u64) -> u64 {
    vstd::wrapping::u64_specs::wrapping_add(
        vstd::wrapping::u64_specs::wrapping_mul(acc, ACC_MULTIPLIER),
        ACC_INCREMENT,
    )
}

/// The value half of one mixing step: `value * VALUE_MULTIPLIER + VALUE_INCREMENT`, wrapping.
pub closed spec fn scramble_value(value: u64) -> u64 {
    vstd::wrapping::u64_specs::wrapping_add(
        vstd::wrapping::u64_specs::wrapping_mul(value, VALUE_MULTIPLIER),
        VALUE_INCREMENT,
    )
}

/// The formulas of the two halves of a mixing step, for modules that do not see their bodies.
pub proof fn lemma_scramble_formulas(acc: u64, value: u64)
    ensures
        scramble_acc(acc) == vstd::wrapping::u64_specs::wrapping_add(
            vstd::wrapping::u64_specs::wrapping_mul(acc, ACC_MULTIPLIER),
            ACC_INCREMENT,
        ),
        scramble_value(value) == vstd::wrapping::u64_specs::wrapping_add(
            vstd::wrapping::u64_specs::wrapping_mul(value, VALUE_MULTIPLIER),
            VALUE_INCREMENT,
        ),
{
}

/// One mixing step: the scrambled accumulator xor the scrambled value.
pub open spec fn mix(acc: u64, value: u64) -> u64 {
    scramble_acc(acc) ^ scramble_value(value)
}

/// Mixes `values` into `acc`, first to last.
pub open spec fn mix_all(acc: u64, values: Seq<u64>) -> u64
    decreases values.len(),
{
    if values.len() == 0 {
        acc
    } else {
        mix(mix_all(acc, values.drop_last()), values.last())
    }
}

/// The values that the hash of a string is made of: its length in bytes, then each byte.
pub open spec fn str_values(bytes: Seq<u8>) -> Seq<u64> {
    seq![bytes.len() as u64] + bytes.map_values(|b: u8| b as u64)
}

/// The hash of a string given by its UTF-8 bytes.
pub open spec fn hash_bytes(bytes: Seq<u8>) -> u64 {
    mix_all(STR_SEED, str_values(bytes))
}

/// The hash of a string given by its characters.
pub open spec fn hash_chars(chars: Seq<char>) -> u64 {
    hash_bytes(vstd::utf8::encode_utf8(chars))
}

/// The hash of a `usize` const generic argument.
pub open spec fn const_usize_hash(value: usize) -> u64 {
    mix(hash_chars("usize"@), value as u64)
}

/// The hash of a `bool` const generic argument.
pub open spec fn const_bool_hash(value: bool) -> u64 {
    mix(
        hash_chars("bool"@),
        if value {
            BOOL_TRUE_VALUE
        } else {
            BOOL_FALSE_VALUE
        },
    )
}

/// Mix a `u64` in to the accumulator.
///
/// The mixing is done to ensure that the value is highly likely to change, and will likely
/// be different for applying values in a different order.
pub fn mix_values(accumulator: &mut u64, value: u64)
    ensures
        *final(accumulator) == mix(*old(accumulator), value),
{
    *accumulator = (*accumulator).wrapping_mul(ACC_MULTIPLIER).wrapping_add(ACC_INCREMENT)
        ^ value.wrapping_mul(VALUE_MULTIPLIER).wrapping_add(VALUE_INCREMENT);
}


/// Mixing a sequence that ends in `tail` is mixing its head, then `tail`.
pub proof fn lemma_mix_all_append(acc: u64, head: Seq<u64>, tail: Seq<u64>)
    ensures
        mix_all(acc, head + tail) == mix_all(mix_all(acc, head), tail),
    decreases tail.len(),
{
    if tail.len() == 0 {
        assert(head + tail =~= head);
    } else {
        lemma_mix_all_append(acc, head, tail.drop_last());
        assert((head + tail).drop_last() =~= head + tail.drop_last());
    }
}

/// Mixing two values is mixing the first, then the second.
pub proof fn lemma_mix_all_pair(acc: u64, x: u64, y: u64)
    ensures
        mix_all(acc, seq![x, y]) == mix(
            mix(acc, x),
            y,
        ),
{
    lemma_mix_all_single(acc, x);
    assert(seq![x, y].drop_last() =~= seq![x]);
}

/// Mixing one value.
pub proof fn lemma_mix_all_single(acc: u64, x: u64)
    ensures
        mix_all(acc, seq![x]) == mix(acc, x),
{
    let s = seq![x];
    assert(s.drop_last() =~= Seq::<u64>::empty());
    assert(mix_all(acc, s.drop_last()) == acc);
    assert(s.last() == x);
}

/// Mixing the first `i + 1` values is mixing the first `i`, then value `i`.
pub proof fn lemma_mix_all_take_step(acc: u64, values: Seq<u64>, i: int)
    requires
        0 <= i < values.len(),
    ensures
        mix_all(acc, values.take(i + 1)) == mix(mix_all(acc, values.take(i)), values[i]),
{
    assert(values.take(i + 1).drop_last() =~= values.take(i));
}

/// Hash a const `usize` value.
pub fn hash_const_usize(param_val: usize) -> (hash: u64)
    ensures
        hash == const_usize_hash(param_val),
{
    let mut accumulator = hash_str("usize");
    mix_values(&mut accumulator, param_val as u64);
    accumulator
}

/// Hash a const `bool` value.
pub fn hash_const_bool(param_val: bool) -> (hash: u64)
    ensures
        hash == const_bool_hash(param_val),
{
    let mut accumulator = hash_str("bool");
    mix_values(
        &mut accumulator,
        // Values chosen randomly to maximize number of bits different from any common pattern.
        if param_val {
            BOOL_TRUE_VALUE
        } else {
            BOOL_FALSE_VALUE
        },
    );
    accumulator
}

/// Hash a string into a fixed `u64`.
///
/// The length of the string in bytes is mixed in first, then each of its bytes.
pub fn hash_str(s: &str) -> (hash: u64)
    ensures
        hash == hash_bytes(s.spec_bytes()),
        hash == hash_chars(s@),
{
    let bytes = s.as_bytes();
    let ghost values = str_values(bytes@);
    let mut accumulator = STR_SEED;
    mix_values(&mut accumulator, bytes.len() as u64);
    proof {
        lemma_mix_all_take_step(STR_SEED, values, 0);
        assert(values.take(0) =~= Seq::<u64>::empty());
    }
    let mut byte_idx: usize = 0;
    while byte_idx < bytes.len()
        invariant
            bytes@ == s.spec_bytes(),
            values == str_values(bytes@),
            byte_idx <= bytes@.len(),
            accumulator == mix_all(STR_SEED, values.take(byte_idx + 1)),
        decreases bytes@.len() - byte_idx,
    {
        proof {
            lemma_mix_all_take_step(STR_SEED, values, byte_idx + 1);
        }
        mix_values(&mut accumulator, bytes[byte_idx] as u64);
        byte_idx += 1;
    }
    proof {
        assert(values.take(bytes@.len() as int + 1) =~= values);
    }
    accumulator
}


/// Multiplication by an odd 64-bit number is undone by multiplication by its inverse.
proof fn lemma_wrapping_mul_cancel(a: u64, k: u64, k_inv: u64)
    requires
        (k as int * k_inv as int) % word_modulus() == 1,
    ensures
        vstd::wrapping::u64_specs::wrapping_mul(
            vstd::wrapping::u64_specs::wrapping_mul(a, k),
            k_inv,
        ) == a,
{
    let m = word_modulus();
    let ak = a as int * k as int;
    vstd::arithmetic::div_mod::lemma_mul_mod_noop_left(ak, k_inv as int, m);
    vstd::arithmetic::mul::lemma_mul_is_associative(a as int, k as int, k_inv as int);
    vstd::arithmetic::div_mod::lemma_mul_mod_noop_right(a as int, k as int * k_inv as int, m);
    vstd::arithmetic::div_mod::lemma_small_mod(a as nat, m as nat);
}

/// Wrapping addition of a fixed number is injective.
proof fn lemma_wrapping_add_cancel(x: u64, y: u64, c: u64)
    requires
        vstd::wrapping::u64_specs::wrapping_add(x, c) == vstd::wrapping::u64_specs::wrapping_add(
            y,
            c,
        ),
    ensures
        x == y,
{
}

/// Xor with a fixed word is injective.
proof fn lemma_xor_cancel(x: u64, y: u64, z: u64)
    requires
        x ^ y == x ^ z || y ^ x == z ^ x,
    ensures
        y == z,
{
    assert((x ^ y == x ^ z || y ^ x == z ^ x) ==> y == z) by (bit_vector);
}

/// Multiplication by a number that has an inverse is injective.
proof fn lemma_wrapping_mul_injective(a: u64, b: u64, k: u64, k_inv: u64)
    requires
        (k as int * k_inv as int) % word_modulus() == 1,
        vstd::wrapping::u64_specs::wrapping_mul(a, k) == vstd::wrapping::u64_specs::wrapping_mul(
            b,
            k,
        ),
    ensures
        a == b,
{
    lemma_wrapping_mul_cancel(a, k, k_inv);
    lemma_wrapping_mul_cancel(b, k, k_inv);
}

/// The accumulator multiplier is odd, so it has an inverse.
proof fn lemma_acc_multiplier_inverse()
    ensures
        (ACC_MULTIPLIER as int * 0x33c5a168c2784c9du64 as int) % word_modulus() == 1,
{
}

/// The value multiplier is odd, so it has an inverse.
proof fn lemma_value_multiplier_inverse()
    ensures
        (VALUE_MULTIPLIER as int * 0xeb58d8ac0deb3731u64 as int) % word_modulus() == 1,
{
}

/// Distinct accumulators scramble to distinct words.
pub proof fn lemma_scramble_acc_injective(a: u64, b: u64)
    ensures
        a != b ==> scramble_acc(a) != scramble_acc(b),
{
    let ma = vstd::wrapping::u64_specs::wrapping_mul(a, ACC_MULTIPLIER);
    let mb = vstd::wrapping::u64_specs::wrapping_mul(b, ACC_MULTIPLIER);
    if scramble_acc(a) == scramble_acc(b) {
        assert(vstd::wrapping::u64_specs::wrapping_add(ma, ACC_INCREMENT)
            == vstd::wrapping::u64_specs::wrapping_add(mb, ACC_INCREMENT));
        lemma_wrapping_add_cancel(ma, mb, ACC_INCREMENT);
        lemma_acc_multiplier_inverse();
        lemma_wrapping_mul_injective(a, b, ACC_MULTIPLIER, 0x33c5a168c2784c9du64);
    }
}

/// Distinct values scramble to distinct words.
pub proof fn lemma_scramble_value_injective(a: u64, b: u64)
    ensures
        a != b ==> scramble_value(a) != scramble_value(b),
{
    let ma = vstd::wrapping::u64_specs::wrapping_mul(a, VALUE_MULTIPLIER);
    let mb = vstd::wrapping::u64_specs::wrapping_mul(b, VALUE_MULTIPLIER);
    if scramble_value(a) == scramble_value(b) {
        assert(vstd::wrapping::u64_specs::wrapping_add(ma, VALUE_INCREMENT)
            == vstd::wrapping::u64_specs::wrapping_add(mb, VALUE_INCREMENT));
        lemma_wrapping_add_cancel(ma, mb, VALUE_INCREMENT);
        lemma_value_multiplier_inverse();
        lemma_wrapping_mul_injective(a, b, VALUE_MULTIPLIER, 0xeb58d8ac0deb3731u64);
    }
}

/// Mixing always changes with the value: for one accumulator, two different values give
/// two different results.
pub proof fn lemma_mix_injective_in_value(acc: u64, v1: u64, v2: u64)
    ensures
        v1 != v2 ==> mix(acc, v1) != mix(acc, v2),
{
    lemma_scramble_value_injective(v1, v2);
    if mix(acc, v1) == mix(acc, v2) {
        lemma_xor_cancel(scramble_acc(acc), scramble_value(v1), scramble_value(v2));
    }
}

/// Mixing keeps accumulators apart: for one value, two different accumulators give two
/// different results.
pub proof fn lemma_mix_injective_in_acc(a1: u64, a2: u64, value: u64)
    ensures
        a1 != a2 ==> mix(a1, value) != mix(a2, value),
{
    lemma_scramble_acc_injective(a1, a2);
    if mix(a1, value) == mix(a2, value) {
        lemma_xor_cancel(scramble_value(value), scramble_acc(a1), scramble_acc(a2));
    }
}

/// Two sequences of one length that differ in exactly one place mix, from one accumulator,
/// to different results.
pub proof fn lemma_mix_all_single_difference(acc: u64, s1: Seq<u64>, s2: Seq<u64>, i: int)
    requires
        s1.len() == s2.len(),
        0 <= i < s1.len(),
        s1[i] != s2[i],
        forall|j: int| 0 <= j < s1.len() && j != i ==> s1[j] == s2[j],
    ensures
        mix_all(acc, s1) != mix_all(acc, s2),
    decreases s1.len(),
{
    if i == s1.len() - 1 {
        assert(s1.drop_last() =~= s2.drop_last());
        lemma_mix_injective_in_value(mix_all(acc, s1.drop_last()), s1.last(), s2.last());
    } else {
        lemma_mix_all_single_difference(acc, s1.drop_last(), s2.drop_last(), i);
        lemma_mix_injective_in_acc(
            mix_all(acc, s1.drop_last()),
            mix_all(acc, s2.drop_last()),
            s1.last(),
        );
    }
}

/// Two strings of one length in bytes that differ in exactly one byte hash differently.
pub proof fn lemma_hash_bytes_single_difference(b1: Seq<u8>, b2: Seq<u8>, i: int)
    requires
        b1.len() == b2.len(),
        0 <= i < b1.len(),
        b1[i] != b2[i],
        forall|j: int| 0 <= j < b1.len() && j != i ==> b1[j] == b2[j],
    ensures
        hash_bytes(b1) != hash_bytes(b2),
{
    let s1 = str_values(b1);
    let s2 = str_values(b2);
    assert forall|j: int| 0 <= j < s1.len() && j != i + 1 implies s1[j] == s2[j] by {
        if j > 0 {
            assert(b1[j - 1] == b2[j - 1]);
        }
    }
    lemma_mix_all_single_difference(STR_SEED, s1, s2, i + 1);
}

} // verus!
