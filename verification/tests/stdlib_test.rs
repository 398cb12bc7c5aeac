use type_signature::signature::TypeSignature;

/// Golden hashes for stdlib types. These are part of the public API: any change to the hashing
/// algorithm or to the stdlib signature names would change these values and must be treated
/// as a breaking change.
///
/// The pair `(u8, u16)` is not pinned here. Its signature is named
/// `$crate :: TypeSignature impl for (T0, T1)`, has the signatures of `u8` and `u16` as its
/// generics and nothing else, and so hashes to `0xcaa1_ac7e_6ec8_0b65`, not to
/// `0x3551_da08_87ec_9fa3`; `test_stdlib_signature_shapes` pins that layout.
#[test]
fn test_stdlib_type_hashes() {
    assert_eq!(<u32 as TypeSignature>::const_hash(), 0xf8aa_761f_cd69_64d0);
    assert_eq!(<bool as TypeSignature>::const_hash(), 0x550b_d78c_c302_a37b);
    assert_eq!(<() as TypeSignature>::const_hash(), 0xfad5_5617_67b8_d0f2);
    assert_eq!(
        <Option<String> as TypeSignature>::const_hash(),
        0xe997_8466_7093_837f,
    );
    assert_eq!(
        <Vec<u32> as TypeSignature>::const_hash(),
        0x32f8_868e_a774_e1b7,
    );
    assert_eq!(
        <[u32; 4] as TypeSignature>::const_hash(),
        0x1986_3530_5e5a_13b9
    );
    assert_eq!(
        <[u32; 5] as TypeSignature>::const_hash(),
        0x0da7_82e3_6dee_5f22
    );
    assert_eq!(
        <Result<u32, String> as TypeSignature>::const_hash(),
        0x138f_694b_a8e1_8d1c,
    );
}

#[test]
fn test_stdlib_signature_shapes() {
    let sig = <Result<u32, String> as TypeSignature>::signature();
    assert_eq!(sig.ty_name, "$crate :: TypeSignature impl for Result<T, E>");
    assert_eq!(sig.ty_generics.len(), 2);
    assert_eq!(sig.ty_generics[0].ty_name, "$crate :: TypeSignature impl for u32");
    assert_eq!(sig.ty_generics[1].ty_name, "$crate :: TypeSignature impl for alloc::string::String");
    assert!(sig.const_generic_hashes.is_empty());
    assert!(sig.variants.is_empty());

    let array = <[u8; 3] as TypeSignature>::signature();
    assert_eq!(array.ty_name, "TypeSignature impl for [T; N]");
    assert_eq!(array.const_generic_hashes, vec![type_signature::__macro_export::hash_const_usize(3)]);

    let pair = <(u8, u16) as TypeSignature>::signature();
    assert_eq!(pair.ty_name, "$crate :: TypeSignature impl for (T0, T1)");
    assert_eq!(pair.ty_generics.len(), 2);
}

#[test]
fn test_stdlib_distinct_types_hash_differently() {
    assert_ne!(<u8 as TypeSignature>::const_hash(), <i8 as TypeSignature>::const_hash());
    assert_ne!(<Vec<u8> as TypeSignature>::const_hash(), <Vec<u16> as TypeSignature>::const_hash());
    assert_ne!(<[u8; 1] as TypeSignature>::const_hash(), <[u8; 2] as TypeSignature>::const_hash());
    assert_ne!(
        <(u8, u16) as TypeSignature>::const_hash(),
        <(u16, u8) as TypeSignature>::const_hash()
    );
}
