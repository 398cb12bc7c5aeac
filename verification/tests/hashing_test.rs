use type_signature::__macro_export::{
    hash_const_bool, hash_const_usize, hash_str, mix_values,
};
use type_signature::derive::{
    decimal_string, derive_type_signature, DeriveError, FieldAttr, FieldDef, TypeAttr, TypeData,
    TypeDef, UnionFieldDef, VariantDef,
};
use type_signature::hasher::TypeSignatureHasher;
use type_signature::signature::TypeSignature;

#[test]
fn test_hash_str_exact_values() {
    assert_eq!(hash_str(""), 0x2598_765b_54c9_7aa3);
    assert_eq!(hash_str("usize"), 0xe5fe_3cf1_b95b_3fe4);
    assert_eq!(hash_str("TestStruct"), 0xcb88_df44_9328_45cc);
}

#[test]
fn test_hash_str_single_byte_difference() {
    assert_ne!(hash_str("TestStruct"), hash_str("TestStrucu"));
    assert_ne!(hash_str("a"), hash_str("b"));
    // Different lengths are mixed in first.
    assert_ne!(hash_str(""), hash_str("\0"));
}

#[test]
fn test_mix_values_exact_values() {
    let mut acc = 0u64;
    mix_values(&mut acc, 0);
    assert_eq!(acc, 0x99e8_6dbe_3520_1a7a);
    let mut acc = 1u64;
    mix_values(&mut acc, 2);
    assert_eq!(acc, 0xfb84_4c47_fc37_279b);
}

#[test]
fn test_mix_values_injective_examples() {
    let mut a = 7u64;
    let mut b = 7u64;
    mix_values(&mut a, 1);
    mix_values(&mut b, 2);
    assert_ne!(a, b);
    let mut c = 7u64;
    let mut d = 8u64;
    mix_values(&mut c, 1);
    mix_values(&mut d, 1);
    assert_ne!(c, d);
}

#[test]
fn test_hash_const_exact_values() {
    assert_eq!(hash_const_usize(8), 0x179d_ea83_e50e_983e);
    assert_eq!(hash_const_bool(true), 0x250e_3f96_2782_0b5c);
    assert_eq!(hash_const_bool(false), 0x50c6_4d50_a8a9_8022);
    assert_ne!(hash_const_usize(8), hash_const_usize(9));
}

#[test]
fn test_clone_keeps_hash() {
    let sig = <Result<Vec<u32>, [String; 2]> as TypeSignature>::signature();
    let copy = sig.clone();
    assert_eq!(copy.ty_name, sig.ty_name);
    assert_eq!(copy.const_hash(), sig.const_hash());
}

#[test]
fn test_decimal_string() {
    assert_eq!(decimal_string(0), "0");
    assert_eq!(decimal_string(7), "7");
    assert_eq!(decimal_string(10), "10");
    assert_eq!(decimal_string(1234), "1234");
    assert_eq!(decimal_string(usize::MAX), usize::MAX.to_string());
}

fn u32_field(ident: Option<&str>, attrs: Vec<FieldAttr>) -> FieldDef {
    FieldDef {
        ident: ident.map(|s| s.to_string()),
        attrs,
        ty_text: "u32".to_string(),
        ty: u32::signature(),
    }
}

#[test]
fn test_unrecognized_type_attribute() {
    let def = TypeDef {
        ident: "T".to_string(),
        attrs: vec![
            TypeAttr::Rename("X".to_string()),
            TypeAttr::Unrecognized("bogus".to_string()),
            TypeAttr::Unrecognized("later".to_string()),
        ],
        generics: vec![],
        where_predicates: vec![],
        data: TypeData::Struct(vec![u32_field(None, vec![FieldAttr::Unrecognized("f".to_string())])]),
    };
    assert_eq!(
        derive_type_signature(def).unwrap_err(),
        DeriveError::UnrecognizedTypeAttribute("bogus".to_string())
    );
}

#[test]
fn test_unrecognized_field_attribute() {
    let def = TypeDef {
        ident: "T".to_string(),
        attrs: vec![TypeAttr::Crate("::my_crate".to_string())],
        generics: vec![],
        where_predicates: vec![],
        data: TypeData::Struct(vec![
            u32_field(Some("a"), vec![FieldAttr::Skip]),
            u32_field(Some("b"), vec![FieldAttr::Skip, FieldAttr::Unrecognized("nope".to_string())]),
        ]),
    };
    assert_eq!(
        derive_type_signature(def).unwrap_err(),
        DeriveError::UnrecognizedFieldAttribute("nope".to_string())
    );
}

#[test]
fn test_unrecognized_variant_attribute() {
    let def = TypeDef {
        ident: "E".to_string(),
        attrs: vec![],
        generics: vec![],
        where_predicates: vec![],
        data: TypeData::Enum(vec![VariantDef {
            ident: "A".to_string(),
            attrs: vec![TypeAttr::Unrecognized("weird".to_string())],
            fields: vec![],
        }]),
    };
    assert_eq!(
        derive_type_signature(def).unwrap_err(),
        DeriveError::UnrecognizedTypeAttribute("weird".to_string())
    );
}

#[test]
fn test_tuple_field_keeps_its_position_after_skip() {
    let def = TypeDef {
        ident: "T".to_string(),
        attrs: vec![],
        generics: vec![],
        where_predicates: vec![],
        data: TypeData::Struct(vec![
            u32_field(None, vec![FieldAttr::Skip]),
            u32_field(None, vec![]),
        ]),
    };
    let sig = derive_type_signature(def).unwrap();
    assert_eq!(sig.variants.len(), 1);
    assert_eq!(sig.variants[0].0, "");
    assert_eq!(sig.variants[0].1.len(), 1);
    assert_eq!(sig.variants[0].1[0].0, "1");
    assert_eq!(sig.const_hash(), 0x74f5_4f40_1698_c0d1);
}

#[test]
fn test_union_field_rename_and_skip() {
    let def = TypeDef {
        ident: "U".to_string(),
        attrs: vec![],
        generics: vec![],
        where_predicates: vec![],
        data: TypeData::Union(vec![
            UnionFieldDef {
                ident: "a".to_string(),
                attrs: vec![FieldAttr::Rename("renamed".to_string())],
                ty_text: "u32".to_string(),
                ty: u32::signature(),
            },
            UnionFieldDef {
                ident: "b".to_string(),
                attrs: vec![FieldAttr::Skip],
                ty_text: "u64".to_string(),
                ty: u64::signature(),
            },
        ]),
    };
    let sig = derive_type_signature(def).unwrap();
    assert_eq!(sig.variants.len(), 1);
    assert_eq!(sig.variants[0].0, "renamed");
    assert_eq!(sig.const_hash(), 0x1a47_6f1b_a85c_4d29);
}

#[test]
fn test_field_type_change_changes_hash() {
    let make = |ty: TypeSignatureHasher| TypeDef {
        ident: "S".to_string(),
        attrs: vec![],
        generics: vec![],
        where_predicates: vec![],
        data: TypeData::Struct(vec![FieldDef {
            ident: Some("a".to_string()),
            attrs: vec![],
            ty_text: "T".to_string(),
            ty,
        }]),
    };
    let a = derive_type_signature(make(u32::signature())).unwrap().const_hash();
    let b = derive_type_signature(make(i32::signature())).unwrap().const_hash();
    assert_ne!(a, b);
}

fn struct_def(name: &str, fields: Vec<FieldDef>) -> TypeDef {
    TypeDef {
        ident: name.to_string(),
        attrs: vec![],
        generics: vec![],
        where_predicates: vec![],
        data: TypeData::Struct(fields),
    }
}

#[test]
fn test_field_name_change_changes_hash() {
    let a = struct_def("S", vec![u32_field(Some("alpha"), vec![])]);
    let b = struct_def("S", vec![u32_field(Some("alphb"), vec![])]);
    assert_ne!(
        derive_type_signature(a).unwrap().const_hash(),
        derive_type_signature(b).unwrap().const_hash()
    );
}

#[test]
fn test_variant_name_change_changes_hash() {
    let make = |name: &str| TypeDef {
        ident: "E".to_string(),
        attrs: vec![],
        generics: vec![],
        where_predicates: vec![],
        data: TypeData::Enum(vec![VariantDef { ident: name.to_string(), attrs: vec![], fields: vec![] }]),
    };
    assert_ne!(
        derive_type_signature(make("A")).unwrap().const_hash(),
        derive_type_signature(make("B")).unwrap().const_hash()
    );
}

#[test]
fn test_type_name_byte_change_changes_hash() {
    let a = struct_def("Message", vec![]);
    let b = struct_def("Messagf", vec![]);
    assert_ne!(
        derive_type_signature(a).unwrap().const_hash(),
        derive_type_signature(b).unwrap().const_hash()
    );
}

#[test]
fn test_generic_and_const_argument_changes_hash() {
    assert_ne!(<Option<u8> as TypeSignature>::const_hash(), <Option<i8> as TypeSignature>::const_hash());
    assert_ne!(<[u8; 0] as TypeSignature>::const_hash(), <[u8; 1] as TypeSignature>::const_hash());
    assert_ne!(hash_const_bool(true), hash_const_bool(false));
}

#[test]
fn test_skipped_field_in_the_middle_is_omitted() {
    let with = struct_def(
        "S",
        vec![u32_field(Some("a"), vec![]), u32_field(Some("gone"), vec![FieldAttr::Skip]), u32_field(Some("b"), vec![])],
    );
    let without = struct_def("S", vec![u32_field(Some("a"), vec![]), u32_field(Some("b"), vec![])]);
    assert_eq!(
        derive_type_signature(with).unwrap().const_hash(),
        derive_type_signature(without).unwrap().const_hash()
    );
}
