//! Test deriving signatures for some type definitions.
//!
//! Part of the API for this crate is that the values don't change.

use core::marker::PhantomData;

use type_signature::derive::{
    derive_type_signature, ConstParamType, ConstValue, FieldAttr, FieldDef, GenericArg,
    TypeAttr, TypeData, TypeDef, TypeSignatureImpl, UnionFieldDef, VariantDef,
};
use type_signature::hasher::TypeSignatureHasher;
use type_signature::model::SignatureModel;
use type_signature::signature::TypeSignature;

fn named(name: &str, ty_text: &str, ty: TypeSignatureHasher) -> FieldDef {
    FieldDef { ident: Some(name.to_string()), attrs: vec![], ty_text: ty_text.to_string(), ty }
}

fn unnamed(ty_text: &str, ty: TypeSignatureHasher) -> FieldDef {
    FieldDef { ident: None, attrs: vec![], ty_text: ty_text.to_string(), ty }
}

fn skipped(name: &str, ty_text: &str, ty: TypeSignatureHasher) -> FieldDef {
    FieldDef {
        ident: Some(name.to_string()),
        attrs: vec![FieldAttr::Skip],
        ty_text: ty_text.to_string(),
        ty,
    }
}

fn variant(name: &str, fields: Vec<FieldDef>) -> VariantDef {
    VariantDef { ident: name.to_string(), attrs: vec![], fields }
}

fn union_field(name: &str, ty_text: &str, ty: TypeSignatureHasher) -> UnionFieldDef {
    UnionFieldDef { ident: name.to_string(), attrs: vec![], ty_text: ty_text.to_string(), ty }
}

fn type_arg(name: &str, sig: TypeSignatureHasher) -> GenericArg {
    GenericArg::Type(name.to_string(), sig)
}

fn usize_arg(name: &str, value: usize) -> GenericArg {
    GenericArg::Const(
        name.to_string(),
        ConstParamType::Ident("usize".to_string()),
        ConstValue::Usize(value),
    )
}

fn bool_arg(name: &str, value: bool) -> GenericArg {
    GenericArg::Const(
        name.to_string(),
        ConstParamType::Ident("bool".to_string()),
        ConstValue::Bool(value),
    )
}

fn def(name: &str, generics: Vec<GenericArg>, data: TypeData) -> TypeDef {
    TypeDef { ident: name.to_string(), attrs: vec![], generics, where_predicates: vec![], data }
}

fn renamed(rename: &str, name: &str, data: TypeData) -> TypeDef {
    TypeDef {
        ident: name.to_string(),
        attrs: vec![TypeAttr::Rename(rename.to_string())],
        generics: vec![],
        where_predicates: vec![],
        data,
    }
}

fn derive(def: TypeDef) -> TypeSignatureHasher {
    derive_type_signature(def).unwrap()
}

fn hash(def: TypeDef) -> u64 {
    derive(def).const_hash()
}

fn f64_signature() -> TypeSignatureHasher {
    TypeSignatureHasher {
        ty_name: "$crate :: TypeSignature impl for f64".to_string(),
        ty_generics: vec![],
        const_generic_hashes: vec![],
        variants: vec![],
    }
}

fn test_unit() -> TypeDef {
    def("TestUnit", vec![], TypeData::Struct(vec![]))
}

fn test_struct() -> TypeDef {
    def(
        "TestStruct",
        vec![],
        TypeData::Struct(vec![
            named("a", "u32", u32::signature()),
            named("b", "String", String::signature()),
        ]),
    )
}

fn test_tuple_struct() -> TypeDef {
    def(
        "TestTupleStruct",
        vec![],
        TypeData::Struct(vec![unnamed("u32", u32::signature()), unnamed("String", String::signature())]),
    )
}

fn test_struct_generic(ty: TypeSignatureHasher) -> TypeDef {
    def(
        "TestStructGeneric",
        vec![type_arg("Ty", ty.clone())],
        TypeData::Struct(vec![named("a", "Ty", ty), named("b", "String", String::signature())]),
    )
}

fn test_struct_generic_constrained(ty: TypeSignatureHasher) -> TypeDef {
    def(
        "TestStructGenericConstrained",
        vec![type_arg("Ty", ty.clone())],
        TypeData::Struct(vec![named("a", "Ty", ty), named("b", "String", String::signature())]),
    )
}

fn test_struct_const_generic<const COUNT: usize>() -> TypeDef {
    def(
        "TestStructConstGeneric",
        vec![usize_arg("COUNT", COUNT)],
        TypeData::Struct(vec![
            named("a", "u32", u32::signature()),
            named("b", "[String; COUNT]", <[String; COUNT]>::signature()),
        ]),
    )
}

fn test_generic_bool(value: bool) -> TypeDef {
    def(
        "TestGenericBool",
        vec![bool_arg("BOOL", value)],
        TypeData::Struct(vec![named("a", "i8", i8::signature())]),
    )
}

fn test_enum() -> TypeDef {
    def(
        "TestEnum",
        vec![],
        TypeData::Enum(vec![
            variant("A", vec![unnamed("u32", u32::signature()), unnamed("i32", i32::signature())]),
            variant(
                "B",
                vec![named("a", "u32", u32::signature()), named("b", "String", String::signature())],
            ),
        ]),
    )
}

fn test_enum_all_variant_shapes() -> TypeDef {
    def(
        "TestEnumAllVariantShapes",
        vec![],
        TypeData::Enum(vec![
            variant("Unit", vec![]),
            variant("Tuple", vec![unnamed("u32", u32::signature()), unnamed("i32", i32::signature())]),
            variant(
                "Struct",
                vec![named("a", "u32", u32::signature()), named("b", "String", String::signature())],
            ),
        ]),
    )
}

fn test_enum_generic<const LENGTH: usize>(ty: TypeSignatureHasher) -> TypeDef {
    def(
        "TestEnumGeneric",
        vec![usize_arg("LENGTH", LENGTH), type_arg("T", ty.clone())],
        TypeData::Enum(vec![
            variant(
                "A",
                vec![unnamed("T", ty.clone()), unnamed("[i32; LENGTH]", <[i32; LENGTH]>::signature())],
            ),
            variant(
                "B",
                vec![named("a", "T", ty), named("b", "[String; LENGTH]", <[String; LENGTH]>::signature())],
            ),
        ]),
    )
}

fn test_union() -> TypeDef {
    def(
        "TestUnion",
        vec![],
        TypeData::Union(vec![
            union_field("a", "u32", u32::signature()),
            union_field("b", "f64", f64_signature()),
        ]),
    )
}

fn test_union_generic(ty: TypeSignatureHasher) -> TypeDef {
    def(
        "TestUnionGeneric",
        vec![type_arg("T", ty.clone())],
        TypeData::Union(vec![union_field("a", "T", ty), union_field("b", "u64", u64::signature())]),
    )
}

#[test]
fn test_derived_hashes() {
    assert_eq!(hash(test_unit()), 0x2446_9e8c_0e4e_3d4c);
    assert_eq!(hash(test_struct()), 0x7068_f6f1_a597_2995);
    assert_eq!(hash(test_tuple_struct()), 0x511d_d71f_5726_c6e0);

    assert_eq!(hash(test_struct_generic(u32::signature())), 0x5f58_0797_60df_cafc);
    assert_eq!(hash(test_struct_generic(i32::signature())), 0x3831_4104_ac5b_860c);
    assert_eq!(
        hash(test_struct_generic(derive(test_struct()))),
        0xde92_ebad_566f_94d8,
    );
    assert_eq!(hash(test_struct_const_generic::<8>()), 0xb636_e030_0648_3dde);
    assert_eq!(hash(test_struct_const_generic::<9>()), 0xe44e_0414_f6b9_0c72);

    assert_eq!(hash(test_generic_bool(false)), 0xbc52_f29c_2410_f176);
    assert_eq!(hash(test_generic_bool(true)), 0x1379_d224_4310_812c);

    assert_eq!(hash(test_enum()), 0xc5c4_3b76_21f8_8d61);
    assert_eq!(hash(test_enum_generic::<1>(u32::signature())), 0x4dfc_9dc0_21f6_7ed3);
    assert_eq!(hash(test_enum_generic::<2>(u32::signature())), 0x1d17_d768_1139_a46c);
    assert_eq!(
        hash(test_enum_generic::<1>(derive(test_unit()))),
        0x49bd_7ea8_7af5_d8c7,
    );

    assert_eq!(hash(test_union()), 0x7a61_7d4b_e7ad_2011);
    assert_eq!(hash(test_union_generic(u32::signature())), 0x8c42_1a1f_ce70_ad8b);
    assert_eq!(hash(test_union_generic(i64::signature())), 0x3cdb_4a7b_0fd4_e42f);

    assert_eq!(hash(test_enum_all_variant_shapes()), 0x7c70_4007_50e1_0228,);
}

#[test]
fn test_readme_message_hash() {
    // The example of the README: `struct Message { id: u64, body: String }`.
    let message = def(
        "Message",
        vec![],
        TypeData::Struct(vec![
            named("id", "u64", u64::signature()),
            named("body", "String", String::signature()),
        ]),
    );
    assert_eq!(hash(message), 0x7190_e284_5c80_29a5);
}

#[test]
fn test_lifetime_does_not_affect_signature() {
    // A lifetime-parameterized struct should hash identically to an otherwise-identical
    // struct without the lifetime.
    let baseline = renamed(
        "LifetimeTarget",
        "TestLifetimeBaseline",
        TypeData::Struct(vec![named("x", "u32", u32::signature())]),
    );
    let with_lifetime = TypeDef {
        ident: "TestLifetimeWith".to_string(),
        attrs: vec![TypeAttr::Rename("LifetimeTarget".to_string())],
        generics: vec![GenericArg::Lifetime("'a".to_string())],
        where_predicates: vec![],
        data: TypeData::Struct(vec![
            named("x", "u32", u32::signature()),
            skipped(
                "_marker",
                "core::marker::PhantomData<&'a ()>",
                <core::marker::PhantomData<&'static ()>>::signature(),
            ),
        ]),
    };
    assert_eq!(hash(baseline), hash(with_lifetime));
}

#[test]
fn test_several_lifetimes_and_markers_do_not_affect_signature() {
    let baseline = def(
        "E",
        vec![type_arg("T", u8::signature())],
        TypeData::Enum(vec![variant("A", vec![unnamed("T", u8::signature())])]),
    );
    let marker = <core::marker::PhantomData<&'static ()>>::signature;
    let with_lifetimes = def(
        "E",
        vec![
            GenericArg::Lifetime("'a".to_string()),
            type_arg("T", u8::signature()),
            GenericArg::Lifetime("'b".to_string()),
        ],
        TypeData::Enum(vec![variant(
            "A",
            vec![
                unnamed("T", u8::signature()),
                skipped("_a", "PhantomData<&'a ()>", marker()),
                skipped("_b", "PhantomData<&'b ()>", marker()),
            ],
        )]),
    );
    assert_eq!(hash(baseline), hash(with_lifetimes));
}

fn where_clause_target(ident: &str, where_predicates: Vec<String>) -> TypeDef {
    TypeDef {
        ident: ident.to_string(),
        attrs: vec![TypeAttr::Rename("WhereClauseTarget".to_string())],
        generics: vec![type_arg("T", u32::signature())],
        where_predicates,
        data: TypeData::Struct(vec![named("x", "T", u32::signature())]),
    }
}

#[test]
fn test_where_clause_does_not_affect_signature() {
    // A where-clause bound (`T: Clone`) should not affect the signature.
    let baseline = where_clause_target("TestWhereClauseBaseline", vec![]);
    let with_where = where_clause_target("TestWhereClauseWith", vec!["T: Clone".to_string()]);
    assert_eq!(hash(baseline), hash(with_where));

    // It does go into the `where` clause of the derived impl, ahead of the bounds that
    // deriving adds.
    let imp = TypeSignatureImpl::try_from_def(where_clause_target(
        "TestWhereClauseWith",
        vec!["T: Clone".to_string()],
    ))
    .unwrap();
    assert_eq!(
        imp.where_clause(),
        vec![
            "T: Clone".to_string(),
            "T: ::type_signature::TypeSignature".to_string(),
            "T: ::type_signature::TypeSignature".to_string(),
        ]
    );
    let baseline_imp =
        TypeSignatureImpl::try_from_def(where_clause_target("TestWhereClauseBaseline", vec![]))
            .unwrap();
    assert_eq!(
        baseline_imp.where_clause(),
        vec![
            "T: ::type_signature::TypeSignature".to_string(),
            "T: ::type_signature::TypeSignature".to_string(),
        ]
    );
}

#[test]
fn test_rename_attribute_matches_original() {
    // `#[type_signature(rename = "TestStruct")]` should produce the same signature as the
    // original type it renames to.
    let renamed_struct = renamed(
        "TestStruct",
        "TestStructRenamed",
        TypeData::Struct(vec![
            named("a", "u32", u32::signature()),
            named("b", "String", String::signature()),
        ]),
    );
    assert_eq!(hash(test_struct()), hash(renamed_struct));
}

#[test]
fn test_field_rename_attribute_matches_original() {
    // Renaming a field to its previous name should preserve the signature.
    let baseline = renamed(
        "FieldRenameTarget",
        "TestFieldRenameBaseline",
        TypeData::Struct(vec![named("original", "u32", u32::signature())]),
    );
    let field_renamed = renamed(
        "FieldRenameTarget",
        "TestFieldRenamed",
        TypeData::Struct(vec![FieldDef {
            ident: Some("renamed".to_string()),
            attrs: vec![FieldAttr::Rename("original".to_string())],
            ty_text: "u32".to_string(),
            ty: u32::signature(),
        }]),
    );
    assert_eq!(hash(baseline), hash(field_renamed));
}

#[test]
fn test_skip_attribute_omits_field() {
    // A struct with a `#[type_signature(skip)]` field should hash identically to one without
    // the skipped field.
    let struct_baseline = renamed(
        "SkipTarget",
        "TestStructSkipBaseline",
        TypeData::Struct(vec![
            named("a", "u32", u32::signature()),
            named("b", "String", String::signature()),
        ]),
    );
    let struct_skipped = renamed(
        "SkipTarget",
        "TestStructWithSkippedField",
        TypeData::Struct(vec![
            named("a", "u32", u32::signature()),
            named("b", "String", String::signature()),
            skipped("_cached", "u64", u64::signature()),
        ]),
    );
    assert_eq!(hash(struct_baseline), hash(struct_skipped));
    // Skipping also works inside enum variants.
    let enum_baseline = renamed(
        "SkipEnum",
        "TestEnumSkipBaseline",
        TypeData::Enum(vec![
            variant("A", vec![unnamed("u32", u32::signature()), unnamed("i32", i32::signature())]),
            variant(
                "B",
                vec![named("a", "u32", u32::signature()), named("b", "String", String::signature())],
            ),
        ]),
    );
    let enum_skipped = renamed(
        "SkipEnum",
        "TestEnumWithSkippedField",
        TypeData::Enum(vec![
            variant("A", vec![unnamed("u32", u32::signature()), unnamed("i32", i32::signature())]),
            variant(
                "B",
                vec![
                    named("a", "u32", u32::signature()),
                    named("b", "String", String::signature()),
                    skipped("_cached", "u64", u64::signature()),
                ],
            ),
        ]),
    );
    assert_eq!(hash(enum_baseline), hash(enum_skipped));
}

// The derived types of the tests, as types that implement `TypeSignature` through the
// signature that deriving gives them. Their abstract signatures exist only for the verifier.

struct TestUnit;
struct TestStruct;
struct TestStructGeneric<Ty>(PhantomData<Ty>);
struct TestStructGenericConstrained<Ty: PartialEq>(PhantomData<Ty>);
struct TestEnumGeneric<const LENGTH: usize, T>(PhantomData<T>);
struct TestUnion;
struct TestUnionGeneric<T: Copy>(PhantomData<T>);

impl TypeSignature for TestUnit {
    fn signature_model() -> SignatureModel {
        unreachable!()
    }

    fn signature() -> TypeSignatureHasher {
        derive(test_unit())
    }
}

impl TypeSignature for TestStruct {
    fn signature_model() -> SignatureModel {
        unreachable!()
    }

    fn signature() -> TypeSignatureHasher {
        derive(test_struct())
    }
}

impl<Ty: TypeSignature> TypeSignature for TestStructGeneric<Ty> {
    fn signature_model() -> SignatureModel {
        unreachable!()
    }

    fn signature() -> TypeSignatureHasher {
        derive(test_struct_generic(Ty::signature()))
    }
}

impl<Ty: TypeSignature + PartialEq> TypeSignature for TestStructGenericConstrained<Ty> {
    fn signature_model() -> SignatureModel {
        unreachable!()
    }

    fn signature() -> TypeSignatureHasher {
        derive(test_struct_generic_constrained(Ty::signature()))
    }
}

impl<const LENGTH: usize, T: TypeSignature> TypeSignature for TestEnumGeneric<LENGTH, T> {
    fn signature_model() -> SignatureModel {
        unreachable!()
    }

    fn signature() -> TypeSignatureHasher {
        derive(test_enum_generic::<LENGTH>(T::signature()))
    }
}

impl TypeSignature for TestUnion {
    fn signature_model() -> SignatureModel {
        unreachable!()
    }

    fn signature() -> TypeSignatureHasher {
        derive(test_union())
    }
}

impl<T: TypeSignature + Copy> TypeSignature for TestUnionGeneric<T> {
    fn signature_model() -> SignatureModel {
        unreachable!()
    }

    fn signature() -> TypeSignatureHasher {
        derive(test_union_generic(T::signature()))
    }
}

fn check<T: TypeSignature>() {
    assert_eq!(T::const_hash(), T::signature().const_hash());
}

#[test]
fn test_const_hash_computation() {
    check::<TestUnit>();
    check::<TestStruct>();
    check::<TestStructGeneric<u32>>();
    check::<TestStructGenericConstrained<String>>();
    check::<TestEnumGeneric<5, u32>>();
    check::<TestUnion>();
    check::<TestUnionGeneric<u32>>();
}
