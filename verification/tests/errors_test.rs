//! Refused definitions, the messages that report them, and the `where` clause of derived impls.

use type_signature::derive::{
    derive_type_signature, field_attr_key, is_type_signature_attribute, type_attr_key,
    ConstParamType, ConstValue, DeriveError, FieldAttr, FieldAttrKey, FieldDef, GenericArg,
    TypeAttr, TypeAttrKey, TypeData, TypeDef, TypeSignatureImpl, VariantDef,
};
use type_signature::signature::TypeSignature;

fn field(name: Option<&str>, ty_text: &str, attrs: Vec<FieldAttr>) -> FieldDef {
    FieldDef {
        ident: name.map(|n| n.to_string()),
        attrs,
        ty_text: ty_text.to_string(),
        ty: u8::signature(),
    }
}

fn with_const_param(ty: ConstParamType, value: ConstValue, fields: Vec<FieldDef>) -> TypeDef {
    TypeDef {
        ident: "S".to_string(),
        attrs: vec![],
        generics: vec![GenericArg::Const("N".to_string(), ty, value)],
        where_predicates: vec![],
        data: TypeData::Struct(fields),
    }
}

#[test]
fn test_const_param_type_must_be_an_identifier() {
    // `struct S<const N: core::primitive::usize> { a: u8 }`
    let def = with_const_param(
        ConstParamType::Other("core::primitive::usize".to_string()),
        ConstValue::Usize(3),
        vec![field(Some("a"), "u8", vec![])],
    );
    let err = derive_type_signature(def).unwrap_err();
    assert_eq!(
        err,
        DeriveError::ConstParamTypeNotIdent("core::primitive::usize".to_string())
    );
    assert_eq!(
        err.message(),
        "TypeSignature derive only supports const generic parameters whose type is a simple \
         identifier (e.g. `usize`, `bool`)"
    );
}

#[test]
fn test_const_param_type_is_checked_before_field_attributes() {
    let def = with_const_param(
        ConstParamType::Other("<usize as Id>::Out".to_string()),
        ConstValue::Usize(3),
        vec![field(Some("a"), "u8", vec![FieldAttr::Unrecognized("nope".to_string())])],
    );
    assert_eq!(
        derive_type_signature(def).unwrap_err(),
        DeriveError::ConstParamTypeNotIdent("<usize as Id>::Out".to_string())
    );
}

#[test]
fn test_unsupported_const_param_type() {
    let def = with_const_param(
        ConstParamType::Ident("u8".to_string()),
        ConstValue::Usize(3),
        vec![field(Some("a"), "u8", vec![])],
    );
    let err = derive_type_signature(def).unwrap_err();
    assert_eq!(err, DeriveError::UnsupportedConstParamType("u8".to_string()));
    assert_eq!(
        err.message(),
        "TypeSignature derive only supports const generic parameters of type `usize` or `bool`"
    );
    // A value of the other supported type is refused too.
    let mismatched = with_const_param(
        ConstParamType::Ident("usize".to_string()),
        ConstValue::Bool(true),
        vec![],
    );
    assert_eq!(
        derive_type_signature(mismatched).unwrap_err(),
        DeriveError::UnsupportedConstParamType("usize".to_string())
    );
    // Field attribute errors come first.
    let both = with_const_param(
        ConstParamType::Ident("u8".to_string()),
        ConstValue::Usize(3),
        vec![field(None, "u8", vec![FieldAttr::Unrecognized("nope".to_string())])],
    );
    assert_eq!(
        derive_type_signature(both).unwrap_err(),
        DeriveError::UnrecognizedFieldAttribute("nope".to_string())
    );
}

#[test]
fn test_supported_const_params_are_accepted() {
    let usize_param = with_const_param(
        ConstParamType::Ident("usize".to_string()),
        ConstValue::Usize(3),
        vec![],
    );
    assert!(derive_type_signature(usize_param).is_ok());
    let bool_param =
        with_const_param(ConstParamType::Ident("bool".to_string()), ConstValue::Bool(false), vec![]);
    assert!(derive_type_signature(bool_param).is_ok());
}

#[test]
fn test_attribute_error_messages() {
    assert_eq!(
        DeriveError::UnrecognizedTypeAttribute("skip".to_string()).message(),
        "unrecognized type_signature attribute {attr:?}"
    );
    assert_eq!(
        DeriveError::UnrecognizedFieldAttribute("crate".to_string()).message(),
        "unrecognized type_signature attribute; expected `skip` or `rename = \"...\"`"
    );
}

#[test]
fn test_attribute_keys() {
    assert!(is_type_signature_attribute(&"type_signature".to_string()));
    assert!(!is_type_signature_attribute(&"serde".to_string()));
    assert!(!is_type_signature_attribute(&"::type_signature".to_string()));

    assert!(matches!(type_attr_key(&"rename".to_string()), TypeAttrKey::Rename));
    assert!(matches!(type_attr_key(&"crate".to_string()), TypeAttrKey::Crate));
    assert!(matches!(type_attr_key(&"skip".to_string()), TypeAttrKey::Unrecognized));

    assert!(matches!(field_attr_key(&"skip".to_string()), FieldAttrKey::Skip));
    assert!(matches!(field_attr_key(&"rename".to_string()), FieldAttrKey::Rename));
    assert!(matches!(field_attr_key(&"crate".to_string()), FieldAttrKey::Unrecognized));
}

#[test]
fn test_skip_on_a_type_is_refused() {
    let def = TypeDef {
        ident: "S".to_string(),
        attrs: vec![TypeAttr::Unrecognized("skip".to_string())],
        generics: vec![],
        where_predicates: vec![],
        data: TypeData::Struct(vec![]),
    };
    let err = derive_type_signature(def).unwrap_err();
    assert_eq!(err, DeriveError::UnrecognizedTypeAttribute("skip".to_string()));
}

fn bound(ty: &str) -> String {
    format!("{ty}: ::type_signature::TypeSignature")
}

#[test]
fn test_enum_field_types_are_bounded_once() {
    // enum E<T> { A(T, u32), B { a: T, b: String, #[type_signature(skip)] c: u64 } }
    let def = TypeDef {
        ident: "E".to_string(),
        attrs: vec![],
        generics: vec![GenericArg::Type("T".to_string(), u32::signature())],
        where_predicates: vec![],
        data: TypeData::Enum(vec![
            VariantDef {
                ident: "A".to_string(),
                attrs: vec![],
                fields: vec![field(None, "T", vec![]), field(None, "u32", vec![])],
            },
            VariantDef {
                ident: "B".to_string(),
                attrs: vec![],
                fields: vec![
                    field(Some("a"), "T", vec![]),
                    field(Some("b"), "String", vec![]),
                    field(Some("c"), "u64", vec![FieldAttr::Skip]),
                ],
            },
        ]),
    };
    let imp = TypeSignatureImpl::try_from_def(def).unwrap();
    assert_eq!(
        imp.where_clause(),
        vec![bound("T"), bound("T"), bound("u32"), bound("String")]
    );
}

#[test]
fn test_concrete_field_types_are_not_bounded_without_type_parameters() {
    let def = TypeDef {
        ident: "S".to_string(),
        attrs: vec![],
        generics: vec![GenericArg::Lifetime("'a".to_string())],
        where_predicates: vec!["'a: 'static".to_string()],
        data: TypeData::Struct(vec![field(Some("a"), "u32", vec![])]),
    };
    let imp = TypeSignatureImpl::try_from_def(def).unwrap();
    assert_eq!(imp.where_clause(), vec!["'a: 'static".to_string()]);
}

#[test]
fn test_bounds_use_the_given_crate_path() {
    let def = TypeDef {
        ident: "S".to_string(),
        attrs: vec![TypeAttr::Crate("::reexported::sig".to_string())],
        generics: vec![GenericArg::Type("T".to_string(), u8::signature())],
        where_predicates: vec![],
        data: TypeData::Struct(vec![field(Some("a"), "Vec<T>", vec![])]),
    };
    let imp = TypeSignatureImpl::try_from_def(def).unwrap();
    assert_eq!(
        imp.where_clause(),
        vec![
            "T: ::reexported::sig::TypeSignature".to_string(),
            "Vec<T>: ::reexported::sig::TypeSignature".to_string(),
        ]
    );
}

#[test]
fn test_unsupported_const_param_type_is_refused_after_layout() {
    // `struct S<const N: u8> { a: u8 }` lays out; only deriving its signature refuses it.
    let def = || {
        with_const_param(
            ConstParamType::Ident("u8".to_string()),
            ConstValue::Usize(3),
            vec![field(Some("a"), "u8", vec![])],
        )
    };
    let imp = TypeSignatureImpl::try_from_def(def()).unwrap();
    assert_eq!(imp.ident, "S");
    assert_eq!(
        derive_type_signature(def()).unwrap_err(),
        DeriveError::UnsupportedConstParamType("u8".to_string())
    );
    // A const parameter whose type is not one identifier is refused by the layout itself.
    let not_ident = with_const_param(
        ConstParamType::Other("core::primitive::usize".to_string()),
        ConstValue::Usize(3),
        vec![],
    );
    assert!(matches!(
        TypeSignatureImpl::try_from_def(not_ident),
        Err(DeriveError::ConstParamTypeNotIdent(_))
    ));
}

#[test]
fn test_renamed_field_with_a_bad_entry_fails_alike() {
    // `a: u8` with a bad entry, and `b: u8` renamed to `a` with the same bad entry.
    let plain = with_const_param(
        ConstParamType::Ident("usize".to_string()),
        ConstValue::Usize(1),
        vec![field(Some("a"), "u8", vec![FieldAttr::Unrecognized("bad".to_string())])],
    );
    let renamed = with_const_param(
        ConstParamType::Ident("usize".to_string()),
        ConstValue::Usize(1),
        vec![field(
            Some("b"),
            "u8",
            vec![
                FieldAttr::Rename("a".to_string()),
                FieldAttr::Unrecognized("bad".to_string()),
            ],
        )],
    );
    assert_eq!(
        derive_type_signature(plain).unwrap_err(),
        derive_type_signature(renamed).unwrap_err()
    );
}
