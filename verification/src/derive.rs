//! The signature that deriving gives a type definition.
//!
//! A [`TypeDef`] holds what a type's definition says that matters to its signature: its name,
//! its `#[type_signature(...)]` attributes, its generic arguments (as the signatures or values
//! they are instantiated with) and its fields. [`derive_type_signature`] builds the signature of
//! the type from it, or reports the attribute that it does not recognize.

use vstd::prelude::*;
use vstd::string::StringExecFns;

use crate::__macro_export::{
    const_bool_hash, const_usize_hash, hash_chars, hash_const_bool, hash_const_usize, hash_str,
    mix, mix_values,
};
use crate::hasher::{field_model, TypeSignatureHasher};
use crate::model::{FieldModel, SignatureModel, VariantModel};

verus! {

/// The first of `f`'s results on the items of `s` that is `Some`, going from first to last.
pub open spec fn first_some<A, B>(s: Seq<A>, f: spec_fn(A) -> Option<B>) -> Option<B>
    decreases s.len(),
{
    if s.len() == 0 {
        None
    } else {
        match first_some(s.drop_last(), f) {
            Some(b) => Some(b),
            None => f(s.last()),
        }
    }
}

/// The last of `f`'s results on the items of `s` that is `Some`.
pub open spec fn last_some<A, B>(s: Seq<A>, f: spec_fn(A) -> Option<B>) -> Option<B>
    decreases s.len(),
{
    if s.len() == 0 {
        None
    } else {
        match f(s.last()) {
            Some(b) => Some(b),
            None => last_some(s.drop_last(), f),
        }
    }
}

/// Taking one more item into account in [`first_some`].
proof fn lemma_first_some_take_step<A, B>(s: Seq<A>, f: spec_fn(A) -> Option<B>, i: int)
    requires
        0 <= i < s.len(),
    ensures
        first_some(s.take(i + 1), f) == (match first_some(s.take(i), f) {
            Some(b) => Some(b),
            None => f(s[i]),
        }),
{
    assert(s.take(i + 1).drop_last() =~= s.take(i));
}

/// Taking one more item into account in [`last_some`].
proof fn lemma_last_some_take_step<A, B>(s: Seq<A>, f: spec_fn(A) -> Option<B>, i: int)
    requires
        0 <= i < s.len(),
    ensures
        last_some(s.take(i + 1), f) == (match f(s[i]) {
            Some(b) => Some(b),
            None => last_some(s.take(i), f),
        }),
{
    assert(s.take(i + 1).drop_last() =~= s.take(i));
}

/// Once a prefix of `s` has a first `Some`, so does `s`, and it is the same.
proof fn lemma_first_some_prefix<A, B>(s: Seq<A>, f: spec_fn(A) -> Option<B>, i: int)
    requires
        0 <= i <= s.len(),
        first_some(s.take(i), f) is Some,
    ensures
        first_some(s, f) == first_some(s.take(i), f),
    decreases s.len() - i,
{
    if i == s.len() {
        assert(s.take(i) =~= s);
    } else {
        lemma_first_some_take_step(s, f, i);
        lemma_first_some_prefix(s, f, i + 1);
    }
}

/// An entry of a `#[type_signature(...)]` attribute on a type or an enum variant.
pub enum TypeAttr {
    /// `rename = "..."`: override the name used in the signature.
    Rename(String),
    /// `crate = path`: the path to the `type_signature` crate.
    Crate(String),
    /// Any other entry, by its name.
    Unrecognized(String),
}

/// An entry of a `#[type_signature(...)]` attribute on a field.
pub enum FieldAttr {
    /// `skip`: omit this field from the signature entirely.
    Skip,
    /// `rename = "..."`: override the name used for this field in the signature.
    Rename(String),
    /// Any other entry, by its name.
    Unrecognized(String),
}

/// Why a signature cannot be derived for a type definition.
#[derive(Debug, PartialEq, Eq)]
pub enum DeriveError {
    /// An entry of a type's or a variant's attribute is not `rename` or `crate`.
    UnrecognizedTypeAttribute(String),
    /// An entry of a field's attribute is not `skip` or `rename`.
    UnrecognizedFieldAttribute(String),
    /// A const generic parameter's type is not a single identifier; by the type, as written.
    ConstParamTypeNotIdent(String),
    /// A const generic parameter's type has no const hash (only `usize` and `bool` have one),
    /// or its value is not of that type; by the type. The code that deriving emits for such a
    /// parameter calls a `hash_const_<type>` function that does not exist, and does not compile.
    UnsupportedConstParamType(String),
}

/// The error that a type attribute entry raises, if any.
pub open spec fn type_attr_error(attr: TypeAttr) -> Option<DeriveError> {
    match attr {
        TypeAttr::Unrecognized(name) => Some(DeriveError::UnrecognizedTypeAttribute(name)),
        _ => None,
    }
}

/// The name that a type attribute entry renames to, if any.
pub open spec fn type_attr_rename(attr: TypeAttr) -> Option<Seq<char>> {
    match attr {
        TypeAttr::Rename(name) => Some(name@),
        _ => None,
    }
}

/// The crate path that a type attribute entry gives, if any.
pub open spec fn type_attr_crate(attr: TypeAttr) -> Option<Seq<char>> {
    match attr {
        TypeAttr::Crate(path) => Some(path@),
        _ => None,
    }
}

/// The error that a field attribute entry raises, if any.
pub open spec fn field_attr_error(attr: FieldAttr) -> Option<DeriveError> {
    match attr {
        FieldAttr::Unrecognized(name) => Some(DeriveError::UnrecognizedFieldAttribute(name)),
        _ => None,
    }
}

/// The name that a field attribute entry renames to, if any.
pub open spec fn field_attr_rename(attr: FieldAttr) -> Option<Seq<char>> {
    match attr {
        FieldAttr::Rename(name) => Some(name@),
        _ => None,
    }
}

/// Whether a field attribute entry is `skip`.
pub open spec fn field_attr_skip(attr: FieldAttr) -> Option<()> {
    match attr {
        FieldAttr::Skip => Some(()),
        _ => None,
    }
}

/// The characters of an optional string.
pub open spec fn opt_chars(s: Option<String>) -> Option<Seq<char>> {
    match s {
        Some(s) => Some(s@),
        None => None,
    }
}

/// Parsed `#[type_signature(...)]` attributes at the type level.
pub struct TypeAttrs {
    /// Override the name used in the signature. Lets the signature survive a type rename.
    pub rename: Option<String>,
    /// The path to the `type_signature` crate if it needs to be overridden.
    pub crate_path: Option<String>,
}

impl TypeAttrs {
    /// Parses the entries of a type's or a variant's attributes: the first unrecognized entry
    /// is an error; otherwise the last `rename` and the last `crate` entry count.
    pub fn parse(attrs: &Vec<TypeAttr>) -> (parsed: Result<TypeAttrs, DeriveError>)
        ensures
            match first_some(attrs@, |a: TypeAttr| type_attr_error(a)) {
                Some(e) => parsed == Err::<TypeAttrs, DeriveError>(e),
                None => parsed matches Ok(out) && opt_chars(out.rename) == last_some(
                    attrs@,
                    |a: TypeAttr| type_attr_rename(a),
                ) && opt_chars(out.crate_path) == last_some(
                    attrs@,
                    |a: TypeAttr| type_attr_crate(a),
                ),
            },
    {
        let mut out = TypeAttrs { rename: None, crate_path: None };
        let mut i: usize = 0;
        proof {
            assert(attrs@.take(0) =~= Seq::<TypeAttr>::empty());
        }
        while i < attrs.len()
            invariant
                i <= attrs@.len(),
                first_some(attrs@.take(i as int), |a: TypeAttr| type_attr_error(a)) is None,
                opt_chars(out.rename) == last_some(attrs@.take(i as int), |a: TypeAttr| type_attr_rename(a)),
                opt_chars(out.crate_path) == last_some(attrs@.take(i as int), |a: TypeAttr| type_attr_crate(a)),
            decreases attrs@.len() - i,
        {
            proof {
                lemma_first_some_take_step(attrs@, |a: TypeAttr| type_attr_error(a), i as int);
                lemma_last_some_take_step(attrs@, |a: TypeAttr| type_attr_rename(a), i as int);
                lemma_last_some_take_step(attrs@, |a: TypeAttr| type_attr_crate(a), i as int);
            }
            match &attrs[i] {
                TypeAttr::Rename(name) => {
                    out.rename = Some(name.clone());
                },
                TypeAttr::Crate(path) => {
                    out.crate_path = Some(path.clone());
                },
                TypeAttr::Unrecognized(name) => {
                    proof {
                        lemma_first_some_prefix(attrs@, |a: TypeAttr| type_attr_error(a), i + 1);
                    }
                    return Err(DeriveError::UnrecognizedTypeAttribute(name.clone()));
                },
            }
            i += 1;
        }
        proof {
            assert(attrs@.take(i as int) =~= attrs@);
        }
        Ok(out)
    }
}

/// Parsed `#[type_signature(...)]` attributes at the field level.
pub struct FieldAttrs {
    /// Omit this field from the signature entirely.
    pub skip: bool,
    /// Override the name used for this field in the signature.
    pub rename: Option<String>,
}

impl FieldAttrs {
    /// Parses the entries of a field's attributes: the first unrecognized entry is an error;
    /// otherwise the field is skipped if any entry is `skip`, and the last `rename` counts.
    pub fn parse(attrs: &Vec<FieldAttr>) -> (parsed: Result<FieldAttrs, DeriveError>)
        ensures
            match first_some(attrs@, |a: FieldAttr| field_attr_error(a)) {
                Some(e) => parsed == Err::<FieldAttrs, DeriveError>(e),
                None => parsed matches Ok(out) && opt_chars(out.rename) == last_some(
                    attrs@,
                    |a: FieldAttr| field_attr_rename(a),
                ) && out.skip == last_some(attrs@, |a: FieldAttr| field_attr_skip(a)) is Some,
            },
    {
        let mut out = FieldAttrs { skip: false, rename: None };
        let mut i: usize = 0;
        proof {
            assert(attrs@.take(0) =~= Seq::<FieldAttr>::empty());
        }
        while i < attrs.len()
            invariant
                i <= attrs@.len(),
                first_some(attrs@.take(i as int), |a: FieldAttr| field_attr_error(a)) is None,
                opt_chars(out.rename) == last_some(attrs@.take(i as int), |a: FieldAttr| field_attr_rename(a)),
                out.skip == last_some(attrs@.take(i as int), |a: FieldAttr| field_attr_skip(a)) is Some,
            decreases attrs@.len() - i,
        {
            proof {
                lemma_first_some_take_step(attrs@, |a: FieldAttr| field_attr_error(a), i as int);
                lemma_last_some_take_step(attrs@, |a: FieldAttr| field_attr_rename(a), i as int);
                lemma_last_some_take_step(attrs@, |a: FieldAttr| field_attr_skip(a), i as int);
            }
            match &attrs[i] {
                FieldAttr::Skip => {
                    out.skip = true;
                },
                FieldAttr::Rename(name) => {
                    out.rename = Some(name.clone());
                },
                FieldAttr::Unrecognized(name) => {
                    proof {
                        lemma_first_some_prefix(attrs@, |a: FieldAttr| field_attr_error(a), i + 1);
                    }
                    return Err(DeriveError::UnrecognizedFieldAttribute(name.clone()));
                },
            }
            i += 1;
        }
        proof {
            assert(attrs@.take(i as int) =~= attrs@);
        }
        Ok(out)
    }
}


/// The character of a decimal digit.
pub open spec fn digit_char(d: nat) -> char {
    (48 + d) as char
}

/// The decimal representation of a number, without leading zeros.
pub open spec fn decimal(n: nat) -> Seq<char>
    decreases n,
{
    if n < 10 {
        seq![digit_char(n)]
    } else {
        decimal(n / 10).push(digit_char(n % 10))
    }
}

/// The one-character string of a decimal digit.
fn digit_str(d: usize) -> (s: &'static str)
    requires
        d < 10,
    ensures
        s@ == seq![digit_char(d as nat)],
{
    proof {
        reveal_strlit("0");
        reveal_strlit("1");
        reveal_strlit("2");
        reveal_strlit("3");
        reveal_strlit("4");
        reveal_strlit("5");
        reveal_strlit("6");
        reveal_strlit("7");
        reveal_strlit("8");
        reveal_strlit("9");
    }
    match d {
        0 => "0",
        1 => "1",
        2 => "2",
        3 => "3",
        4 => "4",
        5 => "5",
        6 => "6",
        7 => "7",
        8 => "8",
        _ => "9",
    }
}

/// The decimal representation of `n`, as `n.to_string()` gives it.
pub fn decimal_string(n: usize) -> (s: String)
    ensures
        s@ == decimal(n as nat),
    decreases n,
{
    if n < 10 {
        digit_str(n).to_owned()
    } else {
        let mut s = decimal_string(n / 10);
        s.append(digit_str(n % 10));
        s
    }
}

/// A field of a struct or of an enum variant.
pub struct FieldDef {
    /// The field's name; `None` for the fields of a tuple struct or tuple variant.
    pub ident: Option<String>,
    /// The entries of the field's `#[type_signature(...)]` attributes, in order.
    pub attrs: Vec<FieldAttr>,
    /// The field's type, as written.
    pub ty_text: String,
    /// The signature of the field's type.
    pub ty: TypeSignatureHasher,
}

/// The error that a field's attributes raise, if any.
pub open spec fn field_error(field: FieldDef) -> Option<DeriveError> {
    first_some(field.attrs@, |a: FieldAttr| field_attr_error(a))
}

/// Whether a field is left out of the signature.
pub open spec fn field_skipped(field: FieldDef) -> bool {
    last_some(field.attrs@, |a: FieldAttr| field_attr_skip(a)) is Some
}

/// The name of the field at position `idx` in its signature: the name that it is renamed
/// to, else its own name, else its position in decimal.
pub open spec fn field_name(field: FieldDef, idx: int) -> Seq<char> {
    match last_some(field.attrs@, |a: FieldAttr| field_attr_rename(a)) {
        Some(name) => name,
        None => match field.ident {
            Some(ident) => ident@,
            None => decimal(idx as nat),
        },
    }
}

/// The first error that the attributes of `fields` raise, if any.
pub open spec fn fields_error(fields: Seq<FieldDef>) -> Option<DeriveError> {
    first_some(fields, |f: FieldDef| field_error(f))
}

/// The fields of a signature made from `fields`: each field that is not skipped, under its
/// name, with its type.
pub open spec fn fields_model(fields: Seq<FieldDef>) -> Seq<FieldModel>
    decreases fields.len(),
{
    if fields.len() == 0 {
        seq![]
    } else {
        let rest = fields_model(fields.drop_last());
        if field_skipped(fields.last()) {
            rest
        } else {
            rest.push(
                FieldModel { name: field_name(fields.last(), fields.len() - 1), ty: fields.last().ty@ },
            )
        }
    }
}

/// The abstract value of the rows of a variant.
pub open spec fn rows_model(rows: Seq<(String, TypeSignatureHasher)>) -> Seq<FieldModel> {
    Seq::new(rows.len(), |j: int| field_model(rows[j]))
}

/// Build the `(name, type signature)` rows of the fields that are not skipped.
pub fn fields_info(fields: &Vec<FieldDef>) -> (info: Result<
    Vec<(String, TypeSignatureHasher)>,
    DeriveError,
>)
    ensures
        match fields_error(fields@) {
            Some(e) => info == Err::<Vec<(String, TypeSignatureHasher)>, DeriveError>(e),
            None => info matches Ok(rows) && rows_model(rows@) == fields_model(fields@),
        },
{
    let mut rows: Vec<(String, TypeSignatureHasher)> = Vec::new();
    let mut idx: usize = 0;
    proof {
        assert(fields@.take(0) =~= Seq::<FieldDef>::empty());
        assert(rows_model(rows@) =~= Seq::<FieldModel>::empty());
    }
    while idx < fields.len()
        invariant
            idx <= fields@.len(),
            first_some(fields@.take(idx as int), |f: FieldDef| field_error(f)) is None,
            rows_model(rows@) == fields_model(fields@.take(idx as int)),
        decreases fields@.len() - idx,
    {
        proof {
            lemma_first_some_take_step(fields@, |f: FieldDef| field_error(f), idx as int);
            assert(fields@.take(idx + 1).drop_last() =~= fields@.take(idx as int));
        }
        let field = &fields[idx];
        match FieldAttrs::parse(&field.attrs) {
            Err(e) => {
                proof {
                    lemma_first_some_prefix(fields@, |f: FieldDef| field_error(f), idx + 1);
                }
                return Err(e);
            },
            Ok(attrs) => {
                if !attrs.skip {
                    let name = match attrs.rename {
                        Some(rename) => rename,
                        None => match &field.ident {
                            Some(ident) => ident.clone(),
                            None => decimal_string(idx),
                        },
                    };
                    let ty = field.ty.clone();
                    let ghost before = rows@;
                    rows.push((name, ty));
                    proof {
                        assert(rows_model(rows@) =~= rows_model(before).push(field_model((name, ty))));
                    }
                }
            },
        }
        idx += 1;
    }
    proof {
        assert(fields@.take(idx as int) =~= fields@);
    }
    Ok(rows)
}


/// A variant of an enum.
pub struct VariantDef {
    /// The variant's name.
    pub ident: String,
    /// The entries of the variant's `#[type_signature(...)]` attributes, in order.
    pub attrs: Vec<TypeAttr>,
    /// The variant's fields.
    pub fields: Vec<FieldDef>,
}

/// A field of a union. Union fields always have names.
pub struct UnionFieldDef {
    /// The field's name.
    pub ident: String,
    /// The entries of the field's `#[type_signature(...)]` attributes, in order.
    pub attrs: Vec<FieldAttr>,
    /// The field's type, as written.
    pub ty_text: String,
    /// The signature of the field's type.
    pub ty: TypeSignatureHasher,
}

/// The value that a const generic parameter is instantiated with.
pub enum ConstValue {
    Usize(usize),
    Bool(bool),
}

/// The declared type of a const generic parameter.
pub enum ConstParamType {
    /// A path made of one identifier, such as `usize` or `bool`, by that identifier.
    Ident(String),
    /// Any other type, such as `core::primitive::usize`, as written.
    Other(String),
}

/// A generic parameter of a type, as it is instantiated.
pub enum GenericArg {
    /// A lifetime parameter, by its name.
    Lifetime(String),
    /// A type parameter, by its name and the signature of its argument.
    Type(String, TypeSignatureHasher),
    /// A const parameter, by its name, its declared type and its value.
    Const(String, ConstParamType, ConstValue),
}

/// The shape of a type.
pub enum TypeData {
    Struct(Vec<FieldDef>),
    Enum(Vec<VariantDef>),
    Union(Vec<UnionFieldDef>),
}

/// What a type's definition says that matters to its signature.
pub struct TypeDef {
    /// The type's name.
    pub ident: String,
    /// The entries of the type's `#[type_signature(...)]` attributes, in order.
    pub attrs: Vec<TypeAttr>,
    /// The type's generic parameters, in order, as they are instantiated.
    pub generics: Vec<GenericArg>,
    /// The predicates of the type's `where` clause, as written.
    pub where_predicates: Vec<String>,
    /// The type's fields or variants.
    pub data: TypeData,
}

/// The first error that a list of type attribute entries raises, if any.
pub open spec fn type_attrs_error(attrs: Seq<TypeAttr>) -> Option<DeriveError> {
    first_some(attrs, |a: TypeAttr| type_attr_error(a))
}

/// `ident`, or the name that the last `rename` entry of `attrs` gives.
pub open spec fn renamed(ident: Seq<char>, attrs: Seq<TypeAttr>) -> Seq<char> {
    match last_some(attrs, |a: TypeAttr| type_attr_rename(a)) {
        Some(name) => name,
        None => ident,
    }
}

/// The first error that a variant raises: in its attributes, then in its fields.
pub open spec fn variant_error(variant: VariantDef) -> Option<DeriveError> {
    match type_attrs_error(variant.attrs@) {
        Some(e) => Some(e),
        None => fields_error(variant.fields@),
    }
}

/// The variant of a signature made from an enum variant.
pub open spec fn variant_def_model(variant: VariantDef) -> VariantModel {
    VariantModel {
        name: renamed(variant.ident@, variant.attrs@),
        fields: fields_model(variant.fields@),
    }
}

/// The error that a union field's attributes raise, if any.
pub open spec fn union_field_error(field: UnionFieldDef) -> Option<DeriveError> {
    first_some(field.attrs@, |a: FieldAttr| field_attr_error(a))
}

/// Whether a union field is left out of the signature.
pub open spec fn union_field_skipped(field: UnionFieldDef) -> bool {
    last_some(field.attrs@, |a: FieldAttr| field_attr_skip(a)) is Some
}

/// The variant of a signature made from a union field: named after the field, with one
/// unnamed field of the field's type.
pub open spec fn union_field_model(field: UnionFieldDef) -> VariantModel {
    VariantModel {
        name: match last_some(field.attrs@, |a: FieldAttr| field_attr_rename(a)) {
            Some(name) => name,
            None => field.ident@,
        },
        fields: seq![FieldModel { name: seq![], ty: field.ty@ }],
    }
}

/// The variants of a signature made from the fields of a union: one per field that is not
/// skipped.
pub open spec fn union_model(fields: Seq<UnionFieldDef>) -> Seq<VariantModel>
    decreases fields.len(),
{
    if fields.len() == 0 {
        seq![]
    } else if union_field_skipped(fields.last()) {
        union_model(fields.drop_last())
    } else {
        union_model(fields.drop_last()).push(union_field_model(fields.last()))
    }
}

/// The first error that a type's fields or variants raise, if any.
pub open spec fn data_error(data: TypeData) -> Option<DeriveError> {
    match data {
        TypeData::Struct(fields) => fields_error(fields@),
        TypeData::Enum(variants) => first_some(variants@, |v: VariantDef| variant_error(v)),
        TypeData::Union(fields) => first_some(fields@, |f: UnionFieldDef| union_field_error(f)),
    }
}

/// The variants of a signature made from a type's fields or variants. A struct has one
/// variant, with an empty name.
pub open spec fn data_model(data: TypeData) -> Seq<VariantModel> {
    match data {
        TypeData::Struct(fields) => seq![VariantModel { name: seq![], fields: fields_model(fields@) }],
        TypeData::Enum(variants) => Seq::new(
            variants@.len(),
            |i: int| variant_def_model(variants@[i]),
        ),
        TypeData::Union(fields) => union_model(fields@),
    }
}

/// The error that a const generic parameter's type raises when it is not one identifier.
pub open spec fn const_param_error(arg: GenericArg) -> Option<DeriveError> {
    match arg {
        GenericArg::Const(_, ConstParamType::Other(ty), _) => Some(
            DeriveError::ConstParamTypeNotIdent(ty),
        ),
        _ => None,
    }
}

/// The error that a const generic parameter raises when its type has no const hash, or its
/// value is not of its type.
pub open spec fn const_support_error(arg: GenericArg) -> Option<DeriveError> {
    match arg {
        GenericArg::Const(_, ConstParamType::Ident(ty), value) => {
            if (ty@ == "usize"@ && value is Usize) || (ty@ == "bool"@ && value is Bool) {
                None
            } else {
                Some(DeriveError::UnsupportedConstParamType(ty))
            }
        },
        _ => None,
    }
}

/// The error that laying out `def` raises: the first unrecognized entry of the type's
/// attributes; else the first const generic parameter whose type is not one identifier; else
/// the first unrecognized attribute entry of its fields or variants, in order.
pub open spec fn layout_error(def: TypeDef) -> Option<DeriveError> {
    match type_attrs_error(def.attrs@) {
        Some(e) => Some(e),
        None => match first_some(def.generics@, |a: GenericArg| const_param_error(a)) {
            Some(e) => Some(e),
            None => data_error(def.data),
        },
    }
}

/// The error that deriving a signature for `def` raises: the error of its layout; else the
/// first const generic parameter that has no const hash.
pub open spec fn derive_error(def: TypeDef) -> Option<DeriveError> {
    match layout_error(def) {
        Some(e) => Some(e),
        None => first_some(def.generics@, |a: GenericArg| const_support_error(a)),
    }
}

/// The hash of a const generic value.
pub open spec fn const_value_hash(value: ConstValue) -> u64 {
    match value {
        ConstValue::Usize(n) => const_usize_hash(n),
        ConstValue::Bool(b) => const_bool_hash(b),
    }
}

/// The signatures of the type arguments among `args`, in order.
pub open spec fn generic_models(args: Seq<GenericArg>) -> Seq<SignatureModel>
    decreases args.len(),
{
    if args.len() == 0 {
        seq![]
    } else {
        match args.last() {
            GenericArg::Type(_, sig) => generic_models(args.drop_last()).push(sig@),
            _ => generic_models(args.drop_last()),
        }
    }
}

/// The hashes of the const arguments among `args`, in order: the hash of the parameter's
/// name, mixed with the hash of its value.
pub open spec fn const_generic_models(args: Seq<GenericArg>) -> Seq<u64>
    decreases args.len(),
{
    if args.len() == 0 {
        seq![]
    } else {
        match args.last() {
            GenericArg::Const(name, _, value) => const_generic_models(args.drop_last()).push(
                mix(hash_chars(name@), const_value_hash(value)),
            ),
            _ => const_generic_models(args.drop_last()),
        }
    }
}

/// The characters of each string.
pub open spec fn strings_view(strings: Seq<String>) -> Seq<Seq<char>> {
    strings.map_values(|s: String| s@)
}

/// The names of the type parameters among `args`, in order.
pub open spec fn type_param_names(args: Seq<GenericArg>) -> Seq<Seq<char>>
    decreases args.len(),
{
    if args.len() == 0 {
        seq![]
    } else {
        match args.last() {
            GenericArg::Type(name, _) => type_param_names(args.drop_last()).push(name@),
            _ => type_param_names(args.drop_last()),
        }
    }
}

/// The types, as written, of the fields that are not skipped, in order.
pub open spec fn field_types(fields: Seq<FieldDef>) -> Seq<Seq<char>>
    decreases fields.len(),
{
    if fields.len() == 0 {
        seq![]
    } else if field_skipped(fields.last()) {
        field_types(fields.drop_last())
    } else {
        field_types(fields.drop_last()).push(fields.last().ty_text@)
    }
}

/// The types, as written, of the union fields that are not skipped, in order.
pub open spec fn union_field_types(fields: Seq<UnionFieldDef>) -> Seq<Seq<char>>
    decreases fields.len(),
{
    if fields.len() == 0 {
        seq![]
    } else if union_field_skipped(fields.last()) {
        union_field_types(fields.drop_last())
    } else {
        union_field_types(fields.drop_last()).push(fields.last().ty_text@)
    }
}

/// The types of the fields that are not skipped, of each variant in turn.
pub open spec fn variants_field_types(variants: Seq<VariantDef>) -> Seq<Seq<char>>
    decreases variants.len(),
{
    if variants.len() == 0 {
        seq![]
    } else {
        variants_field_types(variants.drop_last()) + field_types(variants.last().fields@)
    }
}

/// The items of `s` without repeats, each where it first occurs.
pub open spec fn dedup(s: Seq<Seq<char>>) -> Seq<Seq<char>>
    decreases s.len(),
{
    if s.len() == 0 {
        seq![]
    } else if dedup(s.drop_last()).contains(s.last()) {
        dedup(s.drop_last())
    } else {
        dedup(s.drop_last()).push(s.last())
    }
}

/// The field types that a type's derived impl bounds: those of a struct's or a union's fields
/// in order; those of an enum's variants without repeats.
pub open spec fn constraint_types(data: TypeData) -> Seq<Seq<char>> {
    match data {
        TypeData::Struct(fields) => field_types(fields@),
        TypeData::Enum(variants) => dedup(variants_field_types(variants@)),
        TypeData::Union(fields) => union_field_types(fields@),
    }
}

/// The field types that a type's derived impl bounds, which it does only when the type has a
/// type parameter: bounding a concrete type could make the impl never apply.
pub open spec fn generic_constraints_model(def: TypeDef) -> Seq<Seq<char>> {
    if type_param_names(def.generics@).len() > 0 {
        constraint_types(def.data)
    } else {
        seq![]
    }
}

/// The path of the `type_signature` crate: the one given by the attributes, else the default.
pub open spec fn crate_path_text(crate_path: Option<String>) -> Seq<char> {
    match crate_path {
        Some(path) => path@,
        None => "::type_signature"@,
    }
}

/// The predicate that a type implements `TypeSignature`.
pub open spec fn bound_text(ty: Seq<char>, crate_path: Seq<char>) -> Seq<char> {
    ty + ": "@ + crate_path + "::TypeSignature"@
}

/// The predicates that each of `tys` implements `TypeSignature`.
pub open spec fn bounds_text(tys: Seq<Seq<char>>, crate_path: Seq<char>) -> Seq<Seq<char>> {
    tys.map_values(|ty: Seq<char>| bound_text(ty, crate_path))
}

/// The signature that deriving gives a type definition.
pub open spec fn derived_model(def: TypeDef) -> SignatureModel {
    SignatureModel {
        name: renamed(def.ident@, def.attrs@),
        generics: generic_models(def.generics@),
        const_hashes: const_generic_models(def.generics@),
        variants: data_model(def.data),
    }
}

/// The abstract value of a list of variant rows.
pub open spec fn variant_rows_model(
    rows: Seq<(String, Vec<(String, TypeSignatureHasher)>)>,
) -> Seq<VariantModel> {
    Seq::new(rows.len(), |i: int| crate::hasher::variant_model(rows[i]))
}

/// A type definition checked and laid out for its signature.
pub struct TypeSignatureImpl {
    /// The identifier for the target type.
    pub ident: String,
    /// The generic parameters of the target type, as instantiated.
    pub generics: Vec<GenericArg>,
    /// The list of variants for this type, each with its `(name, signature)` rows.
    ///
    /// For a struct, there is only one variant, but an enum may have multiple.
    pub variants: Vec<(String, Vec<(String, TypeSignatureHasher)>)>,
    /// If `Some`, override the name emitted into the signature.
    pub rename: Option<String>,
    /// The path to use for accessing the `type_signature` crate.
    pub crate_path: Option<String>,
    /// The predicates of the target type's `where` clause.
    pub where_predicates: Vec<String>,
    /// The names of the target type's type parameters.
    pub type_params: Vec<String>,
    /// The field types that the impl bounds by `TypeSignature`.
    pub generic_constraints: Vec<String>,
}

impl TypeSignatureImpl {
    /// Checks the attributes of a type definition and lays out its variants.
    pub fn try_from_def(def: TypeDef) -> (laid_out: Result<TypeSignatureImpl, DeriveError>)
        ensures
            match layout_error(def) {
                Some(e) => laid_out == Err::<TypeSignatureImpl, DeriveError>(e),
                None => laid_out matches Ok(imp) && imp.ident == def.ident && imp.generics
                    == def.generics && opt_chars(imp.rename) == last_some(
                    def.attrs@,
                    |a: TypeAttr| type_attr_rename(a),
                ) && opt_chars(imp.crate_path) == last_some(
                    def.attrs@,
                    |a: TypeAttr| type_attr_crate(a),
                ) && variant_rows_model(imp.variants@) == data_model(def.data)
                    && imp.where_predicates == def.where_predicates && strings_view(
                    imp.type_params@,
                ) == type_param_names(def.generics@) && strings_view(imp.generic_constraints@)
                    == generic_constraints_model(def),
            },
    {
        let ghost given = def;
        let TypeDef { ident, attrs, generics, where_predicates, data } = def;
        let type_attrs = match TypeAttrs::parse(&attrs) {
            Ok(type_attrs) => type_attrs,
            Err(e) => {
                return Err(e);
            },
        };
        match check_const_params(&generics) {
            Ok(()) => {},
            Err(e) => {
                return Err(e);
            },
        }
        let variants = match &data {
            TypeData::Struct(fields) => {
                let rows = match fields_info(fields) {
                    Ok(rows) => rows,
                    Err(e) => {
                        return Err(e);
                    },
                };
                let variants = vec![(String::new(), rows)];
                proof {
                    assert(crate::hasher::variant_model(variants@[0]).fields =~= rows_model(
                        rows@,
                    ));
                    assert(crate::hasher::variant_model(variants@[0]).name =~= Seq::<char>::empty());
                    assert(variant_rows_model(variants@) =~= data_model(given.data));
                }
                variants
            },
            TypeData::Enum(variant_defs) => {
                match enum_rows(variant_defs) {
                    Ok(rows) => rows,
                    Err(e) => {
                        return Err(e);
                    },
                }
            },
            TypeData::Union(fields) => {
                match union_rows(fields) {
                    Ok(rows) => rows,
                    Err(e) => {
                        return Err(e);
                    },
                }
            },
        };
        let type_params = type_params_of(&generics);
        let generic_constraints = if type_params.len() > 0 {
            constraint_types_of(&data)
        } else {
            Vec::new()
        };
        proof {
            if type_params.len() == 0 {
                assert(strings_view(generic_constraints@) =~= Seq::<Seq<char>>::empty());
            }
        }
        Ok(
            TypeSignatureImpl {
                ident,
                generics,
                variants,
                rename: type_attrs.rename,
                crate_path: type_attrs.crate_path,
                where_predicates,
                type_params,
                generic_constraints,
            },
        )
    }
}

/// Lays out the variants of an enum.
fn enum_rows(variants: &Vec<VariantDef>) -> (rows: Result<
    Vec<(String, Vec<(String, TypeSignatureHasher)>)>,
    DeriveError,
>)
    ensures
        match first_some(variants@, |v: VariantDef| variant_error(v)) {
            Some(e) => rows == Err::<Vec<(String, Vec<(String, TypeSignatureHasher)>)>, DeriveError>(e),
            None => rows matches Ok(rows) && variant_rows_model(rows@) == Seq::new(
                variants@.len(),
                |i: int| variant_def_model(variants@[i]),
            ),
        },
{
    let mut rows: Vec<(String, Vec<(String, TypeSignatureHasher)>)> = Vec::new();
    let mut i: usize = 0;
    proof {
        assert(variants@.take(0) =~= Seq::<VariantDef>::empty());
    }
    while i < variants.len()
        invariant
            i <= variants@.len(),
            first_some(variants@.take(i as int), |v: VariantDef| variant_error(v)) is None,
            rows@.len() == i,
            forall|k: int|
                0 <= k < i ==> crate::hasher::variant_model(#[trigger] rows@[k])
                    == variant_def_model(variants@[k]),
        decreases variants@.len() - i,
    {
        proof {
            lemma_first_some_take_step(variants@, |v: VariantDef| variant_error(v), i as int);
        }
        let variant = &variants[i];
        let attrs = match TypeAttrs::parse(&variant.attrs) {
            Ok(attrs) => attrs,
            Err(e) => {
                proof {
                    lemma_first_some_prefix(variants@, |v: VariantDef| variant_error(v), i + 1);
                }
                return Err(e);
            },
        };
        let fields = match fields_info(&variant.fields) {
            Ok(fields) => fields,
            Err(e) => {
                proof {
                    lemma_first_some_prefix(variants@, |v: VariantDef| variant_error(v), i + 1);
                }
                return Err(e);
            },
        };
        let name = match attrs.rename {
            Some(rename) => rename,
            None => variant.ident.clone(),
        };
        proof {
            assert(crate::hasher::variant_model((name, fields)).fields =~= rows_model(fields@));
        }
        rows.push((name, fields));
        i += 1;
    }
    proof {
        assert(variants@.take(i as int) =~= variants@);
        assert(variant_rows_model(rows@) =~= Seq::new(
            variants@.len(),
            |i: int| variant_def_model(variants@[i]),
        ));
    }
    Ok(rows)
}

/// Lays out the fields of a union, each as a variant of its own.
fn union_rows(fields: &Vec<UnionFieldDef>) -> (rows: Result<
    Vec<(String, Vec<(String, TypeSignatureHasher)>)>,
    DeriveError,
>)
    ensures
        match first_some(fields@, |f: UnionFieldDef| union_field_error(f)) {
            Some(e) => rows == Err::<Vec<(String, Vec<(String, TypeSignatureHasher)>)>, DeriveError>(e),
            None => rows matches Ok(rows) && variant_rows_model(rows@) == union_model(fields@),
        },
{
    let mut rows: Vec<(String, Vec<(String, TypeSignatureHasher)>)> = Vec::new();
    let mut i: usize = 0;
    proof {
        assert(fields@.take(0) =~= Seq::<UnionFieldDef>::empty());
        assert(variant_rows_model(rows@) =~= Seq::<VariantModel>::empty());
    }
    while i < fields.len()
        invariant
            i <= fields@.len(),
            first_some(fields@.take(i as int), |f: UnionFieldDef| union_field_error(f)) is None,
            variant_rows_model(rows@) == union_model(fields@.take(i as int)),
        decreases fields@.len() - i,
    {
        proof {
            lemma_first_some_take_step(fields@, |f: UnionFieldDef| union_field_error(f), i as int);
            assert(fields@.take(i + 1).drop_last() =~= fields@.take(i as int));
        }
        let field = &fields[i];
        match FieldAttrs::parse(&field.attrs) {
            Err(e) => {
                proof {
                    lemma_first_some_prefix(
                        fields@,
                        |f: UnionFieldDef| union_field_error(f),
                        i + 1,
                    );
                }
                return Err(e);
            },
            Ok(attrs) => {
                if !attrs.skip {
                    let name = match attrs.rename {
                        Some(rename) => rename,
                        None => field.ident.clone(),
                    };
                    let ty = field.ty.clone();
                    let row = vec![(String::new(), ty)];
                    let ghost before = rows@;
                    rows.push((name, row));
                    proof {
                        assert(crate::hasher::variant_model((name, row)).fields =~= seq![
                            FieldModel { name: seq![], ty: ty@ },
                        ]);
                        assert(variant_rows_model(rows@) =~= variant_rows_model(before).push(
                            union_field_model(*field),
                        ));
                    }
                }
            },
        }
        i += 1;
    }
    proof {
        assert(fields@.take(i as int) =~= fields@);
    }
    Ok(rows)
}


impl TypeSignatureImpl {
    /// The signature of the target type: its name (or the name that it is renamed to), the
    /// signatures of its type arguments, the hashes of its const arguments, and its variants.
    pub fn to_signature(self) -> (sig: TypeSignatureHasher)
        ensures
            sig@ == (SignatureModel {
                name: match opt_chars(self.rename) {
                    Some(name) => name,
                    None => self.ident@,
                },
                generics: generic_models(self.generics@),
                const_hashes: const_generic_models(self.generics@),
                variants: variant_rows_model(self.variants@),
            }),
    {
        let TypeSignatureImpl { ident, generics, variants, rename, .. } = self;
        let ty_name = match rename {
            Some(rename) => rename,
            None => ident,
        };
        let mut ty_generics: Vec<TypeSignatureHasher> = Vec::new();
        let mut const_generic_hashes: Vec<u64> = Vec::new();
        let mut i: usize = 0;
        proof {
            assert(generics@.take(0) =~= Seq::<GenericArg>::empty());
            assert(ty_generics@.map_values(|g: TypeSignatureHasher| g@) =~= Seq::<
                SignatureModel,
            >::empty());
        }
        while i < generics.len()
            invariant
                i <= generics@.len(),
                ty_generics@.map_values(|g: TypeSignatureHasher| g@) == generic_models(
                    generics@.take(i as int),
                ),
                const_generic_hashes@ == const_generic_models(generics@.take(i as int)),
            decreases generics@.len() - i,
        {
            proof {
                assert(generics@.take(i + 1).drop_last() =~= generics@.take(i as int));
            }
            let ghost before = ty_generics@;
            match &generics[i] {
                GenericArg::Lifetime(_) => {},
                GenericArg::Type(_, sig) => {
                    ty_generics.push(sig.clone());
                    proof {
                        assert(ty_generics@.map_values(|g: TypeSignatureHasher| g@) =~= before.map_values(
                            |g: TypeSignatureHasher| g@,
                        ).push(sig@));
                    }
                },
                GenericArg::Const(name, _, value) => {
                    let mut accumulator = hash_str(name.as_str());
                    let value_hash = match value {
                        ConstValue::Usize(n) => hash_const_usize(*n),
                        ConstValue::Bool(b) => hash_const_bool(*b),
                    };
                    mix_values(&mut accumulator, value_hash);
                    const_generic_hashes.push(accumulator);
                },
            }
            i += 1;
        }
        proof {
            assert(generics@.take(i as int) =~= generics@);
        }
        let sig = TypeSignatureHasher { ty_name, ty_generics, const_generic_hashes, variants };
        proof {
            assert(sig@.generics =~= ty_generics@.map_values(|g: TypeSignatureHasher| g@));
            assert(sig@.variants =~= variant_rows_model(variants@));
        }
        sig
    }
}

/// Derive the signature of a type from its definition.
///
/// The signature is named after the type, or after the last `rename` entry of its attributes;
/// its generics are the signatures of its type arguments and its const generic hashes those of
/// its const arguments, in order, lifetimes left out; a struct has one variant with an empty
/// name, an enum one variant per variant of its own, and a union one variant per field. Each
/// field that is not skipped is named after its `rename` entry, else its own name, else its
/// position in decimal. The first attribute entry that is not recognized is an error, and so is
/// a const generic parameter whose type is not one identifier. After the layout, a const
/// generic parameter whose type has no const hash is an error too: the code emitted for it
/// would call a hash function that does not exist.
pub fn derive_type_signature(def: TypeDef) -> (sig: Result<TypeSignatureHasher, DeriveError>)
    ensures
        match derive_error(def) {
            Some(e) => sig == Err::<TypeSignatureHasher, DeriveError>(e),
            None => sig matches Ok(sig) && sig@ == derived_model(def),
        },
{
    match TypeSignatureImpl::try_from_def(def) {
        Ok(imp) => match check_const_support(&imp.generics) {
            Ok(()) => Ok(imp.to_signature()),
            Err(e) => Err(e),
        },
        Err(e) => Err(e),
    }
}


/// The views of a list of strings with one more string.
proof fn lemma_strings_view_push(strings: Seq<String>, s: String)
    ensures
        strings_view(strings.push(s)) == strings_view(strings).push(s@),
{
    assert(strings_view(strings.push(s)) =~= strings_view(strings).push(s@));
}

/// Checks that each const generic parameter's type is one identifier.
fn check_const_params(generics: &Vec<GenericArg>) -> (checked: Result<(), DeriveError>)
    ensures
        match first_some(generics@, |a: GenericArg| const_param_error(a)) {
            Some(e) => checked == Err::<(), DeriveError>(e),
            None => checked is Ok,
        },
{
    let mut i: usize = 0;
    proof {
        assert(generics@.take(0) =~= Seq::<GenericArg>::empty());
    }
    while i < generics.len()
        invariant
            i <= generics@.len(),
            first_some(generics@.take(i as int), |a: GenericArg| const_param_error(a)) is None,
        decreases generics@.len() - i,
    {
        proof {
            lemma_first_some_take_step(generics@, |a: GenericArg| const_param_error(a), i as int);
        }
        match &generics[i] {
            GenericArg::Const(_, ConstParamType::Other(ty), _) => {
                proof {
                    lemma_first_some_prefix(generics@, |a: GenericArg| const_param_error(a), i + 1);
                }
                return Err(DeriveError::ConstParamTypeNotIdent(ty.clone()));
            },
            _ => {},
        }
        i += 1;
    }
    proof {
        assert(generics@.take(i as int) =~= generics@);
    }
    Ok(())
}

/// Checks that each const generic parameter has a const hash for its type and a value of
/// that type.
fn check_const_support(generics: &Vec<GenericArg>) -> (checked: Result<(), DeriveError>)
    ensures
        match first_some(generics@, |a: GenericArg| const_support_error(a)) {
            Some(e) => checked == Err::<(), DeriveError>(e),
            None => checked is Ok,
        },
{
    let usize_name = "usize".to_owned();
    let bool_name = "bool".to_owned();
    let mut i: usize = 0;
    proof {
        assert(generics@.take(0) =~= Seq::<GenericArg>::empty());
    }
    while i < generics.len()
        invariant
            i <= generics@.len(),
            usize_name@ == "usize"@,
            bool_name@ == "bool"@,
            first_some(generics@.take(i as int), |a: GenericArg| const_support_error(a)) is None,
        decreases generics@.len() - i,
    {
        proof {
            lemma_first_some_take_step(generics@, |a: GenericArg| const_support_error(a), i as int);
        }
        match &generics[i] {
            GenericArg::Const(_, ConstParamType::Ident(ty), value) => {
                let supported = match value {
                    ConstValue::Usize(_) => ty.eq(&usize_name),
                    ConstValue::Bool(_) => ty.eq(&bool_name),
                };
                if !supported {
                    proof {
                        lemma_first_some_prefix(
                            generics@,
                            |a: GenericArg| const_support_error(a),
                            i + 1,
                        );
                    }
                    return Err(DeriveError::UnsupportedConstParamType(ty.clone()));
                }
            },
            _ => {},
        }
        i += 1;
    }
    proof {
        assert(generics@.take(i as int) =~= generics@);
    }
    Ok(())
}

/// The names of the type parameters, in order.
fn type_params_of(generics: &Vec<GenericArg>) -> (names: Vec<String>)
    ensures
        strings_view(names@) == type_param_names(generics@),
{
    let mut names: Vec<String> = Vec::new();
    let mut i: usize = 0;
    proof {
        assert(generics@.take(0) =~= Seq::<GenericArg>::empty());
        assert(strings_view(names@) =~= Seq::<Seq<char>>::empty());
    }
    while i < generics.len()
        invariant
            i <= generics@.len(),
            strings_view(names@) == type_param_names(generics@.take(i as int)),
        decreases generics@.len() - i,
    {
        proof {
            assert(generics@.take(i + 1).drop_last() =~= generics@.take(i as int));
        }
        match &generics[i] {
            GenericArg::Type(name, _) => {
                let ghost before = names@;
                let copy = name.clone();
                names.push(copy);
                proof {
                    lemma_strings_view_push(before, copy);
                }
            },
            _ => {},
        }
        i += 1;
    }
    proof {
        assert(generics@.take(i as int) =~= generics@);
    }
    names
}

/// Whether a field's attributes skip it.
fn is_skipped(attrs: &Vec<FieldAttr>) -> (skipped: bool)
    ensures
        skipped == last_some(attrs@, |a: FieldAttr| field_attr_skip(a)) is Some,
{
    let mut skipped = false;
    let mut i: usize = 0;
    proof {
        assert(attrs@.take(0) =~= Seq::<FieldAttr>::empty());
    }
    while i < attrs.len()
        invariant
            i <= attrs@.len(),
            skipped == last_some(attrs@.take(i as int), |a: FieldAttr| field_attr_skip(a)) is Some,
        decreases attrs@.len() - i,
    {
        proof {
            lemma_last_some_take_step(attrs@, |a: FieldAttr| field_attr_skip(a), i as int);
        }
        match &attrs[i] {
            FieldAttr::Skip => {
                skipped = true;
            },
            _ => {},
        }
        i += 1;
    }
    proof {
        assert(attrs@.take(i as int) =~= attrs@);
    }
    skipped
}

/// Appends the types of the fields that are not skipped.
fn push_field_types(out: &mut Vec<String>, fields: &Vec<FieldDef>)
    ensures
        strings_view(final(out)@) == strings_view(old(out)@) + field_types(fields@),
{
    let ghost start = out@;
    let mut i: usize = 0;
    proof {
        assert(fields@.take(0) =~= Seq::<FieldDef>::empty());
        assert(strings_view(out@) =~= strings_view(start) + field_types(fields@.take(0)));
    }
    while i < fields.len()
        invariant
            i <= fields@.len(),
            strings_view(out@) == strings_view(start) + field_types(fields@.take(i as int)),
        decreases fields@.len() - i,
    {
        proof {
            assert(fields@.take(i + 1).drop_last() =~= fields@.take(i as int));
        }
        if !is_skipped(&fields[i].attrs) {
            let ghost before = out@;
            let ty = fields[i].ty_text.clone();
            out.push(ty);
            proof {
                lemma_strings_view_push(before, ty);
                assert(strings_view(out@) =~= strings_view(start) + field_types(
                    fields@.take(i + 1),
                ));
            }
        }
        i += 1;
    }
    proof {
        assert(fields@.take(i as int) =~= fields@);
    }
}

/// Whether `s` is among `strings`.
fn contains_string(strings: &Vec<String>, s: &String) -> (found: bool)
    ensures
        found == strings_view(strings@).contains(s@),
{
    let mut i: usize = 0;
    while i < strings.len()
        invariant
            i <= strings@.len(),
            forall|j: int| 0 <= j < i ==> strings_view(strings@)[j] != s@,
        decreases strings@.len() - i,
    {
        if strings[i].eq(s) {
            proof {
                assert(strings_view(strings@)[i as int] == s@);
            }
            return true;
        }
        i += 1;
    }
    false
}

/// The strings without repeats, each where it first occurs.
fn dedup_strings(all: &Vec<String>) -> (unique: Vec<String>)
    ensures
        strings_view(unique@) == dedup(strings_view(all@)),
{
    let mut unique: Vec<String> = Vec::new();
    let mut i: usize = 0;
    proof {
        assert(strings_view(all@).take(0) =~= Seq::<Seq<char>>::empty());
        assert(strings_view(unique@) =~= Seq::<Seq<char>>::empty());
    }
    while i < all.len()
        invariant
            i <= all@.len(),
            strings_view(unique@) == dedup(strings_view(all@).take(i as int)),
        decreases all@.len() - i,
    {
        proof {
            assert(strings_view(all@).take(i + 1).drop_last() =~= strings_view(all@).take(
                i as int,
            ));
            assert(strings_view(all@).take(i + 1).last() == all@[i as int]@);
        }
        if !contains_string(&unique, &all[i]) {
            let ghost before = unique@;
            let copy = all[i].clone();
            unique.push(copy);
            proof {
                lemma_strings_view_push(before, copy);
            }
        }
        i += 1;
    }
    proof {
        assert(strings_view(all@).take(i as int) =~= strings_view(all@));
    }
    unique
}

/// The field types that a type's derived impl bounds, given that it has a type parameter.
fn constraint_types_of(data: &TypeData) -> (tys: Vec<String>)
    ensures
        strings_view(tys@) == constraint_types(*data),
{
    match data {
        TypeData::Struct(fields) => {
            let mut tys: Vec<String> = Vec::new();
            push_field_types(&mut tys, fields);
            proof {
                assert(strings_view(Seq::<String>::empty()) =~= Seq::<Seq<char>>::empty());
                assert(Seq::<Seq<char>>::empty() + field_types(fields@) =~= field_types(fields@));
            }
            tys
        },
        TypeData::Enum(variants) => {
            let mut all: Vec<String> = Vec::new();
            let mut i: usize = 0;
            proof {
                assert(variants@.take(0) =~= Seq::<VariantDef>::empty());
                assert(strings_view(all@) =~= Seq::<Seq<char>>::empty());
            }
            while i < variants.len()
                invariant
                    i <= variants@.len(),
                    strings_view(all@) == variants_field_types(variants@.take(i as int)),
                decreases variants@.len() - i,
            {
                proof {
                    assert(variants@.take(i + 1).drop_last() =~= variants@.take(i as int));
                }
                push_field_types(&mut all, &variants[i].fields);
                i += 1;
            }
            proof {
                assert(variants@.take(i as int) =~= variants@);
            }
            dedup_strings(&all)
        },
        TypeData::Union(fields) => {
            let mut tys: Vec<String> = Vec::new();
            let mut i: usize = 0;
            proof {
                assert(fields@.take(0) =~= Seq::<UnionFieldDef>::empty());
                assert(strings_view(tys@) =~= Seq::<Seq<char>>::empty());
            }
            while i < fields.len()
                invariant
                    i <= fields@.len(),
                    strings_view(tys@) == union_field_types(fields@.take(i as int)),
                decreases fields@.len() - i,
            {
                proof {
                    assert(fields@.take(i + 1).drop_last() =~= fields@.take(i as int));
                }
                if !is_skipped(&fields[i].attrs) {
                    let ghost before = tys@;
                    let ty = fields[i].ty_text.clone();
                    tys.push(ty);
                    proof {
                        lemma_strings_view_push(before, ty);
                    }
                }
                i += 1;
            }
            proof {
                assert(fields@.take(i as int) =~= fields@);
            }
            tys
        },
    }
}

/// The predicate that `ty` implements `TypeSignature` through `crate_path`.
fn bound(ty: &String, crate_path: &str) -> (predicate: String)
    ensures
        predicate@ == bound_text(ty@, crate_path@),
{
    let mut predicate = ty.clone();
    predicate.append(": ");
    predicate.append(crate_path);
    predicate.append("::TypeSignature");
    predicate
}

/// Appends the predicates that each of `tys` implements `TypeSignature`.
fn push_bounds(out: &mut Vec<String>, tys: &Vec<String>, crate_path: &str)
    ensures
        strings_view(final(out)@) == strings_view(old(out)@) + bounds_text(
            strings_view(tys@),
            crate_path@,
        ),
{
    let ghost start = out@;
    let mut i: usize = 0;
    proof {
        assert(strings_view(out@) =~= strings_view(start) + bounds_text(
            strings_view(tys@).take(0),
            crate_path@,
        ));
    }
    while i < tys.len()
        invariant
            i <= tys@.len(),
            strings_view(out@) == strings_view(start) + bounds_text(
                strings_view(tys@).take(i as int),
                crate_path@,
            ),
        decreases tys@.len() - i,
    {
        let ghost before = out@;
        let predicate = bound(&tys[i], crate_path);
        out.push(predicate);
        proof {
            lemma_strings_view_push(before, predicate);
            assert(strings_view(out@) =~= strings_view(start) + bounds_text(
                strings_view(tys@).take(i + 1),
                crate_path@,
            ));
        }
        i += 1;
    }
    proof {
        assert(strings_view(tys@).take(i as int) =~= strings_view(tys@));
    }
}

impl TypeSignatureImpl {
    /// The predicates of the `where` clause of the impl that deriving emits: the type's own
    /// predicates; then that each type parameter implements `TypeSignature`; then that each
    /// bounded field type does.
    pub fn where_clause(&self) -> (predicates: Vec<String>)
        ensures
            strings_view(predicates@) == strings_view(self.where_predicates@) + bounds_text(
                strings_view(self.type_params@),
                crate_path_text(self.crate_path),
            ) + bounds_text(strings_view(self.generic_constraints@), crate_path_text(self.crate_path)),
    {
        let default_path = "::type_signature";
        let crate_path = match &self.crate_path {
            Some(path) => path.as_str(),
            None => default_path,
        };
        let mut predicates: Vec<String> = Vec::new();
        let mut i: usize = 0;
        proof {
            assert(strings_view(predicates@) =~= strings_view(self.where_predicates@).take(0));
        }
        while i < self.where_predicates.len()
            invariant
                i <= self.where_predicates@.len(),
                strings_view(predicates@) == strings_view(self.where_predicates@).take(i as int),
            decreases self.where_predicates@.len() - i,
        {
            let ghost before = predicates@;
            let copy = self.where_predicates[i].clone();
            predicates.push(copy);
            proof {
                lemma_strings_view_push(before, copy);
                assert(strings_view(predicates@) =~= strings_view(self.where_predicates@).take(
                    i + 1,
                ));
            }
            i += 1;
        }
        proof {
            assert(strings_view(self.where_predicates@).take(i as int) =~= strings_view(
                self.where_predicates@,
            ));
        }
        push_bounds(&mut predicates, &self.type_params, crate_path);
        push_bounds(&mut predicates, &self.generic_constraints, crate_path);
        predicates
    }
}


/// The message that the derive macro reports for an error.
pub open spec fn derive_error_message(error: DeriveError) -> Seq<char> {
    match error {
        DeriveError::UnrecognizedTypeAttribute(_) => "unrecognized type_signature attribute {attr:?}"@,
        DeriveError::UnrecognizedFieldAttribute(_) => "unrecognized type_signature attribute; expected `skip` or `rename = \"...\"`"@,
        DeriveError::ConstParamTypeNotIdent(_) => "TypeSignature derive only supports const generic parameters whose type is a simple identifier (e.g. `usize`, `bool`)"@,
        DeriveError::UnsupportedConstParamType(_) => "TypeSignature derive only supports const generic parameters of type `usize` or `bool`"@,
    }
}

impl DeriveError {
    /// The message that the derive macro reports for this error.
    pub fn message(&self) -> (message: String)
        ensures
            message@ == derive_error_message(*self),
    {
        match self {
            DeriveError::UnrecognizedTypeAttribute(_) => "unrecognized type_signature attribute {attr:?}".to_owned(),
            DeriveError::UnrecognizedFieldAttribute(_) => "unrecognized type_signature attribute; expected `skip` or `rename = \"...\"`".to_owned(),
            DeriveError::ConstParamTypeNotIdent(_) => "TypeSignature derive only supports const generic parameters whose type is a simple identifier (e.g. `usize`, `bool`)".to_owned(),
            DeriveError::UnsupportedConstParamType(_) => "TypeSignature derive only supports const generic parameters of type `usize` or `bool`".to_owned(),
        }
    }
}

/// Whether an attribute's path is `type_signature`, the only attribute that deriving reads.
pub fn is_type_signature_attribute(path: &String) -> (read: bool)
    ensures
        read == (path@ == "type_signature"@),
{
    path.eq(&"type_signature".to_owned())
}

/// What the key of an entry of a type's or a variant's attribute asks for.
pub enum TypeAttrKey {
    Rename,
    Crate,
    Unrecognized,
}

/// What the key of an entry of a field's attribute asks for.
pub enum FieldAttrKey {
    Skip,
    Rename,
    Unrecognized,
}

/// The meaning of a key in a type's or a variant's attribute.
pub open spec fn type_attr_key_meaning(key: Seq<char>) -> TypeAttrKey {
    if key == "rename"@ {
        TypeAttrKey::Rename
    } else if key == "crate"@ {
        TypeAttrKey::Crate
    } else {
        TypeAttrKey::Unrecognized
    }
}

/// The meaning of a key in a field's attribute.
pub open spec fn field_attr_key_meaning(key: Seq<char>) -> FieldAttrKey {
    if key == "skip"@ {
        FieldAttrKey::Skip
    } else if key == "rename"@ {
        FieldAttrKey::Rename
    } else {
        FieldAttrKey::Unrecognized
    }
}

/// Recognizes the key of an entry of a type's or a variant's attribute.
pub fn type_attr_key(key: &String) -> (meaning: TypeAttrKey)
    ensures
        meaning == type_attr_key_meaning(key@),
{
    if key.eq(&"rename".to_owned()) {
        TypeAttrKey::Rename
    } else if key.eq(&"crate".to_owned()) {
        TypeAttrKey::Crate
    } else {
        TypeAttrKey::Unrecognized
    }
}

/// Recognizes the key of an entry of a field's attribute.
pub fn field_attr_key(key: &String) -> (meaning: FieldAttrKey)
    ensures
        meaning == field_attr_key_meaning(key@),
{
    if key.eq(&"skip".to_owned()) {
        FieldAttrKey::Skip
    } else if key.eq(&"rename".to_owned()) {
        FieldAttrKey::Rename
    } else {
        FieldAttrKey::Unrecognized
    }
}

} // verus!
