//! The shape of a type declaration, as the derivation reads it.
//!
//! A front end that has parsed a declaration hands its names and types over as source
//! text. The derivation never looks inside a name or a type: it only decides where each
//! one goes.

use vstd::prelude::*;

use crate::effect_derive::text::{decimal, lemma_decimal_injective};

verus! {

/// One named field of a struct or of an enum variant.
#[derive(Clone, Debug, PartialEq, Eq)]
pub struct Field {
    /// The field's name.
    pub ident: String,
    /// The field's type.
    pub ty: String,
}

/// The fields of a struct or of an enum variant.
#[derive(Clone, Debug, PartialEq, Eq)]
pub enum Fields {
    /// Fields in braces, found by name: `{ a: A, b: B }`.
    Named(Vec<Field>),
    /// Fields in parentheses, found by position: `(A, B)`. Only their types are written.
    Unnamed(Vec<String>),
    /// No field list at all.
    Unit,
}

/// One variant of an enum.
#[derive(Clone, Debug, PartialEq, Eq)]
pub struct Variant {
    /// The variant's name.
    pub ident: String,
    /// The variant's fields.
    pub fields: Fields,
}

/// The body of a struct declaration.
#[derive(Clone, Debug, PartialEq, Eq)]
pub struct DataStruct {
    /// The struct's fields.
    pub fields: Fields,
}

/// The body of an enum declaration.
#[derive(Clone, Debug, PartialEq, Eq)]
pub struct DataEnum {
    /// The enum's variants, in declaration order.
    pub variants: Vec<Variant>,
}

/// The body of a type declaration.
#[derive(Clone, Debug, PartialEq, Eq)]
pub enum Data {
    /// A struct.
    Struct(DataStruct),
    /// An enum.
    Enum(DataEnum),
    /// A union. Its fields share their storage, so no effect can be derived for it.
    Union,
}

/// A lifetime parameter, such as `'a: 'b`.
#[derive(Clone, Debug, PartialEq, Eq)]
pub struct LifetimeParam {
    /// The lifetime, apostrophe included.
    pub lifetime: String,
    /// The lifetimes it must outlive.
    pub bounds: Vec<String>,
}

/// A type parameter, such as `T: Clone = u8`.
#[derive(Clone, Debug, PartialEq, Eq)]
pub struct TypeParam {
    /// The parameter's name.
    pub ident: String,
    /// The bounds on the parameter.
    pub bounds: Vec<String>,
    /// The parameter's default, if it has one.
    pub default: Option<String>,
}

/// A const parameter, such as `const N: usize = 4`.
#[derive(Clone, Debug, PartialEq, Eq)]
pub struct ConstParam {
    /// The parameter's name.
    pub ident: String,
    /// The parameter's type.
    pub ty: String,
    /// The parameter's default, if it has one.
    pub default: Option<String>,
}

/// One generic parameter of a declaration.
#[derive(Clone, Debug, PartialEq, Eq)]
pub enum GenericParam {
    /// A lifetime parameter.
    Lifetime(LifetimeParam),
    /// A type parameter.
    Type(TypeParam),
    /// A const parameter.
    Const(ConstParam),
}

/// The generic parameters of a declaration and its `where` clause.
#[derive(Clone, Debug, PartialEq, Eq)]
pub struct Generics {
    /// The parameters, in declaration order.
    pub params: Vec<GenericParam>,
    /// The predicates of the `where` clause, without the keyword.
    pub where_clause: Option<String>,
}

/// A type declaration that an effect is derived for.
#[derive(Clone, Debug, PartialEq, Eq)]
pub struct DeriveInput {
    /// The type's name.
    pub ident: String,
    /// The type's generic parameters.
    pub generics: Generics,
    /// The type's body.
    pub data: Data,
}

/// Why no effect could be derived for a declaration.
#[derive(Clone, Copy, Debug, PartialEq, Eq)]
pub enum DeriveError {
    /// The declaration is a union.
    Union,
}

/// The view of an optional piece of source text.
pub open spec fn text_option(text: Option<String>) -> Option<Seq<char>> {
    match text {
        Some(text) => Some(text@),
        None => None,
    }
}

/// The view of a list of pieces of source text.
pub open spec fn text_list(texts: Vec<String>) -> Seq<Seq<char>> {
    Seq::new(texts@.len(), |i: int| texts@[i]@)
}

/// What the derivation reads of a [`Field`].
pub struct FieldView {
    pub ident: Seq<char>,
    pub ty: Seq<char>,
}

impl View for Field {
    type V = FieldView;

    open spec fn view(&self) -> FieldView {
        FieldView { ident: self.ident@, ty: self.ty@ }
    }
}

/// The views of a list of fields.
pub open spec fn field_list(fields: Vec<Field>) -> Seq<FieldView> {
    Seq::new(fields@.len(), |i: int| fields@[i]@)
}

/// What the derivation reads of a [`Fields`].
pub enum FieldsView {
    Named(Seq<FieldView>),
    Unnamed(Seq<Seq<char>>),
    Unit,
}

impl View for Fields {
    type V = FieldsView;

    open spec fn view(&self) -> FieldsView {
        match self {
            Fields::Named(fields) => FieldsView::Named(field_list(*fields)),
            Fields::Unnamed(types) => FieldsView::Unnamed(text_list(*types)),
            Fields::Unit => FieldsView::Unit,
        }
    }
}

/// The name that the field at position `index` of a tuple struct or tuple variant is
/// bound to: `f0`, `f1`, and so on.
pub open spec fn unnamed_field_ident(index: nat) -> Seq<char> {
    "f"@ + decimal(index)
}

impl FieldsView {
    /// How many fields there are.
    pub open spec fn len(self) -> nat {
        match self {
            FieldsView::Named(fields) => fields.len(),
            FieldsView::Unnamed(types) => types.len(),
            FieldsView::Unit => 0,
        }
    }

    /// The types of the fields, in declaration order.
    pub open spec fn types(self) -> Seq<Seq<char>> {
        match self {
            FieldsView::Named(fields) => Seq::new(fields.len(), |i: int| fields[i].ty),
            FieldsView::Unnamed(types) => types,
            FieldsView::Unit => Seq::empty(),
        }
    }

    /// The names that the fields are bound to when a value is taken apart, in declaration
    /// order: a named field keeps its name, an unnamed one is called after its position.
    pub open spec fn idents(self) -> Seq<Seq<char>> {
        match self {
            FieldsView::Named(fields) => Seq::new(fields.len(), |i: int| fields[i].ident),
            FieldsView::Unnamed(types) => Seq::new(
                types.len(),
                |i: int| unnamed_field_ident(i as nat),
            ),
            FieldsView::Unit => Seq::empty(),
        }
    }
}

/// What the derivation reads of a [`Variant`].
pub struct VariantView {
    pub ident: Seq<char>,
    pub fields: FieldsView,
}

impl View for Variant {
    type V = VariantView;

    open spec fn view(&self) -> VariantView {
        VariantView { ident: self.ident@, fields: self.fields@ }
    }
}

/// The views of a list of variants.
pub open spec fn variant_list(variants: Vec<Variant>) -> Seq<VariantView> {
    Seq::new(variants@.len(), |i: int| variants@[i]@)
}

impl View for DataStruct {
    type V = FieldsView;

    open spec fn view(&self) -> FieldsView {
        self.fields@
    }
}

impl View for DataEnum {
    type V = Seq<VariantView>;

    open spec fn view(&self) -> Seq<VariantView> {
        variant_list(self.variants)
    }
}

/// What the derivation reads of a [`Data`].
pub enum DataView {
    Struct(FieldsView),
    Enum(Seq<VariantView>),
    Union,
}

impl View for Data {
    type V = DataView;

    open spec fn view(&self) -> DataView {
        match self {
            Data::Struct(data) => DataView::Struct(data@),
            Data::Enum(data) => DataView::Enum(data@),
            Data::Union => DataView::Union,
        }
    }
}

/// What the derivation reads of a [`LifetimeParam`].
pub struct LifetimeParamView {
    pub lifetime: Seq<char>,
    pub bounds: Seq<Seq<char>>,
}

impl View for LifetimeParam {
    type V = LifetimeParamView;

    open spec fn view(&self) -> LifetimeParamView {
        LifetimeParamView { lifetime: self.lifetime@, bounds: text_list(self.bounds) }
    }
}

/// What the derivation reads of a [`TypeParam`].
pub struct TypeParamView {
    pub ident: Seq<char>,
    pub bounds: Seq<Seq<char>>,
    pub default: Option<Seq<char>>,
}

impl View for TypeParam {
    type V = TypeParamView;

    open spec fn view(&self) -> TypeParamView {
        TypeParamView {
            ident: self.ident@,
            bounds: text_list(self.bounds),
            default: text_option(self.default),
        }
    }
}

/// What the derivation reads of a [`ConstParam`].
pub struct ConstParamView {
    pub ident: Seq<char>,
    pub ty: Seq<char>,
    pub default: Option<Seq<char>>,
}

impl View for ConstParam {
    type V = ConstParamView;

    open spec fn view(&self) -> ConstParamView {
        ConstParamView { ident: self.ident@, ty: self.ty@, default: text_option(self.default) }
    }
}

/// What the derivation reads of a [`GenericParam`].
pub enum GenericParamView {
    Lifetime(LifetimeParamView),
    Type(TypeParamView),
    Const(ConstParamView),
}

impl View for GenericParam {
    type V = GenericParamView;

    open spec fn view(&self) -> GenericParamView {
        match self {
            GenericParam::Lifetime(param) => GenericParamView::Lifetime(param@),
            GenericParam::Type(param) => GenericParamView::Type(param@),
            GenericParam::Const(param) => GenericParamView::Const(param@),
        }
    }
}

/// The views of a list of generic parameters.
pub open spec fn generic_param_list(params: Vec<GenericParam>) -> Seq<GenericParamView> {
    Seq::new(params@.len(), |i: int| params@[i]@)
}

/// What the derivation reads of a [`Generics`].
pub struct GenericsView {
    pub params: Seq<GenericParamView>,
    pub where_clause: Option<Seq<char>>,
}

impl View for Generics {
    type V = GenericsView;

    open spec fn view(&self) -> GenericsView {
        GenericsView {
            params: generic_param_list(self.params),
            where_clause: text_option(self.where_clause),
        }
    }
}

/// What the derivation reads of a [`DeriveInput`].
pub struct DeriveInputView {
    pub ident: Seq<char>,
    pub generics: GenericsView,
    pub data: DataView,
}

impl View for DeriveInput {
    type V = DeriveInputView;

    open spec fn view(&self) -> DeriveInputView {
        DeriveInputView { ident: self.ident@, generics: self.generics@, data: self.data@ }
    }
}

/// Unnamed fields at different positions are bound to different names.
pub proof fn lemma_unnamed_field_idents_differ(index: nat, other: nat)
    requires
        unnamed_field_ident(index) == unnamed_field_ident(other),
    ensures
        index == other,
{
    reveal_strlit("f");
    let ident = unnamed_field_ident(index);
    assert(ident.subrange(1, ident.len() as int) =~= decimal(index));
    assert(ident.subrange(1, ident.len() as int) =~= decimal(other));
    lemma_decimal_injective(index, other);
}

} // verus!
