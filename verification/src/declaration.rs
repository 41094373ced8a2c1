//! The description of a union declaration that the generator reads.
//!
//! Each type has a model made of sequences and numbers, reached with `@`;
//! the contracts of the generator are stated over the models.

use vstd::prelude::*;

verus! {

/// The length of a fixed-size array type.
#[derive(Debug)]
pub enum ArrayLength {
    /// An integer literal, by its value.
    Literal(u64),
    /// Any other expression.
    Expression,
}

/// One segment of a path, with the generic arguments written behind it.
#[derive(Debug)]
pub struct PathSegment {
    pub ident: String,
    pub arguments: Vec<TypeExpr>,
}

/// The type that a variant declares for its value.
#[derive(Debug)]
pub enum TypeExpr {
    /// A named type: its path, segment by segment.
    Path(Vec<PathSegment>),
    /// A tuple of types.
    Tuple(Vec<TypeExpr>),
    /// An array of a fixed length.
    Array(Box<TypeExpr>, ArrayLength),
    /// Any other form: a reference, a trait object, a function pointer, an
    /// inferred or an `impl` type.
    Unsupported,
}

/// The fields of a variant.
#[derive(Debug)]
pub enum Fields {
    /// Unnamed fields, as in `F(i64)`; a variant without fields has none.
    Unnamed(Vec<TypeExpr>),
    /// Named fields, as in `F { x: i64 }`.
    Named,
}

/// One variant of the declaration.
#[derive(Debug)]
pub struct Variant {
    pub ident: String,
    pub fields: Fields,
}

/// The kind of a generic parameter.
#[derive(Debug, Clone, Copy, PartialEq, Eq, Structural)]
pub enum ParamKind {
    Lifetime,
    Type,
    Const,
}

/// One generic parameter. A lifetime is named without its apostrophe.
/// `bounds` is what the declaration writes behind the parameter's colon, for
/// a constant its type; it is written out again and never read.
#[derive(Debug)]
pub struct GenericParam {
    pub kind: ParamKind,
    pub ident: String,
    pub bounds: String,
}

/// The kind of the declared item.
#[derive(Debug, Clone, Copy, PartialEq, Eq, Structural)]
pub enum ItemKind {
    Enum,
    Struct,
    Union,
}

/// A declaration as the generator receives it. Only an `enum` has variants.
#[derive(Debug)]
pub struct UnionDeclaration {
    pub kind: ItemKind,
    pub ident: String,
    pub generics: Vec<GenericParam>,
    pub variants: Vec<Variant>,
}

/// The model of a [`PathSegment`].
pub ghost struct SegmentModel {
    pub ident: Seq<char>,
    pub arguments: Seq<TypeModel>,
}

/// The model of a [`TypeExpr`]; an array's length is `None` where it is no
/// literal.
pub ghost enum TypeModel {
    Path(Seq<SegmentModel>),
    Tuple(Seq<TypeModel>),
    Array(Box<TypeModel>, Option<nat>),
    Unsupported,
}

/// The model of [`Fields`].
pub ghost enum FieldsModel {
    Unnamed(Seq<TypeModel>),
    Named,
}

/// The model of a [`Variant`].
pub ghost struct VariantModel {
    pub ident: Seq<char>,
    pub fields: FieldsModel,
}

/// The model of a [`GenericParam`].
pub ghost struct ParamModel {
    pub kind: ParamKind,
    pub ident: Seq<char>,
    pub bounds: Seq<char>,
}

/// The model of a [`UnionDeclaration`].
pub ghost struct DeclarationModel {
    pub kind: ItemKind,
    pub ident: Seq<char>,
    pub generics: Seq<ParamModel>,
    pub variants: Seq<VariantModel>,
}

/// The model of a segment.
pub open spec fn segment_model(segment: PathSegment) -> SegmentModel
    decreases segment,
{
    SegmentModel { ident: segment.ident@, arguments: type_models(segment.arguments) }
}

/// The models of the types of a vector, in its order.
pub open spec fn type_models(types: Vec<TypeExpr>) -> Seq<TypeModel>
    decreases types,
{
    Seq::new(
        types.len() as nat,
        |i: int|
            if 0 <= i < types.len() {
                type_model(types[i])
            } else {
                arbitrary()
            },
    )
}

/// The models of the segments of a vector, in its order.
pub open spec fn segment_models(segments: Vec<PathSegment>) -> Seq<SegmentModel>
    decreases segments,
{
    Seq::new(
        segments.len() as nat,
        |i: int|
            if 0 <= i < segments.len() {
                segment_model(segments[i])
            } else {
                arbitrary()
            },
    )
}

/// The model of a type.
pub open spec fn type_model(ty: TypeExpr) -> TypeModel
    decreases ty,
{
    match ty {
        TypeExpr::Path(segments) => TypeModel::Path(segment_models(segments)),
        TypeExpr::Tuple(elems) => TypeModel::Tuple(type_models(elems)),
        TypeExpr::Array(elem, len) => TypeModel::Array(Box::new(type_model(*elem)), len@),
        TypeExpr::Unsupported => TypeModel::Unsupported,
    }
}

impl View for ArrayLength {
    type V = Option<nat>;

    open spec fn view(&self) -> Option<nat> {
        match self {
            ArrayLength::Literal(n) => Some(*n as nat),
            ArrayLength::Expression => None,
        }
    }
}

impl View for PathSegment {
    type V = SegmentModel;

    open spec fn view(&self) -> SegmentModel {
        segment_model(*self)
    }
}

impl View for TypeExpr {
    type V = TypeModel;

    open spec fn view(&self) -> TypeModel {
        type_model(*self)
    }
}

impl View for Fields {
    type V = FieldsModel;

    open spec fn view(&self) -> FieldsModel {
        match self {
            Fields::Unnamed(types) => FieldsModel::Unnamed(type_models(*types)),
            Fields::Named => FieldsModel::Named,
        }
    }
}

impl View for Variant {
    type V = VariantModel;

    open spec fn view(&self) -> VariantModel {
        VariantModel { ident: self.ident@, fields: self.fields@ }
    }
}

impl View for GenericParam {
    type V = ParamModel;

    open spec fn view(&self) -> ParamModel {
        ParamModel { kind: self.kind, ident: self.ident@, bounds: self.bounds@ }
    }
}

impl View for UnionDeclaration {
    type V = DeclarationModel;

    open spec fn view(&self) -> DeclarationModel {
        DeclarationModel {
            kind: self.kind,
            ident: self.ident@,
            generics: self.generics@.map_values(|param: GenericParam| param@),
            variants: self.variants@.map_values(|variant: Variant| variant@),
        }
    }
}

} // verus!
