//! Type-directed access to the variants of a tagged union.
//!
//! The crate has two halves. The first is the trait surface through which a
//! union whose variants each carry one unnamed value is queried, read,
//! changed and built by the type of that value. The second is the generator
//! that, from the description of such a union, produces the text of the
//! implementations of that surface.

pub mod access;
pub mod canonical;
pub mod declaration;
pub mod emit;
pub mod error;
pub mod parse_enum;
pub mod plain;
pub mod render;
pub mod templates;
pub mod text;

pub use access::create_variant_from;
pub use access::ContainsVariant;
pub use access::CreateVariantFrom;
pub use access::GetVariant;
pub use access::SetVariant;
pub use declaration::ArrayLength;
pub use declaration::Fields;
pub use declaration::GenericParam;
pub use declaration::ItemKind;
pub use declaration::ParamKind;
pub use declaration::PathSegment;
pub use declaration::TypeExpr;
pub use declaration::UnionDeclaration;
pub use declaration::Variant;
pub use emit::impl_variant_access;
pub use error::GenerationError;
pub use error::VariantAccessError;
pub use parse_enum::create_marker_structs;
pub use parse_enum::fetch_name_with_generic_params;
pub use parse_enum::fetch_types_from_enum;
pub use parse_enum::VariantTypeMap;
pub use plain::HasVariant;
