//! The trait surface: querying, reading, changing and building a union by the
//! type of the value that a variant carries.
//!
//! The traits are for unions to implement: the queries once for a union,
//! each other trait once for each variant. A contract is stated over spec
//! functions of the implementation: `payload` for a variant, `declares` and
//! `holds` for the queries. An implementation written in Verus defines
//! `payload` and is held to the contracts of the readers, the setter and the
//! constructor. The queries tell types apart by their identity, which has no
//! counterpart in a specification: `declares` and `holds` stand for what an
//! implementation decides, and the contract of the queries relates the two
//! answers to them and to each other. Of an implementation in plain Rust,
//! such as a generated one, every contract says what it is meant to do.

use vstd::prelude::*;
use crate::error::AccessErrorModel;
use crate::error::VariantAccessError;
use crate::error::invalid_type_model;
use crate::error::wrong_active_field_model;

verus! {

/// Whether `error` is the record of an extraction that met another variant
/// than the one asked for, whatever the names in it.
pub open spec fn is_wrong_active_field(error: AccessErrorModel) -> bool {
    error == wrong_active_field_model(error.enum_name, error.requested_type)
}

/// Whether `error` is the record of a query for a type that no variant
/// carries, whatever the names in it.
pub open spec fn is_invalid_type(error: AccessErrorModel) -> bool {
    error == invalid_type_model(error.enum_name, error.requested_type)
}

/// The queries of a union: whether one of its variants carries a value of a
/// given type, and whether the active one does. Types are told apart by
/// their identity, not by their names.
///
/// For `enum Enum { F1(i64), F2(bool) }`, `has_variant::<i64>()` is true and
/// `has_variant::<i32>()` is false; on `Enum::F1(42)`,
/// `contains_variant::<i64>()` is `Ok(true)`, `contains_variant::<bool>()`
/// is `Ok(false)` and `contains_variant::<i32>()` is an error.
pub trait ContainsVariant {
    /// Whether a variant of the union carries a value of type `T`.
    open spec fn declares<T>(&self) -> bool {
        arbitrary()
    }

    /// Whether the active variant carries a value of type `T`.
    open spec fn holds<T>(&self) -> bool {
        arbitrary()
    }

    /// Tells whether a variant of the union carries a value of type `T`.
    fn has_variant<T: 'static>(&self) -> (found: bool)
        ensures
            found == self.declares::<T>(),
    ;

    /// Tells whether the active variant carries a value of type `T`. A type
    /// that no variant carries is an error.
    fn contains_variant<T: 'static>(&self) -> (found: Result<bool, VariantAccessError>)
        ensures
            found is Ok <==> self.declares::<T>(),
            found == Ok::<bool, VariantAccessError>(true) <==> self.holds::<T>(),
            found matches Err(error) ==> is_invalid_type(error@),
    ;
}

/// The readers of one variant: they hand out the value of the active
/// variant where that is the variant of the implementation, and fail
/// otherwise.
///
/// `Marker` keeps the implementations for two variants apart where their
/// types could coincide, as for a union with more than one type parameter.
///
/// For `enum Enum { F1(i64), F2(bool) }`, `get_variant_ref` on
/// `Enum::F1(42)` gives `&42` as a `&i64` and an error as a `&bool`.
pub trait GetVariant<T, Marker = ()> {
    /// The value of the active variant, where the active variant is the one
    /// of this implementation.
    open spec fn payload(&self) -> Option<T> {
        arbitrary()
    }

    /// Takes the value out of the union.
    fn get_variant(self) -> (got: Result<T, VariantAccessError>)
        ensures
            self.payload() matches Some(value) ==> got == Ok::<T, VariantAccessError>(value),
            self.payload() is None ==> got is Err,
            got matches Err(error) ==> is_wrong_active_field(error@),
    ;

    /// Lends the value.
    fn get_variant_ref(&self) -> (got: Result<&T, VariantAccessError>)
        ensures
            self.payload() matches Some(value) ==> got == Ok::<&T, VariantAccessError>(&value),
            self.payload() is None ==> got is Err,
            got matches Err(error) ==> is_wrong_active_field(error@),
    ;

    /// Lends the value for writing: what is written is the value of the
    /// variant from then on. A failure leaves the union as it was.
    fn get_variant_mut(&mut self) -> (got: Result<&mut T, VariantAccessError>) where Self: Sized
        ensures
            old(self).payload() matches Some(value) ==> got is Ok && *got->Ok_0 == value
                && final(self).payload() == Some(*final(got->Ok_0)),
            old(self).payload() is None ==> got is Err && *final(self) == *old(self),
            got matches Err(error) ==> is_wrong_active_field(error@),
    ;
}

/// The change of the active variant by a value: the variant of the
/// implementation becomes the active one and carries the value. The type of
/// the value picks the implementation, so a value of a type that no variant
/// carries does not compile.
///
/// For `enum Enum { F1(i64), F2(bool) }`, `set_variant(false)` on
/// `Enum::F1(42)` leaves `Enum::F2(false)`.
pub trait SetVariant<T, Marker = ()>: GetVariant<T, Marker> {
    /// Makes the variant the active one, with `value`.
    fn set_variant(&mut self, value: T)
        ensures
            final(self).payload() == Some(value),
    ;
}

/// The construction of a union from a value: the variant of the
/// implementation is the active one and carries the value.
///
/// For `enum Enum { F1(i64), F2(bool) }`, `Enum::create_variant_from(false)`
/// is `Enum::F2(false)`.
pub trait CreateVariantFrom<T, Marker = ()>: GetVariant<T, Marker> + Sized {
    /// Makes the union with the variant active and `value` in it.
    fn create_variant_from(value: T) -> (made: Self)
        ensures
            made.payload() == Some(value),
    ;
}

/// Makes a union from a value without naming the union's type: the place
/// where the result goes decides it.
pub fn create_variant_from<T: CreateVariantFrom<U, Marker>, Marker, U>(value: U) -> (made: T)
    ensures
        made.payload() == Some(value),
{
    T::create_variant_from(value)
}

/// A value is read back as it was stored: where a union holds `value` in a
/// variant, as it does after `set_variant` and after `create_variant_from`,
/// `get_variant_ref` for that variant lends it.
pub proof fn law_stored_value_is_read_back<U, T, Marker>(
    union: U,
    value: T,
    got: Result<&T, VariantAccessError>,
) where U: GetVariant<T, Marker>
    requires
        union.payload() == Some(value),
        call_ensures(<U as GetVariant<T, Marker>>::get_variant_ref, (&union,), got),
    ensures
        got == Ok::<&T, VariantAccessError>(&value),
{
}

/// Construction and reading go round: whatever `create_variant_from` makes
/// of `value`, `get_variant_ref` for the same variant lends `value`.
pub proof fn law_created_value_is_read_back<U, T, Marker>(
    value: T,
    made: U,
    got: Result<&T, VariantAccessError>,
) where U: CreateVariantFrom<T, Marker>
    requires
        call_ensures(<U as CreateVariantFrom<T, Marker>>::create_variant_from, (value,), made),
        call_ensures(<U as GetVariant<T, Marker>>::get_variant_ref, (&made,), got),
    ensures
        got == Ok::<&T, VariantAccessError>(&value),
{
}

/// Whether the readers of a variant and the queries of the union agree on
/// `union`: where the variant is the active one, its type is the type of the
/// active variant. The generated implementations are made so.
pub open spec fn coherent<U, T, Marker>(union: U) -> bool where
    U: GetVariant<T, Marker> + ContainsVariant,
{
    union.payload() is Some ==> union.holds::<T>()
}

/// A union that was made from a value of type `T` contains a `T`: where the
/// readers and the queries agree on it, the containment query for `T`
/// answers `Ok(true)` and the membership query answers `true`.
pub proof fn law_created_variant_is_contained<U, T: 'static, Marker>(
    value: T,
    made: U,
    contained: Result<bool, VariantAccessError>,
    declared: bool,
) where U: CreateVariantFrom<T, Marker> + ContainsVariant
    requires
        coherent::<U, T, Marker>(made),
        call_ensures(<U as CreateVariantFrom<T, Marker>>::create_variant_from, (value,), made),
        call_ensures(<U as ContainsVariant>::contains_variant::<T>, (&made,), contained),
        call_ensures(<U as ContainsVariant>::has_variant::<T>, (&made,), declared),
    ensures
        contained == Ok::<bool, VariantAccessError>(true),
        declared,
{
}

/// The two queries agree: the containment query fails for exactly the types
/// for which the membership query answers `false`, and then with the error
/// of an invalid type.
pub proof fn law_queries_agree<U: ContainsVariant, T: 'static>(
    union: U,
    declared: bool,
    contained: Result<bool, VariantAccessError>,
)
    requires
        call_ensures(<U as ContainsVariant>::has_variant::<T>, (&union,), declared),
        call_ensures(<U as ContainsVariant>::contains_variant::<T>, (&union,), contained),
    ensures
        declared <==> contained is Ok,
        !declared ==> (contained matches Err(error) && is_invalid_type(error@)),
{
}

/// A type that a variant carries, but not the active one, is not contained:
/// the containment query answers `Ok(false)`.
pub proof fn law_other_type_is_not_contained<U: ContainsVariant, T: 'static>(
    union: U,
    contained: Result<bool, VariantAccessError>,
)
    requires
        union.declares::<T>(),
        !union.holds::<T>(),
        call_ensures(<U as ContainsVariant>::contains_variant::<T>, (&union,), contained),
    ensures
        contained == Ok::<bool, VariantAccessError>(false),
{
    assert(contained is Ok);
    assert(contained == Ok::<bool, VariantAccessError>(contained->Ok_0));
}

/// An extraction that meets another variant fails, and with the error of a
/// wrong active field: where the union holds nothing in the variant of the
/// implementation, `get_variant_ref` gives that error.
pub proof fn law_other_variant_is_refused<U, T, Marker>(
    union: U,
    got: Result<&T, VariantAccessError>,
) where U: GetVariant<T, Marker>
    requires
        union.payload() is None,
        call_ensures(<U as GetVariant<T, Marker>>::get_variant_ref, (&union,), got),
    ensures
        got matches Err(error) && is_wrong_active_field(error@),
{
}

/// No error is of both kinds: the two sentences begin differently.
pub proof fn law_error_kinds_differ(error: AccessErrorModel)
    ensures
        !(is_wrong_active_field(error) && is_invalid_type(error)),
{
    reveal_strlit("Active field of enum <");
    reveal_strlit("Requested type <");
    if is_wrong_active_field(error) && is_invalid_type(error) {
        let wrong = crate::error::wrong_active_field_message(
            error.enum_name,
            error.requested_type,
        );
        let invalid = crate::error::invalid_type_message(error.enum_name, error.requested_type);
        assert(wrong[0] == 'A');
        assert(invalid[0] == 'R');
        assert(error.msg == wrong);
        assert(error.msg == invalid);
    }
}

} // verus!
