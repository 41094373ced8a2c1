//! The surface in its plainest form: one query and one reader, which report
//! a failure without saying why.

use vstd::prelude::*;

verus! {

/// The query of a union for the type of its active variant. A type that no
/// variant carries is an error.
pub trait HasVariant {
    /// Whether a variant of the union carries a value of type `T`.
    open spec fn declares<T>(&self) -> bool {
        arbitrary()
    }

    /// Whether the active variant carries a value of type `T`.
    open spec fn holds<T>(&self) -> bool {
        arbitrary()
    }

    /// Tells whether the active variant carries a value of type `T`.
    fn has_variant<T>(&self) -> (found: Result<bool, ()>)
        ensures
            found is Ok <==> self.declares::<T>(),
            found == Ok::<bool, ()>(true) <==> self.holds::<T>(),
    ;
}

/// The reader of one variant: it lends the value of the active variant
/// where that is the variant of the implementation.
pub trait GetVariant<T> {
    /// The value of the active variant, where the active variant is the one
    /// of this implementation.
    open spec fn payload(&self) -> Option<T> {
        arbitrary()
    }

    /// Lends the value.
    fn get_variant(&self) -> (got: Result<&T, ()>)
        ensures
            self.payload() matches Some(value) ==> got == Ok::<&T, ()>(&value),
            self.payload() is None ==> got is Err,
    ;
}

} // verus!
