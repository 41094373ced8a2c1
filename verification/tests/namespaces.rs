use std::any::TypeId;
use variant_access::{ContainsVariant, VariantAccessError};

/// Stands for `Complex` of the outer module.
#[derive(Debug, PartialEq)]
pub struct Complex {
    field_one: bool,
    field_two: f64,
}

/// Stands for `Complex` of the module `namespace`: the same fields under the
/// same name elsewhere.
#[derive(Debug, PartialEq)]
pub struct NamespaceComplex {
    pub field_one: bool,
    pub field_two: f64,
}

#[derive(PartialEq, Debug)]
pub enum ComplexEnum {
    F1(NamespaceComplex),
    F2(Complex),
}

impl ContainsVariant for ComplexEnum {
    fn has_variant<T: 'static>(&self) -> bool {
        if TypeId::of::<T>() == TypeId::of::<NamespaceComplex>() {
            return true;
        }
        if TypeId::of::<T>() == TypeId::of::<Complex>() {
            return true;
        }
        false
    }

    fn contains_variant<T: 'static>(&self) -> Result<bool, VariantAccessError> {
        if self.has_variant::<T>() {
            match self {
                ComplexEnum::F1(_) => Ok(TypeId::of::<NamespaceComplex>() == TypeId::of::<T>()),
                ComplexEnum::F2(_) => Ok(TypeId::of::<Complex>() == TypeId::of::<T>()),
            }
        } else {
            Err(VariantAccessError::invalid_type("ComplexEnum", "T"))
        }
    }
}

#[test]
fn test_correct_namespace_resolution() {
    let complex = ComplexEnum::F1(NamespaceComplex {
        field_one: true,
        field_two: 2.0,
    });
    assert!(complex.has_variant::<NamespaceComplex>());
    let value = complex
        .contains_variant::<NamespaceComplex>()
        .expect("Test failed");
    assert!(value);

    assert!(complex.has_variant::<Complex>());
    let value = complex.contains_variant::<Complex>().expect("Test failed");
    assert!(!value);
}
