use std::any::TypeId;
use variant_access::access::{
    create_variant_from, ContainsVariant, CreateVariantFrom, GetVariant, SetVariant,
};
use variant_access::error::VariantAccessError;

#[derive(PartialEq, Debug)]
enum AmbiguousTest {
    F1(i32),
    F2(i64),
}

#[allow(dead_code)]
struct AmbiguousTestF1;
#[allow(dead_code)]
struct AmbiguousTestF2;

impl ContainsVariant for AmbiguousTest {
    fn has_variant<T: 'static>(&self) -> bool {
        if TypeId::of::<T>() == TypeId::of::<i32>() {
            return true;
        }
        if TypeId::of::<T>() == TypeId::of::<i64>() {
            return true;
        }
        false
    }

    fn contains_variant<T: 'static>(&self) -> Result<bool, VariantAccessError> {
        if self.has_variant::<T>() {
            match self {
                AmbiguousTest::F1(_) => Ok(TypeId::of::<i32>() == TypeId::of::<T>()),
                AmbiguousTest::F2(_) => Ok(TypeId::of::<i64>() == TypeId::of::<T>()),
            }
        } else {
            Err(VariantAccessError::invalid_type("AmbiguousTest", "T"))
        }
    }
}

impl GetVariant<i32, AmbiguousTestF1> for AmbiguousTest {
    fn get_variant(self) -> Result<i32, VariantAccessError> {
        match self {
            AmbiguousTest::F1(inner) => Ok(inner),
            _ => Err(VariantAccessError::wrong_active_field("AmbiguousTest", "i32")),
        }
    }

    fn get_variant_ref(&self) -> Result<&i32, VariantAccessError> {
        match &self {
            AmbiguousTest::F1(inner) => Ok(inner),
            _ => Err(VariantAccessError::wrong_active_field("AmbiguousTest", "i32")),
        }
    }

    fn get_variant_mut(&mut self) -> Result<&mut i32, VariantAccessError> {
        match self {
            AmbiguousTest::F1(inner) => Ok(inner),
            _ => Err(VariantAccessError::wrong_active_field("AmbiguousTest", "i32")),
        }
    }
}

impl GetVariant<i64, AmbiguousTestF2> for AmbiguousTest {
    fn get_variant(self) -> Result<i64, VariantAccessError> {
        match self {
            AmbiguousTest::F2(inner) => Ok(inner),
            _ => Err(VariantAccessError::wrong_active_field("AmbiguousTest", "i64")),
        }
    }

    fn get_variant_ref(&self) -> Result<&i64, VariantAccessError> {
        match &self {
            AmbiguousTest::F2(inner) => Ok(inner),
            _ => Err(VariantAccessError::wrong_active_field("AmbiguousTest", "i64")),
        }
    }

    fn get_variant_mut(&mut self) -> Result<&mut i64, VariantAccessError> {
        match self {
            AmbiguousTest::F2(inner) => Ok(inner),
            _ => Err(VariantAccessError::wrong_active_field("AmbiguousTest", "i64")),
        }
    }
}

impl SetVariant<i32, AmbiguousTestF1> for AmbiguousTest {
    fn set_variant(&mut self, value: i32) {
        *self = AmbiguousTest::F1(value);
    }
}

impl SetVariant<i64, AmbiguousTestF2> for AmbiguousTest {
    fn set_variant(&mut self, value: i64) {
        *self = AmbiguousTest::F2(value);
    }
}

impl CreateVariantFrom<i32, AmbiguousTestF1> for AmbiguousTest {
    fn create_variant_from(value: i32) -> Self {
        AmbiguousTest::F1(value)
    }
}

impl CreateVariantFrom<i64, AmbiguousTestF2> for AmbiguousTest {
    fn create_variant_from(value: i64) -> Self {
        AmbiguousTest::F2(value)
    }
}

#[derive(Debug, PartialEq)]
struct AmbiguousStruct {
    field: AmbiguousTest,
}

#[test]
fn test_set_variant_ambiguous() {
    let mut test = AmbiguousTest::F1(42);
    test.set_variant(42_i64);
    assert_eq!(test, AmbiguousTest::F2(42));
}

#[test]
fn test_trait_create_variant_from_ambiguous() {
    let test = AmbiguousTest::create_variant_from(42_i64);
    assert_eq!(test, AmbiguousTest::F2(42));
}

#[test]
fn test_func_create_variant_from_ambiguous() {
    let test = AmbiguousStruct {
        field: create_variant_from(42_i64),
    };
    assert_eq!(
        test,
        AmbiguousStruct {
            field: AmbiguousTest::F2(42)
        }
    );
}
