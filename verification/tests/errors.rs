use variant_access::{GenerationError, VariantAccessError};

#[test]
fn the_error_of_an_extraction() {
    let error = VariantAccessError::wrong_active_field("Enum<T,X>", "i64");
    assert_eq!(error.enum_name(), "Enum<T,X>");
    assert_eq!(error.requested_type(), "i64");
    assert_eq!(
        error.message(),
        "Active field of enum <Enum<T,X>> is not of requested type <i64>"
    );
    assert_eq!(
        error.to_string(),
        "VariantAccessError :: Active field of enum <Enum<T,X>> is not of requested type <i64>"
    );
}

#[test]
fn the_error_of_a_query() {
    let error = VariantAccessError::invalid_type("Test", "alloc::string::String");
    assert_eq!(error.enum_name(), "Test");
    assert_eq!(error.requested_type(), "alloc::string::String");
    assert_eq!(
        error.message(),
        "Requested type <alloc::string::String> does not match the type of any field in enum <Test>"
    );
    assert_eq!(
        error.to_string(),
        "VariantAccessError :: Requested type <alloc::string::String> does not match the type of any field in enum <Test>"
    );
}

#[test]
fn the_two_errors_differ_on_the_same_names() {
    let wrong = VariantAccessError::wrong_active_field("", "");
    let invalid = VariantAccessError::invalid_type("", "");
    assert_eq!(
        wrong.message(),
        "Active field of enum <> is not of requested type <>"
    );
    assert_eq!(
        invalid.message(),
        "Requested type <> does not match the type of any field in enum <>"
    );
}

#[test]
fn each_refusal_has_its_sentence() {
    assert_eq!(
        GenerationError::NotAUnion.message(),
        "Can only derive VariantAccess for enums."
    );
    assert_eq!(
        GenerationError::NonStaticLifetime.message(),
        "VariantAccess can only be derived for types with static lifetimes"
    );
    assert_eq!(
        GenerationError::UnsupportedConstGeneric.message(),
        "VariantAccess does not currently support const generics"
    );
    assert_eq!(
        GenerationError::InvalidVariantShape.message(),
        "Can only derive for enums whose types do not contain multiple fields."
    );
    assert_eq!(
        GenerationError::NamedFieldsUnsupported.message(),
        "Cannot derive VariantAccess for enums whose types have named fields."
    );
    assert_eq!(
        GenerationError::UnsupportedFieldType.message(),
        "VariantAccess cannot be derived for enums with a field of this type"
    );
    assert_eq!(
        GenerationError::NonLiteralArrayLength.message(),
        "VariantAccess can't be derived on array types whose length is not expressed in terms of an integer literal"
    );
    assert_eq!(
        GenerationError::DuplicateFieldType.message(),
        "Cannot derive VariantAccess for enum with multiple fields of same type"
    );
    assert_eq!(
        GenerationError::TemplateFailed.message(),
        "Failed to fill in a template"
    );
}
