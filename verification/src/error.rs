//! The errors of the crate: what the access traits return at run time, and
//! why the generator rejects a declaration.

use vstd::prelude::*;

verus! {

/// What a [`VariantAccessError`] records, as plain text.
pub ghost struct AccessErrorModel {
    /// The full name of the union that was asked.
    pub enum_name: Seq<char>,
    /// The name of the type that was asked for.
    pub requested_type: Seq<char>,
    /// The sentence that explains the failure.
    pub msg: Seq<char>,
}

/// The failure of a query or an extraction. It keeps the name of the union
/// and of the requested type that produced it.
#[derive(Debug)]
pub struct VariantAccessError {
    enum_name: String,
    requested_type: String,
    msg: String,
}

impl View for VariantAccessError {
    type V = AccessErrorModel;

    closed spec fn view(&self) -> AccessErrorModel {
        AccessErrorModel {
            enum_name: self.enum_name@,
            requested_type: self.requested_type@,
            msg: self.msg@,
        }
    }
}

/// The sentence of an extraction that met another variant than the one asked
/// for.
pub open spec fn wrong_active_field_message(
    enum_name: Seq<char>,
    requested_type: Seq<char>,
) -> Seq<char> {
    "Active field of enum <"@ + enum_name + "> is not of requested type <"@ + requested_type
        + ">"@
}

/// The sentence of a containment query for a type that no variant carries.
pub open spec fn invalid_type_message(enum_name: Seq<char>, requested_type: Seq<char>) -> Seq<
    char,
> {
    "Requested type <"@ + requested_type + "> does not match the type of any field in enum <"@
        + enum_name + ">"@
}

/// The record of an extraction that met another variant than the one asked
/// for.
pub open spec fn wrong_active_field_model(
    enum_name: Seq<char>,
    requested_type: Seq<char>,
) -> AccessErrorModel {
    AccessErrorModel {
        enum_name,
        requested_type,
        msg: wrong_active_field_message(enum_name, requested_type),
    }
}

/// The record of a containment query for a type that no variant carries.
pub open spec fn invalid_type_model(
    enum_name: Seq<char>,
    requested_type: Seq<char>,
) -> AccessErrorModel {
    AccessErrorModel {
        enum_name,
        requested_type,
        msg: invalid_type_message(enum_name, requested_type),
    }
}

/// What [`VariantAccessError::to_string`] shows for a record.
pub open spec fn displayed(model: AccessErrorModel) -> Seq<char> {
    "VariantAccessError :: "@ + model.msg
}

impl VariantAccessError {
    /// Makes the error of an extraction that found another variant active
    /// than the one that carries `requested_type`.
    pub fn wrong_active_field(enum_name: &str, requested_type: &str) -> (error: VariantAccessError)
        ensures
            error@ == wrong_active_field_model(enum_name@, requested_type@),
    {
        let mut msg = String::from_str("Active field of enum <");
        msg.append(enum_name);
        msg.append("> is not of requested type <");
        msg.append(requested_type);
        msg.append(">");
        VariantAccessError {
            enum_name: String::from_str(enum_name),
            requested_type: String::from_str(requested_type),
            msg,
        }
    }

    /// Makes the error of a containment query for a type that none of the
    /// union's variants carries.
    pub fn invalid_type(enum_name: &str, requested_type: &str) -> (error: VariantAccessError)
        ensures
            error@ == invalid_type_model(enum_name@, requested_type@),
    {
        let mut msg = String::from_str("Requested type <");
        msg.append(requested_type);
        msg.append("> does not match the type of any field in enum <");
        msg.append(enum_name);
        msg.append(">");
        VariantAccessError {
            enum_name: String::from_str(enum_name),
            requested_type: String::from_str(requested_type),
            msg,
        }
    }

    /// The full name of the union that was asked.
    pub fn enum_name(&self) -> (name: &str)
        ensures
            name@ == self@.enum_name,
    {
        self.enum_name.as_str()
    }

    /// The name of the type that was asked for.
    pub fn requested_type(&self) -> (name: &str)
        ensures
            name@ == self@.requested_type,
    {
        self.requested_type.as_str()
    }

    /// The sentence that explains the failure.
    pub fn message(&self) -> (msg: &str)
        ensures
            msg@ == self@.msg,
    {
        self.msg.as_str()
    }

    /// The text under which the error is shown.
    pub fn to_string(&self) -> (shown: String)
        ensures
            shown@ == displayed(self@),
    {
        let mut shown = String::from_str("VariantAccessError :: ");
        shown.append(self.msg.as_str());
        shown
    }
}

/// Why the generator produced nothing for a declaration.
#[derive(Debug, Clone, Copy, PartialEq, Eq, Structural)]
pub enum GenerationError {
    /// The declaration is no `enum`.
    NotAUnion,
    /// A lifetime parameter is not `'static`.
    NonStaticLifetime,
    /// The declaration has a const parameter.
    UnsupportedConstGeneric,
    /// A variant has no unnamed field, or more than one.
    InvalidVariantShape,
    /// A variant has named fields.
    NamedFieldsUnsupported,
    /// A variant's type is, or holds, something else than a path, a tuple
    /// or an array.
    UnsupportedFieldType,
    /// The length of an array is no integer literal.
    NonLiteralArrayLength,
    /// Two variants carry the same type.
    DuplicateFieldType,
    /// The template engine could not fill in a template.
    TemplateFailed,
}

/// A text or a reason, with the text as a sequence of characters.
pub open spec fn text_or_reason(out: Result<String, GenerationError>) -> Result<
    Seq<char>,
    GenerationError,
> {
    match out {
        Ok(text) => Ok(text@),
        Err(error) => Err(error),
    }
}

/// The sentence that belongs to each reason.
pub open spec fn generation_message(error: GenerationError) -> Seq<char> {
    match error {
        GenerationError::NotAUnion => "Can only derive VariantAccess for enums."@,
        GenerationError::NonStaticLifetime => "VariantAccess can only be derived for types with static lifetimes"@,
        GenerationError::UnsupportedConstGeneric => "VariantAccess does not currently support const generics"@,
        GenerationError::InvalidVariantShape => "Can only derive for enums whose types do not contain multiple fields."@,
        GenerationError::NamedFieldsUnsupported => "Cannot derive VariantAccess for enums whose types have named fields."@,
        GenerationError::UnsupportedFieldType => "VariantAccess cannot be derived for enums with a field of this type"@,
        GenerationError::NonLiteralArrayLength => "VariantAccess can't be derived on array types whose length is not expressed in terms of an integer literal"@,
        GenerationError::DuplicateFieldType => "Cannot derive VariantAccess for enum with multiple fields of same type"@,
        GenerationError::TemplateFailed => "Failed to fill in a template"@,
    }
}

impl GenerationError {
    /// The sentence with which the failure is reported.
    pub fn message(&self) -> (msg: &'static str)
        ensures
            msg@ == generation_message(*self),
    {
        match self {
            GenerationError::NotAUnion => "Can only derive VariantAccess for enums.",
            GenerationError::NonStaticLifetime => "VariantAccess can only be derived for types with static lifetimes",
            GenerationError::UnsupportedConstGeneric => "VariantAccess does not currently support const generics",
            GenerationError::InvalidVariantShape => "Can only derive for enums whose types do not contain multiple fields.",
            GenerationError::NamedFieldsUnsupported => "Cannot derive VariantAccess for enums whose types have named fields.",
            GenerationError::UnsupportedFieldType => "VariantAccess cannot be derived for enums with a field of this type",
            GenerationError::NonLiteralArrayLength => "VariantAccess can't be derived on array types whose length is not expressed in terms of an integer literal",
            GenerationError::DuplicateFieldType => "Cannot derive VariantAccess for enum with multiple fields of same type",
            GenerationError::TemplateFailed => "Failed to fill in a template",
        }
    }
}

} // verus!
