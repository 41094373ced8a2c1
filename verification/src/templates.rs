//! The texts that the generator fills in: one for the queries of a union,
//! and one each for reading, changing and building it through one variant.

use vstd::prelude::*;

verus! {

/// The implementation of the queries. It is filled in once for a union.
pub const CONTAINS_VARIANT_TEMPLATE: &'static str = r#"
impl{{ generics }} variant_access::ContainsVariant for {{ fullname }} {
    fn has_variant<{{ template }} : 'static>(&self) -> bool {
        {%- for M in matches %}
        if std::any::TypeId::of::<{{ template }}>() == {{ M }} {
            return true;
        }
        {%- endfor %}
        false
    }

    fn contains_variant<{{ template }} : 'static>(&self) -> Result<bool, variant_access::VariantAccessError> {
        if self.has_variant::<{{ template }}>() {
            match self {
                {%- for B in branches %}
                {{ B }} == std::any::TypeId::of::<{{ template }}>()),
                {%- endfor %}
                _ => Ok(false)
            }
        } else {
            Err(variant_access::VariantAccessError::invalid_type("{{ fullname }}", std::any::type_name::<{{ template }}>()))
        }
    }
}
"#;

/// The implementation of the three readers. It is filled in for each
/// variant.
pub const GET_VARIANT_TEMPLATE: &'static str = r#"
impl{{ generics }} variant_access::GetVariant<{{ Type }}, {{ Marker }} > for {{ fullname }} {
    fn get_variant(self) -> Result<{{ Type }}, variant_access::VariantAccessError> {
        match self {
            {{ name }}::{{ field }}(inner) => Ok(inner),
            _ => Err(variant_access::VariantAccessError::wrong_active_field("{{ fullname }}", "{{ Type }}"))
        }
    }

    fn get_variant_ref(&self) -> Result<&{{ Type }}, variant_access::VariantAccessError> {
        match &self {
            {{ name }}::{{ field }}(inner) => Ok(inner),
            _ => Err(variant_access::VariantAccessError::wrong_active_field("{{ fullname }}", "{{ Type }}"))
        }
    }

    fn get_variant_mut(&mut self) -> Result<&mut {{ Type }}, variant_access::VariantAccessError> {
        match self {
            {{ name }}::{{ field }}(inner) => Ok(inner),
            _  => Err(variant_access::VariantAccessError::wrong_active_field("{{ fullname }}", "{{ Type }}"))
        }
    }
}"#;

/// The implementation of the change of the active variant. It is filled in
/// for each variant.
pub const SET_VARIANT_TEMPLATE: &'static str = r#"
impl{{ generics }} variant_access::SetVariant<{{ Type }}, {{ Marker }} > for {{ fullname }} {
    fn set_variant(&mut self, value: {{ Type }}) {
        *self = {{ name }}::{{ field }}(value);
    }
}"#;

/// The implementation of the construction from a value. It is filled in for
/// each variant.
pub const CREATE_VARIANT_TEMPLATE: &'static str = r#"
impl{{ generics }} variant_access::CreateVariantFrom<{{ Type }}, {{ Marker }}> for {{ fullname }} {
    fn create_variant_from(value : {{ Type }}) -> Self {
        {{ name }}::{{ field }}(value)
    }
}
"#;

/// Whether `template` is one of the four texts of this module.
pub open spec fn is_library_template(template: Seq<char>) -> bool {
    ||| template == CONTAINS_VARIANT_TEMPLATE@
    ||| template == GET_VARIANT_TEMPLATE@
    ||| template == SET_VARIANT_TEMPLATE@
    ||| template == CREATE_VARIANT_TEMPLATE@
}

} // verus!
