use variant_access::emit::{
    contains_variant_context, impl_contains_variant, impl_create_variant, impl_get_variant,
    impl_set_variant, variant_template_context, write_generics_clause,
};
use variant_access::render::rendered_piece;
use variant_access::{
    fetch_name_with_generic_params, fetch_types_from_enum, impl_variant_access, Fields,
    GenerationError, GenericParam, ItemKind, ParamKind, PathSegment, TypeExpr, UnionDeclaration,
    Variant,
};

fn generic(ident: &str, arguments: Vec<TypeExpr>) -> TypeExpr {
    TypeExpr::Path(vec![PathSegment {
        ident: ident.to_string(),
        arguments,
    }])
}

fn named(ident: &str) -> TypeExpr {
    generic(ident, vec![])
}

fn variant(ident: &str, ty: TypeExpr) -> Variant {
    Variant {
        ident: ident.to_string(),
        fields: Fields::Unnamed(vec![ty]),
    }
}

fn type_param(ident: &str, bounds: &str) -> GenericParam {
    GenericParam {
        kind: ParamKind::Type,
        ident: ident.to_string(),
        bounds: bounds.to_string(),
    }
}

/// enum Test { F1(i32), F2(bool) }
fn plain() -> UnionDeclaration {
    UnionDeclaration {
        kind: ItemKind::Enum,
        ident: "Test".to_string(),
        generics: vec![],
        variants: vec![variant("F1", named("i32")), variant("F2", named("bool"))],
    }
}

/// enum Enum<Y: 'static, X: 'static> { F1(Y), F2(Test<X, Y>) }
fn with_parameters() -> UnionDeclaration {
    UnionDeclaration {
        kind: ItemKind::Enum,
        ident: "Enum".to_string(),
        generics: vec![type_param("Y", "'static"), type_param("X", "'static")],
        variants: vec![
            variant("F1", named("Y")),
            variant("F2", generic("Test", vec![named("X"), named("Y")])),
        ],
    }
}

fn pair(name: &str, value: &str) -> (String, String) {
    (name.to_string(), value.to_string())
}

const PLAIN_QUERIES: &str = r#"
impl variant_access::ContainsVariant for Test {
    fn has_variant<T : 'static>(&self) -> bool {
        if std::any::TypeId::of::<T>() == std::any::TypeId::of::<i32>() {
            return true;
        }
        if std::any::TypeId::of::<T>() == std::any::TypeId::of::<bool>() {
            return true;
        }
        false
    }

    fn contains_variant<T : 'static>(&self) -> Result<bool, variant_access::VariantAccessError> {
        if self.has_variant::<T>() {
            match self {
                Test::F1(_) => Ok(std::any::TypeId::of::<i32>() == std::any::TypeId::of::<T>()),
                Test::F2(_) => Ok(std::any::TypeId::of::<bool>() == std::any::TypeId::of::<T>()),
                _ => Ok(false)
            }
        } else {
            Err(variant_access::VariantAccessError::invalid_type("Test", std::any::type_name::<T>()))
        }
    }
}
"#;

const PLAIN_READERS: &str = r#"
impl variant_access::GetVariant<i32, variant_access_Test::F1 > for Test {
    fn get_variant(self) -> Result<i32, variant_access::VariantAccessError> {
        match self {
            Test::F1(inner) => Ok(inner),
            _ => Err(variant_access::VariantAccessError::wrong_active_field("Test", "i32"))
        }
    }

    fn get_variant_ref(&self) -> Result<&i32, variant_access::VariantAccessError> {
        match &self {
            Test::F1(inner) => Ok(inner),
            _ => Err(variant_access::VariantAccessError::wrong_active_field("Test", "i32"))
        }
    }

    fn get_variant_mut(&mut self) -> Result<&mut i32, variant_access::VariantAccessError> {
        match self {
            Test::F1(inner) => Ok(inner),
            _  => Err(variant_access::VariantAccessError::wrong_active_field("Test", "i32"))
        }
    }
}
impl variant_access::GetVariant<bool, variant_access_Test::F2 > for Test {
    fn get_variant(self) -> Result<bool, variant_access::VariantAccessError> {
        match self {
            Test::F2(inner) => Ok(inner),
            _ => Err(variant_access::VariantAccessError::wrong_active_field("Test", "bool"))
        }
    }

    fn get_variant_ref(&self) -> Result<&bool, variant_access::VariantAccessError> {
        match &self {
            Test::F2(inner) => Ok(inner),
            _ => Err(variant_access::VariantAccessError::wrong_active_field("Test", "bool"))
        }
    }

    fn get_variant_mut(&mut self) -> Result<&mut bool, variant_access::VariantAccessError> {
        match self {
            Test::F2(inner) => Ok(inner),
            _  => Err(variant_access::VariantAccessError::wrong_active_field("Test", "bool"))
        }
    }
}"#;

const PLAIN_SETTERS: &str = r#"
impl variant_access::SetVariant<i32, variant_access_Test::F1 > for Test {
    fn set_variant(&mut self, value: i32) {
        *self = Test::F1(value);
    }
}
impl variant_access::SetVariant<bool, variant_access_Test::F2 > for Test {
    fn set_variant(&mut self, value: bool) {
        *self = Test::F2(value);
    }
}"#;

const PLAIN_MAKERS: &str = r#"
impl variant_access::CreateVariantFrom<i32, variant_access_Test::F1> for Test {
    fn create_variant_from(value : i32) -> Self {
        Test::F1(value)
    }
}

impl variant_access::CreateVariantFrom<bool, variant_access_Test::F2> for Test {
    fn create_variant_from(value : bool) -> Self {
        Test::F2(value)
    }
}
"#;

const PLAIN_MARKERS: &str =
    "#[allow(non_snake_case)]\n mod variant_access_Test{ pub (crate) struct F1;pub (crate) struct F2;} ";

#[test]
fn the_queries_of_a_plain_union() {
    let decl = plain();
    let (name, params) = fetch_name_with_generic_params(&decl).expect("accepted");
    let types = fetch_types_from_enum(&decl).expect("accepted");
    let text = impl_contains_variant(&decl, &name, &params, &types).expect("filled in");
    assert_eq!(text, PLAIN_QUERIES);
}

#[test]
fn the_readers_of_a_plain_union() {
    let decl = plain();
    let (name, params) = fetch_name_with_generic_params(&decl).expect("accepted");
    let types = fetch_types_from_enum(&decl).expect("accepted");
    let text = impl_get_variant(&decl, &name, &params, &types).expect("filled in");
    assert_eq!(text, PLAIN_READERS);
}

#[test]
fn the_setters_of_a_plain_union() {
    let decl = plain();
    let (name, params) = fetch_name_with_generic_params(&decl).expect("accepted");
    let types = fetch_types_from_enum(&decl).expect("accepted");
    let text = impl_set_variant(&decl, &name, &params, &types).expect("filled in");
    assert_eq!(text, PLAIN_SETTERS);
}

#[test]
fn the_constructors_of_a_plain_union() {
    let decl = plain();
    let (name, params) = fetch_name_with_generic_params(&decl).expect("accepted");
    let types = fetch_types_from_enum(&decl).expect("accepted");
    let text = impl_create_variant(&decl, &name, &params, &types).expect("filled in");
    assert_eq!(text, PLAIN_MAKERS);
}

#[test]
fn all_that_is_generated_for_a_plain_union() {
    let text = impl_variant_access(&plain()).expect("generated");
    let mut expected = String::new();
    expected.push_str(PLAIN_MARKERS);
    expected.push_str(PLAIN_QUERIES);
    expected.push_str(PLAIN_READERS);
    expected.push_str(PLAIN_SETTERS);
    expected.push_str(PLAIN_MAKERS);
    assert_eq!(text, expected);
}

#[test]
fn nothing_is_generated_for_a_refused_declaration() {
    let mut decl = plain();
    decl.variants.push(variant("F3", named("i32")));
    assert_eq!(
        impl_variant_access(&decl),
        Err(GenerationError::DuplicateFieldType)
    );
    let mut decl = plain();
    decl.kind = ItemKind::Struct;
    assert_eq!(impl_variant_access(&decl), Err(GenerationError::NotAUnion));
    let mut decl = with_parameters();
    decl.generics.push(GenericParam {
        kind: ParamKind::Const,
        ident: "N".to_string(),
        bounds: "usize".to_string(),
    });
    // The parameters are read before the variants.
    decl.variants.push(variant("F3", named("Y")));
    assert_eq!(
        impl_variant_access(&decl),
        Err(GenerationError::UnsupportedConstGeneric)
    );
}

#[test]
fn the_generics_of_an_implementation() {
    let decl = with_parameters();
    let (_, params) = fetch_name_with_generic_params(&decl).expect("accepted");
    assert_eq!(
        write_generics_clause(&decl, &params),
        "<Y: 'static, X: 'static>"
    );
    let decl = plain();
    let (_, params) = fetch_name_with_generic_params(&decl).expect("accepted");
    assert_eq!(write_generics_clause(&decl, &params), "");
    let mut decl = with_parameters();
    decl.generics = vec![
        GenericParam {
            kind: ParamKind::Lifetime,
            ident: "static".to_string(),
            bounds: String::new(),
        },
        type_param("T", ""),
        GenericParam {
            kind: ParamKind::Const,
            ident: "N".to_string(),
            bounds: "usize".to_string(),
        },
    ];
    assert_eq!(
        write_generics_clause(&decl, &vec!["T".to_string()]),
        "<'static, T, const N: usize>"
    );
}

#[test]
fn the_values_for_the_queries() {
    let decl = with_parameters();
    let (name, params) = fetch_name_with_generic_params(&decl).expect("accepted");
    let types = fetch_types_from_enum(&decl).expect("accepted");
    let context = contains_variant_context(&decl, &name, &params, &types);
    assert_eq!(
        context.fields,
        vec![
            pair("generics", "<Y: 'static, X: 'static>"),
            pair("template", "YX"),
            pair("fullname", "Enum<Y,X>"),
        ]
    );
    assert_eq!(
        context.lists,
        vec![
            (
                "matches".to_string(),
                vec![
                    "std::any::TypeId::of::<Y>()".to_string(),
                    "std::any::TypeId::of::<Test<X,Y>>()".to_string(),
                ]
            ),
            (
                "branches".to_string(),
                vec![
                    "Enum::F1(_) => Ok(std::any::TypeId::of::<Y>()".to_string(),
                    "Enum::F2(_) => Ok(std::any::TypeId::of::<Test<X,Y>>()".to_string(),
                ]
            ),
        ]
    );
}

#[test]
fn the_values_for_one_variant() {
    let decl = with_parameters();
    let (name, params) = fetch_name_with_generic_params(&decl).expect("accepted");
    let types = fetch_types_from_enum(&decl).expect("accepted");
    let context = variant_template_context(&decl, &name, &params, "Test<X,Y>", "F2");
    assert_eq!(
        context.fields,
        vec![
            pair("generics", "<Y: 'static, X: 'static>"),
            pair("Type", "Test<X,Y>"),
            pair("Marker", "variant_access_Enum::F2"),
            pair("fullname", "Enum<Y,X>"),
            pair("name", "Enum"),
            pair("field", "F2"),
        ]
    );
    assert!(context.lists.is_empty());
    let decl = plain();
    let (name, params) = fetch_name_with_generic_params(&decl).expect("accepted");
    let types = fetch_types_from_enum(&decl).expect("accepted");
    let context = variant_template_context(&decl, &name, &params, "i32", "F1");
    assert_eq!(
        context.fields,
        vec![
            pair("generics", ""),
            pair("Type", "i32"),
            pair("Marker", "variant_access_Test::F1"),
            pair("fullname", "Test"),
            pair("name", "Test"),
            pair("field", "F1"),
        ]
    );
}

#[test]
fn the_setters_of_a_union_with_parameters() {
    let decl = with_parameters();
    let (name, params) = fetch_name_with_generic_params(&decl).expect("accepted");
    let types = fetch_types_from_enum(&decl).expect("accepted");
    let text = impl_set_variant(&decl, &name, &params, &types).expect("filled in");
    assert_eq!(
        text,
        r#"
impl<Y: 'static, X: 'static> variant_access::SetVariant<Y, variant_access_Enum::F1 > for Enum<Y,X> {
    fn set_variant(&mut self, value: Y) {
        *self = Enum::F1(value);
    }
}
impl<Y: 'static, X: 'static> variant_access::SetVariant<Test<X,Y>, variant_access_Enum::F2 > for Enum<Y,X> {
    fn set_variant(&mut self, value: Test<X,Y>) {
        *self = Enum::F2(value);
    }
}"#
    );
}

#[test]
fn a_union_without_variants_has_queries_only() {
    let decl = UnionDeclaration {
        kind: ItemKind::Enum,
        ident: "Never".to_string(),
        generics: vec![],
        variants: vec![],
    };
    let (name, params) = fetch_name_with_generic_params(&decl).expect("accepted");
    let types = fetch_types_from_enum(&decl).expect("accepted");
    assert_eq!(
        impl_get_variant(&decl, &name, &params, &types),
        Ok(String::new())
    );
    assert_eq!(
        impl_set_variant(&decl, &name, &params, &types),
        Ok(String::new())
    );
    assert_eq!(
        impl_create_variant(&decl, &name, &params, &types),
        Ok(String::new())
    );
}

#[test]
fn a_failure_of_the_engine_is_a_failure_of_the_generator() {
    assert_eq!(
        rendered_piece(Ok("impl".to_string())),
        Ok("impl".to_string())
    );
    assert_eq!(
        rendered_piece(Err(tera::Error::msg("no such value"))),
        Err(GenerationError::TemplateFailed)
    );
}
