//! Filling in a template: the one place where the template engine is
//! called.

use vstd::prelude::*;
use crate::error::GenerationError;
use crate::templates::is_library_template;
use crate::text::texts;

verus! {

/// The error type of the template engine.
#[verifier::external_type_specification]
#[verifier::external_body]
pub struct ExTemplateError(tera::Error);

/// The values that a template is filled in with: texts and lists of texts,
/// each under its name and in the order in which they are handed over.
#[derive(Debug)]
pub struct TemplateContext {
    pub fields: Vec<(String, String)>,
    pub lists: Vec<(String, Vec<String>)>,
}

/// The model of a [`TemplateContext`].
pub ghost struct ContextModel {
    pub fields: Seq<(Seq<char>, Seq<char>)>,
    pub lists: Seq<(Seq<char>, Seq<Seq<char>>)>,
}

impl View for TemplateContext {
    type V = ContextModel;

    open spec fn view(&self) -> ContextModel {
        ContextModel {
            fields: self.fields@.map_values(|field: (String, String)| (field.0@, field.1@)),
            lists: self.lists@.map_values(|list: (String, Vec<String>)| (list.0@, texts(list.1@))),
        }
    }
}

/// What the template engine makes of a template and of the values under
/// their names: the filled-in text, or nothing where it reports a failure.
pub uninterp spec fn rendered(
    template: Seq<char>,
    fields: Seq<(Seq<char>, Seq<char>)>,
    lists: Seq<(Seq<char>, Seq<Seq<char>>)>,
) -> Option<Seq<char>>;

/// What the template engine makes of a template and a context.
pub open spec fn rendered_with(template: Seq<char>, context: ContextModel) -> Option<Seq<char>> {
    rendered(template, context.fields, context.lists)
}

/// `tera::Tera::one_off` on a `tera::Context` that holds the values of
/// `context` under their names, without escaping. Nothing is proved of what
/// the engine writes. The contract claims only that the outcome is fixed by
/// the template and the values, which holds of the templates of this crate:
/// they read no clock, no environment and no random number.
#[verifier::external_body]
fn render(template: &str, context: &TemplateContext) -> (out: Result<String, tera::Error>)
    requires
        is_library_template(template@),
    ensures
        match out {
            Ok(text) => rendered(template@, context@.fields, context@.lists) == Some(text@),
            Err(_) => rendered(template@, context@.fields, context@.lists) is None,
        },
{
    let mut values = tera::Context::new();
    for (name, value) in context.fields.iter() {
        values.insert(name.as_str(), value);
    }
    for (name, list) in context.lists.iter() {
        values.insert(name.as_str(), list);
    }
    tera::Tera::one_off(template, &values, false)
}

/// The text of a filled-in template, or the failure of the generator where
/// the engine reported one.
pub fn rendered_piece(outcome: Result<String, tera::Error>) -> (piece: Result<
    String,
    GenerationError,
>)
    ensures
        match outcome {
            Ok(text) => piece == Ok::<String, GenerationError>(text),
            Err(_) => piece == Err::<String, GenerationError>(GenerationError::TemplateFailed),
        },
{
    match outcome {
        Ok(text) => Ok(text),
        Err(_) => Err(GenerationError::TemplateFailed),
    }
}

/// Fills in one of the templates of this crate.
pub(crate) fn fill_in(template: &str, context: &TemplateContext) -> (piece: Result<
    String,
    GenerationError,
>)
    requires
        is_library_template(template@),
    ensures
        match piece {
            Ok(text) => rendered_with(template@, context@) == Some(text@),
            Err(error) => error == GenerationError::TemplateFailed && rendered_with(
                template@,
                context@,
            ) is None,
        },
{
    rendered_piece(render(template, context))
}

} // verus!
