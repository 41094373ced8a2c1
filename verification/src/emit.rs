//! Writing the implementations: the values that each template is filled in
//! with, and the text that comes out for a whole declaration.

use vstd::prelude::*;
use crate::declaration::DeclarationModel;
use crate::declaration::GenericParam;
use crate::declaration::ParamKind;
use crate::declaration::ItemKind;
use crate::declaration::ParamModel;
use crate::declaration::UnionDeclaration;
use crate::error::GenerationError;
use crate::error::text_or_reason;
use crate::parse_enum::create_marker_structs;
use crate::parse_enum::generics_error;
use crate::parse_enum::law_rows_follow_variants;
use crate::parse_enum::law_shared_type_is_refused;
use crate::parse_enum::variant_entry;
use crate::parse_enum::fetch_name_with_generic_params;
use crate::parse_enum::fetch_types_from_enum;
use crate::parse_enum::marker_module;
use crate::parse_enum::marker_path;
use crate::parse_enum::name_with_generic_params;
use crate::parse_enum::resolve;
use crate::parse_enum::EntryModel;
use crate::parse_enum::VariantTypeMap;
use crate::render::fill_in;
use crate::render::rendered_with;
use crate::render::ContextModel;
use crate::render::TemplateContext;
use crate::templates::is_library_template;
use crate::templates::CONTAINS_VARIANT_TEMPLATE;
use crate::templates::CREATE_VARIANT_TEMPLATE;
use crate::templates::GET_VARIANT_TEMPLATE;
use crate::templates::SET_VARIANT_TEMPLATE;
use crate::text::join;
use crate::text::join_strings;
use crate::text::texts;

verus! {

/// The bounds of a parameter as they are written behind its name: nothing
/// where it has none, else a colon and the bounds.
pub open spec fn bounds_suffix(bounds: Seq<char>) -> Seq<char> {
    if bounds.len() == 0 {
        Seq::empty()
    } else {
        ": "@ + bounds
    }
}

/// A generic parameter as an implementation declares it.
pub open spec fn param_text(param: ParamModel) -> Seq<char> {
    match param.kind {
        ParamKind::Lifetime => "'"@ + param.ident + bounds_suffix(param.bounds),
        ParamKind::Type => param.ident + bounds_suffix(param.bounds),
        ParamKind::Const => "const "@ + param.ident + bounds_suffix(param.bounds),
    }
}

/// The parameters of a declaration as an implementation declares them, in
/// their order.
pub open spec fn param_texts(generics: Seq<ParamModel>) -> Seq<Seq<char>> {
    generics.map_values(|param: ParamModel| param_text(param))
}

/// What stands between `impl` and the trait: nothing for a union without
/// type parameters, else all its generic parameters with their bounds,
/// between angle brackets.
pub open spec fn generics_clause(generics: Seq<ParamModel>, params: Seq<Seq<char>>) -> Seq<char> {
    if params.len() == 0 {
        Seq::empty()
    } else {
        "<"@ + join(param_texts(generics), ", "@) + ">"@
    }
}

/// The name of the type parameter of the two queries: `T` for a union
/// without type parameters, else the names of the union's parameters in a
/// row.
pub open spec fn query_parameter(params: Seq<Seq<char>>) -> Seq<char> {
    if params.len() == 0 {
        "T"@
    } else {
        join(params, Seq::empty())
    }
}

/// The expression for the identity of the type with the key `type_key`.
pub open spec fn type_id_of(type_key: Seq<char>) -> Seq<char> {
    "std::any::TypeId::of::<"@ + type_key + ">()"@
}

/// The start of the arm of the containment query for one row; the template
/// adds the comparison and closes it.
pub open spec fn branch(ident: Seq<char>, entry: EntryModel) -> Seq<char> {
    ident + "::"@ + entry.tag + "(_) => Ok("@ + type_id_of(entry.type_key)
}

/// The type identities of the rows, in their order.
pub open spec fn matches_of(entries: Seq<EntryModel>) -> Seq<Seq<char>> {
    entries.map_values(|entry: EntryModel| type_id_of(entry.type_key))
}

/// The arms for the rows, in their order.
pub open spec fn branches_of(ident: Seq<char>, entries: Seq<EntryModel>) -> Seq<Seq<char>> {
    entries.map_values(|entry: EntryModel| branch(ident, entry))
}

/// The values for the template of the queries.
pub open spec fn contains_context(
    ident: Seq<char>,
    clause: Seq<char>,
    name: Seq<char>,
    params: Seq<Seq<char>>,
    entries: Seq<EntryModel>,
) -> ContextModel {
    ContextModel {
        fields: seq![
            ("generics"@, clause),
            ("template"@, query_parameter(params)),
            ("fullname"@, name),
        ],
        lists: seq![
            ("matches"@, matches_of(entries)),
            ("branches"@, branches_of(ident, entries)),
        ],
    }
}

/// The values for the templates of one variant.
pub open spec fn variant_context(
    ident: Seq<char>,
    clause: Seq<char>,
    name: Seq<char>,
    entry: EntryModel,
) -> ContextModel {
    ContextModel {
        fields: seq![
            ("generics"@, clause),
            ("Type"@, entry.type_key),
            ("Marker"@, marker_path(ident, entry.tag)),
            ("fullname"@, name),
            ("name"@, ident),
            ("field"@, entry.tag),
        ],
        lists: Seq::empty(),
    }
}

/// What comes of filling in `template` for each row in turn: the texts in a
/// row, or nothing where the engine fails on one of them.
pub open spec fn rendered_variants(
    template: Seq<char>,
    ident: Seq<char>,
    clause: Seq<char>,
    name: Seq<char>,
    entries: Seq<EntryModel>,
) -> Option<Seq<char>>
    decreases entries.len(),
{
    if entries.len() == 0 {
        Some(Seq::empty())
    } else {
        match rendered_variants(template, ident, clause, name, entries.drop_last()) {
            Some(head) => match rendered_with(
                template,
                variant_context(ident, clause, name, entries.last()),
            ) {
                Some(piece) => Some(head + piece),
                None => None,
            },
            None => None,
        }
    }
}

/// The text of an emission, or the failure of the engine.
pub open spec fn emission(text: Option<Seq<char>>) -> Result<Seq<char>, GenerationError> {
    match text {
        Some(text) => Ok(text),
        None => Err(GenerationError::TemplateFailed),
    }
}

/// Writes one generic parameter as an implementation declares it.
fn write_param(param: &GenericParam) -> (written: String)
    ensures
        written@ == param_text(param@),
{
    let mut written = match param.kind {
        ParamKind::Lifetime => String::from_str("'"),
        ParamKind::Type => String::new(),
        ParamKind::Const => String::from_str("const "),
    };
    written.append(param.ident.as_str());
    if !param.bounds.as_str().is_empty() {
        written.append(": ");
        written.append(param.bounds.as_str());
    }
    assert(written@ =~= param_text(param@));
    written
}

/// Writes what stands between `impl` and the trait.
pub fn write_generics_clause(decl: &UnionDeclaration, params: &Vec<String>) -> (clause: String)
    ensures
        clause@ == generics_clause(decl@.generics, texts(params@)),
{
    if params.len() == 0 {
        return String::new();
    }
    let ghost models = decl@.generics;
    let mut written: Vec<String> = Vec::new();
    let mut i: usize = 0;
    while i < decl.generics.len()
        invariant
            i <= decl.generics.len(),
            models == decl@.generics,
            texts(written@) =~= param_texts(models.take(i as int)),
        decreases decl.generics.len() - i,
    {
        let one = write_param(&decl.generics[i]);
        proof {
            assert(models.take(i + 1) =~= models.take(i as int).push(decl.generics[i as int]@));
            assert(texts(written@.push(one)) =~= texts(written@).push(one@));
        }
        written.push(one);
        i = i + 1;
    }
    assert(models.take(decl.generics.len() as int) =~= models);
    let list = join_strings(&written, ", ");
    let mut clause = String::from_str("<");
    clause.append(list.as_str());
    clause.append(">");
    clause
}

/// Writes the expression for the identity of a type.
fn write_type_id(type_key: &str) -> (written: String)
    ensures
        written@ == type_id_of(type_key@),
{
    let mut written = String::from_str("std::any::TypeId::of::<");
    written.append(type_key);
    written.append(">()");
    written
}

/// Collects the values for the template of the queries: the generics of the
/// implementation, the name of the queries' type parameter and the full
/// name of the union, then the type identity of each row and the arm of
/// each row.
pub fn contains_variant_context(
    decl: &UnionDeclaration,
    name: &str,
    params: &Vec<String>,
    types: &VariantTypeMap,
) -> (context: TemplateContext)
    ensures
        context@ == contains_context(
            decl@.ident,
            generics_clause(decl@.generics, texts(params@)),
            name@,
            texts(params@),
            types@,
        ),
{
    let clause = write_generics_clause(decl, params);
    let parameter = if params.len() == 0 {
        String::from_str("T")
    } else {
        join_strings(params, "")
    };
    proof {
        reveal_strlit("");
        assert(""@ =~= Seq::<char>::empty());
    }
    let mut matches: Vec<String> = Vec::new();
    let mut branches: Vec<String> = Vec::new();
    let mut i: usize = 0;
    while i < types.len()
        invariant
            i <= types@.len(),
            texts(matches@) =~= matches_of(types@.take(i as int)),
            texts(branches@) =~= branches_of(decl@.ident, types@.take(i as int)),
        decreases types@.len() - i,
    {
        let identity = write_type_id(types.key_at(i));
        let mut arm = decl.ident.clone();
        arm.append("::");
        arm.append(types.tag_at(i));
        arm.append("(_) => Ok(");
        arm.append(identity.as_str());
        proof {
            assert(types@.take(i + 1) =~= types@.take(i as int).push(types@[i as int]));
            assert(texts(matches@.push(identity)) =~= texts(matches@).push(identity@));
            assert(texts(branches@.push(arm)) =~= texts(branches@).push(arm@));
            assert(arm@ =~= branch(decl@.ident, types@[i as int]));
        }
        matches.push(identity);
        branches.push(arm);
        i = i + 1;
    }
    assert(types@.take(types@.len() as int) =~= types@);
    let mut fields: Vec<(String, String)> = Vec::new();
    fields.push((String::from_str("generics"), clause));
    fields.push((String::from_str("template"), parameter));
    fields.push((String::from_str("fullname"), String::from_str(name)));
    let mut lists: Vec<(String, Vec<String>)> = Vec::new();
    lists.push((String::from_str("matches"), matches));
    lists.push((String::from_str("branches"), branches));
    let context = TemplateContext { fields, lists };
    proof {
        let wanted = contains_context(
            decl@.ident,
            generics_clause(decl@.generics, texts(params@)),
            name@,
            texts(params@),
            types@,
        );
        assert(context@.fields =~= wanted.fields);
        assert(context@.lists =~= wanted.lists);
    }
    context
}

/// Collects the values for the templates of one variant: the generics of
/// the implementation, the key of the variant's type, the path of its
/// marker, the full and the bare name of the union and the name of the
/// variant.
pub fn variant_template_context(
    decl: &UnionDeclaration,
    name: &str,
    params: &Vec<String>,
    type_key: &str,
    tag: &str,
) -> (context: TemplateContext)
    ensures
        context@ == variant_context(
            decl@.ident,
            generics_clause(decl@.generics, texts(params@)),
            name@,
            EntryModel { type_key: type_key@, tag: tag@ },
        ),
{
    let clause = write_generics_clause(decl, params);
    let mut marker = String::from_str("variant_access_");
    marker.append(decl.ident.as_str());
    marker.append("::");
    marker.append(tag);
    let mut fields: Vec<(String, String)> = Vec::new();
    fields.push((String::from_str("generics"), clause));
    fields.push((String::from_str("Type"), String::from_str(type_key)));
    fields.push((String::from_str("Marker"), marker));
    fields.push((String::from_str("fullname"), String::from_str(name)));
    fields.push((String::from_str("name"), decl.ident.clone()));
    fields.push((String::from_str("field"), String::from_str(tag)));
    let context = TemplateContext { fields, lists: Vec::new() };
    proof {
        let wanted = variant_context(
            decl@.ident,
            generics_clause(decl@.generics, texts(params@)),
            name@,
            EntryModel { type_key: type_key@, tag: tag@ },
        );
        assert(marker@ =~= marker_path(decl@.ident, tag@));
        assert(context@.fields =~= wanted.fields);
        assert(context@.lists =~= wanted.lists);
    }
    context
}

/// Once the engine has failed on one of the first `n` rows, it has failed
/// on the rows as a whole.
proof fn lemma_failure_stays(
    template: Seq<char>,
    ident: Seq<char>,
    clause: Seq<char>,
    name: Seq<char>,
    entries: Seq<EntryModel>,
    n: int,
)
    requires
        0 <= n <= entries.len(),
        rendered_variants(template, ident, clause, name, entries.take(n)) is None,
    ensures
        rendered_variants(template, ident, clause, name, entries) is None,
    decreases entries.len() - n,
{
    if n < entries.len() {
        assert(entries.take(n + 1).drop_last() =~= entries.take(n));
        lemma_failure_stays(template, ident, clause, name, entries, n + 1);
    } else {
        assert(entries.take(n) =~= entries);
    }
}

/// Fills in `template` for each row in turn and writes the texts in a row.
fn render_variants(
    template: &str,
    decl: &UnionDeclaration,
    name: &str,
    params: &Vec<String>,
    types: &VariantTypeMap,
) -> (out: Result<String, GenerationError>)
    requires
        is_library_template(template@),
    ensures
        text_or_reason(out) == emission(
            rendered_variants(
                template@,
                decl@.ident,
                generics_clause(decl@.generics, texts(params@)),
                name@,
                types@,
            ),
        ),
{
    let ghost clause = generics_clause(decl@.generics, texts(params@));
    let mut impl_string = String::new();
    let mut i: usize = 0;
    while i < types.len()
        invariant
            i <= types@.len(),
            is_library_template(template@),
            clause == generics_clause(decl@.generics, texts(params@)),
            rendered_variants(template@, decl@.ident, clause, name@, types@.take(i as int))
                == Some(impl_string@),
        decreases types@.len() - i,
    {
        proof {
            assert(types@.take(i + 1).drop_last() =~= types@.take(i as int));
        }
        let context = variant_template_context(
            decl,
            name,
            params,
            types.key_at(i),
            types.tag_at(i),
        );
        match fill_in(template, &context) {
            Ok(piece) => {
                impl_string.append(piece.as_str());
            },
            Err(error) => {
                proof {
                    lemma_failure_stays(template@, decl@.ident, clause, name@, types@, i + 1);
                }
                return Err(error);
            },
        }
        i = i + 1;
    }
    assert(types@.take(types@.len() as int) =~= types@);
    Ok(impl_string)
}

/// Writes the implementation of the two queries: whether a variant carries
/// a value of a type, and whether the active variant does.
pub fn impl_contains_variant(
    decl: &UnionDeclaration,
    name: &str,
    params: &Vec<String>,
    types: &VariantTypeMap,
) -> (out: Result<String, GenerationError>)
    ensures
        text_or_reason(out) == emission(
            rendered_with(
                CONTAINS_VARIANT_TEMPLATE@,
                contains_context(
                    decl@.ident,
                    generics_clause(decl@.generics, texts(params@)),
                    name@,
                    texts(params@),
                    types@,
                ),
            ),
        ),
{
    let context = contains_variant_context(decl, name, params, types);
    fill_in(CONTAINS_VARIANT_TEMPLATE, &context)
}

/// Writes, for each variant, the implementation of the three readers of its
/// value.
pub fn impl_get_variant(
    decl: &UnionDeclaration,
    name: &str,
    params: &Vec<String>,
    types: &VariantTypeMap,
) -> (out: Result<String, GenerationError>)
    ensures
        text_or_reason(out) == emission(
            rendered_variants(
                GET_VARIANT_TEMPLATE@,
                decl@.ident,
                generics_clause(decl@.generics, texts(params@)),
                name@,
                types@,
            ),
        ),
{
    render_variants(GET_VARIANT_TEMPLATE, decl, name, params, types)
}

/// Writes, for each variant, the implementation that makes the variant the
/// active one with a given value.
pub fn impl_set_variant(
    decl: &UnionDeclaration,
    name: &str,
    params: &Vec<String>,
    types: &VariantTypeMap,
) -> (out: Result<String, GenerationError>)
    ensures
        text_or_reason(out) == emission(
            rendered_variants(
                SET_VARIANT_TEMPLATE@,
                decl@.ident,
                generics_clause(decl@.generics, texts(params@)),
                name@,
                types@,
            ),
        ),
{
    render_variants(SET_VARIANT_TEMPLATE, decl, name, params, types)
}

/// Writes, for each variant, the implementation that builds the union from
/// a value of the variant's type.
pub fn impl_create_variant(
    decl: &UnionDeclaration,
    name: &str,
    params: &Vec<String>,
    types: &VariantTypeMap,
) -> (out: Result<String, GenerationError>)
    ensures
        text_or_reason(out) == emission(
            rendered_variants(
                CREATE_VARIANT_TEMPLATE@,
                decl@.ident,
                generics_clause(decl@.generics, texts(params@)),
                name@,
                types@,
            ),
        ),
{
    render_variants(CREATE_VARIANT_TEMPLATE, decl, name, params, types)
}

/// The four emissions for a union in a row, behind the module of its
/// markers; nothing where the engine fails on one of them.
pub open spec fn implementations(
    ident: Seq<char>,
    clause: Seq<char>,
    name: Seq<char>,
    params: Seq<Seq<char>>,
    entries: Seq<EntryModel>,
) -> Option<Seq<char>> {
    match (
        rendered_with(
            CONTAINS_VARIANT_TEMPLATE@,
            contains_context(ident, clause, name, params, entries),
        ),
        rendered_variants(GET_VARIANT_TEMPLATE@, ident, clause, name, entries),
        rendered_variants(SET_VARIANT_TEMPLATE@, ident, clause, name, entries),
        rendered_variants(CREATE_VARIANT_TEMPLATE@, ident, clause, name, entries),
    ) {
        (Some(queries), Some(readers), Some(setters), Some(makers)) => Some(
            marker_module(ident, entries) + queries + readers + setters + makers,
        ),
        _ => None,
    }
}

/// All that is generated for a declaration, or the reason for which nothing
/// is: what its name and parameters lack, else what its variants lack, else
/// the failure of the engine.
pub open spec fn generated(decl: DeclarationModel) -> Result<Seq<char>, GenerationError> {
    match name_with_generic_params(decl) {
        Ok((name, params)) => match resolve(decl) {
            Ok(entries) => emission(
                implementations(
                    decl.ident,
                    generics_clause(decl.generics, params),
                    name,
                    params,
                    entries,
                ),
            ),
            Err(error) => Err(error),
        },
        Err(error) => Err(error),
    }
}

/// Writes all the implementations for a declaration: the module of the
/// marker types, the queries, and for each variant the readers, the setter
/// and the constructor. Nothing is written for a declaration that is
/// refused.
pub fn impl_variant_access(decl: &UnionDeclaration) -> (out: Result<String, GenerationError>)
    ensures
        text_or_reason(out) == generated(decl@),
{
    let (name, params) = match fetch_name_with_generic_params(decl) {
        Ok(found) => found,
        Err(error) => {
            return Err(error);
        },
    };
    let types = match fetch_types_from_enum(decl) {
        Ok(types) => types,
        Err(error) => {
            return Err(error);
        },
    };
    let mut tokens = create_marker_structs(decl.ident.as_str(), &types);
    match impl_contains_variant(decl, name.as_str(), &params, &types) {
        Ok(piece) => {
            tokens.append(piece.as_str());
        },
        Err(error) => {
            return Err(error);
        },
    }
    match impl_get_variant(decl, name.as_str(), &params, &types) {
        Ok(piece) => {
            tokens.append(piece.as_str());
        },
        Err(error) => {
            return Err(error);
        },
    }
    match impl_set_variant(decl, name.as_str(), &params, &types) {
        Ok(piece) => {
            tokens.append(piece.as_str());
        },
        Err(error) => {
            return Err(error);
        },
    }
    match impl_create_variant(decl, name.as_str(), &params, &types) {
        Ok(piece) => {
            tokens.append(piece.as_str());
        },
        Err(error) => {
            return Err(error);
        },
    }
    Ok(tokens)
}

/// Nothing is generated for a union of which two variants carry the same
/// type: where the declaration is an `enum` whose parameters are accepted
/// and whose variants each have a row of their own, and two variants have
/// the same key, generation fails for a duplicate type.
pub proof fn law_shared_type_fails_generation(decl: DeclarationModel, i: int, j: int)
    requires
        decl.kind == ItemKind::Enum,
        generics_error(decl.generics) is None,
        0 <= i < j < decl.variants.len(),
        forall|k: int|
            0 <= k < decl.variants.len() ==> (#[trigger] variant_entry(decl.variants[k])) is Ok,
        variant_entry(decl.variants[i])->Ok_0.type_key == variant_entry(
            decl.variants[j],
        )->Ok_0.type_key,
    ensures
        generated(decl) == Err::<Seq<char>, GenerationError>(GenerationError::DuplicateFieldType),
{
    law_shared_type_is_refused(decl.variants, i, j);
}

/// The queries test the types of the variants and no others: for a
/// declaration with a table, the template of the queries receives one type
/// identity and one arm for each variant, in the order of the variants, made
/// of the key of the variant's type and of the variant's name.
pub proof fn law_queries_cover_the_variants(
    decl: DeclarationModel,
    clause: Seq<char>,
    name: Seq<char>,
    params: Seq<Seq<char>>,
)
    requires
        resolve(decl) is Ok,
    ensures
        ({
            let context = contains_context(decl.ident, clause, name, params, resolve(decl)->Ok_0);
            &&& context.lists[0].1.len() == decl.variants.len()
            &&& context.lists[1].1.len() == decl.variants.len()
            &&& forall|i: int|
                0 <= i < decl.variants.len() ==> {
                    let row = variant_entry(#[trigger] decl.variants[i])->Ok_0;
                    &&& variant_entry(decl.variants[i]) is Ok
                    &&& row.tag == decl.variants[i].ident
                    &&& context.lists[0].1[i] == type_id_of(row.type_key)
                    &&& context.lists[1].1[i] == branch(decl.ident, row)
                }
        }),
{
    law_rows_follow_variants(decl.variants);
}

} // verus!
