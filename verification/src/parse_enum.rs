//! Reading a declaration: its full name and type parameters, the table from
//! the canonical key of each variant's type to the variant, and the marker
//! types that tell the variants apart.

use vstd::prelude::*;
use crate::canonical::canonical_key;
use crate::canonical::parse_type;
use crate::declaration::DeclarationModel;
use crate::declaration::Fields;
use crate::declaration::FieldsModel;
use crate::declaration::GenericParam;
use crate::declaration::ItemKind;
use crate::declaration::ParamKind;
use crate::declaration::ParamModel;
use crate::declaration::UnionDeclaration;
use crate::declaration::Variant;
use crate::declaration::VariantModel;
use crate::error::GenerationError;
use crate::text::join;
use crate::text::join_strings;
use crate::text::texts;

verus! {

/// Why a generic parameter is refused, if it is: a lifetime must be
/// `'static` (its name is held without the apostrophe), and no parameter may
/// be a constant.
pub open spec fn param_error(param: ParamModel) -> Option<GenerationError> {
    match param.kind {
        ParamKind::Lifetime => if param.ident == "static"@ {
            None
        } else {
            Some(GenerationError::NonStaticLifetime)
        },
        ParamKind::Type => None,
        ParamKind::Const => Some(GenerationError::UnsupportedConstGeneric),
    }
}

/// The reason for which the first refused parameter is refused.
pub open spec fn generics_error(params: Seq<ParamModel>) -> Option<GenerationError>
    decreases params.len(),
{
    if params.len() == 0 {
        None
    } else {
        match generics_error(params.drop_last()) {
            Some(error) => Some(error),
            None => param_error(params.last()),
        }
    }
}

/// The names of the type parameters, in the order of the declaration.
pub open spec fn type_param_names(params: Seq<ParamModel>) -> Seq<Seq<char>>
    decreases params.len(),
{
    if params.len() == 0 {
        Seq::empty()
    } else if params.last().kind == ParamKind::Type {
        type_param_names(params.drop_last()).push(params.last().ident)
    } else {
        type_param_names(params.drop_last())
    }
}

/// The name of the union with its type parameters: the bare name where
/// there are none, else the names between angle brackets, with commas.
pub open spec fn qualified_name(ident: Seq<char>, names: Seq<Seq<char>>) -> Seq<char> {
    if names.len() == 0 {
        ident
    } else {
        ident + "<"@ + join(names, ","@) + ">"@
    }
}

/// The full name and the type parameters of a declaration, or the reason
/// for which it is refused: that it is no `enum`, else what the first
/// refused parameter lacks.
pub open spec fn name_with_generic_params(decl: DeclarationModel) -> Result<
    (Seq<char>, Seq<Seq<char>>),
    GenerationError,
> {
    if decl.kind != ItemKind::Enum {
        Err(GenerationError::NotAUnion)
    } else {
        match generics_error(decl.generics) {
            Some(error) => Err(error),
            None => Ok(
                (
                    qualified_name(decl.ident, type_param_names(decl.generics)),
                    type_param_names(decl.generics),
                ),
            ),
        }
    }
}

/// A name with parameters or a reason, as plain text.
pub open spec fn name_text(found: Result<(String, Vec<String>), GenerationError>) -> Result<
    (Seq<char>, Seq<Seq<char>>),
    GenerationError,
> {
    match found {
        Ok((name, params)) => Ok((name@, texts(params@))),
        Err(error) => Err(error),
    }
}

/// A refusal met among the first `n` parameters is the refusal of them all.
proof fn lemma_first_refusal_stays(params: Seq<ParamModel>, n: int)
    requires
        0 <= n <= params.len(),
        generics_error(params.take(n)) is Some,
    ensures
        generics_error(params) == generics_error(params.take(n)),
    decreases params.len() - n,
{
    if n < params.len() {
        assert(params.take(n + 1).drop_last() =~= params.take(n));
        lemma_first_refusal_stays(params, n + 1);
    } else {
        assert(params.take(n) =~= params);
    }
}

/// Finds the full name of the declared union and the names of its type
/// parameters. For `enum Enum<T: Debug, X>` these are `Enum<T,X>` and
/// `T`, `X`.
pub fn fetch_name_with_generic_params(decl: &UnionDeclaration) -> (found: Result<
    (String, Vec<String>),
    GenerationError,
>)
    ensures
        name_text(found) == name_with_generic_params(decl@),
{
    match decl.kind {
        ItemKind::Enum => {},
        _ => {
            return Err(GenerationError::NotAUnion);
        },
    }
    let ghost models = decl@.generics;
    let static_name = String::from_str("static");
    let mut params: Vec<String> = Vec::new();
    let mut i: usize = 0;
    while i < decl.generics.len()
        invariant
            i <= decl.generics.len(),
            decl.kind == ItemKind::Enum,
            models == decl@.generics,
            static_name@ == "static"@,
            generics_error(models.take(i as int)) is None,
            texts(params@) == type_param_names(models.take(i as int)),
        decreases decl.generics.len() - i,
    {
        proof {
            assert(models.take(i + 1).drop_last() =~= models.take(i as int));
            assert(models.take(i + 1).last() == decl.generics[i as int]@);
        }
        let param = &decl.generics[i];
        match param.kind {
            ParamKind::Lifetime => {
                if param.ident != static_name {
                    proof {
                        lemma_first_refusal_stays(models, i + 1);
                    }
                    return Err(GenerationError::NonStaticLifetime);
                }
            },
            ParamKind::Type => {
                proof {
                    assert(texts(params@.push(param.ident)) =~= texts(params@).push(param.ident@));
                }
                params.push(param.ident.clone());
            },
            ParamKind::Const => {
                proof {
                    lemma_first_refusal_stays(models, i + 1);
                }
                return Err(GenerationError::UnsupportedConstGeneric);
            },
        }
        i = i + 1;
    }
    assert(models.take(decl.generics.len() as int) =~= models);
    let mut name = decl.ident.clone();
    if params.len() > 0 {
        let list = join_strings(&params, ",");
        name.append("<");
        name.append(list.as_str());
        name.append(">");
    }
    Ok((name, params))
}

/// One row of the table: the canonical key of a type and the variant that
/// carries it.
pub ghost struct EntryModel {
    pub type_key: Seq<char>,
    pub tag: Seq<char>,
}

/// Whether a row of `entries` has the key `type_key`.
pub open spec fn has_key(entries: Seq<EntryModel>, type_key: Seq<char>) -> bool {
    exists|i: int| 0 <= i < entries.len() && #[trigger] entries[i].type_key == type_key
}

/// Whether no two rows of `entries` have the same key.
pub open spec fn distinct_keys(entries: Seq<EntryModel>) -> bool {
    forall|i: int, j: int|
        0 <= i < j < entries.len() ==> #[trigger] entries[i].type_key != #[trigger] entries[j].type_key
}

/// The keys of the rows, in their order.
pub open spec fn keys_of(entries: Seq<EntryModel>) -> Seq<Seq<char>> {
    entries.map_values(|entry: EntryModel| entry.type_key)
}

/// The variants of the rows, in their order.
pub open spec fn tags_of(entries: Seq<EntryModel>) -> Seq<Seq<char>> {
    entries.map_values(|entry: EntryModel| entry.tag)
}

/// One row as the table stores it.
#[derive(Debug)]
struct VariantEntry {
    type_key: String,
    tag: String,
}

/// The table from the canonical key of a type to the variant that carries
/// it, in the order in which the rows came. No key occurs twice.
#[derive(Debug)]
pub struct VariantTypeMap {
    entries: Vec<VariantEntry>,
}

impl View for VariantTypeMap {
    type V = Seq<EntryModel>;

    closed spec fn view(&self) -> Seq<EntryModel> {
        self.entries@.map_values(
            |entry: VariantEntry| EntryModel { type_key: entry.type_key@, tag: entry.tag@ },
        )
    }
}

impl VariantTypeMap {
    /// What holds of every table: no key occurs twice.
    pub open spec fn wf(&self) -> bool {
        distinct_keys(self@)
    }

    /// The table without rows.
    pub fn new() -> (table: VariantTypeMap)
        ensures
            table@ == Seq::<EntryModel>::empty(),
            table.wf(),
    {
        let table = VariantTypeMap { entries: Vec::new() };
        assert(table@ =~= Seq::<EntryModel>::empty());
        table
    }

    /// The number of rows.
    pub fn len(&self) -> (n: usize)
        ensures
            n == self@.len(),
    {
        self.entries.len()
    }

    /// Whether a row has the key `type_key`.
    pub fn contains_key(&self, type_key: &str) -> (found: bool)
        ensures
            found == has_key(self@, type_key@),
    {
        let wanted = String::from_str(type_key);
        let mut i: usize = 0;
        while i < self.entries.len()
            invariant
                i <= self.entries.len(),
                wanted@ == type_key@,
                forall|k: int| 0 <= k < i ==> (#[trigger] self@[k]).type_key != type_key@,
            decreases self.entries.len() - i,
        {
            if self.entries[i].type_key == wanted {
                assert(self@[i as int].type_key == type_key@);
                return true;
            }
            i = i + 1;
        }
        false
    }

    /// Adds the row of a variant. A key that the table holds already is
    /// refused, and the table stays as it is.
    pub fn insert(&mut self, type_key: String, tag: String) -> (added: Result<(), GenerationError>)
        ensures
            old(self).wf() ==> final(self).wf(),
            has_key(old(self)@, type_key@) ==> added == Err::<(), GenerationError>(
                GenerationError::DuplicateFieldType,
            ) && final(self)@ == old(self)@,
            !has_key(old(self)@, type_key@) ==> added == Ok::<(), GenerationError>(())
                && final(self)@ == old(self)@.push(EntryModel { type_key: type_key@, tag: tag@ }),
    {
        if self.contains_key(type_key.as_str()) {
            return Err(GenerationError::DuplicateFieldType);
        }
        let ghost before = self@;
        let ghost row = EntryModel { type_key: type_key@, tag: tag@ };
        self.entries.push(VariantEntry { type_key, tag });
        assert(self@ =~= before.push(row));
        assert(forall|k: int| 0 <= k < before.len() ==> before[k].type_key != type_key@);
        Ok(())
    }

    /// The keys of the rows, in their order.
    pub fn keys(&self) -> (keys: Vec<String>)
        ensures
            texts(keys@) == keys_of(self@),
    {
        let mut keys: Vec<String> = Vec::new();
        let mut i: usize = 0;
        while i < self.entries.len()
            invariant
                i <= self.entries.len(),
                texts(keys@) =~= keys_of(self@.take(i as int)),
            decreases self.entries.len() - i,
        {
            let key = self.entries[i].type_key.clone();
            proof {
                assert(self@.take(i + 1) =~= self@.take(i as int).push(self@[i as int]));
                assert(texts(keys@.push(key)) =~= texts(keys@).push(key@));
            }
            keys.push(key);
            i = i + 1;
        }
        assert(self@.take(self.entries.len() as int) =~= self@);
        keys
    }

    /// The variants of the rows, in their order.
    pub fn tags(&self) -> (tags: Vec<String>)
        ensures
            texts(tags@) == tags_of(self@),
    {
        let mut tags: Vec<String> = Vec::new();
        let mut i: usize = 0;
        while i < self.entries.len()
            invariant
                i <= self.entries.len(),
                texts(tags@) =~= tags_of(self@.take(i as int)),
            decreases self.entries.len() - i,
        {
            let tag = self.entries[i].tag.clone();
            proof {
                assert(self@.take(i + 1) =~= self@.take(i as int).push(self@[i as int]));
                assert(texts(tags@.push(tag)) =~= texts(tags@).push(tag@));
            }
            tags.push(tag);
            i = i + 1;
        }
        assert(self@.take(self.entries.len() as int) =~= self@);
        tags
    }

    /// The key of row `i`, if there is such a row.
    pub fn type_key(&self, i: usize) -> (key: Option<&str>)
        ensures
            i < self@.len() ==> (key matches Some(text) && text@ == self@[i as int].type_key),
            i >= self@.len() ==> key is None,
    {
        if i < self.entries.len() {
            Some(self.key_at(i))
        } else {
            None
        }
    }

    /// The variant of row `i`, if there is such a row.
    pub fn tag(&self, i: usize) -> (tag: Option<&str>)
        ensures
            i < self@.len() ==> (tag matches Some(text) && text@ == self@[i as int].tag),
            i >= self@.len() ==> tag is None,
    {
        if i < self.entries.len() {
            Some(self.tag_at(i))
        } else {
            None
        }
    }

    /// The key of a row that the table has.
    pub(crate) fn key_at(&self, i: usize) -> (key: &str)
        requires
            i < self@.len(),
        ensures
            key@ == self@[i as int].type_key,
    {
        self.entries[i].type_key.as_str()
    }

    /// The variant of a row that the table has.
    pub(crate) fn tag_at(&self, i: usize) -> (tag: &str)
        requires
            i < self@.len(),
        ensures
            tag@ == self@[i as int].tag,
    {
        self.entries[i].tag.as_str()
    }
}

/// The row of a variant, or the reason for which it has none: named fields,
/// another number of unnamed fields than one, or a type without a key.
pub open spec fn variant_entry(variant: VariantModel) -> Result<EntryModel, GenerationError> {
    match variant.fields {
        FieldsModel::Named => Err(GenerationError::NamedFieldsUnsupported),
        FieldsModel::Unnamed(types) => if types.len() != 1 {
            Err(GenerationError::InvalidVariantShape)
        } else {
            match canonical_key(types[0]) {
                Ok(type_key) => Ok(EntryModel { type_key, tag: variant.ident }),
                Err(error) => Err(error),
            }
        },
    }
}

/// The rows of the variants in their order, or the first reason for which
/// the table cannot be made: a variant without a row, or the first variant
/// whose key an earlier variant has.
pub open spec fn resolve_variants(variants: Seq<VariantModel>) -> Result<
    Seq<EntryModel>,
    GenerationError,
>
    decreases variants.len(),
{
    if variants.len() == 0 {
        Ok(Seq::empty())
    } else {
        match resolve_variants(variants.drop_last()) {
            Ok(entries) => match variant_entry(variants.last()) {
                Ok(entry) => if has_key(entries, entry.type_key) {
                    Err(GenerationError::DuplicateFieldType)
                } else {
                    Ok(entries.push(entry))
                },
                Err(error) => Err(error),
            },
            Err(error) => Err(error),
        }
    }
}

/// The table of a declaration, or the reason for which it has none.
pub open spec fn resolve(decl: DeclarationModel) -> Result<Seq<EntryModel>, GenerationError> {
    if decl.kind != ItemKind::Enum {
        Err(GenerationError::NotAUnion)
    } else {
        resolve_variants(decl.variants)
    }
}

/// A table or a reason, with the table as its rows.
pub open spec fn table_rows(table: Result<VariantTypeMap, GenerationError>) -> Result<
    Seq<EntryModel>,
    GenerationError,
> {
    match table {
        Ok(types) => Ok(types@),
        Err(error) => Err(error),
    }
}

/// A reason met among the first `n` variants is the reason of the whole
/// declaration.
proof fn lemma_first_failure_stays(variants: Seq<VariantModel>, n: int)
    requires
        0 <= n <= variants.len(),
        resolve_variants(variants.take(n)) is Err,
    ensures
        resolve_variants(variants) == resolve_variants(variants.take(n)),
    decreases variants.len() - n,
{
    if n < variants.len() {
        assert(variants.take(n + 1).drop_last() =~= variants.take(n));
        lemma_first_failure_stays(variants, n + 1);
    } else {
        assert(variants.take(n) =~= variants);
    }
}

/// The table of a declaration has one row for each variant, in the order of
/// the variants: the row of variant `i` holds the key of the variant's type
/// and the variant's name. No two rows have the same key.
pub proof fn law_rows_follow_variants(variants: Seq<VariantModel>)
    requires
        resolve_variants(variants) is Ok,
    ensures
        resolve_variants(variants)->Ok_0.len() == variants.len(),
        forall|i: int|
            0 <= i < variants.len() ==> variant_entry(#[trigger] variants[i]) == Ok::<
                EntryModel,
                GenerationError,
            >(resolve_variants(variants)->Ok_0[i]),
        distinct_keys(resolve_variants(variants)->Ok_0),
    decreases variants.len(),
{
    if variants.len() > 0 {
        let front = variants.drop_last();
        law_rows_follow_variants(front);
        let rows = resolve_variants(front)->Ok_0;
        let row = variant_entry(variants.last())->Ok_0;
        assert(resolve_variants(variants)->Ok_0 == rows.push(row));
        assert forall|i: int| 0 <= i < variants.len() implies variant_entry(
            #[trigger] variants[i],
        ) == Ok::<EntryModel, GenerationError>(rows.push(row)[i]) by {
            if i < front.len() {
                assert(variants[i] == front[i]);
            }
        }
        assert forall|i: int, j: int| 0 <= i < j < rows.push(row).len() implies (
        #[trigger] rows.push(row)[i]).type_key != (#[trigger] rows.push(row)[j]).type_key by {
            if j == rows.len() {
                assert(rows[i].type_key != row.type_key);
            } else {
                assert(rows[i].type_key != rows[j].type_key);
            }
        }
    }
}

/// Whether the variant has a row, and in it the key `type_key`.
pub open spec fn carries(variant: VariantModel, type_key: Seq<char>) -> bool {
    variant_entry(variant) matches Ok(row) && row.type_key == type_key
}

/// The table holds the keys of the variants' types and no others: a key is
/// in the table of a declaration if and only if it is the key of the type of
/// one of the variants.
pub proof fn law_table_holds_the_declared_types(variants: Seq<VariantModel>, type_key: Seq<char>)
    requires
        resolve_variants(variants) is Ok,
    ensures
        has_key(resolve_variants(variants)->Ok_0, type_key) <==> exists|i: int|
            0 <= i < variants.len() && #[trigger] carries(variants[i], type_key),
{
    law_rows_follow_variants(variants);
    let rows = resolve_variants(variants)->Ok_0;
    if has_key(rows, type_key) {
        let i = choose|i: int| 0 <= i < rows.len() && #[trigger] rows[i].type_key == type_key;
        assert(variant_entry(variants[i]) == Ok::<EntryModel, GenerationError>(rows[i]));
        assert(carries(variants[i], type_key));
    }
    if exists|i: int| 0 <= i < variants.len() && #[trigger] carries(variants[i], type_key) {
        let i = choose|i: int| 0 <= i < variants.len() && #[trigger] carries(variants[i], type_key);
        assert(variant_entry(variants[i]) == Ok::<EntryModel, GenerationError>(rows[i]));
        assert(rows[i].type_key == type_key);
    }
}

/// Two variants that carry the same type are refused: where every variant
/// has a row of its own and two of them have the same key, the table is
/// refused for a duplicate type.
pub proof fn law_shared_type_is_refused(variants: Seq<VariantModel>, i: int, j: int)
    requires
        0 <= i < j < variants.len(),
        forall|k: int| 0 <= k < variants.len() ==> (#[trigger] variant_entry(variants[k])) is Ok,
        variant_entry(variants[i])->Ok_0.type_key == variant_entry(variants[j])->Ok_0.type_key,
    ensures
        resolve_variants(variants) == Err::<Seq<EntryModel>, GenerationError>(
            GenerationError::DuplicateFieldType,
        ),
    decreases variants.len(),
{
    let front = variants.drop_last();
    assert forall|k: int| 0 <= k < front.len() implies (#[trigger] variant_entry(front[k])) is Ok by {
        assert(front[k] == variants[k]);
    }
    if j < variants.len() - 1 {
        assert(front[i] == variants[i]);
        assert(front[j] == variants[j]);
        law_shared_type_is_refused(front, i, j);
    } else {
        lemma_failure_is_a_duplicate(front);
        if resolve_variants(front) is Ok {
            law_rows_follow_variants(front);
            let rows = resolve_variants(front)->Ok_0;
            assert(front[i] == variants[i]);
            assert(variant_entry(front[i]) == Ok::<EntryModel, GenerationError>(rows[i]));
            assert(rows[i].type_key == variant_entry(variants.last())->Ok_0.type_key);
        }
    }
}

/// Where every variant has a row of its own, the table can only be refused
/// for a duplicate type.
proof fn lemma_failure_is_a_duplicate(variants: Seq<VariantModel>)
    requires
        forall|k: int| 0 <= k < variants.len() ==> (#[trigger] variant_entry(variants[k])) is Ok,
    ensures
        resolve_variants(variants) matches Err(error) ==> error
            == GenerationError::DuplicateFieldType,
    decreases variants.len(),
{
    if variants.len() > 0 {
        let front = variants.drop_last();
        assert forall|k: int| 0 <= k < front.len() implies (#[trigger] variant_entry(
            front[k],
        )) is Ok by {
            assert(front[k] == variants[k]);
        }
        lemma_failure_is_a_duplicate(front);
        assert(variant_entry(variants[variants.len() - 1]) is Ok);
    }
}

/// Writes the key of the one type that a variant carries.
fn variant_key(variant: &Variant) -> (key: Result<String, GenerationError>)
    ensures
        match key {
            Ok(text) => variant_entry(variant@) == Ok::<EntryModel, GenerationError>(
                EntryModel { type_key: text@, tag: variant.ident@ },
            ),
            Err(error) => variant_entry(variant@) == Err::<EntryModel, GenerationError>(error),
        },
{
    match &variant.fields {
        Fields::Named => Err(GenerationError::NamedFieldsUnsupported),
        Fields::Unnamed(types) => {
            if types.len() != 1 {
                Err(GenerationError::InvalidVariantShape)
            } else {
                parse_type(&types[0])
            }
        },
    }
}

/// Makes the table from the key of each variant's type to the variant.
///
/// For `enum Enum { F1(i64), F2(bool) }` the rows are `i64` for `F1` and
/// `bool` for `F2`. A declaration that is no `enum`, a variant with named
/// fields or with another number of fields than one, a type without a key
/// and a type that two variants carry are refused.
pub fn fetch_types_from_enum(decl: &UnionDeclaration) -> (types: Result<
    VariantTypeMap,
    GenerationError,
>)
    ensures
        table_rows(types) == resolve(decl@),
        types matches Ok(table) ==> table.wf(),
{
    match decl.kind {
        ItemKind::Enum => {},
        _ => {
            return Err(GenerationError::NotAUnion);
        },
    }
    let ghost models = decl@.variants;
    let mut types = VariantTypeMap::new();
    let mut i: usize = 0;
    while i < decl.variants.len()
        invariant
            i <= decl.variants.len(),
            decl.kind == ItemKind::Enum,
            models == decl@.variants,
            types.wf(),
            resolve_variants(models.take(i as int)) == Ok::<Seq<EntryModel>, GenerationError>(
                types@,
            ),
        decreases decl.variants.len() - i,
    {
        proof {
            assert(models.take(i + 1).drop_last() =~= models.take(i as int));
            assert(models.take(i + 1).last() == decl.variants[i as int]@);
        }
        let variant = &decl.variants[i];
        match variant_key(variant) {
            Ok(type_key) => {
                match types.insert(type_key, variant.ident.clone()) {
                    Ok(()) => {},
                    Err(error) => {
                        proof {
                            lemma_first_failure_stays(models, i + 1);
                        }
                        return Err(error);
                    },
                }
            },
            Err(error) => {
                proof {
                    lemma_first_failure_stays(models, i + 1);
                }
                return Err(error);
            },
        }
        i = i + 1;
    }
    assert(models.take(decl.variants.len() as int) =~= models);
    Ok(types)
}

/// The name of the module that holds the marker types of the union `name`.
pub open spec fn marker_module_name(name: Seq<char>) -> Seq<char> {
    "variant_access_"@ + name
}

/// The path of the marker type of the variant `tag` of the union `name`.
pub open spec fn marker_path(name: Seq<char>, tag: Seq<char>) -> Seq<char> {
    marker_module_name(name) + "::"@ + tag
}

/// The declarations of the marker types, one for each row, in the order of
/// the rows.
pub open spec fn marker_structs(entries: Seq<EntryModel>) -> Seq<char>
    decreases entries.len(),
{
    if entries.len() == 0 {
        Seq::empty()
    } else {
        marker_structs(entries.drop_last()) + "pub (crate) struct "@ + entries.last().tag + ";"@
    }
}

/// The module of the marker types of the union `name`.
pub open spec fn marker_module(name: Seq<char>, entries: Seq<EntryModel>) -> Seq<char> {
    "#[allow(non_snake_case)]\n mod "@ + marker_module_name(name) + "{ "@ + marker_structs(entries)
        + "} "@
}

/// A text is found again behind a given beginning: two texts that are equal
/// behind the same beginning are equal.
proof fn lemma_same_beginning(beginning: Seq<char>, a: Seq<char>, b: Seq<char>)
    requires
        beginning + a == beginning + b,
    ensures
        a == b,
{
    assert((beginning + a).len() == beginning.len() + a.len());
    assert((beginning + b).len() == beginning.len() + b.len());
    assert(a.len() == b.len());
    assert forall|i: int| 0 <= i < a.len() implies a[i] == b[i] by {
        assert((beginning + a)[beginning.len() + i] == a[i]);
        assert((beginning + b)[beginning.len() + i] == b[i]);
    }
    assert(a =~= b);
}

/// The markers of two unions do not collide: unions of different names have
/// marker modules of different names.
pub proof fn law_marker_modules_differ(name: Seq<char>, other: Seq<char>)
    requires
        name != other,
    ensures
        marker_module_name(name) != marker_module_name(other),
{
    if marker_module_name(name) == marker_module_name(other) {
        lemma_same_beginning("variant_access_"@, name, other);
    }
}

/// Each variant of a union has a marker of its own: variants of different
/// names have different marker paths.
pub proof fn law_markers_differ(name: Seq<char>, tag: Seq<char>, other: Seq<char>)
    requires
        tag != other,
    ensures
        marker_path(name, tag) != marker_path(name, other),
{
    if marker_path(name, tag) == marker_path(name, other) {
        assert(marker_path(name, tag) == (marker_module_name(name) + "::"@) + tag);
        assert(marker_path(name, other) == (marker_module_name(name) + "::"@) + other);
        lemma_same_beginning(marker_module_name(name) + "::"@, tag, other);
    }
}

/// Writes the module of the marker types: one empty struct for each variant,
/// under the variant's name, in a module of the crate that is named after
/// the union. With a marker as their second parameter the implementations
/// for two variants stay apart where the variants' types may coincide, as
/// in `enum Enum<X, Y> { F1(X), F2(Y) }`.
pub fn create_marker_structs(name: &str, types: &VariantTypeMap) -> (module: String)
    ensures
        module@ == marker_module(name@, types@),
{
    let mut piece = String::from_str("#[allow(non_snake_case)]\n mod variant_access_");
    piece.append(name);
    piece.append("{ ");
    let ghost head = piece@;
    let mut i: usize = 0;
    while i < types.len()
        invariant
            i <= types@.len(),
            piece@ == head + marker_structs(types@.take(i as int)),
        decreases types@.len() - i,
    {
        proof {
            assert(types@.take(i + 1).drop_last() =~= types@.take(i as int));
        }
        piece.append("pub (crate) struct ");
        piece.append(types.tag_at(i));
        piece.append(";");
        i = i + 1;
    }
    assert(types@.take(types@.len() as int) =~= types@);
    piece.append("} ");
    proof {
        reveal_strlit("#[allow(non_snake_case)]\n mod variant_access_");
        reveal_strlit("#[allow(non_snake_case)]\n mod ");
        reveal_strlit("variant_access_");
        assert(piece@ =~= marker_module(name@, types@));
    }
    piece
}

} // verus!
