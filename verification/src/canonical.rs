//! The canonical key of a type: the text by which two variants are found to
//! carry the same type.

use vstd::prelude::*;
use crate::declaration::ArrayLength;
use crate::declaration::PathSegment;
use crate::declaration::SegmentModel;
use crate::declaration::TypeExpr;
use crate::declaration::TypeModel;
use crate::declaration::segment_models;
use crate::declaration::type_models;
use crate::error::GenerationError;
use crate::error::text_or_reason;
use crate::text::decimal;
use crate::text::decimal_string;
use crate::text::join;
use crate::text::join_strings;
use crate::text::lemma_concat_has_no_whitespace;
use crate::text::lemma_decimal_has_no_whitespace;
use crate::text::lemma_join_has_no_whitespace;
use crate::text::lemma_stripped_has_no_whitespace;
use crate::text::no_whitespace;
use crate::text::strip_whitespace;
use crate::text::texts;
use crate::text::without_whitespace;

verus! {

/// The generic arguments of a segment as they stand behind its name: nothing
/// where there are none, else the keys between angle brackets, with commas.
pub open spec fn argument_list(keys: Seq<Seq<char>>) -> Seq<char> {
    if keys.len() == 0 {
        Seq::empty()
    } else {
        "<"@ + join(keys, ","@) + ">"@
    }
}

/// The key of a type, or the reason for which it has none. Of several
/// reasons the one met first, reading from left to right, is given; an
/// array's element is read before its length.
pub open spec fn canonical_key(ty: TypeModel) -> Result<Seq<char>, GenerationError>
    decreases ty,
{
    match ty {
        TypeModel::Path(segments) => match segment_keys(segments) {
            Ok(keys) => Ok(join(keys, "::"@)),
            Err(error) => Err(error),
        },
        TypeModel::Tuple(elems) => match canonical_keys(elems) {
            Ok(keys) => Ok("("@ + join(keys, ","@) + ")"@),
            Err(error) => Err(error),
        },
        TypeModel::Array(elem, len) => match canonical_key(*elem) {
            Ok(key) => match len {
                Some(n) => Ok("["@ + key + ";"@ + decimal(n) + "]"@),
                None => Err(GenerationError::NonLiteralArrayLength),
            },
            Err(error) => Err(error),
        },
        TypeModel::Unsupported => Err(GenerationError::UnsupportedFieldType),
    }
}

/// The keys of the types of a sequence, or the first reason for which one of
/// them has none.
pub open spec fn canonical_keys(types: Seq<TypeModel>) -> Result<Seq<Seq<char>>, GenerationError>
    decreases types,
{
    if types.len() == 0 {
        Ok(Seq::empty())
    } else {
        match canonical_keys(types.drop_last()) {
            Ok(keys) => match canonical_key(types.last()) {
                Ok(key) => Ok(keys.push(key)),
                Err(error) => Err(error),
            },
            Err(error) => Err(error),
        }
    }
}

/// The text of one segment: its name without white space, then its
/// arguments.
pub open spec fn segment_key(segment: SegmentModel) -> Result<Seq<char>, GenerationError>
    decreases segment,
{
    match canonical_keys(segment.arguments) {
        Ok(keys) => Ok(strip_whitespace(segment.ident) + argument_list(keys)),
        Err(error) => Err(error),
    }
}

/// The texts of the segments of a path, or the first reason for which one of
/// them has none.
pub open spec fn segment_keys(segments: Seq<SegmentModel>) -> Result<
    Seq<Seq<char>>,
    GenerationError,
>
    decreases segments,
{
    if segments.len() == 0 {
        Ok(Seq::empty())
    } else {
        match segment_keys(segments.drop_last()) {
            Ok(keys) => match segment_key(segments.last()) {
                Ok(key) => Ok(keys.push(key)),
                Err(error) => Err(error),
            },
            Err(error) => Err(error),
        }
    }
}

/// Keys or a reason, with the keys as plain text.
pub open spec fn key_texts(keys: Result<Vec<String>, GenerationError>) -> Result<
    Seq<Seq<char>>,
    GenerationError,
> {
    match keys {
        Ok(list) => Ok(texts(list@)),
        Err(error) => Err(error),
    }
}

/// A reason met among the first `n` types is the reason of the whole
/// sequence.
proof fn lemma_first_reason_stays(types: Seq<TypeModel>, n: int)
    requires
        0 <= n <= types.len(),
        canonical_keys(types.take(n)) is Err,
    ensures
        canonical_keys(types) == canonical_keys(types.take(n)),
    decreases types.len() - n,
{
    if n < types.len() {
        assert(types.take(n + 1).drop_last() =~= types.take(n));
        lemma_first_reason_stays(types, n + 1);
    } else {
        assert(types.take(n) =~= types);
    }
}

/// A reason met among the first `n` segments is the reason of the whole
/// path.
proof fn lemma_first_segment_reason_stays(segments: Seq<SegmentModel>, n: int)
    requires
        0 <= n <= segments.len(),
        segment_keys(segments.take(n)) is Err,
    ensures
        segment_keys(segments) == segment_keys(segments.take(n)),
    decreases segments.len() - n,
{
    if n < segments.len() {
        assert(segments.take(n + 1).drop_last() =~= segments.take(n));
        lemma_first_segment_reason_stays(segments, n + 1);
    } else {
        assert(segments.take(n) =~= segments);
    }
}

/// Writes the key of a type, or gives the reason for which it has none.
pub fn parse_type(ty: &TypeExpr) -> (key: Result<String, GenerationError>)
    ensures
        text_or_reason(key) == canonical_key(ty@),
    decreases ty, 0nat,
{
    match ty {
        TypeExpr::Array(elem, len) => parse_array(elem, len),
        TypeExpr::Tuple(elems) => parse_tuple(elems),
        TypeExpr::Path(segments) => parse_path(segments),
        TypeExpr::Unsupported => Err(GenerationError::UnsupportedFieldType),
    }
}

/// Writes the keys of the types of a vector, in its order.
pub fn parse_types(types: &Vec<TypeExpr>) -> (keys: Result<Vec<String>, GenerationError>)
    ensures
        key_texts(keys) == canonical_keys(type_models(*types)),
    decreases types, 0nat,
{
    let ghost models = type_models(*types);
    let mut keys: Vec<String> = Vec::new();
    let mut i: usize = 0;
    assert(models.take(0) =~= Seq::<TypeModel>::empty());
    assert(texts(keys@) =~= Seq::<Seq<char>>::empty());
    while i < types.len()
        invariant
            i <= types.len(),
            models == type_models(*types),
            canonical_keys(models.take(i as int)) == Ok::<Seq<Seq<char>>, GenerationError>(
                texts(keys@),
            ),
        decreases types.len() - i,
    {
        proof {
            assert(models.take(i + 1).drop_last() =~= models.take(i as int));
            assert(models.take(i + 1).last() == types[i as int]@);
        }
        match parse_type(&types[i]) {
            Ok(key) => {
                proof {
                    assert(texts(keys@.push(key)) =~= texts(keys@).push(key@));
                }
                keys.push(key);
            },
            Err(error) => {
                proof {
                    lemma_first_reason_stays(models, i + 1);
                }
                return Err(error);
            },
        }
        i = i + 1;
    }
    assert(models.take(types.len() as int) =~= models);
    Ok(keys)
}

/// Writes one segment of a path: its name without white space, then its
/// generic arguments.
pub fn parse_segment(segment: &PathSegment) -> (key: Result<String, GenerationError>)
    ensures
        text_or_reason(key) == segment_key(segment@),
    decreases segment, 0nat,
{
    match parse_types(&segment.arguments) {
        Ok(keys) => {
            let mut text = without_whitespace(segment.ident.as_str());
            if keys.len() > 0 {
                let list = join_strings(&keys, ",");
                text.append("<");
                text.append(list.as_str());
                text.append(">");
            }
            assert(text@ =~= strip_whitespace(segment.ident@) + argument_list(texts(keys@)));
            Ok(text)
        },
        Err(error) => Err(error),
    }
}

/// Writes the key of a named type: its segments with `::` between them.
pub fn parse_path(segments: &Vec<PathSegment>) -> (key: Result<String, GenerationError>)
    ensures
        text_or_reason(key) == canonical_key(TypeModel::Path(segment_models(*segments))),
    decreases segments, 1nat,
{
    let ghost models = segment_models(*segments);
    let mut keys: Vec<String> = Vec::new();
    let mut i: usize = 0;
    assert(models.take(0) =~= Seq::<SegmentModel>::empty());
    assert(texts(keys@) =~= Seq::<Seq<char>>::empty());
    while i < segments.len()
        invariant
            i <= segments.len(),
            models == segment_models(*segments),
            segment_keys(models.take(i as int)) == Ok::<Seq<Seq<char>>, GenerationError>(
                texts(keys@),
            ),
        decreases segments.len() - i,
    {
        proof {
            assert(models.take(i + 1).drop_last() =~= models.take(i as int));
            assert(models.take(i + 1).last() == segments[i as int]@);
        }
        match parse_segment(&segments[i]) {
            Ok(key) => {
                proof {
                    assert(texts(keys@.push(key)) =~= texts(keys@).push(key@));
                }
                keys.push(key);
            },
            Err(error) => {
                proof {
                    lemma_first_segment_reason_stays(models, i + 1);
                }
                return Err(error);
            },
        }
        i = i + 1;
    }
    assert(models.take(segments.len() as int) =~= models);
    Ok(join_strings(&keys, "::"))
}

/// Writes the key of an array type: the key of its element, a semicolon and
/// its length, between square brackets.
pub fn parse_array(elem: &TypeExpr, len: &ArrayLength) -> (key: Result<String, GenerationError>)
    ensures
        text_or_reason(key) == canonical_key(TypeModel::Array(Box::new(elem@), len@)),
    decreases elem, 1nat,
{
    match parse_type(elem) {
        Ok(inner) => match len {
            ArrayLength::Literal(n) => {
                let digits = decimal_string(*n);
                let mut text = String::from_str("[");
                text.append(inner.as_str());
                text.append(";");
                text.append(digits.as_str());
                text.append("]");
                Ok(text)
            },
            ArrayLength::Expression => Err(GenerationError::NonLiteralArrayLength),
        },
        Err(error) => Err(error),
    }
}

/// Writes the key of a tuple type: the keys of its elements with commas
/// between them, in parentheses.
pub fn parse_tuple(elems: &Vec<TypeExpr>) -> (key: Result<String, GenerationError>)
    ensures
        text_or_reason(key) == canonical_key(TypeModel::Tuple(type_models(*elems))),
    decreases elems, 1nat,
{
    match parse_types(elems) {
        Ok(keys) => {
            let list = join_strings(&keys, ",");
            let mut text = String::from_str("(");
            text.append(list.as_str());
            text.append(")");
            Ok(text)
        },
        Err(error) => Err(error),
    }
}

/// A key holds no white space.
pub proof fn law_key_has_no_whitespace(ty: TypeModel)
    ensures
        canonical_key(ty) matches Ok(key) ==> no_whitespace(key),
    decreases ty,
{
    match ty {
        TypeModel::Path(segments) => {
            lemma_segment_keys_have_no_whitespace(segments);
            if let Ok(keys) = segment_keys(segments) {
                reveal_strlit("::");
                lemma_join_has_no_whitespace(keys, "::"@);
            }
        },
        TypeModel::Tuple(elems) => {
            lemma_keys_have_no_whitespace(elems);
            if let Ok(keys) = canonical_keys(elems) {
                reveal_strlit(",");
                reveal_strlit("(");
                reveal_strlit(")");
                lemma_join_has_no_whitespace(keys, ","@);
                lemma_concat_has_no_whitespace("("@, join(keys, ","@));
                lemma_concat_has_no_whitespace("("@ + join(keys, ","@), ")"@);
            }
        },
        TypeModel::Array(elem, len) => {
            law_key_has_no_whitespace(*elem);
            if let Ok(key) = canonical_key(*elem) {
                if let Some(n) = len {
                    reveal_strlit("[");
                    reveal_strlit(";");
                    reveal_strlit("]");
                    lemma_decimal_has_no_whitespace(n);
                    lemma_concat_has_no_whitespace("["@, key);
                    lemma_concat_has_no_whitespace("["@ + key, ";"@);
                    lemma_concat_has_no_whitespace("["@ + key + ";"@, decimal(n));
                    lemma_concat_has_no_whitespace("["@ + key + ";"@ + decimal(n), "]"@);
                }
            }
        },
        TypeModel::Unsupported => {},
    }
}

/// The keys of a sequence of types hold no white space.
proof fn lemma_keys_have_no_whitespace(types: Seq<TypeModel>)
    ensures
        canonical_keys(types) matches Ok(keys) ==> forall|i: int|
            0 <= i < keys.len() ==> no_whitespace(#[trigger] keys[i]),
    decreases types,
{
    if types.len() > 0 {
        lemma_keys_have_no_whitespace(types.drop_last());
        law_key_has_no_whitespace(types.last());
    }
}

/// The text of a segment holds no white space.
proof fn lemma_segment_key_has_no_whitespace(segment: SegmentModel)
    ensures
        segment_key(segment) matches Ok(key) ==> no_whitespace(key),
    decreases segment,
{
    lemma_keys_have_no_whitespace(segment.arguments);
    if let Ok(keys) = canonical_keys(segment.arguments) {
        lemma_stripped_has_no_whitespace(segment.ident);
        if keys.len() > 0 {
            reveal_strlit(",");
            reveal_strlit("<");
            reveal_strlit(">");
            lemma_join_has_no_whitespace(keys, ","@);
            lemma_concat_has_no_whitespace("<"@, join(keys, ","@));
            lemma_concat_has_no_whitespace("<"@ + join(keys, ","@), ">"@);
        }
        lemma_concat_has_no_whitespace(strip_whitespace(segment.ident), argument_list(keys));
    }
}

/// The texts of the segments of a path hold no white space.
proof fn lemma_segment_keys_have_no_whitespace(segments: Seq<SegmentModel>)
    ensures
        segment_keys(segments) matches Ok(keys) ==> forall|i: int|
            0 <= i < keys.len() ==> no_whitespace(#[trigger] keys[i]),
    decreases segments,
{
    if segments.len() > 0 {
        lemma_segment_keys_have_no_whitespace(segments.drop_last());
        lemma_segment_key_has_no_whitespace(segments.last());
    }
}

/// Whether two types are written alike but for the white space in their
/// names.
pub open spec fn same_but_for_spacing(a: TypeModel, b: TypeModel) -> bool
    decreases a,
{
    match (a, b) {
        (TypeModel::Path(left), TypeModel::Path(right)) => {
            &&& left.len() == right.len()
            &&& forall|i: int|
                0 <= i < left.len() ==> same_segment_but_for_spacing(
                    #[trigger] left[i],
                    right[i],
                )
        },
        (TypeModel::Tuple(left), TypeModel::Tuple(right)) => same_types_but_for_spacing(
            left,
            right,
        ),
        (TypeModel::Array(left, m), TypeModel::Array(right, n)) => {
            &&& same_but_for_spacing(*left, *right)
            &&& m == n
        },
        (TypeModel::Unsupported, TypeModel::Unsupported) => true,
        _ => false,
    }
}

/// Whether two sequences of types are alike, type by type, but for the
/// white space in their names.
pub open spec fn same_types_but_for_spacing(left: Seq<TypeModel>, right: Seq<TypeModel>) -> bool
    decreases left,
{
    &&& left.len() == right.len()
    &&& forall|i: int| 0 <= i < left.len() ==> same_but_for_spacing(#[trigger] left[i], right[i])
}

/// Whether two segments are written alike but for the white space in their
/// names.
pub open spec fn same_segment_but_for_spacing(a: SegmentModel, b: SegmentModel) -> bool
    decreases a,
{
    &&& strip_whitespace(a.ident) == strip_whitespace(b.ident)
    &&& same_types_but_for_spacing(a.arguments, b.arguments)
}

/// Spacing does not matter: two types that are written alike but for the
/// white space in their names have the same key, or none for the same
/// reason.
pub proof fn law_spacing_does_not_matter(a: TypeModel, b: TypeModel)
    requires
        same_but_for_spacing(a, b),
    ensures
        canonical_key(a) == canonical_key(b),
    decreases a,
{
    match (a, b) {
        (TypeModel::Path(left), TypeModel::Path(right)) => {
            lemma_spacing_of_segments(left, right);
        },
        (TypeModel::Tuple(left), TypeModel::Tuple(right)) => {
            lemma_spacing_of_types(left, right);
        },
        (TypeModel::Array(left, m), TypeModel::Array(right, n)) => {
            law_spacing_does_not_matter(*left, *right);
        },
        _ => {},
    }
}

/// Sequences of types that are alike but for spacing have the same keys.
proof fn lemma_spacing_of_types(left: Seq<TypeModel>, right: Seq<TypeModel>)
    requires
        same_types_but_for_spacing(left, right),
    ensures
        canonical_keys(left) == canonical_keys(right),
    decreases left,
{
    if left.len() > 0 {
        assert forall|i: int| 0 <= i < left.drop_last().len() implies same_but_for_spacing(
            #[trigger] left.drop_last()[i],
            right.drop_last()[i],
        ) by {
            assert(same_but_for_spacing(left[i], right[i]));
        }
        lemma_spacing_of_types(left.drop_last(), right.drop_last());
        assert(same_but_for_spacing(left[left.len() - 1], right[left.len() - 1]));
        law_spacing_does_not_matter(left.last(), right.last());
    }
}

/// Paths whose segments are alike but for spacing have the same texts.
proof fn lemma_spacing_of_segments(left: Seq<SegmentModel>, right: Seq<SegmentModel>)
    requires
        left.len() == right.len(),
        forall|i: int|
            0 <= i < left.len() ==> same_segment_but_for_spacing(#[trigger] left[i], right[i]),
    ensures
        segment_keys(left) == segment_keys(right),
    decreases left,
{
    if left.len() > 0 {
        assert forall|i: int| 0 <= i < left.drop_last().len() implies same_segment_but_for_spacing(
            #[trigger] left.drop_last()[i],
            right.drop_last()[i],
        ) by {
            assert(same_segment_but_for_spacing(left[i], right[i]));
        }
        lemma_spacing_of_segments(left.drop_last(), right.drop_last());
        assert(same_segment_but_for_spacing(left[left.len() - 1], right[left.len() - 1]));
        lemma_spacing_of_types(left.last().arguments, right.last().arguments);
        assert(segment_key(left.last()) == segment_key(right.last()));
    }
}

} // verus!
