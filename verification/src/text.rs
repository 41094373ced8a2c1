//! Text as sequences of characters: what the generator writes is built from
//! the few operations of this module.

use vstd::prelude::*;

verus! {

/// Whether `c` is white space in the sense of Unicode's `White_Space`
/// property.
pub open spec fn is_whitespace(c: char) -> bool {
    let code = c as u32;
    ||| 0x09 <= code <= 0x0d
    ||| code == 0x20
    ||| code == 0x85
    ||| code == 0xa0
    ||| code == 0x1680
    ||| 0x2000 <= code <= 0x200a
    ||| code == 0x2028
    ||| code == 0x2029
    ||| code == 0x202f
    ||| code == 0x205f
    ||| code == 0x3000
}

/// `text` without its white space.
pub open spec fn strip_whitespace(text: Seq<char>) -> Seq<char> {
    text.filter(|c: char| !is_whitespace(c))
}

/// Whether `text` holds no white space.
pub open spec fn no_whitespace(text: Seq<char>) -> bool {
    forall|i: int| 0 <= i < text.len() ==> !is_whitespace(#[trigger] text[i])
}

/// The parts in order, with `separator` between each two neighbours.
pub open spec fn join(parts: Seq<Seq<char>>, separator: Seq<char>) -> Seq<char>
    decreases parts.len(),
{
    if parts.len() == 0 {
        Seq::empty()
    } else if parts.len() == 1 {
        parts[0]
    } else {
        join(parts.drop_last(), separator) + separator + parts.last()
    }
}

/// The texts that a vector of strings holds.
pub open spec fn texts(strings: Seq<String>) -> Seq<Seq<char>> {
    strings.map_values(|s: String| s@)
}

/// The decimal digit of a number below ten.
pub open spec fn digit(d: nat) -> char {
    if d == 0 {
        '0'
    } else if d == 1 {
        '1'
    } else if d == 2 {
        '2'
    } else if d == 3 {
        '3'
    } else if d == 4 {
        '4'
    } else if d == 5 {
        '5'
    } else if d == 6 {
        '6'
    } else if d == 7 {
        '7'
    } else if d == 8 {
        '8'
    } else {
        '9'
    }
}

/// `n` written in base ten, without leading zeros.
pub open spec fn decimal(n: nat) -> Seq<char>
    decreases n,
{
    if n < 10 {
        seq![digit(n)]
    } else {
        decimal(n / 10).push(digit(n % 10))
    }
}

/// `String::push` of std: the character is appended at the end.
#[verifier::external_body]
fn push_char(text: &mut String, c: char)
    ensures
        final(text)@ == old(text)@.push(c),
{
    text.push(c);
}

/// Tells whether `c` is white space.
pub fn is_whitespace_char(c: char) -> (white: bool)
    ensures
        white == is_whitespace(c),
{
    let code: u32 = c as u32;
    (0x09 <= code && code <= 0x0d) || code == 0x20 || code == 0x85 || code == 0xa0 || code
        == 0x1680 || (0x2000 <= code && code <= 0x200a) || code == 0x2028 || code == 0x2029
        || code == 0x202f || code == 0x205f || code == 0x3000
}

/// Copies `text` without its white space.
pub fn without_whitespace(text: &str) -> (stripped: String)
    ensures
        stripped@ == strip_whitespace(text@),
{
    broadcast use vstd::string::group_string_axioms;

    let mut stripped = String::new();
    reveal_with_fuel(Seq::filter, 1);
    for c in it: text.chars()
        invariant
            it.seq() == text@,
            stripped@ == strip_whitespace(text@.take(it.index())),
    {
        proof {
            let done = text@.take(it.index() + 1);
            assert(done.drop_last() =~= text@.take(it.index()));
            assert(done.last() == c);
            reveal_with_fuel(Seq::filter, 1);
        }
        if !is_whitespace_char(c) {
            push_char(&mut stripped, c);
        }
    }
    assert(text@.take(text@.len() as int) =~= text@);
    stripped
}

/// Writes the parts in order, with `separator` between each two neighbours.
pub fn join_strings(parts: &Vec<String>, separator: &str) -> (joined: String)
    ensures
        joined@ == join(texts(parts@), separator@),
{
    let mut joined = String::new();
    let mut i: usize = 0;
    while i < parts.len()
        invariant
            i <= parts.len(),
            joined@ == join(texts(parts@).take(i as int), separator@),
        decreases parts.len() - i,
    {
        proof {
            let done = texts(parts@).take(i + 1);
            assert(done.drop_last() =~= texts(parts@).take(i as int));
            assert(done.last() == parts[i as int]@);
        }
        if i > 0 {
            joined.append(separator);
        }
        joined.append(parts[i].as_str());
        i = i + 1;
    }
    assert(texts(parts@).take(parts.len() as int) =~= texts(parts@));
    joined
}

/// The character of a digit.
fn digit_char(d: u64) -> (c: char)
    requires
        d < 10,
    ensures
        c == digit(d as nat),
{
    if d == 0 {
        '0'
    } else if d == 1 {
        '1'
    } else if d == 2 {
        '2'
    } else if d == 3 {
        '3'
    } else if d == 4 {
        '4'
    } else if d == 5 {
        '5'
    } else if d == 6 {
        '6'
    } else if d == 7 {
        '7'
    } else if d == 8 {
        '8'
    } else {
        '9'
    }
}

/// Writes `n` in base ten, without leading zeros.
pub fn decimal_string(n: u64) -> (written: String)
    ensures
        written@ == decimal(n as nat),
    decreases n,
{
    if n < 10 {
        let mut written = String::new();
        push_char(&mut written, digit_char(n));
        written
    } else {
        let mut written = decimal_string(n / 10);
        push_char(&mut written, digit_char(n % 10));
        written
    }
}

/// What is left of a text without its white space holds none.
pub proof fn lemma_stripped_has_no_whitespace(text: Seq<char>)
    ensures
        no_whitespace(strip_whitespace(text)),
{
    let keep = |c: char| !is_whitespace(c);
    assert forall|i: int| 0 <= i < strip_whitespace(text).len() implies !is_whitespace(
        #[trigger] strip_whitespace(text)[i],
    ) by {
        text.lemma_filter_pred(keep, i);
    }
}

/// Two texts without white space make one without white space.
pub proof fn lemma_concat_has_no_whitespace(a: Seq<char>, b: Seq<char>)
    requires
        no_whitespace(a),
        no_whitespace(b),
    ensures
        no_whitespace(a + b),
{
    assert forall|i: int| 0 <= i < (a + b).len() implies !is_whitespace(#[trigger] (a + b)[i]) by {
        if i < a.len() {
            assert((a + b)[i] == a[i]);
        } else {
            assert((a + b)[i] == b[i - a.len()]);
        }
    }
}

/// Parts without white space, joined by a separator without white space,
/// make a text without white space.
pub proof fn lemma_join_has_no_whitespace(parts: Seq<Seq<char>>, separator: Seq<char>)
    requires
        forall|i: int| 0 <= i < parts.len() ==> no_whitespace(#[trigger] parts[i]),
        no_whitespace(separator),
    ensures
        no_whitespace(join(parts, separator)),
    decreases parts.len(),
{
    if parts.len() >= 2 {
        lemma_join_has_no_whitespace(parts.drop_last(), separator);
        lemma_concat_has_no_whitespace(join(parts.drop_last(), separator), separator);
        lemma_concat_has_no_whitespace(join(parts.drop_last(), separator) + separator, parts.last());
    }
}

/// A number in base ten holds no white space.
pub proof fn lemma_decimal_has_no_whitespace(n: nat)
    ensures
        no_whitespace(decimal(n)),
    decreases n,
{
    if n >= 10 {
        lemma_decimal_has_no_whitespace(n / 10);
        assert(decimal(n) == decimal(n / 10) + seq![digit(n % 10)]);
        lemma_concat_has_no_whitespace(decimal(n / 10), seq![digit(n % 10)]);
    }
}

} // verus!
