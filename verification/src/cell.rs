//! Reading one spreadsheet cell: noise removal and integer parsing.

use crate::decimal::{
    decimal_text, digits_text, i64_value, is_digit, lemma_decimal_round_trip,
    lemma_digits_round_trip, read_integer,
};
use vstd::prelude::*;

verus! {

/// The ruble sign that the sheet appends to every amount.
pub const CURRENCY_SIGN: char = '\u{20BD}';

/// Whether `c` is white space: the code points with the Unicode property
/// `White_Space`.
pub open spec fn is_whitespace(c: char) -> bool {
    let u = c as int;
    ||| 0x09 <= u <= 0x0D
    ||| u == 0x20
    ||| u == 0x85
    ||| u == 0xA0
    ||| u == 0x1680
    ||| 0x2000 <= u <= 0x200A
    ||| u == 0x2028
    ||| u == 0x2029
    ||| u == 0x202F
    ||| u == 0x205F
    ||| u == 0x3000
}

/// Whether `c` is dropped from a cell before its digits are read: the
/// currency sign and white space, nothing else.
pub open spec fn is_noise(c: char) -> bool {
    c == CURRENCY_SIGN || is_whitespace(c)
}

/// The text of a cell without its noise characters, the others kept in order.
pub open spec fn stripped(s: Seq<char>) -> Seq<char> {
    s.filter(|c: char| !is_noise(c))
}

/// The number in a cell: what is left of its text once the noise is gone,
/// read as a 64-bit integer literal. `None` where that is no such literal.
pub open spec fn cell_value(s: Seq<char>) -> Option<i64> {
    i64_value(stripped(s))
}

/// Decides [`is_noise`] for one character.
pub fn noise(c: char) -> (b: bool)
    ensures
        b == is_noise(c),
{
    let u: u32 = c as u32;
    c == CURRENCY_SIGN || (0x09 <= u && u <= 0x0D) || u == 0x20 || u == 0x85 || u == 0xA0 || u
        == 0x1680 || (0x2000 <= u && u <= 0x200A) || u == 0x2028 || u == 0x2029 || u == 0x202F
        || u == 0x205F || u == 0x3000
}

/// Appending one character to a text appends it to the stripped text too,
/// unless it is noise.
pub proof fn lemma_stripped_push(s: Seq<char>, c: char)
    ensures
        stripped(s.push(c)) == if is_noise(c) {
            stripped(s)
        } else {
            stripped(s).push(c)
        },
{
    let t = s.push(c);
    assert(t.drop_last() =~= s);
    assert(t.last() == c);
    reveal_with_fuel(Seq::filter, 2);
}

/// Removes the noise characters of `text`.
pub fn strip_noise(text: &str) -> (out: Vec<char>)
    ensures
        out@ == stripped(text@),
{
    let mut out: Vec<char> = Vec::new();
    for c in it: text.chars()
        invariant
            it.seq() == text@,
            out@ == stripped(text@.take(it.index())),
    {
        proof {
            let i = it.index();
            assert(text@.take(i + 1) =~= text@.take(i).push(c));
            lemma_stripped_push(text@.take(i), c);
        }
        if !noise(c) {
            out.push(c);
        }
    }
    assert(text@.take(text@.len() as int) =~= text@);
    out
}

/// Reads the number in a cell.
pub fn parse_cell(text: &str) -> (r: Option<i64>)
    ensures
        r == cell_value(text@),
{
    let chars = strip_noise(text);
    read_integer(&chars)
}

/// Stripping a text made of two parts strips each part.
pub proof fn lemma_stripped_concat(a: Seq<char>, b: Seq<char>)
    ensures
        stripped(a + b) == stripped(a) + stripped(b),
{
    Seq::filter_distributes_over_add(a, b, |c: char| !is_noise(c));
}

/// A text without noise is left as it is.
pub proof fn lemma_stripped_clean(s: Seq<char>)
    requires
        forall|i: int| 0 <= i < s.len() ==> !is_noise(#[trigger] s[i]),
    ensures
        stripped(s) == s,
    decreases s.len(),
{
    if s.len() > 0 {
        lemma_stripped_clean(s.drop_last());
        assert(s.drop_last().push(s.last()) =~= s);
        lemma_stripped_push(s.drop_last(), s.last());
    }
}

/// A text of noise alone is stripped to nothing.
pub proof fn lemma_stripped_noise(s: Seq<char>)
    requires
        forall|i: int| 0 <= i < s.len() ==> is_noise(#[trigger] s[i]),
    ensures
        stripped(s) == Seq::<char>::empty(),
    decreases s.len(),
{
    if s.len() > 0 {
        lemma_stripped_noise(s.drop_last());
        assert(s.drop_last().push(s.last()) =~= s);
        lemma_stripped_push(s.drop_last(), s.last());
    }
}

/// Noise may stand anywhere in a cell: putting a run of it between two
/// parts of the text does not change the number that is read.
pub proof fn lemma_noise_is_ignored(before: Seq<char>, noise: Seq<char>, after: Seq<char>)
    requires
        forall|i: int| 0 <= i < noise.len() ==> is_noise(#[trigger] noise[i]),
    ensures
        stripped(before + noise + after) == stripped(before + after),
        cell_value(before + noise + after) == cell_value(before + after),
{
    lemma_stripped_noise(noise);
    lemma_stripped_concat(before, noise);
    lemma_stripped_concat(before + noise, after);
    lemma_stripped_concat(before, after);
    assert(stripped(before) + Seq::<char>::empty() =~= stripped(before));
}

/// The decimal text of a number holds no noise.
pub proof fn lemma_decimal_text_is_clean(v: int)
    ensures
        stripped(decimal_text(v)) == decimal_text(v),
{
    let s = decimal_text(v);
    let magnitude = if v < 0 {
        (-v) as nat
    } else {
        v as nat
    };
    lemma_digits_round_trip(magnitude);
    assert forall|i: int| 0 <= i < s.len() implies !is_noise(#[trigger] s[i]) by {
        if v < 0 && i > 0 {
            assert(s[i] == digits_text(magnitude)[i - 1]);
            assert(is_digit(s[i]));
        } else if v >= 0 {
            assert(is_digit(s[i]));
        }
    }
    lemma_stripped_clean(s);
}

/// A cell whose text, the noise apart, is the decimal text of `v` reads as
/// `v`, wherever the currency sign and the white space stand in it.
pub proof fn lemma_cell_reads_amount(s: Seq<char>, v: i64)
    requires
        stripped(s) == decimal_text(v as int),
    ensures
        cell_value(s) == Some(v),
{
    lemma_decimal_round_trip(v as int);
}

/// An amount written as the sheet writes it, the number followed by a
/// space and the currency sign, reads as that amount.
pub proof fn lemma_cell_reads_formatted(v: i64)
    ensures
        cell_value(decimal_text(v as int) + seq![' ', CURRENCY_SIGN]) == Some(v),
{
    let number = decimal_text(v as int);
    let tail = seq![' ', CURRENCY_SIGN];
    assert(is_noise(' '));
    assert(is_noise(CURRENCY_SIGN));
    assert forall|i: int| 0 <= i < tail.len() implies is_noise(#[trigger] tail[i]) by {
        assert(tail[i] == ' ' || tail[i] == CURRENCY_SIGN);
    }
    lemma_stripped_noise(tail);
    lemma_decimal_text_is_clean(v as int);
    lemma_stripped_concat(number, tail);
    assert(number + Seq::<char>::empty() =~= number);
    lemma_cell_reads_amount(number + tail, v);
}

} // verus!
