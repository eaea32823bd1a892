//! Comparison, slicing and reading of text.
use vstd::prelude::*;
use vstd::utf8::{decode_utf8, valid_utf8};

verus! {

/// Whether `text` ends with `suffix`.
pub open spec fn is_suffix(suffix: Seq<char>, text: Seq<char>) -> bool {
    suffix.len() <= text.len() && text.skip(text.len() - suffix.len()) == suffix
}

/// `text` without `suffix` where it ends with it, else the whole of `text`.
pub open spec fn stripped(text: Seq<char>, suffix: Seq<char>) -> Seq<char> {
    if is_suffix(suffix, text) {
        text.take(text.len() - suffix.len())
    } else {
        text
    }
}

/// Whether the two texts hold the same characters.
pub fn same_text(left: &str, right: &str) -> (same: bool)
    ensures
        same == (left@ == right@),
{
    left.to_owned() == right.to_owned()
}

/// Whether `text` begins with `prefix`.
pub fn begins_with(text: &str, prefix: &str) -> (begins: bool)
    ensures
        begins == prefix@.is_prefix_of(text@),
{
    let length: usize = prefix.unicode_len();
    if text.unicode_len() < length {
        return false;
    }
    same_text(text.substring_char(0, length), prefix)
}

/// Removes `suffix` from the end of `text`, once, where it stands there.
pub fn without_suffix(text: &str, suffix: &str) -> (rest: String)
    ensures
        rest@ == stripped(text@, suffix@),
{
    let whole: usize = text.unicode_len();
    let tail: usize = suffix.unicode_len();
    if tail <= whole && same_text(text.substring_char(whole - tail, whole), suffix) {
        text.substring_char(0, whole - tail).to_owned()
    } else {
        text.to_owned()
    }
}

/// Reads bytes as text with `String::from_utf8` of the standard library. Claims that there is a
/// text exactly where the bytes are valid UTF-8, and that it is the one that they encode.
#[verifier::external_body]
pub(crate) fn read_utf8(bytes: &[u8]) -> (text: Option<String>)
    ensures
        match text {
            Some(text) => valid_utf8(bytes@) && text@ == decode_utf8(bytes@),
            None => !valid_utf8(bytes@),
        },
{
    String::from_utf8(bytes.to_vec()).ok()
}

/// Whether the character is a decimal digit.
pub open spec fn is_digit(c: char) -> bool {
    '0' <= c && c <= '9'
}

/// The digits of a decimal numeral: what stands behind its sign, where it has a plus sign.
pub open spec fn digits(text: Seq<char>) -> Seq<char> {
    if text.len() > 0 && text[0] == '+' {
        text.skip(1)
    } else {
        text
    }
}

/// Whether the text is a decimal numeral without a minus sign.
pub open spec fn is_numeral(text: Seq<char>) -> bool {
    &&& digits(text).len() > 0
    &&& forall|i: int| 0 <= i < digits(text).len() ==> is_digit(#[trigger] digits(text)[i])
}

/// The number that decimal digits write.
pub open spec fn decimal(digits: Seq<char>) -> nat
    decreases digits.len(),
{
    if digits.len() == 0 {
        0
    } else {
        decimal(digits.drop_last()) * 10 + (digits.last() as nat - '0' as nat) as nat
    }
}

/// How the refusal of a numeral reads.
pub uninterp spec fn numeral_error(text: Seq<char>) -> Seq<char>;

/// Parses a `u128` with `str::parse` of the standard library. Claims that the parse succeeds on the
/// decimal numerals whose number fits in 128 bits and on no other text, that it gives their number,
/// and that the text of the error is determined by what was refused.
#[verifier::external_body]
pub(crate) fn parse_number(text: &str) -> (result: Result<u128, String>)
    ensures
        match result {
            Ok(number) => is_numeral(text@) && number == decimal(digits(text@)),
            Err(error) => !(is_numeral(text@) && decimal(digits(text@)) <= u128::MAX) && error@
                == numeral_error(text@),
        },
{
    text.parse::<u128>().map_err(|error| error.to_string())
}

/// The text in quotation marks, as a program's own text is written.
pub uninterp spec fn quoted(text: Seq<char>) -> Seq<char>;

/// Quotes a text with the `Debug` format of the standard library. Claims that the outcome is
/// determined by the text.
#[verifier::external_body]
pub(crate) fn quote(text: &str) -> (quotation: String)
    ensures
        quotation@ == quoted(text@),
{
    format!("{text:?}")
}

/// A suffix is removed from every text that it was put behind, once, and whatever stands before it
/// is kept. A text that no rest and suffix make up is kept whole.
pub proof fn suffixes_are_removed_once(text: Seq<char>, rest: Seq<char>, suffix: Seq<char>)
    ensures
        stripped(rest + suffix, suffix) == rest,
        stripped(text, suffix) + suffix == text || stripped(text, suffix) == text,
        (forall|before: Seq<char>| #[trigger] (before + suffix) != text) ==> stripped(text, suffix)
            == text,
{
    let whole = rest + suffix;
    assert(whole.skip(whole.len() - suffix.len()) =~= suffix);
    assert(whole.take(whole.len() - suffix.len()) =~= rest);
    if is_suffix(suffix, text) {
        let before = text.take(text.len() - suffix.len());
        assert(before + suffix =~= text);
    }
}

/// A decimal numeral is read digit by digit: one more digit makes ten times the number and adds the
/// digit. A plus sign in front changes nothing, and neither does a zero.
pub proof fn numerals_are_read_digit_by_digit(text: Seq<char>, digit: char)
    requires
        is_digit(digit),
    ensures
        decimal(text.push(digit)) == 10 * decimal(text) + (digit as nat - '0' as nat),
        decimal(seq!['0'] + text) == decimal(text),
        text.len() > 0 && text[0] != '+' ==> digits(seq!['+'] + text) == digits(text),
        is_numeral(seq![digit]),
        is_numeral(text) ==> is_numeral(text.push(digit)),
        !is_numeral(Seq::empty()),
        !is_numeral(seq!['+']),
        forall|c: char| !is_digit(c) ==> !#[trigger] is_numeral(text.push(c)),
    decreases text.len(),
{
    assert(text.push(digit).drop_last() =~= text);
    if text.len() > 0 {
        numerals_are_read_digit_by_digit(text.drop_last(), digit);
        let longer = seq!['0'] + text;
        assert(longer.drop_last() =~= seq!['0'] + text.drop_last());
        assert(longer.last() == text.last());
    } else {
        let longer = seq!['0'] + text;
        assert(longer.drop_last() =~= Seq::empty());
        assert(decimal(Seq::empty()) == 0);
        assert(decimal(longer) == decimal(longer.drop_last()) * 10 + 0);
    }
    assert((seq!['+'] + text).skip(1) =~= text);
    assert(digits(seq![digit]) =~= seq![digit]);
    assert(digits(seq!['+']) =~= Seq::empty());
    if is_numeral(text) {
        assert(digits(text.push(digit)) =~= digits(text).push(digit));
    }
    assert forall|c: char| !is_digit(c) implies !#[trigger] is_numeral(text.push(c)) by {
        let longer = text.push(c);
        if digits(longer).len() > 0 {
            assert(digits(longer)[digits(longer).len() - 1] == c);
        }
    }
}

} // verus!
