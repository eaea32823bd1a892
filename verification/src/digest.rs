//! Digests, and the text forms of bytes.
use crate::error::text_outcome;
use base64::engine::general_purpose::STANDARD;
use base64::Engine;
use sha2::{Digest, Sha256};
use vstd::prelude::*;

verus! {

/// The SHA-256 digest of the bytes.
pub uninterp spec fn sha256(bytes: Seq<u8>) -> Seq<u8>;

/// Computes a digest with `sha2::Sha256::digest`. Claims that it is determined by the bytes.
#[verifier::external_body]
pub(crate) fn digest(bytes: &[u8]) -> (hash: [u8; 32])
    ensures
        hash@ == sha256(bytes@),
{
    Sha256::digest(bytes).into()
}

/// The symbol of the standard base64 alphabet for a number below 64.
pub open spec fn symbol(value: int) -> u8 {
    if value < 26 {
        (0x41 + value) as u8
    } else if value < 52 {
        (0x61 + value - 26) as u8
    } else if value < 62 {
        (0x30 + value - 52) as u8
    } else if value == 62 {
        0x2B
    } else {
        0x2F
    }
}

/// The base64 text of the bytes: four symbols for every three bytes, the last four filled up with
/// equals signs.
pub open spec fn base64_text(bytes: Seq<u8>) -> Seq<u8>
    decreases bytes.len(),
{
    let first = bytes[0] as int;
    let second = bytes[1] as int;
    let third = bytes[2] as int;
    if bytes.len() == 0 {
        Seq::empty()
    } else if bytes.len() == 1 {
        seq![symbol(first / 4), symbol(first % 4 * 16), 0x3D, 0x3D]
    } else if bytes.len() == 2 {
        seq![
            symbol(first / 4),
            symbol(first % 4 * 16 + second / 16),
            symbol(second % 16 * 4),
            0x3D,
        ]
    } else {
        seq![
            symbol(first / 4),
            symbol(first % 4 * 16 + second / 16),
            symbol(second % 16 * 4 + third / 64),
            symbol(third % 64),
        ] + base64_text(bytes.skip(3))
    }
}

/// How the refusal of a text that is no base64 reads.
pub uninterp spec fn base64_error(text: Seq<u8>) -> Seq<char>;

/// Decodes with the `STANDARD` engine of `base64`, which takes the canonical padding and no stray
/// bits. Claims that the decoding succeeds exactly on the texts that are the base64 text of some
/// bytes, that it gives these bytes, and that the text of the error is determined by what was
/// refused.
#[verifier::external_body]
pub(crate) fn decode_base64(text: &[u8]) -> (result: Result<Vec<u8>, String>)
    ensures
        match result {
            Ok(bytes) => text@ == base64_text(bytes@),
            Err(error) => (forall|bytes: Seq<u8>| text@ != #[trigger] base64_text(bytes)) && error@
                == base64_error(text@),
        },
{
    STANDARD.decode(text).map_err(|error| error.to_string())
}

/// The bytes whose base64 text this is, or why it is none.
pub open spec fn base64_decoded(text: Seq<u8>) -> Result<Seq<u8>, Seq<char>> {
    if exists|bytes: Seq<u8>| text == #[trigger] base64_text(bytes) {
        Ok(choose|bytes: Seq<u8>| text == #[trigger] base64_text(bytes))
    } else {
        Err(base64_error(text))
    }
}

/// No two byte strings have the same base64 text.
pub proof fn base64_texts_differ(left: Seq<u8>, right: Seq<u8>)
    requires
        base64_text(left) == base64_text(right),
    ensures
        left == right,
    decreases left.len(),
{
    let a = base64_text(left);
    let b = base64_text(right);
    if left.len() == 0 || right.len() == 0 {
        assert(left.len() > 0 ==> a.len() > 0);
        assert(right.len() > 0 ==> b.len() > 0);
        assert(left =~= right);
    } else {
        assert(a[0] == b[0] && a[1] == b[1] && a[2] == b[2] && a[3] == b[3]);
        assert(left[0] == right[0]);
        if left.len() >= 3 && right.len() >= 3 {
            assert(left[1] == right[1] && left[2] == right[2]);
            assert(base64_text(left.skip(3)) =~= a.skip(4));
            assert(base64_text(right.skip(3)) =~= b.skip(4));
            base64_texts_differ(left.skip(3), right.skip(3));
            assert(left =~= left.take(3) + left.skip(3));
            assert(right =~= right.take(3) + right.skip(3));
            assert(left.take(3) =~= right.take(3));
        } else {
            assert(left.len() == right.len());
            assert(left =~= right);
        }
    }
}

/// The bytes whose base64 text this is.
pub fn read_base64(text: &[u8]) -> (result: Result<Vec<u8>, String>)
    ensures
        text_outcome(result) == base64_decoded(text@),
{
    let result = decode_base64(text);
    proof {
        if let Ok(bytes) = &result {
            let chosen = choose|bytes: Seq<u8>| text@ == #[trigger] base64_text(bytes);
            assert(text@ == base64_text(bytes@));
            base64_texts_differ(bytes@, chosen);
        }
    }
    result
}

/// The upper case hexadecimal digit of a number below 16.
pub open spec fn hex_digit(value: int) -> char {
    if value < 10 {
        (('0' as int) + value) as char
    } else {
        (('A' as int) + value - 10) as char
    }
}

/// The bytes as upper case hexadecimal text: two digits each, the more significant one first.
pub open spec fn upper_hex(bytes: Seq<u8>) -> Seq<char> {
    Seq::new(
        2 * bytes.len(),
        |i: int|
            hex_digit(
                if i % 2 == 0 {
                    bytes[i / 2] as int / 16
                } else {
                    bytes[i / 2] as int % 16
                },
            ),
    )
}

/// The text of a transaction hash, as `tendermint::Hash` displays one. Claims that it is the upper
/// case hexadecimal text of the bytes.
#[verifier::external_body]
pub(crate) fn hash_text(hash: &[u8; 32]) -> (text: String)
    ensures
        text@ == upper_hex(hash@),
{
    cosmrs::tendermint::Hash::Sha256(*hash).to_string()
}

/// Whether the two byte strings are equal.
pub fn same_bytes(left: &[u8], right: &[u8]) -> (same: bool)
    ensures
        same == (left@ == right@),
{
    if left.len() != right.len() {
        return false;
    }
    let mut i: usize = 0;
    while i < left.len()
        invariant
            i <= left@.len(),
            left@.len() == right@.len(),
            forall|j: int| 0 <= j < i ==> left@[j] == right@[j],
        decreases left@.len() - i,
    {
        if left[i] != right[i] {
            return false;
        }
        i = i + 1;
    }
    assert(left@ =~= right@);
    true
}

/// The hash by which a chain knows a transaction: the digest of its bytes.
pub fn transaction_hash(bytes: &[u8]) -> (hash: [u8; 32])
    ensures
        hash@ == sha256(bytes@),
{
    digest(bytes)
}

/// What is written in base64 is read back, whole, and nothing else is read.
pub proof fn base64_is_read_back(bytes: Seq<u8>, text: Seq<u8>)
    ensures
        base64_decoded(base64_text(bytes)) == Ok::<Seq<u8>, Seq<char>>(bytes),
        base64_decoded(text) matches Ok(read) ==> base64_text(read) == text,
        base64_decoded(text) matches Err(error) ==> error == base64_error(text)
            && base64_text(bytes) != text,
{
    let written = base64_text(bytes);
    let chosen = choose|other: Seq<u8>| written == #[trigger] base64_text(other);
    base64_texts_differ(bytes, chosen);
}

/// Every byte is written as its two digits out of sixteen, the more significant one first.
pub proof fn hexadecimal_has_two_digits_a_byte(bytes: Seq<u8>, place: int)
    requires
        0 <= place < bytes.len(),
    ensures
        upper_hex(bytes).len() == 2 * bytes.len(),
        upper_hex(bytes)[2 * place] == "0123456789ABCDEF"@[bytes[place] as int / 16],
        upper_hex(bytes)[2 * place + 1] == "0123456789ABCDEF"@[bytes[place] as int % 16],
{
    reveal_strlit("0123456789ABCDEF");
    let digits = "0123456789ABCDEF"@;
    assert((2 * place) / 2 == place && (2 * place + 1) / 2 == place);
    let high = bytes[place] as int / 16;
    let low = bytes[place] as int % 16;
    assert(0 <= high < 16 && 0 <= low < 16);
    assert forall|value: int| 0 <= value < 16 implies hex_digit(value)
        == #[trigger] digits[value] by {
        assert(digits[0] == '0' && digits[1] == '1' && digits[2] == '2' && digits[3] == '3');
        assert(digits[4] == '4' && digits[5] == '5' && digits[6] == '6' && digits[7] == '7');
        assert(digits[8] == '8' && digits[9] == '9' && digits[10] == 'A' && digits[11] == 'B');
        assert(digits[12] == 'C' && digits[13] == 'D' && digits[14] == 'E' && digits[15] == 'F');
    }
}

/// The symbols are the standard alphabet, in its order.
pub proof fn symbols_are_the_alphabet(value: int)
    requires
        0 <= value < 64,
    ensures
        symbol(value) as char
            == "ABCDEFGHIJKLMNOPQRSTUVWXYZabcdefghijklmnopqrstuvwxyz0123456789+/"@[value],
{
    reveal_strlit("ABCDEFGHIJKLMNOPQRSTUVWXYZabcdefghijklmnopqrstuvwxyz0123456789+/");
    let alphabet = "ABCDEFGHIJKLMNOPQRSTUVWXYZabcdefghijklmnopqrstuvwxyz0123456789+/"@;
    assert(alphabet[0] == 'A' && alphabet[1] == 'B' && alphabet[2] == 'C' && alphabet[3] == 'D');
    assert(alphabet[4] == 'E' && alphabet[5] == 'F' && alphabet[6] == 'G' && alphabet[7] == 'H');
    assert(alphabet[8] == 'I' && alphabet[9] == 'J' && alphabet[10] == 'K' && alphabet[11] == 'L');
    assert(alphabet[12] == 'M' && alphabet[13] == 'N' && alphabet[14] == 'O');
    assert(alphabet[15] == 'P' && alphabet[16] == 'Q' && alphabet[17] == 'R');
    assert(alphabet[18] == 'S' && alphabet[19] == 'T' && alphabet[20] == 'U');
    assert(alphabet[21] == 'V' && alphabet[22] == 'W' && alphabet[23] == 'X');
    assert(alphabet[24] == 'Y' && alphabet[25] == 'Z' && alphabet[26] == 'a');
    assert(alphabet[27] == 'b' && alphabet[28] == 'c' && alphabet[29] == 'd');
    assert(alphabet[30] == 'e' && alphabet[31] == 'f' && alphabet[32] == 'g');
    assert(alphabet[33] == 'h' && alphabet[34] == 'i' && alphabet[35] == 'j');
    assert(alphabet[36] == 'k' && alphabet[37] == 'l' && alphabet[38] == 'm');
    assert(alphabet[39] == 'n' && alphabet[40] == 'o' && alphabet[41] == 'p');
    assert(alphabet[42] == 'q' && alphabet[43] == 'r' && alphabet[44] == 's');
    assert(alphabet[45] == 't' && alphabet[46] == 'u' && alphabet[47] == 'v');
    assert(alphabet[48] == 'w' && alphabet[49] == 'x' && alphabet[50] == 'y');
    assert(alphabet[51] == 'z' && alphabet[52] == '0' && alphabet[53] == '1');
    assert(alphabet[54] == '2' && alphabet[55] == '3' && alphabet[56] == '4');
    assert(alphabet[57] == '5' && alphabet[58] == '6' && alphabet[59] == '7');
    assert(alphabet[60] == '8' && alphabet[61] == '9' && alphabet[62] == '+');
    assert(alphabet[63] == '/');
}

/// Three bytes become the four symbols whose values make up the same number of 24 bits. At the end
/// of the bytes, one or two of them become the first symbols of what they and zeros become.
pub proof fn four_symbols_hold_three_bytes(
    first: u8,
    second: u8,
    third: u8,
    rest: Seq<u8>,
    values: Seq<int>,
)
    requires
        values.len() == 4,
        forall|i: int| 0 <= i < 4 ==> 0 <= #[trigger] values[i] < 64,
        ((values[0] * 64 + values[1]) * 64 + values[2]) * 64 + values[3] == (first * 256 + second)
            * 256 + third,
    ensures
        base64_text(seq![first, second, third] + rest) == seq![
            symbol(values[0]),
            symbol(values[1]),
            symbol(values[2]),
            symbol(values[3]),
        ] + base64_text(rest),
        third == 0 ==> base64_text(seq![first, second]) == seq![
            symbol(values[0]),
            symbol(values[1]),
            symbol(values[2]),
            0x3D,
        ],
        second == 0 && third == 0 ==> base64_text(seq![first]) == seq![
            symbol(values[0]),
            symbol(values[1]),
            0x3D,
            0x3D,
        ],
        base64_text(Seq::empty()) == Seq::<u8>::empty(),
{
    let bytes = seq![first, second, third] + rest;
    assert(bytes.skip(3) =~= rest);
    assert(bytes[0] == first && bytes[1] == second && bytes[2] == third);
    assert(values[0] == first / 4);
    assert(values[1] == first % 4 * 16 + second / 16);
    assert(values[2] == second % 16 * 4 + third / 64);
    assert(values[3] == third % 64);
}

} // verus!
