//! Hexadecimal text: what an encoding is, and the two calls that produce and
//! read one.

use vstd::prelude::*;

verus! {

/// The sixteen lowercase digits, by value.
pub open spec fn digits() -> Seq<char> {
    seq!['0', '1', '2', '3', '4', '5', '6', '7', '8', '9', 'a', 'b', 'c', 'd', 'e', 'f']
}

/// The value of a hexadecimal digit of either case, if `c` is one.
pub open spec fn digit_value(c: char) -> Option<u8> {
    if '0' <= c && c <= '9' {
        Some((c as u8 - '0' as u8) as u8)
    } else if 'a' <= c && c <= 'f' {
        Some((c as u8 - 'a' as u8 + 10) as u8)
    } else if 'A' <= c && c <= 'F' {
        Some((c as u8 - 'A' as u8 + 10) as u8)
    } else {
        None
    }
}

/// Lowercase hexadecimal text of `bytes`: two digits per byte, high nibble first.
pub open spec fn encoded(bytes: Seq<u8>) -> Seq<char> {
    Seq::new(
        2 * bytes.len(),
        |i: int| if i % 2 == 0 {
            digits()[(bytes[i / 2] / 16) as int]
        } else {
            digits()[(bytes[i / 2] % 16) as int]
        },
    )
}

/// Whether `text` is hexadecimal: an even number of digits, of either case.
pub open spec fn is_hex(text: Seq<char>) -> bool {
    &&& text.len() % 2 == 0
    &&& forall|i: int| 0 <= i < text.len() ==> (#[trigger] digit_value(text[i])) is Some
}

/// The bytes that hexadecimal `text` stands for.
pub open spec fn decoded(text: Seq<char>) -> Seq<u8> {
    Seq::new(
        (text.len() / 2) as nat,
        |i: int| (digit_value(text[2 * i]).unwrap() * 16 + digit_value(text[2 * i + 1]).unwrap()) as u8,
    )
}

/// Decoding an encoding gives the bytes back.
pub proof fn lemma_decode_encode(bytes: Seq<u8>)
    ensures
        is_hex(encoded(bytes)),
        decoded(encoded(bytes)) == bytes,
{
    let text = encoded(bytes);
    assert forall|i: int| 0 <= i < text.len() implies (#[trigger] digit_value(text[i])) is Some by {
        lemma_digit_round_trip((bytes[i / 2] / 16) as u8);
        lemma_digit_round_trip((bytes[i / 2] % 16) as u8);
    }
    assert forall|i: int| 0 <= i < bytes.len() implies decoded(text)[i] == bytes[i] by {
        lemma_digit_round_trip((bytes[i] / 16) as u8);
        lemma_digit_round_trip((bytes[i] % 16) as u8);
        assert(text[2 * i] == digits()[(bytes[i] / 16) as int]);
        assert(text[2 * i + 1] == digits()[(bytes[i] % 16) as int]);
    }
    assert(decoded(text) =~= bytes);
}

proof fn lemma_digit_round_trip(n: u8)
    requires
        n < 16,
    ensures
        digit_value(digits()[n as int]) == Some(n),
{
}

/// Calls `hex::encode` of the hex crate, which writes each byte as two
/// lowercase digits, the high nibble first.
#[verifier::external_body]
pub(crate) fn encode(bytes: &[u8]) -> (text: String)
    ensures
        text@ == encoded(bytes@),
{
    ::hex::encode(bytes)
}

/// The words in which `hex::decode` of the hex crate refuses `text`, for
/// text that it refuses: what its error prints.
pub uninterp spec fn decode_fault(text: Seq<char>) -> Seq<char>;

/// Calls `hex::decode` of the hex crate. It succeeds exactly on an even
/// number of digits of either case, and then gives one byte per pair, the
/// first digit of a pair being the high nibble. Any character outside ASCII
/// is no digit, so the count of characters and of bytes agree whenever it
/// succeeds. Where it fails, the error is handed on as the words that it
/// prints, which the text alone decides.
#[verifier::external_body]
pub(crate) fn decode(text: &str) -> (r: Result<Vec<u8>, String>)
    ensures
        match r {
            Ok(bytes) => is_hex(text@) && bytes@ == decoded(text@),
            Err(why) => !is_hex(text@) && why@ == decode_fault(text@),
        },
{
    ::hex::decode(text).map_err(|error| error.to_string())
}

} // verus!
