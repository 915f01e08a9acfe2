//! The protobuf wire format, as far as messages with one text field need it.

use vstd::prelude::*;
use vstd::utf8::{encode_utf8, encode_utf8_decode_utf8};

verus! {

/// `n` as a varint: seven bits per byte, the lowest first, the high bit set on all bytes but
/// the last.
pub open spec fn varint(n: nat) -> Seq<u8>
    decreases n,
{
    if n < 128 {
        seq![n as u8]
    } else {
        seq![(n % 128 + 128) as u8] + varint(n / 128)
    }
}

/// A text field: its key (the field number, and 2 for a length-delimited value), the length
/// of its UTF-8 encoding, and that encoding.
pub open spec fn text_field(number: nat, text: Seq<char>) -> Seq<u8> {
    varint(number * 8 + 2) + varint(encode_utf8(text).len()) + encode_utf8(text)
}

/// A message whose only field is a text with number 1. An empty text is left out.
pub open spec fn text_message(text: Seq<char>) -> Seq<u8> {
    if text.len() == 0 {
        Seq::empty()
    } else {
        text_field(1, text)
    }
}

/// The message with this text can be held in memory.
pub open spec fn fits_in_memory(text: Seq<char>) -> bool {
    encode_utf8(text).len() + 11 <= isize::MAX
}

/// The text that a message with a text field of number 1 holds, where the bytes are such a
/// message: unknown fields are skipped, and of repeated fields the last counts.
pub uninterp spec fn decoded_text(bytes: Seq<u8>) -> Option<Seq<char>>;

/// `prost::encoding::string::encode`.
///
/// Claimed: the key, the length and the UTF-8 encoding of the text are appended to the
/// buffer. A field number is at least 1 and below 2^29, and the buffer cannot outgrow what a
/// vector can hold.
#[verifier::external_body]
pub(crate) fn append_text_field(number: u32, text: &String, buf: &mut Vec<u8>)
    requires
        1 <= number < 0x2000_0000,
        old(buf)@.len() + text_field(number as nat, text@).len() <= isize::MAX,
    ensures
        final(buf)@ == old(buf)@ + text_field(number as nat, text@),
{
    prost::encoding::string::encode(number, text, buf)
}

/// `prost::Message::decode` for a message that is one text field with number 1, which is what
/// `prost` takes a `String` for.
///
/// Claimed: whether it succeeds and what it gives depends on the bytes alone, and it gives
/// back the text of a message that holds just this field.
#[verifier::external_body]
pub(crate) fn decode_text(bytes: &[u8]) -> (r: Option<String>)
    ensures
        match r {
            Some(text) => decoded_text(bytes@) == Some(text@),
            None => decoded_text(bytes@) is None,
        },
        forall|text: Seq<char>|
            bytes@ == #[trigger] text_message(text) ==> r is Some && r->0@ == text,
{
    <String as prost::Message>::decode(bytes).ok()
}

/// A varint is not empty, and no longer than the ten bytes that 64 bits take.
pub proof fn lemma_varint_len(n: nat)
    requires
        n <= u64::MAX,
    ensures
        1 <= varint(n).len() <= 10,
{
    reveal_with_fuel(varint, 11);
}

/// A message with one text is at most eleven bytes longer than the text.
pub proof fn lemma_text_message_len(text: Seq<char>)
    requires
        fits_in_memory(text),
    ensures
        text_message(text).len() <= encode_utf8(text).len() + 11,
{
    lemma_varint_len(encode_utf8(text).len());
}

/// No varint is the beginning of another: where two sequences that start with varints are
/// equal, the varints and the rests are.
pub proof fn lemma_varint_prefix_free(a: nat, b: nat, rest_a: Seq<u8>, rest_b: Seq<u8>)
    requires
        varint(a) + rest_a == varint(b) + rest_b,
    ensures
        a == b,
        rest_a == rest_b,
    decreases a,
{
    let left = varint(a) + rest_a;
    let right = varint(b) + rest_b;
    assert(left[0] == right[0]);
    if a < 128 {
        assert(left[0] == a as u8);
        assert(b < 128);
        assert(left.skip(1) =~= rest_a);
        assert(right.skip(1) =~= rest_b);
    } else {
        assert(left[0] == (a % 128 + 128) as u8);
        assert(b >= 128);
        assert(right[0] == (b % 128 + 128) as u8);
        assert(left.skip(1) =~= varint(a / 128) + rest_a);
        assert(right.skip(1) =~= varint(b / 128) + rest_b);
        lemma_varint_prefix_free(a / 128, b / 128, rest_a, rest_b);
    }
}

/// Two texts with the same UTF-8 encoding are the same text.
pub proof fn lemma_utf8_injective(a: Seq<char>, b: Seq<char>)
    requires
        encode_utf8(a) == encode_utf8(b),
    ensures
        a == b,
{
    encode_utf8_decode_utf8(a);
    encode_utf8_decode_utf8(b);
}

/// Two texts that are written as the same message are the same text.
pub proof fn lemma_text_message_injective(a: Seq<char>, b: Seq<char>)
    requires
        text_message(a) == text_message(b),
    ensures
        a == b,
{
    if a.len() == 0 || b.len() == 0 {
        assert(text_field(1, a).len() > 0);
        assert(text_field(1, b).len() > 0);
        assert(a =~= b);
    } else {
        let bytes_a = encode_utf8(a);
        let bytes_b = encode_utf8(b);
        let rest_a = varint(bytes_a.len()) + bytes_a;
        let rest_b = varint(bytes_b.len()) + bytes_b;
        assert(text_field(1, a) =~= varint(10) + rest_a);
        assert(text_field(1, b) =~= varint(10) + rest_b);
        lemma_varint_prefix_free(10, 10, rest_a, rest_b);
        lemma_varint_prefix_free(bytes_a.len(), bytes_b.len(), bytes_a, bytes_b);
        lemma_utf8_injective(a, b);
    }
}

} // verus!
