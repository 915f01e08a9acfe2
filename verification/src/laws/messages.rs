//! What requests for results are on the wire, and when two of them are equal.
//!
//! The laws speak of the handle of a message and of the bytes that it is written as, and
//! read these bytes by rules of their own.

use crate::command::{command_decodes, Any, Command};
use crate::fetch_results::{FetchResults, MalformedMessage};
use crate::wire::{decoded_text, lemma_text_message_injective, text_field, text_message, varint};
use vstd::prelude::*;
use vstd::utf8::encode_utf8;

verus! {

/// The number in a varint: each byte gives seven bits, the first byte the lowest.
pub open spec fn varint_value(bytes: Seq<u8>) -> nat
    decreases bytes.len(),
{
    if bytes.len() == 0 {
        0
    } else {
        bytes[0] as nat % 128 + 128 * varint_value(bytes.drop_first())
    }
}

/// The bytes are one varint, and no shorter one has the same number: the high bit is set on
/// all bytes but the last, and the last is not zero unless it is the only one.
pub open spec fn is_shortest_varint(bytes: Seq<u8>) -> bool {
    &&& bytes.len() >= 1
    &&& forall|i: int| 0 <= i < bytes.len() - 1 ==> #[trigger] bytes[i] >= 128
    &&& bytes.last() < 128
    &&& bytes.len() > 1 ==> bytes.last() != 0
}

/// The bytes are one field: number 1, length-delimited (together the byte `0x0a`), then the
/// length of the payload, then the payload.
pub open spec fn is_first_field(bytes: Seq<u8>, length: Seq<u8>, payload: Seq<u8>) -> bool {
    &&& is_shortest_varint(length)
    &&& varint_value(length) == payload.len()
    &&& bytes == seq![0x0au8] + length + payload
}

/// A number is written as the shortest varint that is read back as this number.
proof fn lemma_varint_is_read_back(n: nat)
    ensures
        is_shortest_varint(varint(n)),
        varint_value(varint(n)) == n,
        n > 0 ==> varint(n).last() != 0,
    decreases n,
{
    let bytes = varint(n);
    if n < 128 {
        assert(bytes.drop_first().len() == 0);
        assert(varint_value(bytes.drop_first()) == 0);
    } else {
        lemma_varint_is_read_back(n / 128);
        let rest = varint(n / 128);
        assert(bytes.drop_first() =~= rest);
        assert(bytes.last() == rest.last());
        assert forall|i: int| 0 <= i < bytes.len() - 1 implies #[trigger] bytes[i] >= 128 by {
            if i > 0 {
                assert(bytes[i] == rest[i - 1]);
            }
        }
    }
}

/// The bytes of a text field with number 1.
proof fn lemma_first_field(text: Seq<char>)
    ensures
        is_first_field(text_field(1, text), varint(encode_utf8(text).len()), encode_utf8(text)),
{
    lemma_varint_is_read_back(encode_utf8(text).len());
    assert(varint(10) =~= seq![0x0au8]);
}

/// Every message whose handle leaves room for eleven bytes more can be written and packed.
pub proof fn law_messages_can_be_packed(message: FetchResults)
    requires
        encode_utf8(message.handle@).len() + 11 <= isize::MAX,
    ensures
        call_requires(FetchResults::encode_to_vec, (&message,)),
        call_requires(FetchResults::as_any, (&message,)),
{
}

/// A message without a handle is written as no bytes. One with a handle is written as one
/// field, with number 1 and the handle in UTF-8 as its payload.
pub proof fn law_handle_is_the_first_field(message: FetchResults, r: Vec<u8>)
    requires
        call_ensures(FetchResults::encode_to_vec, (&message,), r),
    ensures
        message.handle@.len() == 0 ==> r@.len() == 0,
        message.handle@.len() > 0 ==> exists|length: Seq<u8>| #[trigger]
            is_first_field(r@, length, encode_utf8(message.handle@)),
{
    lemma_first_field(message.handle@);
}

/// A handle of less than 128 bytes is written as `0x0a`, its length, and its bytes. Of a
/// longer one the length takes a second byte, and it does so up to 16383 bytes.
pub proof fn law_short_handles_byte_by_byte(message: FetchResults, r: Vec<u8>)
    requires
        call_ensures(FetchResults::encode_to_vec, (&message,), r),
        message.handle@.len() > 0,
    ensures
        encode_utf8(message.handle@).len() < 128 ==> r@ == seq![
            0x0au8,
            encode_utf8(message.handle@).len() as u8,
        ] + encode_utf8(message.handle@),
        128 <= encode_utf8(message.handle@).len() < 16384 ==> r@ == seq![
            0x0au8,
            (encode_utf8(message.handle@).len() % 128 + 128) as u8,
            (encode_utf8(message.handle@).len() / 128) as u8,
        ] + encode_utf8(message.handle@),
{
    reveal_with_fuel(varint, 3);
    let payload = encode_utf8(message.handle@);
    let n = payload.len();
    assert(varint(10) =~= seq![0x0au8]);
    if n < 128 {
        assert(r@ =~= seq![0x0au8, n as u8] + payload);
    } else if n < 16384 {
        assert(varint(n) =~= seq![(n % 128 + 128) as u8, (n / 128) as u8]);
        assert(r@ =~= seq![0x0au8, (n % 128 + 128) as u8, (n / 128) as u8] + payload);
    }
}

/// A packed message is named by its own URL, and its bytes are those that it is written as.
pub proof fn law_packed_message_is_the_written_one(message: FetchResults, any: Any, bytes: Vec<u8>)
    requires
        call_ensures(FetchResults::as_any, (&message,), any),
        call_ensures(FetchResults::encode_to_vec, (&message,), bytes),
    ensures
        any.type_url@ == "type.googleapis.com/arrow.flight.protocol.sql.FetchResults"@,
        any.value@ == bytes@,
{
}

/// The bytes of a packed message are none without a handle, and else one field, with number 1
/// and the handle in UTF-8 as its payload.
pub proof fn law_packed_handle_is_the_first_field(message: FetchResults, any: Any)
    requires
        call_ensures(FetchResults::as_any, (&message,), any),
    ensures
        message.handle@.len() == 0 ==> any.value@.len() == 0,
        message.handle@.len() > 0 ==> exists|length: Seq<u8>| #[trigger]
            is_first_field(any.value@, length, encode_utf8(message.handle@)),
{
    lemma_first_field(message.handle@);
}

/// The kind of message has the URL of `FetchResults`.
pub proof fn law_url_of_the_message(r: &'static str)
    requires
        call_ensures(FetchResults::type_url, (), r),
    ensures
        r@ == "type.googleapis.com/arrow.flight.protocol.sql.FetchResults"@,
{
}

/// What was packed is read back: a message with the same handle.
pub proof fn law_packed_message_is_read_back(
    message: FetchResults,
    any: Any,
    bytes: &[u8],
    r: Result<FetchResults, MalformedMessage>,
)
    requires
        call_ensures(FetchResults::as_any, (&message,), any),
        bytes@ == any.value@,
        call_ensures(FetchResults::decode, (bytes,), r),
    ensures
        r is Ok,
        r->Ok_0.handle@ == message.handle@,
{
    assert(bytes@ == text_message(message.handle@));
}

/// One field with number 1 is read as a message with its payload as the handle, and no bytes
/// are read as a message with an empty handle.
pub proof fn law_first_field_is_the_handle(
    bytes: &[u8],
    handle: Seq<char>,
    r: Result<FetchResults, MalformedMessage>,
)
    requires
        call_ensures(FetchResults::decode, (bytes,), r),
        handle.len() == 0 ==> bytes@.len() == 0,
        handle.len() > 0 ==> exists|length: Seq<u8>| #[trigger]
            is_first_field(bytes@, length, encode_utf8(handle)),
    ensures
        r is Ok,
        r->Ok_0.handle@ == handle,
{
    if handle.len() > 0 {
        let payload = encode_utf8(handle);
        let length = choose|length: Seq<u8>| #[trigger] is_first_field(bytes@, length, payload);
        lemma_first_field(handle);
        lemma_varint_is_read_back(payload.len());
        lemma_shortest_varint_is_unique(length, varint(payload.len()));
    } else {
        assert(bytes@ =~= text_message(handle));
    }
    assert(bytes@ == text_message(handle));
}

/// Two shortest varints of the same number are the same.
proof fn lemma_shortest_varint_is_unique(a: Seq<u8>, b: Seq<u8>)
    requires
        is_shortest_varint(a),
        is_shortest_varint(b),
        varint_value(a) == varint_value(b),
    ensures
        a == b,
    decreases a.len(),
{
    let rest_a = a.drop_first();
    let rest_b = b.drop_first();
    if a.len() == 1 && b.len() == 1 {
        assert(varint_value(rest_a) == 0);
        assert(varint_value(rest_b) == 0);
        assert(a =~= b);
    } else if a.len() > 1 && b.len() > 1 {
        assert(rest_a.last() == a.last());
        assert(rest_b.last() == b.last());
        assert forall|i: int| 0 <= i < rest_a.len() - 1 implies #[trigger] rest_a[i] >= 128 by {
            assert(rest_a[i] == a[i + 1]);
        }
        assert forall|i: int| 0 <= i < rest_b.len() - 1 implies #[trigger] rest_b[i] >= 128 by {
            assert(rest_b[i] == b[i + 1]);
        }
        assert(a[0] >= 128 && b[0] >= 128);
        lemma_shortest_varint_is_unique(rest_a, rest_b);
        assert(a =~= seq![a[0]] + rest_a);
        assert(b =~= seq![b[0]] + rest_b);
    } else if a.len() == 1 {
        assert(varint_value(rest_a) == 0);
        assert(rest_b.last() == b.last());
        lemma_varint_is_positive(rest_b);
    } else {
        assert(varint_value(rest_b) == 0);
        assert(rest_a.last() == a.last());
        lemma_varint_is_positive(rest_a);
    }
}

/// A varint whose last byte has a bit of the number set is not zero.
proof fn lemma_varint_is_positive(bytes: Seq<u8>)
    requires
        bytes.len() >= 1,
        0 < bytes.last() < 128,
    ensures
        varint_value(bytes) > 0,
    decreases bytes.len(),
{
    if bytes.len() > 1 {
        assert(bytes.drop_first().last() == bytes.last());
        lemma_varint_is_positive(bytes.drop_first());
    } else {
        assert(varint_value(bytes.drop_first()) == 0);
    }
}

/// Bytes are read exactly where protobuf takes them for a message with one text, the message
/// has this text as its handle, and the same bytes are always read the same.
pub proof fn law_reading_depends_on_the_bytes(
    a: &[u8],
    reply_a: Result<FetchResults, MalformedMessage>,
    b: &[u8],
    reply_b: Result<FetchResults, MalformedMessage>,
)
    requires
        call_ensures(FetchResults::decode, (a,), reply_a),
        call_ensures(FetchResults::decode, (b,), reply_b),
        a@ == b@,
    ensures
        reply_a is Ok <==> decoded_text(a@) is Some,
        reply_a is Ok ==> decoded_text(a@) == Some(reply_a->Ok_0.handle@),
        reply_a is Ok <==> reply_b is Ok,
        reply_a is Ok ==> reply_a->Ok_0.handle@ == reply_b->Ok_0.handle@,
{
}

/// Two messages are equal exactly where their handles are the same characters.
pub proof fn law_equal_means_same_handle(a: FetchResults, b: FetchResults, r: bool)
    requires
        call_ensures(<FetchResults as PartialEq>::eq, (&a, &b), r),
    ensures
        r <==> a.handle@ == b.handle@,
{
}

/// Two messages are unequal exactly where their handles are not the same characters.
pub proof fn law_unequal_means_other_handle(a: FetchResults, b: FetchResults, r: bool)
    requires
        call_ensures(<FetchResults as PartialEq>::ne, (&a, &b), r),
    ensures
        r <==> a.handle@ != b.handle@,
{
}

/// Two messages are equal exactly where they are written as the same bytes.
pub proof fn law_equal_means_same_bytes(
    a: FetchResults,
    bytes_a: Vec<u8>,
    b: FetchResults,
    bytes_b: Vec<u8>,
    r: bool,
)
    requires
        call_ensures(<FetchResults as PartialEq>::eq, (&a, &b), r),
        call_ensures(FetchResults::encode_to_vec, (&a,), bytes_a),
        call_ensures(FetchResults::encode_to_vec, (&b,), bytes_b),
    ensures
        r <==> bytes_a@ == bytes_b@,
{
    if bytes_a@ == bytes_b@ {
        lemma_text_message_injective(a.handle@, b.handle@);
    }
}

/// A copy of a message has the handle of the message.
pub proof fn law_copy_keeps_the_handle(message: FetchResults, r: FetchResults)
    requires
        call_ensures(<FetchResults as Clone>::clone, (&message,), r),
    ensures
        r.handle@ == message.handle@,
{
}

/// The default message has an empty handle.
pub proof fn law_default_handle_is_empty(r: FetchResults)
    requires
        call_ensures(<FetchResults as Default>::default, (), r),
    ensures
        r.handle@.len() == 0,
{
}

/// A packed message decodes as a command exactly where Flight SQL can decode it, and the
/// command then has its URL.
pub proof fn law_command_has_the_url_of_its_message(message: Any, r: Option<Command>)
    requires
        call_ensures(Command::unpack, (&message,), r),
    ensures
        r is Some <==> command_decodes(message.type_url@, message.value@),
        r is Some ==> r->0.type_url@ == message.type_url@,
{
}

/// A message with a URL from outside Flight SQL is always a command, with this URL.
pub proof fn law_foreign_message_is_a_command(message: Any, r: Option<Command>)
    requires
        call_ensures(Command::unpack, (&message,), r),
        !"type.googleapis.com/arrow.flight.protocol.sql."@.is_prefix_of(message.type_url@),
    ensures
        r is Some,
        r->0.type_url@ == message.type_url@,
{
}

/// A packed request for results is a command with the URL of such requests, whatever its
/// handle is.
pub proof fn law_packed_message_is_a_command(message: FetchResults, any: Any, r: Option<Command>)
    requires
        call_ensures(FetchResults::as_any, (&message,), any),
        call_ensures(Command::unpack, (&any,), r),
    ensures
        r is Some,
        r->0.type_url@ == "type.googleapis.com/arrow.flight.protocol.sql.FetchResults"@,
{
}

} // verus!
