//! What holds of the service as a whole.

pub mod authorization;
pub mod messages;
pub mod replies;
pub mod tables;

use crate::auth::{bearer_reply, token_reply, FAKE_TOKEN};
use crate::batch::{fits_schema, same_table, Batch};
use crate::metadata::{lookup, lookup_text};
use crate::service::FlightSqlServiceImpl;
use crate::status::{invalid_request_text, no_default_text, Code};
use crate::wire::{lemma_text_message_injective, text_field, text_message, varint};
use arrow_schema::ArrowError;
use vstd::prelude::*;

verus! {

/// An authorization is accepted exactly where it is `Bearer `, followed by the token.
pub proof fn law_one_authorization_is_accepted(authorization: Seq<char>)
    ensures
        bearer_reply(authorization) is Ok <==> authorization == "Bearer "@ + FAKE_TOKEN@,
{
    let bearer = "Bearer "@;
    if bearer_reply(authorization) is Ok {
        assert(authorization =~= bearer + authorization.skip(bearer.len() as int));
    }
    if authorization == bearer + FAKE_TOKEN@ {
        assert(authorization.skip(bearer.len() as int) =~= FAKE_TOKEN@);
        assert(bearer.is_prefix_of(authorization)) by {
            assert(authorization.subrange(0, bearer.len() as int) =~= bearer);
        }
    }
}

/// A caller is told that it is not authenticated exactly where its authorization is a bearer
/// token other than the one that the server accepts.
pub proof fn law_unauthenticated_means_wrong_token(authorization: Seq<char>)
    ensures
        (bearer_reply(authorization) is Err && bearer_reply(authorization)->Err_0.code
            == Code::Unauthenticated) <==> (exists|token: Seq<char>|
            token != FAKE_TOKEN@ && authorization == "Bearer "@ + token),
{
    let bearer = "Bearer "@;
    let rest = authorization.skip(bearer.len() as int);
    if bearer.is_prefix_of(authorization) {
        assert(authorization =~= bearer + rest);
    }
    assert forall|token: Seq<char>| authorization == bearer + token implies token == rest
        && bearer.is_prefix_of(authorization) by {
        assert(rest =~= token);
        assert(authorization.subrange(0, bearer.len() as int) =~= bearer);
    }
}

/// A request is accepted exactly where the first authorization in its metadata can be read
/// as text and is `Bearer `, followed by the token.
pub proof fn law_one_kind_of_request_is_accepted(entries: Seq<(Seq<char>, Seq<u8>, bool)>)
    ensures
        token_reply(entries) is Ok <==> lookup_text(entries, "authorization"@) == Some(
            Ok::<Seq<char>, ()>("Bearer "@ + FAKE_TOKEN@),
        ),
{
    if let Some(Ok(text)) = lookup_text(entries, "authorization"@) {
        law_one_authorization_is_accepted(text);
    }
}

/// Once a request has an authorization, nothing that is added to its metadata changes the
/// reply: not further headers, nor a second authorization.
pub proof fn law_first_authorization_decides(
    entries: Seq<(Seq<char>, Seq<u8>, bool)>,
    more: Seq<(Seq<char>, Seq<u8>, bool)>,
)
    requires
        lookup(entries, "authorization"@) is Some,
    ensures
        token_reply(entries + more) == token_reply(entries),
{
    lemma_lookup_prefix(entries, more, "authorization"@);
}

/// An entry that is found stays found when entries are added behind.
proof fn lemma_lookup_prefix(
    entries: Seq<(Seq<char>, Seq<u8>, bool)>,
    more: Seq<(Seq<char>, Seq<u8>, bool)>,
    key: Seq<char>,
)
    requires
        lookup(entries, key) is Some,
    ensures
        lookup(entries + more, key) == lookup(entries, key),
    decreases entries.len(),
{
    if entries[0].0 != key {
        lemma_lookup_prefix(entries.drop_first(), more, key);
        assert((entries + more).drop_first() =~= entries.drop_first() + more);
    }
}

/// Headers with other keys do not count: whether there is an authorization, and which, is
/// the same with them and without.
pub proof fn law_other_headers_do_not_count(
    before: Seq<(Seq<char>, Seq<u8>, bool)>,
    after: Seq<(Seq<char>, Seq<u8>, bool)>,
    other: (Seq<char>, Seq<u8>, bool),
)
    requires
        other.0 != "authorization"@,
    ensures
        lookup_text(before + seq![other] + after, "authorization"@) == lookup_text(
            before + after,
            "authorization"@,
        ),
{
    lemma_lookup_skips(before, after, other, "authorization"@);
}

/// An entry with another key can be left out of a lookup.
proof fn lemma_lookup_skips(
    before: Seq<(Seq<char>, Seq<u8>, bool)>,
    after: Seq<(Seq<char>, Seq<u8>, bool)>,
    other: (Seq<char>, Seq<u8>, bool),
    key: Seq<char>,
)
    requires
        other.0 != key,
    ensures
        lookup(before + seq![other] + after, key) == lookup(before + after, key),
    decreases before.len(),
{
    let with = before + seq![other] + after;
    if before.len() == 0 {
        assert(with.drop_first() =~= before + after);
    } else {
        lemma_lookup_skips(before.drop_first(), after, other, key);
        assert(with.drop_first() =~= before.drop_first() + seq![other] + after);
        assert((before + after).drop_first() =~= before.drop_first() + after);
    }
}

/// The text that refuses a call names the call: other calls are refused with other texts.
pub proof fn law_refusal_names_the_call(a: Seq<char>, b: Seq<char>)
    requires
        no_default_text(a) == no_default_text(b),
    ensures
        a == b,
{
    let suffix = " has no default implementation"@;
    assert(no_default_text(a).len() == a.len() + suffix.len());
    assert(no_default_text(b).len() == b.len() + suffix.len());
    assert(a =~= no_default_text(a).take(a.len() as int));
    assert(b =~= no_default_text(b).take(b.len() as int));
}

/// The text that refuses an unknown request names the call and the request, where the names
/// of calls have no colon in them.
pub proof fn law_refusal_names_the_request(
    rpc_a: Seq<char>,
    detail_a: Seq<char>,
    rpc_b: Seq<char>,
    detail_b: Seq<char>,
)
    requires
        !rpc_a.contains(':'),
        !rpc_b.contains(':'),
        invalid_request_text(rpc_a, detail_a) == invalid_request_text(rpc_b, detail_b),
    ensures
        rpc_a == rpc_b,
        detail_a == detail_b,
{
    reveal_strlit(": The defined request is invalid: ");
    let infix = ": The defined request is invalid: "@;
    let text_a = invalid_request_text(rpc_a, detail_a);
    let text_b = invalid_request_text(rpc_b, detail_b);
    assert(text_a[rpc_a.len() as int] == ':');
    assert(text_b[rpc_b.len() as int] == ':');
    if rpc_a.len() < rpc_b.len() {
        assert(rpc_b[rpc_a.len() as int] == ':');
    }
    if rpc_b.len() < rpc_a.len() {
        assert(rpc_a[rpc_b.len() as int] == ':');
    }
    assert(rpc_a =~= text_a.take(rpc_a.len() as int));
    assert(rpc_b =~= text_b.take(rpc_b.len() as int));
    assert(detail_a =~= text_a.skip((rpc_a.len() + infix.len()) as int));
    assert(detail_b =~= text_b.skip((rpc_b.len() + infix.len()) as int));
}

/// There is no colon in the text that follows the name of a call which nothing implements.
proof fn lemma_suffix_has_no_colon(i: int)
    requires
        0 <= i < " has no default implementation"@.len(),
    ensures
        " has no default implementation"@[i] != ':',
{
    reveal_strlit(" has no default implementation");
    let suffix = " has no default implementation"@;
    let letters = seq![
        ' ', 'h', 'a', 's', ' ', 'n', 'o', ' ', 'd', 'e', 'f', 'a', 'u', 'l', 't', ' ', 'i', 'm',
        'p', 'l', 'e', 'm', 'e', 'n', 't', 'a', 't', 'i', 'o', 'n',
    ];
    assert(suffix =~= letters);
}

/// A client can tell a call that nothing implements from a request that is not known.
pub proof fn law_refusals_are_told_apart(rpc_a: Seq<char>, rpc_b: Seq<char>, detail: Seq<char>)
    requires
        !rpc_a.contains(':'),
    ensures
        no_default_text(rpc_a) != invalid_request_text(rpc_b, detail),
{
    reveal_strlit(" has no default implementation");
    reveal_strlit(": The defined request is invalid: ");
    let text_a = no_default_text(rpc_a);
    let text_b = invalid_request_text(rpc_b, detail);
    let at = rpc_b.len() as int;
    let infix = ": The defined request is invalid: "@;
    assert(text_b.len() == at + infix.len() + detail.len());
    assert(text_b[at] == ':');
    if text_a == text_b {
        assert(text_a[at] == ':');
        assert(text_a.len() == rpc_a.len() + " has no default implementation"@.len());
        if at < rpc_a.len() {
            assert(rpc_a[at] == ':');
        } else {
            lemma_suffix_has_no_colon(at - rpc_a.len());
        }
    }
}

/// The made-up result never fails, is the same table each time, and fits its own schema.
pub proof fn law_made_up_result_is_always_the_same(
    a: Result<Batch, ArrowError>,
    b: Result<Batch, ArrowError>,
)
    requires
        call_ensures(FlightSqlServiceImpl::fake_result, (), a),
        call_ensures(FlightSqlServiceImpl::fake_result, (), b),
    ensures
        a is Ok,
        b is Ok,
        same_table(a->Ok_0, b->Ok_0),
        fits_schema(a->Ok_0),
        fits_schema(b->Ok_0),
{
}

/// Two packed requests for results are equal only where their handles are.
pub proof fn law_packing_keeps_the_handle(a: Seq<char>, b: Seq<char>)
    ensures
        text_message(a) == text_message(b) <==> a == b,
{
    if text_message(a) == text_message(b) {
        lemma_text_message_injective(a, b);
    }
}

/// A request for results is packed into no bytes exactly where its handle is empty.
pub proof fn law_empty_handle_takes_no_bytes(handle: Seq<char>)
    ensures
        text_message(handle).len() == 0 <==> handle.len() == 0,
{
    assert(text_field(1, handle).len() >= varint(10).len());
    assert(varint(10).len() == 1);
}

} // verus!
