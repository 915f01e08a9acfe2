//! What a request is answered, by the first authorization in its metadata.
//!
//! The laws speak of the entries of the metadata by position and of the bytes of their
//! values, and of the code and the text of the reply.

use crate::auth::{bearer_reply, check_bearer, check_metadata, token_reply};
use crate::auth::{missing_authorization, unreadable_authorization};
use crate::metadata::{ascii_text, is_visible_ascii, lookup, lookup_text};
use crate::metadata::{metadata_debug_text, metadata_entries};
use crate::service::{FlightSqlServiceImpl, Request};
use crate::status::{Code, Status};
use tonic::metadata::MetadataMap;
use vstd::prelude::*;

verus! {

/// The entry at `i` is the first with the key `authorization`.
pub open spec fn is_first_authorization(
    entries: Seq<(Seq<char>, Seq<u8>, bool)>,
    i: int,
) -> bool {
    &&& 0 <= i < entries.len()
    &&& entries[i].0 == "authorization"@
    &&& forall|j: int| 0 <= j < i ==> (#[trigger] entries[j]).0 != "authorization"@
}

/// The byte is a tab, or an ASCII character that can be printed.
pub open spec fn is_printable(byte: u8) -> bool {
    byte == 9 || 32 <= byte <= 126
}

/// The bytes are printable, and are the characters of the text one by one.
pub open spec fn spells(bytes: Seq<u8>, text: Seq<char>) -> bool {
    &&& bytes.len() == text.len()
    &&& forall|k: int|
        0 <= k < bytes.len() ==> is_printable(#[trigger] bytes[k]) && text[k] as int
            == bytes[k] as int
}

/// The first authorization among the entries spells the text.
pub open spec fn is_authorized_by(
    entries: Seq<(Seq<char>, Seq<u8>, bool)>,
    text: Seq<char>,
) -> bool {
    exists|i: int| #[trigger] is_first_authorization(entries, i) && spells(entries[i].1, text)
}

/// A lookup finds the first entry with the key.
proof fn lemma_lookup_finds_first(
    entries: Seq<(Seq<char>, Seq<u8>, bool)>,
    key: Seq<char>,
    i: int,
)
    requires
        0 <= i < entries.len(),
        entries[i].0 == key,
        forall|j: int| 0 <= j < i ==> (#[trigger] entries[j]).0 != key,
    ensures
        lookup(entries, key) == Some(entries[i].1),
    decreases entries.len(),
{
    if i > 0 {
        let rest = entries.drop_first();
        assert forall|j: int| 0 <= j < i - 1 implies (#[trigger] rest[j]).0 != key by {
            assert(rest[j] == entries[j + 1]);
        }
        lemma_lookup_finds_first(rest, key, i - 1);
    }
}

/// Where a lookup finds something, there is a first entry with the key; where it finds
/// nothing, there is none.
proof fn lemma_lookup_position(
    entries: Seq<(Seq<char>, Seq<u8>, bool)>,
    key: Seq<char>,
) -> (position: int)
    ensures
        lookup(entries, key) is Some ==> {
            &&& 0 <= position < entries.len()
            &&& entries[position].0 == key
            &&& forall|j: int| 0 <= j < position ==> (#[trigger] entries[j]).0 != key
        },
        lookup(entries, key) is None ==> forall|j: int|
            0 <= j < entries.len() ==> (#[trigger] entries[j]).0 != key,
    decreases entries.len(),
{
    if entries.len() == 0 || entries[0].0 == key {
        0
    } else {
        let rest = entries.drop_first();
        let found = lemma_lookup_position(rest, key);
        assert forall|j: int| 0 < j < entries.len() implies #[trigger] entries[j] == rest[j - 1] by {
        }
        found + 1
    }
}

/// A value that spells a text is read as this text, and as no other.
proof fn lemma_spelled_text(bytes: Seq<u8>, text: Seq<char>)
    ensures
        spells(bytes, text) <==> is_visible_ascii(bytes) && ascii_text(bytes) == text,
{
    if spells(bytes, text) {
        assert(ascii_text(bytes) =~= text);
    }
}

/// The entries are authorized by a text exactly where the lookup reads this text.
proof fn lemma_authorization_is_looked_up(
    entries: Seq<(Seq<char>, Seq<u8>, bool)>,
    text: Seq<char>,
)
    ensures
        is_authorized_by(entries, text) <==> lookup_text(entries, "authorization"@) == Some(
            Ok::<Seq<char>, ()>(text),
        ),
{
    let key = "authorization"@;
    let position = lemma_lookup_position(entries, key);
    if lookup(entries, key) is Some {
        assert(is_first_authorization(entries, position));
        lemma_lookup_finds_first(entries, key, position);
        lemma_spelled_text(entries[position].1, text);
    }
    assert forall|i: int| #[trigger] is_first_authorization(entries, i) implies lookup(entries, key)
        == Some(entries[i].1) && i == position by {
        lemma_lookup_finds_first(entries, key, i);
        if i < position {
            assert(entries[i].0 != key);
        }
        if position < i {
            assert(entries[position].0 != key);
        }
    }
}

/// A text is `Bearer ` and a token exactly where it begins with `Bearer `, and the token is
/// what follows.
proof fn lemma_token_follows_bearer(text: Seq<char>, token: Seq<char>)
    ensures
        text == "Bearer "@ + token <==> {
            &&& "Bearer "@.is_prefix_of(text)
            &&& token == text.skip("Bearer "@.len() as int)
        },
{
    let bearer = "Bearer "@;
    if text == bearer + token {
        assert(text.subrange(0, bearer.len() as int) =~= bearer);
        assert(text.skip(bearer.len() as int) =~= token);
    }
    if bearer.is_prefix_of(text) {
        assert(text =~= bearer + text.skip(bearer.len() as int));
    }
}

/// A request passes exactly where its first authorization is `Bearer uuid_token`.
pub proof fn law_token_check_passes_the_token<T>(
    service: FlightSqlServiceImpl,
    request: Request<T>,
    r: Result<(), Status>,
)
    requires
        call_ensures(FlightSqlServiceImpl::check_token::<T>, (&service, &request), r),
    ensures
        r is Ok <==> is_authorized_by(
            metadata_entries(request.metadata),
            "Bearer "@ + "uuid_token"@,
        ),
{
    let text = "Bearer "@ + "uuid_token"@;
    let entries = metadata_entries(request.metadata);
    lemma_authorization_is_looked_up(entries, text);
    lemma_token_follows_bearer(text, "uuid_token"@);
    if let Some(Ok(found)) = lookup_text(entries, "authorization"@) {
        lemma_token_follows_bearer(found, "uuid_token"@);
    }
}

/// A caller is told that it is not authenticated exactly where its first authorization is
/// `Bearer ` and a token other than `uuid_token`, and the text then is `invalid token `.
pub proof fn law_token_check_turns_away_other_tokens<T>(
    service: FlightSqlServiceImpl,
    request: Request<T>,
    r: Result<(), Status>,
)
    requires
        call_ensures(FlightSqlServiceImpl::check_token::<T>, (&service, &request), r),
    ensures
        (r is Err && r->Err_0.code == Code::Unauthenticated) <==> (exists|token: Seq<char>|
            token != "uuid_token"@ && #[trigger] is_authorized_by(
                metadata_entries(request.metadata),
                "Bearer "@ + token,
            )),
        r is Err && r->Err_0.code == Code::Unauthenticated ==> r->Err_0.message@
            == "invalid token "@,
{
    let bearer = "Bearer "@;
    let entries = metadata_entries(request.metadata);
    assert forall|token: Seq<char>| #[trigger]
        is_authorized_by(entries, bearer + token) implies bearer_reply(bearer + token)
        == token_reply(entries) by {
        lemma_authorization_is_looked_up(entries, bearer + token);
    }
    assert forall|token: Seq<char>| bearer.is_prefix_of(#[trigger] (bearer + token)) && (bearer
        + token).skip(bearer.len() as int) == token by {
        lemma_token_follows_bearer(bearer + token, token);
    }
    if r is Err && r->Err_0.code == Code::Unauthenticated {
        let found = lookup_text(entries, "authorization"@)->0->Ok_0;
        let token = found.skip(bearer.len() as int);
        lemma_token_follows_bearer(found, token);
        lemma_authorization_is_looked_up(entries, bearer + token);
        assert(is_authorized_by(entries, bearer + token));
    }
}

/// Every other refusal is an internal error: a request is answered so exactly where its first
/// authorization is not `Bearer ` and some token.
pub proof fn law_token_check_blames_the_server_otherwise<T>(
    service: FlightSqlServiceImpl,
    request: Request<T>,
    r: Result<(), Status>,
)
    requires
        call_ensures(FlightSqlServiceImpl::check_token::<T>, (&service, &request), r),
    ensures
        (r is Err && r->Err_0.code == Code::Internal) <==> (forall|token: Seq<char>|
            !#[trigger] is_authorized_by(metadata_entries(request.metadata), "Bearer "@ + token)),
{
    let bearer = "Bearer "@;
    let entries = metadata_entries(request.metadata);
    law_token_check_passes_the_token(service, request, r);
    law_token_check_turns_away_other_tokens(service, request, r);
    if r is Ok {
        assert(is_authorized_by(entries, bearer + "uuid_token"@));
    }
    if r is Err && r->Err_0.code == Code::Internal {
        assert forall|token: Seq<char>| !#[trigger] is_authorized_by(entries, bearer + token) by {
            if token == "uuid_token"@ {
                assert(r is Err);
            }
        }
    }
}

/// A request without an entry for `authorization` is an internal error, whatever its other
/// entries are, and the text shows them.
pub proof fn law_missing_authorization_is_internal<T>(
    service: FlightSqlServiceImpl,
    request: Request<T>,
    r: Result<(), Status>,
)
    requires
        call_ensures(FlightSqlServiceImpl::check_token::<T>, (&service, &request), r),
        forall|j: int|
            0 <= j < metadata_entries(request.metadata).len() ==> (
            #[trigger] metadata_entries(request.metadata)[j]).0 != "authorization"@,
    ensures
        r is Err,
        r->Err_0.code == Code::Internal,
        r->Err_0.message@ == "No authorization header! metadata = "@ + metadata_debug_text(
            metadata_entries(request.metadata),
        ),
{
    let position = lemma_lookup_position(metadata_entries(request.metadata), "authorization"@);
}

/// A request whose first authorization has a byte that is not printable is an internal error
/// that gives the reason.
pub proof fn law_unreadable_authorization_is_internal<T>(
    service: FlightSqlServiceImpl,
    request: Request<T>,
    i: int,
    k: int,
    r: Result<(), Status>,
)
    requires
        call_ensures(FlightSqlServiceImpl::check_token::<T>, (&service, &request), r),
        is_first_authorization(metadata_entries(request.metadata), i),
        0 <= k < metadata_entries(request.metadata)[i].1.len(),
        !is_printable(metadata_entries(request.metadata)[i].1[k]),
    ensures
        r is Err,
        r->Err_0.code == Code::Internal,
        r->Err_0.message@ == "Error parsing header: "@ + "failed to convert metadata to a str"@,
{
    lemma_lookup_finds_first(metadata_entries(request.metadata), "authorization"@, i);
}

/// A request whose first authorization does not begin with `Bearer ` is an internal error
/// that says so.
pub proof fn law_other_scheme_is_internal<T>(
    service: FlightSqlServiceImpl,
    request: Request<T>,
    text: Seq<char>,
    r: Result<(), Status>,
)
    requires
        call_ensures(FlightSqlServiceImpl::check_token::<T>, (&service, &request), r),
        is_authorized_by(metadata_entries(request.metadata), text),
        forall|token: Seq<char>| text != #[trigger] ("Bearer "@ + token),
    ensures
        r is Err,
        r->Err_0.code == Code::Internal,
        r->Err_0.message@ == "Invalid auth header!"@,
{
    let bearer = "Bearer "@;
    lemma_authorization_is_looked_up(metadata_entries(request.metadata), text);
    lemma_token_follows_bearer(text, text.skip(bearer.len() as int));
    assert(text != bearer + text.skip(bearer.len() as int));
}

/// Two requests whose first authorizations are the same bytes get the same reply, whatever
/// else they carry.
pub proof fn law_only_the_first_authorization_counts<S, T>(
    service: FlightSqlServiceImpl,
    a: Request<S>,
    i: int,
    reply_a: Result<(), Status>,
    b: Request<T>,
    j: int,
    reply_b: Result<(), Status>,
)
    requires
        call_ensures(FlightSqlServiceImpl::check_token::<S>, (&service, &a), reply_a),
        call_ensures(FlightSqlServiceImpl::check_token::<T>, (&service, &b), reply_b),
        is_first_authorization(metadata_entries(a.metadata), i),
        is_first_authorization(metadata_entries(b.metadata), j),
        metadata_entries(a.metadata)[i].1 == metadata_entries(b.metadata)[j].1,
    ensures
        reply_a is Ok <==> reply_b is Ok,
        reply_a is Err ==> reply_a->Err_0.code == reply_b->Err_0.code,
        reply_a is Err ==> reply_a->Err_0.message@ == reply_b->Err_0.message@,
{
    lemma_lookup_finds_first(metadata_entries(a.metadata), "authorization"@, i);
    lemma_lookup_finds_first(metadata_entries(b.metadata), "authorization"@, j);
}

/// A request is answered as its metadata is.
pub proof fn law_request_is_answered_as_its_metadata<T>(
    service: FlightSqlServiceImpl,
    request: Request<T>,
    metadata: MetadataMap,
    reply: Result<(), Status>,
    r: Result<(), Status>,
)
    requires
        request.metadata == metadata,
        call_ensures(FlightSqlServiceImpl::check_token::<T>, (&service, &request), r),
        call_ensures(check_metadata, (&metadata,), reply),
    ensures
        r is Ok <==> reply is Ok,
        r is Err ==> r->Err_0.code == reply->Err_0.code,
        r is Err ==> r->Err_0.message@ == reply->Err_0.message@,
{
}

/// The text of an authorization passes exactly where it is `Bearer uuid_token`; it is
/// unauthenticated exactly where it is `Bearer ` and another token; and it is an internal
/// error exactly where it does not begin with `Bearer `.
pub proof fn law_authorization_text_decides(authorization: &str, r: Result<(), Status>)
    requires
        call_ensures(check_bearer, (authorization,), r),
    ensures
        r is Ok <==> authorization@ == "Bearer "@ + "uuid_token"@,
        (r is Err && r->Err_0.code == Code::Unauthenticated && r->Err_0.message@
            == "invalid token "@) <==> (exists|token: Seq<char>|
            token != "uuid_token"@ && authorization@ == #[trigger] ("Bearer "@ + token)),
        (r is Err && r->Err_0.code == Code::Internal && r->Err_0.message@
            == "Invalid auth header!"@) <==> (forall|token: Seq<char>|
            authorization@ != #[trigger] ("Bearer "@ + token)),
{
    let bearer = "Bearer "@;
    let rest = authorization@.skip(bearer.len() as int);
    assert forall|token: Seq<char>| authorization@ == #[trigger] (bearer + token) implies token
        == rest && bearer.is_prefix_of(authorization@) by {
        lemma_token_follows_bearer(authorization@, token);
    }
    lemma_token_follows_bearer(authorization@, rest);
    lemma_token_follows_bearer(authorization@, "uuid_token"@);
    assert(bearer + rest == bearer + rest);
}

/// The refusal for want of an authorization is an internal error that shows the metadata.
pub proof fn law_missing_authorization_shows_the_metadata(metadata: &str, r: Status)
    requires
        call_ensures(missing_authorization, (metadata,), r),
    ensures
        r.code == Code::Internal,
        r.message@ == "No authorization header! metadata = "@ + metadata@,
{
}

/// The refusal of an authorization that cannot be read is an internal error that gives the
/// reason.
pub proof fn law_unreadable_authorization_gives_the_reason(reason: &str, r: Status)
    requires
        call_ensures(unreadable_authorization, (reason,), r),
    ensures
        r.code == Code::Internal,
        r.message@ == "Error parsing header: "@ + reason@,
{
}

} // verus!
