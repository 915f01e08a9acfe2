//! Who may call: the check of the bearer token in the metadata of a request.

use crate::metadata::{debug_text, get_text, to_str_error_text};
use crate::metadata::{lookup_text, metadata_debug_text, metadata_entries};
use crate::status::{Code, Status, StatusView};
use tonic::metadata::MetadataMap;
use vstd::prelude::*;

verus! {

/// The token that the server accepts.
pub const FAKE_TOKEN: &'static str = "uuid_token";

/// What a checked authorization is answered: nothing, or the refusal.
pub open spec fn reply_view(r: Result<(), Status>) -> Result<(), StatusView> {
    match r {
        Ok(()) => Ok(()),
        Err(status) => Err(status@),
    }
}

/// The refusal of a request without authorization; `metadata` is the text of its metadata.
pub open spec fn missing_authorization_reply(metadata: Seq<char>) -> StatusView {
    StatusView {
        code: Code::Internal,
        message: "No authorization header! metadata = "@ + metadata,
    }
}

/// The refusal of an authorization that cannot be read as text, for the given reason.
pub open spec fn unreadable_authorization_reply(reason: Seq<char>) -> StatusView {
    StatusView { code: Code::Internal, message: "Error parsing header: "@ + reason }
}

/// What the text of an authorization is answered: it has to be the word `Bearer`, a space
/// and the token.
pub open spec fn bearer_reply(authorization: Seq<char>) -> Result<(), StatusView> {
    if !"Bearer "@.is_prefix_of(authorization) {
        Err(StatusView { code: Code::Internal, message: "Invalid auth header!"@ })
    } else if authorization.skip("Bearer "@.len() as int) == FAKE_TOKEN@ {
        Ok(())
    } else {
        Err(StatusView { code: Code::Unauthenticated, message: "invalid token "@ })
    }
}

/// What a request with the given metadata entries is answered.
pub open spec fn token_reply(entries: Seq<(Seq<char>, Seq<u8>, bool)>) -> Result<(), StatusView> {
    match lookup_text(entries, "authorization"@) {
        None => Err(missing_authorization_reply(metadata_debug_text(entries))),
        Some(Err(_)) => Err(
            unreadable_authorization_reply("failed to convert metadata to a str"@),
        ),
        Some(Ok(text)) => bearer_reply(text),
    }
}

/// Refuses a request without authorization, showing the text of the metadata it did have.
pub fn missing_authorization(metadata: &str) -> (r: Status)
    ensures
        r@ == missing_authorization_reply(metadata@),
{
    let mut message = "No authorization header! metadata = ".to_owned();
    message.append(metadata);
    Status::internal(message)
}

/// Refuses an authorization that cannot be read as text.
pub fn unreadable_authorization(reason: &str) -> (r: Status)
    ensures
        r@ == unreadable_authorization_reply(reason@),
{
    let mut message = "Error parsing header: ".to_owned();
    message.append(reason);
    Status::internal(message)
}

/// Checks the text of an authorization.
pub fn check_bearer(authorization: &str) -> (r: Result<(), Status>)
    ensures
        reply_view(r) == bearer_reply(authorization@),
{
    let bearer = "Bearer ";
    let len: usize = authorization.unicode_len();
    let start: usize = bearer.unicode_len();
    if len < start || authorization.substring_char(0, start).to_owned() != bearer.to_owned() {
        assert(!bearer@.is_prefix_of(authorization@)) by {
            if bearer@.is_prefix_of(authorization@) {
                assert(authorization@.subrange(0, start as int) =~= bearer@);
            }
        }
        return Err(Status::internal("Invalid auth header!".to_owned()));
    }
    let token = authorization.substring_char(start, len).to_owned();
    assert(token@ =~= authorization@.skip(bearer@.len() as int));
    if token == FAKE_TOKEN.to_owned() {
        Ok(())
    } else {
        Err(Status::unauthenticated("invalid token ".to_owned()))
    }
}

/// Checks the authorization that the metadata of a request carries.
pub fn check_metadata(metadata: &MetadataMap) -> (r: Result<(), Status>)
    ensures
        reply_view(r) == token_reply(metadata_entries(*metadata)),
{
    proof {
        reveal_strlit("authorization");
    }
    match get_text(metadata, "authorization") {
        None => {
            let text = debug_text(metadata);
            Err(missing_authorization(text.as_str()))
        },
        Some(Err(error)) => {
            let reason = to_str_error_text(&error);
            Err(unreadable_authorization(reason.as_str()))
        },
        Some(Ok(text)) => check_bearer(text.as_str()),
    }
}

} // verus!
