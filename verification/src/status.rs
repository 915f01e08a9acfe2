//! The status with which a call is refused.

use vstd::prelude::*;

verus! {

/// The gRPC status codes that this server answers with.
#[derive(Clone, Copy, Debug, PartialEq, Eq, Structural)]
pub enum Code {
    /// The client sent an argument that no handler understands.
    InvalidArgument,
    /// The call is known, and nothing implements it.
    Unimplemented,
    /// Something the server relies on is broken.
    Internal,
    /// The credentials of the caller are not valid.
    Unauthenticated,
}

/// A refusal: its code, and the text that tells the client what went wrong.
#[derive(Debug, PartialEq, Eq)]
pub struct Status {
    pub code: Code,
    pub message: String,
}

/// What a [`Status`] holds, with its text as a sequence of characters.
#[verifier::ext_equal]
pub struct StatusView {
    pub code: Code,
    pub message: Seq<char>,
}

impl View for Status {
    type V = StatusView;

    open spec fn view(&self) -> StatusView {
        StatusView { code: self.code, message: self.message@ }
    }
}

/// `r` is a refusal with the given code and text.
pub open spec fn refused<R>(r: Result<R, Status>, code: Code, message: Seq<char>) -> bool {
    &&& r is Err
    &&& r->Err_0@ == (StatusView { code, message })
}

/// The text that refuses a call which nothing implements.
pub open spec fn no_default_text(rpc: Seq<char>) -> Seq<char> {
    rpc + " has no default implementation"@
}

/// The text that refuses a call whose payload names no known request; `detail` is what the
/// payload names.
pub open spec fn invalid_request_text(rpc: Seq<char>, detail: Seq<char>) -> Seq<char> {
    rpc + ": The defined request is invalid: "@ + detail
}

impl Status {
    /// A status with code [`Code::InvalidArgument`].
    pub fn invalid_argument(message: String) -> (r: Status)
        ensures
            r@ == (StatusView { code: Code::InvalidArgument, message: message@ }),
    {
        Status { code: Code::InvalidArgument, message }
    }

    /// A status with code [`Code::Unimplemented`].
    pub fn unimplemented(message: String) -> (r: Status)
        ensures
            r@ == (StatusView { code: Code::Unimplemented, message: message@ }),
    {
        Status { code: Code::Unimplemented, message }
    }

    /// A status with code [`Code::Internal`].
    pub fn internal(message: String) -> (r: Status)
        ensures
            r@ == (StatusView { code: Code::Internal, message: message@ }),
    {
        Status { code: Code::Internal, message }
    }

    /// A status with code [`Code::Unauthenticated`].
    pub fn unauthenticated(message: String) -> (r: Status)
        ensures
            r@ == (StatusView { code: Code::Unauthenticated, message: message@ }),
    {
        Status { code: Code::Unauthenticated, message }
    }
}

/// Builds the text of a refusal because nothing implements `rpc`.
pub fn no_default_message(rpc: &str) -> (r: String)
    ensures
        r@ == no_default_text(rpc@),
{
    let mut message = rpc.to_owned();
    message.append(" has no default implementation");
    message
}

/// Builds the text of a refusal because the payload of `rpc` names `detail`, which is no
/// known request.
pub fn invalid_request_message(rpc: &str, detail: &str) -> (r: String)
    ensures
        r@ == invalid_request_text(rpc@, detail@),
{
    let mut message = rpc.to_owned();
    message.append(": The defined request is invalid: ");
    message.append(detail);
    message
}

} // verus!
