//! The message that asks for the results of a statement.

use crate::command::{may_name_command, Any};
use crate::wire::{append_text_field, decode_text};
use crate::wire::{decoded_text, fits_in_memory, lemma_text_message_len, text_message};
use vstd::prelude::*;

verus! {

/// A request for the results that are kept under a handle.
#[derive(Debug)]
pub struct FetchResults {
    pub handle: String,
}

impl Clone for FetchResults {
    fn clone(&self) -> (r: FetchResults)
        ensures
            r@ == self@,
    {
        FetchResults { handle: self.handle.clone() }
    }
}

impl Default for FetchResults {
    /// The message with an empty handle.
    fn default() -> (r: FetchResults)
        ensures
            r@ == Seq::<char>::empty(),
    {
        FetchResults { handle: String::new() }
    }
}

impl PartialEq for FetchResults {
    fn eq(&self, other: &FetchResults) -> (r: bool) {
        self.handle == other.handle
    }
}

impl vstd::std_specs::cmp::PartialEqSpecImpl for FetchResults {
    open spec fn obeys_eq_spec() -> bool {
        true
    }

    /// Two messages are equal where their handles are.
    open spec fn eq_spec(&self, other: &FetchResults) -> bool {
        self@ == other@
    }
}

/// Bytes that are no message of the expected kind.
#[derive(Debug, Clone, Copy, PartialEq, Eq)]
pub struct MalformedMessage;

impl View for FetchResults {
    type V = Seq<char>;

    /// A message is its handle.
    open spec fn view(&self) -> Seq<char> {
        self.handle@
    }
}

/// The URL that names the kind of message in a packed [`FetchResults`].
pub const FETCH_RESULTS_TYPE_URL: &'static str =
    "type.googleapis.com/arrow.flight.protocol.sql.FetchResults";

/// The kind of message is none of the Flight SQL protocol.
proof fn lemma_not_a_flight_sql_message()
    ensures
        !may_name_command(FETCH_RESULTS_TYPE_URL@),
{
    reveal_strlit("type.googleapis.com/arrow.flight.protocol.sql.");
    reveal_strlit("type.googleapis.com/arrow.flight.protocol.sql.FetchResults");
}

impl FetchResults {
    /// The URL that names this kind of message.
    pub fn type_url() -> (r: &'static str)
        ensures
            r@ == FETCH_RESULTS_TYPE_URL@,
    {
        FETCH_RESULTS_TYPE_URL
    }

    /// Writes the message in the protobuf wire format.
    pub fn encode_to_vec(&self) -> (r: Vec<u8>)
        requires
            fits_in_memory(self@),
        ensures
            r@ == text_message(self@),
    {
        let mut buf: Vec<u8> = Vec::new();
        if !self.handle.as_str().is_empty() {
            proof {
                lemma_text_message_len(self@);
            }
            append_text_field(1, &self.handle, &mut buf);
        }
        buf
    }

    /// Reads a message back.
    pub fn decode(bytes: &[u8]) -> (r: Result<FetchResults, MalformedMessage>)
        ensures
            match r {
                Ok(message) => decoded_text(bytes@) == Some(message@),
                Err(_) => decoded_text(bytes@) is None,
            },
            forall|handle: Seq<char>|
                bytes@ == #[trigger] text_message(handle) ==> r is Ok && r->Ok_0@ == handle,
    {
        match decode_text(bytes) {
            Some(handle) => Ok(FetchResults { handle }),
            None => Err(MalformedMessage),
        }
    }

    /// Packs the message. The URL is not that of a message of the Flight SQL protocol, so a
    /// server takes the packed message for a command that it does not know.
    pub fn as_any(&self) -> (r: Any)
        requires
            fits_in_memory(self@),
        ensures
            r.type_url@ == FETCH_RESULTS_TYPE_URL@,
            r.value@ == text_message(self@),
            !may_name_command(r.type_url@),
    {
        proof {
            lemma_not_a_flight_sql_message();
        }
        Any { type_url: FetchResults::type_url().to_owned(), value: self.encode_to_vec() }
    }
}

} // verus!
