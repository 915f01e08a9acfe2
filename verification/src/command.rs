//! Packed messages, and the commands that clients send in them.

use vstd::prelude::*;

verus! {

/// A packed message: a URL that names its kind, and its bytes.
#[derive(Debug, PartialEq, Eq)]
pub struct Any {
    pub type_url: String,
    pub value: Vec<u8>,
}

/// A command as the server gets it: decoded, and known by the URL of its kind.
#[derive(Debug, PartialEq, Eq)]
pub struct Command {
    pub type_url: String,
}

/// A packed message with this URL and these bytes can be decoded as a command.
pub uninterp spec fn command_decodes(type_url: Seq<char>, value: Seq<u8>) -> bool;

/// The URL may be that of a Flight SQL message: the names of these all begin with `Action`,
/// `Command`, `DoPut` or `Ticket`.
pub open spec fn may_name_command(type_url: Seq<char>) -> bool {
    let prefix = "type.googleapis.com/arrow.flight.protocol.sql."@;
    &&& prefix.is_prefix_of(type_url)
    &&& prefix.len() < type_url.len()
    &&& {
        let initial = type_url[prefix.len() as int];
        initial == 'A' || initial == 'C' || initial == 'D' || initial == 'T'
    }
}

/// `arrow_flight::sql::Command::try_from` on a packed message, and
/// `arrow_flight::sql::Command::type_url` on the command that it gives.
///
/// Claimed: whether the message decodes depends on its URL and its bytes alone; one whose URL
/// is not that of a Flight SQL message always does, since it is kept as it is; and the
/// command has the URL of the message.
#[verifier::external_body]
fn command_type_url(message: &Any) -> (r: Option<String>)
    ensures
        r is Some <==> command_decodes(message.type_url@, message.value@),
        !may_name_command(message.type_url@) ==> r is Some,
        r is Some ==> r->0@ == message.type_url@,
{
    let packed = arrow_flight::sql::Any {
        type_url: message.type_url.clone(),
        value: message.value.clone().into(),
    };
    arrow_flight::sql::Command::try_from(packed).ok().map(|command| command.type_url().to_string())
}

impl Command {
    /// Decodes the command in a packed message, where there is one.
    pub fn unpack(message: &Any) -> (r: Option<Command>)
        ensures
            r is Some <==> command_decodes(message.type_url@, message.value@),
            !may_name_command(message.type_url@) ==> r is Some,
            r is Some ==> r->0.type_url@ == message.type_url@,
    {
        match command_type_url(message) {
            Some(type_url) => Some(Command { type_url }),
            None => None,
        }
    }
}

} // verus!
