//! What each call of the protocol is answered, whatever it carries.
//!
//! The laws speak of the code and the text of the refusals.

use crate::command::{Any, Command};
use crate::service::{quoted_text, Action, FlightSqlServiceImpl, Request};
use crate::status::{invalid_request_message, no_default_message, Code, Status};
use vstd::prelude::*;

verus! {

/// No call for a FlightInfo is implemented, and each refusal names its call.
pub proof fn law_get_flight_info_calls_are_not_implemented<Q, T, R>(
    service: FlightSqlServiceImpl,
    query: Q,
    request: Request<T>,
)
    ensures
        forall|r: Result<R, Status>| #[trigger]
            call_ensures(
                FlightSqlServiceImpl::get_flight_info_statement::<Q, T, R>,
                (&service, query, request),
                r,
            ) ==> {
                &&& r is Err
                &&& r->Err_0.code == Code::Unimplemented
                &&& r->Err_0.message@ == "get_flight_info_statement"@ + " has no default implementation"@
            },
        forall|r: Result<R, Status>| #[trigger]
            call_ensures(
                FlightSqlServiceImpl::get_flight_info_substrait_plan::<Q, T, R>,
                (&service, query, request),
                r,
            ) ==> {
                &&& r is Err
                &&& r->Err_0.code == Code::Unimplemented
                &&& r->Err_0.message@ == "get_flight_info_substrait_plan"@ + " has no default implementation"@
            },
        forall|r: Result<R, Status>| #[trigger]
            call_ensures(
                FlightSqlServiceImpl::get_flight_info_prepared_statement::<Q, T, R>,
                (&service, query, request),
                r,
            ) ==> {
                &&& r is Err
                &&& r->Err_0.code == Code::Unimplemented
                &&& r->Err_0.message@ == "get_flight_info_prepared_statement"@ + " has no default implementation"@
            },
        forall|r: Result<R, Status>| #[trigger]
            call_ensures(
                FlightSqlServiceImpl::get_flight_info_catalogs::<Q, T, R>,
                (&service, query, request),
                r,
            ) ==> {
                &&& r is Err
                &&& r->Err_0.code == Code::Unimplemented
                &&& r->Err_0.message@ == "get_flight_info_catalogs"@ + " has no default implementation"@
            },
        forall|r: Result<R, Status>| #[trigger]
            call_ensures(
                FlightSqlServiceImpl::get_flight_info_schemas::<Q, T, R>,
                (&service, query, request),
                r,
            ) ==> {
                &&& r is Err
                &&& r->Err_0.code == Code::Unimplemented
                &&& r->Err_0.message@ == "get_flight_info_schemas"@ + " has no default implementation"@
            },
        forall|r: Result<R, Status>| #[trigger]
            call_ensures(
                FlightSqlServiceImpl::get_flight_info_tables::<Q, T, R>,
                (&service, query, request),
                r,
            ) ==> {
                &&& r is Err
                &&& r->Err_0.code == Code::Unimplemented
                &&& r->Err_0.message@ == "get_flight_info_tables"@ + " has no default implementation"@
            },
        forall|r: Result<R, Status>| #[trigger]
            call_ensures(
                FlightSqlServiceImpl::get_flight_info_table_types::<Q, T, R>,
                (&service, query, request),
                r,
            ) ==> {
                &&& r is Err
                &&& r->Err_0.code == Code::Unimplemented
                &&& r->Err_0.message@ == "get_flight_info_table_types"@ + " has no default implementation"@
            },
        forall|r: Result<R, Status>| #[trigger]
            call_ensures(
                FlightSqlServiceImpl::get_flight_info_sql_info::<Q, T, R>,
                (&service, query, request),
                r,
            ) ==> {
                &&& r is Err
                &&& r->Err_0.code == Code::Unimplemented
                &&& r->Err_0.message@ == "get_flight_info_sql_info"@ + " has no default implementation"@
            },
        forall|r: Result<R, Status>| #[trigger]
            call_ensures(
                FlightSqlServiceImpl::get_flight_info_primary_keys::<Q, T, R>,
                (&service, query, request),
                r,
            ) ==> {
                &&& r is Err
                &&& r->Err_0.code == Code::Unimplemented
                &&& r->Err_0.message@ == "get_flight_info_primary_keys"@ + " has no default implementation"@
            },
        forall|r: Result<R, Status>| #[trigger]
            call_ensures(
                FlightSqlServiceImpl::get_flight_info_exported_keys::<Q, T, R>,
                (&service, query, request),
                r,
            ) ==> {
                &&& r is Err
                &&& r->Err_0.code == Code::Unimplemented
                &&& r->Err_0.message@ == "get_flight_info_exported_keys"@ + " has no default implementation"@
            },
        forall|r: Result<R, Status>| #[trigger]
            call_ensures(
                FlightSqlServiceImpl::get_flight_info_imported_keys::<Q, T, R>,
                (&service, query, request),
                r,
            ) ==> {
                &&& r is Err
                &&& r->Err_0.code == Code::Unimplemented
                &&& r->Err_0.message@ == "get_flight_info_imported_keys"@ + " has no default implementation"@
            },
        forall|r: Result<R, Status>| #[trigger]
            call_ensures(
                FlightSqlServiceImpl::get_flight_info_cross_reference::<Q, T, R>,
                (&service, query, request),
                r,
            ) ==> {
                &&& r is Err
                &&& r->Err_0.code == Code::Unimplemented
                &&& r->Err_0.message@ == "get_flight_info_cross_reference"@ + " has no default implementation"@
            },
        forall|r: Result<R, Status>| #[trigger]
            call_ensures(
                FlightSqlServiceImpl::get_flight_info_xdbc_type_info::<Q, T, R>,
                (&service, query, request),
                r,
            ) ==> {
                &&& r is Err
                &&& r->Err_0.code == Code::Unimplemented
                &&& r->Err_0.message@ == "get_flight_info_xdbc_type_info"@ + " has no default implementation"@
            },
{
}

/// No call for a stream of results is implemented, and each refusal names its call.
pub proof fn law_do_get_calls_are_not_implemented<Q, T, R>(
    service: FlightSqlServiceImpl,
    query: Q,
    request: Request<T>,
)
    ensures
        forall|r: Result<R, Status>| #[trigger]
            call_ensures(
                FlightSqlServiceImpl::do_get_statement::<Q, T, R>,
                (&service, query, request),
                r,
            ) ==> {
                &&& r is Err
                &&& r->Err_0.code == Code::Unimplemented
                &&& r->Err_0.message@ == "do_get_statement"@ + " has no default implementation"@
            },
        forall|r: Result<R, Status>| #[trigger]
            call_ensures(
                FlightSqlServiceImpl::do_get_prepared_statement::<Q, T, R>,
                (&service, query, request),
                r,
            ) ==> {
                &&& r is Err
                &&& r->Err_0.code == Code::Unimplemented
                &&& r->Err_0.message@ == "do_get_prepared_statement"@ + " has no default implementation"@
            },
        forall|r: Result<R, Status>| #[trigger]
            call_ensures(
                FlightSqlServiceImpl::do_get_catalogs::<Q, T, R>,
                (&service, query, request),
                r,
            ) ==> {
                &&& r is Err
                &&& r->Err_0.code == Code::Unimplemented
                &&& r->Err_0.message@ == "do_get_catalogs"@ + " has no default implementation"@
            },
        forall|r: Result<R, Status>| #[trigger]
            call_ensures(
                FlightSqlServiceImpl::do_get_schemas::<Q, T, R>,
                (&service, query, request),
                r,
            ) ==> {
                &&& r is Err
                &&& r->Err_0.code == Code::Unimplemented
                &&& r->Err_0.message@ == "do_get_schemas"@ + " has no default implementation"@
            },
        forall|r: Result<R, Status>| #[trigger]
            call_ensures(
                FlightSqlServiceImpl::do_get_tables::<Q, T, R>,
                (&service, query, request),
                r,
            ) ==> {
                &&& r is Err
                &&& r->Err_0.code == Code::Unimplemented
                &&& r->Err_0.message@ == "do_get_tables"@ + " has no default implementation"@
            },
        forall|r: Result<R, Status>| #[trigger]
            call_ensures(
                FlightSqlServiceImpl::do_get_table_types::<Q, T, R>,
                (&service, query, request),
                r,
            ) ==> {
                &&& r is Err
                &&& r->Err_0.code == Code::Unimplemented
                &&& r->Err_0.message@ == "do_get_table_types"@ + " has no default implementation"@
            },
        forall|r: Result<R, Status>| #[trigger]
            call_ensures(
                FlightSqlServiceImpl::do_get_sql_info::<Q, T, R>,
                (&service, query, request),
                r,
            ) ==> {
                &&& r is Err
                &&& r->Err_0.code == Code::Unimplemented
                &&& r->Err_0.message@ == "do_get_sql_info"@ + " has no default implementation"@
            },
        forall|r: Result<R, Status>| #[trigger]
            call_ensures(
                FlightSqlServiceImpl::do_get_primary_keys::<Q, T, R>,
                (&service, query, request),
                r,
            ) ==> {
                &&& r is Err
                &&& r->Err_0.code == Code::Unimplemented
                &&& r->Err_0.message@ == "do_get_primary_keys"@ + " has no default implementation"@
            },
        forall|r: Result<R, Status>| #[trigger]
            call_ensures(
                FlightSqlServiceImpl::do_get_exported_keys::<Q, T, R>,
                (&service, query, request),
                r,
            ) ==> {
                &&& r is Err
                &&& r->Err_0.code == Code::Unimplemented
                &&& r->Err_0.message@ == "do_get_exported_keys"@ + " has no default implementation"@
            },
        forall|r: Result<R, Status>| #[trigger]
            call_ensures(
                FlightSqlServiceImpl::do_get_imported_keys::<Q, T, R>,
                (&service, query, request),
                r,
            ) ==> {
                &&& r is Err
                &&& r->Err_0.code == Code::Unimplemented
                &&& r->Err_0.message@ == "do_get_imported_keys"@ + " has no default implementation"@
            },
        forall|r: Result<R, Status>| #[trigger]
            call_ensures(
                FlightSqlServiceImpl::do_get_cross_reference::<Q, T, R>,
                (&service, query, request),
                r,
            ) ==> {
                &&& r is Err
                &&& r->Err_0.code == Code::Unimplemented
                &&& r->Err_0.message@ == "do_get_cross_reference"@ + " has no default implementation"@
            },
        forall|r: Result<R, Status>| #[trigger]
            call_ensures(
                FlightSqlServiceImpl::do_get_xdbc_type_info::<Q, T, R>,
                (&service, query, request),
                r,
            ) ==> {
                &&& r is Err
                &&& r->Err_0.code == Code::Unimplemented
                &&& r->Err_0.message@ == "do_get_xdbc_type_info"@ + " has no default implementation"@
            },
{
}

/// No call that sends data is implemented, and each refusal names its call.
pub proof fn law_do_put_calls_are_not_implemented<Q, T, R>(
    service: FlightSqlServiceImpl,
    query: Q,
    request: Request<T>,
)
    ensures
        forall|r: Result<i64, Status>| #[trigger]
            call_ensures(
                FlightSqlServiceImpl::do_put_statement_update::<Q, T>,
                (&service, query, request),
                r,
            ) ==> {
                &&& r is Err
                &&& r->Err_0.code == Code::Unimplemented
                &&& r->Err_0.message@ == "do_put_statement_update"@ + " has no default implementation"@
            },
        forall|r: Result<i64, Status>| #[trigger]
            call_ensures(
                FlightSqlServiceImpl::do_put_statement_ingest::<Q, T>,
                (&service, query, request),
                r,
            ) ==> {
                &&& r is Err
                &&& r->Err_0.code == Code::Unimplemented
                &&& r->Err_0.message@ == "do_put_statement_ingest"@ + " has no default implementation"@
            },
        forall|r: Result<R, Status>| #[trigger]
            call_ensures(
                FlightSqlServiceImpl::do_put_prepared_statement_query::<Q, T, R>,
                (&service, query, request),
                r,
            ) ==> {
                &&& r is Err
                &&& r->Err_0.code == Code::Unimplemented
                &&& r->Err_0.message@ == "do_put_prepared_statement_query"@ + " has no default implementation"@
            },
        forall|r: Result<i64, Status>| #[trigger]
            call_ensures(
                FlightSqlServiceImpl::do_put_prepared_statement_update::<Q, T>,
                (&service, query, request),
                r,
            ) ==> {
                &&& r is Err
                &&& r->Err_0.code == Code::Unimplemented
                &&& r->Err_0.message@ == "do_put_prepared_statement_update"@ + " has no default implementation"@
            },
        forall|r: Result<i64, Status>| #[trigger]
            call_ensures(
                FlightSqlServiceImpl::do_put_substrait_plan::<Q, T>,
                (&service, query, request),
                r,
            ) ==> {
                &&& r is Err
                &&& r->Err_0.code == Code::Unimplemented
                &&& r->Err_0.message@ == "do_put_substrait_plan"@ + " has no default implementation"@
            },
{
}

/// No call for an action is implemented, and each refusal names its call.
pub proof fn law_do_action_calls_are_not_implemented<Q, T, R>(
    service: FlightSqlServiceImpl,
    query: Q,
    request: Request<T>,
)
    ensures
        forall|r: Result<R, Status>| #[trigger]
            call_ensures(
                FlightSqlServiceImpl::do_action_create_prepared_statement::<Q, T, R>,
                (&service, query, request),
                r,
            ) ==> {
                &&& r is Err
                &&& r->Err_0.code == Code::Unimplemented
                &&& r->Err_0.message@ == "do_action_create_prepared_statement"@ + " has no default implementation"@
            },
        forall|r: Result<(), Status>| #[trigger]
            call_ensures(
                FlightSqlServiceImpl::do_action_close_prepared_statement::<Q, T>,
                (&service, query, request),
                r,
            ) ==> {
                &&& r is Err
                &&& r->Err_0.code == Code::Unimplemented
                &&& r->Err_0.message@ == "do_action_close_prepared_statement"@ + " has no default implementation"@
            },
        forall|r: Result<R, Status>| #[trigger]
            call_ensures(
                FlightSqlServiceImpl::do_action_create_prepared_substrait_plan::<Q, T, R>,
                (&service, query, request),
                r,
            ) ==> {
                &&& r is Err
                &&& r->Err_0.code == Code::Unimplemented
                &&& r->Err_0.message@ == "do_action_create_prepared_substrait_plan"@ + " has no default implementation"@
            },
        forall|r: Result<R, Status>| #[trigger]
            call_ensures(
                FlightSqlServiceImpl::do_action_begin_transaction::<Q, T, R>,
                (&service, query, request),
                r,
            ) ==> {
                &&& r is Err
                &&& r->Err_0.code == Code::Unimplemented
                &&& r->Err_0.message@ == "do_action_begin_transaction"@ + " has no default implementation"@
            },
        forall|r: Result<(), Status>| #[trigger]
            call_ensures(
                FlightSqlServiceImpl::do_action_end_transaction::<Q, T>,
                (&service, query, request),
                r,
            ) ==> {
                &&& r is Err
                &&& r->Err_0.code == Code::Unimplemented
                &&& r->Err_0.message@ == "do_action_end_transaction"@ + " has no default implementation"@
            },
        forall|r: Result<R, Status>| #[trigger]
            call_ensures(
                FlightSqlServiceImpl::do_action_begin_savepoint::<Q, T, R>,
                (&service, query, request),
                r,
            ) ==> {
                &&& r is Err
                &&& r->Err_0.code == Code::Unimplemented
                &&& r->Err_0.message@ == "do_action_begin_savepoint"@ + " has no default implementation"@
            },
        forall|r: Result<(), Status>| #[trigger]
            call_ensures(
                FlightSqlServiceImpl::do_action_end_savepoint::<Q, T>,
                (&service, query, request),
                r,
            ) ==> {
                &&& r is Err
                &&& r->Err_0.code == Code::Unimplemented
                &&& r->Err_0.message@ == "do_action_end_savepoint"@ + " has no default implementation"@
            },
        forall|r: Result<R, Status>| #[trigger]
            call_ensures(
                FlightSqlServiceImpl::do_action_cancel_query::<Q, T, R>,
                (&service, query, request),
                r,
            ) ==> {
                &&& r is Err
                &&& r->Err_0.code == Code::Unimplemented
                &&& r->Err_0.message@ == "do_action_cancel_query"@ + " has no default implementation"@
            },
{
}

/// A handshake is not implemented.
pub proof fn law_handshake_is_not_implemented<T, R>(
    service: FlightSqlServiceImpl,
    request: Request<T>,
    r: Result<R, Status>,
)
    requires
        call_ensures(FlightSqlServiceImpl::do_handshake::<T, R>, (&service, request), r),
    ensures
        r is Err,
        r->Err_0.code == Code::Unimplemented,
        r->Err_0.message@ == "Handshake"@ + " has no default implementation"@,
{
}

/// An exchange is not implemented.
pub proof fn law_exchange_is_not_implemented<T, R>(
    service: FlightSqlServiceImpl,
    request: Request<T>,
    r: Result<R, Status>,
)
    requires
        call_ensures(FlightSqlServiceImpl::do_exchange_fallback::<T, R>, (&service, request), r),
    ensures
        r is Err,
        r->Err_0.code == Code::Unimplemented,
        r->Err_0.message@ == "Not yet implemented"@,
{
}

/// There are no actions besides those of the protocol.
pub proof fn law_no_custom_actions<A>(
    service: FlightSqlServiceImpl,
    r: Option<Vec<Result<A, Status>>>,
)
    requires
        call_ensures(FlightSqlServiceImpl::list_custom_actions::<A>, (&service,), r),
    ensures
        r is None,
{
}

/// A command that no handler takes is not implemented, and the refusal ends with its URL.
pub proof fn law_unknown_command_is_named<T, R>(
    service: FlightSqlServiceImpl,
    cmd: Command,
    request: Request<T>,
    r: Result<R, Status>,
)
    requires
        call_ensures(
            FlightSqlServiceImpl::get_flight_info_fallback::<T, R>,
            (&service, cmd, request),
            r,
        ),
    ensures
        r is Err,
        r->Err_0.code == Code::Unimplemented,
        r->Err_0.message@ == "get_flight_info"@ + ": The defined request is invalid: "@
            + cmd.type_url@,
{
}

/// A message that no handler takes is not implemented, and the refusal ends with its URL.
pub proof fn law_unknown_message_is_named<T, R>(
    service: FlightSqlServiceImpl,
    request: Request<T>,
    message: Any,
)
    ensures
        forall|r: Result<R, Status>| #[trigger]
            call_ensures(
                FlightSqlServiceImpl::do_get_fallback::<T, R>,
                (&service, request, message),
                r,
            ) ==> {
                &&& r is Err
                &&& r->Err_0.code == Code::Unimplemented
                &&& r->Err_0.message@ == "do_get"@ + ": The defined request is invalid: "@
                    + message.type_url@
            },
        forall|r: Result<R, Status>| #[trigger]
            call_ensures(
                FlightSqlServiceImpl::do_put_fallback::<T, R>,
                (&service, request, message),
                r,
            ) ==> {
                &&& r is Err
                &&& r->Err_0.code == Code::Unimplemented
                &&& r->Err_0.message@ == "do_put"@ + ": The defined request is invalid: "@
                    + message.type_url@
            },
{
}

/// An action that no handler takes is an invalid argument, and the refusal ends with its name
/// in quotes.
pub proof fn law_unknown_action_is_an_invalid_argument<R>(
    service: FlightSqlServiceImpl,
    request: Request<Action>,
    r: Result<R, Status>,
)
    requires
        call_ensures(FlightSqlServiceImpl::do_action_fallback::<R>, (&service, request), r),
    ensures
        r is Err,
        r->Err_0.code == Code::InvalidArgument,
        r->Err_0.message@ == "do_action"@ + ": The defined request is invalid: "@ + quoted_text(
            request.message.action_type@,
        ),
{
}

/// A status has the code that it is made with and the text that it is given.
pub proof fn law_status_keeps_its_text(message: String)
    ensures
        forall|r: Status| #[trigger]
            call_ensures(Status::invalid_argument, (message,), r) ==> r.code
                == Code::InvalidArgument && r.message@ == message@,
        forall|r: Status| #[trigger]
            call_ensures(Status::unimplemented, (message,), r) ==> r.code == Code::Unimplemented
                && r.message@ == message@,
        forall|r: Status| #[trigger]
            call_ensures(Status::internal, (message,), r) ==> r.code == Code::Internal
                && r.message@ == message@,
        forall|r: Status| #[trigger]
            call_ensures(Status::unauthenticated, (message,), r) ==> r.code
                == Code::Unauthenticated && r.message@ == message@,
{
}

/// The text of a refusal begins with the name of the call, and that of an unknown request
/// ends with the name of the request.
pub proof fn law_refusal_texts_hold_the_names(rpc: &str, detail: &str)
    ensures
        forall|r: String| #[trigger]
            call_ensures(no_default_message, (rpc,), r) ==> r@ == rpc@
                + " has no default implementation"@,
        forall|r: String| #[trigger]
            call_ensures(invalid_request_message, (rpc, detail), r) ==> r@ == rpc@
                + ": The defined request is invalid: "@ + detail@,
{
}

} // verus!
