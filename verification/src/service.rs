//! The service: what each call of the Flight SQL protocol is answered.
//!
//! No call is implemented. A handler therefore reads at most the name of the request that it
//! refuses, and is generic in the rest: in the decoded command `Q`, in the message `T` that
//! the request carries, and in the response `R` that it would give.

use crate::auth::{check_metadata, reply_view, token_reply};
use crate::batch::{append_value, finish, new_schema, new_text_builder, try_new_batch};
use crate::batch::{batch_columns, batch_metadata, batch_rows, column_cells};
use crate::batch::{no_metadata, without_nulls, FieldView};
use crate::batch::{Batch, DataType, Field};
use crate::command::{Any, Command};
use crate::metadata::metadata_entries;
use crate::status::{invalid_request_message, no_default_message};
use crate::status::{invalid_request_text, no_default_text, refused};
use crate::status::{Code, Status};
use arrow_schema::ArrowError;
use tonic::metadata::MetadataMap;
use vstd::prelude::*;
use vstd::utf8::is_ascii_chars_encode_utf8;

verus! {

/// The handle of the one prepared statement there could be.
pub const FAKE_HANDLE: &'static str = "uuid_handle";

/// The number of rows that an update would touch.
pub const FAKE_UPDATE_RESULT: i64 = 1;

/// A request: the metadata of the call, and the message that it carries.
pub struct Request<T> {
    pub metadata: MetadataMap,
    pub message: T,
}

/// An action that a client asks for by name.
#[derive(Debug, PartialEq, Eq)]
pub struct Action {
    pub action_type: String,
    pub body: Vec<u8>,
}

/// The text that `Debug` writes for a string: in quotes, and with escapes.
pub uninterp spec fn quoted_text(text: Seq<char>) -> Seq<char>;

/// The `Debug` text of `str`.
///
/// Claimed: it depends on the characters alone.
#[verifier::external_body]
fn quoted(text: &str) -> (r: String)
    ensures
        r@ == quoted_text(text@),
{
    format!("{text:?}")
}

/// Refuses a call that nothing implements.
fn no_default<R>(rpc: &str) -> (r: Result<R, Status>)
    ensures
        refused(r, Code::Unimplemented, no_default_text(rpc@)),
{
    Err(Status::unimplemented(no_default_message(rpc)))
}

/// Refuses a call whose payload has the given URL.
fn invalid_request<R>(rpc: &str, type_url: &str) -> (r: Result<R, Status>)
    ensures
        refused(r, Code::Unimplemented, invalid_request_text(rpc@, type_url@)),
{
    Err(Status::unimplemented(invalid_request_message(rpc, type_url)))
}

/// The columns of the made-up result: one, with one greeting in it.
pub open spec fn fake_columns() -> Seq<(FieldView, Option<Seq<Option<Seq<char>>>>)> {
    let salutation = FieldView {
        name: "salutation"@,
        data_type: Some(DataType::Utf8),
        nullable: false,
        metadata: no_metadata(),
    };
    seq![(salutation, Some(seq![Some("Hello, FlightSQL!"@)]))]
}

/// The Flight SQL service.
#[derive(Clone, Copy, Debug)]
pub struct FlightSqlServiceImpl {}

impl FlightSqlServiceImpl {
    /// Checks that a request carries the token that the server accepts.
    pub fn check_token<T>(&self, req: &Request<T>) -> (r: Result<(), Status>)
        ensures
            reply_view(r) == token_reply(metadata_entries(req.metadata)),
    {
        check_metadata(&req.metadata)
    }

    /// The made-up result of a query: one greeting, in a table without metadata.
    pub fn fake_result() -> (r: Result<Batch, ArrowError>)
        ensures
            r is Ok,
            batch_columns(r->Ok_0) == fake_columns(),
            batch_metadata(r->Ok_0) == no_metadata(),
            batch_rows(r->Ok_0) == 1,
    {
        proof {
            reveal_strlit("Hello, FlightSQL!");
            is_ascii_chars_encode_utf8("Hello, FlightSQL!"@);
        }
        let field = Field {
            name: "salutation".to_owned(),
            data_type: DataType::Utf8,
            nullable: false,
        };
        let schema = new_schema(&vec![field]);
        let mut builder = new_text_builder();
        append_value(&mut builder, "Hello, FlightSQL!");
        let column = finish(&mut builder);
        assert(column_cells(column) =~= seq!["Hello, FlightSQL!"@]);
        assert(without_nulls(column_cells(column)) =~= seq![Some("Hello, FlightSQL!"@)]);
        try_new_batch(schema, column)
    }

    /// Refuses the call to authenticate and get a token.
    pub fn do_handshake<T, R>(&self, _request: Request<T>) -> (r: Result<R, Status>)
        ensures
            refused(r, Code::Unimplemented, no_default_text("Handshake"@)),
    {
        no_default("Handshake")
    }

    // get_flight_info

    /// Refuses the call to get a FlightInfo for executing a SQL query.
    pub fn get_flight_info_statement<Q, T, R>(
        &self,
        _query: Q,
        _request: Request<T>,
    ) -> (r: Result<R, Status>)
        ensures
            refused(r, Code::Unimplemented, no_default_text("get_flight_info_statement"@)),
    {
        no_default("get_flight_info_statement")
    }

    /// Refuses the call to get a FlightInfo for executing a substrait plan.
    pub fn get_flight_info_substrait_plan<Q, T, R>(
        &self,
        _query: Q,
        _request: Request<T>,
    ) -> (r: Result<R, Status>)
        ensures
            refused(r, Code::Unimplemented, no_default_text("get_flight_info_substrait_plan"@)),
    {
        no_default("get_flight_info_substrait_plan")
    }

    /// Refuses the call to get a FlightInfo for executing an already created prepared statement.
    pub fn get_flight_info_prepared_statement<Q, T, R>(
        &self,
        _query: Q,
        _request: Request<T>,
    ) -> (r: Result<R, Status>)
        ensures
            refused(r, Code::Unimplemented, no_default_text("get_flight_info_prepared_statement"@)),
    {
        no_default("get_flight_info_prepared_statement")
    }

    /// Refuses the call to get a FlightInfo for listing catalogs.
    pub fn get_flight_info_catalogs<Q, T, R>(
        &self,
        _query: Q,
        _request: Request<T>,
    ) -> (r: Result<R, Status>)
        ensures
            refused(r, Code::Unimplemented, no_default_text("get_flight_info_catalogs"@)),
    {
        no_default("get_flight_info_catalogs")
    }

    /// Refuses the call to get a FlightInfo for listing schemas.
    pub fn get_flight_info_schemas<Q, T, R>(
        &self,
        _query: Q,
        _request: Request<T>,
    ) -> (r: Result<R, Status>)
        ensures
            refused(r, Code::Unimplemented, no_default_text("get_flight_info_schemas"@)),
    {
        no_default("get_flight_info_schemas")
    }

    /// Refuses the call to get a FlightInfo for listing tables.
    pub fn get_flight_info_tables<Q, T, R>(
        &self,
        _query: Q,
        _request: Request<T>,
    ) -> (r: Result<R, Status>)
        ensures
            refused(r, Code::Unimplemented, no_default_text("get_flight_info_tables"@)),
    {
        no_default("get_flight_info_tables")
    }

    /// Refuses the call to get a FlightInfo to extract information about the table types.
    pub fn get_flight_info_table_types<Q, T, R>(
        &self,
        _query: Q,
        _request: Request<T>,
    ) -> (r: Result<R, Status>)
        ensures
            refused(r, Code::Unimplemented, no_default_text("get_flight_info_table_types"@)),
    {
        no_default("get_flight_info_table_types")
    }

    /// Refuses the call to get a FlightInfo for retrieving other information about the server.
    pub fn get_flight_info_sql_info<Q, T, R>(
        &self,
        _query: Q,
        _request: Request<T>,
    ) -> (r: Result<R, Status>)
        ensures
            refused(r, Code::Unimplemented, no_default_text("get_flight_info_sql_info"@)),
    {
        no_default("get_flight_info_sql_info")
    }

    /// Refuses the call to get a FlightInfo to extract information about primary and foreign keys.
    pub fn get_flight_info_primary_keys<Q, T, R>(
        &self,
        _query: Q,
        _request: Request<T>,
    ) -> (r: Result<R, Status>)
        ensures
            refused(r, Code::Unimplemented, no_default_text("get_flight_info_primary_keys"@)),
    {
        no_default("get_flight_info_primary_keys")
    }

    /// Refuses the call to get a FlightInfo to extract information about exported keys.
    pub fn get_flight_info_exported_keys<Q, T, R>(
        &self,
        _query: Q,
        _request: Request<T>,
    ) -> (r: Result<R, Status>)
        ensures
            refused(r, Code::Unimplemented, no_default_text("get_flight_info_exported_keys"@)),
    {
        no_default("get_flight_info_exported_keys")
    }

    /// Refuses the call to get a FlightInfo to extract information about imported keys.
    pub fn get_flight_info_imported_keys<Q, T, R>(
        &self,
        _query: Q,
        _request: Request<T>,
    ) -> (r: Result<R, Status>)
        ensures
            refused(r, Code::Unimplemented, no_default_text("get_flight_info_imported_keys"@)),
    {
        no_default("get_flight_info_imported_keys")
    }

    /// Refuses the call to get a FlightInfo to extract information about cross reference.
    pub fn get_flight_info_cross_reference<Q, T, R>(
        &self,
        _query: Q,
        _request: Request<T>,
    ) -> (r: Result<R, Status>)
        ensures
            refused(r, Code::Unimplemented, no_default_text("get_flight_info_cross_reference"@)),
    {
        no_default("get_flight_info_cross_reference")
    }

    /// Refuses the call to get a FlightInfo to extract information about the supported XDBC types.
    pub fn get_flight_info_xdbc_type_info<Q, T, R>(
        &self,
        _query: Q,
        _request: Request<T>,
    ) -> (r: Result<R, Status>)
        ensures
            refused(r, Code::Unimplemented, no_default_text("get_flight_info_xdbc_type_info"@)),
    {
        no_default("get_flight_info_xdbc_type_info")
    }

    /// Refuses a get_flight_info() whose command no other handler takes.
    pub fn get_flight_info_fallback<T, R>(
        &self,
        cmd: Command,
        _request: Request<T>,
    ) -> (r: Result<R, Status>)
        ensures
            refused(
                r,
                Code::Unimplemented,
                invalid_request_text("get_flight_info"@, cmd.type_url@),
            ),
    {
        invalid_request("get_flight_info", cmd.type_url.as_str())
    }

    // do_get

    /// Refuses a do_get() whose ticket no other handler takes.
    pub fn do_get_fallback<T, R>(&self, _request: Request<T>, message: Any) -> (r: Result<R, Status>)
        ensures
            refused(
                r,
                Code::Unimplemented,
                invalid_request_text("do_get"@, message.type_url@),
            ),
    {
        invalid_request("do_get", message.type_url.as_str())
    }

    /// Refuses the call to get a FlightDataStream containing the query results.
    pub fn do_get_statement<Q, T, R>(
        &self,
        _ticket: Q,
        _request: Request<T>,
    ) -> (r: Result<R, Status>)
        ensures
            refused(r, Code::Unimplemented, no_default_text("do_get_statement"@)),
    {
        no_default("do_get_statement")
    }

    /// Refuses the call to get a FlightDataStream containing the prepared statement query results.
    pub fn do_get_prepared_statement<Q, T, R>(
        &self,
        _query: Q,
        _request: Request<T>,
    ) -> (r: Result<R, Status>)
        ensures
            refused(r, Code::Unimplemented, no_default_text("do_get_prepared_statement"@)),
    {
        no_default("do_get_prepared_statement")
    }

    /// Refuses the call to get a FlightDataStream containing the list of catalogs.
    pub fn do_get_catalogs<Q, T, R>(
        &self,
        _query: Q,
        _request: Request<T>,
    ) -> (r: Result<R, Status>)
        ensures
            refused(r, Code::Unimplemented, no_default_text("do_get_catalogs"@)),
    {
        no_default("do_get_catalogs")
    }

    /// Refuses the call to get a FlightDataStream containing the list of schemas.
    pub fn do_get_schemas<Q, T, R>(&self, _query: Q, _request: Request<T>) -> (r: Result<R, Status>)
        ensures
            refused(r, Code::Unimplemented, no_default_text("do_get_schemas"@)),
    {
        no_default("do_get_schemas")
    }

    /// Refuses the call to get a FlightDataStream containing the list of tables.
    pub fn do_get_tables<Q, T, R>(&self, _query: Q, _request: Request<T>) -> (r: Result<R, Status>)
        ensures
            refused(r, Code::Unimplemented, no_default_text("do_get_tables"@)),
    {
        no_default("do_get_tables")
    }

    /// Refuses the call to get a FlightDataStream containing the data related to the table types.
    pub fn do_get_table_types<Q, T, R>(
        &self,
        _query: Q,
        _request: Request<T>,
    ) -> (r: Result<R, Status>)
        ensures
            refused(r, Code::Unimplemented, no_default_text("do_get_table_types"@)),
    {
        no_default("do_get_table_types")
    }

    /// Refuses the call to get a FlightDataStream containing what the server tells of itself.
    pub fn do_get_sql_info<Q, T, R>(
        &self,
        _query: Q,
        _request: Request<T>,
    ) -> (r: Result<R, Status>)
        ensures
            refused(r, Code::Unimplemented, no_default_text("do_get_sql_info"@)),
    {
        no_default("do_get_sql_info")
    }

    /// Refuses the call to get a FlightDataStream containing the data related to the primary and
    /// foreign keys.
    pub fn do_get_primary_keys<Q, T, R>(
        &self,
        _query: Q,
        _request: Request<T>,
    ) -> (r: Result<R, Status>)
        ensures
            refused(r, Code::Unimplemented, no_default_text("do_get_primary_keys"@)),
    {
        no_default("do_get_primary_keys")
    }

    /// Refuses the call to get a FlightDataStream containing the data related to the exported
    /// keys.
    pub fn do_get_exported_keys<Q, T, R>(
        &self,
        _query: Q,
        _request: Request<T>,
    ) -> (r: Result<R, Status>)
        ensures
            refused(r, Code::Unimplemented, no_default_text("do_get_exported_keys"@)),
    {
        no_default("do_get_exported_keys")
    }

    /// Refuses the call to get a FlightDataStream containing the data related to the imported
    /// keys.
    pub fn do_get_imported_keys<Q, T, R>(
        &self,
        _query: Q,
        _request: Request<T>,
    ) -> (r: Result<R, Status>)
        ensures
            refused(r, Code::Unimplemented, no_default_text("do_get_imported_keys"@)),
    {
        no_default("do_get_imported_keys")
    }

    /// Refuses the call to get a FlightDataStream containing the data related to the cross
    /// reference.
    pub fn do_get_cross_reference<Q, T, R>(
        &self,
        _query: Q,
        _request: Request<T>,
    ) -> (r: Result<R, Status>)
        ensures
            refused(r, Code::Unimplemented, no_default_text("do_get_cross_reference"@)),
    {
        no_default("do_get_cross_reference")
    }

    /// Refuses the call to get a FlightDataStream containing the data related to the supported
    /// XDBC types.
    pub fn do_get_xdbc_type_info<Q, T, R>(
        &self,
        _query: Q,
        _request: Request<T>,
    ) -> (r: Result<R, Status>)
        ensures
            refused(r, Code::Unimplemented, no_default_text("do_get_xdbc_type_info"@)),
    {
        no_default("do_get_xdbc_type_info")
    }

    // do_put

    /// Refuses a do_put() whose command no other handler takes.
    pub fn do_put_fallback<T, R>(&self, _request: Request<T>, message: Any) -> (r: Result<R, Status>)
        ensures
            refused(
                r,
                Code::Unimplemented,
                invalid_request_text("do_put"@, message.type_url@),
            ),
    {
        invalid_request("do_put", message.type_url.as_str())
    }

    /// Refuses the call to execute an update SQL statement.
    pub fn do_put_statement_update<Q, T>(
        &self,
        _ticket: Q,
        _request: Request<T>,
    ) -> (r: Result<i64, Status>)
        ensures
            refused(r, Code::Unimplemented, no_default_text("do_put_statement_update"@)),
    {
        no_default("do_put_statement_update")
    }

    /// Refuses the call to execute a bulk ingestion.
    pub fn do_put_statement_ingest<Q, T>(
        &self,
        _ticket: Q,
        _request: Request<T>,
    ) -> (r: Result<i64, Status>)
        ensures
            refused(r, Code::Unimplemented, no_default_text("do_put_statement_ingest"@)),
    {
        no_default("do_put_statement_ingest")
    }

    /// Refuses the call to bind parameters to a given prepared statement.
    ///
    /// In the protocol the reply is an opaque handle that the client passes back to the server
    /// during subsequent requests with this prepared statement.
    pub fn do_put_prepared_statement_query<Q, T, R>(
        &self,
        _query: Q,
        _request: Request<T>,
    ) -> (r: Result<R, Status>)
        ensures
            refused(r, Code::Unimplemented, no_default_text("do_put_prepared_statement_query"@)),
    {
        no_default("do_put_prepared_statement_query")
    }

    /// Refuses the call to execute an update SQL prepared statement.
    pub fn do_put_prepared_statement_update<Q, T>(
        &self,
        _query: Q,
        _request: Request<T>,
    ) -> (r: Result<i64, Status>)
        ensures
            refused(r, Code::Unimplemented, no_default_text("do_put_prepared_statement_update"@)),
    {
        no_default("do_put_prepared_statement_update")
    }

    /// Refuses the call to execute a substrait plan.
    pub fn do_put_substrait_plan<Q, T>(
        &self,
        _query: Q,
        _request: Request<T>,
    ) -> (r: Result<i64, Status>)
        ensures
            refused(r, Code::Unimplemented, no_default_text("do_put_substrait_plan"@)),
    {
        no_default("do_put_substrait_plan")
    }

    // do_action

    /// Refuses a do_action() whose action no other handler takes, with the name of the action
    /// in quotes.
    pub fn do_action_fallback<R>(&self, request: Request<Action>) -> (r: Result<R, Status>)
        ensures
            refused(
                r,
                Code::InvalidArgument,
                invalid_request_text("do_action"@, quoted_text(request.message.action_type@)),
            ),
    {
        let name = quoted(request.message.action_type.as_str());
        Err(Status::invalid_argument(invalid_request_message("do_action", name.as_str())))
    }

    /// The actions that the server has besides those of the protocol: none.
    pub fn list_custom_actions<A>(&self) -> (r: Option<Vec<Result<A, Status>>>)
        ensures
            r is None,
    {
        None
    }

    /// Refuses the call to create a prepared statement from given SQL statement.
    pub fn do_action_create_prepared_statement<Q, T, R>(
        &self,
        _query: Q,
        _request: Request<T>,
    ) -> (r: Result<R, Status>)
        ensures
            refused(r, Code::Unimplemented, no_default_text("do_action_create_prepared_statement"@)),
    {
        no_default("do_action_create_prepared_statement")
    }

    /// Refuses the call to close a prepared statement.
    pub fn do_action_close_prepared_statement<Q, T>(
        &self,
        _query: Q,
        _request: Request<T>,
    ) -> (r: Result<(), Status>)
        ensures
            refused(r, Code::Unimplemented, no_default_text("do_action_close_prepared_statement"@)),
    {
        no_default("do_action_close_prepared_statement")
    }

    /// Refuses the call to create a prepared substrait plan.
    pub fn do_action_create_prepared_substrait_plan<Q, T, R>(
        &self,
        _query: Q,
        _request: Request<T>,
    ) -> (r: Result<R, Status>)
        ensures
            refused(r, Code::Unimplemented, no_default_text("do_action_create_prepared_substrait_plan"@)),
    {
        no_default("do_action_create_prepared_substrait_plan")
    }

    /// Refuses the call to begin a transaction.
    pub fn do_action_begin_transaction<Q, T, R>(
        &self,
        _query: Q,
        _request: Request<T>,
    ) -> (r: Result<R, Status>)
        ensures
            refused(r, Code::Unimplemented, no_default_text("do_action_begin_transaction"@)),
    {
        no_default("do_action_begin_transaction")
    }

    /// Refuses the call to end a transaction.
    pub fn do_action_end_transaction<Q, T>(
        &self,
        _query: Q,
        _request: Request<T>,
    ) -> (r: Result<(), Status>)
        ensures
            refused(r, Code::Unimplemented, no_default_text("do_action_end_transaction"@)),
    {
        no_default("do_action_end_transaction")
    }

    /// Refuses the call to begin a savepoint.
    pub fn do_action_begin_savepoint<Q, T, R>(
        &self,
        _query: Q,
        _request: Request<T>,
    ) -> (r: Result<R, Status>)
        ensures
            refused(r, Code::Unimplemented, no_default_text("do_action_begin_savepoint"@)),
    {
        no_default("do_action_begin_savepoint")
    }

    /// Refuses the call to end a savepoint.
    pub fn do_action_end_savepoint<Q, T>(
        &self,
        _query: Q,
        _request: Request<T>,
    ) -> (r: Result<(), Status>)
        ensures
            refused(r, Code::Unimplemented, no_default_text("do_action_end_savepoint"@)),
    {
        no_default("do_action_end_savepoint")
    }

    /// Refuses the call to cancel a query.
    pub fn do_action_cancel_query<Q, T, R>(
        &self,
        _query: Q,
        _request: Request<T>,
    ) -> (r: Result<R, Status>)
        ensures
            refused(r, Code::Unimplemented, no_default_text("do_action_cancel_query"@)),
    {
        no_default("do_action_cancel_query")
    }

    // do_exchange

    /// Refuses every do_exchange().
    pub fn do_exchange_fallback<T, R>(&self, _request: Request<T>) -> (r: Result<R, Status>)
        ensures
            refused(r, Code::Unimplemented, "Not yet implemented"@),
    {
        Err(Status::unimplemented("Not yet implemented".to_owned()))
    }
}

} // verus!
