use flight_sql_scenario::command::{Any, Command};
use flight_sql_scenario::service::{Action, FlightSqlServiceImpl, Request};
use flight_sql_scenario::service::{FAKE_HANDLE, FAKE_UPDATE_RESULT};
use flight_sql_scenario::status::{invalid_request_message, no_default_message, Code, Status};
use std::fmt::Debug;
use tonic::metadata::MetadataMap;

const SERVICE: FlightSqlServiceImpl = FlightSqlServiceImpl {};

fn request<T>(message: T) -> Request<T> {
    Request { metadata: MetadataMap::new(), message }
}

fn assert_unimplemented<R: Debug + PartialEq>(r: Result<R, Status>, message: &str) {
    assert_eq!(r, Err(Status { code: Code::Unimplemented, message: message.to_string() }));
}

fn any(type_url: &str) -> Any {
    Any { type_url: type_url.to_string(), value: vec![1, 2, 3] }
}

#[test]
fn the_constants_are_as_published() {
    assert_eq!(FAKE_HANDLE, "uuid_handle");
    assert_eq!(FAKE_UPDATE_RESULT, 1);
}

#[test]
fn the_handshake_is_refused() {
    assert_unimplemented::<()>(
        SERVICE.do_handshake(request("hello")),
        "Handshake has no default implementation",
    );
}

#[test]
fn every_get_flight_info_is_refused() {
    assert_unimplemented::<()>(
        SERVICE.get_flight_info_statement("query", request(7)),
        "get_flight_info_statement has no default implementation",
    );
    assert_unimplemented::<()>(
        SERVICE.get_flight_info_substrait_plan("query", request(7)),
        "get_flight_info_substrait_plan has no default implementation",
    );
    assert_unimplemented::<()>(
        SERVICE.get_flight_info_prepared_statement("query", request(7)),
        "get_flight_info_prepared_statement has no default implementation",
    );
    assert_unimplemented::<()>(
        SERVICE.get_flight_info_catalogs("query", request(7)),
        "get_flight_info_catalogs has no default implementation",
    );
    assert_unimplemented::<()>(
        SERVICE.get_flight_info_schemas("query", request(7)),
        "get_flight_info_schemas has no default implementation",
    );
    assert_unimplemented::<()>(
        SERVICE.get_flight_info_tables("query", request(7)),
        "get_flight_info_tables has no default implementation",
    );
    assert_unimplemented::<()>(
        SERVICE.get_flight_info_table_types("query", request(7)),
        "get_flight_info_table_types has no default implementation",
    );
    assert_unimplemented::<()>(
        SERVICE.get_flight_info_sql_info("query", request(7)),
        "get_flight_info_sql_info has no default implementation",
    );
    assert_unimplemented::<()>(
        SERVICE.get_flight_info_primary_keys("query", request(7)),
        "get_flight_info_primary_keys has no default implementation",
    );
    assert_unimplemented::<()>(
        SERVICE.get_flight_info_exported_keys("query", request(7)),
        "get_flight_info_exported_keys has no default implementation",
    );
    assert_unimplemented::<()>(
        SERVICE.get_flight_info_imported_keys("query", request(7)),
        "get_flight_info_imported_keys has no default implementation",
    );
    assert_unimplemented::<()>(
        SERVICE.get_flight_info_cross_reference("query", request(7)),
        "get_flight_info_cross_reference has no default implementation",
    );
    assert_unimplemented::<()>(
        SERVICE.get_flight_info_xdbc_type_info("query", request(7)),
        "get_flight_info_xdbc_type_info has no default implementation",
    );
}

#[test]
fn every_do_get_is_refused() {
    assert_unimplemented::<()>(
        SERVICE.do_get_statement("query", request(7)),
        "do_get_statement has no default implementation",
    );
    assert_unimplemented::<()>(
        SERVICE.do_get_prepared_statement("query", request(7)),
        "do_get_prepared_statement has no default implementation",
    );
    assert_unimplemented::<()>(
        SERVICE.do_get_catalogs("query", request(7)),
        "do_get_catalogs has no default implementation",
    );
    assert_unimplemented::<()>(
        SERVICE.do_get_schemas("query", request(7)),
        "do_get_schemas has no default implementation",
    );
    assert_unimplemented::<()>(
        SERVICE.do_get_tables("query", request(7)),
        "do_get_tables has no default implementation",
    );
    assert_unimplemented::<()>(
        SERVICE.do_get_table_types("query", request(7)),
        "do_get_table_types has no default implementation",
    );
    assert_unimplemented::<()>(
        SERVICE.do_get_sql_info("query", request(7)),
        "do_get_sql_info has no default implementation",
    );
    assert_unimplemented::<()>(
        SERVICE.do_get_primary_keys("query", request(7)),
        "do_get_primary_keys has no default implementation",
    );
    assert_unimplemented::<()>(
        SERVICE.do_get_exported_keys("query", request(7)),
        "do_get_exported_keys has no default implementation",
    );
    assert_unimplemented::<()>(
        SERVICE.do_get_imported_keys("query", request(7)),
        "do_get_imported_keys has no default implementation",
    );
    assert_unimplemented::<()>(
        SERVICE.do_get_cross_reference("query", request(7)),
        "do_get_cross_reference has no default implementation",
    );
    assert_unimplemented::<()>(
        SERVICE.do_get_xdbc_type_info("query", request(7)),
        "do_get_xdbc_type_info has no default implementation",
    );
}

#[test]
fn every_do_put_is_refused() {
    assert_unimplemented::<i64>(
        SERVICE.do_put_statement_update("query", request(7)),
        "do_put_statement_update has no default implementation",
    );
    assert_unimplemented::<i64>(
        SERVICE.do_put_statement_ingest("query", request(7)),
        "do_put_statement_ingest has no default implementation",
    );
    assert_unimplemented::<()>(
        SERVICE.do_put_prepared_statement_query("query", request(7)),
        "do_put_prepared_statement_query has no default implementation",
    );
    assert_unimplemented::<i64>(
        SERVICE.do_put_prepared_statement_update("query", request(7)),
        "do_put_prepared_statement_update has no default implementation",
    );
    assert_unimplemented::<i64>(
        SERVICE.do_put_substrait_plan("query", request(7)),
        "do_put_substrait_plan has no default implementation",
    );
}

#[test]
fn every_do_action_is_refused() {
    assert_unimplemented::<()>(
        SERVICE.do_action_create_prepared_statement("query", request(7)),
        "do_action_create_prepared_statement has no default implementation",
    );
    assert_unimplemented::<()>(
        SERVICE.do_action_close_prepared_statement("query", request(7)),
        "do_action_close_prepared_statement has no default implementation",
    );
    assert_unimplemented::<()>(
        SERVICE.do_action_create_prepared_substrait_plan("query", request(7)),
        "do_action_create_prepared_substrait_plan has no default implementation",
    );
    assert_unimplemented::<()>(
        SERVICE.do_action_begin_transaction("query", request(7)),
        "do_action_begin_transaction has no default implementation",
    );
    assert_unimplemented::<()>(
        SERVICE.do_action_end_transaction("query", request(7)),
        "do_action_end_transaction has no default implementation",
    );
    assert_unimplemented::<()>(
        SERVICE.do_action_begin_savepoint("query", request(7)),
        "do_action_begin_savepoint has no default implementation",
    );
    assert_unimplemented::<()>(
        SERVICE.do_action_end_savepoint("query", request(7)),
        "do_action_end_savepoint has no default implementation",
    );
    assert_unimplemented::<()>(
        SERVICE.do_action_cancel_query("query", request(7)),
        "do_action_cancel_query has no default implementation",
    );
}

#[test]
fn an_unknown_get_flight_info_is_refused_with_its_url() {
    let command = Command { type_url: "some/url".to_string() };
    assert_unimplemented::<()>(
        SERVICE.get_flight_info_fallback(command, request(7)),
        "get_flight_info: The defined request is invalid: some/url",
    );
}

#[test]
fn an_unknown_do_get_is_refused_with_its_url() {
    assert_unimplemented::<()>(
        SERVICE.do_get_fallback(request(7), any("some/url")),
        "do_get: The defined request is invalid: some/url",
    );
    assert_unimplemented::<()>(
        SERVICE.do_get_fallback(request(7), any("")),
        "do_get: The defined request is invalid: ",
    );
}

#[test]
fn an_unknown_do_put_is_refused_with_its_url() {
    assert_unimplemented::<()>(
        SERVICE.do_put_fallback(request(7), any("some/\u{e9}")),
        "do_put: The defined request is invalid: some/\u{e9}",
    );
}

#[test]
fn an_unknown_action_is_refused_with_its_quoted_name() {
    for (name, quoted) in [
        ("Action", "\"Action\""),
        ("", "\"\""),
        ("a\"b\\c\n", "\"a\\\"b\\\\c\\n\""),
    ] {
        let action = Action { action_type: name.to_string(), body: vec![] };
        let r: Result<(), Status> = SERVICE.do_action_fallback(request(action));
        assert_eq!(
            r,
            Err(Status {
                code: Code::InvalidArgument,
                message: format!("do_action: The defined request is invalid: {quoted}"),
            })
        );
    }
}

#[test]
fn there_are_no_custom_actions() {
    let actions: Option<Vec<Result<(), Status>>> = SERVICE.list_custom_actions();
    assert_eq!(actions, None);
}

#[test]
fn every_do_exchange_is_refused() {
    assert_unimplemented::<()>(SERVICE.do_exchange_fallback(request(7)), "Not yet implemented");
}

#[test]
fn a_refusal_names_the_call_and_the_request() {
    assert_ne!(no_default_message("do_get_tables"), no_default_message("do_get_schemas"));
    assert_ne!(invalid_request_message("do_get", "a"), invalid_request_message("do_get", "b"));
    assert_ne!(invalid_request_message("do_get", "a"), invalid_request_message("do_put", "a"));
    assert_ne!(no_default_message("do_get"), invalid_request_message("do_get", ""));
}
