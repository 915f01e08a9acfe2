use flight_sql_scenario::command::Command;
use flight_sql_scenario::fetch_results::{FetchResults, MalformedMessage};
use flight_sql_scenario::service::{FlightSqlServiceImpl, Request};
use flight_sql_scenario::status::{Code, Status};
use tonic::metadata::MetadataMap;

fn fetch(handle: &str) -> FetchResults {
    FetchResults { handle: handle.to_string() }
}

#[test]
fn the_type_url_names_the_message() {
    assert_eq!(
        FetchResults::type_url(),
        "type.googleapis.com/arrow.flight.protocol.sql.FetchResults"
    );
}

#[test]
fn a_handle_is_packed_as_field_one() {
    let any = fetch("uuid_handle").as_any();
    assert_eq!(any.type_url, "type.googleapis.com/arrow.flight.protocol.sql.FetchResults");
    assert_eq!(any.value, b"\x0a\x0buuid_handle".to_vec());
}

#[test]
fn an_empty_handle_takes_no_bytes() {
    assert_eq!(fetch("").encode_to_vec(), Vec::<u8>::new());
    assert_eq!(fetch("a").encode_to_vec(), b"\x0a\x01a".to_vec());
}

#[test]
fn a_long_handle_has_a_longer_length() {
    let handle = "x".repeat(300);
    let bytes = fetch(&handle).encode_to_vec();
    assert_eq!(bytes.len(), 303);
    assert_eq!(bytes[..3].to_vec(), vec![0x0a, 0xac, 0x02]);
}

#[test]
fn the_length_counts_bytes() {
    assert_eq!(fetch("\u{e9}").encode_to_vec(), vec![0x0a, 0x02, 0xc3, 0xa9]);
}

#[test]
fn a_handle_is_read_back() {
    for handle in ["", "uuid_handle", "\u{e9}\u{1f600}", &"y".repeat(20000)] {
        let message = fetch(handle);
        assert!(FetchResults::decode(&message.as_any().value) == Ok(message.clone()));
        assert!(message == fetch(handle));
    }
}

#[test]
fn other_fields_are_skipped_and_the_last_handle_counts() {
    let bytes = b"\x10\x05\x0a\x01a\x0a\x01b";
    assert_eq!(FetchResults::decode(bytes).unwrap().handle, "b");
}

#[test]
fn bytes_that_are_no_message_are_refused() {
    assert_eq!(FetchResults::decode(b"\x0a\x05abc").err(), Some(MalformedMessage));
    assert_eq!(FetchResults::decode(b"\x0a\x01\xff").err(), Some(MalformedMessage));
    assert_eq!(FetchResults::decode(b"\x08\x01").err(), Some(MalformedMessage));
}

#[test]
fn messages_differ_as_their_handles_do() {
    assert!(fetch("a") != fetch("b"));
    assert_ne!(fetch("a").as_any().value, fetch("b").as_any().value);
    assert_eq!(FetchResults::default().handle, "");
}

#[test]
fn a_packed_message_is_refused_by_its_url() {
    let service = FlightSqlServiceImpl {};
    let any = fetch("uuid_handle").as_any();
    let command = Command::unpack(&any).unwrap();
    let url = "type.googleapis.com/arrow.flight.protocol.sql.FetchResults";
    assert_eq!(command.type_url, url);
    let request = Request { metadata: MetadataMap::new(), message: () };
    let r: Result<(), Status> = service.get_flight_info_fallback(command, request);
    assert_eq!(
        r,
        Err(Status {
            code: Code::Unimplemented,
            message: format!("get_flight_info: The defined request is invalid: {url}"),
        })
    );
    let request = Request { metadata: MetadataMap::new(), message: () };
    let r: Result<(), Status> = service.do_get_fallback(request, any);
    assert_eq!(
        r,
        Err(Status {
            code: Code::Unimplemented,
            message: format!("do_get: The defined request is invalid: {url}"),
        })
    );
}
