use flight_sql_scenario::auth::{check_bearer, check_metadata, missing_authorization};
use flight_sql_scenario::auth::{unreadable_authorization, FAKE_TOKEN};
use flight_sql_scenario::service::{FlightSqlServiceImpl, Request};
use flight_sql_scenario::status::{Code, Status};
use tonic::metadata::{AsciiMetadataValue, MetadataMap};

fn status(code: Code, message: &str) -> Status {
    Status { code, message: message.to_string() }
}

fn request(metadata: MetadataMap) -> Request<u8> {
    Request { metadata, message: 0 }
}

fn with_authorization(value: &str) -> MetadataMap {
    let mut metadata = MetadataMap::new();
    metadata.insert("authorization", value.parse().unwrap());
    metadata
}

#[test]
fn the_token_is_accepted() {
    let service = FlightSqlServiceImpl {};
    assert_eq!(FAKE_TOKEN, "uuid_token");
    assert_eq!(service.check_token(&request(with_authorization("Bearer uuid_token"))), Ok(()));
    assert_eq!(check_bearer("Bearer uuid_token"), Ok(()));
}

#[test]
fn a_wrong_token_is_unauthenticated() {
    let refusal = Err(status(Code::Unauthenticated, "invalid token "));
    let service = FlightSqlServiceImpl {};
    assert_eq!(service.check_token(&request(with_authorization("Bearer other"))), refusal);
    assert_eq!(check_bearer("Bearer uuid_token "), refusal);
    assert_eq!(check_bearer("Bearer uuid_toke"), refusal);
    assert_eq!(check_bearer("Bearer "), refusal);
    assert_eq!(check_bearer("Bearer  uuid_token"), refusal);
}

#[test]
fn another_scheme_is_invalid() {
    let refusal = Err(status(Code::Internal, "Invalid auth header!"));
    let service = FlightSqlServiceImpl {};
    assert_eq!(service.check_token(&request(with_authorization("Basic uuid_token"))), refusal);
    assert_eq!(check_bearer(""), refusal);
    assert_eq!(check_bearer("Bearer"), refusal);
    assert_eq!(check_bearer("bearer uuid_token"), refusal);
    assert_eq!(check_bearer("uuid_token"), refusal);
}

#[test]
fn text_beyond_ascii_is_compared_by_characters() {
    assert_eq!(
        check_bearer("Bearer t\u{f6}ken"),
        Err(status(Code::Unauthenticated, "invalid token "))
    );
    assert_eq!(check_bearer("B\u{e9}arer x"), Err(status(Code::Internal, "Invalid auth header!")));
}

#[test]
fn a_missing_authorization_shows_the_metadata() {
    let mut metadata = MetadataMap::new();
    assert_eq!(
        check_metadata(&metadata),
        Err(status(
            Code::Internal,
            "No authorization header! metadata = MetadataMap { headers: {} }"
        ))
    );
    metadata.insert("x-host", "example.com".parse().unwrap());
    assert_eq!(
        check_metadata(&metadata),
        Err(status(
            Code::Internal,
            "No authorization header! metadata = MetadataMap { headers: {\"x-host\": \"example.com\"} }"
        ))
    );
    assert_eq!(
        missing_authorization("{}"),
        status(Code::Internal, "No authorization header! metadata = {}")
    );
}

#[test]
fn a_value_that_is_not_text_is_unreadable() {
    let mut metadata = MetadataMap::new();
    let value = AsciiMetadataValue::try_from(&b"Bearer \xfa"[..]).unwrap();
    metadata.insert("authorization", value);
    assert_eq!(
        check_metadata(&metadata),
        Err(status(Code::Internal, "Error parsing header: failed to convert metadata to a str"))
    );
    assert_eq!(
        unreadable_authorization("no reason"),
        status(Code::Internal, "Error parsing header: no reason")
    );
}

#[test]
fn a_tab_can_be_read() {
    let mut metadata = MetadataMap::new();
    let value = AsciiMetadataValue::try_from(&b"Bearer\tuuid_token"[..]).unwrap();
    metadata.insert("authorization", value);
    assert_eq!(
        check_metadata(&metadata),
        Err(status(Code::Internal, "Invalid auth header!"))
    );
}

#[test]
fn the_first_authorization_decides() {
    let mut metadata = with_authorization("Bearer uuid_token");
    metadata.append("authorization", "Basic other".parse().unwrap());
    metadata.append("x-host", "example.com".parse().unwrap());
    assert_eq!(check_metadata(&metadata), Ok(()));

    let mut metadata = with_authorization("Basic other");
    metadata.append("authorization", "Bearer uuid_token".parse().unwrap());
    assert_eq!(
        check_metadata(&metadata),
        Err(status(Code::Internal, "Invalid auth header!"))
    );
}

#[test]
fn other_headers_do_not_count() {
    let mut metadata = MetadataMap::new();
    metadata.insert("x-first", "Basic other".parse().unwrap());
    metadata.insert("authorization", "Bearer uuid_token".parse().unwrap());
    metadata.insert("x-last", "Basic other".parse().unwrap());
    assert_eq!(check_metadata(&metadata), Ok(()));
}
