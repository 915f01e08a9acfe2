use arrow_flight::sql::{CommandGetTables, CommandStatementQuery, ProstMessageExt};
use flight_sql_scenario::command::{Any, Command};

fn packed<M: ProstMessageExt>(message: &M) -> Any {
    let any = message.as_any();
    Any { type_url: any.type_url.clone(), value: any.value.to_vec() }
}

#[test]
fn a_command_has_the_url_of_its_message() {
    let query = CommandStatementQuery { query: "select 1".to_string(), transaction_id: None };
    assert_eq!(
        Command::unpack(&packed(&query)).unwrap().type_url,
        "type.googleapis.com/arrow.flight.protocol.sql.CommandStatementQuery"
    );
    assert_eq!(
        Command::unpack(&packed(&CommandGetTables::default())).unwrap().type_url,
        "type.googleapis.com/arrow.flight.protocol.sql.CommandGetTables"
    );
}

#[test]
fn an_unknown_message_is_a_command_too() {
    let any = Any { type_url: "fake_url".to_string(), value: vec![0xff, 0xff] };
    assert_eq!(Command::unpack(&any).unwrap().type_url, "fake_url");
    let any = Any { type_url: String::new(), value: vec![] };
    assert_eq!(Command::unpack(&any).unwrap().type_url, "");
}

#[test]
fn a_known_message_that_cannot_be_decoded_is_no_command() {
    let url = "type.googleapis.com/arrow.flight.protocol.sql.CommandStatementQuery";
    let any = Any { type_url: url.to_string(), value: vec![0x0a, 0x05, 0x61] };
    assert_eq!(Command::unpack(&any), None);
}
