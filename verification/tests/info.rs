use arrow_array::{Array, StringArray, UInt32Array, UnionArray};
use arrow_flight::sql::{Nullable, Searchable, SqlInfo, XdbcDataType};
use flight_sql_scenario::info::{instance_sql_data, instance_xdbc_types, tables};
use flight_sql_scenario::info::{
    FLIGHT_SQL_SERVER_ARROW_VERSION, FLIGHT_SQL_SERVER_NAME, FLIGHT_SQL_SERVER_VERSION,
    NULLABILITY_NULLABLE, SEARCHABLE_FULL, XDBC_INTEGER,
};

#[test]
fn the_numbers_are_those_of_the_protocol() {
    assert_eq!(FLIGHT_SQL_SERVER_NAME, SqlInfo::FlightSqlServerName as u32);
    assert_eq!(FLIGHT_SQL_SERVER_VERSION, SqlInfo::FlightSqlServerVersion as u32);
    assert_eq!(FLIGHT_SQL_SERVER_ARROW_VERSION, SqlInfo::FlightSqlServerArrowVersion as u32);
    assert_eq!(XDBC_INTEGER, XdbcDataType::XdbcInteger as i32);
    assert_eq!(NULLABILITY_NULLABLE, Nullable::NullabilityNullable as i32);
    assert_eq!(SEARCHABLE_FULL, Searchable::Full as i32);
}

#[test]
fn the_server_tells_its_name_and_versions() {
    let batch = instance_sql_data().record_batch(Vec::<u32>::new()).unwrap();
    assert_eq!(batch.num_rows(), 3);
    let numbers = batch.column(0).as_any().downcast_ref::<UInt32Array>().unwrap();
    let values = batch.column(1).as_any().downcast_ref::<UnionArray>().unwrap();
    let expected = [(0u32, "Example Flight SQL Server"), (1, "1"), (2, "1.3")];
    for (row, (number, text)) in expected.iter().enumerate() {
        assert_eq!(numbers.value(row), *number);
        let value = values.value(row);
        let value = value.as_any().downcast_ref::<StringArray>().unwrap();
        assert_eq!(value.value(0), *text);
    }
}

#[test]
fn one_piece_of_information_can_be_asked_for() {
    let batch = instance_sql_data().record_batch(vec![1u32]).unwrap();
    assert_eq!(batch.num_rows(), 1);
}

#[test]
fn the_only_type_is_integer() {
    let types = instance_xdbc_types();
    assert_eq!(types.len(), 1);
    let integer = &types[0];
    assert_eq!(integer.name, "INTEGER");
    assert_eq!(integer.data_type, 4);
    assert_eq!(integer.column_size, Some(32));
    assert_eq!(integer.literal_prefix, None);
    assert_eq!(integer.literal_suffix, None);
    assert_eq!(integer.create_params, None);
    assert_eq!(integer.nullable, 1);
    assert!(!integer.case_sensitive);
    assert_eq!(integer.searchable, 3);
    assert_eq!(integer.unsigned_attribute, Some(false));
    assert!(!integer.fixed_prec_scale);
    assert_eq!(integer.auto_increment, Some(false));
    assert_eq!(integer.local_type_name.as_deref(), Some("INTEGER"));
    assert_eq!(integer.minimum_scale, None);
    assert_eq!(integer.maximum_scale, None);
    assert_eq!(integer.sql_data_type, 4);
    assert_eq!(integer.datetime_subcode, None);
    assert_eq!(integer.num_prec_radix, Some(2));
    assert_eq!(integer.interval_precision, None);
}

#[test]
fn there_is_one_table() {
    assert_eq!(tables(), vec!["flight_sql.example.table"]);
}
