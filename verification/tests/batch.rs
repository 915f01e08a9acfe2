use arrow_array::{Array, StringArray};
use arrow_schema::DataType;
use flight_sql_scenario::service::FlightSqlServiceImpl;

#[test]
fn the_made_up_result_is_one_greeting() {
    let batch = FlightSqlServiceImpl::fake_result().unwrap().inner;
    assert_eq!(batch.num_columns(), 1);
    assert_eq!(batch.num_rows(), 1);
    let schema = batch.schema();
    assert_eq!(schema.field(0).name(), "salutation");
    assert_eq!(schema.field(0).data_type(), &DataType::Utf8);
    assert!(!schema.field(0).is_nullable());
    assert!(schema.field(0).metadata().is_empty());
    assert!(schema.metadata().is_empty());
    let column = batch.column(0).as_any().downcast_ref::<StringArray>().unwrap();
    assert_eq!(column.null_count(), 0);
    assert_eq!(column.value(0), "Hello, FlightSQL!");
}

#[test]
fn the_made_up_result_is_always_the_same() {
    let first = FlightSqlServiceImpl::fake_result().unwrap().inner;
    let second = FlightSqlServiceImpl::fake_result().unwrap().inner;
    assert_eq!(first, second);
    assert_eq!(first.column(0).len(), first.num_rows());
    assert_eq!(first.column(0).data_type(), first.schema().field(0).data_type());
    assert_eq!(first.column(0).null_count(), 0);
}
