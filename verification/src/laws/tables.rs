//! What the tables of the server hold.

use crate::batch::{batch_columns, batch_metadata, batch_rows, Batch, DataType};
use crate::info::{data_infos, instance_sql_data, instance_xdbc_types, tables, XdbcTypeInfo};
use crate::service::FlightSqlServiceImpl;
use arrow_flight::sql::metadata::SqlInfoData;
use arrow_schema::ArrowError;
use vstd::prelude::*;

verus! {

/// The made-up result has one row and one column, a text `salutation` that is never null, and
/// the greeting in it; there is no metadata.
pub proof fn law_made_up_result_is_a_greeting(r: Result<Batch, ArrowError>)
    requires
        call_ensures(FlightSqlServiceImpl::fake_result, (), r),
    ensures
        r is Ok,
        batch_rows(r->Ok_0) == 1,
        batch_metadata(r->Ok_0).dom() =~= Set::<Seq<char>>::empty(),
        batch_columns(r->Ok_0).len() == 1,
        batch_columns(r->Ok_0)[0].0.name == "salutation"@,
        batch_columns(r->Ok_0)[0].0.data_type == Some(DataType::Utf8),
        !batch_columns(r->Ok_0)[0].0.nullable,
        batch_columns(r->Ok_0)[0].0.metadata.dom() =~= Set::<Seq<char>>::empty(),
        batch_columns(r->Ok_0)[0].1 is Some,
        batch_columns(r->Ok_0)[0].1->0.len() == 1,
        batch_columns(r->Ok_0)[0].1->0[0] == Some("Hello, FlightSQL!"@),
{
}

/// The server tells three things of itself: its name, its version, and the version of the
/// Arrow format.
pub proof fn law_server_tells_its_name_and_versions(r: SqlInfoData)
    requires
        call_ensures(instance_sql_data, (), r),
    ensures
        forall|number: u32| #[trigger] data_infos(r).contains_key(number) <==> number < 3,
        data_infos(r)[0] == Some("Example Flight SQL Server"@),
        data_infos(r)[1] == Some("1"@),
        data_infos(r)[2] == Some("1.3"@),
{
}

/// The server supports one type, a signed integer of 32 bits in base 2 that can be null and
/// can be searched in every way.
pub proof fn law_server_supports_integers(r: Vec<XdbcTypeInfo>)
    requires
        call_ensures(instance_xdbc_types, (), r),
    ensures
        r@.len() == 1,
        r@[0].name@ == "INTEGER"@,
        r@[0].data_type == 4,
        r@[0].column_size == Some(32i32),
        r@[0].literal_prefix is None,
        r@[0].literal_suffix is None,
        r@[0].create_params is None,
        r@[0].nullable == 1,
        !r@[0].case_sensitive,
        r@[0].searchable == 3,
        r@[0].unsigned_attribute == Some(false),
        !r@[0].fixed_prec_scale,
        r@[0].auto_increment == Some(false),
        r@[0].local_type_name is Some,
        r@[0].local_type_name->0@ == "INTEGER"@,
        r@[0].minimum_scale is None,
        r@[0].maximum_scale is None,
        r@[0].sql_data_type == 4,
        r@[0].datetime_subcode is None,
        r@[0].num_prec_radix == Some(2i32),
        r@[0].interval_precision is None,
{
    let views = r@.map_values(|info: XdbcTypeInfo| info@);
    assert(views.len() == 1);
    assert(views[0] == r@[0]@);
}

/// The server has one table.
pub proof fn law_server_has_one_table(r: Vec<&'static str>)
    requires
        call_ensures(tables, (), r),
    ensures
        r@.len() == 1,
        r@[0]@ == "flight_sql.example.table"@,
{
    let names = r@.map_values(|table: &'static str| table@);
    assert(names.len() == 1);
    assert(names[0] == r@[0]@);
}

} // verus!
