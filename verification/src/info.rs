//! What the server tells of itself.

use arrow_flight::error::FlightError;
use arrow_flight::sql::metadata::{SqlInfoData, SqlInfoDataBuilder};
use vstd::prelude::*;

verus! {

/// The number of the information that names the server.
pub const FLIGHT_SQL_SERVER_NAME: u32 = 0;

/// The number of the information that gives the version of the server.
pub const FLIGHT_SQL_SERVER_VERSION: u32 = 1;

/// The number of the information that gives the version of the Arrow format.
pub const FLIGHT_SQL_SERVER_ARROW_VERSION: u32 = 2;

/// The code of the integer type.
pub const XDBC_INTEGER: i32 = 4;

/// The code for a type whose values can be null.
pub const NULLABILITY_NULLABLE: i32 = 1;

/// The code for a type that can be searched in every way.
pub const SEARCHABLE_FULL: i32 = 3;

/// `arrow_flight::sql::metadata::SqlInfoDataBuilder`, information that is being collected.
#[verifier::external_type_specification]
#[verifier::external_body]
pub struct ExSqlInfoDataBuilder(SqlInfoDataBuilder);

/// `arrow_flight::sql::metadata::SqlInfoData`, collected information.
#[verifier::external_type_specification]
#[verifier::external_body]
pub struct ExSqlInfoData(SqlInfoData);

/// `arrow_flight::error::FlightError`, the refusal to build the table of what was collected.
#[verifier::external_type_specification]
#[verifier::external_body]
pub struct ExFlightError(FlightError);

/// The information in a builder by its number; `None` where it is not text.
pub uninterp spec fn builder_infos(builder: SqlInfoDataBuilder) -> Map<u32, Option<Seq<char>>>;

/// The collected information by its number; `None` where it is not text.
pub uninterp spec fn data_infos(data: SqlInfoData) -> Map<u32, Option<Seq<char>>>;

/// The most entries, and the most characters of a text, of tables that are well within what
/// the columns of a table can hold.
pub const SMALL_TABLE: usize = 1000;

/// The description of a type that the server supports. Types, nullability, searchability and
/// subcodes are given by their codes.
#[derive(Debug)]
pub struct XdbcTypeInfo {
    pub name: String,
    pub data_type: i32,
    pub column_size: Option<i32>,
    pub literal_prefix: Option<String>,
    pub literal_suffix: Option<String>,
    pub create_params: Option<Vec<String>>,
    pub nullable: i32,
    pub case_sensitive: bool,
    pub searchable: i32,
    pub unsigned_attribute: Option<bool>,
    pub fixed_prec_scale: bool,
    pub auto_increment: Option<bool>,
    pub local_type_name: Option<String>,
    pub minimum_scale: Option<i32>,
    pub maximum_scale: Option<i32>,
    pub sql_data_type: i32,
    pub datetime_subcode: Option<i32>,
    pub num_prec_radix: Option<i32>,
    pub interval_precision: Option<i32>,
}

/// An [`XdbcTypeInfo`] with its texts as sequences of characters.
#[verifier::ext_equal]
pub struct XdbcTypeInfoView {
    pub name: Seq<char>,
    pub data_type: i32,
    pub column_size: Option<i32>,
    pub literal_prefix: Option<Seq<char>>,
    pub literal_suffix: Option<Seq<char>>,
    pub create_params: Option<Seq<Seq<char>>>,
    pub nullable: i32,
    pub case_sensitive: bool,
    pub searchable: i32,
    pub unsigned_attribute: Option<bool>,
    pub fixed_prec_scale: bool,
    pub auto_increment: Option<bool>,
    pub local_type_name: Option<Seq<char>>,
    pub minimum_scale: Option<i32>,
    pub maximum_scale: Option<i32>,
    pub sql_data_type: i32,
    pub datetime_subcode: Option<i32>,
    pub num_prec_radix: Option<i32>,
    pub interval_precision: Option<i32>,
}

/// The characters of a text, where there is one.
pub open spec fn text_view(text: Option<String>) -> Option<Seq<char>> {
    match text {
        Some(text) => Some(text@),
        None => None,
    }
}

impl View for XdbcTypeInfo {
    type V = XdbcTypeInfoView;

    open spec fn view(&self) -> XdbcTypeInfoView {
        XdbcTypeInfoView {
            name: self.name@,
            data_type: self.data_type,
            column_size: self.column_size,
            literal_prefix: text_view(self.literal_prefix),
            literal_suffix: text_view(self.literal_suffix),
            create_params: match self.create_params {
                Some(params) => Some(params@.map_values(|param: String| param@)),
                None => None,
            },
            nullable: self.nullable,
            case_sensitive: self.case_sensitive,
            searchable: self.searchable,
            unsigned_attribute: self.unsigned_attribute,
            fixed_prec_scale: self.fixed_prec_scale,
            auto_increment: self.auto_increment,
            local_type_name: text_view(self.local_type_name),
            minimum_scale: self.minimum_scale,
            maximum_scale: self.maximum_scale,
            sql_data_type: self.sql_data_type,
            datetime_subcode: self.datetime_subcode,
            num_prec_radix: self.num_prec_radix,
            interval_precision: self.interval_precision,
        }
    }
}

/// `arrow_flight::sql::metadata::SqlInfoDataBuilder::new`.
///
/// Claimed: there is no information yet.
#[verifier::external_body]
fn new_sql_info_builder() -> (r: SqlInfoDataBuilder)
    ensures
        builder_infos(r).dom() == Set::<u32>::empty(),
{
    SqlInfoDataBuilder::new()
}

/// `arrow_flight::sql::metadata::SqlInfoDataBuilder::append` with a number and a text.
///
/// Claimed: the text is the information with this number, in place of what there was.
#[verifier::external_body]
fn append_sql_info(builder: &mut SqlInfoDataBuilder, number: u32, text: &str)
    ensures
        builder_infos(*final(builder)) == builder_infos(*old(builder)).insert(number, Some(text@)),
{
    builder.append(number, text)
}

/// `arrow_flight::sql::metadata::SqlInfoDataBuilder::build`.
///
/// Claimed: a few short texts are collected as they are.
#[verifier::external_body]
fn build_sql_info(builder: SqlInfoDataBuilder) -> (r: Result<SqlInfoData, FlightError>)
    requires
        builder_infos(builder).dom().len() <= SMALL_TABLE,
        forall|number: u32| #[trigger]
            builder_infos(builder).contains_key(number) ==> {
                &&& builder_infos(builder)[number] is Some
                &&& builder_infos(builder)[number]->0.len() <= SMALL_TABLE
            },
    ensures
        r is Ok,
        data_infos(r->Ok_0) == builder_infos(builder),
{
    builder.build()
}

/// What the server tells of itself, by number.
pub open spec fn server_infos() -> Map<u32, Option<Seq<char>>> {
    map![
        FLIGHT_SQL_SERVER_NAME => Some("Example Flight SQL Server"@),
        FLIGHT_SQL_SERVER_VERSION => Some("1"@),
        FLIGHT_SQL_SERVER_ARROW_VERSION => Some("1.3"@),
    ]
}

/// The one type that the server supports.
pub open spec fn integer_type() -> XdbcTypeInfoView {
    XdbcTypeInfoView {
        name: "INTEGER"@,
        data_type: XDBC_INTEGER,
        column_size: Some(32),
        literal_prefix: None,
        literal_suffix: None,
        create_params: None,
        nullable: NULLABILITY_NULLABLE,
        case_sensitive: false,
        searchable: SEARCHABLE_FULL,
        unsigned_attribute: Some(false),
        fixed_prec_scale: false,
        auto_increment: Some(false),
        local_type_name: Some("INTEGER"@),
        minimum_scale: None,
        maximum_scale: None,
        sql_data_type: XDBC_INTEGER,
        datetime_subcode: None,
        num_prec_radix: Some(2),
        interval_precision: None,
    }
}

/// Collects what the server tells of itself: its name, its version, and the version of the
/// Arrow format that it speaks.
pub fn instance_sql_data() -> (r: SqlInfoData)
    ensures
        data_infos(r) == server_infos(),
{
    proof {
        reveal_strlit("Example Flight SQL Server");
        reveal_strlit("1");
        reveal_strlit("1.3");
    }
    let mut builder = new_sql_info_builder();
    append_sql_info(&mut builder, FLIGHT_SQL_SERVER_NAME, "Example Flight SQL Server");
    append_sql_info(&mut builder, FLIGHT_SQL_SERVER_VERSION, "1");
    append_sql_info(&mut builder, FLIGHT_SQL_SERVER_ARROW_VERSION, "1.3");
    assert(builder_infos(builder) =~= server_infos());
    build_sql_info(builder).unwrap()
}

/// The types that the server supports.
pub fn instance_xdbc_types() -> (r: Vec<XdbcTypeInfo>)
    ensures
        r@.map_values(|info: XdbcTypeInfo| info@) == seq![integer_type()],
{
    let integer = XdbcTypeInfo {
        name: "INTEGER".to_owned(),
        data_type: XDBC_INTEGER,
        column_size: Some(32),
        literal_prefix: None,
        literal_suffix: None,
        create_params: None,
        nullable: NULLABILITY_NULLABLE,
        case_sensitive: false,
        searchable: SEARCHABLE_FULL,
        unsigned_attribute: Some(false),
        fixed_prec_scale: false,
        auto_increment: Some(false),
        local_type_name: Some("INTEGER".to_owned()),
        minimum_scale: None,
        maximum_scale: None,
        sql_data_type: XDBC_INTEGER,
        datetime_subcode: None,
        num_prec_radix: Some(2),
        interval_precision: None,
    };
    vec![integer]
}

/// The tables that the server has.
pub fn tables() -> (r: Vec<&'static str>)
    ensures
        r@.map_values(|table: &'static str| table@) == seq!["flight_sql.example.table"@],
{
    vec!["flight_sql.example.table"]
}

} // verus!
