//! Tables of text that go out as Arrow record batches.

use arrow_array::builder::StringBuilder;
use arrow_array::{ArrayRef, RecordBatch, StringArray};
use arrow_schema::{ArrowError, Schema};
use std::sync::Arc;
use vstd::prelude::*;
use vstd::utf8::encode_utf8;

verus! {

/// The kinds of values that the columns of this server hold.
#[derive(Clone, Copy, Debug, PartialEq, Eq, Structural)]
pub enum DataType {
    /// Text in UTF-8.
    Utf8,
}

/// The description of one column; it carries no metadata.
#[derive(Debug, PartialEq, Eq)]
pub struct Field {
    pub name: String,
    pub data_type: DataType,
    pub nullable: bool,
}

/// What is known of the description of a column, with its metadata by key; its data type is
/// `None` where it is none of [`DataType`].
#[verifier::ext_equal]
pub struct FieldView {
    pub name: Seq<char>,
    pub data_type: Option<DataType>,
    pub nullable: bool,
    pub metadata: Map<Seq<char>, Seq<char>>,
}

/// The metadata of a column or a table that carries none.
pub open spec fn no_metadata() -> Map<Seq<char>, Seq<char>> {
    Map::empty()
}

impl View for Field {
    type V = FieldView;

    open spec fn view(&self) -> FieldView {
        FieldView {
            name: self.name@,
            data_type: Some(self.data_type),
            nullable: self.nullable,
            metadata: no_metadata(),
        }
    }
}

/// `arrow_schema::Schema`, the columns of a table in order.
#[verifier::external_type_specification]
#[verifier::external_body]
pub struct ExSchema(Schema);

/// `arrow_schema::ArrowError`, the refusal to build a table.
#[verifier::external_type_specification]
#[verifier::external_body]
pub struct ExArrowError(ArrowError);

/// A column of text that is being filled: an `arrow_array::builder::StringBuilder` that has
/// been given whole values only.
#[verifier::external_body]
pub struct TextBuilder {
    inner: StringBuilder,
}

/// A column of text without nulls: an `arrow_array::StringArray`.
#[verifier::external_body]
pub struct TextColumn {
    inner: StringArray,
}

/// A table: an `arrow_array::RecordBatch`, which goes out as it is.
#[verifier::external_body]
pub struct Batch {
    pub inner: RecordBatch,
}

/// The cells that a builder has been given, in order.
pub uninterp spec fn builder_cells(builder: TextBuilder) -> Seq<Seq<char>>;

/// The cells of a column, in order.
pub uninterp spec fn column_cells(column: TextColumn) -> Seq<Seq<char>>;

/// The descriptions of the columns of a schema, in order.
pub uninterp spec fn schema_fields(schema: Schema) -> Seq<FieldView>;

/// The metadata of a schema by key, besides that of its columns.
pub uninterp spec fn schema_metadata(schema: Schema) -> Map<Seq<char>, Seq<char>>;

/// The columns of a table in order: for each its description in the schema, and its cells
/// where it is a column of text, `None` for a null.
pub uninterp spec fn batch_columns(batch: Batch) -> Seq<
    (FieldView, Option<Seq<Option<Seq<char>>>>),
>;

/// The metadata of the schema of a table by key, besides that of its columns.
pub uninterp spec fn batch_metadata(batch: Batch) -> Map<Seq<char>, Seq<char>>;

/// The number of rows of a table.
pub uninterp spec fn batch_rows(batch: Batch) -> nat;

/// Cells that are all there, as a column holds them that could have nulls.
pub open spec fn without_nulls(cells: Seq<Seq<char>>) -> Seq<Option<Seq<char>>> {
    cells.map_values(|cell: Seq<char>| Some(cell))
}

/// Two tables have the same schema and the same data.
pub open spec fn same_table(a: Batch, b: Batch) -> bool {
    &&& batch_columns(a) == batch_columns(b)
    &&& batch_metadata(a) == batch_metadata(b)
    &&& batch_rows(a) == batch_rows(b)
}

/// The column is text, as its description says, has one cell in each row, and has no null
/// unless its description allows for nulls.
pub open spec fn column_fits(
    column: (FieldView, Option<Seq<Option<Seq<char>>>>),
    rows: nat,
) -> bool {
    &&& column.0.data_type == Some(DataType::Utf8)
    &&& column.1 is Some
    &&& column.1->0.len() == rows
    &&& !column.0.nullable ==> forall|i: int|
        0 <= i < rows ==> (#[trigger] column.1->0[i]) is Some
}

/// Every column of the table is text and fits its description in the schema.
pub open spec fn fits_schema(batch: Batch) -> bool {
    forall|i: int|
        0 <= i < batch_columns(batch).len() ==> column_fits(
            #[trigger] batch_columns(batch)[i],
            batch_rows(batch),
        )
}

/// The number of bytes that the cells take together.
pub open spec fn cells_size(cells: Seq<Seq<char>>) -> nat
    decreases cells.len(),
{
    if cells.len() == 0 {
        0
    } else {
        cells_size(cells.drop_last()) + encode_utf8(cells.last()).len()
    }
}

/// `arrow_array::builder::StringBuilder::new`.
///
/// Claimed: the builder has no cells.
#[verifier::external_body]
pub(crate) fn new_text_builder() -> (r: TextBuilder)
    ensures
        builder_cells(r) == Seq::<Seq<char>>::empty(),
{
    TextBuilder { inner: StringBuilder::new() }
}

/// `arrow_array::builder::StringBuilder::append_value`.
///
/// Claimed: the value is the next cell. The cells of a builder take at most `i32::MAX` bytes.
#[verifier::external_body]
pub(crate) fn append_value(builder: &mut TextBuilder, value: &str)
    requires
        cells_size(builder_cells(*old(builder))) + encode_utf8(value@).len() <= i32::MAX,
    ensures
        builder_cells(*final(builder)) == builder_cells(*old(builder)).push(value@),
{
    builder.inner.append_value(value)
}

/// `arrow_array::builder::StringBuilder::finish`.
///
/// Claimed: the column has the cells of the builder, and the builder is empty again.
#[verifier::external_body]
pub(crate) fn finish(builder: &mut TextBuilder) -> (r: TextColumn)
    ensures
        column_cells(r) == builder_cells(*old(builder)),
        builder_cells(*final(builder)) == Seq::<Seq<char>>::empty(),
{
    TextColumn { inner: builder.inner.finish() }
}

/// `arrow_schema::Schema::new`, on fields made by `arrow_schema::Field::new`.
///
/// Claimed: the schema has the given fields in the given order, and neither it nor its fields
/// carry metadata.
#[verifier::external_body]
pub(crate) fn new_schema(fields: &Vec<Field>) -> (r: Schema)
    ensures
        schema_fields(r) == fields@.map_values(|field: Field| field@),
        schema_metadata(r) == no_metadata(),
{
    let fields: Vec<arrow_schema::Field> = fields.iter().map(|field| {
        let data_type = match field.data_type {
            DataType::Utf8 => arrow_schema::DataType::Utf8,
        };
        arrow_schema::Field::new(field.name.as_str(), data_type, field.nullable)
    }).collect();
    Schema::new(fields)
}

/// `arrow_array::RecordBatch::try_new` with one column.
///
/// Claimed: it succeeds exactly where the schema has one field and this field is text (the
/// column has no nulls, so the field may be nullable or not), and the table then has this
/// field, this column, a row for each of its cells, and the metadata of the schema.
#[verifier::external_body]
pub(crate) fn try_new_batch(schema: Schema, column: TextColumn) -> (r: Result<Batch, ArrowError>)
    ensures
        r is Ok <==> {
            &&& schema_fields(schema).len() == 1
            &&& schema_fields(schema)[0].data_type == Some(DataType::Utf8)
        },
        r is Ok ==> batch_columns(r->Ok_0) == seq![
            (schema_fields(schema)[0], Some(without_nulls(column_cells(column)))),
        ],
        r is Ok ==> batch_metadata(r->Ok_0) == schema_metadata(schema),
        r is Ok ==> batch_rows(r->Ok_0) == column_cells(column).len(),
{
    RecordBatch::try_new(Arc::new(schema), vec![Arc::new(column.inner) as ArrayRef]).map(
        |inner| Batch { inner },
    )
}

} // verus!
