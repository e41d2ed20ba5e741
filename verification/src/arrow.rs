//! The Arrow arrays, builders, types and batches this library uses, with what it takes on trust
//! about them.
//!
//! Every item here stands for one constructor or method of the `arrow` crate. Their contracts are
//! not proved: they state what the crate's source shows, over the models of [`crate::model`].
use std::sync::Arc;

use delta_kernel::arrow::array::{
    ArrayRef, BooleanArray, Int32Array, Int64Array, Int64Builder, ListBuilder, MapBuilder,
    MapFieldNames, RecordBatch, StringArray, StringBuilder, StructArray,
};
use delta_kernel::arrow::datatypes::{DataType, Field, Schema, SchemaBuilder};
use delta_kernel::arrow::error::ArrowError;
use delta_kernel::engine::arrow_data::ArrowEngineData;
use vstd::prelude::*;
use vstd::utf8::*;

use crate::model;
use crate::model::{Cell, FieldModel, SchemaModel, Slot, Table, TypeModel};

verus! {

#[verifier::external_type_specification]
#[verifier::external_body]
pub struct ExDataType(DataType);

#[verifier::external_type_specification]
#[verifier::external_body]
pub struct ExField(Field);

#[verifier::external_type_specification]
#[verifier::external_body]
pub struct ExSchema(Schema);

#[verifier::external_type_specification]
#[verifier::external_body]
pub struct ExArrowError(ArrowError);

#[verifier::external_type_specification]
#[verifier::external_body]
pub struct ExArrowEngineData(ArrowEngineData);

/// One Arrow array, shared by reference count.
#[verifier::external_body]
pub struct Column {
    inner: ArrayRef,
}

/// Arrow's builder of list arrays of text.
#[verifier::external_body]
pub struct TextListBuilder {
    inner: ListBuilder<StringBuilder>,
}

/// Arrow's builder of map arrays from text to text.
#[verifier::external_body]
pub struct TextMapBuilder {
    inner: MapBuilder<StringBuilder, StringBuilder>,
}

/// Arrow's builder of text arrays.
#[verifier::external_body]
pub struct TextBuilder {
    inner: StringBuilder,
}

/// Arrow's builder of 64-bit integer arrays.
#[verifier::external_body]
pub struct LongBuilder {
    inner: Int64Builder,
}

/// The model of an Arrow data type.
pub uninterp spec fn type_model(data_type: DataType) -> TypeModel;

/// The model of an Arrow field.
pub uninterp spec fn field_model(field: Field) -> FieldModel;

/// The model of an Arrow schema: its fields, in order, and its custom metadata.
pub uninterp spec fn schema_model(schema: Schema) -> SchemaModel;

/// The type of the values in a column.
pub uninterp spec fn column_type(column: Column) -> TypeModel;

/// The values in a column, in order.
pub uninterp spec fn column_cells(column: Column) -> Seq<Cell>;

/// The model of a batch's schema.
pub uninterp spec fn batch_schema(batch: ArrowEngineData) -> SchemaModel;

/// For each field of a batch the values of its column.
pub uninterp spec fn batch_columns(batch: ArrowEngineData) -> Seq<Seq<Cell>>;

/// The child values that a list builder has been given.
pub uninterp spec fn list_values(builder: TextListBuilder) -> Seq<Seq<char>>;

/// The list slots that a list builder has finished.
pub uninterp spec fn list_slots(builder: TextListBuilder) -> Seq<Slot>;

/// The child keys that a map builder has been given.
pub uninterp spec fn map_keys(builder: TextMapBuilder) -> Seq<Seq<char>>;

/// The child values that a map builder has been given.
pub uninterp spec fn map_values(builder: TextMapBuilder) -> Seq<Seq<char>>;

/// The map slots that a map builder has finished.
pub uninterp spec fn map_slots(builder: TextMapBuilder) -> Seq<Slot>;

/// The names of a map builder's entry and key fields, in this order.
pub uninterp spec fn map_names(builder: TextMapBuilder) -> Seq<Seq<char>>;

/// The field that describes a map builder's values.
pub uninterp spec fn map_value_field(builder: TextMapBuilder) -> FieldModel;

/// The values that a text builder has been given.
pub uninterp spec fn text_builder_cells(builder: TextBuilder) -> Seq<Cell>;

/// The values that a 64-bit integer builder has been given.
pub uninterp spec fn long_builder_cells(builder: LongBuilder) -> Seq<Cell>;

/// The models of a sequence of fields.
pub open spec fn field_models(fields: Seq<Field>) -> Seq<FieldModel> {
    fields.map_values(|f: Field| field_model(f))
}

/// The types of a sequence of columns.
pub open spec fn column_types(columns: Seq<Column>) -> Seq<TypeModel> {
    columns.map_values(|c: Column| column_type(c))
}

/// The values of a sequence of columns.
pub open spec fn columns_cells(columns: Seq<Column>) -> Seq<Seq<Cell>> {
    columns.map_values(|c: Column| column_cells(c))
}

/// A batch as a table.
pub open spec fn batch_table(batch: ArrowEngineData) -> Table {
    Table { schema: batch_schema(batch), columns: batch_columns(batch) }
}

/// Columns of one cell each, of the fields' types and with nulls only under nullable fields, can
/// stand under the fields.
pub(crate) proof fn lemma_one_row(
    fields: Seq<FieldModel>,
    columns: Seq<Column>,
    cells: Seq<Cell>,
)
    requires
        fields.len() == columns.len(),
        fields.len() == cells.len(),
        forall|i: int|
            0 <= i < columns.len() ==> {
                &&& column_type(#[trigger] columns[i]) == fields[i].data_type
                &&& column_cells(columns[i]) == seq![cells[i]]
                &&& cells[i] is Null ==> fields[i].nullable
            },
    ensures
        model::columns_match(fields, column_types(columns), columns_cells(columns), 1),
        columns_cells(columns) == model::one_row_columns(cells),
        model::record_cells(columns_cells(columns), 1) == seq![Cell::Record(cells)],
{
    assert(columns_cells(columns) =~= model::one_row_columns(cells));
    assert(columns_cells(columns).map_values(|column: Seq<Cell>| column[0]) =~= cells);
    assert(model::record_cells(columns_cells(columns), 1) =~= seq![Cell::Record(cells)]);
    assert forall|i: int| 0 <= i < columns.len() implies {
        &&& #[trigger] column_types(columns)[i] == fields[i].data_type
        &&& columns_cells(columns)[i].len() == 1
        &&& fields[i].nullable || model::no_nulls(columns_cells(columns)[i])
    } by {
        assert(column_type(columns[i]) == fields[i].data_type);
    }
}

// Data types and fields.

/// `DataType::Boolean`.
#[verifier::external_body]
pub(crate) fn boolean_type() -> (data_type: DataType)
    ensures
        type_model(data_type) == TypeModel::Boolean,
{
    DataType::Boolean
}

/// `DataType::Int32`.
#[verifier::external_body]
pub(crate) fn int32_type() -> (data_type: DataType)
    ensures
        type_model(data_type) == TypeModel::Int32,
{
    DataType::Int32
}

/// `DataType::Int64`.
#[verifier::external_body]
pub(crate) fn int64_type() -> (data_type: DataType)
    ensures
        type_model(data_type) == TypeModel::Int64,
{
    DataType::Int64
}

/// `DataType::Utf8`.
#[verifier::external_body]
pub(crate) fn utf8_type() -> (data_type: DataType)
    ensures
        type_model(data_type) == TypeModel::Utf8,
{
    DataType::Utf8
}

/// `DataType::List` of the given item field.
#[verifier::external_body]
pub(crate) fn list_type(item: Field) -> (data_type: DataType)
    ensures
        type_model(data_type) == TypeModel::ListOf(Box::new(field_model(item))),
{
    DataType::List(item.into())
}

/// `DataType::Map` of the given entry field.
#[verifier::external_body]
pub(crate) fn map_type(entry: Field, sorted: bool) -> (data_type: DataType)
    ensures
        type_model(data_type) == TypeModel::MapOf(Box::new(field_model(entry)), sorted),
{
    DataType::Map(entry.into(), sorted)
}

/// `DataType::Struct` of the given fields.
#[verifier::external_body]
pub(crate) fn struct_type(fields: Vec<Field>) -> (data_type: DataType)
    ensures
        type_model(data_type) == TypeModel::StructOf(field_models(fields@)),
{
    DataType::Struct(fields.into())
}

/// `Field::new`: a field with the given name, type and nullability and no custom metadata.
#[verifier::external_body]
pub(crate) fn new_field(name: &str, data_type: DataType, nullable: bool) -> (field: Field)
    ensures
        field_model(field) == model::plain_field(name@, type_model(data_type), nullable),
{
    Field::new(name, data_type, nullable)
}

/// `Schema::new`: a schema of the given fields, in order, without custom metadata.
#[verifier::external_body]
pub(crate) fn new_schema(fields: Vec<Field>) -> (schema: Schema)
    ensures
        schema_model(schema) == model::plain_schema(field_models(fields@)),
{
    Schema::new(fields)
}

/// `SchemaBuilder::push` on a schema: the schema with one more field at its end.
#[verifier::external_body]
pub(crate) fn schema_with_field(schema: Schema, field: Field) -> (extended: Schema)
    ensures
        schema_model(extended) == (SchemaModel {
            fields: schema_model(schema).fields.push(field_model(field)),
            ..schema_model(schema)
        }),
{
    let mut builder = SchemaBuilder::from(schema);
    builder.push(field);
    builder.finish()
}

/// `SchemaBuilder::remove` on a schema: the schema without the field at the given place, and that
/// field.
///
/// Arrow panics when there is no such field.
#[verifier::external_body]
pub(crate) fn schema_without_field(schema: Schema, index: usize) -> (parts: (Schema, Field))
    requires
        index < schema_model(schema).fields.len(),
    ensures
        schema_model(parts.0) == (SchemaModel {
            fields: schema_model(schema).fields.remove(index as int),
            ..schema_model(schema)
        }),
        field_model(parts.1) == schema_model(schema).fields[index as int],
{
    let mut builder = SchemaBuilder::from(schema);
    let field = builder.remove(index);
    (builder.finish(), field.as_ref().clone())
}

// Columns.

/// `StringArray::from`: a text column of the given strings, without nulls.
///
/// Arrow panics when the strings take more bytes than a 32-bit offset can count.
#[verifier::external_body]
pub(crate) fn text_column(values: Vec<String>) -> (column: Column)
    requires
        model::text_bytes(model::texts(values@)) <= i32::MAX,
    ensures
        column_type(column) == TypeModel::Utf8,
        column_cells(column) == model::text_cells(model::texts(values@)),
{
    Column { inner: Arc::new(StringArray::from(values)) }
}

/// `Int32Array::from`: a column of the given numbers, without nulls.
#[verifier::external_body]
pub(crate) fn int32_column(values: Vec<i32>) -> (column: Column)
    ensures
        column_type(column) == TypeModel::Int32,
        column_cells(column) == values@.map_values(|v: i32| Cell::Int32(v)),
{
    Column { inner: Arc::new(Int32Array::from(values)) }
}

/// `Int64Array::from`: a column of the given numbers, without nulls.
#[verifier::external_body]
pub(crate) fn int64_column(values: Vec<i64>) -> (column: Column)
    ensures
        column_type(column) == TypeModel::Int64,
        column_cells(column) == values@.map_values(|v: i64| Cell::Int64(v)),
{
    Column { inner: Arc::new(Int64Array::from(values)) }
}

/// `BooleanArray::from`: a column of the given truth values, without nulls.
#[verifier::external_body]
pub(crate) fn boolean_column(values: Vec<bool>) -> (column: Column)
    ensures
        column_type(column) == TypeModel::Boolean,
        column_cells(column) == values@.map_values(|v: bool| Cell::Boolean(v)),
{
    Column { inner: Arc::new(BooleanArray::from(values)) }
}

/// `StructArray::try_new_with_length` without a null mask: a struct column whose children are the
/// given columns. It is refused unless there is one column for each field, of the field's type
/// and of the given length, with nulls only under nullable fields.
#[verifier::external_body]
pub(crate) fn struct_column(fields: Vec<Field>, columns: Vec<Column>, len: usize) -> (result:
    Result<Column, ArrowError>)
    ensures
        result is Ok <==> model::columns_match(
            field_models(fields@),
            column_types(columns@),
            columns_cells(columns@),
            len as nat,
        ),
        result matches Ok(column) ==> {
            &&& column_type(column) == TypeModel::StructOf(field_models(fields@))
            &&& column_cells(column) == model::record_cells(columns_cells(columns@), len as nat)
        },
{
    let arrays = columns.into_iter().map(|c| c.inner).collect();
    StructArray::try_new_with_length(fields.into(), arrays, None, len).map(
        |array| Column { inner: Arc::new(array) },
    )
}

/// `StructArray::new_null`: a struct column of the given length in which every value is null.
///
/// The claim is limited to the types this library builds and to lengths that a 32-bit offset can
/// count.
#[verifier::external_body]
pub(crate) fn null_struct_column(fields: Vec<Field>, len: usize) -> (column: Column)
    requires
        model::known_type(TypeModel::StructOf(field_models(fields@))),
        len <= i32::MAX,
    ensures
        column_type(column) == TypeModel::StructOf(field_models(fields@)),
        column_cells(column) == Seq::new(len as nat, |i: int| Cell::Null),
{
    Column { inner: Arc::new(StructArray::new_null(fields.into(), len)) }
}

/// `RecordBatch::try_new`, wrapped for the kernel by `ArrowEngineData::new`. It is refused unless
/// there is at least one column, one for each field of the schema and of the field's type, all of
/// the same length, with nulls only under nullable fields.
#[verifier::external_body]
pub(crate) fn new_batch(schema: Arc<Schema>, columns: Vec<Column>) -> (result: Result<
    ArrowEngineData,
    ArrowError,
>)
    ensures
        result is Ok <==> (columns@.len() > 0 && model::columns_match(
            schema_model(*schema).fields,
            column_types(columns@),
            columns_cells(columns@),
            column_cells(columns@[0]).len(),
        )),
        result matches Ok(batch) ==> {
            &&& batch_schema(batch) == schema_model(*schema)
            &&& batch_columns(batch) == columns_cells(columns@)
        },
{
    let arrays = columns.into_iter().map(|c| c.inner).collect();
    RecordBatch::try_new(schema, arrays).map(ArrowEngineData::new)
}

// The list builder.

/// `ListBuilder::new` over an empty `StringBuilder`.
#[verifier::external_body]
pub(crate) fn new_list_builder() -> (builder: TextListBuilder)
    ensures
        list_values(builder) == Seq::<Seq<char>>::empty(),
        list_slots(builder) == Seq::<Slot>::empty(),
{
    TextListBuilder { inner: ListBuilder::new(StringBuilder::new()) }
}

/// `StringBuilder::append_value` on the child builder that `ListBuilder::values` hands out.
///
/// Arrow panics when the child values take more bytes than a 32-bit offset can count.
#[verifier::external_body]
pub(crate) fn list_append_value(builder: &mut TextListBuilder, value: &str)
    requires
        model::text_bytes(list_values(*old(builder))) + encode_utf8(value@).len() <= i32::MAX,
    ensures
        list_values(*final(builder)) == list_values(*old(builder)).push(value@),
        list_slots(*final(builder)) == list_slots(*old(builder)),
{
    builder.inner.values().append_value(value);
}

/// `ListBuilder::append`: ends a list slot after the child values given so far.
///
/// Arrow panics when there are more child values than a 32-bit offset can count.
#[verifier::external_body]
pub(crate) fn list_append(builder: &mut TextListBuilder, valid: bool)
    requires
        list_values(*old(builder)).len() <= i32::MAX,
    ensures
        list_values(*final(builder)) == list_values(*old(builder)),
        list_slots(*final(builder)) == list_slots(*old(builder)).push(
            (Slot { end: list_values(*old(builder)).len(), valid }),
        ),
{
    builder.inner.append(valid);
}

/// `ListBuilder::finish`: a column of the finished list slots. Its items are nullable text under
/// the name `item`.
#[verifier::external_body]
pub(crate) fn list_finish(mut builder: TextListBuilder) -> (column: Column)
    ensures
        column_type(column) == model::text_list_type(),
        column_cells(column) == model::list_cells(list_values(builder), list_slots(builder)),
{
    Column { inner: Arc::new(builder.inner.finish()) }
}

// The map builder.

/// `MapBuilder::new` over two empty `StringBuilder`s, with the given field names. Values are
/// nullable text unless another field is set for them.
#[verifier::external_body]
pub(crate) fn new_map_builder(entry: &str, key: &str, value: &str) -> (builder: TextMapBuilder)
    ensures
        map_keys(builder) == Seq::<Seq<char>>::empty(),
        map_values(builder) == Seq::<Seq<char>>::empty(),
        map_slots(builder) == Seq::<Slot>::empty(),
        map_names(builder) == seq![entry@, key@],
        map_value_field(builder) == model::plain_field(value@, TypeModel::Utf8, true),
{
    let names = MapFieldNames {
        entry: entry.to_string(),
        key: key.to_string(),
        value: value.to_string(),
    };
    TextMapBuilder {
        inner: MapBuilder::new(Some(names), StringBuilder::new(), StringBuilder::new()),
    }
}

/// `MapBuilder::with_values_field`: sets the field that describes the map's values.
#[verifier::external_body]
pub(crate) fn map_with_values_field(builder: TextMapBuilder, field: Field) -> (changed:
    TextMapBuilder)
    ensures
        map_keys(changed) == map_keys(builder),
        map_values(changed) == map_values(builder),
        map_slots(changed) == map_slots(builder),
        map_names(changed) == map_names(builder),
        map_value_field(changed) == field_model(field),
{
    TextMapBuilder { inner: builder.inner.with_values_field(field) }
}

/// `StringBuilder::append_value` on the child builder that `MapBuilder::keys` hands out.
///
/// Arrow panics when the child keys take more bytes than a 32-bit offset can count.
#[verifier::external_body]
pub(crate) fn map_append_key(builder: &mut TextMapBuilder, key: &str)
    requires
        model::text_bytes(map_keys(*old(builder))) + encode_utf8(key@).len() <= i32::MAX,
    ensures
        map_keys(*final(builder)) == map_keys(*old(builder)).push(key@),
        map_values(*final(builder)) == map_values(*old(builder)),
        map_slots(*final(builder)) == map_slots(*old(builder)),
        map_names(*final(builder)) == map_names(*old(builder)),
        map_value_field(*final(builder)) == map_value_field(*old(builder)),
{
    builder.inner.keys().append_value(key);
}

/// `StringBuilder::append_value` on the child builder that `MapBuilder::values` hands out.
///
/// Arrow panics when the child values take more bytes than a 32-bit offset can count.
#[verifier::external_body]
pub(crate) fn map_append_value(builder: &mut TextMapBuilder, value: &str)
    requires
        model::text_bytes(map_values(*old(builder))) + encode_utf8(value@).len() <= i32::MAX,
    ensures
        map_keys(*final(builder)) == map_keys(*old(builder)),
        map_values(*final(builder)) == map_values(*old(builder)).push(value@),
        map_slots(*final(builder)) == map_slots(*old(builder)),
        map_names(*final(builder)) == map_names(*old(builder)),
        map_value_field(*final(builder)) == map_value_field(*old(builder)),
{
    builder.inner.values().append_value(value);
}

/// `MapBuilder::append`: ends a map slot after the entries given so far. It is refused, and the
/// builder left alone, when keys and values differ in number.
///
/// The offset that Arrow stores is right for as many entries as a 32-bit offset can count.
#[verifier::external_body]
pub(crate) fn map_append(builder: &mut TextMapBuilder, valid: bool) -> (result: Result<
    (),
    ArrowError,
>)
    requires
        map_keys(*old(builder)).len() <= i32::MAX,
    ensures
        result is Ok <==> map_keys(*old(builder)).len() == map_values(*old(builder)).len(),
        map_keys(*final(builder)) == map_keys(*old(builder)),
        map_values(*final(builder)) == map_values(*old(builder)),
        map_names(*final(builder)) == map_names(*old(builder)),
        map_value_field(*final(builder)) == map_value_field(*old(builder)),
        map_slots(*final(builder)) == if result is Ok {
            map_slots(*old(builder)).push((Slot { end: map_keys(*old(builder)).len(), valid }))
        } else {
            map_slots(*old(builder))
        },
{
    builder.inner.append(valid)
}

/// `MapBuilder::finish`: a column of the finished map slots. Keys are text and never null, and
/// entries are never null.
///
/// Arrow panics when keys and values differ in number or the values' field is not of type text.
#[verifier::external_body]
pub(crate) fn map_finish(mut builder: TextMapBuilder) -> (column: Column)
    requires
        map_keys(builder).len() == map_values(builder).len(),
        map_value_field(builder).data_type == TypeModel::Utf8,
    ensures
        column_type(column) == TypeModel::MapOf(
            Box::new(
                model::plain_field(
                    map_names(builder)[0],
                    TypeModel::StructOf(
                        seq![
                            model::plain_field(map_names(builder)[1], TypeModel::Utf8, false),
                            map_value_field(builder),
                        ],
                    ),
                    false,
                ),
            ),
            false,
        ),
        column_cells(column) == model::map_cells(
            map_keys(builder),
            map_values(builder),
            map_slots(builder),
        ),
{
    Column { inner: Arc::new(builder.inner.finish()) }
}

// The text and 64-bit integer builders.

/// `StringBuilder::new`.
#[verifier::external_body]
pub(crate) fn new_text_builder() -> (builder: TextBuilder)
    ensures
        text_builder_cells(builder) == Seq::<Cell>::empty(),
{
    TextBuilder { inner: StringBuilder::new() }
}

/// `StringBuilder::append_value`.
///
/// Arrow panics when the values take more bytes than a 32-bit offset can count.
#[verifier::external_body]
pub(crate) fn text_append_value(builder: &mut TextBuilder, value: &str)
    requires
        model::cell_bytes(text_builder_cells(*old(builder))) + encode_utf8(value@).len() <= i32::MAX,
    ensures
        text_builder_cells(*final(builder)) == text_builder_cells(*old(builder)).push(
            Cell::Text(value@),
        ),
{
    builder.inner.append_value(value);
}

/// `StringBuilder::append_null`.
#[verifier::external_body]
pub(crate) fn text_append_null(builder: &mut TextBuilder)
    ensures
        text_builder_cells(*final(builder)) == text_builder_cells(*old(builder)).push(Cell::Null),
{
    builder.inner.append_null();
}

/// `StringBuilder::finish`: a text column of the values given.
#[verifier::external_body]
pub(crate) fn text_finish(mut builder: TextBuilder) -> (column: Column)
    ensures
        column_type(column) == TypeModel::Utf8,
        column_cells(column) == text_builder_cells(builder),
{
    Column { inner: Arc::new(builder.inner.finish()) }
}

/// `Int64Builder::new`.
#[verifier::external_body]
pub(crate) fn new_long_builder() -> (builder: LongBuilder)
    ensures
        long_builder_cells(builder) == Seq::<Cell>::empty(),
{
    LongBuilder { inner: Int64Builder::new() }
}

/// `Int64Builder::append_value`.
#[verifier::external_body]
pub(crate) fn long_append_value(builder: &mut LongBuilder, value: i64)
    ensures
        long_builder_cells(*final(builder)) == long_builder_cells(*old(builder)).push(
            Cell::Int64(value),
        ),
{
    builder.inner.append_value(value);
}

/// `Int64Builder::append_null`.
#[verifier::external_body]
pub(crate) fn long_append_null(builder: &mut LongBuilder)
    ensures
        long_builder_cells(*final(builder)) == long_builder_cells(*old(builder)).push(Cell::Null),
{
    builder.inner.append_null();
}

/// `Int64Builder::finish`: a 64-bit integer column of the values given.
#[verifier::external_body]
pub(crate) fn long_finish(mut builder: LongBuilder) -> (column: Column)
    ensures
        column_type(column) == TypeModel::Int64,
        column_cells(column) == long_builder_cells(builder),
{
    Column { inner: Arc::new(builder.inner.finish()) }
}

} // verus!
