//! The schemas of the log actions and of the table's own columns.
use std::sync::Arc;

use delta_kernel::arrow::datatypes::{DataType, Field, Schema};
use delta_kernel::schema::{PrimitiveType, StructField, StructType};
use delta_kernel::transaction::Transaction;
use vstd::prelude::*;
use vstd::utf8::*;

use crate::arrow;
use crate::error::{ErrorKind, SimpleError};
use crate::kernel;
use crate::kernel::{KernelField, KernelType, PrimitiveModel};
use crate::model;
use crate::model::{FieldModel, SchemaModel, TypeModel};
use crate::text;
use crate::text::KernelStringSlice;

verus! {

/// Primitive column types that a caller can choose from.
#[derive(Copy, Clone)]
pub enum SimpleType {
    Boolean,
    Int32,
    Int64,
    Float64,
    Utf8,
}

/// A column of the table.
pub struct SimpleField {
    pub name: KernelStringSlice,
    pub ty: SimpleType,
    pub nullable: bool,
}

/// The type of a map from text to text, with entries under the name `entries`.
pub open spec fn entries_map_type(nullable_values: bool) -> TypeModel {
    model::text_map_type(
        "entries"@,
        model::plain_field("value"@, TypeModel::Utf8, nullable_values),
    )
}

/// The type of a map from text to nullable text, with entries under the name `key_value`.
pub open spec fn partition_values_type() -> TypeModel {
    model::text_map_type("key_value"@, model::plain_field("value"@, TypeModel::Utf8, true))
}

/// The fields of a protocol action.
pub open spec fn protocol_model() -> Seq<FieldModel> {
    seq![
        model::plain_field("minReaderVersion"@, TypeModel::Int32, false),
        model::plain_field("minWriterVersion"@, TypeModel::Int32, false),
        model::plain_field("readerFeatures"@, model::text_list_type(), true),
        model::plain_field("writerFeatures"@, model::text_list_type(), true),
    ]
}

/// The fields of a table's file format.
pub open spec fn format_model() -> Seq<FieldModel> {
    seq![
        model::plain_field("provider"@, TypeModel::Utf8, false),
        model::plain_field("options"@, entries_map_type(false), false),
    ]
}

/// The fields of a metadata action.
pub open spec fn metadata_model() -> Seq<FieldModel> {
    seq![
        model::plain_field("id"@, TypeModel::Utf8, false),
        model::plain_field("name"@, TypeModel::Utf8, true),
        model::plain_field("description"@, TypeModel::Utf8, true),
        model::plain_field("format"@, TypeModel::StructOf(format_model()), false),
        model::plain_field("schemaString"@, TypeModel::Utf8, false),
        model::plain_field("partitionColumns"@, model::text_list_type(), false),
        model::plain_field("createdTime"@, TypeModel::Int64, true),
        model::plain_field("configuration"@, entries_map_type(false), false),
    ]
}

/// The fields of a log entry that holds either a protocol or a metadata action.
pub open spec fn log_model() -> Seq<FieldModel> {
    seq![
        model::plain_field("protocol"@, TypeModel::StructOf(protocol_model()), true),
        model::plain_field("metaData"@, TypeModel::StructOf(metadata_model()), true),
    ]
}

/// The fields of a deletion vector.
pub open spec fn deletion_vector_model() -> Seq<FieldModel> {
    seq![
        model::plain_field("storageType"@, TypeModel::Utf8, false),
        model::plain_field("pathOrInlineDv"@, TypeModel::Utf8, false),
        model::plain_field("offset"@, TypeModel::Int32, true),
        model::plain_field("sizeInBytes"@, TypeModel::Int32, false),
        model::plain_field("cardinality"@, TypeModel::Int64, false),
    ]
}

/// The field under which a file action carries its deletion vector.
pub open spec fn deletion_vector_field_model() -> FieldModel {
    model::plain_field("deletionVector"@, TypeModel::StructOf(deletion_vector_model()), true)
}

/// The fields of a file's statistics.
pub open spec fn stats_model() -> Seq<FieldModel> {
    seq![model::plain_field("numRecords"@, TypeModel::Int64, true)]
}

/// The fields of a file to add.
pub open spec fn add_model() -> Seq<FieldModel> {
    seq![
        model::plain_field("path"@, TypeModel::Utf8, false),
        model::plain_field("partitionValues"@, partition_values_type(), false),
        model::plain_field("size"@, TypeModel::Int64, false),
        model::plain_field("modificationTime"@, TypeModel::Int64, false),
        model::plain_field("dataChange"@, TypeModel::Boolean, false),
        model::plain_field("stats"@, TypeModel::StructOf(stats_model()), true),
        deletion_vector_field_model(),
    ]
}

/// The fields of a file to remove.
pub open spec fn remove_model() -> Seq<FieldModel> {
    seq![
        model::plain_field("path"@, TypeModel::Utf8, false),
        model::plain_field("deletionTimestamp"@, TypeModel::Int64, true),
        model::plain_field("dataChange"@, TypeModel::Boolean, false),
        model::plain_field("extendedFileMetadata"@, TypeModel::Boolean, true),
        model::plain_field("partitionValues"@, partition_values_type(), true),
        model::plain_field("size"@, TypeModel::Int64, true),
        deletion_vector_field_model(),
    ]
}

/// The schema of a log entry that holds either a protocol or a metadata action.
pub open spec fn log_schema_model() -> SchemaModel {
    model::plain_schema(log_model())
}

/// The schema of files to add.
pub open spec fn add_schema_model() -> SchemaModel {
    model::plain_schema(add_model())
}

/// The schema of files to remove.
pub open spec fn remove_schema_model() -> SchemaModel {
    model::plain_schema(remove_model())
}

/// Every action type is one that Arrow can make nulls of.
pub proof fn lemma_known_types()
    ensures
        model::known_type(TypeModel::StructOf(protocol_model())),
        model::known_type(TypeModel::StructOf(metadata_model())),
        model::known_type(TypeModel::StructOf(deletion_vector_model())),
{
    reveal_with_fuel(model::known_type, 5);
}

/// The kernel type of a simple column type.
pub open spec fn simple_primitive(ty: SimpleType) -> PrimitiveModel {
    match ty {
        SimpleType::Boolean => PrimitiveModel::Boolean,
        SimpleType::Int32 => PrimitiveModel::Integer,
        SimpleType::Int64 => PrimitiveModel::Long,
        SimpleType::Float64 => PrimitiveModel::Double,
        SimpleType::Utf8 => PrimitiveModel::Text,
    }
}

/// The kernel field of a column.
pub open spec fn simple_field_model(field: SimpleField) -> KernelField {
    kernel::simple_kernel_field(
        decode_utf8(field.name.bytes@),
        KernelType::Primitive(simple_primitive(field.ty)),
        field.nullable,
    )
}

/// The kernel fields of the columns.
pub open spec fn simple_fields_model(fields: Seq<SimpleField>) -> Seq<KernelField> {
    fields.map_values(|f: SimpleField| simple_field_model(f))
}

/// The bytes of the columns' names.
pub open spec fn names_bytes(fields: Seq<SimpleField>) -> Seq<Seq<u8>> {
    fields.map_values(|f: SimpleField| f.name.bytes@)
}

/// Whether the names of the columns are UTF-8.
pub open spec fn names_utf8(fields: Seq<SimpleField>) -> bool {
    forall|i: int| 0 <= i < fields.len() ==> valid_utf8((#[trigger] fields[i]).name.bytes@)
}

/// The table schema that an array of `len` columns describes; `None` is a null pointer.
pub open spec fn table_fields(fields: Option<Vec<SimpleField>>, len: usize) -> Result<
    Seq<KernelField>,
    ErrorKind,
> {
    if len == 0 {
        Ok(Seq::empty())
    } else {
        match fields {
            None => Err(ErrorKind::NullFields),
            Some(fields) => if names_utf8(fields@.take(len as int)) {
                Ok(kernel::unique_fields(simple_fields_model(fields@.take(len as int))))
            } else {
                Err(text::first_utf8_error(names_bytes(fields@.take(len as int))))
            },
        }
    }
}

/// Leaving out repeated names leaves flat fields.
proof fn lemma_unique_fields_flat(fields: Seq<KernelField>)
    requires
        kernel::flat_fields(fields),
    ensures
        kernel::flat_fields(kernel::unique_fields(fields)),
    decreases fields.len(),
{
    if fields.len() > 0 {
        lemma_unique_fields_flat(fields.drop_last());
    }
}

/// The columns of a table schema are flat.
pub proof fn lemma_table_fields_flat(fields: Option<Vec<SimpleField>>, len: usize)
    requires
        fields matches Some(fields) ==> len <= fields@.len(),
        table_fields(fields, len) is Ok,
    ensures
        kernel::flat_fields(table_fields(fields, len)->Ok_0),
{
    if len > 0 {
        lemma_unique_fields_flat(simple_fields_model(fields->0@.take(len as int)));
    }
}

/// The Arrow type of a map from text to text.
pub fn string_map_data_type(nullable_values: bool) -> (data_type: DataType)
    ensures
        arrow::type_model(data_type) == entries_map_type(nullable_values),
{
    let key_field = arrow::new_field("key", arrow::utf8_type(), false);
    let value_field = arrow::new_field("value", arrow::utf8_type(), nullable_values);
    let parts = vec![key_field, value_field];
    assert(arrow::field_models(parts@) =~= seq![
        model::plain_field("key"@, TypeModel::Utf8, false),
        model::plain_field("value"@, TypeModel::Utf8, nullable_values),
    ]);
    let entry_struct = arrow::new_field("entries", arrow::struct_type(parts), false);
    arrow::map_type(entry_struct, false)
}

/// The Arrow type of a list of nullable text.
fn string_list_data_type() -> (data_type: DataType)
    ensures
        arrow::type_model(data_type) == model::text_list_type(),
{
    arrow::list_type(arrow::new_field("item", arrow::utf8_type(), true))
}

/// The Arrow type of a file's partition values.
fn partition_values_data_type() -> (data_type: DataType)
    ensures
        arrow::type_model(data_type) == partition_values_type(),
{
    let parts = vec![
        arrow::new_field("key", arrow::utf8_type(), false),
        arrow::new_field("value", arrow::utf8_type(), true),
    ];
    assert(arrow::field_models(parts@) =~= seq![
        model::plain_field("key"@, TypeModel::Utf8, false),
        model::plain_field("value"@, TypeModel::Utf8, true),
    ]);
    arrow::map_type(arrow::new_field("key_value", arrow::struct_type(parts), false), false)
}

/// The fields of a protocol action.
pub fn protocol_fields() -> (fields: Vec<Field>)
    ensures
        arrow::field_models(fields@) == protocol_model(),
{
    let fields = vec![
        arrow::new_field("minReaderVersion", arrow::int32_type(), false),
        arrow::new_field("minWriterVersion", arrow::int32_type(), false),
        arrow::new_field("readerFeatures", string_list_data_type(), true),
        arrow::new_field("writerFeatures", string_list_data_type(), true),
    ];
    assert(arrow::field_models(fields@) =~= protocol_model());
    fields
}

/// The fields of a table's file format.
pub fn format_fields() -> (fields: Vec<Field>)
    ensures
        arrow::field_models(fields@) == format_model(),
{
    let fields = vec![
        arrow::new_field("provider", arrow::utf8_type(), false),
        arrow::new_field("options", string_map_data_type(false), false),
    ];
    assert(arrow::field_models(fields@) =~= format_model());
    fields
}

/// The fields of a metadata action.
pub fn metadata_fields() -> (fields: Vec<Field>)
    ensures
        arrow::field_models(fields@) == metadata_model(),
{
    let fields = vec![
        arrow::new_field("id", arrow::utf8_type(), false),
        arrow::new_field("name", arrow::utf8_type(), true),
        arrow::new_field("description", arrow::utf8_type(), true),
        arrow::new_field("format", arrow::struct_type(format_fields()), false),
        arrow::new_field("schemaString", arrow::utf8_type(), false),
        arrow::new_field("partitionColumns", string_list_data_type(), false),
        arrow::new_field("createdTime", arrow::int64_type(), true),
        arrow::new_field("configuration", string_map_data_type(false), false),
    ];
    assert(arrow::field_models(fields@) =~= metadata_model());
    fields
}

/// The schema of a log entry that holds either a protocol or a metadata action.
pub fn log_schema() -> (schema: Arc<Schema>)
    ensures
        arrow::schema_model(*schema) == log_schema_model(),
{
    let fields = vec![
        arrow::new_field("protocol", arrow::struct_type(protocol_fields()), true),
        arrow::new_field("metaData", arrow::struct_type(metadata_fields()), true),
    ];
    assert(arrow::field_models(fields@) =~= log_model());
    Arc::new(arrow::new_schema(fields))
}

/// The fields of a deletion vector.
pub fn deletion_vector_fields() -> (fields: Vec<Field>)
    ensures
        arrow::field_models(fields@) == deletion_vector_model(),
{
    let fields = vec![
        arrow::new_field("storageType", arrow::utf8_type(), false),
        arrow::new_field("pathOrInlineDv", arrow::utf8_type(), false),
        arrow::new_field("offset", arrow::int32_type(), true),
        arrow::new_field("sizeInBytes", arrow::int32_type(), false),
        arrow::new_field("cardinality", arrow::int64_type(), false),
    ];
    assert(arrow::field_models(fields@) =~= deletion_vector_model());
    fields
}

/// The fields of a file's statistics.
pub fn stats_fields() -> (fields: Vec<Field>)
    ensures
        arrow::field_models(fields@) == stats_model(),
{
    let fields = vec![arrow::new_field("numRecords", arrow::int64_type(), true)];
    assert(arrow::field_models(fields@) =~= stats_model());
    fields
}

/// The field under which a file action carries its deletion vector.
fn deletion_vector_field() -> (field: Field)
    ensures
        arrow::field_model(field) == deletion_vector_field_model(),
{
    arrow::new_field("deletionVector", arrow::struct_type(deletion_vector_fields()), true)
}

/// One more kernel field is one more Arrow field.
proof fn lemma_push_kernel_field(fields: Seq<KernelField>, field: KernelField)
    requires
        kernel::have_arrow_types(fields),
        kernel::has_arrow_type(field.data_type),
        !field.annotated,
    ensures
        kernel::have_arrow_types(fields.push(field)),
        kernel::arrow_fields(fields.push(field)) == kernel::arrow_fields(fields).push(
            model::plain_field(field.name, kernel::arrow_type(field.data_type), field.nullable),
        ),
{
    assert(fields.push(field).drop_last() =~= fields);
}

/// The fields of [`add_model`] that the kernel's schema for files to add has.
spec fn kernel_part() -> Seq<FieldModel> {
    add_model().take(4).push(add_model()[5])
}

/// The kernel's schema for files to add has fields of [`add_model`].
proof fn lemma_kernel_add_fields()
    ensures
        kernel::have_arrow_types(kernel::kernel_add_fields()),
        kernel::arrow_fields(kernel::kernel_add_fields()) == kernel_part(),
{
    let text = KernelType::Primitive(PrimitiveModel::Text);
    let long = KernelType::Primitive(PrimitiveModel::Long);
    let map = KernelType::MapOf(Box::new(text), Box::new(text), true);
    let none = Seq::<KernelField>::empty();
    let records = kernel::simple_kernel_field("numRecords"@, long, true);
    let stats = none.push(records);
    lemma_push_kernel_field(none, records);
    assert(kernel::arrow_fields(stats) =~= stats_model());
    assert(kernel::has_arrow_type(map) && kernel::arrow_type(map) == partition_values_type()) by {
        reveal_with_fuel(kernel::has_arrow_type, 2);
        reveal_with_fuel(kernel::arrow_type, 2);
    }
    let fields = kernel::kernel_add_fields();
    assert(fields[4].data_type == KernelType::StructOf(stats));
    lemma_push_kernel_field(none, fields[0]);
    lemma_push_kernel_field(none.push(fields[0]), fields[1]);
    lemma_push_kernel_field(none.push(fields[0]).push(fields[1]), fields[2]);
    lemma_push_kernel_field(none.push(fields[0]).push(fields[1]).push(fields[2]), fields[3]);
    lemma_push_kernel_field(
        none.push(fields[0]).push(fields[1]).push(fields[2]).push(fields[3]),
        fields[4],
    );
    assert(fields =~= none.push(fields[0]).push(fields[1]).push(fields[2]).push(fields[3]).push(
        fields[4],
    ));
    assert(kernel::arrow_fields(fields) =~= kernel_part());
}

/// The schema of files to add: the one that the kernel gives out for the transaction, with whether
/// data change before the statistics and the deletion vector at the end.
pub fn add_files_schema(txn: &Transaction) -> (result: Result<Arc<Schema>, SimpleError>)
    ensures
        result is Ok,
        result matches Ok(schema) ==> arrow::schema_model(*schema) == add_schema_model(),
{
    let kernel_schema = txn.add_files_schema();
    proof {
        lemma_kernel_add_fields();
    }
    match kernel::struct_type_to_arrow(kernel_schema) {
        Ok(schema) => {
            let (files, stats) = arrow::schema_without_field(schema, 4);
            let data_change = arrow::new_field("dataChange", arrow::boolean_type(), false);
            let changes = arrow::schema_with_field(files, data_change);
            let extended = arrow::schema_with_field(
                arrow::schema_with_field(changes, stats),
                deletion_vector_field(),
            );
            assert(arrow::schema_model(extended).fields =~= add_model());
            Ok(Arc::new(extended))
        },
        Err(e) => Err(SimpleError::Arrow(e)),
    }
}

/// The schema of files to remove.
pub fn remove_files_schema() -> (schema: Arc<Schema>)
    ensures
        arrow::schema_model(*schema) == remove_schema_model(),
{
    let fields = vec![
        arrow::new_field("path", arrow::utf8_type(), false),
        arrow::new_field("deletionTimestamp", arrow::int64_type(), true),
        arrow::new_field("dataChange", arrow::boolean_type(), false),
        arrow::new_field("extendedFileMetadata", arrow::boolean_type(), true),
        arrow::new_field("partitionValues", partition_values_data_type(), true),
        arrow::new_field("size", arrow::int64_type(), true),
        deletion_vector_field(),
    ];
    assert(arrow::field_models(fields@) =~= remove_model());
    Arc::new(arrow::new_schema(fields))
}

/// The kernel type of a simple column type.
pub fn map_simple_type(ty: SimpleType) -> (primitive: PrimitiveType)
    ensures
        kernel::primitive_model(primitive) == simple_primitive(ty),
{
    match ty {
        SimpleType::Boolean => kernel::boolean_primitive(),
        SimpleType::Int32 => kernel::integer_primitive(),
        SimpleType::Int64 => kernel::long_primitive(),
        SimpleType::Float64 => kernel::double_primitive(),
        SimpleType::Utf8 => kernel::text_primitive(),
    }
}

/// The table schema that an array of `len` columns describes; `None` is a null pointer.
pub fn build_struct_type_from_simple_fields(fields: &Option<Vec<SimpleField>>, len: usize) -> (result:
    Result<StructType, SimpleError>)
    requires
        fields matches Some(fields) ==> len <= fields@.len(),
    ensures
        match result {
            Ok(schema) => table_fields(*fields, len) == Ok::<Seq<KernelField>, ErrorKind>(
                kernel::kernel_fields(schema),
            ),
            Err(e) => table_fields(*fields, len) == Err::<Seq<KernelField>, ErrorKind>(e@),
        },
{
    let mut struct_fields: Vec<StructField> = Vec::new();
    if len == 0 {
        assert(kernel::kernel_field_models(struct_fields@) =~= Seq::<KernelField>::empty());
        return Ok(kernel::new_struct_type(struct_fields));
    }
    match fields {
        None => Err(SimpleError::NullFields),
        Some(array) => {
            for i in 0..len
                invariant
                    *fields == Some(*array),
                    0 < len <= array@.len(),
                    names_utf8(array@.take(i as int)),
                    kernel::kernel_field_models(struct_fields@) == simple_fields_model(
                        array@.take(i as int),
                    ),
            {
                let ghost before = struct_fields@;
                let field = &array[i];
                match text::slice_to_string(&field.name) {
                    Ok(name) => {
                        let primitive = map_simple_type(field.ty);
                        let struct_field = if field.nullable {
                            kernel::nullable_field(name, primitive)
                        } else {
                            kernel::not_null_field(name, primitive)
                        };
                        struct_fields.push(struct_field);
                        proof {
                            let next = array@.take(i + 1);
                            assert(next =~= array@.take(i as int).push(array@[i as int]));
                            assert(kernel::kernel_field_models(struct_fields@)
                                =~= kernel::kernel_field_models(before).push(
                                simple_field_model(array@[i as int]),
                            ));
                            assert(simple_fields_model(next) =~= simple_fields_model(
                                array@.take(i as int),
                            ).push(simple_field_model(array@[i as int])));
                        }
                    },
                    Err(e) => {
                        proof {
                            let all = array@.take(len as int);
                            assert(!valid_utf8(all[i as int].name.bytes@));
                            assert forall|j: int| 0 <= j < i implies valid_utf8(
                                #[trigger] names_bytes(all)[j],
                            ) by {
                                assert(valid_utf8(array@.take(i as int)[j].name.bytes@));
                            }
                            text::lemma_first_utf8_error(names_bytes(all), i as int);
                        }
                        return Err(e);
                    },
                }
            }
            Ok(kernel::new_struct_type(struct_fields))
        },
    }
}

} // verus!
