//! The Delta kernel's schemas and transactions, with what this library takes on trust about them.
//!
//! As in [`crate::arrow`], contracts here are not proved: each states what the source of the
//! function it names shows.
use std::sync::Arc;

use delta_kernel::arrow::datatypes::Schema;
use delta_kernel::arrow::error::ArrowError;
use delta_kernel::engine::arrow_conversion::TryIntoArrow;
use delta_kernel::engine::arrow_data::ArrowEngineData;
use delta_kernel::schema::{PrimitiveType, StructField, StructType};
use delta_kernel::transaction::Transaction;
use delta_kernel::FilteredEngineData;
use vstd::prelude::*;

use crate::arrow;
use crate::model;
use crate::model::{FieldModel, Table, TypeModel};

verus! {

#[verifier::external_type_specification]
#[verifier::external_body]
pub struct ExPrimitiveType(PrimitiveType);

#[verifier::external_type_specification]
#[verifier::external_body]
pub struct ExStructField(StructField);

#[verifier::external_type_specification]
#[verifier::external_body]
pub struct ExStructType(StructType);

#[verifier::external_type_specification]
#[verifier::external_body]
pub struct ExTransaction(Transaction);

/// A primitive type of the kernel.
pub ghost enum PrimitiveModel {
    Boolean,
    Integer,
    Long,
    Double,
    Text,
    /// Any other primitive type; different types have different numbers.
    Other(nat),
}

/// A type of the kernel.
pub ghost enum KernelType {
    Primitive(PrimitiveModel),
    /// A map from a key type to a value type, and whether values may be null.
    MapOf(Box<KernelType>, Box<KernelType>, bool),
    StructOf(Seq<KernelField>),
    /// Any other type; different types have different numbers.
    Other(nat),
}

/// A field of a kernel schema.
pub ghost struct KernelField {
    pub name: Seq<char>,
    pub data_type: KernelType,
    pub nullable: bool,
    /// Whether the field carries metadata.
    pub annotated: bool,
}

/// The model of a kernel primitive type.
pub uninterp spec fn primitive_model(primitive: PrimitiveType) -> PrimitiveModel;

/// The model of a kernel field.
pub uninterp spec fn kernel_field(field: StructField) -> KernelField;

/// The fields of a kernel schema, in order.
pub uninterp spec fn kernel_fields(schema: StructType) -> Seq<KernelField>;

/// The batches of files that a transaction has been told to add, in order.
pub uninterp spec fn staged_adds(txn: Transaction) -> Seq<Table>;

/// The batches of files that a transaction has been told to remove, in order, each with all its
/// rows.
pub uninterp spec fn staged_removes(txn: Transaction) -> Seq<Table>;

/// Everything that a transaction holds but the batches of files to add and to remove, as a number.
pub uninterp spec fn transaction_rest(txn: Transaction) -> int;

/// A field without metadata.
pub open spec fn simple_kernel_field(
    name: Seq<char>,
    data_type: KernelType,
    nullable: bool,
) -> KernelField {
    KernelField { name, data_type, nullable, annotated: false }
}

/// The models of a sequence of kernel fields.
pub open spec fn kernel_field_models(fields: Seq<StructField>) -> Seq<KernelField> {
    fields.map_values(|f: StructField| kernel_field(f))
}

/// Whether one of the fields has the name.
pub open spec fn has_name(fields: Seq<KernelField>, name: Seq<char>) -> bool {
    exists|i: int| 0 <= i < fields.len() && #[trigger] fields[i].name == name
}

/// The fields with one more: in the place of the field of that name if there is one, else at the
/// end.
pub open spec fn with_kernel_field(fields: Seq<KernelField>, field: KernelField) -> Seq<
    KernelField,
> {
    if has_name(fields, field.name) {
        fields.update(
            choose|i: int| 0 <= i < fields.len() && #[trigger] fields[i].name == field.name,
            field,
        )
    } else {
        fields.push(field)
    }
}

/// The fields without repeated names: a later field takes the place of an earlier one of its
/// name.
pub open spec fn unique_fields(fields: Seq<KernelField>) -> Seq<KernelField>
    decreases fields.len(),
{
    if fields.len() == 0 {
        Seq::empty()
    } else {
        with_kernel_field(unique_fields(fields.drop_last()), fields.last())
    }
}

/// Whether the fields are of the primitive types that a caller can choose from, and carry no
/// metadata.
pub open spec fn flat_fields(fields: Seq<KernelField>) -> bool {
    forall|i: int| 0 <= i < fields.len() ==> flat_field(#[trigger] fields[i])
}

/// Whether the field is of a primitive type that a caller can choose, and carries no metadata.
pub open spec fn flat_field(field: KernelField) -> bool {
    &&& field.data_type is Primitive
    &&& field.data_type->Primitive_0 !is Other
    &&& !field.annotated
}

/// A hexadecimal digit.
pub open spec fn hex_digit(n: int) -> char {
    "0123456789abcdef"@[n]
}

/// A character of a string in JSON: quotes, backslashes and control characters are escaped.
pub open spec fn escaped_char(c: char) -> Seq<char> {
    if c == '"' || c == '\\' {
        seq!['\\', c]
    } else if c as int == 0x08 {
        seq!['\\', 'b']
    } else if c as int == 0x09 {
        seq!['\\', 't']
    } else if c as int == 0x0a {
        seq!['\\', 'n']
    } else if c as int == 0x0c {
        seq!['\\', 'f']
    } else if c as int == 0x0d {
        seq!['\\', 'r']
    } else if (c as int) < 0x20 {
        seq!['\\', 'u', '0', '0', hex_digit(c as int / 16), hex_digit(c as int % 16)]
    } else {
        seq![c]
    }
}

/// The characters of a string in JSON.
pub open spec fn escaped(text: Seq<char>) -> Seq<char>
    decreases text.len(),
{
    if text.len() == 0 {
        Seq::empty()
    } else {
        escaped_char(text[0]) + escaped(text.drop_first())
    }
}

/// The name of a primitive type in the JSON text of a schema.
pub open spec fn primitive_name(primitive: PrimitiveModel) -> Seq<char> {
    match primitive {
        PrimitiveModel::Boolean => "boolean"@,
        PrimitiveModel::Integer => "integer"@,
        PrimitiveModel::Long => "long"@,
        PrimitiveModel::Double => "double"@,
        _ => "string"@,
    }
}

/// A truth value in JSON.
pub open spec fn boolean_json(value: bool) -> Seq<char> {
    if value {
        "true"@
    } else {
        "false"@
    }
}

/// The JSON text of a flat field.
pub open spec fn field_json(field: KernelField) -> Seq<char> {
    "{\"name\":\""@ + (escaped(field.name) + ("\",\"type\":\""@ + (primitive_name(
        field.data_type->Primitive_0,
    ) + ("\",\"nullable\":"@ + (boolean_json(field.nullable) + ",\"metadata\":{}}"@)))))
}

/// The JSON texts of flat fields, with commas between them.
pub open spec fn fields_json(fields: Seq<KernelField>) -> Seq<char>
    decreases fields.len(),
{
    if fields.len() == 0 {
        Seq::empty()
    } else if fields.len() == 1 {
        field_json(fields[0])
    } else {
        field_json(fields[0]) + (","@ + fields_json(fields.drop_first()))
    }
}

/// The JSON text of a schema of flat fields.
pub open spec fn schema_json(fields: Seq<KernelField>) -> Seq<char> {
    "{\"type\":\"struct\",\"fields\":["@ + (fields_json(fields) + "]}"@)
}

/// The Arrow type of a kernel type.
pub open spec fn arrow_type(ty: KernelType) -> TypeModel
    decreases ty,
{
    match ty {
        KernelType::Primitive(PrimitiveModel::Boolean) => TypeModel::Boolean,
        KernelType::Primitive(PrimitiveModel::Integer) => TypeModel::Int32,
        KernelType::Primitive(PrimitiveModel::Long) => TypeModel::Int64,
        KernelType::Primitive(PrimitiveModel::Double) => TypeModel::Float64,
        KernelType::Primitive(PrimitiveModel::Text) => TypeModel::Utf8,
        KernelType::MapOf(key, value, nullable) => TypeModel::MapOf(
            Box::new(
                model::plain_field(
                    "key_value"@,
                    TypeModel::StructOf(
                        seq![
                            model::plain_field("key"@, arrow_type(*key), false),
                            model::plain_field("value"@, arrow_type(*value), nullable),
                        ],
                    ),
                    false,
                ),
            ),
            false,
        ),
        KernelType::StructOf(fields) => TypeModel::StructOf(arrow_fields(fields)),
        _ => TypeModel::Other(0),
    }
}

/// The Arrow fields of kernel fields.
pub open spec fn arrow_fields(fields: Seq<KernelField>) -> Seq<FieldModel>
    decreases fields,
{
    if fields.len() == 0 {
        Seq::empty()
    } else {
        arrow_fields(fields.drop_last()).push(
            model::plain_field(
                fields.last().name,
                arrow_type(fields.last().data_type),
                fields.last().nullable,
            ),
        )
    }
}

/// Whether [`arrow_type`] says what the type is in Arrow.
pub open spec fn has_arrow_type(ty: KernelType) -> bool
    decreases ty,
{
    match ty {
        KernelType::Primitive(PrimitiveModel::Other(_)) => false,
        KernelType::Primitive(_) => true,
        KernelType::MapOf(key, value, _) => has_arrow_type(*key) && has_arrow_type(*value),
        KernelType::StructOf(fields) => have_arrow_types(fields),
        KernelType::Other(_) => false,
    }
}

/// Whether [`arrow_fields`] says what the fields are in Arrow.
pub open spec fn have_arrow_types(fields: Seq<KernelField>) -> bool
    decreases fields,
{
    fields.len() == 0 || {
        &&& have_arrow_types(fields.drop_last())
        &&& has_arrow_type(fields.last().data_type)
        &&& !fields.last().annotated
    }
}

/// The fields of the schema that the kernel gives out for files to add.
pub open spec fn kernel_add_fields() -> Seq<KernelField> {
    let text = KernelType::Primitive(PrimitiveModel::Text);
    let long = KernelType::Primitive(PrimitiveModel::Long);
    seq![
        simple_kernel_field("path"@, text, false),
        simple_kernel_field(
            "partitionValues"@,
            KernelType::MapOf(Box::new(text), Box::new(text), true),
            false,
        ),
        simple_kernel_field("size"@, long, false),
        simple_kernel_field("modificationTime"@, long, false),
        simple_kernel_field(
            "stats"@,
            KernelType::StructOf(seq![simple_kernel_field("numRecords"@, long, true)]),
            true,
        ),
    ]
}

/// `PrimitiveType::Boolean`.
#[verifier::external_body]
pub(crate) fn boolean_primitive() -> (primitive: PrimitiveType)
    ensures
        primitive_model(primitive) == PrimitiveModel::Boolean,
{
    PrimitiveType::Boolean
}

/// `PrimitiveType::Integer`.
#[verifier::external_body]
pub(crate) fn integer_primitive() -> (primitive: PrimitiveType)
    ensures
        primitive_model(primitive) == PrimitiveModel::Integer,
{
    PrimitiveType::Integer
}

/// `PrimitiveType::Long`.
#[verifier::external_body]
pub(crate) fn long_primitive() -> (primitive: PrimitiveType)
    ensures
        primitive_model(primitive) == PrimitiveModel::Long,
{
    PrimitiveType::Long
}

/// `PrimitiveType::Double`.
#[verifier::external_body]
pub(crate) fn double_primitive() -> (primitive: PrimitiveType)
    ensures
        primitive_model(primitive) == PrimitiveModel::Double,
{
    PrimitiveType::Double
}

/// `PrimitiveType::String`.
#[verifier::external_body]
pub(crate) fn text_primitive() -> (primitive: PrimitiveType)
    ensures
        primitive_model(primitive) == PrimitiveModel::Text,
{
    PrimitiveType::String
}

/// `StructField::nullable`: a nullable primitive field without metadata.
#[verifier::external_body]
pub(crate) fn nullable_field(name: String, primitive: PrimitiveType) -> (field: StructField)
    ensures
        kernel_field(field) == simple_kernel_field(
            name@,
            KernelType::Primitive(primitive_model(primitive)),
            true,
        ),
{
    StructField::nullable(name, primitive)
}

/// `StructField::not_null`: a primitive field that is never null, without metadata.
#[verifier::external_body]
pub(crate) fn not_null_field(name: String, primitive: PrimitiveType) -> (field: StructField)
    ensures
        kernel_field(field) == simple_kernel_field(
            name@,
            KernelType::Primitive(primitive_model(primitive)),
            false,
        ),
{
    StructField::not_null(name, primitive)
}

/// `StructType::new_unchecked`: a schema of the given fields. The kernel keeps them in a map by
/// name that remembers the order of insertion, so a field takes the place of an earlier one of
/// its name.
#[verifier::external_body]
pub(crate) fn new_struct_type(fields: Vec<StructField>) -> (schema: StructType)
    ensures
        kernel_fields(schema) == unique_fields(kernel_field_models(fields@)),
{
    StructType::new_unchecked(fields)
}

/// `serde_json::to_string` on a schema of flat fields: [`schema_json`]. It never fails.
#[verifier::external_body]
pub(crate) fn struct_type_to_json(schema: &StructType) -> (result: Result<
    String,
    serde_json::Error,
>)
    requires
        flat_fields(kernel_fields(*schema)),
    ensures
        result is Ok,
        result matches Ok(text) ==> text@ == schema_json(kernel_fields(*schema)),
{
    serde_json::to_string(schema)
}

/// `Transaction::add_files_schema`: a constant schema.
pub assume_specification[ Transaction::add_files_schema ](txn: &Transaction) -> (constant: &'static Arc<
    StructType,
>)
    ensures
        kernel_fields(**constant) == kernel_add_fields(),
;

/// `TryIntoArrow::try_into_arrow` from a kernel schema to an Arrow schema, for the kernel types
/// that [`arrow_type`] covers. The Arrow schema has no custom metadata.
#[verifier::external_body]
pub(crate) fn struct_type_to_arrow(schema: &StructType) -> (result: Result<Schema, ArrowError>)
    requires
        have_arrow_types(kernel_fields(*schema)),
    ensures
        result is Ok,
        result matches Ok(converted) ==> arrow::schema_model(converted) == model::plain_schema(
            arrow_fields(kernel_fields(*schema)),
        ),
{
    schema.try_into_arrow()
}

/// `Transaction::add_files`: the batch joins those to be added, at the end, and nothing else of the
/// transaction changes.
#[verifier::external_body]
pub(crate) fn add_files(txn: &mut Transaction, batch: ArrowEngineData)
    ensures
        staged_adds(*final(txn)) == staged_adds(*old(txn)).push(arrow::batch_table(batch)),
        staged_removes(*final(txn)) == staged_removes(*old(txn)),
        transaction_rest(*final(txn)) == transaction_rest(*old(txn)),
{
    txn.add_files(Box::new(batch));
}

/// `Transaction::remove_files` on a batch of which all rows are selected: the batch joins those to
/// be removed, at the end, and nothing else of the transaction changes.
#[verifier::external_body]
pub(crate) fn remove_files(txn: &mut Transaction, batch: ArrowEngineData)
    ensures
        staged_removes(*final(txn)) == staged_removes(*old(txn)).push(arrow::batch_table(batch)),
        staged_adds(*final(txn)) == staged_adds(*old(txn)),
        transaction_rest(*final(txn)) == transaction_rest(*old(txn)),
{
    txn.remove_files(FilteredEngineData::with_all_rows_selected(Box::new(batch)));
}

} // verus!
