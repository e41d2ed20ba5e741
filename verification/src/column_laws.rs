//! What the schemas of this library are: the columns of a table as the caller gave them, and the
//! fields of the log's actions, name by name.
use vstd::prelude::*;
use vstd::utf8::*;

use crate::error::ErrorKind;
use crate::kernel;
use crate::kernel::KernelField;
use crate::laws;
use crate::model;
use crate::model::{FieldModel, SchemaModel, TypeModel};
use crate::schema;
use crate::schema::{SimpleField, SimpleType};
use crate::text;

verus! {

// The columns of a table.

/// Whether a column of a schema is the one that the caller described: its name has the same bytes,
/// it may be null if and only if the caller's may be, and it has the caller's type.
pub open spec fn is_column(column: KernelField, field: SimpleField) -> bool {
    &&& encode_utf8(column.name) == field.name.bytes@
    &&& column.nullable == field.nullable
    &&& column.data_type is Primitive
    &&& field.ty is Boolean <==> column.data_type->Primitive_0 is Boolean
    &&& field.ty is Int32 <==> column.data_type->Primitive_0 is Integer
    &&& field.ty is Int64 <==> column.data_type->Primitive_0 is Long
    &&& field.ty is Float64 <==> column.data_type->Primitive_0 is Double
    &&& field.ty is Utf8 <==> column.data_type->Primitive_0 is Text
    &&& !column.annotated
}

/// Whether the first `len` columns that the caller gave have different names.
pub open spec fn different_names(fields: Seq<SimpleField>, len: int) -> bool {
    forall|i: int, j: int|
        0 <= i < j < len ==> (#[trigger] fields[i]).name.bytes@ != (
        #[trigger] fields[j]).name.bytes@
}

/// A column of the caller's becomes the kernel's field of its name, type and nullability.
pub proof fn law_column(field: SimpleField)
    requires
        valid_utf8(field.name.bytes@),
    ensures
        is_column(schema::simple_field_model(field), field),
{
    decode_utf8_encode_utf8(field.name.bytes@);
}

/// Columns are accepted if and only if there are none, or there is an array of them and each of
/// its names is UTF-8. A null array is refused as such, and else the first name that is not UTF-8
/// is the error.
pub proof fn law_columns_accepted(fields: Option<Vec<SimpleField>>, len: usize)
    requires
        fields is Some ==> len <= fields->Some_0@.len(),
    ensures
        schema::table_fields(fields, len) is Ok <==> (len == 0 || (fields is Some && forall|i: int|
            0 <= i < len ==> valid_utf8(#[trigger] fields->Some_0@[i].name.bytes@))),
        len > 0 && fields is None ==> schema::table_fields(fields, len) == Err::<
            Seq<KernelField>,
            ErrorKind,
        >(ErrorKind::NullFields),
        forall|i: int|
            0 <= i < len && fields is Some && !valid_utf8(
                #[trigger] fields->Some_0@[i].name.bytes@,
            ) && (forall|j: int|
                0 <= j < i ==> valid_utf8(#[trigger] fields->Some_0@[j].name.bytes@))
                ==> schema::table_fields(fields, len) == Err::<Seq<KernelField>, ErrorKind>(
                ErrorKind::Utf8(text::utf8_error(fields->Some_0@[i].name.bytes@)),
            ),
{
    if len > 0 && fields is Some {
        let given = fields->Some_0@;
        let all = given.take(len as int);
        assert forall|i: int| 0 <= i < len implies all[i] == #[trigger] given[i] by {}
        if schema::names_utf8(all) {
            assert forall|i: int| 0 <= i < len implies valid_utf8(
                #[trigger] given[i].name.bytes@,
            ) by {
                assert(valid_utf8(all[i].name.bytes@));
            }
        }
        let names = schema::names_bytes(all);
        assert forall|i: int|
            0 <= i < len && !valid_utf8(#[trigger] given[i].name.bytes@) && (forall|j: int|
                0 <= j < i ==> valid_utf8(
                    #[trigger] given[j].name.bytes@,
                )) implies schema::table_fields(fields, len) == Err::<Seq<KernelField>, ErrorKind>(
            ErrorKind::Utf8(text::utf8_error(given[i].name.bytes@)),
        ) by {
            assert(!valid_utf8(all[i].name.bytes@));
            assert forall|j: int| 0 <= j < i implies valid_utf8(#[trigger] names[j]) by {
                assert(valid_utf8(given[j].name.bytes@));
            }
            text::lemma_first_utf8_error(names, i);
        }
    }
}

/// Columns with different names stand in the table's schema as the caller gave them: as many, in
/// the same order, each with the bytes of its name, its type, and whether it may be null.
pub proof fn law_columns_as_given(fields: Option<Vec<SimpleField>>, len: usize)
    requires
        fields is Some ==> len <= fields->Some_0@.len(),
        fields is Some ==> different_names(fields->Some_0@, len as int),
    ensures
        schema::table_fields(fields, len) matches Ok(columns) ==> {
            &&& columns.len() == len
            &&& forall|i: int|
                0 <= i < len ==> is_column(#[trigger] columns[i], fields->Some_0@[i])
        },
{
    if len > 0 && schema::table_fields(fields, len) is Ok {
        let given = fields->Some_0@;
        let all = given.take(len as int);
        let columns = schema::simple_fields_model(all);
        assert forall|i: int| 0 <= i < len implies is_column(#[trigger] columns[i], given[i]) by {
            assert(valid_utf8(all[i].name.bytes@));
            law_column(all[i]);
        }
        assert(laws::distinct_names(columns)) by {
            assert forall|i: int, j: int| 0 <= i < j < columns.len() implies (
            #[trigger] columns[i]).name != (#[trigger] columns[j]).name by {
                assert(given[i].name.bytes@ != given[j].name.bytes@);
            }
        }
        laws::law_columns_keep_order(columns);
    }
}

/// Whether a column of a schema is the caller's column `i`, and that is the last of its name.
pub open spec fn is_last_column(
    column: KernelField,
    fields: Seq<SimpleField>,
    len: int,
    i: int,
) -> bool {
    &&& 0 <= i < len
    &&& is_column(column, fields[i])
    &&& forall|j: int| i < j < len ==> (#[trigger] fields[j]).name.bytes@ != fields[i].name.bytes@
}

/// Whatever the names, every column of the table's schema is one that the caller gave, the last of
/// its name.
pub proof fn law_columns_come_from_the_caller(fields: Option<Vec<SimpleField>>, len: usize, k: int)
    requires
        fields is Some ==> len <= fields->Some_0@.len(),
    ensures
        schema::table_fields(fields, len) matches Ok(columns) ==> {
            &&& columns.len() <= len
            &&& 0 <= k < columns.len() ==> exists|i: int|
                is_last_column(columns[k], fields->Some_0@, len as int, i)
        },
{
    if len > 0 && schema::table_fields(fields, len) is Ok {
        let given = fields->Some_0@;
        let all = given.take(len as int);
        let models = schema::simple_fields_model(all);
        lemma_unique_len(models);
        assert(models.len() == len);
        if 0 <= k < kernel::unique_fields(models).len() {
            let i = lemma_unique_source(models, k);
            assert(valid_utf8(all[i].name.bytes@));
            law_column(all[i]);
            assert forall|j: int| i < j < len implies (#[trigger] given[j]).name.bytes@
                != given[i].name.bytes@ by {
                assert(models[j].name != models[i].name);
                assert(all[j] == given[j]);
            }
            assert(is_last_column(kernel::unique_fields(models)[k], given, len as int, i));
        }
    }
}

/// Every name that the caller gave is that of one column of the table's schema, and of no other.
pub proof fn law_every_name_has_a_column(fields: Option<Vec<SimpleField>>, len: usize, i: int)
    requires
        fields is Some ==> len <= fields->Some_0@.len(),
        0 <= i < len,
    ensures
        schema::table_fields(fields, len) matches Ok(columns) ==> exists|k: int|
            0 <= k < columns.len() && encode_utf8((#[trigger] columns[k]).name)
                == fields->Some_0@[i].name.bytes@ && forall|l: int|
                0 <= l < columns.len() && l != k ==> encode_utf8((#[trigger] columns[l]).name)
                    != fields->Some_0@[i].name.bytes@,
{
    if schema::table_fields(fields, len) is Ok {
        let given = fields->Some_0@;
        let all = given.take(len as int);
        let models = schema::simple_fields_model(all);
        let columns = schema::table_fields(fields, len)->Ok_0;
        assert(columns == kernel::unique_fields(models));
        laws::law_columns_are_distinct(models);
        assert(valid_utf8(all[i].name.bytes@));
        law_column(all[i]);
        let name = models[i].name;
        assert(kernel::has_name(models, name));
        assert(kernel::has_name(columns, name));
        let k = choose|k: int| 0 <= k < columns.len() && #[trigger] columns[k].name == name;
        assert(encode_utf8(columns[k].name) == given[i].name.bytes@);
        assert forall|l: int| 0 <= l < columns.len() && l != k implies encode_utf8(
            (#[trigger] columns[l]).name,
        ) != given[i].name.bytes@ by {
            encode_utf8_decode_utf8(columns[k].name);
            encode_utf8_decode_utf8(columns[l].name);
        }
    }
}

/// Leaving out repeated names leaves no more fields.
proof fn lemma_unique_len(fields: Seq<KernelField>)
    ensures
        kernel::unique_fields(fields).len() <= fields.len(),
    decreases fields.len(),
{
    if fields.len() > 0 {
        lemma_unique_len(fields.drop_last());
    }
}

/// A field that is left is the last of its name.
proof fn lemma_unique_source(fields: Seq<KernelField>, k: int) -> (i: int)
    requires
        0 <= k < kernel::unique_fields(fields).len(),
    ensures
        0 <= i < fields.len(),
        kernel::unique_fields(fields)[k] == fields[i],
        forall|j: int| i < j < fields.len() ==> (#[trigger] fields[j]).name != fields[i].name,
    decreases fields.len(),
{
    let before = kernel::unique_fields(fields.drop_last());
    let last = fields.last();
    laws::law_columns_are_distinct(fields.drop_last());
    if kernel::unique_fields(fields)[k] == last {
        fields.len() - 1
    } else {
        let i = lemma_unique_source(fields.drop_last(), k);
        if last.name == fields[i].name {
            assert(before[k].name == last.name);
            assert(kernel::has_name(before, last.name));
            let place = choose|p: int|
                0 <= p < before.len() && #[trigger] before[p].name == last.name;
            assert(place == k);
        }
        assert forall|j: int| i < j < fields.len() implies (#[trigger] fields[j]).name
            != fields[i].name by {
            if j < fields.len() - 1 {
                assert(fields.drop_last()[j].name != fields.drop_last()[i].name);
            }
        }
        i
    }
}

/// One more column with a name of its own stands at the end. One with a name that a column
/// already has takes that column's place, and the others stay.
pub proof fn law_one_more_column(fields: Seq<KernelField>, field: KernelField)
    ensures
        kernel::unique_fields(Seq::empty()) == Seq::<KernelField>::empty(),
        ({
            let before = kernel::unique_fields(fields);
            let after = kernel::unique_fields(fields.push(field));
            &&& (forall|k: int| 0 <= k < before.len() ==> (#[trigger] before[k]).name != field.name)
                ==> after == before.push(field)
            &&& forall|k: int|
                0 <= k < before.len() && (#[trigger] before[k]).name == field.name ==> after
                    == before.update(k, field)
        }),
{
    let before = kernel::unique_fields(fields);
    assert(fields.push(field).drop_last() =~= fields);
    laws::law_columns_are_distinct(fields);
    assert forall|k: int|
        0 <= k < before.len() && (
        #[trigger] before[k]).name == field.name implies kernel::unique_fields(fields.push(field))
        == before.update(k, field) by {
        assert(kernel::has_name(before, field.name));
        let place = choose|p: int| 0 <= p < before.len() && #[trigger] before[p].name == field.name;
        assert(before[place].name == before[k].name);
        assert(place == k);
    }
}

// The text of a table's schema.

/// The JSON text of a schema holds the texts of its columns, in their order, with commas between
/// them.
pub proof fn law_schema_text(fields: Seq<KernelField>, field: KernelField)
    ensures
        kernel::schema_json(fields) == "{\"type\":\"struct\",\"fields\":["@ + kernel::fields_json(
            fields,
        ) + "]}"@,
        kernel::fields_json(Seq::empty()) == Seq::<char>::empty(),
        kernel::fields_json(seq![field]) == kernel::field_json(field),
        fields.len() > 0 ==> kernel::fields_json(fields.push(field)) == kernel::fields_json(fields)
            + ","@ + kernel::field_json(field),
    decreases fields.len(),
{
    assert(kernel::schema_json(fields) =~= "{\"type\":\"struct\",\"fields\":["@
        + kernel::fields_json(fields) + "]}"@);
    let more = fields.push(field);
    if fields.len() == 1 {
        assert(more.drop_first() =~= seq![field]);
        assert(kernel::fields_json(more.drop_first()) == kernel::field_json(field));
        assert(kernel::fields_json(more) =~= kernel::fields_json(fields) + ","@
            + kernel::field_json(field));
    } else if fields.len() > 1 {
        law_schema_text(fields.drop_first(), field);
        assert(more.drop_first() =~= fields.drop_first().push(field));
        assert(kernel::fields_json(more) =~= kernel::fields_json(fields) + ","@
            + kernel::field_json(field));
    }
}

/// The JSON text of a column: its name, with the characters that JSON wants escaped, its type by
/// name, whether it may be null, and no metadata.
pub proof fn law_column_text(field: SimpleField)
    requires
        valid_utf8(field.name.bytes@),
    ensures
        kernel::field_json(schema::simple_field_model(field)) == "{\"name\":\""@ + kernel::escaped(
            decode_utf8(field.name.bytes@),
        ) + "\",\"type\":\""@ + (match field.ty {
            SimpleType::Boolean => "boolean"@,
            SimpleType::Int32 => "integer"@,
            SimpleType::Int64 => "long"@,
            SimpleType::Float64 => "double"@,
            SimpleType::Utf8 => "string"@,
        }) + "\",\"nullable\":"@ + (if field.nullable {
            "true"@
        } else {
            "false"@
        }) + ",\"metadata\":{}}"@,
{
    let column = schema::simple_field_model(field);
    let ty = kernel::primitive_name(column.data_type->Primitive_0);
    let nullable = kernel::boolean_json(column.nullable);
    assert(kernel::field_json(column) =~= "{\"name\":\""@ + kernel::escaped(column.name)
        + "\",\"type\":\""@ + ty + "\",\"nullable\":"@ + nullable + ",\"metadata\":{}}"@);
}

/// A text is escaped character by character. What is neither a quote, a backslash nor a control
/// character stands for itself; a quote and a backslash follow a backslash; and control characters
/// are written with a backslash and printable characters.
pub proof fn law_escaped(text: Seq<char>, c: char)
    ensures
        kernel::escaped(Seq::empty()) == Seq::<char>::empty(),
        kernel::escaped(text.push(c)) == kernel::escaped(text) + kernel::escaped_char(c),
        c != '"' && c != '\\' && c as int >= 0x20 ==> kernel::escaped_char(c) == seq![c],
        c == '"' || c == '\\' ==> kernel::escaped_char(c) == seq!['\\', c],
        (c as int) < 0x20 ==> {
            &&& kernel::escaped_char(c).len() == 2 || kernel::escaped_char(c).len() == 6
            &&& kernel::escaped_char(c)[0] == '\\'
            &&& c as int == 8 <==> kernel::escaped_char(c) == seq!['\\', 'b']
            &&& c as int == 9 <==> kernel::escaped_char(c) == seq!['\\', 't']
            &&& c as int == 10 <==> kernel::escaped_char(c) == seq!['\\', 'n']
            &&& c as int == 12 <==> kernel::escaped_char(c) == seq!['\\', 'f']
            &&& c as int == 13 <==> kernel::escaped_char(c) == seq!['\\', 'r']
            &&& kernel::escaped_char(c).len() == 6 ==> {
                &&& kernel::escaped_char(c).take(4) == seq!['\\', 'u', '0', '0']
                &&& kernel::escaped_char(c)[4] == if c as int >= 16 {
                    '1'
                } else {
                    '0'
                }
                &&& c as int % 16 < 10 ==> kernel::escaped_char(c)[5] as int == '0' as int
                    + c as int % 16
                &&& c as int % 16 >= 10 ==> kernel::escaped_char(c)[5] as int == 'a' as int
                    + c as int % 16 - 10
            }
        },
    decreases text.len(),
{
    reveal_strlit("0123456789abcdef");
    if (c as int) < 0x20 && kernel::escaped_char(c).len() == 6 {
        assert(kernel::escaped_char(c).take(4) =~= seq!['\\', 'u', '0', '0']);
    }
    assert(seq!['\\', 'b'][1] != seq!['\\', 't'][1]);
    assert(seq!['\\', 'b'][1] != seq!['\\', 'n'][1]);
    assert(seq!['\\', 'b'][1] != seq!['\\', 'f'][1]);
    assert(seq!['\\', 'b'][1] != seq!['\\', 'r'][1]);
    let more = text.push(c);
    if text.len() == 0 {
        assert(more.drop_first() =~= Seq::<char>::empty());
        assert(kernel::escaped(more.drop_first()) =~= Seq::<char>::empty());
        assert(kernel::escaped(more) =~= kernel::escaped(text) + kernel::escaped_char(c));
    } else {
        law_escaped(text.drop_first(), c);
        assert(more.drop_first() =~= text.drop_first().push(c));
        assert(kernel::escaped(more) =~= kernel::escaped(text) + kernel::escaped_char(c));
    }
}

// The fields of the log's actions.

/// Whether a field has the name, type and nullability, and no custom metadata.
pub open spec fn is_field(
    field: FieldModel,
    name: Seq<char>,
    data_type: TypeModel,
    nullable: bool,
) -> bool {
    &&& field.name == name
    &&& field.data_type == data_type
    &&& field.nullable == nullable
    &&& field.metadata == Map::<Seq<char>, Seq<char>>::empty()
}

/// Whether a type is a list of text that may be null, in items of the name `item`.
pub open spec fn is_text_list_type(ty: TypeModel) -> bool {
    ty matches TypeModel::ListOf(item) && is_field(*item, "item"@, TypeModel::Utf8, true)
}

/// Whether a type is an unsorted map from text that is never null to text, in entries of the given
/// name.
pub open spec fn is_text_map_type(
    ty: TypeModel,
    entries: Seq<char>,
    nullable_values: bool,
) -> bool {
    &&& ty is MapOf
    &&& !ty->MapOf_1
    &&& ty->MapOf_0.name == entries
    &&& !ty->MapOf_0.nullable
    &&& ty->MapOf_0.metadata == Map::<Seq<char>, Seq<char>>::empty()
    &&& ty->MapOf_0.data_type is StructOf
    &&& ty->MapOf_0.data_type->StructOf_0.len() == 2
    &&& is_field(ty->MapOf_0.data_type->StructOf_0[0], "key"@, TypeModel::Utf8, false)
    &&& is_field(ty->MapOf_0.data_type->StructOf_0[1], "value"@, TypeModel::Utf8, nullable_values)
}

/// The maps and lists of the log's actions.
pub proof fn law_nested_types(nullable_values: bool)
    ensures
        is_text_list_type(model::text_list_type()),
        is_text_map_type(schema::entries_map_type(nullable_values), "entries"@, nullable_values),
        is_text_map_type(schema::partition_values_type(), "key_value"@, true),
{
}

/// The fields of a protocol action.
pub proof fn law_protocol_fields()
    ensures
        ({
            let fields = schema::protocol_model();
            &&& fields.len() == 4
            &&& is_field(fields[0], "minReaderVersion"@, TypeModel::Int32, false)
            &&& is_field(fields[1], "minWriterVersion"@, TypeModel::Int32, false)
            &&& is_field(fields[2], "readerFeatures"@, fields[2].data_type, true)
            &&& is_text_list_type(fields[2].data_type)
            &&& is_field(fields[3], "writerFeatures"@, fields[3].data_type, true)
            &&& is_text_list_type(fields[3].data_type)
        }),
{
}

/// The fields of a metadata action and of the file format in it.
pub proof fn law_metadata_fields()
    ensures
        ({
            let fields = schema::metadata_model();
            &&& fields.len() == 8
            &&& is_field(fields[0], "id"@, TypeModel::Utf8, false)
            &&& is_field(fields[1], "name"@, TypeModel::Utf8, true)
            &&& is_field(fields[2], "description"@, TypeModel::Utf8, true)
            &&& is_field(
                fields[3],
                "format"@,
                TypeModel::StructOf(schema::format_model()),
                false,
            )
            &&& is_field(fields[4], "schemaString"@, TypeModel::Utf8, false)
            &&& is_field(fields[5], "partitionColumns"@, fields[5].data_type, false)
            &&& is_text_list_type(fields[5].data_type)
            &&& is_field(fields[6], "createdTime"@, TypeModel::Int64, true)
            &&& is_field(fields[7], "configuration"@, fields[7].data_type, false)
            &&& is_text_map_type(fields[7].data_type, "entries"@, false)
        }),
        ({
            let fields = schema::format_model();
            &&& fields.len() == 2
            &&& is_field(fields[0], "provider"@, TypeModel::Utf8, false)
            &&& is_field(fields[1], "options"@, fields[1].data_type, false)
            &&& is_text_map_type(fields[1].data_type, "entries"@, false)
        }),
{
}

/// The fields of a deletion vector and of a file's statistics.
pub proof fn law_file_part_fields()
    ensures
        ({
            let fields = schema::deletion_vector_model();
            &&& fields.len() == 5
            &&& is_field(fields[0], "storageType"@, TypeModel::Utf8, false)
            &&& is_field(fields[1], "pathOrInlineDv"@, TypeModel::Utf8, false)
            &&& is_field(fields[2], "offset"@, TypeModel::Int32, true)
            &&& is_field(fields[3], "sizeInBytes"@, TypeModel::Int32, false)
            &&& is_field(fields[4], "cardinality"@, TypeModel::Int64, false)
        }),
        ({
            let fields = schema::stats_model();
            &&& fields.len() == 1
            &&& is_field(fields[0], "numRecords"@, TypeModel::Int64, true)
        }),
        is_field(
            schema::deletion_vector_field_model(),
            "deletionVector"@,
            TypeModel::StructOf(schema::deletion_vector_model()),
            true,
        ),
{
}

/// Whether a schema has as many fields, and no custom metadata.
pub open spec fn is_plain_schema(schema: SchemaModel, len: nat) -> bool {
    &&& schema.fields.len() == len
    &&& schema.metadata == Map::<Seq<char>, Seq<char>>::empty()
}

/// The schemas of a log entry, of a file to add and of a file to remove.
pub proof fn law_schemas()
    ensures
        ({
            let schema = schema::log_schema_model();
            &&& is_plain_schema(schema, 2)
            &&& schema.fields == schema::log_model()
            &&& is_field(
                schema.fields[0],
                "protocol"@,
                TypeModel::StructOf(schema::protocol_model()),
                true,
            )
            &&& is_field(
                schema.fields[1],
                "metaData"@,
                TypeModel::StructOf(schema::metadata_model()),
                true,
            )
        }),
        ({
            let schema = schema::add_schema_model();
            &&& is_plain_schema(schema, 7)
            &&& is_field(schema.fields[0], "path"@, TypeModel::Utf8, false)
            &&& is_field(schema.fields[1], "partitionValues"@, schema.fields[1].data_type, false)
            &&& is_text_map_type(schema.fields[1].data_type, "key_value"@, true)
            &&& is_field(schema.fields[2], "size"@, TypeModel::Int64, false)
            &&& is_field(schema.fields[3], "modificationTime"@, TypeModel::Int64, false)
            &&& is_field(schema.fields[4], "dataChange"@, TypeModel::Boolean, false)
            &&& is_field(
                schema.fields[5],
                "stats"@,
                TypeModel::StructOf(schema::stats_model()),
                true,
            )
            &&& schema.fields[6] == schema::deletion_vector_field_model()
        }),
        ({
            let schema = schema::remove_schema_model();
            &&& is_plain_schema(schema, 7)
            &&& is_field(schema.fields[0], "path"@, TypeModel::Utf8, false)
            &&& is_field(schema.fields[1], "deletionTimestamp"@, TypeModel::Int64, true)
            &&& is_field(schema.fields[2], "dataChange"@, TypeModel::Boolean, false)
            &&& is_field(schema.fields[3], "extendedFileMetadata"@, TypeModel::Boolean, true)
            &&& is_field(schema.fields[4], "partitionValues"@, schema.fields[4].data_type, true)
            &&& is_text_map_type(schema.fields[4].data_type, "key_value"@, true)
            &&& is_field(schema.fields[5], "size"@, TypeModel::Int64, true)
            &&& schema.fields[6] == schema::deletion_vector_field_model()
        }),
{
}

} // verus!
