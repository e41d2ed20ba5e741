//! What holds of the library as a whole.
use vstd::prelude::*;
use vstd::utf8::*;

use crate::error::ErrorKind;
use crate::file;
use crate::file::{
    AddFileActionMetadata, DeletionVectorDescriptor, RemoveFileActionMetadata, Staged,
};
use crate::json;
use crate::kernel;
use crate::kernel::KernelField;
use crate::location;
use crate::model;
use crate::model::{Cell, SchemaModel, TypeModel};
use crate::schema;
use crate::schema::SimpleField;
use crate::table;
use crate::table::{MetadataActionSimple, ProtocolActionSimple};
use crate::text;
use crate::text::KernelStringSlice;

verus! {

// Rows conform to their schemas.

/// A row of cells that fit their fields conforms.
proof fn lemma_one_row_conforms(schema: SchemaModel, cells: Seq<Cell>)
    requires
        schema.fields.len() == cells.len(),
        forall|i: int|
            0 <= i < cells.len() ==> model::cell_fits(#[trigger] cells[i], schema.fields[i]),
    ensures
        model::conforms(model::one_row(schema, cells), 1),
{
    let table = model::one_row(schema, cells);
    assert forall|c: int, r: int|
        0 <= c < table.columns.len() && 0 <= r < 1 implies model::cell_fits(
        #[trigger] table.columns[c][r],
        table.schema.fields[c],
    ) by {
        assert(table.columns[c][0] == cells[c]);
    }
}

/// A list of texts is a value of a list of texts.
proof fn lemma_text_list(texts: Seq<Seq<char>>)
    ensures
        model::cell_has_type(Cell::Items(model::text_cells(texts)), model::text_list_type()),
{
    reveal_with_fuel(model::cell_has_type, 2);
    reveal_with_fuel(model::cell_fits, 2);
}

/// The value of a deletion vector is one of the type that file actions give it.
proof fn lemma_deletion_vector_typed(descriptor: Option<DeletionVectorDescriptor>)
    requires
        file::deletion_vector_cell(descriptor) is Ok,
    ensures
        model::cell_fits(
            file::deletion_vector_cell(descriptor)->Ok_0,
            schema::deletion_vector_field_model(),
        ),
{
    reveal_with_fuel(model::cell_has_type, 3);
    reveal_with_fuel(model::cell_fits, 3);
}

/// A file to add makes a table of one row that matches the schema of files to add.
pub proof fn law_add_conforms(metadata: AddFileActionMetadata)
    requires
        metadata.table() is Ok,
    ensures
        metadata.table()->Ok_0.schema == schema::add_schema_model(),
        model::conforms(metadata.table()->Ok_0, 1),
{
    reveal_with_fuel(model::cell_has_type, 3);
    reveal_with_fuel(model::cell_fits, 3);
    lemma_deletion_vector_typed(metadata.deletion_vector);
    let path = text::c_string_text(metadata.path@)->Ok_0;
    let vector = file::deletion_vector_cell(metadata.deletion_vector)->Ok_0;
    lemma_one_row_conforms(schema::add_schema_model(), metadata.row(path, vector));
}

/// A file to remove makes a table of one row that matches the schema of files to remove.
pub proof fn law_remove_conforms(metadata: RemoveFileActionMetadata)
    requires
        metadata.table() is Ok,
    ensures
        metadata.table()->Ok_0.schema == schema::remove_schema_model(),
        model::conforms(metadata.table()->Ok_0, 1),
{
    reveal_with_fuel(model::cell_has_type, 3);
    reveal_with_fuel(model::cell_fits, 3);
    lemma_deletion_vector_typed(metadata.deletion_vector);
    let path = text::c_string_text(metadata.path@)->Ok_0;
    let vector = file::deletion_vector_cell(metadata.deletion_vector)->Ok_0;
    lemma_one_row_conforms(schema::remove_schema_model(), metadata.row(path, vector));
}

/// The value of a protocol action has the type that the log gives it.
proof fn lemma_protocol_typed(action: ProtocolActionSimple)
    requires
        action.cell() is Ok,
    ensures
        model::cell_has_type(
            action.cell()->Ok_0,
            TypeModel::StructOf(schema::protocol_model()),
        ),
{
    let readers = text::strings_text(action.reader_features, action.reader_features_len)->Ok_0;
    let writers = text::strings_text(action.writer_features, action.writer_features_len)->Ok_0;
    lemma_text_list(readers);
    lemma_text_list(writers);
    reveal_with_fuel(model::cell_has_type, 2);
    reveal_with_fuel(model::cell_fits, 2);
    assert(model::cell_fits(table::features_cell(readers), schema::protocol_model()[2]));
    assert(model::cell_fits(table::features_cell(writers), schema::protocol_model()[3]));
}

/// The value of a file format has the type that a metadata action gives it.
proof fn lemma_format_typed(provider: Seq<char>)
    ensures
        model::cell_has_type(
            MetadataActionSimple::format_cell(provider),
            TypeModel::StructOf(schema::format_model()),
        ),
{
    reveal_with_fuel(model::cell_has_type, 3);
    reveal_with_fuel(model::cell_fits, 3);
}

/// The value of a metadata action has the type that the log gives it.
proof fn lemma_metadata_typed(action: MetadataActionSimple, schema_json: Seq<char>)
    requires
        action.cell(schema_json) is Ok,
    ensures
        model::cell_has_type(
            action.cell(schema_json)->Ok_0,
            TypeModel::StructOf(schema::metadata_model()),
        ),
{
    let cells = action.cell(schema_json)->Ok_0->Record_0;
    let provider = model::or_default(
        text::optional_c_string_text(action.format_provider)->Ok_0,
        "parquet"@,
    );
    lemma_format_typed(provider);
    lemma_text_list(
        text::strings_text(action.partition_columns, action.partition_columns_len)->Ok_0,
    );
    reveal_with_fuel(model::cell_has_type, 2);
    reveal_with_fuel(model::cell_fits, 2);
    assert(model::cell_fits(cells[3], schema::metadata_model()[3]));
    assert(model::cell_fits(cells[5], schema::metadata_model()[5]));
}

/// A log entry with a protocol or a metadata of the right type, and null for the other, conforms.
proof fn lemma_log_entry_conforms(protocol: Cell, metadata: Cell)
    requires
        model::cell_has_type(protocol, TypeModel::StructOf(schema::protocol_model())),
        model::cell_has_type(metadata, TypeModel::StructOf(schema::metadata_model())),
    ensures
        model::conforms(
            model::one_row(schema::log_schema_model(), seq![protocol, metadata]),
            1,
        ),
{
    let cells = seq![protocol, metadata];
    assert(model::cell_fits(cells[0], schema::log_model()[0]));
    assert(model::cell_fits(cells[1], schema::log_model()[1]));
    lemma_one_row_conforms(schema::log_schema_model(), cells);
}

/// Under the log's schema a protocol action is refused for its strings alone, and else makes a
/// table of one row that matches the schema and sets the protocol but no metadata.
pub proof fn law_protocol_entry(action: ProtocolActionSimple)
    ensures
        match action.table(schema::log_schema_model()) {
            Ok(entry) => {
                &&& action.cell() is Ok
                &&& entry.schema == schema::log_schema_model()
                &&& model::conforms(entry, 1)
                &&& entry.columns == seq![seq![action.cell()->Ok_0], seq![Cell::Null]]
                &&& entry.columns[0][0] is Record
            },
            Err(e) => {
                &&& action.cell() == Err::<Cell, ErrorKind>(e)
                &&& e == ErrorKind::NullStrings || e is Utf8
            },
        },
{
    if let Ok(cell) = action.cell() {
        lemma_protocol_typed(action);
        reveal_with_fuel(model::cell_has_type, 2);
        lemma_log_entry_conforms(cell, Cell::Null);
        table::lemma_log_entry_accepts(cell, Cell::Null);
        assert(model::one_row_columns(seq![cell, Cell::Null]) =~= seq![
            seq![cell],
            seq![Cell::Null],
        ]);
    }
}

/// Under the log's schema a metadata action is refused for its strings alone, and else makes a
/// table of one row that matches the schema and sets the metadata but no protocol.
pub proof fn law_metadata_entry(action: MetadataActionSimple, schema_json: Seq<char>)
    ensures
        match action.table(schema::log_schema_model(), schema_json) {
            Ok(entry) => {
                &&& action.failure() is None
                &&& entry.schema == schema::log_schema_model()
                &&& model::conforms(entry, 1)
                &&& entry.columns == seq![seq![Cell::Null], seq![action.cell(schema_json)->Ok_0]]
                &&& entry.columns[1][0] is Record
            },
            Err(e) => {
                &&& action.failure() == Some(e)
                &&& e == ErrorKind::CString || e == ErrorKind::NullStrings || e is Utf8
            },
        },
{
    if let Ok(cell) = action.cell(schema_json) {
        lemma_metadata_typed(action, schema_json);
        reveal_with_fuel(model::cell_has_type, 2);
        lemma_log_entry_conforms(Cell::Null, cell);
        table::lemma_log_entry_accepts(Cell::Null, cell);
        assert(model::one_row_columns(seq![Cell::Null, cell]) =~= seq![
            seq![Cell::Null],
            seq![cell],
        ]);
    }
}

// Nothing is lost.

/// A string that ended at a null byte comes out with the bytes that went in, or is refused.
pub proof fn law_c_string_keeps_bytes(bytes: Seq<u8>)
    ensures
        text::c_string_text(bytes) matches Ok(text) ==> encode_utf8(text) == bytes,
        text::c_string_text(bytes) is Ok <==> valid_utf8(bytes),
{
    if valid_utf8(bytes) {
        decode_utf8_encode_utf8(bytes);
    }
}

/// An array of strings comes out in the same order, each with the bytes that went in, or is
/// refused.
pub proof fn law_strings_keep_bytes(slices: Option<Vec<KernelStringSlice>>, len: usize)
    requires
        slices matches Some(slices) ==> len <= slices@.len(),
    ensures
        text::strings_text(slices, len) matches Ok(texts) ==> {
            &&& texts.len() == len
            &&& forall|i: int|
                0 <= i < len ==> encode_utf8(#[trigger] texts[i]) == slices->0@[i].bytes@
        },
{
    if let Ok(texts) = text::strings_text(slices, len) {
        assert forall|i: int| 0 <= i < len implies encode_utf8(#[trigger] texts[i])
            == slices->0@[i].bytes@ by {
            assert(valid_utf8(slices->0@.take(len as int)[i].bytes@));
            decode_utf8_encode_utf8(slices->0@[i].bytes@);
        }
    }
}

/// A file to add keeps its path, size, time, record count and whether it changes data. It has no
/// partition values.
pub proof fn law_add_keeps_values(metadata: AddFileActionMetadata)
    requires
        metadata.table() is Ok,
    ensures
        ({
            let columns = metadata.table()->Ok_0.columns;
            &&& columns[0][0] is Text
            &&& encode_utf8(columns[0][0]->Text_0) == metadata.path@
            &&& columns[1][0] == Cell::Entries(Seq::empty())
            &&& columns[2][0] is Int64
            &&& columns[2][0]->Int64_0 == metadata.size
            &&& columns[3][0] == Cell::Int64(metadata.modification_time)
            &&& columns[4][0] == Cell::Boolean(metadata.data_change)
            &&& columns[5][0] == Cell::Record(seq![Cell::Int64(metadata.num_records)])
        }),
{
    decode_utf8_encode_utf8(metadata.path@);
    let path = text::c_string_text(metadata.path@)->Ok_0;
    let vector = file::deletion_vector_cell(metadata.deletion_vector)->Ok_0;
    assert(metadata.row(path, vector)[0] == Cell::Text(path));
}

/// A file to remove keeps its path and whether it changes data. It has no partition values.
pub proof fn law_remove_keeps_values(metadata: RemoveFileActionMetadata)
    requires
        metadata.table() is Ok,
    ensures
        ({
            let columns = metadata.table()->Ok_0.columns;
            &&& columns[0][0] is Text
            &&& encode_utf8(columns[0][0]->Text_0) == metadata.path@
            &&& columns[2][0] == Cell::Boolean(metadata.data_change)
            &&& columns[4][0] == Cell::Entries(Seq::empty())
        }),
{
    decode_utf8_encode_utf8(metadata.path@);
    let path = text::c_string_text(metadata.path@)->Ok_0;
    let vector = file::deletion_vector_cell(metadata.deletion_vector)->Ok_0;
    assert(metadata.row(path, vector)[0] == Cell::Text(path));
}

/// The configuration of a table is as many pairs as the caller gave, each key with the value at
/// its place.
pub proof fn law_configuration_pairs(action: MetadataActionSimple, schema_json: Seq<char>)
    requires
        action.complete(),
        action.cell(schema_json) is Ok,
    ensures
        action.cell(schema_json)->Ok_0->Record_0[7] matches Cell::Entries(pairs) && {
            &&& pairs.len() == action.configuration_len
            &&& forall|i: int|
                0 <= i < pairs.len() ==> {
                    &&& encode_utf8((#[trigger] pairs[i]).0)
                        == action.configuration_keys->0@[i].bytes@
                    &&& encode_utf8(pairs[i].1) == action.configuration_values->0@[i].bytes@
                }
        },
{
    law_strings_keep_bytes(action.configuration_keys, action.configuration_len);
    law_strings_keep_bytes(action.configuration_values, action.configuration_len);
    let keys = text::strings_text(action.configuration_keys, action.configuration_len)->Ok_0;
    let values = text::strings_text(action.configuration_values, action.configuration_len)->Ok_0;
    assert forall|i: int| 0 <= i < keys.len() implies {
        &&& encode_utf8((#[trigger] keys.zip_with(values)[i]).0)
            == action.configuration_keys->0@[i].bytes@
        &&& encode_utf8(keys.zip_with(values)[i].1) == action.configuration_values->0@[i].bytes@
    } by {
        assert(encode_utf8(keys[i]) == action.configuration_keys->0@[i].bytes@);
        assert(encode_utf8(values[i]) == action.configuration_values->0@[i].bytes@);
    }
}

// What may be left out.

/// A deletion vector without an offset is one with offset 0.
pub proof fn law_absent_offset_is_zero(descriptor: DeletionVectorDescriptor)
    requires
        descriptor.offset is None,
    ensures
        file::deletion_vector_cell(Some(descriptor)) == file::deletion_vector_cell(
            Some(DeletionVectorDescriptor { offset: Some(0), ..descriptor }),
        ),
{
}

/// A file to remove without a timestamp, a size or extended metadata is one with timestamp 0,
/// size 0 and no extended metadata.
pub proof fn law_absent_remove_values(metadata: RemoveFileActionMetadata)
    ensures
        metadata.deletion_timestamp is None ==> metadata.table() == (RemoveFileActionMetadata {
            deletion_timestamp: Some(0),
            ..metadata
        }).table(),
        metadata.size is None ==> metadata.table() == (RemoveFileActionMetadata {
            size: Some(0),
            ..metadata
        }).table(),
        metadata.extended_file_metadata is None ==> metadata.table()
            == (RemoveFileActionMetadata { extended_file_metadata: Some(false), ..metadata }).table(),
{
}

/// Metadata without a format provider is metadata with the provider `parquet`.
pub proof fn law_absent_provider_is_parquet(
    action: MetadataActionSimple,
    provider: Vec<u8>,
    schema_json: Seq<char>,
)
    requires
        action.format_provider is None,
        provider@ == encode_utf8("parquet"@),
    ensures
        action.cell(schema_json) == (MetadataActionSimple {
            format_provider: Some(provider),
            ..action
        }).cell(schema_json),
{
    encode_utf8_valid_utf8("parquet"@);
    encode_utf8_decode_utf8("parquet"@);
}

/// An array of strings may be null if and only if its length is 0.
pub proof fn law_null_arrays(slices: Option<Vec<KernelStringSlice>>, len: usize)
    ensures
        len == 0 ==> text::strings_text(slices, len) == Ok::<Seq<Seq<char>>, ErrorKind>(
            Seq::empty(),
        ),
        len > 0 ==> text::strings_text(None, len) == Err::<Seq<Seq<char>>, ErrorKind>(
            ErrorKind::NullStrings,
        ),
        text::strings_text(slices, len) == Err::<Seq<Seq<char>>, ErrorKind>(
            ErrorKind::NullStrings,
        ) <==> slices is None && len > 0,
{
}

/// Protocol features are null in the log exactly where the caller gave none.
pub proof fn law_no_features_are_null(action: ProtocolActionSimple)
    requires
        action.complete(),
        action.cell() is Ok,
    ensures
        action.cell()->Ok_0->Record_0[2] is Null <==> action.reader_features_len == 0,
        action.cell()->Ok_0->Record_0[3] is Null <==> action.writer_features_len == 0,
{
    law_strings_keep_bytes(action.reader_features, action.reader_features_len);
    law_strings_keep_bytes(action.writer_features, action.writer_features_len);
}

// Deletion vectors.

/// A deletion vector is recorded in the same way for a file to add and for a file to remove: with
/// the bytes of its path, its size and its cardinality, under a storage type of one character.
pub proof fn law_deletion_vector_recorded(
    descriptor: DeletionVectorDescriptor,
    add: AddFileActionMetadata,
    remove: RemoveFileActionMetadata,
)
    requires
        add.deletion_vector == Some(descriptor),
        remove.deletion_vector == Some(descriptor),
        add.table() is Ok,
        remove.table() is Ok,
    ensures
        ({
            let cell = add.table()->Ok_0.columns[6][0];
            &&& cell == remove.table()->Ok_0.columns[6][0]
            &&& cell is Record
            &&& cell->Record_0.len() == 5
            &&& cell->Record_0[0] == Cell::Text(seq![descriptor.storage_type as char])
            &&& cell->Record_0[1] is Text
            &&& encode_utf8(cell->Record_0[1]->Text_0) == descriptor.path_or_inline_dv@
            &&& cell->Record_0[3] == Cell::Int32(descriptor.size_in_bytes)
            &&& cell->Record_0[4] == Cell::Int64(descriptor.cardinality)
        }),
{
    decode_utf8_encode_utf8(descriptor.path_or_inline_dv@);
    let vector = file::deletion_vector_cell(Some(descriptor))->Ok_0;
    assert(add.row(text::c_string_text(add.path@)->Ok_0, vector)[6] == vector);
    assert(remove.row(text::c_string_text(remove.path@)->Ok_0, vector)[6] == vector);
}

/// A file action without a deletion vector records null for it.
pub proof fn law_no_deletion_vector_is_null(
    add: AddFileActionMetadata,
    remove: RemoveFileActionMetadata,
)
    ensures
        add.table() is Ok ==> (add.table()->Ok_0.columns[6][0] is Null
            <==> add.deletion_vector is None),
        remove.table() is Ok ==> (remove.table()->Ok_0.columns[6][0] is Null
            <==> remove.deletion_vector is None),
{
    let added = file::deletion_vector_cell(add.deletion_vector)->Ok_0;
    let removed = file::deletion_vector_cell(remove.deletion_vector)->Ok_0;
    assert(add.row(text::c_string_text(add.path@)->Ok_0, added)[6] == added);
    assert(remove.row(text::c_string_text(remove.path@)->Ok_0, removed)[6] == removed);
}

/// A new deletion vector is attached to a file by removing the file with its old vector and
/// adding it with the new one. The transaction then has one more file to remove and one more to
/// add, last in their order and with the same path, and is else as before; which was staged first
/// makes no difference.
pub proof fn law_attach_deletion_vector(
    staged: Staged,
    remove: RemoveFileActionMetadata,
    add: AddFileActionMetadata,
)
    requires
        remove.path@ == add.path@,
        remove.table() is Ok,
        add.table() is Ok,
    ensures
        ({
            let after = staged.with_remove(remove).with_add(add);
            &&& after == staged.with_add(add).with_remove(remove)
            &&& after.rest == staged.rest
            &&& after.removes == staged.removes.push(remove.table()->Ok_0)
            &&& after.adds == staged.adds.push(add.table()->Ok_0)
            &&& after.removes.last().columns[0][0] == after.adds.last().columns[0][0]
            &&& file::deletion_vector_cell(remove.deletion_vector) == Ok::<Cell, ErrorKind>(
                after.removes.last().columns[6][0],
            )
            &&& file::deletion_vector_cell(add.deletion_vector) == Ok::<Cell, ErrorKind>(
                after.adds.last().columns[6][0],
            )
        }),
{
    let path = text::c_string_text(add.path@)->Ok_0;
    let added = file::deletion_vector_cell(add.deletion_vector)->Ok_0;
    let removed = file::deletion_vector_cell(remove.deletion_vector)->Ok_0;
    assert(add.row(path, added)[0] == Cell::Text(path));
    assert(remove.row(path, removed)[0] == Cell::Text(path));
    assert(add.row(path, added)[6] == added);
    assert(remove.row(path, removed)[6] == removed);
}

// The columns of a table.

/// Whether no two fields have the same name.
pub open spec fn distinct_names(fields: Seq<KernelField>) -> bool {
    forall|i: int, j: int|
        0 <= i < j < fields.len() ==> (#[trigger] fields[i]).name != (#[trigger] fields[j]).name
}

/// Columns with different names stand in the table's schema in the order in which they were
/// given.
pub proof fn law_columns_keep_order(fields: Seq<KernelField>)
    requires
        distinct_names(fields),
    ensures
        kernel::unique_fields(fields) == fields,
    decreases fields.len(),
{
    if fields.len() > 0 {
        law_columns_keep_order(fields.drop_last());
        assert(fields.drop_last().push(fields.last()) =~= fields);
    } else {
        assert(kernel::unique_fields(fields) =~= fields);
    }
}

/// A table's schema has a column for every name that was given, and none twice.
pub proof fn law_columns_are_distinct(fields: Seq<KernelField>)
    ensures
        distinct_names(kernel::unique_fields(fields)),
        forall|name: Seq<char>|
            #[trigger] kernel::has_name(kernel::unique_fields(fields), name) <==> kernel::has_name(
                fields,
                name,
            ),
    decreases fields.len(),
{
    if fields.len() > 0 {
        law_columns_are_distinct(fields.drop_last());
        lemma_with_field(kernel::unique_fields(fields.drop_last()), fields.last());
        assert forall|name: Seq<char>|
            #[trigger] kernel::has_name(kernel::unique_fields(fields), name) <==> kernel::has_name(
                fields,
                name,
            ) by {
            lemma_has_name_push(fields.drop_last(), fields.last(), name);
            assert(fields.drop_last().push(fields.last()) =~= fields);
            assert(kernel::has_name(kernel::unique_fields(fields.drop_last()), name)
                <==> kernel::has_name(fields.drop_last(), name));
        }
    }
}

/// One more field at the end adds its name.
proof fn lemma_has_name_push(fields: Seq<KernelField>, field: KernelField, name: Seq<char>)
    ensures
        kernel::has_name(fields.push(field), name) <==> kernel::has_name(fields, name)
            || field.name == name,
{
    let pushed = fields.push(field);
    if kernel::has_name(fields, name) {
        let i = choose|i: int| 0 <= i < fields.len() && #[trigger] fields[i].name == name;
        assert(pushed[i].name == name);
    }
    if field.name == name {
        assert(pushed[fields.len() as int].name == name);
    }
}

/// One more field, in its place or at the end, adds its name and repeats none.
proof fn lemma_with_field(fields: Seq<KernelField>, field: KernelField)
    requires
        distinct_names(fields),
    ensures
        distinct_names(kernel::with_kernel_field(fields, field)),
        kernel::with_kernel_field(fields, field).contains(field),
        forall|name: Seq<char>|
            #[trigger] kernel::has_name(kernel::with_kernel_field(fields, field), name)
                <==> kernel::has_name(fields, name) || field.name == name,
{
    let extended = kernel::with_kernel_field(fields, field);
    if kernel::has_name(fields, field.name) {
        let place = choose|i: int|
            0 <= i < fields.len() && #[trigger] fields[i].name == field.name;
        assert(extended[place] == field);
        assert forall|i: int| 0 <= i < fields.len() implies #[trigger] extended[i].name
            == fields[i].name by {}
        assert forall|name: Seq<char>|
            #[trigger] kernel::has_name(extended, name) <==> kernel::has_name(fields, name)
                || field.name == name by {
            if kernel::has_name(fields, name) {
                let i = choose|i: int| 0 <= i < fields.len() && #[trigger] fields[i].name == name;
                assert(extended[i].name == name);
            }
            if kernel::has_name(extended, name) {
                let i = choose|i: int|
                    0 <= i < extended.len() && #[trigger] extended[i].name == name;
                assert(fields[i].name == name);
            }
        }
    } else {
        assert(extended[fields.len() as int] == field);
        assert forall|name: Seq<char>|
            #[trigger] kernel::has_name(extended, name) <==> kernel::has_name(fields, name)
                || field.name == name by {
            lemma_has_name_push(fields, field, name);
        }
        assert forall|i: int, j: int| 0 <= i < j < extended.len() implies (
        #[trigger] extended[i]).name != (#[trigger] extended[j]).name by {
            if j == fields.len() {
                assert(fields[i].name != field.name);
            }
        }
    }
}

/// Of the columns that share a name, the last one that was given stands in the table's schema.
pub proof fn law_last_column_stands(fields: Seq<KernelField>, i: int)
    requires
        0 <= i < fields.len(),
        forall|j: int| i < j < fields.len() ==> (#[trigger] fields[j]).name != fields[i].name,
    ensures
        kernel::unique_fields(fields).contains(fields[i]),
    decreases fields.len(),
{
    let before = kernel::unique_fields(fields.drop_last());
    law_columns_are_distinct(fields.drop_last());
    lemma_with_field(before, fields.last());
    if i < fields.len() - 1 {
        law_last_column_stands(fields.drop_last(), i);
        let place = choose|k: int| 0 <= k < before.len() && before[k] == fields[i];
        assert(before[place].name != fields[fields.len() - 1].name);
        assert(kernel::unique_fields(fields)[place] == fields[i]);
    }
}

// The first commit.

/// A slash at the end of the table root makes no difference: neither to its text, nor to the text
/// of the URL that it parses to with a slash at its end, where that is the root's text with the
/// slash, or parses to itself.
pub proof fn law_trailing_slash_is_optional(root: Seq<char>, base: Seq<char>)
    ensures
        location::commit_text(root) == location::commit_text(location::slash_ended(root)),
        location::slash_ended(root).last() == '/',
        ({
            let parsed = Ok::<Seq<char>, url::ParseError>(base);
            &&& location::url_parsed(location::slash_ended(root)) == parsed
            &&& location::url_parsed(base) == parsed || base == location::slash_ended(root)
            &&& location::is_directory(base)
        }) ==> location::commit_text(base) == location::commit_text(root),
{
}

/// The columns that the JSON text of a schema stands for.
pub open spec fn columns_of(text: Seq<char>) -> Seq<KernelField> {
    choose|fields: Seq<KernelField>|
        kernel::flat_fields(fields) && #[trigger] kernel::schema_json(fields) == text
}

/// The JSON text of a schema tells its columns: their names, types, whether they may be null, and
/// their order. No two lists of columns have the same text.
pub proof fn law_schema_text_is_read_back(fields: Seq<KernelField>)
    requires
        kernel::flat_fields(fields),
    ensures
        columns_of(kernel::schema_json(fields)) == fields,
        forall|other: Seq<KernelField>|
            kernel::flat_fields(other) && #[trigger] kernel::schema_json(other)
                == kernel::schema_json(fields) ==> other == fields,
{
    assert forall|other: Seq<KernelField>|
        kernel::flat_fields(other) && #[trigger] kernel::schema_json(other) == kernel::schema_json(
            fields,
        ) implies other == fields by {
        json::lemma_schema_json(other, fields);
    }
}

/// The first commit of a table goes to the commit file of its root. It holds two log entries that
/// match the log's schema: first one that sets the protocol alone, then one that sets the
/// metadata alone, with the JSON text of the table's columns as its schema. The columns can be
/// read from it.
pub proof fn law_initial_commit(
    root: Seq<char>,
    fields: Option<Vec<SimpleField>>,
    fields_len: usize,
    protocol: ProtocolActionSimple,
    metadata: MetadataActionSimple,
)
    requires
        fields matches Some(fields) ==> fields_len <= fields@.len(),
        table::initial_commit(root, fields, fields_len, protocol, metadata) matches Some(Ok(_)),
    ensures
        ({
            let commit = table::initial_commit(
                root,
                fields,
                fields_len,
                protocol,
                metadata,
            )->Some_0->Ok_0;
            let columns = schema::table_fields(fields, fields_len);
            &&& location::commit_text(root) == Ok::<Seq<char>, ErrorKind>(commit.path)
            &&& commit.actions.len() == 2
            &&& forall|i: int|
                0 <= i < 2 ==> (#[trigger] commit.actions[i]).schema == schema::log_schema_model()
                    && model::conforms(commit.actions[i], 1)
            &&& protocol.cell() == Ok::<Cell, ErrorKind>(commit.actions[0].columns[0][0])
            &&& commit.actions[0].columns[0][0] is Record
            &&& commit.actions[0].columns[1][0] is Null
            &&& commit.actions[1].columns[0][0] is Null
            &&& commit.actions[1].columns[1][0] is Record
            &&& columns is Ok
            &&& commit.schema_json() == Cell::Text(kernel::schema_json(columns->Ok_0))
            &&& columns_of(commit.schema_json()->Text_0) == columns->Ok_0
        }),
{
    let columns = schema::table_fields(fields, fields_len)->Ok_0;
    law_protocol_entry(protocol);
    law_metadata_entry(metadata, kernel::schema_json(columns));
    schema::lemma_table_fields_flat(fields, fields_len);
    law_schema_text_is_read_back(columns);
}

} // verus!
