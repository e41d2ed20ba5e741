//! What the batches of this library say, value by value, of what the caller gave.
//!
//! Every statement here goes from the caller's bytes and numbers to the values that stand in a
//! batch, and says on which of them the caller is refused, and how.
use delta_kernel::engine::arrow_data::ArrowEngineData;
use delta_kernel::transaction::Transaction;
use vstd::prelude::*;
use vstd::utf8::*;

use crate::arrow;
use crate::columns;
use crate::error;
use crate::error::{ErrorKind, SimpleError};
use crate::file;
use crate::file::{
    AddFileActionMetadata, DeletionVectorDescriptor, RemoveFileActionMetadata, Staged,
};
use crate::kernel;
use crate::location;
use crate::model;
use crate::model::{Cell, SchemaModel, Table};
use crate::schema;
use crate::schema::SimpleField;
use crate::table;
use crate::table::{CommitModel, InitialCommit, MetadataActionSimple, ProtocolActionSimple};
use crate::text;
use crate::text::KernelStringSlice;

verus! {

/// Whether a value is the text with the given bytes.
pub open spec fn is_text(cell: Cell, bytes: Seq<u8>) -> bool {
    cell matches Cell::Text(text) && encode_utf8(text) == bytes
}

/// Whether a value is the text with the given bytes, or null where there are none.
pub open spec fn is_optional_text(cell: Cell, bytes: Option<Vec<u8>>) -> bool {
    match bytes {
        Some(bytes) => is_text(cell, bytes@),
        None => cell is Null,
    }
}

/// Whether a value is the list of the first `len` strings, in their order.
pub open spec fn is_text_list(
    cell: Cell,
    slices: Option<Vec<KernelStringSlice>>,
    len: usize,
) -> bool {
    &&& cell is Items
    &&& cell->Items_0.len() == len
    &&& forall|i: int|
        0 <= i < len ==> is_text(#[trigger] cell->Items_0[i], slices->Some_0@[i].bytes@)
}

/// Whether the caller gave strings that can be read: none at all, or an array whose first `len`
/// strings are UTF-8.
pub open spec fn readable(slices: Option<Vec<KernelStringSlice>>, len: usize) -> bool {
    len == 0 || (slices is Some && forall|i: int|
        0 <= i < len ==> valid_utf8(#[trigger] slices->Some_0@[i].bytes@))
}

/// Whether the caller gave no string, or one that is UTF-8.
pub open spec fn readable_c_string(bytes: Option<Vec<u8>>) -> bool {
    bytes matches Some(bytes) ==> valid_utf8(bytes@)
}

/// Whether the caller gave no deletion vector, or one whose path is UTF-8.
pub open spec fn readable_vector(descriptor: Option<DeletionVectorDescriptor>) -> bool {
    descriptor matches Some(descriptor) ==> valid_utf8(descriptor.path_or_inline_dv@)
}

/// Whether a value records the deletion vector: null where there is none, and else its storage
/// type as one character, the bytes of its path, its offset or 0, its size and its cardinality.
pub open spec fn is_vector(cell: Cell, descriptor: Option<DeletionVectorDescriptor>) -> bool {
    match descriptor {
        None => cell is Null,
        Some(descriptor) => {
            &&& cell is Record
            &&& cell->Record_0.len() == 5
            &&& cell->Record_0[0] is Text
            &&& cell->Record_0[0]->Text_0.len() == 1
            &&& cell->Record_0[0]->Text_0[0] as u32 == descriptor.storage_type as u32
            &&& is_text(cell->Record_0[1], descriptor.path_or_inline_dv@)
            &&& cell->Record_0[2] is Int32
            &&& descriptor.offset matches Some(offset) ==> cell->Record_0[2]->Int32_0 == offset
            &&& descriptor.offset is None ==> cell->Record_0[2]->Int32_0 == 0
            &&& cell->Record_0[3] == Cell::Int32(descriptor.size_in_bytes)
            &&& cell->Record_0[4] == Cell::Int64(descriptor.cardinality)
        },
    }
}

/// Whether a table has one row of the given width.
pub open spec fn is_one_row(table: Table, width: nat) -> bool {
    &&& table.columns.len() == width
    &&& forall|c: int| 0 <= c < width ==> (#[trigger] table.columns[c]).len() == 1
}

// Files.

/// A deletion vector is refused if and only if its path is not UTF-8, and else recorded.
pub proof fn law_deletion_vector(descriptor: Option<DeletionVectorDescriptor>)
    ensures
        match file::deletion_vector_cell(descriptor) {
            Ok(cell) => readable_vector(descriptor) && is_vector(cell, descriptor),
            Err(e) => !readable_vector(descriptor) && e == ErrorKind::CString,
        },
{
    if let Some(descriptor) = descriptor {
        if valid_utf8(descriptor.path_or_inline_dv@) {
            decode_utf8_encode_utf8(descriptor.path_or_inline_dv@);
        }
    }
}

/// A file to add is accepted if and only if its path is UTF-8, its size is that of a signed
/// number, and the path of its deletion vector, where there is one, is UTF-8. The first of these
/// that fails is the error.
pub proof fn law_add_accepted(metadata: AddFileActionMetadata)
    ensures
        metadata.table() is Ok <==> {
            &&& valid_utf8(metadata.path@)
            &&& metadata.size <= i64::MAX
            &&& readable_vector(metadata.deletion_vector)
        },
        metadata.table() matches Err(e) ==> e == if !valid_utf8(metadata.path@) {
            ErrorKind::CString
        } else if metadata.size > i64::MAX {
            ErrorKind::Size
        } else {
            ErrorKind::CString
        },
{
    law_deletion_vector(metadata.deletion_vector);
}

/// The row of a file to add holds the caller's values: the bytes of the path, no partition values,
/// the size, the modification time, whether data change, the number of records and the deletion
/// vector.
pub proof fn law_add_row(metadata: AddFileActionMetadata)
    requires
        metadata.table() is Ok,
    ensures
        is_one_row(metadata.table()->Ok_0, 7),
        ({
            let columns = metadata.table()->Ok_0.columns;
            &&& is_text(columns[0][0], metadata.path@)
            &&& columns[1][0] is Entries
            &&& columns[1][0]->Entries_0.len() == 0
            &&& columns[2][0] is Int64
            &&& columns[2][0]->Int64_0 == metadata.size
            &&& columns[3][0] == Cell::Int64(metadata.modification_time)
            &&& columns[4][0] == Cell::Boolean(metadata.data_change)
            &&& columns[5][0] is Record
            &&& columns[5][0]->Record_0.len() == 1
            &&& columns[5][0]->Record_0[0] == Cell::Int64(metadata.num_records)
            &&& is_vector(columns[6][0], metadata.deletion_vector)
        }),
{
    law_deletion_vector(metadata.deletion_vector);
    decode_utf8_encode_utf8(metadata.path@);
    let path = text::c_string_text(metadata.path@)->Ok_0;
    let vector = file::deletion_vector_cell(metadata.deletion_vector)->Ok_0;
    assert(metadata.row(path, vector).len() == 7);
}

/// A file to remove is accepted if and only if its path and the path of its deletion vector, where
/// there is one, are UTF-8.
pub proof fn law_remove_accepted(metadata: RemoveFileActionMetadata)
    ensures
        metadata.table() is Ok <==> {
            &&& valid_utf8(metadata.path@)
            &&& readable_vector(metadata.deletion_vector)
        },
        metadata.table() matches Err(e) ==> e == ErrorKind::CString,
{
    law_deletion_vector(metadata.deletion_vector);
}

/// The row of a file to remove holds the caller's values: the bytes of the path, the deletion
/// timestamp, whether data change, whether metadata are extended, no partition values, the size
/// and the deletion vector. A number that was not given is 0, a truth value false.
pub proof fn law_remove_row(metadata: RemoveFileActionMetadata)
    requires
        metadata.table() is Ok,
    ensures
        is_one_row(metadata.table()->Ok_0, 7),
        ({
            let columns = metadata.table()->Ok_0.columns;
            &&& is_text(columns[0][0], metadata.path@)
            &&& columns[1][0] is Int64
            &&& metadata.deletion_timestamp matches Some(timestamp) ==> columns[1][0]->Int64_0
                == timestamp
            &&& metadata.deletion_timestamp is None ==> columns[1][0]->Int64_0 == 0
            &&& columns[2][0] == Cell::Boolean(metadata.data_change)
            &&& columns[3][0] is Boolean
            &&& columns[3][0]->Boolean_0 <==> metadata.extended_file_metadata == Some(true)
            &&& columns[4][0] is Entries
            &&& columns[4][0]->Entries_0.len() == 0
            &&& columns[5][0] is Int64
            &&& metadata.size matches Some(size) ==> columns[5][0]->Int64_0 == size
            &&& metadata.size is None ==> columns[5][0]->Int64_0 == 0
            &&& is_vector(columns[6][0], metadata.deletion_vector)
        }),
{
    law_deletion_vector(metadata.deletion_vector);
    decode_utf8_encode_utf8(metadata.path@);
    let path = text::c_string_text(metadata.path@)->Ok_0;
    let vector = file::deletion_vector_cell(metadata.deletion_vector)->Ok_0;
    assert(metadata.row(path, vector).len() == 7);
}

/// A file action whose strings are within 32-bit offsets can always be turned into a batch, and so
/// can one that is refused.
pub proof fn law_small_files_fit(
    add: AddFileActionMetadata,
    remove: RemoveFileActionMetadata,
    descriptor: Option<DeletionVectorDescriptor>,
)
    ensures
        file::deletion_vector_small(descriptor) <==> (descriptor is Some
            ==> descriptor->Some_0.path_or_inline_dv@.len() <= i32::MAX),
        add.fits() <==> (add.table() is Err || (add.path@.len() <= i32::MAX && (
        add.deletion_vector is Some ==> add.deletion_vector->Some_0.path_or_inline_dv@.len()
            <= i32::MAX))),
        remove.fits() <==> (remove.table() is Err || (remove.path@.len() <= i32::MAX && (
        remove.deletion_vector is Some ==> remove.deletion_vector->Some_0.path_or_inline_dv@.len()
            <= i32::MAX))),
{
}

/// A file that is accepted is staged behind those of its kind that were staged before, and a file
/// that is refused is not staged. Nothing else of a transaction changes.
pub proof fn law_staging(
    staged: Staged,
    add: AddFileActionMetadata,
    remove: RemoveFileActionMetadata,
)
    ensures
        staged.with_add(add).removes == staged.removes,
        staged.with_add(add).rest == staged.rest,
        staged.with_remove(remove).adds == staged.adds,
        staged.with_remove(remove).rest == staged.rest,
        match add.table() {
            Ok(table) => {
                &&& staged.with_add(add).adds.len() == staged.adds.len() + 1
                &&& staged.with_add(add).adds.drop_last() == staged.adds
                &&& staged.with_add(add).adds.last() == table
            },
            Err(_) => staged.with_add(add).adds == staged.adds,
        },
        match remove.table() {
            Ok(table) => {
                &&& staged.with_remove(remove).removes.len() == staged.removes.len() + 1
                &&& staged.with_remove(remove).removes.drop_last() == staged.removes
                &&& staged.with_remove(remove).removes.last() == table
            },
            Err(_) => staged.with_remove(remove).removes == staged.removes,
        },
{
    if let Ok(table) = add.table() {
        assert(staged.adds.push(table).drop_last() =~= staged.adds);
    }
    if let Ok(table) = remove.table() {
        assert(staged.removes.push(table).drop_last() =~= staged.removes);
    }
}

// Strings.

/// A string that ended at a null byte is refused if and only if it is not UTF-8, and else has the
/// caller's bytes.
pub proof fn law_c_string(bytes: Seq<u8>)
    ensures
        match text::c_string_text(bytes) {
            Ok(text) => valid_utf8(bytes) && encode_utf8(text) == bytes,
            Err(e) => !valid_utf8(bytes) && e == ErrorKind::CString,
        },
{
    if valid_utf8(bytes) {
        decode_utf8_encode_utf8(bytes);
    }
}

/// An optional string is refused if and only if it is there and not UTF-8. There is a text if and
/// only if there was a string, and it has the caller's bytes.
pub proof fn law_optional_c_string(bytes: Option<Vec<u8>>)
    ensures
        match text::optional_c_string_text(bytes) {
            Ok(None) => bytes is None,
            Ok(Some(text)) => bytes is Some && encode_utf8(text) == bytes->Some_0@,
            Err(e) => !readable_c_string(bytes) && e == ErrorKind::CString,
        },
        readable_c_string(bytes) <==> text::optional_c_string_text(bytes) is Ok,
{
    if let Some(bytes) = bytes {
        law_c_string(bytes@);
    }
}

/// An array of strings is refused if and only if it is missing although its length is not 0, or
/// one of its strings is not UTF-8; the error is that of the first. Else there are as many texts
/// as the length says, the i-th with the bytes of the i-th string.
pub proof fn law_strings(slices: Option<Vec<KernelStringSlice>>, len: usize)
    requires
        slices matches Some(slices) ==> len <= slices@.len(),
    ensures
        match text::strings_text(slices, len) {
            Ok(texts) => {
                &&& readable(slices, len)
                &&& texts.len() == len
                &&& forall|i: int|
                    0 <= i < len ==> encode_utf8(#[trigger] texts[i])
                        == slices->Some_0@[i].bytes@
            },
            Err(e) => {
                &&& !readable(slices, len)
                &&& slices is None ==> e == ErrorKind::NullStrings
                &&& slices is Some ==> exists|i: int|
                    {
                        &&& 0 <= i < len
                        &&& !valid_utf8(#[trigger] slices->Some_0@[i].bytes@)
                        &&& e == ErrorKind::Utf8(text::utf8_error(slices->Some_0@[i].bytes@))
                        &&& forall|j: int|
                            0 <= j < i ==> valid_utf8(#[trigger] slices->Some_0@[j].bytes@)
                    }
            },
        },
{
    if len > 0 && slices is Some {
        let all = slices->Some_0@.take(len as int);
        if text::all_utf8(all) {
            assert forall|i: int| 0 <= i < len implies valid_utf8(
                #[trigger] slices->Some_0@[i].bytes@,
            ) && encode_utf8(text::slice_texts(all)[i]) == slices->Some_0@[i].bytes@ by {
                assert(valid_utf8(all[i].bytes@));
                decode_utf8_encode_utf8(all[i].bytes@);
            }
        } else {
            let some = choose|i: int| 0 <= i < all.len() && !valid_utf8(#[trigger] all[i].bytes@);
            let first = lemma_first_invalid(text::slices_bytes(all), some);
            text::lemma_first_utf8_error(text::slices_bytes(all), first);
            assert forall|j: int| 0 <= j < first implies valid_utf8(
                #[trigger] slices->Some_0@[j].bytes@,
            ) by {
                assert(valid_utf8(text::slices_bytes(all)[j]));
            }
            assert(!valid_utf8(slices->Some_0@[first].bytes@));
        }
    }
}

/// Where a string is not UTF-8, there is a first that is not.
pub(crate) proof fn lemma_first_invalid(strings: Seq<Seq<u8>>, some: int) -> (first: int)
    requires
        0 <= some < strings.len(),
        !valid_utf8(strings[some]),
    ensures
        text::is_first_invalid(strings, first),
    decreases some,
{
    if forall|j: int| 0 <= j < some ==> valid_utf8(#[trigger] strings[j]) {
        some
    } else {
        lemma_first_invalid(
            strings,
            choose|j: int| 0 <= j < some && !valid_utf8(#[trigger] strings[j]),
        )
    }
}

/// An array is there in full if it is null or long enough. It is small if it is null, or if it has
/// no more strings, and these no more bytes, than 32-bit offsets can count.
pub proof fn law_array_sizes(slices: Option<Vec<KernelStringSlice>>, len: usize)
    ensures
        text::strings_complete(slices, len) <==> (slices is None || len <= slices->Some_0@.len()),
        text::strings_small(slices, len) <==> (slices is None || (len <= i32::MAX
            && text::slice_bytes(slices->Some_0@.take(len as int)) <= i32::MAX)),
{
}

/// The bytes of strings are counted one string after the other.
pub proof fn law_slice_bytes(slices: Seq<KernelStringSlice>, slice: KernelStringSlice)
    ensures
        text::slice_bytes(Seq::empty()) == 0,
        text::slice_bytes(slices.push(slice)) == text::slice_bytes(slices) + slice.bytes@.len(),
{
    assert(slices.push(slice).drop_last() =~= slices);
}

/// The texts of strings, the values of texts and the texts of pairs stand in the order of what they
/// are made of, one for each.
pub proof fn law_texts(strings: Seq<String>, texts: Seq<Seq<char>>, pairs: Seq<(String, String)>)
    ensures
        model::texts(strings).len() == strings.len(),
        forall|i: int|
            0 <= i < strings.len() ==> #[trigger] model::texts(strings)[i] == strings[i]@,
        model::text_cells(texts).len() == texts.len(),
        forall|i: int|
            0 <= i < texts.len() ==> #[trigger] model::text_cells(texts)[i] == Cell::Text(texts[i]),
        columns::pair_keys(pairs).len() == pairs.len(),
        columns::pair_values(pairs).len() == pairs.len(),
        columns::pair_texts(pairs).len() == pairs.len(),
        forall|i: int|
            0 <= i < pairs.len() ==> {
                &&& #[trigger] columns::pair_texts(pairs)[i] == (pairs[i].0@, pairs[i].1@)
                &&& columns::pair_keys(pairs)[i] == pairs[i].0@
                &&& columns::pair_values(pairs)[i] == pairs[i].1@
            },
{
}

/// The bytes of texts are counted one text after the other.
pub proof fn law_text_bytes(texts: Seq<Seq<char>>, text: Seq<char>)
    ensures
        model::text_bytes(Seq::empty()) == 0,
        model::text_bytes(texts.push(text)) == model::text_bytes(texts) + encode_utf8(text).len(),
{
    assert(texts.push(text).drop_last() =~= texts);
}

// Protocol and metadata.

/// A protocol action is accepted if and only if its reader and writer features can be read. Else
/// the error is that of the reader features, or of the writer features where those can be read.
pub proof fn law_protocol_accepted(action: ProtocolActionSimple)
    requires
        action.complete(),
    ensures
        action.table(schema::log_schema_model()) is Ok <==> {
            &&& readable(action.reader_features, action.reader_features_len)
            &&& readable(action.writer_features, action.writer_features_len)
        },
        action.table(schema::log_schema_model()) matches Err(e) ==> Err::<
            Seq<Seq<char>>,
            ErrorKind,
        >(e) == if !readable(action.reader_features, action.reader_features_len) {
            text::strings_text(action.reader_features, action.reader_features_len)
        } else {
            text::strings_text(action.writer_features, action.writer_features_len)
        },
{
    law_strings(action.reader_features, action.reader_features_len);
    law_strings(action.writer_features, action.writer_features_len);
    if let Ok(cell) = action.cell() {
        table::lemma_log_entry_accepts(cell, Cell::Null);
    }
}

/// The row of a protocol action holds the caller's versions and features, each feature with its
/// bytes and in its place; a list of no features is null. Its metadata is null.
pub proof fn law_protocol_row(action: ProtocolActionSimple)
    requires
        action.complete(),
        action.table(schema::log_schema_model()) is Ok,
    ensures
        is_one_row(action.table(schema::log_schema_model())->Ok_0, 2),
        ({
            let columns = action.table(schema::log_schema_model())->Ok_0.columns;
            let cells = columns[0][0]->Record_0;
            &&& columns[1][0] is Null
            &&& columns[0][0] is Record
            &&& cells.len() == 4
            &&& cells[0] == Cell::Int32(action.min_reader_version)
            &&& cells[1] == Cell::Int32(action.min_writer_version)
            &&& if action.reader_features_len == 0 {
                cells[2] is Null
            } else {
                is_text_list(cells[2], action.reader_features, action.reader_features_len)
            }
            &&& if action.writer_features_len == 0 {
                cells[3] is Null
            } else {
                is_text_list(cells[3], action.writer_features, action.writer_features_len)
            }
        }),
{
    law_protocol_accepted(action);
    law_strings(action.reader_features, action.reader_features_len);
    law_strings(action.writer_features, action.writer_features_len);
    table::lemma_log_entry_accepts(action.cell()->Ok_0, Cell::Null);
}

/// Whether the strings of a metadata action can be read.
pub open spec fn readable_metadata(action: MetadataActionSimple) -> bool {
    &&& valid_utf8(action.id@)
    &&& readable_c_string(action.name)
    &&& readable_c_string(action.description)
    &&& readable_c_string(action.format_provider)
    &&& readable(action.partition_columns, action.partition_columns_len)
    &&& readable(action.configuration_keys, action.configuration_len)
    &&& readable(action.configuration_values, action.configuration_len)
}

/// A metadata action is accepted if and only if all its strings can be read. Else the error is
/// that of the first string that cannot, in this order: the id, the name, the description and the
/// format provider, which are strings that ended at a null byte, then the partition columns, the
/// configuration keys and the configuration values.
pub proof fn law_metadata_accepted(action: MetadataActionSimple, schema_json: Seq<char>)
    requires
        action.complete(),
    ensures
        action.table(schema::log_schema_model(), schema_json) is Ok <==> readable_metadata(action),
        action.failure() is None <==> readable_metadata(action),
        action.table(schema::log_schema_model(), schema_json) matches Err(e) ==> {
            if !valid_utf8(action.id@) || !readable_c_string(action.name) || !readable_c_string(
                action.description,
            ) || !readable_c_string(action.format_provider) {
                e == ErrorKind::CString
            } else {
                Err::<Seq<Seq<char>>, ErrorKind>(e) == if !readable(
                    action.partition_columns,
                    action.partition_columns_len,
                ) {
                    text::strings_text(action.partition_columns, action.partition_columns_len)
                } else if !readable(action.configuration_keys, action.configuration_len) {
                    text::strings_text(action.configuration_keys, action.configuration_len)
                } else {
                    text::strings_text(action.configuration_values, action.configuration_len)
                }
            }
        },
{
    law_c_string(action.id@);
    law_optional_c_string(action.name);
    law_optional_c_string(action.description);
    law_optional_c_string(action.format_provider);
    law_strings(action.partition_columns, action.partition_columns_len);
    law_strings(action.configuration_keys, action.configuration_len);
    law_strings(action.configuration_values, action.configuration_len);
    if let Ok(cell) = action.cell(schema_json) {
        table::lemma_log_entry_accepts(Cell::Null, cell);
    }
}

/// The row of a metadata action holds the caller's values: the bytes of the id, of the name and of
/// the description, or null where these were not given; the bytes of the format provider, or
/// `parquet`, and no format options; the JSON text of the schema; each partition column with its
/// bytes and in its place; the created time, or null where it was not given; and each
/// configuration key with its bytes, in its place and with the bytes of the value at that place.
/// Its protocol is null.
pub proof fn law_metadata_row(action: MetadataActionSimple, schema_json: Seq<char>)
    requires
        action.complete(),
        action.table(schema::log_schema_model(), schema_json) is Ok,
    ensures
        is_one_row(action.table(schema::log_schema_model(), schema_json)->Ok_0, 2),
        ({
            let columns = action.table(schema::log_schema_model(), schema_json)->Ok_0.columns;
            let cells = columns[1][0]->Record_0;
            &&& columns[0][0] is Null
            &&& columns[1][0] is Record
            &&& cells.len() == 8
            &&& is_text(cells[0], action.id@)
            &&& is_optional_text(cells[1], action.name)
            &&& is_optional_text(cells[2], action.description)
            &&& cells[3] is Record
            &&& cells[3]->Record_0.len() == 2
            &&& match action.format_provider {
                Some(provider) => is_text(cells[3]->Record_0[0], provider@),
                None => cells[3]->Record_0[0] == Cell::Text("parquet"@),
            }
            &&& cells[3]->Record_0[1] is Entries
            &&& cells[3]->Record_0[1]->Entries_0.len() == 0
            &&& cells[4] == Cell::Text(schema_json)
            &&& is_text_list(cells[5], action.partition_columns, action.partition_columns_len)
            &&& match action.created_time {
                Some(time) => cells[6] == Cell::Int64(time),
                None => cells[6] is Null,
            }
            &&& cells[7] is Entries
            &&& cells[7]->Entries_0.len() == action.configuration_len
            &&& forall|i: int|
                0 <= i < action.configuration_len ==> {
                    &&& encode_utf8((#[trigger] cells[7]->Entries_0[i]).0)
                        == action.configuration_keys->Some_0@[i].bytes@
                    &&& encode_utf8(cells[7]->Entries_0[i].1)
                        == action.configuration_values->Some_0@[i].bytes@
                }
        }),
{
    law_metadata_accepted(action, schema_json);
    law_c_string(action.id@);
    law_optional_c_string(action.name);
    law_optional_c_string(action.description);
    law_optional_c_string(action.format_provider);
    law_strings(action.partition_columns, action.partition_columns_len);
    law_strings(action.configuration_keys, action.configuration_len);
    law_strings(action.configuration_values, action.configuration_len);
    table::lemma_log_entry_accepts(Cell::Null, action.cell(schema_json)->Ok_0);
    let keys = text::strings_text(action.configuration_keys, action.configuration_len)->Ok_0;
    let values = text::strings_text(action.configuration_values, action.configuration_len)->Ok_0;
    assert forall|i: int| 0 <= i < action.configuration_len implies {
        &&& encode_utf8((#[trigger] keys.zip_with(values)[i]).0)
            == action.configuration_keys->Some_0@[i].bytes@
        &&& encode_utf8(keys.zip_with(values)[i].1)
            == action.configuration_values->Some_0@[i].bytes@
    } by {
        assert(encode_utf8(keys[i]) == action.configuration_keys->Some_0@[i].bytes@);
        assert(encode_utf8(values[i]) == action.configuration_values->Some_0@[i].bytes@);
    }
}

/// The arrays of an action are there in full if each is null or long enough.
pub proof fn law_actions_complete(protocol: ProtocolActionSimple, metadata: MetadataActionSimple)
    ensures
        protocol.complete() <==> {
            &&& protocol.reader_features is Some ==> protocol.reader_features_len
                <= protocol.reader_features->Some_0@.len()
            &&& protocol.writer_features is Some ==> protocol.writer_features_len
                <= protocol.writer_features->Some_0@.len()
        },
        metadata.complete() <==> {
            &&& metadata.partition_columns is Some ==> metadata.partition_columns_len
                <= metadata.partition_columns->Some_0@.len()
            &&& metadata.configuration_keys is Some ==> metadata.configuration_len
                <= metadata.configuration_keys->Some_0@.len()
            &&& metadata.configuration_values is Some ==> metadata.configuration_len
                <= metadata.configuration_values->Some_0@.len()
        },
{
}

/// An action that is there in full can be turned into a log entry, or is refused, unless one of
/// its strings or arrays is beyond 32-bit offsets.
pub proof fn law_small_actions_fit(protocol: ProtocolActionSimple, metadata: MetadataActionSimple)
    requires
        protocol.complete(),
        metadata.complete(),
    ensures
        protocol.small() <==> {
            &&& text::strings_small(protocol.reader_features, protocol.reader_features_len)
            &&& text::strings_small(protocol.writer_features, protocol.writer_features_len)
        },
        protocol.fits() <==> (protocol.small() || protocol.table(
            schema::log_schema_model(),
        ) is Err),
        metadata.small() <==> {
            &&& metadata.id@.len() <= i32::MAX
            &&& metadata.name is Some ==> metadata.name->Some_0@.len() <= i32::MAX
            &&& metadata.description is Some ==> metadata.description->Some_0@.len() <= i32::MAX
            &&& metadata.format_provider is Some ==> metadata.format_provider->Some_0@.len()
                <= i32::MAX
            &&& text::strings_small(metadata.partition_columns, metadata.partition_columns_len)
            &&& text::strings_small(metadata.configuration_keys, metadata.configuration_len)
            &&& text::strings_small(metadata.configuration_values, metadata.configuration_len)
        },
        metadata.fits() <==> (metadata.small() || !readable_metadata(metadata)),
{
    law_protocol_accepted(protocol);
    law_metadata_accepted(metadata, Seq::empty());
    if let Ok(cell) = protocol.cell() {
        table::lemma_log_entry_accepts(cell, Cell::Null);
    }
}

/// An entry is made under any schema of two columns with the types of a protocol and a metadata
/// action, in this order, of which the one that stays null may be null. Its row does not depend on
/// the schema. Under every other schema Arrow refuses the entry.
pub proof fn law_entry_under_a_schema(
    protocol: ProtocolActionSimple,
    metadata: MetadataActionSimple,
    schema_json: Seq<char>,
    schema: SchemaModel,
)
    ensures
        ({
            let own = protocol.table(schema::log_schema_model());
            let other = protocol.table(schema);
            let accepts = {
                &&& schema.fields.len() == 2
                &&& schema.fields[0].data_type == schema::log_model()[0].data_type
                &&& schema.fields[1].data_type == schema::log_model()[1].data_type
                &&& schema.fields[1].nullable
            };
            &&& own is Err ==> other == own
            &&& own is Ok && !accepts ==> other == Err::<Table, ErrorKind>(ErrorKind::Arrow)
            &&& own is Ok && accepts ==> other == Ok::<Table, ErrorKind>(
                (Table { schema, columns: own->Ok_0.columns }),
            )
        }),
        ({
            let own = metadata.table(schema::log_schema_model(), schema_json);
            let other = metadata.table(schema, schema_json);
            let accepts = {
                &&& schema.fields.len() == 2
                &&& schema.fields[0].data_type == schema::log_model()[0].data_type
                &&& schema.fields[1].data_type == schema::log_model()[1].data_type
                &&& schema.fields[0].nullable
            };
            &&& own is Err ==> other == own
            &&& own is Ok && !accepts ==> other == Err::<Table, ErrorKind>(ErrorKind::Arrow)
            &&& own is Ok && accepts ==> other == Ok::<Table, ErrorKind>(
                (Table { schema, columns: own->Ok_0.columns }),
            )
        }),
{
    if let Ok(cell) = protocol.cell() {
        lemma_accepts(schema, cell, Cell::Null);
        lemma_accepts(schema::log_schema_model(), cell, Cell::Null);
    }
    if let Ok(cell) = metadata.cell(schema_json) {
        lemma_accepts(schema, Cell::Null, cell);
        lemma_accepts(schema::log_schema_model(), Cell::Null, cell);
    }
}

/// When a schema takes the entry of a protocol and a metadata value.
proof fn lemma_accepts(schema: SchemaModel, protocol: Cell, metadata: Cell)
    ensures
        table::log_entry(schema, protocol, metadata) is Ok <==> {
            &&& schema.fields.len() == 2
            &&& schema.fields[0].data_type == schema::log_model()[0].data_type
            &&& schema.fields[1].data_type == schema::log_model()[1].data_type
            &&& protocol is Null ==> schema.fields[0].nullable
            &&& metadata is Null ==> schema.fields[1].nullable
        },
{
    let columns = model::one_row_columns(seq![protocol, metadata]);
    assert(columns.len() == 2);
    assert(columns[0][0] == protocol && columns[1][0] == metadata);
    let types = table::log_types();
    assert(types[0] == schema::log_model()[0].data_type);
    assert(types[1] == schema::log_model()[1].data_type);
    if model::columns_match(schema.fields, types, columns, 1) {
        assert(types[0] == schema.fields[0].data_type);
        assert(types[1] == schema.fields[1].data_type);
    }
}

// The first commit.

/// The log entries of a new table are that of its protocol and that of its metadata, in this
/// order. Where one is refused the table is, for the protocol's error first.
pub proof fn law_initial_tables(
    schema_json: Seq<char>,
    protocol: ProtocolActionSimple,
    metadata: MetadataActionSimple,
)
    ensures
        match table::initial_tables(schema_json, protocol, metadata) {
            Ok(tables) => {
                &&& tables.len() == 2
                &&& protocol.table(schema::log_schema_model()) == Ok::<Table, ErrorKind>(tables[0])
                &&& metadata.table(schema::log_schema_model(), schema_json) == Ok::<
                    Table,
                    ErrorKind,
                >(tables[1])
            },
            Err(e) => {
                ||| protocol.table(schema::log_schema_model()) == Err::<Table, ErrorKind>(e)
                ||| protocol.table(schema::log_schema_model()) is Ok && metadata.table(
                    schema::log_schema_model(),
                    schema_json,
                ) == Err::<Table, ErrorKind>(e)
            },
        },
{
}

/// A new table is refused for its root first, then for its columns, then for its actions. Else its
/// commit goes to the URL of the first commit and holds its log entries, with the JSON text of its
/// columns; there is none if and only if the actions or that text are beyond 32-bit offsets.
pub proof fn law_initial_commit_parts(
    root: Seq<char>,
    fields: Option<Vec<SimpleField>>,
    fields_len: usize,
    protocol: ProtocolActionSimple,
    metadata: MetadataActionSimple,
)
    ensures
        ({
            let commit = table::initial_commit(root, fields, fields_len, protocol, metadata);
            let path = location::commit_text(root);
            let columns = schema::table_fields(fields, fields_len);
            let json = kernel::schema_json(columns->Ok_0);
            let tables = table::initial_tables(json, protocol, metadata);
            let fits = encode_utf8(json).len() <= i32::MAX && protocol.small() && metadata.small();
            &&& path is Err ==> commit == Some(Err::<CommitModel, ErrorKind>(path->Err_0))
            &&& path is Ok && columns is Err ==> commit == Some(
                Err::<CommitModel, ErrorKind>(columns->Err_0),
            )
            &&& path is Ok && columns is Ok && tables is Err ==> commit == Some(
                Err::<CommitModel, ErrorKind>(tables->Err_0),
            )
            &&& path is Ok && columns is Ok && tables is Ok && !fits ==> commit is None
            &&& path is Ok && columns is Ok && tables is Ok && fits ==> {
                &&& commit matches Some(Ok(_))
                &&& commit->Some_0->Ok_0.path == path->Ok_0
                &&& commit->Some_0->Ok_0.actions == tables->Ok_0
            }
        }),
{
}

/// A slash is put at the end of a text if and only if there is none.
pub proof fn law_slash_ended(text: Seq<char>)
    ensures
        location::slash_ended(text).last() == '/',
        text.len() > 0 && text.last() == '/' ==> location::slash_ended(text) == text,
        !(text.len() > 0 && text.last() == '/') ==> {
            &&& location::slash_ended(text).len() == text.len() + 1
            &&& location::slash_ended(text).drop_last() == text
        },
{
    assert(text.push('/').drop_last() =~= text);
}

/// The first commit of a table is the file of version 0 in the directory `_delta_log`, resolved
/// against what the table's root parses to with a slash at its end.
pub proof fn law_commit_file(root: Seq<char>, base: Seq<char>)
    ensures
        location::commit_file() == "_delta_log/00000000000000000000.json"@,
        location::url_parsed(location::slash_ended(root)) matches Err(e)
            ==> location::commit_text(root) == Err::<Seq<char>, ErrorKind>(ErrorKind::Root(e)),
        location::url_parsed(location::slash_ended(root)) == Ok::<Seq<char>, url::ParseError>(base)
            ==> match location::url_joined(base, "_delta_log/00000000000000000000.json"@) {
            Ok(text) => location::commit_text(root) == Ok::<Seq<char>, ErrorKind>(text),
            Err(e) => location::commit_text(root) == Err::<Seq<char>, ErrorKind>(
                ErrorKind::Commit(e),
            ),
        },
{
    location::lemma_commit_file();
}

// Views.

/// Contracts tell every kind of error apart, and with it what a decoder or the URL parser said.
pub proof fn law_errors_are_told_apart(error: SimpleError)
    ensures
        error is CString <==> error@ is CString,
        error is Utf8 <==> error@ is Utf8,
        error is NullStrings <==> error@ is NullStrings,
        error is NullFields <==> error@ is NullFields,
        error is ConfigurationLengths <==> error@ is ConfigurationLengths,
        error is Size <==> error@ is Size,
        error is Root <==> error@ is Root,
        error is Commit <==> error@ is Commit,
        error is Json <==> error@ is Json,
        error is Arrow <==> error@ is Arrow,
        error is Utf8 ==> error@->Utf8_0 == error->Utf8_0,
        error is Root ==> error@->Root_0 == error->Root_0,
        error is Commit ==> error@->Commit_0 == error->Commit_0,
{
}

/// An error that this library words has its own words, and no other error has any.
pub proof fn law_messages(error: SimpleError)
    ensures
        error is CString ==> error::message_text(error@) == Some(
            "Failed to convert path to string"@,
        ),
        error is NullStrings ==> error::message_text(error@) == Some(
            "received null pointer for string slice array"@,
        ),
        error is NullFields ==> error::message_text(error@) == Some(
            "simple schema pointer must not be null when field count is non-zero"@,
        ),
        error is ConfigurationLengths ==> error::message_text(error@) == Some(
            "configuration keys and values arrays must have the same length"@,
        ),
        error is Size ==> error::message_text(error@) == Some("Failed to convert size to i64"@),
        error is Root ==> error::message_text(error@) == Some("failed to normalize table root"@),
        error is Commit ==> error::message_text(error@) == Some("failed to resolve commit file"@),
        error is Utf8 || error is Json || error is Arrow ==> error::message_text(error@) is None,
{
}

/// A batch is seen with its schema and its columns, a commit with the text of its URL and its
/// actions in their order, and a transaction with what is staged on it.
pub proof fn law_views(batch: ArrowEngineData, commit: InitialCommit, txn: Transaction)
    ensures
        arrow::batch_table(batch).schema == arrow::batch_schema(batch),
        arrow::batch_table(batch).columns == arrow::batch_columns(batch),
        commit@.path == location::url_text(commit.commit_path),
        commit@.actions.len() == commit.actions@.len(),
        forall|i: int|
            0 <= i < commit.actions@.len() ==> #[trigger] commit@.actions[i]
                == arrow::batch_table(commit.actions@[i]),
        file::staged(txn).adds == kernel::staged_adds(txn),
        file::staged(txn).removes == kernel::staged_removes(txn),
        file::staged(txn).rest == kernel::transaction_rest(txn),
{
}

} // verus!
