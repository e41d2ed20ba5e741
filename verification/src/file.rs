//! Adding files to a table and removing files from it, one file at a time.
use delta_kernel::engine::arrow_data::ArrowEngineData;
use delta_kernel::transaction::Transaction;
use vstd::prelude::*;
use vstd::utf8::*;

use crate::arrow;
use crate::arrow::Column;
use crate::columns;
use crate::error::{ErrorKind, SimpleError};
use crate::kernel;
use crate::model;
use crate::model::{Cell, Table, TypeModel};
use crate::schema;
use crate::text;

verus! {

/// `String::from` on a character: the string of that one character.
#[verifier::external_body]
fn string_of_char(c: char) -> (string: String)
    ensures
        string@ == seq![c],
{
    String::from(c)
}

/// Where the rows that were deleted from a file are recorded.
pub struct DeletionVectorDescriptor {
    /// A single character to indicate how to access the deletion vector: `u`, `i` or `p`.
    pub storage_type: u8,
    /// A string that ended at a null byte.
    pub path_or_inline_dv: Vec<u8>,
    /// If absent, the offset is 0.
    pub offset: Option<i32>,
    pub size_in_bytes: i32,
    pub cardinality: i64,
}

/// A file to add.
pub struct AddFileActionMetadata {
    /// A string that ended at a null byte.
    pub path: Vec<u8>,
    pub size: u64,
    pub modification_time: i64,
    pub data_change: bool,
    pub num_records: i64,
    pub deletion_vector: Option<DeletionVectorDescriptor>,
}

/// A file to remove.
pub struct RemoveFileActionMetadata {
    /// A string that ended at a null byte.
    pub path: Vec<u8>,
    /// Milliseconds since epoch. If absent, 0.
    pub deletion_timestamp: Option<i64>,
    pub data_change: bool,
    /// If absent, false.
    pub extended_file_metadata: Option<bool>,
    /// Size in bytes. If absent, 0.
    pub size: Option<i64>,
    pub deletion_vector: Option<DeletionVectorDescriptor>,
}

impl DeletionVectorDescriptor {
    /// The struct value that describes the deletion vector, for the given text of its path.
    pub open spec fn cell(self, path_or_inline_dv: Seq<char>) -> Cell {
        Cell::Record(
            seq![
                Cell::Text(seq![self.storage_type as char]),
                Cell::Text(path_or_inline_dv),
                Cell::Int32(model::or_default(self.offset, 0)),
                Cell::Int32(self.size_in_bytes),
                Cell::Int64(self.cardinality),
            ],
        )
    }
}

/// The struct value for an optional deletion vector: null where there is none.
pub open spec fn deletion_vector_cell(descriptor: Option<DeletionVectorDescriptor>) -> Result<
    Cell,
    ErrorKind,
> {
    match descriptor {
        None => Ok(Cell::Null),
        Some(descriptor) => match text::c_string_text(descriptor.path_or_inline_dv@) {
            Ok(path) => Ok(descriptor.cell(path)),
            Err(e) => Err(e),
        },
    }
}

/// Whether an optional deletion vector is small enough for an Arrow column.
pub open spec fn deletion_vector_small(descriptor: Option<DeletionVectorDescriptor>) -> bool {
    descriptor matches Some(descriptor) ==> descriptor.path_or_inline_dv@.len() <= i32::MAX
}

/// The map value that holds no partition values.
pub open spec fn no_partitions_cell() -> Cell {
    Cell::Entries(Seq::<(Seq<char>, Seq<char>)>::empty())
}

impl AddFileActionMetadata {
    /// Whether the action is small enough for Arrow columns.
    pub open spec fn small(self) -> bool {
        &&& self.path@.len() <= i32::MAX
        &&& deletion_vector_small(self.deletion_vector)
    }

    /// Whether the action is small enough for Arrow columns, unless it is refused.
    pub open spec fn fits(self) -> bool {
        self.table() is Ok ==> self.small()
    }

    /// The row for the file, for the given text of its path and value of its deletion vector.
    pub open spec fn row(self, path: Seq<char>, deletion_vector: Cell) -> Seq<Cell> {
        seq![
            Cell::Text(path),
            no_partitions_cell(),
            Cell::Int64(self.size as i64),
            Cell::Int64(self.modification_time),
            Cell::Boolean(self.data_change),
            Cell::Record(seq![Cell::Int64(self.num_records)]),
            deletion_vector,
        ]
    }

    /// The table of one row that adds the file.
    pub open spec fn table(self) -> Result<Table, ErrorKind> {
        match text::c_string_text(self.path@) {
            Err(e) => Err(e),
            Ok(path) => if self.size > i64::MAX {
                Err(ErrorKind::Size)
            } else {
                match deletion_vector_cell(self.deletion_vector) {
                    Err(e) => Err(e),
                    Ok(deletion_vector) => Ok(
                        model::one_row(schema::add_schema_model(), self.row(path, deletion_vector)),
                    ),
                }
            },
        }
    }
}

impl RemoveFileActionMetadata {
    /// Whether the action is small enough for Arrow columns.
    pub open spec fn small(self) -> bool {
        &&& self.path@.len() <= i32::MAX
        &&& deletion_vector_small(self.deletion_vector)
    }

    /// Whether the action is small enough for Arrow columns, unless it is refused.
    pub open spec fn fits(self) -> bool {
        self.table() is Ok ==> self.small()
    }

    /// The row for the file, for the given text of its path and value of its deletion vector.
    pub open spec fn row(self, path: Seq<char>, deletion_vector: Cell) -> Seq<Cell> {
        seq![
            Cell::Text(path),
            Cell::Int64(model::or_default(self.deletion_timestamp, 0)),
            Cell::Boolean(self.data_change),
            Cell::Boolean(model::or_default(self.extended_file_metadata, false)),
            no_partitions_cell(),
            Cell::Int64(model::or_default(self.size, 0)),
            deletion_vector,
        ]
    }

    /// The table of one row that removes the file.
    pub open spec fn table(self) -> Result<Table, ErrorKind> {
        match text::c_string_text(self.path@) {
            Err(e) => Err(e),
            Ok(path) => match deletion_vector_cell(self.deletion_vector) {
                Err(e) => Err(e),
                Ok(deletion_vector) => Ok(
                    model::one_row(schema::remove_schema_model(), self.row(path, deletion_vector)),
                ),
            },
        }
    }
}

/// A character takes at most four bytes.
proof fn lemma_char_bytes(c: char)
    ensures
        encode_utf8(seq![c]).len() <= 4,
{
    assert(seq![c].drop_first() =~= Seq::<char>::empty());
    reveal_with_fuel(encode_utf8, 2);
}

/// Whether an optional deletion vector is small enough for an Arrow column.
pub fn check_deletion_vector_small(descriptor: &Option<DeletionVectorDescriptor>) -> (small: bool)
    ensures
        small == deletion_vector_small(*descriptor),
{
    match descriptor {
        None => true,
        Some(descriptor) => descriptor.path_or_inline_dv.len() <= i32::MAX as usize,
    }
}

/// Whether an optional deletion vector has a path that is not UTF-8.
fn deletion_vector_is_refused(descriptor: &Option<DeletionVectorDescriptor>) -> (refused: bool)
    ensures
        refused == deletion_vector_cell(*descriptor) is Err,
{
    match descriptor {
        None => false,
        Some(descriptor) => text::cloned_c_str(&descriptor.path_or_inline_dv).is_err(),
    }
}

/// A column with one struct value for an optional deletion vector.
pub fn deletion_vector_column(descriptor: &Option<DeletionVectorDescriptor>) -> (result: Result<
    Column,
    SimpleError,
>)
    requires
        deletion_vector_cell(*descriptor) is Ok ==> deletion_vector_small(*descriptor),
    ensures
        match result {
            Ok(column) => {
                &&& arrow::column_type(column) == TypeModel::StructOf(
                    schema::deletion_vector_model(),
                )
                &&& arrow::column_cells(column).len() == 1
                &&& deletion_vector_cell(*descriptor) == Ok::<Cell, ErrorKind>(
                    arrow::column_cells(column)[0],
                )
            },
            Err(e) => deletion_vector_cell(*descriptor) == Err::<Cell, ErrorKind>(e@),
        },
{
    match descriptor {
        Some(dv) => {
            let storage_type = string_of_char(dv.storage_type as char);
            proof {
                lemma_char_bytes(dv.storage_type as char);
            }
            let path = match text::cloned_c_str(&dv.path_or_inline_dv) {
                Ok(path) => path,
                Err(e) => {
                    return Err(e);
                },
            };
            proof {
                decode_utf8_encode_utf8(dv.path_or_inline_dv@);
            }
            let offset: i32 = match dv.offset {
                Some(offset) => offset,
                None => 0,
            };
            let arrays = vec![
                columns::one_text_column(storage_type),
                columns::one_text_column(path),
                columns::one_int32_column(offset),
                columns::one_int32_column(dv.size_in_bytes),
                columns::one_int64_column(dv.cardinality),
            ];
            let ghost cells = dv.cell(path@)->Record_0;
            proof {
                arrow::lemma_one_row(schema::deletion_vector_model(), arrays@, cells);
            }
            match arrow::struct_column(schema::deletion_vector_fields(), arrays, 1) {
                Ok(column) => Ok(column),
                Err(e) => Err(SimpleError::Arrow(e)),
            }
        },
        None => {
            proof {
                schema::lemma_known_types();
            }
            Ok(arrow::null_struct_column(schema::deletion_vector_fields(), 1))
        },
    }
}

impl AddFileActionMetadata {
    /// Whether the action is small enough for Arrow columns, unless it is refused.
    pub fn check_fits(&self) -> (fits: bool)
        ensures
            fits == self.fits(),
    {
        let small = self.path.len() <= i32::MAX as usize && check_deletion_vector_small(
            &self.deletion_vector,
        );
        small || text::cloned_c_str(&self.path).is_err() || self.size > i64::MAX as u64
            || deletion_vector_is_refused(&self.deletion_vector)
    }

    /// The batch of one row that adds the file. It has the schema that
    /// [`add_files_schema`](crate::schema::add_files_schema) gives for the transaction.
    pub fn as_record_batch(&self, txn: &Transaction) -> (result: Result<ArrowEngineData, SimpleError>)
        requires
            self.fits(),
        ensures
            match result {
                Ok(batch) => self.table() == Ok::<Table, ErrorKind>(arrow::batch_table(batch)),
                Err(e) => self.table() == Err::<Table, ErrorKind>(e@),
            },
    {
        let path_text = match text::cloned_c_str(&self.path) {
            Ok(path) => path,
            Err(e) => {
                return Err(e);
            },
        };
        let ghost path_view = path_text@;
        proof {
            decode_utf8_encode_utf8(self.path@);
        }
        if self.size > i64::MAX as u64 {
            return Err(SimpleError::Size);
        }
        let deletion_vector = match deletion_vector_column(&self.deletion_vector) {
            Ok(column) => column,
            Err(e) => {
                return Err(e);
            },
        };
        let path = columns::one_text_column(path_text);
        let partitions = match columns::no_partition_values() {
            Ok(column) => column,
            Err(e) => {
                return Err(e);
            },
        };
        let size = columns::one_int64_column(self.size as i64);
        let modification_time = columns::one_int64_column(self.modification_time);
        let data_change = columns::one_boolean_column(self.data_change);
        let stats_columns = vec![columns::one_int64_column(self.num_records)];
        proof {
            arrow::lemma_one_row(
                schema::stats_model(),
                stats_columns@,
                seq![Cell::Int64(self.num_records)],
            );
        }
        let stats = match arrow::struct_column(schema::stats_fields(), stats_columns, 1) {
            Ok(column) => column,
            Err(e) => {
                return Err(SimpleError::Arrow(e));
            },
        };
        let ghost dv_cell = arrow::column_cells(deletion_vector)[0];
        assert(arrow::column_cells(deletion_vector) =~= seq![dv_cell]);
        let add_schema = match schema::add_files_schema(txn) {
            Ok(add_schema) => add_schema,
            Err(e) => {
                return Err(e);
            },
        };
        let columns = vec![
            path,
            partitions,
            size,
            modification_time,
            data_change,
            stats,
            deletion_vector,
        ];
        proof {
            arrow::lemma_one_row(schema::add_model(), columns@, self.row(path_view, dv_cell));
        }
        match arrow::new_batch(add_schema, columns) {
            Ok(batch) => Ok(batch),
            Err(e) => Err(SimpleError::Arrow(e)),
        }
    }
}

impl RemoveFileActionMetadata {
    /// Whether the action is small enough for Arrow columns, unless it is refused.
    pub fn check_fits(&self) -> (fits: bool)
        ensures
            fits == self.fits(),
    {
        let small = self.path.len() <= i32::MAX as usize && check_deletion_vector_small(
            &self.deletion_vector,
        );
        small || text::cloned_c_str(&self.path).is_err()
            || deletion_vector_is_refused(&self.deletion_vector)
    }

    /// The batch of one row that removes the file. It has the schema of
    /// [`remove_files_schema`](crate::schema::remove_files_schema).
    pub fn as_record_batch(&self) -> (result: Result<ArrowEngineData, SimpleError>)
        requires
            self.fits(),
        ensures
            match result {
                Ok(batch) => self.table() == Ok::<Table, ErrorKind>(arrow::batch_table(batch)),
                Err(e) => self.table() == Err::<Table, ErrorKind>(e@),
            },
    {
        let path_text = match text::cloned_c_str(&self.path) {
            Ok(path) => path,
            Err(e) => {
                return Err(e);
            },
        };
        let ghost path_view = path_text@;
        proof {
            decode_utf8_encode_utf8(self.path@);
        }
        let deletion_vector = match deletion_vector_column(&self.deletion_vector) {
            Ok(column) => column,
            Err(e) => {
                return Err(e);
            },
        };
        let path = columns::one_text_column(path_text);
        let deletion_timestamp = columns::one_int64_column(
            match self.deletion_timestamp {
                Some(timestamp) => timestamp,
                None => 0,
            },
        );
        let data_change = columns::one_boolean_column(self.data_change);
        let extended_file_metadata = columns::one_boolean_column(
            match self.extended_file_metadata {
                Some(extended) => extended,
                None => false,
            },
        );
        let partition_values = match columns::no_partition_values() {
            Ok(column) => column,
            Err(e) => {
                return Err(e);
            },
        };
        let size = columns::one_int64_column(
            match self.size {
                Some(size) => size,
                None => 0,
            },
        );
        let ghost dv_cell = arrow::column_cells(deletion_vector)[0];
        assert(arrow::column_cells(deletion_vector) =~= seq![dv_cell]);
        let columns = vec![
            path,
            deletion_timestamp,
            data_change,
            extended_file_metadata,
            partition_values,
            size,
            deletion_vector,
        ];
        proof {
            arrow::lemma_one_row(schema::remove_model(), columns@, self.row(path_view, dv_cell));
        }
        match arrow::new_batch(schema::remove_files_schema(), columns) {
            Ok(batch) => Ok(batch),
            Err(e) => Err(SimpleError::Arrow(e)),
        }
    }
}

/// The file actions that were staged on a transaction, in order.
pub ghost struct Staged {
    /// The batches of files to add.
    pub adds: Seq<Table>,
    /// The batches of files to remove.
    pub removes: Seq<Table>,
    /// Whatever else the transaction holds, as a number.
    pub rest: int,
}

impl Staged {
    /// What is staged after a file to add; a file that is refused changes nothing.
    pub open spec fn with_add(self, metadata: AddFileActionMetadata) -> Staged {
        match metadata.table() {
            Ok(table) => Staged { adds: self.adds.push(table), ..self },
            Err(_) => self,
        }
    }

    /// What is staged after a file to remove; a file that is refused changes nothing.
    pub open spec fn with_remove(self, metadata: RemoveFileActionMetadata) -> Staged {
        match metadata.table() {
            Ok(table) => Staged { removes: self.removes.push(table), ..self },
            Err(_) => self,
        }
    }
}

/// What is staged on a transaction.
pub open spec fn staged(txn: Transaction) -> Staged {
    Staged {
        adds: kernel::staged_adds(txn),
        removes: kernel::staged_removes(txn),
        rest: kernel::transaction_rest(txn),
    }
}

/// Stages a file to add, and returns 0. A file that is refused leaves the transaction as it was.
///
/// The kernel's commit has no place for the columns `dataChange` and `deletionVector` of a file to
/// add, and refuses a transaction with such a batch. A caller who writes the action takes the batch
/// from [`AddFileActionMetadata::as_record_batch`].
pub fn add_file_simple(txn: &mut Transaction, metadata: &AddFileActionMetadata) -> (result: Result<
    u64,
    SimpleError,
>)
    requires
        metadata.fits(),
    ensures
        staged(*final(txn)) == staged(*old(txn)).with_add(*metadata),
        match result {
            Ok(code) => code == 0 && metadata.table() is Ok,
            Err(e) => {
                &&& metadata.table() == Err::<Table, ErrorKind>(e@)
                &&& *final(txn) == *old(txn)
            },
        },
{
    match metadata.as_record_batch(txn) {
        Ok(batch) => {
            kernel::add_files(txn, batch);
            Ok(0)
        },
        Err(e) => Err(e),
    }
}

/// Stages a file to remove, and returns 0. A file that is refused leaves the transaction as it
/// was.
///
/// The kernel's commit expects the rows of a scan for files to remove, and refuses a transaction
/// with a batch of this form. A caller who writes the action takes the batch from
/// [`RemoveFileActionMetadata::as_record_batch`].
pub fn remove_file_simple(txn: &mut Transaction, metadata: &RemoveFileActionMetadata) -> (result:
    Result<u64, SimpleError>)
    requires
        metadata.fits(),
    ensures
        staged(*final(txn)) == staged(*old(txn)).with_remove(*metadata),
        match result {
            Ok(code) => code == 0 && metadata.table() is Ok,
            Err(e) => {
                &&& metadata.table() == Err::<Table, ErrorKind>(e@)
                &&& *final(txn) == *old(txn)
            },
        },
{
    match metadata.as_record_batch() {
        Ok(batch) => {
            kernel::remove_files(txn, batch);
            Ok(0)
        },
        Err(e) => Err(e),
    }
}

} // verus!
