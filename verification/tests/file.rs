use delta_kernel::arrow::array::{
    Array, BooleanArray, Int32Array, Int64Array, MapArray, RecordBatch, StringArray, StructArray,
};
use delta_kernel::arrow::datatypes::DataType;
use delta_kernel::engine::default::DefaultEngine;
use delta_kernel::committer::FileSystemCommitter;
use delta_kernel::transaction::Transaction;
use delta_kernel::{Engine, EngineData, FilteredEngineData, Snapshot};
use delta_simple::error::SimpleError;
use delta_simple::file::{
    AddFileActionMetadata, DeletionVectorDescriptor, RemoveFileActionMetadata,
};
use delta_simple::schema::{add_files_schema, deletion_vector_fields, remove_files_schema};
use delta_simple::table::{
    initialize_table_simple, MetadataActionSimple, ProtocolActionSimple,
};
use object_store::memory::InMemory;
use std::sync::Arc;
use url::Url;

fn new_transaction() -> Transaction {
    let engine = DefaultEngine::new(Arc::new(InMemory::new()));
    let root = Url::parse("memory:///table/").unwrap();
    let protocol = ProtocolActionSimple {
        min_reader_version: 1,
        min_writer_version: 2,
        reader_features: None,
        reader_features_len: 0,
        writer_features: None,
        writer_features_len: 0,
    };
    let metadata = MetadataActionSimple {
        id: b"id".to_vec(),
        name: None,
        description: None,
        partition_columns: None,
        partition_columns_len: 0,
        configuration_keys: None,
        configuration_values: None,
        configuration_len: 0,
        created_time: None,
        format_provider: None,
    };
    let commit =
        initialize_table_simple(&root, &None, 0, &protocol, &metadata).unwrap().unwrap();
    let actions = commit.actions.into_iter().map(|action| {
        Ok(FilteredEngineData::with_all_rows_selected(Box::new(action) as Box<dyn EngineData>))
    });
    engine.json_handler().write_json_file(&commit.commit_path, Box::new(actions), false).unwrap();
    let snapshot = Snapshot::builder_for(root).build(&engine).unwrap();
    snapshot.transaction(Box::new(FileSystemCommitter::new())).unwrap()
}

fn vector() -> DeletionVectorDescriptor {
    DeletionVectorDescriptor {
        storage_type: b'u',
        path_or_inline_dv: b"ab^-aqEH.-t@S}K{vb[*k^".to_vec(),
        offset: Some(4),
        size_in_bytes: 40,
        cardinality: 6,
    }
}

fn add(deletion_vector: Option<DeletionVectorDescriptor>) -> AddFileActionMetadata {
    AddFileActionMetadata {
        path: b"part-00000.parquet".to_vec(),
        size: 1024,
        modification_time: 1_700_000_000_000,
        data_change: true,
        num_records: 10,
        deletion_vector,
    }
}

fn remove(deletion_vector: Option<DeletionVectorDescriptor>) -> RemoveFileActionMetadata {
    RemoveFileActionMetadata {
        path: b"part-00000.parquet".to_vec(),
        deletion_timestamp: Some(1_700_000_000_001),
        data_change: false,
        extended_file_metadata: Some(true),
        size: Some(1024),
        deletion_vector,
    }
}

fn text_of(column: &dyn Array) -> String {
    column.as_any().downcast_ref::<StringArray>().unwrap().value(0).to_string()
}

fn int32_of(column: &dyn Array) -> i32 {
    column.as_any().downcast_ref::<Int32Array>().unwrap().value(0)
}

fn int64_of(column: &dyn Array) -> i64 {
    column.as_any().downcast_ref::<Int64Array>().unwrap().value(0)
}

fn boolean_of(column: &dyn Array) -> bool {
    column.as_any().downcast_ref::<BooleanArray>().unwrap().value(0)
}

fn struct_of(column: &dyn Array) -> StructArray {
    column.as_any().downcast_ref::<StructArray>().unwrap().clone()
}

fn entries_of(column: &dyn Array) -> i32 {
    let map = column.as_any().downcast_ref::<MapArray>().unwrap();
    assert!(!map.is_null(0));
    map.value_length(0)
}

fn add_batch(metadata: &AddFileActionMetadata) -> RecordBatch {
    assert!(metadata.check_fits());
    metadata.as_record_batch(&new_transaction()).unwrap().record_batch().clone()
}

fn remove_batch(metadata: &RemoveFileActionMetadata) -> RecordBatch {
    assert!(metadata.check_fits());
    metadata.as_record_batch().unwrap().record_batch().clone()
}

#[test]
fn an_added_file_is_one_row_of_its_schema() {
    let batch = add_batch(&add(None));
    assert_eq!(batch.num_rows(), 1);
    assert_eq!(batch.schema(), add_files_schema(&new_transaction()).unwrap());
    assert_eq!(text_of(batch.column(0)), "part-00000.parquet");
    assert_eq!(entries_of(batch.column(1)), 0);
    assert_eq!(int64_of(batch.column(2)), 1024);
    assert_eq!(int64_of(batch.column(3)), 1_700_000_000_000);
    assert!(boolean_of(batch.column(4)));
    assert_eq!(int64_of(struct_of(batch.column(5)).column(0)), 10);
    assert!(batch.column(6).is_null(0));
}

#[test]
fn a_removed_file_is_one_row_of_its_schema() {
    let batch = remove_batch(&remove(None));
    assert_eq!(batch.num_rows(), 1);
    assert_eq!(batch.schema(), remove_files_schema());
    assert_eq!(text_of(batch.column(0)), "part-00000.parquet");
    assert_eq!(int64_of(batch.column(1)), 1_700_000_000_001);
    assert!(!boolean_of(batch.column(2)));
    assert!(boolean_of(batch.column(3)));
    assert_eq!(entries_of(batch.column(4)), 0);
    assert_eq!(int64_of(batch.column(5)), 1024);
    assert!(batch.column(6).is_null(0));
}

#[test]
fn a_deletion_vector_is_recorded_alike() {
    let added = add_batch(&add(Some(vector())));
    let removed = remove_batch(&remove(Some(vector())));
    let cell = struct_of(added.column(6));
    assert!(!cell.is_null(0));
    assert_eq!(text_of(cell.column(0)), "u");
    assert_eq!(text_of(cell.column(1)), "ab^-aqEH.-t@S}K{vb[*k^");
    assert_eq!(int32_of(cell.column(2)), 4);
    assert_eq!(int32_of(cell.column(3)), 40);
    assert_eq!(int64_of(cell.column(4)), 6);
    assert_eq!(cell, struct_of(removed.column(6)));
}

#[test]
fn an_absent_offset_is_zero() {
    let mut absent = vector();
    absent.offset = None;
    let mut zero = vector();
    zero.offset = Some(0);
    assert_eq!(add_batch(&add(Some(absent))), add_batch(&add(Some(zero))));
}

#[test]
fn a_storage_type_is_one_character() {
    let mut descriptor = vector();
    descriptor.storage_type = 0xe9;
    let batch = add_batch(&add(Some(descriptor)));
    assert_eq!(text_of(struct_of(batch.column(6)).column(0)), "é");
}

#[test]
fn absent_values_of_a_removed_file_have_defaults() {
    let mut absent = remove(None);
    absent.deletion_timestamp = None;
    absent.extended_file_metadata = None;
    absent.size = None;
    let batch = remove_batch(&absent);
    assert_eq!(int64_of(batch.column(1)), 0);
    assert!(!batch.column(1).is_null(0));
    assert!(!boolean_of(batch.column(3)));
    assert_eq!(int64_of(batch.column(5)), 0);
}

#[test]
fn a_size_must_fit_a_signed_number() {
    let mut largest = add(None);
    largest.size = i64::MAX as u64;
    assert_eq!(int64_of(add_batch(&largest).column(2)), i64::MAX);
    let mut too_large = add(None);
    too_large.size = i64::MAX as u64 + 1;
    let error = too_large.as_record_batch(&new_transaction()).err().unwrap();
    assert!(matches!(error, SimpleError::Size));
    assert_eq!(error.message(), Some("Failed to convert size to i64"));
}

#[test]
fn the_first_error_is_reported() {
    let txn = new_transaction();
    let mut action = add(Some(vector()));
    action.size = u64::MAX;
    action.deletion_vector.as_mut().unwrap().path_or_inline_dv = vec![0xff];
    assert!(matches!(action.as_record_batch(&txn), Err(SimpleError::Size)));
    action.size = 0;
    assert!(matches!(action.as_record_batch(&txn), Err(SimpleError::CString)));
    action.size = u64::MAX;
    action.path = vec![0xff];
    assert!(matches!(action.as_record_batch(&txn), Err(SimpleError::CString)));
    let mut action = remove(Some(vector()));
    action.deletion_vector.as_mut().unwrap().path_or_inline_dv = vec![0xff];
    assert!(matches!(action.as_record_batch(), Err(SimpleError::CString)));
    action.deletion_vector = None;
    action.path = vec![0xff];
    assert!(matches!(action.as_record_batch(), Err(SimpleError::CString)));
}

#[test]
fn negative_numbers_are_kept() {
    let mut action = add(Some(vector()));
    action.modification_time = i64::MIN;
    action.num_records = -1;
    action.deletion_vector.as_mut().unwrap().offset = Some(i32::MIN);
    let batch = add_batch(&action);
    assert_eq!(int64_of(batch.column(3)), i64::MIN);
    assert_eq!(int64_of(struct_of(batch.column(5)).column(0)), -1);
    assert_eq!(int32_of(struct_of(batch.column(6)).column(2)), i32::MIN);
}

#[test]
fn file_schemas_have_the_expected_fields() {
    let add = add_files_schema(&new_transaction()).unwrap();
    let names: Vec<_> = add.fields().iter().map(|f| f.name().as_str()).collect();
    assert_eq!(
        names,
        vec![
            "path",
            "partitionValues",
            "size",
            "modificationTime",
            "dataChange",
            "stats",
            "deletionVector"
        ]
    );
    let flags: Vec<_> = add.fields().iter().map(|f| f.is_nullable()).collect();
    assert_eq!(flags, vec![false, false, false, false, false, true, true]);
    assert!(add.metadata().is_empty());
    let remove = remove_files_schema();
    assert!(remove.metadata().is_empty());
    let names: Vec<_> = remove.fields().iter().map(|f| f.name().as_str()).collect();
    assert_eq!(
        names,
        vec![
            "path",
            "deletionTimestamp",
            "dataChange",
            "extendedFileMetadata",
            "partitionValues",
            "size",
            "deletionVector"
        ]
    );
    assert_eq!(add.field(6), remove.field(6));
    assert_eq!(add.field(6).data_type(), &DataType::Struct(deletion_vector_fields().into()));
}
