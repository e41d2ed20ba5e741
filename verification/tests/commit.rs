use std::sync::Arc;

use delta_kernel::engine::default::executor::tokio::TokioBackgroundExecutor;
use delta_kernel::engine::default::DefaultEngine;
use delta_kernel::committer::FileSystemCommitter;
use delta_kernel::transaction::{CommitResult, Transaction};
use delta_kernel::{Engine, EngineData, FilteredEngineData, Snapshot};
use delta_simple::error::SimpleError;
use delta_simple::file::{
    add_file_simple, remove_file_simple, AddFileActionMetadata, DeletionVectorDescriptor,
    RemoveFileActionMetadata,
};
use delta_simple::schema::{SimpleField, SimpleType};
use delta_simple::table::{
    initialize_table_simple, InitialCommit, MetadataActionSimple, ProtocolActionSimple,
};
use delta_simple::text::KernelStringSlice;
use object_store::memory::InMemory;
use url::Url;

fn slice(text: &str) -> KernelStringSlice {
    KernelStringSlice { bytes: text.as_bytes().to_vec() }
}

fn protocol() -> ProtocolActionSimple {
    ProtocolActionSimple {
        min_reader_version: 1,
        min_writer_version: 2,
        reader_features: None,
        reader_features_len: 0,
        writer_features: None,
        writer_features_len: 0,
    }
}

fn metadata() -> MetadataActionSimple {
    MetadataActionSimple {
        id: b"table-id".to_vec(),
        name: None,
        description: None,
        partition_columns: None,
        partition_columns_len: 0,
        configuration_keys: Some(vec![slice("delta.appendOnly")]),
        configuration_values: Some(vec![slice("false")]),
        configuration_len: 1,
        created_time: Some(123),
        format_provider: None,
    }
}

fn fields() -> Option<Vec<SimpleField>> {
    Some(vec![
        SimpleField { name: slice("id"), ty: SimpleType::Int64, nullable: false },
        SimpleField { name: slice("value"), ty: SimpleType::Utf8, nullable: true },
    ])
}

fn root() -> Url {
    Url::parse("memory:///table/").unwrap()
}

fn new_engine() -> DefaultEngine<TokioBackgroundExecutor> {
    DefaultEngine::new(Arc::new(InMemory::new()))
}

fn write(engine: &dyn Engine, commit: InitialCommit) {
    let actions = commit.actions.into_iter().map(|action| {
        Ok(FilteredEngineData::with_all_rows_selected(Box::new(action) as Box<dyn EngineData>))
    });
    engine
        .json_handler()
        .write_json_file(&commit.commit_path, Box::new(actions), false)
        .unwrap();
}

fn read(engine: &dyn Engine, path: &str) -> String {
    let url = root().join(path).unwrap();
    let mut files = engine.storage_handler().read_files(vec![(url, None)]).unwrap();
    String::from_utf8(files.next().unwrap().unwrap().to_vec()).unwrap()
}

#[test]
fn the_first_commit_holds_protocol_and_metadata() {
    let engine = new_engine();
    let commit =
        initialize_table_simple(&root(), &fields(), 2, &protocol(), &metadata()).unwrap().unwrap();
    assert_eq!(
        commit.commit_path.as_str(),
        "memory:///table/_delta_log/00000000000000000000.json"
    );
    write(&engine, commit);
    let text = read(&engine, "_delta_log/00000000000000000000.json");
    let lines: Vec<_> = text.lines().collect();
    assert_eq!(
        lines,
        vec![
            r#"{"protocol":{"minReaderVersion":1,"minWriterVersion":2}}"#,
            concat_metadata().as_str(),
        ]
    );
}

fn concat_metadata() -> String {
    let schema = [
        r#"{\"type\":\"struct\",\"fields\":["#,
        r#"{\"name\":\"id\",\"type\":\"long\",\"nullable\":false,\"metadata\":{}},"#,
        r#"{\"name\":\"value\",\"type\":\"string\",\"nullable\":true,\"metadata\":{}}]}"#,
    ];
    let parts = [
        r#"{"metaData":{"id":"table-id","format":{"provider":"parquet","options":{}},"#,
        r#""schemaString":""#,
        &schema.concat(),
        r#"","partitionColumns":[],"createdTime":123,"#,
        r#""configuration":{"delta.appendOnly":"false"}}}"#,
    ];
    parts.concat()
}

#[test]
fn the_kernel_reads_the_new_table() {
    let engine = new_engine();
    let commit =
        initialize_table_simple(&root(), &fields(), 2, &protocol(), &metadata()).unwrap().unwrap();
    write(&engine, commit);
    let snapshot = Snapshot::builder_for(root()).build(&engine).unwrap();
    assert_eq!(snapshot.version(), 0);
    let names: Vec<_> = snapshot.schema().fields().map(|f| f.name().to_string()).collect();
    assert_eq!(names, vec!["id", "value"]);
}

#[test]
fn a_new_table_reports_the_first_error() {
    let error_of = |root: &Url, fields: &Option<Vec<SimpleField>>, protocol, metadata| {
        initialize_table_simple(root, fields, 2, protocol, metadata).unwrap().err().unwrap()
    };
    let mut bad_protocol = protocol();
    bad_protocol.reader_features_len = 1;
    let mut bad_metadata = metadata();
    bad_metadata.id = vec![0xff];
    let opaque = Url::parse("mailto:someone").unwrap();
    let error = error_of(&opaque, &None, &bad_protocol, &bad_metadata);
    assert!(matches!(error, SimpleError::Commit(_)));
    let error = error_of(&root(), &None, &bad_protocol, &bad_metadata);
    assert!(matches!(error, SimpleError::NullFields));
    let error = error_of(&root(), &fields(), &bad_protocol, &bad_metadata);
    assert!(matches!(error, SimpleError::NullStrings));
    let error = error_of(&root(), &fields(), &protocol(), &bad_metadata);
    assert!(matches!(error, SimpleError::CString));
}

fn add(size: u64, cardinality: i64) -> AddFileActionMetadata {
    AddFileActionMetadata {
        path: b"part-0.parquet".to_vec(),
        size,
        modification_time: 5,
        data_change: true,
        num_records: 3,
        deletion_vector: Some(DeletionVectorDescriptor {
            storage_type: b'p',
            path_or_inline_dv: b"/dv.bin".to_vec(),
            offset: None,
            size_in_bytes: 8,
            cardinality,
        }),
    }
}

fn remove() -> RemoveFileActionMetadata {
    RemoveFileActionMetadata {
        path: b"part-0.parquet".to_vec(),
        deletion_timestamp: Some(4),
        data_change: true,
        extended_file_metadata: None,
        size: None,
        deletion_vector: None,
    }
}

fn new_transaction(engine: &dyn Engine) -> Transaction {
    let commit =
        initialize_table_simple(&root(), &fields(), 2, &protocol(), &metadata()).unwrap().unwrap();
    write(engine, commit);
    let snapshot = Snapshot::builder_for(root()).build(engine).unwrap();
    snapshot.transaction(Box::new(FileSystemCommitter::new())).unwrap()
}

#[test]
fn a_vector_is_attached_by_a_remove_and_an_add() {
    let engine = new_engine();
    let mut txn = new_transaction(&engine);
    assert_eq!(remove_file_simple(&mut txn, &remove()).unwrap(), 0);
    assert_eq!(add_file_simple(&mut txn, &add(77, 2)).unwrap(), 0);
}

#[test]
fn a_refused_file_is_not_staged() {
    let engine = new_engine();
    let mut txn = new_transaction(&engine);
    assert!(matches!(add_file_simple(&mut txn, &add(u64::MAX, 2)), Err(SimpleError::Size)));
    let mut bad = remove();
    bad.path = vec![0xff];
    assert!(matches!(remove_file_simple(&mut txn, &bad), Err(SimpleError::CString)));
    let result = txn.commit(&engine).unwrap();
    assert!(matches!(result, CommitResult::CommittedTransaction(_)));
    let text = read(&engine, "_delta_log/00000000000000000001.json");
    assert_eq!(text.lines().count(), 1);
    assert!(text.contains("commitInfo"));
}

#[test]
fn a_staged_add_reaches_the_kernel() {
    let engine = new_engine();
    let mut txn = new_transaction(&engine);
    assert_eq!(add_file_simple(&mut txn, &add(77, 2)).unwrap(), 0);
    // The kernel's commit has no place for all columns of the batch.
    assert!(txn.commit(&engine).is_err());
}

#[test]
fn a_staged_remove_reaches_the_kernel() {
    let engine = new_engine();
    let mut txn = new_transaction(&engine);
    assert_eq!(remove_file_simple(&mut txn, &remove()).unwrap(), 0);
    // The kernel's commit expects the rows of a scan.
    assert!(txn.commit(&engine).is_err());
}
