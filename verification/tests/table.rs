use delta_kernel::arrow::array::{
    Array, Int32Array, Int64Array, ListArray, MapArray, RecordBatch, StringArray, StructArray,
};
use delta_kernel::engine::arrow_data::ArrowEngineData;
use delta_kernel::schema::{PrimitiveType, StructField, StructType};
use delta_simple::error::SimpleError;
use delta_simple::schema::{
    format_fields, log_schema, metadata_fields, protocol_fields, remove_files_schema,
};
use delta_simple::table::{
    build_metadata_action, build_protocol_action, initial_actions, MetadataActionSimple,
    ProtocolActionSimple,
};
use delta_simple::text::KernelStringSlice;
use serde_json::to_string;

fn slice(text: &str) -> KernelStringSlice {
    KernelStringSlice { bytes: text.as_bytes().to_vec() }
}

#[test]
fn protocol_action_builder_creates_expected_row() {
    let reader_feature = String::from("delta");
    let reader_slices = vec![slice(reader_feature.as_str())];

    let action = ProtocolActionSimple {
        min_reader_version: 1,
        min_writer_version: 2,
        reader_features_len: reader_slices.len(),
        reader_features: Some(reader_slices),
        writer_features: None,
        writer_features_len: 0,
    };

    let schema = log_schema();
    let engine_data = build_protocol_action(schema.clone(), &action).expect("protocol action");
    let arrow_data =
        ArrowEngineData::try_from_engine_data(Box::new(engine_data)).expect("arrow data");
    let batch = arrow_data.record_batch();

    let protocol =
        batch.column(0).as_any().downcast_ref::<StructArray>().expect("protocol struct");
    let min_reader = protocol.column(0).as_any().downcast_ref::<Int32Array>().expect("min reader");
    assert_eq!(min_reader.value(0), 1);

    let reader_features =
        protocol.column(2).as_any().downcast_ref::<ListArray>().expect("reader features");
    assert!(!reader_features.is_null(0));
    let reader_values = reader_features.value(0);
    let reader_values =
        reader_values.as_any().downcast_ref::<StringArray>().expect("reader values");
    assert_eq!(reader_values.value(0), "delta");

    let metadata =
        batch.column(1).as_any().downcast_ref::<StructArray>().expect("metadata struct");
    assert!(metadata.is_null(0));
}

#[test]
fn metadata_action_builder_creates_expected_row() {
    let partition_slices = vec![slice("country"), slice("date")];
    let config_key_slices = vec![slice("delta.appendOnly")];
    let config_value_slices = vec![slice("true")];

    let metadata = MetadataActionSimple {
        id: b"table-id".to_vec(),
        name: None,
        description: None,
        partition_columns_len: partition_slices.len(),
        partition_columns: Some(partition_slices),
        configuration_len: config_key_slices.len(),
        configuration_keys: Some(config_key_slices),
        configuration_values: Some(config_value_slices),
        created_time: Some(123_i64),
        format_provider: None,
    };

    let schema = log_schema();
    let logical_schema =
        StructType::new_unchecked(vec![StructField::not_null("value", PrimitiveType::Long)]);
    let schema_json = to_string(&logical_schema).expect("schema json");
    let engine_data =
        build_metadata_action(schema.clone(), &metadata, &schema_json).expect("metadata action");
    let arrow_data =
        ArrowEngineData::try_from_engine_data(Box::new(engine_data)).expect("arrow data");
    let batch = arrow_data.record_batch();

    let protocol =
        batch.column(0).as_any().downcast_ref::<StructArray>().expect("protocol struct");
    assert!(protocol.is_null(0));

    let metadata_struct =
        batch.column(1).as_any().downcast_ref::<StructArray>().expect("metadata struct");
    assert!(!metadata_struct.is_null(0));

    let id_array =
        metadata_struct.column(0).as_any().downcast_ref::<StringArray>().expect("id array");
    assert_eq!(id_array.value(0), "table-id");

    let partition_columns =
        metadata_struct.column(5).as_any().downcast_ref::<ListArray>().expect("partition columns");
    let partition_values = partition_columns.value(0);
    let partition_values =
        partition_values.as_any().downcast_ref::<StringArray>().expect("partition values");
    assert_eq!(partition_values.value(0), "country");
    assert_eq!(partition_values.value(1), "date");

    let created_time_array =
        metadata_struct.column(6).as_any().downcast_ref::<Int64Array>().expect("created time");
    assert_eq!(created_time_array.value(0), 123);

    let configuration =
        metadata_struct.column(7).as_any().downcast_ref::<MapArray>().expect("configuration");
    assert_eq!(configuration.value_length(0), 1);
    let entries = configuration.value(0);
    let entries =
        entries.as_any().downcast_ref::<StructArray>().expect("configuration entries");
    let keys = entries.column(0).as_any().downcast_ref::<StringArray>().expect("config keys");
    let values = entries.column(1).as_any().downcast_ref::<StringArray>().expect("config values");
    assert_eq!(keys.value(0), "delta.appendOnly");
    assert_eq!(values.value(0), "true");
}

fn protocol(readers: Option<Vec<KernelStringSlice>>, readers_len: usize) -> ProtocolActionSimple {
    ProtocolActionSimple {
        min_reader_version: 3,
        min_writer_version: 7,
        reader_features: readers,
        reader_features_len: readers_len,
        writer_features: Some(vec![slice("deletionVectors"), slice("v2Checkpoint")]),
        writer_features_len: 2,
    }
}

fn metadata() -> MetadataActionSimple {
    MetadataActionSimple {
        id: b"table-id".to_vec(),
        name: Some(b"orders".to_vec()),
        description: Some("grün".as_bytes().to_vec()),
        partition_columns: None,
        partition_columns_len: 0,
        configuration_keys: Some(vec![slice("b"), slice("a"), slice("b")]),
        configuration_values: Some(vec![slice("1"), slice("2"), slice("")]),
        configuration_len: 3,
        created_time: None,
        format_provider: Some(b"orc".to_vec()),
    }
}

fn struct_at(batch: &RecordBatch, i: usize) -> StructArray {
    batch.column(i).as_any().downcast_ref::<StructArray>().unwrap().clone()
}

fn text_at(array: &StructArray, i: usize) -> String {
    array.column(i).as_any().downcast_ref::<StringArray>().unwrap().value(0).to_string()
}

fn list_at(array: &StructArray, i: usize) -> Vec<String> {
    let list = array.column(i).as_any().downcast_ref::<ListArray>().unwrap().value(0);
    let texts = list.as_any().downcast_ref::<StringArray>().unwrap();
    texts.iter().map(|text| text.unwrap().to_string()).collect()
}

fn pairs_at(array: &StructArray, i: usize) -> Vec<(String, String)> {
    let entries = array.column(i).as_any().downcast_ref::<MapArray>().unwrap().value(0);
    let keys = entries.column(0).as_any().downcast_ref::<StringArray>().unwrap();
    let values = entries.column(1).as_any().downcast_ref::<StringArray>().unwrap();
    (0..entries.len()).map(|i| (keys.value(i).to_string(), values.value(i).to_string())).collect()
}

#[test]
fn protocol_keeps_versions_and_features() {
    let action = protocol(Some(vec![slice("deletionVectors")]), 1);
    assert!(action.check_fits());
    let data = build_protocol_action(log_schema(), &action).unwrap();
    let batch = data.record_batch();
    assert_eq!(batch.num_rows(), 1);
    assert_eq!(batch.schema(), log_schema());
    let row = struct_at(batch, 0);
    assert!(!row.is_null(0));
    assert_eq!(row.column(0).as_any().downcast_ref::<Int32Array>().unwrap().value(0), 3);
    assert_eq!(row.column(1).as_any().downcast_ref::<Int32Array>().unwrap().value(0), 7);
    assert_eq!(list_at(&row, 2), vec!["deletionVectors"]);
    assert_eq!(list_at(&row, 3), vec!["deletionVectors", "v2Checkpoint"]);
    assert!(batch.column(1).is_null(0));
}

#[test]
fn no_features_are_null() {
    for action in [protocol(None, 0), protocol(Some(vec![]), 0), protocol(Some(vec![slice("x")]), 0)]
    {
        assert!(action.check_fits());
        let data = build_protocol_action(log_schema(), &action).unwrap();
        let row = struct_at(data.record_batch(), 0);
        assert!(row.column(2).is_null(0));
        assert!(!row.column(3).is_null(0));
    }
}

#[test]
fn slices_beyond_the_length_are_not_read() {
    let bad = KernelStringSlice { bytes: vec![0xff] };
    let action = protocol(Some(vec![slice("x"), bad]), 1);
    let data = build_protocol_action(log_schema(), &action).unwrap();
    assert_eq!(list_at(&struct_at(data.record_batch(), 0), 2), vec!["x"]);
}

#[test]
fn protocol_reports_the_first_error() {
    let bad = KernelStringSlice { bytes: vec![0xff] };
    let mut action = protocol(None, 2);
    action.writer_features = Some(vec![bad]);
    action.writer_features_len = 1;
    let error = build_protocol_action(log_schema(), &action).err().unwrap();
    assert!(matches!(error, SimpleError::NullStrings));
    assert_eq!(error.message(), Some("received null pointer for string slice array"));
    action.reader_features_len = 0;
    let error = build_protocol_action(log_schema(), &action).err().unwrap();
    assert!(matches!(error, SimpleError::Utf8(_)));
    assert_eq!(error.message(), None);
}

#[test]
fn metadata_keeps_every_value() {
    let action = metadata();
    assert!(action.check_fits());
    let data = build_metadata_action(log_schema(), &action, "{}").unwrap();
    let batch = data.record_batch();
    assert_eq!(batch.num_rows(), 1);
    assert_eq!(batch.schema(), log_schema());
    assert!(batch.column(0).is_null(0));
    let row = struct_at(batch, 1);
    assert_eq!(text_at(&row, 0), "table-id");
    assert_eq!(text_at(&row, 1), "orders");
    assert_eq!(text_at(&row, 2), "grün");
    let format = row.column(3).as_any().downcast_ref::<StructArray>().unwrap();
    assert_eq!(text_at(format, 0), "orc");
    assert_eq!(pairs_at(format, 1), vec![]);
    assert_eq!(text_at(&row, 4), "{}");
    assert_eq!(list_at(&row, 5), Vec::<String>::new());
    assert!(!row.column(5).is_null(0));
    assert!(row.column(6).is_null(0));
    let pair = |key: &str, value: &str| (key.to_string(), value.to_string());
    assert_eq!(pairs_at(&row, 7), vec![pair("b", "1"), pair("a", "2"), pair("b", "")]);
}

#[test]
fn absent_metadata_is_null_and_the_format_parquet() {
    let mut action = metadata();
    action.name = None;
    action.description = None;
    action.format_provider = None;
    action.configuration_keys = None;
    action.configuration_values = None;
    action.configuration_len = 0;
    let data = build_metadata_action(log_schema(), &action, "").unwrap();
    let row = struct_at(data.record_batch(), 1);
    assert!(row.column(1).is_null(0));
    assert!(row.column(2).is_null(0));
    let format = row.column(3).as_any().downcast_ref::<StructArray>().unwrap();
    assert_eq!(text_at(format, 0), "parquet");
    assert_eq!(text_at(&row, 4), "");
    assert_eq!(pairs_at(&row, 7), vec![]);
}

#[test]
fn a_format_named_parquet_is_the_default() {
    let mut named = metadata();
    named.format_provider = Some(b"parquet".to_vec());
    let mut unnamed = metadata();
    unnamed.format_provider = None;
    let named = build_metadata_action(log_schema(), &named, "{}").unwrap();
    let unnamed = build_metadata_action(log_schema(), &unnamed, "{}").unwrap();
    assert_eq!(named.record_batch(), unnamed.record_batch());
}

#[test]
fn metadata_reports_the_first_error() {
    let bad = || KernelStringSlice { bytes: vec![b'a', 0xc3] };
    let error_of = |action: &MetadataActionSimple| {
        build_metadata_action(log_schema(), action, "{}").err().unwrap()
    };
    let mut action = metadata();
    action.configuration_values = None;
    assert!(matches!(error_of(&action), SimpleError::NullStrings));
    action.configuration_keys = Some(vec![slice("x"), bad(), slice("y")]);
    assert!(matches!(error_of(&action), SimpleError::Utf8(_)));
    action.partition_columns_len = 1;
    assert!(matches!(error_of(&action), SimpleError::NullStrings));
    action.format_provider = Some(vec![0xff]);
    let error = error_of(&action);
    assert!(matches!(error, SimpleError::CString));
    assert_eq!(error.message(), Some("Failed to convert path to string"));
    for field in 0..3 {
        let mut action = metadata();
        match field {
            0 => action.id = vec![0x80],
            1 => action.name = Some(vec![0x80]),
            _ => action.description = Some(vec![0x80]),
        }
        assert!(matches!(error_of(&action), SimpleError::CString));
    }
}

#[test]
fn a_foreign_schema_is_refused() {
    let action = protocol(None, 0);
    let error = build_protocol_action(remove_files_schema(), &action).err().unwrap();
    assert!(matches!(error, SimpleError::Arrow(_)));
    let error = build_metadata_action(remove_files_schema(), &metadata(), "{}").err().unwrap();
    assert!(matches!(error, SimpleError::Arrow(_)));
}

#[test]
fn the_log_schema_is_the_expected_one() {
    let schema = log_schema();
    assert!(schema.metadata().is_empty());
    let names: Vec<_> = schema.fields().iter().map(|f| f.name().as_str()).collect();
    assert_eq!(names, vec!["protocol", "metaData"]);
    assert!(schema.fields().iter().all(|f| f.is_nullable()));
    let names: Vec<_> = protocol_fields().iter().map(|f| f.name().to_string()).collect();
    assert_eq!(
        names,
        vec!["minReaderVersion", "minWriterVersion", "readerFeatures", "writerFeatures"]
    );
    let flags: Vec<_> = metadata_fields().iter().map(|f| f.is_nullable()).collect();
    assert_eq!(flags, vec![false, true, true, false, false, false, true, false]);
    let names: Vec<_> = metadata_fields().iter().map(|f| f.name().to_string()).collect();
    assert_eq!(
        names,
        vec![
            "id",
            "name",
            "description",
            "format",
            "schemaString",
            "partitionColumns",
            "createdTime",
            "configuration"
        ]
    );
    let names: Vec<_> = format_fields().iter().map(|f| f.name().to_string()).collect();
    assert_eq!(names, vec!["provider", "options"]);
}

#[test]
fn actions_come_protocol_first() {
    let actions = initial_actions("{}", &protocol(None, 0), &metadata()).unwrap();
    assert_eq!(actions.len(), 2);
    assert!(!actions[0].record_batch().column(0).is_null(0));
    assert!(actions[0].record_batch().column(1).is_null(0));
    assert!(actions[1].record_batch().column(0).is_null(0));
    assert!(!actions[1].record_batch().column(1).is_null(0));
    let error = initial_actions("{}", &protocol(None, 1), &metadata()).err().unwrap();
    assert!(matches!(error, SimpleError::NullStrings));
}

#[test]
fn arrays_that_are_too_short_do_not_fit() {
    assert!(!protocol(Some(vec![slice("x")]), 2).check_fits());
    assert!(protocol(None, 2).check_fits());
    let mut action = metadata();
    action.configuration_len = 4;
    assert!(!action.check_fits());
}
