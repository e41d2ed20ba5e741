use delta_kernel::arrow::datatypes::DataType;
use delta_kernel::schema::{PrimitiveType, StructType};
use delta_simple::error::SimpleError;
use delta_simple::schema::{
    build_struct_type_from_simple_fields, map_simple_type, string_map_data_type, SimpleField,
    SimpleType,
};
use delta_simple::text::KernelStringSlice;

fn field(name: &[u8], ty: SimpleType, nullable: bool) -> SimpleField {
    SimpleField { name: KernelStringSlice { bytes: name.to_vec() }, ty, nullable }
}

fn json_of(fields: Option<Vec<SimpleField>>, len: usize) -> String {
    serde_json::to_string(&build_struct_type_from_simple_fields(&fields, len).unwrap()).unwrap()
}

#[test]
fn simple_types_map_to_primitive_types() {
    assert_eq!(map_simple_type(SimpleType::Boolean), PrimitiveType::Boolean);
    assert_eq!(map_simple_type(SimpleType::Int32), PrimitiveType::Integer);
    assert_eq!(map_simple_type(SimpleType::Int64), PrimitiveType::Long);
    assert_eq!(map_simple_type(SimpleType::Float64), PrimitiveType::Double);
    assert_eq!(map_simple_type(SimpleType::Utf8), PrimitiveType::String);
}

#[test]
fn columns_keep_their_order() {
    let fields = vec![
        field(b"b", SimpleType::Utf8, true),
        field(b"a", SimpleType::Float64, false),
        field(b"c", SimpleType::Boolean, true),
    ];
    assert_eq!(
        json_of(Some(fields), 3),
        concat_json(&[
            r#"{"name":"b","type":"string","nullable":true,"metadata":{}}"#,
            r#"{"name":"a","type":"double","nullable":false,"metadata":{}}"#,
            r#"{"name":"c","type":"boolean","nullable":true,"metadata":{}}"#,
        ])
    );
}

fn concat_json(fields: &[&str]) -> String {
    format!(r#"{{"type":"struct","fields":[{}]}}"#, fields.join(","))
}

#[test]
fn the_last_column_of_a_name_stands() {
    let fields = vec![
        field(b"a", SimpleType::Int32, true),
        field(b"b", SimpleType::Int64, true),
        field(b"a", SimpleType::Utf8, false),
    ];
    assert_eq!(
        json_of(Some(fields), 3),
        concat_json(&[
            r#"{"name":"a","type":"string","nullable":false,"metadata":{}}"#,
            r#"{"name":"b","type":"long","nullable":true,"metadata":{}}"#,
        ])
    );
}

#[test]
fn names_are_escaped() {
    let fields = vec![field("a\"b\\\n\u{1}ü".as_bytes(), SimpleType::Int32, true)];
    assert_eq!(
        json_of(Some(fields), 1),
        concat_json(&[
            r#"{"name":"a\"b\\\n\u0001ü","type":"integer","nullable":true,"metadata":{}}"#,
        ])
    );
}

#[test]
fn no_columns_are_an_empty_schema() {
    assert_eq!(json_of(None, 0), concat_json(&[]));
    assert_eq!(json_of(Some(vec![field(b"a", SimpleType::Int32, true)]), 0), concat_json(&[]));
}

#[test]
fn null_columns_are_refused() {
    let error = build_struct_type_from_simple_fields(&None, 1).err().unwrap();
    assert!(matches!(error, SimpleError::NullFields));
    assert_eq!(
        error.message(),
        Some("simple schema pointer must not be null when field count is non-zero")
    );
}

#[test]
fn a_name_that_is_not_utf8_is_refused() {
    let fields = Some(vec![
        field(b"a", SimpleType::Int32, true),
        field(&[0xff], SimpleType::Int32, true),
    ]);
    let result = build_struct_type_from_simple_fields(&fields, 2);
    assert!(matches!(result, Err(SimpleError::Utf8(_))));
    assert!(build_struct_type_from_simple_fields(&fields, 1).is_ok());
}

#[test]
fn the_first_name_that_fails_is_reported() {
    let fields = Some(vec![
        field(b"abc\xff", SimpleType::Int32, true),
        field(b"\xff", SimpleType::Int32, true),
    ]);
    let Err(SimpleError::Utf8(error)) = build_struct_type_from_simple_fields(&fields, 2) else {
        panic!("not refused")
    };
    assert_eq!(error.valid_up_to(), 3);
}

#[test]
fn the_text_of_a_schema_is_read_back() {
    let fields = Some(vec![
        field("a\"b\\\n\u{1}\u{1f}\u{8}\u{c}\r\t/ü".as_bytes(), SimpleType::Int32, true),
        field(b"", SimpleType::Boolean, false),
        field(b"},{", SimpleType::Int64, true),
        field(b"]}", SimpleType::Float64, false),
        field(b"s", SimpleType::Utf8, true),
    ]);
    let schema = build_struct_type_from_simple_fields(&fields, 5).unwrap();
    let text = serde_json::to_string(&schema).unwrap();
    let read: StructType = serde_json::from_str(&text).unwrap();
    assert_eq!(read, schema);
    assert!(text.contains(r#""name":"a\"b\\\n\u0001\u001f\b\f\r\t/ü","type":"integer""#));
}

#[test]
fn maps_have_text_keys_and_values() {
    for nullable in [false, true] {
        let DataType::Map(entry, sorted) = string_map_data_type(nullable) else {
            panic!("not a map")
        };
        assert!(!sorted);
        assert_eq!(entry.name(), "entries");
        assert!(!entry.is_nullable());
        let DataType::Struct(parts) = entry.data_type() else { panic!("not a struct") };
        assert_eq!(parts.len(), 2);
        assert_eq!(parts[0].name(), "key");
        assert_eq!(parts[0].data_type(), &DataType::Utf8);
        assert!(!parts[0].is_nullable());
        assert_eq!(parts[1].name(), "value");
        assert_eq!(parts[1].data_type(), &DataType::Utf8);
        assert_eq!(parts[1].is_nullable(), nullable);
    }
}
