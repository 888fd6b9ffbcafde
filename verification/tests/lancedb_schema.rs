use vldb::duckdb_request::StatusCode;
use vldb::json::Json;
use vldb::lancedb_schema::{
    build_array_for_field, build_arrow_schema, column_to_field, extract_field_value,
    json_rows_from_bytes, json_rows_to_columns, json_value_from_array, optional_trimmed, output_format_name,
    reads_json_rows, rows_as_json, rows_from_parsed, search_limit, table_ready_message,
    validate_create_table, validate_delete, validate_search, ColumnDef, ColumnType, ColumnValues,
    FieldSpec, FieldType, InputFormat, NumberValue, OutputFormat,
};

fn col(name: &str, t: ColumnType, dim: u32) -> ColumnDef {
    ColumnDef { name: name.to_string(), column_type: t, nullable: true, vector_dim: dim }
}

fn row(entries: Vec<(&str, Json)>) -> Json {
    Json::Object(entries.into_iter().map(|(k, v)| (k.to_string(), v)).collect())
}

#[test]
fn columns_make_fields() {
    let f = column_to_field(&col("v", ColumnType::VectorFloat32, 3)).unwrap();
    assert!(matches!(f.data_type, FieldType::VectorFloat32(3)));
    let err = column_to_field(&col("v", ColumnType::VectorFloat32, 0)).unwrap_err();
    assert_eq!(err.message, "vector column 'v' must have vector_dim > 0");
    let err = column_to_field(&col("c", ColumnType::Unspecified, 0)).unwrap_err();
    assert_eq!(err.message, "column 'c' has unspecified type");
    let err = build_arrow_schema(&vec![col("a", ColumnType::String, 0), col(" ", ColumnType::Int64, 0)]).unwrap_err();
    assert_eq!(err.message, "column name must not be empty");
    assert_eq!(build_arrow_schema(&vec![col("a", ColumnType::Bool, 0)]).unwrap().len(), 1);
}

#[test]
fn requests_are_checked() {
    assert_eq!(validate_create_table(" ", &vec![]).unwrap_err().message, "table_name must not be empty");
    assert_eq!(validate_create_table("t", &vec![]).unwrap_err().message, "columns must not be empty");
    assert_eq!(validate_search("t", 0).unwrap_err().message, "vector must not be empty");
    assert_eq!(validate_delete("t", "  ").unwrap_err().message, "condition must not be empty");
    assert!(validate_delete("t", "id = 1").is_ok());
    assert_eq!(search_limit(0), 10);
    assert_eq!(search_limit(3), 3);
    assert_eq!(optional_trimmed("  vec "), Some("vec".to_string()));
    assert_eq!(optional_trimmed(" "), None);
    assert_eq!(output_format_name(OutputFormat::JsonRows), "json");
    assert_eq!(output_format_name(OutputFormat::Unspecified), "arrow_ipc");
    assert!(reads_json_rows(InputFormat::Unspecified));
    assert!(!reads_json_rows(InputFormat::ArrowIpc));
    assert_eq!(table_ready_message("t"), "table 't' is ready");
    assert_eq!(rows_from_parsed(true, Err("x".to_string())).unwrap().len(), 0);
    assert_eq!(
        rows_from_parsed(false, Err("expected value".to_string())).unwrap_err().message,
        "failed to parse JSON rows, expected a JSON array of objects: expected value"
    );
}

#[test]
fn fields_of_json_rows() {
    let r = row(vec![("a", Json::Null), ("b", Json::Int(2))]);
    assert!(extract_field_value(&r, "a", true).unwrap().is_none());
    assert_eq!(extract_field_value(&r, "a", false).unwrap_err().message, "field 'a' is not nullable");
    assert_eq!(extract_field_value(&r, "c", false).unwrap_err().message, "field 'c' is missing and not nullable");
    assert_eq!(
        extract_field_value(&Json::Int(1), "a", true).unwrap_err().message,
        "JSON rows must be an array of JSON objects"
    );
}

#[test]
fn json_rows_fill_typed_columns() {
    let rows = vec![
        row(vec![("id", Json::Int(1)), ("v", Json::Array(vec![Json::Int(1), Json::Float(0.5f64.to_bits())]))]),
        row(vec![("id", Json::UInt(2)), ("v", Json::Null)]),
    ];
    match build_array_for_field(&rows, "id", &FieldType::Int32, false).unwrap() {
        ColumnValues::Int32(v) => assert_eq!(v, vec![Some(1), Some(2)]),
        _ => panic!("an int32 column"),
    }
    match build_array_for_field(&rows, "v", &FieldType::VectorFloat32(2), true).unwrap() {
        ColumnValues::VectorFloat32 { dim, rows } => {
            assert_eq!(dim, 2);
            assert_eq!(rows.len(), 2);
            assert!(rows[1].is_none());
        }
        _ => panic!("a vector column"),
    }
    let err = build_array_for_field(&rows, "v", &FieldType::VectorFloat32(3), true).unwrap_err();
    assert_eq!(err.message, "field 'v' length mismatch: expected 3, got 2");
    let err = build_array_for_field(&rows, "id", &FieldType::Utf8, true).unwrap_err();
    assert_eq!(err.message, "field 'id' must be a string");
    let big = vec![row(vec![("n", Json::Int(1 << 40))])];
    assert_eq!(
        build_array_for_field(&big, "n", &FieldType::Int32, true).unwrap_err().message,
        "field 'n' is out of int32 range"
    );
    let err = build_array_for_field(&rows, "id", &FieldType::Other("Date32".to_string()), true).unwrap_err();
    assert_eq!(err.code, StatusCode::InvalidArgument);
    assert_eq!(err.message, "unsupported field type for JSON ingestion on 'id': Date32");
    let schema = vec![FieldSpec { name: "id".to_string(), data_type: FieldType::UInt64, nullable: false }];
    assert_eq!(json_rows_to_columns(&rows, &schema).unwrap().len(), 1);
}

#[test]
fn columns_become_json_rows() {
    let floats = ColumnValues::Float64(vec![Some(NumberValue::Float(1.5f64.to_bits())), Some(NumberValue::Float(f64::NAN.to_bits())), None]);
    assert!(matches!(json_value_from_array(&floats, 0).unwrap(), Json::Float(b) if b == 1.5f64.to_bits()));
    assert!(matches!(json_value_from_array(&floats, 1).unwrap(), Json::Null));
    assert!(matches!(json_value_from_array(&floats, 2).unwrap(), Json::Null));
    let other = ColumnValues::Unsupported { kind_name: "Date32".to_string(), nulls: vec![true, false] };
    assert!(matches!(json_value_from_array(&other, 0).unwrap(), Json::Null));
    let err = json_value_from_array(&other, 1).unwrap_err();
    assert_eq!(err.code, StatusCode::Internal);
    assert_eq!(err.message, "unsupported output type for JSON encoding: Date32");
    let names = vec!["x".to_string(), "y".to_string()];
    let cols = vec![
        ColumnValues::Utf8(vec![Some("a".to_string())]),
        ColumnValues::Boolean(vec![Some(true)]),
    ];
    let out = rows_as_json(&names, &cols, 1).unwrap();
    assert_eq!(out.len(), 1);
    assert_eq!(out[0].get("y").and_then(|v| v.as_bool()), Some(true));
}

#[test]
fn written_cells_read_back() {
    let rows = vec![
        row(vec![("name", Json::Str("a".to_string())), ("score", Json::Float(2.25f64.to_bits()))]),
        row(vec![("name", Json::Null), ("score", Json::Int(7))]),
    ];
    let names = build_array_for_field(&rows, "name", &FieldType::Utf8, true).unwrap();
    assert!(matches!(json_value_from_array(&names, 0).unwrap(), Json::Str(s) if s == "a"));
    assert!(matches!(json_value_from_array(&names, 1).unwrap(), Json::Null));
    let scores = build_array_for_field(&rows, "score", &FieldType::Float64, true).unwrap();
    assert!(matches!(json_value_from_array(&scores, 0).unwrap(), Json::Float(b) if b == 2.25f64.to_bits()));
    assert!(matches!(json_value_from_array(&scores, 1).unwrap(), Json::Int(7)));
}

#[test]
fn ingested_rows_encode_back_to_the_same_rows() {
    let schema = vec![
        FieldSpec { name: "id".to_string(), data_type: FieldType::Int64, nullable: false },
        FieldSpec { name: "name".to_string(), data_type: FieldType::Utf8, nullable: true },
        FieldSpec { name: "count".to_string(), data_type: FieldType::UInt32, nullable: true },
        FieldSpec { name: "ok".to_string(), data_type: FieldType::Boolean, nullable: false },
    ];
    let rows = vec![
        row(vec![
            ("id", Json::Int(-4)),
            ("name", Json::Str("a".to_string())),
            ("count", Json::UInt(9)),
            ("ok", Json::Bool(true)),
        ]),
        row(vec![("id", Json::Int(5)), ("name", Json::Null), ("count", Json::Null), ("ok", Json::Bool(false))]),
    ];
    let columns = json_rows_to_columns(&rows, &schema).unwrap();
    let names: Vec<String> = schema.iter().map(|f| f.name.clone()).collect();
    let out = rows_as_json(&names, &columns, rows.len()).unwrap();
    let normalize = |j: &Json| format!("{:?}", j).replace("UInt(", "Int(");
    assert_eq!(out.iter().map(normalize).collect::<Vec<_>>(), rows.iter().map(normalize).collect::<Vec<_>>());
}

#[test]
fn request_data_parses_to_rows() {
    assert!(json_rows_from_bytes(b"").unwrap().is_empty());
    let rows = json_rows_from_bytes(br#"[{"id": 1}, {"id": 2, "name": "b"}]"#).unwrap();
    assert_eq!(rows.len(), 2);
    assert!(matches!(rows[1].get("name"), Some(Json::Str(s)) if s == "b"));
    let e = json_rows_from_bytes(br#"{"id": 1}"#).unwrap_err();
    assert_eq!(e.code, StatusCode::InvalidArgument);
    assert!(e.message.starts_with("failed to parse JSON rows, expected a JSON array of objects: "));
}
