use vldb::duckdb_request::StatusCode;
use vldb::duckdb_stream::ChunkWriter;
use vldb::duckdb_values::{
    bound_params_from_parsed, duckdb_value_to_json, parse_bound_params, json_param_to_duck_value, params_json_is_blank,
    row_to_json, DuckParam, DuckValue, TimeUnit,
};
use vldb::json::Json;

#[test]
fn scalar_json_binds_parameters() {
    assert_eq!(json_param_to_duck_value(&Json::Int(-3)).unwrap(), DuckParam::BigInt(-3));
    assert_eq!(json_param_to_duck_value(&Json::UInt(5)).unwrap(), DuckParam::BigInt(5));
    assert_eq!(json_param_to_duck_value(&Json::UInt(u64::MAX)).unwrap(), DuckParam::UBigInt(u64::MAX));
    assert_eq!(
        json_param_to_duck_value(&Json::Str("x".to_string())).unwrap(),
        DuckParam::Text("x".to_string())
    );
    let err = json_param_to_duck_value(&Json::Array(vec![])).unwrap_err();
    assert_eq!(err.code, StatusCode::InvalidArgument);
    assert_eq!(err.message, "params_json only supports scalar JSON values (null, bool, number, string)");
}

#[test]
fn params_json_must_be_an_array_of_scalars() {
    let ok = bound_params_from_parsed(Ok(Json::Array(vec![Json::Null, Json::Bool(true)]))).unwrap();
    assert_eq!(ok, vec![DuckParam::Null, DuckParam::Boolean(true)]);
    let err = bound_params_from_parsed(Ok(Json::Object(vec![]))).unwrap_err();
    assert_eq!(err.message, "params_json must be a JSON array of scalar values");
    let err = bound_params_from_parsed(Err("EOF while parsing".to_string())).unwrap_err();
    assert_eq!(err.message, "params_json must be a JSON array of scalar values: EOF while parsing");
    let err = bound_params_from_parsed(Ok(Json::Array(vec![Json::Int(1), Json::Array(vec![])]))).unwrap_err();
    assert_eq!(err.message, "params_json only supports scalar JSON values (null, bool, number, string)");
    assert!(params_json_is_blank(" \n"));
    assert!(!params_json_is_blank("[]"));
}

#[test]
fn duckdb_values_become_json() {
    let v = duckdb_value_to_json(&DuckValue::HugeInt(-170141183460469231731687303715884105728));
    assert_eq!(v.as_str().map(|s| s.as_str()), Some("-170141183460469231731687303715884105728"));
    let t = duckdb_value_to_json(&DuckValue::Timestamp(TimeUnit::Millisecond, 42));
    assert_eq!(t.get("type").and_then(|x| x.as_str()).map(|s| s.as_str()), Some("timestamp_millisecond"));
    assert_eq!(t.get("value").and_then(|x| x.as_i64()), Some(42));
    let nan = duckdb_value_to_json(&DuckValue::Double(f64::NAN.to_bits()));
    assert_eq!(nan.as_str().map(|s| s.as_str()), Some("NaN"));
    let inf = duckdb_value_to_json(&DuckValue::Double(f64::NEG_INFINITY.to_bits()));
    assert_eq!(inf.as_str().map(|s| s.as_str()), Some("-inf"));
    let blob = duckdb_value_to_json(&DuckValue::Blob(vec![1, 255]));
    match blob {
        Json::Array(items) => assert_eq!(items.len(), 2),
        _ => panic!("a blob is an array of bytes"),
    }
    let row = row_to_json(&vec!["a".to_string(), "b".to_string()], vec![Json::Int(1), Json::Null]);
    assert_eq!(row.get("a").and_then(|x| x.as_i64()), Some(1));
    assert!(row.get("b").map(|x| x.is_null()).unwrap_or(false));
}

#[test]
fn chunk_writer_emits_full_chunks_and_keeps_the_rest() {
    let mut w = ChunkWriter::new(10);
    let data = vec![7u8; 65536 * 2 + 5];
    let chunks = w.write(&data);
    assert_eq!(chunks.len(), 2);
    assert!(chunks.iter().all(|c| c.len() == 65536));
    let rest = w.flush().unwrap();
    assert_eq!(rest.len(), 5);
    assert!(w.flush().is_none());
    let m = w.metrics();
    assert_eq!(m.emitted_chunks, 3);
    assert_eq!(m.emitted_bytes, 65536 * 2 + 5);
}

#[test]
fn chunk_stream_sends_every_byte_in_order() {
    let mut w = ChunkWriter::new(70_000);
    let writes: Vec<Vec<u8>> = vec![
        (0..50_000u32).map(|i| (i % 251) as u8).collect(),
        (0..100_000u32).map(|i| (i % 13) as u8).collect(),
        Vec::new(),
        (0..30_001u32).map(|i| (i % 7) as u8).collect(),
    ];
    let mut messages: Vec<Vec<u8>> = Vec::new();
    for buf in &writes {
        for chunk in w.write(buf) {
            assert_eq!(chunk.len(), 70_000);
            messages.push(chunk);
        }
    }
    if let Some(last) = w.flush() {
        messages.push(last);
    }
    assert!(messages.iter().all(|m| !m.is_empty()));
    assert_eq!(messages.concat(), writes.concat());
    assert_eq!(messages.len(), 3);
}

#[test]
fn params_json_text_binds_parameters() {
    assert!(parse_bound_params("  ").unwrap().is_empty());
    assert!(parse_bound_params("[]").unwrap().is_empty());
    let ps = parse_bound_params(r#"[1, "alpha", true, null, 18446744073709551615]"#).unwrap();
    assert_eq!(
        ps,
        vec![
            DuckParam::BigInt(1),
            DuckParam::Text("alpha".to_string()),
            DuckParam::Boolean(true),
            DuckParam::Null,
            DuckParam::UBigInt(u64::MAX),
        ]
    );
    let e = parse_bound_params("{\"a\": 1}").unwrap_err();
    assert_eq!(e.message, "params_json must be a JSON array of scalar values");
    let e = parse_bound_params("[1,").unwrap_err();
    assert_eq!(e.code, StatusCode::InvalidArgument);
    assert!(e.message.starts_with("params_json must be a JSON array of scalar values: "));
    let e = parse_bound_params("[[1]]").unwrap_err();
    assert_eq!(e.message, "params_json only supports scalar JSON values (null, bool, number, string)");
}
