use wvm_bigquery::coerce::{bigquery_anyvalue_numeric_type, cell_text, coerce, Cell, WireValue};
use wvm_bigquery::compress::to_brotli;
use wvm_bigquery::config::{init_error, select_credentials, BigQueryConfig, BigQueryError, CredentialSource, GcpClientError};
use wvm_bigquery::decimal::{parse_u64, render_i128};
use wvm_bigquery::provision::{db_type_to_table_field_schema, plan_table_creation, provision_outcome, FieldKind, ProvisionAction};
use wvm_bigquery::rows::{build_bigquery_rowmap_vector, DataColumn, Dataset};
use wvm_bigquery::schema::{parse_logical_type, prepare_blockstate_table_config, state_table_schema, LogicalType, TableSchema};
use wvm_bigquery::state::{prepare_block_query, query_payload, state_row, ExecutionTipState};
use wvm_bigquery::text::{is_whitespace, trims_to_empty};

fn config(path: &str, json: &str) -> BigQueryConfig {
    BigQueryConfig {
        drop_tables: false,
        project_id: "proj".to_string(),
        dataset_id: "ds".to_string(),
        credentials_path: path.to_string(),
        credentials_json: json.to_string(),
    }
}

fn schema(cols: &[(&str, LogicalType)]) -> TableSchema {
    let mut s = TableSchema::new();
    for (n, t) in cols {
        s.insert(n.to_string(), *t);
    }
    s
}

fn text(w: &WireValue) -> Option<String> {
    match w {
        WireValue::Str(s) => Some(s.clone()),
        _ => None,
    }
}

fn number(w: &WireValue) -> Option<i128> {
    match w {
        WireValue::Number(n) => Some(*n),
        _ => None,
    }
}

#[test]
fn missing_credentials_fail_initialization() {
    let r = select_credentials(&config("", ""));
    assert!(matches!(r, Err(BigQueryError::MissingCredentials)));
    let r = select_credentials(&config("  ", "\t\n"));
    assert!(matches!(r, Err(BigQueryError::MissingCredentials)));
    assert!(matches!(init_error(BigQueryError::MissingCredentials), GcpClientError::MissingCredentials));
}

#[test]
fn inline_json_takes_priority_over_path() {
    match select_credentials(&config("/key.json", "{\"k\":1}")) {
        Ok(CredentialSource::Json(s)) => assert_eq!(s, "{\"k\":1}"),
        _ => panic!("expected inline credentials"),
    }
    match select_credentials(&config("/key.json", "   ")) {
        Ok(CredentialSource::KeyFile(p)) => assert_eq!(p, "/key.json"),
        _ => panic!("expected key file credentials"),
    }
}

#[test]
fn blank_detection() {
    assert!(trims_to_empty(""));
    assert!(trims_to_empty(" \t\r\n"));
    assert!(!trims_to_empty(" a "));
}

#[test]
fn row_record_for_int_and_string_columns() {
    let s = schema(&[("block_number", LogicalType::Int), ("name", LogicalType::Str)]);
    let df = Dataset {
        height: 1,
        columns: vec![
            DataColumn { name: "block_number".to_string(), cells: vec![Cell::Int64(42)] },
            DataColumn { name: "name".to_string(), cells: vec![Cell::Text("abc".to_string())] },
        ],
    };
    let rows = build_bigquery_rowmap_vector(&df, &s);
    assert_eq!(rows.len(), 1);
    let e = &rows[0].entries;
    assert_eq!(e.len(), 2);
    assert_eq!(e[0].column, "block_number");
    assert_eq!(number(&e[0].value), Some(42));
    assert_eq!(e[1].column, "name");
    assert_eq!(text(&e[1].value), Some("abc".to_string()));
}

#[test]
fn materialize_keeps_height_and_width() {
    let s = schema(&[("a", LogicalType::Int), ("b", LogicalType::Str), ("c", LogicalType::Int)]);
    let df = Dataset {
        height: 3,
        columns: vec![
            DataColumn { name: "c".to_string(), cells: vec![Cell::UInt8(1), Cell::Null, Cell::Text("x".to_string())] },
            DataColumn { name: "a".to_string(), cells: vec![Cell::Int8(-1), Cell::Int16(2), Cell::Int32(3)] },
            DataColumn { name: "b".to_string(), cells: vec![Cell::Int64(-7), Cell::Boolean(true), Cell::Null] },
        ],
    };
    let rows = build_bigquery_rowmap_vector(&df, &s);
    assert_eq!(rows.len(), 3);
    for r in &rows {
        assert_eq!(r.entries.len(), 3);
        assert_eq!(r.entries[0].column, "c");
        assert_eq!(r.entries[1].column, "a");
        assert_eq!(r.entries[2].column, "b");
    }
    assert_eq!(number(&rows[1].entries[1].value), Some(2));
    assert!(matches!(rows[1].entries[0].value, WireValue::Null));
    assert!(matches!(rows[2].entries[0].value, WireValue::Null));
    assert_eq!(text(&rows[0].entries[2].value), Some("-7".to_string()));
    assert_eq!(text(&rows[1].entries[2].value), Some("true".to_string()));
    assert_eq!(text(&rows[2].entries[2].value), Some("null".to_string()));
}

#[test]
fn materialize_empty_dataset() {
    let s = schema(&[("a", LogicalType::Int)]);
    let df = Dataset { height: 0, columns: vec![DataColumn { name: "a".to_string(), cells: vec![] }] };
    assert!(build_bigquery_rowmap_vector(&df, &s).is_empty());
}

#[test]
fn int_coercion_of_every_width() {
    let cases: Vec<(Cell, i128)> = vec![
        (Cell::Int8(i8::MIN), i8::MIN as i128),
        (Cell::Int16(i16::MIN), i16::MIN as i128),
        (Cell::Int32(-5), -5),
        (Cell::Int64(i64::MIN), i64::MIN as i128),
        (Cell::UInt8(u8::MAX), u8::MAX as i128),
        (Cell::UInt16(u16::MAX), u16::MAX as i128),
        (Cell::UInt32(u32::MAX), u32::MAX as i128),
        (Cell::UInt64(u64::MAX), u64::MAX as i128),
    ];
    for (c, v) in cases {
        assert_eq!(number(&bigquery_anyvalue_numeric_type(&c)), Some(v));
        assert_eq!(number(&coerce(&c, LogicalType::Int)), Some(v));
    }
    assert!(matches!(bigquery_anyvalue_numeric_type(&Cell::Text("5".to_string())), WireValue::Null));
    assert!(matches!(bigquery_anyvalue_numeric_type(&Cell::Boolean(true)), WireValue::Null));
    assert!(matches!(bigquery_anyvalue_numeric_type(&Cell::Null), WireValue::Null));
}

#[test]
fn string_coercion_renders_any_cell() {
    assert_eq!(text(&coerce(&Cell::UInt64(u64::MAX), LogicalType::Str)), Some("18446744073709551615".to_string()));
    assert_eq!(text(&coerce(&Cell::Int64(i64::MIN), LogicalType::Str)), Some("-9223372036854775808".to_string()));
    assert_eq!(text(&coerce(&Cell::UInt8(0), LogicalType::Str)), Some("0".to_string()));
    assert_eq!(text(&coerce(&Cell::Text("".to_string()), LogicalType::Str)), Some("".to_string()));
    assert_eq!(text(&coerce(&Cell::Other("1.5".to_string()), LogicalType::Str)), Some("1.5".to_string()));
    assert_eq!(cell_text(&Cell::Boolean(false)), "false");
}

#[test]
fn decimal_rendering_and_parsing() {
    assert_eq!(render_i128(0), "0");
    assert_eq!(render_i128(1234567890), "1234567890");
    assert_eq!(render_i128(-10), "-10");
    assert_eq!(render_i128(i128::MIN), i128::MIN.to_string());
    assert_eq!(parse_u64("999"), Some(999));
    assert_eq!(parse_u64("007"), Some(7));
    assert_eq!(parse_u64("18446744073709551615"), Some(u64::MAX));
    assert_eq!(parse_u64("18446744073709551616"), None);
    assert_eq!(parse_u64(""), None);
    assert_eq!(parse_u64("12a"), None);
    assert_eq!(parse_u64("-1"), None);
}

#[test]
fn schema_insert_keeps_place_of_existing_column() {
    let mut s = schema(&[("a", LogicalType::Int), ("b", LogicalType::Str)]);
    s.insert("a".to_string(), LogicalType::Str);
    assert_eq!(s.len(), 2);
    assert_eq!(s.column_at(0).0, "a");
    assert_eq!(s.column_at(0).1, LogicalType::Str);
    s.insert("c".to_string(), LogicalType::Int);
    assert_eq!(s.len(), 3);
    assert_eq!(s.column_at(2).0, "c");
    assert_eq!(s.type_of("c"), Some(LogicalType::Int));
}

#[test]
fn logical_type_names() {
    assert_eq!(parse_logical_type("int"), Some(LogicalType::Int));
    assert_eq!(parse_logical_type("string"), Some(LogicalType::Str));
    assert_eq!(parse_logical_type("float"), None);
    assert_eq!(parse_logical_type("Int"), None);
}

#[test]
fn registry_holds_state_table() {
    let reg = prepare_blockstate_table_config();
    let s = reg.schema_for("state").expect("state table");
    let names: Vec<&str> = (0..s.len()).map(|i| s.column_at(i).0.as_str()).collect();
    assert_eq!(names, vec!["indexed_id", "block_number", "sealed_block_with_senders", "arweave_id", "timestamp"]);
    assert_eq!(s.type_of("block_number"), Some(LogicalType::Int));
    assert_eq!(s.type_of("arweave_id"), Some(LogicalType::Str));
    assert_eq!(s.type_of("missing"), None);
    assert!(reg.schema_for("blocks").is_none());
    assert_eq!(state_table_schema().len(), 5);
}

#[test]
fn provisioning_creates_only_missing_tables() {
    let s = state_table_schema();
    match plan_table_creation(false, &s) {
        ProvisionAction::Create(fields) => {
            assert_eq!(fields.len(), 5);
            assert_eq!(fields[1].name, "block_number");
            assert_eq!(fields[1].kind, FieldKind::Integer);
            assert_eq!(fields[0].kind, FieldKind::String);
        }
        ProvisionAction::Skip => panic!("a missing table is created"),
    }
    assert!(matches!(plan_table_creation(true, &s), ProvisionAction::Skip));
}

#[test]
fn provisioning_twice_creates_once() {
    let s = state_table_schema();
    let first = plan_table_creation(false, &s);
    assert!(provision_outcome(&first, None).is_ok());
    let second = plan_table_creation(true, &s);
    assert!(matches!(second, ProvisionAction::Skip));
    assert!(provision_outcome(&second, None).is_ok());
    assert_eq!(provision_outcome(&first, Some("denied".to_string())), Err("denied".to_string()));
}

#[test]
fn field_schema_mapping() {
    let f = db_type_to_table_field_schema(LogicalType::Int, "timestamp");
    assert_eq!(f.name, "timestamp");
    assert_eq!(f.kind, FieldKind::Integer);
    assert_eq!(db_type_to_table_field_schema(LogicalType::Str, "x").kind, FieldKind::String);
}

#[test]
fn state_row_and_block_query() {
    let st = ExecutionTipState {
        block_number: 42,
        arweave_id: "ar".to_string(),
        sealed_block_with_senders_serialized: "{\"block\":1}".to_string(),
        block_hash: "0xab".to_string(),
    };
    let row = state_row(st);
    assert_eq!(row.block_number, 42);
    assert_eq!(row.arweave_id, "ar");
    assert_eq!(row.sealed_block_with_senders, "{\"block\":1}");
    assert_eq!(row.block_hash, "0xab");
    let q = prepare_block_query("proj", "ds", &row.block_number.to_string()).expect("valid id");
    assert_eq!(q.block_number, 42);
    assert_eq!(q.sql, "SELECT * FROM `proj.ds.state` WHERE block_number = @block_number");
    assert!(prepare_block_query("proj", "ds", "1 OR 1=1").is_none());
}

#[test]
fn query_on_empty_table_is_absent() {
    let q = prepare_block_query("proj", "ds", "999").expect("valid id");
    assert_eq!(q.block_number, 999);
    assert_eq!(query_payload(Ok(None)), None);
    assert_eq!(query_payload(Err("failed".to_string())), None);
    assert_eq!(query_payload(Ok(Some("p".to_string()))), Some("p".to_string()));
}

#[test]
fn brotli_compresses() {
    let data = vec![b'a'; 1000];
    let c = to_brotli(data.clone());
    assert!(!c.is_empty());
    assert_ne!(c, data);
    assert!(c.len() < data.len());
    let empty = to_brotli(Vec::new());
    assert!(!empty.is_empty());
}

#[test]
fn whitespace_set_matches_std() {
    for u in 0..=0x10FFFFu32 {
        if let Some(c) = char::from_u32(u) {
            assert_eq!(is_whitespace(c), c.is_whitespace(), "{u:#x}");
        }
    }
}

#[test]
fn brotli_output_is_deterministic() {
    let data = b"block state payload".to_vec();
    assert_eq!(to_brotli(data.clone()), to_brotli(data));
}
