use orm::object::Object;
use orm::record::{Record, Sample};
use orm::storage::{decode_row, decode_sql_value, repeat_questions};
use orm::text::{str_contains, str_eq, str_find, token_after};
use orm::{DataType, Datum, OrmError, SqlDyn};

#[test]
fn sql_type_names() {
    assert_eq!(DataType::String.sql_type_name(), "TEXT");
    assert_eq!(DataType::Bytes.sql_type_name(), "BLOB");
    assert_eq!(DataType::Int64.sql_type_name(), "BIGINT");
    assert_eq!(DataType::Float64.sql_type_name(), "REAL");
    assert_eq!(DataType::Bool.sql_type_name(), "TINYINT");
}

#[test]
fn sql_type_names_map_back_to_kinds() {
    assert_eq!(DataType::from_sql_type_name("TEXT"), Some(DataType::String));
    assert_eq!(DataType::from_sql_type_name("BLOB"), Some(DataType::Bytes));
    assert_eq!(DataType::from_sql_type_name("BIGINT"), Some(DataType::Int64));
    assert_eq!(DataType::from_sql_type_name("REAL"), Some(DataType::Float64));
    assert_eq!(DataType::from_sql_type_name("TINYINT"), Some(DataType::Bool));
    assert_eq!(DataType::from_sql_type_name("VARCHAR"), None);
}

#[test]
fn source_type_names_map_back_to_kinds() {
    assert_eq!(DataType::from_source_name("String"), Some(DataType::String));
    assert_eq!(DataType::from_source_name("Vec < u8 >"), Some(DataType::Bytes));
    assert_eq!(DataType::from_source_name("i64"), Some(DataType::Int64));
    assert_eq!(DataType::from_source_name("f64"), Some(DataType::Float64));
    assert_eq!(DataType::from_source_name("bool"), Some(DataType::Bool));
    assert_eq!(DataType::from_source_name("u32"), None);
}

#[test]
fn describe_reports_the_declared_layout() {
    let schema = Record::describe();
    assert_eq!(schema.get_table_name(), "record");
    assert_eq!(schema.get_type_name(), "Record");
    assert_eq!(schema.columns_count(), 2);
    assert_eq!(schema.get_nth_column_name(0), "name");
    assert_eq!(schema.get_nth_column_name(1), "count");
    assert_eq!(schema.get_nth_field_name(0), "name");
    assert_eq!(schema.get_nth_field_name(1), "count");
    assert_eq!(schema.get_types(), &[DataType::String, DataType::Int64]);
}

#[test]
fn column_lists() {
    let schema = Record::describe();
    assert_eq!(schema.column_name_list(", "), "name, count");
    assert_eq!(schema.column_fields_name(", "), "name, count");
    assert_eq!(schema.prepare_update_column_list(), "name = ?,count = ?");
}

#[test]
fn text_description_prefixes_the_identity_column() {
    let schema = Record::describe();
    assert_eq!(
        schema.text_description(),
        "id INTEGER PRIMARY KEY AUTOINCREMENT,name TEXT,count BIGINT"
    );
}

#[test]
fn get_same_column_name_finds_a_partial_match() {
    let schema = Record::describe();
    assert_eq!(schema.get_same_column_name("count"), Some(("count", 1)));
    assert_eq!(schema.get_same_column_name("oun"), Some(("count", 1)));
    assert_eq!(schema.get_same_column_name("nam"), Some(("name", 0)));
    assert_eq!(schema.get_same_column_name("missing"), None);
}

#[test]
fn question_marks_one_per_column() {
    assert_eq!(repeat_questions(1), "?");
    assert_eq!(repeat_questions(3), "?,?,?");
}

#[test]
fn text_helpers() {
    assert!(str_contains("no such column: count", "no such column:"));
    assert!(!str_contains("all fine", "no such column:"));
    assert!(str_contains("abc", ""));
    assert!(!str_contains("ab", "abc"));
    assert!(str_eq("abc", "abc"));
    assert!(!str_eq("abc", "abd"));
    assert_eq!(str_find("abcabc", "cab"), Some(2));
    assert_eq!(str_find("abc", "zzz"), None);
    assert_eq!(
        token_after("no such column: count in SELECT ...", "no such column: "),
        Some("count")
    );
    assert_eq!(token_after("no such column: count", "no such column: "), Some("count"));
    assert_eq!(token_after("all fine", "no such column: "), None);
}

#[test]
fn missing_column_message_detection() {
    assert!(orm::error::has_missing_column_msg(
        "table record has no column named count"
    ));
    assert!(orm::error::has_missing_column_msg("no such column: count"));
    assert!(!orm::error::has_missing_column_msg("database is locked"));
    assert!(orm::error::is_lock_conflict_msg("database is locked"));
    assert!(!orm::error::is_lock_conflict_msg("no such column: count"));
}

#[test]
fn decode_row_accepts_matching_shapes() {
    let schema = Record::describe();
    let vals = vec![SqlDyn::Text("x".to_string()), SqlDyn::Integer(7)];
    let row = decode_row(&vals, &schema).unwrap();
    assert_eq!(row, vec![Datum::String("x".to_string()), Datum::Int64(7)]);
}

#[test]
fn decode_row_reports_the_first_failing_column() {
    let schema = Record::describe();
    // both columns have the wrong shape; the diagnostic names the first
    let vals = vec![SqlDyn::Integer(5), SqlDyn::Text("bad".to_string())];
    let err = decode_row(&vals, &schema).unwrap_err();
    assert_eq!(
        err,
        OrmError::UnexpectedType {
            type_label: "Record",
            attr_name: "name",
            table_name: "record",
            column_name: "name",
            expected_type: DataType::String,
            got_type: "Integer".to_string(),
        }
    );
}

#[test]
fn decode_reports_the_actual_shape_name() {
    let schema = Record::describe();
    let err = decode_sql_value(&SqlDyn::Null, 1, &schema).unwrap_err();
    assert_eq!(
        err,
        OrmError::UnexpectedType {
            type_label: "Record",
            attr_name: "count",
            table_name: "record",
            column_name: "count",
            expected_type: DataType::Int64,
            got_type: "Null".to_string(),
        }
    );
}

#[test]
fn decode_float_column_requires_an_eight_byte_blob() {
    let schema = Sample::describe();
    let ok = decode_sql_value(&SqlDyn::Blob(vec![0u8; 8]), 2, &schema).unwrap();
    assert_eq!(ok, Datum::Float64(0));
    let err = decode_sql_value(&SqlDyn::Blob(vec![0u8; 3]), 2, &schema).unwrap_err();
    assert_eq!(
        err,
        OrmError::UnexpectedType {
            type_label: "Sample",
            attr_name: "ratio_bits",
            table_name: "sample",
            column_name: "ratio",
            expected_type: DataType::Float64,
            got_type: "Blob".to_string(),
        }
    );
    // a native floating-point value is not this engine's encoding
    let err = decode_sql_value(&SqlDyn::Real(1), 2, &schema).unwrap_err();
    assert!(matches!(err, OrmError::UnexpectedType { got_type, .. } if got_type == "Real"));
}

#[test]
fn decode_bool_from_integer() {
    let schema = Sample::describe();
    assert_eq!(decode_sql_value(&SqlDyn::Integer(0), 3, &schema).unwrap(), Datum::Bool(false));
    assert_eq!(decode_sql_value(&SqlDyn::Integer(2), 3, &schema).unwrap(), Datum::Bool(true));
}

#[test]
fn missing_column_error_names_the_exact_column() {
    let schema = Record::describe();
    let err = orm::error::missing_column_error("no such column: count", &schema);
    match err {
        Some(orm::OrmError::MissingColumn {
            type_label,
            attr_name,
            table_name,
            column_name,
        }) => {
            assert_eq!(type_label, "Record");
            assert_eq!(attr_name, "count");
            assert_eq!(table_name, "record");
            assert_eq!(column_name, "count");
        }
        other => panic!("expected a MissingColumn diagnostic, got {:?}", other),
    }
    assert_eq!(
        orm::error::missing_column_error("no such column: zzz", &schema),
        None
    );
}
