use vstd::prelude::*;
use vstd::bytes::{u64_from_le_bytes, u64_to_le_bytes};
use vstd::slice::slice_to_vec;
use vstd::string::StringExecFns;
use rusqlite::OptionalExtension;
use crate::data::{kind_of, lemma_decode_kind, row_matches_types, spec_decode, spec_sql_dyn_name, DataType, Datum, DatumV, ObjectId, Row, SqlDyn};
use crate::error::{has_missing_column_msg, is_lock_conflict_msg, missing_column_error, OrmError};
use crate::text::spec_str_contains;
use crate::object::Schema;

verus! {

/// Relies on rusqlite::Connection::execute with rusqlite::params_from_iter:
/// runs one SQL statement binding the given values, in order, to its
/// placeholders, and returns how many rows it changed.
#[verifier::external_body]
fn exec_sql(
    conn: &rusqlite::Connection,
    sql: &str,
    params: Vec<rusqlite::types::Value>,
) -> Result<usize, rusqlite::Error> {
    conn.execute(sql, rusqlite::params_from_iter(params))
}

/// Relies on rusqlite::Connection::prepare and rusqlite::Statement::insert:
/// runs one INSERT binding the given values and returns the row id the
/// backend assigned.
#[verifier::external_body]
fn insert_sql(
    conn: &rusqlite::Connection,
    sql: &str,
    params: Vec<rusqlite::types::Value>,
) -> Result<i64, rusqlite::Error> {
    let mut stmt = conn.prepare(sql)?;
    stmt.insert(rusqlite::params_from_iter(params))
}

/// Relies on rusqlite::Connection::prepare and rusqlite::Statement::exists:
/// whether the query returns at least one row.
#[verifier::external_body]
fn query_has_row(
    conn: &rusqlite::Connection,
    sql: &str,
    params: Vec<rusqlite::types::Value>,
) -> Result<bool, rusqlite::Error> {
    let mut stmt = conn.prepare(sql)?;
    stmt.exists(rusqlite::params_from_iter(params))
}

/// Relies on rusqlite::Connection::prepare, rusqlite::Statement::query_row
/// and rusqlite::OptionalExtension::optional: runs the query with the
/// identity bound to its one placeholder, reading the first `ncols` columns
/// of the row as dynamically typed values; a query returning no rows is
/// `Ok(None)`.
#[verifier::external_body]
fn query_row_values(
    conn: &rusqlite::Connection,
    sql: &str,
    id: i64,
    ncols: usize,
) -> (r: Result<Option<Vec<rusqlite::types::Value>>, rusqlite::Error>)
    ensures
        r matches Ok(Some(vals)) ==> vals@.len() == ncols,
{
    let mut stmt = conn.prepare(sql)?;
    stmt.query_row([id], |row| {
        let mut vals = Vec::with_capacity(ncols);
        for i in 0..ncols {
            vals.push(row.get(i)?);
        }
        Ok(vals)
    }).optional()
}

/// Relies on the Display impl of rusqlite::Error: the backend's message for
/// this error.
#[verifier::external_body]
fn error_message(e: &rusqlite::Error) -> String {
    e.to_string()
}

/// The backend value that carries the given text: what
/// rusqlite::types::Value::Text returns on these characters.
pub uninterp spec fn enc_text(s: Seq<char>) -> rusqlite::types::Value;

/// The backend value that carries the given bytes: what
/// rusqlite::types::Value::Blob returns on these bytes.
pub uninterp spec fn enc_blob(b: Seq<u8>) -> rusqlite::types::Value;

/// The backend value that carries the given integer: what
/// rusqlite::types::Value::Integer returns on this integer.
pub uninterp spec fn enc_int(n: i64) -> rusqlite::types::Value;

/// Relies on rusqlite::types::Value::Text holding the text unchanged; the
/// result depends on the characters alone.
#[verifier::external_body]
fn sql_text(s: String) -> (r: rusqlite::types::Value)
    ensures
        r == enc_text(s@),
{
    rusqlite::types::Value::Text(s)
}

/// Relies on rusqlite::types::Value::Blob holding the bytes unchanged; the
/// result depends on the bytes alone.
#[verifier::external_body]
fn sql_blob(b: Vec<u8>) -> (r: rusqlite::types::Value)
    ensures
        r == enc_blob(b@),
{
    rusqlite::types::Value::Blob(b)
}

/// Relies on rusqlite::types::Value::Integer holding the integer unchanged;
/// the result depends on the integer alone.
#[verifier::external_body]
fn sql_int(n: i64) -> (r: rusqlite::types::Value)
    ensures
        r == enc_int(n),
{
    rusqlite::types::Value::Integer(n)
}

/// Relies on rusqlite::types::Value: one arm per variant, moving each
/// payload into the library's own dynamic shape; a Real moves as its bit
/// pattern.
#[verifier::external_body]
fn sql_to_dyn(v: rusqlite::types::Value) -> SqlDyn {
    match v {
        rusqlite::types::Value::Null => SqlDyn::Null,
        rusqlite::types::Value::Integer(n) => SqlDyn::Integer(n),
        rusqlite::types::Value::Real(x) => SqlDyn::Real(x.to_bits()),
        rusqlite::types::Value::Text(s) => SqlDyn::Text(s),
        rusqlite::types::Value::Blob(b) => SqlDyn::Blob(b),
    }
}

/// One backend placeholder per column: `?`, comma-separated.
pub open spec fn spec_questions(n: int) -> Seq<char>
    decreases n,
{
    if n <= 0 {
        Seq::empty()
    } else if n == 1 {
        "?"@
    } else {
        spec_questions(n - 1) + ",?"@
    }
}

/// The placeholder list of an insert statement, one `?` per column.
pub fn repeat_questions(count: usize) -> (r: String)
    requires
        count > 0,
    ensures
        r@ == spec_questions(count as int),
{
    let mut out = String::from_str("?");
    let mut i: usize = 1;
    while i < count
        invariant
            1 <= i <= count,
            out@ == spec_questions(i as int),
        decreases count - i,
    {
        out.append(",?");
        i = i + 1;
    }
    out
}

/// The backend value one library value binds as: text, bytes and integers
/// pass through; a boolean binds as the integer one or zero; a float binds as
/// the eight little-endian bytes of its bit pattern, so the engine never
/// computes on floating point. A store whose REAL columns hold native
/// floating-point values is therefore not interchangeable with this encoding:
/// such values read back as `UnexpectedType`, and floats written here read as
/// blobs elsewhere.
pub open spec fn enc_datum(d: DatumV) -> rusqlite::types::Value {
    match d {
        DatumV::String(s) => enc_text(s),
        DatumV::Bytes(b) => enc_blob(b),
        DatumV::Int64(n) => enc_int(n),
        DatumV::Float64(bits) => enc_blob(vstd::bytes::spec_u64_to_le_bytes(bits)),
        DatumV::Bool(b) => enc_int(
            if b {
                1i64
            } else {
                0i64
            },
        ),
    }
}

/// Encodes one value for binding.
fn value_to_sql(v: &Datum) -> (r: rusqlite::types::Value)
    ensures
        r == enc_datum(v@),
{
    match v {
        Datum::String(s) => sql_text(s.clone()),
        Datum::Bytes(b) => sql_blob(slice_to_vec(b.as_slice())),
        Datum::Int64(n) => sql_int(*n),
        Datum::Float64(bits) => sql_blob(u64_to_le_bytes(*bits)),
        Datum::Bool(b) => sql_int(if *b { 1i64 } else { 0i64 }),
    }
}

/// Encodes a whole row for binding: one backend value per library value, in
/// column order, each the encoding of its value.
fn row_to_params(row: &Row) -> (r: Vec<rusqlite::types::Value>)
    ensures
        r@.len() == row@.len(),
        forall|i: int| 0 <= i < row@.len() ==> r@[i] == enc_datum(#[trigger] row@[i]@),
{
    let mut out: Vec<rusqlite::types::Value> = Vec::new();
    let mut i: usize = 0;
    while i < row.len()
        invariant
            i <= row@.len(),
            out@.len() == i,
            forall|j: int| 0 <= j < i ==> out@[j] == enc_datum(#[trigger] row@[j]@),
        decreases row@.len() - i,
    {
        out.push(value_to_sql(&row[i]));
        i = i + 1;
    }
    out
}

/// Decodes one backend value against the declared column type, exactly as
/// `spec_decode` says; a shape that disagrees with the declaration yields
/// `UnexpectedType` carrying the full diagnostic tuple, the actual shape's
/// name included.
pub fn decode_sql_value(v: &SqlDyn, idx: usize, schema: &Schema) -> (r: Result<Datum, OrmError>)
    requires
        schema@.wf(),
        idx < schema@.column_types.len(),
    ensures
        r matches Ok(val) ==> spec_decode(v@, schema@.column_types[idx as int]) == Some(val@),
        r matches Err(e) ==> spec_decode(v@, schema@.column_types[idx as int]) is None
            && (e matches OrmError::UnexpectedType {
            type_label,
            attr_name,
            table_name,
            column_name,
            expected_type,
            got_type,
        } && {
            &&& type_label@ == schema@.type_label
            &&& attr_name@ == schema@.field_names[idx as int]
            &&& table_name@ == schema@.table_name
            &&& column_name@ == schema@.column_names[idx as int]
            &&& expected_type == schema@.column_types[idx as int]
            &&& got_type@ == spec_sql_dyn_name(v@)
        }),
{
    let expected = schema.get_types()[idx];
    let decoded: Option<Datum> = match expected {
        DataType::String => {
            match v {
                SqlDyn::Text(s) => Some(Datum::String(s.clone())),
                _ => None,
            }
        },
        DataType::Bytes => {
            match v {
                SqlDyn::Blob(b) => Some(Datum::Bytes(slice_to_vec(b.as_slice()))),
                _ => None,
            }
        },
        DataType::Int64 => {
            match v {
                SqlDyn::Integer(n) => Some(Datum::Int64(*n)),
                _ => None,
            }
        },
        DataType::Float64 => {
            match v {
                SqlDyn::Blob(b) => {
                    if b.len() == 8 {
                        Some(Datum::Float64(u64_from_le_bytes(b.as_slice())))
                    } else {
                        None
                    }
                },
                _ => None,
            }
        },
        DataType::Bool => {
            match v {
                SqlDyn::Integer(n) => Some(Datum::Bool(*n != 0)),
                _ => None,
            }
        },
    };
    match decoded {
        Some(val) => Ok(val),
        None => Err(
            OrmError::UnexpectedType {
                type_label: schema.get_type_name(),
                attr_name: schema.get_nth_field_name(idx),
                table_name: schema.get_table_name(),
                column_name: schema.get_nth_column_name(idx),
                expected_type: expected,
                got_type: String::from_str(v.dyn_name()),
            },
        ),
    }
}

/// Decodes a whole backend row against the schema, in column order: on
/// success every value decodes per `spec_decode`; otherwise the error is the
/// exact diagnostic of the first column whose shape disagrees with its
/// declaration.
pub fn decode_row(vals: &Vec<SqlDyn>, schema: &Schema) -> (r: Result<Row, OrmError>)
    requires
        schema@.wf(),
        vals@.len() == schema@.column_types.len(),
    ensures
        r matches Ok(row) ==> {
            &&& row@.len() == vals@.len()
            &&& forall|i: int|
                0 <= i < vals@.len() ==> spec_decode(
                    vals@[i]@,
                    schema@.column_types[i],
                ) == Some(#[trigger] row@[i]@)
            &&& row_matches_types(row.deep_view(), schema@.column_types)
        },
        r matches Err(e) ==> exists|i: int|
            {
                &&& 0 <= i < vals@.len()
                &&& spec_decode(#[trigger] vals@[i]@, schema@.column_types[i]) is None
                &&& forall|j: int|
                    0 <= j < i ==> spec_decode(
                        #[trigger] vals@[j]@,
                        schema@.column_types[j],
                    ) is Some
                &&& e matches OrmError::UnexpectedType {
                    type_label,
                    attr_name,
                    table_name,
                    column_name,
                    expected_type,
                    got_type,
                } && {
                    &&& type_label@ == schema@.type_label
                    &&& attr_name@ == schema@.field_names[i]
                    &&& table_name@ == schema@.table_name
                    &&& column_name@ == schema@.column_names[i]
                    &&& expected_type == schema@.column_types[i]
                    &&& got_type@ == spec_sql_dyn_name(vals@[i]@)
                }
            },
{
    let mut row: Row = Vec::new();
    let mut i: usize = 0;
    while i < vals.len()
        invariant
            schema@.wf(),
            vals@.len() == schema@.column_types.len(),
            i <= vals@.len(),
            row@.len() == i,
            forall|j: int|
                0 <= j < i ==> spec_decode(#[trigger] vals@[j]@, schema@.column_types[j])
                    == Some(row@[j]@),
        decreases vals@.len() - i,
    {
        match decode_sql_value(&vals[i], i, schema) {
            Ok(val) => row.push(val),
            Err(e) => {
                return Err(e);
            },
        }
        i = i + 1;
    }
    proof {
        assert forall|j: int| 0 <= j < row@.len() implies kind_of(#[trigger] row.deep_view()[j])
            == schema@.column_types[j] by {
            lemma_decode_kind(vals@[j]@, schema@.column_types[j]);
        }
    }
    Ok(row)
}

/// Moves a backend row into the library's own dynamic shapes, in order.
fn dyn_row(vals: Vec<rusqlite::types::Value>) -> (r: Vec<SqlDyn>)
    ensures
        r@.len() == vals@.len(),
{
    let mut out: Vec<SqlDyn> = Vec::new();
    let mut vals = vals;
    let ghost n = vals@.len();
    while vals.len() > 0
        invariant
            out@.len() + vals@.len() == n,
        decreases vals@.len(),
    {
        out.push(sql_to_dyn(vals.remove(0)));
    }
    out
}

/// Classifies an opaque backend rejection: a "database is locked" message is
/// the retryable LockConflict, anything else propagates as Storage.
fn backend_error(msg: String) -> (r: OrmError)
    ensures
        spec_str_contains(msg@, "database is locked"@) ==> r is LockConflict,
        !spec_str_contains(msg@, "database is locked"@) ==> (r matches OrmError::Storage(m)
            && m@ == msg@),
{
    if is_lock_conflict_msg(msg.as_str()) {
        OrmError::LockConflict
    } else {
        OrmError::Storage(msg)
    }
}

/// Whether the schema's table exists in the store.
pub(crate) fn table_exists(conn: &rusqlite::Connection, table: &str) -> (r: Result<bool, OrmError>)
    ensures
        r matches Err(e) ==> (e matches OrmError::LockConflict || e matches OrmError::Storage {
            ..
        }),
{
    let sql = "SELECT name FROM sqlite_master WHERE type = 'table' AND name = ?;";
    let mut params: Vec<rusqlite::types::Value> = Vec::new();
    params.push(sql_text(table.to_owned()));
    match query_has_row(conn, sql, params) {
        Ok(b) => Ok(b),
        Err(e) => Err(backend_error(error_message(&e))),
    }
}

/// Creates the schema's table. A backend "database is locked" rejection is
/// surfaced as the retryable `LockConflict`.
pub(crate) fn create_table(conn: &rusqlite::Connection, schema: &Schema) -> (r: Result<(), OrmError>)
    requires
        schema@.wf(),
    ensures
        r matches Err(e) ==> (e matches OrmError::LockConflict || e matches OrmError::Storage { .. }),
{
    let mut sql = String::from_str("CREATE TABLE ");
    sql.append(schema.get_table_name());
    sql.append(" (");
    let desc = schema.text_description();
    sql.append(desc.as_str());
    sql.append(");");
    match exec_sql(conn, sql.as_str(), Vec::new()) {
        Ok(_) => Ok(()),
        Err(e) => Err(backend_error(error_message(&e))),
    }
}

/// Inserts the row and returns the identity the backend assigned. A backend
/// "no such column" rejection is resolved against the schema into
/// `MissingColumn`.
pub(crate) fn insert_row(conn: &rusqlite::Connection, schema: &Schema, row: &Row) -> (r: Result<
    ObjectId,
    OrmError,
>)
    requires
        schema@.wf(),
        row@.len() == schema@.column_types.len(),
    ensures
        r matches Err(e) ==> (e matches OrmError::MissingColumn { .. }
            || e matches OrmError::LockConflict || e matches OrmError::Storage { .. }),
{
    let count = schema.columns_count();
    let mut sql = String::from_str("INSERT INTO ");
    sql.append(schema.get_table_name());
    if count == 0 {
        sql.append(" (id) VALUES (NULL)");
    } else {
        sql.append(" (");
        let cols = schema.column_name_list(", ");
        sql.append(cols.as_str());
        sql.append(") VALUES (");
        let qs = repeat_questions(count);
        sql.append(qs.as_str());
        sql.append(");");
    }
    match insert_sql(conn, sql.as_str(), row_to_params(row)) {
        Ok(id) => Ok(ObjectId::new(id)),
        Err(e) => {
            let msg = error_message(&e);
            if has_missing_column_msg(msg.as_str()) {
                match missing_column_error(msg.as_str(), schema) {
                    Some(err) => Err(err),
                    None => Err(backend_error(msg)),
                }
            } else {
                Err(backend_error(msg))
            }
        },
    }
}

/// Rewrites the row stored under the identity.
pub(crate) fn update_row(
    conn: &rusqlite::Connection,
    id: ObjectId,
    schema: &Schema,
    row: &Row,
) -> (r: Result<(), OrmError>)
    requires
        schema@.wf(),
        row@.len() == schema@.column_types.len(),
    ensures
        r matches Err(e) ==> (e matches OrmError::LockConflict || e matches OrmError::Storage {
            ..
        }),
{
    let mut sql = String::from_str("UPDATE ");
    sql.append(schema.get_table_name());
    sql.append(" SET ");
    let upd = schema.prepare_update_column_list();
    sql.append(upd.as_str());
    sql.append(" WHERE id = ?");
    let mut params = row_to_params(row);
    params.push(sql_int(id.into_i64()));
    match exec_sql(conn, sql.as_str(), params) {
        Ok(_) => Ok(()),
        Err(e) => Err(backend_error(error_message(&e))),
    }
}

/// Reads the row stored under the identity and decodes it against the
/// schema. An identity without a row yields `NotFound`; a backend "no such
/// column" rejection is resolved into `MissingColumn`; a stored value of the
/// wrong dynamic type yields `UnexpectedType`.
pub(crate) fn select_row(conn: &rusqlite::Connection, id: ObjectId, schema: &Schema) -> (r: Result<
    Row,
    OrmError,
>)
    requires
        schema@.wf(),
    ensures
        r matches Ok(row) ==> row_matches_types(row.deep_view(), schema@.column_types),
        r matches Err(e) ==> {
            ||| e matches OrmError::NotFound { object_id, type_label } && object_id@ == id@
                && type_label@ == schema@.type_label
            ||| e matches OrmError::MissingColumn { .. }
            ||| e matches OrmError::UnexpectedType { .. }
            ||| e matches OrmError::LockConflict
            ||| e matches OrmError::Storage { .. }
        },
        r matches Err(e) ==> (e matches OrmError::UnexpectedType {
            type_label,
            attr_name,
            table_name,
            column_name,
            expected_type,
            got_type,
        } ==> {
            &&& type_label@ == schema@.type_label
            &&& table_name@ == schema@.table_name
            &&& exists|i: int|
                {
                    &&& 0 <= i < schema@.column_types.len()
                    &&& attr_name@ == #[trigger] schema@.field_names[i]
                    &&& column_name@ == schema@.column_names[i]
                    &&& expected_type == schema@.column_types[i]
                }
        }),
{
    let count = schema.columns_count();
    let mut sql = String::from_str("SELECT ");
    if count == 0 {
        sql.append("* FROM ");
        sql.append(schema.get_table_name());
        sql.append(" WHERE id = ?");
    } else {
        let cols = schema.column_name_list(", ");
        sql.append(cols.as_str());
        sql.append(" FROM ");
        sql.append(schema.get_table_name());
        sql.append(" WHERE id = ?;");
    }
    match query_row_values(conn, sql.as_str(), id.into_i64(), count) {
        Ok(Some(vals)) => decode_row(&dyn_row(vals), schema),
        Ok(None) => Err(
            OrmError::NotFound { object_id: id, type_label: schema.get_type_name() },
        ),
        Err(e) => {
            let msg = error_message(&e);
            if has_missing_column_msg(msg.as_str()) {
                match missing_column_error(msg.as_str(), schema) {
                    Some(err) => Err(err),
                    None => Err(backend_error(msg)),
                }
            } else {
                Err(backend_error(msg))
            }
        },
    }
}

/// Deletes the row stored under the identity.
pub(crate) fn delete_row(conn: &rusqlite::Connection, id: ObjectId, schema: &Schema) -> (r: Result<
    (),
    OrmError,
>)
    ensures
        r matches Err(e) ==> (e matches OrmError::LockConflict || e matches OrmError::Storage {
            ..
        }),
{
    let mut sql = String::from_str("DELETE FROM ");
    sql.append(schema.get_table_name());
    sql.append(" WHERE id = ?");
    let mut params: Vec<rusqlite::types::Value> = Vec::new();
    params.push(sql_int(id.into_i64()));
    match exec_sql(conn, sql.as_str(), params) {
        Ok(_) => Ok(()),
        Err(e) => Err(backend_error(error_message(&e))),
    }
}

/// Opens a backend transaction.
pub(crate) fn begin_backend(conn: &rusqlite::Connection) -> (r: Result<(), OrmError>)
    ensures
        r matches Err(e) ==> (e matches OrmError::LockConflict || e matches OrmError::Storage {
            ..
        }),
{
    match exec_sql(conn, "BEGIN;", Vec::new()) {
        Ok(_) => Ok(()),
        Err(e) => Err(backend_error(error_message(&e))),
    }
}

/// Commits the backend transaction.
pub(crate) fn commit_backend(conn: &rusqlite::Connection) -> (r: Result<(), OrmError>)
    ensures
        r matches Err(e) ==> (e matches OrmError::LockConflict || e matches OrmError::Storage {
            ..
        }),
{
    match exec_sql(conn, "COMMIT;", Vec::new()) {
        Ok(_) => Ok(()),
        Err(e) => Err(backend_error(error_message(&e))),
    }
}

/// Rolls the backend transaction back.
pub(crate) fn rollback_backend(conn: &rusqlite::Connection) -> (r: Result<(), OrmError>)
    ensures
        r matches Err(e) ==> (e matches OrmError::LockConflict || e matches OrmError::Storage {
            ..
        }),
{
    match exec_sql(conn, "ROLLBACK;", Vec::new()) {
        Ok(_) => Ok(()),
        Err(e) => Err(backend_error(error_message(&e))),
    }
}

} // verus!
