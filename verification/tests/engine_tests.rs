use orm::object::Object;
use orm::record::{Record, Sample, Stamp};
use orm::transaction::{ObjectState, Transaction, WriteOp};
use orm::{Datum, ObjectId, OrmError};

fn memory_db() -> rusqlite::Connection {
    rusqlite::Connection::open_in_memory().expect("open in-memory database")
}

#[test]
fn create_registers_clean_and_assigns_identity() {
    let conn = memory_db();
    let mut tx = Transaction::begin(&conn).unwrap();
    let h = tx.create(Record { name: "x".to_string(), count: 1 }).unwrap();
    assert_eq!(h.id().into_i64(), 1);
    assert_eq!(h.state(&tx), ObjectState::Clean);
    assert_eq!(h.borrow(&tx), Record { name: "x".to_string(), count: 1 });
    tx.commit().unwrap();
}

#[test]
fn identity_stability_within_one_transaction() {
    let conn = memory_db();
    let mut tx = Transaction::begin(&conn).unwrap();
    let o = Record { name: "stable".to_string(), count: 9 };
    let h = tx.create(o.clone()).unwrap();
    let id = h.id();
    let h2 = tx.get::<Record>(id).unwrap();
    assert_eq!(h2.borrow(&tx), o);
    tx.rollback().unwrap();
}

#[test]
fn dirty_tracking_follows_the_three_states() {
    let conn = memory_db();
    let mut tx = Transaction::begin(&conn).unwrap();
    let h = tx.create(Record { name: "d".to_string(), count: 0 }).unwrap();
    assert_eq!(h.state(&tx), ObjectState::Clean);
    let mut o = h.borrow_mut(&mut tx);
    o.count = 5;
    h.store(&mut tx, o);
    assert_eq!(h.state(&tx), ObjectState::Modified);
    // further reads and writes keep it Modified
    assert_eq!(h.borrow(&tx).count, 5);
    let o2 = h.borrow_mut(&mut tx);
    h.store(&mut tx, o2);
    assert_eq!(h.state(&tx), ObjectState::Modified);
    let h2 = tx.get::<Record>(h.id()).unwrap();
    h2.delete(&mut tx);
    assert_eq!(h.state(&tx), ObjectState::Removed);
    tx.rollback().unwrap();
}

#[test]
fn commit_minimality_one_write_per_dirty_entry() {
    let conn = memory_db();
    let mut tx = Transaction::begin(&conn).unwrap();
    let clean = tx.create(Record { name: "clean".to_string(), count: 1 }).unwrap();
    let modified = tx.create(Record { name: "mod".to_string(), count: 2 }).unwrap();
    let removed = tx.create(Record { name: "gone".to_string(), count: 3 }).unwrap();
    let mut o = modified.borrow_mut(&mut tx);
    o.count = 20;
    modified.store(&mut tx, o);
    let removed_id = removed.id();
    removed.delete(&mut tx);

    let ops = tx.pending_writes();
    assert_eq!(ops.len(), 2);
    match &ops[0] {
        WriteOp::Update { id, schema, row } => {
            assert_eq!(id.into_i64(), modified.id().into_i64());
            assert_eq!(schema.get_table_name(), "record");
            assert_eq!(row[0], Datum::String("mod".to_string()));
            assert_eq!(row[1], Datum::Int64(20));
        }
        other => panic!("expected the one update first, got {:?}", op_name(other)),
    }
    match &ops[1] {
        WriteOp::Delete { id, schema } => {
            assert_eq!(id.into_i64(), removed_id.into_i64());
            assert_eq!(schema.get_table_name(), "record");
        }
        other => panic!("expected the one delete second, got {:?}", op_name(other)),
    }
    let _ = clean;
    tx.commit().unwrap();
}

fn op_name(op: &WriteOp) -> &'static str {
    match op {
        WriteOp::Update { .. } => "update",
        WriteOp::Delete { .. } => "delete",
    }
}

#[test]
fn scenario_modify_then_commit_then_reread() {
    let conn = memory_db();
    let mut tx = Transaction::begin(&conn).unwrap();
    let h = tx.create(Record { name: "x".to_string(), count: 1 }).unwrap();
    assert_eq!(h.id().into_i64(), 1);
    assert_eq!(h.state(&tx), ObjectState::Clean);
    let mut o = h.borrow_mut(&mut tx);
    o.count = 2;
    h.store(&mut tx, o);
    assert_eq!(h.state(&tx), ObjectState::Modified);
    tx.commit().unwrap();

    // the backend row for id 1 now reads name="x", count=2
    let (name, count): (String, i64) = conn
        .query_row("SELECT name, count FROM record WHERE id = 1", [], |r| {
            Ok((r.get(0)?, r.get(1)?))
        })
        .unwrap();
    assert_eq!(name, "x");
    assert_eq!(count, 2);

    let mut tx2 = Transaction::begin(&conn).unwrap();
    let h2 = tx2.get::<Record>(ObjectId::new(1)).unwrap();
    assert_eq!(h2.borrow(&tx2), Record { name: "x".to_string(), count: 2 });
    assert_eq!(h2.state(&tx2), ObjectState::Clean);
    tx2.commit().unwrap();
}

#[test]
fn scenario_delete_then_commit_removes_the_row() {
    let conn = memory_db();
    let mut tx = Transaction::begin(&conn).unwrap();
    let _a = tx.create(Record { name: "a".to_string(), count: 1 }).unwrap();
    let b = tx.create(Record { name: "b".to_string(), count: 2 }).unwrap();
    let b_id = b.id();
    assert_eq!(b_id.into_i64(), 2);
    let probe = tx.get::<Record>(b_id).unwrap();
    b.delete(&mut tx);
    assert_eq!(probe.state(&tx), ObjectState::Removed);
    tx.commit().unwrap();

    let rows: i64 = conn
        .query_row("SELECT COUNT(*) FROM record WHERE id = 2", [], |r| r.get(0))
        .unwrap();
    assert_eq!(rows, 0);

    let mut tx2 = Transaction::begin(&conn).unwrap();
    let err = tx2.get::<Record>(b_id).unwrap_err();
    assert_eq!(
        err,
        OrmError::NotFound { object_id: ObjectId::new(2), type_label: "Record" }
    );
    tx2.rollback().unwrap();
}

#[test]
fn use_after_delete_fails_with_not_found_in_same_transaction() {
    let conn = memory_db();
    let mut tx = Transaction::begin(&conn).unwrap();
    let h = tx.create(Record { name: "gone".to_string(), count: 1 }).unwrap();
    let id = h.id();
    h.delete(&mut tx);
    let err = tx.get::<Record>(id).unwrap_err();
    assert_eq!(
        err,
        OrmError::NotFound { object_id: id, type_label: "Record" }
    );
    tx.rollback().unwrap();
}

#[test]
fn rollback_discards_pending_writes() {
    let conn = memory_db();
    let mut tx = Transaction::begin(&conn).unwrap();
    let h = tx.create(Record { name: "r".to_string(), count: 1 }).unwrap();
    let mut o = h.borrow_mut(&mut tx);
    o.count = 100;
    h.store(&mut tx, o);
    tx.rollback().unwrap();

    // the insert itself was rolled back with the transaction
    let rows: i64 = conn
        .query_row("SELECT COUNT(*) FROM record", [], |r| r.get(0))
        .unwrap_or(0);
    assert_eq!(rows, 0);
}

#[test]
fn missing_column_names_the_exact_field() {
    let conn = memory_db();
    conn.execute(
        "CREATE TABLE record (id INTEGER PRIMARY KEY AUTOINCREMENT, name TEXT)",
        [],
    )
    .unwrap();
    conn.execute("INSERT INTO record (name) VALUES ('x')", []).unwrap();
    let mut tx = Transaction::begin(&conn).unwrap();
    let err = tx.get::<Record>(ObjectId::new(1)).unwrap_err();
    assert_eq!(
        err,
        OrmError::MissingColumn {
            type_label: "Record",
            attr_name: "count",
            table_name: "record",
            column_name: "count",
        }
    );
    tx.rollback().unwrap();
}

#[test]
fn unexpected_type_reports_expected_and_actual() {
    let conn = memory_db();
    conn.execute(
        "CREATE TABLE record (id INTEGER PRIMARY KEY AUTOINCREMENT, name TEXT, count BIGINT)",
        [],
    )
    .unwrap();
    conn.execute(
        "INSERT INTO record (name, count) VALUES ('x', 'not a number')",
        [],
    )
    .unwrap();
    let mut tx = Transaction::begin(&conn).unwrap();
    let err = tx.get::<Record>(ObjectId::new(1)).unwrap_err();
    assert_eq!(
        err,
        OrmError::UnexpectedType {
            type_label: "Record",
            attr_name: "count",
            table_name: "record",
            column_name: "count",
            expected_type: orm::DataType::Int64,
            got_type: "Text".to_string(),
        }
    );
    tx.rollback().unwrap();
}

#[test]
fn fresh_get_of_unknown_identity_is_not_found() {
    let conn = memory_db();
    let mut tx = Transaction::begin(&conn).unwrap();
    // materialize the table so the select itself runs
    let _h = tx.create(Record { name: "seed".to_string(), count: 0 }).unwrap();
    let err = tx.get::<Record>(ObjectId::new(999)).unwrap_err();
    assert_eq!(
        err,
        OrmError::NotFound { object_id: ObjectId::new(999), type_label: "Record" }
    );
    tx.rollback().unwrap();
}

#[test]
fn all_value_kinds_survive_a_commit_and_reread() {
    let conn = memory_db();
    let o = Sample {
        label: "probe".to_string(),
        data: vec![0u8, 1, 2, 254, 255],
        ratio_bits: (0.1f64 + 0.2f64).to_bits(),
        flag: true,
    };
    let mut tx = Transaction::begin(&conn).unwrap();
    let h = tx.create(o.clone()).unwrap();
    let id = h.id();
    tx.commit().unwrap();

    let mut tx2 = Transaction::begin(&conn).unwrap();
    let h2 = tx2.get::<Sample>(id).unwrap();
    let read = h2.borrow(&tx2);
    assert_eq!(read, o);
    assert_eq!(f64::from_bits(read.ratio_bits), 0.1f64 + 0.2f64);
    tx2.rollback().unwrap();
}

#[test]
fn sample_schema_uses_the_declared_column_names() {
    let schema = Sample::describe();
    assert_eq!(schema.get_table_name(), "sample");
    assert_eq!(schema.get_nth_field_name(2), "ratio_bits");
    assert_eq!(schema.get_nth_column_name(2), "ratio");
    assert_eq!(
        schema.text_description(),
        "id INTEGER PRIMARY KEY AUTOINCREMENT,label TEXT,data BLOB,ratio REAL,flag TINYINT"
    );
}

#[test]
fn two_tables_share_one_transaction() {
    let conn = memory_db();
    let mut tx = Transaction::begin(&conn).unwrap();
    let r = tx.create(Record { name: "r".to_string(), count: 1 }).unwrap();
    let s = tx
        .create(Sample {
            label: "s".to_string(),
            data: vec![9],
            ratio_bits: 0,
            flag: false,
        })
        .unwrap();
    // both tables assign identity 1; the cache is keyed by identity alone, so
    // the later registration owns the cache slot
    assert_eq!(r.id().into_i64(), 1);
    assert_eq!(s.id().into_i64(), 1);
    assert_eq!(s.borrow(&tx).label, "s");
    tx.commit().unwrap();

    let mut tx2 = Transaction::begin(&conn).unwrap();
    assert_eq!(tx2.get::<Record>(ObjectId::new(1)).unwrap().borrow(&tx2).name, "r");
    tx2.rollback().unwrap();
    let mut tx3 = Transaction::begin(&conn).unwrap();
    assert_eq!(tx3.get::<Sample>(ObjectId::new(1)).unwrap().borrow(&tx3).label, "s");
    tx3.rollback().unwrap();
}

#[test]
fn fieldless_objects_live_on_the_identity_column_alone() {
    let conn = memory_db();
    let mut tx = Transaction::begin(&conn).unwrap();
    let first = tx.create(Stamp).unwrap();
    let second = tx.create(Stamp).unwrap();
    assert_eq!(first.id().into_i64(), 1);
    assert_eq!(second.id().into_i64(), 2);
    tx.commit().unwrap();

    let mut tx2 = Transaction::begin(&conn).unwrap();
    let h = tx2.get::<Stamp>(ObjectId::new(2)).unwrap();
    assert_eq!(h.borrow(&tx2), Stamp);
    h.delete(&mut tx2);
    tx2.commit().unwrap();

    let rows: i64 = conn
        .query_row("SELECT COUNT(*) FROM stamp", [], |r| r.get(0))
        .unwrap();
    assert_eq!(rows, 1);
}

#[test]
fn created_then_deleted_object_sends_both_writes() {
    // a create followed by a delete in the same transaction is an insert
    // followed by a delete: no collapse to a no-op is performed
    let conn = memory_db();
    let mut tx = Transaction::begin(&conn).unwrap();
    let h = tx.create(Record { name: "fleeting".to_string(), count: 1 }).unwrap();
    let id = h.id();
    h.delete(&mut tx);
    let ops = tx.pending_writes();
    assert_eq!(ops.len(), 1);
    assert!(matches!(&ops[0], WriteOp::Delete { id: d, .. } if d.into_i64() == id.into_i64()));
    tx.commit().unwrap();
    let rows: i64 = conn
        .query_row("SELECT COUNT(*) FROM record", [], |r| r.get(0))
        .unwrap();
    assert_eq!(rows, 0);
}
