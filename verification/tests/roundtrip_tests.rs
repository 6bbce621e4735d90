use orm::object::{round_trip, Object};
use orm::record::Record;
use orm::{Datum, ObjectId};

#[test]
fn record_round_trip_is_identity() {
    let o = Record { name: "x".to_string(), count: 1 };
    let r = round_trip(&o);
    assert_eq!(r, o);
}

#[test]
fn record_round_trip_empty_name_and_extremes() {
    let o = Record { name: String::new(), count: i64::MIN };
    assert_eq!(round_trip(&o), o);
    let o = Record { name: "äöü unicode".to_string(), count: i64::MAX };
    assert_eq!(round_trip(&o), o);
}

#[test]
fn as_row_encodes_fields_in_declared_order() {
    let o = Record { name: "x".to_string(), count: 7 };
    let row = o.as_row();
    assert_eq!(row.len(), 2);
    assert_eq!(row[0], Datum::String("x".to_string()));
    assert_eq!(row[1], Datum::Int64(7));
}

#[test]
fn from_row_reconstructs_the_object() {
    let row = vec![Datum::String("y".to_string()), Datum::Int64(3)];
    let o = Record::from_row(row);
    assert_eq!(o, Record { name: "y".to_string(), count: 3 });
}

#[test]
fn datum_extraction_and_duplication() {
    assert_eq!(Datum::Int64(5).into_i64(), 5);
    assert_eq!(Datum::String("s".to_string()).into_string(), "s");
    assert_eq!(Datum::Bytes(vec![1, 2, 3]).into_bytes(), vec![1, 2, 3]);
    assert_eq!(Datum::Bool(true).into_bool(), true);
    let bits = (1.5f64).to_bits();
    assert_eq!(Datum::Float64(bits).into_f64_bits(), bits);
    let d = Datum::String("dup".to_string());
    assert_eq!(d.duplicate(), d);
}

#[test]
fn object_id_wraps_its_integer() {
    let id = ObjectId::new(42);
    assert_eq!(id.into_i64(), 42);
    assert_eq!(id, ObjectId::new(42));
    assert_ne!(id, ObjectId::new(43));
}
