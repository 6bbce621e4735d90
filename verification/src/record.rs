use vstd::prelude::*;
use crate::data::{row_matches_types, DataType, Datum, DatumV, Row};
use crate::object::{Object, SchemaV};

verus! {

/// A small mapped type, the reference implementation of the Object contract:
/// one text column and one integer column.
#[derive(Clone, Debug, PartialEq)]
pub struct Record {
    pub name: String,
    pub count: i64,
}

impl Object for Record {
    open spec fn obj_view(&self) -> Seq<DatumV> {
        seq![DatumV::String(self.name@), DatumV::Int64(self.count)]
    }

    open spec fn spec_schema() -> SchemaV {
        SchemaV {
            table_name: "record"@,
            type_label: "Record"@,
            field_names: seq!["name"@, "count"@],
            column_names: seq!["name"@, "count"@],
            column_types: seq![DataType::String, DataType::Int64],
        }
    }

    proof fn schema_wf() {
    }

    fn as_row(&self) -> (r: Row) {
        let mut row: Row = Vec::new();
        row.push(Datum::String(self.name.clone()));
        row.push(Datum::Int64(self.count));
        proof {
            assert(row.deep_view() =~= self.obj_view());
            assert(row_matches_types(self.obj_view(), Self::spec_schema().column_types));
        }
        row
    }

    fn from_row(row: Row) -> (r: Self) {
        let ghost orig = row.deep_view();
        let mut row = row;
        let count_v = row.pop().unwrap();
        let name_v = row.pop().unwrap();
        proof {
            assert(count_v@ == orig[1]);
            assert(name_v@ == orig[0]);
        }
        let count = count_v.into_i64();
        let name = name_v.into_string();
        let r = Record { name, count };
        proof {
            assert(r.obj_view() =~= orig);
        }
        r
    }

    fn table_name() -> (r: &'static str) {
        "record"
    }

    fn type_label() -> (r: &'static str) {
        "Record"
    }

    fn field_names() -> (r: Vec<&'static str>) {
        let mut v: Vec<&'static str> = Vec::new();
        v.push("name");
        v.push("count");
        proof {
            assert(v.deep_view() =~= Self::spec_schema().field_names);
        }
        v
    }

    fn column_names() -> (r: Vec<&'static str>) {
        let mut v: Vec<&'static str> = Vec::new();
        v.push("name");
        v.push("count");
        proof {
            assert(v.deep_view() =~= Self::spec_schema().column_names);
        }
        v
    }

    fn column_types() -> (r: Vec<DataType>) {
        let mut v: Vec<DataType> = Vec::new();
        v.push(DataType::String);
        v.push(DataType::Int64);
        proof {
            assert(v@ =~= Self::spec_schema().column_types);
        }
        v
    }
}

/// A mapped type covering the remaining primitive kinds: text, binary data,
/// a 64-bit float carried as its bit pattern, and a boolean. Its float
/// column is declared under a name of its own, overriding the field name.
#[derive(Clone, Debug, PartialEq)]
pub struct Sample {
    pub label: String,
    pub data: Vec<u8>,
    pub ratio_bits: u64,
    pub flag: bool,
}

impl Object for Sample {
    open spec fn obj_view(&self) -> Seq<DatumV> {
        seq![
            DatumV::String(self.label@),
            DatumV::Bytes(self.data@),
            DatumV::Float64(self.ratio_bits),
            DatumV::Bool(self.flag),
        ]
    }

    open spec fn spec_schema() -> SchemaV {
        SchemaV {
            table_name: "sample"@,
            type_label: "Sample"@,
            field_names: seq!["label"@, "data"@, "ratio_bits"@, "flag"@],
            column_names: seq!["label"@, "data"@, "ratio"@, "flag"@],
            column_types: seq![
                DataType::String,
                DataType::Bytes,
                DataType::Float64,
                DataType::Bool,
            ],
        }
    }

    proof fn schema_wf() {
    }

    fn as_row(&self) -> (r: Row) {
        let mut row: Row = Vec::new();
        row.push(Datum::String(self.label.clone()));
        row.push(Datum::Bytes(vstd::slice::slice_to_vec(self.data.as_slice())));
        row.push(Datum::Float64(self.ratio_bits));
        row.push(Datum::Bool(self.flag));
        proof {
            assert(row.deep_view() =~= self.obj_view());
            assert(row_matches_types(self.obj_view(), Self::spec_schema().column_types));
        }
        row
    }

    fn from_row(row: Row) -> (r: Self) {
        let ghost orig = row.deep_view();
        let mut row = row;
        let flag_v = row.pop().unwrap();
        let ratio_v = row.pop().unwrap();
        let data_v = row.pop().unwrap();
        let label_v = row.pop().unwrap();
        proof {
            assert(flag_v@ == orig[3]);
            assert(ratio_v@ == orig[2]);
            assert(data_v@ == orig[1]);
            assert(label_v@ == orig[0]);
        }
        let r = Sample {
            label: label_v.into_string(),
            data: data_v.into_bytes(),
            ratio_bits: ratio_v.into_f64_bits(),
            flag: flag_v.into_bool(),
        };
        proof {
            assert(r.obj_view() =~= orig);
        }
        r
    }

    fn table_name() -> (r: &'static str) {
        "sample"
    }

    fn type_label() -> (r: &'static str) {
        "Sample"
    }

    fn field_names() -> (r: Vec<&'static str>) {
        let mut v: Vec<&'static str> = Vec::new();
        v.push("label");
        v.push("data");
        v.push("ratio_bits");
        v.push("flag");
        proof {
            assert(v.deep_view() =~= Self::spec_schema().field_names);
        }
        v
    }

    fn column_names() -> (r: Vec<&'static str>) {
        let mut v: Vec<&'static str> = Vec::new();
        v.push("label");
        v.push("data");
        v.push("ratio");
        v.push("flag");
        proof {
            assert(v.deep_view() =~= Self::spec_schema().column_names);
        }
        v
    }

    fn column_types() -> (r: Vec<DataType>) {
        let mut v: Vec<DataType> = Vec::new();
        v.push(DataType::String);
        v.push(DataType::Bytes);
        v.push(DataType::Float64);
        v.push(DataType::Bool);
        proof {
            assert(v@ =~= Self::spec_schema().column_types);
        }
        v
    }
}

/// A mapped type without fields: its rows are empty and only the identity
/// column carries anything. Creation, fetch and deletion still work.
#[derive(Clone, Debug, PartialEq)]
pub struct Stamp;

impl Object for Stamp {
    open spec fn obj_view(&self) -> Seq<DatumV> {
        Seq::empty()
    }

    open spec fn spec_schema() -> SchemaV {
        SchemaV {
            table_name: "stamp"@,
            type_label: "Stamp"@,
            field_names: Seq::empty(),
            column_names: Seq::empty(),
            column_types: Seq::empty(),
        }
    }

    proof fn schema_wf() {
    }

    fn as_row(&self) -> (r: Row) {
        let row: Row = Vec::new();
        proof {
            assert(row.deep_view() =~= self.obj_view());
        }
        row
    }

    fn from_row(row: Row) -> (r: Self) {
        let r = Stamp;
        proof {
            assert(r.obj_view() =~= row.deep_view());
        }
        r
    }

    fn table_name() -> (r: &'static str) {
        "stamp"
    }

    fn type_label() -> (r: &'static str) {
        "Stamp"
    }

    fn field_names() -> (r: Vec<&'static str>) {
        let v: Vec<&'static str> = Vec::new();
        proof {
            assert(v.deep_view() =~= Self::spec_schema().field_names);
        }
        v
    }

    fn column_names() -> (r: Vec<&'static str>) {
        let v: Vec<&'static str> = Vec::new();
        proof {
            assert(v.deep_view() =~= Self::spec_schema().column_names);
        }
        v
    }

    fn column_types() -> (r: Vec<DataType>) {
        let v: Vec<DataType> = Vec::new();
        proof {
            assert(v@ =~= Self::spec_schema().column_types);
        }
        v
    }
}

/// Two records with the same row model are equal field for field: the row
/// model loses nothing.
pub proof fn lemma_record_view_injective(a: Record, b: Record)
    requires
        a.obj_view() == b.obj_view(),
    ensures
        a.name@ == b.name@,
        a.count == b.count,
{
    assert(a.obj_view()[0] == b.obj_view()[0]);
    assert(a.obj_view()[1] == b.obj_view()[1]);
}

} // verus!
