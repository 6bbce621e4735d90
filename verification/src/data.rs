use vstd::prelude::*;
use vstd::pervasive::unreached;
use vstd::slice::slice_to_vec;

verus! {

/// Stable integer key assigned by the storage layer when an object is first
/// inserted; unique within its table and used as the cache key and as the
/// WHERE-clause key for update, select and delete.
#[derive(Clone, Copy, PartialEq, Eq, Structural, Debug, Hash)]
pub struct ObjectId {
    n: i64,
}

impl View for ObjectId {
    type V = i64;

    closed spec fn view(&self) -> i64 {
        self.n
    }
}

impl ObjectId {
    pub fn new(n: i64) -> (r: Self)
        ensures
            r@ == n,
    {
        ObjectId { n }
    }

    pub fn into_i64(&self) -> (r: i64)
        ensures
            r == self@,
    {
        self.n
    }
}

/// The five primitive kinds a column can hold.
#[derive(Clone, Copy, PartialEq, Eq, Structural, Debug)]
pub enum DataType {
    String,
    Bytes,
    Int64,
    Float64,
    Bool,
}

impl DataType {
    /// The backend's native column type name for this kind.
    pub fn sql_type_name(self) -> (r: &'static str)
        ensures
            r@ == spec_sql_type_name(self),
    {
        match self {
            DataType::String => "TEXT",
            DataType::Bytes => "BLOB",
            DataType::Int64 => "BIGINT",
            DataType::Float64 => "REAL",
            DataType::Bool => "TINYINT",
        }
    }

    /// The kind that a backend column type name declares: the inverse of
    /// `sql_type_name`; a name outside the closed set maps to nothing.
    pub fn from_sql_type_name(name: &str) -> (r: Option<DataType>)
        ensures
            r matches Some(t) ==> spec_sql_type_name(t) == name@,
            r is None ==> forall|t: DataType| spec_sql_type_name(t) != name@,
    {
        if crate::text::str_eq(name, "TEXT") {
            Some(DataType::String)
        } else if crate::text::str_eq(name, "BLOB") {
            Some(DataType::Bytes)
        } else if crate::text::str_eq(name, "BIGINT") {
            Some(DataType::Int64)
        } else if crate::text::str_eq(name, "REAL") {
            Some(DataType::Float64)
        } else if crate::text::str_eq(name, "TINYINT") {
            Some(DataType::Bool)
        } else {
            None
        }
    }

    /// The kind that a canonical source-type name declares, used for reverse
    /// lookup; a name outside the closed set maps to nothing.
    pub fn from_source_name(name: &str) -> (r: Option<DataType>)
        ensures
            r == spec_from_source_name(name@),
    {
        if crate::text::str_eq(name, "String") {
            Some(DataType::String)
        } else if crate::text::str_eq(name, "Vec < u8 >") {
            Some(DataType::Bytes)
        } else if crate::text::str_eq(name, "i64") {
            Some(DataType::Int64)
        } else if crate::text::str_eq(name, "f64") {
            Some(DataType::Float64)
        } else if crate::text::str_eq(name, "bool") {
            Some(DataType::Bool)
        } else {
            None
        }
    }
}

/// The reverse mapping from a canonical source-type name to its kind.
pub open spec fn spec_from_source_name(name: Seq<char>) -> Option<DataType> {
    if name == "String"@ {
        Some(DataType::String)
    } else if name == "Vec < u8 >"@ {
        Some(DataType::Bytes)
    } else if name == "i64"@ {
        Some(DataType::Int64)
    } else if name == "f64"@ {
        Some(DataType::Float64)
    } else if name == "bool"@ {
        Some(DataType::Bool)
    } else {
        None
    }
}

/// The backend column type name that each kind maps to.
pub open spec fn spec_sql_type_name(t: DataType) -> Seq<char> {
    match t {
        DataType::String => "TEXT"@,
        DataType::Bytes => "BLOB"@,
        DataType::Int64 => "BIGINT"@,
        DataType::Float64 => "REAL"@,
        DataType::Bool => "TINYINT"@,
    }
}

/// A single column value: a closed tagged union over the five primitive
/// kinds. A 64-bit float is carried as its IEEE 754 bit pattern, so the
/// engine itself never computes on floating point.
#[derive(Clone, Debug, PartialEq)]
pub enum Datum {
    String(String),
    Bytes(Vec<u8>),
    Int64(i64),
    Float64(u64),
    Bool(bool),
}

/// The mathematical model of a `Datum`.
pub enum DatumV {
    String(Seq<char>),
    Bytes(Seq<u8>),
    Int64(i64),
    Float64(u64),
    Bool(bool),
}

impl View for Datum {
    type V = DatumV;

    open spec fn view(&self) -> DatumV {
        match self {
            Datum::String(s) => DatumV::String(s@),
            Datum::Bytes(b) => DatumV::Bytes(b@),
            Datum::Int64(n) => DatumV::Int64(*n),
            Datum::Float64(bits) => DatumV::Float64(*bits),
            Datum::Bool(b) => DatumV::Bool(*b),
        }
    }
}

impl DeepView for Datum {
    type V = DatumV;

    open spec fn deep_view(&self) -> DatumV {
        self.view()
    }
}

/// The kind of a value.
pub open spec fn kind_of(v: DatumV) -> DataType {
    match v {
        DatumV::String(_) => DataType::String,
        DatumV::Bytes(_) => DataType::Bytes,
        DatumV::Int64(_) => DataType::Int64,
        DatumV::Float64(_) => DataType::Float64,
        DatumV::Bool(_) => DataType::Bool,
    }
}

impl Datum {
    /// Extracts the text payload. Extraction from the wrong kind is a
    /// schema-contract violation, excluded by the precondition.
    pub fn into_string(self) -> (r: String)
        requires
            self@ is String,
        ensures
            r@ == self@->String_0,
    {
        match self {
            Datum::String(s) => s,
            _ => unreached(),
        }
    }

    /// Extracts the binary payload.
    pub fn into_bytes(self) -> (r: Vec<u8>)
        requires
            self@ is Bytes,
        ensures
            r@ == self@->Bytes_0,
    {
        match self {
            Datum::Bytes(b) => b,
            _ => unreached(),
        }
    }

    /// Extracts the integer payload.
    pub fn into_i64(self) -> (r: i64)
        requires
            self@ is Int64,
        ensures
            r == self@->Int64_0,
    {
        match self {
            Datum::Int64(n) => n,
            _ => unreached(),
        }
    }

    /// Extracts the bit pattern of the float payload.
    pub fn into_f64_bits(self) -> (r: u64)
        requires
            self@ is Float64,
        ensures
            r == self@->Float64_0,
    {
        match self {
            Datum::Float64(bits) => bits,
            _ => unreached(),
        }
    }

    /// Extracts the boolean payload.
    pub fn into_bool(self) -> (r: bool)
        requires
            self@ is Bool,
        ensures
            r == self@->Bool_0,
    {
        match self {
            Datum::Bool(b) => b,
            _ => unreached(),
        }
    }

    /// An exact copy; every payload kind is rebuilt value for value.
    pub fn duplicate(&self) -> (r: Datum)
        ensures
            r@ == self@,
    {
        match self {
            Datum::String(s) => Datum::String(s.clone()),
            Datum::Bytes(b) => Datum::Bytes(slice_to_vec(b.as_slice())),
            Datum::Int64(n) => Datum::Int64(*n),
            Datum::Float64(bits) => Datum::Float64(*bits),
            Datum::Bool(b) => Datum::Bool(*b),
        }
    }
}

/// An ordered sequence of values, one per column, in the schema's column
/// order.
pub type Row = Vec<Datum>;

/// A backend value as the store handed it back, before any check against the
/// declared column type: one of the five dynamic shapes the backend knows.
/// A Real value carries its IEEE 754 bit pattern.
#[derive(Debug, PartialEq)]
pub enum SqlDyn {
    Null,
    Integer(i64),
    Real(u64),
    Text(String),
    Blob(Vec<u8>),
}

/// The mathematical model of a `SqlDyn`.
pub enum SqlDynV {
    Null,
    Integer(i64),
    Real(u64),
    Text(Seq<char>),
    Blob(Seq<u8>),
}

impl View for SqlDyn {
    type V = SqlDynV;

    open spec fn view(&self) -> SqlDynV {
        match self {
            SqlDyn::Null => SqlDynV::Null,
            SqlDyn::Integer(n) => SqlDynV::Integer(*n),
            SqlDyn::Real(bits) => SqlDynV::Real(*bits),
            SqlDyn::Text(s) => SqlDynV::Text(s@),
            SqlDyn::Blob(b) => SqlDynV::Blob(b@),
        }
    }
}

impl DeepView for SqlDyn {
    type V = SqlDynV;

    open spec fn deep_view(&self) -> SqlDynV {
        self.view()
    }
}

/// The name of a dynamic value's shape, as the backend renders it.
pub open spec fn spec_sql_dyn_name(d: SqlDynV) -> Seq<char> {
    match d {
        SqlDynV::Null => "Null"@,
        SqlDynV::Integer(_) => "Integer"@,
        SqlDynV::Real(_) => "Real"@,
        SqlDynV::Text(_) => "Text"@,
        SqlDynV::Blob(_) => "Blob"@,
    }
}

impl SqlDyn {
    /// The name of this value's dynamic shape.
    pub fn dyn_name(&self) -> (r: &'static str)
        ensures
            r@ == spec_sql_dyn_name(self@),
    {
        match self {
            SqlDyn::Null => "Null",
            SqlDyn::Integer(_) => "Integer",
            SqlDyn::Real(_) => "Real",
            SqlDyn::Text(_) => "Text",
            SqlDyn::Blob(_) => "Blob",
        }
    }
}

/// How one backend value decodes against one declared column type: text,
/// bytes and integers must arrive in their own shape; a boolean arrives as an
/// integer, nonzero meaning true; a float arrives as the eight little-endian
/// bytes of its bit pattern, the shape this engine itself stores. Anything
/// else is a type mismatch.
pub open spec fn spec_decode(d: SqlDynV, t: DataType) -> Option<DatumV> {
    match t {
        DataType::String => match d {
            SqlDynV::Text(s) => Some(DatumV::String(s)),
            _ => None,
        },
        DataType::Bytes => match d {
            SqlDynV::Blob(b) => Some(DatumV::Bytes(b)),
            _ => None,
        },
        DataType::Int64 => match d {
            SqlDynV::Integer(n) => Some(DatumV::Int64(n)),
            _ => None,
        },
        DataType::Float64 => match d {
            SqlDynV::Blob(b) => if b.len() == 8 {
                Some(DatumV::Float64(vstd::bytes::spec_u64_from_le_bytes(b)))
            } else {
                None
            },
            _ => None,
        },
        DataType::Bool => match d {
            SqlDynV::Integer(n) => Some(DatumV::Bool(n != 0)),
            _ => None,
        },
    }
}

/// A value that decodes has the declared kind.
pub proof fn lemma_decode_kind(d: SqlDynV, t: DataType)
    ensures
        spec_decode(d, t) matches Some(v) ==> kind_of(v) == t,
{
}

/// Every value of the row has the kind that the column type list declares,
/// index for index.
pub open spec fn row_matches_types(row: Seq<DatumV>, types: Seq<DataType>) -> bool {
    &&& row.len() == types.len()
    &&& forall|i: int| 0 <= i < row.len() ==> kind_of(#[trigger] row[i]) == types[i]
}

/// An exact copy of a row.
pub fn duplicate_row(row: &Row) -> (r: Row)
    ensures
        r.deep_view() == row.deep_view(),
{
    let mut out: Row = Vec::new();
    let mut i: usize = 0;
    while i < row.len()
        invariant
            i <= row.len(),
            out@.len() == i,
            forall|j: int| 0 <= j < i ==> out@[j]@ == #[trigger] row@[j]@,
        decreases row.len() - i,
    {
        out.push(row[i].duplicate());
        i = i + 1;
    }
    proof {
        assert(out.deep_view() =~= row.deep_view());
    }
    out
}

} // verus!
