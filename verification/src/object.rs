use vstd::prelude::*;
use vstd::string::StringExecFns;
use crate::data::{row_matches_types, spec_sql_type_name, DataType, Row, DatumV};
use crate::text::{join_into, spec_join, spec_str_contains, str_contains};

verus! {

/// The mathematical model of a per-type schema: table name, type name and
/// three parallel ordered lists that share index correspondence.
#[verifier::ext_equal]
pub struct SchemaV {
    pub table_name: Seq<char>,
    pub type_label: Seq<char>,
    pub field_names: Seq<Seq<char>>,
    pub column_names: Seq<Seq<char>>,
    pub column_types: Seq<DataType>,
}

impl SchemaV {
    /// The three parallel lists have equal length.
    pub open spec fn wf(self) -> bool {
        &&& self.field_names.len() == self.column_types.len()
        &&& self.column_names.len() == self.column_types.len()
    }
}

/// Immutable per-type description of table and column layout, derived once
/// per mapped type.
pub struct Schema {
    table_name: &'static str,
    type_label: &'static str,
    field_names: Vec<&'static str>,
    column_names: Vec<&'static str>,
    column_types: Vec<DataType>,
}

impl View for Schema {
    type V = SchemaV;

    closed spec fn view(&self) -> SchemaV {
        SchemaV {
            table_name: self.table_name@,
            type_label: self.type_label@,
            field_names: self.field_names.deep_view(),
            column_names: self.column_names.deep_view(),
            column_types: self.column_types@,
        }
    }
}

/// Each column rendered as `name TYPE`, consecutive columns separated by a
/// comma.
pub open spec fn spec_col_defs(names: Seq<Seq<char>>, types: Seq<DataType>) -> Seq<char>
    decreases names.len(),
{
    if names.len() == 0 {
        Seq::empty()
    } else if names.len() == 1 {
        names[0] + " "@ + spec_sql_type_name(types[0])
    } else {
        spec_col_defs(names.drop_last(), types.drop_last()) + ","@ + names.last() + " "@
            + spec_sql_type_name(types.last())
    }
}

/// The column-definition text for table creation: an auto-incrementing
/// identity column first, then one `name TYPE` pair per declared column.
pub open spec fn spec_text_description(s: SchemaV) -> Seq<char> {
    if s.column_names.len() == 0 {
        "id INTEGER PRIMARY KEY AUTOINCREMENT"@
    } else {
        "id INTEGER PRIMARY KEY AUTOINCREMENT,"@ + spec_col_defs(s.column_names, s.column_types)
    }
}

/// Each column rendered as `name = ?`, consecutive columns separated by a
/// comma: the SET list of an update statement.
pub open spec fn spec_update_list(cols: Seq<Seq<char>>) -> Seq<char>
    decreases cols.len(),
{
    if cols.len() == 0 {
        Seq::empty()
    } else if cols.len() == 1 {
        cols[0] + " = ?"@
    } else {
        spec_update_list(cols.drop_last()) + ","@ + cols.last() + " = ?"@
    }
}

impl Schema {
    /// Builds a schema from its five parts; the three lists must be parallel.
    pub fn new(
        table_name: &'static str,
        type_label: &'static str,
        field_names: Vec<&'static str>,
        column_names: Vec<&'static str>,
        column_types: Vec<DataType>,
    ) -> (r: Schema)
        requires
            field_names@.len() == column_types@.len(),
            column_names@.len() == column_types@.len(),
        ensures
            r@ == (SchemaV {
                table_name: table_name@,
                type_label: type_label@,
                field_names: field_names.deep_view(),
                column_names: column_names.deep_view(),
                column_types: column_types@,
            }),
            r@.wf(),
    {
        Schema { table_name, type_label, field_names, column_names, column_types }
    }

    /// An exact copy: every list is rebuilt element for element.
    pub fn duplicate(&self) -> (r: Schema)
        ensures
            r@ == self@,
    {
        let r = Schema {
            table_name: self.table_name,
            type_label: self.type_label,
            field_names: vstd::slice::slice_to_vec(self.field_names.as_slice()),
            column_names: vstd::slice::slice_to_vec(self.column_names.as_slice()),
            column_types: vstd::slice::slice_to_vec(self.column_types.as_slice()),
        };
        proof {
            assert(r@ =~= self@);
        }
        r
    }

    pub fn get_table_name(&self) -> (r: &'static str)
        ensures
            r@ == self@.table_name,
    {
        self.table_name
    }

    pub fn get_type_name(&self) -> (r: &'static str)
        ensures
            r@ == self@.type_label,
    {
        self.type_label
    }

    pub fn get_types(&self) -> (r: &[DataType])
        ensures
            r@ == self@.column_types,
    {
        self.column_types.as_slice()
    }

    /// The declared column names joined with the separator.
    pub fn column_name_list(&self, separator: &str) -> (r: String)
        ensures
            r@ == spec_join(self@.column_names, separator@),
    {
        let mut out = String::new();
        join_into(&mut out, &self.column_names, separator);
        out
    }

    /// The same comma-joined column list, offered beside `column_name_list`.
    pub fn column_fields_name(&self, separator: &str) -> (r: String)
        ensures
            r@ == spec_join(self@.column_names, separator@),
    {
        let mut out = String::new();
        join_into(&mut out, &self.column_names, separator);
        out
    }

    /// The SET list of an update statement: `name = ?` per column,
    /// comma-separated.
    pub fn prepare_update_column_list(&self) -> (r: String)
        ensures
            r@ == spec_update_list(self@.column_names),
    {
        let mut out = String::new();
        let mut i: usize = 0;
        while i < self.column_names.len()
            invariant
                i <= self.column_names@.len(),
                out@ == spec_update_list(self@.column_names.take(i as int)),
            decreases self.column_names@.len() - i,
        {
            if i > 0 {
                out.append(",");
            }
            out.append(self.column_names[i]);
            out.append(" = ?");
            proof {
                let cv = self@.column_names;
                assert(cv.take(i + 1).drop_last() =~= cv.take(i as int));
                assert(cv.take(i + 1).last() == cv[i as int]);
            }
            i = i + 1;
        }
        proof {
            assert(self@.column_names.take(self@.column_names.len() as int)
                =~= self@.column_names);
        }
        out
    }

    /// The first declared column whose name contains the given text, with its
    /// index; used to resolve a raw backend column name back to the declared
    /// column.
    pub fn get_same_column_name(&self, s: &str) -> (r: Option<(&'static str, usize)>)
        ensures
            match r {
                Some((name, i)) => {
                    &&& i < self@.column_names.len()
                    &&& name@ == self@.column_names[i as int]
                    &&& spec_str_contains(self@.column_names[i as int], s@)
                    &&& forall|j: int|
                        0 <= j < i ==> !spec_str_contains(#[trigger] self@.column_names[j], s@)
                },
                None => forall|j: int|
                    0 <= j < self@.column_names.len()
                        ==> !spec_str_contains(#[trigger] self@.column_names[j], s@),
            },
    {
        let mut i: usize = 0;
        while i < self.column_names.len()
            invariant
                i <= self.column_names@.len(),
                forall|j: int|
                    0 <= j < i ==> !spec_str_contains(#[trigger] self@.column_names[j], s@),
            decreases self.column_names@.len() - i,
        {
            if str_contains(self.column_names[i], s) {
                return Some((self.column_names[i], i));
            }
            i = i + 1;
        }
        None
    }

    pub fn get_nth_column_name(&self, n: usize) -> (r: &'static str)
        requires
            n < self@.column_names.len(),
        ensures
            r@ == self@.column_names[n as int],
    {
        self.column_names[n]
    }

    pub fn get_nth_field_name(&self, n: usize) -> (r: &'static str)
        requires
            n < self@.field_names.len(),
        ensures
            r@ == self@.field_names[n as int],
    {
        self.field_names[n]
    }

    pub fn columns_count(&self) -> (r: usize)
        ensures
            r == self@.column_types.len(),
    {
        self.column_types.len()
    }

    /// The schema text used for table creation: always prefixes the
    /// auto-incrementing identity column.
    pub fn text_description(&self) -> (r: String)
        requires
            self@.wf(),
        ensures
            r@ == spec_text_description(self@),
    {
        let mut out = String::from_str("id INTEGER PRIMARY KEY AUTOINCREMENT");
        if self.column_names.len() == 0 {
            return out;
        }
        out.append(",");
        proof {
            reveal_strlit("id INTEGER PRIMARY KEY AUTOINCREMENT");
            reveal_strlit(",");
            reveal_strlit("id INTEGER PRIMARY KEY AUTOINCREMENT,");
            assert(("id INTEGER PRIMARY KEY AUTOINCREMENT"@ + ","@)
                =~= "id INTEGER PRIMARY KEY AUTOINCREMENT,"@);
            assert(spec_col_defs(self@.column_names.take(0), self@.column_types.take(0))
                =~= Seq::<char>::empty());
            assert(out@ =~= "id INTEGER PRIMARY KEY AUTOINCREMENT,"@ + spec_col_defs(
                self@.column_names.take(0),
                self@.column_types.take(0),
            ));
        }
        let mut i: usize = 0;
        while i < self.column_names.len()
            invariant
                self@.wf(),
                i <= self.column_names@.len(),
                self.column_names@.len() > 0,
                out@ == "id INTEGER PRIMARY KEY AUTOINCREMENT,"@ + spec_col_defs(
                    self@.column_names.take(i as int),
                    self@.column_types.take(i as int),
                ),
            decreases self.column_names@.len() - i,
        {
            if i > 0 {
                out.append(",");
            }
            out.append(self.column_names[i]);
            out.append(" ");
            out.append(self.column_types[i].sql_type_name());
            proof {
                let cv = self@.column_names;
                let tv = self@.column_types;
                assert(cv.take(i + 1).drop_last() =~= cv.take(i as int));
                assert(tv.take(i + 1).drop_last() =~= tv.take(i as int));
                assert(cv.take(i + 1).last() == cv[i as int]);
                assert(tv.take(i + 1).last() == tv[i as int]);
            }
            i = i + 1;
        }
        proof {
            assert(self@.column_names.take(self@.column_names.len() as int)
                =~= self@.column_names);
            assert(self@.column_types.take(self@.column_types.len() as int)
                =~= self@.column_types);
        }
        out
    }
}

/// The capability a mapped type provides: compile-time-fixed schema metadata
/// plus conversion to and from a row. Describing the schema is pure and
/// repeatable; conversion is a pure function pair, inverse to each other in
/// the sense stated by the `as_row` and `from_row` contracts.
pub trait Object: Sized {
    /// The object's row model: one value per declared field, in declared
    /// order.
    spec fn obj_view(&self) -> Seq<DatumV>;

    /// The type's schema model.
    spec fn spec_schema() -> SchemaV;

    /// The schema's three lists are parallel.
    proof fn schema_wf()
        ensures
            Self::spec_schema().wf(),
    ;

    /// Converts the object to a row, one value per field in declared order.
    fn as_row(&self) -> (r: Row)
        ensures
            r.deep_view() == self.obj_view(),
            row_matches_types(self.obj_view(), Self::spec_schema().column_types),
    ;

    /// Reconstructs an object from a row: the inverse mapping, same order.
    fn from_row(row: Row) -> (r: Self)
        requires
            row_matches_types(row.deep_view(), Self::spec_schema().column_types),
        ensures
            r.obj_view() == row.deep_view(),
    ;

    fn table_name() -> (r: &'static str)
        ensures
            r@ == Self::spec_schema().table_name,
    ;

    fn type_label() -> (r: &'static str)
        ensures
            r@ == Self::spec_schema().type_label,
    ;

    fn field_names() -> (r: Vec<&'static str>)
        ensures
            r.deep_view() == Self::spec_schema().field_names,
    ;

    fn column_names() -> (r: Vec<&'static str>)
        ensures
            r.deep_view() == Self::spec_schema().column_names,
    ;

    fn column_types() -> (r: Vec<DataType>)
        ensures
            r@ == Self::spec_schema().column_types,
    ;

    /// The runtime schema descriptor, assembled from the five accessors.
    fn describe() -> (r: Schema)
        ensures
            r@ == Self::spec_schema(),
            r@.wf(),
    {
        proof {
            Self::schema_wf();
        }
        let r = Schema::new(
            Self::table_name(),
            Self::type_label(),
            Self::field_names(),
            Self::column_names(),
            Self::column_types(),
        );
        proof {
            assert(r@ =~= Self::spec_schema());
        }
        r
    }
}

/// Round trip: converting any object of a mapped type to a row and
/// reconstructing from that row yields an object with the same row model,
/// field for field.
pub fn round_trip<T: Object>(o: &T) -> (r: T)
    ensures
        r.obj_view() == o.obj_view(),
{
    T::from_row(o.as_row())
}

} // verus!
