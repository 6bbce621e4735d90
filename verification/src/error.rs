use vstd::prelude::*;
use crate::data::{DataType, ObjectId};
use crate::object::Schema;
use crate::text::{spec_str_contains, spec_token_after, str_contains, token_after};

verus! {

/// The error taxonomy of the engine. Backend-internal errors propagate
/// opaquely as `Storage` with the backend's message text.
#[derive(Debug, PartialEq)]
pub enum OrmError {
    /// The identity has no live row, or was removed earlier in this
    /// transaction.
    NotFound { object_id: ObjectId, type_label: &'static str },
    /// Backend resource contention; the caller may retry.
    LockConflict,
    /// The stored table lacks a column the type declares.
    MissingColumn {
        type_label: &'static str,
        attr_name: &'static str,
        table_name: &'static str,
        column_name: &'static str,
    },
    /// A stored value's backend type does not match the declared column type.
    UnexpectedType {
        type_label: &'static str,
        attr_name: &'static str,
        table_name: &'static str,
        column_name: &'static str,
        expected_type: DataType,
        got_type: String,
    },
    /// Any other backend rejection, carried as its message.
    Storage(String),
}

/// Whether a backend message reports a column that the stored table lacks.
pub fn has_missing_column_msg(s: &str) -> (r: bool)
    ensures
        r == (spec_str_contains(s@, "no such column:"@) || spec_str_contains(
            s@,
            "has no column named"@,
        )),
{
    str_contains(s, "no such column:") || str_contains(s, "has no column named")
}

/// Whether a backend message reports that the resource is locked.
pub fn is_lock_conflict_msg(s: &str) -> (r: bool)
    ensures
        r == spec_str_contains(s@, "database is locked"@),
{
    str_contains(s, "database is locked")
}

/// The raw column name a backend "missing column" message carries: the token
/// after its marker phrase, preferring "no such column: " over "has no
/// column named ".
pub open spec fn spec_column_token(msg: Seq<char>, t: Seq<char>) -> bool {
    if spec_str_contains(msg, "no such column: "@) {
        spec_token_after(msg, "no such column: "@, t)
    } else {
        spec_str_contains(msg, "has no column named "@) && spec_token_after(
            msg,
            "has no column named "@,
            t,
        )
    }
}

/// Pulls the raw column name out of a backend "missing column" message.
pub fn column_token<'a>(msg: &'a str) -> (r: Option<&'a str>)
    ensures
        match r {
            Some(t) => spec_column_token(msg@, t@),
            None => !spec_str_contains(msg@, "no such column: "@) && !spec_str_contains(
                msg@,
                "has no column named "@,
            ),
        },
{
    match token_after(msg, "no such column: ") {
        Some(t) => Some(t),
        None => token_after(msg, "has no column named "),
    }
}

/// Resolves a backend "missing column" message against the schema: the token
/// after the message's marker phrase names the raw column; the first declared
/// column containing that token yields the typed diagnostic naming the
/// offending field, column, table and type.
pub fn missing_column_error(msg: &str, schema: &Schema) -> (r: Option<OrmError>)
    requires
        schema@.wf(),
    ensures
        match r {
            Some(e) => e matches OrmError::MissingColumn {
                type_label,
                attr_name,
                table_name,
                column_name,
            } && {
                &&& table_name@ == schema@.table_name
                &&& type_label@ == schema@.type_label
                &&& exists|t: Seq<char>, i: int|
                    {
                        &&& #[trigger] spec_column_token(msg@, t)
                        &&& 0 <= i < schema@.column_names.len()
                        &&& column_name@ == #[trigger] schema@.column_names[i]
                        &&& attr_name@ == schema@.field_names[i]
                        &&& spec_str_contains(schema@.column_names[i], t)
                        &&& forall|j: int|
                            0 <= j < i ==> !spec_str_contains(#[trigger] schema@.column_names[j], t)
                    }
            },
            None => forall|t: Seq<char>, j: int|
                #[trigger] spec_column_token(msg@, t) && 0 <= j < schema@.column_names.len()
                    ==> !spec_str_contains(#[trigger] schema@.column_names[j], t),
        },
{
    let token = match column_token(msg) {
        Some(t) => t,
        None => {
            proof {
                assert forall|t: Seq<char>, j: int|
                    #[trigger] spec_column_token(msg@, t) && 0 <= j
                        < schema@.column_names.len() implies !spec_str_contains(
                    #[trigger] schema@.column_names[j],
                    t,
                ) by {
                    assert(!spec_column_token(msg@, t));
                }
            }
            return None;
        },
    };
    match schema.get_same_column_name(token) {
        Some((column_name, i)) => {
            let attr_name = schema.get_nth_field_name(i);
            Some(
                OrmError::MissingColumn {
                    type_label: schema.get_type_name(),
                    attr_name,
                    table_name: schema.get_table_name(),
                    column_name,
                },
            )
        },
        None => {
            proof {
                assert forall|t: Seq<char>, j: int|
                    #[trigger] spec_column_token(msg@, t) && 0 <= j
                        < schema@.column_names.len() implies !spec_str_contains(
                    #[trigger] schema@.column_names[j],
                    t,
                ) by {
                    if spec_column_token(msg@, t) {
                        if spec_str_contains(msg@, "no such column: "@) {
                            crate::text::lemma_token_after_unique(
                                msg@,
                                "no such column: "@,
                                t,
                                token@,
                            );
                        } else {
                            crate::text::lemma_token_after_unique(
                                msg@,
                                "has no column named "@,
                                t,
                                token@,
                            );
                        }
                    }
                }
            }
            None
        },
    }
}

} // verus!
