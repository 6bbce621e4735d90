use vstd::prelude::*;
use core::marker::PhantomData;
use crate::data::{duplicate_row, row_matches_types, DatumV, ObjectId, Row};
use crate::error::OrmError;
use crate::object::{Object, Schema, SchemaV};
use crate::storage::{
    begin_backend, commit_backend, create_table, delete_row, insert_row, rollback_backend,
    select_row, table_exists, update_row,
};

verus! {

/// Per-identity dirty state: Clean has no pending write, Modified a pending
/// update, Removed a pending delete. Removed is terminal within the
/// transaction.
#[derive(Clone, Copy, PartialEq, Eq, Structural, Debug)]
pub enum ObjectState {
    Clean,
    Modified,
    Removed,
}

/// The mathematical model of one cache entry: the identity, the owning
/// type's schema, the object's current row encoding, its dirty state and
/// whether an exclusive borrow is outstanding.
#[verifier::ext_equal]
pub struct EntryV {
    pub id: i64,
    pub schema: SchemaV,
    pub row: Seq<DatumV>,
    pub state: ObjectState,
    pub mut_borrowed: bool,
}

struct Entry {
    id: ObjectId,
    schema: Schema,
    row: Row,
    state: ObjectState,
    mut_borrowed: bool,
}

impl DeepView for Entry {
    type V = EntryV;

    closed spec fn deep_view(&self) -> EntryV {
        EntryV {
            id: self.id@,
            schema: self.schema@,
            row: self.row.deep_view(),
            state: self.state,
            mut_borrowed: self.mut_borrowed,
        }
    }
}

/// Some cached entry carries the identity.
pub open spec fn spec_has(entries: Seq<EntryV>, id: i64) -> bool {
    exists|i: int| 0 <= i < entries.len() && (#[trigger] entries[i]).id == id
}

/// The cached entry carrying the identity; meaningful when identities are
/// distinct and `spec_has` holds.
pub open spec fn spec_at(entries: Seq<EntryV>, id: i64) -> EntryV {
    entries[choose|i: int| 0 <= i < entries.len() && (#[trigger] entries[i]).id == id]
}

/// The cache invariant: distinct identities; every entry's schema is
/// well formed, its row matches that schema's column types, and an
/// outstanding exclusive borrow implies a pending update.
pub open spec fn entries_wf(entries: Seq<EntryV>) -> bool {
    &&& forall|i: int, j: int|
        0 <= i < j < entries.len() ==> (#[trigger] entries[i]).id != (#[trigger] entries[j]).id
    &&& forall|i: int| 0 <= i < entries.len() ==> (#[trigger] entries[i]).schema.wf()
    &&& forall|i: int|
        0 <= i < entries.len() ==> row_matches_types(
            (#[trigger] entries[i]).row,
            entries[i].schema.column_types,
        )
    &&& forall|i: int|
        0 <= i < entries.len() ==> ((#[trigger] entries[i]).mut_borrowed ==> entries[i].state
            == ObjectState::Modified)
}

/// With distinct identities, the entry at a known index is the entry that
/// `spec_at` resolves its identity to.
pub proof fn lemma_at_index(entries: Seq<EntryV>, i: int)
    requires
        forall|a: int, b: int|
            0 <= a < b < entries.len() ==> (#[trigger] entries[a]).id != (
            #[trigger] entries[b]).id,
        0 <= i < entries.len(),
    ensures
        spec_has(entries, entries[i].id),
        spec_at(entries, entries[i].id) == entries[i],
{
    assert(spec_has(entries, entries[i].id));
    let j = choose|j: int| 0 <= j < entries.len() && (#[trigger] entries[j]).id == entries[i].id;
    if j < i {
        assert(entries[j].id != entries[i].id);
    } else if j > i {
        assert(entries[i].id != entries[j].id);
    }
}

/// Identity stability: registering a fresh entry leaves it reachable under
/// its identity, unchanged, for the rest of the transaction's reads.
pub proof fn lemma_identity_stability(entries: Seq<EntryV>, e: EntryV)
    requires
        entries_wf(entries),
        !spec_has(entries, e.id),
    ensures
        spec_has(entries.push(e), e.id),
        spec_at(entries.push(e), e.id) == e,
{
    let pushed = entries.push(e);
    assert(forall|i: int| 0 <= i < entries.len() ==> (#[trigger] pushed[i]) == entries[i]);
    assert(pushed[entries.len() as int] == e);
    assert forall|i: int, j: int| 0 <= i < j < pushed.len() implies (#[trigger] pushed[i]).id != (
    #[trigger] pushed[j]).id by {
        if j == entries.len() {
            if entries[i].id == e.id {
                assert(spec_has(entries, e.id));
            }
        }
    }
    lemma_at_index(pushed, entries.len() as int);
}

/// One pending write operation of a commit: exactly one update per modified
/// entry, one delete per removed entry, each carrying the schema it runs
/// against.
pub enum WriteOp {
    Update { id: ObjectId, schema: Schema, row: Row },
    Delete { id: ObjectId, schema: Schema },
}

/// The mathematical model of a pending write operation.
pub enum WriteOpV {
    Update { id: i64, schema: SchemaV, row: Seq<DatumV> },
    Delete { id: i64, schema: SchemaV },
}

impl DeepView for WriteOp {
    type V = WriteOpV;

    open spec fn deep_view(&self) -> WriteOpV {
        match self {
            WriteOp::Update { id, schema, row } => WriteOpV::Update {
                id: id@,
                schema: schema@,
                row: row.deep_view(),
            },
            WriteOp::Delete { id, schema } => WriteOpV::Delete { id: id@, schema: schema@ },
        }
    }
}

/// A write operation is sendable: its schema is well formed and an update's
/// row matches that schema's column types.
pub open spec fn op_wf(op: WriteOpV) -> bool {
    match op {
        WriteOpV::Update { schema, row, .. } => schema.wf() && row_matches_types(
            row,
            schema.column_types,
        ),
        WriteOpV::Delete { schema, .. } => schema.wf(),
    }
}

/// The identity a write operation touches.
pub open spec fn spec_op_id(op: WriteOpV) -> i64 {
    match op {
        WriteOpV::Update { id, .. } => id,
        WriteOpV::Delete { id, .. } => id,
    }
}

/// The write operation one entry contributes at commit: none when Clean, an
/// update carrying the entry's row when Modified, a delete when Removed.
pub open spec fn spec_op_for(e: EntryV) -> Option<WriteOpV> {
    match e.state {
        ObjectState::Clean => None,
        ObjectState::Modified => Some(WriteOpV::Update { id: e.id, schema: e.schema, row: e.row }),
        ObjectState::Removed => Some(WriteOpV::Delete { id: e.id, schema: e.schema }),
    }
}

/// The write operations a commit sends, in cache order: each non-Clean entry
/// contributes its one operation, Clean entries contribute none.
pub open spec fn spec_commit_ops(entries: Seq<EntryV>) -> Seq<WriteOpV>
    decreases entries.len(),
{
    if entries.len() == 0 {
        Seq::empty()
    } else {
        spec_commit_ops(entries.drop_last()) + match spec_op_for(entries.last()) {
            Option::None => Seq::empty(),
            Option::Some(op) => seq![op],
        }
    }
}

/// How many operations of the sequence touch the identity.
pub open spec fn spec_ops_for_id(ops: Seq<WriteOpV>, id: i64) -> int
    decreases ops.len(),
{
    if ops.len() == 0 {
        0int
    } else {
        spec_ops_for_id(ops.drop_last(), id) + if spec_op_id(ops.last()) == id {
            1int
        } else {
            0int
        }
    }
}

proof fn lemma_ops_for_id_single(op: WriteOpV, id: i64)
    ensures
        spec_ops_for_id(seq![op], id) == if spec_op_id(op) == id {
            1int
        } else {
            0int
        },
{
    assert(seq![op].drop_last() =~= Seq::<WriteOpV>::empty());
    assert(spec_ops_for_id(Seq::<WriteOpV>::empty(), id) == 0);
    assert(seq![op].last() == op);
}

proof fn lemma_ops_for_id_append(a: Seq<WriteOpV>, b: Seq<WriteOpV>, id: i64)
    ensures
        spec_ops_for_id(a + b, id) == spec_ops_for_id(a, id) + spec_ops_for_id(b, id),
    decreases b.len(),
{
    if b.len() == 0 {
        assert(a + b =~= a);
    } else {
        lemma_ops_for_id_append(a, b.drop_last(), id);
        assert((a + b).drop_last() =~= a + b.drop_last());
        assert((a + b).last() == b.last());
    }
}

proof fn lemma_ops_absent(entries: Seq<EntryV>, id: i64)
    requires
        forall|i: int| 0 <= i < entries.len() ==> (#[trigger] entries[i]).id != id,
    ensures
        spec_ops_for_id(spec_commit_ops(entries), id) == 0,
    decreases entries.len(),
{
    if entries.len() == 0 {
        assert(spec_ops_for_id(spec_commit_ops(entries), id) == 0);
    } else {
        lemma_ops_absent(entries.drop_last(), id);
        let tail = match spec_op_for(entries.last()) {
            Option::None => Seq::<WriteOpV>::empty(),
            Option::Some(op) => seq![op],
        };
        lemma_ops_for_id_append(spec_commit_ops(entries.drop_last()), tail, id);
        assert(entries[entries.len() - 1].id != id);
        match spec_op_for(entries.last()) {
            Option::None => {
                assert(spec_ops_for_id(tail, id) == 0);
            },
            Option::Some(op) => {
                assert(spec_op_id(op) == entries.last().id);
                lemma_ops_for_id_single(op, id);
            },
        }
    }
}

proof fn lemma_op_membership(entries: Seq<EntryV>, i: int)
    requires
        entries_wf(entries),
        0 <= i < entries.len(),
        entries[i].state != ObjectState::Clean,
    ensures
        exists|k: int|
            0 <= k < spec_commit_ops(entries).len() && #[trigger] spec_commit_ops(entries)[k]
                == spec_op_for(entries[i]).unwrap(),
    decreases entries.len(),
{
    let ops = spec_commit_ops(entries);
    let head = spec_commit_ops(entries.drop_last());
    let tail = match spec_op_for(entries.last()) {
        Option::None => Seq::<WriteOpV>::empty(),
        Option::Some(op) => seq![op],
    };
    if i == entries.len() - 1 {
        assert(ops[head.len() as int] == spec_op_for(entries[i]).unwrap());
    } else {
        assert(entries_wf(entries.drop_last())) by {
            assert(forall|a: int, b: int|
                0 <= a < b < entries.drop_last().len() ==> (#[trigger] entries.drop_last()[a]).id
                    != (#[trigger] entries.drop_last()[b]).id);
        }
        lemma_op_membership(entries.drop_last(), i);
        let k = choose|k: int|
            0 <= k < head.len() && #[trigger] head[k] == spec_op_for(
                entries.drop_last()[i],
            ).unwrap();
        assert(ops[k] == head[k]);
    }
}

/// Commit minimality: an entry never modified or removed contributes zero
/// write operations; each modified entry contributes exactly one operation,
/// the update carrying its identity and row; each removed entry exactly one,
/// the delete carrying its identity.
pub proof fn lemma_commit_minimality(entries: Seq<EntryV>, i: int)
    requires
        entries_wf(entries),
        0 <= i < entries.len(),
    ensures
        entries[i].state == ObjectState::Clean ==> spec_ops_for_id(
            spec_commit_ops(entries),
            entries[i].id,
        ) == 0,
        entries[i].state != ObjectState::Clean ==> spec_ops_for_id(
            spec_commit_ops(entries),
            entries[i].id,
        ) == 1,
        entries[i].state == ObjectState::Modified ==> exists|k: int|
            0 <= k < spec_commit_ops(entries).len() && #[trigger] spec_commit_ops(entries)[k]
                == (WriteOpV::Update {
                id: entries[i].id,
                schema: entries[i].schema,
                row: entries[i].row,
            }),
        entries[i].state == ObjectState::Removed ==> exists|k: int|
            0 <= k < spec_commit_ops(entries).len() && #[trigger] spec_commit_ops(entries)[k]
                == (WriteOpV::Delete { id: entries[i].id, schema: entries[i].schema }),
    decreases entries.len(),
{
    let ops = spec_commit_ops(entries);
    let head = spec_commit_ops(entries.drop_last());
    let tail = match spec_op_for(entries.last()) {
        Option::None => Seq::<WriteOpV>::empty(),
        Option::Some(op) => seq![op],
    };
    lemma_ops_for_id_append(head, tail, entries[i].id);
    if i == entries.len() - 1 {
        assert(forall|j: int|
            0 <= j < entries.drop_last().len() ==> (#[trigger] entries.drop_last()[j]).id
                != entries[i].id);
        lemma_ops_absent(entries.drop_last(), entries[i].id);
        match spec_op_for(entries.last()) {
            Option::None => {
                assert(spec_ops_for_id(tail, entries[i].id) == 0);
            },
            Option::Some(op) => {
                lemma_ops_for_id_single(op, entries[i].id);
                assert(ops[head.len() as int] == op);
            },
        }
    } else {
        assert(entries_wf(entries.drop_last())) by {
            assert(forall|a: int, b: int|
                0 <= a < b < entries.drop_last().len() ==> (#[trigger] entries.drop_last()[a]).id
                    != (#[trigger] entries.drop_last()[b]).id);
        }
        lemma_commit_minimality(entries.drop_last(), i);
        assert(entries.drop_last()[i] == entries[i]);
        assert(entries[i].id != entries.last().id);
        match spec_op_for(entries.last()) {
            Option::None => {
                assert(spec_ops_for_id(tail, entries[i].id) == 0);
            },
            Option::Some(op) => {
                assert(spec_op_id(op) == entries.last().id);
                lemma_ops_for_id_single(op, entries[i].id);
            },
        }
        if entries[i].state != ObjectState::Clean {
            lemma_op_membership(entries, i);
        }
    }
}

/// The transaction engine: owns one backend connection for the transaction's
/// lifetime and caches every object created or fetched within it, keyed by
/// identity, together with its dirty state.
pub struct Transaction<'t> {
    conn: &'t rusqlite::Connection,
    entries: Vec<Entry>,
}

impl<'t> View for Transaction<'t> {
    type V = Seq<EntryV>;

    closed spec fn view(&self) -> Seq<EntryV> {
        self.entries.deep_view()
    }
}

/// The typed, copy-cheap facade over one cache entry, parameterized by the
/// expected concrete type; all access runs through the owning transaction.
#[derive(Debug)]
pub struct Tx<T> {
    id: ObjectId,
    marker: PhantomData<T>,
}

impl<T> View for Tx<T> {
    type V = i64;

    closed spec fn view(&self) -> i64 {
        self.id@
    }
}

impl<T: Object> Tx<T> {
    /// The handle resolves to a cached entry whose schema is the expected
    /// type's schema.
    pub open spec fn valid(self, entries: Seq<EntryV>) -> bool {
        &&& spec_has(entries, self@)
        &&& spec_at(entries, self@).schema == T::spec_schema()
    }
}

impl<'t> Transaction<'t> {
    /// The cache invariant holds.
    pub open spec fn wf(self) -> bool {
        entries_wf(self@)
    }

    /// Opens a transaction on the connection with an empty identity map.
    pub fn begin(conn: &'t rusqlite::Connection) -> (r: Result<Self, OrmError>)
        ensures
            r matches Ok(t) ==> t@ == Seq::<EntryV>::empty() && t.wf(),
            r matches Err(e) ==> (e matches OrmError::LockConflict || e matches OrmError::Storage {
                ..
            }),
    {
        match begin_backend(conn) {
            Ok(_) => {
                let t = Transaction { conn, entries: Vec::new() };
                proof {
                    assert(t@ =~= Seq::<EntryV>::empty());
                }
                Ok(t)
            },
            Err(e) => Err(e),
        }
    }

    /// The index of the entry cached under the identity, if any.
    fn find_index(&self, id: ObjectId) -> (r: Option<usize>)
        ensures
            match r {
                Some(i) => {
                    &&& i < self@.len()
                    &&& self@[i as int].id == id@
                    &&& forall|j: int| 0 <= j < i ==> (#[trigger] self@[j]).id != id@
                },
                None => forall|j: int| 0 <= j < self@.len() ==> (#[trigger] self@[j]).id != id@,
            },
    {
        let mut i: usize = 0;
        while i < self.entries.len()
            invariant
                i <= self@.len(),
                self@.len() == self.entries@.len(),
                forall|j: int| 0 <= j < i ==> (#[trigger] self@[j]).id != id@,
            decreases self.entries@.len() - i,
        {
            if self.entries[i].id.into_i64() == id.into_i64() {
                return Some(i);
            }
            i = i + 1;
        }
        None
    }

    fn ensure_table(&self, schema: &Schema) -> (r: Result<(), OrmError>)
        requires
            schema@.wf(),
        ensures
            r matches Err(e) ==> (e matches OrmError::LockConflict || e matches OrmError::Storage {
                ..
            }),
    {
        match table_exists(self.conn, schema.get_table_name()) {
            Ok(true) => Ok(()),
            Ok(false) => create_table(self.conn, schema),
            Err(e) => Err(e),
        }
    }

    /// Ensures the type's table exists, inserts the object's row to obtain a
    /// fresh identity, and registers the object in the cache with state
    /// Clean: the row already matches storage, only subsequent mutation marks
    /// it Modified. An identity already cached is overwritten.
    pub fn create<T: Object>(&mut self, obj: T) -> (r: Result<Tx<T>, OrmError>)
        requires
            old(self).wf(),
        ensures
            final(self).wf(),
            r matches Err(_) ==> final(self)@ == old(self)@,
            r matches Ok(h) ==> ({
                let e = EntryV {
                    id: h@,
                    schema: T::spec_schema(),
                    row: obj.obj_view(),
                    state: ObjectState::Clean,
                    mut_borrowed: false,
                };
                &&& h.valid(final(self)@)
                &&& spec_at(final(self)@, h@) == e
                &&& if spec_has(old(self)@, h@) {
                    exists|i: int|
                        0 <= i < old(self)@.len() && (#[trigger] old(self)@[i]).id == h@
                            && final(self)@ == old(self)@.update(i, e)
                } else {
                    final(self)@ == old(self)@.push(e)
                }
            }),
    {
        let schema = T::describe();
        match self.ensure_table(&schema) {
            Ok(_) => (),
            Err(e) => {
                return Err(e);
            },
        }
        let row = obj.as_row();
        let id = match insert_row(self.conn, &schema, &row) {
            Ok(id) => id,
            Err(e) => {
                return Err(e);
            },
        };
        let entry = Entry { id, schema, row, state: ObjectState::Clean, mut_borrowed: false };
        let ghost ev = entry.deep_view();
        let ghost pre = self@;
        match self.find_index(id) {
            Some(i) => {
                self.entries.remove(i);
                self.entries.insert(i, entry);
                proof {
                    assert(self@ =~= pre.update(i as int, ev));
                    lemma_at_index(self@, i as int);
                }
            },
            None => {
                self.entries.push(entry);
                proof {
                    assert(self@ =~= pre.push(ev));
                    lemma_identity_stability(pre, ev);
                }
            },
        }
        Ok(Tx { id, marker: PhantomData })
    }

    /// Fetches the object cached under the identity, or materializes it from
    /// storage on a miss and registers it Clean. An identity removed earlier
    /// in this same transaction is not resurrected: the fetch fails with
    /// NotFound.
    pub fn get<T: Object>(&mut self, id: ObjectId) -> (r: Result<Tx<T>, OrmError>)
        requires
            old(self).wf(),
            spec_has(old(self)@, id@) && spec_at(old(self)@, id@).state != ObjectState::Removed
                ==> spec_at(old(self)@, id@).schema == T::spec_schema(),
        ensures
            final(self).wf(),
            spec_has(old(self)@, id@) ==> final(self)@ == old(self)@,
            spec_has(old(self)@, id@) && spec_at(old(self)@, id@).state == ObjectState::Removed
                ==> (r matches Err(e) && e matches OrmError::NotFound { object_id, type_label }
                && object_id@ == id@ && type_label@ == T::spec_schema().type_label),
            spec_has(old(self)@, id@) && spec_at(old(self)@, id@).state != ObjectState::Removed
                ==> (r matches Ok(h) && h@ == id@ && h.valid(final(self)@)),
            !spec_has(old(self)@, id@) && (r matches Ok(h)) ==> (r matches Ok(h) && h@ == id@
                && h.valid(final(self)@) && spec_at(final(self)@, id@).state == ObjectState::Clean
                && !spec_at(final(self)@, id@).mut_borrowed && row_matches_types(
                spec_at(final(self)@, id@).row,
                T::spec_schema().column_types,
            ) && exists|rowv: Seq<DatumV>|
                final(self)@ == old(self)@.push(
                    EntryV {
                        id: id@,
                        schema: T::spec_schema(),
                        row: rowv,
                        state: ObjectState::Clean,
                        mut_borrowed: false,
                    },
                )),
            !spec_has(old(self)@, id@) && (r matches Err(_)) ==> final(self)@ == old(self)@,
            !spec_has(old(self)@, id@) && (r matches Err(e)) ==> (r matches Err(e) && (e matches
            OrmError::NotFound { object_id, type_label } ==> object_id@ == id@ && type_label@
                == T::spec_schema().type_label)),
    {
        let ghost pre = self@;
        match self.find_index(id) {
            Some(i) => {
                proof {
                    lemma_at_index(pre, i as int);
                }
                let removed = match self.entries[i].state {
                    ObjectState::Removed => true,
                    _ => false,
                };
                if removed {
                    Err(OrmError::NotFound { object_id: id, type_label: T::type_label() })
                } else {
                    Ok(Tx { id, marker: PhantomData })
                }
            },
            None => {
                let schema = T::describe();
                match self.ensure_table(&schema) {
                    Ok(_) => (),
                    Err(e) => {
                        return Err(e);
                    },
                }
                let row = match select_row(self.conn, id, &schema) {
                    Ok(row) => row,
                    Err(e) => {
                        return Err(e);
                    },
                };
                let entry = Entry {
                    id,
                    schema,
                    row,
                    state: ObjectState::Clean,
                    mut_borrowed: false,
                };
                let ghost ev = entry.deep_view();
                self.entries.push(entry);
                proof {
                    assert(self@ =~= pre.push(ev));
                    lemma_identity_stability(pre, ev);
                }
                Ok(Tx { id, marker: PhantomData })
            },
        }
    }

    /// The write operations this transaction's commit will send, in cache
    /// order: nothing for Clean entries, one update per Modified entry
    /// carrying its current row, one delete per Removed entry.
    pub fn pending_writes(&self) -> (r: Vec<WriteOp>)
        requires
            self.wf(),
        ensures
            r.deep_view() == spec_commit_ops(self@),
            forall|k: int| 0 <= k < r@.len() ==> op_wf(#[trigger] r.deep_view()[k]),
    {
        let mut out: Vec<WriteOp> = Vec::new();
        let mut i: usize = 0;
        while i < self.entries.len()
            invariant
                self.wf(),
                self@.len() == self.entries@.len(),
                i <= self@.len(),
                out.deep_view() == spec_commit_ops(self@.take(i as int)),
                forall|k: int| 0 <= k < out@.len() ==> op_wf(#[trigger] out.deep_view()[k]),
            decreases self.entries@.len() - i,
        {
            let e = &self.entries[i];
            proof {
                assert(self@[i as int] == self.entries@[i as int].deep_view());
                assert(self@[i as int].schema.wf());
                assert(row_matches_types(self@[i as int].row, self@[i as int].schema.column_types));
            }
            match e.state {
                ObjectState::Modified => {
                    out.push(
                        WriteOp::Update {
                            id: e.id,
                            schema: e.schema.duplicate(),
                            row: duplicate_row(&e.row),
                        },
                    );
                },
                ObjectState::Removed => {
                    out.push(WriteOp::Delete { id: e.id, schema: e.schema.duplicate() });
                },
                ObjectState::Clean => (),
            }
            proof {
                let tv = self@.take(i + 1);
                assert(tv.drop_last() =~= self@.take(i as int));
                assert(tv.last() == self@[i as int]);
                assert(out.deep_view() =~= spec_commit_ops(self@.take(i + 1)));
            }
            i = i + 1;
        }
        proof {
            assert(self@.take(self@.len() as int) =~= self@);
        }
        out
    }

    /// Sends exactly the pending writes of `pending_writes`, in cache order,
    /// then commits the backend transaction. The first failing write aborts
    /// the commit, the backend commit is not issued, and that error is
    /// surfaced unchanged.
    pub fn commit(self) -> (r: Result<(), OrmError>)
        requires
            self.wf(),
            forall|i: int| 0 <= i < self@.len() ==> !(#[trigger] self@[i]).mut_borrowed,
        ensures
            r matches Err(e) ==> (e matches OrmError::LockConflict || e matches OrmError::Storage {
                ..
            }),
    {
        let ops = self.pending_writes();
        let mut k: usize = 0;
        while k < ops.len()
            invariant
                k <= ops@.len(),
                forall|j: int| 0 <= j < ops@.len() ==> op_wf(#[trigger] ops.deep_view()[j]),
            decreases ops@.len() - k,
        {
            proof {
                assert(ops.deep_view()[k as int] == ops@[k as int].deep_view());
                assert(op_wf(ops@[k as int].deep_view()));
            }
            match &ops[k] {
                WriteOp::Update { id, schema, row } => {
                    match update_row(self.conn, *id, schema, row) {
                        Ok(_) => (),
                        Err(err) => {
                            return Err(err);
                        },
                    }
                },
                WriteOp::Delete { id, schema } => {
                    match delete_row(self.conn, *id, schema) {
                        Ok(_) => (),
                        Err(err) => {
                            return Err(err);
                        },
                    }
                },
            }
            k = k + 1;
        }
        commit_backend(self.conn)
    }

    /// Rolls the backend transaction back; cache and states are discarded
    /// unconditionally, whatever the backend answers.
    pub fn rollback(self) -> (r: Result<(), OrmError>)
        ensures
            r matches Err(e) ==> (e matches OrmError::LockConflict || e matches OrmError::Storage {
                ..
            }),
    {
        rollback_backend(self.conn)
    }
}

impl<T: Object> Tx<T> {
    /// The identity this handle resolves, side-effect free.
    pub fn id(&self) -> (r: ObjectId)
        ensures
            r@ == self@,
    {
        self.id
    }

    /// The entry's current dirty state, side-effect free.
    pub fn state(&self, tr: &Transaction) -> (r: ObjectState)
        requires
            tr.wf(),
            self.valid(tr@),
        ensures
            r == spec_at(tr@, self@).state,
    {
        match tr.find_index(self.id) {
            Some(i) => {
                proof {
                    lemma_at_index(tr@, i as int);
                }
                tr.entries[i].state
            },
            None => vstd::pervasive::unreached(),
        }
    }

    /// Read-only typed access: a reconstruction of the cached row. Reading a
    /// removed entry, or one under an outstanding exclusive borrow, is a
    /// contract violation excluded by the preconditions.
    pub fn borrow(&self, tr: &Transaction) -> (r: T)
        requires
            tr.wf(),
            self.valid(tr@),
            spec_at(tr@, self@).state != ObjectState::Removed,
            !spec_at(tr@, self@).mut_borrowed,
        ensures
            r.obj_view() == spec_at(tr@, self@).row,
    {
        match tr.find_index(self.id) {
            Some(i) => {
                proof {
                    lemma_at_index(tr@, i as int);
                }
                let row = duplicate_row(&tr.entries[i].row);
                T::from_row(row)
            },
            None => vstd::pervasive::unreached(),
        }
    }

    /// Exclusive writable access: yields the current value, marks the entry
    /// Modified, and records the outstanding borrow; `store` hands the value
    /// back. Idempotent on an already Modified entry. Borrowing a removed
    /// entry, or taking a second exclusive borrow, is a contract violation
    /// excluded by the preconditions.
    pub fn borrow_mut(&self, tr: &mut Transaction) -> (r: T)
        requires
            old(tr).wf(),
            self.valid(old(tr)@),
            spec_at(old(tr)@, self@).state != ObjectState::Removed,
            !spec_at(old(tr)@, self@).mut_borrowed,
        ensures
            final(tr).wf(),
            self.valid(final(tr)@),
            r.obj_view() == spec_at(old(tr)@, self@).row,
            exists|i: int|
                0 <= i < old(tr)@.len() && (#[trigger] old(tr)@[i]).id == self@ && final(tr)@
                    == old(tr)@.update(
                    i,
                    EntryV {
                        id: old(tr)@[i].id,
                        schema: old(tr)@[i].schema,
                        row: old(tr)@[i].row,
                        state: ObjectState::Modified,
                        mut_borrowed: true,
                    },
                ),
            spec_at(final(tr)@, self@).state == ObjectState::Modified,
            spec_at(final(tr)@, self@).mut_borrowed,
            spec_at(final(tr)@, self@).row == spec_at(old(tr)@, self@).row,
    {
        let ghost pre = tr@;
        match tr.find_index(self.id) {
            Some(i) => {
                proof {
                    lemma_at_index(pre, i as int);
                }
                let mut entry = tr.entries.remove(i);
                let row = duplicate_row(&entry.row);
                let obj = T::from_row(row);
                entry.state = ObjectState::Modified;
                entry.mut_borrowed = true;
                let ghost ev = entry.deep_view();
                tr.entries.insert(i, entry);
                proof {
                    assert(tr@ =~= pre.update(i as int, ev));
                    lemma_at_index(tr@, i as int);
                }
                obj
            },
            None => vstd::pervasive::unreached(),
        }
    }

    /// Hands a borrowed value back: the entry's row becomes the value's row
    /// encoding, the exclusive borrow is released, and the entry stays
    /// Modified, awaiting its one update at commit.
    pub fn store(&self, tr: &mut Transaction, obj: T)
        requires
            old(tr).wf(),
            self.valid(old(tr)@),
            spec_at(old(tr)@, self@).mut_borrowed,
        ensures
            final(tr).wf(),
            self.valid(final(tr)@),
            exists|i: int|
                0 <= i < old(tr)@.len() && (#[trigger] old(tr)@[i]).id == self@ && final(tr)@
                    == old(tr)@.update(
                    i,
                    EntryV {
                        id: old(tr)@[i].id,
                        schema: old(tr)@[i].schema,
                        row: obj.obj_view(),
                        state: ObjectState::Modified,
                        mut_borrowed: false,
                    },
                ),
            spec_at(final(tr)@, self@).row == obj.obj_view(),
            spec_at(final(tr)@, self@).state == ObjectState::Modified,
            !spec_at(final(tr)@, self@).mut_borrowed,
    {
        let ghost pre = tr@;
        match tr.find_index(self.id) {
            Some(i) => {
                proof {
                    lemma_at_index(pre, i as int);
                }
                let mut entry = tr.entries.remove(i);
                entry.row = obj.as_row();
                entry.state = ObjectState::Modified;
                entry.mut_borrowed = false;
                let ghost ev = entry.deep_view();
                tr.entries.insert(i, entry);
                proof {
                    assert(tr@ =~= pre.update(i as int, ev));
                    lemma_at_index(tr@, i as int);
                }
            },
            None => vstd::pervasive::unreached(),
        }
    }

    /// Marks the entry Removed: its one delete is sent at commit. Deleting
    /// while an exclusive borrow is outstanding, or deleting a removed entry
    /// again, is a contract violation excluded by the preconditions.
    pub fn delete(self, tr: &mut Transaction)
        requires
            old(tr).wf(),
            self.valid(old(tr)@),
            spec_at(old(tr)@, self@).state != ObjectState::Removed,
            !spec_at(old(tr)@, self@).mut_borrowed,
        ensures
            final(tr).wf(),
            exists|i: int|
                0 <= i < old(tr)@.len() && (#[trigger] old(tr)@[i]).id == self@ && final(tr)@
                    == old(tr)@.update(
                    i,
                    EntryV {
                        id: old(tr)@[i].id,
                        schema: old(tr)@[i].schema,
                        row: old(tr)@[i].row,
                        state: ObjectState::Removed,
                        mut_borrowed: false,
                    },
                ),
            spec_at(final(tr)@, self@).state == ObjectState::Removed,
    {
        let ghost pre = tr@;
        match tr.find_index(self.id) {
            Some(i) => {
                proof {
                    lemma_at_index(pre, i as int);
                }
                let mut entry = tr.entries.remove(i);
                entry.state = ObjectState::Removed;
                entry.mut_borrowed = false;
                let ghost ev = entry.deep_view();
                tr.entries.insert(i, entry);
                proof {
                    assert(tr@ =~= pre.update(i as int, ev));
                    lemma_at_index(tr@, i as int);
                }
            },
            None => vstd::pervasive::unreached(),
        }
    }

}

} // verus!
