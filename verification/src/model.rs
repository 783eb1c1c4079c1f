//! The download list as a mathematical value: the rows by their identifiers,
//! what each operation of the store makes of them, and the laws that hold of
//! every state.

use crate::record::{ChangeView, NewDownloadView, RecordView};
use vstd::prelude::*;

verus! {

/// Why the store refuses an operation.
#[derive(Clone, Copy, Debug, PartialEq, Eq)]
pub enum StoreError {
    /// The table has not been created.
    NoSuchTable,
    /// Every identifier has been given out.
    IdsExhausted,
}

/// The rows of the table and the highest identifier that was ever given.
pub struct TableState {
    /// The rows, each under its identifier.
    pub rows: Map<int, RecordView>,
    /// The identifier of the row inserted last, 0 before the first insert.
    /// It never goes down, so an identifier is not given twice.
    pub last_id: int,
}

impl TableState {
    /// The table as it is created: no rows, no identifier given yet.
    pub open spec fn empty() -> TableState {
        TableState { rows: Map::empty(), last_id: 0 }
    }

    /// The table holds finitely many rows, each row carries the identifier
    /// it is stored under, and every identifier lies between 1 and the
    /// highest one given.
    pub open spec fn wf(self) -> bool {
        &&& self.rows.dom().finite()
        &&& 0 <= self.last_id <= i64::MAX
        &&& forall|id: int| #[trigger]
            self.rows.contains_key(id) ==> 1 <= id <= self.last_id && self.rows[id].id == id
    }

    /// The identifier that the next insert gives.
    pub open spec fn next_id(self) -> int {
        self.last_id + 1
    }

    /// The table after `new` is inserted under the next identifier.
    pub open spec fn insert(self, new: NewDownloadView) -> TableState {
        TableState {
            rows: self.rows.insert(self.next_id(), new.row(self.next_id())),
            last_id: self.next_id(),
        }
    }

    /// The row with the identifier `id`, if there is one.
    pub open spec fn get(self, id: int) -> Option<RecordView> {
        if self.rows.contains_key(id) {
            Some(self.rows[id])
        } else {
            None
        }
    }

    /// The table after the row `id` takes `change`; the same table where
    /// there is no such row.
    pub open spec fn update(self, id: int, change: ChangeView) -> TableState {
        if self.rows.contains_key(id) {
            TableState { rows: self.rows.insert(id, change.apply(self.rows[id])), ..self }
        } else {
            self
        }
    }

    /// The table without the row `id`.
    pub open spec fn delete(self, id: int) -> TableState {
        TableState { rows: self.rows.remove(id), ..self }
    }
}

/// The database: the table, once it has been created.
pub struct StoreState {
    pub table: Option<TableState>,
}

impl StoreState {
    /// A database in which the table has not been created.
    pub open spec fn absent() -> StoreState {
        StoreState { table: None }
    }

    /// The table, where there is one, is well formed.
    pub open spec fn wf(self) -> bool {
        self.table matches Some(table) ==> table.wf()
    }

    /// The database after the schema is ensured: an empty table is created
    /// where there was none, and a table that is there stays as it is.
    pub open spec fn ensure_schema(self) -> StoreState {
        match self.table {
            Some(_) => self,
            None => StoreState { table: Some(TableState::empty()) },
        }
    }

    /// The error with which an insert is refused, `None` where it goes
    /// through.
    pub open spec fn insert_refusal(self) -> Option<StoreError> {
        match self.table {
            None => Some(StoreError::NoSuchTable),
            Some(table) => if table.last_id >= i64::MAX {
                Some(StoreError::IdsExhausted)
            } else {
                None
            },
        }
    }

    /// The database after an insert that goes through.
    pub open spec fn insert(self, new: NewDownloadView) -> StoreState
        recommends
            self.insert_refusal() is None,
    {
        StoreState { table: Some(self.table->0.insert(new)) }
    }

    /// The database after an update of the row `id`.
    pub open spec fn update(self, id: int, change: ChangeView) -> StoreState
        recommends
            self.table is Some,
    {
        StoreState { table: Some(self.table->0.update(id, change)) }
    }

    /// The database after the row `id` is deleted.
    pub open spec fn delete(self, id: int) -> StoreState
        recommends
            self.table is Some,
    {
        StoreState { table: Some(self.table->0.delete(id)) }
    }
}

/// One operation on the database.
pub enum Operation {
    /// Create the table where it is absent.
    EnsureSchema,
    /// Insert a row.
    Insert(NewDownloadView),
    /// Set columns of the row with the given identifier.
    Update(int, ChangeView),
    /// Delete the row with the given identifier.
    Delete(int),
}

impl StoreState {
    /// The highest identifier given so far, 0 where there is no table.
    pub open spec fn last_id(self) -> int {
        match self.table {
            Some(table) => table.last_id,
            None => 0,
        }
    }

    /// The row with the identifier `id`, if there is a table and such a row
    /// in it.
    pub open spec fn get(self, id: int) -> Option<RecordView> {
        match self.table {
            Some(table) => table.get(id),
            None => None,
        }
    }

    /// The database after one operation. An operation that is refused
    /// leaves it as it is.
    pub open spec fn step(self, operation: Operation) -> StoreState {
        match operation {
            Operation::EnsureSchema => self.ensure_schema(),
            Operation::Insert(new) => if self.insert_refusal() is None {
                self.insert(new)
            } else {
                self
            },
            Operation::Update(id, change) => if self.table is Some {
                self.update(id, change)
            } else {
                self
            },
            Operation::Delete(id) => if self.table is Some {
                self.delete(id)
            } else {
                self
            },
        }
    }

    /// The database after the operations of `history`, first to last.
    pub open spec fn run(self, history: Seq<Operation>) -> StoreState
        decreases history.len(),
    {
        if history.len() == 0 {
            self
        } else {
            self.run(history.drop_last()).step(history.last())
        }
    }
}

/// Ensuring the schema twice leaves the database as ensuring it once does:
/// there is one table afterwards, and a table that was there before keeps
/// its rows.
pub proof fn ensure_schema_is_idempotent(state: StoreState)
    ensures
        state.ensure_schema().table is Some,
        state.ensure_schema().ensure_schema() == state.ensure_schema(),
        state.table is Some ==> state.ensure_schema() == state,
        state.table is None ==> state.ensure_schema().table == Some(TableState::empty()),
        state.wf() ==> state.ensure_schema().wf(),
{
}

/// The identifier that an insert gives is new: no row was stored under it
/// before, it is higher than every identifier given so far, and the row
/// that the insert makes carries it. The rows that were there stay as they
/// were.
pub proof fn inserted_id_is_new(table: TableState, new: NewDownloadView)
    requires
        table.wf(),
        table.last_id < i64::MAX,
    ensures
        table.insert(new).wf(),
        !table.rows.contains_key(table.next_id()),
        forall|id: int| table.rows.contains_key(id) ==> id < table.next_id(),
        table.insert(new).get(table.next_id()) == Some(new.row(table.next_id())),
        table.insert(new).rows[table.next_id()].id == table.next_id(),
        forall|id: int|
            table.rows.contains_key(id) ==> table.insert(new).get(id) == table.get(id),
        table.insert(new).rows.dom() == table.rows.dom().insert(table.next_id()),
{
}

/// An update changes no identifier: the same identifiers are in use after
/// it, the updated row keeps the one it had, and every other row is left
/// as it was.
pub proof fn update_keeps_ids(table: TableState, id: int, change: ChangeView)
    requires
        table.wf(),
    ensures
        table.update(id, change).wf(),
        table.update(id, change).last_id == table.last_id,
        table.update(id, change).rows.dom() == table.rows.dom(),
        forall|other: int| #[trigger]
            table.rows.contains_key(other) ==> table.update(id, change).rows[other].id == other,
        forall|other: int|
            other != id ==> table.update(id, change).get(other) == table.get(other),
        table.rows.contains_key(id) ==> table.update(id, change).get(id) == Some(
            change.apply(table.rows[id]),
        ),
{
    assert(table.update(id, change).rows.dom() =~= table.rows.dom());
}

/// After a row is deleted, a lookup by its identifier finds nothing. The
/// other rows stay, and the identifier is not given again: the highest
/// identifier given so far is as it was.
pub proof fn deleted_row_is_gone(table: TableState, id: int)
    requires
        table.wf(),
    ensures
        table.delete(id).wf(),
        table.delete(id).get(id) is None,
        table.delete(id).last_id == table.last_id,
        forall|other: int| other != id ==> table.delete(id).get(other) == table.get(other),
{
}

/// A row that was inserted keeps its identifier through any update that
/// follows, whatever the update sets.
pub proof fn inserted_id_survives_update(
    table: TableState,
    new: NewDownloadView,
    change: ChangeView,
)
    requires
        table.wf(),
        table.last_id < i64::MAX,
    ensures
        table.insert(new).update(table.next_id(), change).get(table.next_id()) == Some(
            change.apply(new.row(table.next_id())),
        ),
        change.apply(new.row(table.next_id())).id == table.next_id(),
{
}

/// No two rows of a table share an identifier.
pub proof fn ids_are_unique(table: TableState)
    requires
        table.wf(),
    ensures
        forall|a: int, b: int|
            table.rows.contains_key(a) && table.rows.contains_key(b) && a != b
                ==> table.rows[a].id != table.rows[b].id,
{
}

/// One operation keeps a well-formed database well formed, keeps the table
/// once it is there, and never lowers the highest identifier given.
pub proof fn every_step_keeps_wf(state: StoreState, operation: Operation)
    requires
        state.wf(),
    ensures
        state.step(operation).wf(),
        state.step(operation).last_id() >= state.last_id(),
        state.table is Some ==> state.step(operation).table is Some,
{
    match operation {
        Operation::EnsureSchema => {},
        Operation::Insert(new) => {
            if state.insert_refusal() is None {
                inserted_id_is_new(state.table->0, new);
            }
        },
        Operation::Update(id, change) => {
            if state.table is Some {
                update_keeps_ids(state.table->0, id, change);
            }
        },
        Operation::Delete(id) => {
            if state.table is Some {
                deleted_row_is_gone(state.table->0, id);
            }
        },
    }
}

/// Whatever is done to a well-formed database, it stays well formed: after
/// every history each row carries the identifier it is stored under, the
/// table is still there, and the highest identifier given has not gone
/// down.
pub proof fn every_history_keeps_wf(state: StoreState, history: Seq<Operation>)
    requires
        state.wf(),
    ensures
        state.run(history).wf(),
        state.run(history).last_id() >= state.last_id(),
        state.table is Some ==> state.run(history).table is Some,
    decreases history.len(),
{
    if history.len() > 0 {
        every_history_keeps_wf(state, history.drop_last());
        every_step_keeps_wf(state.run(history.drop_last()), history.last());
    }
}

/// A row keeps its identifier for as long as it is not deleted: whatever
/// is inserted, updated or deleted elsewhere, and whatever updates the row
/// itself takes, it is found under the identifier it had.
pub proof fn a_row_keeps_its_id(state: StoreState, history: Seq<Operation>, id: int)
    requires
        state.wf(),
        state.get(id) is Some,
        forall|i: int| 0 <= i < history.len() ==> history[i] != Operation::Delete(id),
    ensures
        state.run(history).get(id) is Some,
        state.run(history).get(id)->0.id == id,
    decreases history.len(),
{
    if history.len() > 0 {
        let earlier = history.drop_last();
        assert forall|i: int| 0 <= i < earlier.len() implies earlier[i] != Operation::Delete(
            id,
        ) by {
            assert(earlier[i] == history[i]);
        }
        a_row_keeps_its_id(state, earlier, id);
        every_history_keeps_wf(state, earlier);
        every_step_keeps_wf(state.run(earlier), history.last());
        assert(history.last() == history[history.len() - 1]);
    }
}

/// An identifier is not given twice: a row that a history brings into the
/// table has an identifier above every one that was given before, also
/// above those of rows that have been deleted since.
pub proof fn new_rows_get_new_ids(state: StoreState, history: Seq<Operation>, id: int)
    requires
        state.wf(),
        state.get(id) is None,
        state.run(history).get(id) is Some,
    ensures
        id > state.last_id(),
    decreases history.len(),
{
    if history.len() > 0 {
        let earlier = history.drop_last();
        every_history_keeps_wf(state, earlier);
        if state.run(earlier).get(id) is Some {
            new_rows_get_new_ids(state, earlier, id);
        }
    }
}

} // verus!
