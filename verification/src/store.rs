//! The download record store, held in memory: the rows of the download
//! list, kept in the order of their identifiers, with the operations that
//! create, read, update and delete them.
//!
//! In the running application the rows live in the embedded database, and
//! the store here is what that table is taken to do: each operation is
//! proved to do to the rows what [`crate::model`] says of it.

use crate::model::{StoreError, StoreState};
use crate::rows::{
    ascending, by_id, has_id, in_order, lemma_by_id_holds, lemma_by_id_push, lemma_by_id_remove,
    lemma_by_id_update, lemma_table_of_wf, position, table_of,
};
use crate::record::{DownloadRecord, NewDownload, RecordChange, RecordView};
use vstd::prelude::*;

verus! {

/// The rows as mathematical values, in their order.
pub open spec fn views(rows: Seq<DownloadRecord>) -> Seq<RecordView> {
    Seq::new(rows.len(), |i: int| rows[i]@)
}

/// What a lookup found, as a mathematical value.
pub open spec fn found_view(found: Option<&DownloadRecord>) -> Option<RecordView> {
    match found {
        Some(record) => Some(record@),
        None => None,
    }
}

/// The download list and what is known of its table.
pub struct RecordStore {
    created: bool,
    last_id: i64,
    rows: Vec<DownloadRecord>,
}

impl View for RecordStore {
    type V = StoreState;

    closed spec fn view(&self) -> StoreState {
        if self.created {
            StoreState { table: Some(table_of(views(self.rows@), self.last_id as int)) }
        } else {
            StoreState { table: None }
        }
    }
}

impl RecordStore {
    #[verifier::type_invariant]
    spec fn inv(self) -> bool {
        &&& in_order(views(self.rows@), self.last_id as int)
        &&& !self.created ==> self.rows@.len() == 0 && self.last_id == 0
    }

    /// A database in which the table has not been created.
    pub fn new() -> (store: RecordStore)
        ensures
            store@ == StoreState::absent(),
            store@.wf(),
    {
        RecordStore { created: false, last_id: 0, rows: Vec::new() }
    }

    /// A store whose table holds `rows` and has given `last_id` as its
    /// highest identifier; `None` unless the rows stand in the order of
    /// their identifiers and these lie between 1 and `last_id`.
    pub fn from_rows(rows: Vec<DownloadRecord>, last_id: i64) -> (store: Option<RecordStore>)
        ensures
            store is Some <==> in_order(views(rows@), last_id as int),
            store matches Some(restored) ==> restored@ == (StoreState {
                table: Some(table_of(views(rows@), last_id as int)),
            }) && restored@.wf(),
    {
        if last_id < 0 {
            return None;
        }
        let mut previous: i64 = 0;
        let mut i: usize = 0;
        while i < rows.len()
            invariant
                i <= rows@.len(),
                0 <= previous <= last_id,
                i == 0 ==> previous == 0,
                i > 0 ==> previous == rows@[i - 1].id,
                forall|a: int, b: int| 0 <= a < b < i ==> rows@[a].id < rows@[b].id,
                forall|a: int| 0 <= a < i ==> 1 <= (#[trigger] rows@[a]).id <= previous,
            decreases rows@.len() - i,
        {
            let id: i64 = rows[i].id;
            if id <= previous || id > last_id {
                proof {
                    let all = views(rows@);
                    if in_order(all, last_id as int) {
                        assert(1 <= all[i as int].id <= last_id);
                        if i > 0 {
                            assert(all[i - 1].id == rows@[i - 1].id);
                            assert(all[i - 1].id < all[i as int].id);
                        }
                        assert(false);
                    }
                }
                return None;
            }
            previous = id;
            i += 1;
        }
        proof {
            lemma_table_of_wf(views(rows@), last_id as int);
        }
        Some(RecordStore { created: true, last_id, rows })
    }

    /// Whether the table has been created.
    pub fn has_table(&self) -> (created: bool)
        ensures
            created == (self@.table is Some),
            self@.wf(),
    {
        proof {
            use_type_invariant(self);
            lemma_table_of_wf(views(self.rows@), self.last_id as int);
        }
        self.created
    }

    /// Creates the table where it is absent, and does nothing where it is
    /// there.
    pub fn ensure_schema(&mut self)
        ensures
            final(self)@ == old(self)@.ensure_schema(),
            final(self)@.wf(),
    {
        proof {
            use_type_invariant(&*self);
            lemma_table_of_wf(views(self.rows@), self.last_id as int);
        }
        if !self.created {
            self.created = true;
            assert(by_id(views(self.rows@)) =~= Map::<int, RecordView>::empty());
        }
    }

    /// Takes the rows out of the store, to put them back once they have
    /// changed: the store itself is never left in a state that its
    /// invariant rules out.
    fn take_rows(&mut self) -> (rows: Vec<DownloadRecord>)
        ensures
            rows == old(self).rows,
            final(self).rows@.len() == 0,
            final(self).created == old(self).created,
            final(self).last_id == old(self).last_id,
    {
        proof {
            use_type_invariant(&*self);
        }
        let mut rows: Vec<DownloadRecord> = Vec::new();
        std::mem::swap(&mut self.rows, &mut rows);
        rows
    }

    /// The place of the row `id` among the rows, found by halving: the rows
    /// stand in the order of their identifiers.
    fn find(&self, id: i64) -> (found: Option<usize>)
        ensures
            match found {
                Some(i) => i < self.rows@.len() && self.rows@[i as int].id == id,
                None => !by_id(views(self.rows@)).contains_key(id as int),
            },
    {
        proof {
            use_type_invariant(self);
        }
        let ghost all = views(self.rows@);
        let mut low: usize = 0;
        let mut high: usize = self.rows.len();
        while low < high
            invariant
                all == views(self.rows@),
                ascending(all),
                low <= high <= all.len(),
                forall|k: int| 0 <= k < low ==> (#[trigger] all[k]).id < id,
                forall|k: int| high <= k < all.len() ==> (#[trigger] all[k]).id > id,
            decreases high - low,
        {
            let middle: usize = low + (high - low) / 2;
            let at: i64 = self.rows[middle].id;
            assert(all[middle as int].id == at);
            if at == id {
                return Some(middle);
            }
            if at < id {
                assert forall|k: int| 0 <= k < middle + 1 implies (#[trigger] all[k]).id < id by {
                    if k < middle {
                        assert(all[k].id < all[middle as int].id);
                    }
                }
                low = middle + 1;
            } else {
                assert forall|k: int| middle <= k < all.len() implies (#[trigger] all[k]).id
                    > id by {
                    if middle < k {
                        assert(all[middle as int].id < all[k].id);
                    }
                }
                high = middle;
            }
        }
        proof {
            if has_id(all, id as int) {
                let k = position(all, id as int);
                assert(all[k].id == id);
            }
        }
        None
    }

    /// Inserts a row for `new` under the next identifier and returns that
    /// identifier. Columns that `new` leaves out take their defaults.
    ///
    /// The next identifier is one above the highest ever given, so the
    /// identifier of a deleted row does not come back. (The engine counts
    /// on from the highest identifier still in the table, and so can give
    /// the identifier of a deleted last row once more.)
    pub fn insert(&mut self, new: NewDownload) -> (result: Result<i64, StoreError>)
        ensures
            match old(self)@.insert_refusal() {
                Some(error) => result == Err::<i64, StoreError>(error) && final(self)@ == old(
                    self,
                )@,
                None => {
                    &&& result matches Ok(id) && id == old(self)@.table->0.next_id()
                    &&& final(self)@ == old(self)@.insert(new@)
                },
            },
            final(self)@.wf(),
    {
        proof {
            use_type_invariant(&*self);
            lemma_table_of_wf(views(self.rows@), self.last_id as int);
        }
        if !self.created {
            return Err(StoreError::NoSuchTable);
        }
        if self.last_id == i64::MAX {
            return Err(StoreError::IdsExhausted);
        }
        let id: i64 = self.last_id + 1;
        let record = new.into_record(id);
        proof {
            lemma_by_id_push(views(self.rows@), record@);
            assert(views(self.rows@.push(record)) =~= views(self.rows@).push(record@));
        }
        let mut rows = self.take_rows();
        rows.push(record);
        self.last_id = id;
        self.rows = rows;
        proof {
            lemma_table_of_wf(views(self.rows@), self.last_id as int);
        }
        Ok(id)
    }

    /// The row with the identifier `id`, if there is one.
    pub fn get(&self, id: i64) -> (result: Result<Option<&DownloadRecord>, StoreError>)
        ensures
            match self@.table {
                None => result matches Err(StoreError::NoSuchTable),
                Some(table) => result matches Ok(found) && found_view(found) == table.get(
                    id as int,
                ),
            },
            self@.wf(),
    {
        proof {
            use_type_invariant(self);
            lemma_table_of_wf(views(self.rows@), self.last_id as int);
        }
        if !self.created {
            return Err(StoreError::NoSuchTable);
        }
        match self.find(id) {
            Some(i) => {
                proof {
                    lemma_by_id_holds(views(self.rows@), i as int);
                }
                Ok(Some(&self.rows[i]))
            },
            None => Ok(None),
        }
    }

    /// Sets the columns that `change` names in the row `id`, and says
    /// whether there was such a row. No other row changes.
    pub fn update(&mut self, id: i64, change: RecordChange) -> (result: Result<bool, StoreError>)
        ensures
            match old(self)@.table {
                None => {
                    &&& result == Err::<bool, StoreError>(StoreError::NoSuchTable)
                    &&& final(self)@ == old(self)@
                },
                Some(table) => {
                    &&& result == Ok::<bool, StoreError>(table.rows.contains_key(id as int))
                    &&& final(self)@ == old(self)@.update(id as int, change@)
                },
            },
            final(self)@.wf(),
    {
        proof {
            use_type_invariant(&*self);
            lemma_table_of_wf(views(self.rows@), self.last_id as int);
        }
        if !self.created {
            return Err(StoreError::NoSuchTable);
        }
        match self.find(id) {
            Some(i) => {
                let mut rows = self.take_rows();
                let ghost before = views(rows@);
                rows[i].apply(change);
                proof {
                    lemma_by_id_holds(before, i as int);
                    lemma_by_id_update(before, i as int, rows@[i as int]@);
                    assert(views(rows@) =~= before.update(i as int, rows@[i as int]@));
                }
                self.rows = rows;
                proof {
                    lemma_table_of_wf(views(self.rows@), self.last_id as int);
                }
                Ok(true)
            },
            None => Ok(false),
        }
    }

    /// Deletes the row `id`, and says whether there was such a row. Its
    /// identifier is not given to a later row.
    pub fn delete(&mut self, id: i64) -> (result: Result<bool, StoreError>)
        ensures
            match old(self)@.table {
                None => {
                    &&& result == Err::<bool, StoreError>(StoreError::NoSuchTable)
                    &&& final(self)@ == old(self)@
                },
                Some(table) => {
                    &&& result == Ok::<bool, StoreError>(table.rows.contains_key(id as int))
                    &&& final(self)@ == old(self)@.delete(id as int)
                },
            },
            final(self)@.wf(),
    {
        proof {
            use_type_invariant(&*self);
            lemma_table_of_wf(views(self.rows@), self.last_id as int);
        }
        if !self.created {
            return Err(StoreError::NoSuchTable);
        }
        match self.find(id) {
            Some(i) => {
                let mut rows = self.take_rows();
                proof {
                    lemma_by_id_holds(views(rows@), i as int);
                    lemma_by_id_remove(views(rows@), i as int);
                    assert(views(rows@.remove(i as int)) =~= views(rows@).remove(i as int));
                }
                rows.remove(i);
                self.rows = rows;
                proof {
                    lemma_table_of_wf(views(self.rows@), self.last_id as int);
                }
                Ok(true)
            },
            None => {
                assert(self@.table->0.rows.remove(id as int) =~= self@.table->0.rows);
                Ok(false)
            },
        }
    }

    /// The number of rows.
    pub fn len(&self) -> (result: Result<usize, StoreError>)
        ensures
            match self@.table {
                None => result == Err::<usize, StoreError>(StoreError::NoSuchTable),
                Some(table) => result matches Ok(count) && count == table.rows.dom().len(),
            },
            self@.wf(),
    {
        proof {
            use_type_invariant(self);
            lemma_table_of_wf(views(self.rows@), self.last_id as int);
        }
        if !self.created {
            return Err(StoreError::NoSuchTable);
        }
        Ok(self.rows.len())
    }

    /// All rows, in the order of their identifiers.
    pub fn records(&self) -> (result: Result<&Vec<DownloadRecord>, StoreError>)
        ensures
            match self@.table {
                None => result matches Err(StoreError::NoSuchTable),
                Some(table) => {
                    &&& result matches Ok(rows) && in_order(views(rows@), table.last_id)
                        && table == table_of(views(rows@), table.last_id)
                },
            },
            self@.wf(),
    {
        proof {
            use_type_invariant(self);
            lemma_table_of_wf(views(self.rows@), self.last_id as int);
        }
        if !self.created {
            return Err(StoreError::NoSuchTable);
        }
        Ok(&self.rows)
    }
}

} // verus!
