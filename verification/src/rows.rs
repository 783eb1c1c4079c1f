//! Rows in a sequence and the same rows by their identifiers: how the
//! store's list of rows makes the table of [`crate::model`].

use crate::model::TableState;
use crate::record::RecordView;
use vstd::prelude::*;

verus! {

/// No two of `rows` share an identifier: they stand in the order of their
/// identifiers, each higher than the one before.
pub open spec fn ascending(rows: Seq<RecordView>) -> bool {
    forall|i: int, j: int| 0 <= i < j < rows.len() ==> rows[i].id < rows[j].id
}

/// One of `rows` has the identifier `id`.
pub open spec fn has_id(rows: Seq<RecordView>, id: int) -> bool {
    exists|i: int| 0 <= i < rows.len() && (#[trigger] rows[i]).id == id
}

/// The place in `rows` of a row with the identifier `id`.
pub open spec fn position(rows: Seq<RecordView>, id: int) -> int {
    choose|i: int| 0 <= i < rows.len() && (#[trigger] rows[i]).id == id
}

/// The rows of a sequence, each under its identifier.
pub open spec fn by_id(rows: Seq<RecordView>) -> Map<int, RecordView> {
    Map::new(|id: int| has_id(rows, id), |id: int| rows[position(rows, id)])
}

/// In a sequence without a repeated identifier, a row is found under its
/// own identifier.
pub proof fn lemma_by_id_holds(rows: Seq<RecordView>, i: int)
    requires
        ascending(rows),
        0 <= i < rows.len(),
    ensures
        has_id(rows, rows[i].id),
        position(rows, rows[i].id) == i,
        by_id(rows).contains_key(rows[i].id),
        by_id(rows)[rows[i].id] == rows[i],
{
    let id = rows[i].id;
    assert(has_id(rows, id));
    let found = position(rows, id);
    assert(0 <= found < rows.len() && rows[found].id == id);
    if found < i {
        assert(rows[found].id < rows[i].id);
    } else if i < found {
        assert(rows[i].id < rows[found].id);
    }
}

/// A row with a higher identifier than all of `rows`, put behind them, is
/// one more entry of the map.
pub proof fn lemma_by_id_push(rows: Seq<RecordView>, row: RecordView)
    requires
        ascending(rows),
        forall|i: int| 0 <= i < rows.len() ==> (#[trigger] rows[i]).id < row.id,
    ensures
        ascending(rows.push(row)),
        !by_id(rows).contains_key(row.id),
        by_id(rows.push(row)) == by_id(rows).insert(row.id, row),
{
    let longer = rows.push(row);
    assert(ascending(longer));
    assert forall|id: int| has_id(longer, id) <==> (id == row.id || has_id(rows, id)) by {
        if has_id(longer, id) {
            let i = position(longer, id);
            if i < rows.len() {
                assert(rows[i].id == id);
            }
        }
        if id == row.id {
            assert(longer[rows.len() as int].id == id);
        }
        if has_id(rows, id) {
            let i = position(rows, id);
            assert(longer[i].id == id);
        }
    }
    assert forall|id: int| has_id(longer, id) implies #[trigger] by_id(longer)[id] == by_id(
        rows,
    ).insert(row.id, row)[id] by {
        let i = position(longer, id);
        lemma_by_id_holds(longer, i);
        if i < rows.len() {
            lemma_by_id_holds(rows, i);
        }
    }
    assert(by_id(longer) =~= by_id(rows).insert(row.id, row));
}

/// Taking one row out of a sequence takes its entry out of the map.
pub proof fn lemma_by_id_remove(rows: Seq<RecordView>, i: int)
    requires
        ascending(rows),
        0 <= i < rows.len(),
    ensures
        ascending(rows.remove(i)),
        by_id(rows.remove(i)) == by_id(rows).remove(rows[i].id),
{
    let shorter = rows.remove(i);
    assert(ascending(shorter)) by {
        assert forall|a: int, b: int| 0 <= a < b < shorter.len() implies shorter[a].id
            < shorter[b].id by {
            let from_a = if a < i { a } else { a + 1 };
            let from_b = if b < i { b } else { b + 1 };
            assert(shorter[a] == rows[from_a]);
            assert(shorter[b] == rows[from_b]);
        }
    }
    assert forall|id: int| has_id(shorter, id) <==> (id != rows[i].id && has_id(rows, id)) by {
        if has_id(shorter, id) {
            let a = position(shorter, id);
            let from_a = if a < i { a } else { a + 1 };
            assert(shorter[a] == rows[from_a]);
            assert(rows[from_a].id == id);
            if from_a < i {
                assert(rows[from_a].id < rows[i].id);
            } else {
                assert(rows[i].id < rows[from_a].id);
            }
        }
        if id != rows[i].id && has_id(rows, id) {
            let a = position(rows, id);
            let to_a = if a < i { a } else { a - 1 };
            assert(shorter[to_a] == rows[a]);
        }
    }
    assert forall|id: int| has_id(shorter, id) implies #[trigger] by_id(shorter)[id] == by_id(
        rows,
    ).remove(rows[i].id)[id] by {
        let a = position(shorter, id);
        let from_a = if a < i { a } else { a + 1 };
        assert(shorter[a] == rows[from_a]);
        lemma_by_id_holds(shorter, a);
        lemma_by_id_holds(rows, from_a);
    }
    assert(by_id(shorter) =~= by_id(rows).remove(rows[i].id));
}

/// Putting a row in the place of one with the same identifier replaces
/// that entry of the map.
pub proof fn lemma_by_id_update(rows: Seq<RecordView>, i: int, row: RecordView)
    requires
        ascending(rows),
        0 <= i < rows.len(),
        row.id == rows[i].id,
    ensures
        ascending(rows.update(i, row)),
        by_id(rows.update(i, row)) == by_id(rows).insert(row.id, row),
{
    let changed = rows.update(i, row);
    assert(ascending(changed)) by {
        assert forall|a: int, b: int| 0 <= a < b < changed.len() implies changed[a].id
            < changed[b].id by {
            assert(changed[a].id == rows[a].id);
            assert(changed[b].id == rows[b].id);
        }
    }
    assert forall|id: int| has_id(changed, id) <==> (id == row.id || has_id(rows, id)) by {
        if has_id(changed, id) {
            let a = position(changed, id);
            assert(rows[a].id == id);
        }
        if id == row.id {
            assert(changed[i].id == id);
        }
        if has_id(rows, id) {
            let a = position(rows, id);
            assert(changed[a].id == id);
        }
    }
    assert forall|id: int| has_id(changed, id) implies #[trigger] by_id(changed)[id] == by_id(
        rows,
    ).insert(row.id, row)[id] by {
        let a = position(changed, id);
        lemma_by_id_holds(changed, a);
        lemma_by_id_holds(rows, a);
    }
    assert(by_id(changed) =~= by_id(rows).insert(row.id, row));
}

/// A sequence without a repeated identifier makes a map with as many
/// entries as it has rows.
pub proof fn lemma_by_id_len(rows: Seq<RecordView>)
    requires
        ascending(rows),
    ensures
        by_id(rows).dom().finite(),
        by_id(rows).dom().len() == rows.len(),
    decreases rows.len(),
{
    if rows.len() == 0 {
        assert(by_id(rows) =~= Map::<int, RecordView>::empty());
    } else {
        let front = rows.drop_last();
        let last = rows.last();
        assert(rows =~= front.push(last));
        assert(ascending(front));
        lemma_by_id_len(front);
        lemma_by_id_push(front, last);
    }
}

/// `rows` can be the rows of a table whose highest identifier given is
/// `last_id`: they stand in the order of their identifiers, which lie
/// between 1 and `last_id`.
pub open spec fn in_order(rows: Seq<RecordView>, last_id: int) -> bool {
    &&& 0 <= last_id <= i64::MAX
    &&& ascending(rows)
    &&& forall|i: int| 0 <= i < rows.len() ==> 1 <= (#[trigger] rows[i]).id <= last_id
}

/// The table that holds `rows`.
pub open spec fn table_of(rows: Seq<RecordView>, last_id: int) -> TableState {
    TableState { rows: by_id(rows), last_id }
}

/// Rows in order make a well-formed table with one entry for each of them.
pub proof fn lemma_table_of_wf(rows: Seq<RecordView>, last_id: int)
    requires
        in_order(rows, last_id),
    ensures
        table_of(rows, last_id).wf(),
        table_of(rows, last_id).rows.dom().len() == rows.len(),
{
    lemma_by_id_len(rows);
    assert forall|id: int| #[trigger] by_id(rows).contains_key(id) implies 1 <= id <= last_id
        && by_id(rows)[id].id == id by {
        let i = position(rows, id);
        lemma_by_id_holds(rows, i);
    }
}

} // verus!
