//! What holds of the store's operations, one by one and over whole
//! histories of them.

use vstd::math::{max, min};
use vstd::prelude::*;
use crate::page::{window, window_start};
use crate::records::{deleted, enumerates, fetched, inserted, keyed_by_id, updated, Records};
use crate::todo::{TodoView, UpdateTodoView};

verus! {

/// One change to the records.
pub enum Op {
    Insert(TodoView),
    Update(u128, UpdateTodoView),
    Delete(u128),
}

impl Op {
    /// The id of the record that the change is about.
    pub open spec fn id(self) -> u128 {
        match self {
            Op::Insert(todo) => todo.id,
            Op::Update(id, _) => id,
            Op::Delete(id) => id,
        }
    }

    /// The records after the change.
    pub open spec fn apply(self, records: Records) -> Records {
        match self {
            Op::Insert(todo) => inserted(records, todo),
            Op::Update(id, patch) => updated(records, id, patch),
            Op::Delete(id) => deleted(records, id),
        }
    }
}

/// The records after a history of changes, the first of `ops` first.
pub open spec fn replay(records: Records, ops: Seq<Op>) -> Records
    decreases ops.len(),
{
    if ops.len() == 0 {
        records
    } else {
        ops.last().apply(replay(records, ops.drop_last()))
    }
}

/// A record created with title `title` under `id` is found under `id`, with
/// that title and not completed, and no record under another id is touched.
/// Where `id` was not in use, the collection grows by exactly that record.
pub proof fn law_created_is_found(records: Records, id: u128, title: Seq<char>)
    ensures
        fetched(inserted(records, TodoView::fresh(id, title)), id) == Some(
            TodoView { id, title, completed: false },
        ),
        forall|other: u128|
            other != id ==> #[trigger] fetched(
                inserted(records, TodoView::fresh(id, title)),
                other,
            ) == fetched(records, other),
        records.dom().finite() && !records.contains_key(id) ==> inserted(
            records,
            TodoView::fresh(id, title),
        ).len() == records.len() + 1,
{
}

/// Changes to other records leave a record as it is: after any history in
/// which no change is about `id`, a lookup of `id` finds what it found
/// before. So a record, once created, stays retrievable until a change
/// names its id.
pub proof fn law_untouched_is_unchanged(records: Records, ops: Seq<Op>, id: u128)
    requires
        forall|i: int| 0 <= i < ops.len() ==> (#[trigger] ops[i]).id() != id,
    ensures
        fetched(replay(records, ops), id) == fetched(records, id),
    decreases ops.len(),
{
    if ops.len() > 0 {
        let earlier = ops.drop_last();
        assert forall|i: int| 0 <= i < earlier.len() implies (#[trigger] earlier[i]).id()
            != id by {
            assert(earlier[i] == ops[i]);
        }
        law_untouched_is_unchanged(records, earlier, id);
        assert(ops.last() == ops[ops.len() - 1]);
    }
}

/// Only an insert brings an id into the store: where `id` is not found, it
/// is still not found after any history that holds no insert under it.
/// From the empty store this is a lookup of an id never inserted; from
/// `deleted(records, id)`, a lookup of an id already deleted.
pub proof fn law_absent_stays_absent(records: Records, ops: Seq<Op>, id: u128)
    requires
        fetched(records, id) is None,
        forall|i: int|
            0 <= i < ops.len() ==> !((#[trigger] ops[i]) is Insert && ops[i].id() == id),
    ensures
        fetched(replay(records, ops), id) is None,
    decreases ops.len(),
{
    if ops.len() > 0 {
        let earlier = ops.drop_last();
        assert forall|i: int| 0 <= i < earlier.len() implies !((#[trigger] earlier[i]) is Insert
            && earlier[i].id() == id) by {
            assert(earlier[i] == ops[i]);
        }
        law_absent_stays_absent(records, earlier, id);
        assert(ops.last() == ops[ops.len() - 1]);
    }
}

/// A lookup of an id that was never inserted finds nothing.
pub proof fn law_never_inserted_is_not_found(ops: Seq<Op>, id: u128)
    requires
        forall|i: int|
            0 <= i < ops.len() ==> !((#[trigger] ops[i]) is Insert && ops[i].id() == id),
    ensures
        fetched(replay(Records::empty(), ops), id) is None,
{
    law_absent_stays_absent(Records::empty(), ops, id);
}

/// After a delete, a lookup of the same id finds nothing, whether or not
/// there was a record; a second delete changes nothing; and no record under
/// another id is touched.
pub proof fn law_deleted_is_not_found(records: Records, id: u128)
    ensures
        fetched(deleted(records, id), id) is None,
        deleted(deleted(records, id), id) == deleted(records, id),
        !records.contains_key(id) ==> deleted(records, id) == records,
        forall|other: u128|
            other != id ==> #[trigger] fetched(deleted(records, id), other) == fetched(
                records,
                other,
            ),
{
    assert(deleted(deleted(records, id), id) =~= deleted(records, id));
    if !records.contains_key(id) {
        assert(deleted(records, id) =~= records);
    }
}

/// An update changes exactly the fields that the patch supplies: the title
/// alone, the completion flag alone, both, or, with an empty patch, nothing
/// at all. It never changes the id, never touches another record, and does
/// nothing where no record has the id.
pub proof fn law_update_changes_what_is_given(records: Records, id: u128, patch: UpdateTodoView)
    ensures
        records.contains_key(id) ==> {
            let before = records[id];
            let after = updated(records, id, patch)[id];
            &&& updated(records, id, patch).contains_key(id)
            &&& after.id == before.id
            &&& after.title == match patch.title {
                Some(title) => title,
                None => before.title,
            }
            &&& after.completed == match patch.completed {
                Some(completed) => completed,
                None => before.completed,
            }
        },
        patch.title is None && patch.completed is None ==> updated(records, id, patch) == records,
        !records.contains_key(id) ==> updated(records, id, patch) == records,
        updated(records, id, patch).dom() == records.dom(),
        forall|other: u128|
            other != id ==> #[trigger] fetched(updated(records, id, patch), other) == fetched(
                records,
                other,
            ),
{
    if patch.title is None && patch.completed is None {
        assert(updated(records, id, patch) =~= records);
    }
    assert(updated(records, id, patch).dom() =~= records.dom());
}

/// Every record stays under its own id, whatever the history.
pub proof fn law_keyed_by_id_is_kept(records: Records, ops: Seq<Op>)
    requires
        keyed_by_id(records),
    ensures
        keyed_by_id(replay(records, ops)),
    decreases ops.len(),
{
    if ops.len() > 0 {
        law_keyed_by_id_is_kept(records, ops.drop_last());
    }
}

/// A page is a run of the collection, as walked: `min(limit, max(0, size -
/// offset))` records long, each of them a record of the collection, no two
/// of them the same, and none left out between the skipped ones and the
/// ones cut off. The first `min(offset, size)` records are skipped, and
/// records are cut off at the end only where the limit is reached. An empty
/// collection has an empty page.
pub proof fn law_page_is_a_run(all: Seq<TodoView>, records: Records, offset: nat, limit: nat)
    requires
        enumerates(all, records),
    ensures
        ({
            let page = window(all, offset, limit);
            let start = window_start(records.len(), offset);
            &&& page.len() == min(limit as int, max(0, records.len() - offset))
            &&& start == min(offset as int, records.len() as int)
            &&& forall|i: int| 0 <= i < page.len() ==> #[trigger] page[i] == all[start + i]
            &&& forall|i: int|
                0 <= i < page.len() ==> fetched(records, (#[trigger] page[i]).id) == Some(page[i])
            &&& forall|i: int, j: int|
                0 <= i < j < page.len() ==> (#[trigger] page[i]).id != (#[trigger] page[j]).id
            &&& page.no_duplicates()
            &&& all == all.take(start as int) + page + all.skip((start + page.len()) as int)
            &&& page.len() < limit ==> all.skip((start + page.len()) as int).len() == 0
            &&& records.len() == 0 ==> page.len() == 0
        }),
{
    let page = window(all, offset, limit);
    let start = window_start(records.len(), offset);
    assert forall|i: int| 0 <= i < page.len() implies fetched(records, (#[trigger] page[i]).id)
        == Some(page[i]) by {
        assert(page[i] == all[start + i]);
    }
    assert forall|i: int, j: int| 0 <= i < j < page.len() implies (#[trigger] page[i]).id
        != (#[trigger] page[j]).id by {
        assert(page[i] == all[start + i]);
        assert(page[j] == all[start + j]);
    }
    assert(all =~= all.take(start as int) + page + all.skip((start + page.len()) as int));
}

} // verus!
