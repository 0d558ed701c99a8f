use vstd::prelude::*;

use crate::store::{
    after_delete, after_insert, after_update, find, insert_accepted, lemma_empty_patch_changes_nothing,
    lemma_filter_keeps_all, lemma_find_at, new_row, store_wf, StoreView,
};
use crate::task::{apply_patch, is_empty_patch, PatchView, TaskStatus, TaskView};

verus! {

/// Every operation keeps a store well formed.
pub proof fn lemma_operations_keep_wf(s: StoreView, p: PatchView, id: i64, time: i64)
    requires
        store_wf(s),
    ensures
        insert_accepted(s, p) ==> store_wf(after_insert(s, p, time)),
        store_wf(after_update(s, id, p)),
        store_wf(after_delete(s, id)),
{
    let u = after_update(s, id, p);
    assert(forall|i: int| 0 <= i < s.rows.len() ==> #[trigger] u.rows[i].id == s.rows[i].id);
    broadcast use vstd::seq_lib::group_filter_ensures;

    lemma_filter_ids_grow(s.rows, id, s.next_id);
}

/// A filtered sequence of rows keeps the rows' bounds and their growing ids.
proof fn lemma_filter_ids_grow(rows: Seq<TaskView>, id: i64, bound: int)
    requires
        forall|i: int| 0 <= i < rows.len() ==> 1 <= #[trigger] rows[i].id < bound,
        forall|i: int, j: int|
            0 <= i < j < rows.len() ==> #[trigger] rows[i].id < #[trigger] rows[j].id,
    ensures
        ({
            let f = rows.filter(|r: TaskView| r.id != id);
            &&& forall|i: int| 0 <= i < f.len() ==> 1 <= #[trigger] f[i].id < bound
            &&& forall|i: int, j: int|
                0 <= i < j < f.len() ==> #[trigger] f[i].id < #[trigger] f[j].id
        }),
    decreases rows.len(),
{
    reveal(Seq::filter);
    if rows.len() > 0 {
        let d = rows.drop_last();
        let last = rows.last();
        assert(forall|i: int| 0 <= i < d.len() ==> d[i] == rows[i]);
        lemma_filter_ids_grow(d, id, last.id as int);
        lemma_filter_ids_grow(d, id, bound);
    }
}

/// A task that was inserted is found under its id, exactly as insertion returned it.
pub proof fn lemma_get_after_insert(s: StoreView, p: PatchView, time: i64)
    requires
        store_wf(s),
        insert_accepted(s, p),
    ensures
        find(after_insert(s, p, time).rows, new_row(s, p, time).id) == Some(new_row(s, p, time)),
{
    lemma_operations_keep_wf(s, p, 0, time);
    let t = after_insert(s, p, time);
    lemma_find_at(t, s.rows.len() as int);
}

/// A task created without a status is open.
pub proof fn lemma_insert_defaults_to_open(s: StoreView, p: PatchView, time: i64)
    requires
        p.status is None,
    ensures
        new_row(s, p, time).status == TaskStatus::Open,
{
}

/// An update that names no field changes nothing, and what it returns is the
/// task as it stood.
pub proof fn lemma_empty_update_is_identity(s: StoreView, id: i64, p: PatchView)
    requires
        is_empty_patch(p),
    ensures
        after_update(s, id, p) == s,
        find(s.rows, id) matches Some(o) ==> apply_patch(o, p) == o,
{
    lemma_empty_patch_changes_nothing(s, id, p);
}

/// An update that names only a name changes only the name: id, status and
/// creation time stay.
pub proof fn lemma_update_name_only(s: StoreView, id: i64, n: Seq<char>)
    requires
        store_wf(s),
        find(s.rows, id) is Some,
    ensures
        ({
            let p = PatchView { name: Some(n), status: None };
            let o = find(s.rows, id)->Some_0;
            find(after_update(s, id, p).rows, id) == Some(
                TaskView { id: o.id, name: n, status: o.status, creation_time: o.creation_time },
            )
        }),
{
    let p = PatchView { name: Some(n), status: None };
    let i = choose|i: int| 0 <= i < s.rows.len() && s.rows[i].id == id;
    lemma_find_at(s, i);
    lemma_operations_keep_wf(s, p, id, 0);
    let u = after_update(s, id, p);
    lemma_find_at(u, i);
}

/// After a deletion the id is not found, and deleting it again changes nothing.
pub proof fn lemma_delete_then_get(s: StoreView, id: i64)
    requires
        store_wf(s),
    ensures
        find(after_delete(s, id).rows, id) is None,
        after_delete(after_delete(s, id), id) == after_delete(s, id),
{
    let d = after_delete(s, id);
    let pred = |r: TaskView| r.id != id;
    broadcast use vstd::seq_lib::group_filter_ensures;

    assert(forall|i: int| 0 <= i < d.rows.len() ==> pred(#[trigger] d.rows[i]));
    lemma_filter_keeps_all(d.rows, id);
}

/// Two insertions are listed after the earlier rows, in the order they were
/// made, the later with the larger id.
pub proof fn lemma_inserts_listed_in_order(
    s: StoreView,
    p1: PatchView,
    t1: i64,
    p2: PatchView,
    t2: i64,
)
    requires
        store_wf(s),
        insert_accepted(s, p1),
        insert_accepted(after_insert(s, p1, t1), p2),
    ensures
        ({
            let s1 = after_insert(s, p1, t1);
            let s2 = after_insert(s1, p2, t2);
            &&& s2.rows == s.rows + seq![new_row(s, p1, t1), new_row(s1, p2, t2)]
            &&& new_row(s, p1, t1).id < new_row(s1, p2, t2).id
        }),
{
    let s1 = after_insert(s, p1, t1);
    let s2 = after_insert(s1, p2, t2);
    assert(s2.rows =~= s.rows + seq![new_row(s, p1, t1), new_row(s1, p2, t2)]);
}

/// An id that the store has not handed out yet is not found.
pub proof fn lemma_get_never_inserted(s: StoreView, id: i64)
    requires
        store_wf(s),
        id < 1 || id >= s.next_id,
    ensures
        find(s.rows, id) is None,
{
}

} // verus!
