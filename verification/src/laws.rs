use vstd::prelude::*;

use crate::models::{merged, todo_of, InsertView, PatchView, TodoView};
use crate::store::{
    active, has_id, idx_of, lemma_filter_rows, lemma_idx_of_valid, list_active, patched,
    without_id, StoreView, LIST_LIMIT,
};

verus! {

/// Filtering a sequence whose every element passes the predicate returns the
/// sequence itself.
proof fn lemma_filter_all(s: Seq<TodoView>, pred: spec_fn(TodoView) -> bool)
    requires
        forall|j: int| 0 <= j < s.len() ==> pred(#[trigger] s[j]),
    ensures
        s.filter(pred) == s,
    decreases s.len(),
{
    reveal(Seq::filter);
    if s.len() > 0 {
        lemma_filter_all(s.drop_last(), pred);
        assert(s.filter(pred) =~= s);
    }
}

/// Inserting into a well-formed table with fewer than `LIST_LIMIT` active
/// rows puts the new row — payload fields intact, still unchecked — into a
/// subsequent listing, and the identifier it receives is carried by no
/// existing row.
pub proof fn lemma_insert_then_listed(s: StoreView, p: InsertView)
    requires
        s.wf(),
        !p.is_checked,
        active(s.rows).len() < LIST_LIMIT,
    ensures
        list_active(s.rows.push(todo_of(p, s.next_id))).contains(todo_of(p, s.next_id)),
        !has_id(s.rows, s.next_id),
{
    broadcast use Seq::lemma_filter_push, Seq::lemma_index_contains;

    let t = todo_of(p, s.next_id);
    let listed = active(s.rows.push(t));
    assert(listed == active(s.rows).push(t));
    assert(listed[listed.len() - 1] == t);
    assert forall|j: int| 0 <= j < s.rows.len() implies (#[trigger] s.rows[j]).id != s.next_id by {}
}

/// A listing never exceeds `LIST_LIMIT` rows and never contains a checked
/// row.
pub proof fn lemma_list_bounded(rows: Seq<TodoView>)
    ensures
        list_active(rows).len() <= LIST_LIMIT,
        forall|j: int|
            0 <= j < list_active(rows).len() ==> !(#[trigger] list_active(rows)[j]).is_checked,
{
    broadcast use vstd::seq_lib::group_filter_ensures;

    assert forall|j: int|
        0 <= j < list_active(rows).len() implies !(#[trigger] list_active(rows)[j]).is_checked by {
        assert(list_active(rows)[j] == active(rows)[j]);
    }
}

/// A patch that supplies no field leaves the row unchanged.
pub proof fn lemma_patch_empty(t: TodoView)
    ensures
        merged(t, PatchView { title: None, body: None, is_checked: None }) == t,
{
}

/// A patch that supplies only `is_checked = true` keeps the texts of the
/// addressed row, marks it checked, and the row then appears in no listing.
pub proof fn lemma_patch_check_only(s: StoreView, id: int)
    requires
        s.wf(),
        has_id(s.rows, id),
    ensures
        ({
            let p = PatchView { title: None, body: None, is_checked: Some(true) };
            let k = idx_of(s.rows, id);
            let rows2 = patched(s.rows, id, p);
            &&& rows2[k].title == s.rows[k].title
            &&& rows2[k].body == s.rows[k].body
            &&& rows2[k].is_checked
            &&& forall|j: int|
                0 <= j < list_active(rows2).len() ==> (#[trigger] list_active(rows2)[j]).id != id
        }),
{
    broadcast use vstd::seq_lib::group_filter_ensures;

    let p = PatchView { title: None, body: None, is_checked: Some(true) };
    let k = idx_of(s.rows, id);
    lemma_idx_of_valid(s.rows, id);
    let rows2 = patched(s.rows, id, p);
    assert forall|j: int, m: int|
        0 <= j < m < rows2.len() implies (#[trigger] rows2[j]).id != (#[trigger] rows2[m]).id by {
        assert(rows2[j].id == s.rows[j].id);
        assert(rows2[m].id == s.rows[m].id);
    }
    lemma_filter_rows(rows2, |t: TodoView| !t.is_checked);
    assert forall|j: int|
        0 <= j < list_active(rows2).len() implies (#[trigger] list_active(rows2)[j]).id != id by {
        assert(list_active(rows2)[j] == active(rows2)[j]);
        if active(rows2)[j].id == id {
            let k2 = choose|k2: int| 0 <= k2 < rows2.len() && rows2[k2] == active(rows2)[j];
            assert(rows2[k2].id == id);
            assert(rows2[k].id == id);
            assert(k2 == k);
            assert(!active(rows2)[j].is_checked);
        }
    }
}

/// Deleting an identifier twice has the same effect as deleting it once:
/// the second pass keeps every remaining row.
pub proof fn lemma_delete_idempotent(rows: Seq<TodoView>, id: int)
    ensures
        without_id(without_id(rows, id), id) == without_id(rows, id),
{
    broadcast use vstd::seq_lib::group_filter_ensures;

    lemma_filter_all(without_id(rows, id), |t: TodoView| t.id != id);
}

/// Listing an emptied table yields nothing.
pub proof fn lemma_list_of_empty()
    ensures
        list_active(Seq::<TodoView>::empty()) == Seq::<TodoView>::empty(),
{
    reveal(Seq::filter);
}

} // verus!
