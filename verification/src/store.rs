use vstd::prelude::*;

use crate::errors::TodoError;
use crate::models::{merged, todo_of, EditableTodo, InsertableTodo, PatchView, Todo, TodoView};

verus! {

/// Upper bound on the number of rows a listing returns.
pub const LIST_LIMIT: usize = 5;

/// Mathematical image of the table: the rows in storage order and the
/// identifier the next insertion will receive.
pub struct StoreView {
    pub rows: Seq<TodoView>,
    pub next_id: int,
}

impl StoreView {
    /// Well-formedness of the table: identifiers are positive, pairwise
    /// distinct, and below the next identifier to hand out, which itself
    /// fits the identifier type.
    pub open spec fn wf(self) -> bool {
        &&& 1 <= self.next_id <= i32::MAX
        &&& forall|j: int|
            0 <= j < self.rows.len() ==> 1 <= (#[trigger] self.rows[j]).id < self.next_id
        &&& forall|j: int, k: int|
            0 <= j < k < self.rows.len() ==> (#[trigger] self.rows[j]).id != (
            #[trigger] self.rows[k]).id
    }
}

/// The views of a sequence of rows.
pub open spec fn views_of(ts: Seq<Todo>) -> Seq<TodoView> {
    ts.map_values(|t: Todo| t@)
}

/// The rows that a listing reports: those not yet checked, in storage
/// order, cut off after `LIST_LIMIT` entries.
pub open spec fn active(rows: Seq<TodoView>) -> Seq<TodoView> {
    rows.filter(|t: TodoView| !t.is_checked)
}

/// The result of the list operation on a table with the given rows.
pub open spec fn list_active(rows: Seq<TodoView>) -> Seq<TodoView> {
    if active(rows).len() <= LIST_LIMIT {
        active(rows)
    } else {
        active(rows).take(LIST_LIMIT as int)
    }
}

/// Whether some row carries the given identifier.
pub open spec fn has_id(rows: Seq<TodoView>, id: int) -> bool {
    exists|j: int| 0 <= j < rows.len() && (#[trigger] rows[j]).id == id
}

/// Index of the first row carrying the given identifier.
pub open spec fn idx_of(rows: Seq<TodoView>, id: int) -> int
    decreases rows.len(),
{
    if rows.len() == 0 {
        0
    } else if rows[0].id == id {
        0
    } else {
        1 + idx_of(rows.drop_first(), id)
    }
}

/// The rows left after deleting every row with the given identifier.
pub open spec fn without_id(rows: Seq<TodoView>, id: int) -> Seq<TodoView> {
    rows.filter(|t: TodoView| t.id != id)
}

/// The rows after patching the row with the given identifier: the first
/// matching row is replaced by the merge of itself and the patch.
pub open spec fn patched(rows: Seq<TodoView>, id: int, p: PatchView) -> Seq<TodoView> {
    rows.update(idx_of(rows, id), merged(rows[idx_of(rows, id)], p))
}

/// A found position is exactly the first-match index.
proof fn lemma_idx_of_found(rows: Seq<TodoView>, id: int, i: int)
    requires
        0 <= i < rows.len(),
        rows[i].id == id,
        forall|k: int| 0 <= k < i ==> (#[trigger] rows[k]).id != id,
    ensures
        idx_of(rows, id) == i,
    decreases i,
{
    if i > 0 {
        lemma_idx_of_found(rows.drop_first(), id, i - 1);
    }
}

/// When some row carries the identifier, the first-match index is a valid
/// position and the row there carries it.
pub proof fn lemma_idx_of_valid(rows: Seq<TodoView>, id: int)
    requires
        has_id(rows, id),
    ensures
        0 <= idx_of(rows, id) < rows.len(),
        rows[idx_of(rows, id)].id == id,
        forall|k: int| 0 <= k < idx_of(rows, id) ==> (#[trigger] rows[k]).id != id,
    decreases rows.len(),
{
    if rows.len() > 0 && rows[0].id != id {
        let j = choose|j: int| 0 <= j < rows.len() && (#[trigger] rows[j]).id == id;
        assert(rows.drop_first()[j - 1] == rows[j]);
        lemma_idx_of_valid(rows.drop_first(), id);
        assert forall|k: int| 0 <= k < idx_of(rows, id) implies (#[trigger] rows[k]).id != id by {
            if k > 0 {
                assert(rows.drop_first()[k - 1] == rows[k]);
            }
        }
    }
}

/// Filtering keeps identifiers pairwise distinct, and every kept row is one
/// of the original rows.
pub proof fn lemma_filter_rows(rows: Seq<TodoView>, pred: spec_fn(TodoView) -> bool)
    requires
        forall|j: int, k: int|
            0 <= j < k < rows.len() ==> (#[trigger] rows[j]).id != (#[trigger] rows[k]).id,
    ensures
        forall|j: int, k: int|
            0 <= j < k < rows.filter(pred).len() ==> (#[trigger] rows.filter(pred)[j]).id != (
            #[trigger] rows.filter(pred)[k]).id,
        forall|j: int|
            0 <= j < rows.filter(pred).len() ==> rows.contains(#[trigger] rows.filter(pred)[j]),
    decreases rows.len(),
{
    reveal(Seq::filter);
    if rows.len() > 0 {
        let rest = rows.drop_last();
        lemma_filter_rows(rest, pred);
        assert forall|j: int|
            0 <= j < rows.filter(pred).len() implies rows.contains(
            #[trigger] rows.filter(pred)[j],
        ) by {
            if j < rest.filter(pred).len() {
                let k = choose|k: int| 0 <= k < rest.len() && rest[k] == rest.filter(pred)[j];
                assert(rows[k] == rows.filter(pred)[j]);
            } else {
                assert(rows[rows.len() - 1] == rows.filter(pred)[j]);
            }
        }
        assert forall|j: int, k: int|
            0 <= j < k < rows.filter(pred).len() implies (#[trigger] rows.filter(pred)[j]).id != (
        #[trigger] rows.filter(pred)[k]).id by {
            if k < rest.filter(pred).len() {
                assert(rest.filter(pred)[j] == rows.filter(pred)[j]);
                assert(rest.filter(pred)[k] == rows.filter(pred)[k]);
            } else {
                let k0 = choose|k0: int|
                    0 <= k0 < rest.len() && rest[k0] == rest.filter(pred)[j];
                assert(rows.filter(pred)[k] == rows[rows.len() - 1]);
                assert(rows.filter(pred)[j] == rows[k0]);
            }
        }
    }
}

/// The in-memory table: the persisted rows and the next identifier storage
/// will assign. The constructor establishes well-formedness and every
/// operation preserves it.
pub struct TodoStore {
    todos: Vec<Todo>,
    next_id: i32,
}

impl View for TodoStore {
    type V = StoreView;

    closed spec fn view(&self) -> StoreView {
        StoreView { rows: views_of(self.todos@), next_id: self.next_id as int }
    }
}

impl TodoStore {
    /// An empty table whose first insertion will receive identifier 1.
    pub fn new() -> (s: Self)
        ensures
            s@.rows == Seq::<TodoView>::empty(),
            s@.next_id == 1,
            s@.wf(),
    {
        let s = TodoStore { todos: Vec::new(), next_id: 1 };
        proof {
            assert(s@.rows =~= Seq::<TodoView>::empty());
        }
        s
    }
}

/// First position holding the given identifier, if any.
fn find_index(todos: &Vec<Todo>, todo_id: i32) -> (r: Option<usize>)
    ensures
        match r {
            Some(i) => i < todos@.len() && views_of(todos@)[i as int].id == todo_id as int
                && forall|k: int|
                0 <= k < i ==> (#[trigger] views_of(todos@)[k]).id != todo_id as int,
            None => !has_id(views_of(todos@), todo_id as int),
        },
{
    let n = todos.len();
    let mut i: usize = 0;
    while i < n
        invariant
            n == todos@.len(),
            i <= n,
            forall|k: int| 0 <= k < i ==> (#[trigger] views_of(todos@)[k]).id != todo_id as int,
        decreases n - i,
    {
        if todos[i].id == todo_id {
            return Some(i);
        }
        i = i + 1;
    }
    None
}

impl Todo {
    /// List the unchecked rows, in storage order, at most `LIST_LIMIT` of
    /// them.
    pub fn get_all(store: &TodoStore) -> (r: Result<Vec<Todo>, TodoError>)
        ensures
            r matches Ok(v) && views_of(v@) == list_active(store@.rows),
    {
        let rows = &store.todos;
        let n = rows.len();
        let mut out: Vec<Todo> = Vec::new();
        let mut i: usize = 0;
        while i < n
            invariant
                n == rows@.len(),
                i <= n,
                views_of(out@) == active(store@.rows.take(i as int)),
                rows == store.todos,
            decreases n - i,
        {
            proof {
                broadcast use Seq::lemma_filter_push, Seq::lemma_take_succ_push, Seq::lemma_push_map_commute;

                assert(store@.rows.take(i + 1) == store@.rows.take(i as int).push(
                    store@.rows[i as int],
                ));
            }
            if !rows[i].is_checked {
                out.push(rows[i].clone());
            }
            i = i + 1;
        }
        proof {
            assert(store@.rows.take(n as int) =~= store@.rows);
        }
        if out.len() > LIST_LIMIT {
            out.truncate(LIST_LIMIT);
            proof {
                assert(views_of(out@) =~= active(store@.rows).take(LIST_LIMIT as int));
            }
        }
        Ok(out)
    }

    /// Insert a new row: storage assigns the next free identifier. The one
    /// way this can fail is identifier exhaustion, a storage-level
    /// constraint violation.
    pub fn insert(store: &mut TodoStore, new_todo: InsertableTodo) -> (r: Result<(), TodoError>)
        requires
            old(store)@.wf(),
        ensures
            final(store)@.wf(),
            old(store)@.next_id < i32::MAX ==> {
                &&& r is Ok
                &&& final(store)@.rows == old(store)@.rows.push(todo_of(new_todo@, old(store)@.next_id))
                &&& final(store)@.next_id == old(store)@.next_id + 1
            },
            old(store)@.next_id == i32::MAX ==> {
                &&& r matches Err(e) && e == TodoError::StorageError
                &&& final(store)@ == old(store)@
            },
    {
        if store.next_id == i32::MAX {
            return Err(TodoError::StorageError);
        }
        let id = store.next_id;
        let t = Todo {
            id,
            title: new_todo.title,
            body: new_todo.body,
            is_checked: new_todo.is_checked,
        };
        store.todos.push(t);
        store.next_id = id + 1;
        proof {
            broadcast use Seq::lemma_push_map_commute;

            assert(store@.rows =~= old(store)@.rows.push(todo_of(new_todo@, id as int)));
        }
        Ok(())
    }

    /// Patch the row with the given identifier: fetch it, merge the payload
    /// over it field by field, and write the merged row back. Reports
    /// not-found when no row carries the identifier.
    ///
    /// The fetch, the merge and the write happen under one exclusive borrow
    /// of the store, so two patches of the same row cannot interleave and no
    /// update is ever lost to a concurrent read-merge-write pair.
    pub fn update(store: &mut TodoStore, todo_id: i32, edited_todo: EditableTodo) -> (r: Result<
        (),
        TodoError,
    >)
        requires
            old(store)@.wf(),
        ensures
            final(store)@.wf(),
            final(store)@.next_id == old(store)@.next_id,
            !has_id(old(store)@.rows, todo_id as int) ==> {
                &&& r matches Err(e) && e == TodoError::NotFoundError
                &&& final(store)@ == old(store)@
            },
            has_id(old(store)@.rows, todo_id as int) ==> {
                &&& r is Ok
                &&& final(store)@.rows == patched(old(store)@.rows, todo_id as int, edited_todo@)
            },
    {
        let i = match find_index(&store.todos, todo_id) {
            Some(i) => i,
            None => {
                return Err(TodoError::NotFoundError);
            },
        };
        proof {
            lemma_idx_of_found(old(store)@.rows, todo_id as int, i as int);
        }
        let new_title = match edited_todo.title {
            Some(t) => t,
            None => store.todos[i].title.clone(),
        };
        let new_body = match edited_todo.body {
            Some(b) => b,
            None => store.todos[i].body.clone(),
        };
        let new_checked = match edited_todo.is_checked {
            Some(c) => c,
            None => store.todos[i].is_checked,
        };
        let new_row = Todo {
            id: store.todos[i].id,
            title: new_title,
            body: new_body,
            is_checked: new_checked,
        };
        let ghost old_rows = store@.rows;
        store.todos.remove(i);
        store.todos.insert(i, new_row);
        proof {
            assert(store.todos@ =~= old(store).todos@.update(i as int, new_row));
            assert(store@.rows =~= old_rows.update(i as int, merged(
                old_rows[i as int],
                edited_todo@,
            )));
        }
        Ok(())
    }

    /// Delete the row with the given identifier. A miss is not an error:
    /// deleting an absent row succeeds and changes nothing.
    pub fn delete(store: &mut TodoStore, todo_id: i32) -> (r: Result<(), TodoError>)
        requires
            old(store)@.wf(),
        ensures
            final(store)@.wf(),
            final(store)@.next_id == old(store)@.next_id,
            r is Ok,
            final(store)@.rows == without_id(old(store)@.rows, todo_id as int),
    {
        let n = store.todos.len();
        let mut kept: Vec<Todo> = Vec::new();
        let mut i: usize = 0;
        while i < n
            invariant
                n == store.todos@.len(),
                i <= n,
                store == old(store),
                views_of(kept@) == without_id(store@.rows.take(i as int), todo_id as int),
            decreases n - i,
        {
            proof {
                broadcast use Seq::lemma_filter_push, Seq::lemma_take_succ_push, Seq::lemma_push_map_commute;

                assert(store@.rows.take(i + 1) == store@.rows.take(i as int).push(
                    store@.rows[i as int],
                ));
            }
            if store.todos[i].id != todo_id {
                kept.push(store.todos[i].clone());
            }
            i = i + 1;
        }
        proof {
            assert(store@.rows.take(n as int) =~= store@.rows);
            lemma_filter_rows(old(store)@.rows, |t: TodoView| t.id != todo_id as int);
        }
        store.todos = kept;
        Ok(())
    }

    /// Delete every row. Identifiers are never reused, so the next
    /// identifier is left where it was.
    pub fn delete_all(store: &mut TodoStore) -> (r: Result<(), TodoError>)
        requires
            old(store)@.wf(),
        ensures
            final(store)@.wf(),
            final(store)@.next_id == old(store)@.next_id,
            r is Ok,
            final(store)@.rows == Seq::<TodoView>::empty(),
    {
        store.todos.clear();
        proof {
            assert(store@.rows =~= Seq::<TodoView>::empty());
        }
        Ok(())
    }
}

} // verus!
