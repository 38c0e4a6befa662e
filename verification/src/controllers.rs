use vstd::prelude::*;

use crate::errors::TodoError;
use crate::models::{todo_of, EditableTodo, InsertableTodo, Todo, TodoView};
use crate::store::{has_id, list_active, patched, views_of, without_id, TodoStore};

verus! {

/// Body of an HTTP-style reply: nothing, the listed rows, or a structured
/// error.
pub enum ReplyBody {
    Empty,
    TodoList(Vec<Todo>),
    Failure(TodoError),
}

/// Outcome of one request, ready for the transport layer to serialize: a
/// status code and a body.
pub struct Reply {
    pub status: u16,
    pub body: ReplyBody,
}

/// Serve the list route: always succeeds with the active rows.
pub fn get_todos(store: &TodoStore) -> (rep: Reply)
    ensures
        rep.status == 200,
        rep.body matches ReplyBody::TodoList(v) && views_of(v@) == list_active(store@.rows),
{
    match Todo::get_all(store) {
        Ok(v) => Reply { status: 200, body: ReplyBody::TodoList(v) },
        Err(e) => Reply { status: e.status_code(), body: ReplyBody::Failure(e) },
    }
}

/// Serve the creation route: insert the payload, report an empty success,
/// or a storage failure when no identifier is left to assign.
pub fn post_todo(store: &mut TodoStore, new_todo: InsertableTodo) -> (rep: Reply)
    requires
        old(store)@.wf(),
    ensures
        final(store)@.wf(),
        old(store)@.next_id < i32::MAX ==> {
            &&& rep.status == 200
            &&& rep.body is Empty
            &&& final(store)@.rows == old(store)@.rows.push(todo_of(new_todo@, old(store)@.next_id))
            &&& final(store)@.next_id == old(store)@.next_id + 1
        },
        old(store)@.next_id == i32::MAX ==> {
            &&& rep.status == 500
            &&& rep.body matches ReplyBody::Failure(e) && e == TodoError::StorageError
            &&& final(store)@ == old(store)@
        },
{
    match Todo::insert(store, new_todo) {
        Ok(()) => Reply { status: 200, body: ReplyBody::Empty },
        Err(e) => Reply { status: e.status_code(), body: ReplyBody::Failure(e) },
    }
}

/// Serve the patch route: merge the payload over the addressed row. A
/// missing row is reported as not-found rather than a generic failure.
pub fn patch_todo(store: &mut TodoStore, todo_id: i32, edited_todo: EditableTodo) -> (rep: Reply)
    requires
        old(store)@.wf(),
    ensures
        final(store)@.wf(),
        final(store)@.next_id == old(store)@.next_id,
        has_id(old(store)@.rows, todo_id as int) ==> {
            &&& rep.status == 200
            &&& rep.body is Empty
            &&& final(store)@.rows == patched(old(store)@.rows, todo_id as int, edited_todo@)
        },
        !has_id(old(store)@.rows, todo_id as int) ==> {
            &&& rep.status == 404
            &&& rep.body matches ReplyBody::Failure(e) && e == TodoError::NotFoundError
            &&& final(store)@ == old(store)@
        },
{
    match Todo::update(store, todo_id, edited_todo) {
        Ok(()) => Reply { status: 200, body: ReplyBody::Empty },
        Err(e) => Reply { status: e.status_code(), body: ReplyBody::Failure(e) },
    }
}

/// Serve the single-row delete route: success whether or not the row
/// existed.
pub fn delete_todo(store: &mut TodoStore, todo_id: i32) -> (rep: Reply)
    requires
        old(store)@.wf(),
    ensures
        final(store)@.wf(),
        final(store)@.next_id == old(store)@.next_id,
        rep.status == 200,
        rep.body is Empty,
        final(store)@.rows == without_id(old(store)@.rows, todo_id as int),
{
    match Todo::delete(store, todo_id) {
        Ok(()) => Reply { status: 200, body: ReplyBody::Empty },
        Err(e) => Reply { status: e.status_code(), body: ReplyBody::Failure(e) },
    }
}

/// Serve the delete-all route: empty the table.
pub fn delete_todos(store: &mut TodoStore) -> (rep: Reply)
    requires
        old(store)@.wf(),
    ensures
        final(store)@.wf(),
        final(store)@.next_id == old(store)@.next_id,
        rep.status == 200,
        rep.body is Empty,
        final(store)@.rows == Seq::<TodoView>::empty(),
{
    match Todo::delete_all(store) {
        Ok(()) => Reply { status: 200, body: ReplyBody::Empty },
        Err(e) => Reply { status: e.status_code(), body: ReplyBody::Failure(e) },
    }
}

} // verus!
