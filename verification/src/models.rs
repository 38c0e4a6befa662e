use vstd::prelude::*;

verus! {

/// A single persisted todo row. Storage assigns `id` on insert and never
/// reassigns it; `title`, `body` and `is_checked` form the mutable payload.
#[derive(Debug)]
pub struct Todo {
    pub id: i32,
    pub title: String,
    pub body: String,
    pub is_checked: bool,
}

/// Mathematical image of a row: the identifier as an unbounded integer and
/// the text fields as character sequences.
pub struct TodoView {
    pub id: int,
    pub title: Seq<char>,
    pub body: Seq<char>,
    pub is_checked: bool,
}

impl View for Todo {
    type V = TodoView;

    open spec fn view(&self) -> TodoView {
        TodoView {
            id: self.id as int,
            title: self.title@,
            body: self.body@,
            is_checked: self.is_checked,
        }
    }
}

impl Clone for Todo {
    fn clone(&self) -> (r: Self)
        ensures
            r@ == self@,
    {
        Todo {
            id: self.id,
            title: self.title.clone(),
            body: self.body.clone(),
            is_checked: self.is_checked,
        }
    }
}

/// Creation payload: a row without its identifier. All three fields are
/// required; the storage layer chooses the `id`.
#[derive(Debug)]
pub struct InsertableTodo {
    pub title: String,
    pub body: String,
    pub is_checked: bool,
}

/// Mathematical image of a creation payload.
pub struct InsertView {
    pub title: Seq<char>,
    pub body: Seq<char>,
    pub is_checked: bool,
}

impl View for InsertableTodo {
    type V = InsertView;

    open spec fn view(&self) -> InsertView {
        InsertView { title: self.title@, body: self.body@, is_checked: self.is_checked }
    }
}

/// The row a creation payload turns into once storage assigns it `id`.
pub open spec fn todo_of(p: InsertView, id: int) -> TodoView {
    TodoView { id: id, title: p.title, body: p.body, is_checked: p.is_checked }
}

/// Partial-update payload: every field optional. An absent field means
/// "keep the stored value", a present field overwrites it.
#[derive(Debug)]
pub struct EditableTodo {
    pub title: Option<String>,
    pub body: Option<String>,
    pub is_checked: Option<bool>,
}

/// Mathematical image of a partial-update payload.
pub struct PatchView {
    pub title: Option<Seq<char>>,
    pub body: Option<Seq<char>>,
    pub is_checked: Option<bool>,
}

impl View for EditableTodo {
    type V = PatchView;

    open spec fn view(&self) -> PatchView {
        PatchView {
            title: match self.title {
                Some(t) => Some(t@),
                None => None,
            },
            body: match self.body {
                Some(b) => Some(b@),
                None => None,
            },
            is_checked: self.is_checked,
        }
    }
}

/// The read-merge-write rule: each field of the result comes from the patch
/// when the patch supplies it, and from the stored row otherwise. The
/// identifier is never touched.
pub open spec fn merged(t: TodoView, p: PatchView) -> TodoView {
    TodoView {
        id: t.id,
        title: match p.title {
            Some(s) => s,
            None => t.title,
        },
        body: match p.body {
            Some(s) => s,
            None => t.body,
        },
        is_checked: match p.is_checked {
            Some(b) => b,
            None => t.is_checked,
        },
    }
}

} // verus!
