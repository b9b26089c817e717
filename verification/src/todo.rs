//! The todo item itself, the request bodies that create and update it,
//! and the merge step of a partial update.

use vstd::prelude::*;

verus! {

/// A stored todo item. `id` is assigned by the store on creation and
/// never changes; the other fields are mutable through a patch.
#[derive(Debug)]
pub struct Todo {
    pub id: i64,
    pub title: String,
    pub completed: bool,
    pub order: i64,
}

/// The body of a create request: a required title and an optional sort
/// order, which defaults to zero when absent.
#[derive(Debug)]
pub struct NewTodo {
    pub title: String,
    pub order: Option<i64>,
}

/// The body of a patch request: every field optional, and only the
/// fields present overwrite the stored item.
#[derive(Debug)]
pub struct UpdateTodo {
    pub title: Option<String>,
    pub completed: Option<bool>,
    pub order: Option<i64>,
}

/// Two items carry the same data: equal id, title text, completion flag
/// and sort order.
pub open spec fn same_item(a: Todo, b: Todo) -> bool {
    &&& a.id == b.id
    &&& a.title@ == b.title@
    &&& a.completed == b.completed
    &&& a.order == b.order
}

/// The sort order a create request asks for: the given value, or zero
/// when the request left it out.
pub open spec fn order_or_zero(order: Option<i64>) -> i64 {
    match order {
        Some(o) => o,
        None => 0,
    }
}

/// `after` is `before` with exactly the fields present in `upd`
/// overwritten: the id is untouched, and each absent field keeps its
/// prior value.
pub open spec fn merged(before: Todo, upd: UpdateTodo, after: Todo) -> bool {
    &&& after.id == before.id
    &&& after.title@ == (match upd.title {
        Some(t) => t@,
        None => before.title@,
    })
    &&& after.completed == (match upd.completed {
        Some(c) => c,
        None => before.completed,
    })
    &&& after.order == (match upd.order {
        Some(o) => o,
        None => before.order,
    })
}

impl Clone for Todo {
    fn clone(&self) -> (r: Todo)
        ensures
            same_item(r, *self),
    {
        Todo {
            id: self.id,
            title: self.title.clone(),
            completed: self.completed,
            order: self.order,
        }
    }
}

/// Overlay a partial update onto an item: only the fields supplied in
/// `upd` change, everything else — the id in particular — is kept.
pub fn apply_update(before: &Todo, upd: &UpdateTodo) -> (r: Todo)
    ensures
        merged(*before, *upd, r),
{
    Todo {
        id: before.id,
        title: match &upd.title {
            Some(t) => t.clone(),
            None => before.title.clone(),
        },
        completed: match upd.completed {
            Some(c) => c,
            None => before.completed,
        },
        order: match upd.order {
            Some(o) => o,
            None => before.order,
        },
    }
}

/// Supplying only a completion flag changes `completed` and nothing
/// else: title and order keep their prior values under any merge.
pub proof fn lemma_patch_completed_only(before: Todo, upd: UpdateTodo, after: Todo)
    requires
        upd.title is None,
        upd.order is None,
        merged(before, upd, after),
    ensures
        after.title@ == before.title@,
        after.order == before.order,
        after.id == before.id,
        upd.completed is Some ==> after.completed == upd.completed->0,
{
}

} // verus!
