//! The semantics of the todo table: rows ordered by ascending id, ids
//! assigned from a counter that never moves backwards, and the six
//! operations the handlers perform on it. The connection pool executes
//! these operations as SQL statements; this model states what each
//! statement does to the table and what the handler may rely on.

use vstd::prelude::*;

use crate::error::Error;
use crate::todo::apply_update;
use crate::todo::merged;
use crate::todo::order_or_zero;
use crate::todo::same_item;
use crate::todo::NewTodo;
use crate::todo::Todo;
use crate::todo::UpdateTodo;

verus! {

/// Some row of `rows` carries the id.
pub open spec fn contains_id(rows: Seq<Todo>, id: i64) -> bool {
    exists|i: int| 0 <= i < rows.len() && rows[i].id == id
}

/// The todo table: its rows in storage order and the next id the store
/// will assign. Ids are handed out in ascending order and never
/// reused, so the rows are strictly sorted by id.
pub struct TodoStore {
    todos: Vec<Todo>,
    next_id: i64,
}

impl TodoStore {
    /// The stored rows, in storage order.
    pub closed spec fn rows(self) -> Seq<Todo> {
        self.todos@
    }

    /// The id the next created item will receive.
    pub closed spec fn next(self) -> int {
        self.next_id as int
    }

    /// The store's invariant: the id counter is positive, every stored
    /// id is positive and below the counter, and the rows are strictly
    /// sorted by id — which makes every id unique.
    pub open spec fn wf(self) -> bool {
        &&& 1 <= self.next()
        &&& forall|i: int|
            0 <= i < self.rows().len() ==> 1 <= (#[trigger] self.rows()[i]).id
                && self.rows()[i].id < self.next()
        &&& forall|i: int, j: int|
            0 <= i < j < self.rows().len() ==> (#[trigger] self.rows()[i]).id < (
            #[trigger] self.rows()[j]).id
    }

    /// What a create does: one row is appended carrying the next id,
    /// the requested title, a false completed flag and the requested
    /// (or default zero) order; every prior row is untouched; the
    /// counter advances; and the returned item carries the new row's
    /// data.
    pub open spec fn create_post(pre: TodoStore, post: TodoStore, new: NewTodo, r: Todo) -> bool {
        &&& post.rows().len() == pre.rows().len() + 1
        &&& forall|i: int|
            0 <= i < pre.rows().len() ==> #[trigger] post.rows()[i] == pre.rows()[i]
        &&& post.rows().last().id as int == pre.next()
        &&& post.rows().last().title@ == new.title@
        &&& post.rows().last().completed == false
        &&& post.rows().last().order == order_or_zero(new.order)
        &&& same_item(r, post.rows().last())
        &&& post.next() == pre.next() + 1
    }

    /// What a successful patch of `id` does: the one row carrying the
    /// id is overwritten with the merge of its prior state and the
    /// update; every other row is untouched; no id changes; and the
    /// returned item carries the merged row's data.
    pub open spec fn patch_ok_post(
        pre: TodoStore,
        post: TodoStore,
        id: i64,
        upd: UpdateTodo,
        t: Todo,
    ) -> bool {
        &&& contains_id(pre.rows(), id)
        &&& post.rows().len() == pre.rows().len()
        &&& forall|i: int|
            0 <= i < pre.rows().len() ==> (#[trigger] post.rows()[i]).id == pre.rows()[i].id
        &&& forall|i: int|
            0 <= i < pre.rows().len() && (#[trigger] pre.rows()[i]).id != id ==> post.rows()[i]
                == pre.rows()[i]
        &&& forall|i: int|
            0 <= i < pre.rows().len() && (#[trigger] pre.rows()[i]).id == id ==> merged(
                pre.rows()[i],
                upd,
                post.rows()[i],
            ) && same_item(t, post.rows()[i])
        &&& post.next() == pre.next()
    }

    /// What a delete of `id` does: the one row carrying the id, if
    /// any, is removed and the rest keep their order; a store without
    /// the id is left exactly as it was; the counter never moves, so
    /// the id is not handed out again.
    pub open spec fn delete_post(pre: TodoStore, post: TodoStore, id: i64) -> bool {
        &&& !contains_id(post.rows(), id)
        &&& (contains_id(pre.rows(), id) ==> exists|k: int|
            0 <= k < pre.rows().len() && (#[trigger] pre.rows()[k]).id == id && post.rows()
                == pre.rows().remove(k))
        &&& (!contains_id(pre.rows(), id) ==> post.rows() == pre.rows())
        &&& forall|x: i64|
            x != id ==> (#[trigger] contains_id(post.rows(), x) <==> contains_id(pre.rows(), x))
        &&& post.next() == pre.next()
    }

    /// What a delete-all does: every row is removed, unconditionally;
    /// the counter never moves, so no purged id is handed out again.
    pub open spec fn purge_post(pre: TodoStore, post: TodoStore) -> bool {
        &&& post.rows().len() == 0
        &&& post.next() == pre.next()
    }

    /// An empty store whose first assigned id will be 1.
    pub fn new() -> (s: TodoStore)
        ensures
            s.wf(),
            s.rows().len() == 0,
            s.next() == 1,
    {
        TodoStore { todos: Vec::new(), next_id: 1 }
    }

    /// The index of the one row carrying the id, if any row does.
    fn find_index(&self, id: i64) -> (r: Option<usize>)
        requires
            self.wf(),
        ensures
            match r {
                Some(k) => k < self.rows().len() && self.rows()[k as int].id == id && forall|
                    i: int,
                |
                    0 <= i < self.rows().len() && (#[trigger] self.rows()[i]).id == id ==> i
                        == k,
                None => !contains_id(self.rows(), id),
            },
    {
        let n = self.todos.len();
        let mut k: usize = 0;
        while k < n
            invariant
                self.wf(),
                n == self.rows().len(),
                0 <= k <= n,
                forall|i: int| 0 <= i < k ==> (#[trigger] self.rows()[i]).id != id,
            decreases n - k,
        {
            let row = &self.todos[k];
            if row.id == id {
                proof {
                    assert forall|i: int|
                        0 <= i < self.rows().len() && (#[trigger] self.rows()[i]).id
                            == id implies i == k by {
                        if i < k {
                            assert(self.rows()[i].id < self.rows()[k as int].id);
                        } else if i > k {
                            assert(self.rows()[k as int].id < self.rows()[i].id);
                        }
                    }
                }
                return Some(k);
            }
            k = k + 1;
        }
        None
    }

    /// List every item, in ascending id order (the storage order).
    pub fn list(&self) -> (r: Vec<Todo>)
        requires
            self.wf(),
        ensures
            r@.len() == self.rows().len(),
            forall|i: int|
                0 <= i < r@.len() ==> same_item(#[trigger] r@[i], self.rows()[i]),
            forall|i: int, j: int|
                0 <= i < j < r@.len() ==> (#[trigger] r@[i]).id < (#[trigger] r@[j]).id,
    {
        let n = self.todos.len();
        let mut out: Vec<Todo> = Vec::new();
        let mut k: usize = 0;
        while k < n
            invariant
                self.wf(),
                n == self.rows().len(),
                0 <= k <= n,
                out@.len() == k,
                forall|i: int| 0 <= i < k ==> same_item(#[trigger] out@[i], self.rows()[i]),
            decreases n - k,
        {
            let row = &self.todos[k];
            out.push(row.clone());
            k = k + 1;
        }
        out
    }

    /// Fetch the one item with the given id, or not-found when no row
    /// carries it.
    pub fn show(&self, id: i64) -> (r: Result<Todo, Error>)
        requires
            self.wf(),
        ensures
            match r {
                Ok(t) => contains_id(self.rows(), id) && forall|i: int|
                    0 <= i < self.rows().len() && (#[trigger] self.rows()[i]).id == id
                        ==> same_item(t, self.rows()[i]),
                Err(e) => e == Error::NotFound && !contains_id(self.rows(), id),
            },
    {
        match self.find_index(id) {
            Some(k) => {
                let row = &self.todos[k];
                Ok(row.clone())
            },
            None => Err(Error::NotFound),
        }
    }

    /// Create an item: the store assigns the next id, the completed
    /// flag starts false, and an absent order defaults to zero. The
    /// new id differs from every stored one.
    pub fn create(&mut self, new: NewTodo) -> (r: Todo)
        requires
            old(self).wf(),
            old(self).next() < i64::MAX,
        ensures
            final(self).wf(),
            TodoStore::create_post(*old(self), *final(self), new, r),
            forall|i: int|
                0 <= i < old(self).rows().len() ==> (#[trigger] old(self).rows()[i]).id != r.id,
    {
        let id = self.next_id;
        let order = match new.order {
            Some(o) => o,
            None => 0,
        };
        let title_copy = new.title.clone();
        let row = Todo { id, title: new.title, completed: false, order };
        self.todos.push(row);
        self.next_id = id + 1;
        proof {
            assert forall|i: int, j: int|
                0 <= i < j < self.rows().len() implies (#[trigger] self.rows()[i]).id < (
            #[trigger] self.rows()[j]).id by {
                if j < self.rows().len() - 1 {
                    assert(old(self).rows()[i].id < old(self).rows()[j].id);
                } else {
                    assert(old(self).rows()[i].id < old(self).next());
                }
            }
        }
        Todo { id, title: title_copy, completed: false, order }
    }

    /// Patch the item with the given id: fetch it, overlay only the
    /// supplied fields, and write the merge back. Not-found when no
    /// row carries the id, and then the store is unchanged.
    pub fn patch(&mut self, id: i64, upd: UpdateTodo) -> (r: Result<Todo, Error>)
        requires
            old(self).wf(),
        ensures
            final(self).wf(),
            match r {
                Ok(t) => TodoStore::patch_ok_post(*old(self), *final(self), id, upd, t),
                Err(e) => e == Error::NotFound && !contains_id(old(self).rows(), id)
                    && *final(self) == *old(self),
            },
    {
        match self.find_index(id) {
            None => Err(Error::NotFound),
            Some(k) => {
                let row = &self.todos[k];
                let merged_row = apply_update(row, &upd);
                let out = merged_row.clone();
                self.todos.remove(k);
                self.todos.insert(k, merged_row);
                proof {
                    assert(self.rows() =~= old(self).rows().update(
                        k as int,
                        self.rows()[k as int],
                    ));
                    assert forall|i: int, j: int|
                        0 <= i < j < self.rows().len() implies (#[trigger] self.rows()[i]).id < (
                    #[trigger] self.rows()[j]).id by {
                        assert(old(self).rows()[i].id < old(self).rows()[j].id);
                    }
                }
                Ok(out)
            },
        }
    }

    /// Delete the item with the given id. Deleting an absent id is not
    /// an error and leaves the store exactly as it was: the operation
    /// is idempotent by design.
    pub fn delete_one(&mut self, id: i64)
        requires
            old(self).wf(),
        ensures
            final(self).wf(),
            TodoStore::delete_post(*old(self), *final(self), id),
    {
        match self.find_index(id) {
            None => {
            },
            Some(k) => {
                self.todos.remove(k);
                proof {
                    let pre = old(self).rows();
                    assert(self.rows() =~= pre.remove(k as int));
                    assert forall|i: int|
                        0 <= i < self.rows().len() implies (#[trigger] self.rows()[i]).id
                        != id by {
                        if i < k {
                            assert(self.rows()[i] == pre[i]);
                        } else {
                            assert(self.rows()[i] == pre[i + 1]);
                        }
                    }
                    assert forall|i: int, j: int|
                        0 <= i < j < self.rows().len() implies (#[trigger] self.rows()[i]).id < (
                    #[trigger] self.rows()[j]).id by {
                        if j < k {
                            assert(pre[i].id < pre[j].id);
                        } else if i < k {
                            assert(pre[i].id < pre[j + 1].id);
                        } else {
                            assert(pre[i + 1].id < pre[j + 1].id);
                        }
                    }
                    assert forall|x: i64|
                        x != id implies (#[trigger] contains_id(self.rows(), x) <==> contains_id(
                        pre,
                        x,
                    )) by {
                        if contains_id(self.rows(), x) {
                            let i = choose|i: int|
                                0 <= i < self.rows().len() && self.rows()[i].id == x;
                            if i < k {
                                assert(pre[i].id == x);
                            } else {
                                assert(pre[i + 1].id == x);
                            }
                        }
                        if contains_id(pre, x) {
                            let i = choose|i: int| 0 <= i < pre.len() && pre[i].id == x;
                            if i < k {
                                assert(self.rows()[i].id == x);
                            } else if i > k {
                                assert(self.rows()[i - 1].id == x);
                            }
                        }
                    }
                }
            },
        }
    }

    /// Delete every item, unconditionally. The id counter keeps its
    /// value, so purged ids are never assigned again.
    pub fn delete_all(&mut self)
        requires
            old(self).wf(),
        ensures
            final(self).wf(),
            TodoStore::purge_post(*old(self), *final(self)),
    {
        self.todos.clear();
    }
}

/// Ids are unique: two distinct rows of a well-formed store never
/// carry the same id.
pub proof fn lemma_ids_unique(s: TodoStore, i: int, j: int)
    requires
        s.wf(),
        0 <= i < s.rows().len(),
        0 <= j < s.rows().len(),
        i != j,
    ensures
        s.rows()[i].id != s.rows()[j].id,
{
    if i < j {
        assert(s.rows()[i].id < s.rows()[j].id);
    } else {
        assert(s.rows()[j].id < s.rows()[i].id);
    }
}

/// Round trip: after a create, the store contains a row with the
/// returned id, and every row carrying that id — there is exactly one
/// — holds the created item's title, completed flag and order. A
/// subsequent fetch by the returned id therefore yields the created
/// item unchanged.
pub proof fn lemma_create_then_show(pre: TodoStore, post: TodoStore, new: NewTodo, r: Todo)
    requires
        pre.wf(),
        TodoStore::create_post(pre, post, new, r),
    ensures
        contains_id(post.rows(), r.id),
        forall|i: int|
            0 <= i < post.rows().len() && (#[trigger] post.rows()[i]).id == r.id ==> same_item(
                post.rows()[i],
                r,
            ),
{
    let n = post.rows().len() - 1;
    assert(post.rows()[n] == post.rows().last());
    assert(contains_id(post.rows(), r.id));
    assert forall|i: int|
        0 <= i < post.rows().len() && (#[trigger] post.rows()[i]).id == r.id implies same_item(
        post.rows()[i],
        r,
    ) by {
        if i < n {
            assert(post.rows()[i] == pre.rows()[i]);
            assert(pre.rows()[i].id < pre.next());
        }
    }
}

/// Deleting the same id twice is the same as deleting it once: the
/// first delete leaves no row with the id, so the second changes
/// nothing.
pub proof fn lemma_delete_idempotent(
    pre: TodoStore,
    mid: TodoStore,
    post: TodoStore,
    id: i64,
)
    requires
        TodoStore::delete_post(pre, mid, id),
        TodoStore::delete_post(mid, post, id),
    ensures
        post.rows() == mid.rows(),
{
}

/// Purging the store and then listing it yields no items: a delete-all
/// followed by a listing returns the empty collection.
pub proof fn lemma_delete_all_then_list(pre: TodoStore, post: TodoStore)
    requires
        TodoStore::purge_post(pre, post),
    ensures
        post.rows().len() == 0,
{
}

} // verus!
