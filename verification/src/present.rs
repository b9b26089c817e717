//! The wire shape of an item: the stored fields together with a
//! self-referencing URL, built fresh on every read response and never
//! stored.

use vstd::prelude::*;

use crate::routing::todo_url_spec;
use crate::routing::RoutingService;
use crate::todo::same_item;
use crate::todo::Todo;

verus! {

/// An item as a response carries it: the item's own fields plus the
/// absolute URL of its resource.
#[derive(Debug)]
pub struct TodoPresenter {
    pub todo: Todo,
    pub url: String,
}

/// Enrich one item with its self link.
pub fn present(todo: &Todo, routing: &RoutingService) -> (r: TodoPresenter)
    ensures
        same_item(r.todo, *todo),
        r.url@ == todo_url_spec(routing.scheme@, routing.host@, routing.port as int, todo.id as int),
{
    let url = routing.todo_url(todo.id);
    TodoPresenter { todo: todo.clone(), url }
}

/// Enrich a listing with self links, item by item, keeping the order.
pub fn present_all(todos: &Vec<Todo>, routing: &RoutingService) -> (r: Vec<TodoPresenter>)
    ensures
        r@.len() == todos@.len(),
        forall|i: int|
            0 <= i < todos@.len() ==> same_item((#[trigger] r@[i]).todo, todos@[i]) && r@[i].url@
                == todo_url_spec(
                routing.scheme@,
                routing.host@,
                routing.port as int,
                todos@[i].id as int,
            ),
{
    let n = todos.len();
    let mut out: Vec<TodoPresenter> = Vec::new();
    let mut k: usize = 0;
    while k < n
        invariant
            n == todos@.len(),
            0 <= k <= n,
            out@.len() == k,
            forall|i: int|
                0 <= i < k ==> same_item((#[trigger] out@[i]).todo, todos@[i]) && out@[i].url@
                    == todo_url_spec(
                    routing.scheme@,
                    routing.host@,
                    routing.port as int,
                    todos@[i].id as int,
                ),
        decreases n - k,
    {
        let row = &todos[k];
        out.push(present(row, routing));
        k = k + 1;
    }
    out
}

} // verus!
