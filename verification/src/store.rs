use vstd::prelude::*;

use crate::error::{not_found_error, APIError};
use crate::model::{CreateTodoModel, TodoModel, TodoView, UpdateTodoModel};

verus! {

/// Mathematical image of the datastore: the persisted rows in table order,
/// and the next id the datastore will assign on insert.
#[verifier::ext_equal]
pub ghost struct StoreView {
    pub rows: Seq<TodoView>,
    pub next_id: int,
}

/// Whether some row carries the given id.
pub open spec fn contains_id(rows: Seq<TodoView>, id: int) -> bool {
    exists|i: int| 0 <= i < rows.len() && #[trigger] rows[i].id == id
}

/// The position of the row carrying the given id (unique under `store_wf`).
pub open spec fn idx_of(rows: Seq<TodoView>, id: int) -> int {
    choose|i: int| 0 <= i < rows.len() && #[trigger] rows[i].id == id
}

/// Datastore invariant: ids are assigned from 1 upward, every persisted id
/// is below the next one to be assigned, and no two rows share an id.
pub open spec fn store_wf(s: StoreView) -> bool {
    &&& 1 <= s.next_id <= i32::MAX as int
    &&& forall|i: int| 0 <= i < s.rows.len() ==> 1 <= #[trigger] s.rows[i].id < s.next_id
    &&& forall|i: int, j: int|
        0 <= i < j < s.rows.len() ==> #[trigger] s.rows[i].id != #[trigger] s.rows[j].id
}

/// What the list route returns: every row, in datastore order.
pub open spec fn list_spec(s: StoreView) -> Seq<TodoView> {
    s.rows
}

/// Effect of a create: one new row holding the payload under the freshly
/// assigned id, appended; the id counter advances.
pub open spec fn create_spec(s: StoreView, todo: Seq<char>, completed: bool) -> StoreView {
    StoreView {
        rows: s.rows.push(TodoView { id: s.next_id, todo, completed }),
        next_id: s.next_id + 1,
    }
}

/// Effect of an update: a full replacement of both mutable fields of the
/// row carrying the id, in place; absent that id, no change.
pub open spec fn update_spec(s: StoreView, id: int, todo: Seq<char>, completed: bool) -> StoreView {
    if contains_id(s.rows, id) {
        StoreView {
            rows: s.rows.update(idx_of(s.rows, id), TodoView { id, todo, completed }),
            next_id: s.next_id,
        }
    } else {
        s
    }
}

/// Effect of a delete: the row carrying the id is removed, the rest keep
/// their order; absent that id, no change.
pub open spec fn delete_spec(s: StoreView, id: int) -> StoreView {
    if contains_id(s.rows, id) {
        StoreView { rows: s.rows.remove(idx_of(s.rows, id)), next_id: s.next_id }
    } else {
        s
    }
}

/// Under uniqueness of ids, a row carrying the id pins `idx_of` to its
/// position.
pub proof fn lemma_idx_of_at(rows: Seq<TodoView>, id: int, i: int)
    requires
        0 <= i < rows.len(),
        rows[i].id == id,
        forall|p: int, q: int| 0 <= p < q < rows.len() ==> #[trigger] rows[p].id != #[trigger] rows[q].id,
    ensures
        contains_id(rows, id),
        idx_of(rows, id) == i,
{
    assert(contains_id(rows, id));
    let k = idx_of(rows, id);
    assert(0 <= k < rows.len() && rows[k].id == id);
    if k < i {
        assert(rows[k].id != rows[i].id);
    } else if i < k {
        assert(rows[i].id != rows[k].id);
    }
}

/// Creating a todo and then listing yields every previous row unchanged plus
/// one new record holding exactly the payload's fields, under a freshly
/// assigned id that no previous row carried; the invariant is kept.
pub proof fn lemma_create_then_list(s: StoreView, todo: Seq<char>, completed: bool)
    requires
        store_wf(s),
        s.next_id < i32::MAX as int,
    ensures
        ({
            let rows2 = list_spec(create_spec(s, todo, completed));
            &&& rows2.len() == s.rows.len() + 1
            &&& rows2.last() == (TodoView { id: s.next_id, todo, completed })
            &&& !contains_id(s.rows, s.next_id)
            &&& forall|j: int| 0 <= j < s.rows.len() ==> rows2[j] == s.rows[j]
            &&& store_wf(create_spec(s, todo, completed))
        }),
{
    if contains_id(s.rows, s.next_id) {
        let i = choose|i: int| 0 <= i < s.rows.len() && #[trigger] s.rows[i].id == s.next_id;
        assert(s.rows[i].id < s.next_id);
    }
}

/// Updating an id that no row carries leaves the datastore unchanged.
pub proof fn lemma_update_missing_id(s: StoreView, id: int, todo: Seq<char>, completed: bool)
    requires
        !contains_id(s.rows, id),
    ensures
        update_spec(s, id, todo, completed) == s,
{
}

/// Deleting an id that no row carries leaves the datastore unchanged.
pub proof fn lemma_delete_missing_id(s: StoreView, id: int)
    requires
        !contains_id(s.rows, id),
    ensures
        delete_spec(s, id) == s,
{
}

/// Update is a full replace: afterwards the one row carrying the id holds
/// exactly the new field values, whatever it held before, and every row
/// with another id is untouched; length, order and the invariant are kept.
pub proof fn lemma_update_full_replace(s: StoreView, id: int, todo: Seq<char>, completed: bool)
    requires
        store_wf(s),
        contains_id(s.rows, id),
    ensures
        ({
            let s2 = update_spec(s, id, todo, completed);
            &&& s2.rows.len() == s.rows.len()
            &&& contains_id(s2.rows, id)
            &&& forall|j: int|
                0 <= j < s2.rows.len() && #[trigger] s2.rows[j].id == id ==> s2.rows[j] == (TodoView {
                    id,
                    todo,
                    completed,
                })
            &&& forall|j: int|
                0 <= j < s2.rows.len() && #[trigger] s2.rows[j].id != id ==> s2.rows[j] == s.rows[j]
            &&& store_wf(s2)
        }),
{
    let i = idx_of(s.rows, id);
    assert(0 <= i < s.rows.len() && s.rows[i].id == id);
    let s2 = update_spec(s, id, todo, completed);
    assert(s2.rows[i].id == id);
    assert forall|j: int| 0 <= j < s2.rows.len() && #[trigger] s2.rows[j].id == id implies s2.rows[j]
        == (TodoView { id, todo, completed }) by {
        if j != i {
            assert(s2.rows[j] == s.rows[j]);
            if j < i {
                assert(s.rows[j].id != s.rows[i].id);
            } else {
                assert(s.rows[i].id != s.rows[j].id);
            }
        }
    }
}

/// Delete removes exactly one row: the one carrying the id is gone, every
/// other row survives, and deleting the same id again changes nothing and
/// is the not-found case; the invariant is kept.
pub proof fn lemma_delete_removes_exactly_one(s: StoreView, id: int)
    requires
        store_wf(s),
        contains_id(s.rows, id),
    ensures
        ({
            let s2 = delete_spec(s, id);
            &&& s2.rows.len() == s.rows.len() - 1
            &&& !contains_id(s2.rows, id)
            &&& forall|j: int|
                0 <= j < s.rows.len() && #[trigger] s.rows[j].id != id ==> contains_id(
                    s2.rows,
                    s.rows[j].id,
                )
            &&& store_wf(s2)
            &&& delete_spec(s2, id) == s2
        }),
{
    let i = idx_of(s.rows, id);
    assert(0 <= i < s.rows.len() && s.rows[i].id == id);
    let s2 = delete_spec(s, id);
    assert forall|j: int| 0 <= j < s2.rows.len() implies #[trigger] s2.rows[j].id != id by {
        if j < i {
            assert(s2.rows[j] == s.rows[j]);
            assert(s.rows[j].id != s.rows[i].id);
        } else {
            assert(s2.rows[j] == s.rows[j + 1]);
            assert(s.rows[i].id != s.rows[j + 1].id);
        }
    }
    assert forall|j: int| 0 <= j < s.rows.len() && #[trigger] s.rows[j].id != id implies contains_id(
        s2.rows,
        s.rows[j].id,
    ) by {
        if j < i {
            assert(s2.rows[j] == s.rows[j]);
        } else {
            assert(j > i);
            assert(s2.rows[j - 1] == s.rows[j]);
        }
    }
}

/// The in-memory datastore: the todo table together with the id counter.
pub struct TodoStore {
    todos: Vec<TodoModel>,
    next_id: i32,
}

impl View for TodoStore {
    type V = StoreView;

    closed spec fn view(&self) -> StoreView {
        StoreView {
            rows: self.todos@.map_values(|m: TodoModel| m@),
            next_id: self.next_id as int,
        }
    }
}

impl TodoStore {
    /// The datastore invariant, over the mathematical image.
    pub open spec fn wf(self) -> bool {
        store_wf(self@)
    }

    /// An empty datastore; the first assigned id will be 1.
    pub fn new() -> (r: TodoStore)
        ensures
            r.wf(),
            r@.rows == Seq::<TodoView>::empty(),
            r@.next_id == 1,
    {
        let r = TodoStore { todos: Vec::new(), next_id: 1 };
        proof {
            assert(r@.rows =~= Seq::<TodoView>::empty());
        }
        r
    }

    /// The position of the row carrying the given id, if any.
    fn find_index(&self, id: i32) -> (r: Option<usize>)
        ensures
            match r {
                Some(i) => i < self@.rows.len() && self@.rows[i as int].id == id as int,
                None => !contains_id(self@.rows, id as int),
            },
    {
        let n = self.todos.len();
        let mut i: usize = 0;
        while i < n
            invariant
                n == self.todos.len(),
                i <= n,
                forall|j: int| 0 <= j < i ==> #[trigger] self@.rows[j].id != id as int,
            decreases n - i,
        {
            if self.todos[i].id == id {
                return Some(i);
            }
            i = i + 1;
        }
        None
    }

    /// Fetches every row and maps each to the full record shape, in
    /// datastore order.
    pub fn list_todos(&self) -> (r: Vec<TodoModel>)
        ensures
            r@.map_values(|m: TodoModel| m@) == list_spec(self@),
    {
        let mut out: Vec<TodoModel> = Vec::new();
        let n = self.todos.len();
        let mut i: usize = 0;
        while i < n
            invariant
                n == self.todos.len(),
                i <= n,
                out@.len() == i,
                forall|j: int| 0 <= j < i ==> #[trigger] out@[j]@ == self@.rows[j],
            decreases n - i,
        {
            let item = &self.todos[i];
            out.push(TodoModel { id: item.id, todo: item.todo.clone(), completed: item.completed });
            proof {
                assert(out@[i as int]@ == self@.rows[i as int]);
            }
            i = i + 1;
        }
        proof {
            assert(out@.map_values(|m: TodoModel| m@) =~= list_spec(self@));
        }
        out
    }

    /// Inserts one new row built from the payload; the datastore assigns
    /// the id, which is returned.
    pub fn create_todo(&mut self, data: CreateTodoModel) -> (id: i32)
        requires
            old(self).wf(),
            old(self)@.next_id < i32::MAX as int,
        ensures
            final(self).wf(),
            final(self)@ == create_spec(old(self)@, data.todo@, data.completed),
            id as int == old(self)@.next_id,
    {
        let id = self.next_id;
        self.todos.push(TodoModel { id, todo: data.todo, completed: data.completed });
        self.next_id = id + 1;
        proof {
            assert(self@ =~= create_spec(old(self)@, data.todo@, data.completed));
        }
        id
    }

    /// Looks the row up by the path id; absent, fails not-found; present,
    /// replaces both mutable fields in full, keeping the id.
    pub fn update_todo(&mut self, id: i32, data: UpdateTodoModel) -> (r: Result<(), APIError>)
        requires
            old(self).wf(),
        ensures
            final(self).wf(),
            final(self)@ == update_spec(old(self)@, id as int, data.todo@, data.completed),
            r is Ok <==> contains_id(old(self)@.rows, id as int),
            r matches Err(e) ==> e@ == not_found_error(),
    {
        match self.find_index(id) {
            Some(i) => {
                self.todos[i] = TodoModel { id, todo: data.todo, completed: data.completed };
                proof {
                    lemma_idx_of_at(old(self)@.rows, id as int, i as int);
                    assert(self@ =~= update_spec(
                        old(self)@,
                        id as int,
                        data.todo@,
                        data.completed,
                    ));
                }
                Ok(())
            },
            None => Err(APIError::not_found()),
        }
    }

    /// Looks the row up by the path id; absent, fails not-found; present,
    /// deletes exactly that row.
    pub fn delete_todo(&mut self, id: i32) -> (r: Result<(), APIError>)
        requires
            old(self).wf(),
        ensures
            final(self).wf(),
            final(self)@ == delete_spec(old(self)@, id as int),
            r is Ok <==> contains_id(old(self)@.rows, id as int),
            r matches Err(e) ==> e@ == not_found_error(),
    {
        match self.find_index(id) {
            Some(i) => {
                self.todos.remove(i);
                proof {
                    lemma_idx_of_at(old(self)@.rows, id as int, i as int);
                    assert(self@ =~= delete_spec(old(self)@, id as int));
                }
                Ok(())
            },
            None => Err(APIError::not_found()),
        }
    }
}

} // verus!
