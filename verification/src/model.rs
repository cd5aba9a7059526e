use vstd::prelude::*;

verus! {

/// Mathematical image of one persisted todo record.
#[verifier::ext_equal]
pub ghost struct TodoView {
    pub id: int,
    pub todo: Seq<char>,
    pub completed: bool,
}

/// Full record shape, as returned to clients: the datastore-assigned id
/// together with both mutable fields.
pub struct TodoModel {
    pub id: i32,
    pub todo: String,
    pub completed: bool,
}

impl View for TodoModel {
    type V = TodoView;

    open spec fn view(&self) -> TodoView {
        TodoView { id: self.id as int, todo: self.todo@, completed: self.completed }
    }
}

impl Clone for TodoModel {
    fn clone(&self) -> (res: Self)
        ensures
            res@ == self@,
    {
        TodoModel { id: self.id, todo: self.todo.clone(), completed: self.completed }
    }
}

/// Payload of the create route: both mutable fields, never an id.
pub struct CreateTodoModel {
    pub todo: String,
    pub completed: bool,
}

/// Payload of the update route: the full replacement for both mutable
/// fields; the id comes from the request path.
pub struct UpdateTodoModel {
    pub todo: String,
    pub completed: bool,
}

} // verus!
