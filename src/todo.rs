use vstd::prelude::*;

verus! {

/// A point in time: whole seconds since the Unix epoch (UTC) and the
/// nanoseconds within that second.
#[derive(Clone, Copy, Debug, PartialEq, Eq, Structural)]
pub struct Timestamp {
    pub secs: i64,
    pub nanos: u32,
}

/// One to-do record.
#[derive(Debug)]
pub struct Todo {
    pub id: usize,
    pub description: String,
    pub completed: bool,
    pub created_at: Timestamp,
}

/// The mathematical value of a `Todo`.
pub struct TodoModel {
    pub id: nat,
    pub description: Seq<char>,
    pub completed: bool,
    pub created_at: Timestamp,
}

impl View for Todo {
    type V = TodoModel;

    open spec fn view(&self) -> TodoModel {
        TodoModel {
            id: self.id as nat,
            description: self.description@,
            completed: self.completed,
            created_at: self.created_at,
        }
    }
}

/// The value of a whole list of items, in order.
pub open spec fn todos_view(s: Seq<Todo>) -> Seq<TodoModel> {
    s.map_values(|t: Todo| t@)
}

/// Every item of the list has a non-empty description.
pub open spec fn well_formed(s: Seq<TodoModel>) -> bool {
    forall|i: int| 0 <= i < s.len() ==> #[trigger] s[i].description.len() > 0
}

impl Todo {
    /// An open item with the given identifier and text, created now.
    pub fn new(id: usize, description: String) -> (r: Todo)
        ensures
            r.id == id,
            r.description@ == description@,
            !r.completed,
    {
        Todo::with_created_at(id, description, crate::clock::now())
    }

    /// An open item with the given identifier, text and creation time.
    pub fn with_created_at(id: usize, description: String, created_at: Timestamp) -> (r: Todo)
        ensures
            r@ == (TodoModel { id: id as nat, description: description@, completed: false, created_at }),
    {
        Todo { id, description, completed: false, created_at }
    }
}

} // verus!
