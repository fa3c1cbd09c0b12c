use vstd::prelude::*;
use crate::clock::{format_minute, minute_text, now};
use crate::text::{parse_usize, trim, trimmed, usize_of_text};
use crate::todo::{todos_view, well_formed, Timestamp, Todo, TodoModel};

verus! {

/// The list after adding the (already trimmed) text `desc` at time `at`:
/// unchanged when the text is empty, otherwise one more open item at the end,
/// whose identifier is the new length of the list.
pub open spec fn added(s: Seq<TodoModel>, desc: Seq<char>, at: Timestamp) -> Seq<TodoModel> {
    if desc.len() == 0 {
        s
    } else {
        s.push(TodoModel { id: s.len() + 1, description: desc, completed: false, created_at: at })
    }
}

/// `i` is the position of the first item whose identifier is `id`.
pub open spec fn is_first_index(s: Seq<TodoModel>, id: nat, i: int) -> bool {
    &&& 0 <= i < s.len()
    &&& s[i].id == id
    &&& forall|j: int| 0 <= j < i ==> #[trigger] s[j].id != id
}

/// Some item of the list has the identifier `id`.
pub open spec fn has_id(s: Seq<TodoModel>, id: nat) -> bool {
    exists|i: int| 0 <= i < s.len() && #[trigger] s[i].id == id
}

/// The position of the first item whose identifier is `id`.
pub open spec fn first_index(s: Seq<TodoModel>, id: nat) -> int {
    choose|i: int| is_first_index(s, id, i)
}

/// The list after removing the first item with identifier `id`, if there is one.
pub open spec fn removed(s: Seq<TodoModel>, id: nat) -> Seq<TodoModel> {
    if has_id(s, id) {
        s.remove(first_index(s, id))
    } else {
        s
    }
}

/// Where some item has the identifier `id`, a first one exists, and it is
/// the one that `first_index` names.
pub proof fn lemma_first_index(s: Seq<TodoModel>, id: nat, i: int)
    requires
        0 <= i < s.len(),
        s[i].id == id,
    ensures
        has_id(s, id),
        is_first_index(s, id, first_index(s, id)),
        first_index(s, id) <= i,
    decreases i,
{
    if exists|j: int| 0 <= j < i && #[trigger] s[j].id == id {
        let j = choose|j: int| 0 <= j < i && #[trigger] s[j].id == id;
        lemma_first_index(s, id, j);
    } else {
        assert(is_first_index(s, id, i));
    }
}

/// Two first positions of one identifier are the same position.
pub proof fn lemma_first_index_unique(s: Seq<TodoModel>, id: nat, i: int, k: int)
    requires
        is_first_index(s, id, i),
        is_first_index(s, id, k),
    ensures
        i == k,
{
    if i < k {
        assert(s[i].id != id);
    } else if k < i {
        assert(s[k].id != id);
    }
}

proof fn lemma_view_push(s: Seq<Todo>, t: Todo)
    ensures
        todos_view(s.push(t)) == todos_view(s).push(t@),
{
    assert(todos_view(s.push(t)) =~= todos_view(s).push(t@));
}

proof fn lemma_view_remove(s: Seq<Todo>, i: int)
    requires
        0 <= i < s.len(),
    ensures
        todos_view(s.remove(i)) == todos_view(s).remove(i),
{
    assert(todos_view(s.remove(i)) =~= todos_view(s).remove(i));
}

/// Adds an item for the text `line`, trimmed, created at `created_at`.
/// Returns whether an item was added: not when the trimmed text is empty.
pub fn add_todo_at(todos: &mut Vec<Todo>, line: &str, created_at: Timestamp) -> (r: bool)
    requires
        old(todos).len() < usize::MAX,
    ensures
        r == (trimmed(line@).len() > 0),
        todos_view(final(todos)@) == added(todos_view(old(todos)@), trimmed(line@), created_at),
        well_formed(todos_view(old(todos)@)) ==> well_formed(todos_view(final(todos)@)),
{
    let description = trim(line);
    if description.is_empty() {
        return false;
    }
    let new_id = todos.len() + 1;
    let todo = Todo::with_created_at(new_id, description.to_owned(), created_at);
    proof {
        lemma_view_push(todos@, todo);
    }
    todos.push(todo);
    true
}

/// Adds an item for the text `line`, trimmed, created now. Returns whether
/// an item was added: not when the trimmed text is empty.
pub fn add_todo(todos: &mut Vec<Todo>, line: &str) -> (r: bool)
    requires
        old(todos).len() < usize::MAX,
    ensures
        r == (trimmed(line@).len() > 0),
        exists|at: Timestamp|
            todos_view(final(todos)@) == #[trigger] added(todos_view(old(todos)@), trimmed(line@), at),
{
    let at = now();
    add_todo_at(todos, line, at)
}

/// Removes the first item whose identifier is `id`. Returns whether there was one;
/// where there was none the list is unchanged.
pub fn remove_todo_by_id(todos: &mut Vec<Todo>, id: usize) -> (r: bool)
    ensures
        r == has_id(todos_view(old(todos)@), id as nat),
        todos_view(final(todos)@) == removed(todos_view(old(todos)@), id as nat),
        well_formed(todos_view(old(todos)@)) ==> well_formed(todos_view(final(todos)@)),
{
    let ghost s = todos_view(todos@);
    let mut i: usize = 0;
    while i < todos.len()
        invariant
            i <= todos.len(),
            s == todos_view(todos@),
            todos@ == old(todos)@,
            forall|j: int| 0 <= j < i ==> #[trigger] s[j].id != id as nat,
        decreases todos.len() - i,
    {
        if todos[i].id == id {
            proof {
                assert(s[i as int].id == id as nat);
                assert(is_first_index(s, id as nat, i as int));
                lemma_first_index(s, id as nat, i as int);
                lemma_first_index_unique(s, id as nat, i as int, first_index(s, id as nat));
                lemma_view_remove(todos@, i as int);
                let r = s.remove(i as int);
                if well_formed(s) {
                    assert forall|k: int| 0 <= k < r.len() implies #[trigger] r[k].description.len()
                        > 0 by {
                        if k < i {
                            assert(r[k] == s[k]);
                        } else {
                            assert(r[k] == s[k + 1]);
                        }
                    }
                }
            }
            todos.remove(i);
            return true;
        }
        proof {
            assert(s[i as int] == todos@[i as int]@);
        }
        i = i + 1;
    }
    proof {
        assert forall|j: int| 0 <= j < s.len() implies #[trigger] s[j].id != id as nat by {}
    }
    false
}

/// What became of a request to remove an item.
#[derive(Clone, Copy, Debug, PartialEq, Eq, Structural)]
pub enum RemoveOutcome {
    /// The item was removed.
    Removed,
    /// The text named an identifier that no item has.
    NotFound,
    /// The text was not a number.
    InvalidNumber,
}

/// Removes the item whose identifier the text `line` gives. Leading and
/// trailing white space is ignored; the rest must be a `usize` in decimal.
pub fn remove_todo(todos: &mut Vec<Todo>, line: &str) -> (r: RemoveOutcome)
    ensures
        ({
            let old_list = todos_view(old(todos)@);
            let new_list = todos_view(final(todos)@);
            match usize_of_text(trimmed(line@)) {
                None => r == RemoveOutcome::InvalidNumber && new_list == old_list,
                Some(id) => {
                    &&& new_list == removed(old_list, id)
                    &&& r == if has_id(old_list, id) {
                        RemoveOutcome::Removed
                    } else {
                        RemoveOutcome::NotFound
                    }
                },
            }
        }),
        well_formed(todos_view(old(todos)@)) ==> well_formed(todos_view(final(todos)@)),
{
    let text = trim(line);
    match parse_usize(text) {
        None => RemoveOutcome::InvalidNumber,
        Some(id) => {
            if remove_todo_by_id(todos, id) {
                RemoveOutcome::Removed
            } else {
                RemoveOutcome::NotFound
            }
        },
    }
}

/// The mark shown for an item: a check mark when done, a cross when open.
pub open spec fn status_glyph(completed: bool) -> char {
    if completed {
        '\u{2713}'
    } else {
        '\u{2717}'
    }
}

/// One line of the listing of the list.
#[derive(Debug)]
pub struct ListEntry {
    pub id: usize,
    pub completed: bool,
    pub glyph: char,
    /// The creation time to the minute; `None` where it cannot be written as a date.
    pub created: Option<String>,
    pub description: String,
}

/// One line per item, in the order of the list: its identifier, its state and mark,
/// its creation time and its description. Empty for an empty list.
pub fn list_todos(todos: &[Todo]) -> (r: Vec<ListEntry>)
    ensures
        r.len() == todos.len(),
        forall|i: int|
            0 <= i < todos.len() ==> {
                let t = #[trigger] todos@[i];
                let e = r@[i];
                &&& e.id == t.id
                &&& e.completed == t.completed
                &&& e.glyph == status_glyph(t.completed)
                &&& e.description@ == t.description@
                &&& e.created is Some ==> e.created->0@ == minute_text(
                    t.created_at.secs as int,
                    t.created_at.nanos as int,
                )
                &&& 0 <= t.created_at.secs < 253402300800 && t.created_at.nanos < 1_000_000_000
                    ==> e.created is Some
            },
{
    let mut r: Vec<ListEntry> = Vec::new();
    let mut i: usize = 0;
    while i < todos.len()
        invariant
            i <= todos.len(),
            r.len() == i,
            forall|k: int|
                0 <= k < i ==> {
                    let t = #[trigger] todos@[k];
                    let e = r@[k];
                    &&& e.id == t.id
                    &&& e.completed == t.completed
                    &&& e.glyph == status_glyph(t.completed)
                    &&& e.description@ == t.description@
                    &&& e.created is Some ==> e.created->0@ == minute_text(
                        t.created_at.secs as int,
                        t.created_at.nanos as int,
                    )
                    &&& 0 <= t.created_at.secs < 253402300800 && t.created_at.nanos
                        < 1_000_000_000 ==> e.created is Some
                },
        decreases todos.len() - i,
    {
        let t = &todos[i];
        let glyph = if t.completed {
            '\u{2713}'
        } else {
            '\u{2717}'
        };
        let entry = ListEntry {
            id: t.id,
            completed: t.completed,
            glyph,
            created: format_minute(t.created_at),
            description: t.description.clone(),
        };
        r.push(entry);
        i = i + 1;
    }
    r
}

} // verus!
