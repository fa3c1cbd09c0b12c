//! A small to-do list: items, the operations that change the list, and the
//! interpretation of what the user types at the menu.

pub mod clock;
pub mod laws;
pub mod menu;
pub mod ops;
pub mod text;
pub mod todo;

pub use menu::{choice_from_word, parse_choice, MenuChoice};
pub use ops::{
    add_todo, add_todo_at, list_todos, remove_todo, remove_todo_by_id, ListEntry, RemoveOutcome,
};
pub use todo::{Timestamp, Todo, TodoModel};
