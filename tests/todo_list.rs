use rust_todo::{
    add_todo, add_todo_at, choice_from_word, list_todos, parse_choice, remove_todo,
    remove_todo_by_id, MenuChoice, RemoveOutcome, Timestamp, Todo,
};

fn epoch() -> Timestamp {
    Timestamp { secs: 0, nanos: 0 }
}

fn ids(todos: &[Todo]) -> Vec<usize> {
    todos.iter().map(|t| t.id).collect()
}

fn descriptions(todos: &[Todo]) -> Vec<String> {
    todos.iter().map(|t| t.description.clone()).collect()
}

#[test]
fn test_add_todo() {
    let mut todos = vec![];
    add_todo(&mut todos, "Test todo");
    assert_eq!(todos.len(), 1);
}

#[test]
fn test_remove_todo() {
    let mut todos = vec![Todo::new(1, "Test todo".into())];
    remove_todo(&mut todos, "1");
    assert!(todos.is_empty());
}

#[test]
fn adds_keep_count_and_order() {
    let mut todos = vec![];
    for (k, text) in ["first", "second", "third", "fourth"].iter().enumerate() {
        assert!(add_todo_at(&mut todos, text, Timestamp { secs: k as i64, nanos: 0 }));
    }
    assert_eq!(todos.len(), 4);
    assert_eq!(descriptions(&todos), vec!["first", "second", "third", "fourth"]);
    assert_eq!(ids(&todos), vec![1, 2, 3, 4]);
    assert_eq!(todos[2].created_at, Timestamp { secs: 2, nanos: 0 });
    assert!(todos.iter().all(|t| !t.completed));
}

#[test]
fn add_trims_the_description() {
    let mut todos = vec![];
    assert!(add_todo_at(&mut todos, "  Buy bread \t\n", epoch()));
    assert_eq!(todos[0].description, "Buy bread");
}

#[test]
fn blank_add_changes_nothing() {
    let mut todos = vec![];
    assert!(add_todo_at(&mut todos, "keep", epoch()));
    assert!(!add_todo_at(&mut todos, "", epoch()));
    assert!(!add_todo_at(&mut todos, "   \t \n", epoch()));
    assert!(!add_todo(&mut todos, "\u{3000}\u{A0} "));
    assert_eq!(todos.len(), 1);
    assert_eq!(todos[0].description, "keep");
}

#[test]
fn remove_absent_id_is_not_found() {
    let mut todos = vec![];
    add_todo_at(&mut todos, "A", epoch());
    add_todo_at(&mut todos, "B", epoch());
    assert_eq!(remove_todo(&mut todos, "7"), RemoveOutcome::NotFound);
    assert!(!remove_todo_by_id(&mut todos, 0));
    assert_eq!(ids(&todos), vec![1, 2]);
    assert_eq!(descriptions(&todos), vec!["A", "B"]);
}

#[test]
fn remove_present_id_takes_one() {
    let mut todos = vec![];
    for text in ["A", "B", "C"] {
        add_todo_at(&mut todos, text, epoch());
    }
    assert_eq!(remove_todo(&mut todos, "2"), RemoveOutcome::Removed);
    assert_eq!(todos.len(), 2);
    assert!(todos.iter().all(|t| t.id != 2));
    assert_eq!(descriptions(&todos), vec!["A", "C"]);
}

#[test]
fn remove_with_duplicate_ids_takes_the_first() {
    let mut todos = vec![];
    for text in ["A", "B"] {
        add_todo_at(&mut todos, text, epoch());
    }
    assert!(remove_todo_by_id(&mut todos, 1));
    assert!(add_todo_at(&mut todos, "C", epoch()));
    assert_eq!(ids(&todos), vec![2, 2]);
    assert!(remove_todo_by_id(&mut todos, 2));
    assert_eq!(ids(&todos), vec![2]);
    assert_eq!(descriptions(&todos), vec!["C"]);
}

#[test]
fn remove_rejects_what_is_not_a_number() {
    let mut todos = vec![];
    add_todo_at(&mut todos, "A", epoch());
    assert_eq!(remove_todo(&mut todos, "abc"), RemoveOutcome::InvalidNumber);
    assert_eq!(remove_todo(&mut todos, ""), RemoveOutcome::InvalidNumber);
    assert_eq!(remove_todo(&mut todos, "-1"), RemoveOutcome::InvalidNumber);
    assert_eq!(remove_todo(&mut todos, "1x"), RemoveOutcome::InvalidNumber);
    assert_eq!(
        remove_todo(&mut todos, "99999999999999999999999"),
        RemoveOutcome::InvalidNumber
    );
    assert_eq!(todos.len(), 1);
}

#[test]
fn remove_accepts_plus_sign_and_white_space() {
    let mut todos = vec![];
    add_todo_at(&mut todos, "A", epoch());
    add_todo_at(&mut todos, "B", epoch());
    assert_eq!(remove_todo(&mut todos, " +2 \n"), RemoveOutcome::Removed);
    assert_eq!(remove_todo(&mut todos, "\t1"), RemoveOutcome::Removed);
    assert!(todos.is_empty());
}

#[test]
fn listing_after_one_add() {
    let mut todos = vec![];
    assert!(add_todo(&mut todos, "Buy milk"));
    let lines = list_todos(&todos);
    assert_eq!(lines.len(), 1);
    assert_eq!(lines[0].id, 1);
    assert_eq!(lines[0].description, "Buy milk");
    assert!(!lines[0].completed);
    assert_eq!(lines[0].glyph, '\u{2717}');
    assert!(lines[0].created.is_some());
}

#[test]
fn listing_after_removal_then_add_shows_shared_id() {
    let mut todos = vec![];
    add_todo_at(&mut todos, "A", epoch());
    add_todo_at(&mut todos, "B", epoch());
    assert_eq!(remove_todo(&mut todos, "1"), RemoveOutcome::Removed);
    let lines = list_todos(&todos);
    assert_eq!(lines.len(), 1);
    assert_eq!(lines[0].description, "B");
    add_todo_at(&mut todos, "D", epoch());
    let lines = list_todos(&todos);
    assert_eq!(lines.len(), 2);
    assert_eq!(lines[0].id, lines[1].id);
    assert_eq!(lines[1].id, 2);
}

#[test]
fn listing_empty_list() {
    let todos: Vec<Todo> = vec![];
    assert!(list_todos(&todos).is_empty());
}

#[test]
fn listing_formats_time_and_marks() {
    let todos = vec![
        Todo::with_created_at(1, "old".into(), epoch()),
        Todo {
            id: 5,
            description: "done".into(),
            completed: true,
            created_at: Timestamp { secs: 1_700_000_000, nanos: 999_999_999 },
        },
        Todo {
            id: 6,
            description: "far".into(),
            completed: false,
            created_at: Timestamp { secs: i64::MAX, nanos: 0 },
        },
    ];
    let lines = list_todos(&todos);
    assert_eq!(lines[0].created.as_deref(), Some("1970-01-01 00:00"));
    assert_eq!(lines[1].created.as_deref(), Some("2023-11-14 22:13"));
    assert_eq!(lines[1].glyph, '\u{2713}');
    assert!(lines[1].completed);
    assert_eq!(lines[1].id, 5);
    assert_eq!(lines[2].created, None);
}

#[test]
fn new_todo_is_open() {
    let t = Todo::new(3, "x".into());
    assert_eq!(t.id, 3);
    assert_eq!(t.description, "x");
    assert!(!t.completed);
}

#[test]
fn menu_words_and_numbers() {
    assert_eq!(choice_from_word("1"), MenuChoice::Add);
    assert_eq!(choice_from_word("add"), MenuChoice::Add);
    assert_eq!(choice_from_word("2"), MenuChoice::List);
    assert_eq!(choice_from_word("list"), MenuChoice::List);
    assert_eq!(choice_from_word("3"), MenuChoice::Remove);
    assert_eq!(choice_from_word("remove"), MenuChoice::Remove);
    assert_eq!(choice_from_word("4"), MenuChoice::Quit);
    assert_eq!(choice_from_word("quit"), MenuChoice::Quit);
    assert_eq!(choice_from_word("exit"), MenuChoice::Quit);
    assert_eq!(choice_from_word("ADD"), MenuChoice::Invalid);
    assert_eq!(choice_from_word(" add"), MenuChoice::Invalid);
    assert_eq!(choice_from_word("5"), MenuChoice::Invalid);
}

#[test]
fn menu_line_ignores_case_and_white_space() {
    assert_eq!(parse_choice("  ADD \n"), MenuChoice::Add);
    assert_eq!(parse_choice("List"), MenuChoice::List);
    assert_eq!(parse_choice("\tReMoVe"), MenuChoice::Remove);
    assert_eq!(parse_choice("EXIT"), MenuChoice::Quit);
    assert_eq!(parse_choice(" 4 "), MenuChoice::Quit);
    assert_eq!(parse_choice(""), MenuChoice::Invalid);
    assert_eq!(parse_choice("delete"), MenuChoice::Invalid);
}
