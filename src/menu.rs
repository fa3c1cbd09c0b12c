use vstd::prelude::*;
use crate::text::{lower_of, to_lowercase, trim, trimmed};

verus! {

/// What the user asked for at the menu.
#[derive(Clone, Copy, Debug, PartialEq, Eq, Structural)]
pub enum MenuChoice {
    Add,
    List,
    Remove,
    Quit,
    /// Anything not recognised.
    Invalid,
}

/// The choice that a trimmed, lowercase word names.
pub open spec fn choice_of(w: Seq<char>) -> MenuChoice {
    if w == "1"@ || w == "add"@ {
        MenuChoice::Add
    } else if w == "2"@ || w == "list"@ {
        MenuChoice::List
    } else if w == "3"@ || w == "remove"@ {
        MenuChoice::Remove
    } else if w == "4"@ || w == "quit"@ || w == "exit"@ {
        MenuChoice::Quit
    } else {
        MenuChoice::Invalid
    }
}

fn is_word(w: &String, lit: &str) -> (r: bool)
    ensures
        r == (w@ == lit@),
{
    *w == lit.to_owned()
}

/// The choice that the word `word` names, taken as it stands.
pub fn choice_from_word(word: &str) -> (r: MenuChoice)
    ensures
        r == choice_of(word@),
{
    let w = word.to_owned();
    if is_word(&w, "1") || is_word(&w, "add") {
        MenuChoice::Add
    } else if is_word(&w, "2") || is_word(&w, "list") {
        MenuChoice::List
    } else if is_word(&w, "3") || is_word(&w, "remove") {
        MenuChoice::Remove
    } else if is_word(&w, "4") || is_word(&w, "quit") || is_word(&w, "exit") {
        MenuChoice::Quit
    } else {
        MenuChoice::Invalid
    }
}

/// The choice that a line typed at the menu names: white space at either end
/// is ignored, and case too.
pub fn parse_choice(line: &str) -> (r: MenuChoice)
    ensures
        r == choice_of(lower_of(trimmed(line@))),
{
    let t = trim(line);
    let lower = to_lowercase(t);
    choice_from_word(lower.as_str())
}

} // verus!
