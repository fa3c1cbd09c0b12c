use vstd::prelude::*;
use crate::ops::{added, first_index, has_id, lemma_first_index, removed};
use crate::text::{is_white_space, lemma_blank_trims_to_empty, trimmed};
use crate::todo::{Timestamp, TodoModel};

verus! {

/// The list after adding, in order, the texts `lines`, the `k`-th at time `times[k]`.
pub open spec fn added_all(s: Seq<TodoModel>, lines: Seq<Seq<char>>, times: Seq<Timestamp>) -> Seq<
    TodoModel,
>
    decreases lines.len(),
{
    if lines.len() == 0 {
        s
    } else {
        added(
            added_all(s, lines.drop_last(), times),
            trimmed(lines.last()),
            times[lines.len() - 1],
        )
    }
}

/// Adding texts that are not blank, one after another, adds one item for each,
/// in order, after the items already there: the `k`-th new item holds the
/// `k`-th text, trimmed, and the identifier one more than its position.
pub proof fn law_adds_keep_order(s: Seq<TodoModel>, lines: Seq<Seq<char>>, times: Seq<Timestamp>)
    requires
        lines.len() == times.len(),
        forall|k: int| 0 <= k < lines.len() ==> #[trigger] trimmed(lines[k]).len() > 0,
    ensures
        added_all(s, lines, times).len() == s.len() + lines.len(),
        forall|k: int| 0 <= k < s.len() ==> #[trigger] added_all(s, lines, times)[k] == s[k],
        forall|k: int|
            0 <= k < lines.len() ==> #[trigger] added_all(s, lines, times)[s.len() + k].description
                == trimmed(lines[k]),
        forall|k: int|
            0 <= k < lines.len() ==> #[trigger] added_all(s, lines, times)[s.len() + k].id == s.len()
                + k + 1,
    decreases lines.len(),
{
    if lines.len() > 0 {
        let n = lines.len() - 1;
        let init = lines.drop_last();
        assert forall|k: int| 0 <= k < init.len() implies #[trigger] trimmed(init[k]).len() > 0 by {
            assert(init[k] == lines[k]);
        }
        law_adds_keep_order(s, init, times.drop_last());
        assert(added_all(s, init, times.drop_last()) == added_all(s, init, times)) by {
            lemma_added_all_prefix_times(s, init, times);
        }
        assert(trimmed(lines[n]).len() > 0);
        assert forall|k: int| 0 <= k < lines.len() implies #[trigger] added_all(
            s,
            lines,
            times,
        )[s.len() + k].description == trimmed(lines[k]) by {
            if k < n {
                assert(init[k] == lines[k]);
            }
        }
        assert forall|k: int| 0 <= k < lines.len() implies #[trigger] added_all(
            s,
            lines,
            times,
        )[s.len() + k].id == s.len() + k + 1 by {
            if k < n {
                assert(added_all(s, init, times)[s.len() + k].id == s.len() + k + 1);
            }
        }
    }
}

/// Only the first `lines.len()` times count.
proof fn lemma_added_all_prefix_times(s: Seq<TodoModel>, lines: Seq<Seq<char>>, times: Seq<Timestamp>)
    requires
        lines.len() < times.len(),
    ensures
        added_all(s, lines, times.drop_last()) == added_all(s, lines, times),
    decreases lines.len(),
{
    if lines.len() > 0 {
        lemma_added_all_prefix_times(s, lines.drop_last(), times);
        assert(times.drop_last()[lines.len() - 1] == times[lines.len() - 1]);
    }
}

/// Adding a text that is empty or white space alone leaves the list as it was.
pub proof fn law_blank_add_changes_nothing(s: Seq<TodoModel>, line: Seq<char>, at: Timestamp)
    requires
        forall|i: int| 0 <= i < line.len() ==> is_white_space(#[trigger] line[i]),
    ensures
        added(s, trimmed(line), at) == s,
{
    lemma_blank_trims_to_empty(line);
}

/// Removing an identifier that no item has leaves the list as it was.
pub proof fn law_remove_absent_changes_nothing(s: Seq<TodoModel>, id: nat)
    requires
        !has_id(s, id),
    ensures
        removed(s, id) == s,
{
}

/// Removing an identifier that some item has takes exactly one item away, the
/// first with that identifier, and keeps the order of the rest. An item with
/// that identifier remains only where a later item shared it; where no other
/// item shared it, none remains.
pub proof fn law_remove_present(s: Seq<TodoModel>, id: nat)
    requires
        has_id(s, id),
    ensures
        removed(s, id).len() == s.len() - 1,
        forall|k: int|
            0 <= k < removed(s, id).len() && #[trigger] removed(s, id)[k].id == id ==> first_index(
                s,
                id,
            ) <= k && removed(s, id)[k] == s[k + 1],
        (forall|j: int| 0 <= j < s.len() && #[trigger] s[j].id == id ==> j == first_index(s, id))
            ==> forall|k: int| 0 <= k < removed(s, id).len() ==> #[trigger] removed(s, id)[k].id != id,
{
    let i = choose|i: int| 0 <= i < s.len() && #[trigger] s[i].id == id;
    lemma_first_index(s, id, i);
    let f = first_index(s, id);
    let r = removed(s, id);
    assert forall|k: int| 0 <= k < r.len() && #[trigger] r[k].id == id implies f <= k && r[k] == s[k + 1] by {
        if k < f {
            assert(r[k] == s[k]);
        }
    }
    if forall|j: int| 0 <= j < s.len() && #[trigger] s[j].id == id ==> j == f {
        assert forall|k: int| 0 <= k < r.len() implies #[trigger] r[k].id != id by {
            if k < f {
                assert(r[k] == s[k]);
            } else {
                assert(r[k] == s[k + 1]);
            }
        }
    }
}

} // verus!
