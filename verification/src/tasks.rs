//! Tasks: the completion checkboxes of the task list, the list's update
//! after a save, and the task pages' route parameter.

use vstd::prelude::*;

use crate::text::{int_text, lemma_parse_int_text, parse_i64, parse_i64_text, push_int};

verus! {

/// A to-do task as the pages show it.
#[derive(Debug, Clone, PartialEq, Eq)]
pub struct Task {
    pub id: Option<i64>,
    pub title: Option<String>,
    pub description: Option<String>,
    pub priority: Option<String>,
    /// When the task was completed, if it was.
    pub completed_at: Option<String>,
}

impl Default for Task {
    fn default() -> (t: Task)
        ensures
            t.id is None && t.title is None && t.description is None && t.priority is None
                && t.completed_at is None,
    {
        Task { id: None, title: None, description: None, priority: None, completed_at: None }
    }
}

/// The form name of the completion checkbox of the task `id`.
pub open spec fn checkbox_name(id: int) -> Seq<char> {
    "completed_"@ + int_text(id)
}

/// `k` is the position of the first `_` in `s`.
pub open spec fn first_underscore_at(s: Seq<char>, k: int) -> bool {
    &&& 0 <= k < s.len()
    &&& s[k] == '_'
    &&& forall|j: int| 0 <= j < k ==> s[j] != '_'
}

/// The task id that a checkbox named `s` stands for: the text after the
/// first `_`, read as a 64-bit integer; `None` where there is no `_` or
/// the rest is no such integer.
pub open spec fn checkbox_task_id(s: Seq<char>) -> Option<int> {
    if exists|k: int| first_underscore_at(s, k) {
        let k = choose|k: int| first_underscore_at(s, k);
        parse_i64_text(s.subrange(k + 1, s.len() as int))
    } else {
        None
    }
}

/// The form name of the completion checkbox of the task `id`.
pub fn completed_checkbox_name(id: i64) -> (s: String)
    ensures
        s@ == checkbox_name(id as int),
{
    let mut s = String::from_str("completed_");
    push_int(&mut s, id);
    s
}

/// The task id that the completion checkbox named `name` stands for.
pub fn completed_task_id(name: &str) -> (r: Option<i64>)
    ensures
        match r {
            Some(id) => checkbox_task_id(name@) == Some(id as int),
            None => checkbox_task_id(name@) is None,
        },
{
    let len = name.unicode_len();
    let mut k: usize = 0;
    while k < len
        invariant
            k <= len,
            len == name@.len(),
            forall|j: int| 0 <= j < k ==> name@[j] != '_',
        decreases len - k,
    {
        if name.get_char(k) == '_' {
            let rest = name.substring_char(k + 1, len);
            proof {
                assert(first_underscore_at(name@, k as int));
                let c = choose|c: int| first_underscore_at(name@, c);
                assert(c == k) by {
                    if c < k {
                        assert(name@[c] != '_');
                    } else if c > k {
                        assert(name@[k as int] != '_');
                    }
                }
            }
            return parse_i64(rest);
        }
        k = k + 1;
    }
    assert(!exists|c: int| first_underscore_at(name@, c));
    None
}

/// The completion checkbox of a task stands for that task.
pub proof fn lemma_checkbox_name_round_trip(id: i64)
    ensures
        checkbox_task_id(checkbox_name(id as int)) == Some(id as int),
{
    reveal_strlit("completed_");
    let s = checkbox_name(id as int);
    let prefix = "completed_"@;
    assert(prefix.len() == 10);
    assert(first_underscore_at(s, 9));
    let c = choose|c: int| first_underscore_at(s, c);
    assert(c == 9) by {
        if c < 9 {
            assert(s[c] == prefix[c]);
        } else if c > 9 {
            assert(s[9] != '_');
        }
    }
    assert(s.subrange(10, s.len() as int) =~= int_text(id as int));
    lemma_parse_int_text(id);
}

/// The position of the first task of `tasks` with id `id`, if any.
pub open spec fn first_task_with_id(tasks: Seq<Task>, id: i64, k: int) -> bool {
    &&& 0 <= k < tasks.len()
    &&& tasks[k].id == Some(id)
    &&& forall|j: int| 0 <= j < k ==> tasks[j].id != Some(id)
}

/// Records in the list `tasks` that the task `id` was saved with the
/// completion time `completed_at`: the first task with that id takes it,
/// every other task stays as it was. Says whether such a task was found.
pub fn apply_saved_completion(tasks: &mut Vec<Task>, id: i64, completed_at: Option<String>) -> (found:
    bool)
    ensures
        final(tasks)@.len() == old(tasks)@.len(),
        found == exists|k: int| first_task_with_id(old(tasks)@, id, k),
        !found ==> final(tasks)@ == old(tasks)@,
        forall|k: int|
            first_task_with_id(old(tasks)@, id, k) ==> {
                &&& final(tasks)@[k] == Task { completed_at: completed_at, ..old(tasks)@[k] }
                &&& forall|j: int|
                    0 <= j < old(tasks)@.len() && j != k ==> #[trigger] final(tasks)@[j] == old(
                        tasks,
                    )@[j]
            },
{
    let len = tasks.len();
    let mut k: usize = 0;
    while k < len
        invariant
            k <= len,
            len == tasks@.len(),
            tasks@ == old(tasks)@,
            forall|j: int| 0 <= j < k ==> tasks@[j].id != Some(id),
        decreases len - k,
    {
        if tasks[k].id == Some(id) {
            assert(first_task_with_id(old(tasks)@, id, k as int));
            let ghost before = tasks@;
            let t = &mut tasks[k];
            t.completed_at = completed_at;
            proof {
                assert forall|c: int| first_task_with_id(before, id, c) implies c == k by {
                    if c < k {
                        assert(before[c].id != Some(id));
                    } else if c > k {
                        assert(before[k as int].id != Some(id));
                    }
                }
            }
            return true;
        }
        k = k + 1;
    }
    assert(!exists|c: int| first_task_with_id(old(tasks)@, id, c));
    false
}

/// The task id of a task page's route parameter: the parameter read as a
/// 64-bit integer; 0 where it is missing or is no such integer.
pub open spec fn route_task_id(param: Option<Seq<char>>) -> int {
    match param {
        Some(s) => match parse_i64_text(s) {
            Some(v) => v,
            None => 0,
        },
        None => 0,
    }
}

/// A route parameter that is the decimal text of an id gives that id; one
/// that reads as a 64-bit integer gives that integer; a missing one, or one
/// that is no such integer, gives 0.
pub proof fn lemma_route_task_id_reads_decimal(v: i64, s: Seq<char>)
    ensures
        route_task_id(Some(int_text(v as int))) == v as int,
        parse_i64_text(s) matches Some(w) ==> route_task_id(Some(s)) == w,
        parse_i64_text(s) is None ==> route_task_id(Some(s)) == 0,
        route_task_id(None) == 0,
{
    lemma_parse_int_text(v);
}

/// The task id of a task page's route parameter `id`.
pub fn task_id_param(id: Option<String>) -> (r: i64)
    ensures
        r as int == route_task_id(id.deep_view()),
{
    match id {
        Some(s) => match parse_i64(s.as_str()) {
            Some(v) => v,
            None => 0,
        },
        None => {
            proof {
                assert(parse_i64_text(Seq::<char>::empty()) is None);
            }
            0
        },
    }
}

} // verus!
