//! Listing the tasks.

use vstd::prelude::*;
use crate::commands::{TaskError, load_tasks, loaded};
use crate::formatter::{ITask, TaskModel, decode_message, task_models};

verus! {

/// The command that shows the list.
pub struct ListCommand;

/// The word that a row shows for a task's completion.
pub open spec fn status_label(completed: bool) -> Seq<char> {
    if completed {
        "completed"@
    } else {
        "in completed"@
    }
}

/// The row that a task is shown as: its number, its text and its status.
pub open spec fn row_of(t: TaskModel) -> (nat, Seq<char>, Seq<char>) {
    (t.id, t.description, status_label(t.completed))
}

/// A row as mathematics.
pub open spec fn row_model(row: (usize, String, String)) -> (nat, Seq<char>, Seq<char>) {
    (row.0 as nat, row.1@, row.2@)
}

/// The rows of a list, one for each task and in the list's order.
pub fn rows(list: &Vec<ITask>) -> (r: Vec<(usize, String, String)>)
    ensures
        r.len() == list.len(),
        forall|i: int| 0 <= i < list.len() ==> row_model(#[trigger] r@[i]) == row_of(list@[i]@),
{
    let mut out: Vec<(usize, String, String)> = Vec::new();
    let mut i: usize = 0;
    while i < list.len()
        invariant
            i <= list.len(),
            out.len() == i,
            forall|j: int| 0 <= j < i ==> row_model(#[trigger] out@[j]) == row_of(list@[j]@),
        decreases list.len() - i,
    {
        let label = if list[i].completed {
            "completed".to_owned()
        } else {
            "in completed".to_owned()
        };
        out.push((list[i].id, list[i].description.clone(), label));
        i += 1;
    }
    out
}

impl ListCommand {
    /// The command; it holds no state.
    pub fn new() -> (r: Self) {
        ListCommand
    }

    /// Runs the command on the stored text and gives the rows to show, one
    /// for each task of the loaded list; none for an empty text. It fails
    /// with `Format` where the text holds no list. Nothing is to be stored.
    pub fn code_to_exec(&self, content: &str) -> (r: Result<Vec<(usize, String, String)>, TaskError>)
        ensures
            match r {
                Ok(shown) => match loaded(content@) {
                    Some(tasks) => shown.len() == tasks.len() && forall|i: int|
                        0 <= i < tasks.len() ==> row_model(#[trigger] shown@[i]) == row_of(
                            tasks[i],
                        ),
                    None => false,
                },
                Err(TaskError::Format(msg)) => loaded(content@) is None && msg@ == decode_message(
                    content@,
                ),
                Err(_) => false,
            },
    {
        match load_tasks(content) {
            Ok(list) => {
                let shown = rows(&list);
                assert forall|i: int| 0 <= i < list.len() implies row_model(#[trigger] shown@[i])
                    == row_of(task_models(list@)[i]) by {
                    assert(row_model(shown@[i]) == row_of(list@[i]@));
                }
                Ok(shown)
            },
            Err(e) => Err(e),
        }
    }
}

} // verus!
