//! What the four commands share: the list's rules as mathematics, the
//! errors, and loading a list from the stored text.

use vstd::prelude::*;
use crate::formatter::{Formatter, ITask, TaskModel, decode_message, decoded, task_models};

verus! {

/// Why a command did not produce a list to store.
#[derive(Debug, Clone, PartialEq, Eq)]
pub enum TaskError {
    /// The file could not be created, read or written; the system's message.
    Io(String),
    /// The stored text is no task list; the parser's message.
    Format(String),
    /// The list could not be printed; the printer's message.
    Encode(String),
    /// No task has the given number.
    NotFound,
    /// The list already holds as many tasks as the machine can count.
    Full,
}

/// Every task's number is its position in the list, counted from 1.
pub open spec fn numbered(tasks: Seq<TaskModel>) -> bool {
    forall|i: int| 0 <= i < tasks.len() ==> (#[trigger] tasks[i]).id == i + 1
}

/// The list after a task with the given text was added at its end.
pub open spec fn added(tasks: Seq<TaskModel>, description: Seq<char>) -> Seq<TaskModel> {
    tasks.push(TaskModel { id: tasks.len() + 1, description, completed: false })
}

/// The task with its completion flipped.
pub open spec fn flipped(t: TaskModel) -> TaskModel {
    TaskModel { id: t.id, description: t.description, completed: !t.completed }
}

/// The list after the task at position `id` was toggled; none where the
/// list has no such position.
pub open spec fn toggled(tasks: Seq<TaskModel>, id: nat) -> Option<Seq<TaskModel>> {
    if 1 <= id <= tasks.len() {
        Some(tasks.update(id - 1, flipped(tasks[id - 1])))
    } else {
        None
    }
}

/// The index of the first task at or after `start` whose number is `id`.
pub open spec fn index_from(tasks: Seq<TaskModel>, id: nat, start: int) -> Option<int>
    decreases tasks.len() - start,
{
    if start < 0 || start >= tasks.len() {
        None
    } else if tasks[start].id == id {
        Some(start)
    } else {
        index_from(tasks, id, start + 1)
    }
}

/// The list with each task numbered by its position, counted from 1.
pub open spec fn renumbered(tasks: Seq<TaskModel>) -> Seq<TaskModel> {
    Seq::new(
        tasks.len(),
        |i: int|
            TaskModel {
                id: (i + 1) as nat,
                description: tasks[i].description,
                completed: tasks[i].completed,
            },
    )
}

/// The list after the first task whose number is `id` was taken out and the
/// rest renumbered; none where no task has that number.
pub open spec fn removed(tasks: Seq<TaskModel>, id: nat) -> Option<Seq<TaskModel>> {
    match index_from(tasks, id, 0) {
        Some(i) => Some(renumbered(tasks.remove(i))),
        None => None,
    }
}

/// The list that a stored text holds: the empty list for an empty text,
/// otherwise what the text decodes to.
pub open spec fn loaded(content: Seq<char>) -> Option<Seq<TaskModel>> {
    if content.len() == 0 {
        Some(Seq::empty())
    } else {
        decoded(content)
    }
}

/// Loads the list from the stored text. An empty text is the empty list and
/// is not decoded; any other text is decoded, and where that fails the error
/// is `Format` with the decoder's message.
pub fn load_tasks(content: &str) -> (r: Result<Vec<ITask>, TaskError>)
    ensures
        match r {
            Ok(list) => loaded(content@) == Some(task_models(list@)),
            Err(TaskError::Format(msg)) => loaded(content@) is None && msg@ == decode_message(
                content@,
            ),
            Err(_) => false,
        },
{
    if content.is_empty() {
        let list: Vec<ITask> = Vec::new();
        proof {
            assert(task_models(list@) =~= Seq::empty());
        }
        return Ok(list);
    }
    let formatter = Formatter::new();
    match formatter.str_to_object_or_list(content.to_owned()) {
        Ok(list) => Ok(list),
        Err(msg) => Err(TaskError::Format(msg)),
    }
}

/// An empty text, as a file that was just created holds, loads as the empty
/// list, and the first task added to it has the number 1.
pub proof fn lemma_fresh_file(description: Seq<char>)
    ensures
        loaded(Seq::empty()) == Some(Seq::<TaskModel>::empty()),
        added(Seq::empty(), description) == seq![
            TaskModel { id: 1, description, completed: false },
        ],
        numbered(added(Seq::empty(), description)),
{
    assert(added(Seq::empty(), description) =~= seq![
        TaskModel { id: 1, description, completed: false },
    ]);
}

/// Where `index_from` finds a task, it is the first from `start` on with
/// that number; where it finds none, no task from `start` on has it.
pub proof fn lemma_index_from(tasks: Seq<TaskModel>, id: nat, start: int)
    requires
        0 <= start,
    ensures
        match index_from(tasks, id, start) {
            Some(i) => start <= i < tasks.len() && tasks[i].id == id && forall|j: int|
                start <= j < i ==> (#[trigger] tasks[j]).id != id,
            None => forall|j: int| start <= j < tasks.len() ==> (#[trigger] tasks[j]).id != id,
        },
    decreases tasks.len() - start,
{
    if start < tasks.len() && tasks[start].id != id {
        lemma_index_from(tasks, id, start + 1);
    }
}

} // verus!
