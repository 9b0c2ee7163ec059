//! Adding a task.

use vstd::prelude::*;
use crate::commands::{TaskError, added, load_tasks, loaded, numbered};
use crate::formatter::{Formatter, ITask, TaskModel, encoded, decode_message, task_models};

verus! {

/// The command that adds a task to the list.
pub struct AddCommand;

/// Appends a task with the given text: its number is the new length of the
/// list and it is not completed. The tasks before it stay as they were.
pub fn add_task(list: &mut Vec<ITask>, description: String)
    requires
        old(list).len() < usize::MAX,
    ensures
        final(list)@ == old(list)@.push(
            ITask { id: (old(list)@.len() + 1) as usize, description, completed: false },
        ),
        task_models(final(list)@) == added(task_models(old(list)@), description@),
{
    let id: usize = list.len() + 1;
    list.push(ITask { id, description, completed: false });
    proof {
        assert(task_models(list@) =~= added(task_models(old(list)@), description@));
    }
}

impl AddCommand {
    /// The command; it holds no state.
    pub fn new() -> (r: Self) {
        AddCommand
    }

    /// Runs the command on the stored text and gives the text to store
    /// next: the encoding of the loaded list with the new task at its end.
    /// It fails with `Format` where the text holds no list, with `Full`
    /// where the list cannot take another task, and with `Encode` where the
    /// printer fails; then nothing is to be stored.
    pub fn code_to_exec(&self, content: &str, description: String) -> (r: Result<String, TaskError>)
        ensures
            match r {
                Ok(text) => match loaded(content@) {
                    Some(tasks) => tasks.len() < usize::MAX && encoded(
                        added(tasks, description@),
                    ) == Ok::<Seq<char>, Seq<char>>(text@),
                    None => false,
                },
                Err(TaskError::Format(msg)) => loaded(content@) is None && msg@ == decode_message(
                    content@,
                ),
                Err(TaskError::Full) => match loaded(content@) {
                    Some(tasks) => tasks.len() >= usize::MAX,
                    None => false,
                },
                Err(TaskError::Encode(msg)) => match loaded(content@) {
                    Some(tasks) => tasks.len() < usize::MAX && encoded(
                        added(tasks, description@),
                    ) == Err::<Seq<char>, Seq<char>>(msg@),
                    None => false,
                },
                Err(_) => false,
            },
    {
        let mut list = match load_tasks(content) {
            Ok(list) => list,
            Err(e) => {
                return Err(e);
            },
        };
        if list.len() >= usize::MAX {
            return Err(TaskError::Full);
        }
        add_task(&mut list, description);
        match Formatter::new().object_or_list_to_string(&list) {
            Ok(text) => Ok(text),
            Err(msg) => Err(TaskError::Encode(msg)),
        }
    }
}

/// Adding a task to a list of length `n` gives a list of length `n + 1`
/// whose last task has the number `n + 1`, the given text and is not
/// completed, and whose first `n` tasks are those of the list before. A list
/// that was numbered by position still is.
pub proof fn lemma_add_appends(tasks: Seq<TaskModel>, description: Seq<char>)
    ensures
        added(tasks, description).len() == tasks.len() + 1,
        added(tasks, description).last() == (TaskModel {
            id: tasks.len() + 1,
            description,
            completed: false,
        }),
        added(tasks, description).subrange(0, tasks.len() as int) == tasks,
        numbered(tasks) ==> numbered(added(tasks, description)),
{
    assert(added(tasks, description).subrange(0, tasks.len() as int) =~= tasks);
}

} // verus!
