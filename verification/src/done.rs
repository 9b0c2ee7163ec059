//! Toggling a task's completion.

use vstd::prelude::*;
use crate::commands::{TaskError, flipped, load_tasks, loaded, numbered, toggled};
use crate::formatter::{Formatter, ITask, TaskModel, encoded, decode_message, task_models};

verus! {

/// The command that marks a task as done, or as not done again.
pub struct DoneCommand;

/// Flips the completion of the task at position `id`, counted from 1, and
/// leaves its number, its text and every other task as they were. Where the
/// list has no such position it says so and changes nothing.
pub fn toggle_task(list: &mut Vec<ITask>, id: usize) -> (found: bool)
    ensures
        found == (toggled(task_models(old(list)@), id as nat) is Some),
        found ==> Some(task_models(final(list)@)) == toggled(task_models(old(list)@), id as nat),
        found ==> final(list)@.len() == old(list)@.len(),
        !found ==> final(list)@ == old(list)@,
{
    if id < 1 || id > list.len() {
        return false;
    }
    let i: usize = id - 1;
    let task = ITask {
        id: list[i].id,
        description: list[i].description.clone(),
        completed: !list[i].completed,
    };
    list.set(i, task);
    proof {
        assert(task_models(list@) =~= toggled(task_models(old(list)@), id as nat).unwrap());
    }
    true
}

impl DoneCommand {
    /// The command; it holds no state.
    pub fn new() -> (r: Self) {
        DoneCommand
    }

    /// Runs the command on the stored text and gives the text to store
    /// next: the encoding of the loaded list with the task at position `id`
    /// toggled. It fails with `Format` where the text holds no list, with
    /// `NotFound` where the list has no such position, and with `Encode`
    /// where the printer fails; then nothing is to be stored.
    pub fn code_to_exec(&self, content: &str, id: usize) -> (r: Result<String, TaskError>)
        ensures
            match r {
                Ok(text) => match loaded(content@) {
                    Some(tasks) => match toggled(tasks, id as nat) {
                        Some(next) => encoded(next) == Ok::<Seq<char>, Seq<char>>(text@),
                        None => false,
                    },
                    None => false,
                },
                Err(TaskError::Format(msg)) => loaded(content@) is None && msg@ == decode_message(
                    content@,
                ),
                Err(TaskError::NotFound) => match loaded(content@) {
                    Some(tasks) => toggled(tasks, id as nat) is None,
                    None => false,
                },
                Err(TaskError::Encode(msg)) => match loaded(content@) {
                    Some(tasks) => match toggled(tasks, id as nat) {
                        Some(next) => encoded(next) == Err::<Seq<char>, Seq<char>>(msg@),
                        None => false,
                    },
                    None => false,
                },
                Err(_) => false,
            },
    {
        let mut list = match load_tasks(content) {
            Ok(list) => list,
            Err(e) => {
                return Err(e);
            },
        };
        if !toggle_task(&mut list, id) {
            return Err(TaskError::NotFound);
        }
        match Formatter::new().object_or_list_to_string(&list) {
            Ok(text) => Ok(text),
            Err(msg) => Err(TaskError::Encode(msg)),
        }
    }
}

/// Toggling changes one task's completion and nothing else: the length, the
/// numbers, the texts and the other tasks' completion stay, so a list that
/// was numbered by position still is.
pub proof fn lemma_toggle_keeps_structure(tasks: Seq<TaskModel>, id: nat)
    requires
        1 <= id <= tasks.len(),
    ensures
        toggled(tasks, id) is Some,
        toggled(tasks, id).unwrap().len() == tasks.len(),
        forall|i: int|
            0 <= i < tasks.len() ==> {
                let after = #[trigger] toggled(tasks, id).unwrap()[i];
                &&& after.id == tasks[i].id
                &&& after.description == tasks[i].description
                &&& after.completed == if i == id - 1 {
                    !tasks[i].completed
                } else {
                    tasks[i].completed
                }
            },
        numbered(tasks) ==> numbered(toggled(tasks, id).unwrap()),
{
}

/// Toggling the same task twice gives the list back as it was.
pub proof fn lemma_toggle_twice(tasks: Seq<TaskModel>, id: nat)
    requires
        1 <= id <= tasks.len(),
    ensures
        toggled(tasks, id) is Some,
        toggled(toggled(tasks, id).unwrap(), id) == Some(tasks),
{
    let once = toggled(tasks, id).unwrap();
    assert(flipped(flipped(tasks[id - 1])) == tasks[id - 1]);
    assert(toggled(once, id).unwrap() =~= tasks);
}

/// Toggling finds no task exactly where the number is outside `1..=len`.
pub proof fn lemma_toggle_not_found(tasks: Seq<TaskModel>, id: nat)
    ensures
        toggled(tasks, id) is None <==> !(1 <= id <= tasks.len()),
{
}

} // verus!
