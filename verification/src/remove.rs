//! Removing a task.

use vstd::prelude::*;
use crate::commands::{TaskError, index_from, lemma_index_from, load_tasks, loaded, numbered, removed, renumbered};
use crate::formatter::{Formatter, ITask, TaskModel, encoded, decode_message, task_models};

verus! {

/// The command that takes a task out of the list.
pub struct RemoveCommand;

/// Finds the first task whose number is `id`.
pub fn position(list: &Vec<ITask>, id: usize) -> (r: Option<usize>)
    ensures
        match r {
            Some(i) => index_from(task_models(list@), id as nat, 0) == Some(i as int) && i
                < list.len(),
            None => index_from(task_models(list@), id as nat, 0) is None,
        },
{
    let ghost tasks = task_models(list@);
    let mut i: usize = 0;
    while i < list.len()
        invariant
            i <= list.len(),
            tasks == task_models(list@),
            index_from(tasks, id as nat, 0) == index_from(tasks, id as nat, i as int),
        decreases list.len() - i,
    {
        if list[i].id == id {
            return Some(i);
        }
        i += 1;
    }
    None
}

/// Takes out the first task whose number is `id`, keeps the others in their
/// order and numbers them anew by position. Where no task has that number it
/// says so and changes nothing.
pub fn remove_task(list: &mut Vec<ITask>, id: usize) -> (found: bool)
    ensures
        found == (removed(task_models(old(list)@), id as nat) is Some),
        found ==> Some(task_models(final(list)@)) == removed(task_models(old(list)@), id as nat),
        found ==> final(list)@.len() == old(list)@.len() - 1,
        !found ==> final(list)@ == old(list)@,
{
    let i = match position(list, id) {
        Some(i) => i,
        None => {
            return false;
        },
    };
    list.remove(i);
    let ghost cut = list@;
    assert(task_models(cut) =~= task_models(old(list)@).remove(i as int));
    let mut j: usize = 0;
    while j < list.len()
        invariant
            j <= list.len(),
            list.len() == cut.len(),
            forall|k: int|
                0 <= k < j ==> (#[trigger] list@[k])@ == renumbered(task_models(cut))[k],
            forall|k: int| j <= k < list.len() ==> (#[trigger] list@[k]) == cut[k],
        decreases list.len() - j,
    {
        let task = ITask {
            id: j + 1,
            description: list[j].description.clone(),
            completed: list[j].completed,
        };
        list.set(j, task);
        j += 1;
    }
    proof {
        assert(task_models(list@) =~= renumbered(task_models(cut)));
    }
    true
}

impl RemoveCommand {
    /// The command; it holds no state.
    pub fn new() -> (r: Self) {
        RemoveCommand
    }

    /// Runs the command on the stored text. Where a task has the number
    /// `id`, it gives the text to store next: the encoding of the loaded list
    /// without that task, renumbered. Where none has, it gives no text and
    /// nothing is to be stored. It fails with `Format` where the text holds
    /// no list and with `Encode` where the printer fails.
    pub fn code_to_exec(&self, content: &str, id: usize) -> (r: Result<Option<String>, TaskError>)
        ensures
            match r {
                Ok(Some(text)) => match loaded(content@) {
                    Some(tasks) => match removed(tasks, id as nat) {
                        Some(next) => encoded(next) == Ok::<Seq<char>, Seq<char>>(text@),
                        None => false,
                    },
                    None => false,
                },
                Ok(None) => match loaded(content@) {
                    Some(tasks) => removed(tasks, id as nat) is None,
                    None => false,
                },
                Err(TaskError::Format(msg)) => loaded(content@) is None && msg@ == decode_message(
                    content@,
                ),
                Err(TaskError::Encode(msg)) => match loaded(content@) {
                    Some(tasks) => match removed(tasks, id as nat) {
                        Some(next) => encoded(next) == Err::<Seq<char>, Seq<char>>(msg@),
                        None => false,
                    },
                    None => false,
                },
                Err(_) => false,
            },
    {
        let mut list = match load_tasks(content) {
            Ok(list) => list,
            Err(e) => {
                return Err(e);
            },
        };
        if !remove_task(&mut list, id) {
            return Ok(None);
        }
        match Formatter::new().object_or_list_to_string(&list) {
            Ok(text) => Ok(Some(text)),
            Err(msg) => Err(TaskError::Encode(msg)),
        }
    }
}

/// Removing from a list that is numbered by position: where `id` is in
/// `1..=len`, the task at that position leaves, one task fewer remains, the
/// others keep their text, completion and order, and they are numbered
/// `1..=len - 1`.
pub proof fn lemma_remove_renumbers(tasks: Seq<TaskModel>, id: nat)
    requires
        numbered(tasks),
        1 <= id <= tasks.len(),
    ensures
        removed(tasks, id) is Some,
        removed(tasks, id).unwrap().len() == tasks.len() - 1,
        numbered(removed(tasks, id).unwrap()),
        forall|k: int|
            0 <= k < tasks.len() - 1 ==> {
                let after = #[trigger] removed(tasks, id).unwrap()[k];
                let before = if k < id - 1 {
                    tasks[k]
                } else {
                    tasks[k + 1]
                };
                after.description == before.description && after.completed == before.completed
            },
{
    lemma_index_from(tasks, id, 0);
    assert(tasks[id - 1].id == id);
    assert(index_from(tasks, id, 0) == Some(id - 1));
}

/// Whatever the numbers in the list were, what a removal leaves is numbered
/// by position.
pub proof fn lemma_removed_is_numbered(tasks: Seq<TaskModel>, id: nat)
    requires
        removed(tasks, id) is Some,
    ensures
        numbered(removed(tasks, id).unwrap()),
{
}

/// In a list that is numbered by position, removing finds no task exactly
/// where the number is outside `1..=len`.
pub proof fn lemma_remove_not_found(tasks: Seq<TaskModel>, id: nat)
    requires
        numbered(tasks),
    ensures
        removed(tasks, id) is None <==> !(1 <= id <= tasks.len()),
{
    lemma_index_from(tasks, id, 0);
    if 1 <= id <= tasks.len() {
        assert(tasks[id - 1].id == id);
    }
}

} // verus!
