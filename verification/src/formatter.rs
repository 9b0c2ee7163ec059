//! The codec between a task list and its JSON text.

use vstd::prelude::*;
use crate::value::{JsonModel, JsonValue, json_parse, json_text, parse_json, print_json, printed_model};

verus! {

/// What a task is: its number, its text, and whether it is done.
pub struct TaskModel {
    pub id: nat,
    pub description: Seq<char>,
    pub completed: bool,
}

/// One task of the list.
#[derive(Debug, Clone, PartialEq, Eq)]
pub struct ITask {
    /// The task's position in the list, counted from 1.
    pub id: usize,
    /// The text of the task.
    pub description: String,
    /// Whether the task is done.
    pub completed: bool,
}

impl View for ITask {
    type V = TaskModel;

    open spec fn view(&self) -> TaskModel {
        TaskModel { id: self.id as nat, description: self.description@, completed: self.completed }
    }
}

/// The tasks of a list, each as what it is.
pub open spec fn task_models(list: Seq<ITask>) -> Seq<TaskModel> {
    Seq::new(list.len(), |i: int| list[i]@)
}

/// The elements of an array; of anything else, none.
pub open spec fn elements_of(m: JsonModel) -> Seq<JsonModel> {
    match m {
        JsonModel::Array(items) => items,
        _ => Seq::empty(),
    }
}

/// The members of an object; of anything else, none.
pub open spec fn members_of(m: JsonModel) -> Seq<(Seq<char>, JsonModel)> {
    match m {
        JsonModel::Object(members) => members,
        _ => Seq::empty(),
    }
}

/// The value of the first member at or after `start` whose key is `key`.
pub open spec fn member_from(
    members: Seq<(Seq<char>, JsonModel)>,
    key: Seq<char>,
    start: int,
) -> Option<JsonModel>
    decreases members.len() - start,
{
    if start < 0 || start >= members.len() {
        None
    } else if members[start].0 == key {
        Some(members[start].1)
    } else {
        member_from(members, key, start + 1)
    }
}

/// The value that an object gives a key; none where the document is no
/// object or has no such member.
pub open spec fn field_of(m: JsonModel, key: Seq<char>) -> Option<JsonModel> {
    member_from(members_of(m), key, 0)
}

/// The task that a JSON value stands for: an object whose `id` is an integer
/// that fits a `usize`, whose `description` is a string and whose `completed`
/// is a boolean. Other members are ignored.
pub open spec fn task_of_json(m: JsonModel) -> Option<TaskModel> {
    match (field_of(m, "id"@), field_of(m, "description"@), field_of(m, "completed"@)) {
        (Some(JsonModel::Number(n)), Some(JsonModel::Text(d)), Some(JsonModel::Bool(c))) => {
            if n <= usize::MAX {
                Some(TaskModel { id: n as nat, description: d, completed: c })
            } else {
                None
            }
        },
        _ => None,
    }
}

/// The task list that a JSON value stands for: an array, each element of
/// which stands for a task.
pub open spec fn tasks_of_json(m: JsonModel) -> Option<Seq<TaskModel>> {
    match m {
        JsonModel::Array(items) => {
            if forall|i: int| 0 <= i < items.len() ==> (#[trigger] task_of_json(items[i])) is Some {
                Some(Seq::new(items.len(), |i: int| task_of_json(items[i]).unwrap()))
            } else {
                None
            }
        },
        _ => None,
    }
}

/// The JSON object that stands for a task, with its members in the order
/// `id`, `description`, `completed`.
pub open spec fn task_to_json(t: TaskModel) -> JsonModel {
    JsonModel::Object(
        seq![
            ("id"@, JsonModel::Number(t.id as u64)),
            ("description"@, JsonModel::Text(t.description)),
            ("completed"@, JsonModel::Bool(t.completed)),
        ],
    )
}

/// The JSON array that stands for a task list, in the list's order.
pub open spec fn tasks_to_json(tasks: Seq<TaskModel>) -> JsonModel {
    JsonModel::Array(Seq::new(tasks.len(), |i: int| task_to_json(tasks[i])))
}

/// The task list that a text decodes to; none where the text is no JSON or
/// no array of tasks.
pub open spec fn decoded(text: Seq<char>) -> Option<Seq<TaskModel>> {
    match json_parse(text) {
        Ok(m) => tasks_of_json(m),
        Err(_) => None,
    }
}

/// The message for a text that is JSON but no array of tasks.
pub open spec fn shape_message() -> Seq<char> {
    "expected an array of tasks, each with an integer `id`, a string `description` and a boolean `completed`"@
}

/// The message that decoding a text fails with.
pub open spec fn decode_message(text: Seq<char>) -> Seq<char> {
    match json_parse(text) {
        Ok(_) => shape_message(),
        Err(msg) => msg,
    }
}

/// The outcome of encoding a list through the JSON printer.
pub open spec fn encoded(tasks: Seq<TaskModel>) -> Result<Seq<char>, Seq<char>> {
    json_text(tasks_to_json(tasks))
}

/// Finds the value that an object gives a key.
pub fn field<'a>(value: &'a JsonValue, key: &String) -> (r: Option<&'a JsonValue>)
    ensures
        match r {
            Some(found) => field_of(value.model(), key@) == Some(found.model()),
            None => field_of(value.model(), key@) is None,
        },
{
    match value {
        JsonValue::Object(members) => {
            let ghost mm = members_of(value.model());
            let mut i: usize = 0;
            while i < members.len()
                invariant
                    i <= members.len(),
                    mm == members_of(value.model()),
                    *value == JsonValue::Object(*members),
                    field_of(value.model(), key@) == member_from(mm, key@, i as int),
                decreases members.len() - i,
            {
                if members[i].0 == *key {
                    return Some(&members[i].1);
                }
                i += 1;
            }
            None
        },
        _ => None,
    }
}

/// Reads one task from a JSON value.
pub fn task_from_value(value: &JsonValue) -> (r: Option<ITask>)
    ensures
        match r {
            Some(task) => task_of_json(value.model()) == Some(task@),
            None => task_of_json(value.model()) is None,
        },
{
    let id = field(value, &"id".to_owned());
    let description = field(value, &"description".to_owned());
    let completed = field(value, &"completed".to_owned());
    match (id, description, completed) {
        (Some(JsonValue::Number(n)), Some(JsonValue::Text(d)), Some(JsonValue::Bool(c))) => {
            if *n <= usize::MAX as u64 {
                Some(ITask { id: *n as usize, description: d.clone(), completed: *c })
            } else {
                None
            }
        },
        _ => None,
    }
}

/// Reads a task list from a JSON value: it is a list exactly where the value
/// is an array of tasks, and then holds those tasks in the array's order.
pub fn tasks_from_value(value: &JsonValue) -> (r: Option<Vec<ITask>>)
    ensures
        match r {
            Some(list) => tasks_of_json(value.model()) == Some(task_models(list@)),
            None => tasks_of_json(value.model()) is None,
        },
{
    match value {
        JsonValue::Array(items) => {
            let ghost im = elements_of(value.model());
            let mut out: Vec<ITask> = Vec::new();
            let mut i: usize = 0;
            while i < items.len()
                invariant
                    i <= items.len(),
                    out.len() == i,
                    *value == JsonValue::Array(*items),
                    im == elements_of(value.model()),
                    forall|j: int| 0 <= j < i ==> (#[trigger] task_of_json(im[j])) == Some(out@[j]@),
                decreases items.len() - i,
            {
                match task_from_value(&items[i]) {
                    Some(task) => {
                        out.push(task);
                    },
                    None => {
                        assert(task_of_json(im[i as int]) is None);
                        return None;
                    },
                }
                i += 1;
            }
            proof {
                assert(Seq::new(im.len(), |i: int| task_of_json(im[i]).unwrap()) =~= task_models(
                    out@,
                ));
            }
            Some(out)
        },
        _ => None,
    }
}

/// Builds the JSON object of one task.
pub fn task_to_value(task: &ITask) -> (v: JsonValue)
    ensures
        v.model() == task_to_json(task@),
{
    let mut members: Vec<(String, JsonValue)> = Vec::new();
    members.push(("id".to_owned(), JsonValue::Number(task.id as u64)));
    members.push(("description".to_owned(), JsonValue::Text(task.description.clone())));
    members.push(("completed".to_owned(), JsonValue::Bool(task.completed)));
    let v = JsonValue::Object(members);
    proof {
        let built = members_of(v.model());
        let wanted = members_of(task_to_json(task@));
        assert(built[0] == (members@[0].0@, members@[0].1.model()));
        assert(built[1] == (members@[1].0@, members@[1].1.model()));
        assert(built[2] == (members@[2].0@, members@[2].1.model()));
        assert(built[0] == wanted[0]);
        assert(built[1] == wanted[1]);
        assert(built[2] == wanted[2]);
        assert(built =~= wanted);
    }
    v
}

/// Builds the JSON array of a task list.
pub fn tasks_to_value(list: &Vec<ITask>) -> (v: JsonValue)
    ensures
        v.model() == tasks_to_json(task_models(list@)),
{
    let mut items: Vec<JsonValue> = Vec::new();
    let mut i: usize = 0;
    while i < list.len()
        invariant
            i <= list.len(),
            items.len() == i,
            forall|j: int| 0 <= j < i ==> (#[trigger] items@[j]).model() == task_to_json(list@[j]@),
        decreases list.len() - i,
    {
        items.push(task_to_value(&list[i]));
        i += 1;
    }
    let v = JsonValue::Array(items);
    proof {
        assert(elements_of(v.model()) =~= elements_of(tasks_to_json(task_models(list@))));
    }
    v
}

/// Building the JSON value of a task list and reading it back gives the
/// list again, whatever the tasks are.
pub proof fn lemma_value_round_trip(tasks: Seq<TaskModel>)
    requires
        forall|i: int| 0 <= i < tasks.len() ==> (#[trigger] tasks[i]).id <= usize::MAX,
    ensures
        tasks_of_json(tasks_to_json(tasks)) == Some(tasks),
{
    let items = elements_of(tasks_to_json(tasks));
    assert forall|i: int| 0 <= i < items.len() implies (#[trigger] task_of_json(items[i])) == Some(
        tasks[i],
    ) by {
        lemma_task_round_trip(tasks[i]);
    }
    assert(Seq::new(items.len(), |i: int| task_of_json(items[i]).unwrap()) =~= tasks);
}

/// Where the parser reads the text that the printer gave for a list back as
/// the document that was printed, decoding that text gives the list again.
pub proof fn lemma_text_round_trip(tasks: Seq<TaskModel>, text: Seq<char>)
    requires
        forall|i: int| 0 <= i < tasks.len() ==> (#[trigger] tasks[i]).id <= usize::MAX,
        encoded(tasks) == Ok::<Seq<char>, Seq<char>>(text),
        json_parse(text) == Ok::<JsonModel, Seq<char>>(tasks_to_json(tasks)),
    ensures
        decoded(text) == Some(tasks),
{
    lemma_value_round_trip(tasks);
}

/// Building the JSON object of a task and reading it back gives the task.
pub proof fn lemma_task_round_trip(t: TaskModel)
    requires
        t.id <= usize::MAX,
    ensures
        task_of_json(task_to_json(t)) == Some(t),
{
    reveal_with_fuel(member_from, 4);
    reveal_strlit("id");
    reveal_strlit("description");
    reveal_strlit("completed");
    assert("id"@.len() == 2);
    assert("description"@.len() == 11);
    assert("completed"@.len() == 9);
}

/// The JSON codec of the task list.
pub struct Formatter;

impl Formatter {
    /// The codec; it holds no state.
    pub fn new() -> (r: Self) {
        Formatter
    }

    /// Decodes the text of a task list. It succeeds exactly where the text is
    /// JSON and an array of tasks; otherwise it fails with the parser's
    /// message, or with a message of its own where the JSON has another shape.
    pub fn str_to_object_or_list(&self, data: String) -> (r: Result<Vec<ITask>, String>)
        ensures
            match r {
                Ok(list) => decoded(data@) == Some(task_models(list@)),
                Err(msg) => decoded(data@) is None && msg@ == decode_message(data@),
            },
    {
        match parse_json(data.as_str()) {
            Ok(value) => {
                match tasks_from_value(&value) {
                    Some(list) => Ok(list),
                    None => Err(
                        "expected an array of tasks, each with an integer `id`, a string `description` and a boolean `completed`".to_owned(),
                    ),
                }
            },
            Err(msg) => Err(msg),
        }
    }

    /// Encodes a task list as pretty-printed JSON: the text that the printer
    /// gives for the array of the tasks' objects.
    pub fn object_or_list_to_string(&self, data: &Vec<ITask>) -> (r: Result<String, String>)
        ensures
            printed_model(r) == encoded(task_models(data@)),
    {
        let value = tasks_to_value(data);
        print_json(&value)
    }
}

} // verus!
