use task_store::formatter::{task_from_value, task_to_value, tasks_from_value, tasks_to_value, field, Formatter, ITask};
use task_store::value::JsonValue;

fn task(id: usize, description: &str, completed: bool) -> ITask {
    ITask { id, description: description.to_string(), completed }
}

fn object(id: JsonValue, description: JsonValue, completed: JsonValue) -> JsonValue {
    JsonValue::Object(vec![
        ("id".to_string(), id),
        ("description".to_string(), description),
        ("completed".to_string(), completed),
    ])
}

#[test]
fn decode_reads_a_list_in_order() {
    let text = r#"[{"id":1,"description":"Example","completed":false},{"id":2,"description":"Other","completed":true}]"#;
    let list = Formatter::new().str_to_object_or_list(text.to_string()).unwrap();
    assert_eq!(list, vec![task(1, "Example", false), task(2, "Other", true)]);
}

#[test]
fn decode_reads_members_in_any_order_and_ignores_others() {
    let text = r#"[{"completed":true,"note":[1,{"a":null}],"description":"x","id":7}]"#;
    let list = Formatter::new().str_to_object_or_list(text.to_string()).unwrap();
    assert_eq!(list, vec![task(7, "x", true)]);
}

#[test]
fn decode_reads_the_empty_array() {
    let list = Formatter::new().str_to_object_or_list("[]".to_string()).unwrap();
    assert_eq!(list, Vec::<ITask>::new());
}

#[test]
fn decode_rejects_text_that_is_not_json() {
    let r = Formatter::new().str_to_object_or_list("not json".to_string());
    let msg = r.unwrap_err();
    assert!(msg.contains("line 1"), "{}", msg);
}

#[test]
fn decode_rejects_the_empty_text() {
    assert!(Formatter::new().str_to_object_or_list(String::new()).is_err());
}

#[test]
fn decode_rejects_an_object_in_place_of_the_array() {
    let r = Formatter::new().str_to_object_or_list(r#"{"id": "x"}"#.to_string());
    assert_eq!(
        r,
        Err("expected an array of tasks, each with an integer `id`, a string `description` and a boolean `completed`".to_string())
    );
}

#[test]
fn decode_rejects_an_id_of_the_wrong_type() {
    let text = r#"[{"id":"x","description":"a","completed":false}]"#;
    assert!(Formatter::new().str_to_object_or_list(text.to_string()).is_err());
}

#[test]
fn decode_rejects_a_negative_or_fractional_id() {
    let negative = r#"[{"id":-1,"description":"a","completed":false}]"#;
    let fraction = r#"[{"id":1.5,"description":"a","completed":false}]"#;
    assert!(Formatter::new().str_to_object_or_list(negative.to_string()).is_err());
    assert!(Formatter::new().str_to_object_or_list(fraction.to_string()).is_err());
}

#[test]
fn decode_accepts_the_id_zero() {
    let text = r#"[{"id":0,"description":"a","completed":false}]"#;
    let list = Formatter::new().str_to_object_or_list(text.to_string()).unwrap();
    assert_eq!(list, vec![task(0, "a", false)]);
}

#[test]
fn decode_rejects_a_missing_member() {
    let text = r#"[{"id":1,"description":"a"}]"#;
    assert!(Formatter::new().str_to_object_or_list(text.to_string()).is_err());
}

#[test]
fn decode_rejects_a_task_written_as_an_array() {
    assert!(Formatter::new().str_to_object_or_list(r#"[[1,"a",true]]"#.to_string()).is_err());
}

#[test]
fn decode_rejects_one_bad_task_among_good_ones() {
    let text = r#"[{"id":1,"description":"a","completed":false},{"id":2,"description":3,"completed":false}]"#;
    assert!(Formatter::new().str_to_object_or_list(text.to_string()).is_err());
}

#[test]
fn encode_prints_pretty_with_the_members_in_order() {
    let list = vec![task(1, "buy milk", false), task(2, "walk \"dog\"", true)];
    let text = Formatter::new().object_or_list_to_string(&list).unwrap();
    let expected = "[\n  {\n    \"id\": 1,\n    \"description\": \"buy milk\",\n    \"completed\": false\n  },\n  {\n    \"id\": 2,\n    \"description\": \"walk \\\"dog\\\"\",\n    \"completed\": true\n  }\n]";
    assert_eq!(text, expected);
}

#[test]
fn encode_prints_the_empty_list() {
    let text = Formatter::new().object_or_list_to_string(&Vec::new()).unwrap();
    assert_eq!(text, "[]");
}

#[test]
fn encode_then_decode_gives_the_list_back() {
    let list = vec![
        task(1, "", false),
        task(2, "line\nbreak \u{e9}\u{4e16} \\ \"q\"", true),
        task(usize::MAX, "last", false),
    ];
    let formatter = Formatter::new();
    let text = formatter.object_or_list_to_string(&list).unwrap();
    assert_eq!(formatter.str_to_object_or_list(text).unwrap(), list);
}

#[test]
fn value_of_a_list_reads_back_as_the_list() {
    let list = vec![task(1, "a", false), task(2, "b", true)];
    let value = tasks_to_value(&list);
    assert_eq!(
        value,
        JsonValue::Array(vec![
            object(JsonValue::Number(1), JsonValue::Text("a".to_string()), JsonValue::Bool(false)),
            object(JsonValue::Number(2), JsonValue::Text("b".to_string()), JsonValue::Bool(true)),
        ])
    );
    assert_eq!(tasks_from_value(&value), Some(list));
}

#[test]
fn value_of_a_task_reads_back_as_the_task() {
    let t = task(3, "c", true);
    assert_eq!(task_from_value(&task_to_value(&t)), Some(t));
}

#[test]
fn tasks_from_value_wants_an_array() {
    assert_eq!(tasks_from_value(&JsonValue::Null), None);
    assert_eq!(tasks_from_value(&JsonValue::Number(1)), None);
    assert_eq!(tasks_from_value(&JsonValue::Object(Vec::new())), None);
    assert_eq!(tasks_from_value(&JsonValue::Array(Vec::new())), Some(Vec::new()));
}

#[test]
fn task_from_value_wants_each_member_typed() {
    let good = object(JsonValue::Number(4), JsonValue::Text("d".to_string()), JsonValue::Bool(false));
    assert_eq!(task_from_value(&good), Some(task(4, "d", false)));
    let bad_id = object(JsonValue::OtherNumber, JsonValue::Text("d".to_string()), JsonValue::Bool(false));
    assert_eq!(task_from_value(&bad_id), None);
    let bad_text = object(JsonValue::Number(4), JsonValue::Null, JsonValue::Bool(false));
    assert_eq!(task_from_value(&bad_text), None);
    let bad_flag = object(JsonValue::Number(4), JsonValue::Text("d".to_string()), JsonValue::Number(1));
    assert_eq!(task_from_value(&bad_flag), None);
    assert_eq!(task_from_value(&JsonValue::Array(Vec::new())), None);
}

#[test]
fn field_gives_the_first_member_with_the_key() {
    let value = JsonValue::Object(vec![
        ("a".to_string(), JsonValue::Number(1)),
        ("b".to_string(), JsonValue::Bool(true)),
        ("a".to_string(), JsonValue::Null),
    ]);
    assert_eq!(field(&value, &"a".to_string()), Some(&JsonValue::Number(1)));
    assert_eq!(field(&value, &"b".to_string()), Some(&JsonValue::Bool(true)));
    assert_eq!(field(&value, &"c".to_string()), None);
    assert_eq!(field(&JsonValue::Null, &"a".to_string()), None);
}
