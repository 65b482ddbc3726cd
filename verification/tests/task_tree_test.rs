use brain_core::table::{render_task_table, render_task_tree_table};
use brain_core::task::{
    build_task_tree, render_task_created, render_task_get, render_task_list, render_task_tree,
    render_task_updated, SubtaskRecord, TaskRecord,
};
use brain_core::types::TaskId;
use serde_json::Value;

fn task(id: i64, parent: Option<i64>, title: &str, status: &str) -> TaskRecord {
    TaskRecord {
        id,
        parent_id: parent,
        title: title.to_string(),
        description: None,
        status: status.to_string(),
        priority: None,
        assigned_to: None,
        created_by: "Puck".to_string(),
        due_date: None,
        created_at: "2026-04-15 10:00:00".to_string(),
        updated_at: "2026-04-15 10:00:01".to_string(),
        completed_at: None,
        project_id: None,
    }
}

fn opt_str(o: &Option<String>) -> Value {
    match o {
        Some(s) => Value::from(s.clone()),
        None => Value::Null,
    }
}

fn opt_int(o: Option<i64>) -> Value {
    match o {
        Some(n) => Value::from(n),
        None => Value::Null,
    }
}

/// The object serde_json builds for a task row, member by member.
fn task_value(t: &TaskRecord) -> Value {
    let mut m = empty_object();
    put(&mut m, "id", Value::from(t.id));
    put(&mut m, "parent_id", opt_int(t.parent_id));
    put(&mut m, "title", Value::from(t.title.clone()));
    put(&mut m, "description", opt_str(&t.description));
    put(&mut m, "status", Value::from(t.status.clone()));
    put(&mut m, "priority", opt_str(&t.priority));
    put(&mut m, "assigned_to", opt_str(&t.assigned_to));
    put(&mut m, "created_by", Value::from(t.created_by.clone()));
    put(&mut m, "due_date", opt_str(&t.due_date));
    put(&mut m, "created_at", Value::from(t.created_at.clone()));
    put(&mut m, "updated_at", Value::from(t.updated_at.clone()));
    put(&mut m, "completed_at", opt_str(&t.completed_at));
    put(&mut m, "project_id", opt_int(t.project_id));
    m
}

fn empty_object() -> Value {
    serde_json::from_str("{}").unwrap()
}

fn put(object: &mut Value, key: &str, value: Value) {
    object.as_object_mut().unwrap().insert(key.to_string(), value);
}

fn hierarchy() -> Vec<TaskRecord> {
    vec![
        task(1, None, "Parent task", "open"),
        task(2, Some(1), "Child 1", "open"),
        task(3, Some(1), "Child 2", "open"),
        task(4, Some(1), "Child 3", "open"),
    ]
}

fn tree_ids(json: &str) -> Vec<(i64, Vec<i64>)> {
    let v: Value = serde_json::from_str(json).unwrap();
    v.as_array()
        .unwrap()
        .iter()
        .map(|n| {
            let kids = n["children"]
                .as_array()
                .unwrap()
                .iter()
                .map(|c| c["id"].as_i64().unwrap())
                .collect();
            (n["id"].as_i64().unwrap(), kids)
        })
        .collect()
}

#[test]
fn tree_nests_children_under_their_parent() {
    let nodes = build_task_tree(&hierarchy());
    assert_eq!(tree_ids(&render_task_tree(&nodes)), vec![(1, vec![2, 3, 4])]);
}

#[test]
fn tree_of_nothing_is_empty() {
    let nodes = build_task_tree(&Vec::new());
    assert_eq!(render_task_tree(&nodes), "[]");
    assert_eq!(render_task_tree_table(&nodes), "No tasks found.");
}

#[test]
fn tree_of_filtered_rows_keeps_only_present_tasks() {
    let rows = vec![task(1, None, "Parent task", "in_progress"), task(2, Some(1), "Child 1", "in_progress")];
    let nodes = build_task_tree(&rows);
    assert_eq!(tree_ids(&render_task_tree(&nodes)), vec![(1, vec![2])]);
}

#[test]
fn tree_root_without_children_has_empty_array() {
    let nodes = build_task_tree(&vec![task(1, None, "Solo task", "open")]);
    let v: Value = serde_json::from_str(&render_task_tree(&nodes)).unwrap();
    assert_eq!(v[0]["children"].as_array().unwrap().len(), 0);
}

#[test]
fn tree_promotes_orphans_and_drops_grandchildren() {
    let rows = vec![
        task(1, None, "Root", "open"),
        task(2, Some(1), "Child", "open"),
        task(3, Some(2), "Grandchild", "open"),
        task(5, Some(99), "Orphan", "open"),
        task(6, Some(5), "Orphan child", "open"),
    ];
    let nodes = build_task_tree(&rows);
    let json = render_task_tree(&nodes);
    assert_eq!(tree_ids(&json), vec![(1, vec![2]), (5, vec![6])]);
    let v: Value = serde_json::from_str(&json).unwrap();
    assert!(v[0].get("warning").is_none());
    assert_eq!(
        v[1]["warning"],
        "parent task 99 is not in the result set; promoted to top level"
    );
    assert!(v[1]["children"][0].get("warning").is_none());
}

#[test]
fn promoted_orphan_json_ends_with_its_warning() {
    let nodes = build_task_tree(&vec![task(4, Some(3), "Orphan", "open")]);
    let mut expected = task_value(&task(4, Some(3), "Orphan", "open"));
    put(&mut expected, "children", Value::Array(vec![]));
    put(
        &mut expected,
        "warning",
        Value::from("parent task 3 is not in the result set; promoted to top level"),
    );
    let text = serde_json::to_string(&Value::Array(vec![expected])).unwrap();
    assert_eq!(render_task_tree(&nodes), text);
    assert!(render_task_tree(&nodes).ends_with("\"warning\":\"parent task 3 is not in the result set; promoted to top level\"}]"));
}

#[test]
fn tree_gives_children_to_the_first_root_with_an_id() {
    let rows = vec![
        task(7, None, "First", "open"),
        task(7, None, "Second", "open"),
        task(8, Some(7), "Kid", "open"),
    ];
    let nodes = build_task_tree(&rows);
    assert_eq!(tree_ids(&render_task_tree(&nodes)), vec![(7, vec![8]), (7, vec![])]);
}

#[test]
fn tree_json_places_children_after_assigned_to() {
    let nodes = build_task_tree(&hierarchy()[..2].to_vec());
    let mut root = task_value(&hierarchy()[0]);
    put(&mut root, "children", Value::Array(vec![task_value(&hierarchy()[1])]));
    let expected = serde_json::to_string(&Value::Array(vec![root])).unwrap();
    assert_eq!(render_task_tree(&nodes), expected);
}

#[test]
fn task_list_json_is_what_serde_json_writes() {
    let mut t = task(12, Some(3), "Quote \" and \\ and\nnewline", "done");
    t.description = Some("d\u{7}".to_string());
    t.priority = Some("high".to_string());
    t.assigned_to = Some("Rune".to_string());
    t.project_id = Some(-4);
    t.completed_at = Some("2026-04-16".to_string());
    let rows = vec![t, task(13, None, "Zoë ✓", "open")];
    let expected = serde_json::to_string(&Value::Array(
        rows.iter().map(task_value).collect(),
    ))
    .unwrap();
    assert_eq!(render_task_list(&rows), expected);
    assert_eq!(render_task_list(&Vec::new()), "[]");
}

#[test]
fn task_get_json_lists_subtasks_in_order() {
    let parent = task(1, None, "Parent task", "open");
    let subs = vec![
        SubtaskRecord { id: 2, title: "Child 1".to_string(), status: "open".to_string() },
        SubtaskRecord { id: 3, title: "Child 2".to_string(), status: "done".to_string() },
    ];
    let mut expected = task_value(&parent);
    let items = subs
        .iter()
        .map(|s| {
            let mut m = empty_object();
            put(&mut m, "id", Value::from(s.id));
            put(&mut m, "title", Value::from(s.title.clone()));
            put(&mut m, "status", Value::from(s.status.clone()));
            m
        })
        .collect();
    put(&mut expected, "subtasks", Value::Array(items));
    let text = render_task_get(&parent, &subs);
    assert_eq!(text, serde_json::to_string(&expected).unwrap());
    let v: Value = serde_json::from_str(&render_task_get(&parent, &Vec::new())).unwrap();
    assert_eq!(v["subtasks"].as_array().unwrap().len(), 0);
}

#[test]
fn created_and_updated_answers() {
    assert_eq!(render_task_created(1), "{\"task_id\":1}");
    assert_eq!(
        render_task_updated(TaskId(1), "in_progress"),
        "{\"status\":\"in_progress\",\"task_id\":1}"
    );
}

#[test]
fn table_shows_parent_column_when_a_task_has_a_parent() {
    let rows = vec![task(1, None, "Parent", "open"), task(2, Some(1), "Child", "done")];
    let expected = [
        "+----+--------+--------+--------+----------+----------+",
        "| ID | PARENT | TITLE  | STATUS | PRIORITY | ASSIGNED |",
        "+----+--------+--------+--------+----------+----------+",
        "| 1  | -      | Parent | open   | -        | -        |",
        "| 2  | 1      | Child  | done   | -        | -        |",
        "+----+--------+--------+--------+----------+----------+",
    ]
    .join("\n");
    assert_eq!(render_task_table(&rows), expected);
}

#[test]
fn table_omits_parent_column_for_root_only_tasks() {
    let mut t = task(10, None, "A rather long title", "in_progress");
    t.priority = Some("critical".to_string());
    t.assigned_to = Some("Forge".to_string());
    let expected = [
        "+----+---------------------+-------------+----------+----------+",
        "| ID | TITLE               | STATUS      | PRIORITY | ASSIGNED |",
        "+----+---------------------+-------------+----------+----------+",
        "| 10 | A rather long title | in_progress | critical | Forge    |",
        "+----+---------------------+-------------+----------+----------+",
    ]
    .join("\n");
    assert_eq!(render_task_table(&vec![t]), expected);
    assert_eq!(render_task_table(&Vec::new()), "No tasks found.");
}

#[test]
fn tree_table_indents_children() {
    let nodes = build_task_tree(&vec![task(1, None, "Parent", "open"), task(2, Some(1), "Child", "done")]);
    let expected = [
        "+----+----------------+--------+----------+----------+",
        "| ID | TITLE          | STATUS | PRIORITY | ASSIGNED |",
        "+----+----------------+--------+----------+----------+",
        "| 1  | Parent         | open   | -        | -        |",
        "| 2  |   \u{2514}\u{2500} Child     | done   | -        | -        |",
        "+----+----------------+--------+----------+----------+",
    ]
    .join("\n");
    assert_eq!(render_task_tree_table(&nodes), expected);
}
