//! Tasks: the rows the store returns, their JSON, the parent/child tree, and the statements
//! that create, update and query tasks.
use vstd::prelude::*;
use vstd::string::*;
use crate::json::{
    json_array, json_array_text, json_member, json_member_text, json_object, json_object_text,
    json_opt_int, json_opt_int_text, json_opt_string, json_opt_string_text, json_string,
    json_string_text, id_json, render_id_json,
};
use crate::error::BrainError;
use crate::sql::{
    add_filter, opt_integer, push_set, with_set, opt_integer_value, opt_text, opt_text_value, query_of, statement,
    with_opt_filter, Query, SqlValue, SqlValueView, Statement,
};
use crate::text::{decimal, decimal_string, joined, push_decimal, push_joined};
use crate::types::{
    opt_agent, opt_project_id, opt_task_id, priority_name, task_status_name, Agent, Priority,
    ProjectId, TaskId, TaskStatus,
};

verus! {

broadcast use {vstd::seq_lib::group_filter_ensures, vstd::seq::Seq::lemma_filter_contains_rev};

/// One row of the `tasks` table.
#[derive(Debug)]
pub struct TaskRecord {
    pub id: i64,
    pub parent_id: Option<i64>,
    pub title: String,
    pub description: Option<String>,
    pub status: String,
    pub priority: Option<String>,
    pub assigned_to: Option<String>,
    pub created_by: String,
    pub due_date: Option<String>,
    pub created_at: String,
    pub updated_at: String,
    pub completed_at: Option<String>,
    pub project_id: Option<i64>,
}

impl Clone for TaskRecord {
    fn clone(&self) -> (res: TaskRecord)
        ensures
            res == *self,
    {
        TaskRecord {
            id: self.id,
            parent_id: self.parent_id,
            title: self.title.clone(),
            description: clone_opt(&self.description),
            status: self.status.clone(),
            priority: clone_opt(&self.priority),
            assigned_to: clone_opt(&self.assigned_to),
            created_by: self.created_by.clone(),
            due_date: clone_opt(&self.due_date),
            created_at: self.created_at.clone(),
            updated_at: self.updated_at.clone(),
            completed_at: clone_opt(&self.completed_at),
            project_id: self.project_id,
        }
    }
}

pub fn clone_opt(o: &Option<String>) -> (res: Option<String>)
    ensures
        res == *o,
{
    match o {
        Some(s) => Some(s.clone()),
        None => None,
    }
}

/// The members of a task's JSON object, in the order serde_json writes them (by key).
pub open spec fn task_members(t: TaskRecord) -> Seq<Seq<char>> {
    seq![
        json_member("assigned_to"@, json_opt_string(t.assigned_to.deep_view())),
        json_member("completed_at"@, json_opt_string(t.completed_at.deep_view())),
        json_member("created_at"@, json_string(t.created_at@)),
        json_member("created_by"@, json_string(t.created_by@)),
        json_member("description"@, json_opt_string(t.description.deep_view())),
        json_member("due_date"@, json_opt_string(t.due_date.deep_view())),
        json_member("id"@, decimal(t.id as int)),
        json_member("parent_id"@, json_opt_int(t.parent_id)),
        json_member("priority"@, json_opt_string(t.priority.deep_view())),
        json_member("project_id"@, json_opt_int(t.project_id)),
        json_member("status"@, json_string(t.status@)),
        json_member("title"@, json_string(t.title@)),
        json_member("updated_at"@, json_string(t.updated_at@)),
    ]
}

pub open spec fn task_json(t: TaskRecord) -> Seq<char> {
    json_object(task_members(t))
}

pub open spec fn tasks_json(ts: Seq<TaskRecord>) -> Seq<Seq<char>> {
    ts.map_values(|t: TaskRecord| task_json(t))
}

fn task_members_text(t: &TaskRecord) -> (res: Vec<String>)
    ensures
        res.deep_view() == task_members(*t),
{
    let mut m: Vec<String> = Vec::new();
    m.push(json_member_text("assigned_to", json_opt_string_text(&t.assigned_to)));
    m.push(json_member_text("completed_at", json_opt_string_text(&t.completed_at)));
    m.push(json_member_text("created_at", json_string_text(t.created_at.as_str())));
    m.push(json_member_text("created_by", json_string_text(t.created_by.as_str())));
    m.push(json_member_text("description", json_opt_string_text(&t.description)));
    m.push(json_member_text("due_date", json_opt_string_text(&t.due_date)));
    m.push(json_member_text("id", decimal_string(t.id)));
    m.push(json_member_text("parent_id", json_opt_int_text(t.parent_id)));
    m.push(json_member_text("priority", json_opt_string_text(&t.priority)));
    m.push(json_member_text("project_id", json_opt_int_text(t.project_id)));
    m.push(json_member_text("status", json_string_text(t.status.as_str())));
    m.push(json_member_text("title", json_string_text(t.title.as_str())));
    m.push(json_member_text("updated_at", json_string_text(t.updated_at.as_str())));
    assert(m.deep_view() =~= task_members(*t));
    m
}

/// The JSON object of one task.
pub fn task_json_text(t: &TaskRecord) -> (res: String)
    ensures
        res@ == task_json(*t),
{
    let m = task_members_text(t);
    json_object_text(&m)
}

fn tasks_json_texts(ts: &Vec<TaskRecord>) -> (res: Vec<String>)
    ensures
        res.deep_view() == tasks_json(ts@),
{
    let mut out: Vec<String> = Vec::new();
    let mut i: usize = 0;
    while i < ts.len()
        invariant
            i <= ts.len(),
            out@.len() == i,
            forall|j: int| 0 <= j < i ==> (#[trigger] out@[j])@ == task_json(ts@[j]),
        decreases ts.len() - i,
    {
        out.push(task_json_text(&ts[i]));
        i = i + 1;
    }
    assert(out.deep_view() =~= tasks_json(ts@));
    out
}

/// The JSON array of a list of tasks, as `task list` prints it.
pub fn render_task_list(ts: &Vec<TaskRecord>) -> (res: String)
    ensures
        res@ == json_array(tasks_json(ts@)),
{
    let items = tasks_json_texts(ts);
    json_array_text(&items)
}

// ---------------------------------------------------------------------------
// JSON of results
// ---------------------------------------------------------------------------

/// `{"task_id":id}`, the answer to creating a task.
pub fn render_task_created(id: i64) -> (res: String)
    ensures
        res@ == id_json("task_id"@, id),
{
    render_id_json("task_id", id)
}

/// `{"status":..,"task_id":id}`, the answer to updating a task.
pub open spec fn task_updated_json(id: i64, status: Seq<char>) -> Seq<char> {
    json_object(
        seq![json_member("status"@, json_string(status)), json_member("task_id"@, decimal(id as int))],
    )
}

pub fn render_task_updated(id: TaskId, status: &str) -> (res: String)
    ensures
        res@ == task_updated_json(id.0, status@),
{
    let mut m: Vec<String> = Vec::new();
    m.push(json_member_text("status", json_string_text(status)));
    m.push(json_member_text("task_id", decimal_string(id.0)));
    assert(m.deep_view() =~= seq![
        json_member("status"@, json_string(status@)),
        json_member("task_id"@, decimal(id.0 as int)),
    ]);
    json_object_text(&m)
}

/// The id, title and status of a direct child, as a task lists its subtasks.
#[derive(Debug)]
pub struct SubtaskRecord {
    pub id: i64,
    pub title: String,
    pub status: String,
}

pub open spec fn subtask_json(t: SubtaskRecord) -> Seq<char> {
    json_object(
        seq![
            json_member("id"@, decimal(t.id as int)),
            json_member("status"@, json_string(t.status@)),
            json_member("title"@, json_string(t.title@)),
        ],
    )
}

fn subtask_json_text(t: &SubtaskRecord) -> (res: String)
    ensures
        res@ == subtask_json(*t),
{
    let mut m: Vec<String> = Vec::new();
    m.push(json_member_text("id", decimal_string(t.id)));
    m.push(json_member_text("status", json_string_text(t.status.as_str())));
    m.push(json_member_text("title", json_string_text(t.title.as_str())));
    assert(m.deep_view() =~= seq![
        json_member("id"@, decimal(t.id as int)),
        json_member("status"@, json_string(t.status@)),
        json_member("title"@, json_string(t.title@)),
    ]);
    json_object_text(&m)
}

/// A task's JSON with its direct children listed under `"subtasks"`, as `task get` prints it.
pub open spec fn task_with_subtasks_json(t: TaskRecord, subtasks: Seq<SubtaskRecord>) -> Seq<char> {
    json_object(
        task_members(t).insert(
            11,
            json_member(
                "subtasks"@,
                json_array(subtasks.map_values(|c: SubtaskRecord| subtask_json(c))),
            ),
        ),
    )
}

fn subtasks_json_text(subtasks: &Vec<SubtaskRecord>) -> (res: String)
    ensures
        res@ == json_array(subtasks@.map_values(|c: SubtaskRecord| subtask_json(c))),
{
    let mut items: Vec<String> = Vec::new();
    let mut i: usize = 0;
    while i < subtasks.len()
        invariant
            i <= subtasks.len(),
            items@.len() == i,
            forall|j: int| 0 <= j < i ==> (#[trigger] items@[j])@ == subtask_json(subtasks@[j]),
        decreases subtasks.len() - i,
    {
        items.push(subtask_json_text(&subtasks[i]));
        i = i + 1;
    }
    assert(items.deep_view() =~= subtasks@.map_values(|c: SubtaskRecord| subtask_json(c)));
    json_array_text(&items)
}

pub fn render_task_get(t: &TaskRecord, subtasks: &Vec<SubtaskRecord>) -> (res: String)
    ensures
        res@ == task_with_subtasks_json(*t, subtasks@),
{
    let list = subtasks_json_text(subtasks);
    let mut m = task_members_text(t);
    let ghost before = m.deep_view();
    let member = json_member_text("subtasks", list);
    let ghost mv = member@;
    m.insert(11, member);
    assert(m.deep_view() =~= before.insert(11, mv));
    json_object_text(&m)
}

/// The warning a top-level task carries when its parent is not among the listed tasks.
pub open spec fn orphan_warning(parent: i64) -> Seq<char> {
    "parent task "@ + decimal(parent as int) + " is not in the result set; promoted to top level"@
}

/// The members of a top-level node: the task's own, `"children"` with the tasks under it, and,
/// for a task that names a parent (one left out of the list, since it is at the top level),
/// a `"warning"` saying so.
pub open spec fn tree_node_members(n: TaskTreeNode) -> Seq<Seq<char>> {
    let base = task_members(n.task).insert(
        1,
        json_member("children"@, json_array(tasks_json(n.children@))),
    );
    match n.task.parent_id {
        Some(p) => base.push(json_member("warning"@, json_string(orphan_warning(p)))),
        None => base,
    }
}

/// A top-level task's JSON with the tasks under it listed as `"children"`, and a `"warning"`
/// on a task promoted because its parent is not in the list.
pub open spec fn tree_node_json(n: TaskTreeNode) -> Seq<char> {
    json_object(tree_node_members(n))
}

pub open spec fn task_tree_json(nodes: Seq<TaskTreeNode>) -> Seq<char> {
    json_array(nodes.map_values(|n: TaskTreeNode| tree_node_json(n)))
}

fn tree_node_json_text(n: &TaskTreeNode) -> (res: String)
    ensures
        res@ == tree_node_json(*n),
{
    let items = tasks_json_texts(&n.children);
    let list = json_array_text(&items);
    let mut m = task_members_text(&n.task);
    let ghost before = m.deep_view();
    let member = json_member_text("children", list);
    let ghost mv = member@;
    m.insert(1, member);
    assert(m.deep_view() =~= before.insert(1, mv));
    if let Some(p) = n.task.parent_id {
        let ghost with_children = m.deep_view();
        let mut w = "parent task ".to_owned();
        let digits = decimal_string(p);
        w.append(digits.as_str());
        w.append(" is not in the result set; promoted to top level");
        assert(w@ =~= orphan_warning(p));
        let warning = json_member_text("warning", json_string_text(w.as_str()));
        let ghost wv = warning@;
        m.push(warning);
        assert(m.deep_view() =~= with_children.push(wv));
    }
    assert(m.deep_view() =~= tree_node_members(*n));
    json_object_text(&m)
}

/// The JSON array of a task tree, as `task list --tree` prints it.
pub fn render_task_tree(nodes: &Vec<TaskTreeNode>) -> (res: String)
    ensures
        res@ == task_tree_json(nodes@),
{
    let mut items: Vec<String> = Vec::new();
    let mut i: usize = 0;
    while i < nodes.len()
        invariant
            i <= nodes.len(),
            items@.len() == i,
            forall|j: int| 0 <= j < i ==> (#[trigger] items@[j])@ == tree_node_json(nodes@[j]),
        decreases nodes.len() - i,
    {
        items.push(tree_node_json_text(&nodes[i]));
        i = i + 1;
    }
    assert(items.deep_view() =~= nodes@.map_values(|n: TaskTreeNode| tree_node_json(n)));
    json_array_text(&items)
}

// ---------------------------------------------------------------------------
// Statements and the decisions between them
// ---------------------------------------------------------------------------

pub const TASK_INSERT_SQL: &'static str = "INSERT INTO tasks (title, description, assigned_to, priority, project_id, parent_id, created_by)
         VALUES (?1, ?2, ?3, ?4, ?5, ?6, ?7)
         RETURNING id";

pub const TASK_SELECT_BY_ID_SQL: &'static str = "SELECT id, parent_id, title, description, status, priority,
                assigned_to, created_by, due_date, created_at, updated_at,
                completed_at, project_id
         FROM tasks WHERE id = ?1";

pub const TASK_SELECT_ALL_SQL: &'static str = "SELECT id, parent_id, title, description, status, priority,
                assigned_to, created_by, due_date, created_at, updated_at,
                completed_at, project_id
         FROM tasks WHERE 1=1";

pub const TASK_SUBTASKS_SQL: &'static str = "SELECT id, title, status FROM tasks WHERE parent_id = ?1 ORDER BY id ASC";

pub const TASK_COUNT_BY_ID_SQL: &'static str = "SELECT COUNT(*) FROM tasks WHERE id = ?1";

pub const TASK_STATUS_BY_ID_SQL: &'static str = "SELECT status FROM tasks WHERE id = ?1";

pub open spec fn opt_priority_text(o: Option<Priority>) -> Option<Seq<char>> {
    match o {
        Some(p) => Some(priority_name(p)),
        None => None,
    }
}

pub open spec fn opt_status_text(o: Option<TaskStatus>) -> Option<Seq<char>> {
    match o {
        Some(s) => Some(task_status_name(s)),
        None => None,
    }
}

pub open spec fn opt_text_filter(o: Option<Seq<char>>) -> Option<SqlValueView> {
    match o {
        Some(s) => Some(SqlValueView::Text(s)),
        None => None,
    }
}

pub open spec fn opt_integer_filter(o: Option<i64>) -> Option<SqlValueView> {
    match o {
        Some(n) => Some(SqlValueView::Integer(n)),
        None => None,
    }
}

/// The insert of a new task; the store answers with the new id.
pub open spec fn task_create_query(
    title: Seq<char>,
    description: Option<Seq<char>>,
    assigned_to: Option<Seq<char>>,
    priority: Option<Priority>,
    project_id: Option<i64>,
    parent_id: Option<i64>,
    created_by: Seq<char>,
) -> Query {
    query_of(
        TASK_INSERT_SQL@,
        seq![
            SqlValueView::Text(title),
            opt_text(description),
            opt_text(assigned_to),
            opt_text(opt_priority_text(priority)),
            opt_integer(project_id),
            opt_integer(parent_id),
            SqlValueView::Text(created_by),
        ],
    )
}

/// A new task binds each argument to the column the insert names at its place:
/// `(title, description, assigned_to, priority, project_id, parent_id, created_by)` take
/// `?1` to `?7`; an optional argument is `NULL` exactly when it is not given.
pub proof fn task_create_binds_each_column(
    title: Seq<char>,
    description: Option<Seq<char>>,
    assigned_to: Option<Seq<char>>,
    priority: Option<Priority>,
    project_id: Option<i64>,
    parent_id: Option<i64>,
    created_by: Seq<char>,
)
    ensures
        ({
            let q = task_create_query(
                title,
                description,
                assigned_to,
                priority,
                project_id,
                parent_id,
                created_by,
            );
            &&& q.0 == TASK_INSERT_SQL@
            &&& q.1.len() == 7
            &&& q.1[0] == SqlValueView::Text(title)
            &&& (q.1[1] is Null <==> description is None)
            &&& (description matches Some(d) ==> q.1[1] == SqlValueView::Text(d))
            &&& (q.1[2] is Null <==> assigned_to is None)
            &&& (assigned_to matches Some(a) ==> q.1[2] == SqlValueView::Text(a))
            &&& (q.1[3] is Null <==> priority is None)
            &&& (priority matches Some(p) ==> q.1[3] == SqlValueView::Text(priority_name(p)))
            &&& (q.1[4] is Null <==> project_id is None)
            &&& (project_id matches Some(n) ==> q.1[4] == SqlValueView::Integer(n))
            &&& (q.1[5] is Null <==> parent_id is None)
            &&& (parent_id matches Some(n) ==> q.1[5] == SqlValueView::Integer(n))
            &&& q.1[6] == SqlValueView::Text(created_by)
        }),
{
}

pub fn task_create_statement(
    title: String,
    description: Option<String>,
    assigned_to: Option<Agent>,
    priority: Option<Priority>,
    project_id: Option<ProjectId>,
    parent_id: Option<TaskId>,
    created_by: String,
) -> (res: Statement)
    ensures
        res@ == task_create_query(
            title@,
            description.deep_view(),
            opt_agent(assigned_to),
            priority,
            opt_project_id(project_id),
            opt_task_id(parent_id),
            created_by@,
        ),
{
    let ghost d = description.deep_view();
    let ghost a = opt_agent(assigned_to);
    let ghost (t, c) = (title@, created_by@);
    let assigned = match assigned_to {
        Some(a) => SqlValue::Text(a.0),
        None => SqlValue::Null,
    };
    let prio = match priority {
        Some(p) => SqlValue::Text(p.to_string()),
        None => SqlValue::Null,
    };
    let project = opt_integer_value(
        match project_id {
            Some(p) => Some(p.0),
            None => None,
        },
    );
    let parent = opt_integer_value(
        match parent_id {
            Some(p) => Some(p.0),
            None => None,
        },
    );
    let params = vec![
        SqlValue::Text(title),
        opt_text_value(description),
        assigned,
        prio,
        project,
        parent,
        SqlValue::Text(created_by),
    ];
    let st = Statement { sql: TASK_INSERT_SQL.to_owned(), params };
    assert(st@.1 =~= seq![
        SqlValueView::Text(t),
        opt_text(d),
        opt_text(a),
        opt_text(opt_priority_text(priority)),
        opt_integer(opt_project_id(project_id)),
        opt_integer(opt_task_id(parent_id)),
        SqlValueView::Text(c),
    ]);
    st
}

/// The `SET` items of a task update, and the values they bind (the id comes after them):
/// `updated_at` always, each given field, and `completed_at` when the new status is done.
pub open spec fn task_update_assignments(
    status: Option<TaskStatus>,
    assigned_to: Option<Seq<char>>,
    priority: Option<Priority>,
    description: Option<Seq<char>>,
    project_id: Option<i64>,
) -> (Seq<Seq<char>>, Seq<SqlValueView>) {
    let s0 = (seq!["updated_at = datetime('now')"@], Seq::<SqlValueView>::empty());
    let s1 = with_set(s0, "status = ?"@, opt_text_filter(opt_status_text(status)));
    let s2 = with_set(s1, "assigned_to = ?"@, opt_text_filter(assigned_to));
    let s3 = with_set(s2, "priority = ?"@, opt_text_filter(opt_priority_text(priority)));
    let s4 = with_set(s3, "description = ?"@, opt_text_filter(description));
    let s5 = with_set(s4, "project_id = ?"@, opt_integer_filter(project_id));
    if status == Some(TaskStatus::Done) {
        (s5.0.push("completed_at = datetime('now')"@), s5.1)
    } else {
        s5
    }
}

/// The update of a task: the assignments of `task_update_assignments`, joined, for the row
/// with the given id; fields not given are left as they are.
pub open spec fn task_update_query(
    id: i64,
    status: Option<TaskStatus>,
    assigned_to: Option<Seq<char>>,
    priority: Option<Priority>,
    description: Option<Seq<char>>,
    project_id: Option<i64>,
) -> Query {
    let s6 = task_update_assignments(status, assigned_to, priority, description, project_id);
    let params = s6.1.push(SqlValueView::Integer(id));
    (
        "UPDATE tasks SET "@ + joined(s6.0, ", "@) + " WHERE id = ?"@ + decimal(params.len() as int),
        params,
    )
}

/// Every `SET` item is non-empty and none starts with `c`.
pub open spec fn items_avoid_start(items: Seq<Seq<char>>, c: char) -> bool {
    forall|k: int| 0 <= k < items.len() ==> (#[trigger] items[k]).len() > 0 && items[k][0] != c
}

proof fn lemma_with_set_avoids_start(
    q: (Seq<Seq<char>>, Seq<SqlValueView>),
    clause: Seq<char>,
    v: Option<SqlValueView>,
    c: char,
)
    requires
        items_avoid_start(q.0, c),
        clause.len() > 0,
        clause[0] != c,
    ensures
        items_avoid_start(with_set(q, clause, v).0, c),
{
    if v is Some {
        let item = clause + decimal(q.1.len() + 1int);
        assert(item[0] == clause[0]);
        assert(with_set(q, clause, v).0 == q.0.push(item));
    }
}

/// A task update stamps `completed_at` exactly when it sets the status to done: for any other
/// status, or none, no `SET` item of the statement assigns `completed_at`. The statement's
/// text is its `SET` items joined by commas, for the row whose id is bound last.
pub proof fn task_update_stamps_completion_only_when_done(
    id: i64,
    status: Option<TaskStatus>,
    assigned_to: Option<Seq<char>>,
    priority: Option<Priority>,
    description: Option<Seq<char>>,
    project_id: Option<i64>,
)
    ensures
        task_update_assignments(status, assigned_to, priority, description, project_id).0.contains(
            "completed_at = datetime('now')"@,
        ) <==> status == Some(TaskStatus::Done),
        task_update_query(id, status, assigned_to, priority, description, project_id).0 == "UPDATE tasks SET "@
            + joined(
            task_update_assignments(status, assigned_to, priority, description, project_id).0,
            ", "@,
        ) + " WHERE id = ?"@ + decimal(
            task_update_query(id, status, assigned_to, priority, description, project_id).1.len() as int,
        ),
        task_update_query(id, status, assigned_to, priority, description, project_id).1.last()
            == SqlValueView::Integer(id),
        task_update_query(id, status, assigned_to, priority, description, project_id).1.len() == 1
            + task_update_assignments(status, assigned_to, priority, description, project_id).1.len(),
{
    reveal_strlit("completed_at = datetime('now')");
    reveal_strlit("updated_at = datetime('now')");
    reveal_strlit("status = ?");
    reveal_strlit("assigned_to = ?");
    reveal_strlit("priority = ?");
    reveal_strlit("description = ?");
    reveal_strlit("project_id = ?");
    let done_item = "completed_at = datetime('now')"@;
    let items = task_update_assignments(status, assigned_to, priority, description, project_id).0;
    let s0 = (seq!["updated_at = datetime('now')"@], Seq::<SqlValueView>::empty());
    let s1 = with_set(s0, "status = ?"@, opt_text_filter(opt_status_text(status)));
    let s2 = with_set(s1, "assigned_to = ?"@, opt_text_filter(assigned_to));
    let s3 = with_set(s2, "priority = ?"@, opt_text_filter(opt_priority_text(priority)));
    let s4 = with_set(s3, "description = ?"@, opt_text_filter(description));
    let s5 = with_set(s4, "project_id = ?"@, opt_integer_filter(project_id));
    assert(items_avoid_start(s0.0, 'c'));
    lemma_with_set_avoids_start(s0, "status = ?"@, opt_text_filter(opt_status_text(status)), 'c');
    lemma_with_set_avoids_start(s1, "assigned_to = ?"@, opt_text_filter(assigned_to), 'c');
    lemma_with_set_avoids_start(
        s2,
        "priority = ?"@,
        opt_text_filter(opt_priority_text(priority)),
        'c',
    );
    lemma_with_set_avoids_start(s3, "description = ?"@, opt_text_filter(description), 'c');
    lemma_with_set_avoids_start(s4, "project_id = ?"@, opt_integer_filter(project_id), 'c');
    if status == Some(TaskStatus::Done) {
        assert(items == s5.0.push(done_item));
        assert(items[items.len() - 1] == done_item);
    } else {
        assert(items == s5.0);
        if items.contains(done_item) {
            let k = choose|k: int| 0 <= k < items.len() && items[k] == done_item;
            assert(items[k][0] != 'c');
        }
    }
}

#[verifier::rlimit(40)]
pub fn task_update_statement(
    id: TaskId,
    status: Option<TaskStatus>,
    assigned_to: Option<Agent>,
    priority: Option<Priority>,
    description: Option<String>,
    project_id: Option<ProjectId>,
) -> (res: Statement)
    ensures
        res@ == task_update_query(
            id.0,
            status,
            opt_agent(assigned_to),
            priority,
            description.deep_view(),
            opt_project_id(project_id),
        ),
{
    let ghost a = opt_agent(assigned_to);
    let ghost d = description.deep_view();
    let mut sets: Vec<String> = Vec::new();
    sets.push("updated_at = datetime('now')".to_owned());
    let mut params: Vec<SqlValue> = Vec::new();
    assert(sets.deep_view() =~= seq!["updated_at = datetime('now')"@]);
    assert(params@.map_values(|p: SqlValue| p@) =~= Seq::<SqlValueView>::empty());
    let is_done = match status {
        Some(TaskStatus::Done) => true,
        _ => false,
    };
    if let Some(s) = status {
        push_set(&mut sets, &mut params, "status = ?", SqlValue::Text(s.to_string()));
    }
    if let Some(a) = assigned_to {
        push_set(&mut sets, &mut params, "assigned_to = ?", SqlValue::Text(a.0));
    }
    if let Some(p) = priority {
        push_set(&mut sets, &mut params, "priority = ?", SqlValue::Text(p.to_string()));
    }
    if let Some(d) = description {
        push_set(&mut sets, &mut params, "description = ?", SqlValue::Text(d));
    }
    if let Some(p) = project_id {
        push_set(&mut sets, &mut params, "project_id = ?", SqlValue::Integer(p.0));
    }
    if is_done {
        let ghost old_sets = sets.deep_view();
        sets.push("completed_at = datetime('now')".to_owned());
        assert(sets.deep_view() =~= old_sets.push("completed_at = datetime('now')"@));
    }
    let ghost before = params@.map_values(|p: SqlValue| p@);
    params.push(SqlValue::Integer(id.0));
    assert(params@.map_values(|p: SqlValue| p@) =~= before.push(SqlValueView::Integer(id.0)));
    let mut sql = "UPDATE tasks SET ".to_owned();
    push_joined(&mut sql, &sets, ", ");
    sql.append(" WHERE id = ?");
    push_decimal(&mut sql, params.len() as i64);
    Statement { sql, params }
}

/// What the update reports as the task's status: the status it set, or else the status read
/// back from the store with the given statement.
pub enum StatusLookup {
    Known(String),
    Read(Statement),
}

pub fn task_update_status_lookup(id: TaskId, status: Option<TaskStatus>) -> (res: StatusLookup)
    ensures
        match status {
            Some(s) => res matches StatusLookup::Known(t) && t@ == task_status_name(s),
            None => res matches StatusLookup::Read(st) && st@ == query_of(
                TASK_STATUS_BY_ID_SQL@,
                seq![SqlValueView::Integer(id.0)],
            ),
        },
{
    match status {
        Some(s) => StatusLookup::Known(s.to_string()),
        None => {
            let mut st = statement(TASK_STATUS_BY_ID_SQL);
            st.params.push(SqlValue::Integer(id.0));
            assert(st@.1 =~= seq![SqlValueView::Integer(id.0)]);
            StatusLookup::Read(st)
        },
    }
}

/// After an update or a lookup by id: nothing matched means there is no task with that id.
pub fn check_task_found(id: TaskId, matched: usize) -> (res: Result<(), BrainError>)
    ensures
        matched == 0 ==> res == Err::<(), BrainError>(BrainError::NotFound { entity: "task", id: id.0 }),
        matched > 0 ==> res is Ok,
{
    if matched == 0 {
        Err(BrainError::NotFound { entity: "task", id: id.0 })
    } else {
        Ok(())
    }
}

/// A lookup by id that found no row means there is no task with that id.
pub fn require_task(id: TaskId, found: Option<TaskRecord>) -> (res: Result<TaskRecord, BrainError>)
    ensures
        match found {
            Some(t) => res == Ok::<TaskRecord, BrainError>(t),
            None => res == Err::<TaskRecord, BrainError>(
                BrainError::NotFound { entity: "task", id: id.0 },
            ),
        },
{
    match found {
        Some(t) => Ok(t),
        None => Err(BrainError::NotFound { entity: "task", id: id.0 }),
    }
}

/// A statement with one integer placeholder.
pub open spec fn by_id_query(sql: Seq<char>, id: i64) -> Query {
    query_of(sql, seq![SqlValueView::Integer(id)])
}

fn by_id_statement(sql: &str, id: i64) -> (res: Statement)
    ensures
        res@ == by_id_query(sql@, id),
{
    let mut st = statement(sql);
    st.params.push(SqlValue::Integer(id));
    assert(st@.1 =~= seq![SqlValueView::Integer(id)]);
    st
}

/// Reads one task.
pub fn task_get_statement(id: TaskId) -> (res: Statement)
    ensures
        res@ == by_id_query(TASK_SELECT_BY_ID_SQL@, id.0),
{
    by_id_statement(TASK_SELECT_BY_ID_SQL, id.0)
}

/// Reads the direct children of a task, by id ascending.
pub fn task_subtasks_statement(id: TaskId) -> (res: Statement)
    ensures
        res@ == by_id_query(TASK_SUBTASKS_SQL@, id.0),
{
    by_id_statement(TASK_SUBTASKS_SQL, id.0)
}

/// Counts the tasks with a given id, to check that a parent exists.
pub fn task_count_statement(id: TaskId) -> (res: Statement)
    ensures
        res@ == by_id_query(TASK_COUNT_BY_ID_SQL@, id.0),
{
    by_id_statement(TASK_COUNT_BY_ID_SQL, id.0)
}

/// The parent filter needs the parent to exist: a count of zero is `NotFound`.
pub fn check_task_parent(parent: TaskId, count: i64) -> (res: Result<(), BrainError>)
    ensures
        count <= 0 ==> res == Err::<(), BrainError>(
            BrainError::NotFound { entity: "task", id: parent.0 },
        ),
        count > 0 ==> res is Ok,
{
    if count > 0 {
        Ok(())
    } else {
        Err(BrainError::NotFound { entity: "task", id: parent.0 })
    }
}

/// The selection of tasks by the given filters, by id ascending.
pub open spec fn task_list_query(
    status: Option<TaskStatus>,
    assigned_to: Option<Seq<char>>,
    project_id: Option<i64>,
    parent_id: Option<i64>,
) -> Query {
    let q0 = query_of(TASK_SELECT_ALL_SQL@, Seq::empty());
    let q1 = with_opt_filter(q0, " AND status = ?"@, opt_text_filter(opt_status_text(status)));
    let q2 = with_opt_filter(q1, " AND assigned_to = ?"@, opt_text_filter(assigned_to));
    let q3 = with_opt_filter(q2, " AND project_id = ?"@, opt_integer_filter(project_id));
    let q4 = with_opt_filter(q3, " AND parent_id = ?"@, opt_integer_filter(parent_id));
    (q4.0 + " ORDER BY id ASC"@, q4.1)
}

pub fn task_list_statement(
    status: Option<&TaskStatus>,
    assigned_to: Option<&Agent>,
    project_id: Option<&ProjectId>,
    parent_id: Option<&TaskId>,
) -> (res: Statement)
    ensures
        res@ == task_list_query(
            match status {
                Some(s) => Some(*s),
                None => None,
            },
            match assigned_to {
                Some(a) => Some(a@),
                None => None,
            },
            match project_id {
                Some(p) => Some(p.0),
                None => None,
            },
            match parent_id {
                Some(p) => Some(p.0),
                None => None,
            },
        ),
{
    let mut st = statement(TASK_SELECT_ALL_SQL);
    if let Some(s) = status {
        add_filter(&mut st, " AND status = ?", SqlValue::Text(s.to_string()));
    }
    if let Some(a) = assigned_to {
        add_filter(&mut st, " AND assigned_to = ?", SqlValue::Text(a.0.clone()));
    }
    if let Some(p) = project_id {
        add_filter(&mut st, " AND project_id = ?", SqlValue::Integer(p.0));
    }
    if let Some(p) = parent_id {
        add_filter(&mut st, " AND parent_id = ?", SqlValue::Integer(p.0));
    }
    st.sql.append(" ORDER BY id ASC");
    st
}

/// The selection a tree is built from: the same filters, with no parent filter.
pub fn task_list_tree_statement(
    status: Option<&TaskStatus>,
    assigned_to: Option<&Agent>,
    project_id: Option<&ProjectId>,
) -> (res: Statement)
    ensures
        res@ == task_list_query(
            match status {
                Some(s) => Some(*s),
                None => None,
            },
            match assigned_to {
                Some(a) => Some(a@),
                None => None,
            },
            match project_id {
                Some(p) => Some(p.0),
                None => None,
            },
            None,
        ),
{
    task_list_statement(status, assigned_to, project_id, None)
}

// ---------------------------------------------------------------------------
// The parent/child tree
// ---------------------------------------------------------------------------

/// Some task in `ts` has id `id`.
pub open spec fn has_task_id(ts: Seq<TaskRecord>, id: i64) -> bool {
    exists|i: int| 0 <= i < ts.len() && #[trigger] ts[i].id == id
}

/// A task is at the top of the tree when it has no parent or its parent is not among `ts`.
pub open spec fn is_tree_root(ts: Seq<TaskRecord>, t: TaskRecord) -> bool {
    match t.parent_id {
        None => true,
        Some(p) => !has_task_id(ts, p),
    }
}

pub open spec fn tree_roots(ts: Seq<TaskRecord>) -> Seq<TaskRecord> {
    ts.filter(|t: TaskRecord| is_tree_root(ts, t))
}

/// The tasks of `ts` whose parent is `id`, in their order in `ts`.
pub open spec fn child_tasks(ts: Seq<TaskRecord>, id: i64) -> Seq<TaskRecord> {
    ts.filter(|t: TaskRecord| t.parent_id == Some(id))
}

/// The children attached to the `k`-th root: all tasks whose parent it is, unless an earlier
/// root has the same id (then that root took them).
pub open spec fn tree_children(ts: Seq<TaskRecord>, k: int) -> Seq<TaskRecord> {
    let roots = tree_roots(ts);
    if exists|j: int| 0 <= j < k && #[trigger] roots[j].id == roots[k].id {
        Seq::empty()
    } else {
        child_tasks(ts, roots[k].id)
    }
}

/// A top-level task with the tasks nested under it.
#[derive(Debug)]
pub struct TaskTreeNode {
    pub task: TaskRecord,
    pub children: Vec<TaskRecord>,
}

/// `nodes` is the tree of `ts`: one node per root, in order, each with its children.
pub open spec fn is_task_tree(ts: Seq<TaskRecord>, nodes: Seq<TaskTreeNode>) -> bool {
    &&& nodes.len() == tree_roots(ts).len()
    &&& forall|k: int|
        0 <= k < nodes.len() ==> {
            &&& (#[trigger] nodes[k]).task == tree_roots(ts)[k]
            &&& nodes[k].children@ == tree_children(ts, k)
        }
}

fn contains_task_id(ts: &Vec<TaskRecord>, id: i64) -> (res: bool)
    ensures
        res == has_task_id(ts@, id),
{
    let mut i: usize = 0;
    while i < ts.len()
        invariant
            i <= ts.len(),
            forall|j: int| 0 <= j < i ==> ts@[j].id != id,
        decreases ts.len() - i,
    {
        if ts[i].id == id {
            return true;
        }
        i = i + 1;
    }
    false
}

fn is_root_task(ts: &Vec<TaskRecord>, t: &TaskRecord) -> (res: bool)
    ensures
        res == is_tree_root(ts@, *t),
{
    match t.parent_id {
        None => true,
        Some(p) => !contains_task_id(ts, p),
    }
}

fn roots_of(ts: &Vec<TaskRecord>) -> (res: Vec<TaskRecord>)
    ensures
        res@ == tree_roots(ts@),
{
    let ghost pred = |t: TaskRecord| is_tree_root(ts@, t);
    let mut out: Vec<TaskRecord> = Vec::new();
    let mut i: usize = 0;
    while i < ts.len()
        invariant
            i <= ts.len(),
            pred == (|t: TaskRecord| is_tree_root(ts@, t)),
            out@ == ts@.take(i as int).filter(pred),
        decreases ts.len() - i,
    {
        assert(ts@.take(i + 1).drop_last() =~= ts@.take(i as int));
        reveal_with_fuel(Seq::filter, 1);
        if is_root_task(ts, &ts[i]) {
            out.push(ts[i].clone());
        }
        i = i + 1;
    }
    assert(ts@.take(ts.len() as int) =~= ts@);
    out
}

fn children_of(ts: &Vec<TaskRecord>, id: i64) -> (res: Vec<TaskRecord>)
    ensures
        res@ == child_tasks(ts@, id),
{
    let ghost pred = |t: TaskRecord| t.parent_id == Some(id);
    let mut out: Vec<TaskRecord> = Vec::new();
    let mut i: usize = 0;
    while i < ts.len()
        invariant
            i <= ts.len(),
            pred == (|t: TaskRecord| t.parent_id == Some(id)),
            out@ == ts@.take(i as int).filter(pred),
        decreases ts.len() - i,
    {
        assert(ts@.take(i + 1).drop_last() =~= ts@.take(i as int));
        reveal_with_fuel(Seq::filter, 1);
        if ts[i].parent_id == Some(id) {
            out.push(ts[i].clone());
        }
        i = i + 1;
    }
    assert(ts@.take(ts.len() as int) =~= ts@);
    out
}

/// Nests tasks two levels deep: tasks without a parent, or whose parent is not in the list,
/// are the top level (in list order); every other task is placed under its parent when the
/// parent is at the top level. A task whose parent is itself nested is left out.
pub fn build_task_tree(ts: &Vec<TaskRecord>) -> (res: Vec<TaskTreeNode>)
    ensures
        is_task_tree(ts@, res@),
{
    let roots = roots_of(ts);
    let mut nodes: Vec<TaskTreeNode> = Vec::new();
    let mut k: usize = 0;
    while k < roots.len()
        invariant
            k <= roots.len(),
            roots@ == tree_roots(ts@),
            nodes.len() == k,
            forall|m: int|
                0 <= m < k ==> {
                    &&& (#[trigger] nodes@[m]).task == tree_roots(ts@)[m]
                    &&& nodes@[m].children@ == tree_children(ts@, m)
                },
        decreases roots.len() - k,
    {
        let id = roots[k].id;
        let mut taken = false;
        let mut j: usize = 0;
        while j < k
            invariant
                j <= k,
                k < roots.len(),
                id == roots@[k as int].id,
                taken == exists|q: int| 0 <= q < j && #[trigger] roots@[q].id == id,
            decreases k - j,
        {
            if roots[j].id == id {
                taken = true;
            }
            j = j + 1;
        }
        let children = if taken {
            Vec::new()
        } else {
            children_of(ts, id)
        };
        proof {
            if taken {
                assert(children@ =~= Seq::<TaskRecord>::empty());
            }
        }
        nodes.push(TaskTreeNode { task: roots[k].clone(), children });
        k = k + 1;
    }
    nodes
}

/// No two tasks of `ts` share an id (as rows of one table never do).
pub open spec fn distinct_task_ids(ts: Seq<TaskRecord>) -> bool {
    forall|i: int, j: int| 0 <= i < ts.len() && 0 <= j < ts.len() && i != j ==> ts[i].id != ts[j].id
}

proof fn lemma_filter_keeps_distinct_ids(ts: Seq<TaskRecord>, pred: spec_fn(TaskRecord) -> bool)
    requires
        distinct_task_ids(ts),
    ensures
        distinct_task_ids(ts.filter(pred)),
    decreases ts.len(),
{
    reveal_with_fuel(Seq::filter, 1);
    if ts.len() > 0 {
        let rest = ts.drop_last();
        lemma_filter_keeps_distinct_ids(rest, pred);
        let f = rest.filter(pred);
        assert forall|i: int| 0 <= i < f.len() implies f[i].id != ts.last().id by {
            assert(f.contains(f[i]));
            let a = choose|a: int| 0 <= a < rest.len() && rest[a] == f[i];
            assert(ts[a] == f[i]);
        }
    }
}

/// Where the tree puts each task. Every top-level node is a task without a parent in the list,
/// and every such task is a top-level node; every nested task names its node as parent. When
/// ids are distinct, a task whose parent is a top-level node sits under that node, and a task
/// whose parent is itself nested appears nowhere in the tree.
pub proof fn task_tree_placement(ts: Seq<TaskRecord>, nodes: Seq<TaskTreeNode>)
    requires
        is_task_tree(ts, nodes),
    ensures
        forall|k: int| 0 <= k < nodes.len() ==> is_tree_root(ts, (#[trigger] nodes[k]).task),
        forall|i: int|
            0 <= i < ts.len() && is_tree_root(ts, ts[i]) ==> exists|k: int|
                0 <= k < nodes.len() && (#[trigger] nodes[k]).task == ts[i],
        forall|k: int, c: int|
            0 <= k < nodes.len() && 0 <= c < nodes[k].children@.len() ==> (
            #[trigger] nodes[k].children@[c]).parent_id == Some(nodes[k].task.id),
        distinct_task_ids(ts) ==> forall|i: int, k: int|
            0 <= i < ts.len() && 0 <= k < nodes.len() && ts[i].parent_id == Some(
                (#[trigger] nodes[k]).task.id,
            ) ==> nodes[k].children@.contains(#[trigger] ts[i]),
        distinct_task_ids(ts) ==> forall|i: int, j: int|
            #![trigger ts[i], ts[j]]
            0 <= i < ts.len() && 0 <= j < ts.len() && ts[i].parent_id == Some(ts[j].id)
                && !is_tree_root(ts, ts[j]) ==> {
                &&& forall|k: int| 0 <= k < nodes.len() ==> (#[trigger] nodes[k]).task != ts[i]
                &&& forall|k: int|
                    0 <= k < nodes.len() ==> !(#[trigger] nodes[k]).children@.contains(ts[i])
            },
{
    let roots = tree_roots(ts);
    let rpred = |t: TaskRecord| is_tree_root(ts, t);
    assert forall|k: int| 0 <= k < nodes.len() implies is_tree_root(ts, (#[trigger] nodes[k]).task) by {
        assert(rpred(roots[k]));
    }
    assert forall|i: int| 0 <= i < ts.len() && is_tree_root(ts, ts[i]) implies exists|k: int|
        0 <= k < nodes.len() && (#[trigger] nodes[k]).task == ts[i] by {
        assert(rpred(ts[i]));
        assert(roots.contains(ts[i]));
        let k = choose|k: int| 0 <= k < roots.len() && roots[k] == ts[i];
        assert(nodes[k].task == ts[i]);
    }
    assert forall|k: int, c: int|
        0 <= k < nodes.len() && 0 <= c < nodes[k].children@.len() implies (
        #[trigger] nodes[k].children@[c]).parent_id == Some(nodes[k].task.id) by {
        let id = roots[k].id;
        let cpred = |t: TaskRecord| t.parent_id == Some(id);
        assert(nodes[k].children@ == tree_children(ts, k));
        if !(exists|j: int| 0 <= j < k && #[trigger] roots[j].id == roots[k].id) {
            assert(cpred(child_tasks(ts, id)[c]));
        }
    }
    if distinct_task_ids(ts) {
        assert forall|i: int, k: int|
            0 <= i < ts.len() && 0 <= k < nodes.len() && ts[i].parent_id == Some(
                (#[trigger] nodes[k]).task.id,
            ) implies nodes[k].children@.contains(#[trigger] ts[i]) by {
            let id = roots[k].id;
            let cpred = |t: TaskRecord| t.parent_id == Some(id);
            if exists|j: int| 0 <= j < k && #[trigger] roots[j].id == roots[k].id {
                lemma_filter_keeps_distinct_ids(ts, rpred);
            }
            assert(cpred(ts[i]));
        }
        assert forall|i: int, j: int|
            #![trigger ts[i], ts[j]]
            0 <= i < ts.len() && 0 <= j < ts.len() && ts[i].parent_id == Some(ts[j].id)
                && !is_tree_root(ts, ts[j]) implies {
            &&& forall|k: int| 0 <= k < nodes.len() ==> (#[trigger] nodes[k]).task != ts[i]
            &&& forall|k: int|
                0 <= k < nodes.len() ==> !(#[trigger] nodes[k]).children@.contains(ts[i])
        } by {
            assert(!is_tree_root(ts, ts[i]));
            assert forall|k: int| 0 <= k < nodes.len() implies (#[trigger] nodes[k]).task != ts[i] by {
                assert(rpred(roots[k]));
            }
            assert forall|k: int| 0 <= k < nodes.len() implies !(
            #[trigger] nodes[k]).children@.contains(ts[i]) by {
                if nodes[k].children@.contains(ts[i]) {
                    let c = choose|c: int|
                        0 <= c < nodes[k].children@.len() && nodes[k].children@[c] == ts[i];
                    assert(nodes[k].children@[c].parent_id == Some(nodes[k].task.id));
                    assert(rpred(roots[k]));
                    assert(roots.contains(roots[k]));
                    assert(ts.contains(roots[k]));
                    let b = choose|b: int| 0 <= b < ts.len() && ts[b] == roots[k];
                    assert(ts[b].id == ts[j].id);
                }
            }
        }
    }
}

/// In the JSON of a task tree, a top-level task carries a `"warning"` member, naming its parent,
/// exactly when it names a parent; that parent is then missing from the listed tasks.
pub proof fn orphan_nodes_carry_warning(ts: Seq<TaskRecord>, nodes: Seq<TaskTreeNode>, k: int)
    requires
        is_task_tree(ts, nodes),
        0 <= k < nodes.len(),
    ensures
        match nodes[k].task.parent_id {
            Some(p) => {
                &&& !has_task_id(ts, p)
                &&& tree_node_members(nodes[k]).last() == json_member(
                    "warning"@,
                    json_string(orphan_warning(p)),
                )
            },
            None => tree_node_members(nodes[k]) == task_members(nodes[k].task).insert(
                1,
                json_member("children"@, json_array(tasks_json(nodes[k].children@))),
            ),
        },
{
    let rpred = |t: TaskRecord| is_tree_root(ts, t);
    assert(rpred(tree_roots(ts)[k]));
}

} // verus!
