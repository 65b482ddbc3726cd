//! Scope violations: commands an agent attempted outside what it was allowed.
use vstd::prelude::*;
use vstd::string::*;
use crate::json::{
    id_json, json_array, json_array_text, json_member, json_member_text, json_object,
    json_object_text, json_opt_int, json_opt_int_text, json_opt_string, json_opt_string_text,
    json_string, json_string_text, render_id_json,
};
use crate::sql::{
    add_filter, opt_integer, opt_integer_value, opt_text, opt_text_value, query_of, statement,
    with_filter, with_opt_filter, Query, SqlValue, SqlValueView, Statement,
};
use crate::text::{decimal, decimal_string};
use crate::types::{
    opt_dispatch_id, opt_task_id, violation_type_name, Agent, DispatchId, TaskId, ViolationType,
};

verus! {

/// One row of the `scope_violations` table; `created_at` is in milliseconds since the epoch.
#[derive(Debug)]
pub struct ViolationRecord {
    pub id: i64,
    pub agent: String,
    pub task_id: Option<i64>,
    pub dispatch_id: Option<i64>,
    pub violation_type: String,
    pub command_attempted: String,
    pub context: Option<String>,
    pub reason: String,
    pub resolution: Option<String>,
    pub created_at: i64,
}

pub open spec fn violation_members(v: ViolationRecord) -> Seq<Seq<char>> {
    seq![
        json_member("agent"@, json_string(v.agent@)),
        json_member("command_attempted"@, json_string(v.command_attempted@)),
        json_member("context"@, json_opt_string(v.context.deep_view())),
        json_member("created_at"@, decimal(v.created_at as int)),
        json_member("dispatch_id"@, json_opt_int(v.dispatch_id)),
        json_member("id"@, decimal(v.id as int)),
        json_member("reason"@, json_string(v.reason@)),
        json_member("resolution"@, json_opt_string(v.resolution.deep_view())),
        json_member("task_id"@, json_opt_int(v.task_id)),
        json_member("violation_type"@, json_string(v.violation_type@)),
    ]
}

pub open spec fn violation_json(v: ViolationRecord) -> Seq<char> {
    json_object(violation_members(v))
}

pub fn render_violation(v: &ViolationRecord) -> (res: String)
    ensures
        res@ == violation_json(*v),
{
    let mut m: Vec<String> = Vec::new();
    m.push(json_member_text("agent", json_string_text(v.agent.as_str())));
    m.push(json_member_text("command_attempted", json_string_text(v.command_attempted.as_str())));
    m.push(json_member_text("context", json_opt_string_text(&v.context)));
    m.push(json_member_text("created_at", decimal_string(v.created_at)));
    m.push(json_member_text("dispatch_id", json_opt_int_text(v.dispatch_id)));
    m.push(json_member_text("id", decimal_string(v.id)));
    m.push(json_member_text("reason", json_string_text(v.reason.as_str())));
    m.push(json_member_text("resolution", json_opt_string_text(&v.resolution)));
    m.push(json_member_text("task_id", json_opt_int_text(v.task_id)));
    m.push(json_member_text("violation_type", json_string_text(v.violation_type.as_str())));
    assert(m.deep_view() =~= violation_members(*v));
    json_object_text(&m)
}

/// The JSON array `scope list` prints.
pub fn render_violation_list(xs: &Vec<ViolationRecord>) -> (res: String)
    ensures
        res@ == json_array(xs@.map_values(|v: ViolationRecord| violation_json(v))),
{
    let mut items: Vec<String> = Vec::new();
    let mut i: usize = 0;
    while i < xs.len()
        invariant
            i <= xs.len(),
            items@.len() == i,
            forall|j: int| 0 <= j < i ==> (#[trigger] items@[j])@ == violation_json(xs@[j]),
        decreases xs.len() - i,
    {
        items.push(render_violation(&xs[i]));
        i = i + 1;
    }
    assert(items.deep_view() =~= xs@.map_values(|v: ViolationRecord| violation_json(v)));
    json_array_text(&items)
}

pub const VIOLATION_INSERT_SQL: &'static str = "INSERT INTO scope_violations
             (agent, task_id, dispatch_id, violation_type, command_attempted, context, reason, resolution, created_at)
         VALUES (?1, ?2, ?3, ?4, ?5, ?6, ?7, ?8, ?9)
         RETURNING id";

pub const VIOLATION_SELECT_ALL_SQL: &'static str = "SELECT id, agent, task_id, dispatch_id, violation_type, command_attempted, context, reason, resolution, created_at
         FROM scope_violations WHERE 1=1";

/// The insert of a violation stamped `created_at` (milliseconds since the epoch).
pub open spec fn scope_log_query(
    agent: Seq<char>,
    task_id: Option<i64>,
    dispatch_id: Option<i64>,
    violation_type: ViolationType,
    command_attempted: Seq<char>,
    context: Option<Seq<char>>,
    reason: Seq<char>,
    resolution: Option<Seq<char>>,
    created_at: i64,
) -> Query {
    query_of(
        VIOLATION_INSERT_SQL@,
        seq![
            SqlValueView::Text(agent),
            opt_integer(task_id),
            opt_integer(dispatch_id),
            SqlValueView::Text(violation_type_name(violation_type)),
            SqlValueView::Text(command_attempted),
            opt_text(context),
            SqlValueView::Text(reason),
            opt_text(resolution),
            SqlValueView::Integer(created_at),
        ],
    )
}

pub fn scope_log_statement(
    agent: Agent,
    task_id: Option<TaskId>,
    dispatch_id: Option<DispatchId>,
    violation_type: ViolationType,
    command_attempted: String,
    context: Option<String>,
    reason: String,
    resolution: Option<String>,
    created_at: i64,
) -> (res: Statement)
    ensures
        res@ == scope_log_query(
            agent@,
            opt_task_id(task_id),
            opt_dispatch_id(dispatch_id),
            violation_type,
            command_attempted@,
            context.deep_view(),
            reason@,
            resolution.deep_view(),
            created_at,
        ),
{
    let ghost (a, c, x, r, s) = (
        agent@,
        command_attempted@,
        context.deep_view(),
        reason@,
        resolution.deep_view(),
    );
    let params = vec![
        SqlValue::Text(agent.to_string()),
        opt_integer_value(
            match task_id {
                Some(t) => Some(t.0),
                None => None,
            },
        ),
        opt_integer_value(
            match dispatch_id {
                Some(d) => Some(d.0),
                None => None,
            },
        ),
        SqlValue::Text(violation_type.to_string()),
        SqlValue::Text(command_attempted),
        opt_text_value(context),
        SqlValue::Text(reason),
        opt_text_value(resolution),
        SqlValue::Integer(created_at),
    ];
    let st = Statement { sql: VIOLATION_INSERT_SQL.to_owned(), params };
    assert(st@.1 =~= seq![
        SqlValueView::Text(a),
        opt_integer(opt_task_id(task_id)),
        opt_integer(opt_dispatch_id(dispatch_id)),
        SqlValueView::Text(violation_type_name(violation_type)),
        SqlValueView::Text(c),
        opt_text(x),
        SqlValueView::Text(r),
        opt_text(s),
        SqlValueView::Integer(created_at),
    ]);
    st
}

/// `{"violation_id":id}`, the answer to logging a violation.
pub fn render_violation_logged(id: i64) -> (res: String)
    ensures
        res@ == id_json("violation_id"@, id),
{
    render_id_json("violation_id", id)
}

/// The selection of violations by agent and type, newest first, at most `limit`.
pub open spec fn scope_list_query(
    agent: Option<Seq<char>>,
    violation_type: Option<ViolationType>,
    limit: u32,
) -> Query {
    let q0 = query_of(VIOLATION_SELECT_ALL_SQL@, Seq::empty());
    let q1 = with_opt_filter(
        q0,
        " AND agent = ?"@,
        match agent {
            Some(a) => Some(SqlValueView::Text(a)),
            None => None,
        },
    );
    let q2 = with_opt_filter(
        q1,
        " AND violation_type = ?"@,
        match violation_type {
            Some(v) => Some(SqlValueView::Text(violation_type_name(v))),
            None => None,
        },
    );
    with_filter(q2, " ORDER BY id DESC LIMIT ?"@, SqlValueView::Integer(limit as i64))
}

pub fn scope_list_statement(
    agent: Option<&Agent>,
    violation_type: Option<&ViolationType>,
    limit: u32,
) -> (res: Statement)
    ensures
        res@ == scope_list_query(
            match agent {
                Some(a) => Some(a@),
                None => None,
            },
            match violation_type {
                Some(v) => Some(*v),
                None => None,
            },
            limit,
        ),
{
    let mut st = statement(VIOLATION_SELECT_ALL_SQL);
    if let Some(a) = agent {
        add_filter(&mut st, " AND agent = ?", SqlValue::Text(a.to_string()));
    }
    if let Some(v) = violation_type {
        add_filter(&mut st, " AND violation_type = ?", SqlValue::Text(v.to_string()));
    }
    add_filter(&mut st, " ORDER BY id DESC LIMIT ?", SqlValue::Integer(limit as i64));
    st
}

} // verus!
