//! The activity log: a free-form timeline of who did what.
use vstd::prelude::*;
use vstd::string::*;
use crate::json::{
    id_json, json_array, json_array_text, json_member, json_member_text, json_object,
    json_object_text, json_opt_int, json_opt_int_text, json_opt_string, json_opt_string_text,
    json_string, json_string_text, render_id_json,
};
use crate::sql::{
    add_filter, opt_integer, opt_integer_value, opt_text, opt_text_value, query_of, statement,
    with_filter, with_opt_filter, Query, SqlValue, SqlValueView, Statement,
};
use crate::text::{decimal, decimal_string};
use crate::types::{opt_task_id, TaskId};

verus! {

/// One row of the `activity_log` table.
#[derive(Debug)]
pub struct ActivityRecord {
    pub id: i64,
    pub actor: String,
    pub action: String,
    pub task_id: Option<i64>,
    pub target_type: Option<String>,
    pub target_id: Option<i64>,
    pub summary: Option<String>,
    pub created_at: String,
}

pub open spec fn activity_members(a: ActivityRecord) -> Seq<Seq<char>> {
    seq![
        json_member("action"@, json_string(a.action@)),
        json_member("actor"@, json_string(a.actor@)),
        json_member("created_at"@, json_string(a.created_at@)),
        json_member("id"@, decimal(a.id as int)),
        json_member("summary"@, json_opt_string(a.summary.deep_view())),
        json_member("target_id"@, json_opt_int(a.target_id)),
        json_member("target_type"@, json_opt_string(a.target_type.deep_view())),
        json_member("task_id"@, json_opt_int(a.task_id)),
    ]
}

pub open spec fn activity_json(a: ActivityRecord) -> Seq<char> {
    json_object(activity_members(a))
}

pub fn render_activity(a: &ActivityRecord) -> (res: String)
    ensures
        res@ == activity_json(*a),
{
    let mut m: Vec<String> = Vec::new();
    m.push(json_member_text("action", json_string_text(a.action.as_str())));
    m.push(json_member_text("actor", json_string_text(a.actor.as_str())));
    m.push(json_member_text("created_at", json_string_text(a.created_at.as_str())));
    m.push(json_member_text("id", decimal_string(a.id)));
    m.push(json_member_text("summary", json_opt_string_text(&a.summary)));
    m.push(json_member_text("target_id", json_opt_int_text(a.target_id)));
    m.push(json_member_text("target_type", json_opt_string_text(&a.target_type)));
    m.push(json_member_text("task_id", json_opt_int_text(a.task_id)));
    assert(m.deep_view() =~= activity_members(*a));
    json_object_text(&m)
}

/// The JSON array `activity list` prints.
pub fn render_activity_list(xs: &Vec<ActivityRecord>) -> (res: String)
    ensures
        res@ == json_array(xs@.map_values(|a: ActivityRecord| activity_json(a))),
{
    let mut items: Vec<String> = Vec::new();
    let mut i: usize = 0;
    while i < xs.len()
        invariant
            i <= xs.len(),
            items@.len() == i,
            forall|j: int| 0 <= j < i ==> (#[trigger] items@[j])@ == activity_json(xs@[j]),
        decreases xs.len() - i,
    {
        items.push(render_activity(&xs[i]));
        i = i + 1;
    }
    assert(items.deep_view() =~= xs@.map_values(|a: ActivityRecord| activity_json(a)));
    json_array_text(&items)
}

pub const ACTIVITY_INSERT_SQL: &'static str = "INSERT INTO activity_log (actor, action, task_id, target_type, target_id, summary)
         VALUES (?1, ?2, ?3, ?4, ?5, ?6)
         RETURNING id";

pub const ACTIVITY_SELECT_ALL_SQL: &'static str = "SELECT id, actor, action, task_id, target_type, target_id, summary, created_at
         FROM activity_log WHERE 1=1";

/// The insert of an activity entry; the store answers with its id.
pub open spec fn activity_log_query(
    actor: Seq<char>,
    action: Seq<char>,
    task_id: Option<i64>,
    target_type: Option<Seq<char>>,
    target_id: Option<i64>,
    summary: Option<Seq<char>>,
) -> Query {
    query_of(
        ACTIVITY_INSERT_SQL@,
        seq![
            SqlValueView::Text(actor),
            SqlValueView::Text(action),
            opt_integer(task_id),
            opt_text(target_type),
            opt_integer(target_id),
            opt_text(summary),
        ],
    )
}

pub fn activity_log_statement(
    actor: String,
    action: String,
    task_id: Option<TaskId>,
    target_type: Option<String>,
    target_id: Option<i64>,
    summary: Option<String>,
) -> (res: Statement)
    ensures
        res@ == activity_log_query(
            actor@,
            action@,
            opt_task_id(task_id),
            target_type.deep_view(),
            target_id,
            summary.deep_view(),
        ),
{
    let ghost (a, b, tt, s) = (actor@, action@, target_type.deep_view(), summary.deep_view());
    let params = vec![
        SqlValue::Text(actor),
        SqlValue::Text(action),
        opt_integer_value(
            match task_id {
                Some(t) => Some(t.0),
                None => None,
            },
        ),
        opt_text_value(target_type),
        opt_integer_value(target_id),
        opt_text_value(summary),
    ];
    let st = Statement { sql: ACTIVITY_INSERT_SQL.to_owned(), params };
    assert(st@.1 =~= seq![
        SqlValueView::Text(a),
        SqlValueView::Text(b),
        opt_integer(opt_task_id(task_id)),
        opt_text(tt),
        opt_integer(target_id),
        opt_text(s),
    ]);
    st
}

/// `{"activity_id":id}`, the answer to logging an activity.
pub fn render_activity_logged(id: i64) -> (res: String)
    ensures
        res@ == id_json("activity_id"@, id),
{
    render_id_json("activity_id", id)
}

/// The selection of activity entries by the given filters, newest first, at most `limit`.
pub open spec fn activity_list_query(
    actor: Option<Seq<char>>,
    task_id: Option<i64>,
    target_type: Option<Seq<char>>,
    limit: u32,
) -> Query {
    let q0 = query_of(ACTIVITY_SELECT_ALL_SQL@, Seq::empty());
    let q1 = with_opt_filter(
        q0,
        " AND actor = ?"@,
        match actor {
            Some(a) => Some(SqlValueView::Text(a)),
            None => None,
        },
    );
    let q2 = with_opt_filter(
        q1,
        " AND task_id = ?"@,
        match task_id {
            Some(t) => Some(SqlValueView::Integer(t)),
            None => None,
        },
    );
    let q3 = with_opt_filter(
        q2,
        " AND target_type = ?"@,
        match target_type {
            Some(t) => Some(SqlValueView::Text(t)),
            None => None,
        },
    );
    with_filter(q3, " ORDER BY id DESC LIMIT ?"@, SqlValueView::Integer(limit as i64))
}

pub fn activity_list_statement(
    actor: Option<&str>,
    task_id: Option<&TaskId>,
    target_type: Option<&str>,
    limit: u32,
) -> (res: Statement)
    ensures
        res@ == activity_list_query(
            match actor {
                Some(a) => Some(a@),
                None => None,
            },
            match task_id {
                Some(t) => Some(t.0),
                None => None,
            },
            match target_type {
                Some(t) => Some(t@),
                None => None,
            },
            limit,
        ),
{
    let mut st = statement(ACTIVITY_SELECT_ALL_SQL);
    if let Some(a) = actor {
        add_filter(&mut st, " AND actor = ?", SqlValue::Text(a.to_owned()));
    }
    if let Some(t) = task_id {
        add_filter(&mut st, " AND task_id = ?", SqlValue::Integer(t.0));
    }
    if let Some(t) = target_type {
        add_filter(&mut st, " AND target_type = ?", SqlValue::Text(t.to_owned()));
    }
    add_filter(&mut st, " ORDER BY id DESC LIMIT ?", SqlValue::Integer(limit as i64));
    st
}

} // verus!
