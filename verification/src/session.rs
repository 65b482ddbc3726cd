//! Session events: clarifications, revisions and course corrections, by day.
use vstd::prelude::*;
use vstd::string::*;
use crate::error::BrainError;
use crate::json::{
    id_json, json_array, json_array_text, json_member, json_member_text, json_object,
    json_object_text, json_opt_string, json_opt_string_text, json_string, json_string_text,
    render_id_json,
};
use crate::sql::{
    add_filter, opt_text, query_of, statement, with_filter, with_opt_filter, Query, SqlValue,
    SqlValueView, Statement,
};
use crate::text::{decimal, decimal_string};
use crate::types::{
    session_category_name, session_event_type_name, SessionCategory, SessionEventType,
};

verus! {

/// Whether chrono reads `s` as a calendar date in the format `%Y-%m-%d`.
pub uninterp spec fn parses_as_ymd_date(s: Seq<char>) -> bool;

/// `chrono::NaiveDate::parse_from_str(s, "%Y-%m-%d")`, reduced to whether it succeeded.
///
/// Claimed: the answer depends on `s` alone and is named `parses_as_ymd_date`; which texts
/// chrono accepts (field widths, signs, out-of-range days) is left unstated.
#[verifier::external_body]
fn ymd_date_parses(s: &str) -> (res: bool)
    ensures
        res == parses_as_ymd_date(s@),
{
    chrono::NaiveDate::parse_from_str(s, "%Y-%m-%d").is_ok()
}

/// The message of a rejected session date.
pub open spec fn bad_date_message(date: Seq<char>) -> Seq<char> {
    "invalid session_date '"@ + date + "': expected format YYYY-MM-DD"@
}

/// The answer to a session date check, given whether the date read as `YYYY-MM-DD`.
pub fn session_date_verdict(date: &str, parses: bool) -> (res: Result<(), BrainError>)
    ensures
        parses ==> res is Ok,
        !parses ==> (res matches Err(BrainError::ConstraintViolation { description })
            && description@ == bad_date_message(date@)),
{
    if parses {
        Ok(())
    } else {
        let mut d = "invalid session_date '".to_owned();
        d.append(date);
        d.append("': expected format YYYY-MM-DD");
        Err(BrainError::ConstraintViolation { description: d })
    }
}

/// A session date must read as `YYYY-MM-DD`; otherwise it is a constraint violation.
pub fn parse_session_date(date: &str) -> (res: Result<(), BrainError>)
    ensures
        parses_as_ymd_date(date@) ==> res is Ok,
        !parses_as_ymd_date(date@) ==> (res matches Err(BrainError::ConstraintViolation {
            description,
        }) && description@ == bad_date_message(date@)),
{
    session_date_verdict(date, ymd_date_parses(date))
}

/// One row of the `session_events` table.
#[derive(Debug)]
pub struct SessionEventRecord {
    pub id: i64,
    pub session_date: String,
    pub event_type: String,
    pub category: Option<String>,
    pub description: String,
    pub created_at: String,
}

pub open spec fn session_event_members(e: SessionEventRecord) -> Seq<Seq<char>> {
    seq![
        json_member("category"@, json_opt_string(e.category.deep_view())),
        json_member("created_at"@, json_string(e.created_at@)),
        json_member("description"@, json_string(e.description@)),
        json_member("event_type"@, json_string(e.event_type@)),
        json_member("id"@, decimal(e.id as int)),
        json_member("session_date"@, json_string(e.session_date@)),
    ]
}

pub open spec fn session_event_json(e: SessionEventRecord) -> Seq<char> {
    json_object(session_event_members(e))
}

pub fn render_session_event(e: &SessionEventRecord) -> (res: String)
    ensures
        res@ == session_event_json(*e),
{
    let mut m: Vec<String> = Vec::new();
    m.push(json_member_text("category", json_opt_string_text(&e.category)));
    m.push(json_member_text("created_at", json_string_text(e.created_at.as_str())));
    m.push(json_member_text("description", json_string_text(e.description.as_str())));
    m.push(json_member_text("event_type", json_string_text(e.event_type.as_str())));
    m.push(json_member_text("id", decimal_string(e.id)));
    m.push(json_member_text("session_date", json_string_text(e.session_date.as_str())));
    assert(m.deep_view() =~= session_event_members(*e));
    json_object_text(&m)
}

/// The JSON array `session list` prints.
pub fn render_session_list(xs: &Vec<SessionEventRecord>) -> (res: String)
    ensures
        res@ == json_array(xs@.map_values(|e: SessionEventRecord| session_event_json(e))),
{
    let mut items: Vec<String> = Vec::new();
    let mut i: usize = 0;
    while i < xs.len()
        invariant
            i <= xs.len(),
            items@.len() == i,
            forall|j: int| 0 <= j < i ==> (#[trigger] items@[j])@ == session_event_json(xs@[j]),
        decreases xs.len() - i,
    {
        items.push(render_session_event(&xs[i]));
        i = i + 1;
    }
    assert(items.deep_view() =~= xs@.map_values(|e: SessionEventRecord| session_event_json(e)));
    json_array_text(&items)
}

pub const SESSION_INSERT_SQL: &'static str = "INSERT INTO session_events (session_date, event_type, category, description)
         VALUES (?1, ?2, ?3, ?4)
         RETURNING id";

pub const SESSION_SELECT_ALL_SQL: &'static str = "SELECT id, session_date, event_type, category, description, created_at
         FROM session_events WHERE 1=1";

/// The insert of a session event; the store answers with its id.
pub open spec fn session_event_query(
    session_date: Seq<char>,
    event_type: SessionEventType,
    description: Seq<char>,
    category: Option<SessionCategory>,
) -> Query {
    query_of(
        SESSION_INSERT_SQL@,
        seq![
            SqlValueView::Text(session_date),
            SqlValueView::Text(session_event_type_name(event_type)),
            opt_text(
                match category {
                    Some(c) => Some(session_category_name(c)),
                    None => None,
                },
            ),
            SqlValueView::Text(description),
        ],
    )
}

/// A session event binds each argument to the column the insert names at its place:
/// `(session_date, event_type, category, description)` take `?1` to `?4`; the category is
/// `NULL` exactly when none is given.
pub proof fn session_event_binds_each_column(
    session_date: Seq<char>,
    event_type: SessionEventType,
    description: Seq<char>,
    category: Option<SessionCategory>,
)
    ensures
        ({
            let q = session_event_query(session_date, event_type, description, category);
            &&& q.0 == SESSION_INSERT_SQL@
            &&& q.1.len() == 4
            &&& q.1[0] == SqlValueView::Text(session_date)
            &&& q.1[1] == SqlValueView::Text(session_event_type_name(event_type))
            &&& (q.1[2] is Null <==> category is None)
            &&& (category matches Some(c) ==> q.1[2] == SqlValueView::Text(
                session_category_name(c),
            ))
            &&& q.1[3] == SqlValueView::Text(description)
        }),
{
}

/// The insert of a session event, once its date is checked.
pub fn session_event_statement(
    session_date: String,
    event_type: SessionEventType,
    description: String,
    category: Option<SessionCategory>,
) -> (res: Result<Statement, BrainError>)
    ensures
        parses_as_ymd_date(session_date@) ==> (res matches Ok(st) && st@ == session_event_query(
            session_date@,
            event_type,
            description@,
            category,
        )),
        !parses_as_ymd_date(session_date@) ==> (res matches Err(BrainError::ConstraintViolation {
            description: m,
        }) && m@ == bad_date_message(session_date@)),
{
    match parse_session_date(session_date.as_str()) {
        Err(e) => Err(e),
        Ok(()) => {
            let ghost (sd, d) = (session_date@, description@);
            let cat = match category {
                Some(c) => SqlValue::Text(c.to_string()),
                None => SqlValue::Null,
            };
            let params = vec![
                SqlValue::Text(session_date),
                SqlValue::Text(event_type.to_string()),
                cat,
                SqlValue::Text(description),
            ];
            let st = Statement { sql: SESSION_INSERT_SQL.to_owned(), params };
            assert(st@.1 =~= seq![
                SqlValueView::Text(sd),
                SqlValueView::Text(session_event_type_name(event_type)),
                opt_text(
                    match category {
                        Some(c) => Some(session_category_name(c)),
                        None => None,
                    },
                ),
                SqlValueView::Text(d),
            ]);
            Ok(st)
        },
    }
}

/// `{"event_id":id}`, the answer to logging a session event.
pub fn render_session_event_logged(id: i64) -> (res: String)
    ensures
        res@ == id_json("event_id"@, id),
{
    render_id_json("event_id", id)
}

/// The selection of session events by the given filters, newest first, at most `limit`.
pub open spec fn session_list_query(
    date: Option<Seq<char>>,
    event_type: Option<SessionEventType>,
    category: Option<SessionCategory>,
    limit: u32,
) -> Query {
    let q0 = query_of(SESSION_SELECT_ALL_SQL@, Seq::empty());
    let q1 = with_opt_filter(
        q0,
        " AND session_date = ?"@,
        match date {
            Some(d) => Some(SqlValueView::Text(d)),
            None => None,
        },
    );
    let q2 = with_opt_filter(
        q1,
        " AND event_type = ?"@,
        match event_type {
            Some(e) => Some(SqlValueView::Text(session_event_type_name(e))),
            None => None,
        },
    );
    let q3 = with_opt_filter(
        q2,
        " AND category = ?"@,
        match category {
            Some(c) => Some(SqlValueView::Text(session_category_name(c))),
            None => None,
        },
    );
    with_filter(q3, " ORDER BY id DESC LIMIT ?"@, SqlValueView::Integer(limit as i64))
}

/// The selection of session events, once a date filter, if any, is checked.
pub fn session_list_statement(
    date: Option<&str>,
    event_type: Option<&SessionEventType>,
    category: Option<&SessionCategory>,
    limit: u32,
) -> (res: Result<Statement, BrainError>)
    ensures
        match date {
            Some(d) => !parses_as_ymd_date(d@),
            None => false,
        } ==> (res matches Err(BrainError::ConstraintViolation { description: m }) && m@
            == bad_date_message(date.unwrap()@)),
        match date {
            Some(d) => parses_as_ymd_date(d@),
            None => true,
        } ==> (res matches Ok(st) && st@ == session_list_query(
            match date {
                Some(d) => Some(d@),
                None => None,
            },
            match event_type {
                Some(e) => Some(*e),
                None => None,
            },
            match category {
                Some(c) => Some(*c),
                None => None,
            },
            limit,
        )),
{
    if let Some(d) = date {
        if let Err(e) = parse_session_date(d) {
            return Err(e);
        }
    }
    let mut st = statement(SESSION_SELECT_ALL_SQL);
    if let Some(d) = date {
        add_filter(&mut st, " AND session_date = ?", SqlValue::Text(d.to_owned()));
    }
    if let Some(e) = event_type {
        add_filter(&mut st, " AND event_type = ?", SqlValue::Text(e.to_string()));
    }
    if let Some(c) = category {
        add_filter(&mut st, " AND category = ?", SqlValue::Text(c.to_string()));
    }
    add_filter(&mut st, " ORDER BY id DESC LIMIT ?", SqlValue::Integer(limit as i64));
    Ok(st)
}

} // verus!
