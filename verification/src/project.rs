//! Projects: a short registry of names, descriptions, paths and lifecycle states.
use vstd::prelude::*;
use vstd::string::*;
use crate::error::BrainError;
use crate::json::{
    id_json, json_array, json_array_text, json_member, json_member_text, json_object,
    json_object_text, json_opt_string, json_opt_string_text, json_string, json_string_text,
    render_id_json,
};
use crate::sql::{
    add_filter, opt_text, opt_text_value, push_set, query_of, statement, with_opt_filter, with_set,
    Query, SqlValue, SqlValueView, Statement,
};
use crate::text::{decimal, decimal_string, joined, push_decimal, push_joined};
use crate::types::{project_status_name, ProjectId, ProjectStatus};

verus! {

/// One row of the `projects` table.
#[derive(Debug)]
pub struct ProjectRecord {
    pub id: i64,
    pub name: String,
    pub description: Option<String>,
    pub path: Option<String>,
    pub status: String,
    pub created_at: String,
    pub updated_at: String,
}

pub open spec fn project_members(p: ProjectRecord) -> Seq<Seq<char>> {
    seq![
        json_member("created_at"@, json_string(p.created_at@)),
        json_member("description"@, json_opt_string(p.description.deep_view())),
        json_member("id"@, decimal(p.id as int)),
        json_member("name"@, json_string(p.name@)),
        json_member("path"@, json_opt_string(p.path.deep_view())),
        json_member("status"@, json_string(p.status@)),
        json_member("updated_at"@, json_string(p.updated_at@)),
    ]
}

pub open spec fn project_json(p: ProjectRecord) -> Seq<char> {
    json_object(project_members(p))
}

pub fn render_project(p: &ProjectRecord) -> (res: String)
    ensures
        res@ == project_json(*p),
{
    let mut m: Vec<String> = Vec::new();
    m.push(json_member_text("created_at", json_string_text(p.created_at.as_str())));
    m.push(json_member_text("description", json_opt_string_text(&p.description)));
    m.push(json_member_text("id", decimal_string(p.id)));
    m.push(json_member_text("name", json_string_text(p.name.as_str())));
    m.push(json_member_text("path", json_opt_string_text(&p.path)));
    m.push(json_member_text("status", json_string_text(p.status.as_str())));
    m.push(json_member_text("updated_at", json_string_text(p.updated_at.as_str())));
    assert(m.deep_view() =~= project_members(*p));
    json_object_text(&m)
}

/// The JSON array `project list` prints.
pub fn render_project_list(ps: &Vec<ProjectRecord>) -> (res: String)
    ensures
        res@ == json_array(ps@.map_values(|p: ProjectRecord| project_json(p))),
{
    let mut items: Vec<String> = Vec::new();
    let mut i: usize = 0;
    while i < ps.len()
        invariant
            i <= ps.len(),
            items@.len() == i,
            forall|j: int| 0 <= j < i ==> (#[trigger] items@[j])@ == project_json(ps@[j]),
        decreases ps.len() - i,
    {
        items.push(render_project(&ps[i]));
        i = i + 1;
    }
    assert(items.deep_view() =~= ps@.map_values(|p: ProjectRecord| project_json(p)));
    json_array_text(&items)
}

pub const PROJECT_INSERT_SQL: &'static str = "INSERT INTO projects (name, description, path) VALUES (?1, ?2, ?3) RETURNING id";

pub const PROJECT_SELECT_ALL_SQL: &'static str = "SELECT id, name, description, path, status, created_at, updated_at
         FROM projects WHERE 1=1";

pub const PROJECT_STATUS_BY_ID_SQL: &'static str = "SELECT status FROM projects WHERE id = ?1";

/// The insert of a new project (status `active`); the store answers with its id.
pub open spec fn project_create_query(
    name: Seq<char>,
    description: Option<Seq<char>>,
    path: Option<Seq<char>>,
) -> Query {
    query_of(
        PROJECT_INSERT_SQL@,
        seq![SqlValueView::Text(name), opt_text(description), opt_text(path)],
    )
}

pub fn project_create_statement(
    name: String,
    description: Option<String>,
    path: Option<String>,
) -> (res: Statement)
    ensures
        res@ == project_create_query(name@, description.deep_view(), path.deep_view()),
{
    let ghost (n, d, p) = (name@, description.deep_view(), path.deep_view());
    let params = vec![SqlValue::Text(name), opt_text_value(description), opt_text_value(path)];
    let st = Statement { sql: PROJECT_INSERT_SQL.to_owned(), params };
    assert(st@.1 =~= seq![SqlValueView::Text(n), opt_text(d), opt_text(p)]);
    st
}

/// `{"project_id":id}`, the answer to creating a project.
pub fn render_project_created(id: i64) -> (res: String)
    ensures
        res@ == id_json("project_id"@, id),
{
    render_id_json("project_id", id)
}

/// The selection of projects, optionally by status, newest first.
pub open spec fn project_list_query(status: Option<ProjectStatus>) -> Query {
    let q0 = query_of(PROJECT_SELECT_ALL_SQL@, Seq::empty());
    let q1 = with_opt_filter(
        q0,
        " AND status = ?"@,
        match status {
            Some(s) => Some(SqlValueView::Text(project_status_name(s))),
            None => None,
        },
    );
    (q1.0 + " ORDER BY id DESC"@, q1.1)
}

pub fn project_list_statement(status: Option<&ProjectStatus>) -> (res: Statement)
    ensures
        res@ == project_list_query(
            match status {
                Some(s) => Some(*s),
                None => None,
            },
        ),
{
    let mut st = statement(PROJECT_SELECT_ALL_SQL);
    if let Some(s) = status {
        add_filter(&mut st, " AND status = ?", SqlValue::Text(s.to_string()));
    }
    st.sql.append(" ORDER BY id DESC");
    st
}

/// The update of a project: `updated_at` always, and each given field; fields not given are
/// left as they are.
pub open spec fn project_update_query(
    id: i64,
    name: Option<Seq<char>>,
    description: Option<Seq<char>>,
    status: Option<ProjectStatus>,
    path: Option<Seq<char>>,
) -> Query {
    let text = |o: Option<Seq<char>>|
        match o {
            Some(s) => Some(SqlValueView::Text(s)),
            None => None,
        };
    let s0 = (seq!["updated_at = datetime('now')"@], Seq::<SqlValueView>::empty());
    let s1 = with_set(s0, "name = ?"@, text(name));
    let s2 = with_set(s1, "description = ?"@, text(description));
    let s3 = with_set(
        s2,
        "status = ?"@,
        match status {
            Some(s) => Some(SqlValueView::Text(project_status_name(s))),
            None => None,
        },
    );
    let s4 = with_set(s3, "path = ?"@, text(path));
    let params = s4.1.push(SqlValueView::Integer(id));
    (
        "UPDATE projects SET "@ + joined(s4.0, ", "@) + " WHERE id = ?"@ + decimal(
            params.len() as int,
        ),
        params,
    )
}

pub fn project_update_statement(
    id: ProjectId,
    name: Option<String>,
    description: Option<String>,
    status: Option<ProjectStatus>,
    path: Option<String>,
) -> (res: Statement)
    ensures
        res@ == project_update_query(
            id.0,
            name.deep_view(),
            description.deep_view(),
            status,
            path.deep_view(),
        ),
{
    let mut sets: Vec<String> = Vec::new();
    sets.push("updated_at = datetime('now')".to_owned());
    let mut params: Vec<SqlValue> = Vec::new();
    assert(sets.deep_view() =~= seq!["updated_at = datetime('now')"@]);
    assert(params@.map_values(|p: SqlValue| p@) =~= Seq::<SqlValueView>::empty());
    if let Some(n) = name {
        push_set(&mut sets, &mut params, "name = ?", SqlValue::Text(n));
    }
    if let Some(d) = description {
        push_set(&mut sets, &mut params, "description = ?", SqlValue::Text(d));
    }
    if let Some(s) = status {
        push_set(&mut sets, &mut params, "status = ?", SqlValue::Text(s.to_string()));
    }
    if let Some(p) = path {
        push_set(&mut sets, &mut params, "path = ?", SqlValue::Text(p));
    }
    let ghost before = params@.map_values(|p: SqlValue| p@);
    params.push(SqlValue::Integer(id.0));
    assert(params@.map_values(|p: SqlValue| p@) =~= before.push(SqlValueView::Integer(id.0)));
    let mut sql = "UPDATE projects SET ".to_owned();
    push_joined(&mut sql, &sets, ", ");
    sql.append(" WHERE id = ?");
    push_decimal(&mut sql, params.len() as i64);
    Statement { sql, params }
}

/// After the update: nothing changed means there is no project with that id.
pub fn check_project_found(id: ProjectId, matched: usize) -> (res: Result<(), BrainError>)
    ensures
        matched == 0 ==> res == Err::<(), BrainError>(
            BrainError::NotFound { entity: "project", id: id.0 },
        ),
        matched > 0 ==> res is Ok,
{
    if matched == 0 {
        Err(BrainError::NotFound { entity: "project", id: id.0 })
    } else {
        Ok(())
    }
}

/// What the update reports as the project's status: the status it set, or else the status
/// read back from the store with the given statement.
pub enum ProjectStatusLookup {
    Known(String),
    Read(Statement),
}

pub fn project_update_status_lookup(id: ProjectId, status: Option<ProjectStatus>) -> (res:
    ProjectStatusLookup)
    ensures
        match status {
            Some(s) => res matches ProjectStatusLookup::Known(t) && t@ == project_status_name(s),
            None => res matches ProjectStatusLookup::Read(st) && st@ == query_of(
                PROJECT_STATUS_BY_ID_SQL@,
                seq![SqlValueView::Integer(id.0)],
            ),
        },
{
    match status {
        Some(s) => ProjectStatusLookup::Known(s.to_string()),
        None => {
            let mut st = statement(PROJECT_STATUS_BY_ID_SQL);
            st.params.push(SqlValue::Integer(id.0));
            assert(st@.1 =~= seq![SqlValueView::Integer(id.0)]);
            ProjectStatusLookup::Read(st)
        },
    }
}

/// `{"project_id":..,"status":..}`, the answer to updating a project.
pub open spec fn project_updated_json(id: i64, status: Seq<char>) -> Seq<char> {
    json_object(
        seq![json_member("project_id"@, decimal(id as int)), json_member("status"@, json_string(status))],
    )
}

pub fn render_project_updated(id: ProjectId, status: &str) -> (res: String)
    ensures
        res@ == project_updated_json(id.0, status@),
{
    let mut m: Vec<String> = Vec::new();
    m.push(json_member_text("project_id", decimal_string(id.0)));
    m.push(json_member_text("status", json_string_text(status)));
    assert(m.deep_view() =~= seq![
        json_member("project_id"@, decimal(id.0 as int)),
        json_member("status"@, json_string(status@)),
    ]);
    json_object_text(&m)
}

} // verus!
