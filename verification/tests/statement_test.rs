use brain_core::activity::{activity_list_statement, ACTIVITY_SELECT_ALL_SQL};
use brain_core::dispatch::{
    check_dispatch_found, require_dispatch, dispatch_complete_statement, dispatch_list_statement,
    dispatch_start_statement, render_dispatch_completed, render_dispatch_started, tokens_total,
    DISPATCH_SELECT_ALL_SQL,
};
use brain_core::project::{project_update_statement, project_update_status_lookup, ProjectStatusLookup};
use brain_core::scope::{scope_list_statement, VIOLATION_SELECT_ALL_SQL};
use brain_core::sql::{SqlValue, Statement};
use brain_core::task::{
    check_task_found, check_task_parent, require_task, task_create_statement, task_list_statement,
    task_update_statement, task_update_status_lookup, StatusLookup, TASK_SELECT_ALL_SQL,
};
use brain_core::types::{
    Agent, DispatchId, DispatchStatus, DispatchTier, Model, Priority, ProjectId, ProjectStatus,
    Provider, TaskId, TaskStatus, ViolationType,
};

fn values(st: &Statement) -> Vec<String> {
    st.params
        .iter()
        .map(|p| match p {
            SqlValue::Null => "NULL".to_string(),
            SqlValue::Integer(n) => format!("i{n}"),
            SqlValue::Text(s) => format!("t{s}"),
            SqlValue::RealBits(b) => format!("r{}", f64::from_bits(*b)),
        })
        .collect()
}

#[test]
fn task_list_numbers_placeholders_in_order() {
    let st = task_list_statement(Some(&TaskStatus::Open), None, None, Some(&TaskId(5)));
    assert_eq!(
        st.sql,
        format!("{TASK_SELECT_ALL_SQL} AND status = ?1 AND parent_id = ?2 ORDER BY id ASC")
    );
    assert_eq!(values(&st), vec!["topen", "i5"]);
    let all = task_list_statement(
        Some(&TaskStatus::Blocked),
        Some(&Agent("Rune".to_string())),
        Some(&ProjectId(2)),
        None,
    );
    assert_eq!(
        all.sql,
        format!("{TASK_SELECT_ALL_SQL} AND status = ?1 AND assigned_to = ?2 AND project_id = ?3 ORDER BY id ASC")
    );
    assert_eq!(values(&all), vec!["tblocked", "tRune", "i2"]);
    let none = task_list_statement(None, None, None, None);
    assert_eq!(none.sql, format!("{TASK_SELECT_ALL_SQL} ORDER BY id ASC"));
    assert!(none.params.is_empty());
}

#[test]
fn task_update_sets_only_given_fields() {
    let st = task_update_statement(TaskId(3), Some(TaskStatus::Done), None, None, Some("d".to_string()), None);
    assert_eq!(
        st.sql,
        "UPDATE tasks SET updated_at = datetime('now'), status = ?1, description = ?2, completed_at = datetime('now') WHERE id = ?3"
    );
    assert_eq!(values(&st), vec!["tdone", "td", "i3"]);
    let st = task_update_statement(TaskId(9), None, Some(Agent("Sage".to_string())), Some(Priority::Low), None, Some(ProjectId(42)));
    assert_eq!(
        st.sql,
        "UPDATE tasks SET updated_at = datetime('now'), assigned_to = ?1, priority = ?2, project_id = ?3 WHERE id = ?4"
    );
    assert_eq!(values(&st), vec!["tSage", "tlow", "i42", "i9"]);
    let st = task_update_statement(TaskId(1), Some(TaskStatus::InProgress), None, None, None, None);
    assert!(!st.sql.contains("completed_at"));
}

#[test]
fn task_create_binds_every_column() {
    let st = task_create_statement(
        "Build".to_string(),
        None,
        Some(Agent("Rune".to_string())),
        Some(Priority::High),
        Some(ProjectId(1)),
        None,
        "Puck".to_string(),
    );
    assert!(st.sql.starts_with("INSERT INTO tasks (title, description, assigned_to, priority, project_id, parent_id, created_by)"));
    assert_eq!(values(&st), vec!["tBuild", "NULL", "tRune", "thigh", "i1", "NULL", "tPuck"]);
}

#[test]
fn missing_rows_are_not_found() {
    let e = check_task_found(TaskId(999), 0).unwrap_err();
    assert!(e.to_json().contains("NOT_FOUND"));
    assert!(e.to_json().contains("no task with id 999"));
    assert!(check_task_found(TaskId(1), 1).is_ok());
    let e = check_task_parent(TaskId(9999), 0).unwrap_err();
    assert!(e.to_json().contains("no task with id 9999"));
    assert!(check_task_parent(TaskId(1), 3).is_ok());
    let e = check_dispatch_found(DispatchId(999), 0).unwrap_err();
    assert!(e.to_json().contains("dispatch not found"));
}

#[test]
fn update_status_comes_from_argument_or_store() {
    match task_update_status_lookup(TaskId(4), Some(TaskStatus::InProgress)) {
        StatusLookup::Known(s) => assert_eq!(s, "in_progress"),
        StatusLookup::Read(_) => panic!("status was given"),
    }
    match task_update_status_lookup(TaskId(4), None) {
        StatusLookup::Read(st) => {
            assert_eq!(st.sql, "SELECT status FROM tasks WHERE id = ?1");
            assert_eq!(values(&st), vec!["i4"]);
        }
        StatusLookup::Known(_) => panic!("status was not given"),
    }
    match project_update_status_lookup(ProjectId(2), None) {
        ProjectStatusLookup::Read(st) => assert_eq!(st.sql, "SELECT status FROM projects WHERE id = ?1"),
        ProjectStatusLookup::Known(_) => panic!("status was not given"),
    }
}

#[test]
fn project_update_sets_only_given_fields() {
    let st = project_update_statement(ProjectId(1), Some("renamed".to_string()), None, Some(ProjectStatus::Paused), None);
    assert_eq!(
        st.sql,
        "UPDATE projects SET updated_at = datetime('now'), name = ?1, status = ?2 WHERE id = ?3"
    );
    assert_eq!(values(&st), vec!["trenamed", "tpaused", "i1"]);
    let st = project_update_statement(ProjectId(7), None, None, None, None);
    assert_eq!(st.sql, "UPDATE projects SET updated_at = datetime('now') WHERE id = ?1");
}

#[test]
fn tokens_total_prefers_the_sum() {
    assert_eq!(tokens_total(Some(1500), Some(3200), None), Some(4700));
    assert_eq!(tokens_total(Some(2), Some(3), Some(100)), Some(5));
    assert_eq!(tokens_total(None, Some(1), Some(9)), Some(9));
    assert_eq!(tokens_total(Some(1), None, None), None);
    assert_eq!(tokens_total(None, None, None), None);
}

#[test]
fn dispatch_complete_binds_counts_as_stored() {
    let st = dispatch_complete_statement(
        DispatchId(1),
        DispatchStatus::Completed,
        Some(1500),
        Some(3200),
        None,
        Some(u64::MAX),
        Some(u32::MAX),
        Some(0.21f64.to_bits()),
    );
    assert_eq!(values(&st), vec!["tcompleted", "i1500", "i3200", "i4700", "i-1", "i-1", "r0.21", "i1"]);
    assert_eq!(render_dispatch_completed(DispatchId(1), DispatchStatus::Completed), "{\"dispatch_id\":1,\"status\":\"completed\"}");
}

#[test]
fn dispatch_start_binds_tier_fields() {
    let st = dispatch_start_statement(
        TaskId(1),
        Agent("Forge".to_string()),
        Provider::Anthropic,
        Model("sonnet".to_string()),
        Some(DispatchTier::T2),
        Some("implementation".to_string()),
        None,
        Some(11.5f64.to_bits()),
        2,
    );
    assert_eq!(values(&st), vec!["i1", "tForge", "tanthropic", "tsonnet", "i2", "tt2", "timplementation", "NULL", "r11.5"]);
    assert_eq!(render_dispatch_started(1, 2), "{\"dispatch_id\":1,\"dispatch_number\":2}");
}

#[test]
fn list_filters_and_limits() {
    let st = dispatch_list_statement(None, Some(&Agent("Rune".to_string())), None, Some(&DispatchTier::T1));
    assert_eq!(st.sql, format!("{DISPATCH_SELECT_ALL_SQL} AND agent = ?1 AND dispatch_tier = ?2 ORDER BY id DESC"));
    let st = activity_list_statement(Some("Puck"), None, Some("task"), 3);
    assert_eq!(st.sql, format!("{ACTIVITY_SELECT_ALL_SQL} AND actor = ?1 AND target_type = ?2 ORDER BY id DESC LIMIT ?3"));
    assert_eq!(values(&st), vec!["tPuck", "ttask", "i3"]);
    let st = scope_list_statement(None, Some(&ViolationType::CdRequired), 20);
    assert_eq!(st.sql, format!("{VIOLATION_SELECT_ALL_SQL} AND violation_type = ?1 ORDER BY id DESC LIMIT ?2"));
    assert_eq!(values(&st), vec!["tcd_required", "i20"]);
}

#[test]
fn task_get_not_found() {
    let result = require_task(TaskId(999), None);
    assert!(result.is_err());
    assert!(result.unwrap_err().to_json().contains("no task with id 999"));
}

#[test]
fn dispatch_get_not_found() {
    let result = require_dispatch(DispatchId(999), None);
    assert!(result.is_err());
    assert!(result.unwrap_err().to_json().contains("dispatch not found"));
}
