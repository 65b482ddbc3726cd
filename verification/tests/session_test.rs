use brain_core::session::{
    parse_session_date, session_date_verdict, session_event_statement, session_list_statement,
};
use brain_core::types::{SessionCategory, SessionEventType};

#[test]
fn session_session_event_rejects_invalid_date_format() {
    let result = session_event_statement(
        "29-03-2026".to_string(),
        SessionEventType::Clarification,
        "Bad date".to_string(),
        None,
    );
    assert!(result.is_err());
    let json = result.unwrap_err().to_json();
    assert!(json.contains("CONSTRAINT_VIOLATION"));
    assert!(json.contains("YYYY-MM-DD"));
}

#[test]
fn session_event_rejects_non_date_string() {
    let result = session_event_statement(
        "today".to_string(),
        SessionEventType::Clarification,
        "Bad date".to_string(),
        None,
    );
    assert!(result.is_err());
}

#[test]
fn session_list_rejects_invalid_date_filter() {
    let result = session_list_statement(Some("2026/03/29"), None, None, 20);
    assert!(result.is_err());
    let json = result.unwrap_err().to_json();
    assert!(json.contains("CONSTRAINT_VIOLATION"));
}

#[test]
fn session_dates_in_ymd_form_are_accepted() {
    assert!(parse_session_date("2026-03-29").is_ok());
    assert!(parse_session_date("2024-02-29").is_ok());
    assert!(parse_session_date("2026-02-30").is_err());
    let e = parse_session_date("2026-13-01").unwrap_err();
    let v: serde_json::Value = serde_json::from_str(&e.to_json()).unwrap();
    assert_eq!(v["detail"], "invalid session_date '2026-13-01': expected format YYYY-MM-DD");
}

#[test]
fn session_statements_bind_date_type_and_category() {
    let st = session_event_statement(
        "2026-03-29".to_string(),
        SessionEventType::Revision,
        "Changed".to_string(),
        Some(SessionCategory::AcceptanceCriteria),
    )
    .unwrap();
    assert!(st.sql.starts_with("INSERT INTO session_events (session_date, event_type, category, description)"));
    assert_eq!(st.params.len(), 4);
    let st = session_list_statement(Some("2026-03-29"), Some(&SessionEventType::Clarification), None, 5).unwrap();
    assert!(st.sql.ends_with(" AND session_date = ?1 AND event_type = ?2 ORDER BY id DESC LIMIT ?3"));
}

#[test]
fn session_date_verdict_follows_the_parse_result() {
    assert!(session_date_verdict("anything", true).is_ok());
    let e = session_date_verdict("2026-3-9x", false).unwrap_err();
    let v: serde_json::Value = serde_json::from_str(&e.to_json()).unwrap();
    assert_eq!(v["code"], "CONSTRAINT_VIOLATION");
    assert_eq!(v["detail"], "invalid session_date '2026-3-9x': expected format YYYY-MM-DD");
}
