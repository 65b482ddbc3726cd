use brain_core::types::{
    Agent, DispatchId, DispatchStatus, EventType, Model, Priority, ProjectId, Provider,
    SessionCategory, SessionEventType, Severity, TaskId, TaskStatus, ViolationType,
};

#[test]
fn task_id_parses_positive_integer() {
    assert_eq!("42".parse::<TaskId>().unwrap(), TaskId(42));
}

#[test]
fn task_id_rejects_zero() {
    assert!("0".parse::<TaskId>().is_err());
}

#[test]
fn task_id_rejects_negative() {
    assert!("-1".parse::<TaskId>().is_err());
}

#[test]
fn task_id_rejects_non_numeric() {
    assert!("abc".parse::<TaskId>().is_err());
}

#[test]
fn dispatch_id_parses_positive_integer() {
    assert_eq!("7".parse::<DispatchId>().unwrap(), DispatchId(7));
}

#[test]
fn dispatch_id_rejects_zero() {
    assert!("0".parse::<DispatchId>().is_err());
}

#[test]
fn project_id_parses_positive_integer() {
    assert_eq!("1".parse::<ProjectId>().unwrap(), ProjectId(1));
}

#[test]
fn project_id_rejects_zero() {
    assert!("0".parse::<ProjectId>().is_err());
}

#[test]
fn agent_parses_non_empty_string() {
    assert_eq!("Rune".parse::<Agent>().unwrap(), Agent("Rune".to_string()));
}

#[test]
fn agent_rejects_empty_string() {
    assert!("".parse::<Agent>().is_err());
}

#[test]
fn agent_trims_whitespace() {
    assert_eq!(
        "  Rune  ".parse::<Agent>().unwrap(),
        Agent("Rune".to_string())
    );
}

#[test]
fn agent_rejects_whitespace_only() {
    assert!("   ".parse::<Agent>().is_err());
}

#[test]
fn model_parses_non_empty_string() {
    assert_eq!(
        "gemini-2.0-flash".parse::<Model>().unwrap(),
        Model("gemini-2.0-flash".to_string())
    );
}

#[test]
fn model_rejects_empty_string() {
    assert!("".parse::<Model>().is_err());
}

#[test]
fn provider_parses_known_variants_case_insensitive() {
    assert_eq!(
        "anthropic".parse::<Provider>().unwrap(),
        Provider::Anthropic
    );
    assert_eq!("GOOGLE".parse::<Provider>().unwrap(), Provider::Google);
    assert_eq!("OpenAI".parse::<Provider>().unwrap(), Provider::OpenAi);
}

#[test]
fn provider_parses_unknown_as_other() {
    assert_eq!(
        "deepseek".parse::<Provider>().unwrap(),
        Provider::Other("deepseek".to_string())
    );
}

#[test]
fn provider_rejects_empty() {
    assert!("".parse::<Provider>().is_err());
}

#[test]
fn task_status_parses_snake_case() {
    assert_eq!("open".parse::<TaskStatus>().unwrap(), TaskStatus::Open);
    assert_eq!(
        "in_progress".parse::<TaskStatus>().unwrap(),
        TaskStatus::InProgress
    );
    assert_eq!("done".parse::<TaskStatus>().unwrap(), TaskStatus::Done);
    assert_eq!(
        "blocked".parse::<TaskStatus>().unwrap(),
        TaskStatus::Blocked
    );
}

#[test]
fn task_status_rejects_unknown() {
    assert!("pending".parse::<TaskStatus>().is_err());
}

#[test]
fn dispatch_status_parses_snake_case() {
    assert_eq!(
        "in_progress".parse::<DispatchStatus>().unwrap(),
        DispatchStatus::InProgress
    );
    assert_eq!(
        "completed".parse::<DispatchStatus>().unwrap(),
        DispatchStatus::Completed
    );
    assert_eq!(
        "failed".parse::<DispatchStatus>().unwrap(),
        DispatchStatus::Failed
    );
}

#[test]
fn event_type_parses_snake_case() {
    assert_eq!("routing".parse::<EventType>().unwrap(), EventType::Routing);
    assert_eq!(
        "decision".parse::<EventType>().unwrap(),
        EventType::Decision
    );
    assert_eq!("error".parse::<EventType>().unwrap(), EventType::Error);
    assert_eq!(
        "self_correction".parse::<EventType>().unwrap(),
        EventType::SelfCorrection
    );
    assert_eq!(
        "approach_change".parse::<EventType>().unwrap(),
        EventType::ApproachChange
    );
    assert_eq!(
        "review_failure".parse::<EventType>().unwrap(),
        EventType::ReviewFailure
    );
}

#[test]
fn severity_parses_lowercase() {
    assert_eq!("info".parse::<Severity>().unwrap(), Severity::Info);
    assert_eq!("warning".parse::<Severity>().unwrap(), Severity::Warning);
    assert_eq!("error".parse::<Severity>().unwrap(), Severity::Error);
}

#[test]
fn priority_parses_lowercase() {
    assert_eq!("low".parse::<Priority>().unwrap(), Priority::Low);
    assert_eq!("medium".parse::<Priority>().unwrap(), Priority::Medium);
    assert_eq!("high".parse::<Priority>().unwrap(), Priority::High);
    assert_eq!("critical".parse::<Priority>().unwrap(), Priority::Critical);
}

#[test]
fn session_event_type_parses_snake_case() {
    assert_eq!(
        "clarification".parse::<SessionEventType>().unwrap(),
        SessionEventType::Clarification
    );
    assert_eq!(
        "revision".parse::<SessionEventType>().unwrap(),
        SessionEventType::Revision
    );
    assert_eq!(
        "course_correction".parse::<SessionEventType>().unwrap(),
        SessionEventType::CourseCorrection
    );
}

#[test]
fn session_event_type_rejects_unknown() {
    assert!("unknown_type".parse::<SessionEventType>().is_err());
}

#[test]
fn session_event_type_displays_snake_case() {
    assert_eq!(
        SessionEventType::CourseCorrection.to_string(),
        "course_correction"
    );
    assert_eq!(SessionEventType::Clarification.to_string(), "clarification");
}

#[test]
fn session_category_parses_snake_case() {
    assert_eq!(
        "scope".parse::<SessionCategory>().unwrap(),
        SessionCategory::Scope
    );
    assert_eq!(
        "acceptance_criteria".parse::<SessionCategory>().unwrap(),
        SessionCategory::AcceptanceCriteria
    );
    assert_eq!(
        "context".parse::<SessionCategory>().unwrap(),
        SessionCategory::Context
    );
    assert_eq!(
        "routing".parse::<SessionCategory>().unwrap(),
        SessionCategory::Routing
    );
    assert_eq!(
        "priority".parse::<SessionCategory>().unwrap(),
        SessionCategory::Priority
    );
}

#[test]
fn session_category_rejects_unknown() {
    assert!("unknown_cat".parse::<SessionCategory>().is_err());
}

#[test]
fn session_category_displays_snake_case() {
    assert_eq!(
        SessionCategory::AcceptanceCriteria.to_string(),
        "acceptance_criteria"
    );
}

#[test]
fn violation_type_parses_snake_case() {
    assert_eq!(
        "scope".parse::<ViolationType>().unwrap(),
        ViolationType::Scope
    );
    assert_eq!(
        "permission_denied".parse::<ViolationType>().unwrap(),
        ViolationType::PermissionDenied
    );
    assert_eq!(
        "cd_required".parse::<ViolationType>().unwrap(),
        ViolationType::CdRequired
    );
}

#[test]
fn violation_type_rejects_unknown() {
    assert!("unknown_type".parse::<ViolationType>().is_err());
}

#[test]
fn violation_type_displays_snake_case() {
    assert_eq!(ViolationType::Scope.to_string(), "scope");
    assert_eq!(
        ViolationType::PermissionDenied.to_string(),
        "permission_denied"
    );
    assert_eq!(ViolationType::CdRequired.to_string(), "cd_required");
}
