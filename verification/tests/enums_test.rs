use brain_core::types::{
    DispatchStatus, DispatchTier, EventType, Priority, ProjectStatus, SessionCategory,
    SessionEventType, Severity, TaskStatus, ViolationType,
};

#[test]
fn every_enum_text_round_trips() {
    for v in [TaskStatus::Open, TaskStatus::InProgress, TaskStatus::Done, TaskStatus::Blocked] {
        assert_eq!(v.to_string().parse::<TaskStatus>().unwrap(), v);
    }
    for v in [DispatchStatus::InProgress, DispatchStatus::Completed, DispatchStatus::Failed] {
        assert_eq!(v.to_string().parse::<DispatchStatus>().unwrap(), v);
    }
    for v in [
        EventType::Routing,
        EventType::Decision,
        EventType::Error,
        EventType::SelfCorrection,
        EventType::ApproachChange,
        EventType::ReviewFailure,
    ] {
        assert_eq!(v.to_string().parse::<EventType>().unwrap(), v);
    }
    for v in [Severity::Info, Severity::Warning, Severity::Error] {
        assert_eq!(v.to_string().parse::<Severity>().unwrap(), v);
    }
    for v in [Priority::Low, Priority::Medium, Priority::High, Priority::Critical] {
        assert_eq!(v.to_string().parse::<Priority>().unwrap(), v);
    }
    for v in [DispatchTier::T1, DispatchTier::T2, DispatchTier::T3] {
        assert_eq!(v.to_string().parse::<DispatchTier>().unwrap(), v);
    }
    for v in [
        ProjectStatus::Active,
        ProjectStatus::Paused,
        ProjectStatus::Completed,
        ProjectStatus::Archived,
    ] {
        assert_eq!(v.to_string().parse::<ProjectStatus>().unwrap(), v);
    }
}

#[test]
fn enum_parse_is_exact_and_names_the_input() {
    assert!("Open".parse::<TaskStatus>().is_err());
    assert!(" open".parse::<TaskStatus>().is_err());
    assert_eq!(
        "pending".parse::<TaskStatus>().unwrap_err(),
        "invalid status 'pending', expected one of: open, in_progress, done, blocked"
    );
    assert_eq!(
        "t4".parse::<DispatchTier>().unwrap_err(),
        "invalid dispatch tier 't4', expected one of: t1, t2, t3"
    );
    assert_eq!(
        "x".parse::<ProjectStatus>().unwrap_err(),
        "invalid project status 'x', expected one of: active, paused, completed, archived"
    );
    assert_eq!(
        "fatal".parse::<Severity>().unwrap_err(),
        "invalid severity 'fatal', expected one of: info, warning, error"
    );
}

#[test]
fn enum_texts_are_snake_case() {
    assert_eq!(EventType::SelfCorrection.to_string(), "self_correction");
    assert_eq!(DispatchStatus::InProgress.to_string(), "in_progress");
    assert_eq!(ProjectStatus::Archived.to_string(), "archived");
    assert_eq!(Priority::Critical.to_string(), "critical");
    assert_eq!(SessionCategory::Routing.to_string(), "routing");
    assert_eq!(SessionEventType::Revision.to_string(), "revision");
    assert_eq!(ViolationType::CdRequired.to_string(), "cd_required");
}
