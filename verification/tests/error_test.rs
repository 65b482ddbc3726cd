use brain_core::error::BrainError;

#[test]
fn not_found_serializes_to_json() {
    let err = BrainError::NotFound {
        entity: "task",
        id: 99,
    };
    let json = err.to_json();
    let v: serde_json::Value = serde_json::from_str(&json).unwrap();
    assert_eq!(v["error"], "task not found");
    assert_eq!(v["code"], "NOT_FOUND");
    assert_eq!(v["detail"], "no task with id 99");
}

#[test]
fn constraint_violation_serializes_to_json() {
    let err = BrainError::ConstraintViolation {
        description: "foreign key violation on project_id".to_string(),
    };
    let json = err.to_json();
    let v: serde_json::Value = serde_json::from_str(&json).unwrap();
    assert_eq!(v["error"], "constraint violation");
    assert_eq!(v["code"], "CONSTRAINT_VIOLATION");
    assert_eq!(v["detail"], "foreign key violation on project_id");
}

#[test]
fn connection_failed_serializes_to_json() {
    let err = BrainError::ConnectionFailed {
        path: "/bad/path.db".to_string(),
        message: "unable to open database file".to_string(),
    };
    let json = err.to_json();
    let v: serde_json::Value = serde_json::from_str(&json).unwrap();
    assert_eq!(v["error"], "connection failed");
    assert_eq!(v["code"], "CONNECTION_FAILED");
    assert!(v["detail"].as_str().unwrap().contains("/bad/path.db"));
}

#[test]
fn database_error_serializes_to_json() {
    let err = BrainError::DatabaseError {
        message: "disk I/O error".to_string(),
    };
    let json = err.to_json();
    let v: serde_json::Value = serde_json::from_str(&json).unwrap();
    assert_eq!(v["error"], "database error");
    assert_eq!(v["code"], "DATABASE_ERROR");
    assert_eq!(v["detail"], "disk I/O error");
}

#[test]
fn error_json_has_sorted_keys_and_exact_text() {
    let err = BrainError::NotFound {
        entity: "dispatch",
        id: -7,
    };
    assert_eq!(
        err.to_json(),
        "{\"code\":\"NOT_FOUND\",\"detail\":\"no dispatch with id -7\",\"error\":\"dispatch not found\"}"
    );
}

#[test]
fn error_json_escapes_quotes_and_control_characters() {
    let err = BrainError::DatabaseError {
        message: "bad \"x\"\\\n\t\u{1}".to_string(),
    };
    assert_eq!(
        err.to_json(),
        "{\"code\":\"DATABASE_ERROR\",\"detail\":\"bad \\\"x\\\"\\\\\\n\\t\\u0001\",\"error\":\"database error\"}"
    );
    let v: serde_json::Value = serde_json::from_str(&err.to_json()).unwrap();
    assert_eq!(v["detail"], "bad \"x\"\\\n\t\u{1}");
}

#[test]
fn connection_failed_detail_joins_path_and_message() {
    let err = BrainError::ConnectionFailed {
        path: ":memory:".to_string(),
        message: "out of memory".to_string(),
    };
    let v: serde_json::Value = serde_json::from_str(&err.to_json()).unwrap();
    assert_eq!(v["detail"], ":memory:: out of memory");
}
