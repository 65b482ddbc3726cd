//! The error every operation reports, and its JSON form.
use vstd::prelude::*;
use vstd::string::*;
use crate::json::{
    json_member, json_member_text, json_object, json_object_text, json_string, json_string_text,
};
use crate::text::{decimal, decimal_string};

verus! {

/// What went wrong in an operation.
#[derive(Debug)]
pub enum BrainError {
    NotFound { entity: &'static str, id: i64 },
    DatabaseError { message: String },
    ConstraintViolation { description: String },
    ConnectionFailed { path: String, message: String },
}

/// The `error` and `code` texts and the `detail` of each error.
pub open spec fn error_fields(e: BrainError) -> (Seq<char>, Seq<char>, Seq<char>) {
    match e {
        BrainError::NotFound { entity, id } => (
            entity@ + " not found"@,
            "NOT_FOUND"@,
            "no "@ + entity@ + " with id "@ + decimal(id as int),
        ),
        BrainError::DatabaseError { message } => ("database error"@, "DATABASE_ERROR"@, message@),
        BrainError::ConstraintViolation { description } => (
            "constraint violation"@,
            "CONSTRAINT_VIOLATION"@,
            description@,
        ),
        BrainError::ConnectionFailed { path, message } => (
            "connection failed"@,
            "CONNECTION_FAILED"@,
            path@ + ": "@ + message@,
        ),
    }
}

/// The JSON object `{"code":..,"detail":..,"error":..}` of an error.
pub open spec fn error_json(e: BrainError) -> Seq<char> {
    let (error, code, detail) = error_fields(e);
    json_object(
        seq![
            json_member("code"@, json_string(code)),
            json_member("detail"@, json_string(detail)),
            json_member("error"@, json_string(error)),
        ],
    )
}

impl BrainError {
    /// The JSON object describing the error.
    pub fn to_json(&self) -> (res: String)
        ensures
            res@ == error_json(*self),
    {
        let (error, code, detail): (String, &str, String) = match self {
            BrainError::NotFound { entity, id } => {
                let mut e = (*entity).to_owned();
                e.append(" not found");
                let mut d = "no ".to_owned();
                d.append(entity);
                d.append(" with id ");
                let n = decimal_string(*id);
                d.append(n.as_str());
                (e, "NOT_FOUND", d)
            },
            BrainError::DatabaseError { message } => (
                "database error".to_owned(),
                "DATABASE_ERROR",
                message.clone(),
            ),
            BrainError::ConstraintViolation { description } => (
                "constraint violation".to_owned(),
                "CONSTRAINT_VIOLATION",
                description.clone(),
            ),
            BrainError::ConnectionFailed { path, message } => {
                let mut d = path.clone();
                d.append(": ");
                d.append(message.as_str());
                ("connection failed".to_owned(), "CONNECTION_FAILED", d)
            },
        };
        let mut members: Vec<String> = Vec::new();
        members.push(json_member_text("code", json_string_text(code)));
        members.push(json_member_text("detail", json_string_text(detail.as_str())));
        members.push(json_member_text("error", json_string_text(error.as_str())));
        assert(members.deep_view() =~= seq![
            json_member("code"@, json_string(error_fields(*self).1)),
            json_member("detail"@, json_string(error_fields(*self).2)),
            json_member("error"@, json_string(error_fields(*self).0)),
        ]);
        json_object_text(&members)
    }
}

} // verus!
