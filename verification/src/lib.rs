//! Accounting core for tasks, dispatches, sessions and scope violations.
pub mod error;
pub mod json;
pub mod sql;
pub mod text;
pub mod types;
pub mod table;
pub mod task;
pub mod config;
pub mod dispatch;
pub mod project;
pub mod activity;
pub mod scope;
pub mod session;
