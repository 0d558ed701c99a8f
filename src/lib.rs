//! A task-tracking record store: tasks with an id, a name, a status and a
//! creation time, the partial-update rules for them, and the SQL statements
//! that persist them.

mod clock;
pub mod database;
pub mod error;
pub mod laws;
pub mod query;
pub mod store;
pub mod task;
pub mod web;
