//! A task-tracking data layer: todo lists and their tasks, kept in an SQLite
//! store behind a small repository interface.

pub mod dal;
pub mod db;
pub mod entity;
pub mod error;
pub mod guarantees;
pub mod prelude;
pub mod row;
pub mod sql;
pub mod text;
pub mod todo_lib;
