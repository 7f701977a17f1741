//! The text of the SQL statements that the data layer issues.
//!
//! Every statement has a specification function, which says what its text
//! is, and a builder that writes exactly that text.  Texts are written as
//! quoted literals, absent values as `NULL`, identifiers in decimal.

use vstd::prelude::*;
use vstd::string::StringExecFns;
use crate::entity::{IdType, Status, StatusView};
use crate::text::{decimal, nullable, push_decimal, push_nullable, push_quoted, quoted};

verus! {

/// The name of the table of todo lists.
pub open spec fn todos_table() -> Seq<char> {
    "todos"@
}

/// The name of the table of tasks.
pub open spec fn tasks_table() -> Seq<char> {
    "tasks"@
}

/// The definition of the table of todo lists.
pub open spec fn todos_schema() -> Seq<char> {
    "todos(id INTEGER PRIMARY KEY AUTOINCREMENT, name TEXT NOT NULL, description TEXT NULL, created_at TIMESTAMP NOT NULL DEFAULT CURRENT_TIMESTAMP, updated_at TIMESTAMP NOT NULL DEFAULT CURRENT_TIMESTAMP)"@
}

/// The definition of the table of tasks.
pub open spec fn tasks_schema() -> Seq<char> {
    "tasks(id INTEGER PRIMARY KEY AUTOINCREMENT, what TEXT NOT NULL, todo_id INTEGER NOT NULL REFERENCES todos(id), created_at TIMESTAMP NOT NULL DEFAULT CURRENT_TIMESTAMP, updated_at TIMESTAMP NOT NULL DEFAULT CURRENT_TIMESTAMP, completed_at TIMESTAMP NULL)"@
}

/// The statement that creates a table, given its definition, unless the
/// table exists.
pub open spec fn create_table_sql(schema: Seq<char>) -> Seq<char> {
    "CREATE TABLE IF NOT EXISTS "@ + schema + ";"@
}

/// The statement that tells whether a table can be used: it fails where the
/// table is missing.
pub open spec fn probe_sql(table: Seq<char>) -> Seq<char> {
    "SELECT * FROM "@ + table + " LIMIT 1;"@
}

/// The statement that removes the row with the given identifier.
pub open spec fn delete_sql(table: Seq<char>, id: IdType) -> Seq<char> {
    "DELETE FROM "@ + table + " WHERE id = "@ + decimal(id as nat) + ";"@
}

/// The query for all todo lists.
pub open spec fn select_todos_sql() -> Seq<char> {
    "SELECT id, name, description, created_at, updated_at FROM todos;"@
}

/// The query for the todo list with the given identifier.
pub open spec fn select_todo_sql(id: IdType) -> Seq<char> {
    "SELECT id, name, description, created_at, updated_at FROM todos WHERE id = "@ + decimal(
        id as nat,
    ) + ";"@
}

/// The query for the todo list that the connection inserted last.
pub open spec fn select_new_todo_sql() -> Seq<char> {
    "SELECT id, name, description, created_at, updated_at FROM todos WHERE id = last_insert_rowid();"@
}

/// The statement that inserts a todo list; the store assigns the identifier
/// and the two dates.
pub open spec fn insert_todo_sql(name: Seq<char>, description: Option<Seq<char>>) -> Seq<char> {
    "INSERT INTO todos(name, description) VALUES ("@ + quoted(name) + ", "@ + nullable(description)
        + ");"@
}

/// The statement that renames a todo list and refreshes its date of change.
pub open spec fn update_todo_name_sql(id: IdType, name: Seq<char>) -> Seq<char> {
    "UPDATE todos SET name = "@ + quoted(name) + ", updated_at = CURRENT_TIMESTAMP WHERE id = "@
        + decimal(id as nat) + ";"@
}

/// The statement that sets the description of a todo list and refreshes its
/// date of change.
pub open spec fn update_todo_description_sql(id: IdType, description: Option<Seq<char>>) -> Seq<
    char,
> {
    "UPDATE todos SET description = "@ + nullable(description)
        + ", updated_at = CURRENT_TIMESTAMP WHERE id = "@ + decimal(id as nat) + ";"@
}

/// The query for all tasks.
pub open spec fn select_tasks_sql() -> Seq<char> {
    "SELECT id, what, todo_id, created_at, updated_at, completed_at FROM tasks;"@
}

/// The query for the task with the given identifier.
pub open spec fn select_task_sql(id: IdType) -> Seq<char> {
    "SELECT id, what, todo_id, created_at, updated_at, completed_at FROM tasks WHERE id = "@
        + decimal(id as nat) + ";"@
}

/// The query for the tasks of the todo list with the given identifier.
pub open spec fn select_tasks_of_sql(todo_id: IdType) -> Seq<char> {
    "SELECT id, what, todo_id, created_at, updated_at, completed_at FROM tasks WHERE todo_id = "@
        + decimal(todo_id as nat) + ";"@
}

/// The query for the task that the connection inserted last.
pub open spec fn select_new_task_sql() -> Seq<char> {
    "SELECT id, what, todo_id, created_at, updated_at, completed_at FROM tasks WHERE id = last_insert_rowid();"@
}

/// The date of completion that a status stands for, if any.
pub open spec fn completion_date(status: StatusView) -> Option<Seq<char>> {
    match status {
        StatusView::Done(date) => Some(date),
        StatusView::Todo => None,
    }
}

/// The statement that inserts a task; the store assigns the identifier and
/// the dates of creation and change.
pub open spec fn insert_task_sql(todo_id: IdType, what: Seq<char>, status: StatusView) -> Seq<
    char,
> {
    "INSERT INTO tasks(todo_id, what, completed_at) VALUES ("@ + decimal(todo_id as nat) + ", "@
        + quoted(what) + ", "@ + nullable(completion_date(status)) + ");"@
}

/// The statement that rewords a task and refreshes its date of change.
pub open spec fn update_task_what_sql(id: IdType, what: Seq<char>) -> Seq<char> {
    "UPDATE tasks SET what = "@ + quoted(what) + ", updated_at = CURRENT_TIMESTAMP WHERE id = "@
        + decimal(id as nat) + ";"@
}

/// The statement that sets the status of a task and refreshes its date of
/// change.
pub open spec fn update_task_status_sql(id: IdType, status: StatusView) -> Seq<char> {
    "UPDATE tasks SET completed_at = "@ + nullable(completion_date(status))
        + ", updated_at = CURRENT_TIMESTAMP WHERE id = "@ + decimal(id as nat) + ";"@
}

/// Writes the statement that creates a table unless it exists.
pub fn create_table_statement(schema: &str) -> (sql: String)
    ensures
        sql@ == create_table_sql(schema@),
{
    let mut sql = String::from_str("CREATE TABLE IF NOT EXISTS ");
    sql.append(schema);
    sql.append(";");
    sql
}

/// Writes the statement that tells whether a table can be used.
pub fn probe_statement(table: &str) -> (sql: String)
    ensures
        sql@ == probe_sql(table@),
{
    let mut sql = String::from_str("SELECT * FROM ");
    sql.append(table);
    sql.append(" LIMIT 1;");
    sql
}

/// Writes the statement that removes the row with the given identifier.
pub fn delete_statement(table: &str, id: IdType) -> (sql: String)
    ensures
        sql@ == delete_sql(table@, id),
{
    let mut sql = String::from_str("DELETE FROM ");
    sql.append(table);
    sql.append(" WHERE id = ");
    push_decimal(&mut sql, id);
    sql.append(";");
    sql
}

/// Writes the query for all todo lists.
pub fn select_todos_query() -> (sql: String)
    ensures
        sql@ == select_todos_sql(),
{
    String::from_str("SELECT id, name, description, created_at, updated_at FROM todos;")
}

/// Writes the query for the todo list with the given identifier.
pub fn select_todo_query(id: IdType) -> (sql: String)
    ensures
        sql@ == select_todo_sql(id),
{
    let mut sql = String::from_str(
        "SELECT id, name, description, created_at, updated_at FROM todos WHERE id = ",
    );
    push_decimal(&mut sql, id);
    sql.append(";");
    sql
}

/// Writes the query for the todo list that the connection inserted last.
pub fn select_new_todo_query() -> (sql: String)
    ensures
        sql@ == select_new_todo_sql(),
{
    String::from_str(
        "SELECT id, name, description, created_at, updated_at FROM todos WHERE id = last_insert_rowid();",
    )
}

/// Writes the statement that inserts a todo list.
pub fn insert_todo_statement(name: &str, description: Option<&String>) -> (sql: String)
    ensures
        sql@ == insert_todo_sql(
            name@,
            match description {
                Some(text) => Some(text@),
                None => None,
            },
        ),
{
    let mut sql = String::from_str("INSERT INTO todos(name, description) VALUES (");
    push_quoted(&mut sql, name);
    sql.append(", ");
    push_nullable(&mut sql, description);
    sql.append(");");
    sql
}

/// Writes the statement that renames a todo list.
pub fn update_todo_name_statement(id: IdType, name: &str) -> (sql: String)
    ensures
        sql@ == update_todo_name_sql(id, name@),
{
    let mut sql = String::from_str("UPDATE todos SET name = ");
    push_quoted(&mut sql, name);
    sql.append(", updated_at = CURRENT_TIMESTAMP WHERE id = ");
    push_decimal(&mut sql, id);
    sql.append(";");
    sql
}

/// Writes the statement that sets the description of a todo list.
pub fn update_todo_description_statement(id: IdType, description: Option<&String>) -> (sql: String)
    ensures
        sql@ == update_todo_description_sql(
            id,
            match description {
                Some(text) => Some(text@),
                None => None,
            },
        ),
{
    let mut sql = String::from_str("UPDATE todos SET description = ");
    push_nullable(&mut sql, description);
    sql.append(", updated_at = CURRENT_TIMESTAMP WHERE id = ");
    push_decimal(&mut sql, id);
    sql.append(";");
    sql
}

/// Writes the query for all tasks.
pub fn select_tasks_query() -> (sql: String)
    ensures
        sql@ == select_tasks_sql(),
{
    String::from_str("SELECT id, what, todo_id, created_at, updated_at, completed_at FROM tasks;")
}

/// Writes the query for the task with the given identifier.
pub fn select_task_query(id: IdType) -> (sql: String)
    ensures
        sql@ == select_task_sql(id),
{
    let mut sql = String::from_str(
        "SELECT id, what, todo_id, created_at, updated_at, completed_at FROM tasks WHERE id = ",
    );
    push_decimal(&mut sql, id);
    sql.append(";");
    sql
}

/// Writes the query for the tasks of the todo list with the given identifier.
pub fn select_tasks_of_query(todo_id: IdType) -> (sql: String)
    ensures
        sql@ == select_tasks_of_sql(todo_id),
{
    let mut sql = String::from_str(
        "SELECT id, what, todo_id, created_at, updated_at, completed_at FROM tasks WHERE todo_id = ",
    );
    push_decimal(&mut sql, todo_id);
    sql.append(";");
    sql
}

/// Writes the query for the task that the connection inserted last.
pub fn select_new_task_query() -> (sql: String)
    ensures
        sql@ == select_new_task_sql(),
{
    String::from_str(
        "SELECT id, what, todo_id, created_at, updated_at, completed_at FROM tasks WHERE id = last_insert_rowid();",
    )
}

/// Appends the SQL expression for the date of completion of a status.
fn push_completion_date(out: &mut String, status: &Status)
    ensures
        final(out)@ == old(out)@ + nullable(completion_date(status@)),
{
    match status {
        Status::Done(date) => push_quoted(out, date.as_str()),
        Status::Todo => out.append("NULL"),
    }
}

/// Writes the statement that inserts a task.
pub fn insert_task_statement(todo_id: IdType, what: &str, status: &Status) -> (sql: String)
    ensures
        sql@ == insert_task_sql(todo_id, what@, status@),
{
    let mut sql = String::from_str("INSERT INTO tasks(todo_id, what, completed_at) VALUES (");
    push_decimal(&mut sql, todo_id);
    sql.append(", ");
    push_quoted(&mut sql, what);
    sql.append(", ");
    push_completion_date(&mut sql, status);
    sql.append(");");
    sql
}

/// Writes the statement that rewords a task.
pub fn update_task_what_statement(id: IdType, what: &str) -> (sql: String)
    ensures
        sql@ == update_task_what_sql(id, what@),
{
    let mut sql = String::from_str("UPDATE tasks SET what = ");
    push_quoted(&mut sql, what);
    sql.append(", updated_at = CURRENT_TIMESTAMP WHERE id = ");
    push_decimal(&mut sql, id);
    sql.append(";");
    sql
}

/// Writes the statement that sets the status of a task.
pub fn update_task_status_statement(id: IdType, status: &Status) -> (sql: String)
    ensures
        sql@ == update_task_status_sql(id, status@),
{
    let mut sql = String::from_str("UPDATE tasks SET completed_at = ");
    push_completion_date(&mut sql, status);
    sql.append(", updated_at = CURRENT_TIMESTAMP WHERE id = ");
    push_decimal(&mut sql, id);
    sql.append(";");
    sql
}

} // verus!
