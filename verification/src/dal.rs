//! The repositories of todo lists and tasks, and the operations that the
//! entities offer on top of them.
//!
//! Each operation is a short conversation with the storage engine.  Its
//! specification is a function that reads the conversation off the journal of
//! the connection handle: which statements were sent, in which order, and
//! what the operation returns for the answers that came back.

use vstd::prelude::*;
use crate::db::{
    after,
    completes,
    ending,
    error_text,
    init_table_at,
    probe_at,
    query_at,
    statement_at,
    statement_outcome,
    Database,
    DatabaseConnector,
    Exchange,
    Run,
};
use crate::entity::{text_view, IdType, Status, StatusView, Task, TaskView, Todo, TodoView};
use crate::error::{
    duplicate_id_error,
    not_found_error,
    store_error,
    table_not_initialized_error,
    InternalError,
    InternalErrorView,
};
use crate::row::{
    task_from_row,
    task_of_row,
    tasks_from_rows,
    tasks_of_rows,
    todo_from_row,
    todo_of_row,
    todos_from_rows,
    todos_of_rows,
    RowView,
};
use crate::sql::{
    delete_sql,
    delete_statement,
    insert_task_sql,
    insert_task_statement,
    insert_todo_sql,
    insert_todo_statement,
    select_new_task_query,
    select_new_task_sql,
    select_new_todo_query,
    select_new_todo_sql,
    select_task_query,
    select_task_sql,
    select_tasks_of_query,
    select_tasks_of_sql,
    select_tasks_query,
    select_tasks_sql,
    select_todo_query,
    select_todo_sql,
    select_todos_query,
    select_todos_sql,
    tasks_schema,
    tasks_table,
    todos_schema,
    todos_table,
    update_task_status_sql,
    update_task_status_statement,
    update_task_what_sql,
    update_task_what_statement,
    update_todo_description_sql,
    update_todo_description_statement,
    update_todo_name_sql,
    update_todo_name_statement,
};

verus! {

/// The repository of todo lists.
pub struct TodoDAO;

/// The repository of tasks.
pub struct TaskDAO;

/// The result of an operation, with views in place of the values.
pub open spec fn outcome<T: View>(result: Result<T, InternalError>) -> Result<
    T::V,
    InternalErrorView,
> {
    match result {
        Ok(value) => Ok(value@),
        Err(error) => Err(error@),
    }
}

/// The result of an operation that returns nothing, with the view of its
/// error.
pub open spec fn unit_outcome(result: Result<(), InternalError>) -> Result<(), InternalErrorView> {
    match result {
        Ok(_) => Ok(()),
        Err(error) => Err(error@),
    }
}

/// How the messages name a todo list.
pub open spec fn todo_entity() -> Seq<char> {
    "todo"@
}

/// How the messages name a task.
pub open spec fn task_entity() -> Seq<char> {
    "task"@
}

/// The message of a todo list that could not be read after its insertion.
pub open spec fn todo_not_read_back() -> Seq<char> {
    "Could not get the todo after adding it to the database."@
}

/// The message of a task that could not be read after its insertion.
pub open spec fn task_not_read_back() -> Seq<char> {
    "Could not get the task after adding it to the database."@
}

/// What `find` makes of the answer to its query: the todo list that the
/// first row denotes, if it has the identifier asked for.
pub open spec fn found_todo(id: IdType, answer: Result<Seq<RowView>, Seq<char>>) -> Result<
    TodoView,
    InternalErrorView,
> {
    match answer {
        Ok(rows) if rows.len() > 0 && todo_of_row(rows[0]) is Some && todo_of_row(rows[0])->0.id
            == id => Ok(todo_of_row(rows[0])->0),
        _ => Err(not_found_error(todo_entity(), id)),
    }
}

/// What `add` makes of the answer to its second reading: the todo list that
/// the first row denotes.
pub open spec fn new_todo(answer: Result<Seq<RowView>, Seq<char>>) -> Result<
    TodoView,
    InternalErrorView,
> {
    match answer {
        Ok(rows) if rows.len() > 0 && todo_of_row(rows[0]) is Some => Ok(todo_of_row(rows[0])->0),
        _ => Err(store_error(todo_not_read_back())),
    }
}

/// Reading all todo lists, from position `at` of the journal on: nothing
/// where the table is not ready or the query fails.
pub open spec fn all_todos_at(journal: Seq<Exchange>, at: int) -> Run<Seq<TodoView>> {
    let probe = probe_at(journal, at, todos_table());
    if probe.result {
        let query = after(probe, query_at(journal, probe.end, select_todos_sql()));
        ending(
            query,
            match query.result {
                Ok(rows) => todos_of_rows(rows),
                Err(_) => Seq::empty(),
            },
        )
    } else {
        ending(probe, Seq::empty())
    }
}

/// Finding the todo list `id`, from position `at` of the journal on.
pub open spec fn find_todo_at(journal: Seq<Exchange>, at: int, id: IdType) -> Run<
    Result<TodoView, InternalErrorView>,
> {
    let probe = probe_at(journal, at, todos_table());
    if probe.result {
        let query = after(probe, query_at(journal, probe.end, select_todo_sql(id)));
        ending(query, found_todo(id, query.result))
    } else {
        ending(probe, Err(not_found_error(todo_entity(), id)))
    }
}

/// Adding the todo list `candidate`, from position `at` of the journal on.
pub open spec fn add_todo_at(journal: Seq<Exchange>, at: int, candidate: TodoView) -> Run<
    Result<TodoView, InternalErrorView>,
> {
    let probe = probe_at(journal, at, todos_table());
    if !probe.result {
        ending(probe, Err(table_not_initialized_error(todos_table())))
    } else {
        let taken = after(probe, find_todo_at(journal, probe.end, candidate.id));
        if taken.result is Ok {
            ending(taken, Err(duplicate_id_error(todo_entity(), candidate.id)))
        } else {
            let insert = after(
                taken,
                statement_at(
                    journal,
                    taken.end,
                    insert_todo_sql(candidate.name, candidate.description),
                ),
            );
            match insert.result {
                Err(message) => ending(insert, Err(store_error(message))),
                Ok(_) => {
                    let query = after(
                        insert,
                        query_at(journal, insert.end, select_new_todo_sql()),
                    );
                    ending(query, new_todo(query.result))
                },
            }
        }
    }
}

/// Bringing the stored todo list in line with `candidate`, from position
/// `at` of the journal on: one statement for each of name and description
/// that differs from what is stored, and none for one that does not.
pub open spec fn update_todo_at(journal: Seq<Exchange>, at: int, candidate: TodoView) -> Run<
    Result<TodoView, InternalErrorView>,
> {
    let probe = probe_at(journal, at, todos_table());
    if !probe.result {
        ending(probe, Err(table_not_initialized_error(todos_table())))
    } else {
        let stored = after(probe, find_todo_at(journal, probe.end, candidate.id));
        match stored.result {
            Err(error) => ending(stored, Err(error)),
            Ok(todo) => {
                let name = if candidate.name != todo.name {
                    after(
                        stored,
                        statement_at(
                            journal,
                            stored.end,
                            update_todo_name_sql(candidate.id, candidate.name),
                        ),
                    )
                } else {
                    ending(stored, Ok(()))
                };
                match name.result {
                    Err(message) => ending(name, Err(store_error(message))),
                    Ok(_) => {
                        let description = if candidate.description != todo.description {
                            after(
                                name,
                                statement_at(
                                    journal,
                                    name.end,
                                    update_todo_description_sql(
                                        candidate.id,
                                        candidate.description,
                                    ),
                                ),
                            )
                        } else {
                            ending(name, Ok(()))
                        };
                        match description.result {
                            Err(message) => ending(description, Err(store_error(message))),
                            Ok(_) => after(
                                description,
                                find_todo_at(journal, description.end, candidate.id),
                            ),
                        }
                    },
                }
            },
        }
    }
}

/// Deleting the todo list `id`, from position `at` of the journal on.
pub open spec fn delete_todo_at(journal: Seq<Exchange>, at: int, id: IdType) -> Run<
    Result<(), InternalErrorView>,
> {
    let found = find_todo_at(journal, at, id);
    match found.result {
        Err(error) => ending(found, Err(error)),
        Ok(_) => {
            let delete = after(found, statement_at(journal, found.end, delete_sql(todos_table(), id)));
            ending(
                delete,
                match delete.result {
                    Ok(_) => Ok(()),
                    Err(message) => Err(store_error(message)),
                },
            )
        },
    }
}

/// What `find` makes of the answer to its query: the task that the first row
/// denotes, if it has the identifier asked for.
pub open spec fn found_task(id: IdType, answer: Result<Seq<RowView>, Seq<char>>) -> Result<
    TaskView,
    InternalErrorView,
> {
    match answer {
        Ok(rows) if rows.len() > 0 && task_of_row(rows[0]) is Some && task_of_row(rows[0])->0.id
            == id => Ok(task_of_row(rows[0])->0),
        _ => Err(not_found_error(task_entity(), id)),
    }
}

/// What `add` makes of the answer to its second reading: the task that the
/// first row denotes.
pub open spec fn new_task(answer: Result<Seq<RowView>, Seq<char>>) -> Result<
    TaskView,
    InternalErrorView,
> {
    match answer {
        Ok(rows) if rows.len() > 0 && task_of_row(rows[0]) is Some => Ok(task_of_row(rows[0])->0),
        _ => Err(store_error(task_not_read_back())),
    }
}

/// Reading all tasks, from position `at` of the journal on: nothing where
/// the table is not ready or the query fails.
pub open spec fn all_tasks_at(journal: Seq<Exchange>, at: int) -> Run<Seq<TaskView>> {
    let probe = probe_at(journal, at, tasks_table());
    if probe.result {
        let query = after(probe, query_at(journal, probe.end, select_tasks_sql()));
        ending(
            query,
            match query.result {
                Ok(rows) => tasks_of_rows(rows),
                Err(_) => Seq::empty(),
            },
        )
    } else {
        ending(probe, Seq::empty())
    }
}

/// Reading the tasks of the todo list `todo_id`, from position `at` of the
/// journal on: nothing where one of the two tables is not ready or the query
/// fails.
pub open spec fn tasks_of_at(journal: Seq<Exchange>, at: int, todo_id: IdType) -> Run<
    Seq<TaskView>,
> {
    let todos = probe_at(journal, at, todos_table());
    if !todos.result {
        ending(todos, Seq::empty())
    } else {
        let tasks = after(todos, probe_at(journal, todos.end, tasks_table()));
        if !tasks.result {
            ending(tasks, Seq::empty())
        } else {
            let query = after(tasks, query_at(journal, tasks.end, select_tasks_of_sql(todo_id)));
            ending(
                query,
                match query.result {
                    Ok(rows) => tasks_of_rows(rows),
                    Err(_) => Seq::empty(),
                },
            )
        }
    }
}

/// Finding the task `id`, from position `at` of the journal on.
pub open spec fn find_task_at(journal: Seq<Exchange>, at: int, id: IdType) -> Run<
    Result<TaskView, InternalErrorView>,
> {
    let probe = probe_at(journal, at, tasks_table());
    if probe.result {
        let query = after(probe, query_at(journal, probe.end, select_task_sql(id)));
        ending(query, found_task(id, query.result))
    } else {
        ending(probe, Err(not_found_error(task_entity(), id)))
    }
}

/// Adding the task `candidate`, from position `at` of the journal on: the
/// todo list that it names must be there.
pub open spec fn add_task_at(journal: Seq<Exchange>, at: int, candidate: TaskView) -> Run<
    Result<TaskView, InternalErrorView>,
> {
    let probe = probe_at(journal, at, tasks_table());
    if !probe.result {
        ending(probe, Err(table_not_initialized_error(tasks_table())))
    } else {
        let taken = after(probe, find_task_at(journal, probe.end, candidate.id));
        if taken.result is Ok {
            ending(taken, Err(duplicate_id_error(task_entity(), candidate.id)))
        } else {
            let owner = after(taken, find_todo_at(journal, taken.end, candidate.todo_id));
            match owner.result {
                Err(error) => ending(owner, Err(error)),
                Ok(_) => {
                    let insert = after(
                        owner,
                        statement_at(
                            journal,
                            owner.end,
                            insert_task_sql(candidate.todo_id, candidate.what, candidate.status),
                        ),
                    );
                    match insert.result {
                        Err(message) => ending(insert, Err(store_error(message))),
                        Ok(_) => {
                            let query = after(
                                insert,
                                query_at(journal, insert.end, select_new_task_sql()),
                            );
                            ending(query, new_task(query.result))
                        },
                    }
                },
            }
        }
    }
}

/// Bringing the stored task in line with `candidate`, from position `at` of
/// the journal on: one statement for each of text and status that differs
/// from what is stored, and none for one that does not.
pub open spec fn update_task_at(journal: Seq<Exchange>, at: int, candidate: TaskView) -> Run<
    Result<TaskView, InternalErrorView>,
> {
    let probe = probe_at(journal, at, tasks_table());
    if !probe.result {
        ending(probe, Err(table_not_initialized_error(tasks_table())))
    } else {
        let stored = after(probe, find_task_at(journal, probe.end, candidate.id));
        match stored.result {
            Err(error) => ending(stored, Err(error)),
            Ok(task) => {
                let what = if candidate.what != task.what {
                    after(
                        stored,
                        statement_at(
                            journal,
                            stored.end,
                            update_task_what_sql(candidate.id, candidate.what),
                        ),
                    )
                } else {
                    ending(stored, Ok(()))
                };
                match what.result {
                    Err(message) => ending(what, Err(store_error(message))),
                    Ok(_) => {
                        let status = if candidate.status != task.status {
                            after(
                                what,
                                statement_at(
                                    journal,
                                    what.end,
                                    update_task_status_sql(candidate.id, candidate.status),
                                ),
                            )
                        } else {
                            ending(what, Ok(()))
                        };
                        match status.result {
                            Err(message) => ending(status, Err(store_error(message))),
                            Ok(_) => after(status, find_task_at(journal, status.end, candidate.id)),
                        }
                    },
                }
            },
        }
    }
}

/// Deleting the task `id`, from position `at` of the journal on.
pub open spec fn delete_task_at(journal: Seq<Exchange>, at: int, id: IdType) -> Run<
    Result<(), InternalErrorView>,
> {
    let found = find_task_at(journal, at, id);
    match found.result {
        Err(error) => ending(found, Err(error)),
        Ok(_) => {
            let delete = after(found, statement_at(journal, found.end, delete_sql(tasks_table(), id)));
            ending(
                delete,
                match delete.result {
                    Ok(_) => Ok(()),
                    Err(message) => Err(store_error(message)),
                },
            )
        },
    }
}

/// The date that a candidate for insertion carries until the store assigns
/// the real one.
pub open spec fn placeholder_date() -> Seq<char> {
    "CURRENT_TIMESTAMP"@
}

/// The candidate that `Todo::add` hands to the repository: the identifier and
/// the dates are placeholders.
pub open spec fn todo_candidate(name: Seq<char>, description: Option<Seq<char>>) -> TodoView {
    TodoView {
        id: 0,
        name,
        description,
        created_at: placeholder_date(),
        updated_at: placeholder_date(),
    }
}

/// The candidate that `Task::add` hands to the repository: a task still to
/// do, whose identifier and dates are placeholders.
pub open spec fn task_candidate(what: Seq<char>, todo_id: IdType) -> TaskView {
    TaskView {
        id: 0,
        todo_id,
        what,
        created_at: placeholder_date(),
        updated_at: placeholder_date(),
        status: StatusView::Todo,
    }
}

/// The stored todo list with the new name and the new description in place
/// of its own, each where one is given.
pub open spec fn revised_todo(
    stored: TodoView,
    new_name: Option<Seq<char>>,
    new_description: Option<Seq<char>>,
) -> TodoView {
    TodoView {
        name: match new_name {
            Some(name) => name,
            None => stored.name,
        },
        description: match new_description {
            Some(description) => Some(description),
            None => stored.description,
        },
        ..stored
    }
}

/// The stored task with the new text and the new status in place of its own,
/// each where one is given.
pub open spec fn revised_task(
    stored: TaskView,
    new_what: Option<Seq<char>>,
    new_status: Option<StatusView>,
) -> TaskView {
    TaskView {
        what: match new_what {
            Some(what) => what,
            None => stored.what,
        },
        status: match new_status {
            Some(status) => status,
            None => stored.status,
        },
        ..stored
    }
}

/// The view of an optional status.
pub open spec fn status_view(status: Option<Status>) -> Option<StatusView> {
    match status {
        Some(s) => Some(s@),
        None => None,
    }
}

/// Revising the todo list `id`, from position `at` of the journal on: it is
/// found, revised and handed to the repository's update.
pub open spec fn revise_todo_at(
    journal: Seq<Exchange>,
    at: int,
    id: IdType,
    new_name: Option<Seq<char>>,
    new_description: Option<Seq<char>>,
) -> Run<Result<TodoView, InternalErrorView>> {
    let found = find_todo_at(journal, at, id);
    match found.result {
        Err(error) => ending(found, Err(error)),
        Ok(stored) => after(
            found,
            update_todo_at(journal, found.end, revised_todo(stored, new_name, new_description)),
        ),
    }
}

/// Revising the task `id`, from position `at` of the journal on: it is found,
/// revised and handed to the repository's update.
pub open spec fn revise_task_at(
    journal: Seq<Exchange>,
    at: int,
    id: IdType,
    new_what: Option<Seq<char>>,
    new_status: Option<StatusView>,
) -> Run<Result<TaskView, InternalErrorView>> {
    let found = find_task_at(journal, at, id);
    match found.result {
        Err(error) => ending(found, Err(error)),
        Ok(stored) => after(
            found,
            update_task_at(journal, found.end, revised_task(stored, new_what, new_status)),
        ),
    }
}

/// Making both tables ready, from position `at` of the journal on: the table
/// of todo lists first, and the table of tasks if that went well.
pub open spec fn init_tables_at(journal: Seq<Exchange>, at: int) -> Run<Result<(), Seq<char>>> {
    let todos = init_table_at(journal, at, todos_table(), todos_schema());
    match todos.result {
        Err(message) => ending(todos, Err(message)),
        Ok(_) => after(todos, init_table_at(journal, todos.end, tasks_table(), tasks_schema())),
    }
}

impl DatabaseConnector for TodoDAO {
    open spec fn table() -> Seq<char> {
        todos_table()
    }

    open spec fn schema() -> Seq<char> {
        todos_schema()
    }

    fn table_name() -> (name: &'static str) {
        "todos"
    }

    fn init_table(db: &mut Database) -> (outcome: Result<(), sqlite::Error>) {
        if !Self::is_table_initialized(db) {
            db.create_table(
                "todos(id INTEGER PRIMARY KEY AUTOINCREMENT, name TEXT NOT NULL, description TEXT NULL, created_at TIMESTAMP NOT NULL DEFAULT CURRENT_TIMESTAMP, updated_at TIMESTAMP NOT NULL DEFAULT CURRENT_TIMESTAMP)",
            )
        } else {
            Ok(())
        }
    }
}

impl TodoDAO {
    /// All todo lists; none where the table is not ready or cannot be read.
    pub fn all(db: &mut Database) -> (todos: Vec<Todo>)
        ensures
            final(db).continues(old(db)),
            completes(
                all_todos_at(final(db).journal(), old(db).journal().len() as int),
                final(db).journal(),
                todos.deep_view(),
            ),
    {
        let mut todos: Vec<Todo> = Vec::new();
        assert(todos.deep_view() =~= Seq::empty());
        if Self::is_table_initialized(db) {
            let query = select_todos_query();
            if let Ok(rows) = db.select_query(query.as_str()) {
                todos = todos_from_rows(&rows);
            }
        }
        todos
    }

    /// The todo list with the identifier `id`.
    pub fn find(db: &mut Database, id: IdType) -> (found: Result<Todo, InternalError>)
        ensures
            final(db).continues(old(db)),
            completes(
                find_todo_at(final(db).journal(), old(db).journal().len() as int, id),
                final(db).journal(),
                outcome(found),
            ),
    {
        if !Self::is_table_initialized(db) {
            return Err(InternalError::not_found("todo", id));
        }
        let query = select_todo_query(id);
        match db.select_query(query.as_str()) {
            Ok(rows) => {
                if rows.len() > 0 {
                    match todo_from_row(&rows[0]) {
                        Some(todo) => {
                            if *todo.id() == id {
                                return Ok(todo);
                            }
                        },
                        None => {},
                    }
                }
                Err(InternalError::not_found("todo", id))
            },
            Err(_) => Err(InternalError::not_found("todo", id)),
        }
    }

    /// Brings the stored todo list in line with `obj` and reads it again.
    pub fn update(db: &mut Database, obj: Todo) -> (updated: Result<Todo, InternalError>)
        ensures
            final(db).continues(old(db)),
            completes(
                update_todo_at(final(db).journal(), old(db).journal().len() as int, obj@),
                final(db).journal(),
                outcome(updated),
            ),
    {
        if !Self::is_table_initialized(db) {
            return Err(InternalError::table_not_initialized(Self::table_name()));
        }
        let todo = match Self::find(db, *obj.id()) {
            Ok(todo) => todo,
            Err(error) => {
                return Err(error);
            },
        };

        // What can be changed are the name and the description.
        if *obj.name() != *todo.name() {
            let statement = update_todo_name_statement(*obj.id(), obj.name().as_str());
            if let Err(error) = db.exec_sttmt(statement.as_str()) {
                return Err(InternalError::new(error_text(&error).as_str()));
            }
        }
        if !same_description(&obj, &todo) {
            let statement = update_todo_description_statement(*obj.id(), obj.description());
            if let Err(error) = db.exec_sttmt(statement.as_str()) {
                return Err(InternalError::new(error_text(&error).as_str()));
            }
        }
        Self::find(db, *obj.id())
    }

    /// Inserts `obj` and returns the row that the store made of it, with the
    /// identifier and the dates that the store assigned.
    pub fn add(db: &mut Database, obj: Todo) -> (added: Result<Todo, InternalError>)
        ensures
            final(db).continues(old(db)),
            completes(
                add_todo_at(final(db).journal(), old(db).journal().len() as int, obj@),
                final(db).journal(),
                outcome(added),
            ),
    {
        if !Self::is_table_initialized(db) {
            return Err(InternalError::table_not_initialized(Self::table_name()));
        }
        if Self::find(db, *obj.id()).is_ok() {
            return Err(InternalError::duplicate_id("todo", *obj.id()));
        }
        let statement = insert_todo_statement(obj.name().as_str(), obj.description());
        if let Err(error) = db.exec_sttmt(statement.as_str()) {
            return Err(InternalError::new(error_text(&error).as_str()));
        }
        let query = select_new_todo_query();
        if let Ok(rows) = db.select_query(query.as_str()) {
            if rows.len() > 0 {
                if let Some(todo) = todo_from_row(&rows[0]) {
                    return Ok(todo);
                }
            }
        }
        Err(InternalError::new("Could not get the todo after adding it to the database."))
    }

    /// Deletes the todo list with the identifier `id`, if there is one.
    pub fn delete(db: &mut Database, id: IdType) -> (deleted: Result<(), InternalError>)
        ensures
            final(db).continues(old(db)),
            completes(
                delete_todo_at(final(db).journal(), old(db).journal().len() as int, id),
                final(db).journal(),
                unit_outcome(deleted),
            ),
    {
        if let Err(error) = Self::find(db, id) {
            return Err(error);
        }
        let statement = delete_statement(Self::table_name(), id);
        match db.exec_sttmt(statement.as_str()) {
            Ok(_) => Ok(()),
            Err(error) => Err(InternalError::new(error_text(&error).as_str())),
        }
    }
}

/// Whether two todo lists have the same description, or both have none.
fn same_description(a: &Todo, b: &Todo) -> (same: bool)
    ensures
        same == (a@.description == b@.description),
{
    match (a.description(), b.description()) {
        (Some(x), Some(y)) => *x == *y,
        (None, None) => true,
        _ => false,
    }
}

impl DatabaseConnector for TaskDAO {
    open spec fn table() -> Seq<char> {
        tasks_table()
    }

    open spec fn schema() -> Seq<char> {
        tasks_schema()
    }

    fn table_name() -> (name: &'static str) {
        "tasks"
    }

    fn init_table(db: &mut Database) -> (outcome: Result<(), sqlite::Error>) {
        if !Self::is_table_initialized(db) {
            db.create_table(
                "tasks(id INTEGER PRIMARY KEY AUTOINCREMENT, what TEXT NOT NULL, todo_id INTEGER NOT NULL REFERENCES todos(id), created_at TIMESTAMP NOT NULL DEFAULT CURRENT_TIMESTAMP, updated_at TIMESTAMP NOT NULL DEFAULT CURRENT_TIMESTAMP, completed_at TIMESTAMP NULL)",
            )
        } else {
            Ok(())
        }
    }
}

impl TaskDAO {
    /// All tasks; none where the table is not ready or cannot be read.
    pub fn all(db: &mut Database) -> (tasks: Vec<Task>)
        ensures
            final(db).continues(old(db)),
            completes(
                all_tasks_at(final(db).journal(), old(db).journal().len() as int),
                final(db).journal(),
                tasks.deep_view(),
            ),
    {
        let mut tasks: Vec<Task> = Vec::new();
        assert(tasks.deep_view() =~= Seq::empty());
        if Self::is_table_initialized(db) {
            let query = select_tasks_query();
            if let Ok(rows) = db.select_query(query.as_str()) {
                tasks = tasks_from_rows(&rows);
            }
        }
        tasks
    }

    /// The task with the identifier `id`.
    pub fn find(db: &mut Database, id: IdType) -> (found: Result<Task, InternalError>)
        ensures
            final(db).continues(old(db)),
            completes(
                find_task_at(final(db).journal(), old(db).journal().len() as int, id),
                final(db).journal(),
                outcome(found),
            ),
    {
        if !Self::is_table_initialized(db) {
            return Err(InternalError::not_found("task", id));
        }
        let query = select_task_query(id);
        match db.select_query(query.as_str()) {
            Ok(rows) => {
                if rows.len() > 0 {
                    match task_from_row(&rows[0]) {
                        Some(task) => {
                            if *task.id() == id {
                                return Ok(task);
                            }
                        },
                        None => {},
                    }
                }
                Err(InternalError::not_found("task", id))
            },
            Err(_) => Err(InternalError::not_found("task", id)),
        }
    }

    /// Inserts `obj`, if the todo list that it names is there, and returns
    /// the row that the store made of it.
    pub fn add(db: &mut Database, obj: Task) -> (added: Result<Task, InternalError>)
        ensures
            final(db).continues(old(db)),
            completes(
                add_task_at(final(db).journal(), old(db).journal().len() as int, obj@),
                final(db).journal(),
                outcome(added),
            ),
    {
        if !Self::is_table_initialized(db) {
            return Err(InternalError::table_not_initialized(Self::table_name()));
        }
        if Self::find(db, *obj.id()).is_ok() {
            return Err(InternalError::duplicate_id("task", *obj.id()));
        }
        let todo = match TodoDAO::find(db, *obj.todo_id()) {
            Ok(todo) => todo,
            Err(error) => {
                return Err(error);
            },
        };
        let statement = insert_task_statement(*todo.id(), obj.what().as_str(), obj.status());
        if let Err(error) = db.exec_sttmt(statement.as_str()) {
            return Err(InternalError::new(error_text(&error).as_str()));
        }
        let query = select_new_task_query();
        if let Ok(rows) = db.select_query(query.as_str()) {
            if rows.len() > 0 {
                if let Some(task) = task_from_row(&rows[0]) {
                    return Ok(task);
                }
            }
        }
        Err(InternalError::new("Could not get the task after adding it to the database."))
    }

    /// Brings the stored task in line with `obj` and reads it again.
    pub fn update(db: &mut Database, obj: Task) -> (updated: Result<Task, InternalError>)
        ensures
            final(db).continues(old(db)),
            completes(
                update_task_at(final(db).journal(), old(db).journal().len() as int, obj@),
                final(db).journal(),
                outcome(updated),
            ),
    {
        if !Self::is_table_initialized(db) {
            return Err(InternalError::table_not_initialized(Self::table_name()));
        }
        let task = match Self::find(db, *obj.id()) {
            Ok(task) => task,
            Err(error) => {
                return Err(error);
            },
        };

        // What can be changed are the text and the status, that is, the
        // date of completion.
        if *obj.what() != *task.what() {
            let statement = update_task_what_statement(*obj.id(), obj.what().as_str());
            if let Err(error) = db.exec_sttmt(statement.as_str()) {
                return Err(InternalError::new(error_text(&error).as_str()));
            }
        }
        if *obj.status() != *task.status() {
            let statement = update_task_status_statement(*obj.id(), obj.status());
            if let Err(error) = db.exec_sttmt(statement.as_str()) {
                return Err(InternalError::new(error_text(&error).as_str()));
            }
        }
        Self::find(db, *obj.id())
    }

    /// Deletes the task with the identifier `id`, if there is one.
    pub fn delete(db: &mut Database, id: IdType) -> (deleted: Result<(), InternalError>)
        ensures
            final(db).continues(old(db)),
            completes(
                delete_task_at(final(db).journal(), old(db).journal().len() as int, id),
                final(db).journal(),
                unit_outcome(deleted),
            ),
    {
        let task = match Self::find(db, id) {
            Ok(task) => task,
            Err(error) => {
                return Err(error);
            },
        };
        let statement = delete_statement(Self::table_name(), *task.id());
        match db.exec_sttmt(statement.as_str()) {
            Ok(_) => Ok(()),
            Err(error) => Err(InternalError::new(error_text(&error).as_str())),
        }
    }
}

impl Todo {
    /// All todo lists; none before the table is there.
    pub fn all(db: &mut Database) -> (todos: Vec<Todo>)
        ensures
            final(db).continues(old(db)),
            completes(
                all_todos_at(final(db).journal(), old(db).journal().len() as int),
                final(db).journal(),
                todos.deep_view(),
            ),
    {
        TodoDAO::all(db)
    }

    /// Stores a new todo list and returns it as the store holds it.
    pub fn add(db: &mut Database, name: String, description: Option<String>) -> (added: Result<
        Todo,
        InternalError,
    >)
        ensures
            final(db).continues(old(db)),
            completes(
                add_todo_at(
                    final(db).journal(),
                    old(db).journal().len() as int,
                    todo_candidate(name@, text_view(description)),
                ),
                final(db).journal(),
                outcome(added),
            ),
    {
        let id: IdType = 0;
        let created_at = "CURRENT_TIMESTAMP";
        let updated_at = "CURRENT_TIMESTAMP";

        let todo = Todo::new(id, name, description, created_at.to_owned(), updated_at.to_owned());

        TodoDAO::add(db, todo)
    }

    /// Gives the todo list `id` a new name, a new description or both, and
    /// returns it as the store holds it afterwards.
    pub fn update(
        db: &mut Database,
        id: IdType,
        new_name: Option<String>,
        new_description: Option<String>,
    ) -> (updated: Result<Todo, InternalError>)
        ensures
            final(db).continues(old(db)),
            completes(
                revise_todo_at(
                    final(db).journal(),
                    old(db).journal().len() as int,
                    id,
                    text_view(new_name),
                    text_view(new_description),
                ),
                final(db).journal(),
                outcome(updated),
            ),
    {
        let mut todo = match TodoDAO::find(db, id) {
            Ok(todo) => todo,
            Err(error) => {
                return Err(error);
            },
        };

        if let Some(name) = new_name {
            todo.set_name(name.as_str());
        }
        if let Some(description) = new_description {
            todo.set_description(description.as_str());
        }

        TodoDAO::update(db, todo)
    }

    /// The todo list with the identifier `id`.
    pub fn find(db: &mut Database, id: IdType) -> (found: Result<Todo, InternalError>)
        ensures
            final(db).continues(old(db)),
            completes(
                find_todo_at(final(db).journal(), old(db).journal().len() as int, id),
                final(db).journal(),
                outcome(found),
            ),
    {
        TodoDAO::find(db, id)
    }

    /// Deletes the todo list with the identifier `id`; its tasks stay.
    pub fn delete(db: &mut Database, id: IdType) -> (deleted: Result<(), InternalError>)
        ensures
            final(db).continues(old(db)),
            completes(
                delete_todo_at(final(db).journal(), old(db).journal().len() as int, id),
                final(db).journal(),
                unit_outcome(deleted),
            ),
    {
        TodoDAO::delete(db, id)
    }

    /// The tasks of this todo list; none before both tables are there.
    pub fn tasks(&self, db: &mut Database) -> (tasks: Vec<Task>)
        ensures
            final(db).continues(old(db)),
            completes(
                tasks_of_at(final(db).journal(), old(db).journal().len() as int, self@.id),
                final(db).journal(),
                tasks.deep_view(),
            ),
    {
        let mut tasks: Vec<Task> = Vec::new();
        assert(tasks.deep_view() =~= Seq::empty());
        if TodoDAO::is_table_initialized(db) && TaskDAO::is_table_initialized(db) {
            let query = select_tasks_of_query(*self.id());
            if let Ok(rows) = db.select_query(query.as_str()) {
                tasks = tasks_from_rows(&rows);
            }
        }
        tasks
    }

    /// Makes the table of todo lists ready.
    pub fn init_table(db: &mut Database) -> (outcome: Result<(), sqlite::Error>)
        ensures
            final(db).continues(old(db)),
            completes(
                init_table_at(
                    final(db).journal(),
                    old(db).journal().len() as int,
                    todos_table(),
                    todos_schema(),
                ),
                final(db).journal(),
                statement_outcome(outcome),
            ),
    {
        TodoDAO::init_table(db)
    }
}

impl Task {
    /// All tasks; none before the table is there.
    pub fn all(db: &mut Database) -> (tasks: Vec<Task>)
        ensures
            final(db).continues(old(db)),
            completes(
                all_tasks_at(final(db).journal(), old(db).journal().len() as int),
                final(db).journal(),
                tasks.deep_view(),
            ),
    {
        TaskDAO::all(db)
    }

    /// The task with the identifier `id`.
    pub fn find(db: &mut Database, id: IdType) -> (found: Result<Task, InternalError>)
        ensures
            final(db).continues(old(db)),
            completes(
                find_task_at(final(db).journal(), old(db).journal().len() as int, id),
                final(db).journal(),
                outcome(found),
            ),
    {
        TaskDAO::find(db, id)
    }

    /// Deletes the task with the identifier `id`.
    pub fn delete(db: &mut Database, id: IdType) -> (deleted: Result<(), InternalError>)
        ensures
            final(db).continues(old(db)),
            completes(
                delete_task_at(final(db).journal(), old(db).journal().len() as int, id),
                final(db).journal(),
                unit_outcome(deleted),
            ),
    {
        TaskDAO::delete(db, id)
    }

    /// Stores a new task of the todo list `todo_id` and returns it as the
    /// store holds it.
    pub fn add(db: &mut Database, what: String, todo_id: IdType) -> (added: Result<
        Task,
        InternalError,
    >)
        ensures
            final(db).continues(old(db)),
            completes(
                add_task_at(
                    final(db).journal(),
                    old(db).journal().len() as int,
                    task_candidate(what@, todo_id),
                ),
                final(db).journal(),
                outcome(added),
            ),
    {
        let id: IdType = 0;  // Only a placeholder
        let created_at = "CURRENT_TIMESTAMP";
        let updated_at = "CURRENT_TIMESTAMP";
        let status = Status::Todo;

        let task = Task::new(id, todo_id, what.as_str(), created_at, updated_at, status);

        TaskDAO::add(db, task)
    }

    /// Gives the task `id` a new text, a new status or both, and returns it
    /// as the store holds it afterwards.
    pub fn update(
        db: &mut Database,
        id: IdType,
        what_new: Option<String>,
        new_status: Option<Status>,
    ) -> (updated: Result<Task, InternalError>)
        ensures
            final(db).continues(old(db)),
            completes(
                revise_task_at(
                    final(db).journal(),
                    old(db).journal().len() as int,
                    id,
                    text_view(what_new),
                    status_view(new_status),
                ),
                final(db).journal(),
                outcome(updated),
            ),
    {
        let mut task = match TaskDAO::find(db, id) {
            Ok(task) => task,
            Err(error) => {
                return Err(error);
            },
        };

        if let Some(what) = what_new {
            task.set_what(what.as_str());
        }
        if let Some(status) = new_status {
            task.set_status(status);
        }

        TaskDAO::update(db, task)
    }

    /// The todo list that owns the task.
    pub fn todo(&self, db: &mut Database) -> (owner: Result<Todo, InternalError>)
        ensures
            final(db).continues(old(db)),
            completes(
                find_todo_at(final(db).journal(), old(db).journal().len() as int, self@.todo_id),
                final(db).journal(),
                outcome(owner),
            ),
    {
        Todo::find(db, *self.todo_id())
    }

    /// Makes both tables ready: a task needs the table of todo lists too.
    pub fn init_table(db: &mut Database) -> (outcome: Result<(), sqlite::Error>)
        ensures
            final(db).continues(old(db)),
            completes(
                init_tables_at(final(db).journal(), old(db).journal().len() as int),
                final(db).journal(),
                statement_outcome(outcome),
            ),
    {
        if let Err(error) = TodoDAO::init_table(db) {
            return Err(error);
        }
        TaskDAO::init_table(db)
    }
}

} // verus!
