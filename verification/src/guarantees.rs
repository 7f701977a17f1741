//! What the repositories guarantee, whatever the storage engine answers.
//!
//! The engine decides what a query shows.  Each law here says what the data
//! layer adds to that: what it sends, what it does not send, and that it
//! reads the same answer in the same way.  Where a law needs the engine to
//! show a certain answer, it says so in its `requires`.

use vstd::prelude::*;
use crate::dal::{
    add_task_at,
    add_todo_at,
    all_tasks_at,
    all_todos_at,
    delete_task_at,
    delete_todo_at,
    find_task_at,
    find_todo_at,
    revise_todo_at,
    task_entity,
    tasks_of_at,
    todo_entity,
    update_task_at,
    update_todo_at,
};
use crate::db::{after, ending, probe_at, statement_at, Exchange, Reply};
use crate::entity::{IdType, TaskView, TodoView};
use crate::error::{not_found_error, store_error, InternalErrorView};
use crate::row::{id_of, tasks_of_rows_keep_every_task, RowView};
use crate::sql::{
    delete_sql,
    insert_task_sql,
    insert_todo_sql,
    select_new_task_sql,
    select_new_todo_sql,
    tasks_table,
    todos_table,
    update_todo_name_sql,
};

verus! {

/// Before the table of todo lists is there, `all` finds nothing and fails
/// with nothing: where the probe fails, only the probe is sent and the result
/// is empty.
pub proof fn no_todos_before_initialization(journal: Seq<Exchange>, at: int)
    requires
        !probe_at(journal, at, todos_table()).result,
    ensures
        all_todos_at(journal, at) == ending(
            probe_at(journal, at, todos_table()),
            Seq::<TodoView>::empty(),
        ),
{
}

/// Before the table of tasks is there, `all` finds nothing and fails with
/// nothing: where the probe fails, only the probe is sent and the result is
/// empty.
pub proof fn no_tasks_before_initialization(journal: Seq<Exchange>, at: int)
    requires
        !probe_at(journal, at, tasks_table()).result,
    ensures
        all_tasks_at(journal, at) == ending(
            probe_at(journal, at, tasks_table()),
            Seq::<TaskView>::empty(),
        ),
{
}

/// Before both tables are there, a todo list has no tasks: where one of the
/// two probes fails, no query is sent and the result is empty.
pub proof fn no_tasks_of_a_todo_before_initialization(
    journal: Seq<Exchange>,
    at: int,
    todo_id: IdType,
)
    requires
        !probe_at(journal, at, todos_table()).result || !probe_at(
            journal,
            at + 1,
            tasks_table(),
        ).result,
    ensures
        tasks_of_at(journal, at, todo_id).result == Seq::<TaskView>::empty(),
        tasks_of_at(journal, at, todo_id).end == if probe_at(journal, at, todos_table()).result {
            at + 2
        } else {
            at + 1
        },
{
}

/// An update that changes nothing writes nothing: where the stored todo list
/// has the name and the description of the candidate, the update is the
/// probe and two readings, and no statement stands between them that could
/// touch the date of change.
pub proof fn update_without_change_only_reads(
    journal: Seq<Exchange>,
    at: int,
    candidate: TodoView,
    stored: TodoView,
)
    requires
        probe_at(journal, at, todos_table()).result,
        find_todo_at(journal, at + 1, candidate.id).result == Ok::<TodoView, InternalErrorView>(
            stored,
        ),
        candidate.name == stored.name,
        candidate.description == stored.description,
    ensures
        update_todo_at(journal, at, candidate) == after(
            after(
                probe_at(journal, at, todos_table()),
                find_todo_at(journal, at + 1, candidate.id),
            ),
            find_todo_at(journal, at + 3, candidate.id),
        ),
{
}

/// An update of the name alone writes the name alone: where the stored todo
/// list has the description of the candidate and another name, one statement
/// stands between the two readings, the one that sets the name and refreshes
/// the date of change; none is sent for the description.
pub proof fn update_of_the_name_writes_the_name_alone(
    journal: Seq<Exchange>,
    at: int,
    candidate: TodoView,
    stored: TodoView,
)
    requires
        probe_at(journal, at, todos_table()).result,
        find_todo_at(journal, at + 1, candidate.id).result == Ok::<TodoView, InternalErrorView>(
            stored,
        ),
        candidate.name != stored.name,
        candidate.description == stored.description,
    ensures
        update_todo_at(journal, at, candidate) == ({
            let write = after(
                after(
                    probe_at(journal, at, todos_table()),
                    find_todo_at(journal, at + 1, candidate.id),
                ),
                statement_at(journal, at + 3, update_todo_name_sql(candidate.id, candidate.name)),
            );
            match write.result {
                Err(message) => ending(write, Err(store_error(message))),
                Ok(_) => after(write, find_todo_at(journal, at + 4, candidate.id)),
            }
        }),
{
}

/// A revision that asks for what is stored writes nothing: where the new
/// name and the new description, as far as they are given, are those of the
/// stored todo list, and the engine shows the repository the same name and
/// description again, the revision consists of readings alone.
pub proof fn revision_without_change_only_reads(
    journal: Seq<Exchange>,
    at: int,
    id: IdType,
    new_name: Option<Seq<char>>,
    new_description: Option<Seq<char>>,
    stored: TodoView,
    again: TodoView,
)
    requires
        find_todo_at(journal, at, id).result == Ok::<TodoView, InternalErrorView>(stored),
        new_name is None || new_name == Some(stored.name),
        new_description is None || new_description == stored.description,
        probe_at(journal, at + 2, todos_table()).result,
        find_todo_at(journal, at + 3, id).result == Ok::<TodoView, InternalErrorView>(again),
        again.name == stored.name,
        again.description == stored.description,
    ensures
        revise_todo_at(journal, at, id, new_name, new_description) == after(
            after(
                after(find_todo_at(journal, at, id), probe_at(journal, at + 2, todos_table())),
                find_todo_at(journal, at + 3, id),
            ),
            find_todo_at(journal, at + 5, id),
        ),
{
}

/// An update of a task that changes nothing writes nothing: where the stored
/// task has the text and the status of the candidate, the update is the
/// probe and two readings.
pub proof fn update_of_a_task_without_change_only_reads(
    journal: Seq<Exchange>,
    at: int,
    candidate: TaskView,
    stored: TaskView,
)
    requires
        probe_at(journal, at, tasks_table()).result,
        find_task_at(journal, at + 1, candidate.id).result == Ok::<TaskView, InternalErrorView>(
            stored,
        ),
        candidate.what == stored.what,
        candidate.status == stored.status,
    ensures
        update_task_at(journal, at, candidate) == after(
            after(
                probe_at(journal, at, tasks_table()),
                find_task_at(journal, at + 1, candidate.id),
            ),
            find_task_at(journal, at + 3, candidate.id),
        ),
{
}

/// `find` reads a new todo list as `add` read it: where `add` returned a
/// todo list, and the engine answers the query for its identifier as it
/// answered the reading after the insertion, `find` returns the same todo
/// list, equal in all fields.
pub proof fn find_returns_what_add_returned(
    journal: Seq<Exchange>,
    added_at: int,
    found_at: int,
    candidate: TodoView,
    added: TodoView,
)
    requires
        add_todo_at(journal, added_at, candidate).valid,
        add_todo_at(journal, added_at, candidate).result == Ok::<TodoView, InternalErrorView>(
            added,
        ),
        probe_at(journal, found_at, todos_table()).result,
        journal[found_at + 1].reply == journal[add_todo_at(
            journal,
            added_at,
            candidate,
        ).end - 1].reply,
    ensures
        find_todo_at(journal, found_at, added.id).result == Ok::<TodoView, InternalErrorView>(
            added,
        ),
{
}

/// `find` reads a new task as `add` read it: where `add` returned a task, and
/// the engine answers the query for its identifier as it answered the reading
/// after the insertion, `find` returns the same task, equal in all fields.
pub proof fn find_returns_the_task_that_add_returned(
    journal: Seq<Exchange>,
    added_at: int,
    found_at: int,
    candidate: TaskView,
    added: TaskView,
)
    requires
        add_task_at(journal, added_at, candidate).valid,
        add_task_at(journal, added_at, candidate).result == Ok::<TaskView, InternalErrorView>(
            added,
        ),
        probe_at(journal, found_at, tasks_table()).result,
        journal[found_at + 1].reply == journal[add_task_at(
            journal,
            added_at,
            candidate,
        ).end - 1].reply,
    ensures
        find_task_at(journal, found_at, added.id).result == Ok::<TaskView, InternalErrorView>(
            added,
        ),
{
}

/// What `find` returns has the identifier that was asked for.
pub proof fn found_has_the_identifier(journal: Seq<Exchange>, at: int, id: IdType)
    ensures
        find_todo_at(journal, at, id).result matches Ok(todo) ==> todo.id == id,
        find_task_at(journal, at, id).result matches Ok(task) ==> task.id == id,
{
}

/// A deletion that succeeds has deleted: the last exchange of the run is the
/// statement that deletes the row `id`, and the engine did not refuse it.
pub proof fn delete_succeeds_by_deleting(journal: Seq<Exchange>, at: int, id: IdType)
    ensures
        delete_todo_at(journal, at, id).valid && delete_todo_at(journal, at, id).result is Ok ==> {
            let last = journal[delete_todo_at(journal, at, id).end - 1];
            last.statement == delete_sql(todos_table(), id) && last.reply is Done
        },
        delete_task_at(journal, at, id).valid && delete_task_at(journal, at, id).result is Ok ==> {
            let last = journal[delete_task_at(journal, at, id).end - 1];
            last.statement == delete_sql(tasks_table(), id) && last.reply is Done
        },
{
}

/// A row that the engine shows no longer is not found: where the engine
/// answers the query for `id` with no rows, as it does after a deletion,
/// `find` fails with the error of a missing row.
pub proof fn find_without_a_row_is_not_found(journal: Seq<Exchange>, at: int, id: IdType)
    requires
        journal[at + 1].reply == Reply::Rows(Seq::empty()),
    ensures
        find_todo_at(journal, at, id).result == Err::<TodoView, InternalErrorView>(
            not_found_error(todo_entity(), id),
        ),
        find_task_at(journal, at, id).result == Err::<TaskView, InternalErrorView>(
            not_found_error(task_entity(), id),
        ),
{
}

/// A task is stored under the todo list that it was added to: where `add`
/// succeeds, the todo list that the candidate names was found, and the
/// statement that the engine accepted inserts the candidate's text under
/// that identifier.
pub proof fn added_task_is_stored_under_its_todo(
    journal: Seq<Exchange>,
    at: int,
    candidate: TaskView,
)
    requires
        add_task_at(journal, at, candidate).valid,
        add_task_at(journal, at, candidate).result is Ok,
    ensures
        ({
            let taken = find_task_at(journal, at + 1, candidate.id);
            let owner = find_todo_at(journal, taken.end, candidate.todo_id);
            let insert = journal[add_task_at(journal, at, candidate).end - 2];
            &&& owner.result matches Ok(todo) && todo.id == candidate.todo_id
            &&& insert.statement == insert_task_sql(
                candidate.todo_id,
                candidate.what,
                candidate.status,
            )
            &&& insert.reply is Done
        }),
{
}

/// A new task is among the tasks of its todo list, as far as the engine
/// shows it: where `add` returned a task, both tables are ready, and the
/// rows that the engine shows for the todo list hold the row that it showed
/// after the insertion, the tasks that are read hold the task that `add`
/// returned.
pub proof fn added_task_is_among_the_tasks_of_its_todo(
    journal: Seq<Exchange>,
    added_at: int,
    listed_at: int,
    candidate: TaskView,
    added: TaskView,
    shown: Seq<RowView>,
    listed: Seq<RowView>,
)
    requires
        add_task_at(journal, added_at, candidate).valid,
        add_task_at(journal, added_at, candidate).result == Ok::<TaskView, InternalErrorView>(
            added,
        ),
        journal[add_task_at(journal, added_at, candidate).end - 1].reply == Reply::Rows(shown),
        probe_at(journal, listed_at, todos_table()).result,
        probe_at(journal, listed_at + 1, tasks_table()).result,
        journal[listed_at + 2].reply == Reply::Rows(listed),
        listed.contains(shown[0]),
    ensures
        tasks_of_at(journal, listed_at, candidate.todo_id).result.contains(added),
{
    let i = choose|i: int| 0 <= i < listed.len() && listed[i] == shown[0];
    tasks_of_rows_keep_every_task(listed, i);
}

/// The todo list of a new task is the one under which it was added, as far
/// as the engine shows it: where `add` returned a task that carries the
/// identifier of the candidate's todo list, and the engine answers the query
/// for that todo list as it answered when the task was added, `todo` returns
/// the todo list that was found then.
pub proof fn owner_of_added_task_is_its_todo(
    journal: Seq<Exchange>,
    added_at: int,
    owner_at: int,
    candidate: TaskView,
    added: TaskView,
)
    requires
        add_task_at(journal, added_at, candidate).valid,
        add_task_at(journal, added_at, candidate).result == Ok::<TaskView, InternalErrorView>(
            added,
        ),
        added.todo_id == candidate.todo_id,
        probe_at(journal, owner_at, todos_table()).result,
        journal[owner_at + 1].reply == journal[find_task_at(
            journal,
            added_at + 1,
            candidate.id,
        ).end + 1].reply,
    ensures
        find_todo_at(journal, owner_at, added.todo_id).result is Ok,
        find_todo_at(journal, owner_at, added.todo_id).result == find_todo_at(
            journal,
            find_task_at(journal, added_at + 1, candidate.id).end,
            candidate.todo_id,
        ).result,
{
}

/// The store assigns the identifier: what `add` returns carries the
/// identifier of the row that the engine shows as the one inserted last,
/// whatever identifier the candidate carries, and the statement that inserts
/// names no identifier.
pub proof fn the_store_assigns_the_identifier(
    journal: Seq<Exchange>,
    at: int,
    candidate: TodoView,
    added: TodoView,
    shown: Seq<RowView>,
)
    requires
        add_todo_at(journal, at, candidate).valid,
        add_todo_at(journal, at, candidate).result == Ok::<TodoView, InternalErrorView>(added),
        journal[add_todo_at(journal, at, candidate).end - 1].reply == Reply::Rows(shown),
    ensures
        id_of(shown[0][0]) == Some(added.id),
        journal[add_todo_at(journal, at, candidate).end - 1].statement == select_new_todo_sql(),
        journal[add_todo_at(journal, at, candidate).end - 2].statement == insert_todo_sql(
            candidate.name,
            candidate.description,
        ),
{
}

/// The store assigns the identifier of a task as well: what `add` returns
/// carries the identifier of the row that the engine shows as the one
/// inserted last.
pub proof fn the_store_assigns_the_identifier_of_a_task(
    journal: Seq<Exchange>,
    at: int,
    candidate: TaskView,
    added: TaskView,
    shown: Seq<RowView>,
)
    requires
        add_task_at(journal, at, candidate).valid,
        add_task_at(journal, at, candidate).result == Ok::<TaskView, InternalErrorView>(added),
        journal[add_task_at(journal, at, candidate).end - 1].reply == Reply::Rows(shown),
    ensures
        id_of(shown[0][0]) == Some(added.id),
        journal[add_task_at(journal, at, candidate).end - 1].statement == select_new_task_sql(),
{
}

} // verus!
