//! Result rows and the entities that they denote.
//!
//! A row is a sequence of typed cells in the order of the selected columns.
//! Todo rows are `id, name, description, created_at, updated_at`; task rows
//! are `id, what, todo_id, created_at, updated_at, completed_at`.

use vstd::prelude::*;
use crate::entity::{Status, StatusView, Task, TaskView, Todo, TodoView};

verus! {

/// One cell of a result row.
#[derive(Debug)]
pub enum Cell {
    /// An integer number.
    Integer(i64),
    /// A text.
    Text(String),
    /// Binary data.
    Binary(Vec<u8>),
    /// A floating-point number; no column of the data layer holds one, and
    /// its value is not kept.
    Float,
    /// The absence of a value.
    Null,
}

/// The mathematical content of a `Cell`.
pub enum CellView {
    Integer(i64),
    Text(Seq<char>),
    Binary(Seq<u8>),
    Float,
    Null,
}

impl View for Cell {
    type V = CellView;

    open spec fn view(&self) -> CellView {
        match self {
            Cell::Integer(n) => CellView::Integer(*n),
            Cell::Text(t) => CellView::Text(t@),
            Cell::Binary(b) => CellView::Binary(b@),
            Cell::Float => CellView::Float,
            Cell::Null => CellView::Null,
        }
    }
}

impl DeepView for Cell {
    type V = CellView;

    open spec fn deep_view(&self) -> CellView {
        self@
    }
}

/// A row as the mapping sees it.
pub type RowView = Seq<CellView>;

/// The identifier in a cell: a non-negative integer.
pub open spec fn id_of(cell: CellView) -> Option<u64> {
    match cell {
        CellView::Integer(n) if n >= 0 => Some(n as u64),
        _ => None,
    }
}

/// The text in a cell; a cell of any other type holds none.
pub open spec fn text_of(cell: CellView) -> Option<Seq<char>> {
    match cell {
        CellView::Text(t) => Some(t),
        _ => None,
    }
}

/// The status that a completion-date cell stands for: done on the date it
/// holds, or still to do where it holds no text.
pub open spec fn status_of(cell: CellView) -> StatusView {
    match cell {
        CellView::Text(date) => StatusView::Done(date),
        _ => StatusView::Todo,
    }
}

/// The todo that a row denotes, if it has the shape of a todo row: five
/// cells, of which the identifier is a non-negative integer and the name and
/// the two dates are texts.
pub open spec fn todo_of_row(row: RowView) -> Option<TodoView> {
    if row.len() == 5 && id_of(row[0]) is Some && text_of(row[1]) is Some && text_of(
        row[3],
    ) is Some && text_of(row[4]) is Some {
        Some(
            TodoView {
                id: id_of(row[0])->0,
                name: text_of(row[1])->0,
                description: text_of(row[2]),
                created_at: text_of(row[3])->0,
                updated_at: text_of(row[4])->0,
            },
        )
    } else {
        None
    }
}

/// The task that a row denotes, if it has the shape of a task row: six
/// cells, of which the two identifiers are non-negative integers and the text
/// and the two dates are texts.
pub open spec fn task_of_row(row: RowView) -> Option<TaskView> {
    if row.len() == 6 && id_of(row[0]) is Some && text_of(row[1]) is Some && id_of(row[2]) is Some
        && text_of(row[3]) is Some && text_of(row[4]) is Some {
        Some(
            TaskView {
                id: id_of(row[0])->0,
                what: text_of(row[1])->0,
                todo_id: id_of(row[2])->0,
                created_at: text_of(row[3])->0,
                updated_at: text_of(row[4])->0,
                status: status_of(row[5]),
            },
        )
    } else {
        None
    }
}

/// The todos that the rows denote, in the order of the rows; rows that do not
/// have the shape of a todo row are passed over.
pub open spec fn todos_of_rows(rows: Seq<RowView>) -> Seq<TodoView>
    decreases rows.len(),
{
    if rows.len() == 0 {
        Seq::empty()
    } else {
        match todo_of_row(rows.last()) {
            Some(todo) => todos_of_rows(rows.drop_last()).push(todo),
            None => todos_of_rows(rows.drop_last()),
        }
    }
}

/// The tasks that the rows denote, in the order of the rows; rows that do not
/// have the shape of a task row are passed over.
pub open spec fn tasks_of_rows(rows: Seq<RowView>) -> Seq<TaskView>
    decreases rows.len(),
{
    if rows.len() == 0 {
        Seq::empty()
    } else {
        match task_of_row(rows.last()) {
            Some(task) => tasks_of_rows(rows.drop_last()).push(task),
            None => tasks_of_rows(rows.drop_last()),
        }
    }
}

/// No todo row is lost: the todo that a row denotes is among the todos of
/// the rows.
pub proof fn todos_of_rows_keep_every_todo(rows: Seq<RowView>, i: int)
    requires
        0 <= i < rows.len(),
        todo_of_row(rows[i]) is Some,
    ensures
        todos_of_rows(rows).contains(todo_of_row(rows[i])->0),
    decreases rows.len(),
{
    let front = todos_of_rows(rows.drop_last());
    if i == rows.len() - 1 {
        assert(front.push(todo_of_row(rows[i])->0)[front.len() as int] == todo_of_row(rows[i])->0);
    } else {
        todos_of_rows_keep_every_todo(rows.drop_last(), i);
        let k = choose|k: int| 0 <= k < front.len() && front[k] == todo_of_row(rows[i])->0;
        assert(todos_of_rows(rows)[k] == todo_of_row(rows[i])->0);
    }
}

/// No todo is made up: each of the todos of the rows is denoted by one of
/// the rows.
pub proof fn todos_of_rows_come_from_rows(rows: Seq<RowView>, k: int)
    requires
        0 <= k < todos_of_rows(rows).len(),
    ensures
        exists|i: int| 0 <= i < rows.len() && todo_of_row(rows[i]) == Some(todos_of_rows(rows)[k]),
    decreases rows.len(),
{
    let front = todos_of_rows(rows.drop_last());
    if k < front.len() {
        todos_of_rows_come_from_rows(rows.drop_last(), k);
        let i = choose|i: int|
            0 <= i < rows.drop_last().len() && todo_of_row(rows.drop_last()[i]) == Some(front[k]);
        assert(todo_of_row(rows[i]) == Some(todos_of_rows(rows)[k]));
    } else {
        assert(todo_of_row(rows[rows.len() - 1]) == Some(todos_of_rows(rows)[k]));
    }
}

/// No task row is lost: the task that a row denotes is among the tasks of
/// the rows.
pub proof fn tasks_of_rows_keep_every_task(rows: Seq<RowView>, i: int)
    requires
        0 <= i < rows.len(),
        task_of_row(rows[i]) is Some,
    ensures
        tasks_of_rows(rows).contains(task_of_row(rows[i])->0),
    decreases rows.len(),
{
    let front = tasks_of_rows(rows.drop_last());
    if i == rows.len() - 1 {
        assert(front.push(task_of_row(rows[i])->0)[front.len() as int] == task_of_row(rows[i])->0);
    } else {
        tasks_of_rows_keep_every_task(rows.drop_last(), i);
        let k = choose|k: int| 0 <= k < front.len() && front[k] == task_of_row(rows[i])->0;
        assert(tasks_of_rows(rows)[k] == task_of_row(rows[i])->0);
    }
}

/// No task is made up: each of the tasks of the rows is denoted by one of
/// the rows.
pub proof fn tasks_of_rows_come_from_rows(rows: Seq<RowView>, k: int)
    requires
        0 <= k < tasks_of_rows(rows).len(),
    ensures
        exists|i: int| 0 <= i < rows.len() && task_of_row(rows[i]) == Some(tasks_of_rows(rows)[k]),
    decreases rows.len(),
{
    let front = tasks_of_rows(rows.drop_last());
    if k < front.len() {
        tasks_of_rows_come_from_rows(rows.drop_last(), k);
        let i = choose|i: int|
            0 <= i < rows.drop_last().len() && task_of_row(rows.drop_last()[i]) == Some(front[k]);
        assert(task_of_row(rows[i]) == Some(tasks_of_rows(rows)[k]));
    } else {
        assert(task_of_row(rows[rows.len() - 1]) == Some(tasks_of_rows(rows)[k]));
    }
}

/// The identifier in a cell.
pub fn cell_id(cell: &Cell) -> (id: Option<u64>)
    ensures
        id == id_of(cell@),
{
    match cell {
        Cell::Integer(n) => {
            if *n >= 0 {
                Some(*n as u64)
            } else {
                None
            }
        },
        _ => None,
    }
}

/// The text in a cell.
pub fn cell_text(cell: &Cell) -> (text: Option<&String>)
    ensures
        match text {
            Some(t) => text_of(cell@) == Some(t@),
            None => text_of(cell@) is None,
        },
{
    match cell {
        Cell::Text(t) => Some(t),
        _ => None,
    }
}

/// The status that a completion-date cell stands for.
pub fn cell_status(cell: &Cell) -> (status: Status)
    ensures
        status@ == status_of(cell@),
{
    match cell {
        Cell::Text(date) => Status::Done(date.clone()),
        _ => Status::Todo,
    }
}

/// The todo that a row denotes, read cell by cell.
pub fn todo_from_row(row: &Vec<Cell>) -> (todo: Option<Todo>)
    ensures
        todo.deep_view() == todo_of_row(row.deep_view()),
{
    if row.len() != 5 {
        return None;
    }
    let id = cell_id(&row[0]);
    let name = cell_text(&row[1]);
    let description = cell_text(&row[2]);
    let created_at = cell_text(&row[3]);
    let updated_at = cell_text(&row[4]);
    match (id, name, created_at, updated_at) {
        (Some(id), Some(name), Some(created_at), Some(updated_at)) => {
            let description = match description {
                Some(text) => Some(text.clone()),
                None => None,
            };
            Some(Todo::new(id, name.clone(), description, created_at.clone(), updated_at.clone()))
        },
        _ => None,
    }
}

/// The task that a row denotes, read cell by cell.
pub fn task_from_row(row: &Vec<Cell>) -> (task: Option<Task>)
    ensures
        task.deep_view() == task_of_row(row.deep_view()),
{
    if row.len() != 6 {
        return None;
    }
    let id = cell_id(&row[0]);
    let what = cell_text(&row[1]);
    let todo_id = cell_id(&row[2]);
    let created_at = cell_text(&row[3]);
    let updated_at = cell_text(&row[4]);
    match (id, what, todo_id, created_at, updated_at) {
        (Some(id), Some(what), Some(todo_id), Some(created_at), Some(updated_at)) => {
            let status = cell_status(&row[5]);
            Some(
                Task::new(
                    id,
                    todo_id,
                    what.as_str(),
                    created_at.as_str(),
                    updated_at.as_str(),
                    status,
                ),
            )
        },
        _ => None,
    }
}

/// The todos that the rows denote, in the order of the rows.
pub fn todos_from_rows(rows: &Vec<Vec<Cell>>) -> (todos: Vec<Todo>)
    ensures
        todos.deep_view() == todos_of_rows(rows.deep_view()),
{
    let mut todos: Vec<Todo> = Vec::new();
    let mut i: usize = 0;
    while i < rows.len()
        invariant
            i <= rows.len(),
            todos.deep_view() == todos_of_rows(rows.deep_view().take(i as int)),
        decreases rows.len() - i,
    {
        proof {
            let upto = rows.deep_view().take(i + 1);
            assert(upto.drop_last() =~= rows.deep_view().take(i as int));
        }
        if let Some(todo) = todo_from_row(&rows[i]) {
            todos.push(todo);
        }
        i += 1;
    }
    proof {
        assert(rows.deep_view().take(rows.len() as int) =~= rows.deep_view());
    }
    todos
}

/// The tasks that the rows denote, in the order of the rows.
pub fn tasks_from_rows(rows: &Vec<Vec<Cell>>) -> (tasks: Vec<Task>)
    ensures
        tasks.deep_view() == tasks_of_rows(rows.deep_view()),
{
    let mut tasks: Vec<Task> = Vec::new();
    let mut i: usize = 0;
    while i < rows.len()
        invariant
            i <= rows.len(),
            tasks.deep_view() == tasks_of_rows(rows.deep_view().take(i as int)),
        decreases rows.len() - i,
    {
        proof {
            let upto = rows.deep_view().take(i + 1);
            assert(upto.drop_last() =~= rows.deep_view().take(i as int));
        }
        if let Some(task) = task_from_row(&rows[i]) {
            tasks.push(task);
        }
        i += 1;
    }
    proof {
        assert(rows.deep_view().take(rows.len() as int) =~= rows.deep_view());
    }
    tasks
}

} // verus!
