//! Todo lists that hold their tasks in memory.
//!
//! A todo list owns its tasks and finds them by identifier; it takes no
//! second task with an identifier that one of its tasks has already.

use vstd::prelude::*;
use vstd::std_specs::cmp::PartialEqSpecImpl;
use vstd::string::StringExecFns;
use crate::entity::{same_text, text_view, StatusView};
use crate::text::{decimal, push_decimal};

verus! {

/// Used to define the current status of a task. The done pattern should be
/// used to store the date that the task was set as done.
#[derive(Debug)]
pub enum Status {
    Done(String),
    Todo,
}

impl View for Status {
    type V = StatusView;

    open spec fn view(&self) -> StatusView {
        match self {
            Status::Done(date) => StatusView::Done(date@),
            Status::Todo => StatusView::Todo,
        }
    }
}

impl PartialEq for Status {
    fn eq(&self, other: &Self) -> (r: bool) {
        match (self, other) {
            (Status::Done(a), Status::Done(b)) => *a == *b,
            (Status::Todo, Status::Todo) => true,
            _ => false,
        }
    }
}

impl PartialEqSpecImpl for Status {
    open spec fn obeys_eq_spec() -> bool {
        true
    }

    open spec fn eq_spec(&self, other: &Self) -> bool {
        self@ == other@
    }
}

impl From<String> for Status {
    fn from(date_completed: String) -> (s: Self) {
        Status::Done(date_completed)
    }
}

impl vstd::std_specs::convert::FromSpecImpl<String> for Status {
    open spec fn obeys_from_spec() -> bool {
        true
    }

    open spec fn from_spec(date_completed: String) -> Self {
        Status::Done(date_completed)
    }
}

impl From<&str> for Status {
    fn from(date_completed: &str) -> (s: Self)
        ensures
            s@ == StatusView::Done(date_completed@),
    {
        Status::Done(String::from_str(date_completed))
    }
}

impl vstd::std_specs::convert::FromSpecImpl<&str> for Status {
    /// No `String` can be written from a `&str` in a specification, so the
    /// conversion is described by the `ensures` of `from` alone.
    open spec fn obeys_from_spec() -> bool {
        false
    }

    open spec fn from_spec(date_completed: &str) -> Self {
        arbitrary()
    }
}

/// A task is something the user wants to do.
#[derive(Debug)]
pub struct Task {
    id: u32,
    title: String,
    date_added: Option<String>,
    status: Status,
}

/// The mathematical content of a `Task`.
pub struct TaskView {
    pub id: u32,
    pub title: Seq<char>,
    pub date_added: Option<Seq<char>>,
    pub status: StatusView,
}

impl View for Task {
    type V = TaskView;

    closed spec fn view(&self) -> TaskView {
        TaskView {
            id: self.id,
            title: self.title@,
            date_added: text_view(self.date_added),
            status: self.status@,
        }
    }
}

impl DeepView for Task {
    type V = TaskView;

    open spec fn deep_view(&self) -> TaskView {
        self@
    }
}

impl PartialEq for Task {
    fn eq(&self, other: &Self) -> (r: bool) {
        self.id == other.id && self.title == other.title && same_text(
            &self.date_added,
            &other.date_added,
        ) && self.status == other.status
    }
}

impl PartialEqSpecImpl for Task {
    open spec fn obeys_eq_spec() -> bool {
        true
    }

    open spec fn eq_spec(&self, other: &Self) -> bool {
        self@ == other@
    }
}

/// Todo structure used to store a set of task to be done.
#[derive(Debug)]
pub struct Todo {
    id: u32,
    name: String,
    description: Option<String>,
    tasklist: Vec<Task>,
}

/// The mathematical content of a `Todo`.
pub struct TodoView {
    pub id: u32,
    pub name: Seq<char>,
    pub description: Option<Seq<char>>,
    pub tasks: Seq<TaskView>,
}

impl View for Todo {
    type V = TodoView;

    closed spec fn view(&self) -> TodoView {
        TodoView {
            id: self.id,
            name: self.name@,
            description: text_view(self.description),
            tasks: self.tasklist.deep_view(),
        }
    }
}

/// This error may be returned if one task is inserted more than one time
/// (repeating taskid) on the list.
#[derive(Debug)]
pub struct TaskInsertionErr {
    details: String,
}

impl View for TaskInsertionErr {
    type V = Seq<char>;

    closed spec fn view(&self) -> Seq<char> {
        self.details@
    }
}

/// The message of a task whose identifier is taken already.
pub open spec fn repeated_task_details(id: u32) -> Seq<char> {
    "Task id "@ + decimal(id as nat) + " has already been inserted into the list!"@
}

impl TaskInsertionErr {
    pub fn from(msg: String) -> (e: Self)
        ensures
            e@ == msg@,
    {
        Self { details: msg }
    }

    /// The message of the error.
    pub fn description(&self) -> (s: &str)
        ensures
            s@ == self@,
    {
        self.details.as_str()
    }

    /// The message of the error, as an owned string.
    pub fn to_string(&self) -> (s: String)
        ensures
            s@ == self@,
    {
        self.details.clone()
    }
}

impl Task {
    /// Creates a new task by determining the id and the title,
    /// others fields are set to default.
    pub fn new(id: u32, title: String) -> (task: Self)
        ensures
            task@ == (TaskView { id, title: title@, date_added: None, status: StatusView::Todo }),
    {
        Self { id, title, date_added: None, status: Status::Todo }
    }

    /// Creates a new task with the date on which it was added.
    pub fn with_date(id: u32, title: String, date_added: String) -> (task: Self)
        ensures
            task@ == (TaskView {
                id,
                title: title@,
                date_added: Some(date_added@),
                status: StatusView::Todo,
            }),
    {
        Self { id, title, date_added: Some(date_added), status: Status::Todo }
    }

    /// Creates a new task with a pre-defined status.
    pub fn with_status(id: u32, title: String, date_added: String, status: Status) -> (task: Self)
        ensures
            task@ == (TaskView {
                id,
                title: title@,
                date_added: Some(date_added@),
                status: status@,
            }),
    {
        Self { id, title, date_added: Some(date_added), status }
    }

    /// Sets the task status to a new one.
    pub fn set_status(&mut self, status: Status)
        ensures
            final(self)@ == (TaskView { status: status@, ..old(self)@ }),
    {
        self.status = status;
    }

    /// Sets a new date_added to the task.
    pub fn set_date_added(&mut self, date: String)
        ensures
            final(self)@ == (TaskView { date_added: Some(date@), ..old(self)@ }),
    {
        self.date_added = Some(date);
    }

    /// Sets a new title to the task.
    pub fn set_title(&mut self, title: String)
        ensures
            final(self)@ == (TaskView { title: title@, ..old(self)@ }),
    {
        self.title = title;
    }

    /// Returns the task's id.
    pub fn id(&self) -> (id: &u32)
        ensures
            *id == self@.id,
    {
        &self.id
    }

    /// Returns a reference to the date the task was added.
    pub fn date_added(&self) -> (date: &Option<String>)
        ensures
            text_view(*date) == self@.date_added,
    {
        &self.date_added
    }

    /// Returns a reference to the task's status.
    pub fn status(&self) -> (status: &Status)
        ensures
            status@ == self@.status,
    {
        &self.status
    }

    /// Returns a reference to the task's title.
    pub fn title(&self) -> (title: &String)
        ensures
            title@ == self@.title,
    {
        &self.title
    }
}

/// Whether one of `tasks` has the identifier `id`.
pub open spec fn holds(tasks: Seq<TaskView>, id: u32) -> bool {
    exists|i: int| 0 <= i < tasks.len() && tasks[i].id == id
}

/// Whether `i` is the position of the first of `tasks` that has the
/// identifier `id`.
pub open spec fn first_with(tasks: Seq<TaskView>, id: u32, i: int) -> bool {
    &&& 0 <= i < tasks.len()
    &&& tasks[i].id == id
    &&& forall|j: int| 0 <= j < i ==> tasks[j].id != id
}

/// Whether no two of `tasks` have the same identifier.
pub open spec fn distinct_ids(tasks: Seq<TaskView>) -> bool {
    forall|i: int, j: int| 0 <= i < j < tasks.len() ==> tasks[i].id != tasks[j].id
}

/// Whether `after` is `before` with `task` in place of the task at position
/// `i`.
pub open spec fn replaces(after: TodoView, before: TodoView, i: int, task: TaskView) -> bool {
    &&& after.id == before.id
    &&& after.name == before.name
    &&& after.description == before.description
    &&& after.tasks =~= before.tasks.update(i, task)
}

impl Todo {
    /// Creates a new list using its id and name
    pub fn new(id: u32, name: String) -> (todo: Self)
        ensures
            todo@ == (TodoView { id, name: name@, description: None, tasks: Seq::empty() }),
    {
        let todo = Self { id, name, description: None, tasklist: Vec::new() };
        assert(todo.tasklist.deep_view() =~= Seq::empty());
        todo
    }

    /// Creates a new list with description
    pub fn with_description(id: u32, name: String, desc: String) -> (todo: Self)
        ensures
            todo@ == (TodoView { id, name: name@, description: Some(desc@), tasks: Seq::empty() }),
    {
        let todo = Self { id, name, description: Some(desc), tasklist: Vec::new() };
        assert(todo.tasklist.deep_view() =~= Seq::empty());
        todo
    }

    /// Sets a new value to the name.
    pub fn set_name(&mut self, name: String)
        ensures
            final(self)@ == (TodoView { name: name@, ..old(self)@ }),
    {
        self.name = name;
    }

    /// Sets a new value to the description.
    pub fn set_description(&mut self, desc: String)
        ensures
            final(self)@ == (TodoView { description: Some(desc@), ..old(self)@ }),
    {
        self.description = Some(desc);
    }

    /// Returns a reference to the id.
    pub fn id(&self) -> (id: &u32)
        ensures
            *id == self@.id,
    {
        &self.id
    }

    /// Returns a reference to the name.
    pub fn name(&self) -> (name: &String)
        ensures
            name@ == self@.name,
    {
        &self.name
    }

    /// Returns a reference to the description.
    pub fn description(&self) -> (description: &Option<String>)
        ensures
            text_view(*description) == self@.description,
    {
        &self.description
    }

    /// Adds a new task to the tasklist, unless one of the tasks has its
    /// identifier already.
    pub fn add_task(&mut self, task: Task) -> (added: Result<(), TaskInsertionErr>)
        ensures
            match added {
                Ok(_) => {
                    &&& !holds(old(self)@.tasks, task@.id)
                    &&& final(self)@ == (TodoView {
                        tasks: old(self)@.tasks.push(task@),
                        ..old(self)@
                    })
                },
                Err(error) => {
                    &&& holds(old(self)@.tasks, task@.id)
                    &&& final(self)@ == old(self)@
                    &&& error@ == repeated_task_details(task@.id)
                },
            },
            distinct_ids(old(self)@.tasks) ==> distinct_ids(final(self)@.tasks),
    {
        match self.get_task_index(*task.id()) {
            Some(_) => {
                let mut msg = String::from_str("Task id ");
                push_decimal(&mut msg, *task.id() as u64);
                msg.append(" has already been inserted into the list!");
                Err(TaskInsertionErr::from(msg))
            },
            None => {
                let ghost before = self.tasklist.deep_view();
                self.tasklist.push(task);
                assert(self.tasklist.deep_view() =~= before.push(task@));
                Ok(())
            },
        }
    }

    /// Returns the task's index
    pub fn get_task_index(&self, taskid: u32) -> (index: Option<usize>)
        ensures
            match index {
                Some(i) => first_with(self@.tasks, taskid, i as int),
                None => !holds(self@.tasks, taskid),
            },
    {
        let mut i: usize = 0;
        while i < self.tasklist.len()
            invariant
                i <= self.tasklist.len(),
                forall|j: int| 0 <= j < i ==> self@.tasks[j].id != taskid,
            decreases self.tasklist.len() - i,
        {
            if *self.tasklist[i].id() == taskid {
                return Some(i);
            }
            i += 1;
        }
        None
    }

    /// Gets the task by searching for its ID on the tasklist
    pub fn get_task(&self, taskid: u32) -> (task: Option<&Task>)
        ensures
            match task {
                Some(t) => exists|i: int|
                    first_with(self@.tasks, taskid, i) && t@ == self@.tasks[i],
                None => !holds(self@.tasks, taskid),
            },
    {
        match self.get_task_index(taskid) {
            Some(idx) => Some(&self.tasklist[idx]),
            None => None,
        }
    }

    /// Gets the task by id, returning a mutable reference
    pub fn get_task_mut(&mut self, taskid: u32) -> (task: Option<&mut Task>)
        ensures
            match task {
                Some(t) => exists|i: int|
                    {
                        &&& first_with(old(self)@.tasks, taskid, i)
                        &&& t@ == old(self)@.tasks[i]
                        &&& replaces(final(self)@, old(self)@, i, final(t)@)
                    },
                None => !holds(old(self)@.tasks, taskid) && final(self)@ == old(self)@,
            },
    {
        match self.get_task_index(taskid) {
            Some(idx) => Some(&mut self.tasklist[idx]),
            None => None,
        }
    }
}

} // verus!
