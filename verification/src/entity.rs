//! The entities of the data layer: todo lists, their tasks and a task's status.

use vstd::prelude::*;
use vstd::std_specs::cmp::PartialEqSpecImpl;
use vstd::string::StringExecFns;

verus! {

/// The type of the identifiers that the store assigns.
pub type IdType = u64;

/// The current status of a task. `Done` carries the date on which the task
/// was completed.
#[derive(Debug)]
pub enum Status {
    Done(String),
    Todo,
}

/// The mathematical content of a `Status`.
pub enum StatusView {
    Done(Seq<char>),
    Todo,
}

impl View for Status {
    type V = StatusView;

    open spec fn view(&self) -> StatusView {
        match self {
            Status::Done(date) => StatusView::Done(date@),
            Status::Todo => StatusView::Todo,
        }
    }
}

impl PartialEq for Status {
    fn eq(&self, other: &Self) -> (r: bool) {
        match (self, other) {
            (Status::Done(a), Status::Done(b)) => *a == *b,
            (Status::Todo, Status::Todo) => true,
            _ => false,
        }
    }
}

impl PartialEqSpecImpl for Status {
    open spec fn obeys_eq_spec() -> bool {
        true
    }

    open spec fn eq_spec(&self, other: &Self) -> bool {
        self@ == other@
    }
}

impl From<String> for Status {
    fn from(date_completed: String) -> (s: Self) {
        Status::Done(date_completed)
    }
}

impl vstd::std_specs::convert::FromSpecImpl<String> for Status {
    open spec fn obeys_from_spec() -> bool {
        true
    }

    open spec fn from_spec(date_completed: String) -> Self {
        Status::Done(date_completed)
    }
}

impl From<&str> for Status {
    fn from(date_completed: &str) -> (s: Self)
        ensures
            s@ == StatusView::Done(date_completed@),
    {
        Status::Done(String::from_str(date_completed))
    }
}

impl vstd::std_specs::convert::FromSpecImpl<&str> for Status {
    /// No `String` can be written from a `&str` in a specification, so the
    /// conversion is described by the `ensures` of `from` alone.
    open spec fn obeys_from_spec() -> bool {
        false
    }

    open spec fn from_spec(date_completed: &str) -> Self {
        arbitrary()
    }
}

/// The view of an optional text.
pub open spec fn text_view(text: Option<String>) -> Option<Seq<char>> {
    match text {
        Some(s) => Some(s@),
        None => None,
    }
}

/// Whether two optional texts hold the same characters, or are both absent.
pub fn same_text(a: &Option<String>, b: &Option<String>) -> (r: bool)
    ensures
        r == (text_view(*a) == text_view(*b)),
{
    match (a, b) {
        (Some(x), Some(y)) => *x == *y,
        (None, None) => true,
        _ => false,
    }
}

/// A named list of tasks.
#[derive(Debug)]
pub struct Todo {
    id: IdType,
    name: String,
    description: Option<String>,
    created_at: String,
    updated_at: String,
}

/// The mathematical content of a `Todo`.
pub struct TodoView {
    pub id: IdType,
    pub name: Seq<char>,
    pub description: Option<Seq<char>>,
    pub created_at: Seq<char>,
    pub updated_at: Seq<char>,
}

impl View for Todo {
    type V = TodoView;

    closed spec fn view(&self) -> TodoView {
        TodoView {
            id: self.id,
            name: self.name@,
            description: text_view(self.description),
            created_at: self.created_at@,
            updated_at: self.updated_at@,
        }
    }
}

impl DeepView for Todo {
    type V = TodoView;

    open spec fn deep_view(&self) -> TodoView {
        self@
    }
}

impl PartialEq for Todo {
    fn eq(&self, other: &Self) -> (r: bool) {
        self.id == other.id && self.name == other.name && same_text(
            &self.description,
            &other.description,
        ) && self.created_at == other.created_at && self.updated_at == other.updated_at
    }
}

impl PartialEqSpecImpl for Todo {
    open spec fn obeys_eq_spec() -> bool {
        true
    }

    open spec fn eq_spec(&self, other: &Self) -> bool {
        self@ == other@
    }
}

impl Todo {
    pub fn new(
        id: IdType,
        name: String,
        description: Option<String>,
        created_at: String,
        updated_at: String,
    ) -> (todo: Self)
        ensures
            todo@ == (TodoView {
                id,
                name: name@,
                description: text_view(description),
                created_at: created_at@,
                updated_at: updated_at@,
            }),
    {
        Self { id, name, description, created_at, updated_at }
    }

    /// Sets a new value to the name.
    pub fn set_name(&mut self, name: &str)
        ensures
            final(self)@ == (TodoView { name: name@, ..old(self)@ }),
    {
        self.name = String::from_str(name);
    }

    /// Sets a new value to the description.
    pub fn set_description(&mut self, description: &str)
        ensures
            final(self)@ == (TodoView { description: Some(description@), ..old(self)@ }),
    {
        self.description = Some(String::from_str(description));
    }

    pub fn set_updated_at(&mut self, datetime: &str)
        ensures
            final(self)@ == (TodoView { updated_at: datetime@, ..old(self)@ }),
    {
        self.updated_at = String::from_str(datetime);
    }

    /// Reference the id.
    pub fn id(&self) -> (id: &IdType)
        ensures
            *id == self@.id,
    {
        &self.id
    }

    /// References the name.
    pub fn name(&self) -> (name: &String)
        ensures
            name@ == self@.name,
    {
        &self.name
    }

    /// References the description.
    pub fn description(&self) -> (description: Option<&String>)
        ensures
            match description {
                Some(text) => self@.description == Some(text@),
                None => self@.description is None,
            },
    {
        self.description.as_ref()
    }

    /// References the date of creation.
    pub fn created_at(&self) -> (created_at: &String)
        ensures
            created_at@ == self@.created_at,
    {
        &self.created_at
    }

    /// References the date of the last change.
    pub fn updated_at(&self) -> (updated_at: &String)
        ensures
            updated_at@ == self@.updated_at,
    {
        &self.updated_at
    }
}

/// Something to do; it belongs to the todo list whose identifier it carries.
#[derive(Debug)]
pub struct Task {
    id: IdType,
    todo_id: IdType,
    what: String,
    created_at: String,
    updated_at: String,
    status: Status,
}

/// The mathematical content of a `Task`.
pub struct TaskView {
    pub id: IdType,
    pub todo_id: IdType,
    pub what: Seq<char>,
    pub created_at: Seq<char>,
    pub updated_at: Seq<char>,
    pub status: StatusView,
}

impl View for Task {
    type V = TaskView;

    closed spec fn view(&self) -> TaskView {
        TaskView {
            id: self.id,
            todo_id: self.todo_id,
            what: self.what@,
            created_at: self.created_at@,
            updated_at: self.updated_at@,
            status: self.status@,
        }
    }
}

impl DeepView for Task {
    type V = TaskView;

    open spec fn deep_view(&self) -> TaskView {
        self@
    }
}

impl PartialEq for Task {
    fn eq(&self, other: &Self) -> (r: bool) {
        self.id == other.id && self.todo_id == other.todo_id && self.what == other.what
            && self.created_at == other.created_at && self.updated_at == other.updated_at
            && self.status == other.status
    }
}

impl PartialEqSpecImpl for Task {
    open spec fn obeys_eq_spec() -> bool {
        true
    }

    open spec fn eq_spec(&self, other: &Self) -> bool {
        self@ == other@
    }
}

impl Task {
    pub fn new(
        id: IdType,
        todo_id: IdType,
        what: &str,
        created_at: &str,
        updated_at: &str,
        status: Status,
    ) -> (task: Self)
        ensures
            task@ == (TaskView {
                id,
                todo_id,
                what: what@,
                created_at: created_at@,
                updated_at: updated_at@,
                status: status@,
            }),
    {
        Self {
            id,
            todo_id,
            status,
            what: String::from_str(what),
            created_at: String::from_str(created_at),
            updated_at: String::from_str(updated_at),
        }
    }

    pub fn set_status(&mut self, status: Status)
        ensures
            final(self)@ == (TaskView { status: status@, ..old(self)@ }),
    {
        self.status = status;
    }

    pub fn set_updated_at(&mut self, datetime: &str)
        ensures
            final(self)@ == (TaskView { updated_at: datetime@, ..old(self)@ }),
    {
        self.updated_at = String::from_str(datetime);
    }

    pub fn set_what(&mut self, what_new: &str)
        ensures
            final(self)@ == (TaskView { what: what_new@, ..old(self)@ }),
    {
        self.what = String::from_str(what_new);
    }

    /// References the task's id.
    pub fn id(&self) -> (id: &IdType)
        ensures
            *id == self@.id,
    {
        &self.id
    }

    pub fn todo_id(&self) -> (todo_id: &IdType)
        ensures
            *todo_id == self@.todo_id,
    {
        &self.todo_id
    }

    pub fn created_at(&self) -> (created_at: &String)
        ensures
            created_at@ == self@.created_at,
    {
        &self.created_at
    }

    pub fn updated_at(&self) -> (updated_at: &String)
        ensures
            updated_at@ == self@.updated_at,
    {
        &self.updated_at
    }

    /// Reference the status of the task.
    pub fn status(&self) -> (status: &Status)
        ensures
            status@ == self@.status,
    {
        &self.status
    }

    /// References the text of the task.
    pub fn what(&self) -> (what: &String)
        ensures
            what@ == self@.what,
    {
        &self.what
    }
}

} // verus!
