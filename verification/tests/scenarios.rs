use todo::dal::{TaskDAO, TodoDAO};
use todo::db::Database;
use todo::entity::{Status, Task, Todo};
use todo::error::ErrorKind;

fn ready() -> Database {
    let mut db = Database::new(":memory:").unwrap();
    Task::init_table(&mut db).unwrap();
    db
}

#[test]
fn groceries_scenario() {
    let mut db = ready();

    let todo = Todo::add(&mut db, "groceries".to_string(), None).unwrap();
    assert_eq!(*todo.id(), 1);
    assert_eq!(todo.description(), None);
    assert_eq!(todo.name(), "groceries");

    let task = Task::add(&mut db, "buy milk".to_string(), 1).unwrap();
    assert_eq!(*task.id(), 1);
    assert_eq!(*task.todo_id(), 1);
    assert_eq!(*task.status(), Status::Todo);

    Task::update(&mut db, 1, None, Some(Status::Done("2024-01-01".to_string()))).unwrap();
    let found = Task::find(&mut db, 1).unwrap();
    assert_eq!(*found.status(), Status::Done("2024-01-01".to_string()));
    assert_eq!(found.what(), "buy milk");

    assert_eq!(todo.tasks(&mut db).len(), 1);

    Task::delete(&mut db, 1).unwrap();
    assert_eq!(todo.tasks(&mut db).len(), 0);
}

#[test]
fn find_returns_the_added_todo_in_all_fields() {
    let mut db = ready();
    let with = Todo::add(&mut db, "errands".to_string(), Some("on saturday".to_string())).unwrap();
    let without = Todo::add(&mut db, "chores".to_string(), None).unwrap();

    assert_eq!(Todo::find(&mut db, *with.id()).unwrap(), with);
    assert_eq!(Todo::find(&mut db, *without.id()).unwrap(), without);
    assert_eq!(with.description(), Some(&"on saturday".to_string()));
    assert_eq!(with.created_at(), with.updated_at());
    assert_eq!(with.created_at().len(), "2024-01-01 00:00:00".len());
}

#[test]
fn find_returns_the_added_task_in_all_fields() {
    let mut db = ready();
    let todo = Todo::add(&mut db, "errands".to_string(), None).unwrap();
    let task = Task::add(&mut db, "post the letter".to_string(), *todo.id()).unwrap();

    assert_eq!(Task::find(&mut db, *task.id()).unwrap(), task);
    assert_eq!(task.what(), "post the letter");
    assert_eq!(task.created_at(), task.updated_at());
}

#[test]
fn identifiers_are_never_handed_out_twice() {
    let mut db = ready();
    let first = Todo::add(&mut db, "one".to_string(), None).unwrap();
    let second = Todo::add(&mut db, "two".to_string(), None).unwrap();
    assert_eq!(*first.id(), 1);
    assert_eq!(*second.id(), 2);

    Todo::delete(&mut db, 2).unwrap();
    let third = Todo::add(&mut db, "three".to_string(), None).unwrap();
    assert_eq!(*third.id(), 3);

    let task_one = Task::add(&mut db, "a".to_string(), 1).unwrap();
    Task::delete(&mut db, *task_one.id()).unwrap();
    let task_two = Task::add(&mut db, "b".to_string(), 1).unwrap();
    assert_ne!(task_one.id(), task_two.id());
}

#[test]
fn update_without_a_change_keeps_the_date_of_change() {
    let mut db = ready();
    let todo = Todo::add(&mut db, "errands".to_string(), Some("on saturday".to_string())).unwrap();
    db.exec_sttmt("UPDATE todos SET updated_at = '2000-01-01 00:00:00' WHERE id = 1;").unwrap();

    let same = Todo::update(
        &mut db,
        *todo.id(),
        Some("errands".to_string()),
        Some("on saturday".to_string()),
    )
    .unwrap();
    assert_eq!(same.updated_at(), "2000-01-01 00:00:00");

    let untouched = Todo::update(&mut db, *todo.id(), None, None).unwrap();
    assert_eq!(untouched.updated_at(), "2000-01-01 00:00:00");
    assert_eq!(untouched.name(), "errands");
}

#[test]
fn update_of_the_name_refreshes_the_date_and_keeps_the_description() {
    let mut db = ready();
    let todo = Todo::add(&mut db, "errands".to_string(), Some("on saturday".to_string())).unwrap();
    db.exec_sttmt("UPDATE todos SET updated_at = '2000-01-01 00:00:00' WHERE id = 1;").unwrap();

    let renamed = Todo::update(&mut db, *todo.id(), Some("shopping".to_string()), None).unwrap();
    assert_eq!(renamed.name(), "shopping");
    assert_ne!(renamed.updated_at(), "2000-01-01 00:00:00");
    assert_eq!(renamed.description(), Some(&"on saturday".to_string()));
    assert_eq!(renamed.created_at(), todo.created_at());
    assert_eq!(renamed.id(), todo.id());
}

#[test]
fn update_of_the_description_keeps_the_name() {
    let mut db = ready();
    let todo = Todo::add(&mut db, "errands".to_string(), None).unwrap();
    let described = Todo::update(&mut db, *todo.id(), None, Some("by bike".to_string())).unwrap();
    assert_eq!(described.name(), "errands");
    assert_eq!(described.description(), Some(&"by bike".to_string()));
}

#[test]
fn update_of_a_task_that_changes_nothing_keeps_the_date_of_change() {
    let mut db = ready();
    Todo::add(&mut db, "errands".to_string(), None).unwrap();
    let task = Task::add(&mut db, "post the letter".to_string(), 1).unwrap();
    db.exec_sttmt("UPDATE tasks SET updated_at = '2000-01-01 00:00:00' WHERE id = 1;").unwrap();

    let same = Task::update(
        &mut db,
        *task.id(),
        Some("post the letter".to_string()),
        Some(Status::Todo),
    )
    .unwrap();
    assert_eq!(same.updated_at(), "2000-01-01 00:00:00");

    let done = Task::update(&mut db, 1, None, Some(Status::Done("2024-05-06".to_string()))).unwrap();
    assert_ne!(done.updated_at(), "2000-01-01 00:00:00");
    assert_eq!(*done.status(), Status::Done("2024-05-06".to_string()));
    assert_eq!(done.what(), "post the letter");

    let again = Task::update(&mut db, 1, None, Some(Status::Todo)).unwrap();
    assert_eq!(*again.status(), Status::Todo);
}

#[test]
fn a_deleted_todo_is_not_found() {
    let mut db = ready();
    let todo = Todo::add(&mut db, "errands".to_string(), None).unwrap();
    assert!(Todo::delete(&mut db, *todo.id()).is_ok());

    let error = Todo::find(&mut db, *todo.id()).unwrap_err();
    assert_eq!(error.kind(), ErrorKind::NotFound);
    assert_eq!(error.description(), "todo with id = 1 was not found in the database.");

    let again = Todo::delete(&mut db, *todo.id()).unwrap_err();
    assert_eq!(again.kind(), ErrorKind::NotFound);
}

#[test]
fn a_deleted_task_is_not_found() {
    let mut db = ready();
    Todo::add(&mut db, "errands".to_string(), None).unwrap();
    let task = Task::add(&mut db, "post the letter".to_string(), 1).unwrap();
    assert!(Task::delete(&mut db, *task.id()).is_ok());

    let error = Task::find(&mut db, *task.id()).unwrap_err();
    assert_eq!(error.kind(), ErrorKind::NotFound);
    assert_eq!(error.to_string(), "task with id = 1 was not found in the database.");
}

#[test]
fn reading_before_initialization_finds_nothing() {
    let mut db = Database::new(":memory:").unwrap();
    assert!(Todo::all(&mut db).is_empty());
    assert!(Task::all(&mut db).is_empty());
    assert!(TodoDAO::all(&mut db).is_empty());
    assert!(TaskDAO::all(&mut db).is_empty());

    let detached = Todo::new(1, "x".to_string(), None, "c".to_string(), "u".to_string());
    assert!(detached.tasks(&mut db).is_empty());

    Todo::init_table(&mut db).unwrap();
    assert!(Todo::all(&mut db).is_empty());
    assert!(detached.tasks(&mut db).is_empty());
}

#[test]
fn find_before_initialization_reports_not_found() {
    let mut db = Database::new(":memory:").unwrap();
    let error = Todo::find(&mut db, 3).unwrap_err();
    assert_eq!(error.kind(), ErrorKind::NotFound);
    assert_eq!(error.description(), "todo with id = 3 was not found in the database.");
    assert_eq!(Task::find(&mut db, 3).unwrap_err().kind(), ErrorKind::NotFound);
    assert_eq!(Todo::delete(&mut db, 3).unwrap_err().kind(), ErrorKind::NotFound);
}

#[test]
fn writing_before_initialization_reports_the_missing_table() {
    let mut db = Database::new(":memory:").unwrap();
    let error = Todo::add(&mut db, "errands".to_string(), None).unwrap_err();
    assert_eq!(error.kind(), ErrorKind::TableNotInitialized);
    assert_eq!(error.description(), "table 'todos' was not initialed!");

    let error = Task::add(&mut db, "post".to_string(), 1).unwrap_err();
    assert_eq!(error.kind(), ErrorKind::TableNotInitialized);
    assert_eq!(error.description(), "table 'tasks' was not initialed!");

    let candidate = Todo::new(1, "x".to_string(), None, "c".to_string(), "u".to_string());
    let error = TodoDAO::update(&mut db, candidate).unwrap_err();
    assert_eq!(error.kind(), ErrorKind::TableNotInitialized);
}

#[test]
fn a_task_belongs_to_its_todo() {
    let mut db = ready();
    let other = Todo::add(&mut db, "other".to_string(), None).unwrap();
    let todo = Todo::add(&mut db, "errands".to_string(), Some("soon".to_string())).unwrap();
    let task = Task::add(&mut db, "post the letter".to_string(), *todo.id()).unwrap();

    let tasks = todo.tasks(&mut db);
    assert!(tasks.iter().any(|t| t.what() == "post the letter"));
    assert_eq!(tasks, vec![Task::find(&mut db, *task.id()).unwrap()]);
    assert_eq!(task.todo(&mut db).unwrap(), todo);
    assert!(other.tasks(&mut db).is_empty());
}

#[test]
fn a_task_needs_an_existing_todo() {
    let mut db = ready();
    let error = Task::add(&mut db, "post the letter".to_string(), 7).unwrap_err();
    assert_eq!(error.kind(), ErrorKind::NotFound);
    assert_eq!(error.description(), "todo with id = 7 was not found in the database.");
    assert!(Task::all(&mut db).is_empty());
}

#[test]
fn deleting_a_todo_leaves_its_tasks() {
    let mut db = ready();
    let todo = Todo::add(&mut db, "errands".to_string(), None).unwrap();
    let task = Task::add(&mut db, "post the letter".to_string(), *todo.id()).unwrap();
    Todo::delete(&mut db, *todo.id()).unwrap();

    assert_eq!(Task::find(&mut db, *task.id()).unwrap(), task);
    assert_eq!(task.todo(&mut db).unwrap_err().kind(), ErrorKind::NotFound);
    assert_eq!(todo.tasks(&mut db).len(), 1);
}

#[test]
fn a_candidate_with_a_taken_identifier_is_refused() {
    let mut db = ready();
    Todo::add(&mut db, "errands".to_string(), None).unwrap();
    let candidate = Todo::new(1, "again".to_string(), None, "c".to_string(), "u".to_string());
    let error = TodoDAO::add(&mut db, candidate).unwrap_err();
    assert_eq!(error.kind(), ErrorKind::DuplicateId);
    assert_eq!(error.description(), "todo with id = 1, is already in use in the table");
    assert_eq!(Todo::all(&mut db).len(), 1);

    Task::add(&mut db, "post".to_string(), 1).unwrap();
    let candidate = Task::new(1, 1, "again", "c", "u", Status::Todo);
    let error = TaskDAO::add(&mut db, candidate).unwrap_err();
    assert_eq!(error.kind(), ErrorKind::DuplicateId);
    assert_eq!(error.description(), "task with id = 1, is already in use in the table");
}

#[test]
fn a_candidate_with_a_free_identifier_gets_the_identifier_of_the_store() {
    let mut db = ready();
    let candidate = Todo::new(40, "errands".to_string(), None, "c".to_string(), "u".to_string());
    let added = TodoDAO::add(&mut db, candidate).unwrap();
    assert_eq!(*added.id(), 1);
    assert_ne!(added.created_at(), "c");
}

#[test]
fn a_task_may_be_added_as_done() {
    let mut db = ready();
    Todo::add(&mut db, "errands".to_string(), None).unwrap();
    let candidate = Task::new(0, 1, "post", "c", "u", Status::Done("2024-02-03".to_string()));
    let added = TaskDAO::add(&mut db, candidate).unwrap();
    assert_eq!(*added.status(), Status::Done("2024-02-03".to_string()));
}

#[test]
fn update_of_a_missing_row_reports_not_found() {
    let mut db = ready();
    let error = Todo::update(&mut db, 9, Some("x".to_string()), None).unwrap_err();
    assert_eq!(error.kind(), ErrorKind::NotFound);
    let error = Task::update(&mut db, 9, Some("x".to_string()), None).unwrap_err();
    assert_eq!(error.kind(), ErrorKind::NotFound);
    assert_eq!(error.description(), "task with id = 9 was not found in the database.");
    let candidate = Task::new(9, 1, "again", "c", "u", Status::Todo);
    assert_eq!(TaskDAO::update(&mut db, candidate).unwrap_err().kind(), ErrorKind::NotFound);
}

#[test]
fn texts_with_quotes_are_stored_as_they_are() {
    let mut db = ready();
    let name = "it's here: '' and ' again".to_string();
    let description = "Robert'); DROP TABLE todos; --".to_string();
    let todo = Todo::add(&mut db, name.clone(), Some(description.clone())).unwrap();
    assert_eq!(todo.name(), &name);
    assert_eq!(todo.description(), Some(&description));
    assert_eq!(Todo::all(&mut db).len(), 1);

    let renamed = Todo::update(&mut db, 1, Some("'".to_string()), Some("''".to_string())).unwrap();
    assert_eq!(renamed.name(), "'");
    assert_eq!(renamed.description(), Some(&"''".to_string()));

    let task = Task::add(&mut db, "don't forget".to_string(), 1).unwrap();
    assert_eq!(task.what(), "don't forget");
    let done = Task::update(&mut db, 1, Some("'quoted'".to_string()), Some(Status::Done("o'clock".to_string()))).unwrap();
    assert_eq!(done.what(), "'quoted'");
    assert_eq!(*done.status(), Status::Done("o'clock".to_string()));
}

#[test]
fn an_empty_description_is_not_an_absent_one() {
    let mut db = ready();
    let todo = Todo::add(&mut db, "errands".to_string(), Some(String::new())).unwrap();
    assert_eq!(todo.description(), Some(&String::new()));
    let other = Todo::add(&mut db, "chores".to_string(), None).unwrap();
    assert_eq!(other.description(), None);
}

#[test]
fn initialization_may_be_repeated() {
    let mut db = Database::new(":memory:").unwrap();
    Todo::init_table(&mut db).unwrap();
    Todo::add(&mut db, "errands".to_string(), None).unwrap();
    Todo::init_table(&mut db).unwrap();
    Task::init_table(&mut db).unwrap();
    Task::init_table(&mut db).unwrap();
    assert_eq!(Todo::all(&mut db).len(), 1);
    assert!(Task::all(&mut db).is_empty());
}

#[test]
fn texts_of_any_script_are_stored_as_they_are() {
    let mut db = ready();
    let name = "na\u{ef}ve \u{2013} \u{65e5}\u{672c}\u{8a9e} \"quoted\" 100%; -- /* */".to_string();
    let todo = Todo::add(&mut db, name.clone(), Some("line\nbreak\ttab".to_string())).unwrap();
    assert_eq!(todo.name(), &name);
    assert_eq!(todo.description(), Some(&"line\nbreak\ttab".to_string()));
    assert_eq!(Todo::find(&mut db, *todo.id()).unwrap(), todo);
}
