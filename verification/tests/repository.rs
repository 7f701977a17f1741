use todo::prelude::{Database, Status, Task, Todo};

fn handle() -> Database {
    Database::new(":memory:").unwrap()
}

#[test]
fn test_todo_add() {
    let mut db = handle();
    Todo::init_table(&mut db).unwrap();

    let name = String::from("test");
    let description = Some(String::from("test cases for this app"));
    let todo = Todo::add(&mut db, name.clone(), description).unwrap();

    assert_eq!(name, *todo.name());
}

#[test]
fn test_todo_find() {
    let mut db = handle();
    Todo::init_table(&mut db).unwrap();

    let name = String::from("test");
    let description = Some(String::from("test cases for this app"));
    let todo = Todo::add(&mut db, name.clone(), description).unwrap();
    let res = Todo::find(&mut db, *todo.id()).unwrap();

    assert_eq!(name, *todo.name());
    assert_eq!(todo.name(), res.name());
}

#[test]
fn test_todo_update() {
    let mut db = handle();
    Todo::init_table(&mut db).unwrap();

    let name = String::from("test");
    let description = Some(String::from("test cases for this app"));
    let todo = Todo::add(&mut db, name.clone(), description).unwrap();
    let new_name = "Test Cases".to_string();
    let res = Todo::update(&mut db, *todo.id(), Some(new_name.clone()), None).unwrap();

    assert_eq!(todo.id(), res.id());
    assert_ne!(&new_name, todo.name());
    assert_eq!(&new_name, res.name());
}

#[test]
#[should_panic]
fn test_todo_delete() {
    let mut db = handle();
    Todo::init_table(&mut db).unwrap();

    let name = String::from("test");
    let description = Some(String::from("test cases for this app"));
    let todo = Todo::add(&mut db, name.clone(), description).unwrap();

    assert_ne!(Todo::delete(&mut db, *todo.id()).is_err(), true);

    /* Should Panic! */
    Todo::find(&mut db, *todo.id()).unwrap();
}

#[test]
fn test_todo_all() {
    let mut db = handle();
    Todo::init_table(&mut db).unwrap();

    Todo::add(&mut db, "uno".into(), Some("the first number".to_string())).unwrap();
    Todo::add(&mut db, String::from("dos"), None).unwrap();

    let todos = Todo::all(&mut db);

    assert!(todos.len() >= 2);
}

#[test]
fn test_task_add() {
    let mut db = handle();
    Todo::init_table(&mut db).unwrap();
    Task::init_table(&mut db).unwrap();

    let todo = Todo::add(&mut db, "test tasks".into(), None).unwrap();
    let task = Task::add(&mut db, "test task model".into(), *todo.id()).unwrap();

    assert_eq!(task.todo_id(), todo.id());
    assert_eq!(*task.status(), Status::Todo);
    assert_eq!(task.what(), "test task model");
}

#[test]
fn test_task_find() {
    let mut db = handle();
    Todo::init_table(&mut db).unwrap();
    Task::init_table(&mut db).unwrap();

    let todo = Todo::add(&mut db, "test tasks".into(), None).unwrap();
    let task = Task::add(&mut db, "test task model".into(), *todo.id()).unwrap();

    let res = Task::find(&mut db, *task.id()).unwrap();

    assert_eq!(task.id(), res.id());
    assert_eq!(task.todo_id(), res.todo_id());
    assert_eq!(task.what(), res.what());
}

#[test]
fn test_task_update() {
    let mut db = handle();
    Todo::init_table(&mut db).unwrap();
    Task::init_table(&mut db).unwrap();

    let todo = Todo::add(&mut db, "test tasks".into(), None).unwrap();

    let task = Task::add(&mut db, "test task model".into(), *todo.id()).unwrap();
    let reworded = ["testing this", " task"].concat();

    Task::update(
        &mut db,
        *task.id(),
        Some(reworded.clone()),
        Some(Status::Done("CURRENT_TIMESTAMP".to_string())),
    )
    .unwrap();

    let res = Task::find(&mut db, *task.id()).unwrap();

    assert_eq!(res.id(), task.id());
    assert_ne!(res.what(), "test task model");
    assert_eq!(res.what(), &reworded);
}

#[test]
#[should_panic]
fn test_task_delete() {
    let mut db = handle();
    Todo::init_table(&mut db).unwrap();
    Task::init_table(&mut db).unwrap();

    let todo = Todo::add(&mut db, "test tasks".into(), None).unwrap();

    let task = Task::add(&mut db, "test task model".into(), *todo.id()).unwrap();

    assert_ne!(Task::delete(&mut db, *task.id()).is_err(), true);

    /* Should Panic! */
    Task::find(&mut db, *task.id()).unwrap();
}

#[test]
fn test_task_all() {
    let mut db = handle();
    Todo::init_table(&mut db).unwrap();
    Task::init_table(&mut db).unwrap();

    let todo1 = Todo::add(&mut db, "test tasks".into(), None).unwrap();
    let todo2 = Todo::add(&mut db, "test tasks again".into(), None).unwrap();

    Task::add(&mut db, "test task model 1 times".into(), *todo1.id()).unwrap();
    Task::add(&mut db, "test task model 2 times".into(), *todo1.id()).unwrap();
    Task::add(&mut db, "test task model once again".into(), *todo2.id()).unwrap();

    let tasks = Task::all(&mut db);

    assert!(tasks.len() >= 3);
}

#[test]
fn test_todo_tasks() {
    let mut db = handle();
    Todo::init_table(&mut db).unwrap();
    Task::init_table(&mut db).unwrap();

    let todo1 = Todo::add(&mut db, "test tasks".into(), None).unwrap();
    let todo2 = Todo::add(&mut db, "test tasks again".into(), None).unwrap();

    Task::add(&mut db, "test task model 1 times".into(), *todo1.id()).unwrap();
    Task::add(&mut db, "test task model 2 times".into(), *todo1.id()).unwrap();
    Task::add(&mut db, "test task model once again".into(), *todo2.id()).unwrap();

    let todo1_tasks = todo1.tasks(&mut db);

    assert_eq!(todo1_tasks.len(), 2);
}

#[test]
fn test_task_s_todo() {
    let mut db = handle();
    Todo::init_table(&mut db).unwrap();
    Task::init_table(&mut db).unwrap();

    let todo = Todo::add(&mut db, "test tasks".into(), None).unwrap();

    let task = Task::add(&mut db, "test task model".into(), *todo.id()).unwrap();

    let task_s_todo = task.todo(&mut db).unwrap();

    assert_eq!(task_s_todo.id(), todo.id());
    assert_eq!(task_s_todo.name(), todo.name());
}
