use todo::dal::TodoDAO;
use todo::db::{take_answer, Database, DatabaseConnector};
use todo::entity::Todo;
use todo::error::ErrorKind;
use todo::row::Cell;

fn text(cell: &Cell) -> Option<&str> {
    match cell {
        Cell::Text(t) => Some(t.as_str()),
        _ => None,
    }
}

#[test]
fn a_handle_remembers_its_path() {
    let db = Database::new(":memory:").unwrap();
    assert_eq!(db.path(), ":memory:");
}

#[test]
fn a_path_that_cannot_be_opened_is_an_error() {
    assert!(Database::new("/no/such/directory/anywhere/store.db").is_err());
}

#[test]
fn statements_and_queries_reach_the_engine() {
    let mut db = Database::new(":memory:").unwrap();
    db.create_table("notes(id INTEGER PRIMARY KEY, body TEXT, size INTEGER, raw BLOB, ratio REAL)")
        .unwrap();
    db.exec_sttmt("INSERT INTO notes(body, size, raw, ratio) VALUES ('first', 5, x'0102', 0.5);")
        .unwrap();
    db.exec_sttmt("INSERT INTO notes(body) VALUES (NULL);").unwrap();

    let rows = db.select_query("SELECT id, body, size, raw, ratio FROM notes ORDER BY id;").unwrap();
    assert_eq!(rows.len(), 2);
    assert_eq!(rows[0].len(), 5);
    assert!(matches!(rows[0][0], Cell::Integer(1)));
    assert_eq!(text(&rows[0][1]), Some("first"));
    assert!(matches!(rows[0][2], Cell::Integer(5)));
    assert!(matches!(&rows[0][3], Cell::Binary(bytes) if bytes == &vec![1u8, 2u8]));
    assert!(matches!(rows[0][4], Cell::Float));
    assert!(matches!(rows[1][0], Cell::Integer(2)));
    assert!(matches!(rows[1][1], Cell::Null));

    let none = db.select_query("SELECT id FROM notes WHERE id = 9;").unwrap();
    assert!(none.is_empty());
}

#[test]
fn creating_a_table_twice_is_no_error() {
    let mut db = Database::new(":memory:").unwrap();
    db.create_table("notes(id INTEGER PRIMARY KEY)").unwrap();
    db.create_table("notes(id INTEGER PRIMARY KEY)").unwrap();
}

#[test]
fn a_malformed_statement_is_an_error() {
    let mut db = Database::new(":memory:").unwrap();
    assert!(db.exec_sttmt("THIS IS NO SQL").is_err());
    assert!(db.select_query("SELECT FROM WHERE").is_err());
    assert!(db.select_query("SELECT * FROM missing;").is_err());
}

#[test]
fn the_probe_tells_whether_the_table_is_there() {
    let mut db = Database::new(":memory:").unwrap();
    assert!(!TodoDAO::is_table_initialized(&mut db));
    TodoDAO::init_table(&mut db).unwrap();
    assert!(TodoDAO::is_table_initialized(&mut db));
    assert_eq!(TodoDAO::table_name(), "todos");
}

#[test]
fn a_failure_of_the_engine_carries_its_message_and_code() {
    let mut db = Database::new(":memory:").unwrap();
    db.exec_sttmt("CREATE TABLE todos(id INTEGER PRIMARY KEY AUTOINCREMENT, name TEXT);").unwrap();

    let error = Todo::add(&mut db, "errands".to_string(), None).unwrap_err();
    assert_eq!(error.kind(), ErrorKind::StoreError);
    assert_eq!(error.description(), "table todos has no column named description (code 1)");
}

#[test]
fn a_failure_before_the_engine_carries_its_message_alone() {
    let mut db = Database::new(":memory:").unwrap();
    Todo::init_table(&mut db).unwrap();

    let error = Todo::add(&mut db, "err\0ands".to_string(), None).unwrap_err();
    assert_eq!(error.kind(), ErrorKind::StoreError);
    assert_eq!(error.description(), "failed to process a string");
    assert!(Todo::all(&mut db).is_empty());
}

#[test]
fn a_failed_update_is_reported() {
    let mut db = Database::new(":memory:").unwrap();
    db.exec_sttmt(
        "CREATE TABLE todos(id INTEGER PRIMARY KEY AUTOINCREMENT, name TEXT NOT NULL CHECK (length(name) < 10), description TEXT NULL, created_at TIMESTAMP NOT NULL DEFAULT CURRENT_TIMESTAMP, updated_at TIMESTAMP NOT NULL DEFAULT CURRENT_TIMESTAMP);",
    )
    .unwrap();
    Todo::add(&mut db, "errands".to_string(), None).unwrap();

    let error = Todo::update(&mut db, 1, Some("a name that is too long".to_string()), None)
        .unwrap_err();
    assert_eq!(error.kind(), ErrorKind::StoreError);
    assert!(error.description().ends_with("(code 19)"));
    assert_eq!(Todo::find(&mut db, 1).unwrap().name(), "errands");
}

#[test]
fn a_row_of_another_shape_is_passed_over() {
    let mut db = Database::new(":memory:").unwrap();
    db.exec_sttmt(
        "CREATE TABLE todos(id INTEGER PRIMARY KEY AUTOINCREMENT, name BLOB, description TEXT NULL, created_at TIMESTAMP NOT NULL DEFAULT CURRENT_TIMESTAMP, updated_at TIMESTAMP NOT NULL DEFAULT CURRENT_TIMESTAMP);",
    )
    .unwrap();
    db.exec_sttmt("INSERT INTO todos(name) VALUES (x'00ff');").unwrap();
    db.exec_sttmt("INSERT INTO todos(name) VALUES ('fine');").unwrap();

    let todos = Todo::all(&mut db);
    assert_eq!(todos.len(), 1);
    assert_eq!(todos[0].name(), "fine");
    assert_eq!(*todos[0].id(), 2);
    assert_eq!(Todo::find(&mut db, 1).unwrap_err().kind(), ErrorKind::NotFound);
}

#[test]
fn an_answer_with_a_row_is_appended_and_the_reading_goes_on() {
    let mut rows = vec![vec![Cell::Integer(1)]];
    let ended = take_answer(&mut rows, Ok(Some(vec![Cell::Text("second".to_string()), Cell::Null])));
    assert!(ended.is_none());
    assert_eq!(rows.len(), 2);
    assert!(matches!(rows[0][0], Cell::Integer(1)));
    assert_eq!(text(&rows[1][0]), Some("second"));
    assert!(matches!(rows[1][1], Cell::Null));
}

#[test]
fn the_end_of_the_rows_ends_the_reading_well() {
    let mut rows = vec![vec![Cell::Integer(1)]];
    let ended = take_answer(&mut rows, Ok(None));
    assert!(matches!(ended, Some(Ok(()))));
    assert_eq!(rows.len(), 1);

    let mut none: Vec<Vec<Cell>> = Vec::new();
    assert!(matches!(take_answer(&mut none, Ok(None)), Some(Ok(()))));
    assert!(none.is_empty());
}

#[test]
fn a_failure_ends_the_reading_with_the_error_that_came() {
    let mut rows = vec![vec![Cell::Integer(1)]];
    let error = sqlite::Error { code: Some(11), message: Some("malformed".to_string()) };
    let ended = take_answer(&mut rows, Err(error));
    match ended {
        Some(Err(error)) => {
            assert_eq!(error.code, Some(11));
            assert_eq!(error.message, Some("malformed".to_string()));
        }
        _ => panic!("the failure was lost"),
    }
    assert_eq!(rows.len(), 1);
}

#[test]
fn a_query_reads_every_row_in_order() {
    let mut db = Database::new(":memory:").unwrap();
    db.create_table("numbers(n INTEGER)").unwrap();
    for n in 0..50 {
        db.exec_sttmt(&format!("INSERT INTO numbers(n) VALUES ({});", n)).unwrap();
    }
    let rows = db.select_query("SELECT n FROM numbers ORDER BY n DESC;").unwrap();
    assert_eq!(rows.len(), 50);
    for (i, row) in rows.iter().enumerate() {
        assert!(matches!(row[0], Cell::Integer(n) if n == 49 - i as i64));
    }
}

#[test]
fn a_failure_while_reading_is_the_failure_of_the_query() {
    let mut db = Database::new(":memory:").unwrap();
    db.create_table("numbers(n INTEGER)").unwrap();
    db.exec_sttmt("INSERT INTO numbers(n) VALUES (1), (2), (-9223372036854775808);").unwrap();
    assert_eq!(db.select_query("SELECT abs(n) FROM numbers WHERE n > 0;").unwrap().len(), 2);
    assert!(db.select_query("SELECT abs(n) FROM numbers ORDER BY n DESC;").is_err());
}
