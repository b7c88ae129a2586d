use sqlite::app::App;
use sqlite::app::AppError;
use sqlite::define_table::create_defined_table;
use sqlite::define_table::TableDefinition;
use sqlite::display::delete_on_where;
use sqlite::insert_row::get_table;
use sqlite::insert_row::insert_consecutive_rows;
use sqlite::insert_row::user_defined_insert;

fn memory_session() -> App {
    let mut app = App::new();
    app.connect_in_memory().unwrap();
    app
}

fn session_with_table() -> App {
    let mut app = memory_session();
    let mut table = TableDefinition::new();
    table.set_name("t").unwrap();
    table.add_column("a", "INTEGER").unwrap();
    table.add_column("b", "TEXT").unwrap();
    create_defined_table(&mut app, &table).unwrap();
    app
}

#[test]
fn fresh_session_has_no_connection_and_no_table() {
    let app = App::new();
    assert!(app.active_table().is_none());
    assert!(app.path().is_none());
    assert!(app.is_in_memory());
}

#[test]
fn set_active_table_needs_a_connection() {
    let mut app = App::new();
    assert!(matches!(app.set_active_table("t"), Err(AppError::Connection { .. })));
}

#[test]
fn set_active_table_rejects_invalid_names() {
    let mut app = memory_session();
    assert!(matches!(app.set_active_table("9bad"), Err(AppError::Validation)));
    assert!(matches!(app.set_active_table(""), Err(AppError::Validation)));
    assert!(app.active_table().is_none());
}

#[test]
fn set_active_table_on_empty_database_is_not_found() {
    let mut app = memory_session();
    assert!(matches!(app.set_active_table("anything"), Err(AppError::NotFound)));
    assert!(matches!(app.set_active_table("t"), Err(AppError::NotFound)));
    assert!(app.active_table().is_none());
}

#[test]
fn connect_in_file_fails_on_impossible_path() {
    let mut app = App::new();
    let r = app.connect_in_file("/nonexistent_directory_for_sure/data.db");
    assert!(matches!(r, Err(AppError::Connection { .. })));
}

#[test]
fn create_marks_the_new_table_active() {
    let app = session_with_table();
    assert_eq!(app.active_table(), Some("t"));
}

#[test]
fn create_needs_a_connection() {
    let mut app = App::new();
    let mut table = TableDefinition::new();
    table.set_name("t").unwrap();
    table.add_column("a", "INTEGER").unwrap();
    assert!(matches!(
        create_defined_table(&mut app, &table),
        Err(AppError::Connection { .. })
    ));
}

#[test]
fn round_trip_create_then_introspect() {
    let app = session_with_table();
    let columns = get_table(&app).unwrap();
    assert_eq!(columns.len(), 2);
    assert_eq!(columns[0].name.as_str(), "a");
    assert_eq!(columns[0].sqltype.as_str(), "INTEGER");
    assert_eq!(columns[1].name.as_str(), "b");
    assert_eq!(columns[1].sqltype.as_str(), "TEXT");
}

#[test]
fn existing_table_can_become_active_again() {
    let mut app = session_with_table();
    assert!(app.set_active_table("t").is_ok());
    assert_eq!(app.active_table(), Some("t"));
}

#[test]
fn table_scoped_operations_need_an_active_table() {
    let app = memory_session();
    assert!(matches!(get_table(&app), Err(AppError::NoActiveTable)));
    assert!(matches!(insert_consecutive_rows(&app), Err(AppError::NoActiveTable)));
    let values = vec![String::from("1")];
    assert!(matches!(user_defined_insert(&app, &values), Err(AppError::NoActiveTable)));
    assert!(matches!(delete_on_where(&app, "a = 1"), Err(AppError::NoActiveTable)));
}

#[test]
fn manual_insert_executes() {
    let app = session_with_table();
    let values = vec![String::from("1"), String::from("'one'")];
    assert!(user_defined_insert(&app, &values).is_ok());
}

#[test]
fn manual_insert_with_wrong_arity_is_an_execution_error() {
    let app = session_with_table();
    let values = vec![String::from("1")];
    let r = user_defined_insert(&app, &values);
    match r {
        Err(AppError::Execution { message }) => assert!(!message.is_empty()),
        _ => panic!("expected an execution error"),
    }
}

#[test]
fn consecutive_insert_adds_one_row() {
    let app = session_with_table();
    assert!(insert_consecutive_rows(&app).is_ok());
    assert!(insert_consecutive_rows(&app).is_ok());
}

#[test]
fn delete_with_condition_executes() {
    let app = session_with_table();
    let values = vec![String::from("1"), String::from("'one'")];
    user_defined_insert(&app, &values).unwrap();
    assert!(delete_on_where(&app, "a = 1").is_ok());
}

#[test]
fn delete_with_malformed_condition_is_an_execution_error() {
    let app = session_with_table();
    let r = delete_on_where(&app, "this is not sql !!!");
    assert!(matches!(r, Err(AppError::Execution { .. })));
}

#[test]
fn table_without_declared_types_is_a_schema_error() {
    let path = "/tmp/sqlite_session_schema_probe.db";
    {
        let setup = rusqlite::Connection::open(path).unwrap();
        setup
            .execute("CREATE TABLE IF NOT EXISTS bare(a)", [])
            .unwrap();
    }
    let mut app = App::new();
    app.connect_in_file(path).unwrap();
    assert_eq!(app.path(), Some(path));
    assert!(!app.is_in_memory());
    assert!(app.set_active_table("bare").is_ok());
    assert!(matches!(get_table(&app), Err(AppError::Schema)));
}

#[test]
fn error_messages_describe_the_failure() {
    let mut app = memory_session();
    let err = app.set_active_table("missing").unwrap_err();
    assert!(matches!(err, AppError::NotFound));
    assert!(!err.message().is_empty());
    let exec = AppError::Execution { message: String::from("engine said no") };
    assert_eq!(exec.message().as_str(), "engine said no");
}
