use sqlite::define_table::create_query_from_definition;
use sqlite::define_table::define_table_prompt_options;
use sqlite::define_table::DefineTablePromptOption;
use sqlite::define_table::TableDefinition;
use sqlite::display::build_delete;
use sqlite::display::build_select;
use sqlite::display::DisplayAnswer;
use sqlite::display::DisplayState;
use sqlite::display::SortSpec;
use sqlite::display::ROWS_PER_PAGE;
use sqlite::insert_row::build_consecutive_insert;
use sqlite::insert_row::build_insert;
use sqlite::insert_row::pragma_query;
use sqlite::insert_row::probe_query;
use sqlite::insert_row::Column;
use sqlite::app::AppError;
use sqlite::app::table_lookup_query;
use sqlite::MainMenuOption;

fn two_column_definition() -> TableDefinition {
    let mut table = TableDefinition::new();
    table.set_name("t").unwrap();
    table.add_column("a", "INTEGER").unwrap();
    table.add_column("b", "TEXT").unwrap();
    table
}

#[test]
fn create_statement_text_is_exact() {
    let table = two_column_definition();
    let query = create_query_from_definition(&table);
    assert_eq!(query.as_str(), "CREATE TABLE IF NOT EXISTS t(a INTEGER,b TEXT)");
}

#[test]
fn create_statement_is_idempotent_in_text_form() {
    let table = two_column_definition();
    let first = create_query_from_definition(&table);
    let second = create_query_from_definition(&table);
    assert_eq!(first, second);
}

#[test]
fn definition_rejects_invalid_names_and_types() {
    let mut table = TableDefinition::new();
    assert!(matches!(table.set_name("bad name"), Err(AppError::Validation)));
    assert!(table.set_name("ok").is_ok());
    assert!(matches!(table.add_column("1col", "INTEGER"), Err(AppError::Validation)));
    assert!(matches!(table.add_column("col", "IN;TEGER"), Err(AppError::Validation)));
    assert!(matches!(table.add_column("col", "INTEGER "), Err(AppError::Validation)));
}

#[test]
fn definition_edits_columns_by_name() {
    let mut table = two_column_definition();
    assert!(table.set_column("a", "a2", "REAL NOT NULL").is_ok());
    let query = create_query_from_definition(&table);
    assert_eq!(query.as_str(), "CREATE TABLE IF NOT EXISTS t(a2 REAL NOT NULL,b TEXT)");
    assert!(matches!(table.set_column("missing", "x", "TEXT"), Err(AppError::NotFound)));
    assert!(matches!(table.set_column("b", "bad name", "TEXT"), Err(AppError::Validation)));
    assert!(table.delete_column("b").is_ok());
    assert!(matches!(table.delete_column("b"), Err(AppError::NotFound)));
    let query = create_query_from_definition(&table);
    assert_eq!(query.as_str(), "CREATE TABLE IF NOT EXISTS t(a2 REAL NOT NULL)");
}

#[test]
fn prompt_options_follow_the_definition_state() {
    let empty = TableDefinition::new();
    let options = define_table_prompt_options(&empty);
    assert_eq!(options.len(), 2);
    assert!(matches!(options[0], DefineTablePromptOption::SetName));
    assert!(matches!(options[1], DefineTablePromptOption::Cancel));

    let mut named = TableDefinition::new();
    named.set_name("t").unwrap();
    let options = define_table_prompt_options(&named);
    assert_eq!(options.len(), 3);
    assert!(matches!(options[0], DefineTablePromptOption::SetName));
    assert!(matches!(options[1], DefineTablePromptOption::AddColumn));
    assert!(matches!(options[2], DefineTablePromptOption::Cancel));

    let full = two_column_definition();
    let options = define_table_prompt_options(&full);
    assert_eq!(options.len(), 6);
    match &options[2] {
        DefineTablePromptOption::SetColumn(name) => assert_eq!(name.as_str(), "a"),
        _ => panic!("expected a column option"),
    }
    match &options[3] {
        DefineTablePromptOption::SetColumn(name) => assert_eq!(name.as_str(), "b"),
        _ => panic!("expected a column option"),
    }
    assert!(matches!(options[4], DefineTablePromptOption::Create));
    assert!(matches!(options[5], DefineTablePromptOption::Cancel));
}

#[test]
fn pagination_without_sorting() {
    let sort = SortSpec::new();
    let query = build_select("t", 0, 50, &sort);
    assert_eq!(query.as_str(), "SELECT * FROM t LIMIT 0, 50");
}

#[test]
fn pagination_with_one_ascending_column() {
    let mut sort = SortSpec::new();
    sort.toggle("a");
    let query = build_select("t", 2, 50, &sort);
    assert_eq!(query.as_str(), "SELECT * FROM t ORDER BY a ASC LIMIT 100, 150");
}

#[test]
fn pagination_with_mixed_directions() {
    let mut sort = SortSpec::new();
    sort.toggle("a");
    sort.toggle("b");
    sort.toggle("b");
    let query = build_select("t", 1, 10, &sort);
    assert_eq!(query.as_str(), "SELECT * FROM t ORDER BY a ASC,b DESC LIMIT 10, 20");
}

#[test]
fn sort_toggle_cycles_through_directions() {
    let mut sort = SortSpec::new();
    assert_eq!(sort.direction_of("x"), None);
    sort.toggle("x");
    assert_eq!(sort.direction_of("x"), Some(true));
    sort.toggle("x");
    assert_eq!(sort.direction_of("x"), Some(false));
    sort.toggle("x");
    assert_eq!(sort.direction_of("x"), None);
}

#[test]
fn display_state_pages_clamp_at_zero() {
    let mut state = DisplayState::new();
    assert_eq!(state.page, 0);
    state.previous_page();
    assert_eq!(state.page, 0);
    state.next_page();
    state.next_page();
    assert_eq!(state.page, 2);
    state.previous_page();
    assert_eq!(state.page, 1);
    let query = state.current_query("t").unwrap();
    assert_eq!(query.as_str(), "SELECT * FROM t LIMIT 50, 100");
    assert_eq!(ROWS_PER_PAGE, 50);
}

#[test]
fn consecutive_insert_expression_is_exact() {
    let columns = vec![
        Column { name: String::from("id"), sqltype: String::from("INTEGER") },
        Column { name: String::from("name"), sqltype: String::from("TEXT") },
    ];
    let query = build_consecutive_insert("t", &columns);
    assert_eq!(query.as_str(), "INSERT INTO t SELECT MAX((id+1)||1),MAX((name+1)||1) FROM t");
}

#[test]
fn manual_insert_text_is_exact() {
    let values = vec![String::from("1"), String::from("'two'")];
    let query = build_insert("t", &values);
    assert_eq!(query.as_str(), "INSERT INTO t VALUES (1,'two')");
}

#[test]
fn delete_statement_takes_condition_verbatim() {
    let query = build_delete("t", "a > 3");
    assert_eq!(query.as_str(), "DELETE FROM t WHERE a > 3");
}

#[test]
fn probe_and_lookup_queries_are_exact() {
    assert_eq!(probe_query("t").as_str(), "SELECT * FROM t LIMIT 0");
    assert_eq!(pragma_query("t").as_str(), "PRAGMA table_info(t)");
    assert_eq!(
        table_lookup_query("t").as_str(),
        "SELECT name FROM sqlite_master WHERE type='table' AND name='t'"
    );
}

#[test]
fn menu_indices_decode_to_actions() {
    assert_eq!(MainMenuOption::from_index(0), Some(MainMenuOption::DefineTable));
    assert_eq!(MainMenuOption::from_index(1), Some(MainMenuOption::SelectTable));
    assert_eq!(MainMenuOption::from_index(2), Some(MainMenuOption::InsertRow));
    assert_eq!(MainMenuOption::from_index(3), Some(MainMenuOption::Display));
    assert_eq!(MainMenuOption::from_index(4), Some(MainMenuOption::Quit));
    assert_eq!(MainMenuOption::from_index(5), None);
    assert_eq!(DisplayAnswer::from_index(0), Some(DisplayAnswer::NextPage));
    assert_eq!(DisplayAnswer::from_index(4), Some(DisplayAnswer::GoBack));
    assert_eq!(DisplayAnswer::from_index(9), None);
}
