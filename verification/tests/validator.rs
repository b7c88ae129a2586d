use sqlite::utils::usize_to_decimal;
use sqlite::utils::validate_column_name;
use sqlite::utils::validate_sql_type;
use sqlite::utils::validate_table_name;
use sqlite::utils::ValidationError;
use sqlite::utils::ValidatorAdaptor;
use sqlite::utils::ValidatorKind;

#[test]
fn identifier_accepts_plain_names() {
    assert!(validate_table_name("abc"));
    assert!(validate_table_name("_a1"));
    assert!(validate_table_name("A"));
    assert!(validate_table_name("table_2"));
    assert!(validate_column_name("camelCase9"));
    assert!(validate_column_name("_"));
}

#[test]
fn identifier_rejects_empty_string() {
    assert!(!validate_table_name(""));
    assert!(!validate_column_name(""));
    assert!(!validate_sql_type(""));
}

#[test]
fn identifier_rejects_leading_digit() {
    assert!(!validate_table_name("9abc"));
    assert!(!validate_column_name("1"));
}

#[test]
fn identifier_rejects_embedded_space() {
    assert!(!validate_table_name("a b"));
    assert!(!validate_column_name("a b"));
}

#[test]
fn identifier_rejects_punctuation() {
    assert!(!validate_table_name("a-b"));
    assert!(!validate_table_name("a;drop"));
    assert!(!validate_table_name("a'b"));
    assert!(!validate_column_name("col.umn"));
}

#[test]
fn sql_type_allows_interior_spaces_only() {
    assert!(validate_sql_type("INTEGER"));
    assert!(validate_sql_type("VARCHAR NOT NULL"));
    assert!(!validate_sql_type(" X"));
    assert!(!validate_sql_type("A "));
    assert!(!validate_sql_type("VARCHAR NOT NULL "));
    assert!(!validate_sql_type("VAR-CHAR"));
    assert!(!validate_sql_type("9X"));
}

#[test]
fn validation_error_keeps_cause() {
    let e = ValidationError::new(String::from("the reason"));
    assert_eq!(e.message().as_str(), "the reason");
}

#[test]
fn validator_adaptor_applies_its_rule() {
    let table = ValidatorAdaptor::new(
        ValidatorKind::TableName,
        String::from("Table name must be alphanumeric"),
    );
    assert!(table.validate("good_name").is_ok());
    let err = table.validate("bad name").unwrap_err();
    assert_eq!(err.message().as_str(), "Table name must be alphanumeric");

    let sql_type = ValidatorAdaptor::new(
        ValidatorKind::SqlType,
        String::from("SQL type must be alphanumeric"),
    );
    assert!(sql_type.validate("VARCHAR NOT NULL").is_ok());
    assert!(sql_type.validate("VAR;CHAR").is_err());
}

#[test]
fn decimal_notation_is_exact() {
    assert_eq!(usize_to_decimal(0).as_str(), "0");
    assert_eq!(usize_to_decimal(7).as_str(), "7");
    assert_eq!(usize_to_decimal(50).as_str(), "50");
    assert_eq!(usize_to_decimal(12345).as_str(), "12345");
}
