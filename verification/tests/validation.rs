use schema_info::{validate_query, validate_where_clause};

#[test]
fn empty_query_is_a_syntax_error() {
    let err = validate_query("").unwrap();
    assert!(!err.is_empty());
}

#[test]
fn whitespace_query_is_a_syntax_error() {
    let err = validate_query("   \t\n").unwrap();
    assert!(!err.is_empty());
}

#[test]
fn malformed_query_is_a_syntax_error() {
    let err = validate_query("SELECT * FROM").unwrap();
    assert!(!err.is_empty());
}

#[test]
fn schemafull_table_definition_is_valid() {
    assert!(validate_query("DEFINE TABLE person SCHEMAFULL").is_none());
}

#[test]
fn ordinary_statement_is_valid() {
    assert!(validate_query("SELECT * FROM person WHERE age > 18").is_none());
}

#[test]
fn complete_where_clause_is_accepted() {
    assert!(validate_where_clause("age > 18"));
}

#[test]
fn dangling_where_clause_is_rejected() {
    assert!(!validate_where_clause("age > "));
}

#[test]
fn empty_where_clause_is_rejected() {
    assert!(!validate_where_clause(""));
}
