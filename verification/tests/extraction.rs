use schema_info::{
    extract_analyzer_definition, extract_event_definition, extract_field_definition,
    extract_index_definition, extract_scope_definition, extract_table_definition,
    extract_user_definition, IndexKind,
};

#[test]
fn scope_full_clauses() {
    let info = extract_scope_definition(
        "DEFINE SCOPE account SESSION 30m SIGNUP ( CREATE user SET email = $email ) SIGNIN ( SELECT * FROM user WHERE email = $email ) COMMENT 'auth scope'",
    )
    .unwrap();
    assert_eq!(info.name, "account");
    assert_eq!(info.signup, "CREATE user SET email = $email");
    assert_eq!(info.signin, "SELECT * FROM user WHERE email = $email");
    assert_eq!(info.session, "30m");
    assert_eq!(info.comment, "auth scope");
}

#[test]
fn scope_minimal_defaults() {
    let info = extract_scope_definition("DEFINE SCOPE account").unwrap();
    assert_eq!(info.name, "account");
    assert_eq!(info.signup, "");
    assert_eq!(info.signin, "");
    assert_eq!(info.session, "");
    assert_eq!(info.comment, "");
}

#[test]
fn scope_signup_wrapping_stripped() {
    let info = extract_scope_definition("DEFINE SCOPE s SIGNUP ( CREATE user )").unwrap();
    assert_eq!(info.signup, "CREATE user");
    assert_eq!(info.signin, "");
}

#[test]
fn scope_signup_multibyte_safe() {
    let info = extract_scope_definition(
        "DEFINE SCOPE s SIGNUP ( CREATE user SET name = 'héllo wörld' )",
    )
    .unwrap();
    assert_eq!(info.signup, "CREATE user SET name = 'héllo wörld'");
}

#[test]
fn table_full_clauses() {
    let info = extract_table_definition(
        "DEFINE TABLE person DROP SCHEMAFULL AS SELECT * FROM user WHERE age > 18 GROUP BY age PERMISSIONS FOR select FULL FOR create NONE FOR update NONE FOR delete NONE COMMENT 'tbl' CHANGEFEED 1h",
    )
    .unwrap();
    assert_eq!(info.name, "person");
    assert!(info.drop);
    assert!(info.schemafull);
    let view = info.view.as_ref().unwrap();
    assert_eq!(view.expr, "*");
    assert_eq!(view.what, "user");
    assert_eq!(view.cond, "WHERE age > 18");
    assert_eq!(view.group, "GROUP BY age");
    assert_eq!(info.permissions.select, "FULL");
    assert_eq!(info.permissions.create, "NONE");
    assert_eq!(info.permissions.update, "NONE");
    assert_eq!(info.permissions.delete, "NONE");
    assert_eq!(info.comment, "tbl");
    assert!(info.changefeed);
    assert_eq!(info.changetime, "CHANGEFEED 1h");
}

#[test]
fn table_minimal_defaults() {
    let info = extract_table_definition("DEFINE TABLE person").unwrap();
    assert_eq!(info.name, "person");
    assert!(!info.drop);
    assert!(!info.schemafull);
    assert!(info.view.is_none());
    assert_eq!(info.permissions.select, "NONE");
    assert_eq!(info.permissions.create, "NONE");
    assert_eq!(info.permissions.update, "NONE");
    assert_eq!(info.permissions.delete, "NONE");
    assert_eq!(info.comment, "");
    assert!(!info.changefeed);
    assert_eq!(info.changetime, "");
}

#[test]
fn field_full_clauses() {
    let info = extract_field_definition(
        "DEFINE FIELD age ON TABLE person FLEXIBLE TYPE number VALUE $value ASSERT $value > 0 DEFAULT 18 PERMISSIONS FULL COMMENT 'age field'",
    )
    .unwrap();
    assert_eq!(info.name, "age");
    assert!(info.flexible);
    assert_eq!(info.kind, "number");
    assert_eq!(info.value, "$value");
    assert_eq!(info.assert, "$value > 0");
    assert_eq!(info.default, "18");
    assert_eq!(info.permissions.select, "FULL");
    assert_eq!(info.permissions.create, "FULL");
    assert_eq!(info.permissions.update, "FULL");
    assert_eq!(info.permissions.delete, "FULL");
    assert_eq!(info.comment, "age field");
}

#[test]
fn field_minimal_defaults() {
    let info = extract_field_definition("DEFINE FIELD age ON person").unwrap();
    assert_eq!(info.name, "age");
    assert!(!info.flexible);
    assert_eq!(info.kind, "");
    assert_eq!(info.value, "");
    assert_eq!(info.assert, "");
    assert_eq!(info.default, "");
    assert_eq!(info.comment, "");
}

#[test]
fn analyzer_full_clauses() {
    let info = extract_analyzer_definition(
        "DEFINE ANALYZER a1 TOKENIZERS blank,class FILTERS lowercase,ascii COMMENT 'anz'",
    )
    .unwrap();
    assert_eq!(info.name, "a1");
    assert_eq!(info.tokenizers, vec!["BLANK".to_string(), "CLASS".to_string()]);
    assert_eq!(info.filters, vec!["LOWERCASE".to_string(), "ASCII".to_string()]);
    assert_eq!(info.comment, "anz");
}

#[test]
fn analyzer_minimal_defaults() {
    let info = extract_analyzer_definition("DEFINE ANALYZER a1").unwrap();
    assert_eq!(info.name, "a1");
    assert!(info.tokenizers.is_empty());
    assert!(info.filters.is_empty());
    assert_eq!(info.comment, "");
}

#[test]
fn index_normal_kind() {
    let info = extract_index_definition("DEFINE INDEX idx1 ON TABLE person FIELDS age").unwrap();
    assert_eq!(info.name, "idx1");
    assert_eq!(info.fields, "age");
    assert!(matches!(info.kind, IndexKind::Normal));
    assert_eq!(info.search, "");
    assert_eq!(info.vector, "");
    assert_eq!(info.comment, "");
}

#[test]
fn index_unique_kind() {
    let info =
        extract_index_definition("DEFINE INDEX idx2 ON TABLE person FIELDS email UNIQUE").unwrap();
    assert!(matches!(info.kind, IndexKind::Unique));
    assert_eq!(info.search, "");
    assert_eq!(info.vector, "");
}

#[test]
fn index_search_kind_mutual_exclusion() {
    let info = extract_index_definition(
        "DEFINE INDEX idx3 ON TABLE person FIELDS name SEARCH ANALYZER a1 BM25 HIGHLIGHTS",
    )
    .unwrap();
    assert!(matches!(info.kind, IndexKind::Search));
    assert!(!info.search.is_empty());
    assert_eq!(info.vector, "");
    assert!(info.search.contains("SEARCH ANALYZER a1"));
}

#[test]
fn index_vector_kind_mutual_exclusion() {
    let info = extract_index_definition(
        "DEFINE INDEX idx4 ON TABLE person FIELDS pos MTREE DIMENSION 3",
    )
    .unwrap();
    assert!(matches!(info.kind, IndexKind::Vector));
    assert!(!info.vector.is_empty());
    assert_eq!(info.search, "");
    assert!(info.vector.contains("MTREE DIMENSION 3"));
}

#[test]
fn event_full_clauses() {
    let info = extract_event_definition(
        "DEFINE EVENT created ON TABLE user WHEN $event = 'CREATE' THEN ( CREATE log SET user = $value.id ) COMMENT 'evt'",
    )
    .unwrap();
    assert_eq!(info.name, "created");
    assert_eq!(info.cond, "$event = 'CREATE'");
    assert_eq!(info.action, "CREATE log SET user = $value.id");
    assert_eq!(info.comment, "evt");
}

#[test]
fn event_minimal_defaults() {
    let info =
        extract_event_definition("DEFINE EVENT created ON TABLE user THEN ( CREATE log )").unwrap();
    assert_eq!(info.name, "created");
    assert_eq!(info.cond, "true");
    assert_eq!(info.action, "CREATE log");
    assert_eq!(info.comment, "");
}

#[test]
fn user_full_clauses() {
    let info = extract_user_definition(
        "DEFINE USER admin ON ROOT PASSWORD 'secret' ROLES OWNER COMMENT 'root user'",
    )
    .unwrap();
    assert_eq!(info.name, "admin");
    assert_eq!(info.roles, vec!["OWNER".to_string()]);
    assert_eq!(info.comment, "root user");
}

#[test]
fn user_minimal_defaults() {
    let info = extract_user_definition("DEFINE USER u ON ROOT PASSWORD 'p'").unwrap();
    assert_eq!(info.name, "u");
    assert_eq!(info.roles, vec!["Viewer".to_string()]);
    assert_eq!(info.comment, "");
}

#[test]
fn table_extraction_rejects_other_kind() {
    let err = extract_table_definition("DEFINE FIELD age ON person").unwrap_err();
    assert_eq!(err, "Failed to extract table");
}

#[test]
fn scope_extraction_rejects_other_kind() {
    let err = extract_scope_definition("DEFINE TABLE person").unwrap_err();
    assert_eq!(err, "Failed to extract scope");
}

#[test]
fn extraction_propagates_syntax_error() {
    let err = extract_scope_definition("DEFINE SCOPE !!!").unwrap_err();
    assert!(!err.is_empty());
    assert_ne!(err, "Failed to extract scope");
}

#[test]
fn kind_specific_mismatch_messages() {
    let probe = "SELECT * FROM person";
    assert_eq!(extract_field_definition(probe).unwrap_err(), "Failed to extract field");
    assert_eq!(extract_analyzer_definition(probe).unwrap_err(), "Failed to extract analyzer");
    assert_eq!(extract_index_definition(probe).unwrap_err(), "Failed to extract index");
    assert_eq!(extract_event_definition(probe).unwrap_err(), "Failed to extract event");
    assert_eq!(extract_user_definition(probe).unwrap_err(), "Failed to extract user");
}

#[test]
fn first_statement_only_is_inspected() {
    let info =
        extract_scope_definition("DEFINE SCOPE first; DEFINE SCOPE second;").unwrap();
    assert_eq!(info.name, "first");
}

#[test]
fn scope_signup_round_trip() {
    let once = extract_scope_definition("DEFINE SCOPE s SIGNUP ( CREATE user SET email = $email )")
        .unwrap();
    let again = extract_scope_definition(&format!("DEFINE SCOPE s SIGNUP ( {} )", once.signup))
        .unwrap();
    assert_eq!(again.signup, once.signup);
}

#[test]
fn event_action_round_trip() {
    let once = extract_event_definition(
        "DEFINE EVENT e ON TABLE t WHEN true THEN ( UPDATE log SET n = 1 )",
    )
    .unwrap();
    let again = extract_event_definition(&format!(
        "DEFINE EVENT e ON TABLE t WHEN {} THEN ( {} )",
        once.cond, once.action
    ))
    .unwrap();
    assert_eq!(again.cond, once.cond);
    assert_eq!(again.action, once.action);
}

#[test]
fn field_clauses_round_trip() {
    let once = extract_field_definition(
        "DEFINE FIELD age ON person TYPE number VALUE $value ASSERT $value > 0",
    )
    .unwrap();
    let again = extract_field_definition(&format!(
        "DEFINE FIELD age ON person TYPE {} VALUE {} ASSERT {}",
        once.kind, once.value, once.assert
    ))
    .unwrap();
    assert_eq!(again.kind, once.kind);
    assert_eq!(again.value, once.value);
    assert_eq!(again.assert, once.assert);
}

#[test]
fn table_view_round_trip() {
    let once = extract_table_definition(
        "DEFINE TABLE adults AS SELECT * FROM user WHERE age > 18 GROUP BY age",
    )
    .unwrap();
    let v = once.view.as_ref().unwrap();
    let again = extract_table_definition(&format!(
        "DEFINE TABLE adults AS SELECT {} FROM {} {} {}",
        v.expr, v.what, v.cond, v.group
    ))
    .unwrap();
    let w = again.view.as_ref().unwrap();
    assert_eq!(w.expr, v.expr);
    assert_eq!(w.what, v.what);
    assert_eq!(w.cond, v.cond);
    assert_eq!(w.group, v.group);
}
