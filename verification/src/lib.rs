//! Extraction of flat, display-ready descriptors from schema definition
//! statements, and syntactic validation of statements and filter fragments.
//!
//! The statement parser is an outside collaborator; everything read off its
//! output is copied into plain-value nodes at the boundary, and the mapping
//! from node to descriptor — defaults for absent clauses, stripping of the
//! renderer's wrapping pair, classification of index strategies — is verified.
pub mod descriptor;
pub mod extract;
pub mod laws;
pub mod mapping;
pub mod node;
pub mod parsing;
pub mod validate;

pub use descriptor::{
    AnalyzerInfo, EventInfo, FieldInfo, IndexInfo, IndexKind, PermissionInfo, ScopeInfo, TableInfo,
    TableViewInfo, UserInfo,
};
pub use extract::{
    extract_analyzer_definition, extract_event_definition, extract_field_definition,
    extract_index_definition, extract_scope_definition, extract_table_definition,
    extract_user_definition,
};
pub use validate::{validate_query, validate_where_clause};
