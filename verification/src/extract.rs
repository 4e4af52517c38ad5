//! One extraction operation per definition kind.
//!
//! Each operation parses its input, inspects the first parsed statement only,
//! and either returns the kind's descriptor or fails: with the parser's own
//! diagnostic when the text does not parse, or with a fixed, kind-specific
//! message when the first statement is not a definition of the asked kind.
use crate::descriptor::{
    AnalyzerInfo, EventInfo, FieldInfo, IndexInfo, ScopeInfo, TableInfo, UserInfo,
};
use crate::mapping::{
    analyzer_info_from_node, analyzer_info_spec, event_info_from_node, event_info_spec,
    field_info_from_node, field_info_spec, index_info_from_node, index_info_spec,
    scope_info_from_node, scope_info_spec, table_info_from_node, table_info_spec,
    user_info_from_node, user_info_spec,
};
use crate::parsing::{
    analyzer_def_of, event_def_of, field_def_of, index_def_of, parse_analyzer, parse_error_of,
    parse_event, parse_field, parse_index, parse_scope, parse_table, parse_user, scope_def_of,
    table_def_of, user_def_of,
};
use vstd::prelude::*;

verus! {

/// Extracts the descriptor of a scope definition statement.
pub fn extract_scope_definition(definition: &str) -> (r: Result<ScopeInfo, String>)
    ensures
        r is Ok <==> parse_error_of(definition@) is None && scope_def_of(definition@) is Some,
        r matches Ok(info) ==> info@ == scope_info_spec(scope_def_of(definition@).unwrap()),
        r matches Err(e) ==> (if parse_error_of(definition@) is Some {
            parse_error_of(definition@) == Some(e@)
        } else {
            e@ == "Failed to extract scope"@
        }),
{
    match parse_scope(definition) {
        Err(e) => Err(e),
        Ok(None) => Err("Failed to extract scope".to_owned()),
        Ok(Some(node)) => Ok(scope_info_from_node(node)),
    }
}

/// Extracts the descriptor of a table definition statement.
pub fn extract_table_definition(definition: &str) -> (r: Result<TableInfo, String>)
    ensures
        r is Ok <==> parse_error_of(definition@) is None && table_def_of(definition@) is Some,
        r matches Ok(info) ==> info@ == table_info_spec(table_def_of(definition@).unwrap()),
        r matches Err(e) ==> (if parse_error_of(definition@) is Some {
            parse_error_of(definition@) == Some(e@)
        } else {
            e@ == "Failed to extract table"@
        }),
{
    match parse_table(definition) {
        Err(e) => Err(e),
        Ok(None) => Err("Failed to extract table".to_owned()),
        Ok(Some(node)) => Ok(table_info_from_node(node)),
    }
}

/// Extracts the descriptor of a field definition statement.
pub fn extract_field_definition(definition: &str) -> (r: Result<FieldInfo, String>)
    ensures
        r is Ok <==> parse_error_of(definition@) is None && field_def_of(definition@) is Some,
        r matches Ok(info) ==> info@ == field_info_spec(field_def_of(definition@).unwrap()),
        r matches Err(e) ==> (if parse_error_of(definition@) is Some {
            parse_error_of(definition@) == Some(e@)
        } else {
            e@ == "Failed to extract field"@
        }),
{
    match parse_field(definition) {
        Err(e) => Err(e),
        Ok(None) => Err("Failed to extract field".to_owned()),
        Ok(Some(node)) => Ok(field_info_from_node(node)),
    }
}

/// Extracts the descriptor of an analyzer definition statement.
pub fn extract_analyzer_definition(definition: &str) -> (r: Result<AnalyzerInfo, String>)
    ensures
        r is Ok <==> parse_error_of(definition@) is None && analyzer_def_of(definition@) is Some,
        r matches Ok(info) ==> info@ == analyzer_info_spec(analyzer_def_of(definition@).unwrap()),
        r matches Err(e) ==> (if parse_error_of(definition@) is Some {
            parse_error_of(definition@) == Some(e@)
        } else {
            e@ == "Failed to extract analyzer"@
        }),
{
    match parse_analyzer(definition) {
        Err(e) => Err(e),
        Ok(None) => Err("Failed to extract analyzer".to_owned()),
        Ok(Some(node)) => Ok(analyzer_info_from_node(node)),
    }
}

/// Extracts the descriptor of an index definition statement. When the
/// extraction succeeds, the configuration slot selected by the index kind
/// carries the non-empty statement rendering.
pub fn extract_index_definition(definition: &str) -> (r: Result<IndexInfo, String>)
    ensures
        r is Ok <==> parse_error_of(definition@) is None && index_def_of(definition@) is Some,
        r matches Ok(info) ==> info@ == index_info_spec(index_def_of(definition@).unwrap()),
        r matches Ok(info) ==> (info.kind is Search ==> info.search@.len() > 0),
        r matches Ok(info) ==> (info.kind is Vector ==> info.vector@.len() > 0),
        r matches Err(e) ==> (if parse_error_of(definition@) is Some {
            parse_error_of(definition@) == Some(e@)
        } else {
            e@ == "Failed to extract index"@
        }),
{
    match parse_index(definition) {
        Err(e) => Err(e),
        Ok(None) => Err("Failed to extract index".to_owned()),
        Ok(Some(node)) => Ok(index_info_from_node(node)),
    }
}

/// Extracts the descriptor of an event definition statement.
pub fn extract_event_definition(definition: &str) -> (r: Result<EventInfo, String>)
    ensures
        r is Ok <==> parse_error_of(definition@) is None && event_def_of(definition@) is Some,
        r matches Ok(info) ==> info@ == event_info_spec(event_def_of(definition@).unwrap()),
        r matches Err(e) ==> (if parse_error_of(definition@) is Some {
            parse_error_of(definition@) == Some(e@)
        } else {
            e@ == "Failed to extract event"@
        }),
{
    match parse_event(definition) {
        Err(e) => Err(e),
        Ok(None) => Err("Failed to extract event".to_owned()),
        Ok(Some(node)) => Ok(event_info_from_node(node)),
    }
}

/// Extracts the descriptor of a user definition statement.
pub fn extract_user_definition(definition: &str) -> (r: Result<UserInfo, String>)
    ensures
        r is Ok <==> parse_error_of(definition@) is None && user_def_of(definition@) is Some,
        r matches Ok(info) ==> info@ == user_info_spec(user_def_of(definition@).unwrap()),
        r matches Err(e) ==> (if parse_error_of(definition@) is Some {
            parse_error_of(definition@) == Some(e@)
        } else {
            e@ == "Failed to extract user"@
        }),
{
    match parse_user(definition) {
        Err(e) => Err(e),
        Ok(None) => Err("Failed to extract user".to_owned()),
        Ok(Some(node)) => Ok(user_info_from_node(node)),
    }
}

} // verus!
