//! Advisory syntactic checks: they never fail, they report.
use crate::parsing::{parse_error_of, parse_report};
use vstd::prelude::*;

verus! {

/// The fixed template a bare filter fragment is embedded in before parsing:
/// a minimal statement over a placeholder source, so the fragment stands
/// where a filter condition would.
pub open spec fn where_probe_spec(fragment: Seq<char>) -> Seq<char> {
    "SELECT * FROM table WHERE "@ + fragment
}

/// Parses the whole text: `None` on success, otherwise the parser's own
/// diagnostic. Accepts any statement, not only definitions.
pub fn validate_query(query: &str) -> (r: Option<String>)
    ensures
        r is None <==> parse_error_of(query@) is None,
        r matches Some(e) ==> parse_error_of(query@) == Some(e@),
{
    parse_report(query)
}

/// Whether a bare boolean fragment parses as the filter condition of the
/// fixed template statement. Purely syntactic: the placeholder source is
/// never resolved.
pub fn validate_where_clause(clause: &str) -> (r: bool)
    ensures
        r == (parse_error_of(where_probe_spec(clause@)) is None),
{
    let mut probe = String::from_str("SELECT * FROM table WHERE ");
    probe.append(clause);
    parse_report(probe.as_str()).is_none()
}

} // verus!
