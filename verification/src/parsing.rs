//! The boundary with the outside statement parser.
//!
//! Everything here is trusted: each wrapper calls `surrealdb::sql::parse`,
//! looks only at the first parsed statement, and copies the clauses of one
//! definition kind into a plain-value node. The parse outcome and the node
//! read off a given text depend on the text alone, so both are named by
//! uninterpreted spec functions that the wrappers' contracts share.
use crate::descriptor::{IndexKind, PermissionInfo};
use crate::node::{
    AnalyzerNode, AnalyzerNodeV, EventNode, EventNodeV, FieldNode, FieldNodeV, IndexNode,
    IndexNodeV, ScopeNode, ScopeNodeV, TableNode, TableNodeV, UserNode, UserNodeV, ViewNode,
};
use surrealdb::sql::statements::DefineStatement;
use vstd::prelude::*;

verus! {

/// What `surrealdb::sql::parse` reports for a text: `None` when the text
/// parses, otherwise the parser's own diagnostic message.
pub uninterp spec fn parse_error_of(text: Seq<char>) -> Option<Seq<char>>;

/// The scope definition node read off a text whose first parsed statement
/// defines a scope; `None` when the text fails to parse or its first
/// statement is anything else.
pub uninterp spec fn scope_def_of(text: Seq<char>) -> Option<ScopeNodeV>;

/// The table definition node read off a text, as `scope_def_of` for tables.
pub uninterp spec fn table_def_of(text: Seq<char>) -> Option<TableNodeV>;

/// The field definition node read off a text, as `scope_def_of` for fields.
pub uninterp spec fn field_def_of(text: Seq<char>) -> Option<FieldNodeV>;

/// The analyzer definition node read off a text, as `scope_def_of` for
/// analyzers.
pub uninterp spec fn analyzer_def_of(text: Seq<char>) -> Option<AnalyzerNodeV>;

/// The index definition node read off a text, as `scope_def_of` for indexes.
pub uninterp spec fn index_def_of(text: Seq<char>) -> Option<IndexNodeV>;

/// The event definition node read off a text, as `scope_def_of` for events.
pub uninterp spec fn event_def_of(text: Seq<char>) -> Option<EventNodeV>;

/// The user definition node read off a text, as `scope_def_of` for users.
pub uninterp spec fn user_def_of(text: Seq<char>) -> Option<UserNodeV>;

#[verifier::external_type_specification]
#[verifier::external_body]
pub struct ExPermissions(surrealdb::sql::Permissions);

#[verifier::external_type_specification]
#[verifier::external_body]
pub struct ExSqlView(surrealdb::sql::View);

#[verifier::external_type_specification]
#[verifier::external_body]
pub struct ExStrand(surrealdb::sql::Strand);

/// Relies on the `Display` of the clause value alone. Only converts an
/// optional clause to its rendered text.
#[verifier::external_body]
fn opt_text<T: core::fmt::Display>(v: &Option<T>) -> Option<String> {
    v.as_ref().map(|x| x.to_string())
}

/// Relies on the strand's own content: a comment is handed over as its raw
/// text, not its quoted rendering. Only converts.
#[verifier::external_body]
fn opt_comment(v: &Option<surrealdb::sql::Strand>) -> Option<String> {
    v.as_ref().map(|c| c.as_str().to_owned())
}

/// Relies on the `Display` of each listed value alone. Only converts an
/// optional name list to its rendered texts.
#[verifier::external_body]
fn opt_names<T: core::fmt::Display>(v: &Option<Vec<T>>) -> Option<Vec<String>> {
    v.as_ref().map(|v| v.iter().map(|x| x.to_string()).collect())
}

/// Relies on the `Display` of `surrealdb::sql::Permission`: each of the four
/// rules renders to its own text (`NONE`, `FULL`, or a `WHERE` expression).
/// Only converts; the callers' contracts speak of the node as a whole.
#[verifier::external_body]
fn perm_info_of(p: &surrealdb::sql::Permissions) -> PermissionInfo {
    PermissionInfo {
        select: p.select.to_string(),
        create: p.create.to_string(),
        update: p.update.to_string(),
        delete: p.delete.to_string(),
    }
}

/// Relies on the `Display` of the parts of `surrealdb::sql::View`: the
/// projection, source, filter and grouping clauses render to their own texts.
/// Only converts; the callers' contracts speak of the node as a whole.
#[verifier::external_body]
fn view_node_of(v: &surrealdb::sql::View) -> ViewNode {
    ViewNode {
        expr: v.expr.to_string(),
        what: v.what.to_string(),
        cond: opt_text(&v.cond),
        group: opt_text(&v.group),
    }
}

/// Relies on `surrealdb::sql::parse`: the outcome depends on the text alone,
/// and a failure carries the parser's own diagnostic.
#[verifier::external_body]
pub(crate) fn parse_report(text: &str) -> (r: Option<String>)
    ensures
        r is None <==> parse_error_of(text@) is None,
        r matches Some(e) ==> parse_error_of(text@) == Some(e@),
{
    match surrealdb::sql::parse(text) {
        Ok(_) => None,
        Err(e) => Some(e.to_string()),
    }
}

/// Relies on `surrealdb::sql::parse` and on the `Display` renderings of the
/// scope statement's clauses (`DefineScopeStatement`): signup, signin,
/// session and comment are handed over as rendered text when present.
#[verifier::external_body]
pub(crate) fn parse_scope(text: &str) -> (r: Result<Option<ScopeNode>, String>)
    ensures
        r is Err <==> parse_error_of(text@) is Some,
        r matches Err(e) ==> parse_error_of(text@) == Some(e@),
        r matches Ok(Some(n)) ==> scope_def_of(text@) == Some(n@),
        r matches Ok(n) && n is None ==> scope_def_of(text@) is None,
{
    let q = match surrealdb::sql::parse(text) { Ok(q) => q, Err(e) => return Err(e.to_string()) };
    if let Some(surrealdb::sql::Statement::Define(DefineStatement::Scope(s))) = q.first() {
        Ok(Some(ScopeNode {
            name: s.name.to_raw(),
            signup: opt_text(&s.signup),
            signin: opt_text(&s.signin),
            session: opt_text(&s.session),
            comment: opt_comment(&s.comment),
        }))
    } else { Ok(None) }
}

/// Relies on `surrealdb::sql::parse` and on the `Display` renderings of the
/// table statement's clauses (`DefineTableStatement`): flags are copied,
/// view, permissions, changefeed and comment are handed over as rendered
/// text when present.
#[verifier::external_body]
pub(crate) fn parse_table(text: &str) -> (r: Result<Option<TableNode>, String>)
    ensures
        r is Err <==> parse_error_of(text@) is Some,
        r matches Err(e) ==> parse_error_of(text@) == Some(e@),
        r matches Ok(Some(n)) ==> table_def_of(text@) == Some(n@),
        r matches Ok(n) && n is None ==> table_def_of(text@) is None,
{
    let q = match surrealdb::sql::parse(text) { Ok(q) => q, Err(e) => return Err(e.to_string()) };
    if let Some(surrealdb::sql::Statement::Define(DefineStatement::Table(t))) = q.first() {
        Ok(Some(TableNode {
            name: t.name.to_raw(),
            drop: t.drop,
            full: t.full,
            view: t.view.as_ref().map(view_node_of),
            permissions: perm_info_of(&t.permissions),
            comment: opt_comment(&t.comment),
            changefeed: opt_text(&t.changefeed),
        }))
    } else { Ok(None) }
}

/// Relies on `surrealdb::sql::parse` and on the `Display` renderings of the
/// field statement's clauses (`DefineFieldStatement`): the flexible flag is
/// copied, kind, value, assertion, default, permissions and comment are
/// handed over as rendered text when present.
#[verifier::external_body]
pub(crate) fn parse_field(text: &str) -> (r: Result<Option<FieldNode>, String>)
    ensures
        r is Err <==> parse_error_of(text@) is Some,
        r matches Err(e) ==> parse_error_of(text@) == Some(e@),
        r matches Ok(Some(n)) ==> field_def_of(text@) == Some(n@),
        r matches Ok(n) && n is None ==> field_def_of(text@) is None,
{
    let q = match surrealdb::sql::parse(text) { Ok(q) => q, Err(e) => return Err(e.to_string()) };
    if let Some(surrealdb::sql::Statement::Define(DefineStatement::Field(f))) = q.first() {
        Ok(Some(FieldNode {
            name: f.name.to_string(),
            flex: f.flex,
            kind: opt_text(&f.kind),
            value: opt_text(&f.value),
            assert: opt_text(&f.assert),
            default: opt_text(&f.default),
            permissions: perm_info_of(&f.permissions),
            comment: opt_comment(&f.comment),
        }))
    } else { Ok(None) }
}

/// Relies on `surrealdb::sql::parse` and on the `Display` renderings of the
/// analyzer statement's clauses (`DefineAnalyzerStatement`): each tokenizer
/// and filter renders to its own name text.
#[verifier::external_body]
pub(crate) fn parse_analyzer(text: &str) -> (r: Result<Option<AnalyzerNode>, String>)
    ensures
        r is Err <==> parse_error_of(text@) is Some,
        r matches Err(e) ==> parse_error_of(text@) == Some(e@),
        r matches Ok(Some(n)) ==> analyzer_def_of(text@) == Some(n@),
        r matches Ok(n) && n is None ==> analyzer_def_of(text@) is None,
{
    let q = match surrealdb::sql::parse(text) { Ok(q) => q, Err(e) => return Err(e.to_string()) };
    if let Some(surrealdb::sql::Statement::Define(DefineStatement::Analyzer(a))) = q.first() {
        Ok(Some(AnalyzerNode {
            name: a.name.to_string(),
            tokenizers: opt_names(&a.tokenizers),
            filters: opt_names(&a.filters),
            comment: opt_comment(&a.comment),
        }))
    } else { Ok(None) }
}

/// Relies on `surrealdb::sql::parse`, on the discriminant of
/// `surrealdb::sql::Index`, and on the `Display` of `DefineIndexStatement`,
/// which always begins with literal text, so the rendering is never empty.
#[verifier::external_body]
pub(crate) fn parse_index(text: &str) -> (r: Result<Option<IndexNode>, String>)
    ensures
        r is Err <==> parse_error_of(text@) is Some,
        r matches Err(e) ==> parse_error_of(text@) == Some(e@),
        r matches Ok(Some(n)) ==> index_def_of(text@) == Some(n@) && n@.rendered.len() > 0,
        r matches Ok(n) && n is None ==> index_def_of(text@) is None,
{
    let q = match surrealdb::sql::parse(text) { Ok(q) => q, Err(e) => return Err(e.to_string()) };
    if let Some(surrealdb::sql::Statement::Define(DefineStatement::Index(i))) = q.first() {
        let kind = match i.index {
            surrealdb::sql::Index::Idx => IndexKind::Normal,
            surrealdb::sql::Index::Uniq => IndexKind::Unique,
            surrealdb::sql::Index::Search(_) => IndexKind::Search,
            surrealdb::sql::Index::MTree(_) => IndexKind::Vector,
        };
        let rendered = i.to_string();
        let comment = opt_comment(&i.comment);
        Ok(Some(IndexNode { name: i.name.to_string(), fields: i.cols.to_string(), kind, rendered, comment }))
    } else { Ok(None) }
}

/// Relies on `surrealdb::sql::parse` and on the `Display` renderings of the
/// event statement's clauses (`DefineEventStatement`). The action values'
/// rendering is recovered from the comment-free statement rendering, whose
/// `Display` leads with exactly `DEFINE EVENT {name} ON {what} WHEN {when}
/// THEN ` before the action values.
#[verifier::external_body]
pub(crate) fn parse_event(text: &str) -> (r: Result<Option<EventNode>, String>)
    ensures
        r is Err <==> parse_error_of(text@) is Some,
        r matches Err(e) ==> parse_error_of(text@) == Some(e@),
        r matches Ok(Some(n)) ==> event_def_of(text@) == Some(n@),
        r matches Ok(n) && n is None ==> event_def_of(text@) is None,
{
    let q = match surrealdb::sql::parse(text) { Ok(q) => q, Err(e) => return Err(e.to_string()) };
    if let Some(surrealdb::sql::Statement::Define(DefineStatement::Event(e))) = q.first() {
        let lead = format!("DEFINE EVENT {} ON {} WHEN {} THEN ", e.name, e.what, e.when);
        let mut bare = e.clone();
        bare.comment = None;
        let whole = bare.to_string();
        Ok(Some(EventNode {
            name: e.name.to_string(),
            when: e.when.to_string(),
            action: whole.strip_prefix(&lead).unwrap_or("").to_owned(),
            comment: opt_comment(&e.comment),
        }))
    } else { Ok(None) }
}

/// Relies on `surrealdb::sql::parse` and on the `Display` renderings of the
/// user statement's clauses (`DefineUserStatement`): each role renders to
/// its own name text.
#[verifier::external_body]
pub(crate) fn parse_user(text: &str) -> (r: Result<Option<UserNode>, String>)
    ensures
        r is Err <==> parse_error_of(text@) is Some,
        r matches Err(e) ==> parse_error_of(text@) == Some(e@),
        r matches Ok(Some(n)) ==> user_def_of(text@) == Some(n@),
        r matches Ok(n) && n is None ==> user_def_of(text@) is None,
{
    let q = match surrealdb::sql::parse(text) { Ok(q) => q, Err(e) => return Err(e.to_string()) };
    if let Some(surrealdb::sql::Statement::Define(DefineStatement::User(u))) = q.first() {
        Ok(Some(UserNode {
            name: u.name.to_string(),
            roles: u.roles.iter().map(|r| r.to_string()).collect(),
            comment: opt_comment(&u.comment),
        }))
    } else { Ok(None) }
}

} // verus!
