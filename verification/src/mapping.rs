//! The node-to-descriptor mapping: defaults for absent clauses, stripping of
//! the renderer's wrapping pair, and classification of index strategies.
use crate::descriptor::{
    AnalyzerInfo, AnalyzerInfoV, EventInfo, EventInfoV, FieldInfo, FieldInfoV, IndexInfo,
    IndexInfoV, IndexKind, ScopeInfo, ScopeInfoV, TableInfo, TableInfoV, TableViewInfo,
    TableViewInfoV, UserInfo, UserInfoV,
};
use crate::node::{
    opt_list_view, opt_text_view, AnalyzerNode, AnalyzerNodeV, EventNode, EventNodeV, FieldNode,
    FieldNodeV, IndexNode, IndexNodeV, ScopeNode, ScopeNodeV, TableNode, TableNodeV, UserNode,
    UserNodeV, ViewNode, ViewNodeV,
};
use vstd::prelude::*;

verus! {

/// One leading and one trailing character removed, on character boundaries;
/// text shorter than two characters yields the empty sequence.
pub open spec fn strip_ends_spec(s: Seq<char>) -> Seq<char> {
    if s.len() >= 2 {
        s.subrange(1, s.len() - 1)
    } else {
        Seq::empty()
    }
}

/// An absent clause defaults to the empty text.
pub open spec fn text_or_empty_spec(o: Option<Seq<char>>) -> Seq<char> {
    match o {
        Some(s) => s,
        None => Seq::empty(),
    }
}

/// A block-like clause: the renderer's wrapping pair is stripped from a
/// present clause; an absent one stands for an empty pair and yields the
/// empty text, indistinguishable from an explicitly empty clause.
pub open spec fn wrapped_clause_spec(o: Option<Seq<char>>) -> Seq<char> {
    match o {
        Some(s) => strip_ends_spec(s),
        None => Seq::empty(),
    }
}

/// An absent name list defaults to the empty list.
pub open spec fn list_or_empty_spec(o: Option<Seq<Seq<char>>>) -> Seq<Seq<char>> {
    match o {
        Some(v) => v,
        None => Seq::empty(),
    }
}

/// Removes the single wrapping delimiter pair that the statement renderer
/// puts around block-like clauses, slicing on character boundaries.
pub fn strip_ends(s: &str) -> (r: String)
    ensures
        r@ == strip_ends_spec(s@),
{
    let n = s.unicode_len();
    if n >= 2 {
        String::from_str(s.substring_char(1, n - 1))
    } else {
        String::new()
    }
}

fn text_or_empty(o: Option<String>) -> (r: String)
    ensures
        r@ == text_or_empty_spec(opt_text_view(o)),
{
    match o {
        Some(s) => s,
        None => String::new(),
    }
}

fn wrapped_clause(o: Option<String>) -> (r: String)
    ensures
        r@ == wrapped_clause_spec(opt_text_view(o)),
{
    match o {
        Some(s) => strip_ends(s.as_str()),
        None => String::new(),
    }
}

fn list_or_empty(o: Option<Vec<String>>) -> (r: Vec<String>)
    ensures
        r.deep_view() == list_or_empty_spec(opt_list_view(o)),
{
    match o {
        Some(v) => v,
        None => {
            let empty: Vec<String> = Vec::new();
            proof {
                assert(empty.deep_view() =~= Seq::<Seq<char>>::empty());
            }
            empty
        },
    }
}

/// The descriptor a scope definition node maps to.
pub open spec fn scope_info_spec(n: ScopeNodeV) -> ScopeInfoV {
    ScopeInfoV {
        name: n.name,
        signup: wrapped_clause_spec(n.signup),
        signin: wrapped_clause_spec(n.signin),
        session: text_or_empty_spec(n.session),
        comment: text_or_empty_spec(n.comment),
    }
}

pub fn scope_info_from_node(n: ScopeNode) -> (r: ScopeInfo)
    ensures
        r@ == scope_info_spec(n@),
{
    ScopeInfo {
        name: n.name,
        signup: wrapped_clause(n.signup),
        signin: wrapped_clause(n.signin),
        session: text_or_empty(n.session),
        comment: text_or_empty(n.comment),
    }
}

/// The descriptor a table's view clause maps to.
pub open spec fn table_view_info_spec(n: ViewNodeV) -> TableViewInfoV {
    TableViewInfoV {
        expr: n.expr,
        what: n.what,
        cond: text_or_empty_spec(n.cond),
        group: text_or_empty_spec(n.group),
    }
}

/// The descriptor a table definition node maps to: the changefeed flag says
/// whether the clause was present, its interval text defaults to empty.
pub open spec fn table_info_spec(n: TableNodeV) -> TableInfoV {
    TableInfoV {
        name: n.name,
        drop: n.drop,
        schemafull: n.full,
        view: match n.view {
            Some(v) => Some(table_view_info_spec(v)),
            None => None,
        },
        permissions: n.permissions,
        comment: text_or_empty_spec(n.comment),
        changefeed: n.changefeed is Some,
        changetime: text_or_empty_spec(n.changefeed),
    }
}

pub fn table_info_from_node(n: TableNode) -> (r: TableInfo)
    ensures
        r@ == table_info_spec(n@),
{
    let view = match n.view {
        Some(v) => Some(
            TableViewInfo {
                expr: v.expr,
                what: v.what,
                cond: text_or_empty(v.cond),
                group: text_or_empty(v.group),
            },
        ),
        None => None,
    };
    let changefeed = n.changefeed.is_some();
    TableInfo {
        name: n.name,
        drop: n.drop,
        schemafull: n.full,
        view,
        permissions: n.permissions,
        comment: text_or_empty(n.comment),
        changefeed,
        changetime: text_or_empty(n.changefeed),
    }
}

/// The descriptor a field definition node maps to.
pub open spec fn field_info_spec(n: FieldNodeV) -> FieldInfoV {
    FieldInfoV {
        name: n.name,
        flexible: n.flex,
        kind: text_or_empty_spec(n.kind),
        value: text_or_empty_spec(n.value),
        assert: text_or_empty_spec(n.assert),
        default: text_or_empty_spec(n.default),
        permissions: n.permissions,
        comment: text_or_empty_spec(n.comment),
    }
}

pub fn field_info_from_node(n: FieldNode) -> (r: FieldInfo)
    ensures
        r@ == field_info_spec(n@),
{
    FieldInfo {
        name: n.name,
        flexible: n.flex,
        kind: text_or_empty(n.kind),
        value: text_or_empty(n.value),
        assert: text_or_empty(n.assert),
        default: text_or_empty(n.default),
        permissions: n.permissions,
        comment: text_or_empty(n.comment),
    }
}

/// The descriptor an analyzer definition node maps to.
pub open spec fn analyzer_info_spec(n: AnalyzerNodeV) -> AnalyzerInfoV {
    AnalyzerInfoV {
        name: n.name,
        tokenizers: list_or_empty_spec(n.tokenizers),
        filters: list_or_empty_spec(n.filters),
        comment: text_or_empty_spec(n.comment),
    }
}

pub fn analyzer_info_from_node(n: AnalyzerNode) -> (r: AnalyzerInfo)
    ensures
        r@ == analyzer_info_spec(n@),
{
    AnalyzerInfo {
        name: n.name,
        tokenizers: list_or_empty(n.tokenizers),
        filters: list_or_empty(n.filters),
        comment: text_or_empty(n.comment),
    }
}

/// The descriptor an index definition node maps to: the statement rendering
/// goes to the one configuration slot its kind selects, so the other slot is
/// empty by construction.
pub open spec fn index_info_spec(n: IndexNodeV) -> IndexInfoV {
    IndexInfoV {
        name: n.name,
        fields: n.fields,
        kind: n.kind,
        search: if n.kind is Search {
            n.rendered
        } else {
            Seq::empty()
        },
        vector: if n.kind is Vector {
            n.rendered
        } else {
            Seq::empty()
        },
        comment: text_or_empty_spec(n.comment),
    }
}

pub fn index_info_from_node(n: IndexNode) -> (r: IndexInfo)
    ensures
        r@ == index_info_spec(n@),
{
    let (search, vector) = match n.kind {
        IndexKind::Search => (n.rendered, String::new()),
        IndexKind::Vector => (String::new(), n.rendered),
        _ => (String::new(), String::new()),
    };
    IndexInfo {
        name: n.name,
        fields: n.fields,
        kind: n.kind,
        search,
        vector,
        comment: text_or_empty(n.comment),
    }
}

/// The descriptor an event definition node maps to: the action rendering
/// loses its wrapping pair.
pub open spec fn event_info_spec(n: EventNodeV) -> EventInfoV {
    EventInfoV {
        name: n.name,
        cond: n.when,
        action: strip_ends_spec(n.action),
        comment: text_or_empty_spec(n.comment),
    }
}

pub fn event_info_from_node(n: EventNode) -> (r: EventInfo)
    ensures
        r@ == event_info_spec(n@),
{
    EventInfo {
        name: n.name,
        cond: n.when,
        action: strip_ends(n.action.as_str()),
        comment: text_or_empty(n.comment),
    }
}

/// The descriptor a user definition node maps to.
pub open spec fn user_info_spec(n: UserNodeV) -> UserInfoV {
    UserInfoV {
        name: n.name,
        roles: n.roles,
        comment: text_or_empty_spec(n.comment),
    }
}

pub fn user_info_from_node(n: UserNode) -> (r: UserInfo)
    ensures
        r@ == user_info_spec(n@),
{
    UserInfo {
        name: n.name,
        roles: n.roles,
        comment: text_or_empty(n.comment),
    }
}

} // verus!
