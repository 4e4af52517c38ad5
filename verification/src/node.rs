//! Plain-value images of the definition statements the parser returns.
//!
//! Each node holds, as owned text and plain values, exactly the clauses that
//! the descriptor builders read off the corresponding statement; optional
//! clauses stay optional here, so the builders can be verified to apply every
//! default themselves.
use crate::descriptor::{IndexKind, PermissionInfo, PermissionInfoV};
use vstd::prelude::*;

verus! {

/// The view of an optional owned text.
pub open spec fn opt_text_view(o: Option<String>) -> Option<Seq<char>> {
    match o {
        Some(s) => Some(s@),
        None => None,
    }
}

/// The view of an optional list of owned texts.
pub open spec fn opt_list_view(o: Option<Vec<String>>) -> Option<Seq<Seq<char>>> {
    match o {
        Some(v) => Some(v.deep_view()),
        None => None,
    }
}

/// An authentication scope definition as parsed: clause renderings, still
/// carrying the renderer's wrapping pair.
pub struct ScopeNode {
    pub name: String,
    pub signup: Option<String>,
    pub signin: Option<String>,
    pub session: Option<String>,
    pub comment: Option<String>,
}

pub ghost struct ScopeNodeV {
    pub name: Seq<char>,
    pub signup: Option<Seq<char>>,
    pub signin: Option<Seq<char>>,
    pub session: Option<Seq<char>>,
    pub comment: Option<Seq<char>>,
}

impl View for ScopeNode {
    type V = ScopeNodeV;

    open spec fn view(&self) -> ScopeNodeV {
        ScopeNodeV {
            name: self.name@,
            signup: opt_text_view(self.signup),
            signin: opt_text_view(self.signin),
            session: opt_text_view(self.session),
            comment: opt_text_view(self.comment),
        }
    }
}

/// A table's view clause as parsed.
pub struct ViewNode {
    pub expr: String,
    pub what: String,
    pub cond: Option<String>,
    pub group: Option<String>,
}

pub ghost struct ViewNodeV {
    pub expr: Seq<char>,
    pub what: Seq<char>,
    pub cond: Option<Seq<char>>,
    pub group: Option<Seq<char>>,
}

impl View for ViewNode {
    type V = ViewNodeV;

    open spec fn view(&self) -> ViewNodeV {
        ViewNodeV {
            expr: self.expr@,
            what: self.what@,
            cond: opt_text_view(self.cond),
            group: opt_text_view(self.group),
        }
    }
}

/// A table definition as parsed.
pub struct TableNode {
    pub name: String,
    pub drop: bool,
    pub full: bool,
    pub view: Option<ViewNode>,
    pub permissions: PermissionInfo,
    pub comment: Option<String>,
    pub changefeed: Option<String>,
}

pub ghost struct TableNodeV {
    pub name: Seq<char>,
    pub drop: bool,
    pub full: bool,
    pub view: Option<ViewNodeV>,
    pub permissions: PermissionInfoV,
    pub comment: Option<Seq<char>>,
    pub changefeed: Option<Seq<char>>,
}

impl View for TableNode {
    type V = TableNodeV;

    open spec fn view(&self) -> TableNodeV {
        TableNodeV {
            name: self.name@,
            drop: self.drop,
            full: self.full,
            view: match self.view {
                Some(v) => Some(v@),
                None => None,
            },
            permissions: self.permissions@,
            comment: opt_text_view(self.comment),
            changefeed: opt_text_view(self.changefeed),
        }
    }
}

/// A field definition as parsed.
pub struct FieldNode {
    pub name: String,
    pub flex: bool,
    pub kind: Option<String>,
    pub value: Option<String>,
    pub assert: Option<String>,
    pub default: Option<String>,
    pub permissions: PermissionInfo,
    pub comment: Option<String>,
}

pub ghost struct FieldNodeV {
    pub name: Seq<char>,
    pub flex: bool,
    pub kind: Option<Seq<char>>,
    pub value: Option<Seq<char>>,
    pub assert: Option<Seq<char>>,
    pub default: Option<Seq<char>>,
    pub permissions: PermissionInfoV,
    pub comment: Option<Seq<char>>,
}

impl View for FieldNode {
    type V = FieldNodeV;

    open spec fn view(&self) -> FieldNodeV {
        FieldNodeV {
            name: self.name@,
            flex: self.flex,
            kind: opt_text_view(self.kind),
            value: opt_text_view(self.value),
            assert: opt_text_view(self.assert),
            default: opt_text_view(self.default),
            permissions: self.permissions@,
            comment: opt_text_view(self.comment),
        }
    }
}

/// An analyzer definition as parsed.
pub struct AnalyzerNode {
    pub name: String,
    pub tokenizers: Option<Vec<String>>,
    pub filters: Option<Vec<String>>,
    pub comment: Option<String>,
}

pub ghost struct AnalyzerNodeV {
    pub name: Seq<char>,
    pub tokenizers: Option<Seq<Seq<char>>>,
    pub filters: Option<Seq<Seq<char>>>,
    pub comment: Option<Seq<char>>,
}

impl View for AnalyzerNode {
    type V = AnalyzerNodeV;

    open spec fn view(&self) -> AnalyzerNodeV {
        AnalyzerNodeV {
            name: self.name@,
            tokenizers: opt_list_view(self.tokenizers),
            filters: opt_list_view(self.filters),
            comment: opt_text_view(self.comment),
        }
    }
}

/// An index definition as parsed: the strategy discriminant and one rendering
/// of the whole statement, computed once.
pub struct IndexNode {
    pub name: String,
    pub fields: String,
    pub kind: IndexKind,
    pub rendered: String,
    pub comment: Option<String>,
}

pub ghost struct IndexNodeV {
    pub name: Seq<char>,
    pub fields: Seq<char>,
    pub kind: IndexKind,
    pub rendered: Seq<char>,
    pub comment: Option<Seq<char>>,
}

impl View for IndexNode {
    type V = IndexNodeV;

    open spec fn view(&self) -> IndexNodeV {
        IndexNodeV {
            name: self.name@,
            fields: self.fields@,
            kind: self.kind,
            rendered: self.rendered@,
            comment: opt_text_view(self.comment),
        }
    }
}

/// An event definition as parsed: the action rendering still carries the
/// renderer's wrapping pair.
pub struct EventNode {
    pub name: String,
    pub when: String,
    pub action: String,
    pub comment: Option<String>,
}

pub ghost struct EventNodeV {
    pub name: Seq<char>,
    pub when: Seq<char>,
    pub action: Seq<char>,
    pub comment: Option<Seq<char>>,
}

impl View for EventNode {
    type V = EventNodeV;

    open spec fn view(&self) -> EventNodeV {
        EventNodeV {
            name: self.name@,
            when: self.when@,
            action: self.action@,
            comment: opt_text_view(self.comment),
        }
    }
}

/// A user definition as parsed.
pub struct UserNode {
    pub name: String,
    pub roles: Vec<String>,
    pub comment: Option<String>,
}

pub ghost struct UserNodeV {
    pub name: Seq<char>,
    pub roles: Seq<Seq<char>>,
    pub comment: Option<Seq<char>>,
}

impl View for UserNode {
    type V = UserNodeV;

    open spec fn view(&self) -> UserNodeV {
        UserNodeV {
            name: self.name@,
            roles: self.roles.deep_view(),
            comment: opt_text_view(self.comment),
        }
    }
}

} // verus!
