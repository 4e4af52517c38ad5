//! Flat, display-oriented records summarizing one schema definition each.
//!
//! Every textual field is a rendering of the corresponding sub-clause of the
//! parsed statement; absent optional clauses map to fixed defaults (`false`,
//! empty list, empty string), never to a sentinel the caller must special-case.
use vstd::prelude::*;

verus! {

/// The four rule texts of a permissions clause, one per action.
#[derive(Debug)]
pub struct PermissionInfo {
    pub select: String,
    pub create: String,
    pub update: String,
    pub delete: String,
}

pub ghost struct PermissionInfoV {
    pub select: Seq<char>,
    pub create: Seq<char>,
    pub update: Seq<char>,
    pub delete: Seq<char>,
}

impl View for PermissionInfo {
    type V = PermissionInfoV;

    open spec fn view(&self) -> PermissionInfoV {
        PermissionInfoV {
            select: self.select@,
            create: self.create@,
            update: self.update@,
            delete: self.delete@,
        }
    }
}

/// An authentication scope definition: signup and signin clause texts are
/// exposed with the renderer's wrapping pair stripped.
#[derive(Debug)]
pub struct ScopeInfo {
    pub name: String,
    pub signup: String,
    pub signin: String,
    pub session: String,
    pub comment: String,
}

pub ghost struct ScopeInfoV {
    pub name: Seq<char>,
    pub signup: Seq<char>,
    pub signin: Seq<char>,
    pub session: Seq<char>,
    pub comment: Seq<char>,
}

impl View for ScopeInfo {
    type V = ScopeInfoV;

    open spec fn view(&self) -> ScopeInfoV {
        ScopeInfoV {
            name: self.name@,
            signup: self.signup@,
            signin: self.signin@,
            session: self.session@,
            comment: self.comment@,
        }
    }
}

/// The projection of a table defined as a view over other tables.
#[derive(Debug)]
pub struct TableViewInfo {
    pub expr: String,
    pub what: String,
    pub cond: String,
    pub group: String,
}

pub ghost struct TableViewInfoV {
    pub expr: Seq<char>,
    pub what: Seq<char>,
    pub cond: Seq<char>,
    pub group: Seq<char>,
}

impl View for TableViewInfo {
    type V = TableViewInfoV;

    open spec fn view(&self) -> TableViewInfoV {
        TableViewInfoV {
            expr: self.expr@,
            what: self.what@,
            cond: self.cond@,
            group: self.group@,
        }
    }
}

/// A table definition.
#[derive(Debug)]
pub struct TableInfo {
    pub name: String,
    pub drop: bool,
    pub schemafull: bool,
    pub view: Option<TableViewInfo>,
    pub permissions: PermissionInfo,
    pub comment: String,
    pub changefeed: bool,
    pub changetime: String,
}

pub ghost struct TableInfoV {
    pub name: Seq<char>,
    pub drop: bool,
    pub schemafull: bool,
    pub view: Option<TableViewInfoV>,
    pub permissions: PermissionInfoV,
    pub comment: Seq<char>,
    pub changefeed: bool,
    pub changetime: Seq<char>,
}

impl View for TableInfo {
    type V = TableInfoV;

    open spec fn view(&self) -> TableInfoV {
        TableInfoV {
            name: self.name@,
            drop: self.drop,
            schemafull: self.schemafull,
            view: match self.view {
                Some(v) => Some(v@),
                None => None,
            },
            permissions: self.permissions@,
            comment: self.comment@,
            changefeed: self.changefeed,
            changetime: self.changetime@,
        }
    }
}

/// A field definition on a table.
#[derive(Debug)]
pub struct FieldInfo {
    pub name: String,
    pub flexible: bool,
    pub kind: String,
    pub value: String,
    pub assert: String,
    pub default: String,
    pub permissions: PermissionInfo,
    pub comment: String,
}

pub ghost struct FieldInfoV {
    pub name: Seq<char>,
    pub flexible: bool,
    pub kind: Seq<char>,
    pub value: Seq<char>,
    pub assert: Seq<char>,
    pub default: Seq<char>,
    pub permissions: PermissionInfoV,
    pub comment: Seq<char>,
}

impl View for FieldInfo {
    type V = FieldInfoV;

    open spec fn view(&self) -> FieldInfoV {
        FieldInfoV {
            name: self.name@,
            flexible: self.flexible,
            kind: self.kind@,
            value: self.value@,
            assert: self.assert@,
            default: self.default@,
            permissions: self.permissions@,
            comment: self.comment@,
        }
    }
}

/// A full-text analyzer definition.
#[derive(Debug)]
pub struct AnalyzerInfo {
    pub name: String,
    pub tokenizers: Vec<String>,
    pub filters: Vec<String>,
    pub comment: String,
}

pub ghost struct AnalyzerInfoV {
    pub name: Seq<char>,
    pub tokenizers: Seq<Seq<char>>,
    pub filters: Seq<Seq<char>>,
    pub comment: Seq<char>,
}

impl View for AnalyzerInfo {
    type V = AnalyzerInfoV;

    open spec fn view(&self) -> AnalyzerInfoV {
        AnalyzerInfoV {
            name: self.name@,
            tokenizers: self.tokenizers.deep_view(),
            filters: self.filters.deep_view(),
            comment: self.comment@,
        }
    }
}

/// The closed set of index strategies.
#[derive(Clone, Copy, Debug, PartialEq, Eq, Structural)]
pub enum IndexKind {
    Normal,
    Unique,
    Search,
    Vector,
}

/// An index definition; exactly the slot selected by `kind` carries the
/// rendered configuration, the other stays empty.
#[derive(Debug)]
pub struct IndexInfo {
    pub name: String,
    pub fields: String,
    pub kind: IndexKind,
    pub search: String,
    pub vector: String,
    pub comment: String,
}

pub ghost struct IndexInfoV {
    pub name: Seq<char>,
    pub fields: Seq<char>,
    pub kind: IndexKind,
    pub search: Seq<char>,
    pub vector: Seq<char>,
    pub comment: Seq<char>,
}

impl View for IndexInfo {
    type V = IndexInfoV;

    open spec fn view(&self) -> IndexInfoV {
        IndexInfoV {
            name: self.name@,
            fields: self.fields@,
            kind: self.kind,
            search: self.search@,
            vector: self.vector@,
            comment: self.comment@,
        }
    }
}

/// A table event definition: trigger condition and action block texts.
#[derive(Debug)]
pub struct EventInfo {
    pub name: String,
    pub cond: String,
    pub action: String,
    pub comment: String,
}

pub ghost struct EventInfoV {
    pub name: Seq<char>,
    pub cond: Seq<char>,
    pub action: Seq<char>,
    pub comment: Seq<char>,
}

impl View for EventInfo {
    type V = EventInfoV;

    open spec fn view(&self) -> EventInfoV {
        EventInfoV {
            name: self.name@,
            cond: self.cond@,
            action: self.action@,
            comment: self.comment@,
        }
    }
}

/// A system user definition with its role names.
#[derive(Debug)]
pub struct UserInfo {
    pub name: String,
    pub roles: Vec<String>,
    pub comment: String,
}

pub ghost struct UserInfoV {
    pub name: Seq<char>,
    pub roles: Seq<Seq<char>>,
    pub comment: Seq<char>,
}

impl View for UserInfo {
    type V = UserInfoV;

    open spec fn view(&self) -> UserInfoV {
        UserInfoV {
            name: self.name@,
            roles: self.roles.deep_view(),
            comment: self.comment@,
        }
    }
}

} // verus!
