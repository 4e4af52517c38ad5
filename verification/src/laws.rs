//! Laws of the node-to-descriptor mapping, stated once and proved for every
//! node value, not only for the values any one test exercises.
use crate::descriptor::ScopeInfoV;
use crate::mapping::{
    analyzer_info_spec, event_info_spec, field_info_spec, index_info_spec, scope_info_spec,
    strip_ends_spec, table_info_spec, user_info_spec,
};
use crate::node::{
    AnalyzerNodeV, EventNodeV, FieldNodeV, IndexNodeV, ScopeNodeV, TableNodeV, UserNodeV,
};
use vstd::prelude::*;

verus! {

/// Law: stripping is exact. A wrapped rendering of at least two characters
/// is its first character, then the exposed text, then its last character —
/// so exactly the delimiter pair goes, no inner character is lost, and no
/// boundary can fall inside a character of the sequence.
pub proof fn lemma_strip_ends_reconstruct(s: Seq<char>)
    requires
        s.len() >= 2,
    ensures
        s =~= seq![s[0]] + strip_ends_spec(s) + seq![s[s.len() - 1]],
        strip_ends_spec(s).len() == s.len() - 2,
{
}

/// Law: the two index configuration slots are mutually exclusive by
/// construction. The slot selected by the kind carries the statement
/// rendering; the other, and both for the Normal and Unique kinds, stay at
/// their empty default.
pub proof fn lemma_index_config_exclusive(n: IndexNodeV)
    ensures
        index_info_spec(n).kind == n.kind,
        index_info_spec(n).kind is Search ==> index_info_spec(n).search == n.rendered,
        index_info_spec(n).kind is Vector ==> index_info_spec(n).vector == n.rendered,
        !(index_info_spec(n).kind is Search) ==> index_info_spec(n).search
            =~= Seq::<char>::empty(),
        !(index_info_spec(n).kind is Vector) ==> index_info_spec(n).vector
            =~= Seq::<char>::empty(),
        index_info_spec(n).search.len() == 0 || index_info_spec(n).vector.len() == 0,
{
}

/// Law: a scope definition with every optional clause absent maps to the
/// stated defaults — empty signup, signin, session and comment texts — and
/// still carries its name.
pub proof fn lemma_scope_defaults(n: ScopeNodeV)
    requires
        n.signup is None,
        n.signin is None,
        n.session is None,
        n.comment is None,
    ensures
        scope_info_spec(n) == (ScopeInfoV {
            name: n.name,
            signup: Seq::empty(),
            signin: Seq::empty(),
            session: Seq::empty(),
            comment: Seq::empty(),
        }),
{
}

/// Law: a table definition with every optional clause absent maps to the
/// stated defaults: no view, empty comment, changefeed off with an empty
/// interval text.
pub proof fn lemma_table_defaults(n: TableNodeV)
    requires
        n.view is None,
        n.comment is None,
        n.changefeed is None,
    ensures
        table_info_spec(n).view is None,
        table_info_spec(n).comment =~= Seq::<char>::empty(),
        !table_info_spec(n).changefeed,
        table_info_spec(n).changetime =~= Seq::<char>::empty(),
{
}

/// Law: a field definition with every optional clause absent maps to the
/// stated defaults: empty kind, value, assertion, default and comment texts.
pub proof fn lemma_field_defaults(n: FieldNodeV)
    requires
        n.kind is None,
        n.value is None,
        n.assert is None,
        n.default is None,
        n.comment is None,
    ensures
        field_info_spec(n).kind =~= Seq::<char>::empty(),
        field_info_spec(n).value =~= Seq::<char>::empty(),
        field_info_spec(n).assert =~= Seq::<char>::empty(),
        field_info_spec(n).default =~= Seq::<char>::empty(),
        field_info_spec(n).comment =~= Seq::<char>::empty(),
{
}

/// Law: an analyzer definition with every optional clause absent maps to the
/// stated defaults: empty tokenizer and filter lists and an empty comment.
pub proof fn lemma_analyzer_defaults(n: AnalyzerNodeV)
    requires
        n.tokenizers is None,
        n.filters is None,
        n.comment is None,
    ensures
        analyzer_info_spec(n).tokenizers =~= Seq::<Seq<char>>::empty(),
        analyzer_info_spec(n).filters =~= Seq::<Seq<char>>::empty(),
        analyzer_info_spec(n).comment =~= Seq::<char>::empty(),
{
}

/// Law: an absent comment maps to the empty comment text on index, event and
/// user descriptors too.
pub proof fn lemma_comment_defaults(i: IndexNodeV, e: EventNodeV, u: UserNodeV)
    requires
        i.comment is None,
        e.comment is None,
        u.comment is None,
    ensures
        index_info_spec(i).comment =~= Seq::<char>::empty(),
        event_info_spec(e).comment =~= Seq::<char>::empty(),
        user_info_spec(u).comment =~= Seq::<char>::empty(),
{
}

} // verus!
