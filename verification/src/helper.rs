//! The helper processes that the runtime framework starts, and the rules that
//! name their bundles.

use vstd::prelude::*;
use crate::text::{concat_text, lemma_concat_left_cancel, lemma_concat_right_cancel};

verus! {

/// A process role for which the runtime framework wants an executable of its
/// own. The framework fixes this set and its tags.
#[derive(Debug, Clone, Copy, PartialEq, Eq, Structural)]
pub enum HelperKind {
    /// The default role, which carries no tag.
    Base,
    Gpu,
    Renderer,
    Plugin,
    Alerts,
}

/// Every helper kind, in the order in which their bundles are made.
pub open spec fn helper_table() -> Seq<HelperKind> {
    seq![
        HelperKind::Base,
        HelperKind::Gpu,
        HelperKind::Renderer,
        HelperKind::Plugin,
        HelperKind::Alerts,
    ]
}

/// The kinds of the table that `wanted` names, each once, in table order.
pub open spec fn selected_kinds(wanted: Seq<HelperKind>) -> Seq<HelperKind> {
    helper_table().filter(|k: HelperKind| wanted.contains(k))
}

impl HelperKind {
    /// The tag by which the framework knows this kind; none for the base kind.
    pub open spec fn tag_spec(self) -> Option<Seq<char>> {
        match self {
            HelperKind::Base => None,
            HelperKind::Gpu => Some("GPU"@),
            HelperKind::Renderer => Some("Renderer"@),
            HelperKind::Plugin => Some("Plugin"@),
            HelperKind::Alerts => Some("Alerts"@),
        }
    }

    /// What this kind adds to a bundle identifier: nothing for the base kind,
    /// else a dot and the tag.
    pub open spec fn id_suffix_spec(self) -> Seq<char> {
        match self.tag_spec() {
            None => Seq::empty(),
            Some(tag) => "."@ + tag,
        }
    }

    /// What this kind adds to a display name: nothing for the base kind, else
    /// the tag in parentheses after a space.
    pub open spec fn name_suffix_spec(self) -> Seq<char> {
        match self.tag_spec() {
            None => Seq::empty(),
            Some(tag) => " ("@ + tag + ")"@,
        }
    }

    /// The tag by which the framework knows this kind; none for the base kind.
    pub fn tag(self) -> (r: Option<&'static str>)
        ensures
            match r {
                None => self.tag_spec() is None,
                Some(t) => self.tag_spec() == Some(t@),
            },
    {
        match self {
            HelperKind::Base => None,
            HelperKind::Gpu => Some("GPU"),
            HelperKind::Renderer => Some("Renderer"),
            HelperKind::Plugin => Some("Plugin"),
            HelperKind::Alerts => Some("Alerts"),
        }
    }

    /// What this kind adds to a bundle identifier.
    pub fn id_suffix(self) -> (r: String)
        ensures
            r@ == self.id_suffix_spec(),
    {
        match self.tag() {
            None => String::new(),
            Some(t) => concat_text(".", t),
        }
    }

    /// What this kind adds to a display name.
    pub fn name_suffix(self) -> (r: String)
        ensures
            r@ == self.name_suffix_spec(),
    {
        match self.tag() {
            None => String::new(),
            Some(t) => {
                let open = concat_text(" (", t);
                concat_text(open.as_str(), ")")
            },
        }
    }

    /// Every helper kind, in the order in which their bundles are made.
    pub fn all() -> (r: Vec<HelperKind>)
        ensures
            r@ == helper_table(),
    {
        let mut r: Vec<HelperKind> = Vec::new();
        r.push(HelperKind::Base);
        r.push(HelperKind::Gpu);
        r.push(HelperKind::Renderer);
        r.push(HelperKind::Plugin);
        r.push(HelperKind::Alerts);
        assert(r@ =~= helper_table());
        r
    }
}

/// The identifier of the helper bundle of `kind`, for an application whose
/// identifier is `app_id`.
pub open spec fn helper_identifier_spec(app_id: Seq<char>, kind: HelperKind) -> Seq<char> {
    app_id + ".helper"@ + kind.id_suffix_spec()
}

/// The display name of the helper bundle of `kind`, for an application named
/// `app_name`.
pub open spec fn helper_name_spec(app_name: Seq<char>, kind: HelperKind) -> Seq<char> {
    app_name + " Helper"@ + kind.name_suffix_spec()
}

/// The identifier of the helper bundle of `kind`.
pub fn helper_identifier(app_id: &str, kind: HelperKind) -> (r: String)
    ensures
        r@ == helper_identifier_spec(app_id@, kind),
{
    let base = concat_text(app_id, ".helper");
    let suffix = kind.id_suffix();
    concat_text(base.as_str(), suffix.as_str())
}

/// The display name of the helper bundle of `kind`.
pub fn helper_name(app_name: &str, kind: HelperKind) -> (r: String)
    ensures
        r@ == helper_name_spec(app_name@, kind),
{
    let base = concat_text(app_name, " Helper");
    let suffix = kind.name_suffix();
    concat_text(base.as_str(), suffix.as_str())
}

/// Whether `kinds` names `kind`.
pub fn names_kind(kinds: &Vec<HelperKind>, kind: HelperKind) -> (r: bool)
    ensures
        r == kinds@.contains(kind),
{
    let n: usize = kinds.len();
    let mut i: usize = 0;
    while i < n
        invariant
            n == kinds.len(),
            i <= n,
            forall|j: int| 0 <= j < i ==> kinds@[j] != kind,
        decreases n - i,
    {
        if kinds[i] == kind {
            return true;
        }
        i = i + 1;
    }
    false
}

/// The kinds of the table that `wanted` names, each once, in table order.
pub fn select_kinds(wanted: &Vec<HelperKind>) -> (r: Vec<HelperKind>)
    ensures
        r@ == selected_kinds(wanted@),
{
    let table = HelperKind::all();
    let mut r: Vec<HelperKind> = Vec::new();
    let mut i: usize = 0;
    while i < table.len()
        invariant
            table@ == helper_table(),
            i <= table.len(),
            r@ == table@.take(i as int).filter(|k: HelperKind| wanted@.contains(k)),
        decreases table.len() - i,
    {
        let kind = table[i];
        proof {
            reveal(Seq::filter);
            assert(table@.take(i as int + 1).drop_last() =~= table@.take(i as int));
        }
        if names_kind(wanted, kind) {
            r.push(kind);
        }
        i = i + 1;
    }
    assert(table@.take(table.len() as int) =~= table@);
    r
}

/// No two helper kinds share a tag, and only the base kind has none.
pub proof fn lemma_tags_distinct(a: HelperKind, b: HelperKind)
    requires
        a != b,
    ensures
        a.tag_spec() != b.tag_spec(),
{
    reveal_strlit("GPU");
    reveal_strlit("Renderer");
    reveal_strlit("Plugin");
    reveal_strlit("Alerts");
    if a.tag_spec() is Some && b.tag_spec() is Some {
        let x = a.tag_spec()->Some_0;
        let y = b.tag_spec()->Some_0;
        assert(x.len() != y.len() || x[0] != y[0]);
    }
}

/// The bundles of two different helper kinds have different identifiers and
/// different display names, whatever the application's identifier and name.
pub proof fn lemma_helper_identity_distinct(
    app_id: Seq<char>,
    app_name: Seq<char>,
    a: HelperKind,
    b: HelperKind,
)
    requires
        a != b,
    ensures
        helper_identifier_spec(app_id, a) != helper_identifier_spec(app_id, b),
        helper_name_spec(app_name, a) != helper_name_spec(app_name, b),
{
    lemma_tags_distinct(a, b);
    reveal_strlit(".");
    reveal_strlit(" (");
    reveal_strlit(")");
    if helper_identifier_spec(app_id, a) == helper_identifier_spec(app_id, b) {
        lemma_concat_left_cancel(app_id + ".helper"@, a.id_suffix_spec(), b.id_suffix_spec());
        if a.tag_spec() is Some && b.tag_spec() is Some {
            lemma_concat_left_cancel("."@, a.tag_spec()->Some_0, b.tag_spec()->Some_0);
        } else if a.tag_spec() is Some {
            assert(a.id_suffix_spec().len() > 0);
        } else {
            assert(b.id_suffix_spec().len() > 0);
        }
    }
    if helper_name_spec(app_name, a) == helper_name_spec(app_name, b) {
        lemma_concat_left_cancel(app_name + " Helper"@, a.name_suffix_spec(), b.name_suffix_spec());
        if a.tag_spec() is Some && b.tag_spec() is Some {
            let x = a.tag_spec()->Some_0;
            let y = b.tag_spec()->Some_0;
            lemma_concat_right_cancel(" ("@ + x, " ("@ + y, ")"@);
            lemma_concat_left_cancel(" ("@, x, y);
        } else if a.tag_spec() is Some {
            assert(a.name_suffix_spec().len() > 0);
        } else {
            assert(b.name_suffix_spec().len() > 0);
        }
    }
}

/// The bundle of a helper never has the application's own identifier or its
/// display name.
pub proof fn lemma_helper_differs_from_app(app_id: Seq<char>, app_name: Seq<char>, kind: HelperKind)
    ensures
        helper_identifier_spec(app_id, kind) != app_id,
        helper_name_spec(app_name, kind) != app_name,
{
    reveal_strlit(".helper");
    reveal_strlit(" Helper");
    assert(helper_identifier_spec(app_id, kind).len() >= app_id.len() + 7);
    assert(helper_name_spec(app_name, kind).len() >= app_name.len() + 7);
}

/// Filtering a sequence without repeats leaves no repeats, and keeps what
/// passes the filter and nothing else.
proof fn lemma_filter_distinct<A>(s: Seq<A>, pred: spec_fn(A) -> bool)
    requires
        s.no_duplicates(),
    ensures
        s.filter(pred).no_duplicates(),
        forall|x: A| s.filter(pred).contains(x) <==> (s.contains(x) && pred(x)),
    decreases s.len(),
{
    reveal(Seq::filter);
    if s.len() > 0 {
        let rest = s.drop_last();
        let last = s.last();
        let kept = rest.filter(pred);
        lemma_filter_distinct(rest, pred);
        assert(!rest.contains(last)) by {
            if rest.contains(last) {
                let i = choose|i: int| 0 <= i < rest.len() && rest[i] == last;
                assert(s[i] == s[s.len() - 1]);
            }
        }
        assert forall|x: A| s.contains(x) <==> (rest.contains(x) || x == last) by {
            if s.contains(x) {
                let i = choose|i: int| 0 <= i < s.len() && s[i] == x;
                if i < rest.len() {
                    assert(rest[i] == x);
                }
            }
            if rest.contains(x) {
                let i = choose|i: int| 0 <= i < rest.len() && rest[i] == x;
                assert(s[i] == x);
            }
            if x == last {
                assert(s[s.len() - 1] == x);
            }
        }
        if pred(last) {
            let out = kept.push(last);
            assert(s.filter(pred) == out);
            assert forall|x: A| out.contains(x) <==> (kept.contains(x) || x == last) by {
                if out.contains(x) {
                    let i = choose|i: int| 0 <= i < out.len() && out[i] == x;
                    if i < kept.len() {
                        assert(kept[i] == x);
                    }
                }
                if kept.contains(x) {
                    let i = choose|i: int| 0 <= i < kept.len() && kept[i] == x;
                    assert(out[i] == x);
                }
                if x == last {
                    assert(out[out.len() - 1] == x);
                }
            }
            assert(out.no_duplicates()) by {
                assert forall|i: int, j: int| 0 <= i < out.len() && 0 <= j < out.len() && i != j
                    implies out[i] != out[j] by {
                    if i == kept.len() {
                        assert(kept[j] == out[j]);
                        assert(kept.contains(out[j]));
                    } else if j == kept.len() {
                        assert(kept[i] == out[i]);
                        assert(kept.contains(out[i]));
                    } else {
                        assert(kept[i] == out[i] && kept[j] == out[j]);
                    }
                }
            }
        }
    }
}

/// The selection holds the kinds that `wanted` names and no others, and each
/// of them once.
pub proof fn lemma_selected_kinds(wanted: Seq<HelperKind>)
    ensures
        selected_kinds(wanted).no_duplicates(),
        forall|k: HelperKind| selected_kinds(wanted).contains(k) <==> wanted.contains(k),
{
    let pred = |k: HelperKind| wanted.contains(k);
    let table = helper_table();
    lemma_filter_distinct(table, pred);
    assert forall|k: HelperKind| table.contains(k) by {
        match k {
            HelperKind::Base => assert(table[0] == k),
            HelperKind::Gpu => assert(table[1] == k),
            HelperKind::Renderer => assert(table[2] == k),
            HelperKind::Plugin => assert(table[3] == k),
            HelperKind::Alerts => assert(table[4] == k),
        }
    }
}

} // verus!
