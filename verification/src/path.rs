//! Locations of files and directories, as a root and the names below it.

use vstd::prelude::*;
use vstd::string::*;

verus! {

/// The mathematical value of a [`FilePath`].
pub struct PathView {
    pub root: Seq<char>,
    pub parts: Seq<Seq<char>>,
}

impl PathView {
    /// The path one level below `self`, at `name`.
    pub open spec fn join(self, name: Seq<char>) -> PathView {
        PathView { root: self.root, parts: self.parts.push(name) }
    }

    /// The path as text: the root, then each name after a slash.
    pub open spec fn text(self) -> Seq<char>
        decreases self.parts.len(),
    {
        if self.parts.len() == 0 {
            self.root
        } else {
            (PathView { root: self.root, parts: self.parts.drop_last() }).text() + "/"@
                + self.parts.last()
        }
    }

    /// `self` is `base` or lies below it.
    pub open spec fn starts_with(self, base: PathView) -> bool {
        self.root == base.root && base.parts.is_prefix_of(self.parts)
    }
}

/// A location: a root that the caller supplies, and the names of the
/// directories and the file below it, outermost first.
#[derive(Debug, Clone, PartialEq, Eq)]
pub struct FilePath {
    pub root: String,
    pub parts: Vec<String>,
}

impl View for FilePath {
    type V = PathView;

    open spec fn view(&self) -> PathView {
        PathView { root: self.root@, parts: self.parts.deep_view() }
    }
}

impl FilePath {
    /// The path that is `root` itself.
    pub fn new(root: &str) -> (r: FilePath)
        ensures
            r@ == (PathView { root: root@, parts: Seq::empty() }),
    {
        let r = FilePath { root: String::from_str(root), parts: Vec::new() };
        assert(r.parts.deep_view() =~= Seq::<Seq<char>>::empty());
        r
    }

    /// The path as text: the root, then each name after a slash.
    pub fn to_text(&self) -> (r: String)
        ensures
            r@ == self@.text(),
    {
        let mut r = self.root.clone();
        let n: usize = self.parts.len();
        let mut i: usize = 0;
        while i < n
            invariant
                n == self.parts.len(),
                i <= n,
                r@ == (PathView {
                    root: self.root@,
                    parts: self.parts.deep_view().take(i as int),
                }).text(),
            decreases n - i,
        {
            proof {
                assert(self.parts.deep_view().take(i as int + 1).drop_last()
                    =~= self.parts.deep_view().take(i as int));
            }
            r.append("/");
            r.append(self.parts[i].as_str());
            i = i + 1;
        }
        assert(self.parts.deep_view().take(n as int) =~= self.parts.deep_view());
        r
    }

    /// A copy of `self`.
    pub fn duplicate(&self) -> (r: FilePath)
        ensures
            r@ == self@,
    {
        let mut parts: Vec<String> = Vec::new();
        let n: usize = self.parts.len();
        let mut i: usize = 0;
        while i < n
            invariant
                n == self.parts.len(),
                i <= n,
                parts.len() == i,
                forall|j: int| 0 <= j < i ==> parts[j]@ == self.parts[j]@,
            decreases n - i,
        {
            parts.push(self.parts[i].clone());
            i = i + 1;
        }
        let r = FilePath { root: self.root.clone(), parts };
        assert(r.parts.deep_view() =~= self.parts.deep_view());
        r
    }

    /// The path one level below `self`, at `name`.
    pub fn join(&self, name: &str) -> (r: FilePath)
        ensures
            r@ == self@.join(name@),
    {
        let mut r = self.duplicate();
        r.parts.push(String::from_str(name));
        assert(r.parts.deep_view() =~= self.parts.deep_view().push(name@));
        r
    }
}

/// A path agrees, name by name, with a path that it starts with.
pub proof fn lemma_starts_with_index(p: PathView, base: PathView, i: int)
    requires
        p.starts_with(base),
        0 <= i < base.parts.len(),
    ensures
        p.root == base.root,
        base.parts.len() <= p.parts.len(),
        p.parts[i] == base.parts[i],
{
    assert(p.parts.subrange(0, base.parts.len() as int)[i] == p.parts[i]);
}

/// A path starts with a path of the same root with which it agrees name by
/// name.
pub proof fn lemma_starts_with_intro(p: PathView, base: PathView)
    requires
        p.root == base.root,
        base.parts.len() <= p.parts.len(),
        forall|i: int| 0 <= i < base.parts.len() ==> p.parts[i] == base.parts[i],
    ensures
        p.starts_with(base),
{
    assert(base.parts =~= p.parts.subrange(0, base.parts.len() as int));
}

/// What lies below a path lies below all that the path lies below.
pub proof fn lemma_starts_with_trans(p: PathView, q: PathView, r: PathView)
    requires
        p.starts_with(q),
        q.starts_with(r),
    ensures
        p.starts_with(r),
{
    assert forall|i: int| 0 <= i < r.parts.len() implies p.parts[i] == r.parts[i] by {
        lemma_starts_with_index(q, r, i);
        lemma_starts_with_index(p, q, i);
    }
    lemma_starts_with_intro(p, r);
}

/// A path lies below the directory that it was joined to.
pub proof fn lemma_join_starts_with(p: PathView, name: Seq<char>)
    ensures
        p.join(name).starts_with(p),
        p.join(name).parts.len() == p.parts.len() + 1,
        p.join(name).parts[p.parts.len() as int] == name,
{
    lemma_starts_with_intro(p.join(name), p);
}

} // verus!
