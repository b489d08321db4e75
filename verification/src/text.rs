//! Building owned strings.

use vstd::prelude::*;
use vstd::string::*;

verus! {

/// An owned copy of `s`.
pub fn owned(s: &str) -> (r: String)
    ensures
        r@ == s@,
{
    String::from_str(s)
}

/// `a` followed by `b`.
pub fn concat_text(a: &str, b: &str) -> (r: String)
    ensures
        r@ == a@ + b@,
{
    let mut r = String::from_str(a);
    r.append(b);
    r
}

/// Whether `a` and `b` hold the same characters.
pub fn same_text(a: &str, b: &str) -> (r: bool)
    ensures
        r == (a@ == b@),
{
    String::from_str(a) == String::from_str(b)
}

/// Two sequences that continue a common front differently are different.
pub proof fn lemma_concat_left_cancel<A>(front: Seq<A>, x: Seq<A>, y: Seq<A>)
    requires
        front + x == front + y,
    ensures
        x == y,
{
    assert((front + x).skip(front.len() as int) =~= x);
    assert((front + y).skip(front.len() as int) =~= y);
}

/// Two sequences that end in a common tail after different fronts are different.
pub proof fn lemma_concat_right_cancel<A>(x: Seq<A>, y: Seq<A>, tail: Seq<A>)
    requires
        x + tail == y + tail,
    ensures
        x == y,
{
    assert((x + tail).len() == x.len() + tail.len());
    assert((y + tail).len() == y.len() + tail.len());
    assert((x + tail).take(x.len() as int) =~= x);
    assert((y + tail).take(y.len() as int) =~= y);
}

} // verus!
