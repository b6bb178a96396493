//! The order in which parameters are listed for signing: texts are compared
//! character by character, a proper prefix coming first, and pairs by name
//! first and by value where the names are equal.
//!
//! The texts compared are percent-encoded, hence ASCII, so comparing
//! characters is comparing bytes.

use vstd::prelude::*;
use vstd::relations::*;

verus! {

/// A name with its value.
pub type Pair = (Seq<char>, Seq<char>);

/// `a` comes no later than `b` in lexicographic order.
pub open spec fn text_le(a: Seq<char>, b: Seq<char>) -> bool
    decreases a.len(),
{
    if a.len() == 0 {
        true
    } else if b.len() == 0 {
        false
    } else if a[0] != b[0] {
        a[0] < b[0]
    } else {
        text_le(a.drop_first(), b.drop_first())
    }
}

/// `p` comes no later than `q`: by name, and by value where the names agree.
pub open spec fn pair_le(p: Pair, q: Pair) -> bool {
    if p.0 == q.0 {
        text_le(p.1, q.1)
    } else {
        text_le(p.0, q.0)
    }
}

pub proof fn lemma_text_le_reflexive(a: Seq<char>)
    ensures
        text_le(a, a),
    decreases a.len(),
{
    if a.len() > 0 {
        lemma_text_le_reflexive(a.drop_first());
    }
}

pub proof fn lemma_text_le_antisymmetric(a: Seq<char>, b: Seq<char>)
    requires
        text_le(a, b),
        text_le(b, a),
    ensures
        a == b,
    decreases a.len(),
{
    if a.len() > 0 {
        lemma_text_le_antisymmetric(a.drop_first(), b.drop_first());
        assert(a == seq![a[0]] + a.drop_first());
        assert(b == seq![b[0]] + b.drop_first());
    } else {
        assert(a =~= b);
    }
}

pub proof fn lemma_text_le_transitive(a: Seq<char>, b: Seq<char>, c: Seq<char>)
    requires
        text_le(a, b),
        text_le(b, c),
    ensures
        text_le(a, c),
    decreases a.len(),
{
    if a.len() > 0 && a[0] == b[0] && b[0] == c[0] {
        lemma_text_le_transitive(a.drop_first(), b.drop_first(), c.drop_first());
    }
}

pub proof fn lemma_text_le_total(a: Seq<char>, b: Seq<char>)
    ensures
        text_le(a, b) || text_le(b, a),
    decreases a.len(),
{
    if a.len() > 0 && b.len() > 0 && a[0] == b[0] {
        lemma_text_le_total(a.drop_first(), b.drop_first());
    }
}

pub proof fn lemma_pair_le_reflexive(p: Pair)
    ensures
        pair_le(p, p),
{
    lemma_text_le_reflexive(p.1);
}

pub proof fn lemma_pair_le_antisymmetric(p: Pair, q: Pair)
    requires
        pair_le(p, q),
        pair_le(q, p),
    ensures
        p == q,
{
    if p.0 == q.0 {
        lemma_text_le_antisymmetric(p.1, q.1);
    } else {
        lemma_text_le_antisymmetric(p.0, q.0);
    }
}

pub proof fn lemma_pair_le_transitive(p: Pair, q: Pair, r: Pair)
    requires
        pair_le(p, q),
        pair_le(q, r),
    ensures
        pair_le(p, r),
{
    if p.0 == q.0 {
        if q.0 == r.0 {
            lemma_text_le_transitive(p.1, q.1, r.1);
        }
    } else if q.0 == r.0 {
    } else {
        lemma_text_le_transitive(p.0, q.0, r.0);
        if p.0 == r.0 {
            lemma_text_le_antisymmetric(p.0, q.0);
        }
    }
}

pub proof fn lemma_pair_le_total(p: Pair, q: Pair)
    ensures
        pair_le(p, q) || pair_le(q, p),
{
    lemma_text_le_total(p.0, q.0);
    lemma_text_le_total(p.1, q.1);
}

/// Whether `a` comes no later than `b`.
pub fn text_no_later(a: &Vec<char>, b: &Vec<char>) -> (r: bool)
    ensures
        r == text_le(a@, b@),
{
    let mut i: usize = 0;
    assert(a@.skip(0) == a@ && b@.skip(0) == b@);
    while i < a.len() && i < b.len()
        invariant
            i <= a.len(),
            i <= b.len(),
            text_le(a@, b@) == text_le(a@.skip(i as int), b@.skip(i as int)),
        decreases a.len() - i,
    {
        let ghost x = a@.skip(i as int);
        let ghost y = b@.skip(i as int);
        assert(x[0] == a@[i as int] && y[0] == b@[i as int]);
        if a[i] != b[i] {
            return a[i] < b[i];
        }
        assert(x.drop_first() == a@.skip(i + 1) && y.drop_first() == b@.skip(i + 1));
        i += 1;
    }
    i == a.len()
}

/// Whether the pair `(an, av)` comes no later than the pair `(bn, bv)`.
pub fn pair_no_later(an: &Vec<char>, av: &Vec<char>, bn: &Vec<char>, bv: &Vec<char>) -> (r: bool)
    ensures
        r == pair_le((an@, av@), (bn@, bv@)),
{
    if crate::text::same_chars(an, bn) {
        text_no_later(av, bv)
    } else {
        text_no_later(an, bn)
    }
}

} // verus!
