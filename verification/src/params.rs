//! Parameter sets: named string parameters in which every name occurs once.
//! Where a name is written a second time, the later value replaces the
//! earlier one and the name keeps its place.

use vstd::prelude::*;
use crate::order::Pair;
use crate::query::{
    owned_pairs_of, pairs_of, split_at_equals, split_chars, split_on, split_pair, texts_of,
};
use crate::text::{chars_of, same_text, string_of};

verus! {

/// The index of the first pair named `name`, or the length of `params` where
/// there is none.
pub open spec fn index_of_name(params: Seq<Pair>, name: Seq<char>) -> int
    decreases params.len(),
{
    if params.len() == 0 {
        0
    } else if params[0].0 == name {
        0
    } else {
        1 + index_of_name(params.drop_first(), name)
    }
}

/// The value that `params` gives to `name`, if it names it.
pub open spec fn lookup(params: Seq<Pair>, name: Seq<char>) -> Option<Seq<char>> {
    let k = index_of_name(params, name);
    if k < params.len() {
        Some(params[k].1)
    } else {
        None
    }
}

/// `params` after `name` was written with `value`: the value replaces the
/// one that `name` had, or the pair is added at the end.
pub open spec fn with_param(params: Seq<Pair>, name: Seq<char>, value: Seq<char>) -> Seq<Pair> {
    let k = index_of_name(params, name);
    if k < params.len() {
        params.update(k, (name, value))
    } else {
        params.push((name, value))
    }
}

/// `base` after every pair of `more` was written to it, first to last.
pub open spec fn with_params(base: Seq<Pair>, more: Seq<Pair>) -> Seq<Pair>
    decreases more.len(),
{
    if more.len() == 0 {
        base
    } else {
        with_param(with_params(base, more.drop_last()), more.last().0, more.last().1)
    }
}

/// No name occurs twice.
pub open spec fn distinct_names(params: Seq<Pair>) -> bool {
    forall|i: int, j: int| 0 <= i < j < params.len() ==> params[i].0 != params[j].0
}

/// Where the first pair named `name` stands, and that none stands before it.
pub proof fn lemma_index_of_name(params: Seq<Pair>, name: Seq<char>)
    ensures
        0 <= index_of_name(params, name) <= params.len(),
        index_of_name(params, name) < params.len() ==> params[index_of_name(params, name)].0
            == name,
        forall|i: int| 0 <= i < index_of_name(params, name) ==> (#[trigger] params[i]).0 != name,
    decreases params.len(),
{
    if params.len() > 0 && params[0].0 != name {
        let rest = params.drop_first();
        lemma_index_of_name(rest, name);
        assert forall|i: int| 0 <= i < index_of_name(params, name) implies (#[trigger] params[i]).0
            != name by {
            if i > 0 {
                assert(params[i] == rest[i - 1]);
            }
        }
    }
}

/// Writing a parameter keeps the names distinct, and the set then gives the
/// name the value written and every other name the value it had.
pub proof fn lemma_with_param(params: Seq<Pair>, name: Seq<char>, value: Seq<char>)
    requires
        distinct_names(params),
    ensures
        distinct_names(with_param(params, name, value)),
        lookup(with_param(params, name, value), name) == Some(value),
        forall|other: Seq<char>|
            other != name ==> #[trigger] lookup(with_param(params, name, value), other) == lookup(
                params,
                other,
            ),
{
    let after = with_param(params, name, value);
    let k = index_of_name(params, name);
    lemma_index_of_name(params, name);
    lemma_index_of_name(after, name);
    assert(after[k] == (name, value));
    assert forall|i: int, j: int| 0 <= i < j < after.len() implies after[i].0 != after[j].0 by {
        if j < params.len() {
            assert(after[i].0 == params[i].0 && after[j].0 == params[j].0);
        } else {
            assert(after[i] == params[i]);
        }
    }
    if index_of_name(after, name) < k {
        assert(after[index_of_name(after, name)] == params[index_of_name(after, name)]);
    }
    assert forall|other: Seq<char>| other != name implies #[trigger] lookup(after, other) == lookup(
        params,
        other,
    ) by {
        lemma_index_of_name(params, other);
        lemma_index_of_name(after, other);
        let a = index_of_name(params, other);
        let b = index_of_name(after, other);
        if a < params.len() {
            assert(after[a] == params[a]);
        }
        if b < after.len() {
            if b < params.len() {
                assert(after[b].0 == params[b].0);
            }
        }
        if b < a {
            assert(params[b].0 != other);
        }
        if a < b {
            assert(after[a].0 != other);
        }
    }
}

/// A set of named string parameters. Every name occurs once; the pairs stand
/// in the order in which their names were first written.
#[derive(Debug)]
pub struct ParamList {
    entries: Vec<(String, String)>,
}

impl View for ParamList {
    type V = Seq<Pair>;

    closed spec fn view(&self) -> Seq<Pair> {
        owned_pairs_of(self.entries@)
    }
}

impl ParamList {
    #[verifier::type_invariant]
    spec fn names_are_distinct(&self) -> bool {
        distinct_names(owned_pairs_of(self.entries@))
    }

    /// The empty set.
    pub fn new() -> (r: ParamList)
        ensures
            r@ == Seq::<Pair>::empty(),
            distinct_names(r@),
    {
        let entries: Vec<(String, String)> = Vec::new();
        assert(owned_pairs_of(entries@) == Seq::<Pair>::empty());
        ParamList { entries }
    }

    /// The number of parameters.
    pub fn len(&self) -> (n: usize)
        ensures
            n == self@.len(),
    {
        self.entries.len()
    }

    /// Where the parameter named `name` stands, or `len()` where there is none.
    fn position(&self, name: &str) -> (k: usize)
        ensures
            k == index_of_name(self@, name@),
            k <= self.entries.len(),
    {
        let mut k: usize = 0;
        assert(self@.skip(0) == self@);
        while k < self.entries.len() && !same_text(self.entries[k].0.as_str(), name)
            invariant
                k <= self.entries.len(),
                index_of_name(self@, name@) == k + index_of_name(self@.skip(k as int), name@),
            decreases self.entries.len() - k,
        {
            assert(self@.skip(k as int)[0] == self@[k as int]);
            assert(self@.skip(k as int).drop_first() == self@.skip(k + 1));
            k += 1;
        }
        proof {
            if k < self.entries.len() {
                assert(self@.skip(k as int)[0] == self@[k as int]);
            }
        }
        k
    }

    /// Writes the parameter `name` with `value`: a value that `name` had is
    /// replaced, else the pair is added at the end.
    pub fn insert(&mut self, name: &str, value: &str)
        ensures
            final(self)@ == with_param(old(self)@, name@, value@),
            distinct_names(final(self)@),
    {
        proof {
            use_type_invariant(&*self);
            lemma_with_param(self@, name@, value@);
        }
        let k = self.position(name);
        let ghost before = self@;
        let pair = (name.to_owned(), value.to_owned());
        // The list is taken out, changed and put back, so that the set
        // holds distinct names at every moment.
        let mut entries: Vec<(String, String)> = Vec::new();
        core::mem::swap(&mut self.entries, &mut entries);
        if k < entries.len() {
            entries.set(k, pair);
            assert(owned_pairs_of(entries@) == before.update(k as int, (name@, value@)));
        } else {
            entries.push(pair);
            assert(owned_pairs_of(entries@) == before.push((name@, value@)));
        }
        core::mem::swap(&mut self.entries, &mut entries);
    }

    /// The value of the parameter named `name`, if there is one.
    pub fn value(&self, name: &str) -> (r: Option<&str>)
        ensures
            r is Some <==> lookup(self@, name@) is Some,
            r matches Some(v) ==> lookup(self@, name@) == Some(v@),
    {
        let k = self.position(name);
        if k < self.entries.len() {
            Some(self.entries[k].1.as_str())
        } else {
            None
        }
    }

    /// The parameters as borrowed pairs, in their order.
    pub fn pairs(&self) -> (r: Vec<(&str, &str)>)
        ensures
            pairs_of(r@) == self@,
            distinct_names(self@),
    {
        proof {
            use_type_invariant(self);
        }
        let mut r: Vec<(&str, &str)> = Vec::new();
        let mut i: usize = 0;
        while i < self.entries.len()
            invariant
                i <= self.entries.len(),
                pairs_of(r@) == self@.take(i as int),
            decreases self.entries.len() - i,
        {
            r.push((self.entries[i].0.as_str(), self.entries[i].1.as_str()));
            assert(pairs_of(r@) == self@.take(i as int).push(self@[i as int]));
            i += 1;
        }
        assert(self@.take(self.entries.len() as int) == self@);
        r
    }
}

/// The parameter set of a request that lists `params`: each name once, with
/// the value written last.
pub open spec fn set_of(params: Seq<Pair>) -> Seq<Pair> {
    with_params(Seq::empty(), params)
}

/// The value that the last pair named `name` gives it in a list, if a pair
/// names it.
pub open spec fn last_written(params: Seq<Pair>, name: Seq<char>) -> Option<Seq<char>>
    decreases params.len(),
{
    if params.len() == 0 {
        None
    } else if params.last().0 == name {
        Some(params.last().1)
    } else {
        last_written(params.drop_last(), name)
    }
}

/// In the parameter set of a list every name occurs once, and the last
/// write wins: the set gives each name the value that the list wrote for it
/// last, and names no name that the list does not write.
pub proof fn lemma_last_write_wins(params: Seq<Pair>, name: Seq<char>)
    ensures
        distinct_names(set_of(params)),
        lookup(set_of(params), name) == last_written(params, name),
    decreases params.len(),
{
    if params.len() > 0 {
        let front = params.drop_last();
        let last = params.last();
        lemma_last_write_wins(front, name);
        lemma_with_param(set_of(front), last.0, last.1);
    }
}

/// Where no name occurs twice in a list, its parameter set is the list
/// itself.
pub proof fn lemma_set_of_distinct(params: Seq<Pair>)
    requires
        distinct_names(params),
    ensures
        set_of(params) == params,
    decreases params.len(),
{
    if params.len() > 0 {
        let front = params.drop_last();
        let last = params.last();
        lemma_set_of_distinct(front);
        lemma_index_of_name(front, last.0);
        let k = index_of_name(front, last.0);
        if k < front.len() {
            assert(front[k] == params[k]);
        }
        assert(front.push(last) == params);
    }
}

/// The set made of `params`: each name once, with the value written last, in
/// the order in which the names first occur.
pub fn build_params(params: Vec<(&str, &str)>) -> (r: ParamList)
    ensures
        r@ == set_of(pairs_of(params@)),
        distinct_names(r@),
{
    param_set(params.as_slice())
}

/// The set made of the pairs of a list: each name once, with the value
/// written last, in the order in which the names first occur.
pub fn param_set(params: &[(&str, &str)]) -> (r: ParamList)
    ensures
        r@ == set_of(pairs_of(params@)),
        distinct_names(r@),
{
    let ghost given = pairs_of(params@);
    let mut r = ParamList::new();
    let mut i: usize = 0;
    while i < params.len()
        invariant
            i <= params.len(),
            given == pairs_of(params@),
            r@ == with_params(Seq::empty(), given.take(i as int)),
        decreases params.len() - i,
    {
        let (name, value) = params[i];
        proof {
            assert(given.take(i + 1).drop_last() == given.take(i as int));
            assert(given.take(i + 1).last() == (name@, value@));
        }
        r.insert(name, value);
        i += 1;
    }
    assert(given.take(params.len() as int) == given);
    proof {
        use_type_invariant(&r);
    }
    r
}

/// The pairs that the pieces of a response stand for: each piece split at
/// its first `=`, nothing decoded. There are none where a piece holds no `=`.
pub open spec fn raw_pairs(parts: Seq<Seq<char>>) -> Option<Seq<Pair>> {
    if forall|i: int| 0 <= i < parts.len() ==> (#[trigger] split_pair(parts[i])) is Some {
        Some(Seq::new(parts.len(), |i: int| split_pair(parts[i])->0))
    } else {
        None
    }
}

/// The parameter set that a response of the form `name=value&name=value`
/// stands for, if every piece between two `&` holds a `=`.
pub open spec fn split_query(query: Seq<char>) -> Option<Seq<Pair>> {
    match raw_pairs(split_on(query, '&')) {
        Some(pairs) => Some(set_of(pairs)),
        None => None,
    }
}

/// Reads a response of the form `name=value&name=value` into a parameter
/// set. Each piece between two `&` is split at its first `=`; names and
/// values are taken as they stand. There is no result where a piece holds no
/// `=`, as in the empty response.
pub fn split_params(query: &str) -> (r: Option<ParamList>)
    ensures
        r is Some <==> split_query(query@) is Some,
        r matches Some(params) ==> split_query(query@) == Some(params@) && distinct_names(params@),
{
    let v = chars_of(query);
    let pieces = split_chars(&v, '&');
    let ghost parts = split_on(query@, '&');
    let mut params = ParamList::new();
    let ghost mut seen: Seq<Pair> = Seq::empty();
    let mut i: usize = 0;
    while i < pieces.len()
        invariant
            i <= pieces.len(),
            parts == split_on(query@, '&'),
            texts_of(pieces@) == parts,
            seen.len() == i,
            forall|k: int| 0 <= k < i ==> (#[trigger] split_pair(parts[k])) == Some(seen[k]),
            params@ == with_params(Seq::empty(), seen),
        decreases pieces.len() - i,
    {
        assert(parts[i as int] == pieces[i as int]@);
        match split_at_equals(&pieces[i]) {
            Some((name, value)) => {
                let n = string_of(&name);
                let x = string_of(&value);
                proof {
                    let next = seen.push((name@, value@));
                    assert(next.drop_last() == seen);
                    seen = next;
                }
                params.insert(n.as_str(), x.as_str());
            },
            None => {
                assert(split_pair(parts[i as int]) is None);
                return None;
            },
        }
        i += 1;
    }
    assert(seen == Seq::new(parts.len(), |k: int| split_pair(parts[k])->0));
    proof {
        use_type_invariant(&params);
    }
    Some(params)
}

} // verus!
