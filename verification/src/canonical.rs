//! The canonical form of a request's parameters: every name and value
//! percent-encoded, the pairs sorted by encoded name and, where names are
//! equal, by encoded value, then written as a query string.
//!
//! This one form serves for signing and for serialization: it is the string
//! that a request is signed over, the query of an address and the body of a
//! form. The order in which a caller lists the parameters never shows.

use vstd::prelude::*;
use vstd::relations::{sorted_by, total_ordering};
use vstd::seq_lib::{lemma_sorted_unique, to_multiset_build, to_multiset_insert, to_multiset_len};
use crate::encoding::{lemma_percent_encoded_injective, percent_encode_chars, percent_encoded};
use crate::order::{
    lemma_pair_le_antisymmetric, lemma_pair_le_reflexive, lemma_pair_le_total,
    lemma_pair_le_transitive, pair_le, pair_no_later, Pair,
};
use crate::query::{
    lemma_parse_inverts_encode, pairs_of, parsed_query, write_query, written_query,
};
use crate::text::{chars_of, string_of};

verus! {

/// A pair with its name and its value percent-encoded.
pub open spec fn encoded_pair(p: Pair) -> Pair {
    (percent_encoded(p.0), percent_encoded(p.1))
}

/// The order of signing: `p` comes no later than `q` when its encoded form
/// comes no later than that of `q`.
pub open spec fn signing_order() -> spec_fn(Pair, Pair) -> bool {
    |p: Pair, q: Pair| pair_le(encoded_pair(p), encoded_pair(q))
}

/// The parameters rearranged into the order of signing.
pub open spec fn canonical_order(params: Seq<Pair>) -> Seq<Pair> {
    params.sort_by(signing_order())
}

/// The canonical parameter string: the parameters written in the order of
/// signing. It is empty where there are no parameters.
pub open spec fn canonical_query(params: Seq<Pair>) -> Seq<char> {
    written_query(canonical_order(params))
}

/// The address `api` carrying the parameters as its query: `api` alone where
/// there are none, else `api`, `?` and the canonical parameter string.
pub open spec fn url_with_query(api: Seq<char>, params: Seq<Pair>) -> Seq<char> {
    if params.len() == 0 {
        api
    } else {
        api.push('?') + canonical_query(params)
    }
}

/// The order of signing is a total order on pairs.
pub proof fn lemma_signing_order_total()
    ensures
        total_ordering(signing_order()),
{
    let r = signing_order();
    assert forall|p: Pair| #[trigger] r(p, p) by {
        lemma_pair_le_reflexive(encoded_pair(p));
    }
    assert forall|p: Pair, q: Pair| #[trigger] r(p, q) && #[trigger] r(q, p) implies p == q by {
        lemma_pair_le_antisymmetric(encoded_pair(p), encoded_pair(q));
        lemma_percent_encoded_injective(p.0, q.0);
        lemma_percent_encoded_injective(p.1, q.1);
    }
    assert forall|p: Pair, q: Pair, s: Pair| #[trigger] r(p, q) && #[trigger] r(q, s) implies r(
        p,
        s,
    ) by {
        lemma_pair_le_transitive(encoded_pair(p), encoded_pair(q), encoded_pair(s));
    }
    assert forall|p: Pair, q: Pair| #[trigger] r(p, q) || #[trigger] r(q, p) by {
        lemma_pair_le_total(encoded_pair(p), encoded_pair(q));
    }
}

/// A list that is in the order of signing and holds the parameters, each as
/// often as it was given, is the canonical order of the parameters.
pub proof fn lemma_canonical_order_unique(params: Seq<Pair>, sorted: Seq<Pair>)
    requires
        sorted_by(sorted, signing_order()),
        sorted.to_multiset() == params.to_multiset(),
    ensures
        sorted == canonical_order(params),
{
    lemma_signing_order_total();
    params.lemma_sort_by_ensures(signing_order());
    lemma_sorted_unique(sorted, canonical_order(params), signing_order());
}

/// The canonical order lists the parameters that were given, each as often
/// as it was given, and is in the order of signing.
pub proof fn lemma_canonical_order_permutes(params: Seq<Pair>)
    ensures
        canonical_order(params).to_multiset() == params.to_multiset(),
        canonical_order(params).len() == params.len(),
        sorted_by(canonical_order(params), signing_order()),
{
    lemma_signing_order_total();
    params.lemma_sort_by_ensures(signing_order());
    to_multiset_len(params);
    to_multiset_len(canonical_order(params));
}

/// The canonical parameter string does not depend on the order in which the
/// parameters are given: two lists that hold the same pairs, each as often,
/// have the same canonical string.
pub proof fn lemma_canonical_query_ignores_order(a: Seq<Pair>, b: Seq<Pair>)
    requires
        a.to_multiset() == b.to_multiset(),
    ensures
        canonical_order(a) == canonical_order(b),
        canonical_query(a) == canonical_query(b),
{
    lemma_canonical_order_permutes(a);
    lemma_canonical_order_unique(b, canonical_order(a));
}

/// Decoding the canonical parameter string recovers the parameters: the
/// decoded list holds exactly the pairs that were given, each as often as it
/// was given, whatever the order in which they were given.
pub proof fn lemma_canonical_query_round_trip(params: Seq<Pair>)
    ensures
        parsed_query(canonical_query(params)) == Some(canonical_order(params)),
        canonical_order(params).to_multiset() == params.to_multiset(),
{
    lemma_parse_inverts_encode(canonical_order(params));
    lemma_canonical_order_permutes(params);
}

/// Canonicalizing is idempotent: the parameters read back from a canonical
/// string have that same string as their canonical string, and sorting a list
/// that is already in the order of signing leaves it as it is.
pub proof fn lemma_canonical_query_idempotent(params: Seq<Pair>)
    ensures
        canonical_order(canonical_order(params)) == canonical_order(params),
        parsed_query(canonical_query(params)) matches Some(again) && canonical_query(again)
            == canonical_query(params),
{
    lemma_canonical_query_round_trip(params);
    lemma_canonical_order_permutes(params);
    lemma_canonical_order_unique(canonical_order(params), canonical_order(params));
}

/// An address does not depend on the order in which its parameters are
/// given: two lists that hold the same pairs, each as often, give the same
/// address.
pub proof fn lemma_url_ignores_order(api: Seq<char>, a: Seq<Pair>, b: Seq<Pair>)
    requires
        a.to_multiset() == b.to_multiset(),
    ensures
        url_with_query(api, a) == url_with_query(api, b),
{
    lemma_canonical_query_ignores_order(a, b);
    to_multiset_len(a);
    to_multiset_len(b);
}

/// Building an address again from its own parameters changes nothing: the
/// parameters read back from the query of an address, listed in any order,
/// give that same address.
pub proof fn lemma_url_is_rebuilt(api: Seq<char>, params: Seq<Pair>, again: Seq<Pair>)
    requires
        parsed_query(canonical_query(params)) matches Some(read) && again.to_multiset()
            == read.to_multiset(),
    ensures
        url_with_query(api, again) == url_with_query(api, params),
{
    lemma_canonical_query_round_trip(params);
    lemma_url_ignores_order(api, again, params);
}

/// A parameter together with its encoded name and value, by which it is
/// sorted.
struct Entry<'a> {
    name: Vec<char>,
    value: Vec<char>,
    plain: (&'a str, &'a str),
}

impl<'a> Entry<'a> {
    spec fn pair(&self) -> Pair {
        (self.plain.0@, self.plain.1@)
    }

    spec fn wf(&self) -> bool {
        &&& self.name@ == percent_encoded(self.plain.0@)
        &&& self.value@ == percent_encoded(self.plain.1@)
    }
}

/// The pairs that the entries stand for.
spec fn plains(entries: Seq<Entry>) -> Seq<Pair> {
    Seq::new(entries.len(), |i: int| entries[i].pair())
}

/// The entries of `params`, in the order of signing.
fn sorted_entries<'a>(params: &[(&'a str, &'a str)]) -> (out: Vec<Entry<'a>>)
    ensures
        plains(out@) == canonical_order(pairs_of(params@)),
{
    let ghost given = pairs_of(params@);
    let mut out: Vec<Entry<'a>> = Vec::new();
    let mut i: usize = 0;
    proof {
        lemma_signing_order_total();
        assert(plains(out@) == given.take(0));
    }
    while i < params.len()
        invariant
            i <= params.len(),
            given == pairs_of(params@),
            total_ordering(signing_order()),
            sorted_by(plains(out@), signing_order()),
            plains(out@).to_multiset() == given.take(i as int).to_multiset(),
            forall|k: int| 0 <= k < out.len() ==> (#[trigger] out[k]).wf(),
        decreases params.len() - i,
    {
        let (name, value) = params[i];
        let entry = Entry {
            name: percent_encode_chars(name),
            value: percent_encode_chars(value),
            plain: (name, value),
        };
        let ghost p = entry.pair();
        assert(p == given[i as int]);
        // The place of the new entry: after every entry that comes no later.
        let mut pos: usize = 0;
        while pos < out.len() && pair_no_later(
            &out[pos].name,
            &out[pos].value,
            &entry.name,
            &entry.value,
        )
            invariant
                pos <= out.len(),
                entry.wf(),
                p == entry.pair(),
                forall|k: int| 0 <= k < out.len() ==> (#[trigger] out[k]).wf(),
                forall|k: int| 0 <= k < pos ==> signing_order()(#[trigger] plains(out@)[k], p),
            decreases out.len() - pos,
        {
            assert(plains(out@)[pos as int] == out[pos as int].pair());
            pos += 1;
        }
        proof {
            let before = plains(out@);
            let after = before.insert(pos as int, p);
            assert forall|a: int, b: int| 0 <= a < b < after.len() implies signing_order()(
                #[trigger] after[a],
                #[trigger] after[b],
            ) by {
                if b < pos {
                    assert(after[a] == before[a] && after[b] == before[b]);
                } else if b == pos {
                    assert(after[a] == before[a]);
                } else if a < pos {
                    assert(after[a] == before[a] && after[b] == before[b - 1]);
                } else if a == pos {
                    assert(before[pos as int] == out[pos as int].pair());
                    assert(after[b] == before[b - 1]);
                    assert(signing_order()(p, before[pos as int])) by {
                        lemma_pair_le_total(encoded_pair(p), encoded_pair(before[pos as int]));
                    }
                    if b - 1 > pos {
                        assert(signing_order()(before[pos as int], before[b - 1]));
                    }
                } else {
                    assert(after[a] == before[a - 1] && after[b] == before[b - 1]);
                }
            }
            to_multiset_insert(before, pos as int, p);
            to_multiset_build(given.take(i as int), p);
            assert(given.take(i + 1) == given.take(i as int).push(p));
        }
        let ghost before_entries = out@;
        out.insert(pos, entry);
        assert(plains(out@) == plains(before_entries).insert(pos as int, p));
        i += 1;
    }
    proof {
        assert(given.take(params.len() as int) == given);
        lemma_canonical_order_unique(given, plains(out@));
    }
    out
}

/// The parameters in the order of signing: sorted by encoded name and, where
/// two names are equal, by encoded value. The result holds the pairs of
/// `params`, each as often as `params` does.
pub fn sort_for_signing<'a>(params: &[(&'a str, &'a str)]) -> (r: Vec<(&'a str, &'a str)>)
    ensures
        pairs_of(r@) == canonical_order(pairs_of(params@)),
{
    let entries = sorted_entries(params);
    let mut r: Vec<(&'a str, &'a str)> = Vec::new();
    let mut i: usize = 0;
    while i < entries.len()
        invariant
            i <= entries.len(),
            pairs_of(r@) == plains(entries@).take(i as int),
        decreases entries.len() - i,
    {
        r.push(entries[i].plain);
        assert(pairs_of(r@) == plains(entries@).take(i as int).push(entries[i as int].pair()));
        i += 1;
    }
    assert(plains(entries@).take(entries.len() as int) == plains(entries@));
    r
}

/// The canonical parameter string of `params`, as characters.
pub fn canonical_query_chars(params: &[(&str, &str)]) -> (r: Vec<char>)
    ensures
        r@ == canonical_query(pairs_of(params@)),
{
    let sorted = sort_for_signing(params);
    let mut out: Vec<char> = Vec::new();
    write_query(&mut out, sorted.as_slice());
    out
}

/// The canonical parameter string of `params`: names and values
/// percent-encoded, pairs sorted by encoded name and then by encoded value,
/// written as `name=value` and joined by `&`. No parameters give the empty
/// string. The order in which `params` lists the pairs does not matter.
pub fn canonical_parameter_string(params: &[(&str, &str)]) -> (r: String)
    ensures
        r@ == canonical_query(pairs_of(params@)),
{
    let out = canonical_query_chars(params);
    string_of(&out)
}

/// The query string of `params`, for an address or for the body of a form:
/// the canonical parameter string. No parameters give the empty string.
pub fn encode_query(params: &[(&str, &str)]) -> (r: String)
    ensures
        r@ == canonical_query(pairs_of(params@)),
{
    canonical_parameter_string(params)
}

/// The address to request: `api` itself where there are no parameters, else
/// `api`, a `?` and the query string of `params`, which lists the pairs
/// sorted by encoded name and then by encoded value, whatever the order in
/// which `params` gives them.
pub fn build_query(api: &str, params: &[(&str, &str)]) -> (r: String)
    ensures
        r@ == url_with_query(api@, pairs_of(params@)),
{
    let mut out: Vec<char> = chars_of(api);
    if params.len() > 0 {
        out.push('?');
        let sorted = sort_for_signing(params);
        write_query(&mut out, sorted.as_slice());
    }
    string_of(&out)
}

} // verus!
