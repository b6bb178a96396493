//! Query strings: writing a list of parameters as `name=value` pairs joined
//! by `&`, names and values percent-encoded, and reading such a string back.
//!
//! The writer here puts the pairs down in the order of the list it is given.
//! The query string of a request is the one written from the list in the
//! order of signing; see the module `canonical`.

use vstd::prelude::*;
use crate::encoding::{
    lemma_encoded_char, lemma_encoded_text, lemma_percent_round_trip, percent_decode_chars,
    percent_decoded, percent_encode_into, percent_encoded,
};
use crate::order::Pair;
use crate::text::{chars_of, push_str, slice_of};

verus! {

/// The names and values of a borrowed parameter list, as texts.
pub open spec fn pairs_of(params: Seq<(&str, &str)>) -> Seq<Pair> {
    Seq::new(params.len(), |i: int| (params[i].0@, params[i].1@))
}

/// The names and values of an owned parameter list, as texts.
pub open spec fn owned_pairs_of(params: Seq<(String, String)>) -> Seq<Pair> {
    Seq::new(params.len(), |i: int| (params[i].0@, params[i].1@))
}

/// The owned copy of borrowed pairs.
pub fn to_owned_pairs(params: &[(&str, &str)]) -> (r: Vec<(String, String)>)
    ensures
        owned_pairs_of(r@) == pairs_of(params@),
{
    let mut r: Vec<(String, String)> = Vec::new();
    let mut i: usize = 0;
    assert(owned_pairs_of(r@) == pairs_of(params@).take(0));
    while i < params.len()
        invariant
            i <= params.len(),
            owned_pairs_of(r@) == pairs_of(params@).take(i as int),
        decreases params.len() - i,
    {
        let (name, value) = params[i];
        r.push((name.to_owned(), value.to_owned()));
        assert(owned_pairs_of(r@) == pairs_of(params@).take(i as int).push((name@, value@)));
        i += 1;
    }
    assert(pairs_of(params@).take(params.len() as int) == pairs_of(params@));
    r
}

/// The parts, with `sep` between each two neighbours.
pub open spec fn joined(parts: Seq<Seq<char>>, sep: Seq<char>) -> Seq<char>
    decreases parts.len(),
{
    if parts.len() == 0 {
        Seq::empty()
    } else if parts.len() == 1 {
        parts[0]
    } else {
        joined(parts.drop_last(), sep) + sep + parts.last()
    }
}

/// One parameter written out: encoded name, `mid`, encoded value, `end`.
pub open spec fn item_text(p: Pair, mid: Seq<char>, end: Seq<char>) -> Seq<char> {
    percent_encoded(p.0) + mid + percent_encoded(p.1) + end
}

/// The parameters written out, one text each.
pub open spec fn item_texts(params: Seq<Pair>, mid: Seq<char>, end: Seq<char>) -> Seq<Seq<char>> {
    Seq::new(params.len(), |i: int| item_text(params[i], mid, end))
}

/// One parameter as it stands in a query string: encoded name, `=`, encoded
/// value.
pub open spec fn pair_text(p: Pair) -> Seq<char> {
    item_text(p, seq!['='], Seq::empty())
}

/// The pairs written one after the other, in the order of the list, as
/// `name=value` joined by `&`: empty for no pairs.
pub open spec fn written_query(params: Seq<Pair>) -> Seq<char> {
    joined(item_texts(params, seq!['='], Seq::empty()), seq!['&'])
}

/// Appends the parameters to `out`, each written as encoded name, `mid`,
/// encoded value, `end`, with `sep` between each two.
pub(crate) fn write_items(out: &mut Vec<char>, params: &[(&str, &str)], mid: &str, end: &str, sep: &str)
    ensures
        final(out)@ == old(out)@ + joined(item_texts(pairs_of(params@), mid@, end@), sep@),
{
    let ghost all = item_texts(pairs_of(params@), mid@, end@);
    let mut i: usize = 0;
    assert(joined(all.take(0), sep@) == Seq::<char>::empty());
    while i < params.len()
        invariant
            i <= params.len(),
            all == item_texts(pairs_of(params@), mid@, end@),
            out@ == old(out)@ + joined(all.take(i as int), sep@),
        decreases params.len() - i,
    {
        let ghost before = out@;
        if i > 0 {
            push_str(out, sep);
        }
        let (name, value) = params[i];
        percent_encode_into(out, name);
        push_str(out, mid);
        percent_encode_into(out, value);
        push_str(out, end);
        proof {
            let part = item_text((name@, value@), mid@, end@);
            assert(all[i as int] == part);
            assert(all.take(i + 1).drop_last() == all.take(i as int));
            assert(all.take(i + 1).last() == part);
            if i > 0 {
                assert(out@ == before + sep@ + part);
                assert(out@ == old(out)@ + (joined(all.take(i as int), sep@) + sep@ + part));
            } else {
                assert(out@ == before + part);
                assert(out@ == old(out)@ + part);
            }
        }
        i += 1;
    }
    assert(all.take(params.len() as int) == all);
}

/// Appends the pairs of `params` to `out`, written one after the other in
/// the order of the list.
pub(crate) fn write_query(out: &mut Vec<char>, params: &[(&str, &str)])
    ensures
        final(out)@ == old(out)@ + written_query(pairs_of(params@)),
{
    proof {
        reveal_strlit("=");
        reveal_strlit("");
        reveal_strlit("&");
        assert("="@ == seq!['=']);
        assert(""@ == Seq::<char>::empty());
        assert("&"@ == seq!['&']);
    }
    write_items(out, params, "=", "", "&");
}

/// The pieces of `s` that lie between the occurrences of `sep`. There is
/// always at least one piece; a text without `sep` is its own single piece.
pub open spec fn split_on(s: Seq<char>, sep: char) -> Seq<Seq<char>>
    decreases s.len(),
{
    if s.len() == 0 {
        seq![Seq::empty()]
    } else {
        let before = split_on(s.drop_last(), sep);
        if s.last() == sep {
            before.push(Seq::empty())
        } else {
            before.update(before.len() - 1, before.last().push(s.last()))
        }
    }
}

/// The index of the first `c` in `s`, or the length of `s` where there is
/// none.
pub open spec fn first_index(s: Seq<char>, c: char) -> int
    decreases s.len(),
{
    if s.len() == 0 {
        0
    } else if s[0] == c {
        0
    } else {
        1 + first_index(s.drop_first(), c)
    }
}

/// The name before the first `=` of `part` and the value after it, if `part`
/// holds a `=`.
pub open spec fn split_pair(part: Seq<char>) -> Option<Pair> {
    let k = first_index(part, '=');
    if k < part.len() {
        Some((part.take(k), part.skip(k + 1)))
    } else {
        None
    }
}

/// The pair that a `name=value` piece of a query string stands for: split
/// at the first `=`, both sides percent-decoded.
pub open spec fn parsed_part(part: Seq<char>) -> Option<Pair> {
    match split_pair(part) {
        Some(p) => match (percent_decoded(p.0), percent_decoded(p.1)) {
            (Some(name), Some(value)) => Some((name, value)),
            _ => None,
        },
        None => None,
    }
}

/// The parameters that a query string stands for, in the order written. The
/// empty string stands for no parameters. There is no result where a piece
/// holds no `=` or one side of a piece does not decode.
pub open spec fn parsed_query(s: Seq<char>) -> Option<Seq<Pair>> {
    let parts = split_on(s, '&');
    if s.len() == 0 {
        Some(Seq::empty())
    } else if forall|i: int| 0 <= i < parts.len() ==> (#[trigger] parsed_part(parts[i])) is Some {
        Some(Seq::new(parts.len(), |i: int| parsed_part(parts[i])->0))
    } else {
        None
    }
}

/// The texts held by a list of character vectors.
pub open spec fn texts_of(v: Seq<Vec<char>>) -> Seq<Seq<char>> {
    Seq::new(v.len(), |i: int| v[i]@)
}

pub proof fn lemma_split_on_nonempty(s: Seq<char>, sep: char)
    ensures
        split_on(s, sep).len() >= 1,
    decreases s.len(),
{
    if s.len() > 0 {
        lemma_split_on_nonempty(s.drop_last(), sep);
    }
}

/// Text without `sep` that is appended to `a` lengthens the last piece of `a`.
pub proof fn lemma_split_on_append(a: Seq<char>, b: Seq<char>, sep: char)
    requires
        forall|i: int| 0 <= i < b.len() ==> b[i] != sep,
    ensures
        split_on(a, sep).len() >= 1,
        split_on(a + b, sep) == split_on(a, sep).update(
            split_on(a, sep).len() - 1,
            split_on(a, sep).last() + b,
        ),
    decreases b.len(),
{
    lemma_split_on_nonempty(a, sep);
    let pieces = split_on(a, sep);
    if b.len() == 0 {
        assert(a + b == a);
        assert(pieces.last() + b == pieces.last());
        assert(pieces.update(pieces.len() - 1, pieces.last()) == pieces);
    } else {
        lemma_split_on_append(a, b.drop_last(), sep);
        assert((a + b).drop_last() == a + b.drop_last());
        assert((a + b).last() == b.last());
        assert((pieces.last() + b.drop_last()).push(b.last()) == pieces.last() + b);
    }
}

/// Splitting what was joined gives the parts back, where there is at least
/// one part and no part holds the separator.
pub proof fn lemma_split_joined(parts: Seq<Seq<char>>, sep: char)
    requires
        parts.len() >= 1,
        forall|i: int, j: int| 0 <= i < parts.len() && 0 <= j < parts[i].len() ==> parts[i][j] != sep,
    ensures
        split_on(joined(parts, seq![sep]), sep) == parts,
    decreases parts.len(),
{
    let last = parts.last();
    if parts.len() == 1 {
        lemma_split_on_append(Seq::empty(), last, sep);
        assert(Seq::<char>::empty() + last == last);
        assert(seq![Seq::<char>::empty()].update(0, last) == parts);
    } else {
        let front = parts.drop_last();
        assert forall|i: int, j: int| 0 <= i < front.len() && 0 <= j < front[i].len() implies front[i][j]
            != sep by {
            assert(front[i] == parts[i]);
        }
        lemma_split_joined(front, sep);
        let head = joined(front, seq![sep]).push(sep);
        assert(head == joined(front, seq![sep]) + seq![sep]);
        assert(head.drop_last() == joined(front, seq![sep]));
        assert(split_on(head, sep) == front.push(Seq::empty()));
        lemma_split_on_append(head, last, sep);
        assert(Seq::<char>::empty() + last == last);
        assert(front.push(Seq::<char>::empty()).update(front.len() as int, last) == parts);
    }
}

/// The first `c` of a text `name`, `c`, `value` stands right after `name`,
/// where `name` holds no `c`.
pub proof fn lemma_first_index_after(name: Seq<char>, value: Seq<char>, c: char)
    requires
        forall|i: int| 0 <= i < name.len() ==> name[i] != c,
    ensures
        first_index(name.push(c) + value, c) == name.len(),
    decreases name.len(),
{
    let s = name.push(c) + value;
    if name.len() == 0 {
        assert(s[0] == c);
    } else {
        assert(s[0] == name[0]);
        assert(s.drop_first() == name.drop_first().push(c) + value);
        lemma_first_index_after(name.drop_first(), value, c);
    }
}

/// Reading a written pair gives the pair back, and what is written holds
/// no `&`.
pub proof fn lemma_parsed_pair_text(p: Pair)
    ensures
        parsed_part(pair_text(p)) == Some(p),
        pair_text(p).len() >= 1,
        forall|j: int| 0 <= j < pair_text(p).len() ==> pair_text(p)[j] != '&',
{
    let name = percent_encoded(p.0);
    let value = percent_encoded(p.1);
    let s = pair_text(p);
    assert(s == name.push('=') + value);
    lemma_encoded_text(vstd::utf8::encode_utf8(p.0));
    lemma_encoded_text(vstd::utf8::encode_utf8(p.1));
    assert forall|i: int| 0 <= i < name.len() implies name[i] != '=' by {
        lemma_encoded_char(name[i]);
    }
    lemma_first_index_after(name, value, '=');
    assert(s.take(name.len() as int) == name);
    assert(s.skip(name.len() as int + 1) == value);
    lemma_percent_round_trip(p.0);
    lemma_percent_round_trip(p.1);
    assert forall|j: int| 0 <= j < s.len() implies s[j] != '&' by {
        if j < name.len() {
            assert(s[j] == name[j]);
            lemma_encoded_char(name[j]);
        } else if j > name.len() {
            assert(s[j] == value[j - name.len() - 1]);
            lemma_encoded_char(value[j - name.len() - 1]);
        }
    }
}

/// A joined text is at least as long as its last part.
proof fn lemma_joined_len(parts: Seq<Seq<char>>, sep: Seq<char>)
    requires
        parts.len() >= 1,
    ensures
        joined(parts, sep).len() >= parts.last().len(),
{
}

/// Reading what was written gives the pairs back, in the order in which
/// they were written.
pub proof fn lemma_parse_inverts_encode(params: Seq<Pair>)
    ensures
        parsed_query(written_query(params)) == Some(params),
{
    let parts = item_texts(params, seq!['='], Seq::empty());
    let s = written_query(params);
    if params.len() == 0 {
        assert(s.len() == 0);
        assert(params == Seq::<Pair>::empty());
    } else {
        assert forall|i: int, j: int| 0 <= i < parts.len() && 0 <= j < parts[i].len() implies parts[i][j]
            != '&' by {
            lemma_parsed_pair_text(params[i]);
        }
        lemma_split_joined(parts, '&');
        lemma_parsed_pair_text(params.last());
        lemma_joined_len(parts, seq!['&']);
        assert(s.len() > 0);
        assert forall|i: int| 0 <= i < parts.len() implies (#[trigger] parsed_part(parts[i]))
            == Some(params[i]) by {
            lemma_parsed_pair_text(params[i]);
        }
        assert(Seq::new(parts.len(), |i: int| parsed_part(parts[i])->0) == params);
    }
}

/// The pieces of `v` between the occurrences of `sep`.
pub fn split_chars(v: &Vec<char>, sep: char) -> (r: Vec<Vec<char>>)
    ensures
        texts_of(r@) == split_on(v@, sep),
{
    let mut pieces: Vec<Vec<char>> = Vec::new();
    let mut piece: Vec<char> = Vec::new();
    let mut i: usize = 0;
    assert(texts_of(pieces@).push(piece@) == split_on(v@.take(0), sep));
    while i < v.len()
        invariant
            i <= v.len(),
            texts_of(pieces@).push(piece@) == split_on(v@.take(i as int), sep),
        decreases v.len() - i,
    {
        let c = v[i];
        let ghost before = texts_of(pieces@).push(piece@);
        proof {
            assert(v@.take(i + 1).drop_last() == v@.take(i as int));
            assert(v@.take(i + 1).last() == c);
        }
        if c == sep {
            pieces.push(piece);
            piece = Vec::new();
            assert(texts_of(pieces@).push(piece@) == before.push(Seq::empty()));
        } else {
            piece.push(c);
            assert(texts_of(pieces@).push(piece@) == before.update(
                before.len() - 1,
                before.last().push(c),
            ));
        }
        i += 1;
    }
    assert(v@.take(v.len() as int) == v@);
    let ghost before = texts_of(pieces@).push(piece@);
    pieces.push(piece);
    assert(texts_of(pieces@) == before);
    pieces
}

/// The index of the first `c` in `v`, or the length of `v`.
pub fn find_first(v: &Vec<char>, c: char) -> (k: usize)
    ensures
        k == first_index(v@, c),
        k <= v.len(),
{
    let mut k: usize = 0;
    assert(v@.skip(0) == v@);
    while k < v.len() && v[k] != c
        invariant
            k <= v.len(),
            first_index(v@, c) == k + first_index(v@.skip(k as int), c),
        decreases v.len() - k,
    {
        assert(v@.skip(k as int)[0] == v@[k as int]);
        assert(v@.skip(k as int).drop_first() == v@.skip(k + 1));
        k += 1;
    }
    proof {
        if k < v.len() {
            assert(v@.skip(k as int)[0] == v@[k as int]);
        }
    }
    k
}

/// Splits `part` at its first `=`.
pub fn split_at_equals(part: &Vec<char>) -> (r: Option<(Vec<char>, Vec<char>)>)
    ensures
        r is Some <==> split_pair(part@) is Some,
        r matches Some(p) ==> split_pair(part@) == Some((p.0@, p.1@)),
{
    let k = find_first(part, '=');
    if k < part.len() {
        let name = slice_of(part, 0, k);
        let value = slice_of(part, k + 1, part.len());
        Some((name, value))
    } else {
        None
    }
}

/// Reads one `name=value` piece of a query string.
fn parse_part(part: &Vec<char>) -> (r: Option<(String, String)>)
    ensures
        r is Some <==> parsed_part(part@) is Some,
        r matches Some(p) ==> parsed_part(part@) == Some((p.0@, p.1@)),
{
    match split_at_equals(part) {
        Some((name, value)) => match (percent_decode_chars(&name), percent_decode_chars(&value)) {
            (Some(n), Some(v)) => Some((n, v)),
            _ => None,
        },
        None => None,
    }
}

/// Reads a query string: the parameters it holds, in the order written, names
/// and values percent-decoded. The empty string holds none. There is no
/// result where a piece between two `&` holds no `=`, or where a name or a
/// value is not a percent-encoded text.
pub fn parse_query(query: &str) -> (r: Option<Vec<(String, String)>>)
    ensures
        r is Some <==> parsed_query(query@) is Some,
        r matches Some(params) ==> parsed_query(query@) == Some(owned_pairs_of(params@)),
{
    let v = chars_of(query);
    let mut params: Vec<(String, String)> = Vec::new();
    if v.len() == 0 {
        assert(owned_pairs_of(params@) == Seq::<Pair>::empty());
        return Some(params);
    }
    let pieces = split_chars(&v, '&');
    let ghost parts = split_on(query@, '&');
    let mut i: usize = 0;
    while i < pieces.len()
        invariant
            i <= pieces.len(),
            query@.len() > 0,
            parts == split_on(query@, '&'),
            texts_of(pieces@) == parts,
            params.len() == i,
            forall|k: int| 0 <= k < i ==> (#[trigger] parsed_part(parts[k])) == Some(
                owned_pairs_of(params@)[k],
            ),
        decreases pieces.len() - i,
    {
        assert(parts[i as int] == pieces[i as int]@);
        match parse_part(&pieces[i]) {
            Some(p) => {
                let ghost before = owned_pairs_of(params@);
                params.push(p);
                assert(owned_pairs_of(params@) == before.push((p.0@, p.1@)));
            },
            None => {
                assert(parsed_part(parts[i as int]) is None);
                return None;
            },
        }
        i += 1;
    }
    assert(owned_pairs_of(params@) == Seq::new(parts.len(), |k: int| parsed_part(parts[k])->0));
    Some(params)
}

} // verus!
