//! Lexicographic order of strings (the order of `String`'s `Ord`), and sorting by it.
use vstd::prelude::*;
use crate::text::chars_of;

verus! {

broadcast use vstd::seq_lib::group_to_multiset_ensures;

/// `a` sorts before or equal to `b`: compared character by character by code point,
/// a proper prefix first. UTF-8 keeps code point order, so this is `String`'s order.
pub open spec fn lex_le(a: Seq<char>, b: Seq<char>) -> bool
    decreases a.len(),
{
    if a.len() == 0 {
        true
    } else if b.len() == 0 {
        false
    } else if a[0] == b[0] {
        lex_le(a.drop_first(), b.drop_first())
    } else {
        (a[0] as int) < (b[0] as int)
    }
}

/// Any two strings are ordered one way or the other.
pub proof fn lemma_lex_total(a: Seq<char>, b: Seq<char>)
    ensures
        lex_le(a, b) || lex_le(b, a),
    decreases a.len(),
{
    if a.len() > 0 && b.len() > 0 {
        if a[0] == b[0] {
            lemma_lex_total(a.drop_first(), b.drop_first());
        } else {
            assert((a[0] as int) != (b[0] as int));
        }
    }
}

/// The order is transitive.
pub proof fn lemma_lex_trans(a: Seq<char>, b: Seq<char>, c: Seq<char>)
    requires
        lex_le(a, b),
        lex_le(b, c),
    ensures
        lex_le(a, c),
    decreases a.len(),
{
    if a.len() > 0 && b.len() > 0 && c.len() > 0 && a[0] == b[0] && b[0] == c[0] {
        lemma_lex_trans(a.drop_first(), b.drop_first(), c.drop_first());
    }
}

/// The order is reflexive.
pub proof fn lemma_lex_refl(a: Seq<char>)
    ensures
        lex_le(a, a),
    decreases a.len(),
{
    if a.len() > 0 {
        lemma_lex_refl(a.drop_first());
    }
}

fn lex_le_from(a: &Vec<char>, b: &Vec<char>, i: usize) -> (r: bool)
    requires
        i <= a@.len(),
        i <= b@.len(),
    ensures
        r == lex_le(a@.skip(i as int), b@.skip(i as int)),
    decreases a@.len() - i,
{
    if i == a.len() {
        return true;
    }
    if i == b.len() {
        return false;
    }
    assert(a@.skip(i as int)[0] == a@[i as int]);
    assert(b@.skip(i as int)[0] == b@[i as int]);
    if a[i] == b[i] {
        assert(a@.skip(i as int).drop_first() =~= a@.skip(i + 1));
        assert(b@.skip(i as int).drop_first() =~= b@.skip(i + 1));
        lex_le_from(a, b, i + 1)
    } else {
        a[i] < b[i]
    }
}

/// `a` sorts before or equal to `b`.
pub fn str_le(a: &str, b: &str) -> (r: bool)
    ensures
        r == lex_le(a@, b@),
{
    let x = chars_of(a);
    let y = chars_of(b);
    assert(x@.skip(0) =~= x@);
    assert(y@.skip(0) =~= y@);
    lex_le_from(&x, &y, 0)
}

/// Characters of each string.
pub open spec fn strings_view(v: Seq<String>) -> Seq<Seq<char>> {
    Seq::new(v.len(), |i: int| v[i]@)
}

/// The strings are in ascending order.
pub open spec fn sorted_strings(s: Seq<Seq<char>>) -> bool {
    forall|i: int, j: int| 0 <= i < j < s.len() ==> lex_le(#[trigger] s[i], #[trigger] s[j])
}

proof fn lemma_strings_view_insert(v: Seq<String>, p: int, x: String)
    requires
        0 <= p <= v.len(),
    ensures
        strings_view(v.insert(p, x)) == strings_view(v).insert(p, x@),
{
    assert(strings_view(v.insert(p, x)) =~= strings_view(v).insert(p, x@));
}

/// The strings in ascending order (a permutation of the input).
pub fn sort_strings(input: &Vec<String>) -> (r: Vec<String>)
    ensures
        sorted_strings(strings_view(r@)),
        strings_view(r@).to_multiset() == strings_view(input@).to_multiset(),
{
    let mut out: Vec<String> = Vec::new();
    let mut i: usize = 0;
    while i < input.len()
        invariant
            i <= input@.len(),
            sorted_strings(strings_view(out@)),
            strings_view(out@).to_multiset() == strings_view(input@.subrange(0, i as int)).to_multiset(),
        decreases input@.len() - i,
    {
        let x = input[i].clone();
        let mut p: usize = 0;
        while p < out.len() && str_le(out[p].as_str(), x.as_str())
            invariant
                p <= out@.len(),
                forall|k: int| 0 <= k < p ==> lex_le(#[trigger] out@[k]@, x@),
            decreases out@.len() - p,
        {
            p = p + 1;
        }
        let ghost before = out@;
        proof {
            if p < out@.len() {
                assert(!lex_le(out@[p as int]@, x@));
                lemma_lex_total(out@[p as int]@, x@);
            }
        }
        out.insert(p, x);
        proof {
            lemma_strings_view_insert(before, p as int, x);
            let s = strings_view(out@);
            assert forall|a: int, b: int| 0 <= a < b < s.len() implies lex_le(#[trigger] s[a], #[trigger] s[b]) by {
                let sb = strings_view(before);
                if b < p {
                    assert(s[a] == sb[a] && s[b] == sb[b]);
                } else if b == p {
                    assert(s[a] == sb[a]);
                } else if a == p {
                    assert(s[b] == sb[b - 1]);
                    if b - 1 > p {
                        assert(lex_le(sb[p as int], sb[b - 1]));
                        lemma_lex_trans(x@, sb[p as int], sb[b - 1]);
                    }
                } else if a < p {
                    assert(s[a] == sb[a] && s[b] == sb[b - 1]);
                } else {
                    assert(s[a] == sb[a - 1] && s[b] == sb[b - 1]);
                }
            }
            assert(input@.subrange(0, i + 1) =~= input@.subrange(0, i as int).push(input@[i as int]));
            assert(strings_view(input@.subrange(0, i + 1)) =~= strings_view(input@.subrange(0, i as int)).push(x@));
        }
        i = i + 1;
    }
    assert(input@.subrange(0, input@.len() as int) =~= input@);
    out
}

/// Characters of each `(key, value)` pair.
pub open spec fn keyed_view(v: Seq<(String, String)>) -> Seq<(Seq<char>, Seq<char>)> {
    Seq::new(v.len(), |i: int| (v[i].0@, v[i].1@))
}

/// The pairs are in ascending order of their keys.
pub open spec fn sorted_by_key(s: Seq<(Seq<char>, Seq<char>)>) -> bool {
    forall|i: int, j: int| 0 <= i < j < s.len() ==> lex_le((#[trigger] s[i]).0, (#[trigger] s[j]).0)
}

proof fn lemma_keyed_view_insert(v: Seq<(String, String)>, p: int, x: (String, String))
    requires
        0 <= p <= v.len(),
    ensures
        keyed_view(v.insert(p, x)) == keyed_view(v).insert(p, (x.0@, x.1@)),
{
    assert(keyed_view(v.insert(p, x)) =~= keyed_view(v).insert(p, (x.0@, x.1@)));
}

/// The pairs in ascending order of their keys (a permutation of the input; pairs with
/// equal keys keep their order).
pub fn sort_by_key(input: &Vec<(String, String)>) -> (r: Vec<(String, String)>)
    ensures
        sorted_by_key(keyed_view(r@)),
        keyed_view(r@).to_multiset() == keyed_view(input@).to_multiset(),
{
    let mut out: Vec<(String, String)> = Vec::new();
    let mut i: usize = 0;
    while i < input.len()
        invariant
            i <= input@.len(),
            sorted_by_key(keyed_view(out@)),
            keyed_view(out@).to_multiset() == keyed_view(input@.subrange(0, i as int)).to_multiset(),
        decreases input@.len() - i,
    {
        let x = (input[i].0.clone(), input[i].1.clone());
        let mut p: usize = 0;
        while p < out.len() && str_le(out[p].0.as_str(), x.0.as_str())
            invariant
                p <= out@.len(),
                forall|k: int| 0 <= k < p ==> lex_le((#[trigger] out@[k]).0@, x.0@),
            decreases out@.len() - p,
        {
            p = p + 1;
        }
        let ghost before = out@;
        proof {
            if p < out@.len() {
                assert(!lex_le(out@[p as int].0@, x.0@));
                lemma_lex_total(out@[p as int].0@, x.0@);
            }
        }
        out.insert(p, x);
        proof {
            lemma_keyed_view_insert(before, p as int, x);
            let s = keyed_view(out@);
            assert forall|a: int, b: int| 0 <= a < b < s.len() implies lex_le((#[trigger] s[a]).0, (#[trigger] s[b]).0) by {
                let sb = keyed_view(before);
                if b < p {
                    assert(s[a] == sb[a] && s[b] == sb[b]);
                } else if b == p {
                    assert(s[a] == sb[a]);
                } else if a == p {
                    assert(s[b] == sb[b - 1]);
                    if b - 1 > p {
                        assert(lex_le(sb[p as int].0, sb[b - 1].0));
                        lemma_lex_trans(x.0@, sb[p as int].0, sb[b - 1].0);
                    }
                } else if a < p {
                    assert(s[a] == sb[a] && s[b] == sb[b - 1]);
                } else {
                    assert(s[a] == sb[a - 1] && s[b] == sb[b - 1]);
                }
            }
            assert(input@.subrange(0, i + 1) =~= input@.subrange(0, i as int).push(input@[i as int]));
            assert(keyed_view(input@.subrange(0, i + 1)) =~= keyed_view(input@.subrange(0, i as int)).push((x.0@, x.1@)));
        }
        i = i + 1;
    }
    assert(input@.subrange(0, input@.len() as int) =~= input@);
    out
}

} // verus!
