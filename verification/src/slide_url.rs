//! Selecting one slide of a Google Slides `pubembed` URL through its query string.
use vstd::prelude::*;
use crate::text::{push_char, chars_have_prefix, chars_of, decimal, seq_has_prefix, string_from_chars, u64_to_decimal};

verus! {

/// Index of the first `c` in `s`, if any.
pub open spec fn first_index_of(s: Seq<char>, c: char) -> Option<int> {
    if exists|i: int| 0 <= i < s.len() && s[i] == c {
        Some(choose|i: int| 0 <= i < s.len() && s[i] == c && forall|k: int| 0 <= k < i ==> s[k] != c)
    } else {
        None
    }
}

/// `s` split on every `&`, as `str::split('&')` does (the empty string gives one empty piece).
pub open spec fn split_amp(s: Seq<char>) -> Seq<Seq<char>>
    decreases s.len(),
{
    if s.len() == 0 {
        seq![Seq::empty()]
    } else {
        let p = split_amp(s.drop_last());
        if s.last() == '&' {
            p.push(Seq::empty())
        } else {
            p.update(p.len() - 1, p.last().push(s.last()))
        }
    }
}

/// The pieces that are not a `slide=` parameter, in order.
pub open spec fn drop_slide_params(ps: Seq<Seq<char>>) -> Seq<Seq<char>>
    decreases ps.len(),
{
    if ps.len() == 0 {
        Seq::empty()
    } else if seq_has_prefix(ps.last(), "slide="@) {
        drop_slide_params(ps.drop_last())
    } else {
        drop_slide_params(ps.drop_last()).push(ps.last())
    }
}

/// The pieces joined with `&`.
pub open spec fn join_amp(ps: Seq<Seq<char>>) -> Seq<char>
    decreases ps.len(),
{
    if ps.len() == 0 {
        Seq::empty()
    } else if ps.len() == 1 {
        ps[0]
    } else {
        join_amp(ps.drop_last()) + seq!['&'] + ps.last()
    }
}

/// The `slide=id.p<n>` parameter.
pub open spec fn slide_param(n: nat) -> Seq<char> {
    "slide=id.p"@ + decimal(n)
}

/// `url` with its `slide=` parameters replaced by one `slide=id.p<n>` at the end of the
/// query; the other parameters keep their order. A URL without a query gets one.
pub open spec fn slide_url(url: Seq<char>, n: nat) -> Seq<char> {
    match first_index_of(url, '?') {
        Some(q) => {
            let kept = join_amp(drop_slide_params(split_amp(url.subrange(q + 1, url.len() as int))));
            url.subrange(0, q) + seq!['?'] + (if kept.len() == 0 {
                slide_param(n)
            } else {
                kept + seq!['&'] + slide_param(n)
            })
        },
        None => url + seq!['?'] + slide_param(n),
    }
}

/// Characters of each piece.
pub open spec fn pieces_view(v: Seq<Vec<char>>) -> Seq<Seq<char>> {
    Seq::new(v.len(), |i: int| v[i]@)
}

fn find_question(u: &Vec<char>) -> (r: Option<usize>)
    ensures
        r matches Some(q) ==> q < u@.len() && first_index_of(u@, '?') == Some(q as int),
        r is None ==> first_index_of(u@, '?') is None,
{
    let mut i: usize = 0;
    while i < u.len()
        invariant
            i <= u@.len(),
            forall|k: int| 0 <= k < i ==> u@[k] != '?',
        decreases u@.len() - i,
    {
        if u[i] == '?' {
            proof {
                let c = choose|j: int| 0 <= j < u@.len() && u@[j] == '?' && forall|k: int| 0 <= k < j ==> u@[k] != '?';
                assert(0 <= c < u@.len() && u@[c] == '?' && forall|k: int| 0 <= k < c ==> u@[k] != '?');
                if c < i {
                    assert(u@[c] != '?');
                }
                if i < c {
                    assert(u@[i as int] != '?');
                }
            }
            return Some(i);
        }
        i = i + 1;
    }
    None
}

fn split_on_amp(s: &Vec<char>, from: usize) -> (r: Vec<Vec<char>>)
    requires
        from <= s@.len(),
    ensures
        pieces_view(r@) == split_amp(s@.subrange(from as int, s@.len() as int)),
{
    let mut done: Vec<Vec<char>> = Vec::new();
    let mut cur: Vec<char> = Vec::new();
    let mut i: usize = from;
    assert(s@.subrange(from as int, from as int) =~= Seq::<char>::empty());
    assert(pieces_view(done@).push(cur@) =~= seq![Seq::<char>::empty()]);
    while i < s.len()
        invariant
            from <= i <= s@.len(),
            pieces_view(done@).push(cur@) == split_amp(s@.subrange(from as int, i as int)),
        decreases s@.len() - i,
    {
        let c = s[i];
        let ghost prev = s@.subrange(from as int, i as int);
        let ghost next = s@.subrange(from as int, i + 1);
        assert(next.drop_last() =~= prev);
        assert(next.last() == c);
        if c == '&' {
            let ghost old_done = done@;
            let ghost old_cur = cur@;
            done.push(cur);
            cur = Vec::new();
            assert(pieces_view(done@) =~= pieces_view(old_done).push(old_cur));
            assert(pieces_view(done@).push(cur@) =~= split_amp(next));
        } else {
            let ghost old_cur = cur@;
            cur.push(c);
            assert(pieces_view(done@).push(cur@) =~= pieces_view(done@).push(old_cur).update(
                pieces_view(done@).len() as int,
                old_cur.push(c),
            ));
        }
        i = i + 1;
    }
    done.push(cur);
    assert(pieces_view(done@) =~= split_amp(s@.subrange(from as int, s@.len() as int)));
    done
}

/// `embed_url` with `?slide=id.p<slide_index>` selecting one slide: an existing
/// `slide=` parameter is replaced, the other parameters are kept.
pub fn build_slide_url(embed_url: &str, slide_index: u32) -> (r: String)
    ensures
        r@ == slide_url(embed_url@, slide_index as nat),
{
    let u = chars_of(embed_url);
    let param_tail = u64_to_decimal(slide_index as u64);
    let mut param = String::from_str("slide=id.p");
    param.append(param_tail.as_str());
    assert(param@ == slide_param(slide_index as nat));
    match find_question(&u) {
        None => {
            let mut out = String::from_str(embed_url);
            push_char(&mut out, '?');
            out.append(param.as_str());
            out
        },
        Some(q) => {
            let ul = u.len();
            assert(q < ul);
            let pieces = split_on_amp(&u, q + 1);
            let prefix = chars_of("slide=");
            let mut joined: Vec<char> = Vec::new();
            let mut count: usize = 0;
            let mut i: usize = 0;
            while i < pieces.len()
                invariant
                    i <= pieces@.len(),
                    prefix@ == "slide="@,
                    count == drop_slide_params(pieces_view(pieces@).subrange(0, i as int)).len(),
                    count <= i,
                    joined@ == join_amp(drop_slide_params(pieces_view(pieces@).subrange(0, i as int))),
                decreases pieces@.len() - i,
            {
                let ghost before = pieces_view(pieces@).subrange(0, i as int);
                let ghost after = pieces_view(pieces@).subrange(0, i + 1);
                assert(after.drop_last() =~= before);
                assert(after.last() == pieces@[i as int]@);
                let ghost ds = drop_slide_params(before);
                let skip = chars_have_prefix(&pieces[i], &prefix);
                if skip {
                    assert(drop_slide_params(after) == ds);
                } else {
                    assert(drop_slide_params(after) == ds.push(pieces@[i as int]@));
                    assert(ds.push(pieces@[i as int]@).drop_last() =~= ds);
                    if count > 0 {
                        joined.push('&');
                    }
                    let mut j: usize = 0;
                    let ghost base = joined@;
                    while j < pieces[i].len()
                        invariant
                            i < pieces@.len(),
                            j <= pieces@[i as int]@.len(),
                            joined@ == base + pieces@[i as int]@.subrange(0, j as int),
                        decreases pieces@[i as int]@.len() - j,
                    {
                        joined.push(pieces[i][j]);
                        j = j + 1;
                        assert(joined@ =~= base + pieces@[i as int]@.subrange(0, j as int));
                    }
                    assert(pieces@[i as int]@.subrange(0, j as int) =~= pieces@[i as int]@);
                    if count == 0 {
                        assert(ds.push(pieces@[i as int]@).len() == 1);
                        assert(joined@ =~= join_amp(ds.push(pieces@[i as int]@)));
                    } else {
                        assert(joined@ =~= join_amp(ds.push(pieces@[i as int]@)));
                    }
                    count = count + 1;
                }
                i = i + 1;
            }
            assert(pieces_view(pieces@).subrange(0, pieces@.len() as int) =~= pieces_view(pieces@));
            let mut out_chars: Vec<char> = Vec::new();
            let mut k: usize = 0;
            while k < q
                invariant
                    q < u@.len(),
                    k <= q,
                    out_chars@ == u@.subrange(0, k as int),
                decreases q - k,
            {
                out_chars.push(u[k]);
                k = k + 1;
                assert(out_chars@ =~= u@.subrange(0, k as int));
            }
            out_chars.push('?');
            let mut k2: usize = 0;
            let ghost base2 = out_chars@;
            while k2 < joined.len()
                invariant
                    k2 <= joined@.len(),
                    out_chars@ == base2 + joined@.subrange(0, k2 as int),
                decreases joined@.len() - k2,
            {
                out_chars.push(joined[k2]);
                k2 = k2 + 1;
                assert(out_chars@ =~= base2 + joined@.subrange(0, k2 as int));
            }
            assert(joined@.subrange(0, joined@.len() as int) =~= joined@);
            if joined.len() > 0 {
                out_chars.push('&');
            }
            let mut out = string_from_chars(&out_chars);
            out.append(param.as_str());
            assert(out@ =~= slide_url(embed_url@, slide_index as nat));
            out
        },
    }
}

/// `c` does not occur in `s`.
pub open spec fn lacks(s: Seq<char>, c: char) -> bool {
    forall|i: int| 0 <= i < s.len() ==> s[i] != c
}

proof fn lemma_decimal_digits(n: nat)
    ensures
        lacks(decimal(n), '&'),
        lacks(decimal(n), '?'),
    decreases n,
{
    if n >= 10 {
        lemma_decimal_digits(n / 10);
    }
}

proof fn lemma_slide_param_plain(n: nat)
    ensures
        lacks(slide_param(n), '&'),
        lacks(slide_param(n), '?'),
        seq_has_prefix(slide_param(n), "slide="@),
{
    reveal_strlit("slide=id.p");
    reveal_strlit("slide=");
    lemma_decimal_digits(n);
    let p = slide_param(n);
    assert forall|i: int| 0 <= i < p.len() implies p[i] != '&' && p[i] != '?' by {
        if i >= 10 {
            assert(p[i] == decimal(n)[i - 10]);
        }
    }
    assert(p.subrange(0, 6) =~= "slide="@);
}

/// The first `c` of `s` is at `q` when `s[q] == c` and no `c` comes before.
proof fn lemma_first_index_at(s: Seq<char>, c: char, q: int)
    requires
        0 <= q < s.len(),
        s[q] == c,
        forall|k: int| 0 <= k < q ==> s[k] != c,
    ensures
        first_index_of(s, c) == Some(q),
{
    let w = choose|i: int| 0 <= i < s.len() && s[i] == c && forall|k: int| 0 <= k < i ==> s[k] != c;
    assert(0 <= w < s.len() && s[w] == c && forall|k: int| 0 <= k < w ==> s[k] != c);
    if w < q {
        assert(s[w] != c);
    }
    if q < w {
        assert(s[q] != c);
    }
}

/// Every piece of a split is free of `&`, and there is at least one.
proof fn lemma_split_pieces(s: Seq<char>)
    ensures
        split_amp(s).len() >= 1,
        forall|i: int| 0 <= i < split_amp(s).len() ==> lacks(#[trigger] split_amp(s)[i], '&'),
    decreases s.len(),
{
    if s.len() > 0 {
        lemma_split_pieces(s.drop_last());
        let p = split_amp(s.drop_last());
        if s.last() != '&' {
            let last = p.last().push(s.last());
            assert forall|i: int| 0 <= i < split_amp(s).len() implies lacks(#[trigger] split_amp(s)[i], '&') by {
                if i == p.len() - 1 {
                    assert(split_amp(s)[i] == last);
                    assert forall|k: int| 0 <= k < last.len() implies last[k] != '&' by {
                        if k < p.last().len() {
                            assert(last[k] == p.last()[k]);
                        }
                    }
                } else {
                    assert(split_amp(s)[i] == p[i]);
                }
            }
        } else {
            assert forall|i: int| 0 <= i < split_amp(s).len() implies lacks(#[trigger] split_amp(s)[i], '&') by {
                if i < p.len() {
                    assert(split_amp(s)[i] == p[i]);
                }
            }
        }
    }
}

/// Splitting `a & b` splits `a` and `b`.
proof fn lemma_split_join2(a: Seq<char>, b: Seq<char>)
    ensures
        split_amp(a + seq!['&'] + b) == split_amp(a) + split_amp(b),
    decreases b.len(),
{
    let s = a + seq!['&'] + b;
    if b.len() == 0 {
        assert(s.drop_last() =~= a);
        assert(split_amp(b) =~= seq![Seq::<char>::empty()]);
        assert(split_amp(s) =~= split_amp(a) + split_amp(b));
    } else {
        lemma_split_join2(a, b.drop_last());
        assert(s.drop_last() =~= a + seq!['&'] + b.drop_last());
        assert(s.last() == b.last());
        lemma_split_pieces(a);
        lemma_split_pieces(b.drop_last());
        let pa = split_amp(a);
        let pb = split_amp(b.drop_last());
        if b.last() == '&' {
            assert(split_amp(s) =~= pa + pb.push(Seq::empty()));
            assert(split_amp(b) == pb.push(Seq::empty()));
            assert(pa + pb.push(Seq::<char>::empty()) =~= (pa + pb).push(Seq::empty()));
        } else {
            let both = pa + pb;
            assert(both.last() == pb.last());
            assert(both.update(both.len() - 1, both.last().push(b.last())) =~= pa + pb.update(
                pb.len() - 1,
                pb.last().push(b.last()),
            ));
        }
    }
}

/// Splitting a string without `&` gives it back whole.
proof fn lemma_split_plain(s: Seq<char>)
    requires
        lacks(s, '&'),
    ensures
        split_amp(s) == seq![s],
    decreases s.len(),
{
    if s.len() > 0 {
        assert(lacks(s.drop_last(), '&')) by {
            assert forall|i: int| 0 <= i < s.drop_last().len() implies s.drop_last()[i] != '&' by {
                assert(s.drop_last()[i] == s[i]);
            }
        }
        lemma_split_plain(s.drop_last());
        assert(s[s.len() - 1] != '&');
        assert(s.drop_last().push(s.last()) =~= s);
        assert(seq![s.drop_last()].update(0, s.drop_last().push(s.last())) =~= seq![s]);
    } else {
        assert(s =~= Seq::<char>::empty());
    }
}

/// Splitting what was joined gives the pieces back, when no piece holds `&`.
proof fn lemma_split_join(ps: Seq<Seq<char>>)
    requires
        ps.len() >= 1,
        forall|i: int| 0 <= i < ps.len() ==> lacks(#[trigger] ps[i], '&'),
    ensures
        split_amp(join_amp(ps)) == ps,
    decreases ps.len(),
{
    if ps.len() == 1 {
        lemma_split_plain(ps[0]);
        assert(seq![ps[0]] =~= ps);
    } else {
        let init = ps.drop_last();
        assert forall|i: int| 0 <= i < init.len() implies lacks(#[trigger] init[i], '&') by {
            assert(init[i] == ps[i]);
        }
        lemma_split_join(init);
        assert(lacks(ps.last(), '&'));
        lemma_split_plain(ps.last());
        lemma_split_join2(join_amp(init), ps.last());
        assert(init + seq![ps.last()] =~= ps);
    }
}

/// No kept piece is a `slide=` parameter, and the kept pieces keep the `&`-freedom of
/// the input pieces.
proof fn lemma_dropped_pieces(ps: Seq<Seq<char>>)
    ensures
        forall|i: int| 0 <= i < drop_slide_params(ps).len() ==> !seq_has_prefix(#[trigger] drop_slide_params(ps)[i], "slide="@),
        (forall|i: int| 0 <= i < ps.len() ==> lacks(#[trigger] ps[i], '&')) ==> forall|i: int|
            0 <= i < drop_slide_params(ps).len() ==> lacks(#[trigger] drop_slide_params(ps)[i], '&'),
    decreases ps.len(),
{
    if ps.len() > 0 {
        lemma_dropped_pieces(ps.drop_last());
        let d = drop_slide_params(ps.drop_last());
        if (forall|i: int| 0 <= i < ps.len() ==> lacks(#[trigger] ps[i], '&')) {
            assert forall|i: int| 0 <= i < ps.drop_last().len() implies lacks(#[trigger] ps.drop_last()[i], '&') by {
                assert(ps.drop_last()[i] == ps[i]);
            }
            assert(lacks(ps[ps.len() - 1], '&'));
        }
        if !seq_has_prefix(ps.last(), "slide="@) {
            assert forall|i: int| 0 <= i < drop_slide_params(ps).len() implies !seq_has_prefix(
                #[trigger] drop_slide_params(ps)[i],
                "slide="@,
            ) by {
                if i < d.len() {
                    assert(drop_slide_params(ps)[i] == d[i]);
                }
            }
        }
    }
}

/// The query that `build_slide_url` produces, split into its parameters.
pub open spec fn result_params(url: Seq<char>, n: nat) -> Seq<Seq<char>> {
    let r = slide_url(url, n);
    let q = first_index_of(r, '?').unwrap();
    split_amp(r.subrange(q + 1, r.len() as int))
}

/// The URL up to its query.
pub open spec fn url_base(url: Seq<char>) -> Seq<char> {
    match first_index_of(url, '?') {
        Some(q) => url.subrange(0, q),
        None => url,
    }
}

/// The query `slide_url` writes after the `?` at `q`.
pub open spec fn new_query(url: Seq<char>, q: int, n: nat) -> Seq<char> {
    let kept = join_amp(drop_slide_params(split_amp(url.subrange(q + 1, url.len() as int))));
    if kept.len() == 0 {
        slide_param(n)
    } else {
        kept + seq!['&'] + slide_param(n)
    }
}

proof fn lemma_least_exists(s: Seq<char>, c: char, i: int)
    requires
        0 <= i < s.len(),
        s[i] == c,
    ensures
        exists|j: int| 0 <= j < s.len() && s[j] == c && forall|k: int| 0 <= k < j ==> s[k] != c,
    decreases i,
{
    if exists|k: int| 0 <= k < i && s[k] == c {
        let k = choose|k: int| 0 <= k < i && s[k] == c;
        lemma_least_exists(s, c, k);
    } else {
        assert(forall|k: int| 0 <= k < i ==> s[k] != c);
    }
}

proof fn lemma_first_index_facts(s: Seq<char>, c: char, q: int)
    requires
        first_index_of(s, c) == Some(q),
    ensures
        0 <= q < s.len(),
        s[q] == c,
        forall|k: int| 0 <= k < q ==> s[k] != c,
{
    if !(exists|i: int| 0 <= i < s.len() && s[i] == c) {
        assert(first_index_of(s, c) is None);
    }
    let i0 = choose|i: int| 0 <= i < s.len() && s[i] == c;
    lemma_least_exists(s, c, i0);
    let w = choose|i: int| 0 <= i < s.len() && s[i] == c && forall|k: int| 0 <= k < i ==> s[k] != c;
    assert(first_index_of(s, c) == Some(w));
}

proof fn lemma_query_shape(url: Seq<char>, n: nat, q: int)
    requires
        first_index_of(url, '?') == Some(q),
    ensures
        slide_url(url, n) == url.subrange(0, q) + seq!['?'] + new_query(url, q, n),
{
}

proof fn lemma_query_params(url: Seq<char>, q: int, n: nat)
    requires
        0 <= q < url.len(),
    ensures
        split_amp(new_query(url, q, n)).len() >= 1,
        split_amp(new_query(url, q, n)).last() == slide_param(n),
        forall|i: int| 0 <= i < split_amp(new_query(url, q, n)).len() - 1
            ==> !seq_has_prefix(#[trigger] split_amp(new_query(url, q, n))[i], "slide="@),
{
    lemma_slide_param_plain(n);
    let param = slide_param(n);
    let pieces = split_amp(url.subrange(q + 1, url.len() as int));
    let dropped = drop_slide_params(pieces);
    let kept = join_amp(dropped);
    lemma_split_pieces(url.subrange(q + 1, url.len() as int));
    lemma_dropped_pieces(pieces);
    lemma_split_plain(param);
    let rp = split_amp(new_query(url, q, n));
    if kept.len() == 0 {
        assert(rp =~= seq![param]);
    } else {
        assert(dropped.len() >= 1);
        lemma_split_join(dropped);
        lemma_split_join2(kept, param);
        assert(rp =~= dropped + seq![param]);
        assert forall|i: int| 0 <= i < rp.len() - 1 implies !seq_has_prefix(#[trigger] rp[i], "slide="@) by {
            assert(rp[i] == dropped[i]);
        }
    }
}

proof fn lemma_with_query(url: Seq<char>, n: nat, q: int)
    requires
        first_index_of(url, '?') == Some(q),
    ensures
        first_index_of(slide_url(url, n), '?') == Some(q),
        slide_url(url, n).subrange(0, q) == url.subrange(0, q),
        result_params(url, n) == split_amp(new_query(url, q, n)),
{
    lemma_query_shape(url, n, q);
    lemma_first_index_facts(url, '?', q);
    let r = slide_url(url, n);
    let query = new_query(url, q, n);
    assert(r[q] == '?');
    assert forall|k: int| 0 <= k < q implies r[k] != '?' by {
        assert(r[k] == url[k]);
    }
    lemma_first_index_at(r, '?', q);
    assert(r.subrange(0, q) =~= url.subrange(0, q));
    assert(r.subrange(q + 1, r.len() as int) =~= query);
}

proof fn lemma_without_query(url: Seq<char>, n: nat)
    requires
        first_index_of(url, '?') is None,
    ensures
        first_index_of(slide_url(url, n), '?') == Some(url.len() as int),
        slide_url(url, n).subrange(0, url.len() as int) == url,
        result_params(url, n) == seq![slide_param(n)],
{
    lemma_slide_param_plain(n);
    let r = slide_url(url, n);
    let param = slide_param(n);
    assert(r =~= url + seq!['?'] + param);
    let q = url.len() as int;
    assert forall|k: int| 0 <= k < q implies r[k] != '?' by {
        assert(r[k] == url[k]);
        if url[k] == '?' {
            assert(exists|i: int| 0 <= i < url.len() && url[i] == '?');
        }
    }
    lemma_first_index_at(r, '?', q);
    assert(r.subrange(0, q) =~= url);
    assert(r.subrange(q + 1, r.len() as int) =~= param);
    lemma_split_plain(param);
}

/// The result keeps the URL up to its query, and its query holds exactly one
/// `slide=` parameter, the requested one, last: any `slide=` parameter the URL had is
/// gone, and the other parameters come first, in their order.
pub proof fn lemma_one_slide_param(url: Seq<char>, n: nat)
    ensures
        first_index_of(slide_url(url, n), '?') is Some,
        slide_url(url, n).subrange(0, first_index_of(slide_url(url, n), '?').unwrap()) == url_base(url),
        result_params(url, n).len() >= 1,
        result_params(url, n).last() == slide_param(n),
        forall|i: int| 0 <= i < result_params(url, n).len() - 1 ==> !seq_has_prefix(#[trigger] result_params(url, n)[i], "slide="@),
{
    match first_index_of(url, '?') {
        Some(q) => {
            lemma_with_query(url, n, q);
            lemma_first_index_facts(url, '?', q);
            lemma_query_params(url, q, n);
        },
        None => lemma_without_query(url, n),
    }
}

/// A lone `slide=` parameter is dropped.
proof fn lemma_drop_single_param(n: nat)
    ensures
        drop_slide_params(seq![slide_param(n)]) == Seq::<Seq<char>>::empty(),
{
    lemma_slide_param_plain(n);
    let ps = seq![slide_param(n)];
    assert(ps.last() == slide_param(n));
    assert(ps.drop_last() =~= Seq::<Seq<char>>::empty());
    assert(drop_slide_params(Seq::<Seq<char>>::empty()) == Seq::<Seq<char>>::empty());
}

/// Pieces none of which is a `slide=` parameter are all kept.
proof fn lemma_drop_keeps_plain(ps: Seq<Seq<char>>)
    requires
        forall|i: int| 0 <= i < ps.len() ==> !seq_has_prefix(#[trigger] ps[i], "slide="@),
    ensures
        drop_slide_params(ps) == ps,
    decreases ps.len(),
{
    if ps.len() > 0 {
        let init = ps.drop_last();
        assert forall|i: int| 0 <= i < init.len() implies !seq_has_prefix(#[trigger] init[i], "slide="@) by {
            assert(init[i] == ps[i]);
        }
        lemma_drop_keeps_plain(init);
        assert(!seq_has_prefix(ps[ps.len() - 1], "slide="@));
        assert(init.push(ps.last()) =~= ps);
    } else {
        assert(ps =~= Seq::<Seq<char>>::empty());
    }
}

/// The parameters other than `slide=` that a built URL keeps are those of the URL it was
/// built from.
proof fn lemma_requery_kept(url: Seq<char>, q: int, n: nat)
    requires
        0 <= q < url.len(),
    ensures
        join_amp(drop_slide_params(split_amp(new_query(url, q, n))))
            == join_amp(drop_slide_params(split_amp(url.subrange(q + 1, url.len() as int)))),
{
    let sub = url.subrange(q + 1, url.len() as int);
    let pieces = split_amp(sub);
    let dropped = drop_slide_params(pieces);
    let kept = join_amp(dropped);
    let param = slide_param(n);
    lemma_split_pieces(sub);
    lemma_dropped_pieces(pieces);
    lemma_slide_param_plain(n);
    lemma_split_plain(param);
    if kept.len() == 0 {
        lemma_drop_single_param(n);
    } else {
        if dropped.len() == 0 {
            assert(kept.len() == 0);
        }
        lemma_split_join(dropped);
        lemma_split_join2(kept, param);
        assert(split_amp(new_query(url, q, n)) =~= dropped.push(param));
        assert(dropped.push(param).drop_last() =~= dropped);
        lemma_drop_keeps_plain(dropped);
    }
}

/// Building from a built URL is building from the first: the last slide asked for wins
/// (and building twice with one slide changes nothing).
pub proof fn lemma_last_slide_wins(url: Seq<char>, first: nat, second: nat)
    ensures
        slide_url(slide_url(url, first), second) == slide_url(url, second),
{
    let r1 = slide_url(url, first);
    match first_index_of(url, '?') {
        Some(q) => {
            lemma_with_query(url, first, q);
            lemma_first_index_facts(url, '?', q);
            lemma_query_shape(r1, second, q);
            lemma_query_shape(url, second, q);
            lemma_first_index_facts(r1, '?', q);
            assert(r1.subrange(q + 1, r1.len() as int) =~= new_query(url, q, first)) by {
                lemma_query_shape(url, first, q);
            }
            lemma_requery_kept(url, q, first);
            assert(new_query(r1, q, second) == new_query(url, q, second));
        },
        None => {
            lemma_without_query(url, first);
            let q = url.len() as int;
            lemma_first_index_facts(r1, '?', q);
            lemma_query_shape(r1, second, q);
            lemma_slide_param_plain(first);
            assert(r1.subrange(q + 1, r1.len() as int) =~= slide_param(first));
            lemma_split_plain(slide_param(first));
            lemma_drop_single_param(first);
            assert(new_query(r1, q, second) == slide_param(second));
        },
    }
}

} // verus!
