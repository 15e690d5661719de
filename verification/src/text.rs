//! Character-level string helpers shared by the command builders.
use vstd::prelude::*;

verus! {

/// `needle` occurs in `hay` as a contiguous run of characters.
pub open spec fn seq_has_infix(hay: Seq<char>, needle: Seq<char>) -> bool {
    exists|i: int| 0 <= i && i + needle.len() <= hay.len() && #[trigger] hay.subrange(i, i + needle.len()) == needle
}

/// `hay` begins with `prefix`.
pub open spec fn seq_has_prefix(hay: Seq<char>, prefix: Seq<char>) -> bool {
    prefix.len() <= hay.len() && hay.subrange(0, prefix.len() as int) == prefix
}

/// Characters of a `&str`, one by one.
pub fn chars_of(s: &str) -> (r: Vec<char>)
    ensures
        r@ == s@,
{
    let n = s.unicode_len();
    let mut r: Vec<char> = Vec::new();
    let mut i: usize = 0;
    while i < n
        invariant
            n == s@.len(),
            i <= n,
            r@ == s@.subrange(0, i as int),
        decreases n - i,
    {
        let c = s.get_char(i);
        r.push(c);
        i = i + 1;
        assert(r@ =~= s@.subrange(0, i as int));
    }
    assert(r@ =~= s@);
    r
}

/// `prefix` is a prefix of `hay` (both as character runs).
pub fn chars_have_prefix(hay: &Vec<char>, prefix: &Vec<char>) -> (r: bool)
    ensures
        r == seq_has_prefix(hay@, prefix@),
{
    if prefix.len() > hay.len() {
        return false;
    }
    let mut i: usize = 0;
    while i < prefix.len()
        invariant
            prefix@.len() <= hay@.len(),
            i <= prefix@.len(),
            forall|k: int| 0 <= k < i ==> hay@[k] == prefix@[k],
        decreases prefix@.len() - i,
    {
        if hay[i] != prefix[i] {
            assert(hay@.subrange(0, prefix@.len() as int)[i as int] != prefix@[i as int]);
            return false;
        }
        i = i + 1;
    }
    assert(hay@.subrange(0, prefix@.len() as int) =~= prefix@);
    true
}

/// `hay` holds `needle` at position `at`.
fn chars_match_at(hay: &Vec<char>, needle: &Vec<char>, at: usize) -> (r: bool)
    requires
        at + needle@.len() <= hay@.len(),
    ensures
        r == (hay@.subrange(at as int, at + needle@.len()) == needle@),
{
    let hl = hay.len();
    let mut i: usize = 0;
    while i < needle.len()
        invariant
            hl == hay@.len(),
            at + needle@.len() <= hay@.len(),
            i <= needle@.len(),
            forall|k: int| 0 <= k < i ==> hay@[at + k] == needle@[k],
        decreases needle@.len() - i,
    {
        if hay[at + i] != needle[i] {
            assert(hay@.subrange(at as int, at + needle@.len())[i as int] != needle@[i as int]);
            return false;
        }
        i = i + 1;
    }
    assert(hay@.subrange(at as int, at + needle@.len()) =~= needle@);
    true
}

/// `needle` occurs somewhere in `hay`.
pub fn chars_contain(hay: &Vec<char>, needle: &Vec<char>) -> (r: bool)
    ensures
        r == seq_has_infix(hay@, needle@),
{
    if needle.len() == 0 {
        assert(hay@.subrange(0int, 0int + needle@.len()) =~= needle@);
        return true;
    }
    if needle.len() > hay.len() {
        return false;
    }
    let hl = hay.len();
    let last = hl - needle.len();
    let mut at: usize = 0;
    while at <= last
        invariant
            last + needle@.len() == hay@.len(),
            hl == hay@.len(),
            needle@.len() > 0,
            at <= last + 1,
            forall|j: int| 0 <= j < at ==> #[trigger] hay@.subrange(j, j + needle@.len()) != needle@,
        decreases last + 1 - at,
    {
        if chars_match_at(hay, needle, at) {
            return true;
        }
        at = at + 1;
    }
    false
}

/// `needle` occurs somewhere in `hay`.
pub fn str_contains(hay: &str, needle: &str) -> (r: bool)
    ensures
        r == seq_has_infix(hay@, needle@),
{
    let h = chars_of(hay);
    let n = chars_of(needle);
    chars_contain(&h, &n)
}

/// `hay` begins with `prefix`.
pub fn str_starts_with(hay: &str, prefix: &str) -> (r: bool)
    ensures
        r == seq_has_prefix(hay@, prefix@),
{
    let h = chars_of(hay);
    let p = chars_of(prefix);
    chars_have_prefix(&h, &p)
}

/// Appends one character; `String::push` in std.
#[verifier::external_body]
pub(crate) fn push_char(s: &mut String, c: char)
    ensures
        final(s)@ == old(s)@.push(c),
{
    s.push(c);
}

/// A `String` holding exactly the given characters.
pub fn string_from_chars(cs: &Vec<char>) -> (r: String)
    ensures
        r@ == cs@,
{
    let mut r = String::new();
    let mut i: usize = 0;
    while i < cs.len()
        invariant
            i <= cs@.len(),
            r@ == cs@.subrange(0, i as int),
        decreases cs@.len() - i,
    {
        push_char(&mut r, cs[i]);
        i = i + 1;
        assert(r@ =~= cs@.subrange(0, i as int));
    }
    assert(r@ =~= cs@);
    r
}

/// The decimal digit character for `d < 10`.
pub open spec fn digit_char(d: nat) -> char {
    if d == 0 { '0' } else if d == 1 { '1' } else if d == 2 { '2' } else if d == 3 { '3' }
    else if d == 4 { '4' } else if d == 5 { '5' } else if d == 6 { '6' } else if d == 7 { '7' }
    else if d == 8 { '8' } else { '9' }
}

/// Decimal notation of a natural number, without leading zeros (`0` is `"0"`).
pub open spec fn decimal(n: nat) -> Seq<char>
    decreases n,
{
    if n < 10 {
        seq![digit_char(n)]
    } else {
        decimal(n / 10).push(digit_char(n % 10))
    }
}

fn digit(d: u64) -> (c: char)
    requires
        d < 10,
    ensures
        c == digit_char(d as nat),
{
    if d == 0 { '0' } else if d == 1 { '1' } else if d == 2 { '2' } else if d == 3 { '3' }
    else if d == 4 { '4' } else if d == 5 { '5' } else if d == 6 { '6' } else if d == 7 { '7' }
    else if d == 8 { '8' } else { '9' }
}

/// Decimal notation of `n`, as `n.to_string()` writes it.
pub fn u64_to_decimal(n: u64) -> (r: String)
    ensures
        r@ == decimal(n as nat),
    decreases n,
{
    if n < 10 {
        let mut s = String::new();
        push_char(&mut s, digit(n));
        assert(s@ =~= decimal(n as nat));
        s
    } else {
        let mut s = u64_to_decimal(n / 10);
        push_char(&mut s, digit(n % 10));
        s
    }
}

} // verus!

verus! {

/// `a` and `b` hold the same characters.
pub fn str_eq(a: &str, b: &str) -> (r: bool)
    ensures
        r == (a@ == b@),
{
    let x = chars_of(a);
    let y = chars_of(b);
    if x.len() != y.len() {
        return false;
    }
    let r = chars_have_prefix(&x, &y);
    assert(x@.subrange(0, y@.len() as int) =~= x@);
    r
}

/// `"0"` characters in front of `d` up to a width of three.
pub open spec fn pad3(d: Seq<char>) -> Seq<char> {
    if d.len() >= 3 {
        d
    } else {
        Seq::new((3 - d.len()) as nat, |i: int| '0') + d
    }
}

/// Writes `n` in decimal with at least three digits (`{:03}`).
pub fn decimal_pad3(n: u64) -> (r: String)
    ensures
        r@ == pad3(decimal(n as nat)),
{
    let d = u64_to_decimal(n);
    let len = d.as_str().unicode_len();
    let mut out = String::new();
    let mut k: usize = len;
    while k < 3
        invariant
            len == d@.len(),
            len <= k <= 3 || (len > 3 && k == len),
            out@ == Seq::new((k - len) as nat, |i: int| '0'),
        decreases 3 - k,
    {
        push_char(&mut out, '0');
        k = k + 1;
        assert(out@ =~= Seq::new((k - len) as nat, |i: int| '0'));
    }
    out.append(d.as_str());
    assert(out@ =~= pad3(decimal(n as nat)));
    out
}

} // verus!
