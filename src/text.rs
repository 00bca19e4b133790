//! Character-sequence helpers shared by the tokenizer and the handlers.

use vstd::prelude::*;

verus! {

broadcast use vstd::string::axiom_spec_iter;

/// Unicode's `White_Space` property, as `char::is_whitespace` uses it.
pub open spec fn is_space(c: char) -> bool {
    let u = c as u32;
    (0x9 <= u <= 0xd) || u == 0x20 || u == 0x85 || u == 0xa0 || u == 0x1680 || (0x2000 <= u
        <= 0x200a) || u == 0x2028 || u == 0x2029 || u == 0x202f || u == 0x205f || u == 0x3000
}

/// `s` without its leading white space.
pub open spec fn trim_start(s: Seq<char>) -> Seq<char>
    decreases s.len(),
{
    if s.len() > 0 && is_space(s[0]) {
        trim_start(s.skip(1))
    } else {
        s
    }
}

/// `s` without its trailing white space.
pub open spec fn trim_end(s: Seq<char>) -> Seq<char>
    decreases s.len(),
{
    if s.len() > 0 && is_space(s.last()) {
        trim_end(s.drop_last())
    } else {
        s
    }
}

/// `s` without white space at either end.
pub open spec fn trim(s: Seq<char>) -> Seq<char> {
    trim_end(trim_start(s))
}

pub fn is_space_char(c: char) -> (r: bool)
    ensures
        r == is_space(c),
{
    let u = c as u32;
    (0x9 <= u && u <= 0xd) || u == 0x20 || u == 0x85 || u == 0xa0 || u == 0x1680 || (0x2000 <= u
        && u <= 0x200a) || u == 0x2028 || u == 0x2029 || u == 0x202f || u == 0x205f || u == 0x3000
}

/// The characters of `s`, in order.
pub fn chars_of(s: &str) -> (r: Vec<char>)
    ensures
        r@ == s@,
{
    let mut r: Vec<char> = Vec::new();
    for c in it: s.chars()
        invariant
            it.seq() == s@,
            r@ == it.seq().subrange(0, it.index() as int),
    {
        r.push(c);
    }
    r
}


pub assume_specification[ String::push ](s: &mut String, ch: char)
    ensures
        final(s)@ == old(s)@.push(ch),
;

/// A `String` holding the characters of `v`.
pub fn string_of(v: &Vec<char>) -> (r: String)
    ensures
        r@ == v@,
{
    let mut r = String::new();
    for i in 0..v.len()
        invariant
            r@ == v@.subrange(0, i as int),
    {
        r.push(v[i]);
        assert(v@.subrange(0, i + 1) == v@.subrange(0, i as int).push(v@[i as int]));
    }
    assert(v@.subrange(0, v.len() as int) == v@);
    r
}

/// The characters of `v` from `lo` up to, not including, `hi`.
pub fn slice_of(v: &Vec<char>, lo: usize, hi: usize) -> (r: Vec<char>)
    requires
        lo <= hi <= v.len(),
    ensures
        r@ == v@.subrange(lo as int, hi as int),
{
    let mut r: Vec<char> = Vec::new();
    let mut i = lo;
    while i < hi
        invariant
            lo <= i <= hi <= v.len(),
            r@ == v@.subrange(lo as int, i as int),
        decreases hi - i,
    {
        r.push(v[i]);
        assert(v@.subrange(lo as int, i + 1) == v@.subrange(lo as int, i as int).push(v@[i as int]));
        i = i + 1;
    }
    r
}

/// `a` followed by `b`.
pub fn concat(a: &Vec<char>, b: &Vec<char>) -> (r: Vec<char>)
    ensures
        r@ == a@ + b@,
{
    let mut r = a.clone();
    for i in 0..b.len()
        invariant
            r@ == a@ + b@.subrange(0, i as int),
    {
        r.push(b[i]);
        assert(a@ + b@.subrange(0, i + 1) == (a@ + b@.subrange(0, i as int)).push(b@[i as int]));
    }
    assert(b@.subrange(0, b.len() as int) == b@);
    r
}

/// Index of the first white-space-free position of `v`.
fn leading_space(v: &Vec<char>) -> (i: usize)
    ensures
        i <= v.len(),
        trim_start(v@) == v@.subrange(i as int, v.len() as int),
{
    let mut i: usize = 0;
    assert(v@.subrange(0, v.len() as int) == v@);
    while i < v.len() && is_space_char(v[i])
        invariant
            i <= v.len(),
            trim_start(v@) == trim_start(v@.subrange(i as int, v.len() as int)),
        decreases v.len() - i,
    {
        assert(v@.subrange(i as int, v.len() as int).skip(1) == v@.subrange(i + 1, v.len() as int));
        i = i + 1;
    }
    i
}

/// Index just past the last character of `v` that is not white space, at least `lo`.
fn trailing_space(v: &Vec<char>, lo: usize) -> (j: usize)
    requires
        lo <= v.len(),
    ensures
        lo <= j <= v.len(),
        trim_end(v@.subrange(lo as int, v.len() as int)) == v@.subrange(lo as int, j as int),
{
    let mut j: usize = v.len();
    while j > lo && is_space_char(v[j - 1])
        invariant
            lo <= j <= v.len(),
            trim_end(v@.subrange(lo as int, v.len() as int)) == trim_end(
                v@.subrange(lo as int, j as int),
            ),
        decreases j,
    {
        assert(v@.subrange(lo as int, j as int).drop_last() == v@.subrange(lo as int, j - 1));
        j = j - 1;
    }
    j
}

pub fn trim_start_chars(v: &Vec<char>) -> (r: Vec<char>)
    ensures
        r@ == trim_start(v@),
{
    let i = leading_space(v);
    slice_of(v, i, v.len())
}

pub fn trim_chars(v: &Vec<char>) -> (r: Vec<char>)
    ensures
        r@ == trim(v@),
{
    let i = leading_space(v);
    let j = trailing_space(v, i);
    slice_of(v, i, j)
}


/// Whether `a` and `b` hold the same characters.
pub fn same_chars(a: &Vec<char>, b: &Vec<char>) -> (r: bool)
    ensures
        r == (a@ == b@),
{
    if a.len() != b.len() {
        return false;
    }
    let mut i: usize = 0;
    while i < a.len()
        invariant
            a.len() == b.len(),
            i <= a.len(),
            forall|k: int| 0 <= k < i ==> a@[k] == b@[k],
        decreases a.len() - i,
    {
        if a[i] != b[i] {
            return false;
        }
        i = i + 1;
    }
    assert(a@ =~= b@);
    true
}

/// Whether the first `end` characters of `v` end with `m`.
pub fn ends_with_at(v: &Vec<char>, end: usize, m: &Vec<char>) -> (r: bool)
    requires
        end <= v.len(),
    ensures
        r == (m.len() <= end && v@.subrange(end - m.len(), end as int) == m@),
{
    if m.len() > end {
        return false;
    }
    let start = end - m.len();
    let mut k: usize = 0;
    while k < m.len()
        invariant
            start + m.len() == end <= v.len(),
            k <= m.len(),
            forall|j: int| 0 <= j < k ==> v@[start + j] == m@[j],
        decreases m.len() - k,
    {
        if v[start + k] != m[k] {
            assert(v@.subrange(start as int, end as int)[k as int] != m@[k as int]);
            return false;
        }
        k = k + 1;
    }
    assert(v@.subrange(start as int, end as int) =~= m@);
    true
}

/// Whether `v` holds the character `c`.
pub fn contains_char(v: &Vec<char>, c: char) -> (r: bool)
    ensures
        r == v@.contains(c),
{
    let mut i: usize = 0;
    while i < v.len()
        invariant
            i <= v.len(),
            forall|k: int| 0 <= k < i ==> v@[k] != c,
        decreases v.len() - i,
    {
        if v[i] == c {
            assert(v@[i as int] == c);
            return true;
        }
        i = i + 1;
    }
    false
}

/// Index of the first `c` in `s`, or the length of `s` if there is none.
pub open spec fn index_or_len(s: Seq<char>, c: char) -> nat
    decreases s.len(),
{
    if s.len() == 0 || s[0] == c {
        0
    } else {
        1 + index_or_len(s.skip(1), c)
    }
}

pub fn find_char(v: &Vec<char>, c: char) -> (i: usize)
    ensures
        i == index_or_len(v@, c),
        i <= v.len(),
{
    let mut i: usize = 0;
    assert(v@.skip(0) == v@);
    while i < v.len() && v[i] != c
        invariant
            i <= v.len(),
            index_or_len(v@, c) == i + index_or_len(v@.skip(i as int), c),
        decreases v.len() - i,
    {
        assert(v@.skip(i as int).skip(1) == v@.skip(i + 1));
        i = i + 1;
    }
    i
}


/// The character sequences of a vector of character vectors.
pub open spec fn views_of(v: Seq<Vec<char>>) -> Seq<Seq<char>> {
    v.map_values(|x: Vec<char>| x@)
}

/// The pieces of `s` between occurrences of `sep`, as `str::split` gives
/// them: one more piece than there are separators, empty ones included.
pub open spec fn split_on(s: Seq<char>, sep: char) -> Seq<Seq<char>>
    decreases s.len(),
{
    if s.len() == 0 {
        seq![Seq::empty()]
    } else {
        let rest = split_on(s.drop_last(), sep);
        if s.last() == sep {
            rest.push(Seq::empty())
        } else {
            rest.update(rest.len() - 1, rest.last().push(s.last()))
        }
    }
}

pub proof fn lemma_split_on_len(s: Seq<char>, sep: char)
    ensures
        split_on(s, sep).len() >= 1,
    decreases s.len(),
{
    if s.len() > 0 {
        lemma_split_on_len(s.drop_last(), sep);
    }
}

pub fn split_chars(v: &Vec<char>, sep: char) -> (r: Vec<Vec<char>>)
    ensures
        views_of(r@) == split_on(v@, sep),
{
    let mut pieces: Vec<Vec<char>> = Vec::new();
    let mut cur: Vec<char> = Vec::new();
    assert(v@.subrange(0, 0) =~= Seq::<char>::empty());
    assert(views_of(pieces@).push(cur@) =~= split_on(v@.subrange(0, 0), sep));
    for i in 0..v.len()
        invariant
            views_of(pieces@).push(cur@) == split_on(v@.subrange(0, i as int), sep),
    {
        let ghost before = v@.subrange(0, i as int);
        assert(v@.subrange(0, i + 1).drop_last() == before);
        assert(v@.subrange(0, i + 1).last() == v@[i as int]);
        if v[i] == sep {
            pieces.push(cur);
            cur = Vec::new();
            assert(views_of(pieces@).push(cur@) =~= split_on(v@.subrange(0, i + 1), sep));
        } else {
            cur.push(v[i]);
            assert(views_of(pieces@).push(cur@) =~= split_on(v@.subrange(0, i + 1), sep));
        }
    }
    pieces.push(cur);
    assert(v@.subrange(0, v.len() as int) == v@);
    assert(views_of(pieces@) =~= split_on(v@, sep));
    pieces
}

/// The decimal digit `d`.
pub open spec fn digit_char(d: nat) -> char {
    if d == 0 {
        '0'
    } else if d == 1 {
        '1'
    } else if d == 2 {
        '2'
    } else if d == 3 {
        '3'
    } else if d == 4 {
        '4'
    } else if d == 5 {
        '5'
    } else if d == 6 {
        '6'
    } else if d == 7 {
        '7'
    } else if d == 8 {
        '8'
    } else {
        '9'
    }
}

/// The decimal digits of `n`, without leading zeros.
pub open spec fn digits(n: nat) -> Seq<char>
    decreases n,
{
    if n < 10 {
        seq![digit_char(n)]
    } else {
        digits(n / 10).push(digit_char(n % 10))
    }
}

pub(crate) fn digit(d: u64) -> (c: char)
    requires
        d < 10,
    ensures
        c == digit_char(d as nat),
{
    if d == 0 {
        '0'
    } else if d == 1 {
        '1'
    } else if d == 2 {
        '2'
    } else if d == 3 {
        '3'
    } else if d == 4 {
        '4'
    } else if d == 5 {
        '5'
    } else if d == 6 {
        '6'
    } else if d == 7 {
        '7'
    } else if d == 8 {
        '8'
    } else {
        '9'
    }
}

/// Appends the decimal digits of `n` to `out`.
pub fn push_digits(out: &mut Vec<char>, n: u64)
    ensures
        final(out)@ == old(out)@ + digits(n as nat),
    decreases n,
{
    if n >= 10 {
        push_digits(out, n / 10);
    }
    out.push(digit(n % 10));
    assert(old(out)@ + digits(n as nat) =~= old(out)@ + (if n >= 10 {
        digits((n / 10) as nat)
    } else {
        Seq::empty()
    }).push(digit_char((n % 10) as nat)));
}

/// Whether `t` holds a `{}` slot at position `i`.
pub open spec fn slot_at(t: Seq<char>, i: int) -> bool {
    0 <= i && i + 1 < t.len() && t[i] == '{' && t[i + 1] == '}'
}

/// `t` with every `{}` slot, scanned from the left, replaced by `x`, as
/// `str::replace` does.
pub open spec fn fill(t: Seq<char>, x: Seq<char>) -> Seq<char>
    decreases t.len(),
{
    if t.len() == 0 {
        t
    } else if slot_at(t, 0) {
        x + fill(t.skip(2), x)
    } else {
        seq![t[0]] + fill(t.skip(1), x)
    }
}

pub fn fill_chars(t: &Vec<char>, x: &Vec<char>) -> (r: Vec<char>)
    ensures
        r@ == fill(t@, x@),
{
    let mut r: Vec<char> = Vec::new();
    let mut i: usize = 0;
    assert(t@.skip(0) == t@);
    while i < t.len()
        invariant
            i <= t.len(),
            r@ + fill(t@.skip(i as int), x@) == fill(t@, x@),
        decreases t.len() - i,
    {
        let ghost rest = t@.skip(i as int);
        let ghost r0 = r@;
        if i + 1 < t.len() && t[i] == '{' && t[i + 1] == '}' {
            assert(slot_at(rest, 0));
            assert(rest.skip(2) == t@.skip(i + 2));
            r = concat(&r, x);
            assert((r0 + x@) + fill(rest.skip(2), x@) =~= r0 + (x@ + fill(rest.skip(2), x@)));
            i = i + 2;
        } else {
            assert(!slot_at(rest, 0));
            assert(rest.skip(1) == t@.skip(i + 1));
            assert(rest[0] == t@[i as int]);
            r.push(t[i]);
            assert(r0.push(rest[0]) + fill(rest.skip(1), x@) =~= r0 + (seq![rest[0]] + fill(
                rest.skip(1),
                x@,
            )));
            i = i + 1;
        }
    }
    assert(t@.skip(t.len() as int) =~= Seq::<char>::empty());
    assert(r@ + Seq::<char>::empty() =~= r@);
    r
}

} // verus!
