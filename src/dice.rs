//! The dice handler: rolls one die per `{}` slot of a template.

use vstd::prelude::*;
use crate::chance::int_between;
use crate::text::{
    chars_of, digits, find_char, index_or_len, lemma_split_on_len,
    push_digits, slice_of, slot_at, split_chars, split_on, string_of, trim_start,
    trim_start_chars, views_of,
};

verus! {

/// The template used where the arguments give none.
pub const DEFAULT_TEMPLATE: &'static str = "Rolled a {}";

/// What the dice handler says when a face count is not positive.
pub const INVALID_DICE: &'static str = "...";

/// The face count used where a face count does not parse.
pub const DEFAULT_FACES: i64 = 6;

pub open spec fn is_digit(c: char) -> bool {
    48 <= (c as u32) <= 57
}

pub open spec fn all_digits(s: Seq<char>) -> bool {
    forall|i: int| 0 <= i < s.len() ==> is_digit(#[trigger] s[i])
}

/// The value of the decimal digits `s`.
pub open spec fn digits_value(s: Seq<char>) -> int
    decreases s.len(),
{
    if s.len() == 0 {
        0
    } else {
        digits_value(s.drop_last()) * 10 + ((s.last() as u32) - 48)
    }
}

/// What `str::parse::<i64>` gives: an optional sign, then one or more ASCII
/// digits, whose value fits in an `i64`.
pub open spec fn parse_int(s: Seq<char>) -> Option<i64> {
    let signed = s.len() > 0 && (s[0] == '-' || s[0] == '+');
    let body = if signed {
        s.skip(1)
    } else {
        s
    };
    let v = if signed && s[0] == '-' {
        -digits_value(body)
    } else {
        digits_value(body)
    };
    if body.len() == 0 || !all_digits(body) {
        None
    } else if i64::MIN <= v <= i64::MAX {
        Some(v as i64)
    } else {
        None
    }
}

proof fn lemma_digits_value_nonneg(s: Seq<char>)
    requires
        forall|i: int| 0 <= i < s.len() ==> is_digit(s[i]),
    ensures
        digits_value(s) >= 0,
    decreases s.len(),
{
    if s.len() > 0 {
        lemma_digits_value_nonneg(s.drop_last());
    }
}

const CAP: u64 = 9223372036854775809;

/// `s` parsed as an `i64`, as `str::parse` does.
pub fn parse_i64(s: &Vec<char>) -> (r: Option<i64>)
    ensures
        r == parse_int(s@),
{
    let signed = s.len() > 0 && (s[0] == '-' || s[0] == '+');
    let neg = signed && s[0] == '-';
    let start: usize = if signed {
        1
    } else {
        0
    };
    let ghost body = if signed {
        s@.skip(1)
    } else {
        s@
    };
    if start == s.len() {
        return None;
    }
    let mut mag: u64 = 0;
    let mut i = start;
    while i < s.len()
        invariant
            start <= i <= s.len(),
            start == (if signed {
                1int
            } else {
                0int
            }),
            signed == (s.len() > 0 && (s@[0] == '-' || s@[0] == '+')),
            neg == (signed && s@[0] == '-'),
            body == (if signed {
                s@.skip(1)
            } else {
                s@
            }),
            body == s@.skip(start as int),
            forall|j: int| 0 <= j < i - start ==> is_digit(body[j]),
            mag <= CAP,
            mag == CAP ==> digits_value(body.subrange(0, i - start)) >= CAP,
            mag < CAP ==> digits_value(body.subrange(0, i - start)) == mag,
        decreases s.len() - i,
    {
        let c = s[i];
        let u = c as u32;
        if u < 48 || u > 57 {
            assert(!is_digit(body[i - start]));
            return None;
        }
        let d = (u - 48) as u64;
        let ghost prev = body.subrange(0, i - start);
        let ghost next = body.subrange(0, i + 1 - start);
        assert(next.drop_last() == prev);
        assert(next.last() == c);
        proof {
            lemma_digits_value_nonneg(prev);
        }
        if mag >= 922337203685477581 {
            mag = CAP;
        } else {
            mag = mag * 10 + d;
        }
        i = i + 1;
    }
    assert(body.subrange(0, body.len() as int) == body);
    if neg {
        if mag > 9223372036854775808 {
            None
        } else if mag == 9223372036854775808 {
            Some(i64::MIN)
        } else {
            Some(-(mag as i64))
        }
    } else {
        if mag > 9223372036854775807 {
            None
        } else {
            Some(mag as i64)
        }
    }
}

/// The face count that a piece of the face list gives.
pub open spec fn face_of(p: Seq<char>) -> i64 {
    match parse_int(p) {
        Some(v) => v,
        None => DEFAULT_FACES,
    }
}

/// The arguments without leading white space.
pub open spec fn dice_body(args: Seq<char>) -> Seq<char> {
    trim_start(args)
}

/// The face list: the arguments up to their first space.
pub open spec fn face_spec(args: Seq<char>) -> Seq<char> {
    let a = dice_body(args);
    a.subrange(0, index_or_len(a, ' ') as int)
}

/// The template: what follows that space, or the default template.
pub open spec fn dice_template(args: Seq<char>) -> Seq<char> {
    let a = dice_body(args);
    let k = index_or_len(a, ' ');
    if k == a.len() {
        DEFAULT_TEMPLATE@
    } else {
        a.skip((k + 1) as int)
    }
}

/// The face counts: one for each comma-separated piece of the face list.
pub open spec fn faces(args: Seq<char>) -> Seq<i64> {
    split_on(face_spec(args), ',').map_values(|p: Seq<char>| face_of(p))
}

/// The face count of the die for slot `i`; the last one repeats.
pub open spec fn face_for(f: Seq<i64>, i: int) -> i64 {
    if i < f.len() {
        f[i]
    } else {
        f.last()
    }
}

pub open spec fn faces_valid(f: Seq<i64>) -> bool {
    forall|i: int| 0 <= i < f.len() ==> f[i] > 0
}

/// The number of `{}` slots of `t`, scanned from the left.
pub open spec fn slots(t: Seq<char>) -> nat
    decreases t.len(),
{
    if t.len() == 0 {
        0
    } else if slot_at(t, 0) {
        1 + slots(t.skip(2))
    } else {
        slots(t.skip(1))
    }
}

/// The decimal text of `n`.
pub open spec fn decimal(n: int) -> Seq<char> {
    if n < 0 {
        seq!['-'] + digits((-n) as nat)
    } else {
        digits(n as nat)
    }
}

/// `t` with its slots, from the left, filled by the rolls in order; a slot
/// with no roll left is emptied.
pub open spec fn fill_rolls(t: Seq<char>, rolls: Seq<i64>) -> Seq<char>
    decreases t.len(),
{
    if t.len() == 0 {
        t
    } else if slot_at(t, 0) {
        if rolls.len() > 0 {
            decimal(rolls[0] as int) + fill_rolls(t.skip(2), rolls.skip(1))
        } else {
            fill_rolls(t.skip(2), rolls)
        }
    } else {
        seq![t[0]] + fill_rolls(t.skip(1), rolls)
    }
}

/// The dice handler's answer for given rolls.
pub open spec fn dice_text(args: Seq<char>, rolls: Seq<i64>) -> Seq<char> {
    if faces_valid(faces(args)) {
        fill_rolls(dice_template(args), rolls)
    } else {
        INVALID_DICE@
    }
}

/// Rolls that the dice of `args` can show: one per slot, each between one
/// and the face count of its die.
pub open spec fn rolls_fit(args: Seq<char>, rolls: Seq<i64>) -> bool {
    &&& rolls.len() == slots(dice_template(args))
    &&& forall|i: int| 0 <= i < rolls.len() ==> 1 <= #[trigger] rolls[i] <= face_for(faces(args), i)
}


/// What the dice handler may answer for `args`.
pub open spec fn dice_ok(args: Seq<char>, s: Seq<char>) -> bool {
    if faces_valid(faces(args)) {
        exists|rolls: Seq<i64>| rolls_fit(args, rolls) && s == dice_text(args, rolls)
    } else {
        s == INVALID_DICE@
    }
}

/// The face list and the template of `args`.
fn dice_parts(args: &Vec<char>) -> (r: (Vec<char>, Vec<char>))
    ensures
        r.0@ == face_spec(args@),
        r.1@ == dice_template(args@),
{
    let a = trim_start_chars(args);
    let k = find_char(&a, ' ');
    let spec_part = slice_of(&a, 0, k);
    if k == a.len() {
        (spec_part, chars_of(DEFAULT_TEMPLATE))
    } else {
        (spec_part, slice_of(&a, k + 1, a.len()))
    }
}

/// The face counts of the face list `spec_part`.
fn face_list(spec_part: &Vec<char>) -> (r: Vec<i64>)
    ensures
        r@ == split_on(spec_part@, ',').map_values(|p: Seq<char>| face_of(p)),
        r.len() > 0,
{
    let pieces = split_chars(spec_part, ',');
    proof {
        lemma_split_on_len(spec_part@, ',');
    }
    let mut r: Vec<i64> = Vec::new();
    for i in 0..pieces.len()
        invariant
            views_of(pieces@) == split_on(spec_part@, ','),
            r@ == views_of(pieces@).subrange(0, i as int).map_values(|p: Seq<char>| face_of(p)),
    {
        let f = match parse_i64(&pieces[i]) {
            Some(v) => v,
            None => DEFAULT_FACES,
        };
        r.push(f);
        assert(r@ =~= views_of(pieces@).subrange(0, i + 1).map_values(|p: Seq<char>| face_of(p)));
    }
    assert(views_of(pieces@).subrange(0, pieces.len() as int) == views_of(pieces@));
    r
}

/// The face counts of the dice that `args` asks for.
pub fn dice_faces(args: &str) -> (r: Vec<i64>)
    ensures
        r@ == faces(args@),
        r.len() > 0,
{
    let (spec_part, _template) = dice_parts(&chars_of(args));
    face_list(&spec_part)
}

/// Whether every face count is positive.
fn all_positive(f: &Vec<i64>) -> (r: bool)
    ensures
        r == faces_valid(f@),
{
    let mut i: usize = 0;
    while i < f.len()
        invariant
            i <= f.len(),
            forall|j: int| 0 <= j < i ==> f@[j] > 0,
        decreases f.len() - i,
    {
        if f[i] <= 0 {
            return false;
        }
        i = i + 1;
    }
    true
}

/// The number of slots of `t`.
fn count_slots(t: &Vec<char>) -> (n: usize)
    ensures
        n == slots(t@),
{
    let mut n: usize = 0;
    let mut i: usize = 0;
    assert(t@.skip(0) == t@);
    while i < t.len()
        invariant
            i <= t.len(),
            n <= i,
            n + slots(t@.skip(i as int)) == slots(t@),
        decreases t.len() - i,
    {
        let ghost rest = t@.skip(i as int);
        if i + 1 < t.len() && t[i] == '{' && t[i + 1] == '}' {
            assert(slot_at(rest, 0));
            assert(rest.skip(2) == t@.skip(i + 2));
            n = n + 1;
            i = i + 2;
        } else {
            assert(!slot_at(rest, 0));
            assert(rest.skip(1) == t@.skip(i + 1));
            i = i + 1;
        }
    }
    n
}

/// Appends the decimal text of `n` to `out`.
fn push_decimal(out: &mut Vec<char>, n: i64)
    ensures
        final(out)@ == old(out)@ + decimal(n as int),
{
    if n < 0 {
        out.push('-');
        let m: u64 = ((-(n + 1)) as u64) + 1;
        push_digits(out, m);
        assert(old(out)@ + decimal(n as int) =~= old(out)@.push('-') + digits(m as nat));
    } else {
        push_digits(out, n as u64);
    }
}

/// `t` with its slots filled by `rolls`.
fn fill_roll_chars(t: &Vec<char>, rolls: &Vec<i64>) -> (r: Vec<char>)
    ensures
        r@ == fill_rolls(t@, rolls@),
{
    let mut r: Vec<char> = Vec::new();
    let mut i: usize = 0;
    let mut k: usize = 0;
    assert(t@.skip(0) == t@);
    assert(rolls@.skip(0) == rolls@);
    while i < t.len()
        invariant
            i <= t.len(),
            k <= rolls.len(),
            r@ + fill_rolls(t@.skip(i as int), rolls@.skip(k as int)) == fill_rolls(t@, rolls@),
        decreases t.len() - i,
    {
        let ghost rest = t@.skip(i as int);
        let ghost rs = rolls@.skip(k as int);
        let ghost r0 = r@;
        if i + 1 < t.len() && t[i] == '{' && t[i + 1] == '}' {
            assert(slot_at(rest, 0));
            assert(rest.skip(2) == t@.skip(i + 2));
            if k < rolls.len() {
                assert(rs[0] == rolls@[k as int]);
                assert(rs.skip(1) == rolls@.skip(k + 1));
                push_decimal(&mut r, rolls[k]);
                assert((r0 + decimal(rs[0] as int)) + fill_rolls(rest.skip(2), rs.skip(1)) =~= r0 + (
                decimal(rs[0] as int) + fill_rolls(rest.skip(2), rs.skip(1))));
                k = k + 1;
            }
            i = i + 2;
        } else {
            assert(!slot_at(rest, 0));
            assert(rest.skip(1) == t@.skip(i + 1));
            assert(rest[0] == t@[i as int]);
            r.push(t[i]);
            assert(r0.push(rest[0]) + fill_rolls(rest.skip(1), rs) =~= r0 + (seq![rest[0]]
                + fill_rolls(rest.skip(1), rs)));
            i = i + 1;
        }
    }
    assert(t@.skip(t.len() as int) =~= Seq::<char>::empty());
    assert(r@ + Seq::<char>::empty() =~= r@);
    r
}

/// The dice handler's answer for `args` and the given rolls.
pub fn dice_answer(args: &str, rolls: &Vec<i64>) -> (r: String)
    ensures
        r@ == dice_text(args@, rolls@),
{
    let (spec_part, template) = dice_parts(&chars_of(args));
    let f = face_list(&spec_part);
    if !all_positive(&f) {
        return INVALID_DICE.to_owned();
    }
    string_of(&fill_roll_chars(&template, rolls))
}

/// Rolls the dice that `args` asks for, one fresh roll per slot of the
/// template; a fixed sentinel where a face count is not positive.
pub fn dice(args: &str) -> (r: String)
    ensures
        dice_ok(args@, r@),
{
    let (spec_part, template) = dice_parts(&chars_of(args));
    let f = face_list(&spec_part);
    if !all_positive(&f) {
        return INVALID_DICE.to_owned();
    }
    let n = count_slots(&template);
    let mut rolls: Vec<i64> = Vec::new();
    for k in 0..n
        invariant
            f@ == faces(args@),
            f.len() > 0,
            faces_valid(f@),
            rolls.len() == k,
            forall|j: int| 0 <= j < k ==> 1 <= #[trigger] rolls@[j] <= face_for(f@, j),
    {
        let faces_k = if k < f.len() {
            f[k]
        } else {
            f[f.len() - 1]
        };
        assert(faces_k == face_for(f@, k as int));
        let roll = int_between(1, faces_k);
        rolls.push(roll);
    }
    let r = dice_answer(args, &rolls);
    assert(rolls_fit(args@, rolls@));
    r
}

} // verus!
