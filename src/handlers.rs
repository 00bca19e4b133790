//! The command handlers. Each draw of chance is made by a thin function that
//! states what holds of every draw; what it does with the drawn values is a
//! function of its own with an exact contract.

use vstd::prelude::*;
use crate::answers::{
    go_answers, go_table, maybe_answers, maybe_table, no_answers, no_table, rps_symbols, rps_table,
    rpsg_symbols, rpsg_table, rpsls_symbols, rpsls_table, stop_answers, stop_table, test_outcome_table,
    test_outcomes, unsure_answers, unsure_table, views, yes_answers, yes_table,
};
use crate::chance::{fair_coin, index_below, int_between, ratio, shuffle_chars};
use crate::text::{chars_of, concat, string_of, trim, trim_chars};

verus! {

/// The largest roll of the yes/no and decide handlers; rolls run from zero.
pub const ROLL_MAX: u32 = 9;

/// Rolls from zero up to this one lean towards yes.
pub const YES_MAX: u32 = 3;

/// Rolls above `YES_MAX` up to this one lean towards no; the rest lean
/// neither way.
pub const NO_MAX: u32 = 7;

/// Paper turns into super paper with this chance (numerator, denominator).
pub const SUPER_PAPER_NUM: u32 = 2;

pub const SUPER_PAPER_DEN: u32 = 10;

/// Any throw turns into the wildcard with this chance, checked first.
pub const WILDCARD_NUM: u32 = 5;

pub const WILDCARD_DEN: u32 = 100;

/// What the fortune command says when the line generator gives nothing.
pub const FORTUNE_FALLBACK: &'static str = "Couldn't run `fortune` command sry ¯\\_(ツ)_/¯";

#[derive(PartialEq, Eq, Structural, Clone, Copy, Debug)]
pub enum Leaning {
    Yes,
    No,
    Maybe,
}

/// The bucket that a roll falls in.
pub open spec fn leaning_of(roll: int) -> Leaning {
    if roll <= YES_MAX {
        Leaning::Yes
    } else if roll <= NO_MAX {
        Leaning::No
    } else {
        Leaning::Maybe
    }
}

pub fn leaning(roll: u32) -> (r: Leaning)
    ensures
        r == leaning_of(roll as int),
{
    if roll <= YES_MAX {
        Leaning::Yes
    } else if roll <= NO_MAX {
        Leaning::No
    } else {
        Leaning::Maybe
    }
}

/// The answers of the yes/no handler in each bucket.
pub open spec fn yesno_answers(l: Leaning) -> Seq<Seq<char>> {
    match l {
        Leaning::Yes => yes_answers(),
        Leaning::No => no_answers(),
        Leaning::Maybe => maybe_answers(),
    }
}

/// The answers of the decide handler in each bucket.
pub open spec fn decide_answers(l: Leaning) -> Seq<Seq<char>> {
    match l {
        Leaning::Yes => go_answers(),
        Leaning::No => stop_answers(),
        Leaning::Maybe => unsure_answers(),
    }
}

pub fn yesno_table(l: Leaning) -> (r: Vec<&'static str>)
    ensures
        views(r@) == yesno_answers(l),
        r.len() == yesno_answers(l).len(),
        r.len() > 0,
{
    match l {
        Leaning::Yes => yes_table(),
        Leaning::No => no_table(),
        Leaning::Maybe => maybe_table(),
    }
}

pub fn decide_table(l: Leaning) -> (r: Vec<&'static str>)
    ensures
        views(r@) == decide_answers(l),
        r.len() == decide_answers(l).len(),
        r.len() > 0,
{
    match l {
        Leaning::Yes => go_table(),
        Leaning::No => stop_table(),
        Leaning::Maybe => unsure_table(),
    }
}

/// Entry `i` of a table.
pub fn entry(t: &Vec<&'static str>, i: usize) -> (r: &'static str)
    requires
        i < t.len(),
    ensures
        r@ == views(t@)[i as int],
        views(t@).contains(r@),
{
    let r = t[i];
    assert(views(t@)[i as int] == r@);
    r
}

/// An entry of a non-empty table, drawn uniformly.
pub fn choose_from(t: &Vec<&'static str>) -> (r: &'static str)
    requires
        t.len() > 0,
    ensures
        views(t@).contains(r@),
{
    entry(t, index_below(t.len()))
}

/// The coin handler's answer for a throw.
pub open spec fn coin_text(heads: bool) -> Seq<char> {
    if heads {
        "Heads"@
    } else {
        "Tails"@
    }
}

pub fn coin_face(heads: bool) -> (r: &'static str)
    ensures
        r@ == coin_text(heads),
{
    if heads {
        "Heads"
    } else {
        "Tails"
    }
}

/// What the coin handler may answer.
pub open spec fn coin_ok(s: Seq<char>) -> bool {
    s == coin_text(true) || s == coin_text(false)
}

/// Heads or tails, each with even chance.
pub fn coin() -> (r: &'static str)
    ensures
        coin_ok(r@),
{
    coin_face(fair_coin())
}

/// The yes/no handler's answer for a roll and a pick within its bucket.
pub fn yesno_answer(roll: u32, pick: usize) -> (r: &'static str)
    requires
        pick < yesno_answers(leaning_of(roll as int)).len(),
    ensures
        r@ == yesno_answers(leaning_of(roll as int))[pick as int],
{
    let t = yesno_table(leaning(roll));
    entry(&t, pick)
}

/// What the yes/no handler may answer.
pub open spec fn yesno_ok(s: Seq<char>) -> bool {
    exists|roll: int| 0 <= roll <= ROLL_MAX && yesno_answers(leaning_of(roll)).contains(s)
}

/// An answer to a yes/no question: a roll in `0..=ROLL_MAX` picks the bucket,
/// and an answer of that bucket is drawn uniformly.
pub fn yesno() -> (r: &'static str)
    ensures
        yesno_ok(r@),
{
    let roll = int_between(0, ROLL_MAX as i64) as u32;
    let n = yesno_table(leaning(roll)).len();
    let r = yesno_answer(roll, index_below(n));
    assert(yesno_answers(leaning_of(roll as int)).contains(r@));
    r
}

/// The decide handler's answer for a roll and a pick within its bucket.
pub fn decide_answer(roll: u32, pick: usize) -> (r: &'static str)
    requires
        pick < decide_answers(leaning_of(roll as int)).len(),
    ensures
        r@ == decide_answers(leaning_of(roll as int))[pick as int],
{
    let t = decide_table(leaning(roll));
    entry(&t, pick)
}

/// What the decide handler may answer.
pub open spec fn decide_ok(s: Seq<char>) -> bool {
    exists|roll: int| 0 <= roll <= ROLL_MAX && decide_answers(leaning_of(roll)).contains(s)
}

/// A decision, weighted as the yes/no answers are.
pub fn decide() -> (r: &'static str)
    ensures
        decide_ok(r@),
{
    let roll = int_between(0, ROLL_MAX as i64) as u32;
    let n = decide_table(leaning(roll)).len();
    let r = decide_answer(roll, index_below(n));
    assert(decide_answers(leaning_of(roll as int)).contains(r@));
    r
}

/// The rock-paper-scissors answer for a base throw and the two overrides:
/// the wildcard wins over everything, and super paper only upgrades paper.
pub open spec fn rps_outcome(throw: int, super_paper: bool, wildcard: bool) -> Seq<char> {
    if wildcard {
        "Rockscispaper"@
    } else if super_paper && throw == 1 {
        "Super Paper"@
    } else {
        rps_symbols()[throw]
    }
}

pub fn rps_answer(throw: usize, super_paper: bool, wildcard: bool) -> (r: &'static str)
    requires
        throw < 3,
    ensures
        r@ == rps_outcome(throw as int, super_paper, wildcard),
{
    if wildcard {
        "Rockscispaper"
    } else if super_paper && throw == 1 {
        "Super Paper"
    } else {
        entry(&rps_table(), throw)
    }
}

/// What the rock-paper-scissors handler may answer.
pub open spec fn rps_ok(s: Seq<char>) -> bool {
    exists|throw: int, super_paper: bool, wildcard: bool|
        0 <= throw < 3 && s == rps_outcome(throw, super_paper, wildcard)
}

/// Rock, paper or scissors, with the two rare overrides drawn independently.
pub fn rps() -> (r: &'static str)
    ensures
        rps_ok(r@),
{
    let throw = index_below(3);
    let super_paper = ratio(SUPER_PAPER_NUM, SUPER_PAPER_DEN);
    let wildcard = ratio(WILDCARD_NUM, WILDCARD_DEN);
    rps_answer(throw, super_paper, wildcard)
}

/// Rock, paper, scissors or gun.
pub fn rpsg() -> (r: &'static str)
    ensures
        rpsg_symbols().contains(r@),
{
    choose_from(&rpsg_table())
}

/// Rock, paper, scissors, lizard or Spock.
pub fn rpsls() -> (r: &'static str)
    ensures
        rpsls_symbols().contains(r@),
{
    choose_from(&rpsls_table())
}

/// The test command's report for one of its outcomes.
pub fn test_report(outcome: usize) -> (r: String)
    requires
        outcome < test_outcomes().len(),
    ensures
        r@ == "test "@ + test_outcomes()[outcome as int],
{
    let word = entry(&test_outcome_table(), outcome);
    string_of(&concat(&chars_of("test "), &chars_of(word)))
}

/// What the test command may answer.
pub open spec fn test_ok(s: Seq<char>) -> bool {
    exists|i: int| 0 <= i < test_outcomes().len() && s == "test "@ + test_outcomes()[i]
}

/// A report that the test failed or succeeded.
pub fn test_command() -> (r: String)
    ensures
        test_ok(r@),
{
    test_report(index_below(2))
}

/// The fortune command's text: the generator's line, or the fallback where
/// it gave none.
pub fn fortune(output: Option<String>) -> (r: String)
    ensures
        output matches Some(s) ==> r@ == s@,
        output is None ==> r@ == FORTUNE_FALLBACK@,
{
    match output {
        Some(s) => s,
        None => FORTUNE_FALLBACK.to_owned(),
    }
}


/// What the anagram handler says when it is given no text: a soft hyphen,
/// which chat clients do not show, and a space.
pub const ANAGRAM_BLANK: &'static str = "\u{AD} ";

/// What the anagram handler may answer for `arg`: the sentinel where the
/// trimmed text is empty, else a reordering of its characters.
pub open spec fn anagram_ok(arg: Seq<char>, s: Seq<char>) -> bool {
    if trim(arg).len() == 0 {
        s == ANAGRAM_BLANK@
    } else {
        s.len() == trim(arg).len() && s.to_multiset() == trim(arg).to_multiset()
    }
}

/// The characters of `arg`, trimmed, in a uniformly shuffled order; a fixed
/// invisible sentinel where nothing is left after trimming.
pub fn anagram(arg: &str) -> (r: String)
    ensures
        anagram_ok(arg@, r@),
{
    let mut word = trim_chars(&chars_of(arg));
    if word.len() == 0 {
        return ANAGRAM_BLANK.to_owned();
    }
    shuffle_chars(&mut word);
    string_of(&word)
}

} // verus!
