//! The fixed phrase tables of the handlers, each as an executable table and
//! as the sequence of character sequences that contracts speak of.

use vstd::prelude::*;

verus! {

/// The character sequences of a table of literals.
pub open spec fn views(t: Seq<&'static str>) -> Seq<Seq<char>> {
    t.map_values(|s: &'static str| s@)
}

/// Answers that lean towards yes.
pub open spec fn yes_answers() -> Seq<Seq<char>> {
    seq![
        "Yes"@,
        "Why not?"@,
        "Of course"@,
        "Absolutely"@,
        "Probably"@,
        "I would think so"@,
        "Sure, sure"@,
        "Yeah!"@,
        "Hell yeah!"@,
        "Si"@,
        "Oui"@,
        "Hai"@,
        "Why yes"@,
        "Clearly"@,
        "You have my blessing"@,
    ]
}

pub fn yes_table() -> (r: Vec<&'static str>)
    ensures
        views(r@) == yes_answers(),
        r.len() == 15,
        yes_answers().len() == 15,
{
    let r = vec![
        "Yes",
        "Why not?",
        "Of course",
        "Absolutely",
        "Probably",
        "I would think so",
        "Sure, sure",
        "Yeah!",
        "Hell yeah!",
        "Si",
        "Oui",
        "Hai",
        "Why yes",
        "Clearly",
        "You have my blessing",
    ];
    assert(views(r@) =~= yes_answers());
    r
}

/// Answers that lean towards no.
pub open spec fn no_answers() -> Seq<Seq<char>> {
    seq![
        "No"@,
        "NO"@,
        "No way"@,
        "Hell no!"@,
        "Nay"@,
        "Absolutely not"@,
        "There's absolutely no way whatsoever"@,
        "No, no, and no"@,
        "Of course not"@,
        "No, but you already knew that"@,
        "Non"@,
        "iie"@,
        "Yeah, No"@,
        "It's a no from me"@,
    ]
}

pub fn no_table() -> (r: Vec<&'static str>)
    ensures
        views(r@) == no_answers(),
        r.len() == 14,
        no_answers().len() == 14,
{
    let r = vec![
        "No",
        "NO",
        "No way",
        "Hell no!",
        "Nay",
        "Absolutely not",
        "There's absolutely no way whatsoever",
        "No, no, and no",
        "Of course not",
        "No, but you already knew that",
        "Non",
        "iie",
        "Yeah, No",
        "It's a no from me",
    ];
    assert(views(r@) =~= no_answers());
    r
}

/// Answers that lean neither way.
pub open spec fn maybe_answers() -> Seq<Seq<char>> {
    seq![
        "Maybe"@,
        "I'm busy now, try again later"@,
        "Huh, not sure"@,
        "Who knows"@,
        "Yes, but maybe not"@,
        "No, but maybe yes"@,
        "¯\\_(ツ)_/¯"@,
        "@deadshrugbot"@,
        "Are you kidding me?"@,
        "The answer lies within yourself"@,
    ]
}

pub fn maybe_table() -> (r: Vec<&'static str>)
    ensures
        views(r@) == maybe_answers(),
        r.len() == 10,
        maybe_answers().len() == 10,
{
    let r = vec![
        "Maybe",
        "I'm busy now, try again later",
        "Huh, not sure",
        "Who knows",
        "Yes, but maybe not",
        "No, but maybe yes",
        "¯\\_(ツ)_/¯",
        "@deadshrugbot",
        "Are you kidding me?",
        "The answer lies within yourself",
    ];
    assert(views(r@) =~= maybe_answers());
    r
}

/// Decisions that say go ahead.
pub open spec fn go_answers() -> Seq<Seq<char>> {
    seq![
        "Yes"@,
        "Why not?"@,
        "Of course"@,
        "Absolutely"@,
        "Probably"@,
        "There's no reason not to"@,
        "I would think so"@,
        "Do it now"@,
        "Go ahead"@,
        "If you must"@,
        "Sure, sure"@,
        "I'm not against it"@,
        "Yeah!"@,
        "Hell yeah!"@,
        "Do it, or else..."@,
        "I'll be waiting for the results"@,
        "You have my blessing"@,
    ]
}

pub fn go_table() -> (r: Vec<&'static str>)
    ensures
        views(r@) == go_answers(),
        r.len() == 17,
        go_answers().len() == 17,
{
    let r = vec![
        "Yes",
        "Why not?",
        "Of course",
        "Absolutely",
        "Probably",
        "There's no reason not to",
        "I would think so",
        "Do it now",
        "Go ahead",
        "If you must",
        "Sure, sure",
        "I'm not against it",
        "Yeah!",
        "Hell yeah!",
        "Do it, or else...",
        "I'll be waiting for the results",
        "You have my blessing",
    ];
    assert(views(r@) =~= go_answers());
    r
}

/// Decisions that say do not.
pub open spec fn stop_answers() -> Seq<Seq<char>> {
    seq![
        "No"@,
        "NO"@,
        "...why would you even do that?"@,
        "Please do not"@,
        "No way"@,
        "Hell no!"@,
        "Nay"@,
        "Don't do it, or else..."@,
        "Absolutely not"@,
        "Absolutely no way whatsoever"@,
        "No, no, and no"@,
        "You shouldn't"@,
        "No, but you already knew that"@,
    ]
}

pub fn stop_table() -> (r: Vec<&'static str>)
    ensures
        views(r@) == stop_answers(),
        r.len() == 13,
        stop_answers().len() == 13,
{
    let r = vec![
        "No",
        "NO",
        "...why would you even do that?",
        "Please do not",
        "No way",
        "Hell no!",
        "Nay",
        "Don't do it, or else...",
        "Absolutely not",
        "Absolutely no way whatsoever",
        "No, no, and no",
        "You shouldn't",
        "No, but you already knew that",
    ];
    assert(views(r@) =~= stop_answers());
    r
}

/// Decisions that leave it open.
pub open spec fn unsure_answers() -> Seq<Seq<char>> {
    seq![
        "Maybe"@,
        "I'm busy now, try again later"@,
        "Huh, not sure"@,
        "Just do whatever, I don't care"@,
        "Decide it yourself"@,
        "Who knows"@,
        "Yes, but maybe not"@,
        "No, but maybe yes"@,
        "I'd flip a coin"@,
        "¯\\_(ツ)_/¯"@,
        "@deadshrugbot"@,
        "Are you kidding me?"@,
        "I don't think"@,
        "Only if you win at /rps"@,
        "Only if you flip heads"@,
    ]
}

pub fn unsure_table() -> (r: Vec<&'static str>)
    ensures
        views(r@) == unsure_answers(),
        r.len() == 15,
        unsure_answers().len() == 15,
{
    let r = vec![
        "Maybe",
        "I'm busy now, try again later",
        "Huh, not sure",
        "Just do whatever, I don't care",
        "Decide it yourself",
        "Who knows",
        "Yes, but maybe not",
        "No, but maybe yes",
        "I'd flip a coin",
        "¯\\_(ツ)_/¯",
        "@deadshrugbot",
        "Are you kidding me?",
        "I don't think",
        "Only if you win at /rps",
        "Only if you flip heads",
    ];
    assert(views(r@) =~= unsure_answers());
    r
}

/// Phrasings of a pick from a list; `{}` stands for the pick.
pub open spec fn pick_templates() -> Seq<Seq<char>> {
    seq![
        "{}, clearly"@,
        "I choose {}"@,
        "Has to be {}"@,
        "{}, isn't it?"@,
        "It's {}"@,
        "{} is the chosen one"@,
        "Couldn't not be {}"@,
        "I declare {} to be victorious"@,
        "{}, or suffer the consequences"@,
        "Either {} or {}"@,
        "It's {} or nothing"@,
        "{} without a doubt"@,
        "Do {} yourself"@,
    ]
}

pub fn pick_template_table() -> (r: Vec<&'static str>)
    ensures
        views(r@) == pick_templates(),
        r.len() == 13,
        pick_templates().len() == 13,
{
    let r = vec![
        "{}, clearly",
        "I choose {}",
        "Has to be {}",
        "{}, isn't it?",
        "It's {}",
        "{} is the chosen one",
        "Couldn't not be {}",
        "I declare {} to be victorious",
        "{}, or suffer the consequences",
        "Either {} or {}",
        "It's {} or nothing",
        "{} without a doubt",
        "Do {} yourself",
    ];
    assert(views(r@) =~= pick_templates());
    r
}

/// Rock, paper, scissors.
pub open spec fn rps_symbols() -> Seq<Seq<char>> {
    seq![
        "Rock"@,
        "Paper"@,
        "Scissors"@,
    ]
}

pub fn rps_table() -> (r: Vec<&'static str>)
    ensures
        views(r@) == rps_symbols(),
        r.len() == 3,
        rps_symbols().len() == 3,
{
    let r = vec![
        "Rock",
        "Paper",
        "Scissors",
    ];
    assert(views(r@) =~= rps_symbols());
    r
}

/// Rock, paper, scissors and gun.
pub open spec fn rpsg_symbols() -> Seq<Seq<char>> {
    seq![
        "Rock"@,
        "Paper"@,
        "Scissors"@,
        "Gun"@,
    ]
}

pub fn rpsg_table() -> (r: Vec<&'static str>)
    ensures
        views(r@) == rpsg_symbols(),
        r.len() == 4,
        rpsg_symbols().len() == 4,
{
    let r = vec![
        "Rock",
        "Paper",
        "Scissors",
        "Gun",
    ];
    assert(views(r@) =~= rpsg_symbols());
    r
}

/// Rock, paper, scissors, lizard and Spock.
pub open spec fn rpsls_symbols() -> Seq<Seq<char>> {
    seq![
        "Rock"@,
        "Paper"@,
        "Scissors"@,
        "Lizard"@,
        "Spock"@,
    ]
}

pub fn rpsls_table() -> (r: Vec<&'static str>)
    ensures
        views(r@) == rpsls_symbols(),
        r.len() == 5,
        rpsls_symbols().len() == 5,
{
    let r = vec![
        "Rock",
        "Paper",
        "Scissors",
        "Lizard",
        "Spock",
    ];
    assert(views(r@) =~= rpsls_symbols());
    r
}

/// Video ids that the link generator prefers half of the time.
pub open spec fn known_videos() -> Seq<Seq<char>> {
    seq![
        "dQw4w9WgXcQ"@,
        "iik25wqIuFo"@,
        "uT6mKkkvjJY"@,
        "v7KafvXuqKE"@,
        "2xx_2XNxxfA"@,
    ]
}

pub fn known_video_table() -> (r: Vec<&'static str>)
    ensures
        views(r@) == known_videos(),
        r.len() == 5,
        known_videos().len() == 5,
{
    let r = vec![
        "dQw4w9WgXcQ",
        "iik25wqIuFo",
        "uT6mKkkvjJY",
        "v7KafvXuqKE",
        "2xx_2XNxxfA",
    ];
    assert(views(r@) =~= known_videos());
    r
}

/// Outcomes that the test command reports.
pub open spec fn test_outcomes() -> Seq<Seq<char>> {
    seq![
        "failed"@,
        "succeeded"@,
    ]
}

pub fn test_outcome_table() -> (r: Vec<&'static str>)
    ensures
        views(r@) == test_outcomes(),
        r.len() == 2,
        test_outcomes().len() == 2,
{
    let r = vec![
        "failed",
        "succeeded",
    ];
    assert(views(r@) =~= test_outcomes());
    r
}

} // verus!
