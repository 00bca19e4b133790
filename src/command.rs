//! Splitting a message into a command and its arguments, and the table of
//! commands the bot knows.

use vstd::prelude::*;
use crate::text::{chars_of, ends_with_at, find_char, index_or_len, same_chars, slice_of, string_of};

verus! {

/// What group chats append to a command addressed to this bot.
pub const BOT_MENTION: &'static str = "@therngesusbot";

#[derive(PartialEq, Eq, Structural, Clone, Copy, Debug)]
pub enum Command {
    Coin,
    List,
    YesNo,
    Decide,
    Dice,
    Rps,
    Rpsg,
    Rpsls,
    Say,
    Anagram,
    Rick,
    Fortune,
    Dart,
    Cat,
    Test,
    Deicide,
    DeleteThis,
}

/// The raw command token: everything before the first space.
pub open spec fn token_of(s: Seq<char>) -> Seq<char> {
    s.subrange(0, index_or_len(s, ' ') as int)
}

/// The arguments: everything from the first space on, that space included.
pub open spec fn args_of(s: Seq<char>) -> Seq<char> {
    s.subrange(index_or_len(s, ' ') as int, s.len() as int)
}

/// `t` without the bot mention at its end, where it ends with one; one
/// copy is removed at most.
pub open spec fn strip_mention(t: Seq<char>) -> Seq<char> {
    let m = BOT_MENTION@;
    if m.len() <= t.len() && t.subrange(t.len() - m.len(), t.len() as int) == m {
        t.subrange(0, t.len() - m.len())
    } else {
        t
    }
}

/// The command that a cleaned command token names, matched exactly.
pub open spec fn command_named(name: Seq<char>) -> Option<Command> {
    if name == "/coin"@ {
        Some(Command::Coin)
    } else if name == "/list"@ {
        Some(Command::List)
    } else if name == "/yesno"@ {
        Some(Command::YesNo)
    } else if name == "/decide"@ {
        Some(Command::Decide)
    } else if name == "/dice"@ {
        Some(Command::Dice)
    } else if name == "/rps"@ {
        Some(Command::Rps)
    } else if name == "/rpsg"@ {
        Some(Command::Rpsg)
    } else if name == "/rpsls"@ {
        Some(Command::Rpsls)
    } else if name == "/say"@ {
        Some(Command::Say)
    } else if name == "/anagram"@ {
        Some(Command::Anagram)
    } else if name == "/rick"@ {
        Some(Command::Rick)
    } else if name == "/fortune"@ {
        Some(Command::Fortune)
    } else if name == "/dart"@ {
        Some(Command::Dart)
    } else if name == "/gato"@ || name == "/cat"@ {
        Some(Command::Cat)
    } else if name == "/test"@ {
        Some(Command::Test)
    } else if name == "/deicide"@ {
        Some(Command::Deicide)
    } else if name == "/deletethis"@ || name == "/wakeup"@ {
        Some(Command::DeleteThis)
    } else {
        None
    }
}

/// The command that the message `s` invokes, if the bot knows it.
pub open spec fn command_of(s: Seq<char>) -> Option<Command> {
    command_named(strip_mention(token_of(s)))
}

/// A message split into the command it names and its arguments.
pub struct Invocation {
    pub command: Command,
    pub args: String,
}

fn is_word(name: &Vec<char>, word: &str) -> (r: bool)
    ensures
        r == (name@ == word@),
{
    same_chars(name, &chars_of(word))
}

/// The command named by a cleaned command token.
pub fn lookup(name: &Vec<char>) -> (r: Option<Command>)
    ensures
        r == command_named(name@),
{
    if is_word(name, "/coin") {
        Some(Command::Coin)
    } else if is_word(name, "/list") {
        Some(Command::List)
    } else if is_word(name, "/yesno") {
        Some(Command::YesNo)
    } else if is_word(name, "/decide") {
        Some(Command::Decide)
    } else if is_word(name, "/dice") {
        Some(Command::Dice)
    } else if is_word(name, "/rps") {
        Some(Command::Rps)
    } else if is_word(name, "/rpsg") {
        Some(Command::Rpsg)
    } else if is_word(name, "/rpsls") {
        Some(Command::Rpsls)
    } else if is_word(name, "/say") {
        Some(Command::Say)
    } else if is_word(name, "/anagram") {
        Some(Command::Anagram)
    } else if is_word(name, "/rick") {
        Some(Command::Rick)
    } else if is_word(name, "/fortune") {
        Some(Command::Fortune)
    } else if is_word(name, "/dart") {
        Some(Command::Dart)
    } else if is_word(name, "/gato") || is_word(name, "/cat") {
        Some(Command::Cat)
    } else if is_word(name, "/test") {
        Some(Command::Test)
    } else if is_word(name, "/deicide") {
        Some(Command::Deicide)
    } else if is_word(name, "/deletethis") || is_word(name, "/wakeup") {
        Some(Command::DeleteThis)
    } else {
        None
    }
}

/// The command token `t` without the bot mention at its end, if any.
pub fn strip_mention_chars(t: &Vec<char>) -> (r: Vec<char>)
    ensures
        r@ == strip_mention(t@),
{
    let m = chars_of(BOT_MENTION);
    let end = if ends_with_at(t, t.len(), &m) {
        t.len() - m.len()
    } else {
        t.len()
    };
    assert(t@.subrange(0, t.len() as int) == t@);
    slice_of(t, 0, end)
}

/// The message `v` split at its first space: the command it names, if any,
/// and the arguments.
pub fn split_command(v: &Vec<char>) -> (r: (Option<Command>, Vec<char>))
    ensures
        r.0 == command_of(v@),
        r.1@ == args_of(v@),
{
    let cut = find_char(v, ' ');
    let token = slice_of(v, 0, cut);
    let name = strip_mention_chars(&token);
    (lookup(&name), slice_of(v, cut, v.len()))
}

/// The command that `text` invokes and its arguments; `None` where the bot
/// knows no such command.
pub fn parse(text: &str) -> (r: Option<Invocation>)
    ensures
        r is None <==> command_of(text@) is None,
        r matches Some(inv) ==> Some(inv.command) == command_of(text@) && inv.args@ == args_of(
            text@,
        ),
{
    let v = chars_of(text);
    let (command, args) = split_command(&v);
    match command {
        Some(c) => Some(Invocation { command: c, args: string_of(&args) }),
        None => None,
    }
}

} // verus!
