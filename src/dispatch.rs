//! From the text of a message to the action the bot takes.

use vstd::prelude::*;
use crate::command::{Command, args_of, command_of, split_command};
use crate::dice::{dice, dice_ok};
use crate::handlers::{
    anagram, anagram_ok, coin, coin_ok, decide, decide_ok, fortune, rps, rps_ok, rpsg, rpsls, test_command,
    test_ok, yesno, yesno_ok,
};
use crate::answers::{rpsg_symbols, rpsls_symbols};
use crate::links::{dart, map_link_ok, rick, video_link_ok};
use crate::list::{list, list_ok};
use crate::text::{chars_of, string_of, trim, trim_chars};

verus! {

/// Where the cat command's photo comes from.
pub const CAT_URL: &'static str = "https://cataas.com/cat";

/// What the bot does in reply to a command.
pub enum BotResponse {
    /// Send a text message to the chat.
    Message(String),
    /// Send a photo with a caption.
    Photo { url: String, caption: String },
    /// Leave the chat.
    LeaveChat,
    /// Delete the message that held the command.
    DeleteMessage,
    /// Delete the message that held the command, then send a text message.
    DeleteAndSend(String),
}

/// A generator of lines of text for the fortune command, such as an external
/// program. `None` means that it gave no line.
pub trait LineSource {
    fn line(&mut self) -> Option<String>;
}

/// Whether `r` is an answer that the handler of `c` may give to `args`.
pub open spec fn answers(c: Command, args: Seq<char>, r: BotResponse) -> bool {
    match c {
        Command::Coin => r matches BotResponse::Message(s) && coin_ok(s@),
        Command::List => r matches BotResponse::Message(s) && list_ok(args, s@),
        Command::YesNo => r matches BotResponse::Message(s) && yesno_ok(s@),
        Command::Decide => r matches BotResponse::Message(s) && decide_ok(s@),
        Command::Dice => r matches BotResponse::Message(s) && dice_ok(args, s@),
        Command::Rps => r matches BotResponse::Message(s) && rps_ok(s@),
        Command::Rpsg => r matches BotResponse::Message(s) && rpsg_symbols().contains(s@),
        Command::Rpsls => r matches BotResponse::Message(s) && rpsls_symbols().contains(s@),
        Command::Say => r matches BotResponse::DeleteAndSend(s) && s@ == trim(args),
        Command::Anagram => r matches BotResponse::Message(s) && anagram_ok(args, s@),
        Command::Rick => r matches BotResponse::DeleteAndSend(s) && video_link_ok(s@),
        Command::Fortune => r is Message,
        Command::Dart => r matches BotResponse::Message(s) && map_link_ok(s@),
        Command::Cat => r matches BotResponse::Photo { url, caption } && url@ == CAT_URL@
            && caption@.len() == 0,
        Command::Test => r matches BotResponse::Message(s) && test_ok(s@),
        Command::Deicide => r is LeaveChat,
        Command::DeleteThis => r is DeleteMessage,
    }
}

fn message(s: &str) -> (r: BotResponse)
    ensures
        r matches BotResponse::Message(m) && m@ == s@,
{
    BotResponse::Message(s.to_owned())
}

/// A photo of a cat, without a caption.
pub fn cat() -> (r: BotResponse)
    ensures
        r matches BotResponse::Photo { url, caption } && url@ == CAT_URL@ && caption@.len() == 0,
{
    BotResponse::Photo { url: CAT_URL.to_owned(), caption: String::new() }
}

/// The answer of the handler of `c` to `args`; the fortune command asks
/// `lines` for its line.
pub fn respond<S: LineSource>(c: Command, args: &Vec<char>, lines: &mut S) -> (r: BotResponse)
    ensures
        answers(c, args@, r),
{
    let a = string_of(args);
    match c {
        Command::Coin => message(coin()),
        Command::List => BotResponse::Message(list(a.as_str())),
        Command::YesNo => message(yesno()),
        Command::Decide => message(decide()),
        Command::Dice => BotResponse::Message(dice(a.as_str())),
        Command::Rps => message(rps()),
        Command::Rpsg => message(rpsg()),
        Command::Rpsls => message(rpsls()),
        Command::Say => BotResponse::DeleteAndSend(string_of(&trim_chars(args))),
        Command::Anagram => BotResponse::Message(anagram(a.as_str())),
        Command::Rick => BotResponse::DeleteAndSend(rick()),
        Command::Fortune => BotResponse::Message(fortune(lines.line())),
        Command::Dart => BotResponse::Message(dart()),
        Command::Cat => cat(),
        Command::Test => BotResponse::Message(test_command()),
        Command::Deicide => BotResponse::LeaveChat,
        Command::DeleteThis => BotResponse::DeleteMessage,
    }
}

/// The action the bot takes on the message `text`: `None` where the message
/// names no command the bot knows, else an answer of that command's handler
/// to the message's arguments. Only the fortune command asks `lines`.
pub fn execute<S: LineSource>(text: &str, lines: &mut S) -> (r: Option<BotResponse>)
    ensures
        r is None <==> command_of(text@) is None,
        r matches Some(resp) ==> answers(command_of(text@)->0, args_of(text@), resp),
{
    let v = chars_of(text);
    let (command, args) = split_command(&v);
    match command {
        Some(c) => Some(respond(c, &args, lines)),
        None => None,
    }
}

} // verus!
