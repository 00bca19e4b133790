//! Properties that relate several functions of the library, or all of its
//! inputs, proved over their contracts.

use vstd::prelude::*;
use vstd::set_lib::{lemma_int_range, set_int_range};
use crate::command::{BOT_MENTION, Command, args_of, command_named, command_of, strip_mention};
use crate::dispatch::{BotResponse, answers};
use crate::handlers::{Leaning, ROLL_MAX, leaning_of};
use crate::reply::{Deletion, Plan, ReplyError, plan_ok, sends};
use crate::text::{index_or_len, trim};

verus! {

proof fn lemma_first_space(token: Seq<char>, args: Seq<char>)
    requires
        !token.contains(' '),
        args.len() == 0 || args[0] == ' ',
    ensures
        index_or_len(token + args, ' ') == token.len(),
    decreases token.len(),
{
    if token.len() > 0 {
        assert(token[0] != ' ');
        assert((token + args).skip(1) == token.skip(1) + args);
        assert(!token.skip(1).contains(' ')) by {
            if token.skip(1).contains(' ') {
                let i = choose|i: int| 0 <= i < token.skip(1).len() && token.skip(1)[i] == ' ';
                assert(token[i + 1] == ' ');
            }
        }
        lemma_first_space(token.skip(1), args);
    } else {
        assert(token + args == args);
    }
}

/// A message made of a command token without spaces, followed by arguments
/// that are empty or start with a space, invokes the command that the token
/// names once its bot mentions are removed, and its arguments are those.
pub proof fn law_tokens(token: Seq<char>, args: Seq<char>)
    requires
        !token.contains(' '),
        args.len() == 0 || args[0] == ' ',
    ensures
        command_of(token + args) == command_named(strip_mention(token)),
        args_of(token + args) == args,
{
    lemma_first_space(token, args);
    assert((token + args).subrange(0, token.len() as int) == token);
    assert((token + args).subrange(token.len() as int, (token + args).len() as int) == args);
}

/// A bot mention after a command token that carries none changes neither
/// the command nor the arguments.
pub proof fn law_mention_ignored(token: Seq<char>, args: Seq<char>)
    requires
        !token.contains(' '),
        strip_mention(token) == token,
        args.len() == 0 || args[0] == ' ',
    ensures
        command_of(token + BOT_MENTION@ + args) == command_of(token + args),
        args_of(token + BOT_MENTION@ + args) == args_of(token + args),
{
    reveal_strlit("@therngesusbot");
    let m = BOT_MENTION@;
    let t = token + m;
    assert(!t.contains(' ')) by {
        if t.contains(' ') {
            let i = choose|i: int| 0 <= i < t.len() && t[i] == ' ';
            if i < token.len() {
                assert(token[i] == ' ');
            }
        }
    }
    assert(t.subrange(t.len() - m.len(), t.len() as int) == m);
    assert(t.subrange(0, t.len() - m.len()) == token);
    assert(strip_mention(t) == token);
    assert(token + m + args == t + args);
    law_tokens(t, args);
    law_tokens(token, args);
}

/// Which kind of action each command yields: the cat command a photo, the
/// leave and delete commands those actions, the say and video commands a
/// deletion followed by a message, and every other command a message.
pub proof fn law_actions(text: Seq<char>, r: BotResponse)
    requires
        command_of(text) is Some,
        answers(command_of(text)->0, args_of(text), r),
    ensures
        command_of(text) == Some(Command::Cat) <==> r is Photo,
        command_of(text) == Some(Command::Deicide) <==> r is LeaveChat,
        command_of(text) == Some(Command::DeleteThis) <==> r is DeleteMessage,
        command_of(text) == Some(Command::Say) || command_of(text) == Some(Command::Rick) <==> r is DeleteAndSend,
        r is Message <==> !(command_of(text) == Some(Command::Cat) || command_of(text) == Some(
            Command::Deicide,
        ) || command_of(text) == Some(Command::DeleteThis) || command_of(text) == Some(Command::Say)
            || command_of(text) == Some(Command::Rick)),
{
}

/// The rolls in `0..=ROLL_MAX` that fall in the bucket `l`.
pub open spec fn rolls_leaning(l: Leaning) -> Set<int> {
    Set::new(|r: int| 0 <= r <= ROLL_MAX && leaning_of(r) == l)
}

/// The buckets split the rolls with no gap and no overlap: four of the ten
/// rolls lean towards yes, four towards no, and two neither way.
pub proof fn law_bucket_weights()
    ensures
        rolls_leaning(Leaning::Yes) == set_int_range(0, 4),
        rolls_leaning(Leaning::No) == set_int_range(4, 8),
        rolls_leaning(Leaning::Maybe) == set_int_range(8, 10),
        rolls_leaning(Leaning::Yes).len() == 4,
        rolls_leaning(Leaning::No).len() == 4,
        rolls_leaning(Leaning::Maybe).len() == 2,
        forall|r: int| 0 <= r <= ROLL_MAX ==> #[trigger] leaning_of(r) == Leaning::Yes
            || leaning_of(r) == Leaning::No || leaning_of(r) == Leaning::Maybe,
{
    assert(rolls_leaning(Leaning::Yes) =~= set_int_range(0, 4));
    assert(rolls_leaning(Leaning::No) =~= set_int_range(4, 8));
    assert(rolls_leaning(Leaning::Maybe) =~= set_int_range(8, 10));
    lemma_int_range(0, 4);
    lemma_int_range(4, 8);
    lemma_int_range(8, 10);
}

/// The say command, carried out, deletes the command's message once and then
/// sends its trimmed arguments, with link previews off.
pub proof fn law_say_deletes_then_sends(
    text: Seq<char>,
    chat_id: i64,
    message_id: i64,
    resp: BotResponse,
    plan: Result<Plan, ReplyError>,
)
    requires
        command_of(text) == Some(Command::Say),
        answers(Command::Say, args_of(text), resp),
        plan_ok(Some(resp), chat_id, Some(message_id), plan),
    ensures
        plan matches Ok(p) && p.delete_first == Some(Deletion { chat_id, message_id }) && sends(
            p,
            chat_id,
            trim(args_of(text)),
            true,
        ),
{
}

} // verus!
