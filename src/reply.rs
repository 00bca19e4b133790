//! What the bot sends back to the chat platform for an action: the reply
//! itself, and the deletion that must be made before it, if any.

use vstd::prelude::*;
use crate::dispatch::BotResponse;

verus! {

/// The reply to the platform's webhook call, one of its methods.
pub enum Reply {
    SendMessage { chat_id: i64, text: String, disable_web_page_preview: bool },
    SendPhoto { chat_id: i64, photo: String, caption: String },
    LeaveChat { chat_id: i64 },
    DeleteMessage { chat_id: i64, message_id: i64 },
}

/// A message to delete through a call of its own, made before the reply.
#[derive(PartialEq, Eq, Structural, Clone, Copy, Debug)]
pub struct Deletion {
    pub chat_id: i64,
    pub message_id: i64,
}

/// The reply, and the deletion that precedes it.
pub struct Plan {
    pub delete_first: Option<Deletion>,
    pub reply: Reply,
}

/// Why there is no reply: both are told to the sender as plain text.
#[derive(PartialEq, Eq, Structural, Clone, Copy, Debug)]
pub enum ReplyError {
    /// The action deletes the command's message and the payload gave no
    /// message id.
    MissingMessageId,
    /// The message names no command the bot knows.
    CommandNotFound,
}

impl ReplyError {
    pub fn text(&self) -> (r: &'static str)
        ensures
            *self == ReplyError::MissingMessageId ==> r@ == "message.message_id not found"@,
            *self == ReplyError::CommandNotFound ==> r@ == "command not found"@,
    {
        match self {
            ReplyError::MissingMessageId => "message.message_id not found",
            ReplyError::CommandNotFound => "command not found",
        }
    }
}

/// Whether `p` sends the text `t` to the chat, with no deletion before.
pub open spec fn sends(p: Plan, chat_id: i64, t: Seq<char>, no_preview: bool) -> bool {
    p.reply matches Reply::SendMessage { chat_id: c, text, disable_web_page_preview: d } && c
        == chat_id && text@ == t && d == no_preview
}

/// Whether `p` sends a photo from `url` with the caption `cap` to the chat,
/// with no deletion before.
pub open spec fn shows_photo(p: Plan, chat_id: i64, url: Seq<char>, cap: Seq<char>) -> bool {
    &&& p.delete_first is None
    &&& (p.reply matches Reply::SendPhoto { chat_id: c, photo, caption } && c == chat_id && photo@
        == url && caption@ == cap)
}

/// The plan that `action` calls for.
pub open spec fn plan_ok(
    action: Option<BotResponse>,
    chat_id: i64,
    message_id: Option<i64>,
    r: Result<Plan, ReplyError>,
) -> bool {
    match action {
        None => r == Err::<Plan, ReplyError>(ReplyError::CommandNotFound),
        Some(BotResponse::Message(t)) => (r matches Ok(p) && p.delete_first is None && sends(
            p,
            chat_id,
            t@,
            false,
        )),
        Some(BotResponse::Photo { url, caption }) => (r matches Ok(p) && shows_photo(
            p,
            chat_id,
            url@,
            caption@,
        )),
        Some(BotResponse::LeaveChat) => (r matches Ok(p) && p.delete_first is None && p.reply == (
        Reply::LeaveChat { chat_id })),
        Some(BotResponse::DeleteMessage) => match message_id {
            None => r == Err::<Plan, ReplyError>(ReplyError::MissingMessageId),
            Some(m) => (r matches Ok(p) && p.delete_first is None && p.reply == (
            Reply::DeleteMessage { chat_id, message_id: m })),
        },
        Some(BotResponse::DeleteAndSend(t)) => match message_id {
            None => r == Err::<Plan, ReplyError>(ReplyError::MissingMessageId),
            Some(m) => (r matches Ok(p) && p.delete_first == Some(
                Deletion { chat_id, message_id: m },
            ) && sends(p, chat_id, t@, true)),
        },
    }
}

/// The plan for `action` in the chat `chat_id`, about the message
/// `message_id` where the payload gave one. An action that deletes the
/// command's message needs its id; no action means an unknown command.
pub fn plan_reply(action: Option<BotResponse>, chat_id: i64, message_id: Option<i64>) -> (r: Result<
    Plan,
    ReplyError,
>)
    ensures
        plan_ok(action, chat_id, message_id, r),
{
    match action {
        None => Err(ReplyError::CommandNotFound),
        Some(BotResponse::Message(text)) => Ok(
            Plan {
                delete_first: None,
                reply: Reply::SendMessage { chat_id, text, disable_web_page_preview: false },
            },
        ),
        Some(BotResponse::Photo { url, caption }) => Ok(
            Plan { delete_first: None, reply: Reply::SendPhoto { chat_id, photo: url, caption } },
        ),
        Some(BotResponse::LeaveChat) => Ok(
            Plan { delete_first: None, reply: Reply::LeaveChat { chat_id } },
        ),
        Some(BotResponse::DeleteMessage) => match message_id {
            None => Err(ReplyError::MissingMessageId),
            Some(m) => Ok(
                Plan { delete_first: None, reply: Reply::DeleteMessage { chat_id, message_id: m } },
            ),
        },
        Some(BotResponse::DeleteAndSend(text)) => match message_id {
            None => Err(ReplyError::MissingMessageId),
            Some(m) => Ok(
                Plan {
                    delete_first: Some(Deletion { chat_id, message_id: m }),
                    reply: Reply::SendMessage { chat_id, text, disable_web_page_preview: true },
                },
            ),
        },
    }
}

} // verus!
