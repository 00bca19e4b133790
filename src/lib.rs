//! A stateless chat bot: it turns the text of a command message into the
//! action the bot should take, and that action into the reply it sends.

pub mod text;
pub mod command;
pub mod answers;
mod chance;
pub mod handlers;
pub mod list;
pub mod dice;
pub mod links;
pub mod dispatch;
pub mod reply;
pub mod laws;
