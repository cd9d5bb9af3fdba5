//! Telling chats apart, and noticing when the bot joins or leaves one.

use vstd::prelude::*;
use crate::endpoints::issues::text_or_default;
use crate::telegram::{text_or_empty, ChatKind, Message, MessageKind, User};
use crate::text::{owned, same_text};

verus! {

/// The username under which the bot runs.
pub const BOT_USERNAME: &'static str = "SuccinctPylonBot";

/// Whether the message was sent in a private chat with the bot.
pub fn is_private_chat(msg: &Message) -> (r: bool)
    ensures
        r == (msg.chat.kind == ChatKind::Private),
{
    match msg.chat.kind {
        ChatKind::Private => true,
        ChatKind::Public => false,
    }
}

/// Whether the message was sent in a group, a supergroup or a channel.
pub fn is_public_chat(msg: &Message) -> (r: bool)
    ensures
        r == (msg.chat.kind == ChatKind::Public),
{
    match msg.chat.kind {
        ChatKind::Public => true,
        ChatKind::Private => false,
    }
}

/// What a message says of the bot's membership in its chat.
#[derive(Debug)]
pub enum BotStatus {
    /// The bot was added to the chat.
    Added {
        /// The chat.
        chat_id: i64,
        /// The chat's title, or the empty text.
        chat_title: String,
    },
    /// The bot was removed from the chat.
    Removed {
        /// The chat.
        chat_id: i64,
        /// The chat's title, or the empty text.
        chat_title: String,
    },
    /// Nothing.
    Unchanged,
}

/// Whether `user` is the bot: whether its username is [`BOT_USERNAME`].
pub open spec fn is_bot(user: User) -> bool {
    user.username matches Some(name) && name@ == BOT_USERNAME@
}

/// Whether the bot is among `users`.
pub open spec fn includes_bot(users: Seq<User>) -> bool {
    exists|i: int| 0 <= i < users.len() && is_bot(#[trigger] users[i])
}

fn user_is_bot(user: &User) -> (r: bool)
    ensures
        r == is_bot(*user),
{
    match &user.username {
        None => false,
        Some(name) => same_text(name.as_str(), BOT_USERNAME),
    }
}

fn bot_among(users: &Vec<User>) -> (r: bool)
    ensures
        r == includes_bot(users@),
{
    let mut i: usize = 0;
    while i < users.len()
        invariant
            i <= users.len(),
            forall|k: int| 0 <= k < i ==> !is_bot(#[trigger] users@[k]),
        decreases users.len() - i,
    {
        if user_is_bot(&users[i]) {
            return true;
        }
        i += 1;
    }
    false
}

/// Reads a message for news of the bot's own membership: a notice of new members that names
/// the bot says that it was added, a notice of a member who left that names the bot says that
/// it was removed. Every other message says nothing, and nothing is ever sent in return.
pub fn handle_bot_status_change(message: &Message) -> (r: BotStatus)
    ensures
        match message.kind {
            MessageKind::NewChatMembers { new_chat_members } => if includes_bot(new_chat_members@) {
                r matches BotStatus::Added { chat_id, chat_title } && chat_id == message.chat.id
                    && chat_title@ == text_or_empty(message.chat.title)
            } else {
                r is Unchanged
            },
            MessageKind::LeftChatMember { left_chat_member } => if is_bot(left_chat_member) {
                r matches BotStatus::Removed { chat_id, chat_title } && chat_id == message.chat.id
                    && chat_title@ == text_or_empty(message.chat.title)
            } else {
                r is Unchanged
            },
            _ => r is Unchanged,
        },
{
    match &message.kind {
        MessageKind::NewChatMembers { new_chat_members } => {
            if bot_among(new_chat_members) {
                BotStatus::Added {
                    chat_id: message.chat.id,
                    chat_title: owned(text_or_default(&message.chat.title)),
                }
            } else {
                BotStatus::Unchanged
            }
        },
        MessageKind::LeftChatMember { left_chat_member } => {
            if user_is_bot(left_chat_member) {
                BotStatus::Removed {
                    chat_id: message.chat.id,
                    chat_title: owned(text_or_default(&message.chat.title)),
                }
            } else {
                BotStatus::Unchanged
            }
        },
        _ => BotStatus::Unchanged,
    }
}

} // verus!
