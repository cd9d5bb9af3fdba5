//! What the bot reads of Telegram's updates, and what it sends, as plain values.

use vstd::prelude::*;

verus! {

/// Whether a chat is a one-to-one conversation with the bot or a group, supergroup or channel.
#[derive(Debug, Clone, Copy, PartialEq, Eq, Structural)]
pub enum ChatKind {
    /// A group, a supergroup or a channel.
    Public,
    /// A one-to-one conversation with the bot.
    Private,
}

/// The chat that an update belongs to.
#[derive(Debug)]
pub struct Chat {
    /// Telegram's identifier of the chat.
    pub id: i64,
    /// The kind of chat.
    pub kind: ChatKind,
    /// The title, which only public chats have.
    pub title: Option<String>,
}

/// A Telegram user.
#[derive(Debug)]
pub struct User {
    /// The username, for users that have one.
    pub username: Option<String>,
}

/// What kind of message an update carries, as far as the bot tells kinds apart.
#[derive(Debug)]
pub enum MessageKind {
    /// An ordinary message.
    Common,
    /// A notice that users joined the chat.
    NewChatMembers {
        /// Who joined.
        new_chat_members: Vec<User>,
    },
    /// A notice that a user left the chat.
    LeftChatMember {
        /// Who left.
        left_chat_member: User,
    },
    /// Any other service message.
    Other,
}

/// The message that another message replies to.
#[derive(Debug)]
pub struct RepliedMessage {
    /// The chat in which it was sent.
    pub chat_id: i64,
    /// Its text, where it is a text message.
    pub text: Option<String>,
}

/// An incoming message.
#[derive(Debug)]
pub struct Message {
    /// The chat in which it was sent.
    pub chat: Chat,
    /// Who sent it, where Telegram says so.
    pub from: Option<User>,
    /// Its text, where it is a text message.
    pub text: Option<String>,
    /// Its caption, where it is a media message with one.
    pub caption: Option<String>,
    /// The message that it replies to.
    pub reply_to_message: Option<RepliedMessage>,
    /// Its kind.
    pub kind: MessageKind,
}

/// The press of an inline-keyboard button.
#[derive(Debug)]
pub struct CallbackQuery {
    /// Telegram's identifier of the query.
    pub id: String,
    /// The payload of the button.
    pub data: Option<String>,
    /// The chat of the message that carried the keyboard, where it can still be told.
    pub chat_id: Option<i64>,
}

/// An incoming update.
#[derive(Debug)]
pub enum Update {
    /// A message was sent.
    Message(Message),
    /// An inline-keyboard button was pressed.
    CallbackQuery(CallbackQuery),
}

/// What a user is in a chat.
#[derive(Debug, Clone, Copy, PartialEq, Eq, Structural)]
pub enum ChatMemberStatus {
    /// The chat's owner.
    Owner,
    /// One of the chat's administrators.
    Administrator,
    /// An ordinary member.
    Member,
    /// A member under restrictions.
    Restricted,
    /// Someone who left.
    Left,
    /// Someone who was banned.
    Banned,
}

/// One button of an inline keyboard.
#[derive(Debug)]
pub struct Button {
    /// The label.
    pub text: String,
    /// The payload that comes back when the button is pressed.
    pub callback_data: String,
}

/// A message to send.
#[derive(Debug)]
pub struct OutgoingMessage {
    /// The chat to send it to.
    pub chat_id: i64,
    /// The text.
    pub text: String,
    /// Whether the text is to be read as MarkdownV2.
    pub markdown_v2: bool,
    /// The rows of the inline keyboard to attach, if any.
    pub keyboard: Option<Vec<Vec<Button>>>,
}

/// The text behind `text`, or the empty text.
pub open spec fn text_or_empty(text: Option<String>) -> Seq<char> {
    match text {
        Some(t) => t@,
        None => Seq::empty(),
    }
}

/// The text behind `text`, if there is one.
pub open spec fn text_of(text: Option<String>) -> Option<Seq<char>> {
    match text {
        Some(t) => Some(t@),
        None => None,
    }
}

/// The username of `user`, or the empty text where there is no user or no username.
pub open spec fn username_or_empty(user: Option<User>) -> Seq<char> {
    match user {
        Some(u) => text_or_empty(u.username),
        None => Seq::empty(),
    }
}

/// The sender's username, if the message has a sender with a username.
pub open spec fn sender_username(message: Message) -> Option<Seq<char>> {
    match message.from {
        Some(user) => text_of(user.username),
        None => None,
    }
}

/// A plain-text message without a keyboard.
pub fn plain_message(chat_id: i64, text: String) -> (r: OutgoingMessage)
    ensures
        r.chat_id == chat_id,
        r.text@ == text@,
        !r.markdown_v2,
        r.keyboard is None,
{
    OutgoingMessage { chat_id, text, markdown_v2: false, keyboard: None }
}

/// A MarkdownV2 message without a keyboard.
pub fn markdown_message(chat_id: i64, text: String) -> (r: OutgoingMessage)
    ensures
        r.chat_id == chat_id,
        r.text@ == text@,
        r.markdown_v2,
        r.keyboard is None,
{
    OutgoingMessage { chat_id, text, markdown_v2: true, keyboard: None }
}

} // verus!
