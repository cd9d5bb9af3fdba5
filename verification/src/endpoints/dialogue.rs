//! The dialogue that links a chat to an account: an admin picks a chat, then names the account.

use vstd::prelude::*;
use vstd::string::*;
use crate::config::{with_pair, Settings};
use crate::endpoints::issues::text_or_default;
use crate::pylon::GetAccountResponse;
use crate::telegram::{plain_message, text_or_empty, CallbackQuery, Message, OutgoingMessage};
use crate::text::{owned, trim, trimmed};

verus! {

/// Where an admin's private chat stands in the dialogue.
#[derive(Debug)]
pub enum State {
    /// Nothing is pending.
    Start,
    /// The admin picked the chat `chat_id`; the next message names the account for it.
    WaitingForAccountId {
        /// The chat that is being linked.
        chat_id: String,
    },
}

/// A [`State`] as plain values.
pub enum StateView {
    /// Nothing is pending.
    Start,
    /// The next message names the account for `chat_id`.
    WaitingForAccountId {
        /// The chat that is being linked.
        chat_id: Seq<char>,
    },
}

impl View for State {
    type V = StateView;

    open spec fn view(&self) -> StateView {
        match self {
            State::Start => StateView::Start,
            State::WaitingForAccountId { chat_id } => StateView::WaitingForAccountId {
                chat_id: chat_id@,
            },
        }
    }
}

impl Default for State {
    /// A dialogue starts with nothing pending.
    fn default() -> (r: Self)
        ensures
            r@ == StateView::Start,
    {
        State::Start
    }
}

impl Clone for State {
    /// A copy of the state.
    fn clone(&self) -> (r: Self)
        ensures
            r@ == self@,
    {
        match self {
            State::Start => State::Start,
            State::WaitingForAccountId { chat_id } => State::WaitingForAccountId {
                chat_id: chat_id.clone(),
            },
        }
    }
}

/// What to do about a pressed button.
#[derive(Debug)]
pub struct CallbackStep {
    /// The query to answer, so that the button stops showing that it waits.
    pub answer: String,
    /// The new state of the dialogue.
    pub state: State,
    /// The question to send, where the chat to send it to is known.
    pub prompt: Option<OutgoingMessage>,
}

/// What to do about a message that should name an account.
#[derive(Debug)]
pub enum LinkStep {
    /// The message has no text: do nothing, and leave the dialogue as it is.
    Ignored,
    /// Pylon has no such account: say so, and leave the dialogue as it is.
    NotFound {
        /// The notice to send.
        reply: OutgoingMessage,
    },
    /// The chat is linked: save the settings, confirm, and take the new state.
    Linked {
        /// The settings to save.
        settings: Settings,
        /// The confirmation to send.
        reply: OutgoingMessage,
        /// The new state of the dialogue.
        state: State,
    },
}

/// Decides what the press of a button leads to.
///
/// A press with a payload picks the chat that the payload names: the dialogue then waits for
/// the account, whatever state it was in, and the admin is asked for it. A press without a
/// payload leads to nothing.
pub fn handle_callback(q: &CallbackQuery) -> (r: Option<CallbackStep>)
    ensures
        match q.data {
            None => r is None,
            Some(data) => r matches Some(step) && step.answer@ == q.id@ && step.state@ == (
            StateView::WaitingForAccountId { chat_id: data@ }) && match q.chat_id {
                None => step.prompt is None,
                Some(chat) => step.prompt matches Some(prompt) && prompt.chat_id == chat
                    && prompt.text@ == "Please enter the account ID to link this chat to:"@
                    && !prompt.markdown_v2 && prompt.keyboard is None,
            },
        },
{
    match &q.data {
        None => None,
        Some(data) => {
            let prompt = match q.chat_id {
                None => None,
                Some(chat) => Some(
                    plain_message(chat, owned("Please enter the account ID to link this chat to:")),
                ),
            };
            Some(
                CallbackStep {
                    answer: q.id.clone(),
                    state: State::WaitingForAccountId { chat_id: data.clone() },
                    prompt,
                },
            )
        },
    }
}

/// The account that a message names: its text without the whitespace around it. A message
/// without text names none.
pub open spec fn named_account(message: Message) -> Option<Seq<char>> {
    match message.text {
        Some(text) => Some(trimmed(text@)),
        None => None,
    }
}

/// The account to look up for a message that arrives while the dialogue waits for one.
pub fn account_id_input(message: &Message) -> (r: Option<String>)
    ensures
        match named_account(*message) {
            None => r is None,
            Some(account_id) => r matches Some(id) && id@ == account_id,
        },
{
    match &message.text {
        None => None,
        Some(text) => Some(trim(text.as_str())),
    }
}

/// Decides what a message leads to that arrives while the dialogue waits for the account of
/// `chat_id`; `account` is what Pylon gave for the account that the message names, and
/// `settings` a fresh copy of the settings.
///
/// Where Pylon knows the account, the chat is linked to it in `settings`, which are to be
/// saved as a whole, the admin is told the account's name, and the dialogue starts over.
/// Where it does not, the admin is told so and may try again: the dialogue stays as it is.
pub fn handle_account_id_input(
    message: &Message,
    chat_id: String,
    account: Option<GetAccountResponse>,
    settings: Settings,
) -> (r: LinkStep)
    ensures
        match named_account(*message) {
            None => r is Ignored,
            Some(account_id) => match account {
                None => r matches LinkStep::NotFound { reply } && reply.chat_id == message.chat.id
                    && reply.text@ == "\u{26a0}\u{fe0f} Account not found in Pylon"@
                    && !reply.markdown_v2 && reply.keyboard is None,
                Some(found) => r matches LinkStep::Linked { settings: linked, reply, state }
                    && linked@.chats == with_pair(settings@.chats, chat_id@, account_id)
                    && linked@.admins == settings@.admins && state@ == StateView::Start
                    && reply.chat_id == message.chat.id && reply.text@
                    == "\u{2705} Chat linked to Pylon account '"@ + text_or_empty(found.name)
                    + "'"@ && !reply.markdown_v2 && reply.keyboard is None,
            },
        },
{
    let account_id = match account_id_input(message) {
        None => {
            return LinkStep::Ignored;
        },
        Some(id) => id,
    };
    match account {
        None => LinkStep::NotFound {
            reply: plain_message(message.chat.id, owned("\u{26a0}\u{fe0f} Account not found in Pylon")),
        },
        Some(found) => {
            let mut linked = settings;
            linked.tg_chats_to_pylon_accounts.insert(chat_id, account_id);
            let mut text = owned("\u{2705} Chat linked to Pylon account '");
            text.append(text_or_default(&found.name));
            text.append("'");
            LinkStep::Linked {
                settings: linked,
                reply: plain_message(message.chat.id, text),
                state: State::Start,
            }
        },
    }
}

} // verus!
