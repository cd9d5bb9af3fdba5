//! The router: which handler an update goes to.

use vstd::prelude::*;
use crate::endpoints::dialogue::{State, StateView};
use crate::endpoints::grammar::{
    parse_admin_command, parse_command, AdminCommand, Command, CommandView,
};
use crate::endpoints::membership::{is_private_chat, is_public_chat};
use crate::telegram::{text_of, ChatKind, Message, Update};

verus! {

/// The handler that an update goes to, with what the router found out on the way.
#[derive(Debug)]
pub enum Route {
    /// A command of the public grammar, sent in a public chat.
    PublicCommand(Command),
    /// A command of the admin grammar, sent in a private chat while no dialogue is pending.
    AdminCommand(AdminCommand),
    /// A message that arrives while the dialogue waits for the account of `chat_id`.
    AccountIdInput {
        /// The chat that is being linked.
        chat_id: String,
    },
    /// The press of an inline-keyboard button.
    Callback,
    /// Any other message: it is read for news of the bot's membership.
    BotStatusChange,
}

/// A [`Route`] as plain values.
pub enum RouteView {
    /// A command of the public grammar.
    PublicCommand(CommandView),
    /// A command of the admin grammar.
    AdminCommand(AdminCommand),
    /// A message that should name the account for `chat_id`.
    AccountIdInput {
        /// The chat that is being linked.
        chat_id: Seq<char>,
    },
    /// The press of an inline-keyboard button.
    Callback,
    /// Any other message.
    BotStatusChange,
}

impl View for Route {
    type V = RouteView;

    open spec fn view(&self) -> RouteView {
        match self {
            Route::PublicCommand(c) => RouteView::PublicCommand(c@),
            Route::AdminCommand(c) => RouteView::AdminCommand(*c),
            Route::AccountIdInput { chat_id } => RouteView::AccountIdInput { chat_id: chat_id@ },
            Route::Callback => RouteView::Callback,
            Route::BotStatusChange => RouteView::BotStatusChange,
        }
    }
}

/// The text in which a command is looked for: the message's text, or else its caption.
pub open spec fn command_text(message: Message) -> Option<Seq<char>> {
    match message.text {
        Some(text) => Some(text@),
        None => text_of(message.caption),
    }
}

/// The public command that `message` carries for the bot `bot_name`, if it was sent in a
/// public chat and carries one.
pub open spec fn public_command(message: Message, bot_name: Seq<char>) -> Option<CommandView> {
    if message.chat.kind == ChatKind::Public {
        match command_text(message) {
            Some(text) => match parse_command(text, bot_name) {
                Ok(c) => Some(c),
                Err(_) => None,
            },
            None => None,
        }
    } else {
        None
    }
}

/// The admin command that `message` carries for the bot `bot_name`, if it was sent in a
/// private chat and carries one.
pub open spec fn admin_command(message: Message, bot_name: Seq<char>) -> Option<AdminCommand> {
    if message.chat.kind == ChatKind::Private {
        match command_text(message) {
            Some(text) => match parse_admin_command(text, bot_name) {
                Ok(c) => Some(c),
                Err(_) => None,
            },
            None => None,
        }
    } else {
        None
    }
}

/// Where a message goes. The first of these that fits decides: a public command in a public
/// chat; an admin command in a private chat while no dialogue is pending; the account that a
/// pending dialogue waits for; and, for everything else, the bot's membership.
pub open spec fn message_route(message: Message, state: StateView, bot_name: Seq<char>) -> RouteView {
    if let Some(c) = public_command(message, bot_name) {
        RouteView::PublicCommand(c)
    } else if state is Start && admin_command(message, bot_name) is Some {
        RouteView::AdminCommand(admin_command(message, bot_name)->0)
    } else if let StateView::WaitingForAccountId { chat_id } = state {
        RouteView::AccountIdInput { chat_id }
    } else {
        RouteView::BotStatusChange
    }
}

/// Where an update goes: a message by [`message_route`], the press of a button to the
/// callback handler.
pub open spec fn route_of(update: Update, state: StateView, bot_name: Seq<char>) -> RouteView {
    match update {
        Update::Message(message) => message_route(message, state, bot_name),
        Update::CallbackQuery(_) => RouteView::Callback,
    }
}

/// What the routes promise of the update they were chosen for: a public command comes from a
/// public chat; an admin command comes from a private chat, at a time when no dialogue is
/// pending; an account is only taken while the dialogue waits for one, and for the chat it
/// waits for; the callback handler gets the presses of buttons and nothing else.
pub proof fn lemma_route_guards(update: Update, state: StateView, bot_name: Seq<char>)
    ensures
        route_of(update, state, bot_name) is PublicCommand ==> (update matches Update::Message(m)
            && m.chat.kind == ChatKind::Public),
        route_of(update, state, bot_name) is AdminCommand ==> state is Start && (
        update matches Update::Message(m) && m.chat.kind == ChatKind::Private),
        route_of(update, state, bot_name) matches RouteView::AccountIdInput { chat_id } ==> state
            == (StateView::WaitingForAccountId { chat_id }),
        route_of(update, state, bot_name) is Callback <==> update is CallbackQuery,
{
}

fn command_text_of(message: &Message) -> (r: Option<&str>)
    ensures
        match command_text(*message) {
            Some(text) => r matches Some(t) && t@ == text,
            None => r is None,
        },
{
    match &message.text {
        Some(text) => Some(text.as_str()),
        None => match &message.caption {
            Some(caption) => Some(caption.as_str()),
            None => None,
        },
    }
}

fn route_message(message: &Message, state: &State, bot_name: &str) -> (r: Route)
    ensures
        r@ == message_route(*message, state@, bot_name@),
{
    let text = command_text_of(message);
    if is_public_chat(message) {
        if let Some(t) = text {
            if let Ok(c) = Command::parse(t, bot_name) {
                return Route::PublicCommand(c);
            }
        }
    }
    if is_private_chat(message) {
        if let State::Start = state {
            if let Some(t) = text {
                if let Ok(c) = AdminCommand::parse(t, bot_name) {
                    return Route::AdminCommand(c);
                }
            }
        }
    }
    match state {
        State::WaitingForAccountId { chat_id } => Route::AccountIdInput { chat_id: chat_id.clone() },
        State::Start => Route::BotStatusChange,
    }
}

/// Chooses the handler for `update`, given the state of the dialogue of the update's chat and
/// the username of the bot.
///
/// Every update goes to exactly one handler. For a message the first of these that fits
/// decides: a command of the public grammar, in a public chat; a command of the admin grammar,
/// in a private chat and while no dialogue is pending; the account that a pending dialogue
/// waits for; the bot's membership, for all that is left. The press of a button goes to the
/// callback handler.
pub fn route(update: &Update, state: &State, bot_name: &str) -> (r: Route)
    ensures
        r@ == route_of(*update, state@, bot_name@),
{
    match update {
        Update::Message(message) => route_message(message, state, bot_name),
        Update::CallbackQuery(_) => Route::Callback,
    }
}

} // verus!
