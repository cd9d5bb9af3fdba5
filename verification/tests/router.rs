use pylon_tg_bot::endpoints::{AdminCommand, Command, State};
use pylon_tg_bot::router::{route, Route};
use pylon_tg_bot::telegram::{CallbackQuery, Chat, ChatKind, Message, MessageKind, Update, User};

const BOT: &str = "SuccinctPylonBot";

fn message(kind: ChatKind, text: Option<&str>) -> Message {
    Message {
        chat: Chat { id: 1, kind, title: None },
        from: Some(User { username: Some("alice".to_string()) }),
        text: text.map(|t| t.to_string()),
        caption: None,
        reply_to_message: None,
        kind: MessageKind::Common,
    }
}

fn waiting() -> State {
    State::WaitingForAccountId { chat_id: "123".to_string() }
}

#[test]
fn public_command_in_a_public_chat() {
    let u = Update::Message(message(ChatKind::Public, Some("/issue Printer on fire")));
    match route(&u, &State::Start, BOT) {
        Route::PublicCommand(Command::Issue(title)) => assert_eq!(title, "Printer on fire"),
        other => panic!("unexpected: {:?}", other),
    }
    let u = Update::Message(message(ChatKind::Public, Some("/help")));
    assert!(matches!(route(&u, &waiting(), BOT), Route::PublicCommand(Command::Help)));
}

#[test]
fn public_command_in_a_caption() {
    let mut m = message(ChatKind::Public, None);
    m.caption = Some("/issue see picture".to_string());
    match route(&Update::Message(m), &State::Start, BOT) {
        Route::PublicCommand(Command::Issue(title)) => assert_eq!(title, "see picture"),
        other => panic!("unexpected: {:?}", other),
    }
}

#[test]
fn public_command_in_a_private_chat_is_none() {
    let u = Update::Message(message(ChatKind::Private, Some("/issue x")));
    assert!(matches!(route(&u, &State::Start, BOT), Route::BotStatusChange));
}

#[test]
fn admin_command_in_a_private_chat_at_start() {
    let u = Update::Message(message(ChatKind::Private, Some("/list")));
    assert!(matches!(route(&u, &State::Start, BOT), Route::AdminCommand(AdminCommand::List)));
    let u = Update::Message(message(ChatKind::Private, Some("/help")));
    assert!(matches!(route(&u, &State::Start, BOT), Route::AdminCommand(AdminCommand::Help)));
}

#[test]
fn admin_command_in_a_public_chat_is_none() {
    let u = Update::Message(message(ChatKind::Public, Some("/list")));
    assert!(matches!(route(&u, &State::Start, BOT), Route::BotStatusChange));
    let u = Update::Message(message(ChatKind::Public, Some("/link")));
    assert!(matches!(route(&u, &State::Start, BOT), Route::BotStatusChange));
}

#[test]
fn while_waiting_every_private_message_is_an_account() {
    for text in [Some("acct-42"), Some("/list"), Some("/help"), None] {
        let u = Update::Message(message(ChatKind::Private, text));
        match route(&u, &waiting(), BOT) {
            Route::AccountIdInput { chat_id } => assert_eq!(chat_id, "123"),
            other => panic!("unexpected: {:?}", other),
        }
    }
    let u = Update::Message(message(ChatKind::Public, Some("hello")));
    assert!(matches!(route(&u, &waiting(), BOT), Route::AccountIdInput { .. }));
}

#[test]
fn button_presses_go_to_the_callback_handler() {
    let q = CallbackQuery { id: "q".to_string(), data: Some("123".to_string()), chat_id: Some(1) };
    assert!(matches!(route(&Update::CallbackQuery(q), &State::Start, BOT), Route::Callback));
    let q = CallbackQuery { id: "q".to_string(), data: None, chat_id: None };
    assert!(matches!(route(&Update::CallbackQuery(q), &waiting(), BOT), Route::Callback));
}

#[test]
fn everything_else_is_read_for_membership() {
    let u = Update::Message(message(ChatKind::Public, Some("hello")));
    assert!(matches!(route(&u, &State::Start, BOT), Route::BotStatusChange));
    let u = Update::Message(message(ChatKind::Private, Some("hello")));
    assert!(matches!(route(&u, &State::Start, BOT), Route::BotStatusChange));
    let u = Update::Message(message(ChatKind::Public, Some("/help@OtherBot")));
    assert!(matches!(route(&u, &State::Start, BOT), Route::BotStatusChange));
    let u = Update::Message(message(ChatKind::Public, None));
    assert!(matches!(route(&u, &State::Start, BOT), Route::BotStatusChange));
}
