use pylon_tg_bot::endpoints::{
    handle_bot_status_change, is_private_chat, is_public_chat, BotStatus, BOT_USERNAME,
};
use pylon_tg_bot::telegram::{Chat, ChatKind, Message, MessageKind, User};

fn user(name: Option<&str>) -> User {
    User { username: name.map(|n| n.to_string()) }
}

fn notice(kind: MessageKind, title: Option<&str>) -> Message {
    Message {
        chat: Chat { id: -9, kind: ChatKind::Public, title: title.map(|t| t.to_string()) },
        from: None,
        text: None,
        caption: None,
        reply_to_message: None,
        kind,
    }
}

#[test]
fn the_bot_has_a_fixed_username() {
    assert_eq!(BOT_USERNAME, "SuccinctPylonBot");
}

#[test]
fn bot_among_new_members_was_added() {
    let kind = MessageKind::NewChatMembers {
        new_chat_members: vec![user(Some("dave")), user(None), user(Some("SuccinctPylonBot"))],
    };
    match handle_bot_status_change(&notice(kind, Some("Support"))) {
        BotStatus::Added { chat_id, chat_title } => {
            assert_eq!(chat_id, -9);
            assert_eq!(chat_title, "Support");
        }
        other => panic!("unexpected: {:?}", other),
    }
}

#[test]
fn other_new_members_change_nothing() {
    let kind = MessageKind::NewChatMembers {
        new_chat_members: vec![user(Some("dave")), user(None), user(Some("succinctpylonbot"))],
    };
    assert!(matches!(handle_bot_status_change(&notice(kind, None)), BotStatus::Unchanged));
    let kind = MessageKind::NewChatMembers { new_chat_members: vec![] };
    assert!(matches!(handle_bot_status_change(&notice(kind, None)), BotStatus::Unchanged));
}

#[test]
fn bot_that_left_was_removed() {
    let kind = MessageKind::LeftChatMember { left_chat_member: user(Some("SuccinctPylonBot")) };
    match handle_bot_status_change(&notice(kind, None)) {
        BotStatus::Removed { chat_id, chat_title } => {
            assert_eq!(chat_id, -9);
            assert_eq!(chat_title, "");
        }
        other => panic!("unexpected: {:?}", other),
    }
    let kind = MessageKind::LeftChatMember { left_chat_member: user(Some("dave")) };
    assert!(matches!(handle_bot_status_change(&notice(kind, None)), BotStatus::Unchanged));
    let kind = MessageKind::LeftChatMember { left_chat_member: user(None) };
    assert!(matches!(handle_bot_status_change(&notice(kind, None)), BotStatus::Unchanged));
}

#[test]
fn ordinary_messages_change_nothing() {
    assert!(matches!(
        handle_bot_status_change(&notice(MessageKind::Common, Some("Support"))),
        BotStatus::Unchanged
    ));
    assert!(matches!(
        handle_bot_status_change(&notice(MessageKind::Other, Some("Support"))),
        BotStatus::Unchanged
    ));
}

#[test]
fn a_chat_is_private_or_public() {
    let mut m = notice(MessageKind::Common, None);
    assert!(is_public_chat(&m));
    assert!(!is_private_chat(&m));
    m.chat.kind = ChatKind::Private;
    assert!(is_private_chat(&m));
    assert!(!is_public_chat(&m));
}
