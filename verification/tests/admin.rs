use pylon_tg_bot::config::Settings;
use pylon_tg_bot::endpoints::admin::linkage_of;
use pylon_tg_bot::endpoints::{
    is_bot_member, link_chat_to_account, list_accounts, process_admin_command, unlinked_chats,
    wants_account, AdminCommand, AdminStep, ChatStatus, ChatTitle, Linkage, Refusal,
};
use pylon_tg_bot::pylon::GetAccountResponse;
use pylon_tg_bot::telegram::{Chat, ChatKind, ChatMemberStatus, Message, MessageKind, User};

fn settings(chats: &[(&str, &str)], admins: &[&str]) -> Settings {
    let mut s = Settings::default();
    for (chat, account) in chats {
        s.tg_chats_to_pylon_accounts.insert(chat.to_string(), account.to_string());
    }
    for admin in admins {
        s.bot_admins.insert(admin.to_string());
    }
    s
}

fn message(kind: ChatKind, username: Option<&str>) -> Message {
    Message {
        chat: Chat { id: 77, kind, title: None },
        from: Some(User { username: username.map(|u| u.to_string()) }),
        text: Some("/list".to_string()),
        caption: None,
        reply_to_message: None,
        kind: MessageKind::Common,
    }
}

fn account(name: Option<&str>) -> Option<GetAccountResponse> {
    Some(GetAccountResponse { id: Some("id".to_string()), name: name.map(|n| n.to_string()) })
}

fn chat(title: Option<&str>, account_id: &str, account: Option<GetAccountResponse>, member: bool) -> ChatStatus {
    ChatStatus {
        title: title.map(|t| t.to_string()),
        account_id: account_id.to_string(),
        account,
        bot_status: if member { ChatMemberStatus::Member } else { ChatMemberStatus::Left },
    }
}

#[test]
fn admin_command_from_a_non_admin_is_dropped() {
    let s = settings(&[("-1", "")], &["alice"]);
    for cmd in [AdminCommand::Help, AdminCommand::List, AdminCommand::Link] {
        let step = process_admin_command(&message(ChatKind::Private, Some("mallory")), cmd, &s);
        assert!(matches!(step, AdminStep::Dropped(Refusal::NotAdmin)));
        let step = process_admin_command(&message(ChatKind::Private, None), cmd, &s);
        assert!(matches!(step, AdminStep::Dropped(Refusal::NotAdmin)));
        let mut anonymous = message(ChatKind::Private, Some("alice"));
        anonymous.from = None;
        let step = process_admin_command(&anonymous, cmd, &s);
        assert!(matches!(step, AdminStep::Dropped(Refusal::NotAdmin)));
    }
}

#[test]
fn admin_command_in_a_public_chat_is_dropped() {
    let s = settings(&[], &["alice"]);
    let step = process_admin_command(&message(ChatKind::Public, Some("alice")), AdminCommand::List, &s);
    assert!(matches!(step, AdminStep::Dropped(Refusal::NotPrivate)));
    let step = process_admin_command(&message(ChatKind::Public, Some("mallory")), AdminCommand::Help, &s);
    assert!(matches!(step, AdminStep::Dropped(Refusal::NotPrivate)));
}

#[test]
fn admin_command_from_an_admin_counts() {
    let s = settings(&[], &["alice", "bob"]);
    let m = message(ChatKind::Private, Some("bob"));
    assert!(matches!(process_admin_command(&m, AdminCommand::List, &s), AdminStep::ListAccounts));
    assert!(matches!(process_admin_command(&m, AdminCommand::Link, &s), AdminStep::LinkChat));
    match process_admin_command(&m, AdminCommand::Help, &s) {
        AdminStep::Reply(reply) => {
            assert_eq!(reply.chat_id, 77);
            assert_eq!(reply.text, AdminCommand::descriptions());
            assert!(!reply.markdown_v2);
            assert!(reply.keyboard.is_none());
        }
        other => panic!("unexpected: {:?}", other),
    }
}

#[test]
fn members_are_owner_administrator_and_member() {
    assert!(is_bot_member(ChatMemberStatus::Owner));
    assert!(is_bot_member(ChatMemberStatus::Administrator));
    assert!(is_bot_member(ChatMemberStatus::Member));
    assert!(!is_bot_member(ChatMemberStatus::Restricted));
    assert!(!is_bot_member(ChatMemberStatus::Left));
    assert!(!is_bot_member(ChatMemberStatus::Banned));
}

#[test]
fn empty_account_is_never_linked() {
    assert_eq!(linkage_of(&chat(Some("A"), "", None, true)), Linkage::NotLinked);
    assert_eq!(linkage_of(&chat(Some("A"), "", account(Some("Acme")), true)), Linkage::NotLinked);
    assert_eq!(linkage_of(&chat(Some("A"), "acc", account(Some("Acme")), true)), Linkage::Linked);
    assert_eq!(linkage_of(&chat(Some("A"), "acc", None, true)), Linkage::Unknown);
    assert_eq!(linkage_of(&chat(Some("A"), " ", None, true)), Linkage::Unknown);
    assert!(!wants_account(""));
    assert!(wants_account(" "));
    assert!(wants_account("acc"));
}

#[test]
fn report_on_three_chats() {
    let chats = vec![
        chat(Some("Acme (EU)"), "acc1", account(Some("Acme Inc.")), true),
        chat(Some("Beta"), "", account(Some("ignored")), false),
        chat(Some("Gamma"), "acc3", None, true),
    ];
    let reply = list_accounts(77, &chats);
    assert_eq!(reply.chat_id, 77);
    assert!(reply.markdown_v2);
    assert!(reply.keyboard.is_none());
    assert_eq!(
        reply.text,
        "*\u{2705} Chats linked to Pylon accounts*\n \
         \u{2022} Acme \\(EU\\) \u{27a1}\u{fe0f} Acme Inc\\.\n \
         *\u{274c} Chats not linked to Pylon accounts*\n \
         \u{2022} Beta\n \
         *\u{26a0}\u{fe0f} Chats without the bot added*\n \
         \u{2022} Beta\n"
    );
}

#[test]
fn report_without_chats_says_no_data() {
    let reply = list_accounts(1, &vec![]);
    assert_eq!(
        reply.text,
        "*\u{2705} Chats linked to Pylon accounts*\n No data\n *\u{274c} Chats not linked to Pylon accounts*\n No data\n *\u{26a0}\u{fe0f} Chats without the bot added*\n No data\n"
    );
}

#[test]
fn report_keeps_the_order_and_defaults() {
    let chats = vec![
        chat(None, "", None, false),
        chat(Some("B_2"), "b", account(None), false),
        chat(Some("C"), "", None, true),
    ];
    let reply = list_accounts(1, &chats);
    assert_eq!(
        reply.text,
        "*\u{2705} Chats linked to Pylon accounts*\n \u{2022} B\\_2 \u{27a1}\u{fe0f} \n *\u{274c} Chats not linked to Pylon accounts*\n \u{2022} \n\u{2022} C\n *\u{26a0}\u{fe0f} Chats without the bot added*\n \u{2022} \n\u{2022} B\\_2\n"
    );
}

#[test]
fn chats_with_blank_accounts_can_be_linked() {
    let s = settings(&[("-1", "acc"), ("-2", ""), ("-3", "  "), ("-4", " x "), ("-5", "\t")], &[]);
    assert_eq!(unlinked_chats(&s), vec!["-2".to_string(), "-3".to_string(), "-5".to_string()]);
    assert!(unlinked_chats(&Settings::default()).is_empty());
}

#[test]
fn one_button_for_each_chat() {
    let chats = vec![
        ChatTitle { chat_id: "-2".to_string(), title: Some("Beta [test]".to_string()) },
        ChatTitle { chat_id: "-3".to_string(), title: None },
    ];
    let reply = link_chat_to_account(77, &chats);
    assert_eq!(reply.chat_id, 77);
    assert_eq!(reply.text, "Please select a chat to link:");
    assert!(!reply.markdown_v2);
    let rows = reply.keyboard.unwrap();
    assert_eq!(rows.len(), 2);
    assert_eq!(rows[0].len(), 1);
    assert_eq!(rows[0][0].text, "Beta \\[test\\]");
    assert_eq!(rows[0][0].callback_data, "-2");
    assert_eq!(rows[1].len(), 1);
    assert_eq!(rows[1][0].text, "");
    assert_eq!(rows[1][0].callback_data, "-3");
    let none = link_chat_to_account(77, &vec![]);
    assert_eq!(none.keyboard.unwrap().len(), 0);
}

#[test]
fn a_linked_chat_can_no_longer_be_linked() {
    let mut s = settings(&[("-1", ""), ("-2", " "), ("-3", "acc")], &[]);
    assert_eq!(unlinked_chats(&s), vec!["-1".to_string(), "-2".to_string()]);
    s.tg_chats_to_pylon_accounts.insert("-2".to_string(), "acct-42".to_string());
    assert_eq!(unlinked_chats(&s), vec!["-1".to_string()]);
    s.tg_chats_to_pylon_accounts.insert("-9".to_string(), "acct-9".to_string());
    assert_eq!(unlinked_chats(&s), vec!["-1".to_string()]);
    s.tg_chats_to_pylon_accounts.insert("-1".to_string(), "a".to_string());
    assert!(unlinked_chats(&s).is_empty());
}

#[test]
fn the_third_list_goes_by_the_bot_status() {
    let statuses = [
        (ChatMemberStatus::Owner, false),
        (ChatMemberStatus::Administrator, false),
        (ChatMemberStatus::Member, false),
        (ChatMemberStatus::Restricted, true),
        (ChatMemberStatus::Left, true),
        (ChatMemberStatus::Banned, true),
    ];
    for (status, listed) in statuses {
        let chats = vec![ChatStatus {
            title: Some("Acme".to_string()),
            account_id: "acc".to_string(),
            account: account(Some("Acme")),
            bot_status: status,
        }];
        let text = list_accounts(1, &chats).text;
        let third = text.split("added*\n ").nth(1).unwrap();
        assert_eq!(third, if listed { "\u{2022} Acme\n" } else { "No data\n" }, "{:?}", status);
    }
}
