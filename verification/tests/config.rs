use pylon_tg_bot::config::{ChatAccounts, Config, LoadError, Reloaded, Settings, Usernames};

fn settings(chats: &[(&str, &str)], admins: &[&str]) -> Settings {
    let mut s = Settings::default();
    for (chat, account) in chats {
        s.tg_chats_to_pylon_accounts.insert(chat.to_string(), account.to_string());
    }
    for admin in admins {
        s.bot_admins.insert(admin.to_string());
    }
    s
}

fn pairs(accounts: &ChatAccounts) -> Vec<(String, String)> {
    accounts.to_vec()
}

#[test]
fn default_settings_are_empty() {
    let s = Settings::default();
    assert_eq!(s.tg_chats_to_pylon_accounts.len(), 0);
    assert_eq!(s.bot_admins.len(), 0);
    assert_eq!(ChatAccounts::new().len(), 0);
    assert_eq!(Usernames::new().len(), 0);
}

#[test]
fn a_chat_occurs_once() {
    let mut a = ChatAccounts::new();
    assert_eq!(a.insert("-100".to_string(), "".to_string()), None);
    assert_eq!(a.insert("-200".to_string(), "acc2".to_string()), None);
    assert_eq!(a.insert("-100".to_string(), "acc1".to_string()), Some("".to_string()));
    assert_eq!(a.len(), 2);
    assert_eq!(
        pairs(&a),
        vec![("-100".to_string(), "acc1".to_string()), ("-200".to_string(), "acc2".to_string())]
    );
}

#[test]
fn unlinked_is_not_unknown() {
    let s = settings(&[("-100", "")], &[]);
    assert_eq!(s.tg_chats_to_pylon_accounts.get("-100"), Some(""));
    assert_eq!(s.tg_chats_to_pylon_accounts.get("-200"), None);
}

#[test]
fn usernames_are_a_set() {
    let mut u = Usernames::new();
    assert!(u.insert("alice".to_string()));
    assert!(u.insert("bob".to_string()));
    assert!(!u.insert("alice".to_string()));
    assert_eq!(u.len(), 2);
    assert!(u.contains("alice"));
    assert!(u.contains("bob"));
    assert!(!u.contains("Alice"));
    assert!(!u.contains(""));
    assert_eq!(u.to_vec(), vec!["alice".to_string(), "bob".to_string()]);
}

#[test]
fn clones_hold_the_same() {
    let s = settings(&[("-100", "acc1"), ("-200", "")], &["alice"]);
    let c = s.clone();
    assert_eq!(pairs(&c.tg_chats_to_pylon_accounts), pairs(&s.tg_chats_to_pylon_accounts));
    assert_eq!(c.bot_admins.to_vec(), s.bot_admins.to_vec());
}

#[test]
fn a_failed_first_read_is_fatal() {
    let r = Config::try_new(
        "./settings.toml".to_string(),
        Err(LoadError { message: "bad toml".to_string() }),
    );
    match r {
        Err(e) => assert_eq!(e.message, "bad toml"),
        Ok(_) => panic!("a store was made"),
    }
}

#[test]
fn get_gives_a_snapshot() {
    let store = Config::try_new("cfg.toml".to_string(), Ok(settings(&[("-100", "acc1")], &["alice"])));
    let mut store = store.ok().unwrap();
    assert_eq!(store.settings_path(), "cfg.toml");
    let mut snapshot = store.get();
    snapshot.tg_chats_to_pylon_accounts.insert("-200".to_string(), "acc2".to_string());
    assert_eq!(store.get().tg_chats_to_pylon_accounts.len(), 1);
    assert!(matches!(store.reload(Ok(settings(&[], &[]))), Reloaded::Replaced));
    assert_eq!(snapshot.tg_chats_to_pylon_accounts.len(), 2);
    assert_eq!(store.get().tg_chats_to_pylon_accounts.len(), 0);
}

#[test]
fn a_failed_reload_keeps_the_settings() {
    let store = Config::try_new("cfg.toml".to_string(), Ok(settings(&[("-100", "acc1")], &["alice"])));
    let mut store = store.ok().unwrap();
    let r = store.reload(Err(LoadError { message: "unreadable".to_string() }));
    match r {
        Reloaded::Kept(reason) => assert_eq!(reason.message, "unreadable"),
        Reloaded::Replaced => panic!("the reload went through"),
    }
    let now = store.get();
    assert_eq!(now.tg_chats_to_pylon_accounts.get("-100"), Some("acc1"));
    assert!(now.bot_admins.contains("alice"));
}

#[test]
fn saved_settings_come_back_on_reload() {
    let store = Config::try_new("cfg.toml".to_string(), Ok(settings(&[("-100", "")], &["alice"])));
    let mut store = store.ok().unwrap();
    let wanted = settings(&[("-100", "acc1"), ("-300", "")], &["alice", "bob"]);
    let request = store.save(wanted.clone());
    assert_eq!(request.path, "cfg.toml");
    assert_eq!(store.get().tg_chats_to_pylon_accounts.get("-100"), Some(""));
    assert!(matches!(store.reload(Ok(request.settings)), Reloaded::Replaced));
    let now = store.get();
    assert_eq!(pairs(&now.tg_chats_to_pylon_accounts), pairs(&wanted.tg_chats_to_pylon_accounts));
    assert_eq!(now.bot_admins.to_vec(), wanted.bot_admins.to_vec());
}

#[test]
fn two_links_from_one_snapshot_lose_the_first() {
    let store = Config::try_new("cfg.toml".to_string(), Ok(settings(&[("-100", ""), ("-200", "")], &[])));
    let mut store = store.ok().unwrap();
    let mut first = store.get();
    let mut second = store.get();
    first.tg_chats_to_pylon_accounts.insert("-100".to_string(), "acc1".to_string());
    second.tg_chats_to_pylon_accounts.insert("-200".to_string(), "acc2".to_string());
    let first_write = store.save(first);
    let second_write = store.save(second);
    assert_eq!(first_write.settings.tg_chats_to_pylon_accounts.get("-100"), Some("acc1"));
    let file = second_write.settings;
    assert!(matches!(store.reload(Ok(file)), Reloaded::Replaced));
    let now = store.get();
    assert_eq!(now.tg_chats_to_pylon_accounts.get("-200"), Some("acc2"));
    assert_eq!(now.tg_chats_to_pylon_accounts.get("-100"), Some(""));
}
