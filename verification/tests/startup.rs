use pylon_tg_bot::cli::{Args, DEFAULT_SETTINGS_PATH};
use pylon_tg_bot::watcher::{on_watch_event, WatchAction, WatchEvent};

#[test]
fn settings_path_defaults() {
    let args = Args { pylon_api_token: "SECRET-REDACTED".to_string(), settings_path: None };
    assert_eq!(args.settings_path_or_default(), "./settings.toml");
    assert_eq!(DEFAULT_SETTINGS_PATH, "./settings.toml");
    let args = Args {
        pylon_api_token: "SECRET-REDACTED".to_string(),
        settings_path: Some("/etc/bot.toml".to_string()),
    };
    assert_eq!(args.settings_path_or_default(), "/etc/bot.toml");
}

#[test]
fn watcher_reloads_on_modification_only() {
    assert_eq!(on_watch_event(WatchEvent::Changed { modified: true }), WatchAction::Reload);
    assert_eq!(on_watch_event(WatchEvent::Changed { modified: false }), WatchAction::Wait);
    assert_eq!(on_watch_event(WatchEvent::Failed), WatchAction::Report);
    assert_eq!(on_watch_event(WatchEvent::Cancelled), WatchAction::Stop);
}
