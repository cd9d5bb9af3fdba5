//! What the bot does with each kind of update.

pub mod admin;
pub mod dialogue;
pub mod grammar;
pub mod issues;
pub mod membership;

pub use admin::{
    is_bot_member, link_chat_to_account, list_accounts, process_admin_command, unlinked_chats,
    wants_account, AdminStep, ChatStatus, ChatTitle, Linkage, Refusal,
};
pub use dialogue::{
    account_id_input, handle_account_id_input, handle_callback, CallbackStep, LinkStep, State,
};
pub use crate::markdown::escape_markdown_v2;
pub use grammar::{AdminCommand, Command, CommandInfo, ParseError};
pub use issues::{issue_created, new_issue, process_command, CommandStep, IssueDraft, Skipped};
pub use membership::{
    handle_bot_status_change, is_private_chat, is_public_chat, BotStatus, BOT_USERNAME,
};
