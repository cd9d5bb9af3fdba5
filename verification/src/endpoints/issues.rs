//! The public commands: help, and filing an issue from the message that a command replies to.

use vstd::prelude::*;
use vstd::string::*;
use crate::config::{has_key, value_of, Settings};
use crate::endpoints::grammar::{help_text, public_commands, Command, CommandView};
use crate::markdown::{escape_markdown_v2, escaped};
use crate::pylon::CreateIssueResponse;
use crate::telegram::{
    markdown_message, plain_message, text_or_empty, username_or_empty, Message, OutgoingMessage,
    User,
};
use crate::text::{decimal, decimal_nat, decimal_string, is_blank, owned, push_decimal, trim, trimmed};

verus! {

/// Why a request for an issue led to nothing. None of these is reported to the chat.
#[derive(Debug, Clone, Copy, PartialEq, Eq, Structural)]
pub enum Skipped {
    /// The command does not reply to a message, so there is nothing to file.
    NotAReply,
    /// The message replied to is not a text message.
    NotText,
    /// The chat is not in the settings.
    NoAccount,
}

/// An issue that is ready to be sent to Pylon.
#[derive(Debug)]
pub struct IssueDraft {
    /// The issue's title.
    pub title: String,
    /// The issue's body: the text of the message replied to.
    pub body: String,
    /// The account that the chat is linked to.
    pub account_id: String,
    /// The chat that gets the confirmation.
    pub chat_id: i64,
}

/// What to do about a public command.
#[derive(Debug)]
pub enum CommandStep {
    /// Send this message.
    Reply(OutgoingMessage),
    /// File this issue, then confirm it with [`issue_created`].
    CreateIssue(IssueDraft),
    /// Do nothing and say nothing.
    Nothing(Skipped),
}

/// The key under which the settings hold a chat: its identifier as a decimal numeral.
pub open spec fn chat_key(chat_id: i64) -> Seq<char> {
    decimal(chat_id as int)
}

/// The title of an issue: what the command gave, trimmed, or where that is empty a title made
/// of the requester's username and the chat's title.
pub open spec fn issue_title(given: Seq<char>, username: Seq<char>, chat_title: Seq<char>) -> Seq<
    char,
> {
    if trimmed(given).len() == 0 {
        "New issue from "@ + username + " on "@ + chat_title
    } else {
        trimmed(given)
    }
}

/// The text that confirms an issue, in MarkdownV2: the issue's number, linked to the issue.
/// The link is escaped, so that no character of it is read as markup. A missing number reads
/// as 0, a missing link as the empty text.
pub open spec fn confirmation_text(number: Option<u64>, link: Option<String>) -> Seq<char> {
    "\u{2705} New issue [\\#"@ + decimal_nat(
        match number {
            Some(n) => n as nat,
            None => 0,
        },
    ) + "]("@ + escaped(text_or_empty(link)) + ") created in Pylon"@
}

/// The text behind `text`, or the empty text.
pub fn text_or_default(text: &Option<String>) -> (r: &str)
    ensures
        r@ == text_or_empty(*text),
{
    match text {
        Some(t) => t.as_str(),
        None => {
            proof {
                reveal_strlit("");
            }
            assert(""@ =~= Seq::<char>::empty());
            ""
        },
    }
}

/// The username of `user`, or the empty text where there is no user or no username.
pub fn username_or_default(user: &Option<User>) -> (r: &str)
    ensures
        r@ == username_or_empty(*user),
{
    match user {
        Some(u) => text_or_default(&u.username),
        None => {
            proof {
                reveal_strlit("");
            }
            assert(""@ =~= Seq::<char>::empty());
            ""
        },
    }
}

/// Prepares the issue that `/issue` asks for.
///
/// The command has to reply to a text message of a chat that the settings know: that message's
/// text becomes the body, and the chat's account the issue's account. Anything less ends in
/// `Err`, which costs no call to Pylon and no word to the chat.
pub fn new_issue(title: &str, message: &Message, settings: &Settings) -> (r: Result<
    IssueDraft,
    Skipped,
>)
    ensures
        match message.reply_to_message {
            None => r == Err::<IssueDraft, Skipped>(Skipped::NotAReply),
            Some(replied) => match replied.text {
                None => r == Err::<IssueDraft, Skipped>(Skipped::NotText),
                Some(body) => match value_of(settings@.chats, chat_key(replied.chat_id)) {
                    None => r == Err::<IssueDraft, Skipped>(Skipped::NoAccount),
                    Some(account) => r matches Ok(draft) && draft.title@ == issue_title(
                        title@,
                        username_or_empty(message.from),
                        text_or_empty(message.chat.title),
                    ) && draft.body@ == body@ && draft.account_id@ == account && draft.chat_id
                        == replied.chat_id,
                },
            },
        },
        message.reply_to_message matches Some(replied) && !has_key(
            settings@.chats,
            chat_key(replied.chat_id),
        ) ==> r is Err,
{
    let username = username_or_default(&message.from);
    let chat_title = text_or_default(&message.chat.title);
    let issue_title = if is_blank(title) {
        let mut generated = owned("New issue from ");
        generated.append(username);
        generated.append(" on ");
        generated.append(chat_title);
        generated
    } else {
        trim(title)
    };
    match &message.reply_to_message {
        None => Err(Skipped::NotAReply),
        Some(replied) => match &replied.text {
            None => Err(Skipped::NotText),
            Some(body) => {
                let key = decimal_string(replied.chat_id);
                match settings.tg_chats_to_pylon_accounts.get(key.as_str()) {
                    None => Err(Skipped::NoAccount),
                    Some(account) => Ok(
                        IssueDraft {
                            title: issue_title,
                            body: body.clone(),
                            account_id: owned(account),
                            chat_id: replied.chat_id,
                        },
                    ),
                }
            },
        },
    }
}

/// The message that confirms a created issue to the chat.
pub fn issue_created(chat_id: i64, response: &CreateIssueResponse) -> (r: OutgoingMessage)
    ensures
        r.chat_id == chat_id,
        r.text@ == confirmation_text(response.number, response.link),
        r.markdown_v2,
        r.keyboard is None,
{
    let mut text = owned("\u{2705} New issue [\\#");
    let number: u64 = match response.number {
        Some(n) => n,
        None => 0,
    };
    push_decimal(&mut text, number);
    text.append("](");
    text.append(escape_markdown_v2(text_or_default(&response.link)).as_str());
    text.append(") created in Pylon");
    markdown_message(chat_id, text)
}

/// Decides what a public command leads to: the help text for `/help`, and for `/issue` an issue
/// to file, or nothing where [`new_issue`] finds none to file.
pub fn process_command(message: &Message, cmd: Command, settings: &Settings) -> (r: CommandStep)
    ensures
        match cmd@ {
            CommandView::Help => r matches CommandStep::Reply(reply) && reply.chat_id
                == message.chat.id && reply.text@ == help_text(seq!['/'], public_commands())
                && !reply.markdown_v2 && reply.keyboard is None,
            CommandView::Issue(title) => match message.reply_to_message {
                None => r == CommandStep::Nothing(Skipped::NotAReply),
                Some(replied) => match replied.text {
                    None => r == CommandStep::Nothing(Skipped::NotText),
                    Some(body) => match value_of(settings@.chats, chat_key(replied.chat_id)) {
                        None => r == CommandStep::Nothing(Skipped::NoAccount),
                        Some(account) => r matches CommandStep::CreateIssue(draft) && draft.title@
                            == issue_title(
                            title,
                            username_or_empty(message.from),
                            text_or_empty(message.chat.title),
                        ) && draft.body@ == body@ && draft.account_id@ == account
                            && draft.chat_id == replied.chat_id,
                    },
                },
            },
        },
        cmd@ is Issue ==> (message.reply_to_message matches Some(replied) && !has_key(
            settings@.chats,
            chat_key(replied.chat_id),
        ) ==> r is Nothing),
{
    match cmd {
        Command::Help => CommandStep::Reply(plain_message(message.chat.id, Command::descriptions())),
        Command::Issue(title) => match new_issue(title.as_str(), message, settings) {
            Ok(draft) => CommandStep::CreateIssue(draft),
            Err(skipped) => CommandStep::Nothing(skipped),
        },
    }
}

} // verus!
