//! The admin commands: help, the list of chats, and the choice of a chat to link.

use vstd::prelude::*;
use vstd::string::*;
use crate::config::{
    key_index, keys_distinct, lemma_key_index, lemma_with_pair, with_pair, Pair, Settings,
    SettingsView,
};
use crate::endpoints::grammar::{admin_commands, help_text, AdminCommand};
use crate::endpoints::issues::text_or_default;
use crate::markdown::{escape_markdown_v2, escaped};
use crate::pylon::GetAccountResponse;
use crate::telegram::{
    markdown_message, plain_message, sender_username, text_or_empty, Button, ChatKind,
    ChatMemberStatus, Message, OutgoingMessage,
};
use crate::text::{all_space, is_blank, owned};

verus! {

/// Why an admin command was dropped. A dropped command gets no reply.
#[derive(Debug, Clone, Copy, PartialEq, Eq, Structural)]
pub enum Refusal {
    /// The command did not come from a private chat with the bot.
    NotPrivate,
    /// The sender is not on the list of admins.
    NotAdmin,
}

/// What to do about an admin command.
#[derive(Debug)]
pub enum AdminStep {
    /// Do nothing and say nothing.
    Dropped(Refusal),
    /// Send this message.
    Reply(OutgoingMessage),
    /// Gather what [`list_accounts`] needs and send what it gives.
    ListAccounts,
    /// Gather what [`link_chat_to_account`] needs and send what it gives.
    LinkChat,
}

/// Whether the sender of `message` is on the settings' list of admins. A message without a
/// sender, or from a user without a username, is from no admin.
pub open spec fn from_admin(message: Message, settings: SettingsView) -> bool {
    sender_username(message) matches Some(name) && settings.admins.contains(name)
}

/// Exec counterpart of [`from_admin`].
pub fn is_from_admin(message: &Message, settings: &Settings) -> (r: bool)
    ensures
        r == from_admin(*message, settings@),
{
    match &message.from {
        None => false,
        Some(user) => match &user.username {
            None => false,
            Some(name) => settings.bot_admins.contains(name.as_str()),
        },
    }
}

/// Decides what an admin command leads to.
///
/// A command from a public chat is dropped, whoever sent it. So is one whose sender is not on
/// the list of admins. Only then does the command count.
pub fn process_admin_command(message: &Message, cmd: AdminCommand, settings: &Settings) -> (r:
    AdminStep)
    ensures
        message.chat.kind == ChatKind::Public ==> r == AdminStep::Dropped(Refusal::NotPrivate),
        message.chat.kind != ChatKind::Public && !from_admin(*message, settings@) ==> r
            == AdminStep::Dropped(Refusal::NotAdmin),
        message.chat.kind != ChatKind::Public && from_admin(*message, settings@) ==> match cmd {
            AdminCommand::Help => r matches AdminStep::Reply(reply) && reply.chat_id
                == message.chat.id && reply.text@ == help_text(seq!['/'], admin_commands())
                && !reply.markdown_v2 && reply.keyboard is None,
            AdminCommand::List => r == AdminStep::ListAccounts,
            AdminCommand::Link => r == AdminStep::LinkChat,
        },
        !from_admin(*message, settings@) ==> r is Dropped,
{
    match message.chat.kind {
        ChatKind::Public => {
            return AdminStep::Dropped(Refusal::NotPrivate);
        },
        ChatKind::Private => {},
    }
    if !is_from_admin(message, settings) {
        return AdminStep::Dropped(Refusal::NotAdmin);
    }
    match cmd {
        AdminCommand::Help => AdminStep::Reply(
            plain_message(message.chat.id, AdminCommand::descriptions()),
        ),
        AdminCommand::List => AdminStep::ListAccounts,
        AdminCommand::Link => AdminStep::LinkChat,
    }
}

/// Whether a user with this status counts as being in the chat: its owner, an administrator or
/// a member.
pub open spec fn counts_as_member(status: ChatMemberStatus) -> bool {
    status == ChatMemberStatus::Owner || status == ChatMemberStatus::Administrator || status
        == ChatMemberStatus::Member
}

/// Whether a user with this status counts as being in the chat.
pub fn is_bot_member(status: ChatMemberStatus) -> (r: bool)
    ensures
        r == counts_as_member(status),
{
    match status {
        ChatMemberStatus::Owner | ChatMemberStatus::Administrator | ChatMemberStatus::Member => true,
        _ => false,
    }
}

/// What is known of one chat of the settings when the chats are listed.
#[derive(Debug)]
pub struct ChatStatus {
    /// The chat's title, as Telegram gives it now.
    pub title: Option<String>,
    /// The account that the settings hold for the chat.
    pub account_id: String,
    /// The account as Pylon knows it. Only looked at where the account is not empty.
    pub account: Option<GetAccountResponse>,
    /// What the bot is in the chat.
    pub bot_status: ChatMemberStatus,
}

/// Where a chat goes in the list.
#[derive(Debug, Clone, Copy, PartialEq, Eq, Structural)]
pub enum Linkage {
    /// The chat has an account, and Pylon knows it.
    Linked,
    /// The chat's account is empty.
    NotLinked,
    /// The chat has an account that Pylon does not know. Such a chat is in neither list.
    Unknown,
}

/// Where `chat` goes in the list.
pub open spec fn linkage(chat: ChatStatus) -> Linkage {
    if chat.account_id@.len() == 0 {
        Linkage::NotLinked
    } else if chat.account is Some {
        Linkage::Linked
    } else {
        Linkage::Unknown
    }
}

/// Whether Pylon has to be asked about the account of a chat: not for an empty account.
pub fn wants_account(account_id: &str) -> (r: bool)
    ensures
        r == (account_id@.len() != 0),
{
    !account_id.is_empty()
}

/// Where `chat` goes in the list. A chat with an empty account is never linked, whatever is
/// known of any account.
pub fn linkage_of(chat: &ChatStatus) -> (r: Linkage)
    ensures
        r == linkage(*chat),
        chat.account_id@.len() == 0 ==> r == Linkage::NotLinked,
{
    if !wants_account(chat.account_id.as_str()) {
        Linkage::NotLinked
    } else if chat.account.is_some() {
        Linkage::Linked
    } else {
        Linkage::Unknown
    }
}

/// One line of a list: a bullet and the escaped title.
pub open spec fn bullet(title: Seq<char>) -> Seq<char> {
    "\u{2022} "@ + escaped(title) + "\n"@
}

/// One line of the list of linked chats: a bullet, the escaped title, an arrow and the escaped
/// name of the account.
pub open spec fn linked_bullet(title: Seq<char>, account: Seq<char>) -> Seq<char> {
    "\u{2022} "@ + escaped(title) + " \u{27a1}\u{fe0f} "@ + escaped(account) + "\n"@
}

/// The name of the account that was found for a chat, or the empty text.
pub open spec fn account_name(account: Option<GetAccountResponse>) -> Seq<char> {
    match account {
        Some(a) => text_or_empty(a.name),
        None => Seq::empty(),
    }
}

/// What `chat` adds to the list of linked chats.
pub open spec fn linked_part(chat: ChatStatus) -> Seq<char> {
    if linkage(chat) == Linkage::Linked {
        linked_bullet(text_or_empty(chat.title), account_name(chat.account))
    } else {
        Seq::empty()
    }
}

/// What `chat` adds to the list of chats that are not linked.
pub open spec fn not_linked_part(chat: ChatStatus) -> Seq<char> {
    if linkage(chat) == Linkage::NotLinked {
        bullet(text_or_empty(chat.title))
    } else {
        Seq::empty()
    }
}

/// What `chat` adds to the list of chats that the bot is not in.
pub open spec fn absent_part(chat: ChatStatus) -> Seq<char> {
    if !counts_as_member(chat.bot_status) {
        bullet(text_or_empty(chat.title))
    } else {
        Seq::empty()
    }
}

/// The list of linked chats.
pub open spec fn linked_table(chats: Seq<ChatStatus>) -> Seq<char>
    decreases chats.len(),
{
    if chats.len() == 0 {
        Seq::empty()
    } else {
        linked_table(chats.drop_last()) + linked_part(chats.last())
    }
}

/// The list of chats that are not linked.
pub open spec fn not_linked_table(chats: Seq<ChatStatus>) -> Seq<char>
    decreases chats.len(),
{
    if chats.len() == 0 {
        Seq::empty()
    } else {
        not_linked_table(chats.drop_last()) + not_linked_part(chats.last())
    }
}

/// The list of chats that the bot is not in.
pub open spec fn absent_table(chats: Seq<ChatStatus>) -> Seq<char>
    decreases chats.len(),
{
    if chats.len() == 0 {
        Seq::empty()
    } else {
        absent_table(chats.drop_last()) + absent_part(chats.last())
    }
}

/// A list as the report shows it: the list, or a marker where it is empty.
pub open spec fn or_no_data(table: Seq<char>) -> Seq<char> {
    if table.len() == 0 {
        "No data\n"@
    } else {
        table
    }
}

/// The report on all chats: three headed lists, in MarkdownV2.
pub open spec fn accounts_report(chats: Seq<ChatStatus>) -> Seq<char> {
    "*\u{2705} Chats linked to Pylon accounts*\n "@ + or_no_data(linked_table(chats))
        + " *\u{274c} Chats not linked to Pylon accounts*\n "@ + or_no_data(
        not_linked_table(chats),
    ) + " *\u{26a0}\u{fe0f} Chats without the bot added*\n "@ + or_no_data(absent_table(chats))
}

/// The lists of a run of chats are the lists of its parts, one after the other.
pub proof fn lemma_tables_concat(a: Seq<ChatStatus>, b: Seq<ChatStatus>)
    ensures
        linked_table(a + b) == linked_table(a) + linked_table(b),
        not_linked_table(a + b) == not_linked_table(a) + not_linked_table(b),
        absent_table(a + b) == absent_table(a) + absent_table(b),
    decreases b.len(),
{
    if b.len() == 0 {
        assert(a + b == a);
        assert(linked_table(a) + Seq::<char>::empty() == linked_table(a));
        assert(not_linked_table(a) + Seq::<char>::empty() == not_linked_table(a));
        assert(absent_table(a) + Seq::<char>::empty() == absent_table(a));
    } else {
        assert((a + b).drop_last() == a + b.drop_last());
        assert((a + b).last() == b.last());
        lemma_tables_concat(a, b.drop_last());
        assert((linked_table(a) + linked_table(b.drop_last())) + linked_part(b.last())
            == linked_table(a) + (linked_table(b.drop_last()) + linked_part(b.last())));
        assert((not_linked_table(a) + not_linked_table(b.drop_last())) + not_linked_part(b.last())
            == not_linked_table(a) + (not_linked_table(b.drop_last()) + not_linked_part(
            b.last(),
        )));
        assert((absent_table(a) + absent_table(b.drop_last())) + absent_part(b.last())
            == absent_table(a) + (absent_table(b.drop_last()) + absent_part(b.last())));
    }
}

/// A chat with an empty account is listed among the chats that are not linked, with its own
/// line in its own place, and adds nothing to the list of linked chats: that list is what it
/// would be without the chat.
pub proof fn lemma_empty_account_is_not_linked(
    before: Seq<ChatStatus>,
    chat: ChatStatus,
    after: Seq<ChatStatus>,
)
    requires
        chat.account_id@.len() == 0,
    ensures
        linkage(chat) == Linkage::NotLinked,
        linked_table(before + seq![chat] + after) == linked_table(before + after),
        not_linked_table(before + seq![chat] + after) == not_linked_table(before) + bullet(
            text_or_empty(chat.title),
        ) + not_linked_table(after),
{
    let one = seq![chat];
    assert(one.drop_last() == Seq::<ChatStatus>::empty());
    assert(one.last() == chat);
    assert(linked_table(one.drop_last()) == Seq::<char>::empty());
    assert(not_linked_table(one.drop_last()) == Seq::<char>::empty());
    assert(linked_table(one) == Seq::<char>::empty());
    assert(not_linked_table(one) == bullet(text_or_empty(chat.title)));
    lemma_tables_concat(before, one);
    lemma_tables_concat(before + one, after);
    lemma_tables_concat(before, after);
    assert(linked_table(before) + Seq::<char>::empty() == linked_table(before));
}

fn push_bullet(table: &mut String, title: &str)
    ensures
        final(table)@ == old(table)@ + bullet(title@),
{
    let escaped_title = escape_markdown_v2(title);
    table.append("\u{2022} ");
    table.append(escaped_title.as_str());
    table.append("\n");
}

fn or_marker(table: String) -> (r: String)
    ensures
        r@ == or_no_data(table@),
{
    if table.as_str().is_empty() {
        owned("No data\n")
    } else {
        table
    }
}

/// The report that `/list` sends to `chat_id`: the chats that are linked, each with the name of
/// its account; the chats that are not linked; and the chats that the bot is not in. Titles and
/// names are escaped, and an empty list reads "No data".
pub fn list_accounts(chat_id: i64, chats: &Vec<ChatStatus>) -> (r: OutgoingMessage)
    ensures
        r.chat_id == chat_id,
        r.text@ == accounts_report(chats@),
        r.markdown_v2,
        r.keyboard is None,
{
    let mut linked = String::new();
    let mut not_linked = String::new();
    let mut absent = String::new();
    let mut i: usize = 0;
    while i < chats.len()
        invariant
            i <= chats.len(),
            linked@ == linked_table(chats@.take(i as int)),
            not_linked@ == not_linked_table(chats@.take(i as int)),
            absent@ == absent_table(chats@.take(i as int)),
        decreases chats.len() - i,
    {
        let chat = &chats[i];
        let title = text_or_default(&chat.title);
        proof {
            let next = chats@.take(i + 1);
            assert(next.drop_last() == chats@.take(i as int));
            assert(next.last() == *chat);
        }
        match linkage_of(chat) {
            Linkage::NotLinked => {
                push_bullet(&mut not_linked, title);
                assert(linked@ + Seq::<char>::empty() == linked@);
            },
            Linkage::Linked => {
                let name = match &chat.account {
                    Some(account) => text_or_default(&account.name),
                    None => "",
                };
                let escaped_title = escape_markdown_v2(title);
                let escaped_name = escape_markdown_v2(name);
                linked.append("\u{2022} ");
                linked.append(escaped_title.as_str());
                linked.append(" \u{27a1}\u{fe0f} ");
                linked.append(escaped_name.as_str());
                linked.append("\n");
                assert(not_linked@ + Seq::<char>::empty() == not_linked@);
            },
            Linkage::Unknown => {
                assert(linked@ + Seq::<char>::empty() == linked@);
                assert(not_linked@ + Seq::<char>::empty() == not_linked@);
            },
        }
        if !is_bot_member(chat.bot_status) {
            push_bullet(&mut absent, title);
        } else {
            assert(absent@ + Seq::<char>::empty() == absent@);
        }
        i += 1;
    }
    assert(chats@.take(chats.len() as int) == chats@);
    let mut text = owned("*\u{2705} Chats linked to Pylon accounts*\n ");
    text.append(or_marker(linked).as_str());
    text.append(" *\u{274c} Chats not linked to Pylon accounts*\n ");
    text.append(or_marker(not_linked).as_str());
    text.append(" *\u{26a0}\u{fe0f} Chats without the bot added*\n ");
    text.append(or_marker(absent).as_str());
    markdown_message(chat_id, text)
}

/// The chats of `chats` whose account is empty or all whitespace, in order.
pub open spec fn unlinked(chats: Seq<Pair>) -> Seq<Seq<char>>
    decreases chats.len(),
{
    if chats.len() == 0 {
        Seq::empty()
    } else if all_space(chats.last().1) {
        unlinked(chats.drop_last()).push(chats.last().0)
    } else {
        unlinked(chats.drop_last())
    }
}

/// A chat can be linked exactly when the settings hold it with an account that is empty or all
/// whitespace.
pub proof fn lemma_unlinked_members(chats: Seq<Pair>, chat: Seq<char>)
    ensures
        unlinked(chats).contains(chat) <==> exists|i: int|
            0 <= i < chats.len() && (#[trigger] chats[i]).0 == chat && all_space(chats[i].1),
    decreases chats.len(),
{
    if chats.len() > 0 {
        let init = chats.drop_last();
        let last = chats.last();
        lemma_unlinked_members(init, chat);
        if unlinked(chats).contains(chat) {
            if unlinked(init).contains(chat) {
                let i = choose|i: int|
                    0 <= i < init.len() && (#[trigger] init[i]).0 == chat && all_space(init[i].1);
                assert(chats[i] == init[i]);
            } else {
                assert(all_space(last.1));
                let at = choose|k: int|
                    0 <= k < unlinked(chats).len() && unlinked(chats)[k] == chat;
                if at < unlinked(init).len() {
                    assert(unlinked(init)[at] == chat);
                }
                assert(chats[chats.len() - 1].0 == chat);
            }
        }
        if exists|i: int|
            0 <= i < chats.len() && (#[trigger] chats[i]).0 == chat && all_space(chats[i].1) {
            let i = choose|i: int|
                0 <= i < chats.len() && (#[trigger] chats[i]).0 == chat && all_space(chats[i].1);
            if i < init.len() {
                assert(init[i] == chats[i]);
                assert(unlinked(init).contains(chat));
                let at = choose|k: int|
                    0 <= k < unlinked(init).len() && unlinked(init)[k] == chat;
                assert(unlinked(chats)[at] == chat);
            } else {
                assert(unlinked(chats).last() == chat);
            }
        }
    }
}

/// Once a chat is linked to an account that is more than whitespace, it is no longer among the
/// chats that can be linked.
pub proof fn lemma_linked_chat_is_settled(chats: Seq<Pair>, chat: Seq<char>, account: Seq<char>)
    requires
        keys_distinct(chats),
        !all_space(account),
    ensures
        !unlinked(with_pair(chats, chat, account)).contains(chat),
{
    let after = with_pair(chats, chat, account);
    lemma_with_pair(chats, chat, account, chat);
    lemma_unlinked_members(after, chat);
    lemma_key_index(after, chat, 0);
    let at = key_index(after, chat, 0);
    assert forall|i: int| 0 <= i < after.len() && (#[trigger] after[i]).0 == chat implies !all_space(
        after[i].1,
    ) by {
        if i != at {
            if i < at {
                assert(after[i].0 != after[at].0);
            } else {
                assert(after[at].0 != after[i].0);
            }
        }
    }
}

/// The chats that can be linked: those whose account is empty or all whitespace, in the order
/// of the settings.
pub fn unlinked_chats(settings: &Settings) -> (r: Vec<String>)
    ensures
        crate::text::views(r@) == unlinked(settings@.chats),
{
    let accounts = &settings.tg_chats_to_pylon_accounts;
    let mut r: Vec<String> = Vec::new();
    let mut i: usize = 0;
    let n = accounts.len();
    while i < n
        invariant
            i <= n,
            n == accounts@.len(),
            crate::text::views(r@) == unlinked(accounts@.take(i as int)),
        decreases n - i,
    {
        proof {
            let next = accounts@.take(i + 1);
            assert(next.drop_last() == accounts@.take(i as int));
            assert(next.last() == accounts@[i as int]);
        }
        if is_blank(accounts.account_id(i)) {
            let ghost before = crate::text::views(r@);
            let chat = owned(accounts.chat_id(i));
            r.push(chat);
            assert(crate::text::views(r@) =~= before.push(chat@));
        }
        i += 1;
    }
    assert(accounts@.take(n as int) == accounts@);
    r
}

/// A chat that can be linked, with the title that Telegram gives for it now.
#[derive(Debug)]
pub struct ChatTitle {
    /// The chat's identifier, as the settings hold it.
    pub chat_id: String,
    /// The chat's title.
    pub title: Option<String>,
}

/// The question that `/link` sends to `chat_id`: which chat to link, with one button for each
/// chat of `chats`. A button shows the chat's escaped title and carries the chat's identifier.
pub fn link_chat_to_account(chat_id: i64, chats: &Vec<ChatTitle>) -> (r: OutgoingMessage)
    ensures
        r.chat_id == chat_id,
        r.text@ == "Please select a chat to link:"@,
        !r.markdown_v2,
        r.keyboard matches Some(rows) && rows@.len() == chats@.len() && forall|i: int|
            0 <= i < chats@.len() ==> (#[trigger] rows@[i])@.len() == 1 && rows@[i]@[0].text@
                == escaped(text_or_empty(chats@[i].title)) && rows@[i]@[0].callback_data@
                == chats@[i].chat_id@,
{
    let mut rows: Vec<Vec<Button>> = Vec::new();
    let mut i: usize = 0;
    while i < chats.len()
        invariant
            i <= chats.len(),
            rows@.len() == i,
            forall|k: int|
                0 <= k < i ==> (#[trigger] rows@[k])@.len() == 1 && rows@[k]@[0].text@ == escaped(
                    text_or_empty(chats@[k].title),
                ) && rows@[k]@[0].callback_data@ == chats@[k].chat_id@,
        decreases chats.len() - i,
    {
        let chat = &chats[i];
        let mut row: Vec<Button> = Vec::new();
        row.push(
            Button {
                text: escape_markdown_v2(text_or_default(&chat.title)),
                callback_data: chat.chat_id.clone(),
            },
        );
        rows.push(row);
        i += 1;
    }
    OutgoingMessage {
        chat_id,
        text: owned("Please select a chat to link:"),
        markdown_v2: false,
        keyboard: Some(rows),
    }
}

} // verus!
