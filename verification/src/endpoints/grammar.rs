//! The two command grammars: what users may say in a group, and what admins may say in private.

use vstd::prelude::*;
use teloxide::utils::command::{CommandDescription, CommandDescriptions};
use crate::text::{find, find_char, from_chars, joined, to_chars};

verus! {

/// What a user can ask for in a group chat.
#[derive(Debug)]
pub enum Command {
    /// Display the help text.
    Help,
    /// Create an issue, with the title that follows the command, if any.
    Issue(String),
}

/// What an admin can ask for in a private chat with the bot.
#[derive(Debug, Clone, Copy, PartialEq, Eq, Structural)]
pub enum AdminCommand {
    /// Display the help text.
    Help,
    /// List all chats.
    List,
    /// Link a chat to a Pylon account.
    Link,
}

/// Why a text is not a command of a grammar.
#[derive(Debug)]
pub enum ParseError {
    /// The first word is not a command of the grammar.
    UnknownCommand(String),
    /// The command is addressed to another bot.
    WrongBotName(String),
}

/// A [`Command`] as plain values.
pub enum CommandView {
    /// Display the help text.
    Help,
    /// Create an issue.
    Issue(Seq<char>),
}

/// A [`ParseError`] as plain values.
pub enum ParseErrorView {
    /// The first word is not a command of the grammar.
    UnknownCommand(Seq<char>),
    /// The command is addressed to another bot.
    WrongBotName(Seq<char>),
}

impl View for Command {
    type V = CommandView;

    open spec fn view(&self) -> CommandView {
        match self {
            Command::Help => CommandView::Help,
            Command::Issue(title) => CommandView::Issue(title@),
        }
    }
}

impl Clone for Command {
    /// A copy of the command, with a copy of its title.
    fn clone(&self) -> (r: Self)
        ensures
            r@ == self@,
    {
        match self {
            Command::Help => Command::Help,
            Command::Issue(title) => Command::Issue(title.clone()),
        }
    }
}

impl View for ParseError {
    type V = ParseErrorView;

    open spec fn view(&self) -> ParseErrorView {
        match self {
            ParseError::UnknownCommand(word) => ParseErrorView::UnknownCommand(word@),
            ParseError::WrongBotName(name) => ParseErrorView::WrongBotName(name@),
        }
    }
}

/// The text up to the first space: the command, with the bot's name where one is given.
pub open spec fn first_word(text: Seq<char>) -> Seq<char> {
    text.take(find(text, ' ', 0))
}

/// The text behind the first space, as it stands; empty where there is no space.
pub open spec fn arguments(text: Seq<char>) -> Seq<char> {
    if find(text, ' ', 0) < text.len() {
        text.skip(find(text, ' ', 0) + 1)
    } else {
        Seq::empty()
    }
}

/// The part of the first word before its first `@`.
pub open spec fn command_word(text: Seq<char>) -> Seq<char> {
    first_word(text).take(find(first_word(text), '@', 0))
}

/// The bot that the command is addressed to: what stands between the first `@` of the first
/// word and its next `@` or its end.
pub open spec fn addressee(text: Seq<char>) -> Option<Seq<char>> {
    let word = first_word(text);
    let at = find(word, '@', 0);
    if at < word.len() {
        Some(word.subrange(at + 1, find(word, '@', at + 1)))
    } else {
        None
    }
}

/// Whether `c` is one of `A` to `Z`.
pub open spec fn is_ascii_upper(c: char) -> bool {
    'A' <= c <= 'Z'
}

/// Whether two characters are the same but for the case of an ASCII letter.
pub open spec fn same_letter(a: char, b: char) -> bool {
    a == b || (is_ascii_upper(a) && b as u32 == a as u32 + 32) || (is_ascii_upper(b) && a as u32
        == b as u32 + 32)
}

/// Whether two texts are the same but for the case of their ASCII letters.
pub open spec fn same_ignoring_ascii_case(a: Seq<char>, b: Seq<char>) -> bool {
    a.len() == b.len() && forall|i: int| 0 <= i < a.len() ==> same_letter(#[trigger] a[i], b[i])
}

/// The command word and the arguments of `text`, unless `text` is addressed to a bot other
/// than `bot_name`.
pub open spec fn split_command(text: Seq<char>, bot_name: Seq<char>) -> Result<
    (Seq<char>, Seq<char>),
    ParseErrorView,
> {
    match addressee(text) {
        Some(name) if !same_ignoring_ascii_case(name, bot_name) => Err(
            ParseErrorView::WrongBotName(name),
        ),
        _ => Ok((command_word(text), arguments(text))),
    }
}

/// Whether `word` asks for help: `/help` or one of its short forms.
pub open spec fn is_help_word(word: Seq<char>) -> bool {
    word == "/help"@ || word == "/h"@ || word == "/?"@
}

/// What `text` means in the public grammar.
pub open spec fn parse_command(text: Seq<char>, bot_name: Seq<char>) -> Result<
    CommandView,
    ParseErrorView,
> {
    match split_command(text, bot_name) {
        Err(e) => Err(e),
        Ok((word, rest)) => if is_help_word(word) {
            Ok(CommandView::Help)
        } else if word == "/issue"@ {
            Ok(CommandView::Issue(rest))
        } else {
            Err(ParseErrorView::UnknownCommand(word))
        },
    }
}

/// What `text` means in the admin grammar.
pub open spec fn parse_admin_command(text: Seq<char>, bot_name: Seq<char>) -> Result<
    AdminCommand,
    ParseErrorView,
> {
    match split_command(text, bot_name) {
        Err(e) => Err(e),
        Ok((word, rest)) => if is_help_word(word) {
            Ok(AdminCommand::Help)
        } else if word == "/list"@ {
            Ok(AdminCommand::List)
        } else if word == "/link"@ {
            Ok(AdminCommand::Link)
        } else {
            Err(ParseErrorView::UnknownCommand(word))
        },
    }
}

/// The view of a parse result.
pub open spec fn command_result(r: Result<Command, ParseError>) -> Result<
    CommandView,
    ParseErrorView,
> {
    match r {
        Ok(c) => Ok(c@),
        Err(e) => Err(e@),
    }
}

/// The view of a parse result of the admin grammar.
pub open spec fn admin_result(r: Result<AdminCommand, ParseError>) -> Result<
    AdminCommand,
    ParseErrorView,
> {
    match r {
        Ok(c) => Ok(c),
        Err(e) => Err(e@),
    }
}

/// One command as the help text shows it.
#[derive(Debug)]
pub struct CommandInfo {
    /// The command's name, without the `/`.
    pub command: &'static str,
    /// Its short forms, without the `/`.
    pub aliases: Vec<&'static str>,
    /// What it does, in a sentence.
    pub description: &'static str,
}

/// A [`CommandInfo`] as plain values.
pub struct CommandInfoView {
    /// The command's name, without the `/`.
    pub command: Seq<char>,
    /// Its short forms, without the `/`.
    pub aliases: Seq<Seq<char>>,
    /// What it does, in a sentence.
    pub description: Seq<char>,
}

impl View for CommandInfo {
    type V = CommandInfoView;

    open spec fn view(&self) -> CommandInfoView {
        CommandInfoView {
            command: self.command@,
            aliases: self.aliases@.map_values(|a: &'static str| a@),
            description: self.description@,
        }
    }
}

/// The short forms of a command as the help text lists them: each behind a comma and a space,
/// with the prefix before it.
pub open spec fn alias_list(prefix: Seq<char>, aliases: Seq<Seq<char>>) -> Seq<char>
    decreases aliases.len(),
{
    if aliases.len() == 0 {
        Seq::empty()
    } else {
        alias_list(prefix, aliases.drop_last()) + seq![',', ' '] + prefix + aliases.last()
    }
}

/// The line of the help text for one command: the command, its short forms, and behind a dash
/// the description, where there is one.
pub open spec fn command_line(prefix: Seq<char>, info: CommandInfoView) -> Seq<char> {
    prefix + info.command + alias_list(prefix, info.aliases) + if info.description.len() > 0 {
        seq![' ', '\u{2014}', ' '] + info.description
    } else {
        Seq::empty()
    }
}

/// The help text for `commands`: one line for each, in order.
pub open spec fn help_text(prefix: Seq<char>, commands: Seq<CommandInfoView>) -> Seq<char> {
    joined(commands.map_values(|c: CommandInfoView| command_line(prefix, c)), seq!['\n'])
}

/// The commands of the public grammar, as the help text shows them.
pub open spec fn public_commands() -> Seq<CommandInfoView> {
    seq![
        CommandInfoView {
            command: "help"@,
            aliases: seq!["h"@, "?"@],
            description: "Display this text."@,
        },
        CommandInfoView {
            command: "issue"@,
            aliases: Seq::empty(),
            description: "Create an issue."@,
        },
    ]
}

/// The commands of the admin grammar, as the help text shows them.
pub open spec fn admin_commands() -> Seq<CommandInfoView> {
    seq![
        CommandInfoView {
            command: "help"@,
            aliases: seq!["h"@, "?"@],
            description: "Display this text."@,
        },
        CommandInfoView {
            command: "list"@,
            aliases: Seq::empty(),
            description: "List all chats."@,
        },
        CommandInfoView {
            command: "link"@,
            aliases: Seq::empty(),
            description: "Link a chat to a Pylon account."@,
        },
    ]
}

/// The views of `commands`.
pub open spec fn info_views(commands: Seq<CommandInfo>) -> Seq<CommandInfoView> {
    commands.map_values(|c: CommandInfo| c@)
}

/// Renders `commands` with teloxide's `CommandDescriptions`, made by `CommandDescriptions::new`
/// and written out by its `Display`.
///
/// The contract is taken on trust from teloxide's source: `Display` writes the commands in
/// order with a line feed between each two; each command as the prefix and its name, then each
/// short form behind `, ` with the prefix before it, then ` — ` and the description unless the
/// description is empty. Made by `new`, the descriptions carry no bot name and no heading.
#[verifier::external_body]
fn render_descriptions(prefix: &str, commands: &Vec<CommandInfo>) -> (r: String)
    ensures
        r@ == help_text(prefix@, info_views(commands@)),
{
    let items: Vec<CommandDescription> = commands.iter().map(
        |c| CommandDescription {
            prefix,
            command: c.command,
            aliases: &c.aliases,
            description: c.description,
        },
    ).collect();
    CommandDescriptions::new(&items).to_string()
}

fn help_info() -> (r: CommandInfo)
    ensures
        r@ == public_commands()[0],
{
    let mut aliases: Vec<&'static str> = Vec::new();
    aliases.push("h");
    aliases.push("?");
    let r = CommandInfo { command: "help", aliases, description: "Display this text." };
    assert(r@.aliases =~= seq!["h"@, "?"@]);
    r
}

fn plain_info(command: &'static str, description: &'static str) -> (r: CommandInfo)
    ensures
        r@ == (CommandInfoView {
            command: command@,
            aliases: Seq::empty(),
            description: description@,
        }),
{
    let r = CommandInfo { command, aliases: Vec::new(), description };
    assert(r@.aliases =~= Seq::<Seq<char>>::empty());
    r
}

fn slice(v: &Vec<char>, from: usize, to: usize) -> (r: Vec<char>)
    requires
        from <= to <= v.len(),
    ensures
        r@ == v@.subrange(from as int, to as int),
{
    let mut r: Vec<char> = Vec::new();
    let mut i: usize = from;
    while i < to
        invariant
            from <= i <= to <= v.len(),
            r@ == v@.subrange(from as int, i as int),
        decreases to - i,
    {
        r.push(v[i]);
        i += 1;
    }
    r
}

fn string_of(v: &Vec<char>) -> (s: String)
    ensures
        s@ == v@,
{
    assert(v@.subrange(0, v@.len() as int) == v@);
    from_chars(v, 0, v.len())
}

fn is_upper(c: char) -> (r: bool)
    ensures
        r == is_ascii_upper(c),
{
    'A' <= c && c <= 'Z'
}

fn letters_match(a: char, b: char) -> (r: bool)
    ensures
        r == same_letter(a, b),
{
    a == b || (is_upper(a) && b as u32 == a as u32 + 32) || (is_upper(b) && a as u32 == b as u32
        + 32)
}

/// Whether `a` and `b` are the same but for the case of their ASCII letters.
pub fn eq_ignore_ascii_case(a: &Vec<char>, b: &Vec<char>) -> (r: bool)
    ensures
        r == same_ignoring_ascii_case(a@, b@),
{
    if a.len() != b.len() {
        return false;
    }
    let mut i: usize = 0;
    while i < a.len()
        invariant
            i <= a.len(),
            a.len() == b.len(),
            forall|k: int| 0 <= k < i ==> same_letter(#[trigger] a@[k], b@[k]),
        decreases a.len() - i,
    {
        if !letters_match(a[i], b[i]) {
            return false;
        }
        i += 1;
    }
    true
}

fn is_word(v: &Vec<char>, word: &str) -> (r: bool)
    ensures
        r == (v@ == word@),
{
    let w = to_chars(word);
    if v.len() != w.len() {
        return false;
    }
    let mut i: usize = 0;
    while i < v.len()
        invariant
            i <= v.len(),
            v.len() == w.len(),
            w@ == word@,
            forall|k: int| 0 <= k < i ==> v@[k] == w@[k],
        decreases v.len() - i,
    {
        if v[i] != w[i] {
            return false;
        }
        i += 1;
    }
    assert(v@ =~= w@);
    true
}

/// The command word and the arguments of `text`, as [`split_command`] defines them.
fn split(text: &str, bot_name: &str) -> (r: Result<(Vec<char>, Vec<char>), ParseError>)
    ensures
        match (r, split_command(text@, bot_name@)) {
            (Ok(parts), Ok(expected)) => parts.0@ == expected.0 && parts.1@ == expected.1,
            (Err(e), Err(expected)) => e@ == expected,
            _ => false,
        },
{
    let v = to_chars(text);
    let space = find_char(&v, ' ', 0);
    let word = slice(&v, 0, space);
    let rest = if space < v.len() {
        slice(&v, space + 1, v.len())
    } else {
        Vec::new()
    };
    let at = find_char(&word, '@', 0);
    let name = slice(&word, 0, at);
    if at < word.len() {
        let end = find_char(&word, '@', at + 1);
        let addressed = slice(&word, at + 1, end);
        let bot = to_chars(bot_name);
        if !eq_ignore_ascii_case(&addressed, &bot) {
            return Err(ParseError::WrongBotName(string_of(&addressed)));
        }
    }
    Ok((name, rest))
}

fn is_help(word: &Vec<char>) -> (r: bool)
    ensures
        r == is_help_word(word@),
{
    is_word(word, "/help") || is_word(word, "/h") || is_word(word, "/?")
}

impl Command {
    /// Reads `text` as a command of the public grammar.
    ///
    /// The command is the first word of `text`, up to the first space, and starts with `/`.
    /// It may name the bot it is meant for behind an `@`; a name other than `bot_name`,
    /// compared without regard to the case of ASCII letters, makes the text somebody else's.
    /// `/help`, `/h` and `/?` ask for help and take no notice of what follows. `/issue` takes
    /// everything behind the first space, as it stands, for the title.
    pub fn parse(text: &str, bot_name: &str) -> (r: Result<Command, ParseError>)
        ensures
            command_result(r) == parse_command(text@, bot_name@),
    {
        match split(text, bot_name) {
            Err(e) => Err(e),
            Ok((word, rest)) => {
                if is_help(&word) {
                    Ok(Command::Help)
                } else if is_word(&word, "/issue") {
                    Ok(Command::Issue(string_of(&rest)))
                } else {
                    Err(ParseError::UnknownCommand(string_of(&word)))
                }
            },
        }
    }
}

impl Command {
    /// The commands of the public grammar, for the help text.
    pub fn commands() -> (r: Vec<CommandInfo>)
        ensures
            info_views(r@) == public_commands(),
    {
        let mut r: Vec<CommandInfo> = Vec::new();
        r.push(help_info());
        r.push(plain_info("issue", "Create an issue."));
        assert(info_views(r@) =~= public_commands());
        r
    }

    /// The help text of the public grammar: a line for each command, with its short forms and
    /// what it does.
    pub fn descriptions() -> (r: String)
        ensures
            r@ == help_text(seq!['/'], public_commands()),
    {
        proof {
            reveal_strlit("/");
            assert("/"@ =~= seq!['/']);
        }
        render_descriptions("/", &Command::commands())
    }
}

impl AdminCommand {
    /// The commands of the admin grammar, for the help text.
    pub fn commands() -> (r: Vec<CommandInfo>)
        ensures
            info_views(r@) == admin_commands(),
    {
        let mut r: Vec<CommandInfo> = Vec::new();
        r.push(help_info());
        r.push(plain_info("list", "List all chats."));
        r.push(plain_info("link", "Link a chat to a Pylon account."));
        assert(info_views(r@) =~= admin_commands());
        r
    }

    /// The help text of the admin grammar: a line for each command, with its short forms and
    /// what it does.
    pub fn descriptions() -> (r: String)
        ensures
            r@ == help_text(seq!['/'], admin_commands()),
    {
        proof {
            reveal_strlit("/");
            assert("/"@ =~= seq!['/']);
        }
        render_descriptions("/", &AdminCommand::commands())
    }

    /// Reads `text` as a command of the admin grammar: `/help`, `/h`, `/?`, `/list` or `/link`,
    /// addressed as in the public grammar. What follows the command is not looked at.
    pub fn parse(text: &str, bot_name: &str) -> (r: Result<AdminCommand, ParseError>)
        ensures
            admin_result(r) == parse_admin_command(text@, bot_name@),
    {
        match split(text, bot_name) {
            Err(e) => Err(e),
            Ok((word, rest)) => {
                if is_help(&word) {
                    Ok(AdminCommand::Help)
                } else if is_word(&word, "/list") {
                    Ok(AdminCommand::List)
                } else if is_word(&word, "/link") {
                    Ok(AdminCommand::Link)
                } else {
                    Err(ParseError::UnknownCommand(string_of(&word)))
                }
            },
        }
    }
}

} // verus!
