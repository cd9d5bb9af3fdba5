//! The bot's settings and the store that holds the live copy of them.

use vstd::prelude::*;
use crate::text::same_text;

verus! {

/// A chat identifier with the ticketing account it is linked to, both as text.
pub type Pair = (Seq<char>, Seq<char>);

/// The position of the first pair of `pairs` at or after `from` whose key is `key`, or
/// `pairs.len()` where there is none.
pub open spec fn key_index(pairs: Seq<Pair>, key: Seq<char>, from: int) -> int
    decreases pairs.len() - from,
{
    if from < 0 || from >= pairs.len() {
        pairs.len() as int
    } else if pairs[from].0 == key {
        from
    } else {
        key_index(pairs, key, from + 1)
    }
}

/// No key occurs twice in `pairs`.
pub open spec fn keys_distinct(pairs: Seq<Pair>) -> bool {
    forall|i: int, j: int|
        0 <= i < j < pairs.len() ==> (#[trigger] pairs[i]).0 != (#[trigger] pairs[j]).0
}

/// Whether some pair of `pairs` has the key `key`.
pub open spec fn has_key(pairs: Seq<Pair>, key: Seq<char>) -> bool {
    key_index(pairs, key, 0) < pairs.len()
}

/// The value that `pairs` holds for `key`.
pub open spec fn value_of(pairs: Seq<Pair>, key: Seq<char>) -> Option<Seq<char>> {
    if has_key(pairs, key) {
        Some(pairs[key_index(pairs, key, 0)].1)
    } else {
        None
    }
}

/// `pairs` after `key` was set to `value`: the pair for `key` is replaced where it stood, or a
/// new pair is added at the end.
pub open spec fn with_pair(pairs: Seq<Pair>, key: Seq<char>, value: Seq<char>) -> Seq<Pair> {
    if has_key(pairs, key) {
        pairs.update(key_index(pairs, key, 0), (key, value))
    } else {
        pairs.push((key, value))
    }
}

/// `key_index` gives the least position at or after `from` whose key is `key`.
pub proof fn lemma_key_index(pairs: Seq<Pair>, key: Seq<char>, from: int)
    requires
        0 <= from <= pairs.len(),
    ensures
        from <= key_index(pairs, key, from) <= pairs.len(),
        key_index(pairs, key, from) < pairs.len() ==> pairs[key_index(pairs, key, from)].0 == key,
        forall|k: int| from <= k < key_index(pairs, key, from) ==> (#[trigger] pairs[k]).0 != key,
    decreases pairs.len() - from,
{
    if from < pairs.len() && pairs[from].0 != key {
        lemma_key_index(pairs, key, from + 1);
    }
}

/// Where `key` stands at position `i` and nowhere before it, `key_index` gives `i`.
pub proof fn lemma_key_index_is(pairs: Seq<Pair>, key: Seq<char>, i: int)
    requires
        0 <= i <= pairs.len(),
        i < pairs.len() ==> pairs[i].0 == key,
        forall|k: int| 0 <= k < i ==> (#[trigger] pairs[k]).0 != key,
    ensures
        key_index(pairs, key, 0) == i,
{
    lemma_key_index(pairs, key, 0);
    let found = key_index(pairs, key, 0);
    if found < i {
        assert(pairs[found].0 != key);
    }
}

/// Setting a key gives that key its value, leaves every other key as it was, and keeps the keys
/// distinct.
pub proof fn lemma_with_pair(pairs: Seq<Pair>, key: Seq<char>, value: Seq<char>, other: Seq<char>)
    requires
        keys_distinct(pairs),
    ensures
        keys_distinct(with_pair(pairs, key, value)),
        value_of(with_pair(pairs, key, value), key) == Some(value),
        other != key ==> value_of(with_pair(pairs, key, value), other) == value_of(pairs, other),
{
    let after = with_pair(pairs, key, value);
    let at = key_index(pairs, key, 0);
    lemma_key_index(pairs, key, 0);
    assert(after[at] == (key, value));
    assert forall|k: int| 0 <= k < at implies (#[trigger] after[k]).0 != key by {
        assert(after[k] == pairs[k]);
    }
    lemma_key_index_is(after, key, at);
    assert forall|i: int, j: int| 0 <= i < j < after.len() implies (#[trigger] after[i]).0 != (
    #[trigger] after[j]).0 by {
        if i != at && j != at {
            assert(after[i] == pairs[i] && after[j] == pairs[j]);
        } else if i == at {
            assert(after[j] == pairs[j]);
            if at < pairs.len() {
                assert(pairs[at].0 != pairs[j].0);
            }
        } else {
            assert(after[i] == pairs[i]);
            if at < pairs.len() {
                assert(pairs[i].0 != pairs[at].0);
            }
        }
    }
    if other != key {
        let was = key_index(pairs, other, 0);
        lemma_key_index(pairs, other, 0);
        assert forall|k: int| 0 <= k < was implies (#[trigger] after[k]).0 != other by {
            if k != at {
                assert(after[k] == pairs[k]);
            }
        }
        if was < pairs.len() {
            assert(was != at);
            assert(after[was] == pairs[was]);
            lemma_key_index_is(after, other, was);
        } else {
            assert(forall|k: int| 0 <= k < pairs.len() ==> (#[trigger] pairs[k]).0 != other);
            assert forall|k: int| 0 <= k < after.len() implies (#[trigger] after[k]).0 != other by {
                if k != at {
                    assert(after[k] == pairs[k]);
                }
            }
            lemma_key_index_is(after, other, after.len() as int);
        }
    }
}

/// The text of each pair of strings.
pub open spec fn pairs_of(entries: Seq<(String, String)>) -> Seq<Pair> {
    entries.map_values(|e: (String, String)| (e.0@, e.1@))
}

/// The chats that the bot knows, each with the ticketing account it is linked to.
///
/// A chat occurs at most once. An empty account means that the chat is known but not linked
/// yet, which is not the same as a chat that does not occur. The chats keep the order in which
/// they were first set.
#[derive(Debug)]
pub struct ChatAccounts {
    entries: Vec<(String, String)>,
}

impl View for ChatAccounts {
    type V = Seq<Pair>;

    closed spec fn view(&self) -> Seq<Pair> {
        pairs_of(self.entries@)
    }
}

impl ChatAccounts {
    #[verifier::type_invariant]
    closed spec fn chats_occur_once(&self) -> bool {
        keys_distinct(self@)
    }

    /// No chats.
    pub fn new() -> (r: Self)
        ensures
            r@ == Seq::<Pair>::empty(),
    {
        let r = ChatAccounts { entries: Vec::new() };
        assert(r@ =~= Seq::<Pair>::empty());
        r
    }

    /// The number of chats.
    pub fn len(&self) -> (n: usize)
        ensures
            n == self@.len(),
            keys_distinct(self@),
    {
        proof {
            use_type_invariant(self);
        }
        self.entries.len()
    }

    /// The identifier of the chat at position `i`.
    pub(crate) fn chat_id(&self, i: usize) -> (r: &str)
        requires
            i < self@.len(),
        ensures
            r@ == self@[i as int].0,
    {
        self.entries[i].0.as_str()
    }

    /// The account of the chat at position `i`.
    pub(crate) fn account_id(&self, i: usize) -> (r: &str)
        requires
            i < self@.len(),
        ensures
            r@ == self@[i as int].1,
    {
        self.entries[i].1.as_str()
    }

    fn position(&self, chat_id: &str) -> (i: usize)
        ensures
            i == key_index(self@, chat_id@, 0),
            i <= self@.len(),
    {
        let mut i: usize = 0;
        while i < self.entries.len()
            invariant
                i <= self.entries.len(),
                key_index(self@, chat_id@, 0) == key_index(self@, chat_id@, i as int),
            decreases self.entries.len() - i,
        {
            if same_text(self.entries[i].0.as_str(), chat_id) {
                return i;
            }
            i += 1;
        }
        i
    }

    /// The account that `chat_id` is linked to, if the chat is known.
    pub fn get(&self, chat_id: &str) -> (r: Option<&str>)
        ensures
            r is Some == has_key(self@, chat_id@),
            r matches Some(account) ==> value_of(self@, chat_id@) == Some(account@),
    {
        let i = self.position(chat_id);
        if i < self.entries.len() {
            Some(self.entries[i].1.as_str())
        } else {
            None
        }
    }

    /// The chats with their accounts, in order.
    pub fn to_vec(&self) -> (entries: Vec<(String, String)>)
        ensures
            pairs_of(entries@) == self@,
    {
        let mut entries: Vec<(String, String)> = Vec::new();
        let mut i: usize = 0;
        while i < self.entries.len()
            invariant
                i <= self.entries.len(),
                entries.len() == i,
                self@.len() == self.entries.len(),
                pairs_of(entries@) == self@.take(i as int),
            decreases self.entries.len() - i,
        {
            let chat = self.entries[i].0.clone();
            let account = self.entries[i].1.clone();
            let ghost before = pairs_of(entries@);
            entries.push((chat, account));
            proof {
                let after = pairs_of(entries@);
                assert(self@[i as int] == (chat@, account@));
                assert(after.len() == i + 1);
                assert forall|k: int| 0 <= k < after.len() implies after[k] == self@.take(
                    i + 1,
                )[k] by {
                    if k < i {
                        assert(after[k] == before[k]);
                    }
                }
                assert(after =~= self@.take(i + 1));
            }
            i += 1;
        }
        assert(self@.take(self@.len() as int) == self@);
        entries
    }

    /// Links `chat_id` to `account_id`, and gives back the account it was linked to before.
    pub fn insert(&mut self, chat_id: String, account_id: String) -> (r: Option<String>)
        ensures
            final(self)@ == with_pair(old(self)@, chat_id@, account_id@),
            r is Some == has_key(old(self)@, chat_id@),
            r matches Some(account) ==> value_of(old(self)@, chat_id@) == Some(account@),
    {
        proof {
            use_type_invariant(&*self);
            lemma_with_pair(self@, chat_id@, account_id@, chat_id@);
        }
        let i = self.position(chat_id.as_str());
        let mut entries = self.to_vec();
        let ghost key = chat_id@;
        let ghost value = account_id@;
        let r = if i < entries.len() {
            let before = entries[i].1.clone();
            entries.set(i, (chat_id, account_id));
            Some(before)
        } else {
            entries.push((chat_id, account_id));
            None
        };
        assert(pairs_of(entries@) =~= with_pair(self@, key, value));
        self.entries = entries;
        r
    }

}

impl Clone for ChatAccounts {
    /// A copy with the same chats and accounts in the same order.
    fn clone(&self) -> (r: Self)
        ensures
            r@ == self@,
    {
        proof {
            use_type_invariant(self);
        }
        let entries = self.to_vec();
        ChatAccounts { entries }
    }
}

/// A set of usernames, each held once, in the order in which they were added.
#[derive(Debug)]
pub struct Usernames {
    names: Vec<String>,
}

impl View for Usernames {
    type V = Seq<Seq<char>>;

    closed spec fn view(&self) -> Seq<Seq<char>> {
        crate::text::views(self.names@)
    }
}

impl Usernames {
    #[verifier::type_invariant]
    closed spec fn names_occur_once(&self) -> bool {
        self@.no_duplicates()
    }

    /// No usernames.
    pub fn new() -> (r: Self)
        ensures
            r@ == Seq::<Seq<char>>::empty(),
    {
        let r = Usernames { names: Vec::new() };
        assert(r@ =~= Seq::<Seq<char>>::empty());
        r
    }

    /// The number of usernames.
    pub fn len(&self) -> (n: usize)
        ensures
            n == self@.len(),
            self@.no_duplicates(),
    {
        proof {
            use_type_invariant(self);
        }
        self.names.len()
    }

    /// Whether `username` is in the set.
    pub fn contains(&self, username: &str) -> (r: bool)
        ensures
            r == self@.contains(username@),
    {
        let mut i: usize = 0;
        while i < self.names.len()
            invariant
                i <= self.names.len(),
                self@.len() == self.names.len(),
                forall|k: int| 0 <= k < i ==> self@[k] != username@,
            decreases self.names.len() - i,
        {
            if same_text(self.names[i].as_str(), username) {
                assert(self@[i as int] == username@);
                return true;
            }
            i += 1;
        }
        false
    }

    /// The usernames, in order.
    pub fn to_vec(&self) -> (names: Vec<String>)
        ensures
            crate::text::views(names@) == self@,
    {
        let mut names: Vec<String> = Vec::new();
        let mut i: usize = 0;
        while i < self.names.len()
            invariant
                i <= self.names.len(),
                names.len() == i,
                self@.len() == self.names.len(),
                crate::text::views(names@) == self@.take(i as int),
            decreases self.names.len() - i,
        {
            let name = self.names[i].clone();
            let ghost before = crate::text::views(names@);
            names.push(name);
            proof {
                let after = crate::text::views(names@);
                assert(self@[i as int] == name@);
                assert forall|k: int| 0 <= k < after.len() implies after[k] == self@.take(
                    i + 1,
                )[k] by {
                    if k < i {
                        assert(after[k] == before[k]);
                    }
                }
                assert(after =~= self@.take(i + 1));
            }
            i += 1;
        }
        assert(self@.take(self@.len() as int) == self@);
        names
    }

    /// Adds `username`. Gives `true` where it was not in the set before.
    pub fn insert(&mut self, username: String) -> (r: bool)
        ensures
            r == !old(self)@.contains(username@),
            final(self)@ == if r {
                old(self)@.push(username@)
            } else {
                old(self)@
            },
    {
        proof {
            use_type_invariant(&*self);
        }
        if self.contains(username.as_str()) {
            return false;
        }
        let mut names = self.to_vec();
        let ghost name = username@;
        names.push(username);
        proof {
            let after = crate::text::views(names@);
            assert(after =~= self@.push(name));
            assert forall|i: int, j: int| 0 <= i < after.len() && 0 <= j < after.len() && i
                != j implies after[i] != after[j] by {
                if i < self@.len() && j < self@.len() {
                    assert(self@[i] != self@[j]);
                } else if i < self@.len() {
                    assert(self@.contains(self@[i]));
                } else {
                    assert(self@.contains(self@[j]));
                }
            }
        }
        self.names = names;
        true
    }
}

impl Clone for Usernames {
    /// A copy with the same usernames in the same order.
    fn clone(&self) -> (r: Self)
        ensures
            r@ == self@,
    {
        proof {
            use_type_invariant(self);
        }
        let names = self.to_vec();
        Usernames { names }
    }
}

/// What the settings hold, as plain values.
pub struct SettingsView {
    /// Each known chat with its account, in order.
    pub chats: Seq<Pair>,
    /// The usernames that may use the admin commands.
    pub admins: Seq<Seq<char>>,
}

/// The bot's settings: which chat is linked to which ticketing account, and who is an admin.
#[derive(Debug)]
pub struct Settings {
    /// Chat identifier to ticketing account; an empty account means "not linked yet".
    pub tg_chats_to_pylon_accounts: ChatAccounts,
    /// The usernames that may use the admin commands.
    pub bot_admins: Usernames,
}

impl View for Settings {
    type V = SettingsView;

    open spec fn view(&self) -> SettingsView {
        SettingsView { chats: self.tg_chats_to_pylon_accounts@, admins: self.bot_admins@ }
    }
}

impl Default for Settings {
    /// Settings with no chat and no admin.
    fn default() -> (r: Self)
        ensures
            r@.chats == Seq::<Pair>::empty(),
            r@.admins == Seq::<Seq<char>>::empty(),
    {
        Settings { tg_chats_to_pylon_accounts: ChatAccounts::new(), bot_admins: Usernames::new() }
    }
}

impl Clone for Settings {
    /// A copy that holds the same chats, accounts and admins.
    fn clone(&self) -> (r: Self)
        ensures
            r@ == self@,
    {
        Settings {
            tg_chats_to_pylon_accounts: self.tg_chats_to_pylon_accounts.clone(),
            bot_admins: self.bot_admins.clone(),
        }
    }
}

/// Why the settings file could not be turned into settings.
#[derive(Debug)]
pub struct LoadError {
    /// What the reader of the file reported.
    pub message: String,
}

/// What the store holds, as plain values.
pub struct ConfigView {
    /// The live settings.
    pub settings: SettingsView,
    /// Where the backing file is.
    pub path: Seq<char>,
}

/// The store after it was handed what a read of the backing file gave: the settings that
/// were read, or the ones it had where the read failed.
pub open spec fn after_reload(store: ConfigView, loaded: Option<SettingsView>) -> ConfigView {
    match loaded {
        Some(settings) => ConfigView { settings, path: store.path },
        None => store,
    }
}

/// The file content that a save of `settings` asks for: all of `settings`, and nothing of what
/// the store holds.
pub open spec fn saved_content(store: ConfigView, settings: SettingsView) -> SettingsView {
    settings
}

/// Settings that were saved and then read back unchanged replace whatever the store held.
pub proof fn lemma_save_then_reload(store: ConfigView, settings: SettingsView)
    ensures
        after_reload(store, Some(saved_content(store, settings))).settings == settings,
        after_reload(store, Some(saved_content(store, settings))).path == store.path,
{
}

/// A failed reload leaves the store as it was.
pub proof fn lemma_failed_reload_keeps(store: ConfigView)
    ensures
        after_reload(store, None) == store,
{
}

/// Two link flows that start from the same settings and save one after the other: the file
/// ends with what the second one wrote, in which the first one's chat is what it was before
/// either flow ran. The first link is lost unless the settings held it already.
pub proof fn lemma_concurrent_links_lose_first(
    base: SettingsView,
    first_chat: Seq<char>,
    first_account: Seq<char>,
    second_chat: Seq<char>,
    second_account: Seq<char>,
)
    requires
        keys_distinct(base.chats),
        first_chat != second_chat,
    ensures
        ({
            let second = with_pair(base.chats, second_chat, second_account);
            &&& value_of(second, second_chat) == Some(second_account)
            &&& value_of(second, first_chat) == value_of(base.chats, first_chat)
            &&& value_of(base.chats, first_chat) != Some(first_account) ==> value_of(
                second,
                first_chat,
            ) != Some(first_account)
        }),
{
    lemma_with_pair(base.chats, second_chat, second_account, first_chat);
}

/// How a reload ended. Neither outcome is an error: a reload cannot fail, it can only find
/// nothing new to take in.
#[derive(Debug)]
pub enum Reloaded {
    /// The live copy was replaced by what the file holds.
    Replaced,
    /// The file could not be read as settings, and the live copy was kept. The reason is for
    /// the log.
    Kept(LoadError),
}

/// What has to be written to the backing file, and where.
#[derive(Debug)]
pub struct SaveRequest {
    /// The path of the backing file.
    pub path: String,
    /// The settings that replace the file's content.
    pub settings: Settings,
}

/// The live copy of the settings, with the path of the file behind it.
///
/// The store does no I/O itself: whoever owns it reads and writes the file and hands the
/// store what was read.
#[derive(Debug)]
pub struct Config {
    settings: Settings,
    settings_path: String,
}

impl View for Config {
    type V = ConfigView;

    closed spec fn view(&self) -> ConfigView {
        ConfigView { settings: self.settings@, path: self.settings_path@ }
    }
}

impl Config {
    /// A store for the file at `settings_path`, from what the first read of that file gave.
    /// A failed first read is fatal: there is no store then.
    pub fn try_new(settings_path: String, loaded: Result<Settings, LoadError>) -> (r: Result<
        Config,
        LoadError,
    >)
        ensures
            match (loaded, r) {
                (Ok(settings), Ok(store)) => store@.settings == settings@ && store@.path
                    == settings_path@,
                (Err(e), Err(f)) => f == e,
                _ => false,
            },
    {
        match loaded {
            Ok(settings) => Ok(Config { settings, settings_path }),
            Err(e) => Err(e),
        }
    }

    /// The path of the backing file.
    pub fn settings_path(&self) -> (r: &str)
        ensures
            r@ == self@.path,
    {
        self.settings_path.as_str()
    }

    /// A snapshot of the live settings: a copy, which later reloads do not change.
    pub fn get(&self) -> (r: Settings)
        ensures
            r@ == self@.settings,
    {
        self.settings.clone()
    }

    /// Takes in what a new read of the backing file gave. Settings that were read replace the
    /// live copy as a whole. A failed read leaves the live copy as it was; that is no error to
    /// the caller, who is only told what to log.
    pub fn reload(&mut self, loaded: Result<Settings, LoadError>) -> (r: Reloaded)
        ensures
            final(self)@ == after_reload(
                old(self)@,
                match loaded {
                    Ok(settings) => Some(settings@),
                    Err(_) => None,
                },
            ),
            match loaded {
                Ok(_) => r == Reloaded::Replaced,
                Err(e) => r == Reloaded::Kept(e),
            },
    {
        match loaded {
            Ok(settings) => {
                self.settings = settings;
                Reloaded::Replaced
            },
            Err(e) => Reloaded::Kept(e),
        }
    }

    /// What a save of `settings` has to write: all of `settings`, to the backing file. The live
    /// copy stays as it is until the file is read again.
    pub fn save(&self, settings: Settings) -> (r: SaveRequest)
        ensures
            r.path@ == self@.path,
            r.settings@ == saved_content(self@, settings@),
    {
        SaveRequest { path: self.settings_path.clone(), settings }
    }
}


} // verus!
