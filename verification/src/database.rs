//! The records in the key-value store: their keys, the commands that read and write them,
//! and what the store's answers mean.
//!
//! Nothing here reaches the store. A function named after an operation builds the command
//! for it; the function with `_answer` behind the same name reads the store's reply.

use vstd::prelude::*;
use vstd::utf8::*;
use crate::settings::{SettingsData, SettingsDataView};
use crate::text::{join, join3, text_of};

verus! {

/// Seconds for which a pending registration is kept.
pub const REGISTRATION_SECONDS: u32 = 3600;

/// A command for the key-value store.
#[derive(Debug, PartialEq, Eq)]
pub enum Command {
    /// Is there a record under this key?
    Exists(String),
    /// The value under this key.
    Read(String),
    /// Put this value under this key.
    Write(String, String),
    /// Let the record under this key lapse after so many seconds.
    Expire(String, u32),
    /// Remove the record under this key.
    Delete(String),
    /// Put each value under its key, all at once.
    WriteAll(Vec<(String, String)>),
    /// The values under these keys, in one answer.
    ReadAll(Vec<String>),
}

/// Mathematical value of a [`Command`].
pub enum CommandView {
    Exists(Seq<char>),
    Read(Seq<char>),
    Write(Seq<char>, Seq<char>),
    Expire(Seq<char>, u32),
    Delete(Seq<char>),
    WriteAll(Seq<(Seq<char>, Seq<char>)>),
    ReadAll(Seq<Seq<char>>),
}

impl View for Command {
    type V = CommandView;

    open spec fn view(&self) -> CommandView {
        match *self {
            Command::Exists(key) => CommandView::Exists(key@),
            Command::Read(key) => CommandView::Read(key@),
            Command::Write(key, value) => CommandView::Write(key@, value@),
            Command::Expire(key, seconds) => CommandView::Expire(key@, seconds),
            Command::Delete(key) => CommandView::Delete(key@),
            Command::WriteAll(pairs) => CommandView::WriteAll(pairs.deep_view()),
            Command::ReadAll(keys) => CommandView::ReadAll(keys.deep_view()),
        }
    }
}

impl Clone for Command {
    fn clone(&self) -> (copy: Command)
        ensures
            copy@ == self@,
    {
        match self {
            Command::Exists(key) => Command::Exists(key.clone()),
            Command::Read(key) => Command::Read(key.clone()),
            Command::Write(key, value) => Command::Write(key.clone(), value.clone()),
            Command::Expire(key, seconds) => Command::Expire(key.clone(), *seconds),
            Command::Delete(key) => Command::Delete(key.clone()),
            Command::WriteAll(pairs) => {
                let ghost all = pairs.deep_view();
                let mut copy: Vec<(String, String)> = Vec::new();
                let mut i: usize = 0;
                assert(copy.deep_view() =~= all.take(0));
                while i < pairs.len()
                    invariant
                        0 <= i <= pairs.len(),
                        all == pairs.deep_view(),
                        copy.deep_view() == all.take(i as int),
                    decreases pairs.len() - i,
                {
                    let ghost before = copy.deep_view();
                    copy.push((pairs[i].0.clone(), pairs[i].1.clone()));
                    assert(copy.deep_view() =~= before.push(all[i as int]));
                    assert(copy.deep_view() =~= all.take(i + 1));
                    i = i + 1;
                }
                assert(all.take(i as int) =~= all);
                Command::WriteAll(copy)
            },
            Command::ReadAll(keys) => {
                let copy = keys.clone();
                assert(copy.deep_view() =~= keys.deep_view());
                Command::ReadAll(copy)
            },
        }
    }
}

/// One word of a command as it goes to the store.
#[derive(Debug, PartialEq, Eq)]
pub enum Word {
    /// Sent as a bulk string.
    Text(String),
    /// Sent as an integer.
    Number(i64),
}

/// Mathematical value of a [`Word`].
pub enum WordView {
    Text(Seq<char>),
    Number(i64),
}

impl View for Word {
    type V = WordView;

    open spec fn view(&self) -> WordView {
        match *self {
            Word::Text(text) => WordView::Text(text@),
            Word::Number(n) => WordView::Number(n),
        }
    }
}

impl Clone for Word {
    fn clone(&self) -> (copy: Word)
        ensures
            copy@ == self@,
    {
        match self {
            Word::Text(text) => Word::Text(text.clone()),
            Word::Number(n) => Word::Number(*n),
        }
    }
}

impl DeepView for Word {
    type V = WordView;

    open spec fn deep_view(&self) -> WordView {
        self@
    }
}

/// The words that follow `MSET`: each key, then its value.
pub open spec fn pair_words(pairs: Seq<(Seq<char>, Seq<char>)>) -> Seq<WordView> {
    Seq::new(
        2 * pairs.len(),
        |i: int|
            if i % 2 == 0 {
                WordView::Text(pairs[i / 2].0)
            } else {
                WordView::Text(pairs[i / 2].1)
            },
    )
}

/// The words that follow `MGET`: the keys.
pub open spec fn key_words(keys: Seq<Seq<char>>) -> Seq<WordView> {
    Seq::new(keys.len(), |i: int| WordView::Text(keys[i]))
}

/// A command as the store's protocol spells it: the name of the command, then its
/// arguments.
pub open spec fn wire(command: CommandView) -> Seq<WordView> {
    match command {
        CommandView::Exists(key) => seq![WordView::Text("EXISTS"@), WordView::Text(key)],
        CommandView::Read(key) => seq![WordView::Text("GET"@), WordView::Text(key)],
        CommandView::Write(key, value) => seq![
            WordView::Text("SET"@),
            WordView::Text(key),
            WordView::Text(value),
        ],
        CommandView::Expire(key, seconds) => seq![
            WordView::Text("EXPIRE"@),
            WordView::Text(key),
            WordView::Number(seconds as i64),
        ],
        CommandView::Delete(key) => seq![WordView::Text("DEL"@), WordView::Text(key)],
        CommandView::WriteAll(pairs) => seq![WordView::Text("MSET"@)] + pair_words(pairs),
        CommandView::ReadAll(keys) => seq![WordView::Text("MGET"@)] + key_words(keys),
    }
}

impl Command {
    /// Spells the command out for the store.
    pub fn words(&self) -> (words: Vec<Word>)
        ensures
            words.deep_view() == wire(self@),
    {
        let mut words: Vec<Word> = Vec::new();
        match self {
            Command::Exists(key) => {
                words.push(Word::Text("EXISTS".to_owned()));
                words.push(Word::Text(key.clone()));
            },
            Command::Read(key) => {
                words.push(Word::Text("GET".to_owned()));
                words.push(Word::Text(key.clone()));
            },
            Command::Write(key, value) => {
                words.push(Word::Text("SET".to_owned()));
                words.push(Word::Text(key.clone()));
                words.push(Word::Text(value.clone()));
            },
            Command::Expire(key, seconds) => {
                words.push(Word::Text("EXPIRE".to_owned()));
                words.push(Word::Text(key.clone()));
                words.push(Word::Number(*seconds as i64));
            },
            Command::Delete(key) => {
                words.push(Word::Text("DEL".to_owned()));
                words.push(Word::Text(key.clone()));
            },
            Command::WriteAll(pairs) => {
                words.push(Word::Text("MSET".to_owned()));
                let ghost all = pairs.deep_view();
                let mut i: usize = 0;
                assert(words.deep_view() =~= seq![WordView::Text("MSET"@)] + pair_words(
                    all.take(0),
                ));
                while i < pairs.len()
                    invariant
                        0 <= i <= pairs.len(),
                        all == pairs.deep_view(),
                        words.deep_view() == seq![WordView::Text("MSET"@)] + pair_words(
                            all.take(i as int),
                        ),
                    decreases pairs.len() - i,
                {
                    let ghost before = words.deep_view();
                    words.push(Word::Text(pairs[i].0.clone()));
                    words.push(Word::Text(pairs[i].1.clone()));
                    assert(all[i as int] == (pairs[i as int].0@, pairs[i as int].1@));
                    assert(words.deep_view() =~= before.push(WordView::Text(all[i as int].0)).push(
                        WordView::Text(all[i as int].1),
                    ));
                    assert(words.deep_view() =~= seq![WordView::Text("MSET"@)] + pair_words(
                        all.take(i + 1),
                    ));
                    i = i + 1;
                }
                assert(all.take(i as int) =~= all);
            },
            Command::ReadAll(keys) => {
                words.push(Word::Text("MGET".to_owned()));
                let ghost all = keys.deep_view();
                let mut i: usize = 0;
                assert(words.deep_view() =~= seq![WordView::Text("MGET"@)] + key_words(
                    all.take(0),
                ));
                while i < keys.len()
                    invariant
                        0 <= i <= keys.len(),
                        all == keys.deep_view(),
                        words.deep_view() == seq![WordView::Text("MGET"@)] + key_words(
                            all.take(i as int),
                        ),
                    decreases keys.len() - i,
                {
                    let ghost before = words.deep_view();
                    words.push(Word::Text(keys[i].clone()));
                    assert(words.deep_view() =~= before.push(WordView::Text(all[i as int])));
                    assert(words.deep_view() =~= seq![WordView::Text("MGET"@)] + key_words(
                        all.take(i + 1),
                    ));
                    i = i + 1;
                }
                assert(all.take(i as int) =~= all);
            },
        }
        assert(words.deep_view() =~= wire(self@));
        words
    }
}

/// Why a reply cannot be read as what was asked for.
#[derive(Clone, Copy, Debug, PartialEq, Eq)]
pub enum Malformed {
    /// Bytes that are no UTF-8 text stand where text was stored.
    NotText,
    /// The answer to a batched read is something other than a list.
    NotAList,
}

/// What the store answered.
#[derive(Debug, PartialEq, Eq)]
pub enum Reply {
    /// Nothing is there.
    Nil,
    /// A number.
    Integer(i64),
    /// The bytes of one value.
    Bulk(Vec<u8>),
    /// A list. An entry is `Some` with the bytes of a value, and `None` for anything
    /// else, such as a key without a record.
    Array(Vec<Option<Vec<u8>>>),
    /// A status line or an error message; no handler reads what it says.
    Other,
}

/// Mathematical value of a [`Reply`].
pub enum ReplyView {
    Nil,
    Integer(i64),
    Bulk(Seq<u8>),
    Array(Seq<Option<Seq<u8>>>),
    Other,
}

impl View for Reply {
    type V = ReplyView;

    open spec fn view(&self) -> ReplyView {
        match *self {
            Reply::Nil => ReplyView::Nil,
            Reply::Integer(n) => ReplyView::Integer(n),
            Reply::Bulk(bytes) => ReplyView::Bulk(bytes@),
            Reply::Array(items) => ReplyView::Array(items.deep_view()),
            Reply::Other => ReplyView::Other,
        }
    }
}

impl Clone for Reply {
    fn clone(&self) -> (copy: Reply)
        ensures
            copy@ == self@,
    {
        match self {
            Reply::Nil => Reply::Nil,
            Reply::Integer(n) => Reply::Integer(*n),
            Reply::Bulk(bytes) => {
                let copy = bytes.clone();
                assert(copy@ =~= bytes@);
                Reply::Bulk(copy)
            },
            Reply::Array(items) => {
                let copy = items.clone();
                assert(copy.deep_view() =~= items.deep_view());
                Reply::Array(copy)
            },
            Reply::Other => Reply::Other,
        }
    }
}

/// Key of the record that says a user exists.
pub open spec fn user_key(email: Seq<char>) -> Seq<char> {
    "user:"@ + email
}

/// Key of the pending registration that a challenge stands for.
pub open spec fn register_key(token: Seq<char>) -> Seq<char> {
    "register:"@ + token
}

/// Key of a user's temperature unit.
pub open spec fn temperature_key(email: Seq<char>) -> Seq<char> {
    "settings:"@ + email + ":units:temperature"@
}

/// Key of a user's pressure unit.
pub open spec fn pressure_key(email: Seq<char>) -> Seq<char> {
    "settings:"@ + email + ":units:pressure"@
}

/// Key of a user's theme.
pub open spec fn theme_key(email: Seq<char>) -> Seq<char> {
    "settings:"@ + email + ":theme"@
}

/// Key of a user's timeframe.
pub open spec fn timeframe_key(email: Seq<char>) -> Seq<char> {
    "settings:"@ + email + ":timeframe"@
}

/// The keys of a user's four settings, in the order in which they are read and shown.
pub open spec fn settings_keys(email: Seq<char>) -> Seq<Seq<char>> {
    seq![temperature_key(email), pressure_key(email), theme_key(email), timeframe_key(email)]
}

/// The value of a user record that marks an administrator: the bytes of `admin`.
pub open spec fn admin_marker() -> Seq<u8> {
    seq![97u8, 100u8, 109u8, 105u8, 110u8]
}

/// The settings that a new user starts with.
pub open spec fn default_settings() -> Seq<Seq<char>> {
    seq!["Celsius"@, "Bar"@, "Light"@, "Week"@]
}

/// The records of a user as registration creates them: the user record, without the
/// administrator's mark, and the four settings at their defaults.
pub open spec fn new_user_records(email: Seq<char>) -> Seq<(Seq<char>, Seq<char>)> {
    seq![
        (user_key(email), ""@),
        (temperature_key(email), "Celsius"@),
        (pressure_key(email), "Bar"@),
        (theme_key(email), "Light"@),
        (timeframe_key(email), "Week"@),
    ]
}

/// The four settings of a user, each with its key.
pub open spec fn settings_records(email: Seq<char>, data: SettingsDataView) -> Seq<
    (Seq<char>, Seq<char>),
> {
    seq![
        (temperature_key(email), data.temperature),
        (pressure_key(email), data.pressure),
        (theme_key(email), data.theme),
        (timeframe_key(email), data.timeframe),
    ]
}

/// The command that asks whether a user exists.
pub fn user_exists(email: &String) -> (command: Command)
    ensures
        command@ == CommandView::Exists(user_key(email@)),
{
    Command::Exists(join("user:", email.as_str()))
}

/// Whether the store said that the user exists: it does when the count of records is one.
pub fn user_exists_answer(reply: &Reply) -> (exists: bool)
    ensures
        exists == (reply@ == ReplyView::Integer(1)),
{
    match reply {
        Reply::Integer(n) => *n == 1,
        _ => false,
    }
}

/// The command that reads a user record, for the administrator's mark.
pub fn user_is_admin(email: &String) -> (command: Command)
    ensures
        command@ == CommandView::Read(user_key(email@)),
{
    Command::Read(join("user:", email.as_str()))
}

/// Whether the user record that the store returned carries the administrator's mark.
pub fn user_is_admin_answer(reply: &Reply) -> (admin: bool)
    ensures
        admin == (reply@ == ReplyView::Bulk(admin_marker())),
{
    match reply {
        Reply::Bulk(bytes) => {
            let marked = bytes.len() == 5 && bytes[0] == 97 && bytes[1] == 100 && bytes[2] == 109
                && bytes[3] == 105 && bytes[4] == 110;
            assert(marked == (bytes@ =~= admin_marker()));
            marked
        },
        _ => false,
    }
}

/// The two commands that record a pending registration: the first puts the address under
/// the challenge's key, the second lets that record lapse after an hour.
pub fn register_email(email: &String, token: &String) -> (commands: (Command, Command))
    ensures
        commands.0@ == CommandView::Write(register_key(token@), email@),
        commands.1@ == CommandView::Expire(register_key(token@), REGISTRATION_SECONDS),
{
    (
        Command::Write(join("register:", token.as_str()), email.clone()),
        Command::Expire(join("register:", token.as_str()), REGISTRATION_SECONDS),
    )
}

/// The command that looks a pending registration up.
pub fn register_exists(token: &String) -> (command: Command)
    ensures
        command@ == CommandView::Read(register_key(token@)),
{
    Command::Read(join("register:", token.as_str()))
}

/// The address that a pending registration holds, as the store's reply gives it.
pub open spec fn pending_email(reply: ReplyView) -> Result<Option<Seq<char>>, Malformed> {
    match reply {
        ReplyView::Bulk(bytes) => if valid_utf8(bytes) {
            Ok(Some(decode_utf8(bytes)))
        } else {
            Err(Malformed::NotText)
        },
        _ => Ok(None),
    }
}

/// Reads the reply to a lookup of a pending registration: the address it was made for, or
/// `None` where the store holds no such registration. Stored bytes that are no text are
/// an error.
pub fn register_exists_answer(reply: &Reply) -> (email: Result<Option<String>, Malformed>)
    ensures
        match pending_email(reply@) {
            Ok(Some(address)) => email matches Ok(Some(found)) && found@ == address,
            Ok(None) => email == Ok::<Option<String>, Malformed>(None),
            Err(flaw) => email == Err::<Option<String>, Malformed>(flaw),
        },
{
    match reply {
        Reply::Bulk(bytes) => match text_of(bytes) {
            Some(text) => Ok(Some(text)),
            None => Err(Malformed::NotText),
        },
        _ => Ok(None),
    }
}

/// The command that removes a pending registration.
pub fn register_remove(token: &String) -> (command: Command)
    ensures
        command@ == CommandView::Delete(register_key(token@)),
{
    Command::Delete(join("register:", token.as_str()))
}

/// The command that creates a user: one write of the user record and the four default
/// settings.
pub fn user_add(email: &String) -> (command: Command)
    ensures
        command@ == CommandView::WriteAll(new_user_records(email@)),
{
    let address = email.as_str();
    let mut pairs: Vec<(String, String)> = Vec::new();
    pairs.push((join("user:", address), "".to_owned()));
    pairs.push((join3("settings:", address, ":units:temperature"), "Celsius".to_owned()));
    pairs.push((join3("settings:", address, ":units:pressure"), "Bar".to_owned()));
    pairs.push((join3("settings:", address, ":theme"), "Light".to_owned()));
    pairs.push((join3("settings:", address, ":timeframe"), "Week".to_owned()));
    assert(pairs.deep_view() =~= new_user_records(email@));
    Command::WriteAll(pairs)
}

/// The command that reads the four settings of a user in one batch.
pub fn settings_get(email: &String) -> (command: Command)
    ensures
        command@ == CommandView::ReadAll(settings_keys(email@)),
{
    let address = email.as_str();
    let mut keys: Vec<String> = Vec::new();
    keys.push(join3("settings:", address, ":units:temperature"));
    keys.push(join3("settings:", address, ":units:pressure"));
    keys.push(join3("settings:", address, ":theme"));
    keys.push(join3("settings:", address, ":timeframe"));
    assert(keys.deep_view() =~= settings_keys(email@));
    Command::ReadAll(keys)
}

/// The texts of the entries of a list that hold a value, in their order. A value that is
/// no text is an error.
pub open spec fn texts_of(items: Seq<Option<Seq<u8>>>) -> Result<Seq<Seq<char>>, Malformed>
    decreases items.len(),
{
    if items.len() == 0 {
        Ok(Seq::empty())
    } else {
        match texts_of(items.drop_last()) {
            Err(flaw) => Err(flaw),
            Ok(texts) => match items.last() {
                None => Ok(texts),
                Some(bytes) => if valid_utf8(bytes) {
                    Ok(texts.push(decode_utf8(bytes)))
                } else {
                    Err(Malformed::NotText)
                },
            },
        }
    }
}

/// The settings that the reply to a batched read holds. A setting without a record is
/// left out, so the result can be short.
pub open spec fn stored_settings(reply: ReplyView) -> Result<Seq<Seq<char>>, Malformed> {
    match reply {
        ReplyView::Array(items) => texts_of(items),
        _ => Err(Malformed::NotAList),
    }
}

/// A value that is no text spoils every list that starts with the entries up to it.
proof fn lemma_error_stays(items: Seq<Option<Seq<u8>>>, k: int)
    requires
        0 <= k <= items.len(),
        texts_of(items.take(k)) is Err,
    ensures
        texts_of(items) == Err::<Seq<Seq<char>>, Malformed>(Malformed::NotText),
    decreases items.len() - k,
{
    if k == items.len() {
        assert(items.take(k) =~= items);
        lemma_only_error(items);
    } else {
        assert(items.take(k + 1).drop_last() =~= items.take(k));
        lemma_error_stays(items, k + 1);
    }
}

/// The one error of a list is a value that is no text.
proof fn lemma_only_error(items: Seq<Option<Seq<u8>>>)
    ensures
        texts_of(items) matches Err(flaw) ==> flaw == Malformed::NotText,
    decreases items.len(),
{
    if items.len() > 0 {
        lemma_only_error(items.drop_last());
    }
}

/// A list reads as no more texts than it has entries, and as fewer where an entry holds
/// no value.
pub proof fn lemma_texts_count(items: Seq<Option<Seq<u8>>>)
    ensures
        texts_of(items) matches Ok(texts) ==> {
            &&& texts.len() <= items.len()
            &&& (exists|i: int| 0 <= i < items.len() && (#[trigger] items[i]) is None)
                ==> texts.len() < items.len()
        },
    decreases items.len(),
{
    if items.len() > 0 {
        let front = items.drop_last();
        lemma_texts_count(front);
        if texts_of(items) is Ok && exists|i: int|
            0 <= i < items.len() && (#[trigger] items[i]) is None {
            let i = choose|i: int| 0 <= i < items.len() && (#[trigger] items[i]) is None;
            if i < items.len() - 1 {
                assert(front[i] is None);
            }
        }
    }
}

/// Reads the reply to a batched read of settings: the values found, in the order of the
/// keys, without those that have no record. A reply that is no list, or a value that is no
/// text, is an error.
pub fn settings_get_answer(reply: &Reply) -> (settings: Result<Vec<String>, Malformed>)
    ensures
        match stored_settings(reply@) {
            Ok(texts) => settings matches Ok(found) && found.deep_view() == texts,
            Err(flaw) => settings == Err::<Vec<String>, Malformed>(flaw),
        },
{
    match reply {
        Reply::Array(items) => {
            let ghost all = items.deep_view();
            let mut found: Vec<String> = Vec::new();
            let mut i: usize = 0;
            assert(all.take(0) =~= Seq::empty());
            assert(found.deep_view() =~= Seq::empty());
            while i < items.len()
                invariant
                    0 <= i <= items.len(),
                    all == items.deep_view(),
                    reply@ == ReplyView::Array(all),
                    texts_of(all.take(i as int)) == Ok::<Seq<Seq<char>>, Malformed>(found.deep_view()),
                decreases items.len() - i,
            {
                let ghost before = found.deep_view();
                assert(all.take(i + 1).drop_last() =~= all.take(i as int));
                assert(all.take(i + 1).last() == items[i as int].deep_view());
                match &items[i] {
                    Some(bytes) => match text_of(bytes) {
                        Some(text) => {
                            assert(bytes.deep_view() =~= bytes@);
                            found.push(text);
                            assert(found.deep_view() =~= before.push(text@));
                        },
                        None => {
                            proof {
                                assert(bytes.deep_view() =~= bytes@);
                                lemma_error_stays(all, i + 1);
                            }
                            return Err(Malformed::NotText);
                        },
                    },
                    None => {},
                }
                i = i + 1;
            }
            assert(all.take(i as int) =~= all);
            Ok(found)
        },
        _ => Err(Malformed::NotAList),
    }
}

/// The command that overwrites the four settings of a user in one write.
pub fn settings_set(email: &String, data: &SettingsData) -> (command: Command)
    ensures
        command@ == CommandView::WriteAll(settings_records(email@, data@)),
{
    let address = email.as_str();
    let mut pairs: Vec<(String, String)> = Vec::new();
    pairs.push((join3("settings:", address, ":units:temperature"), data.temperature.clone()));
    pairs.push((join3("settings:", address, ":units:pressure"), data.pressure.clone()));
    pairs.push((join3("settings:", address, ":theme"), data.theme.clone()));
    pairs.push((join3("settings:", address, ":timeframe"), data.timeframe.clone()));
    assert(pairs.deep_view() =~= settings_records(email@, data@));
    Command::WriteAll(pairs)
}

} // verus!
