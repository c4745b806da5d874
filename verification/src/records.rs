//! The key-value store as the handlers take it to be, and what follows from that.
//!
//! Nothing here is executed. [`answer`] and [`effect`] say how a store that is a plain map
//! of records answers a command and what the command changes; [`crate::flow::play`] runs
//! the handlers against them, and the lemmas here carry the proofs about such runs.

use vstd::prelude::*;
use vstd::utf8::*;
use crate::database::{
    admin_marker, default_settings, new_user_records, pressure_key, register_key, settings_keys,
    settings_records, stored_settings, temperature_key, texts_of, theme_key, timeframe_key,
    user_key, CommandView, Malformed, ReplyView,
};
use crate::settings::SettingsDataView;

verus! {

/// The store as the handlers take it to be: a map from keys to the bytes kept under them.
///
/// A record stays until it is deleted or overwritten. When the store lets a record lapse
/// is its own business and not part of this picture.
pub type Records = Map<Seq<char>, Seq<u8>>;

/// The records after each value of `pairs` was put under its key, from first to last.
pub open spec fn write_all(records: Records, pairs: Seq<(Seq<char>, Seq<char>)>) -> Records
    decreases pairs.len(),
{
    if pairs.len() == 0 {
        records
    } else {
        write_all(records, pairs.drop_last()).insert(
            pairs.last().0,
            encode_utf8(pairs.last().1),
        )
    }
}

/// What a command leaves of the records.
pub open spec fn effect(records: Records, command: CommandView) -> Records {
    match command {
        CommandView::Write(key, value) => records.insert(key, encode_utf8(value)),
        CommandView::Delete(key) => records.remove(key),
        CommandView::WriteAll(pairs) => write_all(records, pairs),
        _ => records,
    }
}

/// How many records there are under one key.
pub open spec fn count(records: Records, key: Seq<char>) -> i64 {
    if records.contains_key(key) {
        1
    } else {
        0
    }
}

/// What the store answers to a command.
pub open spec fn answer(records: Records, command: CommandView) -> ReplyView {
    match command {
        CommandView::Exists(key) => ReplyView::Integer(count(records, key)),
        CommandView::Read(key) => if records.contains_key(key) {
            ReplyView::Bulk(records[key])
        } else {
            ReplyView::Nil
        },
        CommandView::Write(_, _) => ReplyView::Other,
        CommandView::Expire(key, _) => ReplyView::Integer(count(records, key)),
        CommandView::Delete(key) => ReplyView::Integer(count(records, key)),
        CommandView::WriteAll(_) => ReplyView::Other,
        CommandView::ReadAll(keys) => ReplyView::Array(
            Seq::new(
                keys.len(),
                |i: int|
                    if records.contains_key(keys[i]) {
                        Some(records[keys[i]])
                    } else {
                        None
                    },
            ),
        ),
    }
}

/// Whether the store holds a user record for `user` that carries the administrator's mark.
pub open spec fn is_admin(records: Records, user: Seq<char>) -> bool {
    records.contains_key(user_key(user)) && records[user_key(user)] == admin_marker()
}

/// Records of different kinds never share a key, and neither do the four settings of one
/// user: a registration, a user record and a setting each start their key in their own
/// way, and the keys of one user's settings differ in length.
pub proof fn lemma_keys_apart(email: Seq<char>, token: Seq<char>, other: Seq<char>)
    ensures
        register_key(token) != user_key(other),
        !settings_keys(other).contains(register_key(token)),
        !settings_keys(other).contains(user_key(email)),
        settings_keys(email).no_duplicates(),
{
    reveal_strlit("user:");
    reveal_strlit("register:");
    reveal_strlit("settings:");
    reveal_strlit(":units:temperature");
    reveal_strlit(":units:pressure");
    reveal_strlit(":theme");
    reveal_strlit(":timeframe");
    assert(register_key(token)[0] == 'r');
    assert(user_key(other)[0] == 'u');
    assert(user_key(email)[0] == 'u');
    assert(temperature_key(other)[0] == 's');
    assert(pressure_key(other)[0] == 's');
    assert(theme_key(other)[0] == 's');
    assert(timeframe_key(other)[0] == 's');
    assert(temperature_key(email).len() == email.len() + 27);
    assert(pressure_key(email).len() == email.len() + 24);
    assert(theme_key(email).len() == email.len() + 15);
    assert(timeframe_key(email).len() == email.len() + 19);
}

/// The settings of a user after a write of all four are the ones written: a batched read
/// returns them, in their order.
pub proof fn lemma_settings_read_back(records: Records, email: Seq<char>, data: SettingsDataView)
    ensures
        stored_settings(
            answer(
                write_all(records, settings_records(email, data)),
                CommandView::ReadAll(settings_keys(email)),
            ),
        ) == Ok::<Seq<Seq<char>>, Malformed>(
            seq![data.temperature, data.pressure, data.theme, data.timeframe],
        ),
{
    let pairs = settings_records(email, data);
    let keys = settings_keys(email);
    let after = write_all(records, pairs);
    lemma_keys_apart(email, email, email);
    lemma_write_all_puts(records, pairs, 0);
    lemma_write_all_puts(records, pairs, 1);
    lemma_write_all_puts(records, pairs, 2);
    lemma_write_all_puts(records, pairs, 3);
    let items = answer(after, CommandView::ReadAll(keys))->Array_0;
    lemma_texts_of_encoded(
        items,
        seq![data.temperature, data.pressure, data.theme, data.timeframe],
    );
}

/// A write of several pairs leaves alone every key that is not among them.
pub proof fn lemma_write_all_keeps(
    records: Records,
    pairs: Seq<(Seq<char>, Seq<char>)>,
    key: Seq<char>,
)
    requires
        forall|i: int| 0 <= i < pairs.len() ==> (#[trigger] pairs[i]).0 != key,
    ensures
        write_all(records, pairs).contains_key(key) == records.contains_key(key),
        records.contains_key(key) ==> write_all(records, pairs)[key] == records[key],
    decreases pairs.len(),
{
    if pairs.len() > 0 {
        let front = pairs.drop_last();
        assert forall|i: int| 0 <= i < front.len() implies (#[trigger] front[i]).0 != key by {
            assert(front[i] == pairs[i]);
        }
        lemma_write_all_keeps(records, front, key);
        assert(pairs.last() == pairs[pairs.len() - 1]);
    }
}

/// After a write of several pairs, the key of a pair holds the bytes of its value, unless
/// a later pair has the same key.
pub proof fn lemma_write_all_puts(records: Records, pairs: Seq<(Seq<char>, Seq<char>)>, i: int)
    requires
        0 <= i < pairs.len(),
        forall|j: int| i < j < pairs.len() ==> (#[trigger] pairs[j]).0 != pairs[i].0,
    ensures
        write_all(records, pairs).contains_key(pairs[i].0),
        write_all(records, pairs)[pairs[i].0] == encode_utf8(pairs[i].1),
    decreases pairs.len(),
{
    let front = pairs.drop_last();
    assert(pairs.last() == pairs[pairs.len() - 1]);
    if i < pairs.len() - 1 {
        assert(front[i] == pairs[i]);
        assert forall|j: int| i < j < front.len() implies (#[trigger] front[j]).0
            != front[i].0 by {
            assert(front[j] == pairs[j]);
        }
        lemma_write_all_puts(records, front, i);
    }
}

/// A list whose entries all hold the bytes of a text reads as those texts.
pub proof fn lemma_texts_of_encoded(items: Seq<Option<Seq<u8>>>, texts: Seq<Seq<char>>)
    requires
        items.len() == texts.len(),
        forall|i: int| 0 <= i < items.len() ==> #[trigger] items[i] == Some(encode_utf8(texts[i])),
    ensures
        texts_of(items) == Ok::<Seq<Seq<char>>, Malformed>(texts),
    decreases items.len(),
{
    if items.len() == 0 {
        assert(texts =~= Seq::empty());
    } else {
        lemma_texts_of_encoded(items.drop_last(), texts.drop_last());
        encode_utf8_valid_utf8(texts.last());
        encode_utf8_decode_utf8(texts.last());
        assert(items.last() == Some(encode_utf8(texts.last())));
        assert(texts.drop_last().push(texts.last()) =~= texts);
    }
}

/// After the write that creates a user, the user record is there without the
/// administrator's mark, a batched read returns the default settings, and no
/// registration was touched.
pub proof fn lemma_new_user_records(records: Records, email: Seq<char>, token: Seq<char>)
    ensures
        ({
            let after = write_all(records, new_user_records(email));
            &&& after.contains_key(user_key(email))
            &&& after[user_key(email)] == encode_utf8(""@)
            &&& after[user_key(email)] != admin_marker()
            &&& stored_settings(answer(after, CommandView::ReadAll(settings_keys(email)))) == Ok::<
                Seq<Seq<char>>,
                Malformed,
            >(default_settings())
            &&& after.contains_key(register_key(token)) == records.contains_key(
                register_key(token),
            )
        }),
{
    let pairs = new_user_records(email);
    let after = write_all(records, pairs);
    lemma_keys_apart(email, token, email);
    lemma_write_all_puts(records, pairs, 0);
    lemma_write_all_puts(records, pairs, 1);
    lemma_write_all_puts(records, pairs, 2);
    lemma_write_all_puts(records, pairs, 3);
    lemma_write_all_puts(records, pairs, 4);
    lemma_write_all_keeps(records, pairs, register_key(token));
    let items = answer(after, CommandView::ReadAll(settings_keys(email)))->Array_0;
    lemma_texts_of_encoded(items, default_settings());
    reveal_strlit("");
    assert(encode_utf8(""@).len() == 0) by {
        reveal_with_fuel(encode_utf8, 1);
    }
}

/// Whether a write of `pairs` puts something under `key`.
pub open spec fn written(pairs: Seq<(Seq<char>, Seq<char>)>, key: Seq<char>) -> bool {
    exists|i: int| 0 <= i < pairs.len() && (#[trigger] pairs[i]).0 == key
}

/// After a write of several pairs there is a record under a key exactly if there was one
/// before or the write put one there.
pub proof fn lemma_write_all_domain(
    records: Records,
    pairs: Seq<(Seq<char>, Seq<char>)>,
    key: Seq<char>,
)
    ensures
        write_all(records, pairs).contains_key(key) <==> records.contains_key(key) || written(
            pairs,
            key,
        ),
    decreases pairs.len(),
{
    if pairs.len() > 0 {
        let front = pairs.drop_last();
        let last = pairs.len() - 1;
        lemma_write_all_domain(records, front, key);
        assert(pairs.last() == pairs[last]);
        if written(front, key) {
            let i = choose|i: int| 0 <= i < front.len() && (#[trigger] front[i]).0 == key;
            assert(pairs[i] == front[i]);
        }
        if written(pairs, key) && pairs[last].0 != key {
            let i = choose|i: int| 0 <= i < pairs.len() && (#[trigger] pairs[i]).0 == key;
            assert(front[i] == pairs[i]);
        }
    }
}

/// Every user has a record for each of the four settings.
pub open spec fn users_have_settings(records: Records) -> bool {
    forall|email: Seq<char>, key: Seq<char>|
        records.contains_key(#[trigger] user_key(email)) && #[trigger] settings_keys(
            email,
        ).contains(key) ==> records.contains_key(key)
}

/// No user record and no setting of `before` is missing in `after`.
pub open spec fn keeps_users(before: Records, after: Records) -> bool {
    &&& forall|email: Seq<char>|
        before.contains_key(#[trigger] user_key(email)) ==> after.contains_key(user_key(email))
    &&& forall|email: Seq<char>, key: Seq<char>|
        before.contains_key(key) && #[trigger] settings_keys(email).contains(key)
            ==> #[trigger] after.contains_key(key)
}

/// A write of several pairs removes nothing.
pub proof fn lemma_write_all_keeps_users(records: Records, pairs: Seq<(Seq<char>, Seq<char>)>)
    ensures
        keeps_users(records, write_all(records, pairs)),
{
    let after = write_all(records, pairs);
    assert forall|email: Seq<char>| records.contains_key(#[trigger] user_key(email)) implies
        after.contains_key(user_key(email)) by {
        lemma_write_all_domain(records, pairs, user_key(email));
    }
    assert forall|email: Seq<char>, key: Seq<char>|
        records.contains_key(key) && #[trigger] settings_keys(email).contains(
            key,
        ) implies #[trigger] after.contains_key(key) by {
        lemma_write_all_domain(records, pairs, key);
    }
}

/// Creating a user leaves every user with four settings, the new one included.
pub proof fn lemma_user_add_completes(records: Records, email: Seq<char>)
    requires
        users_have_settings(records),
    ensures
        users_have_settings(write_all(records, new_user_records(email))),
{
    let pairs = new_user_records(email);
    let after = write_all(records, pairs);
    assert forall|other: Seq<char>, key: Seq<char>|
        after.contains_key(#[trigger] user_key(other)) && #[trigger] settings_keys(other).contains(
            key,
        ) implies after.contains_key(key) by {
        lemma_write_all_domain(records, pairs, user_key(other));
        lemma_write_all_domain(records, pairs, key);
        if !records.contains_key(user_key(other)) {
            // The user record was written just now, so `other` is the new user.
            lemma_keys_apart(other, other, email);
            let i = choose|i: int| 0 <= i < pairs.len() && (#[trigger] pairs[i]).0 == user_key(
                other,
            );
            assert(i == 0) by {
                if i > 0 {
                    assert(settings_keys(email)[i - 1] == pairs[i].0);
                    assert(settings_keys(email).contains(user_key(other)));
                }
            }
            lemma_same_user(other, email);
            let j = choose|j: int| 0 <= j < 4 && settings_keys(email)[j] == key;
            assert(pairs[j + 1].0 == key);
        }
    }
}

/// Two addresses with the same user key are one address.
pub proof fn lemma_same_user(first: Seq<char>, second: Seq<char>)
    requires
        user_key(first) == user_key(second),
    ensures
        first == second,
{
    let prefix = "user:"@;
    assert(first =~= user_key(first).subrange(prefix.len() as int, user_key(first).len() as int));
    assert(second =~= user_key(second).subrange(
        prefix.len() as int,
        user_key(second).len() as int,
    ));
}

} // verus!
