use haak::database::{
    register_email, register_exists, register_exists_answer, register_remove, settings_get,
    settings_get_answer, settings_set, user_add, user_exists, user_exists_answer, user_is_admin,
    user_is_admin_answer, Command, Malformed, Reply, Word, REGISTRATION_SECONDS,
};
use haak::settings::{read_settings, SettingsData};

fn text(s: &str) -> String {
    s.to_string()
}

fn pair(key: &str, value: &str) -> (String, String) {
    (key.to_string(), value.to_string())
}

fn bulk(s: &str) -> Option<Vec<u8>> {
    Some(s.as_bytes().to_vec())
}

#[test]
fn user_exists_asks_for_the_user_record() {
    assert_eq!(user_exists(&text("a@x.com")), Command::Exists(text("user:a@x.com")));
}

#[test]
fn user_exists_for_an_empty_address() {
    assert_eq!(user_exists(&text("")), Command::Exists(text("user:")));
}

#[test]
fn user_exists_answer_is_true_for_one_only() {
    assert!(user_exists_answer(&Reply::Integer(1)));
    assert!(!user_exists_answer(&Reply::Integer(0)));
    assert!(!user_exists_answer(&Reply::Integer(2)));
    assert!(!user_exists_answer(&Reply::Integer(-1)));
    assert!(!user_exists_answer(&Reply::Nil));
    assert!(!user_exists_answer(&Reply::Other));
    assert!(!user_exists_answer(&Reply::Bulk(b"1".to_vec())));
    assert!(!user_exists_answer(&Reply::Array(vec![])));
}

#[test]
fn user_is_admin_reads_the_user_record() {
    assert_eq!(user_is_admin(&text("a@x.com")), Command::Read(text("user:a@x.com")));
}

#[test]
fn user_is_admin_answer_wants_the_exact_mark() {
    assert!(user_is_admin_answer(&Reply::Bulk(vec![97, 100, 109, 105, 110])));
    assert!(user_is_admin_answer(&Reply::Bulk(b"admin".to_vec())));
    assert!(!user_is_admin_answer(&Reply::Bulk(vec![])));
    assert!(!user_is_admin_answer(&Reply::Bulk(b"Admin".to_vec())));
    assert!(!user_is_admin_answer(&Reply::Bulk(b"admin ".to_vec())));
    assert!(!user_is_admin_answer(&Reply::Bulk(b"admi".to_vec())));
    assert!(!user_is_admin_answer(&Reply::Bulk(b"bdmin".to_vec())));
    assert!(!user_is_admin_answer(&Reply::Bulk(b"admio".to_vec())));
    assert!(!user_is_admin_answer(&Reply::Bulk(vec![0xff, 0xfe])));
    assert!(!user_is_admin_answer(&Reply::Nil));
    assert!(!user_is_admin_answer(&Reply::Integer(1)));
    assert!(!user_is_admin_answer(&Reply::Other));
    assert!(!user_is_admin_answer(&Reply::Array(vec![bulk("admin")])));
}

#[test]
fn register_email_stores_then_expires() {
    let (store, expire) = register_email(&text("b@x.com"), &text("tok"));
    assert_eq!(store, Command::Write(text("register:tok"), text("b@x.com")));
    assert_eq!(expire, Command::Expire(text("register:tok"), 3600));
    assert_eq!(REGISTRATION_SECONDS, 3600);
}

#[test]
fn register_exists_reads_the_registration() {
    assert_eq!(register_exists(&text("tok")), Command::Read(text("register:tok")));
}

#[test]
fn register_exists_answer_gives_the_address() {
    assert_eq!(register_exists_answer(&Reply::Bulk(b"b@x.com".to_vec())), Ok(Some(text("b@x.com"))));
    assert_eq!(register_exists_answer(&Reply::Bulk(vec![])), Ok(Some(text(""))));
    assert_eq!(
        register_exists_answer(&Reply::Bulk("bj\u{f8}rn@x.com".as_bytes().to_vec())),
        Ok(Some(text("bj\u{f8}rn@x.com")))
    );
}

#[test]
fn register_exists_answer_is_none_without_a_value() {
    assert_eq!(register_exists_answer(&Reply::Nil), Ok(None));
    assert_eq!(register_exists_answer(&Reply::Integer(1)), Ok(None));
    assert_eq!(register_exists_answer(&Reply::Other), Ok(None));
    assert_eq!(register_exists_answer(&Reply::Array(vec![bulk("b@x.com")])), Ok(None));
}

#[test]
fn register_exists_answer_faults_on_bytes_that_are_no_text() {
    assert_eq!(register_exists_answer(&Reply::Bulk(vec![0xff, 0xfe, 0xfd])), Err(Malformed::NotText));
    assert_eq!(register_exists_answer(&Reply::Bulk(vec![b'a', 0x80])), Err(Malformed::NotText));
}

#[test]
fn register_remove_deletes_the_registration() {
    assert_eq!(register_remove(&text("tok")), Command::Delete(text("register:tok")));
}

#[test]
fn user_add_writes_the_user_and_the_defaults() {
    assert_eq!(
        user_add(&text("b@x.com")),
        Command::WriteAll(vec![
            pair("user:b@x.com", ""),
            pair("settings:b@x.com:units:temperature", "Celsius"),
            pair("settings:b@x.com:units:pressure", "Bar"),
            pair("settings:b@x.com:theme", "Light"),
            pair("settings:b@x.com:timeframe", "Week"),
        ])
    );
}

#[test]
fn settings_get_reads_the_four_keys_in_order() {
    assert_eq!(
        settings_get(&text("b@x.com")),
        Command::ReadAll(vec![
            text("settings:b@x.com:units:temperature"),
            text("settings:b@x.com:units:pressure"),
            text("settings:b@x.com:theme"),
            text("settings:b@x.com:timeframe"),
        ])
    );
}

#[test]
fn settings_get_answer_keeps_the_order() {
    let reply = Reply::Array(vec![bulk("Kelvin"), bulk("PSI"), bulk("Dark"), bulk("Month")]);
    assert_eq!(
        settings_get_answer(&reply),
        Ok(vec![text("Kelvin"), text("PSI"), text("Dark"), text("Month")])
    );
}

#[test]
fn settings_get_answer_leaves_out_what_is_absent() {
    let reply = Reply::Array(vec![bulk("Kelvin"), None, bulk("Dark"), None]);
    assert_eq!(settings_get_answer(&reply), Ok(vec![text("Kelvin"), text("Dark")]));
    assert_eq!(settings_get_answer(&Reply::Array(vec![None, None, None, None])), Ok(vec![]));
    assert_eq!(settings_get_answer(&Reply::Array(vec![])), Ok(vec![]));
}

#[test]
fn settings_get_answer_faults_on_no_list() {
    assert_eq!(settings_get_answer(&Reply::Nil), Err(Malformed::NotAList));
    assert_eq!(settings_get_answer(&Reply::Integer(4)), Err(Malformed::NotAList));
    assert_eq!(settings_get_answer(&Reply::Bulk(b"Kelvin".to_vec())), Err(Malformed::NotAList));
    assert_eq!(settings_get_answer(&Reply::Other), Err(Malformed::NotAList));
}

#[test]
fn settings_get_answer_faults_on_bytes_that_are_no_text() {
    let reply = Reply::Array(vec![bulk("Kelvin"), Some(vec![0xc3, 0x28]), bulk("Dark"), bulk("Week")]);
    assert_eq!(settings_get_answer(&reply), Err(Malformed::NotText));
    let last = Reply::Array(vec![bulk("Kelvin"), None, Some(vec![0xff])]);
    assert_eq!(settings_get_answer(&last), Err(Malformed::NotText));
}

#[test]
fn read_settings_takes_the_first_four() {
    let reply = Reply::Array(vec![bulk("Kelvin"), bulk("PSI"), bulk("Dark"), bulk("Month"), bulk("more")]);
    assert_eq!(
        read_settings(&reply),
        Some(SettingsData {
            temperature: text("Kelvin"),
            pressure: text("PSI"),
            theme: text("Dark"),
            timeframe: text("Month"),
        })
    );
}

#[test]
fn read_settings_shows_nothing_of_fewer_than_four() {
    let reply = Reply::Array(vec![bulk("Kelvin"), None, bulk("Dark"), bulk("Month")]);
    assert_eq!(read_settings(&reply), None);
    assert_eq!(read_settings(&Reply::Array(vec![None, None, None, None])), None);
    assert_eq!(read_settings(&Reply::Array(vec![bulk("Kelvin"), bulk("PSI"), bulk("Dark")])), None);
    assert_eq!(read_settings(&Reply::Array(vec![])), None);
}

#[test]
fn read_settings_shows_nothing_of_a_reply_it_cannot_read() {
    assert_eq!(read_settings(&Reply::Nil), None);
    assert_eq!(read_settings(&Reply::Integer(4)), None);
    assert_eq!(read_settings(&Reply::Other), None);
    assert_eq!(read_settings(&Reply::Array(vec![Some(vec![0xff])])), None);
    let spoiled =
        Reply::Array(vec![bulk("Kelvin"), bulk("PSI"), bulk("Dark"), bulk("Month"), Some(vec![0xff])]);
    assert_eq!(read_settings(&spoiled), None);
}

#[test]
fn settings_set_writes_the_four_values() {
    let data = SettingsData {
        temperature: text("Fahrenheit"),
        pressure: text("Mercury"),
        theme: text("Dark"),
        timeframe: text("QuarterYear"),
    };
    assert_eq!(
        settings_set(&text("b@x.com"), &data),
        Command::WriteAll(vec![
            pair("settings:b@x.com:units:temperature", "Fahrenheit"),
            pair("settings:b@x.com:units:pressure", "Mercury"),
            pair("settings:b@x.com:theme", "Dark"),
            pair("settings:b@x.com:timeframe", "QuarterYear"),
        ])
    );
}

#[test]
fn words_of_single_key_commands() {
    assert_eq!(
        Command::Exists(text("user:a")).words(),
        vec![Word::Text(text("EXISTS")), Word::Text(text("user:a"))]
    );
    assert_eq!(
        Command::Read(text("user:a")).words(),
        vec![Word::Text(text("GET")), Word::Text(text("user:a"))]
    );
    assert_eq!(
        Command::Delete(text("register:t")).words(),
        vec![Word::Text(text("DEL")), Word::Text(text("register:t"))]
    );
}

#[test]
fn words_of_write_and_expire() {
    assert_eq!(
        Command::Write(text("register:t"), text("b@x.com")).words(),
        vec![Word::Text(text("SET")), Word::Text(text("register:t")), Word::Text(text("b@x.com"))]
    );
    assert_eq!(
        Command::Expire(text("register:t"), 3600).words(),
        vec![Word::Text(text("EXPIRE")), Word::Text(text("register:t")), Word::Number(3600)]
    );
    assert_eq!(
        Command::Expire(text("k"), u32::MAX).words(),
        vec![Word::Text(text("EXPIRE")), Word::Text(text("k")), Word::Number(4294967295)]
    );
}

#[test]
fn words_of_batched_commands() {
    assert_eq!(
        Command::WriteAll(vec![pair("k1", "v1"), pair("k2", "v2")]).words(),
        vec![
            Word::Text(text("MSET")),
            Word::Text(text("k1")),
            Word::Text(text("v1")),
            Word::Text(text("k2")),
            Word::Text(text("v2")),
        ]
    );
    assert_eq!(
        Command::ReadAll(vec![text("k1"), text("k2"), text("k3")]).words(),
        vec![
            Word::Text(text("MGET")),
            Word::Text(text("k1")),
            Word::Text(text("k2")),
            Word::Text(text("k3")),
        ]
    );
    assert_eq!(Command::WriteAll(vec![]).words(), vec![Word::Text(text("MSET"))]);
    assert_eq!(Command::ReadAll(vec![]).words(), vec![Word::Text(text("MGET"))]);
}

#[test]
fn words_of_user_add() {
    let words = user_add(&text("b@x.com")).words();
    assert_eq!(words.len(), 11);
    assert_eq!(words[0], Word::Text(text("MSET")));
    assert_eq!(words[1], Word::Text(text("user:b@x.com")));
    assert_eq!(words[2], Word::Text(text("")));
    assert_eq!(words[9], Word::Text(text("settings:b@x.com:timeframe")));
    assert_eq!(words[10], Word::Text(text("Week")));
}

#[test]
fn keys_take_the_address_as_it_is() {
    assert_eq!(
        user_exists(&text("bj\u{f8}rn@x.com")),
        Command::Exists(text("user:bj\u{f8}rn@x.com"))
    );
    assert_eq!(
        settings_get(&text("a:b")).words()[3],
        Word::Text(text("settings:a:b:theme"))
    );
    assert_eq!(register_remove(&text("")), Command::Delete(text("register:")));
}
