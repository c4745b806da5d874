use std::collections::HashMap;

use haak::auth::{
    login_submit, login_submit_with, register, register_with, verify_login, verify_register,
    Identity, LoginStage, RegisterStage, VerifyQuery, VerifyStage,
};
use haak::database::{Command, Reply};
use haak::email::{send_challenge, send_register, Mail};
use haak::flow::{Action, Event};
use haak::graph::{graph_index, GraphSettings, GraphStage};
use haak::response::{Body, Page, Response};
use haak::auth::LoginChallenge;
use haak::session::Session;
use haak::settings::{
    settings_index, settings_save, SaveStage, Settings, SettingsData, SettingsStage,
};

const SITE: &str = "weather.example.org";

/// What a request ends with when its handler says that it was called out of turn.
#[derive(Debug, PartialEq)]
struct OutOfTurn;

/// A store and a mailer in memory, for the handlers to be played against.
struct World {
    records: HashMap<String, Vec<u8>>,
    asked: Vec<Command>,
    sent: Vec<Mail>,
    delivers: bool,
}

impl World {
    fn new() -> World {
        World { records: HashMap::new(), asked: Vec::new(), sent: Vec::new(), delivers: true }
    }

    fn with(records: &[(&str, &str)]) -> World {
        let mut world = World::new();
        for (key, value) in records {
            world.records.insert(key.to_string(), value.as_bytes().to_vec());
        }
        world
    }

    fn count(&self, key: &str) -> i64 {
        if self.records.contains_key(key) {
            1
        } else {
            0
        }
    }

    fn answer(&mut self, command: Command) -> Reply {
        let reply = match &command {
            Command::Exists(key) => Reply::Integer(self.count(key)),
            Command::Read(key) => match self.records.get(key) {
                Some(value) => Reply::Bulk(value.clone()),
                None => Reply::Nil,
            },
            Command::Write(key, value) => {
                self.records.insert(key.clone(), value.clone().into_bytes());
                Reply::Other
            }
            Command::Expire(key, _) => Reply::Integer(self.count(key)),
            Command::Delete(key) => {
                let count = self.count(key);
                self.records.remove(key);
                Reply::Integer(count)
            }
            Command::WriteAll(pairs) => {
                for (key, value) in pairs {
                    self.records.insert(key.clone(), value.clone().into_bytes());
                }
                Reply::Other
            }
            Command::ReadAll(keys) => {
                Reply::Array(keys.iter().map(|key| self.records.get(key).cloned()).collect())
            }
        };
        self.asked.push(command);
        reply
    }

    fn value(&self, key: &str) -> Option<&str> {
        self.records.get(key).map(|bytes| std::str::from_utf8(bytes).unwrap())
    }

    /// Plays a handler from its first call to its end.
    fn play<S>(
        &mut self,
        start: S,
        mut handler: impl FnMut(S, Option<Event>) -> (S, Action),
    ) -> Result<Response, OutOfTurn> {
        let mut stage = start;
        let mut event = None;
        loop {
            let (next, action) = handler(stage, event);
            stage = next;
            event = Some(match action {
                Action::Respond(response) => return Ok(response),
                Action::OutOfTurn => return Err(OutOfTurn),
                Action::Ask(command) => Event::Reply(self.answer(command)),
                Action::Send(mail) => {
                    self.sent.push(mail);
                    Event::Sent(self.delivers)
                }
            });
        }
    }

    fn login(&mut self, email: &str, session: &mut Session) -> Result<Response, OutOfTurn> {
        let form = identity(email);
        self.play(LoginStage::Start, |stage, event| {
            login_submit(stage, event, &form, session, SITE)
        })
    }

    fn login_with(
        &mut self,
        email: &str,
        session: &mut Session,
        challenge: &str,
    ) -> Result<Response, OutOfTurn> {
        let form = identity(email);
        self.play(LoginStage::Start, |stage, event| {
            login_submit_with(stage, event, &form, true, session, SITE, challenge.to_string())
        })
    }

    fn register(&mut self, email: &str, session: &Session) -> Result<Response, OutOfTurn> {
        let form = identity(email);
        self.play(RegisterStage::Start, |stage, event| register(stage, event, &form, session, SITE))
    }

    fn register_with(
        &mut self,
        email: &str,
        session: &Session,
        challenge: &str,
    ) -> Result<Response, OutOfTurn> {
        let form = identity(email);
        self.play(RegisterStage::Start, |stage, event| {
            register_with(stage, event, &form, true, session, SITE, challenge.to_string())
        })
    }

    fn verify_register(&mut self, challenge: &str) -> Result<Response, OutOfTurn> {
        let query = VerifyQuery { challenge: challenge.to_string() };
        self.play(VerifyStage::Start, |stage, event| verify_register(stage, event, &query))
    }

    fn dashboard(&mut self, session: &Session) -> Result<Response, OutOfTurn> {
        self.play(GraphStage::Start, |stage, event| graph_index(stage, event, session))
    }

    fn settings(&mut self, session: &Session) -> Result<Response, OutOfTurn> {
        self.play(SettingsStage::Start, |stage, event| settings_index(stage, event, session))
    }

    fn save(&mut self, form: &SettingsData, session: &Session) -> Result<Response, OutOfTurn> {
        self.play(SaveStage::Start, |stage, event| settings_save(stage, event, form, session))
    }
}

fn identity(email: &str) -> Identity {
    Identity { email: email.to_string() }
}

fn signed_in(email: &str) -> Session {
    Session { email: Some(email.to_string()), pending_login: None }
}

fn data(temperature: &str, pressure: &str, theme: &str, timeframe: &str) -> SettingsData {
    SettingsData {
        temperature: temperature.to_string(),
        pressure: pressure.to_string(),
        theme: theme.to_string(),
        timeframe: timeframe.to_string(),
    }
}

fn user_records<'a>(email: &str, t: &'a str, p: &'a str, th: &'a str, tf: &'a str) -> Vec<(String, &'a str)> {
    vec![
        (format!("user:{}", email), ""),
        (format!("settings:{}:units:temperature", email), t),
        (format!("settings:{}:units:pressure", email), p),
        (format!("settings:{}:theme", email), th),
        (format!("settings:{}:timeframe", email), tf),
    ]
}

fn world_of(records: &[(String, &str)]) -> World {
    let mut world = World::new();
    for (key, value) in records {
        world.records.insert(key.clone(), value.as_bytes().to_vec());
    }
    world
}

fn text(status: u16, text: &str) -> Response {
    Response::Rejected(status, Body::Text(text.to_string()))
}

fn check_mail() -> Response {
    Response::Success(Body::Text("Check your mail for login code".to_string()))
}

// Login

#[test]
fn login_refuses_what_is_no_address() {
    for email in ["", "abc", "abc@", "a @x.cz", "something@@somewhere.com", "a@b.com\n"] {
        let mut world = World::with(&[("user:abc", "")]);
        let mut session = Session::new();
        assert_eq!(world.login(email, &mut session), Ok(text(422, "Invalid email")), "{:?}", email);
        assert!(world.asked.is_empty());
        assert!(world.sent.is_empty());
        assert_eq!(session, Session::new());
    }
}

#[test]
fn login_accepts_what_is_an_address() {
    for email in ["email@here.com", "weirder-email@here.and.there.com", "abc@bar", "email@[127.0.0.1]"] {
        let mut session = Session::new();
        let (stage, action) =
            login_submit(LoginStage::Start, None, &identity(email), &mut session, SITE);
        assert_eq!(stage, LoginStage::CheckingUser);
        assert_eq!(action, Action::Ask(Command::Exists(format!("user:{}", email))));
    }
}

#[test]
fn login_sends_a_signed_in_user_to_the_dashboard() {
    let mut world = World::with(&[("user:a@x.com", "")]);
    let mut session = signed_in("a@x.com");
    assert_eq!(world.login("a@x.com", &mut session), Ok(Response::Redirect("/".to_string())));
    assert_eq!(world.login("no address", &mut session), Ok(Response::Redirect("/".to_string())));
    assert!(world.asked.is_empty());
    assert!(world.sent.is_empty());
    assert_eq!(session, signed_in("a@x.com"));
}

#[test]
fn login_for_a_stranger_looks_like_a_login() {
    let mut world = World::new();
    let mut session = Session::new();
    assert_eq!(world.login("a@x.com", &mut session), Ok(check_mail()));
    assert_eq!(world.asked, vec![Command::Exists("user:a@x.com".to_string())]);
    assert!(world.sent.is_empty());
    assert_eq!(session, Session::new());

    let mut known = World::with(&[("user:a@x.com", "")]);
    let mut other = Session::new();
    assert_eq!(known.login("a@x.com", &mut other), Ok(check_mail()));
}

#[test]
fn login_for_a_user_issues_a_challenge() {
    let mut world = World::with(&[("user:a@x.com", "")]);
    let mut session = Session::new();
    assert_eq!(world.login("a@x.com", &mut session), Ok(check_mail()));
    assert_eq!(world.asked, vec![Command::Exists("user:a@x.com".to_string())]);
    let pending = session.pending_login.as_ref().unwrap();
    assert_eq!(pending.email, "a@x.com");
    assert_eq!(pending.challenge.len(), 44);
    assert_eq!(session.email, None);
    assert_eq!(
        world.sent,
        vec![send_challenge("a@x.com".to_string(), pending.challenge.clone(), SITE)]
    );
    assert!(world.sent[0].html.contains(&pending.challenge));
    assert_eq!(world.records.len(), 1);
}

#[test]
fn login_with_a_given_challenge() {
    let mut world = World::with(&[("user:a@x.com", "admin")]);
    let mut session = Session::new();
    assert_eq!(world.login_with("a@x.com", &mut session, "tok"), Ok(check_mail()));
    assert_eq!(
        session,
        Session {
            email: None,
            pending_login: Some(LoginChallenge {
                email: "a@x.com".to_string(),
                challenge: "tok".to_string()
            }),
        }
    );
    assert_eq!(world.sent.len(), 1);
    assert_eq!(world.sent[0].to, "a@x.com");
    assert!(world.sent[0]
        .html
        .contains("<a href=\"https://weather.example.org/verify_login?c=tok\">"));
}

#[test]
fn login_again_overwrites_the_pending_login() {
    let mut world = World::with(&[("user:a@x.com", ""), ("user:b@x.com", "")]);
    let mut session = Session::new();
    world.login_with("a@x.com", &mut session, "first").unwrap();
    world.login_with("b@x.com", &mut session, "second").unwrap();
    assert_eq!(
        session.pending_login,
        Some(LoginChallenge { email: "b@x.com".to_string(), challenge: "second".to_string() })
    );
    assert_eq!(
        verify_login(&VerifyQuery { challenge: "first".to_string() }, &mut session),
        Response::Rejected(401, Body::Page(Page::InvalidToken))
    );
    assert_eq!(
        verify_login(&VerifyQuery { challenge: "second".to_string() }, &mut session),
        Response::Success(Body::Page(Page::Verified))
    );
    assert_eq!(session, signed_in("b@x.com"));
}

#[test]
fn login_for_a_stranger_keeps_an_earlier_pending_login() {
    let mut world = World::with(&[("user:a@x.com", "")]);
    let mut session = Session::new();
    world.login_with("a@x.com", &mut session, "first").unwrap();
    assert_eq!(world.login_with("nobody@x.com", &mut session, "second"), Ok(check_mail()));
    assert_eq!(
        session.pending_login,
        Some(LoginChallenge { email: "a@x.com".to_string(), challenge: "first".to_string() })
    );
    assert_eq!(world.sent.len(), 1);
}

#[test]
fn login_reports_a_mail_that_could_not_be_sent() {
    let mut world = World::with(&[("user:a@x.com", "")]);
    world.delivers = false;
    let mut session = Session::new();
    assert_eq!(
        world.login_with("a@x.com", &mut session, "tok"),
        Ok(text(500, "Could not send authentication mail"))
    );
    assert_eq!(world.sent.len(), 1);
    assert_eq!(
        session.pending_login,
        Some(LoginChallenge { email: "a@x.com".to_string(), challenge: "tok".to_string() })
    );
}

#[test]
fn login_takes_any_reply_but_one_for_a_stranger() {
    for reply in [Reply::Integer(0), Reply::Integer(2), Reply::Nil, Reply::Other, Reply::Bulk(vec![49])] {
        let mut session = Session::new();
        let (stage, action) = login_submit(
            LoginStage::CheckingUser,
            Some(Event::Reply(reply)),
            &identity("a@x.com"),
            &mut session,
            SITE,
        );
        assert_eq!(stage, LoginStage::Done);
        assert_eq!(action, Action::Respond(check_mail()));
        assert_eq!(session, Session::new());
    }
}

#[test]
fn login_faults_on_an_event_out_of_turn() {
    let form = identity("a@x.com");
    let mut session = Session::new();
    let out_of_turn = [
        (LoginStage::Start, Some(Event::Sent(true))),
        (LoginStage::Start, Some(Event::Reply(Reply::Integer(1)))),
        (LoginStage::CheckingUser, None),
        (LoginStage::CheckingUser, Some(Event::Sent(true))),
        (LoginStage::Mailing, None),
        (LoginStage::Mailing, Some(Event::Reply(Reply::Integer(1)))),
        (LoginStage::Done, None),
        (LoginStage::Done, Some(Event::Sent(false))),
    ];
    for (stage, event) in out_of_turn {
        let (next, action) = login_submit(stage, event, &form, &mut session, SITE);
        assert_eq!(next, LoginStage::Done);
        assert_eq!(action, Action::OutOfTurn);
        assert_eq!(session, Session::new());
    }
}

#[test]
fn login_goes_by_the_verdict_it_is_given() {
    let mut session = Session::new();
    assert_eq!(
        login_submit_with(
            LoginStage::Start,
            None,
            &identity("a@x.com"),
            false,
            &mut session,
            SITE,
            String::new()
        ),
        (LoginStage::Done, Action::Respond(text(422, "Invalid email")))
    );
    assert_eq!(
        login_submit_with(
            LoginStage::Start,
            None,
            &identity("no address"),
            true,
            &mut session,
            SITE,
            String::new()
        ),
        (LoginStage::CheckingUser, Action::Ask(Command::Exists("user:no address".to_string())))
    );
    assert_eq!(session, Session::new());
}

// Registration

#[test]
fn register_goes_by_the_verdict_it_is_given() {
    let session = signed_in("a@x.com");
    let admin = Some(Event::Reply(Reply::Bulk(b"admin".to_vec())));
    assert_eq!(
        register_with(
            RegisterStage::CheckingAdmin,
            admin.clone(),
            &identity("b@x.com"),
            false,
            &session,
            SITE,
            String::new()
        ),
        (RegisterStage::Done, Action::Respond(text(422, "Invalid email")))
    );
    assert_eq!(
        register_with(
            RegisterStage::CheckingAdmin,
            admin,
            &identity("no address"),
            true,
            &session,
            SITE,
            String::new()
        ),
        (RegisterStage::CheckingUser, Action::Ask(Command::Exists("user:no address".to_string())))
    );
    assert_eq!(
        register_with(
            RegisterStage::CheckingAdmin,
            Some(Event::Reply(Reply::Bulk(vec![]))),
            &identity("b@x.com"),
            true,
            &session,
            SITE,
            String::new()
        ),
        (RegisterStage::Done, Action::Respond(Response::Rejected(401, Body::Empty)))
    );
}

#[test]
fn register_refuses_whoever_is_not_signed_in() {
    let mut world = World::with(&[("user:a@x.com", "admin")]);
    for email in ["b@x.com", "no address", "a@x.com"] {
        assert_eq!(
            world.register(email, &Session::new()),
            Ok(Response::Rejected(401, Body::Empty))
        );
    }
    assert!(world.asked.is_empty());
    assert!(world.sent.is_empty());
}

#[test]
fn register_refuses_whoever_is_no_admin() {
    let mut world = World::with(&[("user:a@x.com", "admin"), ("user:u@x.com", ""), ("user:v@x.com", "Admin")]);
    for user in ["u@x.com", "v@x.com", "ghost@x.com"] {
        for email in ["b@x.com", "no address", "a@x.com"] {
            world.asked.clear();
            assert_eq!(
                world.register(email, &signed_in(user)),
                Ok(Response::Rejected(401, Body::Empty))
            );
            assert_eq!(world.asked, vec![Command::Read(format!("user:{}", user))]);
        }
    }
    assert!(world.sent.is_empty());
    assert_eq!(world.records.len(), 3);
}

#[test]
fn register_refuses_what_is_no_address() {
    let mut world = World::with(&[("user:a@x.com", "admin")]);
    for email in ["", "abc", "example@invalid-.com"] {
        world.asked.clear();
        assert_eq!(world.register(email, &signed_in("a@x.com")), Ok(text(422, "Invalid email")));
        assert_eq!(world.asked, vec![Command::Read("user:a@x.com".to_string())]);
    }
    assert!(world.sent.is_empty());
    assert_eq!(world.records.len(), 1);
}

#[test]
fn register_refuses_an_address_that_has_a_user() {
    let mut world = World::with(&[("user:a@x.com", "admin"), ("user:b@x.com", "")]);
    assert_eq!(
        world.register("b@x.com", &signed_in("a@x.com")),
        Ok(text(422, "Email already registered"))
    );
    assert_eq!(
        world.register("a@x.com", &signed_in("a@x.com")),
        Ok(text(422, "Email already registered"))
    );
    assert!(world.sent.is_empty());
    assert_eq!(world.records.len(), 2);
    assert!(world.asked.iter().all(|c| matches!(c, Command::Read(_) | Command::Exists(_))));
}

#[test]
fn register_stores_the_challenge_and_mails_it() {
    let mut world = World::with(&[("user:a@x.com", "admin")]);
    assert_eq!(world.register_with("b@x.com", &signed_in("a@x.com"), "tok"), Ok(check_mail()));
    assert_eq!(
        world.asked,
        vec![
            Command::Read("user:a@x.com".to_string()),
            Command::Exists("user:b@x.com".to_string()),
            Command::Write("register:tok".to_string(), "b@x.com".to_string()),
            Command::Expire("register:tok".to_string(), 3600),
        ]
    );
    assert_eq!(world.sent, vec![send_register("b@x.com".to_string(), "tok".to_string(), SITE)]);
    assert_eq!(world.value("register:tok"), Some("b@x.com"));
    assert_eq!(world.records.len(), 2);
}

#[test]
fn register_draws_its_own_challenge() {
    let mut world = World::with(&[("user:a@x.com", "admin")]);
    assert_eq!(world.register("b@x.com", &signed_in("a@x.com")), Ok(check_mail()));
    let key = world.records.keys().find(|key| key.starts_with("register:")).unwrap().clone();
    let challenge = &key["register:".len()..];
    assert_eq!(challenge.len(), 44);
    assert_eq!(world.value(&key), Some("b@x.com"));
    assert_eq!(
        world.sent,
        vec![send_register("b@x.com".to_string(), challenge.to_string(), SITE)]
    );
    assert_eq!(world.asked[3], Command::Expire(key.clone(), 3600));
}

#[test]
fn register_reports_a_mail_that_could_not_be_sent() {
    let mut world = World::with(&[("user:a@x.com", "admin")]);
    world.delivers = false;
    assert_eq!(
        world.register_with("b@x.com", &signed_in("a@x.com"), "tok"),
        Ok(text(500, "Could not send authentication mail"))
    );
    assert_eq!(world.value("register:tok"), Some("b@x.com"));
}

#[test]
fn register_faults_on_an_event_out_of_turn() {
    let form = identity("b@x.com");
    let session = signed_in("a@x.com");
    let (next, action) = register(RegisterStage::Start, Some(Event::Sent(true)), &form, &session, SITE);
    assert_eq!((next, action), (RegisterStage::Done, Action::OutOfTurn));
    let (next, action) = register(RegisterStage::CheckingAdmin, None, &form, &session, SITE);
    assert_eq!((next, action), (RegisterStage::Done, Action::OutOfTurn));
    let (next, action) = register(
        RegisterStage::Storing("tok".to_string()),
        Some(Event::Sent(true)),
        &form,
        &session,
        SITE,
    );
    assert_eq!((next, action), (RegisterStage::Done, Action::OutOfTurn));
    let (next, action) = register(
        RegisterStage::Mailing,
        Some(Event::Reply(Reply::Other)),
        &form,
        &session,
        SITE,
    );
    assert_eq!((next, action), (RegisterStage::Done, Action::OutOfTurn));
    let (next, action) = register(RegisterStage::Done, None, &form, &session, SITE);
    assert_eq!((next, action), (RegisterStage::Done, Action::OutOfTurn));
}

// Registration links

#[test]
fn verify_register_refuses_an_unknown_link() {
    let mut world = World::with(&[("user:a@x.com", "admin")]);
    assert_eq!(
        world.verify_register("tok"),
        Ok(Response::Rejected(401, Body::Page(Page::InvalidToken)))
    );
    assert_eq!(world.asked, vec![Command::Read("register:tok".to_string())]);
    assert_eq!(world.records.len(), 1);
}

#[test]
fn verify_register_creates_the_user_with_defaults() {
    let mut world = World::with(&[("register:tok", "b@x.com")]);
    assert_eq!(world.verify_register("tok"), Ok(Response::Success(Body::Page(Page::Registered))));
    assert_eq!(world.value("user:b@x.com"), Some(""));
    assert_eq!(world.value("settings:b@x.com:units:temperature"), Some("Celsius"));
    assert_eq!(world.value("settings:b@x.com:units:pressure"), Some("Bar"));
    assert_eq!(world.value("settings:b@x.com:theme"), Some("Light"));
    assert_eq!(world.value("settings:b@x.com:timeframe"), Some("Week"));
    assert_eq!(world.value("register:tok"), None);
    assert_eq!(world.records.len(), 5);
    assert_eq!(world.asked.len(), 3);
    assert_eq!(world.asked[2], Command::Delete("register:tok".to_string()));
}

#[test]
fn verify_register_works_once() {
    let mut world = World::with(&[("register:tok", "b@x.com")]);
    assert_eq!(world.verify_register("tok"), Ok(Response::Success(Body::Page(Page::Registered))));
    assert_eq!(
        world.verify_register("tok"),
        Ok(Response::Rejected(401, Body::Page(Page::InvalidToken)))
    );
    assert_eq!(world.value("user:b@x.com"), Some(""));
    assert_eq!(world.value("settings:b@x.com:units:temperature"), Some("Celsius"));
    assert_eq!(world.value("settings:b@x.com:units:pressure"), Some("Bar"));
    assert_eq!(world.value("settings:b@x.com:theme"), Some("Light"));
    assert_eq!(world.value("settings:b@x.com:timeframe"), Some("Week"));
    assert_eq!(world.records.len(), 5);
}

#[test]
fn verify_register_refuses_a_registration_that_is_no_text() {
    let mut world = World::new();
    world.records.insert("register:tok".to_string(), vec![0xff, 0xfe]);
    assert_eq!(
        world.verify_register("tok"),
        Ok(Response::Rejected(401, Body::Page(Page::InvalidToken)))
    );
    assert_eq!(world.asked, vec![Command::Read("register:tok".to_string())]);
    assert_eq!(world.records.len(), 1);
}

#[test]
fn every_request_played_in_turn_is_answered() {
    let stores = [
        World::new(),
        World::with(&[("user:a@x.com", "admin")]),
        world_of(&user_records("a@x.com", "Kelvin", "PSI", "Dark", "Month")),
        World::with(&[("user:a@x.com", "admin"), ("settings:a@x.com:theme", "Dark")]),
        World::with(&[("register:tok", "b@x.com"), ("user:b@x.com", "")]),
    ];
    for mut world in stores {
        world.records.insert("settings:a@x.com:timeframe".to_string(), vec![0xff]);
        for delivers in [true, false] {
            world.delivers = delivers;
            for session in [Session::new(), signed_in("a@x.com"), signed_in("b@x.com")] {
                for email in ["a@x.com", "b@x.com", "no address"] {
                    let mut current = session.clone();
                    assert!(world.login(email, &mut current).is_ok());
                    assert!(world.register(email, &session).is_ok());
                }
                assert!(world.dashboard(&session).is_ok());
                assert!(world.settings(&session).is_ok());
                assert!(world.save(&data("Kelvin", "PSI", "Dark", "Month"), &session).is_ok());
                assert!(world.save(&data("Kelvin", "PSI", "Dark", "Never"), &session).is_ok());
            }
            assert!(world.verify_register("tok").is_ok());
            assert!(world.verify_register("none").is_ok());
        }
    }
}

#[test]
fn verify_register_faults_on_an_event_out_of_turn() {
    let query = VerifyQuery { challenge: "tok".to_string() };
    assert_eq!(
        verify_register(VerifyStage::Start, Some(Event::Reply(Reply::Nil)), &query),
        (VerifyStage::Done, Action::OutOfTurn)
    );
    assert_eq!(
        verify_register(VerifyStage::Looking, Some(Event::Sent(true)), &query),
        (VerifyStage::Done, Action::OutOfTurn)
    );
    assert_eq!(
        verify_register(VerifyStage::Adding, None, &query),
        (VerifyStage::Done, Action::OutOfTurn)
    );
    assert_eq!(
        verify_register(VerifyStage::Done, Some(Event::Reply(Reply::Nil)), &query),
        (VerifyStage::Done, Action::OutOfTurn)
    );
}

// Pages

#[test]
fn pages_send_strangers_to_the_login_page() {
    let mut world = world_of(&user_records("a@x.com", "Kelvin", "PSI", "Dark", "Month"));
    assert_eq!(world.dashboard(&Session::new()), Ok(Response::Redirect("/login".to_string())));
    assert_eq!(world.settings(&Session::new()), Ok(Response::Redirect("/login".to_string())));
    assert!(world.asked.is_empty());
}

#[test]
fn dashboard_shows_the_stored_settings() {
    let mut world = world_of(&user_records("a@x.com", "Kelvin", "PSI", "Dark", "Month"));
    assert_eq!(
        world.dashboard(&signed_in("a@x.com")),
        Ok(Response::Success(Body::Graph(GraphSettings {
            temperature: "Kelvin".to_string(),
            pressure: "PSI".to_string(),
            theme: "Dark".to_string(),
            timeframe: "Month".to_string(),
        })))
    );
    assert_eq!(world.asked.len(), 1);
}

#[test]
fn settings_page_shows_the_stored_settings() {
    let mut world = world_of(&user_records("a@x.com", "Kelvin", "PSI", "Dark", "Month"));
    assert_eq!(
        world.settings(&signed_in("a@x.com")),
        Ok(Response::Success(Body::Settings(Settings {
            temperature: "Kelvin".to_string(),
            pressure: "PSI".to_string(),
            theme: "Dark".to_string(),
            timeframe: "Month".to_string(),
            admin: false,
        })))
    );
    assert_eq!(
        world.asked[1],
        Command::Read("user:a@x.com".to_string())
    );
}

#[test]
fn settings_page_shows_the_registration_form_to_an_admin() {
    let mut world = world_of(&user_records("a@x.com", "Celsius", "Bar", "Light", "Week"));
    world.records.insert("user:a@x.com".to_string(), b"admin".to_vec());
    match world.settings(&signed_in("a@x.com")) {
        Ok(Response::Success(Body::Settings(page))) => assert!(page.admin),
        other => panic!("{:?}", other),
    }
}

#[test]
fn pages_tolerate_missing_settings() {
    let missing = Ok(text(500, "Could not read settings"));
    for key in [
        "settings:a@x.com:units:temperature",
        "settings:a@x.com:units:pressure",
        "settings:a@x.com:theme",
        "settings:a@x.com:timeframe",
    ] {
        let mut world = world_of(&user_records("a@x.com", "Kelvin", "PSI", "Dark", "Month"));
        world.records.remove(key);
        assert_eq!(world.dashboard(&signed_in("a@x.com")), missing, "{}", key);
        assert_eq!(world.settings(&signed_in("a@x.com")), missing, "{}", key);
        assert_eq!(world.asked.len(), 2);
        assert!(world.asked.iter().all(|command| matches!(command, Command::ReadAll(_))));
        assert_eq!(world.records.len(), 4);
    }
}

#[test]
fn pages_tolerate_a_user_without_any_settings() {
    let missing = Ok(text(500, "Could not read settings"));
    let mut world = World::with(&[("user:a@x.com", "admin")]);
    assert_eq!(world.dashboard(&signed_in("a@x.com")), missing);
    assert_eq!(world.settings(&signed_in("a@x.com")), missing);
    assert_eq!(world.dashboard(&signed_in("ghost@x.com")), missing);
    assert_eq!(world.settings(&signed_in("ghost@x.com")), missing);
    assert_eq!(world.records.len(), 1);
}

#[test]
fn pages_tolerate_settings_that_are_no_text() {
    let missing = Ok(text(500, "Could not read settings"));
    let mut world = world_of(&user_records("a@x.com", "Kelvin", "PSI", "Dark", "Month"));
    world.records.insert("settings:a@x.com:theme".to_string(), vec![0xff, 0xfe]);
    assert_eq!(world.dashboard(&signed_in("a@x.com")), missing);
    assert_eq!(world.settings(&signed_in("a@x.com")), missing);
}

#[test]
fn pages_tolerate_a_reply_that_is_no_list() {
    let session = signed_in("a@x.com");
    let missing = Action::Respond(text(500, "Could not read settings"));
    for reply in [Reply::Nil, Reply::Integer(4), Reply::Other, Reply::Bulk(b"Kelvin".to_vec())] {
        assert_eq!(
            graph_index(GraphStage::Reading, Some(Event::Reply(reply.clone())), &session),
            (GraphStage::Done, missing.clone())
        );
        assert_eq!(
            settings_index(SettingsStage::Reading, Some(Event::Reply(reply)), &session),
            (SettingsStage::Done, missing.clone())
        );
    }
}

#[test]
fn pages_show_the_first_four_of_a_longer_reply() {
    let session = signed_in("a@x.com");
    let reply = Reply::Array(vec![
        Some(b"Kelvin".to_vec()),
        Some(b"PSI".to_vec()),
        Some(b"Dark".to_vec()),
        Some(b"Month".to_vec()),
        Some(b"more".to_vec()),
    ]);
    assert_eq!(
        graph_index(GraphStage::Reading, Some(Event::Reply(reply)), &session),
        (
            GraphStage::Done,
            Action::Respond(Response::Success(Body::Graph(GraphSettings {
                temperature: "Kelvin".to_string(),
                pressure: "PSI".to_string(),
                theme: "Dark".to_string(),
                timeframe: "Month".to_string(),
            })))
        )
    );
}

#[test]
fn pages_fault_on_an_event_out_of_turn() {
    let session = signed_in("a@x.com");
    assert_eq!(
        graph_index(GraphStage::Start, Some(Event::Reply(Reply::Nil)), &session),
        (GraphStage::Done, Action::OutOfTurn)
    );
    assert_eq!(
        graph_index(GraphStage::Reading, None, &session),
        (GraphStage::Done, Action::OutOfTurn)
    );
    assert_eq!(
        graph_index(GraphStage::Done, None, &session),
        (GraphStage::Done, Action::OutOfTurn)
    );
    assert_eq!(
        settings_index(SettingsStage::Reading, Some(Event::Sent(true)), &session),
        (SettingsStage::Done, Action::OutOfTurn)
    );
    assert_eq!(
        settings_index(
            SettingsStage::Reading,
            Some(Event::Reply(Reply::Array(vec![]))),
            &Session::new()
        ),
        (SettingsStage::Done, Action::OutOfTurn)
    );
    assert_eq!(
        settings_index(
            SettingsStage::CheckingAdmin(data("Kelvin", "PSI", "Dark", "Month")),
            None,
            &session
        ),
        (SettingsStage::Done, Action::OutOfTurn)
    );
}

// Saving settings

#[test]
fn save_sends_strangers_to_the_login_page() {
    let mut world = world_of(&user_records("a@x.com", "Kelvin", "PSI", "Dark", "Month"));
    assert_eq!(
        world.save(&data("Celsius", "Bar", "Light", "Week"), &Session::new()),
        Ok(Response::Redirect("/login".to_string()))
    );
    assert!(world.asked.is_empty());
}

#[test]
fn save_overwrites_all_four() {
    let mut world = world_of(&user_records("a@x.com", "Kelvin", "PSI", "Dark", "Month"));
    assert_eq!(
        world.save(&data("Fahrenheit", "Mercury", "Light", "QuarterYear"), &signed_in("a@x.com")),
        Ok(Response::Redirect("/settings".to_string()))
    );
    assert_eq!(world.asked.len(), 1);
    assert!(matches!(&world.asked[0], Command::WriteAll(pairs) if pairs.len() == 4));
    assert_eq!(world.value("settings:a@x.com:units:temperature"), Some("Fahrenheit"));
    assert_eq!(world.value("settings:a@x.com:units:pressure"), Some("Mercury"));
    assert_eq!(world.value("settings:a@x.com:theme"), Some("Light"));
    assert_eq!(world.value("settings:a@x.com:timeframe"), Some("QuarterYear"));
    assert_eq!(world.value("user:a@x.com"), Some(""));
    assert_eq!(world.records.len(), 5);
}

#[test]
fn save_with_one_invalid_field_changes_nothing() {
    let invalid = [
        data("Rankine", "Mercury", "Light", "QuarterYear"),
        data("Fahrenheit", "Pascal", "Light", "QuarterYear"),
        data("Fahrenheit", "Mercury", "Dim", "QuarterYear"),
        data("Fahrenheit", "Mercury", "Light", "Decade"),
    ];
    for form in invalid {
        let mut world = world_of(&user_records("a@x.com", "Kelvin", "PSI", "Dark", "Month"));
        assert_eq!(
            world.save(&form, &signed_in("a@x.com")),
            Ok(Response::Redirect("/settings".to_string()))
        );
        assert!(world.asked.is_empty());
        assert_eq!(world.value("settings:a@x.com:units:temperature"), Some("Kelvin"));
        assert_eq!(world.value("settings:a@x.com:units:pressure"), Some("PSI"));
        assert_eq!(world.value("settings:a@x.com:theme"), Some("Dark"));
        assert_eq!(world.value("settings:a@x.com:timeframe"), Some("Month"));
    }
}

#[test]
fn save_then_show() {
    let mut world = world_of(&user_records("a@x.com", "Celsius", "Bar", "Light", "Week"));
    let session = signed_in("a@x.com");
    world.save(&data("Kelvin", "Atmosphere", "Dark", "Month"), &session).unwrap();
    assert_eq!(
        world.settings(&session),
        Ok(Response::Success(Body::Settings(Settings {
            temperature: "Kelvin".to_string(),
            pressure: "Atmosphere".to_string(),
            theme: "Dark".to_string(),
            timeframe: "Month".to_string(),
            admin: false,
        })))
    );
}

#[test]
fn save_faults_on_an_event_out_of_turn() {
    let session = signed_in("a@x.com");
    let form = data("Celsius", "Bar", "Light", "Week");
    assert_eq!(
        settings_save(SaveStage::Start, Some(Event::Reply(Reply::Other)), &form, &session),
        (SaveStage::Done, Action::OutOfTurn)
    );
    assert_eq!(
        settings_save(SaveStage::Saving, None, &form, &session),
        (SaveStage::Done, Action::OutOfTurn)
    );
    assert_eq!(
        settings_save(SaveStage::Saving, Some(Event::Sent(true)), &form, &session),
        (SaveStage::Done, Action::OutOfTurn)
    );
    assert_eq!(
        settings_save(SaveStage::Done, None, &form, &session),
        (SaveStage::Done, Action::OutOfTurn)
    );
}

// From registration to the settings page

#[test]
fn an_admin_registers_a_user_who_finds_the_defaults() {
    let mut world = world_of(&user_records("a@x.com", "Kelvin", "PSI", "Dark", "Month"));
    world.records.insert("user:a@x.com".to_string(), b"admin".to_vec());

    // The admin signs in.
    let mut admin = Session::new();
    assert_eq!(world.login("a@x.com", &mut admin), Ok(check_mail()));
    let challenge = admin.pending_login.as_ref().unwrap().challenge.clone();
    assert_eq!(
        verify_login(&VerifyQuery { challenge }, &mut admin),
        Response::Success(Body::Page(Page::Verified))
    );
    assert_eq!(admin, signed_in("a@x.com"));

    // The admin registers b@x.com, who follows the link in the mail.
    assert_eq!(world.register("b@x.com", &admin), Ok(check_mail()));
    let mail = world.sent.last().unwrap().clone();
    assert_eq!(mail.to, "b@x.com");
    let lead = "<a href=\"https://weather.example.org/verify_register?c=";
    let start = mail.html.find(lead).unwrap() + lead.len();
    let token = &mail.html[start..start + 44];
    assert_eq!(world.verify_register(token), Ok(Response::Success(Body::Page(Page::Registered))));

    // b@x.com signs in and looks at the settings.
    let mut user = Session::new();
    assert_eq!(world.login("b@x.com", &mut user), Ok(check_mail()));
    let challenge = user.pending_login.as_ref().unwrap().challenge.clone();
    assert_eq!(
        verify_login(&VerifyQuery { challenge }, &mut user),
        Response::Success(Body::Page(Page::Verified))
    );
    assert_eq!(
        world.settings(&user),
        Ok(Response::Success(Body::Settings(Settings {
            temperature: "Celsius".to_string(),
            pressure: "Bar".to_string(),
            theme: "Light".to_string(),
            timeframe: "Week".to_string(),
            admin: false,
        })))
    );
    assert_eq!(
        world.dashboard(&user),
        Ok(Response::Success(Body::Graph(GraphSettings {
            temperature: "Celsius".to_string(),
            pressure: "Bar".to_string(),
            theme: "Light".to_string(),
            timeframe: "Week".to_string(),
        })))
    );

    // The link is used up, and the new user cannot register others.
    assert_eq!(
        world.verify_register(token),
        Ok(Response::Rejected(401, Body::Page(Page::InvalidToken)))
    );
    assert_eq!(world.register("c@x.com", &user), Ok(Response::Rejected(401, Body::Empty)));
}
