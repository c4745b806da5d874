//! What the sign-in handlers guarantee of a whole request.
//!
//! A request is a handler played from its first call to its answer, as
//! [`crate::flow::play`] says, against a store that is a plain map of records,
//! [`crate::records::Records`]. What is proved here holds for every such store, every
//! session and every form.

use vstd::prelude::*;
use vstd::utf8::*;
use crate::auth::{
    email_accepted, logged_out, login_matches, login_submit_run, login_submit_turn,
    poll_answer, register_run, register_turn, verified_session, verify_login_answer,
    verify_register_run, verify_register_step, LoginChallengeView, LoginStage,
    RegisterStageView, VerifyStage,
};
use crate::database::{
    admin_marker, default_settings, new_user_records, register_key, settings_keys,
    stored_settings, user_key, CommandView, Malformed, REGISTRATION_SECONDS,
};
use crate::email::{
    lemma_login_mail_carries_code, lemma_register_mail_carries_code, login_mail, occurs_in,
    register_mail, MailView,
};
use crate::flow::{answers, play, ActionView, End, EventView, Outcome};
use crate::graph::graph_index_run;
use crate::records::{
    answer, is_admin, keeps_users, lemma_keys_apart, lemma_new_user_records, lemma_user_add_completes,
    lemma_write_all_keeps_users, users_have_settings, write_all, Records,
};
use crate::response::{
    BodyView, Page, ResponseView, ALREADY_REGISTERED, CHECK_MAIL, INTERNAL_SERVER_ERROR,
    INVALID_EMAIL, LOGIN_PATH, MAIL_FAILED, NOT_ACCEPTABLE, ROOT_PATH, UNAUTHORIZED,
    UNPROCESSABLE_ENTITY,
};
use crate::session::SessionView;

verus! {

/// A login with an address that is none ends before anything was asked of the store or
/// handed to the mailer: a signed-in client is sent to the dashboard, and everyone else is
/// refused. The session and the records stay as they were.
pub proof fn login_refuses_malformed_untouched(
    email: Seq<char>,
    session: SessionView,
    weather_url: Seq<char>,
    challenge: Seq<char>,
    records: Records,
    delivers: bool,
)
    ensures
        !email_accepted(email) ==> login_submit_run(
            email,
            session,
            weather_url,
            challenge,
            records,
            delivers,
        ) == (Outcome {
            end: End::Response(
                if session.authenticated() {
                    ResponseView::Redirect(ROOT_PATH@)
                } else {
                    ResponseView::Rejected(UNPROCESSABLE_ENTITY, BodyView::Text(INVALID_EMAIL@))
                },
            ),
            session,
            records,
            asked: Seq::empty(),
            sent: Seq::empty(),
        }),
{
    reveal_with_fuel(play, 2);
}

/// A login for an address without a user is answered as a login for a user whose mail
/// went out, and leaves no trace: no challenge is kept in the session, no mail is sent,
/// and the store is only asked whether the user exists.
pub proof fn login_hides_unknown_accounts(
    email: Seq<char>,
    session: SessionView,
    weather_url: Seq<char>,
    challenge: Seq<char>,
    known: Records,
    unknown: Records,
    delivers: bool,
)
    ensures
        email_accepted(email) && !session.authenticated() && known.contains_key(user_key(email))
            && !unknown.contains_key(user_key(email)) ==> {
            let stranger = login_submit_run(
                email,
                session,
                weather_url,
                challenge,
                unknown,
                delivers,
            );
            let user = login_submit_run(email, session, weather_url, challenge, known, true);
            &&& stranger.end == End::Response(ResponseView::Success(BodyView::Text(CHECK_MAIL@)))
            &&& stranger.end == user.end
            &&& stranger.session == session
            &&& stranger.records == unknown
            &&& stranger.sent == Seq::<MailView>::empty()
            &&& stranger.asked == seq![CommandView::Exists(user_key(email))]
        },
{
    reveal_with_fuel(play, 4);
}

/// A login for a user issues one challenge: it is kept in the session as the pending
/// login, in place of whatever was pending, and one mail goes out, to the user, with the
/// challenge in its link. The answer says whether the mail could be sent. The records
/// are only read.
pub proof fn login_issues_one_challenge(
    email: Seq<char>,
    session: SessionView,
    weather_url: Seq<char>,
    challenge: Seq<char>,
    records: Records,
    delivers: bool,
)
    ensures
        email_accepted(email) && !session.authenticated() && records.contains_key(user_key(email))
            ==> {
            let done = login_submit_run(email, session, weather_url, challenge, records, delivers);
            &&& done.session == (SessionView {
                email: None,
                pending_login: Some(LoginChallengeView { email, challenge }),
            })
            &&& done.sent == seq![login_mail(email, challenge, weather_url)]
            &&& done.sent[0].to == email
            &&& occurs_in(challenge, done.sent[0].html)
            &&& done.asked == seq![CommandView::Exists(user_key(email))]
            &&& done.records == records
            &&& done.end == End::Response(
                if delivers {
                    ResponseView::Success(BodyView::Text(CHECK_MAIL@))
                } else {
                    ResponseView::Rejected(INTERNAL_SERVER_ERROR, BodyView::Text(MAIL_FAILED@))
                },
            )
        },
{
    reveal_with_fuel(play, 4);
    lemma_login_mail_carries_code(email, challenge, weather_url);
}

/// A login link succeeds exactly when its challenge is the one the session waits for.
/// Then the address that asked is signed in, and a poll says so. Otherwise the session
/// is as it was, pending login included, and a poll answers what it answered before:
/// a refusal, unless somebody was signed in already.
pub proof fn verify_login_succeeds_on_match_only(session: SessionView, presented: Seq<char>)
    ensures
        login_matches(session, presented) <==> verify_login_answer(session, presented)
            == ResponseView::Success(BodyView::Page(Page::Verified)),
        login_matches(session, presented) ==> {
            &&& verified_session(session, presented).email == Some(
                session.pending_login->0.email,
            )
            &&& poll_answer(verified_session(session, presented)) == ResponseView::Success(
                BodyView::Empty,
            )
        },
        !login_matches(session, presented) ==> verified_session(session, presented) == session,
        !login_matches(session, presented) && !session.authenticated() ==> poll_answer(
            verified_session(session, presented),
        ) == ResponseView::Rejected(NOT_ACCEPTABLE, BodyView::Empty),
{
}

/// After a logout nobody is signed in: a request for the dashboard is sent to the login
/// page, and the store is not asked for anything.
pub proof fn logout_locks_the_dashboard(session: SessionView, records: Records)
    ensures
        !logged_out(session).authenticated(),
        graph_index_run(logged_out(session), records).end == End::Response(
            ResponseView::Redirect(LOGIN_PATH@),
        ),
        graph_index_run(logged_out(session), records).asked == Seq::<CommandView>::empty(),
{
    reveal_with_fuel(play, 2);
}

/// Whoever is not signed in as an administrator cannot register anyone, whatever the
/// address in the form: the request is refused, nothing is written and no mail is sent.
/// Of a caller who is not signed in at all, not even the store is asked.
pub proof fn register_refuses_all_but_admins(
    email: Seq<char>,
    session: SessionView,
    weather_url: Seq<char>,
    challenge: Seq<char>,
    records: Records,
    delivers: bool,
)
    ensures
        !(session.email matches Some(user) && is_admin(records, user)) ==> {
            let done = register_run(email, session, weather_url, challenge, records, delivers);
            &&& done.end == End::Response(ResponseView::Rejected(UNAUTHORIZED, BodyView::Empty))
            &&& done.records == records
            &&& done.session == session
            &&& done.sent == Seq::<MailView>::empty()
            &&& done.asked == match session.email {
                Some(user) => seq![CommandView::Read(user_key(user))],
                None => Seq::empty(),
            }
        },
{
    reveal_with_fuel(play, 3);
}

/// A registration for an address that is none is refused before anything is written or
/// mailed. The store is asked for the caller's user record at most.
pub proof fn register_refuses_malformed_unwritten(
    email: Seq<char>,
    session: SessionView,
    weather_url: Seq<char>,
    challenge: Seq<char>,
    records: Records,
    delivers: bool,
)
    ensures
        !email_accepted(email) ==> {
            let done = register_run(email, session, weather_url, challenge, records, delivers);
            &&& done.end == End::Response(
                if session.email matches Some(user) && is_admin(records, user) {
                    ResponseView::Rejected(UNPROCESSABLE_ENTITY, BodyView::Text(INVALID_EMAIL@))
                } else {
                    ResponseView::Rejected(UNAUTHORIZED, BodyView::Empty)
                },
            )
            &&& done.records == records
            &&& done.session == session
            &&& done.sent == Seq::<MailView>::empty()
            &&& done.asked == match session.email {
                Some(user) => seq![CommandView::Read(user_key(user))],
                None => Seq::empty(),
            }
        },
{
    reveal_with_fuel(play, 3);
}

/// A registration for an address that has a user already is refused, by whomever it is
/// asked: the records stay as they were, so no second registration comes to be, and no
/// mail is sent. An administrator who names a well-formed address is told that the
/// address is registered.
pub proof fn register_refuses_known_address(
    email: Seq<char>,
    session: SessionView,
    weather_url: Seq<char>,
    challenge: Seq<char>,
    records: Records,
    delivers: bool,
)
    ensures
        records.contains_key(user_key(email)) ==> {
            let done = register_run(email, session, weather_url, challenge, records, delivers);
            &&& done.end matches End::Response(ResponseView::Rejected(_, _))
            &&& done.records == records
            &&& done.session == session
            &&& done.sent == Seq::<MailView>::empty()
        },
        records.contains_key(user_key(email)) && email_accepted(email) && (session.email matches Some(
            user,
        ) && is_admin(records, user)) ==> register_run(
            email,
            session,
            weather_url,
            challenge,
            records,
            delivers,
        ).end == End::Response(
            ResponseView::Rejected(UNPROCESSABLE_ENTITY, BodyView::Text(ALREADY_REGISTERED@)),
        ),
{
    reveal_with_fuel(play, 4);
}

/// An administrator's registration of a new, well-formed address stores the challenge
/// with the address, lets that record lapse after an hour, and mails the link to the new
/// address: one record more, one mail. The answer says whether the mail could be sent.
pub proof fn register_stores_and_mails(
    email: Seq<char>,
    session: SessionView,
    weather_url: Seq<char>,
    challenge: Seq<char>,
    records: Records,
    delivers: bool,
)
    ensures
        email_accepted(email) && !records.contains_key(user_key(email)) && (
        session.email matches Some(user) && is_admin(records, user)) ==> {
            let done = register_run(email, session, weather_url, challenge, records, delivers);
            let key = register_key(challenge);
            &&& done.records == records.insert(key, encode_utf8(email))
            &&& done.asked == seq![
                CommandView::Read(user_key(session.email->0)),
                CommandView::Exists(user_key(email)),
                CommandView::Write(key, email),
                CommandView::Expire(key, REGISTRATION_SECONDS),
            ]
            &&& done.sent == seq![register_mail(email, challenge, weather_url)]
            &&& done.sent[0].to == email
            &&& occurs_in(challenge, done.sent[0].html)
            &&& done.session == session
            &&& done.end == End::Response(
                if delivers {
                    ResponseView::Success(BodyView::Text(CHECK_MAIL@))
                } else {
                    ResponseView::Rejected(INTERNAL_SERVER_ERROR, BodyView::Text(MAIL_FAILED@))
                },
            )
        },
{
    reveal_with_fuel(play, 7);
    lemma_register_mail_carries_code(email, challenge, weather_url);
}

/// A registration link works once. Followed while its registration is pending, it creates
/// the user, with the default settings and without the administrator's mark, and removes
/// the registration. Followed again, it is refused as any unknown link is, and the user
/// and the settings stay.
pub proof fn verify_register_consumes_the_link(
    challenge: Seq<char>,
    email: Seq<char>,
    session: SessionView,
    records: Records,
)
    ensures
        records.contains_key(register_key(challenge)) && records[register_key(challenge)]
            == encode_utf8(email) ==> {
            let first = verify_register_run(challenge, session, records);
            let second = verify_register_run(challenge, session, first.records);
            &&& first.end == End::Response(ResponseView::Success(BodyView::Page(Page::Registered)))
            &&& first.records == write_all(records, new_user_records(email)).remove(
                register_key(challenge),
            )
            &&& !first.records.contains_key(register_key(challenge))
            &&& first.records.contains_key(user_key(email))
            &&& first.records[user_key(email)] != admin_marker()
            &&& stored_settings(
                answer(first.records, CommandView::ReadAll(settings_keys(email))),
            ) == Ok::<Seq<Seq<char>>, Malformed>(default_settings())
            &&& second.end == End::Response(
                ResponseView::Rejected(UNAUTHORIZED, BodyView::Page(Page::InvalidToken)),
            )
            &&& second.records == first.records
            &&& first.session == session
            &&& second.session == session
        },
{
    if records.contains_key(register_key(challenge)) && records[register_key(challenge)]
        == encode_utf8(email) {
        reveal_with_fuel(play, 5);
        encode_utf8_valid_utf8(email);
        encode_utf8_decode_utf8(email);
        lemma_new_user_records(records, email, challenge);
        lemma_keys_apart(email, challenge, email);
        let created = write_all(records, new_user_records(email));
        let first = verify_register_run(challenge, session, records);
        assert(first.records == created.remove(register_key(challenge)));
        let keys = settings_keys(email);
        assert(answer(first.records, CommandView::ReadAll(keys)) == answer(
            created,
            CommandView::ReadAll(keys),
        )) by {
            let a = answer(first.records, CommandView::ReadAll(keys))->Array_0;
            let b = answer(created, CommandView::ReadAll(keys))->Array_0;
            assert forall|i: int| 0 <= i < keys.len() implies a[i] == b[i] by {
                assert(keys.contains(keys[i]));
            }
            assert(a =~= b);
        }
    }
}

/// A registration link without a pending registration is refused, and nothing changes.
/// That holds too where the store has something under the link's key that is no text.
pub proof fn verify_register_refuses_unknown_link(
    challenge: Seq<char>,
    session: SessionView,
    records: Records,
)
    ensures
        !records.contains_key(register_key(challenge)) || !valid_utf8(
            records[register_key(challenge)],
        ) ==> verify_register_run(
            challenge,
            session,
            records,
        ) == (Outcome {
            end: End::Response(
                ResponseView::Rejected(UNAUTHORIZED, BodyView::Page(Page::InvalidToken)),
            ),
            session,
            records,
            asked: seq![CommandView::Read(register_key(challenge))],
            sent: Seq::empty(),
        }),
{
    reveal_with_fuel(play, 3);
}

/// A login request always comes to an answer: handler and host never fall out of step,
/// and nothing the store says stops the handler.
pub proof fn login_always_answers(
    email: Seq<char>,
    session: SessionView,
    weather_url: Seq<char>,
    challenge: Seq<char>,
    records: Records,
    delivers: bool,
)
    ensures
        login_submit_run(email, session, weather_url, challenge, records, delivers).end is Response,
{
    reveal_with_fuel(play, 4);
}

/// A registration request always comes to an answer.
pub proof fn register_always_answers(
    email: Seq<char>,
    session: SessionView,
    weather_url: Seq<char>,
    challenge: Seq<char>,
    records: Records,
    delivers: bool,
)
    ensures
        register_run(email, session, weather_url, challenge, records, delivers).end is Response,
{
    reveal_with_fuel(play, 7);
}

/// The request of a registration link always comes to an answer.
pub proof fn verify_register_always_answers(
    challenge: Seq<char>,
    session: SessionView,
    records: Records,
)
    ensures
        verify_register_run(challenge, session, records).end is Response,
{
    reveal_with_fuel(play, 5);
}

/// A login never changes a record.
pub proof fn login_leaves_the_records(
    email: Seq<char>,
    session: SessionView,
    weather_url: Seq<char>,
    challenge: Seq<char>,
    records: Records,
    delivers: bool,
)
    ensures
        login_submit_run(email, session, weather_url, challenge, records, delivers).records
            == records,
{
    reveal_with_fuel(play, 4);
}

/// A registration deletes no user and no setting, and leaves every user with the four
/// settings: all it may add is the pending registration.
pub proof fn register_keeps_users(
    email: Seq<char>,
    session: SessionView,
    weather_url: Seq<char>,
    challenge: Seq<char>,
    records: Records,
    delivers: bool,
)
    ensures
        ({
            let after = register_run(
                email,
                session,
                weather_url,
                challenge,
                records,
                delivers,
            ).records;
            &&& after == records || after == records.insert(
                register_key(challenge),
                encode_utf8(email),
            )
            &&& keeps_users(records, after)
            &&& users_have_settings(records) ==> users_have_settings(after)
        }),
{
    reveal_with_fuel(play, 7);
    let after = register_run(email, session, weather_url, challenge, records, delivers).records;
    assert forall|other: Seq<char>, key: Seq<char>|
        users_have_settings(records) && after.contains_key(#[trigger] user_key(other))
            && #[trigger] settings_keys(other).contains(key) implies after.contains_key(key) by {
        lemma_keys_apart(other, challenge, other);
    }
}

/// Following a registration link deletes no user and no setting, and leaves every user
/// with the four settings: the user it creates gets them in the same write.
pub proof fn verify_register_keeps_users(
    challenge: Seq<char>,
    session: SessionView,
    records: Records,
)
    ensures
        keeps_users(records, verify_register_run(challenge, session, records).records),
        users_have_settings(records) ==> users_have_settings(
            verify_register_run(challenge, session, records).records,
        ),
{
    reveal_with_fuel(play, 5);
    let after = verify_register_run(challenge, session, records).records;
    let key = register_key(challenge);
    if after != records {
        let email = decode_utf8(records[key]);
        let created = write_all(records, new_user_records(email));
        assert(after == created.remove(key));
        lemma_write_all_keeps_users(records, new_user_records(email));
        assert forall|other: Seq<char>| records.contains_key(#[trigger] user_key(other)) implies
            after.contains_key(user_key(other)) by {
            lemma_keys_apart(other, challenge, other);
        }
        assert forall|other: Seq<char>, setting: Seq<char>|
            records.contains_key(setting) && #[trigger] settings_keys(other).contains(
                setting,
            ) implies #[trigger] after.contains_key(setting) by {
            lemma_keys_apart(other, challenge, other);
        }
        if users_have_settings(records) {
            lemma_user_add_completes(records, email);
            assert forall|other: Seq<char>, setting: Seq<char>|
                after.contains_key(#[trigger] user_key(other)) && #[trigger] settings_keys(
                    other,
                ).contains(setting) implies after.contains_key(setting) by {
                lemma_keys_apart(other, challenge, other);
            }
        }
    }
}

/// The link of the login mail signs the user in: after a login for a user, the challenge
/// that was mailed is the one the session waits for, and following the link makes the
/// user the identity of the session.
pub proof fn login_link_signs_in(
    email: Seq<char>,
    session: SessionView,
    weather_url: Seq<char>,
    challenge: Seq<char>,
    records: Records,
    delivers: bool,
)
    ensures
        email_accepted(email) && !session.authenticated() && records.contains_key(user_key(email))
            ==> {
            let waiting = login_submit_run(
                email,
                session,
                weather_url,
                challenge,
                records,
                delivers,
            ).session;
            &&& login_matches(waiting, challenge)
            &&& verify_login_answer(waiting, challenge) == ResponseView::Success(
                BodyView::Page(Page::Verified),
            )
            &&& verified_session(waiting, challenge) == (SessionView {
                email: Some(email),
                pending_login: None,
            })
        },
{
    login_issues_one_challenge(email, session, weather_url, challenge, records, delivers);
}

/// The link of the registration mail creates the user: after an administrator's
/// registration of a new address, following the link with the mailed challenge leaves a
/// user record for that address, with the default settings, and no pending registration.
pub proof fn register_link_creates_the_user(
    email: Seq<char>,
    session: SessionView,
    visitor: SessionView,
    weather_url: Seq<char>,
    challenge: Seq<char>,
    records: Records,
    delivers: bool,
)
    ensures
        email_accepted(email) && !records.contains_key(user_key(email)) && (
        session.email matches Some(user) && is_admin(records, user)) ==> {
            let pending = register_run(
                email,
                session,
                weather_url,
                challenge,
                records,
                delivers,
            ).records;
            let followed = verify_register_run(challenge, visitor, pending);
            &&& followed.end == End::Response(
                ResponseView::Success(BodyView::Page(Page::Registered)),
            )
            &&& followed.records.contains_key(user_key(email))
            &&& !followed.records.contains_key(register_key(challenge))
            &&& stored_settings(
                answer(followed.records, CommandView::ReadAll(settings_keys(email))),
            ) == Ok::<Seq<Seq<char>>, Malformed>(default_settings())
        },
{
    register_stores_and_mails(email, session, weather_url, challenge, records, delivers);
    let pending = register_run(email, session, weather_url, challenge, records, delivers).records;
    verify_register_consumes_the_link(challenge, email, visitor, pending);
}

/// The login handler is never out of turn with a host that keeps its place: not on its
/// first call, and not on a call with the stage it returned and an event that answers
/// the action it asked for, whatever that event holds.
pub proof fn login_stays_in_turn(
    stage: LoginStage,
    event: Option<EventView>,
    answer: Option<EventView>,
    email: Seq<char>,
    accepted: bool,
    session: SessionView,
    weather_url: Seq<char>,
    challenge: Seq<char>,
)
    ensures
        login_submit_turn(
            LoginStage::Start,
            None,
            email,
            accepted,
            session,
            weather_url,
            challenge,
        ).action != ActionView::OutOfTurn,
        ({
            let asked = login_submit_turn(
                stage,
                event,
                email,
                accepted,
                session,
                weather_url,
                challenge,
            );
            answers(answer, asked.action) ==> login_submit_turn(
                asked.stage,
                answer,
                email,
                accepted,
                asked.session,
                weather_url,
                challenge,
            ).action != ActionView::OutOfTurn
        }),
{
}

/// The registration handler is never out of turn with a host that keeps its place.
pub proof fn register_stays_in_turn(
    stage: RegisterStageView,
    event: Option<EventView>,
    answer: Option<EventView>,
    email: Seq<char>,
    accepted: bool,
    session: SessionView,
    weather_url: Seq<char>,
    challenge: Seq<char>,
)
    ensures
        register_turn(
            RegisterStageView::Start,
            None,
            email,
            accepted,
            session,
            weather_url,
            challenge,
        ).action != ActionView::OutOfTurn,
        ({
            let asked = register_turn(
                stage,
                event,
                email,
                accepted,
                session,
                weather_url,
                challenge,
            );
            answers(answer, asked.action) ==> register_turn(
                asked.stage,
                answer,
                email,
                accepted,
                asked.session,
                weather_url,
                challenge,
            ).action != ActionView::OutOfTurn
        }),
{
}

/// The handler of registration links is never out of turn with a host that keeps its
/// place.
pub proof fn verify_register_stays_in_turn(
    stage: VerifyStage,
    event: Option<EventView>,
    answer: Option<EventView>,
    challenge: Seq<char>,
)
    ensures
        verify_register_step(VerifyStage::Start, None, challenge).1 != ActionView::OutOfTurn,
        ({
            let asked = verify_register_step(stage, event, challenge);
            answers(answer, asked.1) ==> verify_register_step(asked.0, answer, challenge).1
                != ActionView::OutOfTurn
        }),
{
}

} // verus!
