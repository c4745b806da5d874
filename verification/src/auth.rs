//! Signing in and registering without a password.
//!
//! Whoever wants in names an email address and is mailed a link that carries a random
//! challenge. Following the link proves that the mail arrived. An administrator registers
//! new users the same way: the link goes to the new user's address.

use vstd::prelude::*;
use vstd::string::*;
use crate::database;
use crate::database::{admin_marker, register_key, user_key, CommandView, ReplyView};
use crate::email;
use crate::email::{login_mail, register_mail};
use crate::flow::{
    event_view, run, turn, Action, ActionView, Event, EventView, Outcome, Turn,
};
use crate::records::Records;
use crate::response::{
    Body, BodyView, Page, Response, ResponseView, ALREADY_REGISTERED, CHECK_MAIL,
    INTERNAL_SERVER_ERROR, INVALID_EMAIL, LOGIN_PATH, MAIL_FAILED, NOT_ACCEPTABLE, ROOT_PATH,
    UNAUTHORIZED, UNPROCESSABLE_ENTITY,
};
use crate::session::{Session, SessionView};
use crate::text::same_text;

verus! {

/// Number of random bytes in a challenge.
pub const CHALLENGE_BYTES: usize = 32;

/// The form that names an email address: the login form and the registration form.
#[derive(Debug, PartialEq, Eq)]
pub struct Identity {
    pub email: String,
}

impl View for Identity {
    type V = Seq<char>;

    open spec fn view(&self) -> Seq<char> {
        self.email@
    }
}

impl Clone for Identity {
    fn clone(&self) -> (copy: Identity)
        ensures
            copy@ == self@,
    {
        Identity {
            email: self.email.clone(),
        }
    }
}

/// A login that waits for its link to be followed: the address that asked, and the
/// challenge that was mailed to it.
#[derive(Debug, PartialEq, Eq)]
pub struct LoginChallenge {
    pub email: String,
    pub challenge: String,
}

/// Mathematical value of a [`LoginChallenge`].
pub struct LoginChallengeView {
    pub email: Seq<char>,
    pub challenge: Seq<char>,
}

impl View for LoginChallenge {
    type V = LoginChallengeView;

    open spec fn view(&self) -> LoginChallengeView {
        LoginChallengeView { email: self.email@, challenge: self.challenge@ }
    }
}

impl Clone for LoginChallenge {
    fn clone(&self) -> (copy: LoginChallenge)
        ensures
            copy@ == self@,
    {
        LoginChallenge {
            email: self.email.clone(),
            challenge: self.challenge.clone(),
        }
    }
}

/// The query of a verification link: the challenge it carries.
#[derive(Debug, PartialEq, Eq)]
pub struct VerifyQuery {
    pub challenge: String,
}

impl View for VerifyQuery {
    type V = Seq<char>;

    open spec fn view(&self) -> Seq<char> {
        self.challenge@
    }
}

impl Clone for VerifyQuery {
    fn clone(&self) -> (copy: VerifyQuery)
        ensures
            copy@ == self@,
    {
        VerifyQuery {
            challenge: self.challenge.clone(),
        }
    }
}

/// Whether `validator::validate_email` takes these characters for an email address.
pub uninterp spec fn email_accepted(address: Seq<char>) -> bool;

/// What `base64::encode_config` makes of these bytes under `base64::URL_SAFE`.
pub uninterp spec fn url_safe_base64(bytes: Seq<u8>) -> Seq<char>;

/// The characters of URL-safe base64 with padding.
pub open spec fn is_url_safe(c: char) -> bool {
    ||| 'A' <= c <= 'Z'
    ||| 'a' <= c <= 'z'
    ||| '0' <= c <= '9'
    ||| c == '-'
    ||| c == '_'
    ||| c == '='
}

/// A challenge is the URL-safe base64 text of 32 bytes. It is 44 characters long.
pub open spec fn is_challenge(token: Seq<char>) -> bool {
    &&& exists|bytes: Seq<u8>| bytes.len() == CHALLENGE_BYTES && token == url_safe_base64(bytes)
    &&& token.len() == 44
    &&& forall|i: int| 0 <= i < token.len() ==> is_url_safe(#[trigger] token[i])
}

/// Whether `address` is an email address.
///
/// Trusted: calls `validator::validate_email`, which checks the part before the last `@`
/// and the domain after it against fixed patterns, and depends on nothing but the string.
/// The contract gives its verdict the name [`email_accepted`] and claims nothing else.
#[verifier::external_body]
fn valid_email(address: &str) -> (valid: bool)
    ensures
        valid == email_accepted(address@),
{
    validator::validate_email(address)
}

/// Overwrites `buffer` with bytes from the operating system's random source.
///
/// Trusted: calls `fill_bytes` of `rand::rngs::OsRng`. Nothing is claimed of the bytes but
/// their number, which the call cannot change. The call does not return if the system
/// has no randomness to give; the process ends there.
#[verifier::external_body]
fn fill_random(buffer: &mut Vec<u8>)
    ensures
        final(buffer)@.len() == old(buffer)@.len(),
{
    rand::RngCore::fill_bytes(&mut rand::rngs::OsRng, buffer);
}

/// The URL-safe base64 text of `bytes`, padded.
///
/// Trusted: calls `base64::encode_config` with `base64::URL_SAFE`. The contract names the
/// text [`url_safe_base64`], and claims of it what the crate computes as the encoded size
/// with padding, four characters for every three bytes begun, and that its characters
/// come from the URL-safe alphabet or are the padding `=`. The call panics where that
/// size does not fit a `usize`, which `requires` excludes.
#[verifier::external_body]
fn encode_url_safe(bytes: &Vec<u8>) -> (text: String)
    requires
        4 * ((bytes@.len() + 2) / 3) <= usize::MAX,
    ensures
        text@ == url_safe_base64(bytes@),
        text@.len() == 4 * ((bytes@.len() + 2) / 3),
        forall|i: int| 0 <= i < text@.len() ==> is_url_safe(#[trigger] text@[i]),
{
    base64::encode_config(bytes, base64::URL_SAFE)
}

/// Draws a fresh challenge: 32 random bytes as URL-safe text.
pub fn generate_challenge() -> (token: String)
    ensures
        is_challenge(token@),
{
    let mut challenge = vec![0u8; CHALLENGE_BYTES];
    fill_random(&mut challenge);
    encode_url_safe(&challenge)
}

/// The login page; whoever is signed in already is sent to the dashboard instead.
pub fn login_get(session: &Session) -> (response: Response)
    ensures
        response@ == if session@.authenticated() {
            ResponseView::Redirect(ROOT_PATH@)
        } else {
            ResponseView::Success(BodyView::Page(Page::Login))
        },
{
    if session.authenticated() {
        Response::redirect(ROOT_PATH)
    } else {
        Response::Success(Body::Page(Page::Login))
    }
}

/// The session after a logout: nothing is left of a session that held an identity.
pub open spec fn logged_out(session: SessionView) -> SessionView {
    if session.authenticated() {
        SessionView::empty()
    } else {
        session
    }
}

/// Signs out: the session of a signed-in user is discarded whole. Everyone is sent to the
/// login page.
pub fn logout(session: &mut Session) -> (response: Response)
    ensures
        response@ == ResponseView::Redirect(LOGIN_PATH@),
        final(session)@ == logged_out(old(session)@),
{
    if session.authenticated() {
        session.purge();
    }
    Response::redirect(LOGIN_PATH)
}

/// What a polling client is told: success once somebody is signed in, a refusal until
/// then. Neither has a body.
pub open spec fn poll_answer(session: SessionView) -> ResponseView {
    if session.authenticated() {
        ResponseView::Success(BodyView::Empty)
    } else {
        ResponseView::Rejected(NOT_ACCEPTABLE, BodyView::Empty)
    }
}

/// Tells a client that waits for a login to complete whether it has.
pub fn poll_login(session: &Session) -> (response: Response)
    ensures
        response@ == poll_answer(session@),
{
    if session.authenticated() {
        Response::Success(Body::Empty)
    } else {
        Response::Rejected(NOT_ACCEPTABLE, Body::Empty)
    }
}

/// Whether a presented challenge is the one the session waits for.
pub open spec fn login_matches(session: SessionView, presented: Seq<char>) -> bool {
    session.pending_login matches Some(pending) && pending.challenge == presented
}

/// The session after a login link was followed: on a match the address that asked becomes
/// the identity and the pending login is gone; otherwise nothing changes.
pub open spec fn verified_session(session: SessionView, presented: Seq<char>) -> SessionView {
    if login_matches(session, presented) {
        SessionView { email: Some(session.pending_login->0.email), pending_login: None }
    } else {
        session
    }
}

/// The answer to a login link.
pub open spec fn verify_login_answer(session: SessionView, presented: Seq<char>) -> ResponseView {
    if session.pending_login is None {
        ResponseView::Redirect(LOGIN_PATH@)
    } else if login_matches(session, presented) {
        ResponseView::Success(BodyView::Page(Page::Verified))
    } else {
        ResponseView::Rejected(UNAUTHORIZED, BodyView::Page(Page::InvalidToken))
    }
}

/// Completes a login: the challenge of the link is held against the one the session
/// waits for. Without a pending login there is nothing to verify, and the client is sent to
/// the login page. A wrong challenge is refused and leaves the pending login in place, so
/// the right link still works afterwards.
pub fn verify_login(query: &VerifyQuery, session: &mut Session) -> (response: Response)
    ensures
        response@ == verify_login_answer(old(session)@, query@),
        final(session)@ == verified_session(old(session)@, query@),
{
    match session.pending_login.take() {
        None => Response::redirect(LOGIN_PATH),
        Some(pending) => {
            if same_text(pending.challenge.as_str(), query.challenge.as_str()) {
                session.email = Some(pending.email);
                Response::Success(Body::Page(Page::Verified))
            } else {
                session.pending_login = Some(pending);
                Response::Rejected(UNAUTHORIZED, Body::Page(Page::InvalidToken))
            }
        },
    }
}

/// Where a login request stands.
#[derive(Clone, Copy, Debug, PartialEq, Eq)]
pub enum LoginStage {
    /// Nothing was done yet.
    Start,
    /// The store was asked whether the user exists.
    CheckingUser,
    /// The login mail was handed to the mailer.
    Mailing,
    /// The request is over.
    Done,
}

/// One call of [`login_submit`], where `accepted` says whether the address of the form is
/// one, and `challenge` is what is drawn where a challenge is issued.
///
/// A signed-in client is sent to the dashboard. An address that is none is refused
/// before anything else happens. For an address without a user the answer is the one that
/// follows a delivered mail, and nothing else is done: the answer does not give away who
/// has an account. For a user, `challenge` is kept in the session as the pending login, in
/// place of any earlier one, and goes out in the login mail; the answer then says whether
/// the mail could be sent.
pub open spec fn login_submit_turn(
    stage: LoginStage,
    event: Option<EventView>,
    email: Seq<char>,
    accepted: bool,
    session: SessionView,
    weather_url: Seq<char>,
    challenge: Seq<char>,
) -> Turn<LoginStage> {
    match (stage, event) {
        (LoginStage::Start, None) => if session.authenticated() {
            Turn {
                stage: LoginStage::Done,
                action: ActionView::Respond(ResponseView::Redirect(ROOT_PATH@)),
                session,
            }
        } else if !accepted {
            Turn {
                stage: LoginStage::Done,
                action: ActionView::Respond(
                    ResponseView::Rejected(UNPROCESSABLE_ENTITY, BodyView::Text(INVALID_EMAIL@)),
                ),
                session,
            }
        } else {
            Turn {
                stage: LoginStage::CheckingUser,
                action: ActionView::Ask(CommandView::Exists(user_key(email))),
                session,
            }
        },
        (LoginStage::CheckingUser, Some(EventView::Reply(reply))) => if reply
            != ReplyView::Integer(1) {
            Turn {
                stage: LoginStage::Done,
                action: ActionView::Respond(ResponseView::Success(BodyView::Text(CHECK_MAIL@))),
                session,
            }
        } else {
            Turn {
                stage: LoginStage::Mailing,
                action: ActionView::Send(login_mail(email, challenge, weather_url)),
                session: SessionView {
                    pending_login: Some(LoginChallengeView { email, challenge }),
                    ..session
                },
            }
        },
        (LoginStage::Mailing, Some(EventView::Sent(delivered))) => Turn {
            stage: LoginStage::Done,
            action: ActionView::Respond(
                if delivered {
                    ResponseView::Success(BodyView::Text(CHECK_MAIL@))
                } else {
                    ResponseView::Rejected(INTERNAL_SERVER_ERROR, BodyView::Text(MAIL_FAILED@))
                },
            ),
            session,
        },
        _ => Turn {
            stage: LoginStage::Done,
            action: ActionView::OutOfTurn,
            session,
        },
    }
}

/// Whether this call of [`login_submit`] issues a challenge: it does when the store has
/// just said that the user exists.
pub open spec fn login_submit_draws(stage: LoginStage, event: Option<EventView>) -> bool {
    stage == LoginStage::CheckingUser && event == Some(
        EventView::Reply(ReplyView::Integer(1)),
    )
}

/// One call of the login handler, with the verdict on the address and the challenge to
/// issue given.
///
/// This is [`login_submit`] for a caller that brings both. `accepted` is read only on the
/// first call, `challenge` only where [`login_submit_draws`] holds.
pub fn login_submit_with(
    stage: LoginStage,
    event: Option<Event>,
    form: &Identity,
    accepted: bool,
    session: &mut Session,
    weather_url: &str,
    challenge: String,
) -> (next: (LoginStage, Action))
    ensures
        turn(next.0, next.1@, final(session)@) == login_submit_turn(
            stage,
            event_view(event),
            form@,
            accepted,
            old(session)@,
            weather_url@,
            challenge@,
        ),
{
    match (stage, event) {
        (LoginStage::Start, None) => {
            if session.authenticated() {
                (LoginStage::Done, Action::Respond(Response::redirect(ROOT_PATH)))
            } else if !accepted {
                (
                    LoginStage::Done,
                    Action::Respond(Response::rejected_text(UNPROCESSABLE_ENTITY, INVALID_EMAIL)),
                )
            } else {
                (LoginStage::CheckingUser, Action::Ask(database::user_exists(&form.email)))
            }
        },
        (LoginStage::CheckingUser, Some(Event::Reply(reply))) => {
            if !database::user_exists_answer(&reply) {
                (LoginStage::Done, Action::Respond(Response::ok_text(CHECK_MAIL)))
            } else {
                let mail = email::send_challenge(form.email.clone(), challenge.clone(), weather_url);
                session.pending_login = Some(LoginChallenge { email: form.email.clone(), challenge });
                (LoginStage::Mailing, Action::Send(mail))
            }
        },
        (LoginStage::Mailing, Some(Event::Sent(delivered))) => {
            if delivered {
                (LoginStage::Done, Action::Respond(Response::ok_text(CHECK_MAIL)))
            } else {
                (
                    LoginStage::Done,
                    Action::Respond(Response::rejected_text(INTERNAL_SERVER_ERROR, MAIL_FAILED)),
                )
            }
        },
        _ => (LoginStage::Done, Action::OutOfTurn),
    }
}

/// What a call of [`login_submit`] may come to. The address is one when
/// [`email_accepted`] says so. Where the call issues a challenge, it is the turn for some
/// challenge; elsewhere it is the one turn there is, in which no challenge plays a part.
pub open spec fn login_submit_allows(
    stage: LoginStage,
    event: Option<EventView>,
    email: Seq<char>,
    session: SessionView,
    weather_url: Seq<char>,
    next: Turn<LoginStage>,
) -> bool {
    let accepted = email_accepted(email);
    if login_submit_draws(stage, event) {
        exists|challenge: Seq<char>|
            is_challenge(challenge) && next == #[trigger] login_submit_turn(
                stage,
                event,
                email,
                accepted,
                session,
                weather_url,
                challenge,
            )
    } else {
        next == login_submit_turn(
            stage,
            event,
            email,
            accepted,
            session,
            weather_url,
            Seq::empty(),
        )
    }
}

/// Handles a submitted login form, one call at a time.
///
/// The first call is made at [`LoginStage::Start`] without an event. While the action
/// returned is not a response, the host carries it out and calls again with the stage
/// returned and the event that came back. Each call is a [`login_submit_turn`]; where it
/// issues a challenge, that is a fresh one from [`generate_challenge`].
pub fn login_submit(
    stage: LoginStage,
    event: Option<Event>,
    form: &Identity,
    session: &mut Session,
    weather_url: &str,
) -> (next: (LoginStage, Action))
    ensures
        login_submit_allows(
            stage,
            event_view(event),
            form@,
            old(session)@,
            weather_url@,
            turn(next.0, next.1@, final(session)@),
        ),
{
    let accepted = match (&stage, &event) {
        (LoginStage::Start, None) => !session.authenticated() && valid_email(form.email.as_str()),
        _ => false,
    };
    let draws = match (&stage, &event) {
        (LoginStage::CheckingUser, Some(Event::Reply(reply))) => database::user_exists_answer(reply),
        _ => false,
    };
    let challenge = if draws {
        generate_challenge()
    } else {
        String::new()
    };
    let ghost came = event_view(event);
    let ghost before = session@;
    let ghost drawn = challenge@;
    let next = login_submit_with(stage, event, form, accepted, session, weather_url, challenge);
    assert(turn(next.0, next.1@, session@) == login_submit_turn(
        stage,
        came,
        form@,
        email_accepted(form@),
        before,
        weather_url@,
        drawn,
    ));
    next
}

/// Where a registration request stands.
#[derive(Debug, PartialEq, Eq)]
pub enum RegisterStage {
    /// Nothing was done yet.
    Start,
    /// The store was asked for the caller's user record.
    CheckingAdmin,
    /// The store was asked whether the new address has a user already.
    CheckingUser,
    /// The store was told to keep the pending registration under this challenge.
    Storing(String),
    /// The store was told to let the pending registration under this challenge lapse.
    Expiring(String),
    /// The registration mail was handed to the mailer.
    Mailing,
    /// The request is over.
    Done,
}

/// Mathematical value of a [`RegisterStage`].
pub enum RegisterStageView {
    Start,
    CheckingAdmin,
    CheckingUser,
    Storing(Seq<char>),
    Expiring(Seq<char>),
    Mailing,
    Done,
}

impl View for RegisterStage {
    type V = RegisterStageView;

    open spec fn view(&self) -> RegisterStageView {
        match *self {
            RegisterStage::Start => RegisterStageView::Start,
            RegisterStage::CheckingAdmin => RegisterStageView::CheckingAdmin,
            RegisterStage::CheckingUser => RegisterStageView::CheckingUser,
            RegisterStage::Storing(token) => RegisterStageView::Storing(token@),
            RegisterStage::Expiring(token) => RegisterStageView::Expiring(token@),
            RegisterStage::Mailing => RegisterStageView::Mailing,
            RegisterStage::Done => RegisterStageView::Done,
        }
    }
}

impl Clone for RegisterStage {
    fn clone(&self) -> (copy: RegisterStage)
        ensures
            copy@ == self@,
    {
        match self {
            RegisterStage::Start => RegisterStage::Start,
            RegisterStage::CheckingAdmin => RegisterStage::CheckingAdmin,
            RegisterStage::CheckingUser => RegisterStage::CheckingUser,
            RegisterStage::Storing(token) => RegisterStage::Storing(token.clone()),
            RegisterStage::Expiring(token) => RegisterStage::Expiring(token.clone()),
            RegisterStage::Mailing => RegisterStage::Mailing,
            RegisterStage::Done => RegisterStage::Done,
        }
    }
}

/// The end of a registration request with `response`.
pub open spec fn register_ends(response: ResponseView, session: SessionView) -> Turn<
    RegisterStageView,
> {
    Turn { stage: RegisterStageView::Done, action: ActionView::Respond(response), session }
}

/// One call of [`register`], where `accepted` says whether the address of the form is one,
/// and `challenge` is what is drawn where a challenge is issued.
///
/// Only an administrator may register: a caller who is not signed in, or whose user
/// record does not carry the mark, is refused, whatever address the form names. Then an
/// address that is none is refused, and so is one that has a user already. Otherwise
/// `challenge` is stored with the address as a pending registration that lapses after an
/// hour, and goes out in the registration mail; the answer says whether the mail could be
/// sent. The session is never changed.
pub open spec fn register_turn(
    stage: RegisterStageView,
    event: Option<EventView>,
    email: Seq<char>,
    accepted: bool,
    session: SessionView,
    weather_url: Seq<char>,
    challenge: Seq<char>,
) -> Turn<RegisterStageView> {
    match (stage, event) {
        (RegisterStageView::Start, None) => match session.email {
            None => register_ends(ResponseView::Rejected(UNAUTHORIZED, BodyView::Empty), session),
            Some(user) => Turn {
                stage: RegisterStageView::CheckingAdmin,
                action: ActionView::Ask(CommandView::Read(user_key(user))),
                session,
            },
        },
        (RegisterStageView::CheckingAdmin, Some(EventView::Reply(reply))) => if reply
            != ReplyView::Bulk(admin_marker()) {
            register_ends(ResponseView::Rejected(UNAUTHORIZED, BodyView::Empty), session)
        } else if !accepted {
            register_ends(
                ResponseView::Rejected(UNPROCESSABLE_ENTITY, BodyView::Text(INVALID_EMAIL@)),
                session,
            )
        } else {
            Turn {
                stage: RegisterStageView::CheckingUser,
                action: ActionView::Ask(CommandView::Exists(user_key(email))),
                session,
            }
        },
        (RegisterStageView::CheckingUser, Some(EventView::Reply(reply))) => if reply
            == ReplyView::Integer(1) {
            register_ends(
                ResponseView::Rejected(UNPROCESSABLE_ENTITY, BodyView::Text(ALREADY_REGISTERED@)),
                session,
            )
        } else {
            Turn {
                stage: RegisterStageView::Storing(challenge),
                action: ActionView::Ask(CommandView::Write(register_key(challenge), email)),
                session,
            }
        },
        (RegisterStageView::Storing(token), Some(EventView::Reply(_))) => Turn {
            stage: RegisterStageView::Expiring(token),
            action: ActionView::Ask(
                CommandView::Expire(register_key(token), database::REGISTRATION_SECONDS),
            ),
            session,
        },
        (RegisterStageView::Expiring(token), Some(EventView::Reply(_))) => Turn {
            stage: RegisterStageView::Mailing,
            action: ActionView::Send(register_mail(email, token, weather_url)),
            session,
        },
        (RegisterStageView::Mailing, Some(EventView::Sent(delivered))) => register_ends(
            if delivered {
                ResponseView::Success(BodyView::Text(CHECK_MAIL@))
            } else {
                ResponseView::Rejected(INTERNAL_SERVER_ERROR, BodyView::Text(MAIL_FAILED@))
            },
            session,
        ),
        _ => Turn {
            stage: RegisterStageView::Done,
            action: ActionView::OutOfTurn,
            session,
        },
    }
}

/// Whether this call of [`register`] issues a challenge: it does when the store has just
/// said that the new address has no user.
pub open spec fn register_draws(stage: RegisterStageView, event: Option<EventView>) -> bool {
    &&& stage == RegisterStageView::CheckingUser
    &&& event matches Some(EventView::Reply(reply))
    &&& reply != ReplyView::Integer(1)
}

/// One call of the registration handler, with the verdict on the address and the
/// challenge to issue given.
///
/// This is [`register`] for a caller that brings both. `accepted` is read only once the
/// caller is known to be an administrator, `challenge` only where [`register_draws`]
/// holds.
pub fn register_with(
    stage: RegisterStage,
    event: Option<Event>,
    form: &Identity,
    accepted: bool,
    session: &Session,
    weather_url: &str,
    challenge: String,
) -> (next: (RegisterStage, Action))
    ensures
        turn(next.0@, next.1@, session@) == register_turn(
            stage@,
            event_view(event),
            form@,
            accepted,
            session@,
            weather_url@,
            challenge@,
        ),
{
    match (stage, event) {
        (RegisterStage::Start, None) => match &session.email {
            None => (
                RegisterStage::Done,
                Action::Respond(Response::Rejected(UNAUTHORIZED, Body::Empty)),
            ),
            Some(user) => (RegisterStage::CheckingAdmin, Action::Ask(database::user_is_admin(user))),
        },
        (RegisterStage::CheckingAdmin, Some(Event::Reply(reply))) => {
            if !database::user_is_admin_answer(&reply) {
                (RegisterStage::Done, Action::Respond(Response::Rejected(UNAUTHORIZED, Body::Empty)))
            } else if !accepted {
                (
                    RegisterStage::Done,
                    Action::Respond(Response::rejected_text(UNPROCESSABLE_ENTITY, INVALID_EMAIL)),
                )
            } else {
                (RegisterStage::CheckingUser, Action::Ask(database::user_exists(&form.email)))
            }
        },
        (RegisterStage::CheckingUser, Some(Event::Reply(reply))) => {
            if database::user_exists_answer(&reply) {
                (
                    RegisterStage::Done,
                    Action::Respond(
                        Response::rejected_text(UNPROCESSABLE_ENTITY, ALREADY_REGISTERED),
                    ),
                )
            } else {
                let commands = database::register_email(&form.email, &challenge);
                (RegisterStage::Storing(challenge), Action::Ask(commands.0))
            }
        },
        (RegisterStage::Storing(token), Some(Event::Reply(_))) => {
            let commands = database::register_email(&form.email, &token);
            (RegisterStage::Expiring(token), Action::Ask(commands.1))
        },
        (RegisterStage::Expiring(token), Some(Event::Reply(_))) => (
            RegisterStage::Mailing,
            Action::Send(email::send_register(form.email.clone(), token, weather_url)),
        ),
        (RegisterStage::Mailing, Some(Event::Sent(delivered))) => {
            if delivered {
                (RegisterStage::Done, Action::Respond(Response::ok_text(CHECK_MAIL)))
            } else {
                (
                    RegisterStage::Done,
                    Action::Respond(Response::rejected_text(INTERNAL_SERVER_ERROR, MAIL_FAILED)),
                )
            }
        },
        _ => (RegisterStage::Done, Action::OutOfTurn),
    }
}

/// What a call of [`register`] may come to. The address is one when [`email_accepted`]
/// says so. Where the call issues a challenge, it is the turn for some challenge;
/// elsewhere it is the one turn there is, in which no challenge plays a part.
pub open spec fn register_allows(
    stage: RegisterStageView,
    event: Option<EventView>,
    email: Seq<char>,
    session: SessionView,
    weather_url: Seq<char>,
    next: Turn<RegisterStageView>,
) -> bool {
    let accepted = email_accepted(email);
    if register_draws(stage, event) {
        exists|challenge: Seq<char>|
            is_challenge(challenge) && next == #[trigger] register_turn(
                stage,
                event,
                email,
                accepted,
                session,
                weather_url,
                challenge,
            )
    } else {
        next == register_turn(stage, event, email, accepted, session, weather_url, Seq::empty())
    }
}

/// Handles a submitted registration form, one call at a time.
///
/// The first call is made at [`RegisterStage::Start`] without an event. While the action
/// returned is not a response, the host carries it out and calls again with the stage
/// returned and the event that came back. Each call is a [`register_turn`]; where it
/// issues a challenge, that is a fresh one from [`generate_challenge`].
pub fn register(
    stage: RegisterStage,
    event: Option<Event>,
    form: &Identity,
    session: &Session,
    weather_url: &str,
) -> (next: (RegisterStage, Action))
    ensures
        register_allows(
            stage@,
            event_view(event),
            form@,
            session@,
            weather_url@,
            turn(next.0@, next.1@, session@),
        ),
{
    let accepted = match (&stage, &event) {
        (RegisterStage::CheckingAdmin, Some(Event::Reply(reply))) => database::user_is_admin_answer(
            reply,
        ) && valid_email(form.email.as_str()),
        _ => false,
    };
    let draws = match (&stage, &event) {
        (RegisterStage::CheckingUser, Some(Event::Reply(reply))) => !database::user_exists_answer(
            reply,
        ),
        _ => false,
    };
    let challenge = if draws {
        generate_challenge()
    } else {
        String::new()
    };
    let ghost from = stage@;
    let ghost came = event_view(event);
    let ghost drawn = challenge@;
    let next = register_with(stage, event, form, accepted, session, weather_url, challenge);
    assert(turn(next.0@, next.1@, session@) == register_turn(
        from,
        came,
        form@,
        email_accepted(form@),
        session@,
        weather_url@,
        drawn,
    ));
    next
}

/// Where the request of a registration link stands.
#[derive(Clone, Copy, Debug, PartialEq, Eq)]
pub enum VerifyStage {
    /// Nothing was done yet.
    Start,
    /// The store was asked for the pending registration.
    Looking,
    /// The store was told to create the user.
    Adding,
    /// The store was told to remove the pending registration.
    Removing,
    /// The request is over.
    Done,
}

/// One call of [`verify_register`]: the stage it moves to and what it wants done.
///
/// The challenge of the link is looked up among the pending registrations. Where there is
/// none under it, because none was made, because it was used, or because it lapsed, the
/// link is refused. So is a link under which the store holds something that is no text:
/// no registration puts that there. Where there is a registration, the user is created
/// with the default settings, the pending registration is removed, and the answer is the
/// page that says so.
pub open spec fn verify_register_step(
    stage: VerifyStage,
    event: Option<EventView>,
    challenge: Seq<char>,
) -> (VerifyStage, ActionView) {
    match (stage, event) {
        (VerifyStage::Start, None) => (
            VerifyStage::Looking,
            ActionView::Ask(CommandView::Read(register_key(challenge))),
        ),
        (VerifyStage::Looking, Some(EventView::Reply(reply))) => match database::pending_email(
            reply,
        ) {
            Ok(Some(email)) => (
                VerifyStage::Adding,
                ActionView::Ask(CommandView::WriteAll(database::new_user_records(email))),
            ),
            _ => (
                VerifyStage::Done,
                ActionView::Respond(
                    ResponseView::Rejected(UNAUTHORIZED, BodyView::Page(Page::InvalidToken)),
                ),
            ),
        },
        (VerifyStage::Adding, Some(EventView::Reply(_))) => (
            VerifyStage::Removing,
            ActionView::Ask(CommandView::Delete(register_key(challenge))),
        ),
        (VerifyStage::Removing, Some(EventView::Reply(_))) => (
            VerifyStage::Done,
            ActionView::Respond(ResponseView::Success(BodyView::Page(Page::Registered))),
        ),
        _ => (VerifyStage::Done, ActionView::OutOfTurn),
    }
}

/// One call of [`verify_register`] as a turn. The session plays no part and stays as it
/// is.
pub open spec fn verify_register_turn(
    stage: VerifyStage,
    event: Option<EventView>,
    challenge: Seq<char>,
    session: SessionView,
) -> Turn<VerifyStage> {
    let step = verify_register_step(stage, event, challenge);
    Turn { stage: step.0, action: step.1, session }
}

/// Handles a followed registration link, one call at a time.
///
/// The first call is made at [`VerifyStage::Start`] without an event. While the action
/// returned is not a response, the host carries it out and calls again with the stage
/// returned and the event that came back. The session plays no part.
pub fn verify_register(stage: VerifyStage, event: Option<Event>, query: &VerifyQuery) -> (next: (
    VerifyStage,
    Action,
))
    ensures
        (next.0, next.1@) == verify_register_step(stage, event_view(event), query@),
{
    match (stage, event) {
        (VerifyStage::Start, None) => (
            VerifyStage::Looking,
            Action::Ask(database::register_exists(&query.challenge)),
        ),
        (VerifyStage::Looking, Some(Event::Reply(reply))) => {
            match database::register_exists_answer(&reply) {
                Ok(Some(email)) => (VerifyStage::Adding, Action::Ask(database::user_add(&email))),
                _ => (
                    VerifyStage::Done,
                    Action::Respond(
                        Response::Rejected(UNAUTHORIZED, Body::Page(Page::InvalidToken)),
                    ),
                ),
            }
        },
        (VerifyStage::Adding, Some(Event::Reply(_))) => (
            VerifyStage::Removing,
            Action::Ask(database::register_remove(&query.challenge)),
        ),
        (VerifyStage::Removing, Some(Event::Reply(_))) => (
            VerifyStage::Done,
            Action::Respond(Response::Success(Body::Page(Page::Registered))),
        ),
        _ => (VerifyStage::Done, Action::OutOfTurn),
    }
}

/// A login request played from start to end, where the address is one when
/// [`email_accepted`] says so and `challenge` is what is drawn.
pub open spec fn login_submit_run(
    email: Seq<char>,
    session: SessionView,
    weather_url: Seq<char>,
    challenge: Seq<char>,
    records: Records,
    delivers: bool,
) -> Outcome {
    run(
        |stage: LoginStage, event: Option<EventView>, now: SessionView|
            login_submit_turn(
                stage,
                event,
                email,
                email_accepted(email),
                now,
                weather_url,
                challenge,
            ),
        LoginStage::Start,
        session,
        records,
        delivers,
    )
}

/// A registration request played from start to end, where the address is one when
/// [`email_accepted`] says so and `challenge` is what is drawn.
pub open spec fn register_run(
    email: Seq<char>,
    session: SessionView,
    weather_url: Seq<char>,
    challenge: Seq<char>,
    records: Records,
    delivers: bool,
) -> Outcome {
    run(
        |stage: RegisterStageView, event: Option<EventView>, now: SessionView|
            register_turn(
                stage,
                event,
                email,
                email_accepted(email),
                now,
                weather_url,
                challenge,
            ),
        RegisterStageView::Start,
        session,
        records,
        delivers,
    )
}

/// The request of a registration link played from start to end.
pub open spec fn verify_register_run(
    challenge: Seq<char>,
    session: SessionView,
    records: Records,
) -> Outcome {
    run(
        |stage: VerifyStage, event: Option<EventView>, now: SessionView|
            verify_register_turn(stage, event, challenge, now),
        VerifyStage::Start,
        session,
        records,
        true,
    )
}

} // verus!
