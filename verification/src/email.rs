//! The two mails of the sign-in flow. The functions here compose a mail; the host hands it
//! to its mailer.

use vstd::prelude::*;
use vstd::string::*;
use crate::text::join;

verus! {

pub const REGISTER_SUBJECT: &'static str = "Weather Station Registration";

pub const LOGIN_SUBJECT: &'static str = "Weather Station Login Attempt";

/// The registration mail up to its link.
pub const REGISTER_LEAD: &'static str =
    "Hello,<br /><br />Your Weather Station Admin has generated a registration request for you.<br />Press the following link to register for the web interface. <a href=\"";

/// The registration mail after its link.
pub const REGISTER_TAIL: &'static str = "\">Register.</a><br /><br />HAAK Weather Station";

/// The login mail up to its link.
pub const LOGIN_LEAD: &'static str =
    "Hello,<br /><br />You are receiving this email because a login has been requested for the Weather Station.<br />Press the following link to authorize the request. <a href=\"";

/// The login mail after its link.
pub const LOGIN_TAIL: &'static str = "\">Authorize Request.</a><br /><br />HAAK Weather Station";

/// A mail to send.
#[derive(Debug, PartialEq, Eq)]
pub struct Mail {
    pub to: String,
    pub from: String,
    pub subject: String,
    /// The body, as HTML.
    pub html: String,
}

/// Mathematical value of a [`Mail`].
pub struct MailView {
    pub to: Seq<char>,
    pub from: Seq<char>,
    pub subject: Seq<char>,
    pub html: Seq<char>,
}

impl View for Mail {
    type V = MailView;

    open spec fn view(&self) -> MailView {
        MailView { to: self.to@, from: self.from@, subject: self.subject@, html: self.html@ }
    }
}

impl Clone for Mail {
    fn clone(&self) -> (copy: Mail)
        ensures
            copy@ == self@,
    {
        Mail {
            to: self.to.clone(),
            from: self.from.clone(),
            subject: self.subject.clone(),
            html: self.html.clone(),
        }
    }
}

/// The address the station's mails come from.
pub open spec fn sender(weather_url: Seq<char>) -> Seq<char> {
    "weather@"@ + weather_url
}

/// The link that completes the registration a challenge stands for.
pub open spec fn register_link(weather_url: Seq<char>, code: Seq<char>) -> Seq<char> {
    "https://"@ + weather_url + "/verify_register?c="@ + code
}

/// The link that completes the login a challenge stands for.
pub open spec fn login_link(weather_url: Seq<char>, code: Seq<char>) -> Seq<char> {
    "https://"@ + weather_url + "/verify_login?c="@ + code
}

/// The mail that invites `recipient` to register.
pub open spec fn register_mail(
    recipient: Seq<char>,
    code: Seq<char>,
    weather_url: Seq<char>,
) -> MailView {
    MailView {
        to: recipient,
        from: sender(weather_url),
        subject: REGISTER_SUBJECT@,
        html: REGISTER_LEAD@ + register_link(weather_url, code) + REGISTER_TAIL@,
    }
}

/// The mail that lets `recipient` complete a login.
pub open spec fn login_mail(
    recipient: Seq<char>,
    code: Seq<char>,
    weather_url: Seq<char>,
) -> MailView {
    MailView {
        to: recipient,
        from: sender(weather_url),
        subject: LOGIN_SUBJECT@,
        html: LOGIN_LEAD@ + login_link(weather_url, code) + LOGIN_TAIL@,
    }
}

/// Whether `part` stands somewhere in `text`.
pub open spec fn occurs_in(part: Seq<char>, text: Seq<char>) -> bool {
    exists|at: int| 0 <= at <= text.len() - part.len() && #[trigger] text.subrange(
        at,
        at + part.len(),
    ) == part
}

/// The HTML of a mail: the link between what leads up to it and what follows.
fn compose(lead: &str, weather_url: &str, path: &str, code: &str, tail: &str) -> (html: String)
    ensures
        html@ == lead@ + ("https://"@ + weather_url@ + path@ + code@) + tail@,
{
    let mut link = "https://".to_owned();
    link.append(weather_url);
    link.append(path);
    link.append(code);
    let mut html = lead.to_owned();
    html.append(link.as_str());
    html.append(tail);
    html
}

/// Composes the mail that invites `recipient` to register, with the link that carries
/// `code`. `weather_url` is the host name under which the station is reached.
///
/// The address is taken as it is: whoever calls has validated it.
pub fn send_register(recipient: String, code: String, weather_url: &str) -> (mail: Mail)
    ensures
        mail@ == register_mail(recipient@, code@, weather_url@),
{
    Mail {
        to: recipient,
        from: join("weather@", weather_url),
        subject: REGISTER_SUBJECT.to_owned(),
        html: compose(REGISTER_LEAD, weather_url, "/verify_register?c=", code.as_str(), REGISTER_TAIL),
    }
}

/// Composes the mail that lets `recipient` complete a login, with the link that carries
/// `code`. `weather_url` is the host name under which the station is reached.
///
/// The address is taken as it is: whoever calls has validated it.
pub fn send_challenge(recipient: String, code: String, weather_url: &str) -> (mail: Mail)
    ensures
        mail@ == login_mail(recipient@, code@, weather_url@),
{
    Mail {
        to: recipient,
        from: join("weather@", weather_url),
        subject: LOGIN_SUBJECT.to_owned(),
        html: compose(LOGIN_LEAD, weather_url, "/verify_login?c=", code.as_str(), LOGIN_TAIL),
    }
}

/// The challenge stands in the login mail, inside its link.
pub proof fn lemma_login_mail_carries_code(
    recipient: Seq<char>,
    code: Seq<char>,
    weather_url: Seq<char>,
)
    ensures
        occurs_in(code, login_mail(recipient, code, weather_url).html),
        occurs_in(login_link(weather_url, code), login_mail(recipient, code, weather_url).html),
{
    let html = login_mail(recipient, code, weather_url).html;
    let link = login_link(weather_url, code);
    let start = LOGIN_LEAD@.len() as int;
    assert(html.subrange(start, start + link.len()) =~= link);
    let at = start + link.len() - code.len();
    assert(html.subrange(at, at + code.len()) =~= code);
}

/// The challenge stands in the registration mail, inside its link.
pub proof fn lemma_register_mail_carries_code(
    recipient: Seq<char>,
    code: Seq<char>,
    weather_url: Seq<char>,
)
    ensures
        occurs_in(code, register_mail(recipient, code, weather_url).html),
        occurs_in(
            register_link(weather_url, code),
            register_mail(recipient, code, weather_url).html,
        ),
{
    let html = register_mail(recipient, code, weather_url).html;
    let link = register_link(weather_url, code);
    let start = REGISTER_LEAD@.len() as int;
    assert(html.subrange(start, start + link.len()) =~= link);
    let at = start + link.len() - code.len();
    assert(html.subrange(at, at + code.len()) =~= code);
}

} // verus!
