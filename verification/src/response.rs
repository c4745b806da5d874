//! What a handler answers a request with.

use vstd::prelude::*;
use crate::graph::{GraphSettings, GraphSettingsView};
use crate::settings::{Settings, SettingsView};

verus! {

/// Status of a request that succeeded.
pub const OK: u16 = 200;

/// Status of a redirect: the client is to fetch the location with GET.
pub const SEE_OTHER: u16 = 303;

/// Status of a request that lacks the right to do what it asks.
pub const UNAUTHORIZED: u16 = 401;

/// Status that tells a polling client that nobody is signed in yet.
pub const NOT_ACCEPTABLE: u16 = 406;

/// Status of a request whose input is refused.
pub const UNPROCESSABLE_ENTITY: u16 = 422;

/// Status of a request that failed on the server's side.
pub const INTERNAL_SERVER_ERROR: u16 = 500;

/// Where a redirect leads.
pub const ROOT_PATH: &'static str = "/";

pub const LOGIN_PATH: &'static str = "/login";

pub const SETTINGS_PATH: &'static str = "/settings";

/// What is said to whoever asked for a login or registration mail.
pub const CHECK_MAIL: &'static str = "Check your mail for login code";

pub const INVALID_EMAIL: &'static str = "Invalid email";

pub const ALREADY_REGISTERED: &'static str = "Email already registered";

pub const MAIL_FAILED: &'static str = "Could not send authentication mail";

/// What is said to a user whose settings the store does not hold in full.
pub const SETTINGS_MISSING: &'static str = "Could not read settings";

/// The fixed pages of the sign-in flow. The host holds their markup.
#[derive(Clone, Copy, Debug, PartialEq, Eq)]
pub enum Page {
    /// The form that asks for an email address.
    Login,
    /// Shown when a login link was accepted.
    Verified,
    /// Shown when a login or registration link is not, or no longer, good.
    InvalidToken,
    /// Shown when a registration link was accepted.
    Registered,
}

/// The content of a response.
#[derive(Debug, PartialEq, Eq)]
pub enum Body {
    Empty,
    /// A line of plain text.
    Text(String),
    /// One of the fixed pages.
    Page(Page),
    /// The dashboard, drawn with these settings.
    Graph(GraphSettings),
    /// The settings page, filled with these settings.
    Settings(Settings),
}

/// Mathematical value of a [`Body`].
pub enum BodyView {
    Empty,
    Text(Seq<char>),
    Page(Page),
    Graph(GraphSettingsView),
    Settings(SettingsView),
}

impl View for Body {
    type V = BodyView;

    open spec fn view(&self) -> BodyView {
        match *self {
            Body::Empty => BodyView::Empty,
            Body::Text(text) => BodyView::Text(text@),
            Body::Page(page) => BodyView::Page(page),
            Body::Graph(settings) => BodyView::Graph(settings@),
            Body::Settings(settings) => BodyView::Settings(settings@),
        }
    }
}

impl Clone for Body {
    fn clone(&self) -> (copy: Body)
        ensures
            copy@ == self@,
    {
        match self {
            Body::Empty => Body::Empty,
            Body::Text(text) => Body::Text(text.clone()),
            Body::Page(page) => Body::Page(*page),
            Body::Graph(settings) => Body::Graph(settings.clone()),
            Body::Settings(settings) => Body::Settings(settings.clone()),
        }
    }
}

/// The answer to a request.
#[derive(Debug, PartialEq, Eq)]
pub enum Response {
    /// The request succeeded.
    Success(Body),
    /// The client is sent to this location.
    Redirect(String),
    /// The request is turned down with this status.
    Rejected(u16, Body),
}

/// Mathematical value of a [`Response`].
pub enum ResponseView {
    Success(BodyView),
    Redirect(Seq<char>),
    Rejected(u16, BodyView),
}

impl View for Response {
    type V = ResponseView;

    open spec fn view(&self) -> ResponseView {
        match *self {
            Response::Success(body) => ResponseView::Success(body@),
            Response::Redirect(location) => ResponseView::Redirect(location@),
            Response::Rejected(status, body) => ResponseView::Rejected(status, body@),
        }
    }
}

impl Clone for Response {
    fn clone(&self) -> (copy: Response)
        ensures
            copy@ == self@,
    {
        match self {
            Response::Success(body) => Response::Success(body.clone()),
            Response::Redirect(location) => Response::Redirect(location.clone()),
            Response::Rejected(status, body) => Response::Rejected(*status, body.clone()),
        }
    }
}

impl ResponseView {
    /// The HTTP status of the response.
    pub open spec fn status(self) -> u16 {
        match self {
            ResponseView::Success(_) => OK,
            ResponseView::Redirect(_) => SEE_OTHER,
            ResponseView::Rejected(status, _) => status,
        }
    }
}

impl Response {
    /// The HTTP status to answer with.
    pub fn status(&self) -> (status: u16)
        ensures
            status == self@.status(),
    {
        match self {
            Response::Success(_) => OK,
            Response::Redirect(_) => SEE_OTHER,
            Response::Rejected(status, _) => *status,
        }
    }

    /// A redirect to `location`.
    pub fn redirect(location: &str) -> (response: Response)
        ensures
            response@ == ResponseView::Redirect(location@),
    {
        Response::Redirect(location.to_owned())
    }

    /// Success with a line of text.
    pub fn ok_text(text: &str) -> (response: Response)
        ensures
            response@ == ResponseView::Success(BodyView::Text(text@)),
    {
        Response::Success(Body::Text(text.to_owned()))
    }

    /// A refusal with a line of text.
    pub fn rejected_text(status: u16, text: &str) -> (response: Response)
        ensures
            response@ == ResponseView::Rejected(status, BodyView::Text(text@)),
    {
        Response::Rejected(status, Body::Text(text.to_owned()))
    }
}

} // verus!
