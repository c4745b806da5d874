//! Display settings of a user: their validation, the settings page and saving them.

use vstd::prelude::*;
use crate::database;
use crate::database::{
    admin_marker, settings_keys, settings_records, stored_settings, user_key, CommandView,
    Reply, ReplyView,
};
use crate::flow::{
    event_view, run, turn, Action, ActionView, Event, EventView, Outcome, Turn,
};
use crate::records::Records;
use crate::response::{
    Body, BodyView, Response, ResponseView, INTERNAL_SERVER_ERROR, LOGIN_PATH,
    SETTINGS_MISSING, SETTINGS_PATH,
};
use crate::session::{Session, SessionView};
use crate::text::same_text;

verus! {

/// What the settings page shows: the four stored settings, and whether the user may
/// register others.
#[derive(Debug, PartialEq, Eq)]
pub struct Settings {
    pub temperature: String,
    pub pressure: String,
    pub theme: String,
    pub timeframe: String,
    pub admin: bool,
}

/// Mathematical value of a [`Settings`].
pub struct SettingsView {
    pub temperature: Seq<char>,
    pub pressure: Seq<char>,
    pub theme: Seq<char>,
    pub timeframe: Seq<char>,
    pub admin: bool,
}

impl View for Settings {
    type V = SettingsView;

    open spec fn view(&self) -> SettingsView {
        SettingsView {
            temperature: self.temperature@,
            pressure: self.pressure@,
            theme: self.theme@,
            timeframe: self.timeframe@,
            admin: self.admin,
        }
    }
}

impl Clone for Settings {
    fn clone(&self) -> (copy: Settings)
        ensures
            copy@ == self@,
    {
        Settings {
            temperature: self.temperature.clone(),
            pressure: self.pressure.clone(),
            theme: self.theme.clone(),
            timeframe: self.timeframe.clone(),
            admin: self.admin,
        }
    }
}

/// The four display settings of a user, as the settings form submits them and as the
/// store holds them.
#[derive(Debug, PartialEq, Eq)]
pub struct SettingsData {
    pub temperature: String,
    pub pressure: String,
    pub theme: String,
    pub timeframe: String,
}

/// Mathematical value of a [`SettingsData`].
pub struct SettingsDataView {
    pub temperature: Seq<char>,
    pub pressure: Seq<char>,
    pub theme: Seq<char>,
    pub timeframe: Seq<char>,
}

impl View for SettingsData {
    type V = SettingsDataView;

    open spec fn view(&self) -> SettingsDataView {
        SettingsDataView {
            temperature: self.temperature@,
            pressure: self.pressure@,
            theme: self.theme@,
            timeframe: self.timeframe@,
        }
    }
}

impl Clone for SettingsData {
    fn clone(&self) -> (copy: SettingsData)
        ensures
            copy@ == self@,
    {
        SettingsData {
            temperature: self.temperature.clone(),
            pressure: self.pressure.clone(),
            theme: self.theme.clone(),
            timeframe: self.timeframe.clone(),
        }
    }
}

/// The temperature units a user can choose from.
pub open spec fn is_temperature_unit(s: Seq<char>) -> bool {
    s == "Celsius"@ || s == "Kelvin"@ || s == "Fahrenheit"@
}

/// The pressure units a user can choose from.
pub open spec fn is_pressure_unit(s: Seq<char>) -> bool {
    s == "Atmosphere"@ || s == "Millibar"@ || s == "Bar"@ || s == "PSI"@ || s == "Mercury"@
}

/// The themes a user can choose from.
pub open spec fn is_theme(s: Seq<char>) -> bool {
    s == "Light"@ || s == "Dark"@
}

/// The spans of time the dashboard can show.
pub open spec fn is_timeframe(s: Seq<char>) -> bool {
    s == "Week"@ || s == "Month"@ || s == "QuarterYear"@
}

/// Submitted settings are valid when each of the four names one of its choices.
pub open spec fn valid_settings(data: SettingsDataView) -> bool {
    &&& is_temperature_unit(data.temperature)
    &&& is_pressure_unit(data.pressure)
    &&& is_theme(data.theme)
    &&& is_timeframe(data.timeframe)
}

/// Whether all four submitted settings name one of their choices.
pub fn validate_settings(data: &SettingsData) -> (valid: bool)
    ensures
        valid == valid_settings(data@),
{
    let temperature = data.temperature.as_str();
    let pressure = data.pressure.as_str();
    let theme = data.theme.as_str();
    let timeframe = data.timeframe.as_str();
    let temperature_ok = same_text(temperature, "Celsius") || same_text(temperature, "Kelvin")
        || same_text(temperature, "Fahrenheit");
    let pressure_ok = same_text(pressure, "Atmosphere") || same_text(pressure, "Millibar")
        || same_text(pressure, "Bar") || same_text(pressure, "PSI") || same_text(
        pressure,
        "Mercury",
    );
    let theme_ok = same_text(theme, "Light") || same_text(theme, "Dark");
    let timeframe_ok = same_text(timeframe, "Week") || same_text(timeframe, "Month")
        || same_text(timeframe, "QuarterYear");
    temperature_ok && pressure_ok && theme_ok && timeframe_ok
}

/// The settings that a page shows, taken from the reply to a batched read: the first four
/// values found, in the order temperature, pressure, theme, timeframe.
///
/// A read can come back short, because a setting has no record. A short read shows
/// nothing, and neither does a reply that cannot be read at all: with a value left out,
/// those that follow it no longer stand in their places.
pub open spec fn shown_settings(reply: ReplyView) -> Option<SettingsDataView> {
    match stored_settings(reply) {
        Ok(texts) => if texts.len() < 4 {
            None
        } else {
            Some(
                SettingsDataView {
                    temperature: texts[0],
                    pressure: texts[1],
                    theme: texts[2],
                    timeframe: texts[3],
                },
            )
        },
        Err(_) => None,
    }
}

/// What a page answers a signed-in user whose settings cannot be shown: the request is
/// turned down as failed on the server's side, with a line that says why.
pub open spec fn settings_missing() -> ResponseView {
    ResponseView::Rejected(INTERNAL_SERVER_ERROR, BodyView::Text(SETTINGS_MISSING@))
}

/// Reads the settings that a page shows from the reply to a batched read; `None` where
/// the reply does not hold all four.
pub fn read_settings(reply: &Reply) -> (settings: Option<SettingsData>)
    ensures
        match shown_settings(reply@) {
            Some(shown) => settings matches Some(data) && data@ == shown,
            None => settings is None,
        },
{
    match database::settings_get_answer(reply) {
        Ok(found) => {
            if found.len() < 4 {
                None
            } else {
                assert(found.deep_view()[0] == found[0]@);
                assert(found.deep_view()[1] == found[1]@);
                assert(found.deep_view()[2] == found[2]@);
                assert(found.deep_view()[3] == found[3]@);
                Some(
                    SettingsData {
                        temperature: found[0].clone(),
                        pressure: found[1].clone(),
                        theme: found[2].clone(),
                        timeframe: found[3].clone(),
                    },
                )
            }
        },
        Err(_) => None,
    }
}

/// Where a request for the settings page stands.
#[derive(Debug, PartialEq, Eq)]
pub enum SettingsStage {
    /// Nothing was done yet.
    Start,
    /// The store was asked for the user's settings.
    Reading,
    /// The store was asked for the user record; these are the settings it returned before.
    CheckingAdmin(SettingsData),
    /// The request is over.
    Done,
}

/// Mathematical value of a [`SettingsStage`].
pub enum SettingsStageView {
    Start,
    Reading,
    CheckingAdmin(SettingsDataView),
    Done,
}

impl View for SettingsStage {
    type V = SettingsStageView;

    open spec fn view(&self) -> SettingsStageView {
        match *self {
            SettingsStage::Start => SettingsStageView::Start,
            SettingsStage::Reading => SettingsStageView::Reading,
            SettingsStage::CheckingAdmin(data) => SettingsStageView::CheckingAdmin(data@),
            SettingsStage::Done => SettingsStageView::Done,
        }
    }
}

impl Clone for SettingsStage {
    fn clone(&self) -> (copy: SettingsStage)
        ensures
            copy@ == self@,
    {
        match self {
            SettingsStage::Start => SettingsStage::Start,
            SettingsStage::Reading => SettingsStage::Reading,
            SettingsStage::CheckingAdmin(data) => SettingsStage::CheckingAdmin(data.clone()),
            SettingsStage::Done => SettingsStage::Done,
        }
    }
}

/// The settings page for these settings.
pub open spec fn settings_page(data: SettingsDataView, admin: bool) -> SettingsView {
    SettingsView {
        temperature: data.temperature,
        pressure: data.pressure,
        theme: data.theme,
        timeframe: data.timeframe,
        admin,
    }
}

/// One call of [`settings_index`].
///
/// Whoever is not signed in is sent to the login page. For a user the four settings are
/// read in one batch, then the user record; the page shows the settings, and the
/// registration form to an administrator. A user whose settings the store does not hold
/// in full is answered with [`settings_missing`], and the user record is not read.
pub open spec fn settings_index_turn(
    stage: SettingsStageView,
    event: Option<EventView>,
    session: SessionView,
) -> Turn<SettingsStageView> {
    match (stage, event, session.email) {
        (SettingsStageView::Start, None, None) => Turn {
            stage: SettingsStageView::Done,
            action: ActionView::Respond(ResponseView::Redirect(LOGIN_PATH@)),
            session,
        },
        (SettingsStageView::Start, None, Some(user)) => Turn {
            stage: SettingsStageView::Reading,
            action: ActionView::Ask(CommandView::ReadAll(settings_keys(user))),
            session,
        },
        (SettingsStageView::Reading, Some(EventView::Reply(reply)), Some(user)) => {
            match shown_settings(reply) {
                Some(data) => Turn {
                    stage: SettingsStageView::CheckingAdmin(data),
                    action: ActionView::Ask(CommandView::Read(user_key(user))),
                    session,
                },
                None => Turn {
                    stage: SettingsStageView::Done,
                    action: ActionView::Respond(settings_missing()),
                    session,
                },
            }
        },
        (SettingsStageView::CheckingAdmin(data), Some(EventView::Reply(reply)), _) => Turn {
            stage: SettingsStageView::Done,
            action: ActionView::Respond(
                ResponseView::Success(
                    BodyView::Settings(
                        settings_page(data, reply == ReplyView::Bulk(admin_marker())),
                    ),
                ),
            ),
            session,
        },
        _ => Turn {
            stage: SettingsStageView::Done,
            action: ActionView::OutOfTurn,
            session,
        },
    }
}

/// Handles a request for the settings page, one call at a time.
///
/// The first call is made at [`SettingsStage::Start`] without an event. While the action
/// returned is not a response, the host carries it out and calls again with the stage
/// returned and the event that came back.
pub fn settings_index(stage: SettingsStage, event: Option<Event>, session: &Session) -> (next: (
    SettingsStage,
    Action,
))
    ensures
        turn(next.0@, next.1@, session@) == settings_index_turn(
            stage@,
            event_view(event),
            session@,
        ),
{
    match (stage, event, &session.email) {
        (SettingsStage::Start, None, None) => (
            SettingsStage::Done,
            Action::Respond(Response::redirect(LOGIN_PATH)),
        ),
        (SettingsStage::Start, None, Some(user)) => (
            SettingsStage::Reading,
            Action::Ask(database::settings_get(user)),
        ),
        (SettingsStage::Reading, Some(Event::Reply(reply)), Some(user)) => {
            match read_settings(&reply) {
                Some(data) => (
                    SettingsStage::CheckingAdmin(data),
                    Action::Ask(database::user_is_admin(user)),
                ),
                None => (
                    SettingsStage::Done,
                    Action::Respond(
                        Response::rejected_text(INTERNAL_SERVER_ERROR, SETTINGS_MISSING),
                    ),
                ),
            }
        },
        (SettingsStage::CheckingAdmin(data), Some(Event::Reply(reply)), _) => {
            let page = Settings {
                temperature: data.temperature,
                pressure: data.pressure,
                theme: data.theme,
                timeframe: data.timeframe,
                admin: database::user_is_admin_answer(&reply),
            };
            (SettingsStage::Done, Action::Respond(Response::Success(Body::Settings(page))))
        },
        _ => (SettingsStage::Done, Action::OutOfTurn),
    }
}

/// Where a request to save settings stands.
#[derive(Clone, Copy, Debug, PartialEq, Eq)]
pub enum SaveStage {
    /// Nothing was done yet.
    Start,
    /// The store was told to write the settings.
    Saving,
    /// The request is over.
    Done,
}

/// One call of [`settings_save`].
///
/// Whoever is not signed in is sent to the login page. Valid settings are written, all
/// four in one command. Settings that are not valid are not written, none of them, and
/// nothing says so: either way the user is sent back to the settings page.
pub open spec fn settings_save_turn(
    stage: SaveStage,
    event: Option<EventView>,
    data: SettingsDataView,
    session: SessionView,
) -> Turn<SaveStage> {
    match (stage, event, session.email) {
        (SaveStage::Start, None, None) => Turn {
            stage: SaveStage::Done,
            action: ActionView::Respond(ResponseView::Redirect(LOGIN_PATH@)),
            session,
        },
        (SaveStage::Start, None, Some(user)) => if valid_settings(data) {
            Turn {
                stage: SaveStage::Saving,
                action: ActionView::Ask(CommandView::WriteAll(settings_records(user, data))),
                session,
            }
        } else {
            Turn {
                stage: SaveStage::Done,
                action: ActionView::Respond(ResponseView::Redirect(SETTINGS_PATH@)),
                session,
            }
        },
        (SaveStage::Saving, Some(EventView::Reply(_)), _) => Turn {
            stage: SaveStage::Done,
            action: ActionView::Respond(ResponseView::Redirect(SETTINGS_PATH@)),
            session,
        },
        _ => Turn { stage: SaveStage::Done, action: ActionView::OutOfTurn, session },
    }
}

/// Handles a submitted settings form, one call at a time.
///
/// The first call is made at [`SaveStage::Start`] without an event. While the action
/// returned is not a response, the host carries it out and calls again with the stage
/// returned and the event that came back.
pub fn settings_save(
    stage: SaveStage,
    event: Option<Event>,
    form: &SettingsData,
    session: &Session,
) -> (next: (SaveStage, Action))
    ensures
        turn(next.0, next.1@, session@) == settings_save_turn(
            stage,
            event_view(event),
            form@,
            session@,
        ),
{
    match (stage, event, &session.email) {
        (SaveStage::Start, None, None) => (
            SaveStage::Done,
            Action::Respond(Response::redirect(LOGIN_PATH)),
        ),
        (SaveStage::Start, None, Some(user)) => {
            if validate_settings(form) {
                (SaveStage::Saving, Action::Ask(database::settings_set(user, form)))
            } else {
                (SaveStage::Done, Action::Respond(Response::redirect(SETTINGS_PATH)))
            }
        },
        (SaveStage::Saving, Some(Event::Reply(_)), _) => (
            SaveStage::Done,
            Action::Respond(Response::redirect(SETTINGS_PATH)),
        ),
        _ => (SaveStage::Done, Action::OutOfTurn),
    }
}

/// A request for the settings page played from start to end.
pub open spec fn settings_index_run(session: SessionView, records: Records) -> Outcome {
    run(
        |stage: SettingsStageView, event: Option<EventView>, now: SessionView|
            settings_index_turn(stage, event, now),
        SettingsStageView::Start,
        session,
        records,
        true,
    )
}

/// A request to save settings played from start to end.
pub open spec fn settings_save_run(
    data: SettingsDataView,
    session: SessionView,
    records: Records,
) -> Outcome {
    run(
        |stage: SaveStage, event: Option<EventView>, now: SessionView|
            settings_save_turn(stage, event, data, now),
        SaveStage::Start,
        session,
        records,
        true,
    )
}

} // verus!
