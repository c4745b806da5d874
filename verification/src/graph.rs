//! The dashboard page.

use vstd::prelude::*;
use crate::database;
use crate::database::{settings_keys, CommandView};
use crate::flow::{
    event_view, run, turn, Action, ActionView, Event, EventView, Outcome, Turn,
};
use crate::records::Records;
use crate::response::{
    Body, BodyView, Response, ResponseView, INTERNAL_SERVER_ERROR, LOGIN_PATH,
    SETTINGS_MISSING,
};
use crate::session::{Session, SessionView};
use crate::settings::{read_settings, settings_missing, shown_settings, SettingsDataView};

verus! {

/// What the dashboard shows: the four stored settings of the user who looks at it.
#[derive(Debug, PartialEq, Eq)]
pub struct GraphSettings {
    pub temperature: String,
    pub pressure: String,
    pub theme: String,
    pub timeframe: String,
}

/// Mathematical value of a [`GraphSettings`].
pub struct GraphSettingsView {
    pub temperature: Seq<char>,
    pub pressure: Seq<char>,
    pub theme: Seq<char>,
    pub timeframe: Seq<char>,
}

impl View for GraphSettings {
    type V = GraphSettingsView;

    open spec fn view(&self) -> GraphSettingsView {
        GraphSettingsView {
            temperature: self.temperature@,
            pressure: self.pressure@,
            theme: self.theme@,
            timeframe: self.timeframe@,
        }
    }
}

impl Clone for GraphSettings {
    fn clone(&self) -> (copy: GraphSettings)
        ensures
            copy@ == self@,
    {
        GraphSettings {
            temperature: self.temperature.clone(),
            pressure: self.pressure.clone(),
            theme: self.theme.clone(),
            timeframe: self.timeframe.clone(),
        }
    }
}

/// Where a request for the dashboard stands.
#[derive(Clone, Copy, Debug, PartialEq, Eq)]
pub enum GraphStage {
    /// Nothing was done yet.
    Start,
    /// The store was asked for the user's settings.
    Reading,
    /// The request is over.
    Done,
}

/// The dashboard for these settings.
pub open spec fn graph_page(data: SettingsDataView) -> GraphSettingsView {
    GraphSettingsView {
        temperature: data.temperature,
        pressure: data.pressure,
        theme: data.theme,
        timeframe: data.timeframe,
    }
}

/// One call of [`graph_index`].
///
/// Whoever is not signed in is sent to the login page. For a user the four settings are
/// read in one batch, and the dashboard is drawn with them. A user whose settings the
/// store does not hold in full is answered with [`settings_missing`].
pub open spec fn graph_index_turn(
    stage: GraphStage,
    event: Option<EventView>,
    session: SessionView,
) -> Turn<GraphStage> {
    match (stage, event, session.email) {
        (GraphStage::Start, None, None) => Turn {
            stage: GraphStage::Done,
            action: ActionView::Respond(ResponseView::Redirect(LOGIN_PATH@)),
            session,
        },
        (GraphStage::Start, None, Some(user)) => Turn {
            stage: GraphStage::Reading,
            action: ActionView::Ask(CommandView::ReadAll(settings_keys(user))),
            session,
        },
        (GraphStage::Reading, Some(EventView::Reply(reply)), _) => Turn {
            stage: GraphStage::Done,
            action: ActionView::Respond(
                match shown_settings(reply) {
                    Some(data) => ResponseView::Success(BodyView::Graph(graph_page(data))),
                    None => settings_missing(),
                },
            ),
            session,
        },
        _ => Turn {
            stage: GraphStage::Done,
            action: ActionView::OutOfTurn,
            session,
        },
    }
}

/// Handles a request for the dashboard, one call at a time.
///
/// The first call is made at [`GraphStage::Start`] without an event. While the action
/// returned is not a response, the host carries it out and calls again with the stage
/// returned and the event that came back.
pub fn graph_index(stage: GraphStage, event: Option<Event>, session: &Session) -> (next: (
    GraphStage,
    Action,
))
    ensures
        turn(next.0, next.1@, session@) == graph_index_turn(stage, event_view(event), session@),
{
    match (stage, event, &session.email) {
        (GraphStage::Start, None, None) => (
            GraphStage::Done,
            Action::Respond(Response::redirect(LOGIN_PATH)),
        ),
        (GraphStage::Start, None, Some(user)) => (
            GraphStage::Reading,
            Action::Ask(database::settings_get(user)),
        ),
        (GraphStage::Reading, Some(Event::Reply(reply)), _) => match read_settings(&reply) {
            Some(data) => {
                let page = GraphSettings {
                    temperature: data.temperature,
                    pressure: data.pressure,
                    theme: data.theme,
                    timeframe: data.timeframe,
                };
                (GraphStage::Done, Action::Respond(Response::Success(Body::Graph(page))))
            },
            None => (
                GraphStage::Done,
                Action::Respond(Response::rejected_text(INTERNAL_SERVER_ERROR, SETTINGS_MISSING)),
            ),
        },
        _ => (GraphStage::Done, Action::OutOfTurn),
    }
}

/// A request for the dashboard played from start to end.
pub open spec fn graph_index_run(session: SessionView, records: Records) -> Outcome {
    run(
        |stage: GraphStage, event: Option<EventView>, now: SessionView|
            graph_index_turn(stage, event, now),
        GraphStage::Start,
        session,
        records,
        true,
    )
}

} // verus!
