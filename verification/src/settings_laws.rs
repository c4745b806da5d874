//! What the settings handlers guarantee of a whole request.
//!
//! As in [`crate::auth_laws`], a request is a handler played to its answer against a store
//! that is a plain map of records.

use vstd::prelude::*;
use vstd::utf8::*;
use crate::auth::verify_register_run;
use crate::auth_laws::verify_register_consumes_the_link;
use crate::database::{
    lemma_texts_count, register_key, settings_keys, settings_records, user_key, CommandView,
};
use crate::email::MailView;
use crate::flow::{answers, play, ActionView, End, EventView, Outcome};
use crate::graph::{graph_index_run, graph_index_turn, graph_page, GraphStage};
use crate::records::{
    answer, is_admin, keeps_users, lemma_keys_apart, lemma_settings_read_back, lemma_write_all_domain,
    lemma_write_all_keeps_users, users_have_settings, write_all, Records,
};
use crate::response::{BodyView, ResponseView, LOGIN_PATH, SETTINGS_PATH};
use crate::session::SessionView;
use crate::settings::{
    settings_index_run, settings_index_turn, settings_missing, settings_page,
    settings_save_run, settings_save_turn, shown_settings, valid_settings, SaveStage,
    SettingsDataView, SettingsStageView,
};

verus! {

/// Settings of which one is no valid choice are not saved, none of the four: the store is
/// not even asked, and its records stay as they were. The user is sent back to the
/// settings page all the same.
pub proof fn settings_save_writes_nothing_invalid(
    data: SettingsDataView,
    session: SessionView,
    records: Records,
)
    ensures
        !valid_settings(data) ==> settings_save_run(data, session, records) == (Outcome {
            end: End::Response(
                ResponseView::Redirect(
                    if session.authenticated() {
                        SETTINGS_PATH@
                    } else {
                        LOGIN_PATH@
                    },
                ),
            ),
            session,
            records,
            asked: Seq::empty(),
            sent: Seq::empty(),
        }),
{
    reveal_with_fuel(play, 2);
}

/// Valid settings of a signed-in user are saved whole: one command writes all four, and a
/// read of the user's settings then finds exactly the four that were submitted.
pub proof fn settings_save_writes_all_valid(
    data: SettingsDataView,
    user: Seq<char>,
    session: SessionView,
    records: Records,
)
    ensures
        valid_settings(data) && session.email == Some(user) ==> {
            let done = settings_save_run(data, session, records);
            &&& done.end == End::Response(ResponseView::Redirect(SETTINGS_PATH@))
            &&& done.asked == seq![CommandView::WriteAll(settings_records(user, data))]
            &&& done.records == write_all(records, settings_records(user, data))
            &&& shown_settings(answer(done.records, CommandView::ReadAll(settings_keys(user))))
                == Some(data)
            &&& done.session == session
            &&& done.sent == Seq::<MailView>::empty()
        },
{
    reveal_with_fuel(play, 3);
    lemma_settings_read_back(records, user, data);
}

/// Nobody's settings are saved for a client that is not signed in.
pub proof fn settings_save_needs_identity(
    data: SettingsDataView,
    session: SessionView,
    records: Records,
)
    ensures
        !session.authenticated() ==> settings_save_run(data, session, records) == (Outcome {
            end: End::Response(ResponseView::Redirect(LOGIN_PATH@)),
            session,
            records,
            asked: Seq::empty(),
            sent: Seq::empty(),
        }),
{
    reveal_with_fuel(play, 2);
}

/// The pages show what was saved: after a save of valid settings, the dashboard and the
/// settings page of that user carry the four submitted values.
pub proof fn pages_show_saved_settings(
    data: SettingsDataView,
    user: Seq<char>,
    session: SessionView,
    records: Records,
)
    ensures
        valid_settings(data) && session.email == Some(user) ==> {
            let saved = settings_save_run(data, session, records).records;
            let marked = is_admin(saved, user);
            &&& graph_index_run(session, saved).end == End::Response(
                ResponseView::Success(BodyView::Graph(graph_page(data))),
            )
            &&& settings_index_run(session, saved).end == End::Response(
                ResponseView::Success(BodyView::Settings(settings_page(data, marked))),
            )
            &&& graph_index_run(session, saved).records == saved
            &&& settings_index_run(session, saved).records == saved
        },
{
    reveal_with_fuel(play, 4);
    settings_save_writes_all_valid(data, user, session, records);
}

/// A user who has just registered finds the default settings on the settings page, and no
/// registration form: Celsius, Bar, Light and Week.
pub proof fn new_user_sees_defaults(
    challenge: Seq<char>,
    email: Seq<char>,
    session: SessionView,
    records: Records,
)
    ensures
        records.contains_key(register_key(challenge)) && records[register_key(challenge)]
            == encode_utf8(email) ==> {
            let registered = verify_register_run(challenge, session, records).records;
            let signed_in = SessionView { email: Some(email), pending_login: None };
            let defaults = SettingsDataView {
                temperature: "Celsius"@,
                pressure: "Bar"@,
                theme: "Light"@,
                timeframe: "Week"@,
            };
            &&& settings_index_run(signed_in, registered).end == End::Response(
                ResponseView::Success(BodyView::Settings(settings_page(defaults, false))),
            )
            &&& graph_index_run(signed_in, registered).end == End::Response(
                ResponseView::Success(BodyView::Graph(graph_page(defaults))),
            )
        },
{
    reveal_with_fuel(play, 4);
    verify_register_consumes_the_link(challenge, email, session, records);
}

/// A request to save settings always comes to an answer.
pub proof fn settings_save_always_answers(
    data: SettingsDataView,
    session: SessionView,
    records: Records,
)
    ensures
        settings_save_run(data, session, records).end is Response,
{
    reveal_with_fuel(play, 3);
}

/// Both pages always answer, and neither changes a record or the session. Whoever is not
/// signed in is sent to the login page. A user is shown the page with the four settings
/// the store holds, or, where it does not hold all four as text, is told so.
pub proof fn pages_always_answer(session: SessionView, records: Records)
    ensures
        ({
            let dashboard = graph_index_run(session, records);
            let settings = settings_index_run(session, records);
            &&& dashboard.records == records
            &&& settings.records == records
            &&& dashboard.session == session
            &&& settings.session == session
            &&& dashboard.sent == Seq::<MailView>::empty()
            &&& settings.sent == Seq::<MailView>::empty()
            &&& dashboard.end == End::Response(
                match session.email {
                    None => ResponseView::Redirect(LOGIN_PATH@),
                    Some(user) => match shown_settings(
                        answer(records, CommandView::ReadAll(settings_keys(user))),
                    ) {
                        Some(data) => ResponseView::Success(BodyView::Graph(graph_page(data))),
                        None => settings_missing(),
                    },
                },
            )
            &&& settings.end == End::Response(
                match session.email {
                    None => ResponseView::Redirect(LOGIN_PATH@),
                    Some(user) => match shown_settings(
                        answer(records, CommandView::ReadAll(settings_keys(user))),
                    ) {
                        Some(data) => ResponseView::Success(
                            BodyView::Settings(settings_page(data, is_admin(records, user))),
                        ),
                        None => settings_missing(),
                    },
                },
            )
        }),
{
    reveal_with_fuel(play, 4);
}

/// A short read is tolerated: a user of whose four settings the store lacks one gets an
/// answer from both pages, the one that says that the settings could not be read. The
/// store is asked for the settings once, and for nothing else.
pub proof fn pages_tolerate_missing_settings(
    user: Seq<char>,
    key: Seq<char>,
    session: SessionView,
    records: Records,
)
    ensures
        session.email == Some(user) && settings_keys(user).contains(key) && !records.contains_key(
            key,
        ) ==> {
            let dashboard = graph_index_run(session, records);
            let settings = settings_index_run(session, records);
            &&& dashboard.end == End::Response(settings_missing())
            &&& settings.end == End::Response(settings_missing())
            &&& dashboard.asked == seq![CommandView::ReadAll(settings_keys(user))]
            &&& settings.asked == seq![CommandView::ReadAll(settings_keys(user))]
            &&& dashboard.records == records
            &&& settings.records == records
        },
{
    reveal_with_fuel(play, 4);
    if session.email == Some(user) && settings_keys(user).contains(key) && !records.contains_key(
        key,
    ) {
        let keys = settings_keys(user);
        let items = answer(records, CommandView::ReadAll(keys))->Array_0;
        let at = choose|i: int| 0 <= i < keys.len() && keys[i] == key;
        assert(items[at] is None);
        lemma_texts_count(items);
    }
}

/// Saving settings deletes no user and no setting, and leaves every user with the four
/// settings.
pub proof fn settings_save_keeps_users(
    data: SettingsDataView,
    session: SessionView,
    records: Records,
)
    ensures
        keeps_users(records, settings_save_run(data, session, records).records),
        users_have_settings(records) ==> users_have_settings(
            settings_save_run(data, session, records).records,
        ),
{
    reveal_with_fuel(play, 3);
    let after = settings_save_run(data, session, records).records;
    if after != records {
        let user = session.email->0;
        let pairs = settings_records(user, data);
        assert(after == write_all(records, pairs));
        lemma_write_all_keeps_users(records, pairs);
        assert forall|other: Seq<char>, key: Seq<char>|
            users_have_settings(records) && after.contains_key(#[trigger] user_key(other))
                && #[trigger] settings_keys(other).contains(key) implies after.contains_key(
            key,
        ) by {
            lemma_write_all_domain(records, pairs, user_key(other));
            lemma_write_all_domain(records, pairs, key);
            if !records.contains_key(user_key(other)) {
                lemma_keys_apart(other, other, user);
                let i = choose|i: int|
                    0 <= i < pairs.len() && (#[trigger] pairs[i]).0 == user_key(other);
                assert(settings_keys(user)[i] == pairs[i].0);
                assert(settings_keys(user).contains(user_key(other)));
            }
        }
    }
}

/// The handlers of the two pages and of the settings form are never out of turn with a
/// host that keeps its place: not on their first call, and not on a call with the stage
/// they returned and an event that answers the action they asked for, whatever that
/// event holds.
pub proof fn settings_stay_in_turn(
    event: Option<EventView>,
    answer: Option<EventView>,
    page: SettingsStageView,
    dashboard: GraphStage,
    save: SaveStage,
    data: SettingsDataView,
    session: SessionView,
)
    ensures
        settings_index_turn(SettingsStageView::Start, None, session).action
            != ActionView::OutOfTurn,
        graph_index_turn(GraphStage::Start, None, session).action != ActionView::OutOfTurn,
        settings_save_turn(SaveStage::Start, None, data, session).action
            != ActionView::OutOfTurn,
        ({
            let asked = settings_index_turn(page, event, session);
            answers(answer, asked.action) ==> settings_index_turn(
                asked.stage,
                answer,
                session,
            ).action != ActionView::OutOfTurn
        }),
        ({
            let asked = graph_index_turn(dashboard, event, session);
            answers(answer, asked.action) ==> graph_index_turn(asked.stage, answer, session).action
                != ActionView::OutOfTurn
        }),
        ({
            let asked = settings_save_turn(save, event, data, session);
            answers(answer, asked.action) ==> settings_save_turn(
                asked.stage,
                answer,
                data,
                session,
            ).action != ActionView::OutOfTurn
        }),
{
}

} // verus!
