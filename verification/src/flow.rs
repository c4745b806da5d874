//! How a handler and its host take turns.
//!
//! A handler that needs the key-value store or the mailer does not reach for them. It
//! returns an [`Action`] that says what it needs, together with the stage at which it
//! stands. The host does what the action says and calls the handler again with that
//! stage and the [`Event`] that came back, until the action is a response. Called in
//! this way, every handler comes to a response, whatever the store and the mailer say.
//!
//! [`play`] is that loop written down as a specification, with the store taken to be a
//! plain map of records.

use vstd::prelude::*;
use crate::database::{Command, CommandView, Reply, ReplyView};
use crate::records::{answer, effect, Records};
use crate::email::{Mail, MailView};
use crate::response::{Response, ResponseView};
use crate::session::SessionView;

verus! {

/// What came back from the outside world.
#[derive(Debug, PartialEq, Eq)]
pub enum Event {
    /// The store's answer to the command asked last.
    Reply(Reply),
    /// The mailer is done with the mail handed to it last; `true` when the mail went out.
    Sent(bool),
}

/// Mathematical value of an [`Event`].
pub enum EventView {
    Reply(ReplyView),
    Sent(bool),
}

impl View for Event {
    type V = EventView;

    open spec fn view(&self) -> EventView {
        match *self {
            Event::Reply(reply) => EventView::Reply(reply@),
            Event::Sent(delivered) => EventView::Sent(delivered),
        }
    }
}

impl Clone for Event {
    fn clone(&self) -> (copy: Event)
        ensures
            copy@ == self@,
    {
        match self {
            Event::Reply(reply) => Event::Reply(reply.clone()),
            Event::Sent(delivered) => Event::Sent(*delivered),
        }
    }
}

/// The value of the event that a handler is called with; `None` on its first call.
pub open spec fn event_view(event: Option<Event>) -> Option<EventView> {
    match event {
        Some(event) => Some(event@),
        None => None,
    }
}

/// What a handler wants done next.
#[derive(Debug, PartialEq, Eq)]
pub enum Action {
    /// Answer the request with this response. The handler is done.
    Respond(Response),
    /// Send this command to the store, and come back with its reply.
    Ask(Command),
    /// Hand this mail to the mailer, and come back with how that went.
    Send(Mail),
    /// The event handed in does not answer what the handler asked for last: the host has
    /// lost its place, and the request cannot go on. A handler that is called in turn
    /// never returns this, whatever the store and the mailer say.
    OutOfTurn,
}

/// Mathematical value of an [`Action`].
pub enum ActionView {
    Respond(ResponseView),
    Ask(CommandView),
    Send(MailView),
    OutOfTurn,
}

impl View for Action {
    type V = ActionView;

    open spec fn view(&self) -> ActionView {
        match *self {
            Action::Respond(response) => ActionView::Respond(response@),
            Action::Ask(command) => ActionView::Ask(command@),
            Action::Send(mail) => ActionView::Send(mail@),
            Action::OutOfTurn => ActionView::OutOfTurn,
        }
    }
}

impl Clone for Action {
    fn clone(&self) -> (copy: Action)
        ensures
            copy@ == self@,
    {
        match self {
            Action::Respond(response) => Action::Respond(response.clone()),
            Action::Ask(command) => Action::Ask(command.clone()),
            Action::Send(mail) => Action::Send(mail.clone()),
            Action::OutOfTurn => Action::OutOfTurn,
        }
    }
}

/// Whether `event` is what a host hands in after it has carried out `action`: the store's
/// reply to a command, or word of a mail.
pub open spec fn answers(event: Option<EventView>, action: ActionView) -> bool {
    match action {
        ActionView::Ask(_) => event matches Some(EventView::Reply(_)),
        ActionView::Send(_) => event matches Some(EventView::Sent(_)),
        _ => false,
    }
}

/// One call of a handler, seen from outside: the stage it moved to, what it wants done,
/// and the session as it left it.
pub struct Turn<S> {
    pub stage: S,
    pub action: ActionView,
    pub session: SessionView,
}

/// The turn that moved to `stage`, wants `action` done and left `session`.
pub open spec fn turn<S>(stage: S, action: ActionView, session: SessionView) -> Turn<S> {
    Turn { stage, action, session }
}

/// How a request ended.
pub enum End {
    /// The handler answered.
    Response(ResponseView),
    /// The handler was called out of turn.
    OutOfTurn,
    /// The handler was still asking when the turns ran out.
    Unfinished,
}

/// A request, played to its end: how it ended, and what it left behind.
pub struct Outcome {
    pub end: End,
    /// The session after the request.
    pub session: SessionView,
    /// The store after the request.
    pub records: Records,
    /// The commands that went to the store, in their order.
    pub asked: Seq<CommandView>,
    /// The mails that went to the mailer, in their order.
    pub sent: Seq<MailView>,
}

/// Plays a handler against a store that holds `records` and a mailer that delivers every
/// mail, or none: each command is answered as [`answer`] says and changes the records as
/// [`effect`] says. `handler` is one call of the handler, with its request fixed; `asked`
/// and `sent` are what went out before this call. At most `turns` calls are made.
pub open spec fn play<S>(
    handler: spec_fn(S, Option<EventView>, SessionView) -> Turn<S>,
    stage: S,
    event: Option<EventView>,
    session: SessionView,
    records: Records,
    delivers: bool,
    asked: Seq<CommandView>,
    sent: Seq<MailView>,
    turns: nat,
) -> Outcome
    decreases turns,
{
    if turns == 0 {
        Outcome { end: End::Unfinished, session, records, asked, sent }
    } else {
        let turn = handler(stage, event, session);
        match turn.action {
            ActionView::Respond(response) => Outcome {
                end: End::Response(response),
                session: turn.session,
                records,
                asked,
                sent,
            },
            ActionView::OutOfTurn => Outcome {
                end: End::OutOfTurn,
                session: turn.session,
                records,
                asked,
                sent,
            },
            ActionView::Ask(command) => play(
                handler,
                turn.stage,
                Some(EventView::Reply(answer(records, command))),
                turn.session,
                effect(records, command),
                delivers,
                asked.push(command),
                sent,
                (turns - 1) as nat,
            ),
            ActionView::Send(mail) => play(
                handler,
                turn.stage,
                Some(EventView::Sent(delivers)),
                turn.session,
                records,
                delivers,
                asked,
                sent.push(mail),
                (turns - 1) as nat,
            ),
        }
    }
}

/// A request from its first call to its end. No handler of this crate takes more than
/// eight turns.
pub open spec fn run<S>(
    handler: spec_fn(S, Option<EventView>, SessionView) -> Turn<S>,
    start: S,
    session: SessionView,
    records: Records,
    delivers: bool,
) -> Outcome {
    play(handler, start, None, session, records, delivers, Seq::empty(), Seq::empty(), 8)
}

} // verus!
