//! The action router: finds the step that takes an event and runs it.

use vstd::prelude::*;
use crate::handlers::{
    ask_question, asks, choose_category, choose_category_result, home, home_reply, index,
    index_reply, register, register_result, response, response_result, seen, setting,
    setting_result,
};
use crate::message::{MessageView, Payload, PayloadData, PayloadDataView};
use crate::models::{text_of, User, UserView};
use crate::reply::{failure_text, result_view, HandlerError, Reply, ReplyView};
use crate::route::{path_of, route_of, Route};
use crate::serializers::{Data, LoadError};
use crate::store::PendingActions;

verus! {

/// One inbound unit of the conversation.
#[derive(Debug, PartialEq, Eq)]
pub struct Event {
    /// The identity of the user who sent it.
    pub user: String,
    /// The path of the step that the sender chose, if the sender chose one.
    pub route: Option<String>,
    /// The data for the step.
    pub data: PayloadData,
}

impl Event {
    /// The event that comes in when the user selects an option: it names the
    /// route of the option's payload and carries the payload's data.
    pub fn select(user: &str, payload: &Payload) -> (r: Event)
        ensures
            r.user@ == user@,
            text_of(r.route) == Some(path_of(payload.route)),
            r.data@ == payload.data@,
    {
        Event {
            user: String::from_str(user),
            route: Some(String::from_str(payload.route.path())),
            data: payload.data.clone(),
        }
    }
}

/// Why an event was not handled.
#[derive(Clone, Copy, Debug, PartialEq, Eq, Structural)]
pub enum RouterError {
    /// The event names a route that is not a step of the conversation.
    RouteNotFound,
    /// The data of the event is not of the shape that the step takes.
    InvalidPayload,
}

/// The step that takes an event. A route that the event names decides alone,
/// and fails where it names no step; without one, the pending step of the
/// user takes the event; without that, the welcome step.
pub open spec fn resolved(explicit: Option<Seq<char>>, pending: Option<Route>) -> Result<
    Route,
    RouterError,
> {
    match explicit {
        Some(path) => match route_of(path) {
            Some(route) => Ok(route),
            None => Err(RouterError::RouteNotFound),
        },
        None => match pending {
            Some(route) => Ok(route),
            None => Ok(Route::Index),
        },
    }
}

/// The characters of an optional path.
pub open spec fn path_view(path: Option<&str>) -> Option<Seq<char>> {
    match path {
        Some(p) => Some(p@),
        None => None,
    }
}

/// Finds the step that takes an event.
pub fn resolve(explicit: Option<&str>, pending: Option<Route>) -> (r: Result<Route, RouterError>)
    ensures
        r == resolved(path_view(explicit), pending),
{
    match explicit {
        Some(path) => match Route::parse(path) {
            Some(route) => Ok(route),
            None => Err(RouterError::RouteNotFound),
        },
        None => match pending {
            Some(route) => Ok(route),
            None => Ok(Route::Index),
        },
    }
}

/// What the user is told of an event that was not handled: one line that
/// gives no detail. Nothing is stored or left pending, and no step follows.
pub fn report(error: RouterError) -> (r: Reply)
    ensures
        r@ == ReplyView::say(seq![MessageView::Text(failure_text())]),
        r@.stops(),
{
    Reply::say("⚠️ Something went wrong, please try again later.")
}

/// What a step returns for the data of an event, the record of the user and
/// the question bank. The step that asks a question draws at random, so of
/// its outcome only [`asks`] is known.
pub open spec fn dispatched(
    result: Result<ReplyView, HandlerError>,
    route: Route,
    data: PayloadDataView,
    user: Option<UserView>,
    bank: Result<&Data, LoadError>,
) -> bool {
    match route {
        Route::Index => result == Ok::<ReplyView, HandlerError>(index_reply()),
        Route::Home => result == Ok::<ReplyView, HandlerError>(home_reply(user)),
        Route::Register => result == register_result(data),
        Route::Setting => result == setting_result(data, user),
        Route::ChooseCategory => result == choose_category_result(data, user),
        Route::AskQuestion => result matches Ok(reply) && asks(reply, user, bank),
        Route::Response => result == response_result(data, user),
    }
}

/// Runs a step.
pub fn dispatch(
    route: Route,
    data: &PayloadData,
    user: Option<&User>,
    bank: Result<&Data, LoadError>,
) -> (r: Result<Reply, HandlerError>)
    requires
        route == Route::Response ==> (user matches Some(u) ==> u.score < i32::MAX),
    ensures
        dispatched(result_view(r), route, data@, seen(user), bank),
        r matches Ok(reply) ==> reply@.wf(),
{
    match route {
        Route::Index => Ok(index()),
        Route::Home => Ok(home(user)),
        Route::Register => register(data),
        Route::Setting => setting(data, user),
        Route::ChooseCategory => choose_category(data, user),
        Route::AskQuestion => Ok(ask_question(user, bank)),
        Route::Response => response(data, user),
    }
}

/// The router with the pending step of each user.
#[derive(Debug, PartialEq, Eq)]
pub struct Router {
    pub pending: PendingActions,
}

impl Router {
    /// A router for which no user has a pending step.
    pub fn new() -> (r: Router)
        ensures
            r.pending.wf(),
            r.pending@ == Map::<Seq<char>, Route>::empty(),
    {
        Router { pending: PendingActions::new() }
    }

    /// Finds the step that takes an event of `user_id`, and forgets the
    /// pending step of that user: a pending step takes one event at most, and
    /// a route that the event names takes its place.
    pub fn route(&mut self, user_id: &str, explicit: Option<&str>) -> (r: Result<
        Route,
        RouterError,
    >)
        requires
            old(self).pending.wf(),
        ensures
            final(self).pending.wf(),
            r == resolved(path_view(explicit), old(self).pending.pending(user_id@)),
            final(self).pending@ == old(self).pending@.remove(user_id@),
    {
        let pending = self.pending.get(user_id);
        self.pending.clear(user_id);
        resolve(explicit, pending)
    }

    /// Handles an event: finds the step that takes it and runs the step on
    /// the data of the event. An event that names an unknown route fails
    /// before any step runs; a step that refuses the data fails the event.
    /// The pending step of the user is forgotten whatever comes of it.
    pub fn handle(
        &mut self,
        event: &Event,
        user: Option<&User>,
        bank: Result<&Data, LoadError>,
    ) -> (r: Result<Reply, RouterError>)
        requires
            old(self).pending.wf(),
            resolved(text_of(event.route), old(self).pending.pending(event.user@)) == Ok::<
                Route,
                RouterError,
            >(Route::Response) ==> (user matches Some(u) ==> u.score < i32::MAX),
        ensures
            final(self).pending.wf(),
            final(self).pending@ == old(self).pending@.remove(event.user@),
            match resolved(
                text_of(event.route),
                old(self).pending.pending(event.user@),
            ) {
                Ok(route) => match r {
                    Ok(reply) => dispatched(Ok(reply@), route, event.data@, seen(user), bank),
                    Err(e) => e == RouterError::InvalidPayload && dispatched(
                        Err(HandlerError::InvalidPayload),
                        route,
                        event.data@,
                        seen(user),
                        bank,
                    ),
                },
                Err(e) => r == Err::<Reply, RouterError>(e),
            },
            r matches Ok(reply) ==> reply@.wf(),
    {
        let explicit = match &event.route {
            Some(path) => Some(path.as_str()),
            None => None,
        };
        let route = match self.route(event.user.as_str(), explicit) {
            Ok(route) => route,
            Err(e) => {
                return Err(e);
            },
        };
        match dispatch(route, &event.data, user, bank) {
            Ok(reply) => Ok(reply),
            Err(HandlerError::InvalidPayload) => Err(RouterError::InvalidPayload),
        }
    }

    /// Ends a turn: leaves pending for the user what the settled outcome of
    /// the turn's last step asks for.
    pub fn finish(&mut self, user_id: &str, reply: &Reply)
        requires
            old(self).pending.wf(),
        ensures
            final(self).pending.wf(),
            final(self).pending@ == match reply.pending {
                Some(route) => old(self).pending@.insert(user_id@, route),
                None => old(self).pending@,
            },
    {
        match reply.pending {
            Some(route) => self.pending.set(user_id, route),
            None => {},
        }
    }
}

} // verus!
