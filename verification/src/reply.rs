//! What a step of the conversation decides: the messages to send, the change
//! to the user's record, and where the conversation goes next.

use vstd::prelude::*;
use crate::message::{messages_view, Message, MessageView, Payload, PayloadView};
use crate::models::{User, UserView};
use crate::route::Route;

verus! {

/// Why the storage refused a change.
#[derive(Clone, Copy, Debug, PartialEq, Eq, Structural)]
pub enum StoreError {
    /// The display name or the identity is already registered.
    Conflict,
    /// The record could not be read or written.
    Storage,
}

/// Why a step could not run.
#[derive(Clone, Copy, Debug, PartialEq, Eq, Structural)]
pub enum HandlerError {
    /// The data that came with the event is not of the shape that the step
    /// takes.
    InvalidPayload,
}

/// A change to the record of the user whose turn it is.
#[derive(Debug, PartialEq, Eq)]
pub enum Change {
    /// The record stays as it is.
    Nothing,
    /// A record is created under this display name.
    Create { name: String },
    /// The record is replaced by this one.
    Update(User),
    /// The record is deleted.
    Delete,
}

/// A change as a mathematical value.
pub enum ChangeView {
    Nothing,
    Create { name: Seq<char> },
    Update(UserView),
    Delete,
}

impl View for Change {
    type V = ChangeView;

    open spec fn view(&self) -> ChangeView {
        match self {
            Change::Nothing => ChangeView::Nothing,
            Change::Create { name } => ChangeView::Create { name: name@ },
            Change::Update(user) => ChangeView::Update(user@),
            Change::Delete => ChangeView::Delete,
        }
    }
}

/// The outcome of one step. The caller applies `change` to the storage, hands
/// the result to [`settle`], and then, of what `settle` returns, sends
/// `messages` in order, asks for the explanation that `explain` requests and
/// sends it, records `pending` for the user, and runs `next`.
#[derive(Debug, PartialEq, Eq)]
pub struct Reply {
    /// The messages to send, in this order.
    pub messages: Vec<Message>,
    /// The change to the user's record.
    pub change: Change,
    /// The prompt for which an explanation is to be requested.
    pub explain: Option<String>,
    /// The step that takes the user's next event if it names no route.
    pub pending: Option<Route>,
    /// The step that runs next within this turn.
    pub next: Option<Payload>,
}

/// The outcome of a step as a mathematical value.
pub struct ReplyView {
    pub messages: Seq<MessageView>,
    pub change: ChangeView,
    pub explain: Option<Seq<char>>,
    pub pending: Option<Route>,
    pub next: Option<PayloadView>,
}

impl ReplyView {
    /// A step either leaves a pending action or runs another step, never
    /// both.
    pub open spec fn wf(self) -> bool {
        !(self.pending is Some && self.next is Some)
    }

    /// The outcome that only sends messages.
    pub open spec fn say(messages: Seq<MessageView>) -> ReplyView {
        ReplyView {
            messages,
            change: ChangeView::Nothing,
            explain: None,
            pending: None,
            next: None,
        }
    }

    /// Whether the turn ends with this step without a trace: nothing is
    /// changed, nothing is awaited and no step follows.
    pub open spec fn stops(self) -> bool {
        &&& self.change == ChangeView::Nothing
        &&& self.explain is None
        &&& self.pending is None
        &&& self.next is None
    }
}

impl View for Reply {
    type V = ReplyView;

    open spec fn view(&self) -> ReplyView {
        ReplyView {
            messages: messages_view(self.messages@),
            change: self.change@,
            explain: match self.explain {
                Some(p) => Some(p@),
                None => None,
            },
            pending: self.pending,
            next: match self.next {
                Some(p) => Some(p@),
                None => None,
            },
        }
    }
}

/// What a step returns, with the outcome as a mathematical value.
pub open spec fn result_view(r: Result<Reply, HandlerError>) -> Result<ReplyView, HandlerError> {
    match r {
        Ok(reply) => Ok(reply@),
        Err(e) => Err(e),
    }
}

/// The text that reports a failed registration.
pub open spec fn register_failed_text() -> Seq<char> {
    "❌ Failed to register user"@
}

/// The text that reports a failure of the storage.
pub open spec fn failure_text() -> Seq<char> {
    "⚠️ Something went wrong, please try again later."@
}

/// What becomes of a step's outcome once the storage has answered.
pub open spec fn settled(reply: ReplyView, outcome: Result<(), StoreError>) -> ReplyView {
    match outcome {
        Ok(_) => reply,
        Err(StoreError::Conflict) => ReplyView {
            pending: Some(Route::Register),
            ..ReplyView::say(seq![MessageView::Text(register_failed_text())])
        },
        Err(StoreError::Storage) => ReplyView::say(seq![MessageView::Text(failure_text())]),
    }
}

impl Reply {
    /// An outcome that only sends one line of text.
    pub fn say(text: &str) -> (r: Reply)
        ensures
            r@ == ReplyView::say(seq![MessageView::Text(text@)]),
            r@.stops(),
    {
        let mut messages: Vec<Message> = Vec::new();
        messages.push(Message::text(text));
        let r = Reply {
            messages,
            change: Change::Nothing,
            explain: None,
            pending: None,
            next: None,
        };
        assert(r@.messages =~= seq![MessageView::Text(text@)]);
        r
    }
}

/// Takes the storage's answer to the change that `reply` asked for.
///
/// Where the change was applied the outcome stands. Where the storage
/// reported a conflict the user is told that the registration failed and is
/// asked again; on any other failure the user is told so and the turn ends.
/// Neither sends what the step had prepared, runs a further step or requests
/// an explanation.
pub fn settle(reply: Reply, outcome: Result<(), StoreError>) -> (r: Reply)
    ensures
        r@ == settled(reply@, outcome),
        reply@.wf() ==> r@.wf(),
{
    match outcome {
        Ok(_) => reply,
        Err(StoreError::Conflict) => {
            let mut r = Reply::say("❌ Failed to register user");
            r.pending = Some(Route::Register);
            r
        },
        Err(StoreError::Storage) => Reply::say("⚠️ Something went wrong, please try again later."),
    }
}

} // verus!
