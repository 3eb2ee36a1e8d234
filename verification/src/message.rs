//! What travels between the conversation and the transport: payloads that
//! come back with the user's next selection, and the messages sent out.

use vstd::prelude::*;
use crate::route::Route;

verus! {

/// An entry of the persistent menu.
#[derive(Clone, Copy, Debug, PartialEq, Eq, Structural)]
pub enum Settings {
    ResetScoreAccount,
    DeleteAccount,
    ChooseCategory,
}

/// A question on its way to being graded: what was asked, what the user
/// selected and what is right.
#[derive(Debug, PartialEq, Eq)]
pub struct QuestionAndAnswer {
    pub question: String,
    pub user_answer: String,
    pub true_answer: String,
}

/// A question on its way to being graded, as a mathematical value.
pub struct QuestionAndAnswerView {
    pub question: Seq<char>,
    pub user_answer: Seq<char>,
    pub true_answer: Seq<char>,
}

impl View for QuestionAndAnswer {
    type V = QuestionAndAnswerView;

    open spec fn view(&self) -> QuestionAndAnswerView {
        QuestionAndAnswerView {
            question: self.question@,
            user_answer: self.user_answer@,
            true_answer: self.true_answer@,
        }
    }
}

impl Clone for QuestionAndAnswer {
    fn clone(&self) -> (r: Self)
        ensures
            r@ == self@,
    {
        QuestionAndAnswer {
            question: self.question.clone(),
            user_answer: self.user_answer.clone(),
            true_answer: self.true_answer.clone(),
        }
    }
}

/// The data that a step receives, one shape per kind of step.
#[derive(Debug, PartialEq, Eq)]
pub enum PayloadData {
    /// Nothing.
    Empty,
    /// Text that the user typed, or the name of a category.
    Text(String),
    /// An entry of the persistent menu.
    Setting(Settings),
    /// A question with the answer that the user selected.
    Answer(QuestionAndAnswer),
}

/// Payload data as a mathematical value.
pub enum PayloadDataView {
    Empty,
    Text(Seq<char>),
    Setting(Settings),
    Answer(QuestionAndAnswerView),
}

impl View for PayloadData {
    type V = PayloadDataView;

    open spec fn view(&self) -> PayloadDataView {
        match self {
            PayloadData::Empty => PayloadDataView::Empty,
            PayloadData::Text(t) => PayloadDataView::Text(t@),
            PayloadData::Setting(s) => PayloadDataView::Setting(*s),
            PayloadData::Answer(a) => PayloadDataView::Answer(a@),
        }
    }
}

impl Clone for PayloadData {
    fn clone(&self) -> (r: Self)
        ensures
            r@ == self@,
    {
        match self {
            PayloadData::Empty => PayloadData::Empty,
            PayloadData::Text(t) => PayloadData::Text(t.clone()),
            PayloadData::Setting(s) => PayloadData::Setting(*s),
            PayloadData::Answer(a) => PayloadData::Answer(a.clone()),
        }
    }
}

/// The step that a selection leads to, with the data for it.
#[derive(Debug, PartialEq, Eq)]
pub struct Payload {
    pub route: Route,
    pub data: PayloadData,
}

/// A payload as a mathematical value.
pub struct PayloadView {
    pub route: Route,
    pub data: PayloadDataView,
}

impl View for Payload {
    type V = PayloadView;

    open spec fn view(&self) -> PayloadView {
        PayloadView { route: self.route, data: self.data@ }
    }
}

impl Clone for Payload {
    fn clone(&self) -> (r: Self)
        ensures
            r@ == self@,
    {
        Payload { route: self.route, data: self.data.clone() }
    }
}

impl Payload {
    /// A payload for `route` that carries `data`.
    pub fn new(route: Route, data: PayloadData) -> (r: Payload)
        ensures
            r@ == (PayloadView { route, data: data@ }),
    {
        Payload { route, data }
    }

    /// A payload for `route` that carries nothing.
    pub fn to(route: Route) -> (r: Payload)
        ensures
            r@ == PayloadView::to(route),
    {
        Payload { route, data: PayloadData::Empty }
    }
}

impl PayloadView {
    /// The payload for `route` that carries nothing.
    pub open spec fn to(route: Route) -> PayloadView {
        PayloadView { route, data: PayloadDataView::Empty }
    }

    /// The payload that selects an entry of the persistent menu.
    pub open spec fn setting(entry: Settings) -> PayloadView {
        PayloadView { route: Route::Setting, data: PayloadDataView::Setting(entry) }
    }

    /// The payload that selects a category.
    pub open spec fn category(name: Seq<char>) -> PayloadView {
        PayloadView { route: Route::ChooseCategory, data: PayloadDataView::Text(name) }
    }

    /// The payload that submits `user_answer` to a question.
    pub open spec fn answer(
        question: Seq<char>,
        user_answer: Seq<char>,
        true_answer: Seq<char>,
    ) -> PayloadView {
        PayloadView {
            route: Route::Response,
            data: PayloadDataView::Answer(
                QuestionAndAnswerView { question, user_answer, true_answer },
            ),
        }
    }
}

/// A title that the user can select, as a mathematical value.
pub struct ChoiceView {
    pub title: Seq<char>,
    pub payload: PayloadView,
}

/// One of several options of which the user selects at most one.
#[derive(Debug, PartialEq, Eq)]
pub struct QuickReply {
    pub title: String,
    pub payload: Payload,
}

impl View for QuickReply {
    type V = ChoiceView;

    open spec fn view(&self) -> ChoiceView {
        ChoiceView { title: self.title@, payload: self.payload@ }
    }
}

impl QuickReply {
    /// An option with the given title and payload.
    pub fn new(title: &str, payload: Payload) -> (r: QuickReply)
        ensures
            r@ == (ChoiceView { title: title@, payload: payload@ }),
    {
        QuickReply { title: String::from_str(title), payload }
    }
}

/// An entry of the persistent menu.
#[derive(Debug, PartialEq, Eq)]
pub struct Button {
    pub title: String,
    pub payload: Payload,
}

impl View for Button {
    type V = ChoiceView;

    open spec fn view(&self) -> ChoiceView {
        ChoiceView { title: self.title@, payload: self.payload@ }
    }
}

impl Button {
    /// A menu entry with the given title and payload.
    pub fn new(title: &str, payload: Payload) -> (r: Button)
        ensures
            r@ == (ChoiceView { title: title@, payload: payload@ }),
    {
        Button { title: String::from_str(title), payload }
    }
}

/// A message for the transport to deliver.
#[derive(Debug, PartialEq, Eq)]
pub enum Message {
    /// Plain text.
    Text(String),
    /// A line of text with options of which the user selects at most one.
    QuickReplies { text: String, replies: Vec<QuickReply> },
    /// The button that opens a conversation.
    GetStarted(Payload),
    /// The menu that stays available throughout the conversation.
    PersistentMenu(Vec<Button>),
}

/// A message as a mathematical value.
pub enum MessageView {
    Text(Seq<char>),
    QuickReplies { text: Seq<char>, replies: Seq<ChoiceView> },
    GetStarted(PayloadView),
    PersistentMenu(Seq<ChoiceView>),
}

/// The options of a quick-reply message as mathematical values, in order.
pub open spec fn replies_view(replies: Seq<QuickReply>) -> Seq<ChoiceView> {
    Seq::new(replies.len(), |i: int| replies[i]@)
}

/// The entries of a menu as mathematical values, in order.
pub open spec fn buttons_view(buttons: Seq<Button>) -> Seq<ChoiceView> {
    Seq::new(buttons.len(), |i: int| buttons[i]@)
}

impl View for Message {
    type V = MessageView;

    open spec fn view(&self) -> MessageView {
        match self {
            Message::Text(t) => MessageView::Text(t@),
            Message::QuickReplies { text, replies } => MessageView::QuickReplies {
                text: text@,
                replies: replies_view(replies@),
            },
            Message::GetStarted(p) => MessageView::GetStarted(p@),
            Message::PersistentMenu(b) => MessageView::PersistentMenu(buttons_view(b@)),
        }
    }
}

impl Message {
    /// A plain text message.
    pub fn text(text: &str) -> (r: Message)
        ensures
            r@ == MessageView::Text(text@),
    {
        Message::Text(String::from_str(text))
    }
}

/// The messages of a turn as mathematical values, in the order of sending.
pub open spec fn messages_view(messages: Seq<Message>) -> Seq<MessageView> {
    Seq::new(messages.len(), |i: int| messages[i]@)
}

} // verus!
