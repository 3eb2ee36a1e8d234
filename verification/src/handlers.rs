//! The steps of the quiz conversation. Each takes what the turn knows (the
//! data of the event, the user's record, the question bank) and decides what
//! is sent, what is stored and which step comes next.

use rand::Rng;
use vstd::prelude::*;
use crate::gemini::{first_text, first_text_of, prompt, prompt_text, Response, ServiceError};
use crate::message::{
    Button, ChoiceView, Message, MessageView, Payload, PayloadData, PayloadDataView,
    PayloadView, QuestionAndAnswer, QuestionAndAnswerView, QuickReply, Settings,
};
use crate::models::{name_fits, valid_name, User, UserView};
use crate::render::{decimal, decimal_of};
use crate::reply::{
    failure_text, register_failed_text, result_view, Change, ChangeView, HandlerError, Reply,
    ReplyView,
};
use crate::route::Route;
use crate::serializers::{
    category_name, category_named, Category, Data, LoadError, Question, QuestionView,
};

verus! {

/// The record that a turn has of its user, as a mathematical value.
pub open spec fn seen(user: Option<&User>) -> Option<UserView> {
    match user {
        Some(u) => Some(u@),
        None => None,
    }
}

// ---------------------------------------------------------------------------
// The persistent menu
// ---------------------------------------------------------------------------
/// The title under which a category is offered.
pub open spec fn category_label(category: Category) -> Seq<char> {
    match category {
        Category::Math => "🔢 Math"@,
        Category::Science => "🔬 Science"@,
        Category::History => "📜 History"@,
        Category::Sports => "⚽ Sport"@,
        Category::Programming => "💻 Programming"@,
    }
}

/// The option that selects a category.
pub open spec fn category_choice(category: Category) -> ChoiceView {
    ChoiceView {
        title: category_label(category),
        payload: PayloadView::category(category_name(category)),
    }
}

/// The message that offers the five categories.
pub open spec fn category_menu() -> MessageView {
    MessageView::QuickReplies {
        text: "🔧 Choose a Category"@,
        replies: seq![
            category_choice(Category::Math),
            category_choice(Category::Science),
            category_choice(Category::History),
            category_choice(Category::Sports),
            category_choice(Category::Programming),
        ],
    }
}

/// What the menu step decides, given the entry that was selected.
pub open spec fn setting_reply(entry: Settings, user: UserView) -> ReplyView {
    match entry {
        Settings::ResetScoreAccount => ReplyView {
            messages: seq![MessageView::Text("🔄 Score reset successfully!"@)],
            change: ChangeView::Update(user.reset()),
            explain: None,
            pending: None,
            next: Some(PayloadView::to(Route::Home)),
        },
        Settings::DeleteAccount => ReplyView {
            messages: seq![MessageView::Text("🗑️ Account deleted successfully!"@)],
            change: ChangeView::Delete,
            explain: None,
            pending: None,
            next: Some(PayloadView::to(Route::Home)),
        },
        Settings::ChooseCategory => ReplyView::say(seq![category_menu()]),
    }
}

/// What the menu step returns.
pub open spec fn setting_result(data: PayloadDataView, user: Option<UserView>) -> Result<
    ReplyView,
    HandlerError,
> {
    match user {
        None => Ok(
            ReplyView { next: Some(PayloadView::to(Route::Home)), ..ReplyView::say(seq![]) },
        ),
        Some(u) => match data {
            PayloadDataView::Setting(entry) => Ok(setting_reply(entry, u)),
            _ => Err(HandlerError::InvalidPayload),
        },
    }
}

fn category_option(category: Category) -> (r: QuickReply)
    ensures
        r@ == category_choice(category),
{
    let label = match category {
        Category::Math => "🔢 Math",
        Category::Science => "🔬 Science",
        Category::History => "📜 History",
        Category::Sports => "⚽ Sport",
        Category::Programming => "💻 Programming",
    };
    QuickReply::new(
        label,
        Payload::new(Route::ChooseCategory, PayloadData::Text(String::from_str(category.name()))),
    )
}

/// The menu step.
///
/// For a user without a record it hands over to the entry step. Otherwise
/// the selected entry decides: the score is put back to zero, the record is
/// deleted, or the five categories are offered. After a reset or a deletion
/// the entry step follows; the offer of categories ends the turn.
pub fn setting(data: &PayloadData, user: Option<&User>) -> (r: Result<Reply, HandlerError>)
    ensures
        result_view(r) == setting_result(data@, seen(user)),
        r matches Ok(reply) ==> reply@.wf(),
{
    let user = match user {
        Some(u) => u,
        None => {
            let reply = Reply {
                messages: Vec::new(),
                change: Change::Nothing,
                explain: None,
                pending: None,
                next: Some(Payload::to(Route::Home)),
            };
            assert(reply@.messages =~= seq![]);
            return Ok(reply);
        },
    };
    let entry = match data {
        PayloadData::Setting(entry) => *entry,
        _ => {
            return Err(HandlerError::InvalidPayload);
        },
    };
    match entry {
        Settings::ResetScoreAccount => {
            let mut updated = user.clone();
            updated.reset_score();
            let mut messages: Vec<Message> = Vec::new();
            messages.push(Message::text("🔄 Score reset successfully!"));
            let reply = Reply {
                messages,
                change: Change::Update(updated),
                explain: None,
                pending: None,
                next: Some(Payload::to(Route::Home)),
            };
            assert(reply@.messages =~= setting_reply(entry, user@).messages);
            Ok(reply)
        },
        Settings::DeleteAccount => {
            let mut messages: Vec<Message> = Vec::new();
            messages.push(Message::text("🗑️ Account deleted successfully!"));
            let reply = Reply {
                messages,
                change: Change::Delete,
                explain: None,
                pending: None,
                next: Some(Payload::to(Route::Home)),
            };
            assert(reply@.messages =~= setting_reply(entry, user@).messages);
            Ok(reply)
        },
        Settings::ChooseCategory => {
            let mut replies: Vec<QuickReply> = Vec::new();
            replies.push(category_option(Category::Math));
            replies.push(category_option(Category::Science));
            replies.push(category_option(Category::History));
            replies.push(category_option(Category::Sports));
            replies.push(category_option(Category::Programming));
            let menu = Message::QuickReplies {
                text: String::from_str("🔧 Choose a Category"),
                replies,
            };
            assert(menu@ == category_menu()) by {
                assert(menu@->QuickReplies_replies =~= category_menu()->QuickReplies_replies);
            }
            let mut messages: Vec<Message> = Vec::new();
            messages.push(menu);
            let reply = Reply {
                messages,
                change: Change::Nothing,
                explain: None,
                pending: None,
                next: None,
            };
            assert(reply@.messages =~= seq![category_menu()]);
            Ok(reply)
        },
    }
}

// ---------------------------------------------------------------------------
// Asking a question
// ---------------------------------------------------------------------------
/// The option that submits the answer at position `i` of a question.
pub open spec fn answer_choice(question: QuestionView, i: int) -> ChoiceView {
    ChoiceView {
        title: question.options[i],
        payload: PayloadView::answer(question.question, question.options[i], question.answer),
    }
}

/// What is sent for a question: its text, then one option per candidate
/// answer, in the order of the question. The grading step is left pending.
pub open spec fn question_reply(question: QuestionView) -> ReplyView {
    ReplyView {
        messages: seq![
            MessageView::Text(question.question),
            MessageView::QuickReplies {
                text: "🔍 Choose an option"@,
                replies: Seq::new(question.options.len(), |i: int| answer_choice(question, i)),
            },
        ],
        change: ChangeView::Nothing,
        explain: None,
        pending: Some(Route::Response),
        next: None,
    }
}

/// Presents a question to the user.
///
/// Each option carries the question's text and right answer along with the
/// candidate that it stands for, so that the answer can be graded without
/// the question bank.
pub fn send_question(question: &Question) -> (r: Reply)
    ensures
        r@ == question_reply(question@),
        r@.wf(),
{
    let mut replies: Vec<QuickReply> = Vec::new();
    let mut i: usize = 0;
    while i < question.options.len()
        invariant
            i <= question.options.len(),
            replies.len() == i,
            forall|j: int| 0 <= j < i ==> replies[j]@ == answer_choice(question@, j),
        decreases question.options.len() - i,
    {
        let option = &question.options[i];
        let answer = QuestionAndAnswer {
            question: question.question.clone(),
            user_answer: option.clone(),
            true_answer: question.answer.clone(),
        };
        let reply = QuickReply::new(
            option.as_str(),
            Payload::new(Route::Response, PayloadData::Answer(answer)),
        );
        replies.push(reply);
        i = i + 1;
    }
    let options = Message::QuickReplies {
        text: String::from_str("🔍 Choose an option"),
        replies,
    };
    assert(options@ == question_reply(question@).messages[1]) by {
        assert(options@->QuickReplies_replies =~= question_reply(
            question@,
        ).messages[1]->QuickReplies_replies);
    }
    let mut messages: Vec<Message> = Vec::new();
    messages.push(Message::text(question.question.as_str()));
    messages.push(options);
    let r = Reply {
        messages,
        change: Change::Nothing,
        explain: None,
        pending: Some(Route::Response),
        next: None,
    };
    assert(r@.messages =~= question_reply(question@).messages);
    r
}

/// Why no question can be asked.
#[derive(Clone, Copy, Debug, PartialEq, Eq, Structural)]
pub enum AskError {
    /// The question bank could not be loaded.
    LoadFailed,
    /// The user has no record.
    NoRecord,
    /// The user has not chosen a category.
    NoCategory,
    /// The category on the user's record is not one of the quiz.
    InvalidCategory,
    /// The category has no questions.
    EmptyCategory,
}

/// What the user is told when no question can be asked.
pub open spec fn ask_error_text(error: AskError) -> Seq<char> {
    match error {
        AskError::LoadFailed => "⚠️ Failed to load categories"@,
        AskError::NoRecord => failure_text(),
        AskError::NoCategory => failure_text(),
        AskError::InvalidCategory => "🚫 Invalid category"@,
        AskError::EmptyCategory => "📭 No questions available"@,
    }
}

impl AskError {
    /// What the user is told of this error.
    pub fn text(&self) -> (r: &'static str)
        ensures
            r@ == ask_error_text(*self),
    {
        match self {
            AskError::LoadFailed => "⚠️ Failed to load categories",
            AskError::NoRecord => "⚠️ Something went wrong, please try again later.",
            AskError::NoCategory => "⚠️ Something went wrong, please try again later.",
            AskError::InvalidCategory => "🚫 Invalid category",
            AskError::EmptyCategory => "📭 No questions available",
        }
    }
}

/// The questions among which one is drawn for the user, or the reason why
/// none can be asked.
///
/// No question can be asked without the question bank, without a record of
/// the user, before a category is chosen, for a category that the quiz does
/// not have, or from a category without questions.
pub open spec fn pool_for(user: Option<UserView>, bank: Result<&Data, LoadError>) -> Result<
    Seq<Question>,
    AskError,
> {
    match bank {
        Err(_) => Err(AskError::LoadFailed),
        Ok(data) => match user {
            None => Err(AskError::NoRecord),
            Some(u) => match u.category {
                None => Err(AskError::NoCategory),
                Some(name) => match category_named(name) {
                    None => Err(AskError::InvalidCategory),
                    Some(category) => if data.pool(category).len() == 0 {
                        Err(AskError::EmptyCategory)
                    } else {
                        Ok(data.pool(category))
                    },
                },
            },
        },
    }
}

/// Finds the questions among which one is drawn for the user.
pub fn select_pool<'a>(user: Option<&User>, bank: Result<&'a Data, LoadError>) -> (r: Result<
    &'a Vec<Question>,
    AskError,
>)
    ensures
        match pool_for(seen(user), bank) {
            Ok(pool) => r matches Ok(p) && p@ == pool,
            Err(error) => r == Err::<&Vec<Question>, AskError>(error),
        },
{
    let data = match bank {
        Ok(data) => data,
        Err(_) => {
            return Err(AskError::LoadFailed);
        },
    };
    let user = match user {
        Some(u) => u,
        None => {
            return Err(AskError::NoRecord);
        },
    };
    let name = match &user.category {
        Some(name) => name,
        None => {
            return Err(AskError::NoCategory);
        },
    };
    match Category::named(name.as_str()) {
        None => Err(AskError::InvalidCategory),
        Some(category) => {
            let pool = data.questions(category);
            if pool.len() == 0 {
                Err(AskError::EmptyCategory)
            } else {
                Ok(pool)
            }
        },
    }
}

/// Whether `reply` is an outcome of the step that asks a question: one
/// question of the pool presented, or the user told why none can be asked.
pub open spec fn asks(
    reply: ReplyView,
    user: Option<UserView>,
    bank: Result<&Data, LoadError>,
) -> bool {
    match pool_for(user, bank) {
        Ok(pool) => exists|i: int|
            0 <= i < pool.len() && reply == question_reply(#[trigger] pool[i]@),
        Err(error) => reply == ReplyView::say(seq![MessageView::Text(ask_error_text(error))]),
    }
}

/// Draws an index below `len` from the random number generator of the
/// current thread, by `Rng::gen_range` on `rand::thread_rng()`. The range
/// must not be empty. Nothing is claimed of the index but that it lies in
/// the range.
#[verifier::external_body]
fn random_index(len: usize) -> (r: usize)
    requires
        len > 0,
    ensures
        r < len,
{
    rand::thread_rng().gen_range(0..len)
}

/// The step that asks a question.
///
/// Where a question can be asked, exactly one is drawn at random from the
/// questions of the user's category and presented as [`send_question`] does.
/// Otherwise the user is told why, nothing is changed and the turn ends.
pub fn ask_question(user: Option<&User>, bank: Result<&Data, LoadError>) -> (r: Reply)
    ensures
        asks(r@, seen(user), bank),
        r@.wf(),
{
    match select_pool(user, bank) {
        Ok(pool) => {
            let index = random_index(pool.len());
            send_question(&pool[index])
        },
        Err(error) => Reply::say(error.text()),
    }
}

// ---------------------------------------------------------------------------
// Welcome
// ---------------------------------------------------------------------------
/// The text that welcomes a user.
pub open spec fn welcome_text() -> Seq<char> {
    "\n    👋 Welcome to Boto Chat, your interactive quiz companion!\n    🎮 Get ready to test your knowledge across various categories and have fun learning! 🌟\n    "@
}

/// The option that starts the quiz.
pub open spec fn start_choice() -> ChoiceView {
    ChoiceView { title: "Start"@, payload: PayloadView::to(Route::Home) }
}

/// The entries of the persistent menu.
pub open spec fn menu_entries() -> Seq<ChoiceView> {
    seq![
        ChoiceView {
            title: "🔄 Reset Score"@,
            payload: PayloadView::setting(Settings::ResetScoreAccount),
        },
        ChoiceView {
            title: "🗑️ Delete Account"@,
            payload: PayloadView::setting(Settings::DeleteAccount),
        },
        ChoiceView {
            title: "🔧 Change Category"@,
            payload: PayloadView::setting(Settings::ChooseCategory),
        },
    ]
}

/// What the welcome step decides.
pub open spec fn index_reply() -> ReplyView {
    ReplyView::say(
        seq![
            MessageView::Text(welcome_text()),
            MessageView::QuickReplies { text: "GetStarted"@, replies: seq![start_choice()] },
            MessageView::GetStarted(PayloadView::to(Route::Index)),
            MessageView::PersistentMenu(menu_entries()),
        ],
    )
}

fn menu_button(title: &str, entry: Settings) -> (r: Button)
    ensures
        r@ == (ChoiceView { title: title@, payload: PayloadView::setting(entry) }),
{
    Button::new(title, Payload::new(Route::Setting, PayloadData::Setting(entry)))
}

/// The welcome step: greets the user, offers to start the quiz and installs
/// the start button and the persistent menu.
pub fn index() -> (r: Reply)
    ensures
        r@ == index_reply(),
        r@.wf(),
{
    let mut start: Vec<QuickReply> = Vec::new();
    start.push(QuickReply::new("Start", Payload::to(Route::Home)));
    let offer = Message::QuickReplies { text: String::from_str("GetStarted"), replies: start };
    assert(offer@ == index_reply().messages[1]) by {
        assert(offer@->QuickReplies_replies =~= seq![start_choice()]);
    }
    let mut buttons: Vec<Button> = Vec::new();
    buttons.push(menu_button("🔄 Reset Score", Settings::ResetScoreAccount));
    buttons.push(menu_button("🗑️ Delete Account", Settings::DeleteAccount));
    buttons.push(menu_button("🔧 Change Category", Settings::ChooseCategory));
    let menu = Message::PersistentMenu(buttons);
    assert(menu@ == index_reply().messages[3]) by {
        assert(menu@->PersistentMenu_0 =~= menu_entries());
    }
    let mut messages: Vec<Message> = Vec::new();
    messages.push(
        Message::text(
            "\n    👋 Welcome to Boto Chat, your interactive quiz companion!\n    🎮 Get ready to test your knowledge across various categories and have fun learning! 🌟\n    ",
        ),
    );
    messages.push(offer);
    messages.push(Message::GetStarted(Payload::to(Route::Index)));
    messages.push(menu);
    let r = Reply { messages, change: Change::Nothing, explain: None, pending: None, next: None };
    assert(r@.messages =~= index_reply().messages);
    r
}

// ---------------------------------------------------------------------------
// Grading
// ---------------------------------------------------------------------------
/// The lower-case form of a text, as `str::to_lowercase` of the standard
/// library gives it.
pub uninterp spec fn lowercase_of(text: Seq<char>) -> Seq<char>;

/// Puts a text into lower case with `str::to_lowercase`, whose result
/// depends on the characters of the text alone.
#[verifier::external_body]
fn lowercase(text: &str) -> (r: String)
    ensures
        r@ == lowercase_of(text@),
{
    text.to_lowercase()
}

/// An answer is right when it equals the right answer once both are put
/// into lower case; nothing is trimmed.
pub open spec fn is_correct(answer: QuestionAndAnswerView) -> bool {
    lowercase_of(answer.user_answer) == lowercase_of(answer.true_answer)
}

/// Whether the submitted answer is right.
pub fn grade(answer: &QuestionAndAnswer) -> (r: bool)
    ensures
        r == is_correct(answer@),
{
    lowercase(answer.user_answer.as_str()) == lowercase(answer.true_answer.as_str())
}

/// What the grading step decides once the answer is known to be right or
/// wrong.
///
/// A right answer adds exactly one point to the record, if the user has one.
/// A wrong answer changes nothing: the user is told the right answer, and an
/// explanation of it is requested. Either way the entry step follows.
pub open spec fn graded_reply(
    answer: QuestionAndAnswerView,
    correct: bool,
    user: Option<UserView>,
) -> ReplyView {
    if correct {
        ReplyView {
            messages: seq![MessageView::Text("🎉 Correct!"@)],
            change: match user {
                Some(u) => ChangeView::Update(u.scored()),
                None => ChangeView::Nothing,
            },
            explain: None,
            pending: None,
            next: Some(PayloadView::to(Route::Home)),
        }
    } else {
        ReplyView {
            messages: seq![
                MessageView::Text("❌ Incorrect!"@),
                MessageView::Text("🔍 The correct answer is: "@ + answer.true_answer),
            ],
            change: ChangeView::Nothing,
            explain: Some(prompt_text(answer.question, answer.true_answer)),
            pending: None,
            next: Some(PayloadView::to(Route::Home)),
        }
    }
}

/// Decides what follows an answer that was found right or wrong.
pub fn graded(answer: &QuestionAndAnswer, correct: bool, user: Option<&User>) -> (r: Reply)
    requires
        correct ==> (user matches Some(u) ==> u.score < i32::MAX),
    ensures
        r@ == graded_reply(answer@, correct, seen(user)),
        r@.wf(),
{
    let mut messages: Vec<Message> = Vec::new();
    if correct {
        let change = match user {
            Some(u) => {
                let mut updated = u.clone();
                updated.add_point();
                Change::Update(updated)
            },
            None => Change::Nothing,
        };
        messages.push(Message::text("🎉 Correct!"));
        let r = Reply {
            messages,
            change,
            explain: None,
            pending: None,
            next: Some(Payload::to(Route::Home)),
        };
        assert(r@.messages =~= graded_reply(answer@, correct, seen(user)).messages);
        r
    } else {
        let mut line = String::from_str("🔍 The correct answer is: ");
        line.append(answer.true_answer.as_str());
        messages.push(Message::text("❌ Incorrect!"));
        messages.push(Message::Text(line));
        let request = prompt(answer.question.as_str(), answer.true_answer.as_str());
        let r = Reply {
            messages,
            change: Change::Nothing,
            explain: Some(request),
            pending: None,
            next: Some(Payload::to(Route::Home)),
        };
        assert(r@.messages =~= graded_reply(answer@, correct, seen(user)).messages);
        r
    }
}

/// What the grading step returns.
pub open spec fn response_result(data: PayloadDataView, user: Option<UserView>) -> Result<
    ReplyView,
    HandlerError,
> {
    match data {
        PayloadDataView::Answer(answer) => Ok(graded_reply(answer, is_correct(answer), user)),
        _ => Err(HandlerError::InvalidPayload),
    }
}

/// The grading step: compares the submitted answer with the right one
/// without regard to case and decides as [`graded`] does.
pub fn response(data: &PayloadData, user: Option<&User>) -> (r: Result<Reply, HandlerError>)
    requires
        user matches Some(u) ==> u.score < i32::MAX,
    ensures
        result_view(r) == response_result(data@, seen(user)),
        r matches Ok(reply) ==> reply@.wf(),
{
    match data {
        PayloadData::Answer(answer) => {
            let correct = grade(answer);
            Ok(graded(answer, correct, user))
        },
        _ => Err(HandlerError::InvalidPayload),
    }
}

/// The text that stands in for an explanation that could not be had.
pub open spec fn unavailable_text() -> Seq<char> {
    "🤷 Explanation unavailable"@
}

/// The text that is relayed to the user for what the service returned.
pub open spec fn explanation_text(outcome: Result<Response, ServiceError>) -> Seq<char> {
    match outcome {
        Ok(response) => match first_text_of(response) {
            Some(text) => text,
            None => unavailable_text(),
        },
        Err(_) => unavailable_text(),
    }
}

/// The message that follows a wrong answer once the service has answered:
/// the first text of its response, or, where the call failed or the response
/// holds no text, a line that says that no explanation is available.
pub fn explanation(outcome: &Result<Response, ServiceError>) -> (r: Message)
    ensures
        r@ == MessageView::Text(explanation_text(*outcome)),
{
    match outcome {
        Ok(response) => match first_text(response) {
            Ok(text) => Message::Text(text),
            Err(_) => Message::text("🤷 Explanation unavailable"),
        },
        Err(_) => Message::text("🤷 Explanation unavailable"),
    }
}

// ---------------------------------------------------------------------------
// Entry and registration
// ---------------------------------------------------------------------------
/// The text that asks for a display name.
pub open spec fn register_prompt_text() -> Seq<char> {
    "📝 Please provide your pseudonym in this field."@
}

/// What the entry step decides.
///
/// A user without a record is asked for a display name, and the
/// registration step is left pending; nothing else is sent. A user with a
/// record is shown name and score; then a question follows if a category is
/// chosen, and the offer of categories if none is.
pub open spec fn home_reply(user: Option<UserView>) -> ReplyView {
    match user {
        None => ReplyView {
            pending: Some(Route::Register),
            ..ReplyView::say(seq![MessageView::Text(register_prompt_text())])
        },
        Some(u) => ReplyView {
            next: Some(
                if u.category is Some {
                    PayloadView::to(Route::AskQuestion)
                } else {
                    PayloadView::setting(Settings::ChooseCategory)
                },
            ),
            ..ReplyView::say(
                seq![
                    MessageView::Text("👤 Username: "@ + u.name),
                    MessageView::Text("🏆 Score: "@ + decimal_of(u.score)),
                ],
            )
        },
    }
}

/// The entry step.
pub fn home(user: Option<&User>) -> (r: Reply)
    ensures
        r@ == home_reply(seen(user)),
        r@.wf(),
{
    match user {
        None => {
            let mut r = Reply::say("📝 Please provide your pseudonym in this field.");
            r.pending = Some(Route::Register);
            r
        },
        Some(u) => {
            let mut name = String::from_str("👤 Username: ");
            name.append(u.name.as_str());
            let mut score = String::from_str("🏆 Score: ");
            score.append(decimal(u.score).as_str());
            let mut messages: Vec<Message> = Vec::new();
            messages.push(Message::Text(name));
            messages.push(Message::Text(score));
            let next = if u.category.is_some() {
                Payload::to(Route::AskQuestion)
            } else {
                Payload::new(Route::Setting, PayloadData::Setting(Settings::ChooseCategory))
            };
            let r = Reply {
                messages,
                change: Change::Nothing,
                explain: None,
                pending: None,
                next: Some(next),
            };
            assert(r@.messages =~= home_reply(seen(user)).messages);
            r
        },
    }
}

/// What the registration step returns.
///
/// A name of 1 to 20 characters is registered: the record is created, the
/// user is told so and the entry step follows. Any other name is refused and
/// the user is asked again.
pub open spec fn register_result(data: PayloadDataView) -> Result<ReplyView, HandlerError> {
    match data {
        PayloadDataView::Text(name) => Ok(
            if name_fits(name) {
                ReplyView {
                    messages: seq![MessageView::Text("🎉 User registered successfully!"@)],
                    change: ChangeView::Create { name },
                    explain: None,
                    pending: None,
                    next: Some(PayloadView::to(Route::Home)),
                }
            } else {
                ReplyView {
                    pending: Some(Route::Register),
                    ..ReplyView::say(seq![MessageView::Text(register_failed_text())])
                }
            },
        ),
        _ => Err(HandlerError::InvalidPayload),
    }
}

/// The registration step: takes the text that the user typed as the display
/// name.
pub fn register(data: &PayloadData) -> (r: Result<Reply, HandlerError>)
    ensures
        result_view(r) == register_result(data@),
        r matches Ok(reply) ==> reply@.wf(),
{
    let name = match data {
        PayloadData::Text(name) => name,
        _ => {
            return Err(HandlerError::InvalidPayload);
        },
    };
    if valid_name(name.as_str()) {
        let mut messages: Vec<Message> = Vec::new();
        messages.push(Message::text("🎉 User registered successfully!"));
        let reply = Reply {
            messages,
            change: Change::Create { name: name.clone() },
            explain: None,
            pending: None,
            next: Some(Payload::to(Route::Home)),
        };
        assert(reply@.messages =~= seq![MessageView::Text("🎉 User registered successfully!"@)]);
        Ok(reply)
    } else {
        let mut reply = Reply::say("❌ Failed to register user");
        reply.pending = Some(Route::Register);
        Ok(reply)
    }
}

// ---------------------------------------------------------------------------
// Choosing a category
// ---------------------------------------------------------------------------
/// What the step that takes the selected category returns.
///
/// The category is stored on the record, if the user has one, and the user
/// is told so. Asking a question follows either way.
pub open spec fn choose_category_result(data: PayloadDataView, user: Option<UserView>) -> Result<
    ReplyView,
    HandlerError,
> {
    match data {
        PayloadDataView::Text(category) => Ok(
            match user {
                Some(u) => ReplyView {
                    messages: seq![MessageView::Text("🔧 Category is set!"@)],
                    change: ChangeView::Update(u.in_category(category)),
                    explain: None,
                    pending: None,
                    next: Some(PayloadView::to(Route::AskQuestion)),
                },
                None => ReplyView {
                    next: Some(PayloadView::to(Route::AskQuestion)),
                    ..ReplyView::say(seq![])
                },
            },
        ),
        _ => Err(HandlerError::InvalidPayload),
    }
}

/// The step that takes the selected category.
pub fn choose_category(data: &PayloadData, user: Option<&User>) -> (r: Result<Reply, HandlerError>)
    ensures
        result_view(r) == choose_category_result(data@, seen(user)),
        r matches Ok(reply) ==> reply@.wf(),
{
    let category = match data {
        PayloadData::Text(category) => category,
        _ => {
            return Err(HandlerError::InvalidPayload);
        },
    };
    let mut messages: Vec<Message> = Vec::new();
    let change = match user {
        Some(u) => {
            let mut updated = u.clone();
            updated.set_category(category.as_str());
            messages.push(Message::text("🔧 Category is set!"));
            Change::Update(updated)
        },
        None => Change::Nothing,
    };
    let reply = Reply {
        messages,
        change,
        explain: None,
        pending: None,
        next: Some(Payload::to(Route::AskQuestion)),
    };
    assert(reply@.messages =~= choose_category_result(data@, seen(user))->Ok_0.messages);
    Ok(reply)
}

} // verus!
