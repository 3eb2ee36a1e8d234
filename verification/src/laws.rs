//! What holds of the conversation whatever the user, the record and the
//! question.

use vstd::prelude::*;
use crate::gemini::prompt_text;
use crate::handlers::{
    answer_choice, ask_error_text, asks, graded_reply, home_reply, is_correct, pool_for,
    question_reply, register_prompt_text, response_result, setting_reply, AskError,
};
use crate::message::{
    MessageView, PayloadDataView, PayloadView, QuestionAndAnswerView, Settings,
};
use crate::models::{name_fits, UserView};
use crate::reply::{settled, ChangeView, HandlerError, ReplyView, StoreError};
use crate::route::{path_names_its_route, path_of, Route};
use crate::router::{dispatched, resolved, RouterError};
use crate::serializers::{Data, LoadError, QuestionView};
use crate::store::{
    applied, change_check, changed, create_check, lemma_insert_keeps_valid, lemma_remove_keeps_valid,
    name_used_elsewhere, valid,
};

verus! {

/// A user without a record who enters the conversation is asked to register
/// and nothing else: the one message is the request for a display name, the
/// registration step is left pending, nothing is stored and no step follows.
pub proof fn unknown_user_is_asked_to_register()
    ensures
        home_reply(None) == (ReplyView {
            messages: seq![MessageView::Text(register_prompt_text())],
            change: ChangeView::Nothing,
            explain: None,
            pending: Some(Route::Register),
            next: None,
        }),
{
}

/// Once a display name is registered, registering it again is refused as a
/// conflict, whoever asks, and the records stay as the first registration
/// left them.
pub proof fn registered_name_cannot_be_registered_again(
    records: Map<Seq<char>, UserView>,
    name: Seq<char>,
    first: Seq<char>,
    second: Seq<char>,
    id: int,
    next_id: int,
)
    requires
        create_check(records, name, first, id) is Ok,
    ensures
        create_check(
            changed(records, first, ChangeView::Create { name }, id),
            name,
            second,
            next_id,
        ) == Err::<(), StoreError>(StoreError::Conflict),
        applied(
            changed(records, first, ChangeView::Create { name }, id),
            second,
            ChangeView::Create { name },
            next_id,
        ) == changed(records, first, ChangeView::Create { name }, id),
{
    let after = changed(records, first, ChangeView::Create { name }, id);
    assert(after.contains_key(first));
}

/// Where a question can be asked, what is sent presents exactly one question
/// of the pool of the user's category: its text and its options. Nothing is
/// stored, and the grading step is left pending.
pub proof fn asked_question_comes_from_the_pool(
    reply: ReplyView,
    user: Option<UserView>,
    bank: Result<&Data, LoadError>,
)
    requires
        asks(reply, user, bank),
        pool_for(user, bank) is Ok,
    ensures
        exists|i: int|
            0 <= i < pool_for(user, bank)->Ok_0.len() && reply == question_reply(
                #[trigger] pool_for(user, bank)->Ok_0[i]@,
            ),
        reply.messages.len() == 2,
        reply.change == ChangeView::Nothing,
        reply.pending == Some(Route::Response),
        reply.next is None,
{
}

/// Where no question can be asked, the user is told why in one message and
/// the turn ends there: nothing is stored, nothing is left pending and no
/// step follows.
pub proof fn refusal_to_ask_ends_the_turn(
    reply: ReplyView,
    user: Option<UserView>,
    bank: Result<&Data, LoadError>,
)
    requires
        asks(reply, user, bank),
        pool_for(user, bank) is Err,
    ensures
        reply.stops(),
        reply.messages == seq![MessageView::Text(ask_error_text(pool_for(user, bank)->Err_0))],
{
}

/// Without the question bank no question is asked, whoever the user is: the
/// user is told that the categories could not be loaded, and the turn ends.
pub proof fn failed_load_stops_the_step(
    reply: ReplyView,
    user: Option<UserView>,
    error: LoadError,
)
    requires
        asks(reply, user, Err(error)),
    ensures
        reply == ReplyView::say(
            seq![MessageView::Text(ask_error_text(AskError::LoadFailed))],
        ),
        reply.stops(),
{
}

/// Every option offered with a question leads to the grading step and
/// carries the text of the question and its right answer, next to the
/// candidate that the option stands for.
pub proof fn options_carry_the_question(question: QuestionView, i: int)
    requires
        0 <= i < question.options.len(),
    ensures
        question_reply(question).messages.len() == 2,
        question_reply(question).messages[1] matches MessageView::QuickReplies { replies, .. }
            && replies.len() == question.options.len() && replies[i].title
            == question.options[i] && replies[i].payload == PayloadView::answer(
            question.question,
            question.options[i],
            question.answer,
        ),
{
    assert(answer_choice(question, i).payload == PayloadView::answer(
        question.question,
        question.options[i],
        question.answer,
    ));
}

/// A right answer moves the score up by exactly one and leaves the rest of
/// the record alone; a wrong answer changes nothing.
pub proof fn grading_adds_one_point_or_none(
    answer: QuestionAndAnswerView,
    correct: bool,
    user: UserView,
)
    ensures
        correct ==> graded_reply(answer, correct, Some(user)).change == ChangeView::Update(
            UserView { score: user.score + 1, ..user },
        ),
        !correct ==> graded_reply(answer, correct, Some(user)).change == ChangeView::Nothing,
        graded_reply(answer, correct, None).change == ChangeView::Nothing,
{
}

/// Once the change that grading asks for is applied, the stored score of the
/// user is one higher after a right answer and the same after a wrong one;
/// the records of all other users stay as they were.
pub proof fn grading_moves_only_the_score_of_the_user(
    records: Map<Seq<char>, UserView>,
    answer: QuestionAndAnswerView,
    correct: bool,
    user: UserView,
    next_id: int,
)
    requires
        valid(records),
        records.contains_key(user.user_id),
        records[user.user_id] == user,
        user.score < i32::MAX,
    ensures
        ({
            let change = graded_reply(answer, correct, Some(user)).change;
            let after = applied(records, user.user_id, change, next_id);
            &&& change_check(records, user.user_id, change, next_id) is Ok
            &&& after.dom() == records.dom()
            &&& after[user.user_id].score == if correct {
                user.score + 1
            } else {
                user.score
            }
            &&& forall|k: Seq<char>|
                k != user.user_id && #[trigger] records.contains_key(k) ==> after[k] == records[k]
        }),
{
}

/// A reset puts the score at zero whatever it was, and a second reset
/// changes nothing more.
pub proof fn reset_puts_score_at_zero(user: UserView)
    ensures
        setting_reply(Settings::ResetScoreAccount, user).change == ChangeView::Update(
            UserView { score: 0, ..user },
        ),
        user.reset().reset() == user.reset(),
{
}

/// After a deletion the identity is free again, and a registration that is
/// then accepted gives a new record: no score and no category, whatever the
/// deleted record held. A second deletion changes nothing more.
pub proof fn registration_after_deletion_is_fresh(
    records: Map<Seq<char>, UserView>,
    user_id: Seq<char>,
    name: Seq<char>,
    id: int,
)
    requires
        create_check(changed(records, user_id, ChangeView::Delete, id), name, user_id, id) is Ok,
    ensures
        !changed(records, user_id, ChangeView::Delete, id).contains_key(user_id),
        changed(
            changed(records, user_id, ChangeView::Delete, id),
            user_id,
            ChangeView::Create { name },
            id,
        )[user_id] == (UserView { id, name, user_id, score: 0, category: None }),
        changed(changed(records, user_id, ChangeView::Delete, id), user_id, ChangeView::Delete, id)
            == changed(records, user_id, ChangeView::Delete, id),
{
}

/// After a deletion, only a name that cannot be registered, a name that
/// another user goes by, or a store without keys left stands in the way of
/// registering the identity again.
pub proof fn deletion_frees_the_identity(
    records: Map<Seq<char>, UserView>,
    user_id: Seq<char>,
    name: Seq<char>,
    id: int,
)
    requires
        name_fits(name),
        !name_used_elsewhere(records, name, user_id),
        id < i32::MAX,
    ensures
        create_check(changed(records, user_id, ChangeView::Delete, id), name, user_id, id) is Ok,
{
}

/// What an option of a question carries comes back to the grading step
/// unchanged: the step grades the candidate of the option against the right
/// answer of the question, and a wrong answer is explained by a prompt made
/// of the question's own text and right answer.
pub proof fn answer_round_trip(question: QuestionView, i: int, user: Option<UserView>)
    requires
        0 <= i < question.options.len(),
    ensures
        ({
            let carried = QuestionAndAnswerView {
                question: question.question,
                user_answer: question.options[i],
                true_answer: question.answer,
            };
            let payload = question_reply(question).messages[1]->QuickReplies_replies[i].payload;
            &&& payload.route == Route::Response
            &&& payload.data == PayloadDataView::Answer(carried)
            &&& response_result(payload.data, user) == Ok::<ReplyView, HandlerError>(
                graded_reply(carried, is_correct(carried), user),
            )
            &&& !is_correct(carried) ==> graded_reply(carried, false, user).explain == Some(
                prompt_text(question.question, question.answer),
            )
        }),
{
    options_carry_the_question(question, i);
}

/// A route that an event names decides alone: what was pending for the user
/// has no part in it.
pub proof fn named_route_wins(path: Seq<char>, pending: Option<Route>, other: Option<Route>)
    ensures
        resolved(Some(path), pending) == resolved(Some(path), other),
        resolved(None, Some(Route::Register)) == Ok::<Route, RouterError>(Route::Register),
        resolved(None, None) == Ok::<Route, RouterError>(Route::Index),
{
}

/// An option that the user selects leads to the step that its payload names,
/// whatever was pending for the user.
pub proof fn selected_option_reaches_its_step(route: Route, pending: Option<Route>)
    ensures
        resolved(Some(path_of(route)), pending) == Ok::<Route, RouterError>(route),
{
    path_names_its_route(route);
}

/// How many steps can still follow a step within one turn, at most.
pub open spec fn steps_left(route: Route, data: PayloadDataView, registered: bool) -> nat {
    match route {
        Route::Index => 0,
        Route::AskQuestion => 0,
        Route::ChooseCategory => 1,
        Route::Home => if registered {
            1
        } else {
            0
        },
        Route::Setting => if !registered {
            1
        } else if data == PayloadDataView::Setting(Settings::ChooseCategory) {
            0
        } else {
            2
        },
        Route::Register => 2,
        Route::Response => 2,
    }
}

/// Whether the user has a record once a change is applied.
pub open spec fn registered_after(change: ChangeView, registered: bool) -> bool {
    match change {
        ChangeView::Nothing => registered,
        ChangeView::Create { .. } => true,
        ChangeView::Update(_) => registered,
        ChangeView::Delete => false,
    }
}

/// A turn is finite: the step that an outcome hands over to has fewer steps
/// left than the step that gave the outcome, so no turn runs more than three
/// steps. A step changes or deletes a record only of a user who has one.
pub proof fn turn_is_finite(
    result: Result<ReplyView, HandlerError>,
    route: Route,
    data: PayloadDataView,
    user: Option<UserView>,
    bank: Result<&Data, LoadError>,
)
    requires
        dispatched(result, route, data, user, bank),
    ensures
        steps_left(route, data, user is Some) <= 2,
        result matches Ok(reply) ==> (reply.next matches Some(next) ==> steps_left(
            next.route,
            next.data,
            registered_after(reply.change, user is Some),
        ) < steps_left(route, data, user is Some)),
        result matches Ok(reply) ==> (reply.change is Update || reply.change is Delete
            ==> user is Some),
{
}

/// A change that the storage refused ends the turn: what the step had
/// prepared is not sent, no explanation is requested, no step follows, and
/// only after a conflict is anything left pending, namely the registration.
pub proof fn refused_change_ends_the_turn(reply: ReplyView, error: StoreError)
    ensures
        settled(reply, Err(error)).messages.len() == 1,
        settled(reply, Err(error)).change == ChangeView::Nothing,
        settled(reply, Err(error)).explain is None,
        settled(reply, Err(error)).next is None,
        settled(reply, Err(error)).pending == if error == StoreError::Conflict {
            Some(Route::Register)
        } else {
            None
        },
        settled(reply, Err(error)).wf(),
{
}

/// Valid records stay valid under every change that is accepted.
pub proof fn accepted_change_keeps_records_valid(
    records: Map<Seq<char>, UserView>,
    user_id: Seq<char>,
    change: ChangeView,
    next_id: int,
)
    requires
        valid(records),
        i32::MIN <= next_id,
        change_check(records, user_id, change, next_id) is Ok,
    ensures
        valid(changed(records, user_id, change, next_id)),
{
    match change {
        ChangeView::Nothing => {},
        ChangeView::Create { name } => {
            lemma_insert_keeps_valid(records, UserView::fresh(next_id, name, user_id));
        },
        ChangeView::Update(user) => {
            lemma_insert_keeps_valid(records, user);
        },
        ChangeView::Delete => {
            lemma_remove_keeps_valid(records, user_id);
        },
    }
}

} // verus!
