use ankamantatra_bot::gemini::{Candidate, Content, Part, Response, ServiceError};
use ankamantatra_bot::handlers::explanation;
use ankamantatra_bot::message::{Message, Payload, PayloadData, QuickReply};
use ankamantatra_bot::reply::settle;
use ankamantatra_bot::route::Route;
use ankamantatra_bot::router::{Event, Router, RouterError};
use ankamantatra_bot::serializers::{Data, LoadError, Question};
use ankamantatra_bot::store::UserStore;

struct World {
    router: Router,
    users: UserStore,
    bank: Result<Data, LoadError>,
    service: Result<Response, ServiceError>,
    sent: Vec<Message>,
    steps: Vec<Route>,
}

fn math_bank() -> Data {
    let question = |text: &str, options: &[&str], answer: &str| Question {
        question: String::from(text),
        options: options.iter().map(|o| o.to_string()).collect(),
        answer: String::from(answer),
    };
    Data {
        math: vec![
            question("2 + 2 = ?", &["3", "4", "5"], "4"),
            question("3 x 3 = ?", &["6", "9"], "9"),
        ],
        science: vec![],
        history: vec![],
        sports: vec![],
        programming: vec![],
    }
}

fn world() -> World {
    World {
        router: Router::new(),
        users: UserStore::new(),
        bank: Ok(math_bank()),
        service: Ok(Response {
            candidates: vec![Candidate {
                content: Content {
                    role: String::from("model"),
                    parts: vec![Part { text: String::from("Because arithmetic.") }],
                },
            }],
        }),
        sent: Vec::new(),
        steps: Vec::new(),
    }
}

fn text(s: &str) -> Message {
    Message::Text(String::from(s))
}

fn typed(user: &str, words: &str) -> Event {
    Event { user: String::from(user), route: None, data: PayloadData::Text(String::from(words)) }
}

fn selected(user: &str, payload: &Payload) -> Event {
    Event::select(user, payload)
}

/// Runs one turn as a transport would: every step of the chain is routed and
/// run, its change applied and settled, its messages sent, its explanation
/// fetched and its pending action recorded.
fn turn(world: &mut World, first: Event) -> Result<(), RouterError> {
    world.sent.clear();
    world.steps.clear();
    let mut event = first;
    loop {
        let user = world.users.get(&event.user);
        let pending = world.router.pending.get(&event.user);
        let route = ankamantatra_bot::router::resolve(event.route.as_deref(), pending)?;
        let bank = match &world.bank {
            Ok(data) => Ok(data),
            Err(e) => Err(*e),
        };
        let reply = world.router.handle(&event, user.as_ref(), bank)?;
        world.steps.push(route);
        let outcome = world.users.apply(&event.user, &reply.change);
        let reply = settle(reply, outcome);
        world.router.finish(&event.user, &reply);
        world.sent.extend(reply.messages);
        if reply.explain.is_some() {
            world.sent.push(explanation(&world.service));
        }
        match reply.next {
            Some(payload) => event = selected(&event.user, &payload),
            None => return Ok(()),
        }
    }
}

fn offered(world: &World) -> Vec<QuickReply> {
    match world.sent.last() {
        Some(Message::QuickReplies { replies, .. }) => replies
            .iter()
            .map(|r| QuickReply { title: r.title.clone(), payload: r.payload.clone() })
            .collect(),
        _ => Vec::new(),
    }
}

fn register_and_choose_math(world: &mut World, score: i32) {
    turn(world, Event {
        user: String::from("u1"),
        route: Some(String::from("/home")),
        data: PayloadData::Empty,
    })
    .unwrap();
    turn(world, typed("u1", "alice")).unwrap();
    let categories = offered(world);
    assert_eq!(categories.len(), 5);
    let mut alice = world.users.get("u1").unwrap();
    alice.score = score;
    world.users.update(alice).unwrap();
    turn(world, selected("u1", &categories[0].payload)).unwrap();
}

#[test]
fn scenario_new_user_registers() {
    let mut w = world();
    let start = Event {
        user: String::from("u1"),
        route: Some(String::from("/home")),
        data: PayloadData::Empty,
    };
    turn(&mut w, start).unwrap();
    assert_eq!(w.sent, vec![text("📝 Please provide your pseudonym in this field.")]);
    assert_eq!(w.router.pending.get("u1"), Some(Route::Register));
    assert_eq!(w.users.get("u1"), None);

    turn(&mut w, typed("u1", "alice")).unwrap();
    assert_eq!(w.steps, vec![Route::Register, Route::Home, Route::Setting]);
    assert_eq!(w.sent[0], text("🎉 User registered successfully!"));
    assert_eq!(w.sent[1], text("👤 Username: alice"));
    assert_eq!(w.sent[2], text("🏆 Score: 0"));
    assert_eq!(offered(&w).len(), 5);
    let alice = w.users.get("u1").unwrap();
    assert_eq!(alice.name, "alice");
    assert_eq!(alice.score, 0);
    assert_eq!(alice.category, None);
    assert_eq!(w.router.pending.get("u1"), None);
}

#[test]
fn scenario_first_event_is_welcomed() {
    let mut w = world();
    turn(&mut w, Event { user: String::from("u1"), route: None, data: PayloadData::Empty })
        .unwrap();
    assert_eq!(w.steps, vec![Route::Index]);
    assert_eq!(w.sent.len(), 4);
    let start = match &w.sent[1] {
        Message::QuickReplies { replies, .. } => replies[0].payload.clone(),
        _ => unreachable!(),
    };
    turn(&mut w, selected("u1", &start)).unwrap();
    assert_eq!(w.steps, vec![Route::Home]);
    assert_eq!(w.router.pending.get("u1"), Some(Route::Register));
}

#[test]
fn scenario_right_answer_scores() {
    let mut w = world();
    register_and_choose_math(&mut w, 3);
    assert_eq!(w.steps, vec![Route::ChooseCategory, Route::AskQuestion]);
    assert_eq!(w.sent[0], text("🔧 Category is set!"));
    assert!(w.sent[1] == text("2 + 2 = ?") || w.sent[1] == text("3 x 3 = ?"));
    assert_eq!(w.router.pending.get("u1"), Some(Route::Response));
    let options = offered(&w);
    assert!(options.len() >= 2);
    let right = options
        .iter()
        .find(|o| match &o.payload.data {
            PayloadData::Answer(a) => a.user_answer == a.true_answer,
            _ => false,
        })
        .unwrap();
    turn(&mut w, selected("u1", &right.payload)).unwrap();
    assert_eq!(w.steps, vec![Route::Response, Route::Home, Route::AskQuestion]);
    assert_eq!(w.sent[0], text("🎉 Correct!"));
    assert_eq!(w.sent[1], text("👤 Username: alice"));
    assert_eq!(w.sent[2], text("🏆 Score: 4"));
    assert_eq!(w.users.get("u1").unwrap().score, 4);
}

#[test]
fn scenario_wrong_answer_is_explained() {
    let mut w = world();
    register_and_choose_math(&mut w, 4);
    let options = offered(&w);
    let wrong = options
        .iter()
        .find(|o| match &o.payload.data {
            PayloadData::Answer(a) => a.user_answer != a.true_answer,
            _ => false,
        })
        .unwrap();
    let answer = match &wrong.payload.data {
        PayloadData::Answer(a) => a.true_answer.clone(),
        _ => unreachable!(),
    };
    turn(&mut w, selected("u1", &wrong.payload)).unwrap();
    assert_eq!(w.sent[0], text("❌ Incorrect!"));
    assert_eq!(w.sent[1], text(&format!("🔍 The correct answer is: {}", answer)));
    assert_eq!(w.sent[2], text("Because arithmetic."));
    assert_eq!(w.sent[3], text("👤 Username: alice"));
    assert_eq!(w.sent[4], text("🏆 Score: 4"));
    assert_eq!(w.users.get("u1").unwrap().score, 4);
    assert_eq!(w.steps, vec![Route::Response, Route::Home, Route::AskQuestion]);
}

#[test]
fn scenario_wrong_answer_with_failing_service() {
    let mut w = world();
    w.service = Err(ServiceError::Failed);
    register_and_choose_math(&mut w, 4);
    let options = offered(&w);
    let wrong = options
        .iter()
        .find(|o| match &o.payload.data {
            PayloadData::Answer(a) => a.user_answer != a.true_answer,
            _ => false,
        })
        .unwrap();
    turn(&mut w, selected("u1", &wrong.payload)).unwrap();
    assert_eq!(w.sent[0], text("❌ Incorrect!"));
    assert_eq!(w.sent[2], text("🤷 Explanation unavailable"));
    assert_eq!(w.sent[4], text("🏆 Score: 4"));
    assert_eq!(w.users.get("u1").unwrap().score, 4);
    assert_eq!(w.steps, vec![Route::Response, Route::Home, Route::AskQuestion]);
}

#[test]
fn scenario_second_user_cannot_take_the_name() {
    let mut w = world();
    turn(&mut w, Event {
        user: String::from("u1"),
        route: Some(String::from("/register")),
        data: PayloadData::Text(String::from("alice")),
    })
    .unwrap();
    let alice = w.users.get("u1").unwrap();
    turn(&mut w, Event {
        user: String::from("u2"),
        route: Some(String::from("/register")),
        data: PayloadData::Text(String::from("alice")),
    })
    .unwrap();
    assert_eq!(w.sent, vec![text("❌ Failed to register user")]);
    assert_eq!(w.steps, vec![Route::Register]);
    assert_eq!(w.router.pending.get("u2"), Some(Route::Register));
    assert_eq!(w.users.get("u2"), None);
    assert_eq!(w.users.get("u1"), Some(alice));
    turn(&mut w, typed("u2", "bob")).unwrap();
    assert_eq!(w.users.get("u2").unwrap().name, "bob");
}

#[test]
fn scenario_delete_then_register_again() {
    let mut w = world();
    register_and_choose_math(&mut w, 7);
    let menu = ankamantatra_bot::handlers::index();
    let buttons = match &menu.messages[3] {
        Message::PersistentMenu(buttons) => buttons,
        _ => unreachable!(),
    };
    turn(&mut w, selected("u1", &buttons[0].payload)).unwrap();
    assert_eq!(w.sent[0], text("🔄 Score reset successfully!"));
    assert_eq!(w.sent[2], text("🏆 Score: 0"));
    assert_eq!(w.users.get("u1").unwrap().score, 0);
    turn(&mut w, selected("u1", &buttons[1].payload)).unwrap();
    assert_eq!(w.sent, vec![
        text("🗑️ Account deleted successfully!"),
        text("📝 Please provide your pseudonym in this field."),
    ]);
    assert_eq!(w.users.get("u1"), None);
    assert_eq!(w.router.pending.get("u1"), Some(Route::Register));
    turn(&mut w, typed("u1", "alice")).unwrap();
    let alice = w.users.get("u1").unwrap();
    assert_eq!(alice.score, 0);
    assert_eq!(alice.category, None);
}

#[test]
fn scenario_failed_load_stops_the_turn() {
    let mut w = world();
    register_and_choose_math(&mut w, 2);
    w.bank = Err(LoadError::MissingCategory);
    let before = w.users.get("u1");
    turn(&mut w, Event {
        user: String::from("u1"),
        route: Some(String::from("/ask_question")),
        data: PayloadData::Empty,
    })
    .unwrap();
    assert_eq!(w.sent, vec![text("⚠️ Failed to load categories")]);
    assert_eq!(w.steps, vec![Route::AskQuestion]);
    assert_eq!(w.users.get("u1"), before);
    assert_eq!(w.router.pending.get("u1"), None);
}
