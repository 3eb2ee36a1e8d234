use ankamantatra_bot::message::{Message, Payload, PayloadData, Settings};
use ankamantatra_bot::reply::{Change, Reply};
use ankamantatra_bot::route::{same_text, Route};
use ankamantatra_bot::router::{report, resolve, Event, Router, RouterError};
use ankamantatra_bot::store::PendingActions;

#[test]
fn every_path_names_its_route() {
    let all = [
        (Route::Index, "/"),
        (Route::Home, "/home"),
        (Route::Register, "/register"),
        (Route::Setting, "/setting"),
        (Route::ChooseCategory, "/choose_category"),
        (Route::AskQuestion, "/ask_question"),
        (Route::Response, "/response"),
    ];
    for (route, path) in all {
        assert_eq!(route.path(), path);
        assert_eq!(Route::parse(path), Some(route));
    }
}

#[test]
fn unknown_paths_name_no_route() {
    assert_eq!(Route::parse("/nowhere"), None);
    assert_eq!(Route::parse(""), None);
    assert_eq!(Route::parse("/Home"), None);
    assert_eq!(Route::parse("/home "), None);
    assert_eq!(Route::parse("home"), None);
}

#[test]
fn same_text_compares_characters() {
    assert!(same_text("", ""));
    assert!(same_text("math", "math"));
    assert!(!same_text("math", "Math"));
    assert!(!same_text("math", "maths"));
}

#[test]
fn explicit_route_wins_over_pending() {
    assert_eq!(resolve(Some("/home"), Some(Route::Register)), Ok(Route::Home));
    assert_eq!(resolve(Some("/home"), None), Ok(Route::Home));
}

#[test]
fn pending_action_takes_an_event_without_route() {
    assert_eq!(resolve(None, Some(Route::Register)), Ok(Route::Register));
    assert_eq!(resolve(None, Some(Route::Response)), Ok(Route::Response));
}

#[test]
fn default_route_is_the_welcome_step() {
    assert_eq!(resolve(None, None), Ok(Route::Index));
}

#[test]
fn unknown_explicit_route_is_not_found() {
    assert_eq!(resolve(Some("/nowhere"), None), Err(RouterError::RouteNotFound));
    assert_eq!(resolve(Some("/nowhere"), Some(Route::Home)), Err(RouterError::RouteNotFound));
}

#[test]
fn pending_actions_hold_one_step_per_user() {
    let mut pending = PendingActions::new();
    assert_eq!(pending.get("u1"), None);
    pending.set("u1", Route::Register);
    pending.set("u2", Route::Response);
    assert_eq!(pending.get("u1"), Some(Route::Register));
    assert_eq!(pending.get("u2"), Some(Route::Response));
    pending.set("u1", Route::Home);
    assert_eq!(pending.get("u1"), Some(Route::Home));
    assert_eq!(pending.get("u2"), Some(Route::Response));
    pending.clear("u1");
    assert_eq!(pending.get("u1"), None);
    assert_eq!(pending.get("u2"), Some(Route::Response));
    pending.clear("u1");
    assert_eq!(pending.get("u1"), None);
}

#[test]
fn router_consumes_the_pending_action() {
    let mut router = Router::new();
    router.pending.set("u1", Route::Register);
    assert_eq!(router.route("u1", None), Ok(Route::Register));
    assert_eq!(router.pending.get("u1"), None);
    assert_eq!(router.route("u1", None), Ok(Route::Index));
}

#[test]
fn router_clears_pending_on_explicit_route() {
    let mut router = Router::new();
    router.pending.set("u1", Route::Register);
    router.pending.set("u2", Route::Response);
    assert_eq!(router.route("u1", Some("/home")), Ok(Route::Home));
    assert_eq!(router.pending.get("u1"), None);
    assert_eq!(router.pending.get("u2"), Some(Route::Response));
}

#[test]
fn router_clears_pending_even_when_route_is_unknown() {
    let mut router = Router::new();
    router.pending.set("u1", Route::Register);
    assert_eq!(router.route("u1", Some("/nowhere")), Err(RouterError::RouteNotFound));
    assert_eq!(router.pending.get("u1"), None);
}

#[test]
fn handle_reports_unknown_route_and_serves_other_users() {
    let mut router = Router::new();
    let bad = Event {
        user: String::from("u1"),
        route: Some(String::from("/nowhere")),
        data: PayloadData::Empty,
    };
    assert_eq!(
        router.handle(&bad, None, Err(ankamantatra_bot::serializers::LoadError::Unreadable)),
        Err(RouterError::RouteNotFound)
    );
    let good = Event { user: String::from("u2"), route: None, data: PayloadData::Empty };
    let reply = router
        .handle(&good, None, Err(ankamantatra_bot::serializers::LoadError::Unreadable))
        .unwrap();
    assert_eq!(reply.messages.len(), 4);
}

#[test]
fn handle_reports_invalid_payload() {
    let mut router = Router::new();
    let event = Event {
        user: String::from("u1"),
        route: Some(String::from("/register")),
        data: PayloadData::Empty,
    };
    assert_eq!(
        router.handle(&event, None, Err(ankamantatra_bot::serializers::LoadError::Unreadable)),
        Err(RouterError::InvalidPayload)
    );
}

#[test]
fn report_tells_the_user_without_detail() {
    for error in [RouterError::RouteNotFound, RouterError::InvalidPayload] {
        assert_eq!(
            report(error),
            Reply {
                messages: vec![Message::Text(String::from(
                    "⚠️ Something went wrong, please try again later."
                ))],
                change: Change::Nothing,
                explain: None,
                pending: None,
                next: None,
            }
        );
    }
}

#[test]
fn selected_option_names_the_route_of_its_payload() {
    let payload = Payload::new(Route::Setting, PayloadData::Setting(Settings::DeleteAccount));
    let event = Event::select("u1", &payload);
    assert_eq!(
        event,
        Event {
            user: String::from("u1"),
            route: Some(String::from("/setting")),
            data: PayloadData::Setting(Settings::DeleteAccount),
        }
    );
    let mut router = Router::new();
    router.pending.set("u1", Route::Register);
    assert_eq!(router.route(&event.user, event.route.as_deref()), Ok(Route::Setting));
}

#[test]
fn finish_records_what_the_outcome_leaves_pending() {
    let mut router = Router::new();
    let mut reply = Reply::say("x");
    router.finish("u1", &reply);
    assert_eq!(router.pending.get("u1"), None);
    reply.pending = Some(Route::Response);
    router.finish("u1", &reply);
    assert_eq!(router.pending.get("u1"), Some(Route::Response));
    assert_eq!(router.pending.get("u2"), None);
}
