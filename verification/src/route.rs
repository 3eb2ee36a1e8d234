//! The closed set of conversation steps and the paths that name them.

use vstd::prelude::*;

verus! {

/// One step of the conversation.
#[derive(Clone, Copy, Debug, PartialEq, Eq, Structural)]
pub enum Route {
    /// The welcome message and the persistent menu.
    Index,
    /// The entry step: greets a known user, asks an unknown one to register.
    Home,
    /// Takes the display name that the user typed.
    Register,
    /// Resets the score, deletes the account or offers the categories.
    Setting,
    /// Stores the category that the user selected.
    ChooseCategory,
    /// Draws a question from the user's category.
    AskQuestion,
    /// Grades the answer that the user selected.
    Response,
}

/// The path under which each step is known to the transport.
pub open spec fn path_of(route: Route) -> Seq<char> {
    match route {
        Route::Index => "/"@,
        Route::Home => "/home"@,
        Route::Register => "/register"@,
        Route::Setting => "/setting"@,
        Route::ChooseCategory => "/choose_category"@,
        Route::AskQuestion => "/ask_question"@,
        Route::Response => "/response"@,
    }
}

/// The step that a path names, if it names one.
pub open spec fn route_of(path: Seq<char>) -> Option<Route> {
    if path == path_of(Route::Index) {
        Some(Route::Index)
    } else if path == path_of(Route::Home) {
        Some(Route::Home)
    } else if path == path_of(Route::Register) {
        Some(Route::Register)
    } else if path == path_of(Route::Setting) {
        Some(Route::Setting)
    } else if path == path_of(Route::ChooseCategory) {
        Some(Route::ChooseCategory)
    } else if path == path_of(Route::AskQuestion) {
        Some(Route::AskQuestion)
    } else if path == path_of(Route::Response) {
        Some(Route::Response)
    } else {
        None
    }
}

/// No two steps share a path, so a step's path names that step.
pub proof fn path_names_its_route(route: Route)
    ensures
        route_of(path_of(route)) == Some(route),
{
    reveal_strlit("/");
    reveal_strlit("/home");
    reveal_strlit("/register");
    reveal_strlit("/setting");
    reveal_strlit("/choose_category");
    reveal_strlit("/ask_question");
    reveal_strlit("/response");
    assert(path_of(Route::Home).len() == 5);
    assert(path_of(Route::Setting).len() == 8);
    assert(path_of(Route::ChooseCategory).len() == 16);
    assert(path_of(Route::AskQuestion).len() == 13);
    assert(path_of(Route::Register).len() == 9 && path_of(Route::Register)[3] == 'g');
    assert(path_of(Route::Response).len() == 9 && path_of(Route::Response)[3] == 's');
}

/// Whether two strings hold the same characters.
pub fn same_text(a: &str, b: &str) -> (r: bool)
    ensures
        r == (a@ == b@),
{
    let x = String::from_str(a);
    let y = String::from_str(b);
    x == y
}

impl Route {
    /// The path of this step.
    pub fn path(&self) -> (r: &'static str)
        ensures
            r@ == path_of(*self),
    {
        match self {
            Route::Index => "/",
            Route::Home => "/home",
            Route::Register => "/register",
            Route::Setting => "/setting",
            Route::ChooseCategory => "/choose_category",
            Route::AskQuestion => "/ask_question",
            Route::Response => "/response",
        }
    }

    /// Looks a path up among the steps.
    pub fn parse(path: &str) -> (r: Option<Route>)
        ensures
            r == route_of(path@),
    {
        if same_text(path, "/") {
            Some(Route::Index)
        } else if same_text(path, "/home") {
            Some(Route::Home)
        } else if same_text(path, "/register") {
            Some(Route::Register)
        } else if same_text(path, "/setting") {
            Some(Route::Setting)
        } else if same_text(path, "/choose_category") {
            Some(Route::ChooseCategory)
        } else if same_text(path, "/ask_question") {
            Some(Route::AskQuestion)
        } else if same_text(path, "/response") {
            Some(Route::Response)
        } else {
            None
        }
    }
}

} // verus!
