//! The record that is kept of each user.

use vstd::prelude::*;

verus! {

/// The longest display name that can be registered, in characters.
pub const NAME_MAX: usize = 20;

/// What is known of one user between turns.
#[derive(Debug, PartialEq, Eq)]
pub struct User {
    /// The key under which the storage holds the record.
    pub id: i32,
    /// The display name chosen at registration.
    pub name: String,
    /// The identity under which the transport knows the user.
    pub user_id: String,
    /// The number of correct answers since registration or the last reset.
    pub score: i32,
    /// The category from which questions are drawn, once one is chosen.
    pub category: Option<String>,
}

/// A user record as a mathematical value.
pub struct UserView {
    pub id: int,
    pub name: Seq<char>,
    pub user_id: Seq<char>,
    pub score: int,
    pub category: Option<Seq<char>>,
}

/// The characters of an optional string.
pub open spec fn text_of(s: Option<String>) -> Option<Seq<char>> {
    match s {
        Some(t) => Some(t@),
        None => None,
    }
}

/// Whether a display name has a length that can be registered.
pub open spec fn name_fits(name: Seq<char>) -> bool {
    1 <= name.len() <= NAME_MAX
}

impl UserView {
    /// A record is valid when its name has between 1 and 20 characters and
    /// its score is not negative.
    pub open spec fn wf(self) -> bool {
        &&& name_fits(self.name)
        &&& 0 <= self.score <= i32::MAX
        &&& i32::MIN <= self.id <= i32::MAX
    }

    /// The record of a user who has just registered.
    pub open spec fn fresh(id: int, name: Seq<char>, user_id: Seq<char>) -> UserView {
        UserView { id, name, user_id, score: 0, category: None }
    }

    /// This record after one more correct answer.
    pub open spec fn scored(self) -> UserView {
        UserView { score: self.score + 1, ..self }
    }

    /// This record with the score back at zero.
    pub open spec fn reset(self) -> UserView {
        UserView { score: 0, ..self }
    }

    /// This record with a category selected.
    pub open spec fn in_category(self, category: Seq<char>) -> UserView {
        UserView { category: Some(category), ..self }
    }
}

impl View for User {
    type V = UserView;

    open spec fn view(&self) -> UserView {
        UserView {
            id: self.id as int,
            name: self.name@,
            user_id: self.user_id@,
            score: self.score as int,
            category: text_of(self.category),
        }
    }
}

impl Clone for User {
    fn clone(&self) -> (r: Self)
        ensures
            r@ == self@,
    {
        let category = match &self.category {
            Some(c) => Some(c.clone()),
            None => None,
        };
        User {
            id: self.id,
            name: self.name.clone(),
            user_id: self.user_id.clone(),
            score: self.score,
            category,
        }
    }
}

/// Whether `name` can be registered as a display name.
pub fn valid_name(name: &str) -> (r: bool)
    ensures
        r == name_fits(name@),
{
    let n: usize = name.unicode_len();
    1 <= n && n <= NAME_MAX
}

impl User {
    /// Whether the record is valid.
    pub open spec fn wf(&self) -> bool {
        self@.wf()
    }

    /// The record of a user who has just registered: no score yet and no
    /// category chosen.
    pub fn new(id: i32, name: &str, user_id: &str) -> (r: User)
        ensures
            r@ == UserView::fresh(id as int, name@, user_id@),
            r.wf() == name_fits(name@),
    {
        User {
            id,
            name: String::from_str(name),
            user_id: String::from_str(user_id),
            score: 0,
            category: None,
        }
    }

    /// Counts one more correct answer.
    pub fn add_point(&mut self)
        requires
            old(self).score < i32::MAX,
        ensures
            final(self)@ == old(self)@.scored(),
    {
        self.score = self.score + 1;
    }

    /// Puts the score back to zero, whatever it was.
    pub fn reset_score(&mut self)
        ensures
            final(self)@ == old(self)@.reset(),
    {
        self.score = 0;
    }

    /// Selects the category from which the next questions are drawn.
    pub fn set_category(&mut self, category: &str)
        ensures
            final(self)@ == old(self)@.in_category(category@),
    {
        self.category = Some(String::from_str(category));
    }
}

} // verus!
