//! The question bank: questions grouped by category, fixed once loaded.

use vstd::prelude::*;
use crate::route::same_text;

verus! {

/// One quiz item.
#[derive(Debug, PartialEq, Eq)]
pub struct Question {
    /// The text of the question.
    pub question: String,
    /// The candidate answers, in the order in which they are offered.
    pub options: Vec<String>,
    /// The right answer.
    pub answer: String,
}

/// A quiz item as a mathematical value.
pub struct QuestionView {
    pub question: Seq<char>,
    pub options: Seq<Seq<char>>,
    pub answer: Seq<char>,
}

/// The characters of each string of a list, in order.
pub open spec fn texts_view(texts: Seq<String>) -> Seq<Seq<char>> {
    Seq::new(texts.len(), |i: int| texts[i]@)
}

impl View for Question {
    type V = QuestionView;

    open spec fn view(&self) -> QuestionView {
        QuestionView {
            question: self.question@,
            options: texts_view(self.options@),
            answer: self.answer@,
        }
    }
}

/// The questions of a list as mathematical values, in order.
pub open spec fn questions_view(questions: Seq<Question>) -> Seq<QuestionView> {
    Seq::new(questions.len(), |i: int| questions[i]@)
}

/// A copy of a list of strings.
pub fn copy_texts(texts: &Vec<String>) -> (r: Vec<String>)
    ensures
        texts_view(r@) == texts_view(texts@),
{
    let mut out: Vec<String> = Vec::new();
    let mut i: usize = 0;
    while i < texts.len()
        invariant
            i <= texts.len(),
            out.len() == i,
            forall|j: int| 0 <= j < i ==> out[j]@ == texts[j]@,
        decreases texts.len() - i,
    {
        out.push(texts[i].clone());
        i = i + 1;
    }
    out
}

impl Clone for Question {
    fn clone(&self) -> (r: Self)
        ensures
            r@ == self@,
    {
        Question {
            question: self.question.clone(),
            options: copy_texts(&self.options),
            answer: self.answer.clone(),
        }
    }
}

/// A copy of a list of questions.
pub fn copy_questions(questions: &Vec<Question>) -> (r: Vec<Question>)
    ensures
        questions_view(r@) == questions_view(questions@),
{
    let mut out: Vec<Question> = Vec::new();
    let mut i: usize = 0;
    while i < questions.len()
        invariant
            i <= questions.len(),
            out.len() == i,
            forall|j: int| 0 <= j < i ==> out[j]@ == questions[j]@,
        decreases questions.len() - i,
    {
        out.push(questions[i].clone());
        i = i + 1;
    }
    out
}

/// The five categories of the quiz.
#[derive(Clone, Copy, Debug, PartialEq, Eq, Structural)]
pub enum Category {
    Math,
    Science,
    History,
    Sports,
    Programming,
}

/// The name under which a category is offered to the user and kept on the
/// user's record.
pub open spec fn category_name(category: Category) -> Seq<char> {
    match category {
        Category::Math => "math"@,
        Category::Science => "science"@,
        Category::History => "history"@,
        Category::Sports => "sport"@,
        Category::Programming => "programming"@,
    }
}

/// The key under which a content document holds the questions of a category.
pub open spec fn category_key(category: Category) -> Seq<char> {
    match category {
        Category::Math => "math"@,
        Category::Science => "science"@,
        Category::History => "history"@,
        Category::Sports => "sports"@,
        Category::Programming => "programming"@,
    }
}

/// The category that a name stands for, if it stands for one.
pub open spec fn category_named(name: Seq<char>) -> Option<Category> {
    if name == category_name(Category::Math) {
        Some(Category::Math)
    } else if name == category_name(Category::Science) {
        Some(Category::Science)
    } else if name == category_name(Category::History) {
        Some(Category::History)
    } else if name == category_name(Category::Sports) {
        Some(Category::Sports)
    } else if name == category_name(Category::Programming) {
        Some(Category::Programming)
    } else {
        None
    }
}

impl Category {
    /// The name of this category.
    pub fn name(&self) -> (r: &'static str)
        ensures
            r@ == category_name(*self),
    {
        match self {
            Category::Math => "math",
            Category::Science => "science",
            Category::History => "history",
            Category::Sports => "sport",
            Category::Programming => "programming",
        }
    }

    /// The key of this category in a content document.
    pub fn key(&self) -> (r: &'static str)
        ensures
            r@ == category_key(*self),
    {
        match self {
            Category::Math => "math",
            Category::Science => "science",
            Category::History => "history",
            Category::Sports => "sports",
            Category::Programming => "programming",
        }
    }

    /// Looks a name up among the categories.
    pub fn named(name: &str) -> (r: Option<Category>)
        ensures
            r == category_named(name@),
    {
        if same_text(name, "math") {
            Some(Category::Math)
        } else if same_text(name, "science") {
            Some(Category::Science)
        } else if same_text(name, "history") {
            Some(Category::History)
        } else if same_text(name, "sport") {
            Some(Category::Sports)
        } else if same_text(name, "programming") {
            Some(Category::Programming)
        } else {
            None
        }
    }
}

/// The question bank: the questions of each category.
#[derive(Debug, PartialEq, Eq)]
pub struct Data {
    pub math: Vec<Question>,
    pub science: Vec<Question>,
    pub history: Vec<Question>,
    pub sports: Vec<Question>,
    pub programming: Vec<Question>,
}

impl Data {
    /// The questions of a category, in the order of the content document.
    pub open spec fn pool(&self, category: Category) -> Seq<Question> {
        match category {
            Category::Math => self.math@,
            Category::Science => self.science@,
            Category::History => self.history@,
            Category::Sports => self.sports@,
            Category::Programming => self.programming@,
        }
    }

    /// The questions of a category.
    pub fn questions(&self, category: Category) -> (r: &Vec<Question>)
        ensures
            r@ == self.pool(category),
    {
        match category {
            Category::Math => &self.math,
            Category::Science => &self.science,
            Category::History => &self.history,
            Category::Sports => &self.sports,
            Category::Programming => &self.programming,
        }
    }
}

/// Why a question bank could not be had.
#[derive(Clone, Copy, Debug, PartialEq, Eq, Structural)]
pub enum LoadError {
    /// The content document could not be read.
    Unreadable,
    /// The content document does not have the shape of a question bank.
    Malformed,
    /// The content document lacks the questions of a category.
    MissingCategory,
}

/// Whether a document has an entry under `key`.
pub open spec fn has_entry(entries: Seq<(String, Vec<Question>)>, key: Seq<char>) -> bool {
    exists|i: int| 0 <= i < entries.len() && (#[trigger] entries[i]).0@ == key
}

/// Whether the entry at `i` is the first one under `key`.
pub open spec fn first_entry(
    entries: Seq<(String, Vec<Question>)>,
    key: Seq<char>,
    i: int,
) -> bool {
    &&& 0 <= i < entries.len()
    &&& entries[i].0@ == key
    &&& forall|j: int| 0 <= j < i ==> (#[trigger] entries[j]).0@ != key
}

/// Whether a document has an entry for each of the five categories.
pub open spec fn complete(entries: Seq<(String, Vec<Question>)>) -> bool {
    forall|c: Category| has_entry(entries, #[trigger] category_key(c))
}

/// Whether `pool` holds the questions that the document lists first under
/// `key`.
pub open spec fn taken_from(
    pool: Seq<Question>,
    entries: Seq<(String, Vec<Question>)>,
    key: Seq<char>,
) -> bool {
    exists|i: int| #[trigger]
        first_entry(entries, key, i) && questions_view(pool) == questions_view(entries[i].1@)
}

/// The position of the first entry under `key`.
pub fn find_entry(entries: &Vec<(String, Vec<Question>)>, key: &str) -> (r: Option<usize>)
    ensures
        match r {
            Some(i) => first_entry(entries@, key@, i as int),
            None => !has_entry(entries@, key@),
        },
{
    let mut i: usize = 0;
    while i < entries.len()
        invariant
            i <= entries.len(),
            forall|j: int| 0 <= j < i ==> (#[trigger] entries[j]).0@ != key@,
        decreases entries.len() - i,
    {
        if same_text(entries[i].0.as_str(), key) {
            return Some(i);
        }
        i = i + 1;
    }
    None
}

/// The questions that a document lists first under the key of `category`.
pub fn take_category(entries: &Vec<(String, Vec<Question>)>, category: Category) -> (r: Option<
    Vec<Question>,
>)
    ensures
        r is Some <==> has_entry(entries@, category_key(category)),
        r matches Some(pool) ==> taken_from(pool@, entries@, category_key(category)),
{
    match find_entry(entries, category.key()) {
        Some(i) => {
            Some(copy_questions(&entries[i].1))
        },
        None => None,
    }
}

/// Builds the question bank from the entries of a content document, each a
/// key with the questions listed under it.
///
/// A document that lacks one of the five categories gives no bank. Of two
/// entries under one key the first counts; entries under other keys are
/// passed over.
pub fn load(entries: &Vec<(String, Vec<Question>)>) -> (r: Result<Data, LoadError>)
    ensures
        r is Ok <==> complete(entries@),
        r matches Err(e) ==> e == LoadError::MissingCategory,
        r matches Ok(data) ==> forall|c: Category|
            taken_from(#[trigger] data.pool(c), entries@, category_key(c)),
{
    let math = take_category(entries, Category::Math);
    let science = take_category(entries, Category::Science);
    let history = take_category(entries, Category::History);
    let sports = take_category(entries, Category::Sports);
    let programming = take_category(entries, Category::Programming);
    match (math, science, history, sports, programming) {
        (Some(math), Some(science), Some(history), Some(sports), Some(programming)) => {
            let data = Data { math, science, history, sports, programming };
            assert forall|c: Category| has_entry(entries@, #[trigger] category_key(c)) by {
                match c {
                    Category::Math => {},
                    Category::Science => {},
                    Category::History => {},
                    Category::Sports => {},
                    Category::Programming => {},
                }
            }
            assert forall|c: Category|
                taken_from(#[trigger] data.pool(c), entries@, category_key(c)) by {
                match c {
                    Category::Math => {},
                    Category::Science => {},
                    Category::History => {},
                    Category::Sports => {},
                    Category::Programming => {},
                }
            }
            Ok(data)
        },
        _ => {
            Err(LoadError::MissingCategory)
        },
    }
}

} // verus!
