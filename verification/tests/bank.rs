use ankamantatra_bot::serializers::{
    copy_questions, copy_texts, find_entry, load, take_category, Category, Data, LoadError,
    Question,
};

fn question(text: &str, options: &[&str], answer: &str) -> Question {
    Question {
        question: String::from(text),
        options: options.iter().map(|o| o.to_string()).collect(),
        answer: String::from(answer),
    }
}

fn full_document() -> Vec<(String, Vec<Question>)> {
    vec![
        (String::from("math"), vec![question("2+2?", &["3", "4"], "4")]),
        (String::from("science"), vec![question("H2O?", &["water", "salt"], "water")]),
        (String::from("history"), vec![]),
        (String::from("sports"), vec![question("Players?", &["11", "12"], "11")]),
        (String::from("programming"), vec![question("Rust?", &["yes", "no"], "yes")]),
    ]
}

#[test]
fn load_takes_each_category_from_its_key() {
    let data = load(&full_document()).unwrap();
    assert_eq!(data.math, vec![question("2+2?", &["3", "4"], "4")]);
    assert_eq!(data.science, vec![question("H2O?", &["water", "salt"], "water")]);
    assert_eq!(data.history, vec![]);
    assert_eq!(data.sports, vec![question("Players?", &["11", "12"], "11")]);
    assert_eq!(data.programming, vec![question("Rust?", &["yes", "no"], "yes")]);
}

#[test]
fn load_fails_when_a_category_is_missing() {
    for missing in ["math", "science", "history", "sports", "programming"] {
        let document: Vec<(String, Vec<Question>)> =
            full_document().into_iter().filter(|(k, _)| k != missing).collect();
        assert_eq!(load(&document), Err(LoadError::MissingCategory));
    }
    assert_eq!(load(&Vec::new()), Err(LoadError::MissingCategory));
}

#[test]
fn load_wants_the_key_sports_not_sport() {
    let document: Vec<(String, Vec<Question>)> = full_document()
        .into_iter()
        .map(|(k, v)| if k == "sports" { (String::from("sport"), v) } else { (k, v) })
        .collect();
    assert_eq!(load(&document), Err(LoadError::MissingCategory));
}

#[test]
fn load_takes_the_first_of_two_entries_and_skips_unknown_keys() {
    let mut document = full_document();
    document.insert(0, (String::from("geography"), vec![question("Capital?", &[], "Paris")]));
    document.push((String::from("math"), vec![question("1+1?", &["2"], "2")]));
    let data = load(&document).unwrap();
    assert_eq!(data.math, vec![question("2+2?", &["3", "4"], "4")]);
}

#[test]
fn find_entry_gives_the_first_position() {
    let mut document = full_document();
    document.push((String::from("math"), vec![]));
    assert_eq!(find_entry(&document, "math"), Some(0));
    assert_eq!(find_entry(&document, "programming"), Some(4));
    assert_eq!(find_entry(&document, "sport"), None);
}

#[test]
fn take_category_copies_the_questions() {
    let document = full_document();
    assert_eq!(
        take_category(&document, Category::Sports),
        Some(vec![question("Players?", &["11", "12"], "11")])
    );
    assert_eq!(take_category(&Vec::new(), Category::Math), None);
}

#[test]
fn copies_equal_what_they_copy() {
    let texts = vec![String::from("a"), String::from(""), String::from("é")];
    assert_eq!(copy_texts(&texts), texts);
    let questions = vec![question("q", &["a", "b"], "a"), question("r", &[], "x")];
    assert_eq!(copy_questions(&questions), questions);
    assert_eq!(questions[0].clone(), questions[0]);
}

#[test]
fn category_names_and_keys() {
    assert_eq!(Category::Math.name(), "math");
    assert_eq!(Category::Sports.name(), "sport");
    assert_eq!(Category::Sports.key(), "sports");
    assert_eq!(Category::Programming.key(), "programming");
    assert_eq!(Category::named("sport"), Some(Category::Sports));
    assert_eq!(Category::named("sports"), None);
    assert_eq!(Category::named("science"), Some(Category::Science));
    assert_eq!(Category::named("history"), Some(Category::History));
    assert_eq!(Category::named("programming"), Some(Category::Programming));
    assert_eq!(Category::named("math"), Some(Category::Math));
    assert_eq!(Category::named("🔢 Math"), None);
}

#[test]
fn questions_of_a_category() {
    let data: Data = load(&full_document()).unwrap();
    assert_eq!(data.questions(Category::Math), &data.math);
    assert_eq!(data.questions(Category::Science), &data.science);
    assert_eq!(data.questions(Category::History), &data.history);
    assert_eq!(data.questions(Category::Sports), &data.sports);
    assert_eq!(data.questions(Category::Programming), &data.programming);
}
