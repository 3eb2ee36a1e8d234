//! The exchange with the generative-text service that explains a right
//! answer: what is asked of it, and what is read from its response.

use vstd::prelude::*;

verus! {

/// A piece of text in a conversation with the service.
#[derive(Debug, PartialEq, Eq)]
pub struct Part {
    pub text: String,
}

/// One contribution to a conversation with the service.
#[derive(Debug, PartialEq, Eq)]
pub struct Content {
    pub role: String,
    pub parts: Vec<Part>,
}

/// One of the answers that the service proposes.
#[derive(Debug, PartialEq, Eq)]
pub struct Candidate {
    pub content: Content,
}

/// What the service returns.
#[derive(Debug, PartialEq, Eq)]
pub struct Response {
    pub candidates: Vec<Candidate>,
}

/// Why no explanation could be had.
#[derive(Clone, Copy, Debug, PartialEq, Eq, Structural)]
pub enum ServiceError {
    /// The request did not reach the service or was refused.
    Failed,
    /// The response does not have the shape of a response.
    Malformed,
    /// The response holds no text.
    Empty,
}

/// The request for an explanation of why `true_answer` answers `question`.
pub open spec fn prompt_text(question: Seq<char>, true_answer: Seq<char>) -> Seq<char> {
    "\n            The question is "@ + question + ",\n            explain to me why: "@
        + true_answer + "\n            is the right answer, in one paragraph"@
}

/// Writes the request for an explanation of why `true_answer` answers
/// `question`.
pub fn prompt(question: &str, true_answer: &str) -> (r: String)
    ensures
        r@ == prompt_text(question@, true_answer@),
{
    let mut text = String::from_str("\n            The question is ");
    text.append(question);
    text.append(",\n            explain to me why: ");
    text.append(true_answer);
    text.append("\n            is the right answer, in one paragraph");
    text
}

/// The conversation that is sent to the service: the prompt, as the one
/// contribution of the user.
pub fn contents(text: String) -> (r: Vec<Content>)
    ensures
        r@.len() == 1,
        r@[0].role@ == "user"@,
        r@[0].parts@.len() == 1,
        r@[0].parts@[0].text@ == text@,
{
    let mut parts: Vec<Part> = Vec::new();
    parts.push(Part { text });
    let mut all: Vec<Content> = Vec::new();
    all.push(Content { role: String::from_str("user"), parts });
    all
}

/// The text that a response offers first, if it offers any.
pub open spec fn first_text_of(response: Response) -> Option<Seq<char>> {
    if response.candidates@.len() > 0 && response.candidates@[0].content.parts@.len() > 0 {
        Some(response.candidates@[0].content.parts@[0].text@)
    } else {
        None
    }
}

/// Reads the first part of the first candidate. A response without
/// candidates, or whose first candidate has no parts, holds no explanation.
pub fn first_text(response: &Response) -> (r: Result<String, ServiceError>)
    ensures
        match first_text_of(*response) {
            Some(text) => r matches Ok(t) && t@ == text,
            None => r == Err::<String, ServiceError>(ServiceError::Empty),
        },
{
    if response.candidates.len() > 0 {
        let candidate = &response.candidates[0];
        if candidate.content.parts.len() > 0 {
            return Ok(candidate.content.parts[0].text.clone());
        }
    }
    Err(ServiceError::Empty)
}

} // verus!
