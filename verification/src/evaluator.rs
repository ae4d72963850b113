//! Checking a submitted answer against a question.
//!
//! An answer is submitted as text, for both kinds of question: for a
//! multiple-choice question it is the text of the chosen alternative, not its
//! index. It is correct when it equals the correct answer character for
//! character; nothing is trimmed and case is not folded.

use crate::catalog::{Catalog, NotFound};
use crate::question::{Question, QuestionView};
use crate::text::str_eq;
use vstd::prelude::*;
use vstd::std_specs::cmp::PartialEqSpecImpl;

verus! {

/// The verdict on a submitted answer.
#[derive(Debug)]
pub struct SubmitResponse {
    pub correct: bool,
    pub message: String,
}

/// The mathematical value of a [`SubmitResponse`].
pub struct SubmitResponseView {
    pub correct: bool,
    pub message: Seq<char>,
}

impl View for SubmitResponse {
    type V = SubmitResponseView;

    open spec fn view(&self) -> SubmitResponseView {
        SubmitResponseView { correct: self.correct, message: self.message@ }
    }
}

impl PartialEq for SubmitResponse {
    /// Two verdicts are equal when they agree on correctness and message.
    fn eq(&self, other: &SubmitResponse) -> (same: bool) {
        self.correct == other.correct && str_eq(self.message.as_str(), other.message.as_str())
    }
}

impl PartialEqSpecImpl for SubmitResponse {
    open spec fn obeys_eq_spec() -> bool {
        true
    }

    open spec fn eq_spec(&self, other: &SubmitResponse) -> bool {
        self@ == other@
    }
}

/// The message for a correct answer.
pub open spec fn correct_message() -> Seq<char> {
    "Correct!"@
}

/// The message for a wrong answer: a fixed opening, then the correct answer.
pub open spec fn wrong_message(correct_answer: Seq<char>) -> Seq<char> {
    "Wrong! The correct answer is: "@ + correct_answer
}

/// The verdict that `submitted` earns on `question`.
pub open spec fn verdict(question: QuestionView, submitted: Seq<char>) -> SubmitResponseView {
    if submitted == question.correct_answer() {
        SubmitResponseView { correct: true, message: correct_message() }
    } else {
        SubmitResponseView { correct: false, message: wrong_message(question.correct_answer()) }
    }
}

/// `part` occurs in `whole` as a run of consecutive characters.
pub open spec fn contains_text(whole: Seq<char>, part: Seq<char>) -> bool {
    exists|start: int|
        0 <= start && start + part.len() <= whole.len() && #[trigger] whole.subrange(
            start,
            start + part.len(),
        ) == part
}

/// Judges `submitted_answer` against `question`.
pub fn evaluate(question: &Question, submitted_answer: &str) -> (response: SubmitResponse)
    ensures
        response@ == verdict(question@, submitted_answer@),
{
    let correct_answer = question.correct_answer();
    if str_eq(submitted_answer, correct_answer) {
        SubmitResponse { correct: true, message: "Correct!".to_owned() }
    } else {
        let message = "Wrong! The correct answer is: ".to_owned().concat(correct_answer);
        SubmitResponse { correct: false, message }
    }
}

/// Judges `answer` against the question at `index` of the packet under
/// `key`. Where there is no such question, nothing is judged.
pub fn submit_answer(catalog: &Catalog, key: &str, index: usize, answer: &str) -> (outcome: Result<
    SubmitResponse,
    NotFound,
>)
    ensures
        match outcome {
            Ok(response) => {
                &&& catalog@.dom().contains(key@)
                &&& index < catalog@[key@].questions.len()
                &&& response@ == verdict(catalog@[key@].questions[index as int], answer@)
            },
            Err(_) => !(catalog@.dom().contains(key@) && index < catalog@[key@].questions.len()),
        },
{
    match catalog.get_question(key, index) {
        Ok(question) => Ok(evaluate(question, answer)),
        Err(e) => Err(e),
    }
}

/// Submitting a question's own correct answer is judged correct, with the
/// message for a correct answer.
pub proof fn lemma_correct_answer_accepted(question: QuestionView)
    ensures
        verdict(question, question.correct_answer()) == (SubmitResponseView {
            correct: true,
            message: "Correct!"@,
        }),
{
}

/// Submitting anything but the correct answer is judged wrong, and the
/// message then shows the correct answer.
pub proof fn lemma_wrong_answer_corrected(question: QuestionView, submitted: Seq<char>)
    requires
        submitted != question.correct_answer(),
    ensures
        !verdict(question, submitted).correct,
        contains_text(verdict(question, submitted).message, question.correct_answer()),
{
    let answer = question.correct_answer();
    let message = wrong_message(answer);
    let start = message.len() - answer.len();
    assert(message.subrange(start, start + answer.len()) =~= answer);
}

/// A submission is judged correct exactly when it equals the correct answer.
pub proof fn lemma_correct_iff_equal(question: QuestionView, submitted: Seq<char>)
    ensures
        verdict(question, submitted).correct <==> submitted == question.correct_answer(),
{
}

} // verus!
