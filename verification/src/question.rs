//! A quiz question: a prompt and the record of its correct answer.

use crate::text::{str_eq, texts_eq};
use vstd::prelude::*;
use vstd::std_specs::cmp::PartialEqSpecImpl;

verus! {

/// How many candidate answers a multiple-choice question offers.
pub const ALTERNATIVE_COUNT: usize = 4;

/// The record of a question's correct answer.
///
/// A free-text question stores the answer itself. A multiple-choice question
/// stores its candidate answers in order, and the position of the correct one.
#[derive(Debug)]
pub enum AnswerKey {
    FreeText { correct_answer: String },
    MultipleChoice { alternatives: Vec<String>, correct_answer_index: usize },
}

/// The mathematical value of an [`AnswerKey`].
pub enum AnswerKeyView {
    FreeText { correct_answer: Seq<char> },
    MultipleChoice { alternatives: Seq<Seq<char>>, correct_answer_index: nat },
}

/// The mathematical value of a [`Question`].
pub struct QuestionView {
    pub text: Seq<char>,
    pub key: AnswerKeyView,
}

impl AnswerKeyView {
    /// A multiple-choice key offers exactly [`ALTERNATIVE_COUNT`] alternatives
    /// and points at one of them. A free-text key is always well formed.
    pub open spec fn wf(self) -> bool {
        match self {
            AnswerKeyView::FreeText { .. } => true,
            AnswerKeyView::MultipleChoice { alternatives, correct_answer_index } => {
                &&& alternatives.len() == ALTERNATIVE_COUNT
                &&& correct_answer_index < ALTERNATIVE_COUNT
            },
        }
    }

    /// The text that counts as the correct answer.
    pub open spec fn correct_answer(self) -> Seq<char> {
        match self {
            AnswerKeyView::FreeText { correct_answer } => correct_answer,
            AnswerKeyView::MultipleChoice { alternatives, correct_answer_index } => {
                alternatives[correct_answer_index as int]
            },
        }
    }
}

impl QuestionView {
    pub open spec fn wf(self) -> bool {
        self.key.wf()
    }

    /// The text that counts as the correct answer to this question.
    pub open spec fn correct_answer(self) -> Seq<char> {
        self.key.correct_answer()
    }
}

impl View for AnswerKey {
    type V = AnswerKeyView;

    open spec fn view(&self) -> AnswerKeyView {
        match self {
            AnswerKey::FreeText { correct_answer } => AnswerKeyView::FreeText {
                correct_answer: correct_answer@,
            },
            AnswerKey::MultipleChoice { alternatives, correct_answer_index } => {
                AnswerKeyView::MultipleChoice {
                    alternatives: alternatives.deep_view(),
                    correct_answer_index: *correct_answer_index as nat,
                }
            },
        }
    }
}

impl Clone for AnswerKey {
    fn clone(&self) -> (copy: Self)
        ensures
            copy@ == self@,
    {
        match self {
            AnswerKey::FreeText { correct_answer } => AnswerKey::FreeText {
                correct_answer: correct_answer.clone(),
            },
            AnswerKey::MultipleChoice { alternatives, correct_answer_index } => {
                AnswerKey::MultipleChoice {
                    alternatives: alternatives.clone(),
                    correct_answer_index: *correct_answer_index,
                }
            },
        }
    }
}

impl PartialEq for AnswerKey {
    /// Two keys are equal when they are of the same kind and hold the same
    /// texts and index.
    fn eq(&self, other: &AnswerKey) -> (same: bool) {
        match (self, other) {
            (
                AnswerKey::FreeText { correct_answer: mine },
                AnswerKey::FreeText { correct_answer: theirs },
            ) => str_eq(mine.as_str(), theirs.as_str()),
            (
                AnswerKey::MultipleChoice { alternatives: mine, correct_answer_index: i },
                AnswerKey::MultipleChoice { alternatives: theirs, correct_answer_index: j },
            ) => *i == *j && texts_eq(mine, theirs),
            _ => false,
        }
    }
}

impl PartialEqSpecImpl for AnswerKey {
    open spec fn obeys_eq_spec() -> bool {
        true
    }

    open spec fn eq_spec(&self, other: &AnswerKey) -> bool {
        self@ == other@
    }
}

/// A quiz question. Its answer key is well formed for as long as it lives.
#[derive(Debug)]
pub struct Question {
    text: String,
    key: AnswerKey,
}

impl View for Question {
    type V = QuestionView;

    closed spec fn view(&self) -> QuestionView {
        QuestionView { text: self.text@, key: self.key@ }
    }
}

impl Question {
    #[verifier::type_invariant]
    spec fn well_formed(&self) -> bool {
        self.key@.wf()
    }

    /// A question whose answer is compared with a stored text.
    pub fn free_text(text: String, correct_answer: String) -> (made: Question)
        ensures
            made@ == (QuestionView {
                text: text@,
                key: AnswerKeyView::FreeText { correct_answer: correct_answer@ },
            }),
    {
        Question { text, key: AnswerKey::FreeText { correct_answer } }
    }

    /// A question with [`ALTERNATIVE_COUNT`] candidate answers, one of them
    /// correct. Any other number of alternatives, or an index that points at
    /// none of them, is refused.
    pub fn multiple_choice(
        text: String,
        alternatives: Vec<String>,
        correct_answer_index: usize,
    ) -> (made: Option<Question>)
        ensures
            made is Some <==> alternatives@.len() == ALTERNATIVE_COUNT && correct_answer_index
                < ALTERNATIVE_COUNT,
            made is Some ==> made->0@ == (QuestionView {
                text: text@,
                key: AnswerKeyView::MultipleChoice {
                    alternatives: alternatives.deep_view(),
                    correct_answer_index: correct_answer_index as nat,
                },
            }),
    {
        if alternatives.len() == ALTERNATIVE_COUNT && correct_answer_index < ALTERNATIVE_COUNT {
            Some(
                Question {
                    text,
                    key: AnswerKey::MultipleChoice { alternatives, correct_answer_index },
                },
            )
        } else {
            None
        }
    }

    /// The prompt.
    pub fn text(&self) -> (text: &str)
        ensures
            text@ == self@.text,
    {
        self.text.as_str()
    }

    /// The answer key, which is well formed.
    pub fn key(&self) -> (key: &AnswerKey)
        ensures
            key@ == self@.key,
            self@.wf(),
    {
        proof {
            use_type_invariant(self);
        }
        &self.key
    }

    /// The text that counts as the correct answer.
    pub fn correct_answer(&self) -> (answer: &str)
        ensures
            answer@ == self@.correct_answer(),
    {
        proof {
            use_type_invariant(self);
        }
        match &self.key {
            AnswerKey::FreeText { correct_answer } => correct_answer.as_str(),
            AnswerKey::MultipleChoice { alternatives, correct_answer_index } => {
                alternatives[*correct_answer_index].as_str()
            },
        }
    }
}

impl Clone for Question {
    fn clone(&self) -> (copy: Self)
        ensures
            copy@ == self@,
    {
        proof {
            use_type_invariant(self);
        }
        Question { text: self.text.clone(), key: self.key.clone() }
    }
}

impl PartialEq for Question {
    /// Two questions are equal when their prompts and answer keys are.
    fn eq(&self, other: &Question) -> (same: bool) {
        str_eq(self.text.as_str(), other.text.as_str()) && self.key == other.key
    }
}

impl PartialEqSpecImpl for Question {
    open spec fn obeys_eq_spec() -> bool {
        true
    }

    open spec fn eq_spec(&self, other: &Question) -> bool {
        self@ == other@
    }
}

} // verus!
