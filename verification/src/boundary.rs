//! What a request is answered with: a status and a body, as plain values.
//!
//! A lookup that finds nothing is no failure here. It is answered with the
//! not-found status and a placeholder body of the same shape as a real one.

use crate::catalog::Catalog;
use crate::packet::{ExercisePacket, PacketView};
use crate::question::{AnswerKeyView, Question, QuestionView};
use vstd::prelude::*;

verus! {

/// The two statuses an answer can have.
#[derive(Clone, Copy, Debug, PartialEq, Eq, Structural)]
pub enum Status {
    Found,
    NotFound,
}

impl Status {
    /// The status as an HTTP status code.
    pub open spec fn spec_code(self) -> u16 {
        match self {
            Status::Found => 200,
            Status::NotFound => 404,
        }
    }

    /// The status as an HTTP status code.
    #[verifier::when_used_as_spec(spec_code)]
    pub fn code(self) -> (code: u16)
        ensures
            code == self.spec_code(),
    {
        match self {
            Status::Found => 200,
            Status::NotFound => 404,
        }
    }
}

/// The body that stands in for a packet that was not found.
pub open spec fn placeholder_packet() -> PacketView {
    PacketView { name: "Packet not found"@, questions: Seq::empty() }
}

/// The body that stands in for a question that was not found: no prompt, four
/// empty alternatives, and the index zero.
pub open spec fn placeholder_question() -> QuestionView {
    QuestionView {
        text: ""@,
        key: AnswerKeyView::MultipleChoice {
            alternatives: seq![""@, ""@, ""@, ""@],
            correct_answer_index: 0,
        },
    }
}

/// The answer to a request for the packet under `key`.
pub open spec fn packet_answer(packets: Map<Seq<char>, PacketView>, key: Seq<char>) -> (
    Status,
    PacketView,
) {
    if packets.dom().contains(key) {
        (Status::Found, packets[key])
    } else {
        (Status::NotFound, placeholder_packet())
    }
}

/// The answer to a request for the question at `index` of the packet under
/// `key`.
pub open spec fn question_answer(
    packets: Map<Seq<char>, PacketView>,
    key: Seq<char>,
    index: int,
) -> (Status, QuestionView) {
    if packets.dom().contains(key) && 0 <= index < packets[key].questions.len() {
        (Status::Found, packets[key].questions[index])
    } else {
        (Status::NotFound, placeholder_question())
    }
}

/// Answers a request for the packet under `key`: the packet itself, or the
/// placeholder packet with the not-found status.
pub fn packet_response(catalog: &Catalog, key: &str) -> (response: (Status, ExercisePacket))
    ensures
        (response.0, response.1@) == packet_answer(catalog@, key@),
{
    match catalog.get_packet(key) {
        Ok(packet) => (Status::Found, packet.clone()),
        Err(_) => {
            let body = ExercisePacket {
                name: "Packet not found".to_owned(),
                questions: Vec::new(),
            };
            assert(body@.questions =~= Seq::<QuestionView>::empty());
            (Status::NotFound, body)
        },
    }
}

/// Answers a request for the question at `index` of the packet under `key`:
/// the question itself, or the placeholder question with the not-found
/// status. An unknown key and an index out of range are answered alike.
pub fn question_response(catalog: &Catalog, key: &str, index: usize) -> (response: (
    Status,
    Question,
))
    ensures
        (response.0, response.1@) == question_answer(catalog@, key@, index as int),
{
    match catalog.get_question(key, index) {
        Ok(question) => (Status::Found, question.clone()),
        Err(_) => {
            let mut alternatives: Vec<String> = Vec::new();
            alternatives.push("".to_owned());
            alternatives.push("".to_owned());
            alternatives.push("".to_owned());
            alternatives.push("".to_owned());
            assert(alternatives.deep_view() =~= seq![""@, ""@, ""@, ""@]);
            let body = Question::multiple_choice("".to_owned(), alternatives, 0).unwrap();
            (Status::NotFound, body)
        },
    }
}

} // verus!
