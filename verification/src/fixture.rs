//! The built-in catalog: a math packet and a science packet, two
//! multiple-choice questions each.

use crate::catalog::{Catalog, NotFound};
use crate::packet::{ExercisePacket, PacketView};
use crate::question::{AnswerKeyView, Question, QuestionView};
use vstd::prelude::*;

verus! {

/// The packet under the key `math`.
pub open spec fn math_packet() -> PacketView {
    PacketView {
        name: "Math Packet"@,
        questions: seq![
            QuestionView {
                text: "What is 2 + 2?"@,
                key: AnswerKeyView::MultipleChoice {
                    alternatives: seq!["3"@, "4"@, "5"@, "6"@],
                    correct_answer_index: 1,
                },
            },
            QuestionView {
                text: "What is 3 * 3?"@,
                key: AnswerKeyView::MultipleChoice {
                    alternatives: seq!["6"@, "7"@, "8"@, "9"@],
                    correct_answer_index: 3,
                },
            },
        ],
    }
}

/// The packet under the key `science`.
pub open spec fn science_packet() -> PacketView {
    PacketView {
        name: "Science Packet"@,
        questions: seq![
            QuestionView {
                text: "What planet is known as the Red Planet?"@,
                key: AnswerKeyView::MultipleChoice {
                    alternatives: seq!["Earth"@, "Mars"@, "Jupiter"@, "Venus"@],
                    correct_answer_index: 1,
                },
            },
            QuestionView {
                text: "What is the chemical symbol for water?"@,
                key: AnswerKeyView::MultipleChoice {
                    alternatives: seq!["O2"@, "CO2"@, "H2O"@, "N2"@],
                    correct_answer_index: 2,
                },
            },
        ],
    }
}

/// What the built-in catalog holds.
pub open spec fn mock_packets() -> Map<Seq<char>, PacketView> {
    map!["math"@ => math_packet(), "science"@ => science_packet()]
}

/// The order in which the built-in catalog lists its keys.
pub open spec fn mock_packet_keys() -> Seq<Seq<char>> {
    seq!["math"@, "science"@]
}

/// A multiple-choice question over the four alternatives `a` to `d`.
fn four_choices(text: &str, a: &str, b: &str, c: &str, d: &str, correct: usize) -> (made: Question)
    requires
        correct < 4,
    ensures
        made@ == (QuestionView {
            text: text@,
            key: AnswerKeyView::MultipleChoice {
                alternatives: seq![a@, b@, c@, d@],
                correct_answer_index: correct as nat,
            },
        }),
{
    let mut alternatives: Vec<String> = Vec::new();
    alternatives.push(a.to_owned());
    alternatives.push(b.to_owned());
    alternatives.push(c.to_owned());
    alternatives.push(d.to_owned());
    assert(alternatives.deep_view() =~= seq![a@, b@, c@, d@]);
    Question::multiple_choice(text.to_owned(), alternatives, correct).unwrap()
}

/// A packet of two questions.
fn packet_of_two(name: &str, first: Question, second: Question) -> (made: ExercisePacket)
    ensures
        made@ == (PacketView { name: name@, questions: seq![first@, second@] }),
{
    let mut questions: Vec<Question> = Vec::new();
    questions.push(first);
    questions.push(second);
    let made = ExercisePacket { name: name.to_owned(), questions };
    assert(made@.questions =~= seq![first@, second@]);
    made
}

/// Builds the built-in catalog. Every call builds it anew, and every call
/// builds the same one.
pub fn get_mock_packets() -> (packets: Catalog)
    ensures
        packets@ == mock_packets(),
        packets.keys() == mock_packet_keys(),
{
    let mut packets = Catalog::new();
    packets.insert(
        "math".to_owned(),
        packet_of_two(
            "Math Packet",
            four_choices("What is 2 + 2?", "3", "4", "5", "6", 1),
            four_choices("What is 3 * 3?", "6", "7", "8", "9", 3),
        ),
    );
    packets.insert(
        "science".to_owned(),
        packet_of_two(
            "Science Packet",
            four_choices(
                "What planet is known as the Red Planet?",
                "Earth",
                "Mars",
                "Jupiter",
                "Venus",
                1,
            ),
            four_choices("What is the chemical symbol for water?", "O2", "CO2", "H2O", "N2", 2),
        ),
    );
    proof {
        lemma_mock_keys_differ();
    }
    packets
}

/// The two keys of the built-in catalog are different keys.
pub proof fn lemma_mock_keys_differ()
    ensures
        "math"@ != "science"@,
{
    reveal_strlit("math");
    reveal_strlit("science");
    assert("math"@.len() != "science"@.len());
}

/// Building the built-in catalog twice gives two catalogs that are equal by
/// value: the same keys in the same order, and under each key packets with
/// the same name and the same questions.
pub proof fn lemma_mock_packets_agree(first: Catalog, second: Catalog)
    requires
        call_ensures(get_mock_packets, (), first),
        call_ensures(get_mock_packets, (), second),
    ensures
        first@ == second@,
        first.keys() == second.keys(),
{
}

/// In the built-in catalog, a lookup by one of its keys and an index within
/// that packet finds the question that the fixture has there, and so its
/// text.
pub proof fn lemma_mock_question_found(
    catalog: Catalog,
    key: &str,
    index: usize,
    found: Result<&Question, NotFound>,
)
    requires
        call_ensures(get_mock_packets, (), catalog),
        call_ensures(Catalog::get_question, (&catalog, key, index), found),
        mock_packets().dom().contains(key@),
        index < mock_packets()[key@].questions.len(),
    ensures
        found is Ok,
        found->Ok_0@ == mock_packets()[key@].questions[index as int],
        found->Ok_0@.text == mock_packets()[key@].questions[index as int].text,
{
}

} // verus!
