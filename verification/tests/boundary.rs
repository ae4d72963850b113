use quiz_packets::boundary::{packet_response, question_response, Status};
use quiz_packets::catalog::Catalog;
use quiz_packets::fixture::get_mock_packets;
use quiz_packets::packet::ExercisePacket;
use quiz_packets::question::{AnswerKey, Question};
use std::collections::BTreeSet;

fn placeholder_question() -> Question {
    Question::multiple_choice("".to_string(), vec![String::new(); 4], 0).unwrap()
}

#[test]
fn status_codes() {
    assert_eq!(Status::Found.code(), 200);
    assert_eq!(Status::NotFound.code(), 404);
}

#[test]
fn listing_the_fixture_gives_math_and_science() {
    let keys: BTreeSet<String> = get_mock_packets().list_packet_keys().into_iter().collect();
    let expected: BTreeSet<String> = ["math", "science"].iter().map(|s| s.to_string()).collect();
    assert_eq!(keys, expected);
}

#[test]
fn a_known_packet_is_answered_with_itself() {
    let catalog = get_mock_packets();
    let (status, body) = packet_response(&catalog, "math");
    assert_eq!(status, Status::Found);
    assert_eq!(status.code(), 200);
    assert_eq!(&body, catalog.get_packet("math").unwrap());
    assert_eq!(body.name, "Math Packet");
    assert_eq!(body.questions.len(), 2);
}

#[test]
fn an_unknown_packet_is_answered_with_the_placeholder() {
    let catalog = get_mock_packets();
    for key in ["unknown", "", "Math"] {
        let (status, body) = packet_response(&catalog, key);
        assert_eq!(status, Status::NotFound);
        assert_eq!(status.code(), 404);
        assert_eq!(
            body,
            ExercisePacket { name: "Packet not found".to_string(), questions: Vec::new() }
        );
    }
}

#[test]
fn the_first_math_question_is_answered_with_itself() {
    let catalog = get_mock_packets();
    let (status, body) = question_response(&catalog, "math", 0);
    assert_eq!(status.code(), 200);
    assert_eq!(body.text(), "What is 2 + 2?");
    assert_eq!(body.correct_answer(), "4");
    match body.key() {
        AnswerKey::MultipleChoice { alternatives, correct_answer_index } => {
            assert_eq!(alternatives[*correct_answer_index], "4");
        }
        AnswerKey::FreeText { .. } => panic!("the fixture holds multiple-choice questions"),
    }
}

#[test]
fn a_question_past_the_last_is_answered_with_the_placeholder() {
    let catalog = get_mock_packets();
    let (status, body) = question_response(&catalog, "math", 9);
    assert_eq!(status, Status::NotFound);
    assert_eq!(status.code(), 404);
    assert_eq!(body, placeholder_question());
}

#[test]
fn a_question_of_an_unknown_packet_is_answered_with_the_placeholder() {
    let catalog = get_mock_packets();
    let (status, body) = question_response(&catalog, "unknown", 0);
    assert_eq!(status, Status::NotFound);
    assert_eq!(status.code(), 404);
    assert_eq!(body, placeholder_question());
}

#[test]
fn the_placeholder_question_has_empty_fields() {
    let (_, body) = question_response(&Catalog::new(), "math", 0);
    assert_eq!(body.text(), "");
    assert_eq!(body.correct_answer(), "");
    match body.key() {
        AnswerKey::MultipleChoice { alternatives, correct_answer_index } => {
            assert_eq!(alternatives, &vec![String::new(); 4]);
            assert_eq!(*correct_answer_index, 0);
        }
        AnswerKey::FreeText { .. } => panic!("the placeholder is a multiple-choice question"),
    }
}

#[test]
fn every_fixture_question_is_answered_with_status_found() {
    let catalog = get_mock_packets();
    for key in catalog.list_packet_keys() {
        let count = catalog.get_packet(&key).unwrap().questions.len();
        for index in 0..count {
            let (status, body) = question_response(&catalog, &key, index);
            assert_eq!(status, Status::Found);
            assert_eq!(&body, catalog.get_question(&key, index).unwrap());
        }
        let (status, _) = question_response(&catalog, &key, count);
        assert_eq!(status, Status::NotFound);
    }
}
