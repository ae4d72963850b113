use quiz_packets::question::{AnswerKey, Question, ALTERNATIVE_COUNT};

fn texts(items: [&str; 4]) -> Vec<String> {
    items.iter().map(|s| s.to_string()).collect()
}

#[test]
fn free_text_question_keeps_its_parts() {
    let q = Question::free_text("Capital of France?".to_string(), "Paris".to_string());
    assert_eq!(q.text(), "Capital of France?");
    assert_eq!(q.correct_answer(), "Paris");
    match q.key() {
        AnswerKey::FreeText { correct_answer } => assert_eq!(correct_answer, "Paris"),
        AnswerKey::MultipleChoice { .. } => panic!("a free-text question has a free-text key"),
    }
}

#[test]
fn multiple_choice_question_keeps_its_parts() {
    let alternatives = texts(["3", "4", "5", "6"]);
    let q = Question::multiple_choice("What is 2 + 2?".to_string(), alternatives, 1)
        .expect("four alternatives and an index among them");
    assert_eq!(q.text(), "What is 2 + 2?");
    assert_eq!(q.correct_answer(), "4");
    match q.key() {
        AnswerKey::MultipleChoice { alternatives, correct_answer_index } => {
            assert_eq!(alternatives, &texts(["3", "4", "5", "6"]));
            assert_eq!(*correct_answer_index, 1);
        }
        AnswerKey::FreeText { .. } => {
            panic!("a multiple-choice question has a multiple-choice key")
        }
    }
}

#[test]
fn multiple_choice_resolves_every_index() {
    let expected = ["a", "b", "c", "d"];
    for (i, want) in expected.iter().enumerate() {
        let q = Question::multiple_choice("?".to_string(), texts(expected), i).unwrap();
        assert_eq!(q.correct_answer(), *want);
    }
}

#[test]
fn multiple_choice_refuses_an_index_past_the_alternatives() {
    assert_eq!(ALTERNATIVE_COUNT, 4);
    assert!(Question::multiple_choice("?".to_string(), texts(["a", "b", "c", "d"]), 3).is_some());
    assert!(Question::multiple_choice("?".to_string(), texts(["a", "b", "c", "d"]), 4).is_none());
    let far = usize::MAX;
    assert!(Question::multiple_choice("?".to_string(), texts(["a", "b", "c", "d"]), far).is_none());
}

#[test]
fn multiple_choice_refuses_another_number_of_alternatives() {
    let three = vec!["a".to_string(), "b".to_string(), "c".to_string()];
    let five: Vec<String> = ["a", "b", "c", "d", "e"].iter().map(|s| s.to_string()).collect();
    assert!(Question::multiple_choice("?".to_string(), three, 0).is_none());
    assert!(Question::multiple_choice("?".to_string(), five, 0).is_none());
    assert!(Question::multiple_choice("?".to_string(), Vec::new(), 0).is_none());
}

#[test]
fn questions_compare_by_value() {
    let make = |text: &str, items: [&str; 4], index: usize| {
        Question::multiple_choice(text.to_string(), texts(items), index).unwrap()
    };
    let a = make("?", ["a", "b", "c", "d"], 2);
    let same = make("?", ["a", "b", "c", "d"], 2);
    let other_index = make("?", ["a", "b", "c", "d"], 1);
    let other_text = make("!", ["a", "b", "c", "d"], 2);
    let other_choice = make("?", ["a", "b", "x", "d"], 2);
    let free = Question::free_text("?".to_string(), "c".to_string());
    assert!(a == same);
    assert!(a != other_index);
    assert!(a != other_text);
    assert!(a != other_choice);
    assert!(a != free);
    assert!(free == Question::free_text("?".to_string(), "c".to_string()));
    assert!(free != Question::free_text("?".to_string(), "C".to_string()));
}

#[test]
fn a_cloned_question_equals_the_one_it_was_cloned_from() {
    let a = Question::multiple_choice("?".to_string(), texts(["a", "b", "c", "d"]), 0).unwrap();
    let free = Question::free_text("?".to_string(), "c".to_string());
    assert_eq!(a.clone(), a);
    assert_eq!(free.clone(), free);
    assert_eq!(a.key().clone(), *a.key());
}
