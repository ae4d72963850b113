//! An exercise packet: a display name and its questions, in order.

use crate::question::{Question, QuestionView};
use crate::text::str_eq;
use vstd::prelude::*;
use vstd::std_specs::cmp::PartialEqSpecImpl;

verus! {

/// A named, ordered collection of questions. A question is addressed by its
/// position in `questions`.
#[derive(Debug)]
pub struct ExercisePacket {
    pub name: String,
    pub questions: Vec<Question>,
}

/// The mathematical value of an [`ExercisePacket`].
pub struct PacketView {
    pub name: Seq<char>,
    pub questions: Seq<QuestionView>,
}

impl View for ExercisePacket {
    type V = PacketView;

    open spec fn view(&self) -> PacketView {
        PacketView { name: self.name@, questions: self.questions@.map_values(|q: Question| q@) }
    }
}

impl Clone for ExercisePacket {
    fn clone(&self) -> (copy: Self)
        ensures
            copy@ == self@,
    {
        let mut questions: Vec<Question> = Vec::new();
        let mut i: usize = 0;
        while i < self.questions.len()
            invariant
                i <= self.questions@.len(),
                questions@.len() == i,
                forall|j: int| 0 <= j < i ==> questions@[j]@ == self.questions@[j]@,
            decreases self.questions@.len() - i,
        {
            questions.push(self.questions[i].clone());
            i += 1;
        }
        let copy = ExercisePacket { name: self.name.clone(), questions };
        assert(copy@.questions =~= self@.questions);
        copy
    }
}

impl PartialEq for ExercisePacket {
    /// Two packets are equal when they have the same name and the same
    /// questions in the same order.
    fn eq(&self, other: &ExercisePacket) -> (same: bool) {
        if !str_eq(self.name.as_str(), other.name.as_str()) {
            return false;
        }
        if self.questions.len() != other.questions.len() {
            assert(self@.questions.len() != other@.questions.len());
            return false;
        }
        let mut i: usize = 0;
        while i < self.questions.len()
            invariant
                self.questions@.len() == other.questions@.len(),
                i <= self.questions@.len(),
                forall|j: int| 0 <= j < i ==> self.questions@[j]@ == other.questions@[j]@,
            decreases self.questions@.len() - i,
        {
            if self.questions[i] != other.questions[i] {
                assert(self@.questions[i as int] != other@.questions[i as int]);
                return false;
            }
            i += 1;
        }
        assert(self@.questions =~= other@.questions);
        true
    }
}

impl PartialEqSpecImpl for ExercisePacket {
    open spec fn obeys_eq_spec() -> bool {
        true
    }

    open spec fn eq_spec(&self, other: &ExercisePacket) -> bool {
        self@ == other@
    }
}

} // verus!
