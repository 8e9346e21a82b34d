use vstd::prelude::*;
use crate::types::{EntityId, Id};

verus! {

/// An immutable lesson snapshot: an identity plus the ordered steps to work
/// through. Once embedded in an event it is never re-fetched.
#[derive(Debug, Clone, PartialEq)]
pub struct Lesson {
    pub id: EntityId,
    pub name: String,
    pub steps: Vec<Step>,
}

impl Lesson {
    /// A lesson with the given identity and no steps yet.
    pub fn new(id: EntityId, name: String) -> (r: Self)
        ensures
            r.id == id,
            r.name == name,
            r.steps@ == Seq::<Step>::empty(),
    {
        let steps: Vec<Step> = Vec::new();
        Self { id, name, steps }
    }
}

/// One unit of work inside a lesson: watch a video or answer a question.
/// Every step carries an identifier unique within its lesson.
#[derive(Debug, Clone, PartialEq)]
pub enum Step {
    Video { id: Id, url: String },
    Question { id: Id, question: String },
}

/// Operations every step kind supports.
pub trait LessonStep: Sized {
    /// The step's identifier.
    spec fn spec_id(&self) -> Id;

    fn id(&self) -> (r: Id)
        ensures
            r == self.spec_id(),
    ;

    fn new_video(id: Id, url: String) -> (r: Step)
        ensures
            r == (Step::Video { id, url }),
    ;

    fn new_question(id: Id, question: String) -> (r: Step)
        ensures
            r == (Step::Question { id, question }),
    ;
}

impl LessonStep for Step {
    open spec fn spec_id(&self) -> Id {
        match self {
            Step::Video { id, .. } => *id,
            Step::Question { id, .. } => *id,
        }
    }

    fn id(&self) -> (r: Id) {
        match self {
            Step::Video { id, .. } => *id,
            Step::Question { id, .. } => *id,
        }
    }

    fn new_video(id: Id, url: String) -> (r: Step) {
        Step::Video { id, url }
    }

    fn new_question(id: Id, question: String) -> (r: Step) {
        Step::Question { id, question }
    }
}

} // verus!
