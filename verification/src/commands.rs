use vstd::prelude::*;
use crate::types::{Answer, EntityId, Id, Seconds};

verus! {

/// The closed set of intents a caller may submit. Commands carry only
/// identifiers and primitive payload, never embedded domain snapshots.
#[derive(Debug)]
pub enum StudentCommand {
    CreateStudent { student_id: EntityId, name: String },
    StartLesson { student_id: EntityId, lesson_id: EntityId },
    BookmarkVideo { student_id: EntityId, lesson_id: EntityId, step_id: Id, seconds_into_video: Seconds },
    CompleteVideo { student_id: EntityId, lesson_id: EntityId, step_id: Id },
    AnswerQuestion { student_id: EntityId, lesson_id: EntityId, step_id: Id, answer: Answer },
}

} // verus!
