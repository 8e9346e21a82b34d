use vstd::prelude::*;
use crate::lesson::Lesson;
use crate::types::{Answer, EntityId, Id, Seconds};

verus! {

broadcast use vstd::string::to_string_from_display_ensures_for_str;

/// The closed set of facts that can happen to a student. Events mirror the
/// commands one-to-one; `LessonStarted` embeds a full lesson snapshot so that
/// replay never needs to query the lesson lookup again.
#[derive(Debug, Clone, PartialEq)]
pub enum StudentEvent {
    StudentCreated { student_id: EntityId, name: String },
    LessonStarted { student_id: EntityId, lesson: Lesson },
    VideoBookmarked { student_id: EntityId, lesson_id: EntityId, step_id: Id, seconds_into_video: Seconds },
    VideoCompleted { student_id: EntityId, lesson_id: EntityId, step_id: Id },
    QuestionAnswered { student_id: EntityId, lesson_id: EntityId, step_id: Id, answer: Answer },
}

impl StudentEvent {
    /// The stable name under which this event variant is persisted.
    pub open spec fn spec_event_type(&self) -> Seq<char> {
        match self {
            StudentEvent::StudentCreated { .. } => "StudentCreated"@,
            StudentEvent::LessonStarted { .. } => "LessonStarted"@,
            StudentEvent::VideoBookmarked { .. } => "VideoBookmarked"@,
            StudentEvent::VideoCompleted { .. } => "VideoCompleted"@,
            StudentEvent::QuestionAnswered { .. } => "QuestionAnswered"@,
        }
    }

    pub fn event_type(&self) -> (r: String)
        ensures
            r@ == self.spec_event_type(),
    {
        match self {
            StudentEvent::StudentCreated { .. } => "StudentCreated".to_string(),
            StudentEvent::LessonStarted { .. } => "LessonStarted".to_string(),
            StudentEvent::VideoBookmarked { .. } => "VideoBookmarked".to_string(),
            StudentEvent::VideoCompleted { .. } => "VideoCompleted".to_string(),
            StudentEvent::QuestionAnswered { .. } => "QuestionAnswered".to_string(),
        }
    }

    /// The schema-version tag carried in every persisted event envelope.
    pub fn event_version(&self) -> (r: String)
        ensures
            r@ == "1.0"@,
    {
        "1.0".to_string()
    }
}

/// Why a command was rejected. On any error, zero events are produced.
#[derive(Debug, Clone, PartialEq)]
pub enum StudentError {
    /// The lesson lookup did not know the requested lesson.
    NotFound,
    /// The lesson lookup was reachable but failed for an infrastructure
    /// reason, wrapped here rather than leaked.
    LookupFailed,
    /// Any other decision failure, with its reason.
    Rejected(String),
}

impl StudentError {
    /// A human-readable description of the error.
    pub open spec fn spec_message(&self) -> Seq<char> {
        match self {
            StudentError::NotFound => "lesson not found"@,
            StudentError::LookupFailed => "lesson lookup failed"@,
            StudentError::Rejected(m) => m@,
        }
    }

    pub fn message(&self) -> (r: String)
        ensures
            r@ == self.spec_message(),
    {
        match self {
            StudentError::NotFound => "lesson not found".to_string(),
            StudentError::LookupFailed => "lesson lookup failed".to_string(),
            StudentError::Rejected(m) => m.clone(),
        }
    }

    /// Builds the catch-all error from a reason.
    pub fn rejected(msg: &str) -> (r: Self)
        ensures
            r matches StudentError::Rejected(m) && m@ == msg@,
    {
        StudentError::Rejected(msg.to_string())
    }
}

} // verus!
