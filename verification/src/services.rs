use vstd::prelude::*;
use crate::events::StudentError;
use crate::lesson::Lesson;
use crate::types::EntityId;

verus! {

/// The capability port the decision function may call: an injected lesson
/// lookup. Implementations must translate any transport failure into a
/// domain error (`NotFound` or `LookupFailed`), never leak a raw one.
pub trait StudentApi: Sized {
    /// What the next lookup of `lesson_id` will answer.
    spec fn lookup(&self, lesson_id: EntityId) -> Result<Lesson, StudentError>;

    fn find_lesson(&mut self, lesson_id: EntityId) -> (r: Result<Lesson, StudentError>)
        ensures
            r == old(self).lookup(lesson_id),
    ;
}

/// The bundle of external capabilities handed to each decision call.
pub struct StudentServices<A: StudentApi> {
    pub services: A,
}

impl<A: StudentApi> StudentServices<A> {
    pub fn new(services: A) -> (r: Self)
        ensures
            r.services == services,
    {
        Self { services }
    }
}

/// A per-scenario lesson lookup holding one programmed response: the answer
/// is consumed by the first `find_lesson` call, and an unprogrammed lookup
/// fails with `LookupFailed`.
pub struct HappyPathStudentServices {
    pub lesson_response: Option<Result<Lesson, StudentError>>,
}

impl HappyPathStudentServices {
    /// A fresh stub with no response programmed yet.
    pub fn new() -> (r: Self)
        ensures
            r.lesson_response is None,
    {
        Self { lesson_response: None }
    }

    /// Programs the single response the next lookup will return.
    pub fn set_lesson_response(&mut self, response: Result<Lesson, StudentError>)
        ensures
            final(self).lesson_response == Some(response),
    {
        self.lesson_response = Some(response);
    }
}

impl StudentApi for HappyPathStudentServices {
    open spec fn lookup(&self, lesson_id: EntityId) -> Result<Lesson, StudentError> {
        match self.lesson_response {
            Some(r) => r,
            None => Err(StudentError::LookupFailed),
        }
    }

    fn find_lesson(&mut self, lesson_id: EntityId) -> (r: Result<Lesson, StudentError>)
        ensures
            final(self).lesson_response is None,
    {
        match self.lesson_response.take() {
            Some(response) => response,
            None => Err(StudentError::LookupFailed),
        }
    }
}

} // verus!
