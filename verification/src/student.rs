use vstd::prelude::*;
use crate::commands::StudentCommand;
use crate::events::{StudentError, StudentEvent};
use crate::lesson::Lesson;
use crate::services::{StudentApi, StudentServices};
use crate::types::EntityId;

verus! {

broadcast use vstd::string::to_string_from_display_ensures_for_str;

/// The aggregate state for one student, reconstructed by folding the ordered
/// event history. `id` stays at the nil sentinel 0 until a `StudentCreated`
/// event has been applied.
#[derive(Debug, Clone)]
pub struct Student {
    pub id: EntityId,
    pub name: String,
    pub touched_lessons: Vec<Lesson>,
}

/// The mathematical value of a `Student`.
#[verifier::ext_equal]
pub struct StudentView {
    pub id: EntityId,
    pub name: Seq<char>,
    pub touched_lessons: Seq<Lesson>,
}

impl View for Student {
    type V = StudentView;

    open spec fn view(&self) -> StudentView {
        StudentView {
            id: self.id,
            name: self.name@,
            touched_lessons: self.touched_lessons@,
        }
    }
}

/// The all-default state before any event: nil id, empty name, no lessons.
pub open spec fn initial_state() -> StudentView {
    StudentView { id: 0, name: Seq::empty(), touched_lessons: Seq::empty() }
}

/// Advances a state by one event. Pure and total: every event variant is
/// accepted and none can fail. `StudentCreated` sets the id (the name is
/// deliberately not persisted into state — an extension seam), and
/// `LessonStarted` appends the embedded snapshot without de-duplication; the
/// remaining variants are no-ops on state in this scope.
pub open spec fn spec_apply(s: StudentView, event: StudentEvent) -> StudentView {
    match event {
        StudentEvent::StudentCreated { student_id, name: _ } => StudentView {
            id: student_id,
            name: s.name,
            touched_lessons: s.touched_lessons,
        },
        StudentEvent::LessonStarted { student_id: _, lesson } => StudentView {
            id: s.id,
            name: s.name,
            touched_lessons: s.touched_lessons.push(lesson),
        },
        StudentEvent::VideoBookmarked { .. } => s,
        StudentEvent::VideoCompleted { .. } => s,
        StudentEvent::QuestionAnswered { .. } => s,
    }
}

/// Folds an ordered event history onto a state, front to back.
pub open spec fn spec_fold(s: StudentView, history: Seq<StudentEvent>) -> StudentView
    decreases history.len(),
{
    if history.len() == 0 {
        s
    } else {
        spec_fold(spec_apply(s, history[0]), history.drop_first())
    }
}

/// What starting a lesson decides, given the lookup's answer: on success one
/// `LessonStarted` event embedding the full snapshot, on any lookup failure
/// the `NotFound` error and no events.
pub open spec fn spec_start_lesson(
    student_id: EntityId,
    lookup: Result<Lesson, StudentError>,
) -> Result<Seq<StudentEvent>, StudentError> {
    match lookup {
        Ok(lesson) => Ok(seq![StudentEvent::LessonStarted { student_id, lesson }]),
        Err(_) => Err(StudentError::NotFound),
    }
}

/// The decision function: which events a command produces, or why it is
/// rejected. Only `StartLesson` consults the lesson lookup; every other
/// command always succeeds with exactly one event whose fields are copied
/// verbatim from the command. No check is made that the student already
/// exists, nor that a step id exists within the lesson — the documented
/// pass-through contract.
pub open spec fn spec_handle(
    command: StudentCommand,
    lookup: Result<Lesson, StudentError>,
) -> Result<Seq<StudentEvent>, StudentError> {
    match command {
        StudentCommand::CreateStudent { student_id, name } => Ok(
            seq![StudentEvent::StudentCreated { student_id, name }],
        ),
        StudentCommand::StartLesson { student_id, lesson_id: _ } => spec_start_lesson(
            student_id,
            lookup,
        ),
        StudentCommand::BookmarkVideo { student_id, lesson_id, step_id, seconds_into_video } => Ok(
            seq![StudentEvent::VideoBookmarked { student_id, lesson_id, step_id, seconds_into_video }],
        ),
        StudentCommand::CompleteVideo { student_id, lesson_id, step_id } => Ok(
            seq![StudentEvent::VideoCompleted { student_id, lesson_id, step_id }],
        ),
        StudentCommand::AnswerQuestion { student_id, lesson_id, step_id, answer } => Ok(
            seq![StudentEvent::QuestionAnswered { student_id, lesson_id, step_id, answer }],
        ),
    }
}

/// The lesson the command asks the lookup about; only `StartLesson` does,
/// so every other command maps to the nil id, which the decision ignores.
pub open spec fn command_lesson_id(command: StudentCommand) -> EntityId {
    match command {
        StudentCommand::StartLesson { lesson_id, .. } => lesson_id,
        _ => 0,
    }
}

/// Relates an executable decision result to the decided value: the same
/// error, or a vector holding exactly the decided event sequence.
pub open spec fn decision_matches(
    r: Result<Vec<StudentEvent>, StudentError>,
    expected: Result<Seq<StudentEvent>, StudentError>,
) -> bool {
    match expected {
        Ok(events) => r matches Ok(v) && v@ == events,
        Err(e) => r matches Err(a) && a == e,
    }
}

impl Student {
    /// The stable kind tag under which this aggregate's events are stored.
    pub fn aggregate_type() -> (r: String)
        ensures
            r@ == "student"@,
    {
        "student".to_string()
    }

    /// Decides a command against this state with the injected capabilities:
    /// either the full event batch is produced or none of it is.
    pub fn handle<A: StudentApi>(
        &self,
        command: StudentCommand,
        services: &mut StudentServices<A>,
    ) -> (r: Result<Vec<StudentEvent>, StudentError>)
        ensures
            decision_matches(
                r,
                spec_handle(command, old(services).services.lookup(command_lesson_id(command))),
            ),
            !(command is StartLesson) ==> *final(services) == *old(services),
    {
        match command {
            StudentCommand::CreateStudent { student_id, name } => {
                let ghost ev = StudentEvent::StudentCreated { student_id, name };
                let mut events: Vec<StudentEvent> = Vec::new();
                events.push(StudentEvent::StudentCreated { student_id, name });
                proof {
                    assert(events@ =~= seq![ev]);
                }
                Ok(events)
            },
            StudentCommand::StartLesson { student_id, lesson_id } => {
                Self::with_lesson(services, student_id, lesson_id)
            },
            StudentCommand::BookmarkVideo { student_id, lesson_id, step_id, seconds_into_video } => {
                let ghost ev = StudentEvent::VideoBookmarked {
                    student_id,
                    lesson_id,
                    step_id,
                    seconds_into_video,
                };
                let mut events: Vec<StudentEvent> = Vec::new();
                events.push(
                    StudentEvent::VideoBookmarked { student_id, lesson_id, step_id, seconds_into_video },
                );
                proof {
                    assert(events@ =~= seq![ev]);
                }
                Ok(events)
            },
            StudentCommand::CompleteVideo { student_id, lesson_id, step_id } => {
                let ghost ev = StudentEvent::VideoCompleted { student_id, lesson_id, step_id };
                let mut events: Vec<StudentEvent> = Vec::new();
                events.push(StudentEvent::VideoCompleted { student_id, lesson_id, step_id });
                proof {
                    assert(events@ =~= seq![ev]);
                }
                Ok(events)
            },
            StudentCommand::AnswerQuestion { student_id, lesson_id, step_id, answer } => {
                let ghost ev = StudentEvent::QuestionAnswered {
                    student_id,
                    lesson_id,
                    step_id,
                    answer,
                };
                let mut events: Vec<StudentEvent> = Vec::new();
                events.push(
                    StudentEvent::QuestionAnswered { student_id, lesson_id, step_id, answer },
                );
                proof {
                    assert(events@ =~= seq![ev]);
                }
                Ok(events)
            },
        }
    }

    /// Fetches the lesson snapshot and, on success, builds the single
    /// `LessonStarted` event from it; any lookup failure becomes `NotFound`.
    fn with_lesson<A: StudentApi>(
        services: &mut StudentServices<A>,
        student_id: EntityId,
        lesson_id: EntityId,
    ) -> (r: Result<Vec<StudentEvent>, StudentError>)
        ensures
            decision_matches(
                r,
                spec_start_lesson(student_id, old(services).services.lookup(lesson_id)),
            ),
    {
        match services.services.find_lesson(lesson_id) {
            Ok(lesson) => {
                let ghost ev = StudentEvent::LessonStarted { student_id, lesson };
                let mut events: Vec<StudentEvent> = Vec::new();
                events.push(StudentEvent::LessonStarted { student_id, lesson });
                proof {
                    assert(events@ =~= seq![ev]);
                }
                Ok(events)
            },
            Err(_) => Err(StudentError::NotFound),
        }
    }

    /// Advances this state by one event; total over the closed event set and
    /// never fails, so any prefix of history folds gracefully.
    pub fn apply(&mut self, event: StudentEvent)
        ensures
            final(self)@ == spec_apply(old(self)@, event),
    {
        let ghost ev = event;
        match event {
            StudentEvent::StudentCreated { student_id, name: _ } => {
                self.id = student_id;
            },
            StudentEvent::LessonStarted { student_id: _, lesson } => {
                self.touched_lessons.push(lesson);
            },
            StudentEvent::VideoBookmarked { .. } => {},
            StudentEvent::VideoCompleted { .. } => {},
            StudentEvent::QuestionAnswered { .. } => {},
        }
        proof {
            assert(self@ =~= spec_apply(old(self)@, ev));
        }
    }
}

impl Default for Student {
    /// The fresh state every decision call starts from: nil id, empty name,
    /// no touched lessons.
    fn default() -> (r: Self)
        ensures
            r@ == initial_state(),
    {
        let r = Student { id: 0, name: String::new(), touched_lessons: Vec::new() };
        proof {
            assert(r@ =~= initial_state());
        }
        r
    }
}

/// Determinism of replay: folding a history in one pass equals folding it in
/// two passes after splitting it at any point.
pub proof fn lemma_fold_split(s: StudentView, history: Seq<StudentEvent>, at: int)
    requires
        0 <= at <= history.len(),
    ensures
        spec_fold(s, history) == spec_fold(spec_fold(s, history.take(at)), history.skip(at)),
    decreases at,
{
    if at == 0 {
        assert(history.take(0) =~= Seq::<StudentEvent>::empty());
        assert(history.skip(0) =~= history);
    } else {
        lemma_fold_split(spec_apply(s, history[0]), history.drop_first(), at - 1);
        assert(history.take(at).drop_first() =~= history.drop_first().take(at - 1));
        assert(history.skip(at) =~= history.drop_first().skip(at - 1));
        assert(history.take(at)[0] == history[0]);
    }
}

/// Atomicity of decisions: for every command and every lookup answer, the
/// decision is either a batch of exactly one event or an error with no
/// events — never both.
pub proof fn lemma_decision_atomic(command: StudentCommand, lookup: Result<Lesson, StudentError>)
    ensures
        spec_handle(command, lookup) matches Ok(events) ==> events.len() == 1,
{
}

/// The pass-through law: for the bookmark, complete and answer commands the
/// single emitted event's fields equal the command's fields exactly, for any
/// step and lesson ids and whatever the lookup would have answered.
pub proof fn lemma_pass_through(command: StudentCommand, lookup: Result<Lesson, StudentError>)
    ensures
        (command matches StudentCommand::BookmarkVideo {
            student_id,
            lesson_id,
            step_id,
            seconds_into_video,
        } ==> spec_handle(command, lookup) == Ok::<_, StudentError>(
            seq![StudentEvent::VideoBookmarked { student_id, lesson_id, step_id, seconds_into_video }],
        )),
        (command matches StudentCommand::CompleteVideo {
            student_id,
            lesson_id,
            step_id,
        } ==> spec_handle(command, lookup) == Ok::<_, StudentError>(
            seq![StudentEvent::VideoCompleted { student_id, lesson_id, step_id }],
        )),
        (command matches StudentCommand::AnswerQuestion {
            student_id,
            lesson_id,
            step_id,
            answer,
        } ==> spec_handle(command, lookup) == Ok::<_, StudentError>(
            seq![StudentEvent::QuestionAnswered { student_id, lesson_id, step_id, answer }],
        )),
{
}

} // verus!
