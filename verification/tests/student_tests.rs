use student_progress::commands::StudentCommand;
use student_progress::events::{StudentError, StudentEvent};
use student_progress::harness::{replay, run_scenario};
use student_progress::lesson::{Lesson, LessonStep, Step};
use student_progress::services::{HappyPathStudentServices, StudentApi, StudentServices};
use student_progress::student::Student;
use student_progress::types::Answer;

const STUDENT: u128 = 0x0123_4567_89ab_cdef;
const LESSON: u128 = 0xfeed_face_cafe_beef;

#[test]
fn should_publish_event_on_create_student() {
    let student_id = STUDENT;
    let name = "James Doe".to_string();

    let expected_event = StudentEvent::StudentCreated { student_id, name: name.clone() };
    let command = StudentCommand::CreateStudent { student_id, name: name.clone() };
    let mut services = StudentServices::new(HappyPathStudentServices::new());

    let events = run_scenario(Vec::new(), command, &mut services).unwrap();
    assert_eq!(events, vec![expected_event]);
}

#[test]
fn should_publish_event_on_start_existing_lesson_that_has_not_been_started() {
    let student_id = STUDENT;
    let name = "James Doe".to_string();

    let previous = StudentEvent::StudentCreated { student_id, name: name.clone() };

    let lesson_id = LESSON;
    let lesson = Lesson::new(lesson_id, "Lesson 1".to_string());

    let expected_event = StudentEvent::LessonStarted { student_id, lesson: lesson.clone() };
    let command = StudentCommand::StartLesson { student_id, lesson_id };
    let mut mock_services = HappyPathStudentServices::new();
    mock_services.set_lesson_response(Ok(lesson.clone()));
    let mut services = StudentServices::new(mock_services);

    let events = run_scenario(vec![previous], command, &mut services).unwrap();
    assert_eq!(events, vec![expected_event]);
}

#[test]
fn start_lesson_with_failing_lookup_is_rejected_with_not_found() {
    let previous = StudentEvent::StudentCreated { student_id: STUDENT, name: "James Doe".to_string() };
    let command = StudentCommand::StartLesson { student_id: STUDENT, lesson_id: LESSON };
    let mut mock_services = HappyPathStudentServices::new();
    mock_services.set_lesson_response(Err(StudentError::NotFound));
    let mut services = StudentServices::new(mock_services);

    let result = run_scenario(vec![previous], command, &mut services);
    assert_eq!(result, Err(StudentError::NotFound));
}

#[test]
fn create_student_twice_yields_a_second_created_event() {
    let name = "James Doe".to_string();
    let previous = StudentEvent::StudentCreated { student_id: STUDENT, name: name.clone() };
    let command = StudentCommand::CreateStudent { student_id: STUDENT, name: name.clone() };
    let mut services = StudentServices::new(HappyPathStudentServices::new());

    let events = run_scenario(vec![previous], command, &mut services).unwrap();
    assert_eq!(events, vec![StudentEvent::StudentCreated { student_id: STUDENT, name }]);
}

#[test]
fn replay_keeps_duplicate_started_lessons() {
    let lesson = Lesson::new(LESSON, "Lesson A".to_string());
    let history = vec![
        StudentEvent::StudentCreated { student_id: STUDENT, name: "James Doe".to_string() },
        StudentEvent::LessonStarted { student_id: STUDENT, lesson: lesson.clone() },
        StudentEvent::LessonStarted { student_id: STUDENT, lesson: lesson.clone() },
    ];

    let state = replay(history);
    assert_eq!(state.id, STUDENT);
    assert_eq!(state.touched_lessons, vec![lesson.clone(), lesson]);
}

#[test]
fn folding_history_in_two_passes_matches_one_pass() {
    let lesson = Lesson::new(LESSON, "Lesson A".to_string());
    let history = vec![
        StudentEvent::StudentCreated { student_id: STUDENT, name: "James Doe".to_string() },
        StudentEvent::LessonStarted { student_id: STUDENT, lesson: lesson.clone() },
        StudentEvent::VideoCompleted { student_id: STUDENT, lesson_id: LESSON, step_id: 1 },
    ];

    let once = replay(history.clone());
    let mut twice = replay(vec![history[0].clone()]);
    twice.apply(history[1].clone());
    twice.apply(history[2].clone());

    assert_eq!(once.id, twice.id);
    assert_eq!(once.name, twice.name);
    assert_eq!(once.touched_lessons, twice.touched_lessons);
}

#[test]
fn bookmark_video_event_copies_command_fields() {
    let command = StudentCommand::BookmarkVideo {
        student_id: STUDENT,
        lesson_id: LESSON,
        step_id: 3,
        seconds_into_video: 42,
    };
    let state = Student::default();
    let mut services = StudentServices::new(HappyPathStudentServices::new());

    let events = state.handle(command, &mut services).unwrap();
    assert_eq!(
        events,
        vec![StudentEvent::VideoBookmarked {
            student_id: STUDENT,
            lesson_id: LESSON,
            step_id: 3,
            seconds_into_video: 42,
        }]
    );
}

#[test]
fn complete_video_event_copies_command_fields() {
    let command = StudentCommand::CompleteVideo { student_id: STUDENT, lesson_id: LESSON, step_id: 5 };
    let state = Student::default();
    let mut services = StudentServices::new(HappyPathStudentServices::new());

    let events = state.handle(command, &mut services).unwrap();
    assert_eq!(
        events,
        vec![StudentEvent::VideoCompleted { student_id: STUDENT, lesson_id: LESSON, step_id: 5 }]
    );
}

#[test]
fn answer_question_event_copies_command_fields() {
    let command = StudentCommand::AnswerQuestion {
        student_id: STUDENT,
        lesson_id: LESSON,
        step_id: 7,
        answer: Answer {},
    };
    let state = Student::default();
    let mut services = StudentServices::new(HappyPathStudentServices::new());

    let events = state.handle(command, &mut services).unwrap();
    assert_eq!(
        events,
        vec![StudentEvent::QuestionAnswered {
            student_id: STUDENT,
            lesson_id: LESSON,
            step_id: 7,
            answer: Answer {},
        }]
    );
}

#[test]
fn every_accepted_command_produces_exactly_one_event() {
    let state = Student::default();
    let lesson = Lesson::new(LESSON, "Lesson 1".to_string());

    let commands = vec![
        StudentCommand::CreateStudent { student_id: STUDENT, name: "James Doe".to_string() },
        StudentCommand::StartLesson { student_id: STUDENT, lesson_id: LESSON },
        StudentCommand::BookmarkVideo {
            student_id: STUDENT,
            lesson_id: LESSON,
            step_id: 1,
            seconds_into_video: 9,
        },
        StudentCommand::CompleteVideo { student_id: STUDENT, lesson_id: LESSON, step_id: 1 },
        StudentCommand::AnswerQuestion {
            student_id: STUDENT,
            lesson_id: LESSON,
            step_id: 2,
            answer: Answer {},
        },
    ];

    for command in commands {
        let mut stub = HappyPathStudentServices::new();
        stub.set_lesson_response(Ok(lesson.clone()));
        let mut services = StudentServices::new(stub);
        let events = state.handle(command, &mut services).unwrap();
        assert_eq!(events.len(), 1);
    }
}

#[test]
fn event_names_and_versions_are_stable() {
    let lesson = Lesson::new(LESSON, "Lesson 1".to_string());
    let created = StudentEvent::StudentCreated { student_id: STUDENT, name: "James Doe".to_string() };
    let started = StudentEvent::LessonStarted { student_id: STUDENT, lesson };
    let bookmarked = StudentEvent::VideoBookmarked {
        student_id: STUDENT,
        lesson_id: LESSON,
        step_id: 1,
        seconds_into_video: 2,
    };
    let completed = StudentEvent::VideoCompleted { student_id: STUDENT, lesson_id: LESSON, step_id: 1 };
    let answered = StudentEvent::QuestionAnswered {
        student_id: STUDENT,
        lesson_id: LESSON,
        step_id: 1,
        answer: Answer {},
    };

    assert_eq!(created.event_type(), "StudentCreated");
    assert_eq!(started.event_type(), "LessonStarted");
    assert_eq!(bookmarked.event_type(), "VideoBookmarked");
    assert_eq!(completed.event_type(), "VideoCompleted");
    assert_eq!(answered.event_type(), "QuestionAnswered");

    assert_eq!(created.event_version(), "1.0");
    assert_eq!(answered.event_version(), "1.0");
}

#[test]
fn error_messages_describe_each_variant() {
    assert_eq!(StudentError::NotFound.message(), "lesson not found");
    assert_eq!(StudentError::LookupFailed.message(), "lesson lookup failed");

    let rejected = StudentError::rejected("no seats left");
    assert_eq!(rejected, StudentError::Rejected("no seats left".to_string()));
    assert_eq!(rejected.message(), "no seats left");
}

#[test]
fn programmed_lookup_response_is_single_shot() {
    let lesson = Lesson::new(LESSON, "Lesson 1".to_string());
    let mut stub = HappyPathStudentServices::new();

    assert_eq!(stub.find_lesson(LESSON), Err(StudentError::LookupFailed));

    stub.set_lesson_response(Ok(lesson.clone()));
    assert_eq!(stub.find_lesson(LESSON), Ok(lesson));
    assert_eq!(stub.find_lesson(LESSON), Err(StudentError::LookupFailed));
}

#[test]
fn steps_carry_their_ids() {
    let video = Step::new_video(1, "https://example.test/intro".to_string());
    let question = Step::new_question(2, "Why event sourcing?".to_string());

    assert_eq!(video.id(), 1);
    assert_eq!(question.id(), 2);
    assert_eq!(video, Step::Video { id: 1, url: "https://example.test/intro".to_string() });
    assert_eq!(
        question,
        Step::Question { id: 2, question: "Why event sourcing?".to_string() }
    );
}

#[test]
fn new_lesson_has_no_steps() {
    let lesson = Lesson::new(LESSON, "Lesson 1".to_string());
    assert_eq!(lesson.id, LESSON);
    assert_eq!(lesson.name, "Lesson 1");
    assert!(lesson.steps.is_empty());
}

#[test]
fn default_student_is_the_nil_state() {
    let state = Student::default();
    assert_eq!(state.id, 0);
    assert_eq!(state.name, "");
    assert!(state.touched_lessons.is_empty());
    assert_eq!(Student::aggregate_type(), "student");
}

#[test]
fn created_event_sets_id_but_not_name() {
    let state = replay(vec![StudentEvent::StudentCreated {
        student_id: STUDENT,
        name: "James Doe".to_string(),
    }]);
    assert_eq!(state.id, STUDENT);
    assert_eq!(state.name, "");
    assert!(state.touched_lessons.is_empty());
}

#[test]
fn replay_tolerates_history_without_a_created_event() {
    let lesson = Lesson::new(LESSON, "Lesson 1".to_string());
    let state = replay(vec![StudentEvent::LessonStarted {
        student_id: STUDENT,
        lesson: lesson.clone(),
    }]);
    assert_eq!(state.id, 0);
    assert_eq!(state.touched_lessons, vec![lesson]);
}

#[test]
fn progress_events_do_not_change_state() {
    let mut state = replay(vec![StudentEvent::StudentCreated {
        student_id: STUDENT,
        name: "James Doe".to_string(),
    }]);

    state.apply(StudentEvent::VideoBookmarked {
        student_id: STUDENT,
        lesson_id: LESSON,
        step_id: 1,
        seconds_into_video: 30,
    });
    state.apply(StudentEvent::VideoCompleted { student_id: STUDENT, lesson_id: LESSON, step_id: 1 });
    state.apply(StudentEvent::QuestionAnswered {
        student_id: STUDENT,
        lesson_id: LESSON,
        step_id: 2,
        answer: Answer {},
    });

    assert_eq!(state.id, STUDENT);
    assert_eq!(state.name, "");
    assert!(state.touched_lessons.is_empty());
}
