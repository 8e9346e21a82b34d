use vstd::prelude::*;

verus! {

/// Identifier of a step within a lesson.
pub type Id = i32;

/// Identifier of an aggregate or entity; 0 is the nil sentinel meaning "unset".
pub type EntityId = u128;

/// A position inside a video, in seconds.
pub type Seconds = i32;

/// A saved position inside a video step.
#[allow(dead_code)]
pub struct Bookmark {
    seconds_into_video: Seconds,
}

/// A student's response to a question step; structurally empty for now, to be
/// extended with the submitted choice.
#[derive(Debug, Clone, PartialEq)]
pub struct Answer {}

} // verus!
