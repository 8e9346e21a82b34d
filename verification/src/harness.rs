use vstd::prelude::*;
use crate::commands::StudentCommand;
use crate::events::{StudentError, StudentEvent};
use crate::services::{StudentApi, StudentServices};
use crate::student::{
    command_lesson_id, decision_matches, initial_state, spec_fold, spec_handle, Student,
};

verus! {

/// Given/when/then support: replay a given history into a state, submit one
/// command against it, and hand back the produced events or error for the
/// caller to assert on. No persistence side effect is involved.

/// Reconstructs the current state by folding the full ordered event history
/// from the initial state.
pub fn replay(history: Vec<StudentEvent>) -> (s: Student)
    ensures
        s@ == spec_fold(initial_state(), history@),
{
    let ghost all = history@;
    let mut rest = history;
    let mut s = Student::default();
    while rest.len() > 0
        invariant
            spec_fold(initial_state(), all) == spec_fold(s@, rest@),
        decreases rest.len(),
    {
        let ghost pre = rest@;
        let event = rest.remove(0);
        proof {
            assert(pre.remove(0) =~= pre.drop_first());
        }
        s.apply(event);
    }
    s
}

/// Runs one scenario: folds the given history, submits the command to the
/// decision function together with the programmed capability port, and
/// returns what was decided. A rejected command leaves no trace: the decided
/// state transition happens only through the returned events.
pub fn run_scenario<A: StudentApi>(
    given: Vec<StudentEvent>,
    command: StudentCommand,
    services: &mut StudentServices<A>,
) -> (r: Result<Vec<StudentEvent>, StudentError>)
    ensures
        decision_matches(
            r,
            spec_handle(command, old(services).services.lookup(command_lesson_id(command))),
        ),
{
    let state = replay(given);
    state.handle(command, services)
}

} // verus!
