use vstd::prelude::*;

verus! {

/// Where the day's work stands.
#[derive(PartialEq, Eq, Structural, Clone, Copy, Debug)]
pub enum WorkStatus {
    /// The block is not engaged yet: confirming engages it.
    Check,
    /// The block is engaged: confirming starts (or resumes) the session.
    Start,
    /// A session runs until its quota is met.
    Working,
    /// Reserved for a pause; no transition enters it.
    Break,
    /// The quota was met today.
    Complete,
    /// Today is a day off.
    Weekend,
}

/// The status that a launch begins in: a weekend wins over a completion
/// today, which wins over what the detox flag and a recorded start give.
pub open spec fn initial_status(
    detox: bool,
    has_start: bool,
    completed_today: bool,
    weekend: bool,
) -> WorkStatus {
    if weekend {
        WorkStatus::Weekend
    } else if completed_today {
        WorkStatus::Complete
    } else if detox {
        if has_start {
            WorkStatus::Working
        } else {
            WorkStatus::Start
        }
    } else {
        WorkStatus::Check
    }
}

/// Computes the status that a launch begins in from the three conditions.
pub fn starting_status(detox: bool, has_start: bool, completed_today: bool, weekend: bool) -> (r:
    WorkStatus)
    ensures
        r == initial_status(detox, has_start, completed_today, weekend),
{
    let mut status = if detox {
        if has_start {
            WorkStatus::Working
        } else {
            WorkStatus::Start
        }
    } else {
        WorkStatus::Check
    };
    if completed_today {
        status = WorkStatus::Complete;
    }
    if weekend {
        status = WorkStatus::Weekend;
    }
    status
}

/// Precedence of the overrides: on a weekend the status is `Weekend`
/// whatever else holds; otherwise a completion today gives `Complete`
/// whatever the detox flag says; only when neither holds does the flag
/// decide.
pub proof fn lemma_override_precedence(detox: bool, has_start: bool, completed_today: bool, weekend: bool)
    ensures
        weekend ==> initial_status(detox, has_start, completed_today, weekend)
            == WorkStatus::Weekend,
        !weekend && completed_today ==> initial_status(detox, has_start, completed_today, weekend)
            == WorkStatus::Complete,
        !weekend && !completed_today && detox && has_start ==> initial_status(
            detox,
            has_start,
            completed_today,
            weekend,
        ) == WorkStatus::Working,
        !weekend && !completed_today && detox && !has_start ==> initial_status(
            detox,
            has_start,
            completed_today,
            weekend,
        ) == WorkStatus::Start,
        !weekend && !completed_today && !detox ==> initial_status(
            detox,
            has_start,
            completed_today,
            weekend,
        ) == WorkStatus::Check,
{
}

} // verus!
