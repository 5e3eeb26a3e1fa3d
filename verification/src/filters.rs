//! Caller-supplied filter objects.  Every field is optional; an omitted
//! field places no additional restriction on the listing.

use vstd::prelude::*;

verus! {

/// Filters of the assessment listing.  `due` set to true keeps only
/// assessments whose due date is today or later.
pub struct AssessmentFilter {
    pub subject_id: Option<u64>,
    pub task: Option<String>,
    pub due: Option<bool>,
}

/// Filters of the grade listing.
pub struct GradeFilter {
    pub subject_id: Option<u64>,
    pub student_id: Option<u64>,
    pub description: Option<String>,
}

/// Filters of the broadcast-message listing.
pub struct MessageFilter {
    pub sender_id: Option<u64>,
    pub title: Option<String>,
    pub course_id: Option<u64>,
}

/// Filters of the timetable listing.
pub struct TimetableFilter {
    pub teacher_id: Option<u64>,
    pub course_id: Option<u64>,
    pub subject_id: Option<u64>,
    pub day: Option<String>,
}

/// Filters of the subject listing.
pub struct SubjectFilter {
    pub teacher_id: Option<u64>,
    pub course_id: Option<u64>,
    pub name: Option<String>,
    pub subject_id: Option<u64>,
}

/// Filters of the subject-message listing.
pub struct SubjectMessageFilter {
    pub subject_message_id: Option<u64>,
    pub sender_id: Option<u64>,
    pub subject_id: Option<u64>,
}

/// Filters of the student listing and the person search.
pub struct UserFilter {
    pub course: Option<u64>,
    pub name: Option<String>,
    pub user_id: Option<u64>,
}

/// Filter of the quiz listings: restrict to the quiz of one assessment.
pub struct SelfassessableFilter {
    pub assessment_id: Option<u64>,
}

/// Filters of the attendance listing.
pub struct AssistanceFilter {
    pub assistance_id: Option<u64>,
    pub student_id: Option<u64>,
    pub presence: Option<String>,
    pub date: Option<u64>,
}

/// Filters of the sanction listing.
pub struct DisciplinarySanctionFilter {
    pub disciplinary_sanction_id: Option<u64>,
    pub student_id: Option<u64>,
    pub sanction_type: Option<String>,
}

} // verus!
