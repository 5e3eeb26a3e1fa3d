//! Role-mandated visibility scopes and filter semantics.
//!
//! For every entity kind, `*_visible` says which rows an identity may read:
//! the intersection of the role's base scope with the caller-supplied
//! filters.  Numeric filters are exact matches; the `name`, `task` and
//! `title` filters are case-insensitive substring matches; filters can only
//! narrow a scope, never widen it.

use vstd::prelude::*;

use crate::filters::{
    AssessmentFilter, AssistanceFilter, DisciplinarySanctionFilter, GradeFilter, MessageFilter,
    SubjectFilter, SubjectMessageFilter, TimetableFilter, UserFilter,
};
use crate::school::{
    course_idx, course_of_user, linked_family, preceptor_presides, teacher_in_course,
    teacher_teaches, user_idx, School,
};
use crate::structs::{
    Assessment, Assistance, Course, DisciplinarySanction, Grade, Message, MySelf,
    PendingSelfassessableGrade, PersonalDataRow, Role, SelfassessableTask, SubjectMessage,
    SubjectRow, Timetable, UserRow,
};
use crate::text::ci_contains;

verus! {

/// A course row with this id exists.
pub open spec fn course_exists(db: School, course_id: u64) -> bool {
    exists|i: int| 0 <= i < db.courses@.len() && #[trigger] db.courses@[i].id == course_id
}

/// Some linked student of the father belongs to the course.
pub open spec fn father_has_student_in_course(db: School, father_id: u64, course_id: u64) -> bool {
    exists|i: int|
        0 <= i < db.users@.len() && #[trigger] db.users@[i].course_id == Some(course_id)
            && linked_family(db, father_id, db.users@[i].id)
}

/// The student with this id exists and belongs to a course the preceptor
/// presides over.
pub open spec fn student_under_preceptor(db: School, preceptor_id: u64, student_id: u64) -> bool {
    exists|i: int|
        0 <= i < db.users@.len() && #[trigger] db.users@[i].id == student_id && match db.users@[i].course_id {
            Some(c) => preceptor_presides(db, preceptor_id, c),
            None => false,
        }
}

/// A personal-data row of this account exists whose full name contains the
/// needle, case-insensitively.
pub open spec fn pd_name_contains(db: School, user_id: u64, needle: Seq<char>) -> bool {
    exists|i: int|
        0 <= i < db.personal_data@.len() && #[trigger] db.personal_data@[i].user_id == user_id
            && ci_contains(db.personal_data@[i].full_name@, needle)
}

/// Base scope of the student listing: which user rows the identity may see.
pub open spec fn user_row_in_scope(me: MySelf, db: School, u: UserRow) -> bool {
    match me.role {
        Role::admin => true,
        Role::teacher => match u.course_id {
            Some(c) => course_exists(db, c) && teacher_in_course(db, me.id, c),
            None => false,
        },
        Role::student => u.id == me.id,
        Role::preceptor => match u.course_id {
            Some(c) => preceptor_presides(db, me.id, c),
            None => false,
        },
        Role::father => linked_family(db, me.id, u.id),
    }
}

/// Filters of the student listing: course membership and person name.
pub open spec fn user_filter_matches(db: School, f: UserFilter, u: UserRow) -> bool {
    &&& match f.course {
        Some(c) => u.course_id == Some(c),
        None => true,
    }
    &&& match f.name {
        Some(n) => pd_name_contains(db, u.id, n@),
        None => true,
    }
}

/// A user row the identity may list, with the filters applied.
pub open spec fn user_row_visible(me: MySelf, db: School, f: UserFilter, u: UserRow) -> bool {
    user_row_in_scope(me, db, u) && user_filter_matches(db, f, u)
}

/// Which course rows the identity may list.
pub open spec fn course_visible(me: MySelf, db: School, c: Course) -> bool {
    match me.role {
        Role::admin => true,
        Role::student => course_of_user(db, me.id) == Some(c.id),
        Role::preceptor => c.preceptor_id == Some(me.id),
        Role::father => father_has_student_in_course(db, me.id, c.id),
        Role::teacher => teacher_in_course(db, me.id, c.id),
    }
}

/// Base scope of the grade listing.
pub open spec fn grade_in_scope(me: MySelf, db: School, g: Grade) -> bool {
    match me.role {
        Role::admin => true,
        Role::student => g.student_id == me.id,
        Role::teacher => teacher_teaches(db, me.id, g.subject_id),
        Role::father => linked_family(db, me.id, g.student_id),
        Role::preceptor => exists|i: int|
            0 <= i < db.subjects@.len() && #[trigger] db.subjects@[i].id == g.subject_id
                && preceptor_presides(db, me.id, db.subjects@[i].course_id),
    }
}

/// Filters of the grade listing: student, subject, and exact description.
pub open spec fn grade_filter_matches(f: GradeFilter, g: Grade) -> bool {
    &&& match f.student_id {
        Some(s) => g.student_id == s,
        None => true,
    }
    &&& match f.subject_id {
        Some(s) => g.subject_id == s,
        None => true,
    }
    &&& match f.description {
        Some(d) => match g.description {
            Some(gd) => gd@ == d@,
            None => false,
        },
        None => true,
    }
}

/// A grade the identity may list, with the filters applied.
pub open spec fn grade_visible(me: MySelf, db: School, f: GradeFilter, g: Grade) -> bool {
    grade_in_scope(me, db, g) && grade_filter_matches(f, g)
}

/// Role condition on one subject row for the subject listing.
pub open spec fn subject_row_in_scope(me: MySelf, db: School, s: SubjectRow) -> bool {
    match me.role {
        Role::teacher => s.teacher_id == me.id,
        Role::admin => true,
        Role::student => course_of_user(db, me.id) == Some(s.course_id),
        Role::preceptor => preceptor_presides(db, me.id, s.course_id),
        Role::father => father_has_student_in_course(db, me.id, s.course_id),
    }
}

/// Filters of the subject listing.
pub open spec fn subject_filter_matches(f: SubjectFilter, s: SubjectRow) -> bool {
    &&& match f.course_id {
        Some(c) => s.course_id == c,
        None => true,
    }
    &&& match f.name {
        Some(n) => ci_contains(s.name@, n@),
        None => true,
    }
    &&& match f.teacher_id {
        Some(t) => s.teacher_id == t,
        None => true,
    }
    &&& match f.subject_id {
        Some(i) => s.id == i,
        None => true,
    }
}

/// A subject row the identity may list: the role scope, the filters, and the
/// join to an existing course row whose name the listing returns.
pub open spec fn subject_row_visible(me: MySelf, db: School, f: SubjectFilter, s: SubjectRow) -> bool {
    subject_row_in_scope(me, db, s) && subject_filter_matches(f, s) && course_idx(db, s.course_id) is Some
}

/// Role condition on the subject row an assessment belongs to.
pub open spec fn assessment_subject_scope(me: MySelf, db: School, s: SubjectRow) -> bool {
    match me.role {
        Role::teacher => s.teacher_id == me.id,
        Role::admin => true,
        Role::student => course_of_user(db, me.id) == Some(s.course_id),
        Role::father => father_has_student_in_course(db, me.id, s.course_id),
        Role::preceptor => preceptor_presides(db, me.id, s.course_id),
    }
}

/// An assessment the identity may list, with both filter objects applied.
/// The subject join, the role scope and the subject filters all constrain
/// the same subject row.
pub open spec fn assessment_visible(
    me: MySelf,
    db: School,
    f: AssessmentFilter,
    sf: SubjectFilter,
    a: Assessment,
    today: u64,
) -> bool {
    &&& exists|i: int|
        0 <= i < db.subjects@.len() && #[trigger] db.subjects@[i].id == a.subject_id
            && assessment_subject_scope(me, db, db.subjects@[i]) && subject_filter_matches(
            sf,
            db.subjects@[i],
        )
    &&& match f.subject_id {
        Some(s) => a.subject_id == s,
        None => true,
    }
    &&& match f.task {
        Some(t) => ci_contains(a.task@, t@),
        None => true,
    }
    &&& match f.due {
        Some(true) => a.due_date >= today,
        _ => true,
    }
}

/// Role condition on one fan-out course of a broadcast message.
pub open spec fn message_course_ok(me: MySelf, db: School, course_id: u64) -> bool {
    match me.role {
        Role::admin => true,
        Role::student => course_of_user(db, me.id) == Some(course_id),
        Role::father => father_has_student_in_course(db, me.id, course_id),
        Role::teacher => teacher_in_course(db, me.id, course_id),
        Role::preceptor => preceptor_presides(db, me.id, course_id),
    }
}

/// Some fan-out row of the message reaches a course the role condition and
/// the course filter both accept.
pub open spec fn message_fanout_witness(me: MySelf, db: School, f: MessageFilter, m: Message) -> bool {
    exists|i: int|
        0 <= i < db.message_courses@.len() && #[trigger] db.message_courses@[i].message_id == m.id
            && message_course_ok(me, db, db.message_courses@[i].course_id) && match f.course_id {
            Some(c) => db.message_courses@[i].course_id == c,
            None => true,
        }
}

/// A broadcast message the identity may list, with the filters applied.
/// The administrator sees every message; any other role needs a fan-out row
/// that reaches it.
pub open spec fn message_visible(me: MySelf, db: School, f: MessageFilter, m: Message) -> bool {
    &&& match f.sender_id {
        Some(s) => m.sender_id == s,
        None => true,
    }
    &&& match f.title {
        Some(t) => ci_contains(m.title@, t@),
        None => true,
    }
    &&& match me.role {
        Role::admin => match f.course_id {
            Some(c) => exists|i: int|
                0 <= i < db.message_courses@.len() && #[trigger] db.message_courses@[i].message_id
                    == m.id && db.message_courses@[i].course_id == c,
            None => true,
        },
        _ => message_fanout_witness(me, db, f, m),
    }
}

/// Role condition on the subject row a subject message belongs to.
pub open spec fn subject_message_in_scope(me: MySelf, db: School, sm: SubjectMessage) -> bool {
    match me.role {
        Role::admin => true,
        Role::teacher => teacher_teaches(db, me.id, sm.subject_id),
        Role::student => exists|i: int|
            0 <= i < db.subjects@.len() && #[trigger] db.subjects@[i].id == sm.subject_id
                && course_of_user(db, me.id) == Some(db.subjects@[i].course_id),
        Role::preceptor => exists|i: int|
            0 <= i < db.subjects@.len() && #[trigger] db.subjects@[i].id == sm.subject_id
                && preceptor_presides(db, me.id, db.subjects@[i].course_id),
        Role::father => exists|i: int|
            0 <= i < db.subjects@.len() && #[trigger] db.subjects@[i].id == sm.subject_id
                && father_has_student_in_course(db, me.id, db.subjects@[i].course_id),
    }
}

/// Filters of the subject-message listing.
pub open spec fn subject_message_filter_matches(f: SubjectMessageFilter, sm: SubjectMessage) -> bool {
    &&& match f.subject_message_id {
        Some(i) => sm.id == i,
        None => true,
    }
    &&& match f.subject_id {
        Some(s) => sm.subject_id == s,
        None => true,
    }
    &&& match f.sender_id {
        Some(s) => sm.sender_id == s,
        None => true,
    }
}

/// A subject message the identity may list, with the filters applied.
pub open spec fn subject_message_visible(
    me: MySelf,
    db: School,
    f: SubjectMessageFilter,
    sm: SubjectMessage,
) -> bool {
    subject_message_in_scope(me, db, sm) && subject_message_filter_matches(f, sm)
}

/// Role condition on the subject row a timetable slot belongs to.
pub open spec fn timetable_subject_scope(me: MySelf, db: School, s: SubjectRow) -> bool {
    match me.role {
        Role::admin => true,
        Role::student => course_of_user(db, me.id) == Some(s.course_id),
        Role::preceptor => preceptor_presides(db, me.id, s.course_id),
        Role::teacher => s.teacher_id == me.id,
        Role::father => father_has_student_in_course(db, me.id, s.course_id),
    }
}

/// Filters of the timetable listing that constrain the joined subject row.
pub open spec fn timetable_subject_filters(f: TimetableFilter, s: SubjectRow) -> bool {
    &&& match f.subject_id {
        Some(i) => s.id == i,
        None => true,
    }
    &&& match f.teacher_id {
        Some(t) => s.teacher_id == t,
        None => true,
    }
    &&& match f.course_id {
        Some(c) => s.course_id == c,
        None => true,
    }
}

/// A timetable slot the identity may list: the joined subject row exists, it
/// satisfies the role scope and the subject-side filters, its course row
/// exists, and the day filter matches the slot itself.
pub open spec fn timetable_visible(me: MySelf, db: School, f: TimetableFilter, t: Timetable) -> bool {
    &&& exists|i: int|
        0 <= i < db.subjects@.len() && #[trigger] db.subjects@[i].id == t.subject_id
            && course_exists(db, db.subjects@[i].course_id) && timetable_subject_scope(
            me,
            db,
            db.subjects@[i],
        ) && timetable_subject_filters(f, db.subjects@[i])
    &&& match f.day {
        Some(d) => t.day@ == d@,
        None => true,
    }
}

/// Base scope of the attendance listing.  Teachers are denied attendance
/// records outright: their scope is empty whatever the filters say.
pub open spec fn assistance_in_scope(me: MySelf, db: School, a: Assistance) -> bool {
    match me.role {
        Role::student => a.student_id == me.id,
        Role::admin => true,
        Role::teacher => false,
        Role::father => linked_family(db, me.id, a.student_id),
        Role::preceptor => student_under_preceptor(db, me.id, a.student_id),
    }
}

/// Filters of the attendance listing.
pub open spec fn assistance_filter_matches(f: AssistanceFilter, a: Assistance) -> bool {
    &&& match f.assistance_id {
        Some(i) => a.id == i,
        None => true,
    }
    &&& match f.student_id {
        Some(s) => a.student_id == s,
        None => true,
    }
    &&& match f.presence {
        Some(p) => a.presence@ == p@,
        None => true,
    }
    &&& match f.date {
        Some(d) => a.date == d,
        None => true,
    }
}

/// An attendance row the identity may list, with the filters applied.
pub open spec fn assistance_visible(me: MySelf, db: School, f: AssistanceFilter, a: Assistance) -> bool {
    assistance_in_scope(me, db, a) && assistance_filter_matches(f, a)
}

/// Base scope of the sanction listing.  Teachers are denied sanction records
/// outright, as they are attendance records.
pub open spec fn sanction_in_scope(me: MySelf, db: School, d: DisciplinarySanction) -> bool {
    match me.role {
        Role::student => d.student_id == me.id,
        Role::admin => true,
        Role::teacher => false,
        Role::father => linked_family(db, me.id, d.student_id),
        Role::preceptor => student_under_preceptor(db, me.id, d.student_id),
    }
}

/// Filters of the sanction listing.
pub open spec fn sanction_filter_matches(f: DisciplinarySanctionFilter, d: DisciplinarySanction) -> bool {
    &&& match f.disciplinary_sanction_id {
        Some(i) => d.id == i,
        None => true,
    }
    &&& match f.student_id {
        Some(s) => d.student_id == s,
        None => true,
    }
    &&& match f.sanction_type {
        Some(t) => d.sanction_type@ == t@,
        None => true,
    }
}

/// A sanction row the identity may list, with the filters applied.
pub open spec fn sanction_visible(
    me: MySelf,
    db: School,
    f: DisciplinarySanctionFilter,
    d: DisciplinarySanction,
) -> bool {
    sanction_in_scope(me, db, d) && sanction_filter_matches(f, d)
}

/// The assessment with this id exists, is due exactly today, and belongs to
/// a subject of the student's course: the condition under which its quiz may
/// be fetched and answered.
pub open spec fn assessment_open_for_student(db: School, student_id: u64, assessment_id: u64, today: u64) -> bool {
    exists|ai: int|
        0 <= ai < db.assessments@.len() && #[trigger] db.assessments@[ai].id == assessment_id
            && db.assessments@[ai].due_date == today && exists|si: int|
            0 <= si < db.subjects@.len() && #[trigger] db.subjects@[si].id
                == db.assessments@[ai].subject_id && course_of_user(db, student_id) == Some(
                db.subjects@[si].course_id,
            )
}

/// A quiz question row the student may fetch today: its quiz exists and the
/// owning assessment is open for the student today.
pub open spec fn task_open_for_student(db: School, student_id: u64, st: SelfassessableTask, today: u64) -> bool {
    exists|qi: int|
        0 <= qi < db.quizzes@.len() && #[trigger] db.quizzes@[qi].id == st.selfassessable_id
            && assessment_open_for_student(db, student_id, db.quizzes@[qi].assessment_id, today)
}

/// The quiz filter restricted to one quiz id, once the filter's assessment
/// id has been resolved to it.
pub open spec fn task_quiz_filter(quiz_id: Option<u64>, st: SelfassessableTask) -> bool {
    match quiz_id {
        Some(q) => st.selfassessable_id == q,
        None => true,
    }
}

/// A staged quiz grade the identity may list: administrators see all,
/// teachers those whose owning assessment belongs to a subject they teach.
pub open spec fn pending_grade_in_scope(me: MySelf, db: School, pg: PendingSelfassessableGrade) -> bool {
    match me.role {
        Role::admin => true,
        Role::teacher => exists|qi: int|
            0 <= qi < db.quizzes@.len() && #[trigger] db.quizzes@[qi].id == pg.selfassessable_id
                && exists|ai: int|
                0 <= ai < db.assessments@.len() && #[trigger] db.assessments@[ai].id
                    == db.quizzes@[qi].assessment_id && teacher_teaches(
                    db,
                    me.id,
                    db.assessments@[ai].subject_id,
                ),
        _ => false,
    }
}

/// A person-search row: the joined user row exists and the filters match.
pub open spec fn public_pd_visible(db: School, f: UserFilter, pd: PersonalDataRow) -> bool {
    &&& match f.name {
        Some(n) => ci_contains(pd.full_name@, n@),
        None => true,
    }
    &&& match f.user_id {
        Some(u) => pd.user_id == u,
        None => true,
    }
    &&& match user_idx(db, pd.user_id) {
        Some(ui) => match f.course {
            Some(c) => db.users@[ui].course_id == Some(c),
            None => true,
        },
        None => false,
    }
}

} // verus!
