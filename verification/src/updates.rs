//! The mutation authorizer for partial updates: each update either applies
//! an explicit patch to the one row it names, after its ownership checks
//! pass, or rejects the request and leaves the state untouched.  Patches
//! are applied field by field; a patch with no field set is invalid.

use vstd::prelude::*;

use crate::school::{
    assessment_idx, assistance_idx, course_of_user, grade_idx, message_idx, pd_idx,
    preceptor_presides, sanction_idx, subject_message_idx, submission_idx, teacher_teaches, School,
};
use crate::school::{
    lemma_assessments_update_wf, lemma_assistance_update_wf, lemma_grades_update_wf,
    lemma_messages_update_wf, lemma_personal_data_update_wf, lemma_sanctions_update_wf,
    lemma_subject_messages_update_wf, lemma_homework_update_wf,
};
use crate::school::{
    unchanged_except_assessments, unchanged_except_assistance, unchanged_except_grades,
    unchanged_except_messages, unchanged_except_personal_data, unchanged_except_sanctions,
    unchanged_except_subject_messages, unchanged_except_homework_submissions,
};
use crate::structs::{
    Assessment, Assistance, DisciplinarySanction, Grade, HomeworkSubmission, Message, MySelf,
    PersonalDataRow, Role, SubjectMessage, UpdateAssessment, UpdateAssistance,
    UpdateDisciplinarySanction, UpdateGrade, UpdateMessage, UpdatePersonalData,
    UpdateSubjectMessage, UpdateSubmission,
};
use crate::ApiError;

verus! {

/// An assessment row with this id exists and its subject is taught by the
/// teacher.
pub open spec fn assessment_of_teacher(db: School, teacher_id: u64, assessment_id: u64) -> bool {
    exists|ai: int|
        0 <= ai < db.assessments@.len() && #[trigger] db.assessments@[ai].id == assessment_id
            && teacher_teaches(db, teacher_id, db.assessments@[ai].subject_id)
}

/// A grade row with this id exists and its subject is taught by the
/// teacher.
pub open spec fn grade_of_teacher(db: School, teacher_id: u64, grade_id: u64) -> bool {
    exists|gi: int|
        0 <= gi < db.grades@.len() && #[trigger] db.grades@[gi].id == grade_id && teacher_teaches(
            db,
            teacher_id,
            db.grades@[gi].subject_id,
        )
}

/// A broadcast message with this id exists and was sent by the caller.
pub open spec fn message_of_sender(db: School, sender_id: u64, message_id: u64) -> bool {
    exists|mi: int|
        0 <= mi < db.messages@.len() && #[trigger] db.messages@[mi].id == message_id
            && db.messages@[mi].sender_id == sender_id
}

/// A subject message with this id exists and its subject is taught by the
/// teacher.
pub open spec fn subject_message_of_teacher(db: School, teacher_id: u64, sm_id: u64) -> bool {
    exists|si: int|
        0 <= si < db.subject_messages@.len() && #[trigger] db.subject_messages@[si].id == sm_id
            && teacher_teaches(db, teacher_id, db.subject_messages@[si].subject_id)
}

/// A homework submission with this id exists and was made by the student.
pub open spec fn submission_of_student(db: School, student_id: u64, submission_id: u64) -> bool {
    exists|si: int|
        0 <= si < db.homework_submissions@.len() && #[trigger] db.homework_submissions@[si].id
            == submission_id && db.homework_submissions@[si].student_id == student_id
}

pub(crate) fn grade_of_teacher_exec(db: &School, teacher_id: u64, grade_id: u64) -> (b: bool)
    ensures
        b == grade_of_teacher(*db, teacher_id, grade_id),
{
    let mut i: usize = 0;
    while i < db.grades.len()
        invariant
            i <= db.grades@.len(),
            forall|k: int|
                0 <= k < i ==> !(#[trigger] db.grades@[k].id == grade_id && teacher_teaches(
                    *db,
                    teacher_id,
                    db.grades@[k].subject_id,
                )),
        decreases db.grades@.len() - i,
    {
        if db.grades[i].id == grade_id && db.is_teacher_of(teacher_id, db.grades[i].subject_id) {
            return true;
        }
        i += 1;
    }
    false
}

pub(crate) fn message_of_sender_exec(db: &School, sender_id: u64, message_id: u64) -> (b: bool)
    ensures
        b == message_of_sender(*db, sender_id, message_id),
{
    let mut i: usize = 0;
    while i < db.messages.len()
        invariant
            i <= db.messages@.len(),
            forall|k: int|
                0 <= k < i ==> !(#[trigger] db.messages@[k].id == message_id
                    && db.messages@[k].sender_id == sender_id),
        decreases db.messages@.len() - i,
    {
        if db.messages[i].id == message_id && db.messages[i].sender_id == sender_id {
            return true;
        }
        i += 1;
    }
    false
}

pub(crate) fn subject_message_of_teacher_exec(db: &School, teacher_id: u64, sm_id: u64) -> (b: bool)
    ensures
        b == subject_message_of_teacher(*db, teacher_id, sm_id),
{
    let mut i: usize = 0;
    while i < db.subject_messages.len()
        invariant
            i <= db.subject_messages@.len(),
            forall|k: int|
                0 <= k < i ==> !(#[trigger] db.subject_messages@[k].id == sm_id
                    && teacher_teaches(*db, teacher_id, db.subject_messages@[k].subject_id)),
        decreases db.subject_messages@.len() - i,
    {
        if db.subject_messages[i].id == sm_id && db.is_teacher_of(
            teacher_id,
            db.subject_messages[i].subject_id,
        ) {
            return true;
        }
        i += 1;
    }
    false
}

pub(crate) fn submission_of_student_exec(db: &School, student_id: u64, submission_id: u64) -> (b: bool)
    ensures
        b == submission_of_student(*db, student_id, submission_id),
{
    let mut i: usize = 0;
    while i < db.homework_submissions.len()
        invariant
            i <= db.homework_submissions@.len(),
            forall|k: int|
                0 <= k < i ==> !(#[trigger] db.homework_submissions@[k].id == submission_id
                    && db.homework_submissions@[k].student_id == student_id),
        decreases db.homework_submissions@.len() - i,
    {
        if db.homework_submissions[i].id == submission_id && db.homework_submissions[i].student_id
            == student_id {
            return true;
        }
        i += 1;
    }
    false
}

/// Decides [`assessment_of_teacher`].
pub(crate) fn assessment_of_teacher_exec(db: &School, teacher_id: u64, assessment_id: u64) -> (b:
    bool)
    ensures
        b == assessment_of_teacher(*db, teacher_id, assessment_id),
{
    let mut i: usize = 0;
    while i < db.assessments.len()
        invariant
            i <= db.assessments@.len(),
            forall|k: int|
                0 <= k < i ==> !(#[trigger] db.assessments@[k].id == assessment_id
                    && teacher_teaches(*db, teacher_id, db.assessments@[k].subject_id)),
        decreases db.assessments@.len() - i,
    {
        if db.assessments[i].id == assessment_id && db.is_teacher_of(
            teacher_id,
            db.assessments[i].subject_id,
        ) {
            return true;
        }
        i += 1;
    }
    false
}

/// The assessment row with the patch applied.
pub open spec fn apply_assessment_patch(a: Assessment, p: UpdateAssessment) -> Assessment {
    Assessment {
        id: a.id,
        subject_id: match p.subject_id {
            Some(x) => x,
            None => a.subject_id,
        },
        task: match p.task {
            Some(x) => x,
            None => a.task,
        },
        due_date: match p.due_date {
            Some(x) => x,
            None => a.due_date,
        },
        created_at: a.created_at,
        type_: match p.type_ {
            Some(x) => x,
            None => a.type_,
        },
    }
}

/// The grade row with the patch applied.
pub open spec fn apply_grade_patch(g: Grade, p: UpdateGrade) -> Grade {
    Grade {
        id: g.id,
        description: match p.description {
            Some(x) => Some(x),
            None => g.description,
        },
        grade: match p.grade {
            Some(x) => x,
            None => g.grade,
        },
        student_id: match p.student_id {
            Some(x) => x,
            None => g.student_id,
        },
        subject_id: match p.subject_id {
            Some(x) => x,
            None => g.subject_id,
        },
        assessment_id: match p.assessment_id {
            Some(x) => Some(x),
            None => g.assessment_id,
        },
        grade_type: match p.grade_type {
            Some(x) => Some(x),
            None => g.grade_type,
        },
        created_at: g.created_at,
    }
}

/// The message row with the patch applied.
pub open spec fn apply_message_patch(m: Message, p: UpdateMessage) -> Message {
    Message {
        id: m.id,
        title: match p.title {
            Some(x) => x,
            None => m.title,
        },
        message: match p.message {
            Some(x) => x,
            None => m.message,
        },
        sender_id: m.sender_id,
        created_at: m.created_at,
    }
}

/// The personal-data row with the patch applied.
pub open spec fn apply_personal_data_patch(d: PersonalDataRow, p: UpdatePersonalData) -> PersonalDataRow {
    PersonalDataRow {
        user_id: d.user_id,
        full_name: match p.full_name {
            Some(x) => x,
            None => d.full_name,
        },
        phone_number: match p.phone_number {
            Some(x) => x,
            None => d.phone_number,
        },
        address: match p.address {
            Some(x) => x,
            None => d.address,
        },
        birth_date: match p.birth_date {
            Some(x) => x,
            None => d.birth_date,
        },
    }
}

/// The subject-message row with the patch applied.
pub open spec fn apply_subject_message_patch(m: SubjectMessage, p: UpdateSubjectMessage) -> SubjectMessage {
    SubjectMessage {
        id: m.id,
        sender_id: m.sender_id,
        subject_id: m.subject_id,
        title: match p.title {
            Some(x) => x,
            None => m.title,
        },
        content: match p.content {
            Some(x) => x,
            None => m.content,
        },
        created_at: m.created_at,
        type_: match p.type_ {
            Some(x) => x,
            None => m.type_,
        },
    }
}

/// The homework-submission row with the patch applied.
pub open spec fn apply_submission_patch(s: HomeworkSubmission, p: UpdateSubmission) -> HomeworkSubmission {
    HomeworkSubmission {
        id: s.id,
        path: match p.path {
            Some(x) => x,
            None => s.path,
        },
        student_id: match p.student_id {
            Some(x) => x,
            None => s.student_id,
        },
        task_id: match p.task_id {
            Some(x) => x,
            None => s.task_id,
        },
    }
}

/// A grade with the same assessment and student pair exists at another
/// position: the duplicate a patch must not create.
pub open spec fn grade_pair_elsewhere(db: School, k: int, aid: Option<u64>, sid: u64) -> bool {
    aid is Some && exists|i: int|
        0 <= i < db.grades@.len() && i != k && (#[trigger] db.grades@[i].assessment_id) == aid
            && db.grades@[i].student_id == sid
}

fn grade_pair_elsewhere_exec(db: &School, k: usize, aid: &Option<u64>, sid: u64) -> (b: bool)
    ensures
        b == grade_pair_elsewhere(*db, k as int, *aid, sid),
{
    let a = match aid {
        Some(x) => *x,
        None => {
            return false;
        },
    };
    let mut i: usize = 0;
    while i < db.grades.len()
        invariant
            i <= db.grades@.len(),
            *aid == Some(a),
            forall|j: int|
                0 <= j < i ==> !(j != k as int && (#[trigger] db.grades@[j].assessment_id)
                    == Some(a) && db.grades@[j].student_id == sid),
        decreases db.grades@.len() - i,
    {
        let hit = match db.grades[i].assessment_id {
            Some(x) => x == a,
            None => false,
        };
        if i != k && hit && db.grades[i].student_id == sid {
            return true;
        }
        i += 1;
    }
    false
}

/// A homework submission with the same student and task pair exists at
/// another position.
pub open spec fn submission_pair_elsewhere(db: School, k: int, sid: u64, tid: u64) -> bool {
    exists|i: int|
        0 <= i < db.homework_submissions@.len() && i != k
            && (#[trigger] db.homework_submissions@[i].student_id) == sid
            && db.homework_submissions@[i].task_id == tid
}

fn submission_pair_elsewhere_exec(db: &School, k: usize, sid: u64, tid: u64) -> (b: bool)
    ensures
        b == submission_pair_elsewhere(*db, k as int, sid, tid),
{
    let mut i: usize = 0;
    while i < db.homework_submissions.len()
        invariant
            i <= db.homework_submissions@.len(),
            forall|j: int|
                0 <= j < i ==> !(j != k as int
                    && (#[trigger] db.homework_submissions@[j].student_id) == sid
                    && db.homework_submissions@[j].task_id == tid),
        decreases db.homework_submissions@.len() - i,
    {
        if i != k && db.homework_submissions[i].student_id == sid
            && db.homework_submissions[i].task_id == tid {
            return true;
        }
        i += 1;
    }
    false
}

/// The first failing check of an assessment update.
pub open spec fn update_assessment_check(me: MySelf, db: School, aid: u64, p: UpdateAssessment) -> Option<
    ApiError,
> {
    if !(me.role is admin || (me.role is teacher && assessment_of_teacher(db, me.id, aid))) {
        Some(ApiError::Unauthorized)
    } else if p.subject_id is None && p.task is None && p.due_date is None && p.type_ is None {
        Some(ApiError::Validation)
    } else {
        None
    }
}

/// The named assessment row got the patch; everything else is unchanged.
pub open spec fn assessment_patch_effect(a: School, b: School, aid: u64, p: UpdateAssessment) -> bool {
    &&& match assessment_idx(a, aid) {
        Some(k) => b.assessments@ == a.assessments@.update(
            k,
            apply_assessment_patch(a.assessments@[k], p),
        ),
        None => b.assessments@ == a.assessments@,
    }
    &&& b.next_id == a.next_id
    &&& unchanged_except_assessments(a, b)
}

impl MySelf {
    /// Updates an assessment: permitted to an administrator or to the
    /// teacher of its subject; a patch with no field set is invalid; a
    /// missing row leaves the state unchanged.
    pub fn update_assessment(
        &self,
        db: &mut School,
        assessment_id: u64,
        data: &UpdateAssessment,
    ) -> (r: Result<(), ApiError>)
        requires
            old(db).wf(),
        ensures
            final(db).wf(),
            match r {
                Ok(_) => update_assessment_check(*self, *old(db), assessment_id, *data) is None
                    && assessment_patch_effect(*old(db), *final(db), assessment_id, *data),
                Err(e) => update_assessment_check(*self, *old(db), assessment_id, *data) == Some(
                    e,
                ) && *final(db) == *old(db),
            },
    {
        let allowed = match self.role {
            Role::admin => true,
            Role::teacher => assessment_of_teacher_exec(db, self.id, assessment_id),
            _ => false,
        };
        if !allowed {
            return Err(ApiError::Unauthorized);
        }
        let no_fields = match (&data.subject_id, &data.task, &data.due_date, &data.type_) {
            (None, None, None, None) => true,
            _ => false,
        };
        if no_fields {
            return Err(ApiError::Validation);
        }
        match db.assessment_pos(assessment_id) {
            Some(k) => {
                let a = &db.assessments[k];
                let patched = Assessment {
                    id: a.id,
                    subject_id: match data.subject_id {
                        Some(x) => x,
                        None => a.subject_id,
                    },
                    task: match &data.task {
                        Some(x) => x.clone(),
                        None => a.task.clone(),
                    },
                    due_date: match data.due_date {
                        Some(x) => x,
                        None => a.due_date,
                    },
                    created_at: a.created_at,
                    type_: match data.type_ {
                        Some(x) => x,
                        None => a.type_,
                    },
                };
                db.assessments.set(k, patched);
                proof {
                    lemma_assessments_update_wf(
                        *old(db),
                        *db,
                        k as int,
                        apply_assessment_patch(old(db).assessments@[k as int], *data),
                    );
                }
            },
            None => {},
        }
        Ok(())
    }

    /// Updates a grade: permitted to an administrator or to the teacher of
    /// its subject; a patch that would duplicate an assessment-and-student
    /// pair is a conflict.
    pub fn update_grade(&self, db: &mut School, grade_id: u64, data: &UpdateGrade) -> (r: Result<
        (),
        ApiError,
    >)
        requires
            old(db).wf(),
        ensures
            final(db).wf(),
            match r {
                Ok(_) => update_grade_check(*self, *old(db), grade_id, *data) is None
                    && grade_patch_effect(*old(db), *final(db), grade_id, *data),
                Err(e) => update_grade_check(*self, *old(db), grade_id, *data) == Some(e)
                    && *final(db) == *old(db),
            },
    {
        let allowed = match self.role {
            Role::admin => true,
            Role::teacher => grade_of_teacher_exec(db, self.id, grade_id),
            _ => false,
        };
        if !allowed {
            return Err(ApiError::Unauthorized);
        }
        let no_fields = match (
            &data.description,
            &data.grade,
            &data.student_id,
            &data.subject_id,
            &data.assessment_id,
            &data.grade_type,
        ) {
            (None, None, None, None, None, None) => true,
            _ => false,
        };
        if no_fields {
            return Err(ApiError::Validation);
        }
        match db.grade_pos(grade_id) {
            Some(k) => {
                let g = &db.grades[k];
                let patched = Grade {
                    id: g.id,
                    description: match &data.description {
                        Some(x) => Some(x.clone()),
                        None => crate::structs::clone_opt_string(&g.description),
                    },
                    grade: match data.grade {
                        Some(x) => x,
                        None => g.grade,
                    },
                    student_id: match data.student_id {
                        Some(x) => x,
                        None => g.student_id,
                    },
                    subject_id: match data.subject_id {
                        Some(x) => x,
                        None => g.subject_id,
                    },
                    assessment_id: match data.assessment_id {
                        Some(x) => Some(x),
                        None => crate::structs::clone_opt_u64(&g.assessment_id),
                    },
                    grade_type: match data.grade_type {
                        Some(x) => Some(x),
                        None => match g.grade_type {
                            Some(t) => Some(t),
                            None => None,
                        },
                    },
                    created_at: crate::structs::clone_opt_u64(&g.created_at),
                };
                if grade_pair_elsewhere_exec(db, k, &patched.assessment_id, patched.student_id) {
                    return Err(ApiError::Conflict);
                }
                db.grades.set(k, patched);
                proof {
                    lemma_grades_update_wf(
                        *old(db),
                        *db,
                        k as int,
                        apply_grade_patch(old(db).grades@[k as int], *data),
                    );
                }
            },
            None => {},
        }
        Ok(())
    }
}

/// The first failing check of a grade update.
pub open spec fn update_grade_check(me: MySelf, db: School, gid: u64, p: UpdateGrade) -> Option<
    ApiError,
> {
    if !(me.role is admin || (me.role is teacher && grade_of_teacher(db, me.id, gid))) {
        Some(ApiError::Unauthorized)
    } else if p.description is None && p.grade is None && p.student_id is None && p.subject_id
        is None && p.assessment_id is None && p.grade_type is None {
        Some(ApiError::Validation)
    } else {
        match grade_idx(db, gid) {
            Some(k) => {
                let patched = apply_grade_patch(db.grades@[k], p);
                if grade_pair_elsewhere(db, k, patched.assessment_id, patched.student_id) {
                    Some(ApiError::Conflict)
                } else {
                    None
                }
            },
            None => None,
        }
    }
}

/// The named grade row got the patch; everything else is unchanged.
pub open spec fn grade_patch_effect(a: School, b: School, gid: u64, p: UpdateGrade) -> bool {
    &&& match grade_idx(a, gid) {
        Some(k) => b.grades@ == a.grades@.update(k, apply_grade_patch(a.grades@[k], p)),
        None => b.grades@ == a.grades@,
    }
    &&& b.next_id == a.next_id
    &&& unchanged_except_grades(a, b)
}


/// The first failing check of a message update: an administrator or a
/// preceptor may always update, any other role only its own messages.
pub open spec fn update_message_check(me: MySelf, db: School, mid: u64, p: UpdateMessage) -> Option<
    ApiError,
> {
    let authorized = match me.role {
        Role::admin | Role::preceptor => true,
        _ => message_of_sender(db, me.id, mid),
    };
    if !authorized {
        Some(ApiError::Unauthorized)
    } else if p.title is None && p.message is None {
        Some(ApiError::Validation)
    } else {
        None
    }
}

/// The named message row got the patch; everything else is unchanged.
pub open spec fn message_patch_effect(a: School, b: School, mid: u64, p: UpdateMessage) -> bool {
    &&& match message_idx(a, mid) {
        Some(k) => b.messages@ == a.messages@.update(k, apply_message_patch(a.messages@[k], p)),
        None => b.messages@ == a.messages@,
    }
    &&& b.message_courses@ == a.message_courses@
    &&& b.next_id == a.next_id
    &&& unchanged_except_messages(a, b)
}

/// The first failing check of a personal-data update: administrators only.
pub open spec fn update_personal_data_check(me: MySelf, p: UpdatePersonalData) -> Option<ApiError> {
    if !(me.role is admin) {
        Some(ApiError::Unauthorized)
    } else if p.full_name is None && p.phone_number is None && p.address is None && p.birth_date
        is None {
        Some(ApiError::Validation)
    } else {
        None
    }
}

/// The personal-data row of the account got the patch; everything else is
/// unchanged.
pub open spec fn personal_data_patch_effect(
    a: School,
    b: School,
    user_id: u64,
    p: UpdatePersonalData,
) -> bool {
    &&& match pd_idx(a, user_id) {
        Some(k) => b.personal_data@ == a.personal_data@.update(
            k,
            apply_personal_data_patch(a.personal_data@[k], p),
        ),
        None => b.personal_data@ == a.personal_data@,
    }
    &&& b.next_id == a.next_id
    &&& unchanged_except_personal_data(a, b)
}

/// The first failing check of a subject-message update.
pub open spec fn update_subject_message_check(
    me: MySelf,
    db: School,
    sm_id: u64,
    p: UpdateSubjectMessage,
) -> Option<ApiError> {
    if !(me.role is admin || (me.role is teacher && subject_message_of_teacher(db, me.id, sm_id))) {
        Some(ApiError::Unauthorized)
    } else if p.title is None && p.content is None && p.type_ is None {
        Some(ApiError::Validation)
    } else {
        None
    }
}

/// The named subject-message row got the patch; everything else is
/// unchanged.
pub open spec fn subject_message_patch_effect(
    a: School,
    b: School,
    sm_id: u64,
    p: UpdateSubjectMessage,
) -> bool {
    &&& match subject_message_idx(a, sm_id) {
        Some(k) => b.subject_messages@ == a.subject_messages@.update(
            k,
            apply_subject_message_patch(a.subject_messages@[k], p),
        ),
        None => b.subject_messages@ == a.subject_messages@,
    }
    &&& b.next_id == a.next_id
    &&& unchanged_except_subject_messages(a, b)
}

/// The first failing check of a homework-submission update: an
/// administrator or the submitting student; a patch that would duplicate a
/// student-and-task pair is a conflict.
pub open spec fn update_submission_check(me: MySelf, db: School, sid: u64, p: UpdateSubmission) -> Option<
    ApiError,
> {
    if !(me.role is admin || (me.role is student && submission_of_student(db, me.id, sid))) {
        Some(ApiError::Unauthorized)
    } else if p.path is None && p.student_id is None && p.task_id is None {
        Some(ApiError::Validation)
    } else {
        match submission_idx(db, sid) {
            Some(k) => {
                let patched = apply_submission_patch(db.homework_submissions@[k], p);
                if submission_pair_elsewhere(db, k, patched.student_id, patched.task_id) {
                    Some(ApiError::Conflict)
                } else {
                    None
                }
            },
            None => None,
        }
    }
}

/// The named submission row got the patch; everything else is unchanged.
pub open spec fn submission_patch_effect(a: School, b: School, sid: u64, p: UpdateSubmission) -> bool {
    &&& match submission_idx(a, sid) {
        Some(k) => b.homework_submissions@ == a.homework_submissions@.update(
            k,
            apply_submission_patch(a.homework_submissions@[k], p),
        ),
        None => b.homework_submissions@ == a.homework_submissions@,
    }
    &&& b.next_id == a.next_id
    &&& unchanged_except_homework_submissions(a, b)
}

/// The first failing check of an attendance update: an administrator, or a
/// preceptor presiding over the course of the student the patch names.
pub open spec fn update_assistance_check(me: MySelf, db: School, p: UpdateAssistance) -> Option<
    ApiError,
> {
    match me.role {
        Role::admin => None,
        Role::preceptor => match course_of_user(db, p.student_id) {
            None => Some(ApiError::NotFound),
            Some(c) => if !preceptor_presides(db, me.id, c) {
                Some(ApiError::Unauthorized)
            } else {
                None
            },
        },
        _ => Some(ApiError::Unauthorized),
    }
}

/// The named attendance row got the new presence and date; everything else
/// is unchanged.
pub open spec fn assistance_patch_effect(a: School, b: School, aid: u64, p: UpdateAssistance) -> bool {
    &&& match assistance_idx(a, aid) {
        Some(k) => b.assistance@ == a.assistance@.update(
            k,
            Assistance {
                id: a.assistance@[k].id,
                student_id: a.assistance@[k].student_id,
                presence: p.presence,
                date: p.date,
            },
        ),
        None => b.assistance@ == a.assistance@,
    }
    &&& b.next_id == a.next_id
    &&& unchanged_except_assistance(a, b)
}

/// The first failing check of a sanction update: an administrator, or a
/// preceptor presiding over the course of the sanctioned student of an
/// existing row.
pub open spec fn update_sanction_check(me: MySelf, db: School, ds_id: u64) -> Option<ApiError> {
    match me.role {
        Role::admin => None,
        Role::preceptor => match sanction_idx(db, ds_id) {
            None => Some(ApiError::NotFound),
            Some(k) => match course_of_user(db, db.disciplinary_sanctions@[k].student_id) {
                None => Some(ApiError::NotFound),
                Some(c) => if !preceptor_presides(db, me.id, c) {
                    Some(ApiError::Unauthorized)
                } else {
                    None
                },
            },
        },
        _ => Some(ApiError::Unauthorized),
    }
}

/// The named sanction row got the replacement fields; everything else is
/// unchanged.
pub open spec fn sanction_patch_effect(
    a: School,
    b: School,
    ds_id: u64,
    p: UpdateDisciplinarySanction,
) -> bool {
    &&& match sanction_idx(a, ds_id) {
        Some(k) => b.disciplinary_sanctions@ == a.disciplinary_sanctions@.update(
            k,
            DisciplinarySanction {
                id: a.disciplinary_sanctions@[k].id,
                student_id: a.disciplinary_sanctions@[k].student_id,
                sanction_type: p.sanction_type,
                quantity: p.quantity,
                description: p.description,
                date: p.date,
            },
        ),
        None => b.disciplinary_sanctions@ == a.disciplinary_sanctions@,
    }
    &&& b.next_id == a.next_id
    &&& unchanged_except_sanctions(a, b)
}

impl MySelf {
    /// Updates a broadcast message.
    pub fn update_message(&self, db: &mut School, message_id: u64, data: &UpdateMessage) -> (r:
        Result<(), ApiError>)
        requires
            old(db).wf(),
        ensures
            final(db).wf(),
            match r {
                Ok(_) => update_message_check(*self, *old(db), message_id, *data) is None
                    && message_patch_effect(*old(db), *final(db), message_id, *data),
                Err(e) => update_message_check(*self, *old(db), message_id, *data) == Some(e)
                    && *final(db) == *old(db),
            },
    {
        let authorized = match self.role {
            Role::admin | Role::preceptor => true,
            _ => message_of_sender_exec(db, self.id, message_id),
        };
        if !authorized {
            return Err(ApiError::Unauthorized);
        }
        let no_fields = match (&data.title, &data.message) {
            (None, None) => true,
            _ => false,
        };
        if no_fields {
            return Err(ApiError::Validation);
        }
        match db.message_pos(message_id) {
            Some(k) => {
                let m = &db.messages[k];
                let patched = Message {
                    id: m.id,
                    title: match &data.title {
                        Some(x) => x.clone(),
                        None => m.title.clone(),
                    },
                    message: match &data.message {
                        Some(x) => x.clone(),
                        None => m.message.clone(),
                    },
                    sender_id: m.sender_id,
                    created_at: crate::structs::clone_opt_u64(&m.created_at),
                };
                db.messages.set(k, patched);
                proof {
                    lemma_messages_update_wf(
                        *old(db),
                        *db,
                        k as int,
                        apply_message_patch(old(db).messages@[k as int], *data),
                    );
                }
            },
            None => {},
        }
        Ok(())
    }

    /// Updates the personal data of an account; administrators only.
    pub fn update_personal_data(&self, db: &mut School, user_id: u64, data: &UpdatePersonalData) -> (r:
        Result<(), ApiError>)
        requires
            old(db).wf(),
        ensures
            final(db).wf(),
            match r {
                Ok(_) => update_personal_data_check(*self, *data) is None
                    && personal_data_patch_effect(*old(db), *final(db), user_id, *data),
                Err(e) => update_personal_data_check(*self, *data) == Some(e) && *final(db)
                    == *old(db),
            },
    {
        match self.role {
            Role::admin => {},
            _ => {
                return Err(ApiError::Unauthorized);
            },
        }
        let no_fields = match (&data.full_name, &data.phone_number, &data.address, &data.birth_date)
            {
            (None, None, None, None) => true,
            _ => false,
        };
        if no_fields {
            return Err(ApiError::Validation);
        }
        match db.pd_pos(user_id) {
            Some(k) => {
                let d = &db.personal_data[k];
                let patched = PersonalDataRow {
                    user_id: d.user_id,
                    full_name: match &data.full_name {
                        Some(x) => x.clone(),
                        None => d.full_name.clone(),
                    },
                    phone_number: match &data.phone_number {
                        Some(x) => x.clone(),
                        None => d.phone_number.clone(),
                    },
                    address: match &data.address {
                        Some(x) => x.clone(),
                        None => d.address.clone(),
                    },
                    birth_date: match data.birth_date {
                        Some(x) => x,
                        None => d.birth_date,
                    },
                };
                db.personal_data.set(k, patched);
                proof {
                    lemma_personal_data_update_wf(
                        *old(db),
                        *db,
                        k as int,
                        apply_personal_data_patch(old(db).personal_data@[k as int], *data),
                    );
                }
            },
            None => {},
        }
        Ok(())
    }

    /// Replaces the photo reference of an account: permitted to an
    /// administrator and to the account itself.
    pub fn update_profile_picture(&self, db: &mut School, user_id: u64, file_name: Option<String>) -> (r:
        Result<(), ApiError>)
        requires
            old(db).wf(),
        ensures
            final(db).wf(),
            match r {
                Ok(_) => (self.role is admin || self.id == user_id)
                    && crate::posts::photo_set_effect(*old(db), *final(db), user_id, file_name),
                Err(e) => e == ApiError::Unauthorized && !(self.role is admin || self.id
                    == user_id) && *final(db) == *old(db),
            },
    {
        let is_admin = match self.role {
            Role::admin => true,
            _ => false,
        };
        if !is_admin && self.id != user_id {
            return Err(ApiError::Unauthorized);
        }
        crate::posts::set_photo(db, user_id, file_name);
        Ok(())
    }

    /// Updates a per-subject announcement.
    pub fn update_subject_message(
        &self,
        db: &mut School,
        subject_message_id: u64,
        data: &UpdateSubjectMessage,
    ) -> (r: Result<(), ApiError>)
        requires
            old(db).wf(),
        ensures
            final(db).wf(),
            match r {
                Ok(_) => update_subject_message_check(*self, *old(db), subject_message_id, *data)
                    is None && subject_message_patch_effect(
                    *old(db),
                    *final(db),
                    subject_message_id,
                    *data,
                ),
                Err(e) => update_subject_message_check(*self, *old(db), subject_message_id, *data)
                    == Some(e) && *final(db) == *old(db),
            },
    {
        let allowed = match self.role {
            Role::admin => true,
            Role::teacher => subject_message_of_teacher_exec(db, self.id, subject_message_id),
            _ => false,
        };
        if !allowed {
            return Err(ApiError::Unauthorized);
        }
        let no_fields = match (&data.title, &data.content, &data.type_) {
            (None, None, None) => true,
            _ => false,
        };
        if no_fields {
            return Err(ApiError::Validation);
        }
        match db.subject_message_pos(subject_message_id) {
            Some(k) => {
                let m = &db.subject_messages[k];
                let patched = SubjectMessage {
                    id: m.id,
                    sender_id: m.sender_id,
                    subject_id: m.subject_id,
                    title: match &data.title {
                        Some(x) => x.clone(),
                        None => m.title.clone(),
                    },
                    content: match &data.content {
                        Some(x) => x.clone(),
                        None => m.content.clone(),
                    },
                    created_at: m.created_at,
                    type_: match data.type_ {
                        Some(x) => x,
                        None => m.type_,
                    },
                };
                db.subject_messages.set(k, patched);
                proof {
                    lemma_subject_messages_update_wf(
                        *old(db),
                        *db,
                        k as int,
                        apply_subject_message_patch(old(db).subject_messages@[k as int], *data),
                    );
                }
            },
            None => {},
        }
        Ok(())
    }

    /// Updates a homework submission: permitted to an administrator or the
    /// submitting student; a patch that would duplicate a student-and-task
    /// pair is a conflict.
    pub fn update_submission(&self, db: &mut School, submission_id: u64, data: &UpdateSubmission) -> (r:
        Result<(), ApiError>)
        requires
            old(db).wf(),
        ensures
            final(db).wf(),
            match r {
                Ok(_) => update_submission_check(*self, *old(db), submission_id, *data) is None
                    && submission_patch_effect(*old(db), *final(db), submission_id, *data),
                Err(e) => update_submission_check(*self, *old(db), submission_id, *data) == Some(
                    e,
                ) && *final(db) == *old(db),
            },
    {
        let allowed = match self.role {
            Role::admin => true,
            Role::student => submission_of_student_exec(db, self.id, submission_id),
            _ => false,
        };
        if !allowed {
            return Err(ApiError::Unauthorized);
        }
        let no_fields = match (&data.path, &data.student_id, &data.task_id) {
            (None, None, None) => true,
            _ => false,
        };
        if no_fields {
            return Err(ApiError::Validation);
        }
        match db.submission_pos(submission_id) {
            Some(k) => {
                let s = &db.homework_submissions[k];
                let patched = HomeworkSubmission {
                    id: s.id,
                    path: match &data.path {
                        Some(x) => x.clone(),
                        None => s.path.clone(),
                    },
                    student_id: match data.student_id {
                        Some(x) => x,
                        None => s.student_id,
                    },
                    task_id: match data.task_id {
                        Some(x) => x,
                        None => s.task_id,
                    },
                };
                if submission_pair_elsewhere_exec(db, k, patched.student_id, patched.task_id) {
                    return Err(ApiError::Conflict);
                }
                db.homework_submissions.set(k, patched);
                proof {
                    lemma_homework_update_wf(
                        *old(db),
                        *db,
                        k as int,
                        apply_submission_patch(old(db).homework_submissions@[k as int], *data),
                    );
                }
            },
            None => {},
        }
        Ok(())
    }

    /// Replaces the presence and date of an attendance row.  A preceptor
    /// may only write for a student of a course they preside over.
    pub fn update_assistance(&self, db: &mut School, assistance_id: u64, data: &UpdateAssistance) -> (r:
        Result<(), ApiError>)
        requires
            old(db).wf(),
        ensures
            final(db).wf(),
            match r {
                Ok(_) => update_assistance_check(*self, *old(db), *data) is None
                    && assistance_patch_effect(*old(db), *final(db), assistance_id, *data),
                Err(e) => update_assistance_check(*self, *old(db), *data) == Some(e) && *final(db)
                    == *old(db),
            },
    {
        match self.role {
            Role::admin => {},
            Role::preceptor => {
                let c = match db.user_course(data.student_id) {
                    Some(c) => c,
                    None => {
                        return Err(ApiError::NotFound);
                    },
                };
                if !db.is_preceptor_of(self.id, c) {
                    return Err(ApiError::Unauthorized);
                }
            },
            _ => {
                return Err(ApiError::Unauthorized);
            },
        }
        match db.assistance_row_pos(assistance_id) {
            Some(k) => {
                let a = &db.assistance[k];
                let patched = Assistance {
                    id: a.id,
                    student_id: a.student_id,
                    presence: data.presence.clone(),
                    date: data.date,
                };
                let ghost spec_patched = Assistance {
                    id: old(db).assistance@[k as int].id,
                    student_id: old(db).assistance@[k as int].student_id,
                    presence: data.presence,
                    date: data.date,
                };
                db.assistance.set(k, patched);
                proof {
                    lemma_assistance_update_wf(*old(db), *db, k as int, spec_patched);
                }
            },
            None => {},
        }
        Ok(())
    }

    /// Replaces the fields of a disciplinary sanction other than its
    /// student.  A preceptor may only write for a student of a course they
    /// preside over.
    pub fn update_disciplinary_sanction(
        &self,
        db: &mut School,
        disciplinary_sanction_id: u64,
        data: &UpdateDisciplinarySanction,
    ) -> (r: Result<(), ApiError>)
        requires
            old(db).wf(),
        ensures
            final(db).wf(),
            match r {
                Ok(_) => update_sanction_check(*self, *old(db), disciplinary_sanction_id) is None
                    && sanction_patch_effect(
                    *old(db),
                    *final(db),
                    disciplinary_sanction_id,
                    *data,
                ),
                Err(e) => update_sanction_check(*self, *old(db), disciplinary_sanction_id)
                    == Some(e) && *final(db) == *old(db),
            },
    {
        match self.role {
            Role::admin => {},
            Role::preceptor => {
                let k = match db.sanction_pos(disciplinary_sanction_id) {
                    Some(k) => k,
                    None => {
                        return Err(ApiError::NotFound);
                    },
                };
                let c = match db.user_course(db.disciplinary_sanctions[k].student_id) {
                    Some(c) => c,
                    None => {
                        return Err(ApiError::NotFound);
                    },
                };
                if !db.is_preceptor_of(self.id, c) {
                    return Err(ApiError::Unauthorized);
                }
            },
            _ => {
                return Err(ApiError::Unauthorized);
            },
        }
        match db.sanction_pos(disciplinary_sanction_id) {
            Some(k) => {
                let d = &db.disciplinary_sanctions[k];
                let patched = DisciplinarySanction {
                    id: d.id,
                    student_id: d.student_id,
                    sanction_type: data.sanction_type.clone(),
                    quantity: data.quantity,
                    description: data.description.clone(),
                    date: data.date,
                };
                let ghost spec_patched = DisciplinarySanction {
                    id: old(db).disciplinary_sanctions@[k as int].id,
                    student_id: old(db).disciplinary_sanctions@[k as int].student_id,
                    sanction_type: data.sanction_type,
                    quantity: data.quantity,
                    description: data.description,
                    date: data.date,
                };
                db.disciplinary_sanctions.set(k, patched);
                proof {
                    lemma_sanctions_update_wf(*old(db), *db, k as int, spec_patched);
                }
            },
            None => {},
        }
        Ok(())
    }
}

} // verus!
