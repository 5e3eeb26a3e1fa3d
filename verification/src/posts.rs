//! The mutation authorizer for creation: every create either applies a
//! fully described state change after its role and integrity checks pass,
//! or rejects the request with the first failing check's error and leaves
//! the state untouched.

use vstd::prelude::*;

use crate::school::{
    assessment_idx, course_of_subject, course_of_user, grade_exists_for, homework_submitted,
    pair_submitted, preceptor_presides, quiz_answered, quiz_by_assessment, teacher_teaches,
    user_idx, user_in_course, School,
};
use crate::school::{
    unchanged_except_assistance, unchanged_except_grades, unchanged_except_sanctions,
    unchanged_except_users,
};
use crate::structs::{
    Assistance, DisciplinarySanction, Grade, MySelf, NewAssistance, NewDisciplinarySanction,
    NewGrade, Role, UserRow,
};
use crate::ApiError;

verus! {

/// An assessment row with this id exists and belongs to the subject.
pub open spec fn assessment_in_subject(db: School, assessment_id: u64, subject_id: u64) -> bool {
    exists|i: int|
        0 <= i < db.assessments@.len() && #[trigger] db.assessments@[i].id == assessment_id
            && db.assessments@[i].subject_id == subject_id
}

/// Decides [`assessment_in_subject`].
pub(crate) fn assessment_in_subject_exec(db: &School, assessment_id: u64, subject_id: u64) -> (b:
    bool)
    ensures
        b == assessment_in_subject(*db, assessment_id, subject_id),
{
    let mut i: usize = 0;
    while i < db.assessments.len()
        invariant
            i <= db.assessments@.len(),
            forall|k: int|
                0 <= k < i ==> !(#[trigger] db.assessments@[k].id == assessment_id
                    && db.assessments@[k].subject_id == subject_id),
        decreases db.assessments@.len() - i,
    {
        if db.assessments[i].id == assessment_id && db.assessments[i].subject_id == subject_id {
            return true;
        }
        i += 1;
    }
    false
}

/// The grade row a successful creation inserts.
pub open spec fn new_grade_row(db: School, g: NewGrade) -> Grade {
    Grade {
        id: db.next_id,
        description: Some(g.description),
        grade: g.grade,
        student_id: g.student_id,
        subject_id: g.subject,
        assessment_id: g.assessment_id,
        grade_type: Some(g.grade_type),
        created_at: None,
    }
}

/// The first failing check of a grade creation, in the order the checks
/// run: the caller must be an administrator or the teacher of the subject,
/// else the request is unauthorized; the subject must exist; the payload's
/// cross-entity consistency is validated next, with a student outside the
/// subject's course or an assessment outside the subject rejected as
/// invalid; a referenced assessment must not be graded yet for the student;
/// and an id must be available.
pub open spec fn post_grade_check(me: MySelf, db: School, g: NewGrade) -> Option<ApiError> {
    if !(me.role is admin || (me.role is teacher && teacher_teaches(db, me.id, g.subject))) {
        Some(ApiError::Unauthorized)
    } else {
        match course_of_subject(db, g.subject) {
            None => Some(ApiError::NotFound),
            Some(c) => if !user_in_course(db, g.student_id, c) {
                Some(ApiError::Validation)
            } else {
                match g.assessment_id {
                    Some(aid) => if !assessment_in_subject(db, aid, g.subject) {
                        Some(ApiError::Validation)
                    } else if grade_exists_for(db, aid, g.student_id) {
                        Some(ApiError::Conflict)
                    } else if db.next_id == u64::MAX {
                        Some(ApiError::Storage)
                    } else {
                        None
                    },
                    None => if db.next_id == u64::MAX {
                        Some(ApiError::Storage)
                    } else {
                        None
                    },
                }
            },
        }
    }
}

impl MySelf {
    /// Creates a grade.  A grade is invalid when its student does not
    /// belong to the subject's course or when a referenced assessment does
    /// not belong to the named subject, and a grade that already exists for
    /// that assessment and student is a conflict.
    pub fn post_grade(&self, db: &mut School, grade: &NewGrade) -> (r: Result<u64, ApiError>)
        requires
            old(db).wf(),
        ensures
            final(db).wf(),
            match r {
                Ok(id) => {
                    &&& post_grade_check(*self, *old(db), *grade) is None
                    &&& id == old(db).next_id
                    &&& final(db).grades@ == old(db).grades@.push(
                        new_grade_row(*old(db), *grade),
                    )
                    &&& final(db).next_id == old(db).next_id + 1
                    &&& unchanged_except_grades(*old(db), *final(db))
                },
                Err(e) => post_grade_check(*self, *old(db), *grade) == Some(e) && *final(db)
                    == *old(db),
            },
    {
        let allowed = match self.role {
            Role::admin => true,
            Role::teacher => db.is_teacher_of(self.id, grade.subject),
            _ => false,
        };
        if !allowed {
            return Err(ApiError::Unauthorized);
        }
        let course = match db.subject_course(grade.subject) {
            Some(c) => c,
            None => {
                return Err(ApiError::NotFound);
            },
        };
        if !db.is_user_in_course(grade.student_id, course) {
            return Err(ApiError::Validation);
        }
        match grade.assessment_id {
            Some(aid) => {
                if !assessment_in_subject_exec(db, aid, grade.subject) {
                    return Err(ApiError::Validation);
                }
                if db.has_grade_for(aid, grade.student_id) {
                    return Err(ApiError::Conflict);
                }
            },
            None => {},
        }
        if db.next_id == u64::MAX {
            return Err(ApiError::Storage);
        }
        let id = db.next_id;
        let row = Grade {
            id,
            description: Some(grade.description.clone()),
            grade: grade.grade,
            student_id: grade.student_id,
            subject_id: grade.subject,
            assessment_id: crate::structs::clone_opt_u64(&grade.assessment_id),
            grade_type: Some(grade.grade_type),
            created_at: None,
        };
        db.grades.push(row);
        db.next_id = db.next_id + 1;
        Ok(id)
    }

    /// Creates an attendance record.  A preceptor may only record a student
    /// of a course they preside over.
    pub fn post_assistance(&self, db: &mut School, assistance: &NewAssistance) -> (r: Result<
        u64,
        ApiError,
    >)
        requires
            old(db).wf(),
        ensures
            final(db).wf(),
            match r {
                Ok(id) => {
                    &&& post_student_record_check(*self, *old(db), assistance.student_id) is None
                    &&& id == old(db).next_id
                    &&& final(db).assistance@ == old(db).assistance@.push(
                        Assistance {
                            id: old(db).next_id,
                            student_id: assistance.student_id,
                            presence: assistance.presence,
                            date: assistance.date,
                        },
                    )
                    &&& final(db).next_id == old(db).next_id + 1
                    &&& unchanged_except_assistance(*old(db), *final(db))
                },
                Err(e) => post_student_record_check(*self, *old(db), assistance.student_id)
                    == Some(e) && *final(db) == *old(db),
            },
    {
        match student_record_auth(self, db, assistance.student_id) {
            Some(e) => Err(e),
            None => {
                let id = db.next_id;
                db.assistance.push(
                    Assistance {
                        id,
                        student_id: assistance.student_id,
                        presence: assistance.presence.clone(),
                        date: assistance.date,
                    },
                );
                db.next_id = db.next_id + 1;
                Ok(id)
            },
        }
    }

    /// Creates a disciplinary sanction.  A preceptor may only sanction a
    /// student of a course they preside over.
    pub fn post_disciplinary_sanction(&self, db: &mut School, ds: &NewDisciplinarySanction) -> (r:
        Result<u64, ApiError>)
        requires
            old(db).wf(),
        ensures
            final(db).wf(),
            match r {
                Ok(id) => {
                    &&& post_student_record_check(*self, *old(db), ds.student_id) is None
                    &&& id == old(db).next_id
                    &&& final(db).disciplinary_sanctions@ == old(db).disciplinary_sanctions@.push(
                        DisciplinarySanction {
                            id: old(db).next_id,
                            student_id: ds.student_id,
                            sanction_type: ds.sanction_type,
                            quantity: ds.quantity,
                            description: ds.description,
                            date: ds.date,
                        },
                    )
                    &&& final(db).next_id == old(db).next_id + 1
                    &&& unchanged_except_sanctions(*old(db), *final(db))
                },
                Err(e) => post_student_record_check(*self, *old(db), ds.student_id) == Some(e)
                    && *final(db) == *old(db),
            },
    {
        match student_record_auth(self, db, ds.student_id) {
            Some(e) => Err(e),
            None => {
                let id = db.next_id;
                db.disciplinary_sanctions.push(
                    DisciplinarySanction {
                        id,
                        student_id: ds.student_id,
                        sanction_type: ds.sanction_type.clone(),
                        quantity: ds.quantity,
                        description: ds.description.clone(),
                        date: ds.date,
                    },
                );
                db.next_id = db.next_id + 1;
                Ok(id)
            },
        }
    }

    /// Stores the photo reference of this caller's own account; an absent
    /// account leaves the state unchanged.
    pub fn post_profile_picture(&self, db: &mut School, file_name: Option<String>)
        requires
            old(db).wf(),
        ensures
            final(db).wf(),
            photo_set_effect(*old(db), *final(db), self.id, file_name),
    {
        set_photo(db, self.id, file_name);
    }
}

/// The first failing check of a per-student record creation: the caller
/// must be an administrator, or a preceptor of the course of an existing
/// student row.
pub open spec fn post_student_record_check(me: MySelf, db: School, student_id: u64) -> Option<
    ApiError,
> {
    match me.role {
        Role::admin => if db.next_id == u64::MAX {
            Some(ApiError::Storage)
        } else {
            None
        },
        Role::preceptor => match course_of_user(db, student_id) {
            None => Some(ApiError::NotFound),
            Some(c) => if !preceptor_presides(db, me.id, c) {
                Some(ApiError::Unauthorized)
            } else if db.next_id == u64::MAX {
                Some(ApiError::Storage)
            } else {
                None
            },
        },
        _ => Some(ApiError::Unauthorized),
    }
}

fn student_record_auth(me: &MySelf, db: &School, student_id: u64) -> (r: Option<ApiError>)
    ensures
        r == post_student_record_check(*me, *db, student_id),
{
    match me.role {
        Role::admin => {
            if db.next_id == u64::MAX {
                Some(ApiError::Storage)
            } else {
                None
            }
        },
        Role::preceptor => {
            match db.user_course(student_id) {
                None => Some(ApiError::NotFound),
                Some(c) => {
                    if !db.is_preceptor_of(me.id, c) {
                        Some(ApiError::Unauthorized)
                    } else if db.next_id == u64::MAX {
                        Some(ApiError::Storage)
                    } else {
                        None
                    }
                },
            }
        },
        _ => Some(ApiError::Unauthorized),
    }
}

/// The photo reference of the account was replaced and nothing else
/// changed; an absent account means no change at all.
pub open spec fn photo_set_effect(
    old_db: School,
    new_db: School,
    user_id: u64,
    file_name: Option<String>,
) -> bool {
    &&& match user_idx(old_db, user_id) {
        Some(k) => new_db.users@ == old_db.users@.update(
            k,
            UserRow {
                id: old_db.users@[k].id,
                email: old_db.users@[k].email,
                password: old_db.users@[k].password,
                course_id: old_db.users@[k].course_id,
                photo: file_name,
                last_login: old_db.users@[k].last_login,
            },
        ),
        None => new_db.users@ == old_db.users@,
    }
    &&& new_db.next_id == old_db.next_id
    &&& unchanged_except_users(old_db, new_db)
}

/// Replaces the stored photo reference of the account, if it exists.
pub(crate) fn set_photo(db: &mut School, user_id: u64, file_name: Option<String>)
    requires
        old(db).wf(),
    ensures
        final(db).wf(),
        photo_set_effect(*old(db), *final(db), user_id, file_name),
{
    match db.user_pos(user_id) {
        Some(k) => {
            let u = &db.users[k];
            let row = UserRow {
                id: u.id,
                email: u.email.clone(),
                password: u.password.clone(),
                course_id: crate::structs::clone_opt_u64(&u.course_id),
                photo: file_name,
                last_login: u.last_login.clone(),
            };
            db.users.set(k, row);
            proof {
                assert forall|i: int, j: int|
                    0 <= i < j < final(db).users@.len() implies (
                #[trigger] final(db).users@[i].id) != (#[trigger] final(db).users@[j].id) by {
                    assert(final(db).users@[i].id == old(db).users@[i].id);
                    assert(final(db).users@[j].id == old(db).users@[j].id);
                }
                assert forall|i: int|
                    0 <= i < final(db).users@.len() implies (#[trigger] final(db).users@[i].id)
                        < final(db).next_id by {
                    assert(final(db).users@[i].id == old(db).users@[i].id);
                }
            }
        },
        None => {},
    }
}


/// The first failing check of a homework submission: a student submitting,
/// from an existing course, an existing homework-kind assessment of a
/// subject of the same course, not yet submitted by this student.
pub open spec fn post_submission_check(me: MySelf, db: School, homework_id: u64) -> Option<
    ApiError,
> {
    if !(me.role is student) {
        Some(ApiError::Unauthorized)
    } else {
        match course_of_user(db, me.id) {
            None => Some(ApiError::NotFound),
            Some(c) => if !crate::scope::course_exists(db, c) {
                Some(ApiError::NotFound)
            } else {
                match assessment_idx(db, homework_id) {
                    None => Some(ApiError::NotFound),
                    Some(ai) => if !(db.assessments@[ai].type_ is Homework) {
                        Some(ApiError::Validation)
                    } else {
                        match course_of_subject(db, db.assessments@[ai].subject_id) {
                            None => Some(ApiError::NotFound),
                            Some(tc) => if tc != c {
                                Some(ApiError::Unauthorized)
                            } else if homework_submitted(db, me.id, homework_id) {
                                Some(ApiError::Conflict)
                            } else if db.next_id == u64::MAX {
                                Some(ApiError::Storage)
                            } else {
                                None
                            },
                        }
                    },
                }
            },
        }
    }
}

/// The correct answers of the questions of one quiz, in storage order,
/// from table position `i` on.
pub open spec fn quiz_corrects_from(db: School, quiz_id: u64, i: int) -> Seq<String>
    decreases db.selfassessable_tasks@.len() - i,
{
    if !(0 <= i < db.selfassessable_tasks@.len()) {
        Seq::empty()
    } else {
        let rest = quiz_corrects_from(db, quiz_id, i + 1);
        if db.selfassessable_tasks@[i].selfassessable_id == quiz_id {
            seq![db.selfassessable_tasks@[i].correct] + rest
        } else {
            rest
        }
    }
}

/// The correct answers of the questions of one quiz, in storage order.
pub open spec fn quiz_corrects(db: School, quiz_id: u64) -> Seq<String> {
    quiz_corrects_from(db, quiz_id, 0)
}

fn collect_quiz_corrects(db: &School, quiz_id: u64) -> (res: Vec<String>)
    ensures
        res@ == quiz_corrects(*db, quiz_id),
{
    let mut res: Vec<String> = Vec::new();
    let mut i: usize = 0;
    while i < db.selfassessable_tasks.len()
        invariant
            i <= db.selfassessable_tasks@.len(),
            quiz_corrects(*db, quiz_id) == res@ + quiz_corrects_from(*db, quiz_id, i as int),
        decreases db.selfassessable_tasks@.len() - i,
    {
        if db.selfassessable_tasks[i].selfassessable_id == quiz_id {
            proof {
                crate::listing::lemma_push_concat(
                    res@,
                    db.selfassessable_tasks@[i as int].correct,
                    quiz_corrects_from(*db, quiz_id, i + 1),
                );
            }
            res.push(db.selfassessable_tasks[i].correct.clone());
        }
        i += 1;
    }
    res
}

/// The staged score of a submission against the quiz's correct answers:
/// positional matches over the number of submitted answers, scaled to
/// hundredths of the 0-10 scale.
pub open spec fn staged_score(db: School, quiz_id: u64, answers: Seq<String>) -> int {
    let corrects = quiz_corrects(db, quiz_id);
    let n = if answers.len() <= corrects.len() {
        answers.len() as int
    } else {
        corrects.len() as int
    };
    crate::selfassess::score_of(crate::selfassess::match_count(answers, corrects, n), answers.len() as int)
}

/// The first failing check of a quiz submission: a student of the course,
/// on the assessment's exact due date, with a quiz attached, not yet
/// answered, and a non-empty answer list.
pub open spec fn post_quiz_submission_check(
    me: MySelf,
    db: School,
    sub: crate::structs::NewSubmissionSelfAssessable,
    today: u64,
) -> Option<ApiError> {
    if !(me.role is student) {
        Some(ApiError::Unauthorized)
    } else {
        match course_of_user(db, me.id) {
            None => Some(ApiError::NotFound),
            Some(uc) => match assessment_idx(db, sub.assessment_id) {
                None => Some(ApiError::NotFound),
                Some(ai) => if !(db.assessments@[ai].type_ is Selfassessable) {
                    Some(ApiError::Validation)
                } else if db.assessments@[ai].due_date != today {
                    Some(ApiError::Validation)
                } else {
                    match course_of_subject(db, db.assessments@[ai].subject_id) {
                        None => Some(ApiError::NotFound),
                        Some(ac) => if ac != uc {
                            Some(ApiError::Unauthorized)
                        } else {
                            match quiz_by_assessment(db, sub.assessment_id) {
                                None => Some(ApiError::NotFound),
                                Some(qi) => if quiz_answered(db, me.id, db.quizzes@[qi].id) {
                                    Some(ApiError::Conflict)
                                } else if sub.answers@.len() == 0 {
                                    Some(ApiError::Validation)
                                } else if db.next_id + 2 > u64::MAX {
                                    Some(ApiError::Storage)
                                } else {
                                    None
                                },
                            }
                        },
                    }
                },
            },
        }
    }
}

impl MySelf {
    /// Stores a homework submission.  A second submission by the same
    /// student for the same task is a conflict, so the stored count for the
    /// pair never exceeds one.
    pub fn post_submission(&self, db: &mut School, homework_id: u64, path: String) -> (r: Result<
        u64,
        ApiError,
    >)
        requires
            old(db).wf(),
        ensures
            final(db).wf(),
            match r {
                Ok(id) => {
                    &&& post_submission_check(*self, *old(db), homework_id) is None
                    &&& id == old(db).next_id
                    &&& final(db).homework_submissions@ == old(db).homework_submissions@.push(
                        crate::structs::HomeworkSubmission {
                            id: old(db).next_id,
                            path: path,
                            student_id: self.id,
                            task_id: homework_id,
                        },
                    )
                    &&& final(db).next_id == old(db).next_id + 1
                    &&& crate::school::unchanged_except_homework_submissions(
                        *old(db),
                        *final(db),
                    )
                },
                Err(e) => post_submission_check(*self, *old(db), homework_id) == Some(e)
                    && *final(db) == *old(db),
            },
    {
        match self.role {
            Role::student => {},
            _ => {
                return Err(ApiError::Unauthorized);
            },
        }
        let user_course = match db.user_course(self.id) {
            Some(c) => c,
            None => {
                return Err(ApiError::NotFound);
            },
        };
        if !crate::listing::course_exists_exec(db, user_course) {
            return Err(ApiError::NotFound);
        }
        let ai = match db.assessment_pos(homework_id) {
            Some(k) => k,
            None => {
                return Err(ApiError::NotFound);
            },
        };
        match db.assessments[ai].type_ {
            crate::structs::AssessmentType::Homework => {},
            _ => {
                return Err(ApiError::Validation);
            },
        }
        let task_course = match db.subject_course(db.assessments[ai].subject_id) {
            Some(c) => c,
            None => {
                return Err(ApiError::NotFound);
            },
        };
        if task_course != user_course {
            return Err(ApiError::Unauthorized);
        }
        if db.has_homework_submission(self.id, homework_id) {
            return Err(ApiError::Conflict);
        }
        if db.next_id == u64::MAX {
            return Err(ApiError::Storage);
        }
        let id = db.next_id;
        db.homework_submissions.push(
            crate::structs::HomeworkSubmission { id, path, student_id: self.id, task_id: homework_id },
        );
        db.next_id = db.next_id + 1;
        Ok(id)
    }

    /// Grades and stages a quiz submission.  The score is the fraction of
    /// positionally matching answers scaled to hundredths of the 0-10
    /// scale; it is staged as a pending grade, and the raw submission is
    /// stored with its answers joined by commas.  A second submission for
    /// the same quiz is a conflict.
    pub fn post_submission_selfassessable(
        &self,
        db: &mut School,
        task_submission: &crate::structs::NewSubmissionSelfAssessable,
        today: u64,
    ) -> (r: Result<u32, ApiError>)
        requires
            old(db).wf(),
        ensures
            final(db).wf(),
            match r {
                Ok(score) => {
                    &&& post_quiz_submission_check(*self, *old(db), *task_submission, today)
                        is None
                    &&& match quiz_by_assessment(*old(db), task_submission.assessment_id) {
                        Some(qi) => {
                            let quiz_id = old(db).quizzes@[qi].id;
                            &&& score == staged_score(
                                *old(db),
                                quiz_id,
                                task_submission.answers@,
                            )
                            &&& final(db).selfassessable_pending_grades@ == old(
                                db,
                            ).selfassessable_pending_grades@.push(
                                crate::structs::PendingSelfassessableGrade {
                                    id: old(db).next_id,
                                    selfassessable_id: quiz_id,
                                    student_id: self.id,
                                    grade: score,
                                },
                            )
                            &&& final(db).selfassessable_submissions@.len() == old(
                                db,
                            ).selfassessable_submissions@.len() + 1
                            &&& final(db).selfassessable_submissions@.drop_last() == old(
                                db,
                            ).selfassessable_submissions@
                            &&& final(db).selfassessable_submissions@.last().id == old(db).next_id
                                + 1
                            &&& final(db).selfassessable_submissions@.last().selfassessable_id
                                == quiz_id
                            &&& final(db).selfassessable_submissions@.last().student_id == self.id
                            &&& final(db).selfassessable_submissions@.last().answers@
                                == crate::text::join_commas_spec(
                                crate::text::views_of(task_submission.answers@),
                                0,
                            )
                            &&& final(db).next_id == old(db).next_id + 2
                            &&& crate::school::unchanged_except_quiz_submission(
                                *old(db),
                                *final(db),
                            )
                        },
                        None => false,
                    }
                },
                Err(e) => post_quiz_submission_check(*self, *old(db), *task_submission, today)
                    == Some(e) && *final(db) == *old(db),
            },
    {
        match self.role {
            Role::student => {},
            _ => {
                return Err(ApiError::Unauthorized);
            },
        }
        let user_course = match db.user_course(self.id) {
            Some(c) => c,
            None => {
                return Err(ApiError::NotFound);
            },
        };
        let ai = match db.assessment_pos(task_submission.assessment_id) {
            Some(k) => k,
            None => {
                return Err(ApiError::NotFound);
            },
        };
        match db.assessments[ai].type_ {
            crate::structs::AssessmentType::Selfassessable => {},
            _ => {
                return Err(ApiError::Validation);
            },
        }
        if db.assessments[ai].due_date != today {
            return Err(ApiError::Validation);
        }
        let assessable_course = match db.subject_course(db.assessments[ai].subject_id) {
            Some(c) => c,
            None => {
                return Err(ApiError::NotFound);
            },
        };
        if assessable_course != user_course {
            return Err(ApiError::Unauthorized);
        }
        let quiz_id = match db.quiz_pos_by_assessment(task_submission.assessment_id) {
            Some(k) => db.quizzes[k].id,
            None => {
                return Err(ApiError::NotFound);
            },
        };
        if db.has_quiz_answer(self.id, quiz_id) {
            return Err(ApiError::Conflict);
        }
        if task_submission.answers.len() == 0 {
            return Err(ApiError::Validation);
        }
        if db.next_id > u64::MAX - 2 {
            return Err(ApiError::Storage);
        }
        let corrects = collect_quiz_corrects(db, quiz_id);
        let matches = crate::selfassess::count_matches(&task_submission.answers, &corrects);
        let score = crate::selfassess::score_hundredths(matches, task_submission.answers.len());
        let joined = crate::text::join_commas(&task_submission.answers);
        let pending_id = db.next_id;
        db.selfassessable_pending_grades.push(
            crate::structs::PendingSelfassessableGrade {
                id: pending_id,
                selfassessable_id: quiz_id,
                student_id: self.id,
                grade: score,
            },
        );
        db.selfassessable_submissions.push(
            crate::structs::SelfassessableResponse {
                id: pending_id + 1,
                selfassessable_id: quiz_id,
                answers: joined,
                student_id: self.id,
            },
        );
        db.next_id = db.next_id + 2;
        proof {
            assert(final(db).selfassessable_submissions@.drop_last() =~= old(
                db,
            ).selfassessable_submissions@);
            let oldp = old(db).selfassessable_pending_grades@;
            let olds = old(db).selfassessable_submissions@;
            let news = final(db).selfassessable_submissions@;
            assert forall|i: int|
                0 <= i < final(db).selfassessable_pending_grades@.len() implies pair_submitted(
                news,
                (#[trigger] final(db).selfassessable_pending_grades@[i]).student_id,
                final(db).selfassessable_pending_grades@[i].selfassessable_id,
            ) by {
                if i < oldp.len() {
                    assert(final(db).selfassessable_pending_grades@[i] == oldp[i]);
                    assert(pair_submitted(olds, oldp[i].student_id, oldp[i].selfassessable_id));
                    let w = choose|w: int|
                        0 <= w < olds.len() && (#[trigger] olds[w].student_id)
                            == oldp[i].student_id && olds[w].selfassessable_id
                            == oldp[i].selfassessable_id;
                    assert(news[w].student_id == oldp[i].student_id
                        && news[w].selfassessable_id == oldp[i].selfassessable_id);
                } else {
                    assert(news[news.len() - 1].student_id == self.id);
                }
            }
            assert forall|i: int, j: int|
                0 <= i < j < final(db).selfassessable_pending_grades@.len()
                    && (#[trigger] final(db).selfassessable_pending_grades@[i].student_id)
                    == (#[trigger] final(db).selfassessable_pending_grades@[j].student_id)
                    implies final(db).selfassessable_pending_grades@[i].selfassessable_id
                    != final(db).selfassessable_pending_grades@[j].selfassessable_id by {
                if j >= oldp.len() && i < oldp.len() {
                    assert(final(db).selfassessable_pending_grades@[i] == oldp[i]);
                    if oldp[i].student_id == self.id && oldp[i].selfassessable_id == quiz_id {
                        assert(pair_submitted(olds, self.id, quiz_id));
                        assert(quiz_answered(*old(db), self.id, quiz_id));
                        assert(false);
                    }
                }
            }
        }
        Ok(score)
    }
}


/// The first failing check of an assessment creation: an administrator or
/// the teacher of the subject; a self-assessable assessment must carry a
/// valid quiz payload; and enough ids must be available for the assessment,
/// the quiz and its questions.
pub open spec fn post_assessment_check(me: MySelf, db: School, p: crate::structs::Payload) -> Option<
    ApiError,
> {
    if !(me.role is admin || (me.role is teacher && teacher_teaches(db, me.id, p.newtask.subject))) {
        Some(ApiError::Unauthorized)
    } else if p.newtask.type_ is Selfassessable {
        match p.newselfassessable {
            None => Some(ApiError::Validation),
            Some(sa) => if !sa.valid() {
                Some(ApiError::Validation)
            } else if db.next_id + 2 + sa.questions@.len() > u64::MAX {
                Some(ApiError::Storage)
            } else {
                None
            },
        }
    } else if db.next_id == u64::MAX {
        Some(ApiError::Storage)
    } else {
        None
    }
}

/// The assessment row a successful creation inserts.
pub open spec fn new_assessment_row(db: School, t: crate::structs::NewTask, now: u64) -> crate::structs::Assessment {
    crate::structs::Assessment {
        id: db.next_id,
        subject_id: t.subject,
        task: t.task,
        due_date: t.due_date,
        created_at: now,
        type_: t.type_,
    }
}

impl MySelf {
    /// Creates an assessment; for the self-assessable kind, its quiz and
    /// question rows are created in the same step, so that no partial
    /// creation can be observed.
    pub fn post_assessment(&self, db: &mut School, payload: &crate::structs::Payload, now: u64) -> (r:
        Result<u64, ApiError>)
        requires
            old(db).wf(),
        ensures
            final(db).wf(),
            match r {
                Ok(id) => {
                    &&& post_assessment_check(*self, *old(db), *payload) is None
                    &&& id == old(db).next_id
                    &&& final(db).assessments@ == old(db).assessments@.push(
                        new_assessment_row(*old(db), payload.newtask, now),
                    )
                    &&& if payload.newtask.type_ is Selfassessable {
                        match payload.newselfassessable {
                            Some(sa) => {
                                let n = sa.questions@.len();
                                &&& final(db).quizzes@ == old(db).quizzes@.push(
                                    crate::structs::Quiz {
                                        id: (old(db).next_id + 1) as u64,
                                        assessment_id: old(db).next_id,
                                    },
                                )
                                &&& final(db).selfassessable_tasks@.len() == old(
                                    db,
                                ).selfassessable_tasks@.len() + n
                                &&& final(db).selfassessable_tasks@.subrange(
                                    0,
                                    old(db).selfassessable_tasks@.len() as int,
                                ) == old(db).selfassessable_tasks@
                                &&& forall|k: int|
                                    0 <= k < n ==> (
                                    #[trigger] final(db).selfassessable_tasks@[old(db).selfassessable_tasks@.len() + k]) == sa.nth_task(
                                        (old(db).next_id + 1) as u64,
                                        (old(db).next_id + 2 + k) as u64,
                                        k,
                                    )
                                &&& final(db).next_id == old(db).next_id + 2 + n
                            },
                            None => false,
                        }
                    } else {
                        &&& final(db).quizzes@ == old(db).quizzes@
                        &&& final(db).selfassessable_tasks@ == old(db).selfassessable_tasks@
                        &&& final(db).next_id == old(db).next_id + 1
                    }
                    &&& crate::school::unchanged_except_assessment_bundle(*old(db), *final(db))
                },
                Err(e) => post_assessment_check(*self, *old(db), *payload) == Some(e)
                    && *final(db) == *old(db),
            },
    {
        let allowed = match self.role {
            Role::admin => true,
            Role::teacher => db.is_teacher_of(self.id, payload.newtask.subject),
            _ => false,
        };
        if !allowed {
            return Err(ApiError::Unauthorized);
        }
        let is_selfassessable = match payload.newtask.type_ {
            crate::structs::AssessmentType::Selfassessable => true,
            _ => false,
        };
        if is_selfassessable {
            let sa = match &payload.newselfassessable {
                Some(sa) => sa,
                None => {
                    return Err(ApiError::Validation);
                },
            };
            if !sa.validate() {
                return Err(ApiError::Validation);
            }
            let n = sa.questions.len();
            if n as u64 > u64::MAX - 2 || db.next_id > u64::MAX - 2 - (n as u64) {
                return Err(ApiError::Storage);
            }
            let id = db.next_id;
            db.assessments.push(
                crate::structs::Assessment {
                    id,
                    subject_id: payload.newtask.subject,
                    task: payload.newtask.task.clone(),
                    due_date: payload.newtask.due_date,
                    created_at: now,
                    type_: payload.newtask.type_,
                },
            );
            db.quizzes.push(crate::structs::Quiz { id: id + 1, assessment_id: id });
            let mut rows = sa.generate_tasks(id + 1, id + 2);
            let ghost old_tasks = db.selfassessable_tasks@;
            let ghost new_rows = rows@;
            db.selfassessable_tasks.append(&mut rows);
            db.next_id = id + 2 + (n as u64);
            proof {
                assert(final(db).selfassessable_tasks@.subrange(0, old_tasks.len() as int)
                    =~= old_tasks);
                assert forall|a: int, b: int|
                    0 <= a < b < final(db).selfassessable_tasks@.len() implies (
                #[trigger] final(db).selfassessable_tasks@[a].id) != (
                #[trigger] final(db).selfassessable_tasks@[b].id) by {
                    if b < old_tasks.len() {
                    } else if a < old_tasks.len() {
                        assert(final(db).selfassessable_tasks@[a] == old_tasks[a]);
                        assert(old_tasks[a].id < old(db).next_id);
                        assert(final(db).selfassessable_tasks@[b] == new_rows[b
                            - old_tasks.len()]);
                    } else {
                        assert(final(db).selfassessable_tasks@[a] == new_rows[a
                            - old_tasks.len()]);
                        assert(final(db).selfassessable_tasks@[b] == new_rows[b
                            - old_tasks.len()]);
                    }
                }
                assert forall|a: int|
                    0 <= a < final(db).selfassessable_tasks@.len() implies (
                #[trigger] final(db).selfassessable_tasks@[a].id) < final(db).next_id by {
                    if a < old_tasks.len() {
                        assert(final(db).selfassessable_tasks@[a] == old_tasks[a]);
                        assert(old_tasks[a].id < old(db).next_id);
                    } else {
                        assert(final(db).selfassessable_tasks@[a] == new_rows[a
                            - old_tasks.len()]);
                    }
                }
            }
            Ok(id)
        } else {
            if db.next_id == u64::MAX {
                return Err(ApiError::Storage);
            }
            let id = db.next_id;
            db.assessments.push(
                crate::structs::Assessment {
                    id,
                    subject_id: payload.newtask.subject,
                    task: payload.newtask.task.clone(),
                    due_date: payload.newtask.due_date,
                    created_at: now,
                    type_: payload.newtask.type_,
                },
            );
            db.next_id = db.next_id + 1;
            Ok(id)
        }
    }
}


/// The fan-out rows of one broadcast message to a list of course ids, from
/// list position `i` on.
pub open spec fn fanout_from(courses: Seq<u64>, message_id: u64, i: int) -> Seq<
    crate::structs::MessageCourse,
>
    decreases courses.len() - i,
{
    if !(0 <= i < courses.len()) {
        Seq::empty()
    } else {
        seq![crate::structs::MessageCourse { message_id, course_id: courses[i] }] + fanout_from(
            courses,
            message_id,
            i + 1,
        )
    }
}

/// Every parsed course id lies in the valid course range.
pub open spec fn courses_in_range(courses: Seq<u64>) -> bool {
    forall|j: int| 0 <= j < courses.len() ==> 1 <= #[trigger] courses[j] <= 36
}

/// The preceptor presides over at least one course of the list.
pub open spec fn preceptor_owns_one(db: School, preceptor_id: u64, courses: Seq<u64>) -> bool {
    exists|j: int|
        0 <= j < courses.len() && preceptor_presides(db, preceptor_id, #[trigger] courses[j])
}

/// The first failing check of a broadcast-message creation, over the course
/// list parsed from the payload: every target course id must be in range;
/// the caller must be an administrator, or a preceptor presiding over at
/// least one targeted course.
pub open spec fn post_message_check(me: MySelf, db: School, m: crate::structs::NewMessage) -> Option<
    ApiError,
> {
    let courses = crate::text::parse_courses_spec(m.courses@);
    if !courses_in_range(courses) {
        Some(ApiError::Validation)
    } else {
        match me.role {
            Role::admin => if db.next_id == u64::MAX {
                Some(ApiError::Storage)
            } else {
                None
            },
            Role::preceptor => if !preceptor_owns_one(db, me.id, courses) {
                Some(ApiError::Unauthorized)
            } else if db.next_id == u64::MAX {
                Some(ApiError::Storage)
            } else {
                None
            },
            _ => Some(ApiError::Unauthorized),
        }
    }
}

fn courses_in_range_exec(courses: &Vec<u64>) -> (b: bool)
    ensures
        b == courses_in_range(courses@),
{
    let mut i: usize = 0;
    while i < courses.len()
        invariant
            i <= courses@.len(),
            forall|j: int| 0 <= j < i ==> 1 <= #[trigger] courses@[j] <= 36,
        decreases courses@.len() - i,
    {
        if courses[i] == 0 || courses[i] > 36 {
            return false;
        }
        i += 1;
    }
    true
}

fn preceptor_owns_one_exec(db: &School, preceptor_id: u64, courses: &Vec<u64>) -> (b: bool)
    ensures
        b == preceptor_owns_one(*db, preceptor_id, courses@),
{
    let mut i: usize = 0;
    while i < courses.len()
        invariant
            i <= courses@.len(),
            forall|j: int|
                0 <= j < i ==> !preceptor_presides(*db, preceptor_id, #[trigger] courses@[j]),
        decreases courses@.len() - i,
    {
        if db.is_preceptor_of(preceptor_id, courses[i]) {
            return true;
        }
        i += 1;
    }
    false
}

impl MySelf {
    /// Creates a broadcast message and fans it out to the courses named in
    /// the payload's comma-separated list.
    pub fn post_message(&self, db: &mut School, message: &crate::structs::NewMessage) -> (r: Result<
        u64,
        ApiError,
    >)
        requires
            old(db).wf(),
        ensures
            final(db).wf(),
            match r {
                Ok(id) => {
                    &&& post_message_check(*self, *old(db), *message) is None
                    &&& id == old(db).next_id
                    &&& final(db).messages@ == old(db).messages@.push(
                        crate::structs::Message {
                            id: old(db).next_id,
                            title: message.title,
                            message: message.message,
                            sender_id: self.id,
                            created_at: None,
                        },
                    )
                    &&& final(db).message_courses@ == old(db).message_courses@ + fanout_from(
                        crate::text::parse_courses_spec(message.courses@),
                        old(db).next_id,
                        0,
                    )
                    &&& final(db).next_id == old(db).next_id + 1
                    &&& crate::school::unchanged_except_messages(*old(db), *final(db))
                },
                Err(e) => post_message_check(*self, *old(db), *message) == Some(e) && *final(db)
                    == *old(db),
            },
    {
        let courses = crate::text::parse_courses(message.courses.as_str());
        if !courses_in_range_exec(&courses) {
            return Err(ApiError::Validation);
        }
        match self.role {
            Role::admin => {},
            Role::preceptor => {
                if !preceptor_owns_one_exec(db, self.id, &courses) {
                    return Err(ApiError::Unauthorized);
                }
            },
            _ => {
                return Err(ApiError::Unauthorized);
            },
        }
        if db.next_id == u64::MAX {
            return Err(ApiError::Storage);
        }
        let id = db.next_id;
        db.messages.push(
            crate::structs::Message {
                id,
                title: message.title.clone(),
                message: message.message.clone(),
                sender_id: self.id,
                created_at: None,
            },
        );
        db.next_id = db.next_id + 1;
        let ghost parsed = courses@;
        let mut i: usize = 0;
        while i < courses.len()
            invariant
                i <= courses@.len(),
                courses@ == parsed,
                id == old(db).next_id,
                db.wf(),
                db.next_id == old(db).next_id + 1,
                db.messages@ == old(db).messages@.push(
                    crate::structs::Message {
                        id: old(db).next_id,
                        title: message.title,
                        message: message.message,
                        sender_id: self.id,
                        created_at: None,
                    },
                ),
                db.message_courses@ + fanout_from(parsed, id, i as int) == old(
                    db,
                ).message_courses@ + fanout_from(parsed, id, 0),
                crate::school::unchanged_except_messages(*old(db), *db),
            decreases courses@.len() - i,
        {
            proof {
                crate::listing::lemma_push_concat(
                    db.message_courses@,
                    crate::structs::MessageCourse { message_id: id, course_id: parsed[i as int] },
                    fanout_from(parsed, id, i + 1),
                );
            }
            db.message_courses.push(
                crate::structs::MessageCourse { message_id: id, course_id: courses[i] },
            );
            i += 1;
        }
        Ok(id)
    }

    /// Creates a per-subject announcement.  Only an administrator or the
    /// teacher of the subject may post one, and only of the plain or
    /// file-backed kinds.
    pub fn post_subject_messages(
        &self,
        db: &mut School,
        msg: &crate::structs::NewSubjectMessage,
        now: u64,
    ) -> (r: Result<u64, ApiError>)
        requires
            old(db).wf(),
        ensures
            final(db).wf(),
            match r {
                Ok(id) => {
                    &&& post_subject_message_check(*self, *old(db), *msg) is None
                    &&& id == old(db).next_id
                    &&& final(db).subject_messages@ == old(db).subject_messages@.push(
                        crate::structs::SubjectMessage {
                            id: old(db).next_id,
                            sender_id: self.id,
                            subject_id: msg.subject_id,
                            title: msg.title,
                            content: msg.content,
                            created_at: now,
                            type_: msg.type_,
                        },
                    )
                    &&& final(db).next_id == old(db).next_id + 1
                    &&& crate::school::unchanged_except_subject_messages(*old(db), *final(db))
                },
                Err(e) => post_subject_message_check(*self, *old(db), *msg) == Some(e)
                    && *final(db) == *old(db),
            },
    {
        match msg.type_ {
            crate::structs::SubjectMessageType::Link => {
                return Err(ApiError::Validation);
            },
            _ => {},
        }
        let allowed = match self.role {
            Role::admin => true,
            Role::teacher => db.is_teacher_of(self.id, msg.subject_id),
            _ => false,
        };
        if !allowed {
            return Err(ApiError::Unauthorized);
        }
        if db.next_id == u64::MAX {
            return Err(ApiError::Storage);
        }
        let id = db.next_id;
        db.subject_messages.push(
            crate::structs::SubjectMessage {
                id,
                sender_id: self.id,
                subject_id: msg.subject_id,
                title: msg.title.clone(),
                content: msg.content.clone(),
                created_at: now,
                type_: msg.type_,
            },
        );
        db.next_id = db.next_id + 1;
        Ok(id)
    }
}

/// The first failing check of a subject-message creation: the kind must be
/// plain or file-backed, and the caller an administrator or the subject's
/// teacher.
pub open spec fn post_subject_message_check(
    me: MySelf,
    db: School,
    msg: crate::structs::NewSubjectMessage,
) -> Option<ApiError> {
    if msg.type_ is Link {
        Some(ApiError::Validation)
    } else if !(me.role is admin || (me.role is teacher && teacher_teaches(
        db,
        me.id,
        msg.subject_id,
    ))) {
        Some(ApiError::Unauthorized)
    } else if db.next_id == u64::MAX {
        Some(ApiError::Storage)
    } else {
        None
    }
}

} // verus!
