//! The mutation authorizer for deletion: each delete removes exactly the
//! one row it names after its ownership checks pass, or rejects the
//! request and leaves the state untouched.  Deletes of file-backed rows
//! also report which stored file the caller must remove.

use vstd::prelude::*;

use crate::school::{
    assessment_idx, assistance_idx, course_of_user, grade_idx, message_idx, pd_idx,
    preceptor_presides, sanction_idx, subject_message_idx, submission_idx, School,
};
use crate::school::{
    lemma_assessments_remove_wf, lemma_assistance_remove_wf, lemma_grades_remove_wf,
    lemma_homework_remove_wf, lemma_messages_remove_wf, lemma_personal_data_remove_wf,
    lemma_sanctions_remove_wf, lemma_subject_messages_remove_wf,
};
use crate::school::{
    unchanged_except_assessments, unchanged_except_assistance, unchanged_except_grades,
    unchanged_except_homework_submissions, unchanged_except_messages,
    unchanged_except_personal_data, unchanged_except_sanctions, unchanged_except_subject_messages,
};
use crate::structs::{MySelf, Role, SubjectMessageType};
use crate::updates::{
    assessment_of_teacher, assessment_of_teacher_exec, grade_of_teacher, message_of_sender,
    subject_message_of_teacher, submission_of_student,
};
use crate::ApiError;

verus! {

/// The named row was removed, or nothing changed when no row has the id.
pub open spec fn assessment_delete_effect(a: School, b: School, aid: u64) -> bool {
    &&& match assessment_idx(a, aid) {
        Some(k) => b.assessments@ == a.assessments@.remove(k),
        None => b.assessments@ == a.assessments@,
    }
    &&& b.next_id == a.next_id
    &&& unchanged_except_assessments(a, b)
}

/// The named row was removed, or nothing changed when no row has the id.
pub open spec fn grade_delete_effect(a: School, b: School, gid: u64) -> bool {
    &&& match grade_idx(a, gid) {
        Some(k) => b.grades@ == a.grades@.remove(k),
        None => b.grades@ == a.grades@,
    }
    &&& b.next_id == a.next_id
    &&& unchanged_except_grades(a, b)
}

/// The named message row was removed; its fan-out rows stay behind, as the
/// storage layer leaves them.
pub open spec fn message_delete_effect(a: School, b: School, mid: u64) -> bool {
    &&& match message_idx(a, mid) {
        Some(k) => b.messages@ == a.messages@.remove(k),
        None => b.messages@ == a.messages@,
    }
    &&& b.message_courses@ == a.message_courses@
    &&& b.next_id == a.next_id
    &&& unchanged_except_messages(a, b)
}

/// The personal-data row of the account was removed, or nothing changed.
pub open spec fn personal_data_delete_effect(a: School, b: School, user_id: u64) -> bool {
    &&& match pd_idx(a, user_id) {
        Some(k) => b.personal_data@ == a.personal_data@.remove(k),
        None => b.personal_data@ == a.personal_data@,
    }
    &&& b.next_id == a.next_id
    &&& unchanged_except_personal_data(a, b)
}

/// The named subject-message row was removed, or nothing changed.
pub open spec fn subject_message_delete_effect(a: School, b: School, sm_id: u64) -> bool {
    &&& match subject_message_idx(a, sm_id) {
        Some(k) => b.subject_messages@ == a.subject_messages@.remove(k),
        None => b.subject_messages@ == a.subject_messages@,
    }
    &&& b.next_id == a.next_id
    &&& unchanged_except_subject_messages(a, b)
}

/// The named submission row was removed, or nothing changed.
pub open spec fn submission_delete_effect(a: School, b: School, sid: u64) -> bool {
    &&& match submission_idx(a, sid) {
        Some(k) => b.homework_submissions@ == a.homework_submissions@.remove(k),
        None => b.homework_submissions@ == a.homework_submissions@,
    }
    &&& b.next_id == a.next_id
    &&& unchanged_except_homework_submissions(a, b)
}

/// The named attendance row was removed, or nothing changed.
pub open spec fn assistance_delete_effect(a: School, b: School, aid: u64) -> bool {
    &&& match assistance_idx(a, aid) {
        Some(k) => b.assistance@ == a.assistance@.remove(k),
        None => b.assistance@ == a.assistance@,
    }
    &&& b.next_id == a.next_id
    &&& unchanged_except_assistance(a, b)
}

/// The named sanction row was removed, or nothing changed.
pub open spec fn sanction_delete_effect(a: School, b: School, ds_id: u64) -> bool {
    &&& match sanction_idx(a, ds_id) {
        Some(k) => b.disciplinary_sanctions@ == a.disciplinary_sanctions@.remove(k),
        None => b.disciplinary_sanctions@ == a.disciplinary_sanctions@,
    }
    &&& b.next_id == a.next_id
    &&& unchanged_except_sanctions(a, b)
}

/// The first failing check of an attendance or sanction delete by row: an
/// administrator, or a preceptor presiding over the course of the student
/// of the existing row.
pub open spec fn student_row_delete_check(
    me: MySelf,
    db: School,
    row_idx: Option<int>,
    student_of_row: u64,
) -> Option<ApiError> {
    match me.role {
        Role::admin => None,
        Role::preceptor => match row_idx {
            None => Some(ApiError::NotFound),
            Some(_) => match course_of_user(db, student_of_row) {
                None => Some(ApiError::NotFound),
                Some(c) => if !preceptor_presides(db, me.id, c) {
                    Some(ApiError::Unauthorized)
                } else {
                    None
                },
            },
        },
        _ => Some(ApiError::Unauthorized),
    }
}

impl MySelf {
    /// Deletes an assessment: an administrator or the teacher of its
    /// subject.
    pub fn delete_assessment(&self, db: &mut School, assessment_id: u64) -> (r: Result<
        (),
        ApiError,
    >)
        requires
            old(db).wf(),
        ensures
            final(db).wf(),
            match r {
                Ok(_) => (self.role is admin || (self.role is teacher && assessment_of_teacher(
                    *old(db),
                    self.id,
                    assessment_id,
                ))) && assessment_delete_effect(*old(db), *final(db), assessment_id),
                Err(e) => e == ApiError::Unauthorized && !(self.role is admin || (self.role
                    is teacher && assessment_of_teacher(*old(db), self.id, assessment_id)))
                    && *final(db) == *old(db),
            },
    {
        let allowed = match self.role {
            Role::admin => true,
            Role::teacher => assessment_of_teacher_exec(db, self.id, assessment_id),
            _ => false,
        };
        if !allowed {
            return Err(ApiError::Unauthorized);
        }
        match db.assessment_pos(assessment_id) {
            Some(k) => {
                db.assessments.remove(k);
                proof {
                    lemma_assessments_remove_wf(*old(db), *db, k as int);
                }
            },
            None => {},
        }
        Ok(())
    }

    /// Deletes a grade: an administrator or the teacher of its subject.
    pub fn delete_grade(&self, db: &mut School, grade_id: u64) -> (r: Result<(), ApiError>)
        requires
            old(db).wf(),
        ensures
            final(db).wf(),
            match r {
                Ok(_) => (self.role is admin || (self.role is teacher && grade_of_teacher(
                    *old(db),
                    self.id,
                    grade_id,
                ))) && grade_delete_effect(*old(db), *final(db), grade_id),
                Err(e) => e == ApiError::Unauthorized && !(self.role is admin || (self.role
                    is teacher && grade_of_teacher(*old(db), self.id, grade_id))) && *final(db)
                    == *old(db),
            },
    {
        let allowed = match self.role {
            Role::admin => true,
            Role::teacher => crate::updates::grade_of_teacher_exec(db, self.id, grade_id),
            _ => false,
        };
        if !allowed {
            return Err(ApiError::Unauthorized);
        }
        match db.grade_pos(grade_id) {
            Some(k) => {
                db.grades.remove(k);
                proof {
                    lemma_grades_remove_wf(*old(db), *db, k as int);
                }
            },
            None => {},
        }
        Ok(())
    }

    /// Deletes a broadcast message: an administrator, a preceptor, or its
    /// sender.
    pub fn delete_message(&self, db: &mut School, message_id: u64) -> (r: Result<(), ApiError>)
        requires
            old(db).wf(),
        ensures
            final(db).wf(),
            match r {
                Ok(_) => (self.role is admin || self.role is preceptor || message_of_sender(
                    *old(db),
                    self.id,
                    message_id,
                )) && message_delete_effect(*old(db), *final(db), message_id),
                Err(e) => e == ApiError::Unauthorized && !(self.role is admin || self.role
                    is preceptor || message_of_sender(*old(db), self.id, message_id))
                    && *final(db) == *old(db),
            },
    {
        let allowed = match self.role {
            Role::admin | Role::preceptor => true,
            _ => crate::updates::message_of_sender_exec(db, self.id, message_id),
        };
        if !allowed {
            return Err(ApiError::Unauthorized);
        }
        match db.message_pos(message_id) {
            Some(k) => {
                db.messages.remove(k);
                proof {
                    lemma_messages_remove_wf(*old(db), *db, k as int);
                }
            },
            None => {},
        }
        Ok(())
    }

    /// Deletes the personal data of an account: administrators only.
    pub fn delete_personal_data(&self, db: &mut School, user_id: u64) -> (r: Result<(), ApiError>)
        requires
            old(db).wf(),
        ensures
            final(db).wf(),
            match r {
                Ok(_) => self.role is admin && personal_data_delete_effect(
                    *old(db),
                    *final(db),
                    user_id,
                ),
                Err(e) => e == ApiError::Unauthorized && !(self.role is admin) && *final(db)
                    == *old(db),
            },
    {
        match self.role {
            Role::admin => {},
            _ => {
                return Err(ApiError::Unauthorized);
            },
        }
        match db.pd_pos(user_id) {
            Some(k) => {
                db.personal_data.remove(k);
                proof {
                    lemma_personal_data_remove_wf(*old(db), *db, k as int);
                }
            },
            None => {},
        }
        Ok(())
    }

    /// Clears the photo reference of an account: an administrator or the
    /// account itself.
    pub fn delete_profile_picture(&self, db: &mut School, user_id: u64) -> (r: Result<
        (),
        ApiError,
    >)
        requires
            old(db).wf(),
        ensures
            final(db).wf(),
            match r {
                Ok(_) => (self.role is admin || self.id == user_id)
                    && crate::posts::photo_set_effect(
                    *old(db),
                    *final(db),
                    user_id,
                    None::<String>,
                ),
                Err(e) => e == ApiError::Unauthorized && !(self.role is admin || self.id
                    == user_id) && *final(db) == *old(db),
            },
    {
        let is_admin = match self.role {
            Role::admin => true,
            _ => false,
        };
        if !is_admin && self.id != user_id {
            return Err(ApiError::Unauthorized);
        }
        crate::posts::set_photo(db, user_id, None);
        Ok(())
    }

    /// Deletes a per-subject announcement: an administrator or the teacher
    /// of its subject.  For a file-backed announcement the stored file path
    /// is returned so the caller removes the backing file in the same
    /// logical operation; a plain announcement returns no path.
    pub fn delete_subject_message(&self, db: &mut School, subject_message_id: u64) -> (r: Result<
        Option<String>,
        ApiError,
    >)
        requires
            old(db).wf(),
        ensures
            final(db).wf(),
            match r {
                Ok(file) => {
                    &&& (self.role is admin || (self.role is teacher
                        && subject_message_of_teacher(*old(db), self.id, subject_message_id)))
                    &&& subject_message_delete_effect(*old(db), *final(db), subject_message_id)
                    &&& match subject_message_idx(*old(db), subject_message_id) {
                        Some(k) => file == if old(db).subject_messages@[k].type_ is File {
                            Some(old(db).subject_messages@[k].content)
                        } else {
                            None::<String>
                        },
                        None => file is None,
                    }
                },
                Err(e) => e == ApiError::Unauthorized && !(self.role is admin || (self.role
                    is teacher && subject_message_of_teacher(*old(db), self.id, subject_message_id)))
                    && *final(db) == *old(db),
            },
    {
        let allowed = match self.role {
            Role::admin => true,
            Role::teacher => crate::updates::subject_message_of_teacher_exec(
                db,
                self.id,
                subject_message_id,
            ),
            _ => false,
        };
        if !allowed {
            return Err(ApiError::Unauthorized);
        }
        match db.subject_message_pos(subject_message_id) {
            Some(k) => {
                let file = match db.subject_messages[k].type_ {
                    SubjectMessageType::File => Some(db.subject_messages[k].content.clone()),
                    _ => None,
                };
                db.subject_messages.remove(k);
                proof {
                    lemma_subject_messages_remove_wf(*old(db), *db, k as int);
                }
                Ok(file)
            },
            None => Ok(None),
        }
    }

    /// Deletes a homework submission: an administrator or the submitting
    /// student.  The stored file path of the removed row is returned so the
    /// caller removes the backing file in the same logical operation.
    pub fn delete_submission(&self, db: &mut School, submission_id: u64) -> (r: Result<
        Option<String>,
        ApiError,
    >)
        requires
            old(db).wf(),
        ensures
            final(db).wf(),
            match r {
                Ok(file) => {
                    &&& (self.role is admin || (self.role is student && submission_of_student(
                        *old(db),
                        self.id,
                        submission_id,
                    )))
                    &&& submission_delete_effect(*old(db), *final(db), submission_id)
                    &&& match submission_idx(*old(db), submission_id) {
                        Some(k) => file == Some(old(db).homework_submissions@[k].path),
                        None => file is None,
                    }
                },
                Err(e) => e == ApiError::Unauthorized && !(self.role is admin || (self.role
                    is student && submission_of_student(*old(db), self.id, submission_id)))
                    && *final(db) == *old(db),
            },
    {
        let allowed = match self.role {
            Role::admin => true,
            Role::student => crate::updates::submission_of_student_exec(
                db,
                self.id,
                submission_id,
            ),
            _ => false,
        };
        if !allowed {
            return Err(ApiError::Unauthorized);
        }
        match db.submission_pos(submission_id) {
            Some(k) => {
                let file = Some(db.homework_submissions[k].path.clone());
                db.homework_submissions.remove(k);
                proof {
                    lemma_homework_remove_wf(*old(db), *db, k as int);
                }
                Ok(file)
            },
            None => Ok(None),
        }
    }

    /// Deletes an attendance row: an administrator, or a preceptor
    /// presiding over the course of the recorded student.
    pub fn delete_assistance(&self, db: &mut School, assistance_id: u64) -> (r: Result<
        (),
        ApiError,
    >)
        requires
            old(db).wf(),
        ensures
            final(db).wf(),
            match r {
                Ok(_) => student_row_delete_check(
                    *self,
                    *old(db),
                    assistance_idx(*old(db), assistance_id),
                    match assistance_idx(*old(db), assistance_id) {
                        Some(k) => old(db).assistance@[k].student_id,
                        None => 0,
                    },
                ) is None && assistance_delete_effect(*old(db), *final(db), assistance_id),
                Err(e) => student_row_delete_check(
                    *self,
                    *old(db),
                    assistance_idx(*old(db), assistance_id),
                    match assistance_idx(*old(db), assistance_id) {
                        Some(k) => old(db).assistance@[k].student_id,
                        None => 0,
                    },
                ) == Some(e) && *final(db) == *old(db),
            },
    {
        match self.role {
            Role::admin => {},
            Role::preceptor => {
                let k = match db.assistance_row_pos(assistance_id) {
                    Some(k) => k,
                    None => {
                        return Err(ApiError::NotFound);
                    },
                };
                let c = match db.user_course(db.assistance[k].student_id) {
                    Some(c) => c,
                    None => {
                        return Err(ApiError::NotFound);
                    },
                };
                if !db.is_preceptor_of(self.id, c) {
                    return Err(ApiError::Unauthorized);
                }
            },
            _ => {
                return Err(ApiError::Unauthorized);
            },
        }
        match db.assistance_row_pos(assistance_id) {
            Some(k) => {
                db.assistance.remove(k);
                proof {
                    lemma_assistance_remove_wf(*old(db), *db, k as int);
                }
            },
            None => {},
        }
        Ok(())
    }

    /// Deletes a disciplinary sanction: an administrator, or a preceptor
    /// presiding over the course of the sanctioned student.
    pub fn delete_disciplinary_sanction(&self, db: &mut School, disciplinary_sanction_id: u64) -> (r:
        Result<(), ApiError>)
        requires
            old(db).wf(),
        ensures
            final(db).wf(),
            match r {
                Ok(_) => student_row_delete_check(
                    *self,
                    *old(db),
                    sanction_idx(*old(db), disciplinary_sanction_id),
                    match sanction_idx(*old(db), disciplinary_sanction_id) {
                        Some(k) => old(db).disciplinary_sanctions@[k].student_id,
                        None => 0,
                    },
                ) is None && sanction_delete_effect(
                    *old(db),
                    *final(db),
                    disciplinary_sanction_id,
                ),
                Err(e) => student_row_delete_check(
                    *self,
                    *old(db),
                    sanction_idx(*old(db), disciplinary_sanction_id),
                    match sanction_idx(*old(db), disciplinary_sanction_id) {
                        Some(k) => old(db).disciplinary_sanctions@[k].student_id,
                        None => 0,
                    },
                ) == Some(e) && *final(db) == *old(db),
            },
    {
        match self.role {
            Role::admin => {},
            Role::preceptor => {
                let k = match db.sanction_pos(disciplinary_sanction_id) {
                    Some(k) => k,
                    None => {
                        return Err(ApiError::NotFound);
                    },
                };
                let c = match db.user_course(db.disciplinary_sanctions[k].student_id) {
                    Some(c) => c,
                    None => {
                        return Err(ApiError::NotFound);
                    },
                };
                if !db.is_preceptor_of(self.id, c) {
                    return Err(ApiError::Unauthorized);
                }
            },
            _ => {
                return Err(ApiError::Unauthorized);
            },
        }
        match db.sanction_pos(disciplinary_sanction_id) {
            Some(k) => {
                db.disciplinary_sanctions.remove(k);
                proof {
                    lemma_sanctions_remove_wf(*old(db), *db, k as int);
                }
            },
            None => {},
        }
        Ok(())
    }
}

} // verus!
