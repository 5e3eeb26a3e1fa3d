//! Creation of the reference rows every other operation builds on:
//! accounts, granted roles, family links, courses, subjects, timetable
//! slots and personal data.  Each insert allocates the next id, preserves
//! the well-formedness invariant, and changes nothing else.

use vstd::prelude::*;

use crate::school::{pd_idx, School};
use crate::school::{
    unchanged_except_courses, unchanged_except_families, unchanged_except_personal_data,
    unchanged_except_roles, unchanged_except_subjects, unchanged_except_timetables,
    unchanged_except_users,
};
use crate::structs::{Course, Family, PersonalDataRow, Role, RoleRow, SubjectRow, Timetable, UserRow};
use crate::ApiError;

verus! {

impl School {
    /// Creates an account with the given credentials and optional course
    /// membership, allocating its id.
    pub fn insert_user(&mut self, email: String, password: String, course_id: Option<u64>) -> (r:
        Result<u64, ApiError>)
        requires
            old(self).wf(),
        ensures
            final(self).wf(),
            match r {
                Ok(id) => {
                    &&& old(self).next_id < u64::MAX
                    &&& id == old(self).next_id
                    &&& final(self).next_id == old(self).next_id + 1
                    &&& final(self).users@.len() == old(self).users@.len() + 1
                    &&& final(self).users@.drop_last() == old(self).users@
                    &&& final(self).users@.last().id == id
                    &&& final(self).users@.last().email == email
                    &&& final(self).users@.last().password == password
                    &&& final(self).users@.last().course_id == course_id
                    &&& final(self).users@.last().photo is None
                    &&& final(self).users@.last().last_login@ == Seq::<char>::empty()
                    &&& unchanged_except_users(*old(self), *final(self))
                },
                Err(e) => e == ApiError::Storage && old(self).next_id == u64::MAX && *final(self)
                    == *old(self),
            },
    {
        if self.next_id == u64::MAX {
            return Err(ApiError::Storage);
        }
        let id = self.next_id;
        let row = UserRow {
            id,
            email,
            password,
            course_id,
            photo: None,
            last_login: String::new(),
        };
        self.users.push(row);
        self.next_id = self.next_id + 1;
        proof {
            assert(final(self).users@.drop_last() =~= old(self).users@);
        }
        Ok(id)
    }

    /// Grants a role to an account.
    pub fn insert_role(&mut self, user_id: u64, role: Role)
        requires
            old(self).wf(),
        ensures
            final(self).wf(),
            final(self).roles@ == old(self).roles@.push(RoleRow { user_id, role }),
            final(self).next_id == old(self).next_id,
            unchanged_except_roles(*old(self), *final(self)),
    {
        self.roles.push(RoleRow { user_id, role });
    }

    /// Links a father account to a student account.
    pub fn insert_family(&mut self, father_id: u64, student_id: u64)
        requires
            old(self).wf(),
        ensures
            final(self).wf(),
            final(self).families@ == old(self).families@.push(Family { father_id, student_id }),
            final(self).next_id == old(self).next_id,
            unchanged_except_families(*old(self), *final(self)),
    {
        self.families.push(Family { father_id, student_id });
    }

    /// Creates a course, allocating its id.
    pub fn insert_course(
        &mut self,
        year: i32,
        division: String,
        level: String,
        shift: String,
        preceptor_id: Option<u64>,
        name: String,
    ) -> (r: Result<u64, ApiError>)
        requires
            old(self).wf(),
        ensures
            final(self).wf(),
            match r {
                Ok(id) => {
                    &&& old(self).next_id < u64::MAX
                    &&& id == old(self).next_id
                    &&& final(self).next_id == old(self).next_id + 1
                    &&& final(self).courses@ == old(self).courses@.push(
                        Course { id, year, division, level, shift, preceptor_id, name },
                    )
                    &&& unchanged_except_courses(*old(self), *final(self))
                },
                Err(e) => e == ApiError::Storage && old(self).next_id == u64::MAX && *final(self)
                    == *old(self),
            },
    {
        if self.next_id == u64::MAX {
            return Err(ApiError::Storage);
        }
        let id = self.next_id;
        self.courses.push(Course { id, year, division, level, shift, preceptor_id, name });
        self.next_id = self.next_id + 1;
        Ok(id)
    }

    /// Creates a subject inside a course, taught by a teacher, allocating
    /// its id.
    pub fn insert_subject(&mut self, name: String, teacher_id: u64, course_id: u64) -> (r: Result<
        u64,
        ApiError,
    >)
        requires
            old(self).wf(),
        ensures
            final(self).wf(),
            match r {
                Ok(id) => {
                    &&& old(self).next_id < u64::MAX
                    &&& id == old(self).next_id
                    &&& final(self).next_id == old(self).next_id + 1
                    &&& final(self).subjects@ == old(self).subjects@.push(
                        SubjectRow { id, name, teacher_id, course_id },
                    )
                    &&& unchanged_except_subjects(*old(self), *final(self))
                },
                Err(e) => e == ApiError::Storage && old(self).next_id == u64::MAX && *final(self)
                    == *old(self),
            },
    {
        if self.next_id == u64::MAX {
            return Err(ApiError::Storage);
        }
        let id = self.next_id;
        self.subjects.push(SubjectRow { id, name, teacher_id, course_id });
        self.next_id = self.next_id + 1;
        Ok(id)
    }

    /// Creates a timetable slot, allocating its id.
    pub fn insert_timetable(
        &mut self,
        course_id: u64,
        subject_id: u64,
        day: String,
        start_time: u32,
        end_time: u32,
    ) -> (r: Result<u64, ApiError>)
        requires
            old(self).wf(),
        ensures
            final(self).wf(),
            match r {
                Ok(id) => {
                    &&& old(self).next_id < u64::MAX
                    &&& id == old(self).next_id
                    &&& final(self).next_id == old(self).next_id + 1
                    &&& final(self).timetables@ == old(self).timetables@.push(
                        Timetable { id, course_id, subject_id, day, start_time, end_time },
                    )
                    &&& unchanged_except_timetables(*old(self), *final(self))
                },
                Err(e) => e == ApiError::Storage && old(self).next_id == u64::MAX && *final(self)
                    == *old(self),
            },
    {
        if self.next_id == u64::MAX {
            return Err(ApiError::Storage);
        }
        let id = self.next_id;
        self.timetables.push(Timetable { id, course_id, subject_id, day, start_time, end_time });
        self.next_id = self.next_id + 1;
        Ok(id)
    }

    /// Stores the personal data of an account; at most one row may exist
    /// per account, so a second insert is a conflict.
    pub fn insert_personal_data(
        &mut self,
        user_id: u64,
        full_name: String,
        phone_number: String,
        address: String,
        birth_date: u64,
    ) -> (r: Result<(), ApiError>)
        requires
            old(self).wf(),
        ensures
            final(self).wf(),
            match r {
                Ok(_) => {
                    &&& pd_idx(*old(self), user_id) is None
                    &&& final(self).personal_data@ == old(self).personal_data@.push(
                        PersonalDataRow { user_id, full_name, phone_number, address, birth_date },
                    )
                    &&& final(self).next_id == old(self).next_id
                    &&& unchanged_except_personal_data(*old(self), *final(self))
                },
                Err(e) => e == ApiError::Conflict && pd_idx(*old(self), user_id) is Some
                    && *final(self) == *old(self),
            },
    {
        match self.pd_pos(user_id) {
            Some(_) => Err(ApiError::Conflict),
            None => {
                proof {
                    crate::school::lemma_pd_idx_none(*self, user_id);
                }
                self.personal_data.push(
                    PersonalDataRow { user_id, full_name, phone_number, address, birth_date },
                );
                Ok(())
            },
        }
    }
}

} // verus!
