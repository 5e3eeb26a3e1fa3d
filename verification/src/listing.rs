//! The access-scoped listings: for each entity kind, the rows an identity
//! may read, computed as exactly the scope-and-filter selection that
//! [`crate::scope`] specifies.
//!
//! Each listing has a recursive specification `*_listed_from` that walks the
//! table in storage order and keeps the rows the visibility predicate
//! accepts; the executable listing returns precisely that sequence.

use vstd::prelude::*;

use crate::filters::{
    AssessmentFilter, AssistanceFilter, DisciplinarySanctionFilter, GradeFilter, MessageFilter,
    SubjectFilter, SubjectMessageFilter, TimetableFilter, UserFilter,
};
use crate::school::{course_idx, School};
use crate::scope::{
    assessment_subject_scope, assessment_visible, course_exists, course_visible,
    father_has_student_in_course, grade_visible, message_course_ok, message_visible,
    assistance_visible, pd_name_contains, sanction_visible, student_under_preceptor,
    subject_message_visible, subject_row_visible, timetable_visible, user_row_visible,
};
use crate::structs::{
    Assessment, Assistance, Course, DisciplinarySanction, Grade, Message, MySelf, PubUser, Role,
    Subject, SubjectMessage, Timetable,
};
use crate::text::{ci_contains_exec, str_eq};

verus! {

/// Concatenation form of a push, used when a loop extends its result.
pub proof fn lemma_push_concat<A>(a: Seq<A>, x: A, b: Seq<A>)
    ensures
        a.push(x) + b == a + (seq![x] + b),
{
    assert(a.push(x) + b =~= a + (seq![x] + b));
}

/// The grades listed for `me` under filter `f`, from table position `i` on.
pub open spec fn grades_listed_from(me: MySelf, db: School, f: GradeFilter, i: int) -> Seq<Grade>
    decreases db.grades@.len() - i,
{
    if !(0 <= i < db.grades@.len()) {
        Seq::empty()
    } else {
        let rest = grades_listed_from(me, db, f, i + 1);
        if grade_visible(me, db, f, db.grades@[i]) {
            seq![db.grades@[i]] + rest
        } else {
            rest
        }
    }
}

/// The grades the identity may read under the filter.
pub open spec fn grades_listed(me: MySelf, db: School, f: GradeFilter) -> Seq<Grade> {
    grades_listed_from(me, db, f, 0)
}

/// Decides the preceptor grade scope: the subject of the grade exists and
/// belongs to a course the preceptor presides over.
fn grade_preceptor_scope(db: &School, preceptor_id: u64, subject_id: u64) -> (b: bool)
    ensures
        b == exists|i: int|
            0 <= i < db.subjects@.len() && #[trigger] db.subjects@[i].id == subject_id
                && crate::school::preceptor_presides(*db, preceptor_id, db.subjects@[i].course_id),
{
    let mut i: usize = 0;
    while i < db.subjects.len()
        invariant
            i <= db.subjects@.len(),
            forall|k: int|
                0 <= k < i ==> !(#[trigger] db.subjects@[k].id == subject_id
                    && crate::school::preceptor_presides(
                    *db,
                    preceptor_id,
                    db.subjects@[k].course_id,
                )),
        decreases db.subjects@.len() - i,
    {
        if db.subjects[i].id == subject_id && db.is_preceptor_of(
            preceptor_id,
            db.subjects[i].course_id,
        ) {
            return true;
        }
        i += 1;
    }
    false
}

fn grade_visible_exec(me: &MySelf, db: &School, f: &GradeFilter, i: usize) -> (b: bool)
    requires
        i < db.grades@.len(),
    ensures
        b == grade_visible(*me, *db, *f, db.grades@[i as int]),
{
    let g = &db.grades[i];
    let scope_ok = match me.role {
        Role::admin => true,
        Role::student => g.student_id == me.id,
        Role::teacher => db.is_teacher_of(me.id, g.subject_id),
        Role::father => db.is_linked_family(me.id, g.student_id),
        Role::preceptor => grade_preceptor_scope(db, me.id, g.subject_id),
    };
    if !scope_ok {
        return false;
    }
    let student_ok = match f.student_id {
        Some(s) => g.student_id == s,
        None => true,
    };
    let subject_ok = match f.subject_id {
        Some(s) => g.subject_id == s,
        None => true,
    };
    let description_ok = match &f.description {
        Some(d) => match &g.description {
            Some(gd) => str_eq(gd, d),
            None => false,
        },
        None => true,
    };
    student_ok && subject_ok && description_ok
}

/// The courses listed for `me`, from table position `i` on.
pub open spec fn courses_listed_from(me: MySelf, db: School, i: int) -> Seq<Course>
    decreases db.courses@.len() - i,
{
    if !(0 <= i < db.courses@.len()) {
        Seq::empty()
    } else {
        let rest = courses_listed_from(me, db, i + 1);
        if course_visible(me, db, db.courses@[i]) {
            seq![db.courses@[i]] + rest
        } else {
            rest
        }
    }
}

/// The courses the identity may read.
pub open spec fn courses_listed(me: MySelf, db: School) -> Seq<Course> {
    courses_listed_from(me, db, 0)
}

/// Decides [`father_has_student_in_course`].
pub(crate) fn father_course_exec(db: &School, father_id: u64, course_id: u64) -> (b: bool)
    ensures
        b == father_has_student_in_course(*db, father_id, course_id),
{
    let mut i: usize = 0;
    while i < db.users.len()
        invariant
            i <= db.users@.len(),
            forall|k: int|
                0 <= k < i ==> !(#[trigger] db.users@[k].course_id == Some(course_id)
                    && crate::school::linked_family(*db, father_id, db.users@[k].id)),
        decreases db.users@.len() - i,
    {
        let in_course = match db.users[i].course_id {
            Some(c) => c == course_id,
            None => false,
        };
        if in_course && db.is_linked_family(father_id, db.users[i].id) {
            return true;
        }
        i += 1;
    }
    false
}

fn course_visible_exec(me: &MySelf, db: &School, i: usize) -> (b: bool)
    requires
        i < db.courses@.len(),
    ensures
        b == course_visible(*me, *db, db.courses@[i as int]),
{
    let c = &db.courses[i];
    match me.role {
        Role::admin => true,
        Role::student => {
            match db.user_course(me.id) {
                Some(uc) => uc == c.id,
                None => false,
            }
        },
        Role::preceptor => {
            match c.preceptor_id {
                Some(p) => p == me.id,
                None => false,
            }
        },
        Role::father => father_course_exec(db, me.id, c.id),
        Role::teacher => db.is_teacher_in_course(me.id, c.id),
    }
}

/// The subject rows listed for `me` under filter `f`, joined with their
/// course name, from table position `i` on.
pub open spec fn subjects_listed_from(me: MySelf, db: School, f: SubjectFilter, i: int) -> Seq<
    Subject,
>
    decreases db.subjects@.len() - i,
{
    if !(0 <= i < db.subjects@.len()) {
        Seq::empty()
    } else {
        let rest = subjects_listed_from(me, db, f, i + 1);
        if subject_row_visible(me, db, f, db.subjects@[i]) {
            let s = db.subjects@[i];
            let ci = match course_idx(db, s.course_id) {
                Some(k) => k,
                None => 0,
            };
            let c = db.courses@[ci];
            seq![
                Subject {
                    id: s.id,
                    name: s.name,
                    teacher_id: s.teacher_id,
                    course_id: s.course_id,
                    course_name: c.name,
                },
            ] + rest
        } else {
            rest
        }
    }
}

/// The subjects the identity may read under the filter.
pub open spec fn subjects_listed(me: MySelf, db: School, f: SubjectFilter) -> Seq<Subject> {
    subjects_listed_from(me, db, f, 0)
}

fn subject_row_visible_exec(me: &MySelf, db: &School, f: &SubjectFilter, i: usize) -> (b: bool)
    requires
        i < db.subjects@.len(),
    ensures
        b == subject_row_visible(*me, *db, *f, db.subjects@[i as int]),
{
    let s = &db.subjects[i];
    let scope_ok = match me.role {
        Role::teacher => s.teacher_id == me.id,
        Role::admin => true,
        Role::student => {
            match db.user_course(me.id) {
                Some(uc) => uc == s.course_id,
                None => false,
            }
        },
        Role::preceptor => db.is_preceptor_of(me.id, s.course_id),
        Role::father => father_course_exec(db, me.id, s.course_id),
    };
    if !scope_ok {
        return false;
    }
    let course_ok = match f.course_id {
        Some(c) => s.course_id == c,
        None => true,
    };
    let name_ok = match &f.name {
        Some(n) => ci_contains_exec(s.name.as_str(), n.as_str()),
        None => true,
    };
    let teacher_ok = match f.teacher_id {
        Some(t) => s.teacher_id == t,
        None => true,
    };
    let id_ok = match f.subject_id {
        Some(x) => s.id == x,
        None => true,
    };
    if !(course_ok && name_ok && teacher_ok && id_ok) {
        return false;
    }
    match db.course_pos(s.course_id) {
        Some(_) => true,
        None => false,
    }
}

/// The user rows listed for `me` under filter `f`, projected to their public
/// fields, from table position `i` on.
pub open spec fn students_listed_from(me: MySelf, db: School, f: UserFilter, i: int) -> Seq<
    PubUser,
>
    decreases db.users@.len() - i,
{
    if !(0 <= i < db.users@.len()) {
        Seq::empty()
    } else {
        let rest = students_listed_from(me, db, f, i + 1);
        if user_row_visible(me, db, f, db.users@[i]) {
            let u = db.users@[i];
            seq![PubUser { id: u.id, photo: u.photo, course_id: u.course_id }] + rest
        } else {
            rest
        }
    }
}

/// The public user rows the identity may read under the filter.
pub open spec fn students_listed(me: MySelf, db: School, f: UserFilter) -> Seq<PubUser> {
    students_listed_from(me, db, f, 0)
}

/// Decides [`course_exists`].
pub(crate) fn course_exists_exec(db: &School, course_id: u64) -> (b: bool)
    ensures
        b == course_exists(*db, course_id),
{
    let mut i: usize = 0;
    while i < db.courses.len()
        invariant
            i <= db.courses@.len(),
            forall|k: int| 0 <= k < i ==> !(#[trigger] db.courses@[k].id == course_id),
        decreases db.courses@.len() - i,
    {
        if db.courses[i].id == course_id {
            return true;
        }
        i += 1;
    }
    false
}

/// Decides [`pd_name_contains`].
pub(crate) fn pd_name_contains_exec(db: &School, user_id: u64, needle: &String) -> (b: bool)
    ensures
        b == pd_name_contains(*db, user_id, needle@),
{
    let mut i: usize = 0;
    while i < db.personal_data.len()
        invariant
            i <= db.personal_data@.len(),
            forall|k: int|
                0 <= k < i ==> !(#[trigger] db.personal_data@[k].user_id == user_id
                    && crate::text::ci_contains(db.personal_data@[k].full_name@, needle@)),
        decreases db.personal_data@.len() - i,
    {
        if db.personal_data[i].user_id == user_id && ci_contains_exec(
            db.personal_data[i].full_name.as_str(),
            needle.as_str(),
        ) {
            return true;
        }
        i += 1;
    }
    false
}

fn user_row_visible_exec(me: &MySelf, db: &School, f: &UserFilter, i: usize) -> (b: bool)
    requires
        i < db.users@.len(),
    ensures
        b == user_row_visible(*me, *db, *f, db.users@[i as int]),
{
    let u = &db.users[i];
    let scope_ok = match me.role {
        Role::admin => true,
        Role::teacher => {
            match u.course_id {
                Some(c) => course_exists_exec(db, c) && db.is_teacher_in_course(me.id, c),
                None => false,
            }
        },
        Role::student => u.id == me.id,
        Role::preceptor => {
            match u.course_id {
                Some(c) => db.is_preceptor_of(me.id, c),
                None => false,
            }
        },
        Role::father => db.is_linked_family(me.id, u.id),
    };
    if !scope_ok {
        return false;
    }
    let course_ok = match f.course {
        Some(c) => match u.course_id {
            Some(uc) => uc == c,
            None => false,
        },
        None => true,
    };
    let name_ok = match &f.name {
        Some(n) => pd_name_contains_exec(db, u.id, n),
        None => true,
    };
    course_ok && name_ok
}

impl MySelf {
    /// Lists the grades this identity may read, applying the filter.
    pub fn get_grades(&self, db: &School, filter: &GradeFilter) -> (res: Vec<Grade>)
        ensures
            res@ == grades_listed(*self, *db, *filter),
    {
        let mut res: Vec<Grade> = Vec::new();
        let mut i: usize = 0;
        while i < db.grades.len()
            invariant
                i <= db.grades@.len(),
                grades_listed(*self, *db, *filter) == res@ + grades_listed_from(
                    *self,
                    *db,
                    *filter,
                    i as int,
                ),
            decreases db.grades@.len() - i,
        {
            if grade_visible_exec(self, db, filter, i) {
                proof {
                    lemma_push_concat(
                        res@,
                        db.grades@[i as int],
                        grades_listed_from(*self, *db, *filter, i + 1),
                    );
                }
                res.push(db.grades[i].clone());
            }
            i += 1;
        }
        res
    }

    /// Lists the courses this identity may read.
    pub fn get_courses(&self, db: &School) -> (res: Vec<Course>)
        ensures
            res@ == courses_listed(*self, *db),
    {
        let mut res: Vec<Course> = Vec::new();
        let mut i: usize = 0;
        while i < db.courses.len()
            invariant
                i <= db.courses@.len(),
                courses_listed(*self, *db) == res@ + courses_listed_from(*self, *db, i as int),
            decreases db.courses@.len() - i,
        {
            if course_visible_exec(self, db, i) {
                proof {
                    lemma_push_concat(
                        res@,
                        db.courses@[i as int],
                        courses_listed_from(*self, *db, i + 1),
                    );
                }
                res.push(db.courses[i].clone());
            }
            i += 1;
        }
        res
    }

    /// Lists the subjects this identity may read, each joined with the name
    /// of its course.
    pub fn get_subjects(&self, db: &School, filter: &SubjectFilter) -> (res: Vec<Subject>)
        ensures
            res@ == subjects_listed(*self, *db, *filter),
    {
        let mut res: Vec<Subject> = Vec::new();
        let mut i: usize = 0;
        while i < db.subjects.len()
            invariant
                i <= db.subjects@.len(),
                subjects_listed(*self, *db, *filter) == res@ + subjects_listed_from(
                    *self,
                    *db,
                    *filter,
                    i as int,
                ),
            decreases db.subjects@.len() - i,
        {
            if subject_row_visible_exec(self, db, filter, i) {
                let s = &db.subjects[i];
                let ci = db.course_pos(s.course_id).unwrap();
                let out = Subject {
                    id: s.id,
                    name: s.name.clone(),
                    teacher_id: s.teacher_id,
                    course_id: s.course_id,
                    course_name: db.courses[ci].name.clone(),
                };
                proof {
                    lemma_push_concat(
                        res@,
                        out,
                        subjects_listed_from(*self, *db, *filter, i + 1),
                    );
                }
                res.push(out);
            }
            i += 1;
        }
        res
    }

    /// Lists the user rows this identity may read, projected to their public
    /// fields.
    pub fn get_students(&self, db: &School, filter: &UserFilter) -> (res: Vec<PubUser>)
        ensures
            res@ == students_listed(*self, *db, *filter),
    {
        let mut res: Vec<PubUser> = Vec::new();
        let mut i: usize = 0;
        while i < db.users.len()
            invariant
                i <= db.users@.len(),
                students_listed(*self, *db, *filter) == res@ + students_listed_from(
                    *self,
                    *db,
                    *filter,
                    i as int,
                ),
            decreases db.users@.len() - i,
        {
            if user_row_visible_exec(self, db, filter, i) {
                let u = &db.users[i];
                let out = PubUser {
                    id: u.id,
                    photo: crate::structs::clone_opt_string(&u.photo),
                    course_id: crate::structs::clone_opt_u64(&u.course_id),
                };
                proof {
                    lemma_push_concat(
                        res@,
                        out,
                        students_listed_from(*self, *db, *filter, i + 1),
                    );
                }
                res.push(out);
            }
            i += 1;
        }
        res
    }
}


/// No person filter is set.  The assessment listing takes no person
/// criteria; a request that supplies one is rejected as invalid.
pub open spec fn person_filter_empty(f: UserFilter) -> bool {
    f.course is None && f.name is None && f.user_id is None
}

/// The assessments listed for `me` under the filters, from position `i` on.
pub open spec fn assessments_listed_from(
    me: MySelf,
    db: School,
    f: AssessmentFilter,
    sf: SubjectFilter,
    today: u64,
    i: int,
) -> Seq<Assessment>
    decreases db.assessments@.len() - i,
{
    if !(0 <= i < db.assessments@.len()) {
        Seq::empty()
    } else {
        let rest = assessments_listed_from(me, db, f, sf, today, i + 1);
        if assessment_visible(me, db, f, sf, db.assessments@[i], today) {
            seq![db.assessments@[i]] + rest
        } else {
            rest
        }
    }
}

/// The assessments the identity may read under the filters.
pub open spec fn assessments_listed(
    me: MySelf,
    db: School,
    f: AssessmentFilter,
    sf: SubjectFilter,
    today: u64,
) -> Seq<Assessment> {
    assessments_listed_from(me, db, f, sf, today, 0)
}

fn assessment_scope_exec(me: &MySelf, db: &School, k: usize) -> (b: bool)
    requires
        k < db.subjects@.len(),
    ensures
        b == assessment_subject_scope(*me, *db, db.subjects@[k as int]),
{
    let s = &db.subjects[k];
    match me.role {
        Role::teacher => s.teacher_id == me.id,
        Role::admin => true,
        Role::student => {
            match db.user_course(me.id) {
                Some(uc) => uc == s.course_id,
                None => false,
            }
        },
        Role::father => father_course_exec(db, me.id, s.course_id),
        Role::preceptor => db.is_preceptor_of(me.id, s.course_id),
    }
}

fn subject_filter_exec(f: &SubjectFilter, db: &School, k: usize) -> (b: bool)
    requires
        k < db.subjects@.len(),
    ensures
        b == crate::scope::subject_filter_matches(*f, db.subjects@[k as int]),
{
    let s = &db.subjects[k];
    let course_ok = match f.course_id {
        Some(c) => s.course_id == c,
        None => true,
    };
    let name_ok = match &f.name {
        Some(n) => ci_contains_exec(s.name.as_str(), n.as_str()),
        None => true,
    };
    let teacher_ok = match f.teacher_id {
        Some(t) => s.teacher_id == t,
        None => true,
    };
    let id_ok = match f.subject_id {
        Some(x) => s.id == x,
        None => true,
    };
    course_ok && name_ok && teacher_ok && id_ok
}

fn assessment_subject_witness(me: &MySelf, db: &School, sf: &SubjectFilter, subject_id: u64) -> (b:
    bool)
    ensures
        b == exists|i: int|
            0 <= i < db.subjects@.len() && #[trigger] db.subjects@[i].id == subject_id
                && assessment_subject_scope(*me, *db, db.subjects@[i])
                && crate::scope::subject_filter_matches(*sf, db.subjects@[i]),
{
    let mut i: usize = 0;
    while i < db.subjects.len()
        invariant
            i <= db.subjects@.len(),
            forall|k: int|
                0 <= k < i ==> !(#[trigger] db.subjects@[k].id == subject_id
                    && assessment_subject_scope(*me, *db, db.subjects@[k])
                    && crate::scope::subject_filter_matches(*sf, db.subjects@[k])),
        decreases db.subjects@.len() - i,
    {
        if db.subjects[i].id == subject_id && assessment_scope_exec(me, db, i)
            && subject_filter_exec(sf, db, i) {
            return true;
        }
        i += 1;
    }
    false
}

fn assessment_visible_exec(
    me: &MySelf,
    db: &School,
    f: &AssessmentFilter,
    sf: &SubjectFilter,
    today: u64,
    i: usize,
) -> (b: bool)
    requires
        i < db.assessments@.len(),
    ensures
        b == assessment_visible(*me, *db, *f, *sf, db.assessments@[i as int], today),
{
    let a = &db.assessments[i];
    if !assessment_subject_witness(me, db, sf, a.subject_id) {
        return false;
    }
    let subject_ok = match f.subject_id {
        Some(s) => a.subject_id == s,
        None => true,
    };
    let task_ok = match &f.task {
        Some(t) => ci_contains_exec(a.task.as_str(), t.as_str()),
        None => true,
    };
    let due_ok = match f.due {
        Some(true) => a.due_date >= today,
        _ => true,
    };
    subject_ok && task_ok && due_ok
}

/// The broadcast messages listed for `me` under filter `f`, from position
/// `i` on.
pub open spec fn messages_listed_from(me: MySelf, db: School, f: MessageFilter, i: int) -> Seq<
    Message,
>
    decreases db.messages@.len() - i,
{
    if !(0 <= i < db.messages@.len()) {
        Seq::empty()
    } else {
        let rest = messages_listed_from(me, db, f, i + 1);
        if message_visible(me, db, f, db.messages@[i]) {
            seq![db.messages@[i]] + rest
        } else {
            rest
        }
    }
}

/// The broadcast messages the identity may read under the filter.
pub open spec fn messages_listed(me: MySelf, db: School, f: MessageFilter) -> Seq<Message> {
    messages_listed_from(me, db, f, 0)
}

fn message_course_ok_exec(me: &MySelf, db: &School, course_id: u64) -> (b: bool)
    ensures
        b == message_course_ok(*me, *db, course_id),
{
    match me.role {
        Role::admin => true,
        Role::student => {
            match db.user_course(me.id) {
                Some(uc) => uc == course_id,
                None => false,
            }
        },
        Role::father => father_course_exec(db, me.id, course_id),
        Role::teacher => db.is_teacher_in_course(me.id, course_id),
        Role::preceptor => db.is_preceptor_of(me.id, course_id),
    }
}

#[verifier::loop_isolation(false)]
fn message_visible_exec(me: &MySelf, db: &School, f: &MessageFilter, i: usize) -> (b: bool)
    requires
        i < db.messages@.len(),
    ensures
        b == message_visible(*me, *db, *f, db.messages@[i as int]),
{
    let m = &db.messages[i];
    let sender_ok = match f.sender_id {
        Some(s) => m.sender_id == s,
        None => true,
    };
    let title_ok = match &f.title {
        Some(t) => ci_contains_exec(m.title.as_str(), t.as_str()),
        None => true,
    };
    if !(sender_ok && title_ok) {
        return false;
    }
    let is_admin = match me.role {
        Role::admin => true,
        _ => false,
    };
    if is_admin {
        match f.course_id {
            Some(c) => {
                let mut j: usize = 0;
                while j < db.message_courses.len()
                    invariant
                        j <= db.message_courses@.len(),
                        i < db.messages@.len(),
                        forall|k: int|
                            0 <= k < j ==> !(#[trigger] db.message_courses@[k].message_id
                                == db.messages@[i as int].id && db.message_courses@[k].course_id
                                == c),
                    decreases db.message_courses@.len() - j,
                {
                    if db.message_courses[j].message_id == m.id && db.message_courses[j].course_id
                        == c {
                        return true;
                    }
                    j += 1;
                }
                false
            },
            None => true,
        }
    } else {
        let mut j: usize = 0;
        while j < db.message_courses.len()
            invariant
                j <= db.message_courses@.len(),
                i < db.messages@.len(),
                !(me.role is admin),
                forall|k: int|
                    0 <= k < j ==> !(#[trigger] db.message_courses@[k].message_id
                        == db.messages@[i as int].id && message_course_ok(
                        *me,
                        *db,
                        db.message_courses@[k].course_id,
                    ) && match f.course_id {
                        Some(c) => db.message_courses@[k].course_id == c,
                        None => true,
                    }),
            decreases db.message_courses@.len() - j,
        {
            let mc = &db.message_courses[j];
            let course_filter_ok = match f.course_id {
                Some(c) => mc.course_id == c,
                None => true,
            };
            if mc.message_id == m.id && course_filter_ok && message_course_ok_exec(
                me,
                db,
                mc.course_id,
            ) {
                return true;
            }
            j += 1;
        }
        false
    }
}

/// The subject messages listed for `me` under filter `f`, from position `i`
/// on.
pub open spec fn subject_messages_listed_from(
    me: MySelf,
    db: School,
    f: SubjectMessageFilter,
    i: int,
) -> Seq<SubjectMessage>
    decreases db.subject_messages@.len() - i,
{
    if !(0 <= i < db.subject_messages@.len()) {
        Seq::empty()
    } else {
        let rest = subject_messages_listed_from(me, db, f, i + 1);
        if subject_message_visible(me, db, f, db.subject_messages@[i]) {
            seq![db.subject_messages@[i]] + rest
        } else {
            rest
        }
    }
}

/// The subject messages the identity may read under the filter.
pub open spec fn subject_messages_listed(me: MySelf, db: School, f: SubjectMessageFilter) -> Seq<
    SubjectMessage,
> {
    subject_messages_listed_from(me, db, f, 0)
}

fn subject_with_course_cond_student(db: &School, me_id: u64, subject_id: u64) -> (b: bool)
    ensures
        b == exists|i: int|
            0 <= i < db.subjects@.len() && #[trigger] db.subjects@[i].id == subject_id
                && crate::school::course_of_user(*db, me_id) == Some(db.subjects@[i].course_id),
{
    let mut i: usize = 0;
    while i < db.subjects.len()
        invariant
            i <= db.subjects@.len(),
            forall|k: int|
                0 <= k < i ==> !(#[trigger] db.subjects@[k].id == subject_id
                    && crate::school::course_of_user(*db, me_id) == Some(
                    db.subjects@[k].course_id,
                )),
        decreases db.subjects@.len() - i,
    {
        let hit = match db.user_course(me_id) {
            Some(uc) => uc == db.subjects[i].course_id,
            None => false,
        };
        if db.subjects[i].id == subject_id && hit {
            return true;
        }
        i += 1;
    }
    false
}

fn subject_with_course_cond_father(db: &School, me_id: u64, subject_id: u64) -> (b: bool)
    ensures
        b == exists|i: int|
            0 <= i < db.subjects@.len() && #[trigger] db.subjects@[i].id == subject_id
                && father_has_student_in_course(*db, me_id, db.subjects@[i].course_id),
{
    let mut i: usize = 0;
    while i < db.subjects.len()
        invariant
            i <= db.subjects@.len(),
            forall|k: int|
                0 <= k < i ==> !(#[trigger] db.subjects@[k].id == subject_id
                    && father_has_student_in_course(*db, me_id, db.subjects@[k].course_id)),
        decreases db.subjects@.len() - i,
    {
        if db.subjects[i].id == subject_id && father_course_exec(
            db,
            me_id,
            db.subjects[i].course_id,
        ) {
            return true;
        }
        i += 1;
    }
    false
}

fn subject_message_visible_exec(me: &MySelf, db: &School, f: &SubjectMessageFilter, i: usize) -> (b:
    bool)
    requires
        i < db.subject_messages@.len(),
    ensures
        b == subject_message_visible(*me, *db, *f, db.subject_messages@[i as int]),
{
    let sm = &db.subject_messages[i];
    let scope_ok = match me.role {
        Role::admin => true,
        Role::teacher => db.is_teacher_of(me.id, sm.subject_id),
        Role::student => subject_with_course_cond_student(db, me.id, sm.subject_id),
        Role::preceptor => grade_preceptor_scope(db, me.id, sm.subject_id),
        Role::father => subject_with_course_cond_father(db, me.id, sm.subject_id),
    };
    if !scope_ok {
        return false;
    }
    let id_ok = match f.subject_message_id {
        Some(x) => sm.id == x,
        None => true,
    };
    let subject_ok = match f.subject_id {
        Some(s) => sm.subject_id == s,
        None => true,
    };
    let sender_ok = match f.sender_id {
        Some(s) => sm.sender_id == s,
        None => true,
    };
    id_ok && subject_ok && sender_ok
}

impl MySelf {
    /// Lists the assessments this identity may read.  The listing takes no
    /// person criteria: a person filter with any field set is rejected as
    /// invalid.  `today` is the current day number, used by the `due`
    /// filter.
    pub fn get_assessments(
        &self,
        db: &School,
        filter: &AssessmentFilter,
        subject_filter: &SubjectFilter,
        person_filter: &UserFilter,
        today: u64,
    ) -> (res: Result<Vec<Assessment>, crate::ApiError>)
        ensures
            match res {
                Ok(v) => person_filter_empty(*person_filter) && v@ == assessments_listed(
                    *self,
                    *db,
                    *filter,
                    *subject_filter,
                    today,
                ),
                Err(e) => !person_filter_empty(*person_filter) && e
                    == crate::ApiError::Validation,
            },
    {
        let pf_empty = match (&person_filter.course, &person_filter.name, &person_filter.user_id) {
            (None, None, None) => true,
            _ => false,
        };
        if !pf_empty {
            return Err(crate::ApiError::Validation);
        }
        let mut res: Vec<Assessment> = Vec::new();
        let mut i: usize = 0;
        while i < db.assessments.len()
            invariant
                i <= db.assessments@.len(),
                assessments_listed(*self, *db, *filter, *subject_filter, today) == res@
                    + assessments_listed_from(
                    *self,
                    *db,
                    *filter,
                    *subject_filter,
                    today,
                    i as int,
                ),
            decreases db.assessments@.len() - i,
        {
            if assessment_visible_exec(self, db, filter, subject_filter, today, i) {
                proof {
                    lemma_push_concat(
                        res@,
                        db.assessments@[i as int],
                        assessments_listed_from(
                            *self,
                            *db,
                            *filter,
                            *subject_filter,
                            today,
                            i + 1,
                        ),
                    );
                }
                res.push(db.assessments[i].clone());
            }
            i += 1;
        }
        Ok(res)
    }

    /// Lists the broadcast messages this identity may read.
    pub fn get_messages(&self, db: &School, filter: &MessageFilter) -> (res: Vec<Message>)
        ensures
            res@ == messages_listed(*self, *db, *filter),
    {
        let mut res: Vec<Message> = Vec::new();
        let mut i: usize = 0;
        while i < db.messages.len()
            invariant
                i <= db.messages@.len(),
                messages_listed(*self, *db, *filter) == res@ + messages_listed_from(
                    *self,
                    *db,
                    *filter,
                    i as int,
                ),
            decreases db.messages@.len() - i,
        {
            if message_visible_exec(self, db, filter, i) {
                proof {
                    lemma_push_concat(
                        res@,
                        db.messages@[i as int],
                        messages_listed_from(*self, *db, *filter, i + 1),
                    );
                }
                res.push(db.messages[i].clone());
            }
            i += 1;
        }
        res
    }

    /// Lists the subject messages this identity may read.
    pub fn get_subject_messages(&self, db: &School, filter: &SubjectMessageFilter) -> (res: Vec<
        SubjectMessage,
    >)
        ensures
            res@ == subject_messages_listed(*self, *db, *filter),
    {
        let mut res: Vec<SubjectMessage> = Vec::new();
        let mut i: usize = 0;
        while i < db.subject_messages.len()
            invariant
                i <= db.subject_messages@.len(),
                subject_messages_listed(*self, *db, *filter) == res@
                    + subject_messages_listed_from(*self, *db, *filter, i as int),
            decreases db.subject_messages@.len() - i,
        {
            if subject_message_visible_exec(self, db, filter, i) {
                proof {
                    lemma_push_concat(
                        res@,
                        db.subject_messages@[i as int],
                        subject_messages_listed_from(*self, *db, *filter, i + 1),
                    );
                }
                res.push(db.subject_messages[i].clone());
            }
            i += 1;
        }
        res
    }
}


/// The timetable slots listed for `me` under filter `f`, from position `i`
/// on.
pub open spec fn timetables_listed_from(me: MySelf, db: School, f: TimetableFilter, i: int) -> Seq<
    Timetable,
>
    decreases db.timetables@.len() - i,
{
    if !(0 <= i < db.timetables@.len()) {
        Seq::empty()
    } else {
        let rest = timetables_listed_from(me, db, f, i + 1);
        if timetable_visible(me, db, f, db.timetables@[i]) {
            seq![db.timetables@[i]] + rest
        } else {
            rest
        }
    }
}

/// The timetable slots the identity may read under the filter.
pub open spec fn timetables_listed(me: MySelf, db: School, f: TimetableFilter) -> Seq<Timetable> {
    timetables_listed_from(me, db, f, 0)
}

fn timetable_scope_exec(me: &MySelf, db: &School, k: usize) -> (b: bool)
    requires
        k < db.subjects@.len(),
    ensures
        b == crate::scope::timetable_subject_scope(*me, *db, db.subjects@[k as int]),
{
    let s = &db.subjects[k];
    match me.role {
        Role::admin => true,
        Role::student => {
            match db.user_course(me.id) {
                Some(uc) => uc == s.course_id,
                None => false,
            }
        },
        Role::preceptor => db.is_preceptor_of(me.id, s.course_id),
        Role::teacher => s.teacher_id == me.id,
        Role::father => father_course_exec(db, me.id, s.course_id),
    }
}

fn timetable_subject_witness(me: &MySelf, db: &School, f: &TimetableFilter, subject_id: u64) -> (b:
    bool)
    ensures
        b == exists|i: int|
            0 <= i < db.subjects@.len() && #[trigger] db.subjects@[i].id == subject_id
                && course_exists(*db, db.subjects@[i].course_id)
                && crate::scope::timetable_subject_scope(*me, *db, db.subjects@[i])
                && crate::scope::timetable_subject_filters(*f, db.subjects@[i]),
{
    let mut i: usize = 0;
    while i < db.subjects.len()
        invariant
            i <= db.subjects@.len(),
            forall|k: int|
                0 <= k < i ==> !(#[trigger] db.subjects@[k].id == subject_id && course_exists(
                    *db,
                    db.subjects@[k].course_id,
                ) && crate::scope::timetable_subject_scope(*me, *db, db.subjects@[k])
                    && crate::scope::timetable_subject_filters(*f, db.subjects@[k])),
        decreases db.subjects@.len() - i,
    {
        let s = &db.subjects[i];
        let filters_ok = {
            let sid_ok = match f.subject_id {
                Some(x) => s.id == x,
                None => true,
            };
            let t_ok = match f.teacher_id {
                Some(t) => s.teacher_id == t,
                None => true,
            };
            let c_ok = match f.course_id {
                Some(c) => s.course_id == c,
                None => true,
            };
            sid_ok && t_ok && c_ok
        };
        if s.id == subject_id && course_exists_exec(db, s.course_id) && timetable_scope_exec(
            me,
            db,
            i,
        ) && filters_ok {
            return true;
        }
        i += 1;
    }
    false
}

fn timetable_visible_exec(me: &MySelf, db: &School, f: &TimetableFilter, i: usize) -> (b: bool)
    requires
        i < db.timetables@.len(),
    ensures
        b == timetable_visible(*me, *db, *f, db.timetables@[i as int]),
{
    let t = &db.timetables[i];
    let day_ok = match &f.day {
        Some(d) => str_eq(&t.day, d),
        None => true,
    };
    if !day_ok {
        return false;
    }
    timetable_subject_witness(me, db, f, t.subject_id)
}

/// Decides [`crate::scope::student_under_preceptor`].
pub(crate) fn student_under_preceptor_exec(db: &School, preceptor_id: u64, student_id: u64) -> (b:
    bool)
    ensures
        b == student_under_preceptor(*db, preceptor_id, student_id),
{
    let mut i: usize = 0;
    while i < db.users.len()
        invariant
            i <= db.users@.len(),
            forall|k: int|
                0 <= k < i ==> !(#[trigger] db.users@[k].id == student_id
                    && match db.users@[k].course_id {
                    Some(c) => crate::school::preceptor_presides(*db, preceptor_id, c),
                    None => false,
                }),
        decreases db.users@.len() - i,
    {
        let under = match db.users[i].course_id {
            Some(c) => db.is_preceptor_of(preceptor_id, c),
            None => false,
        };
        if db.users[i].id == student_id && under {
            return true;
        }
        i += 1;
    }
    false
}

/// The attendance rows listed for `me` under filter `f`, from position `i`
/// on.
pub open spec fn assistance_listed_from(me: MySelf, db: School, f: AssistanceFilter, i: int) -> Seq<
    Assistance,
>
    decreases db.assistance@.len() - i,
{
    if !(0 <= i < db.assistance@.len()) {
        Seq::empty()
    } else {
        let rest = assistance_listed_from(me, db, f, i + 1);
        if assistance_visible(me, db, f, db.assistance@[i]) {
            seq![db.assistance@[i]] + rest
        } else {
            rest
        }
    }
}

/// The attendance rows the identity may read under the filter.
pub open spec fn assistance_listed(me: MySelf, db: School, f: AssistanceFilter) -> Seq<Assistance> {
    assistance_listed_from(me, db, f, 0)
}

fn assistance_visible_exec(me: &MySelf, db: &School, f: &AssistanceFilter, i: usize) -> (b: bool)
    requires
        i < db.assistance@.len(),
    ensures
        b == assistance_visible(*me, *db, *f, db.assistance@[i as int]),
{
    let a = &db.assistance[i];
    let scope_ok = match me.role {
        Role::student => a.student_id == me.id,
        Role::admin => true,
        Role::teacher => false,
        Role::father => db.is_linked_family(me.id, a.student_id),
        Role::preceptor => student_under_preceptor_exec(db, me.id, a.student_id),
    };
    if !scope_ok {
        return false;
    }
    let id_ok = match f.assistance_id {
        Some(x) => a.id == x,
        None => true,
    };
    let student_ok = match f.student_id {
        Some(s) => a.student_id == s,
        None => true,
    };
    let presence_ok = match &f.presence {
        Some(p) => str_eq(&a.presence, p),
        None => true,
    };
    let date_ok = match f.date {
        Some(d) => a.date == d,
        None => true,
    };
    id_ok && student_ok && presence_ok && date_ok
}

/// The sanction rows listed for `me` under filter `f`, from position `i` on.
pub open spec fn sanctions_listed_from(
    me: MySelf,
    db: School,
    f: DisciplinarySanctionFilter,
    i: int,
) -> Seq<DisciplinarySanction>
    decreases db.disciplinary_sanctions@.len() - i,
{
    if !(0 <= i < db.disciplinary_sanctions@.len()) {
        Seq::empty()
    } else {
        let rest = sanctions_listed_from(me, db, f, i + 1);
        if sanction_visible(me, db, f, db.disciplinary_sanctions@[i]) {
            seq![db.disciplinary_sanctions@[i]] + rest
        } else {
            rest
        }
    }
}

/// The sanction rows the identity may read under the filter.
pub open spec fn sanctions_listed(me: MySelf, db: School, f: DisciplinarySanctionFilter) -> Seq<
    DisciplinarySanction,
> {
    sanctions_listed_from(me, db, f, 0)
}

fn sanction_visible_exec(me: &MySelf, db: &School, f: &DisciplinarySanctionFilter, i: usize) -> (b:
    bool)
    requires
        i < db.disciplinary_sanctions@.len(),
    ensures
        b == sanction_visible(*me, *db, *f, db.disciplinary_sanctions@[i as int]),
{
    let d = &db.disciplinary_sanctions[i];
    let scope_ok = match me.role {
        Role::student => d.student_id == me.id,
        Role::admin => true,
        Role::teacher => false,
        Role::father => db.is_linked_family(me.id, d.student_id),
        Role::preceptor => student_under_preceptor_exec(db, me.id, d.student_id),
    };
    if !scope_ok {
        return false;
    }
    let id_ok = match f.disciplinary_sanction_id {
        Some(x) => d.id == x,
        None => true,
    };
    let student_ok = match f.student_id {
        Some(s) => d.student_id == s,
        None => true,
    };
    let type_ok = match &f.sanction_type {
        Some(t) => str_eq(&d.sanction_type, t),
        None => true,
    };
    id_ok && student_ok && type_ok
}

impl MySelf {
    /// Lists the timetable slots this identity may read.
    pub fn get_timetables(&self, db: &School, filter: &TimetableFilter) -> (res: Vec<Timetable>)
        ensures
            res@ == timetables_listed(*self, *db, *filter),
    {
        let mut res: Vec<Timetable> = Vec::new();
        let mut i: usize = 0;
        while i < db.timetables.len()
            invariant
                i <= db.timetables@.len(),
                timetables_listed(*self, *db, *filter) == res@ + timetables_listed_from(
                    *self,
                    *db,
                    *filter,
                    i as int,
                ),
            decreases db.timetables@.len() - i,
        {
            if timetable_visible_exec(self, db, filter, i) {
                proof {
                    lemma_push_concat(
                        res@,
                        db.timetables@[i as int],
                        timetables_listed_from(*self, *db, *filter, i + 1),
                    );
                }
                res.push(db.timetables[i].clone());
            }
            i += 1;
        }
        res
    }

    /// Lists the attendance rows this identity may read.  A teacher's scope
    /// is empty: the result is empty whatever the filters say.
    pub fn get_assistance(&self, db: &School, filter: &AssistanceFilter) -> (res: Vec<Assistance>)
        ensures
            res@ == assistance_listed(*self, *db, *filter),
    {
        let mut res: Vec<Assistance> = Vec::new();
        let mut i: usize = 0;
        while i < db.assistance.len()
            invariant
                i <= db.assistance@.len(),
                assistance_listed(*self, *db, *filter) == res@ + assistance_listed_from(
                    *self,
                    *db,
                    *filter,
                    i as int,
                ),
            decreases db.assistance@.len() - i,
        {
            if assistance_visible_exec(self, db, filter, i) {
                proof {
                    lemma_push_concat(
                        res@,
                        db.assistance@[i as int],
                        assistance_listed_from(*self, *db, *filter, i + 1),
                    );
                }
                res.push(db.assistance[i].clone());
            }
            i += 1;
        }
        res
    }

    /// Lists the sanction rows this identity may read.  A teacher's scope is
    /// empty: the result is empty whatever the filters say.
    pub fn get_disciplinary_sanction(&self, db: &School, filter: &DisciplinarySanctionFilter) -> (res:
        Vec<DisciplinarySanction>)
        ensures
            res@ == sanctions_listed(*self, *db, *filter),
    {
        let mut res: Vec<DisciplinarySanction> = Vec::new();
        let mut i: usize = 0;
        while i < db.disciplinary_sanctions.len()
            invariant
                i <= db.disciplinary_sanctions@.len(),
                sanctions_listed(*self, *db, *filter) == res@ + sanctions_listed_from(
                    *self,
                    *db,
                    *filter,
                    i as int,
                ),
            decreases db.disciplinary_sanctions@.len() - i,
        {
            if sanction_visible_exec(self, db, filter, i) {
                proof {
                    lemma_push_concat(
                        res@,
                        db.disciplinary_sanctions@[i as int],
                        sanctions_listed_from(*self, *db, *filter, i + 1),
                    );
                }
                res.push(db.disciplinary_sanctions[i].clone());
            }
            i += 1;
        }
        res
    }
}


/// A user row is a notification recipient of a subject: it belongs to the
/// course of a subject row with the given id and has personal data.
pub open spec fn subject_recipient(db: School, subject_id: u64, u: crate::structs::UserRow) -> bool {
    &&& exists|si: int|
        0 <= si < db.subjects@.len() && #[trigger] db.subjects@[si].id == subject_id
            && u.course_id == Some(db.subjects@[si].course_id)
    &&& crate::school::pd_idx(db, u.id) is Some
}

/// The notification recipients of a subject, from user-table position `i`
/// on.
pub open spec fn subject_recipients_from(db: School, subject_id: u64, i: int) -> Seq<
    crate::structs::Recipient,
>
    decreases db.users@.len() - i,
{
    if !(0 <= i < db.users@.len()) {
        Seq::empty()
    } else {
        let rest = subject_recipients_from(db, subject_id, i + 1);
        if subject_recipient(db, subject_id, db.users@[i]) {
            let pi = match crate::school::pd_idx(db, db.users@[i].id) {
                Some(k) => k,
                None => 0,
            };
            seq![
                crate::structs::Recipient {
                    email: db.users@[i].email,
                    full_name: db.personal_data@[pi].full_name,
                },
            ] + rest
        } else {
            rest
        }
    }
}

/// The notification recipients of a subject: every student of its course
/// with personal data on file, with their address and name.
pub open spec fn subject_recipients_listed(db: School, subject_id: u64) -> Seq<
    crate::structs::Recipient,
> {
    subject_recipients_from(db, subject_id, 0)
}

fn user_in_subject_course(db: &School, subject_id: u64, i: usize) -> (b: bool)
    requires
        i < db.users@.len(),
    ensures
        b == exists|si: int|
            0 <= si < db.subjects@.len() && #[trigger] db.subjects@[si].id == subject_id
                && db.users@[i as int].course_id == Some(db.subjects@[si].course_id),
{
    let uc = match db.users[i].course_id {
        Some(c) => c,
        None => {
            return false;
        },
    };
    let mut k: usize = 0;
    while k < db.subjects.len()
        invariant
            k <= db.subjects@.len(),
            i < db.users@.len(),
            db.users@[i as int].course_id == Some(uc),
            forall|s: int|
                0 <= s < k ==> !(#[trigger] db.subjects@[s].id == subject_id
                    && db.users@[i as int].course_id == Some(db.subjects@[s].course_id)),
        decreases db.subjects@.len() - k,
    {
        if db.subjects[k].id == subject_id && db.subjects[k].course_id == uc {
            return true;
        }
        k += 1;
    }
    false
}

impl School {
    /// Lists the notification recipients of a subject: the addresses and
    /// names of the users of its course, for the mail collaborator to fan
    /// out to.
    pub fn subject_recipients(&self, subject_id: u64) -> (res: Vec<crate::structs::Recipient>)
        ensures
            res@ == subject_recipients_listed(*self, subject_id),
    {
        let mut res: Vec<crate::structs::Recipient> = Vec::new();
        let mut i: usize = 0;
        while i < self.users.len()
            invariant
                i <= self.users@.len(),
                subject_recipients_listed(*self, subject_id) == res@ + subject_recipients_from(
                    *self,
                    subject_id,
                    i as int,
                ),
            decreases self.users@.len() - i,
        {
            let in_course = user_in_subject_course(self, subject_id, i);
            let pd = self.pd_pos(self.users[i].id);
            match (in_course, pd) {
                (true, Some(pi)) => {
                    let out = crate::structs::Recipient {
                        email: self.users[i].email.clone(),
                        full_name: self.personal_data[pi].full_name.clone(),
                    };
                    proof {
                        lemma_push_concat(
                            res@,
                            out,
                            subject_recipients_from(*self, subject_id, i + 1),
                        );
                    }
                    res.push(out);
                },
                _ => {},
            }
            i += 1;
        }
        res
    }
}


/// A user row is a notification recipient of a course: it belongs to the
/// course and has personal data.
pub open spec fn course_recipient(db: School, course_id: u64, u: crate::structs::UserRow) -> bool {
    u.course_id == Some(course_id) && crate::school::pd_idx(db, u.id) is Some
}

/// The notification recipients of a course, from user-table position `i`
/// on.
pub open spec fn course_recipients_from(db: School, course_id: u64, i: int) -> Seq<
    crate::structs::Recipient,
>
    decreases db.users@.len() - i,
{
    if !(0 <= i < db.users@.len()) {
        Seq::empty()
    } else {
        let rest = course_recipients_from(db, course_id, i + 1);
        if course_recipient(db, course_id, db.users@[i]) {
            let pi = match crate::school::pd_idx(db, db.users@[i].id) {
                Some(k) => k,
                None => 0,
            };
            seq![
                crate::structs::Recipient {
                    email: db.users@[i].email,
                    full_name: db.personal_data@[pi].full_name,
                },
            ] + rest
        } else {
            rest
        }
    }
}

/// The notification recipients of a course.
pub open spec fn course_recipients_listed(db: School, course_id: u64) -> Seq<
    crate::structs::Recipient,
> {
    course_recipients_from(db, course_id, 0)
}

impl School {
    /// Lists the notification recipients of one course, for the mail
    /// collaborator to fan a broadcast message out to.
    pub fn course_recipients(&self, course_id: u64) -> (res: Vec<crate::structs::Recipient>)
        ensures
            res@ == course_recipients_listed(*self, course_id),
    {
        let mut res: Vec<crate::structs::Recipient> = Vec::new();
        let mut i: usize = 0;
        while i < self.users.len()
            invariant
                i <= self.users@.len(),
                course_recipients_listed(*self, course_id) == res@ + course_recipients_from(
                    *self,
                    course_id,
                    i as int,
                ),
            decreases self.users@.len() - i,
        {
            let in_course = match self.users[i].course_id {
                Some(c) => c == course_id,
                None => false,
            };
            let pd = self.pd_pos(self.users[i].id);
            match (in_course, pd) {
                (true, Some(pi)) => {
                    let out = crate::structs::Recipient {
                        email: self.users[i].email.clone(),
                        full_name: self.personal_data[pi].full_name.clone(),
                    };
                    proof {
                        lemma_push_concat(
                            res@,
                            out,
                            course_recipients_from(*self, course_id, i + 1),
                        );
                    }
                    res.push(out);
                },
                _ => {},
            }
            i += 1;
        }
        res
    }
}

} // verus!
