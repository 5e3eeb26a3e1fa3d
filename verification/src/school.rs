//! The relational state of the application, held as one value.
//!
//! Every listing and every mutation of the library is specified against this
//! structure.  [`School::wf`] is the well-formedness invariant that
//! constructors establish and every mutation preserves: row ids are unique
//! and below the allocation counter, a quiz belongs to at most one
//! assessment, and the uniqueness rules on grades and submissions hold.

use vstd::prelude::*;

use crate::structs::{
    Assessment, Assistance, Course, DisciplinarySanction, Family, Grade, HomeworkSubmission,
    Message, MessageCourse, PendingSelfassessableGrade, PersonalDataRow, Quiz, RoleRow,
    SelfassessableResponse, SelfassessableTask, SubjectMessage, SubjectRow, Timetable, UserRow,
};

verus! {

/// The whole stored state: one vector per table and the id allocation
/// counter shared by all tables.
pub struct School {
    pub users: Vec<UserRow>,
    pub roles: Vec<RoleRow>,
    pub families: Vec<Family>,
    pub courses: Vec<Course>,
    pub subjects: Vec<SubjectRow>,
    pub assessments: Vec<Assessment>,
    pub grades: Vec<Grade>,
    pub messages: Vec<Message>,
    pub message_courses: Vec<MessageCourse>,
    pub subject_messages: Vec<SubjectMessage>,
    pub homework_submissions: Vec<HomeworkSubmission>,
    pub quizzes: Vec<Quiz>,
    pub selfassessable_tasks: Vec<SelfassessableTask>,
    pub selfassessable_submissions: Vec<SelfassessableResponse>,
    pub selfassessable_pending_grades: Vec<PendingSelfassessableGrade>,
    pub assistance: Vec<Assistance>,
    pub disciplinary_sanctions: Vec<DisciplinarySanction>,
    pub timetables: Vec<Timetable>,
    pub personal_data: Vec<PersonalDataRow>,
    pub next_id: u64,
}

impl School {
    /// Ids of user rows are unique and below the allocation counter.
    pub open spec fn users_ok(self) -> bool {
        &&& forall|i: int, j: int|
            0 <= i < j < self.users@.len() ==> #[trigger] self.users@[i].id != #[trigger] self.users@[j].id
        &&& forall|i: int| 0 <= i < self.users@.len() ==> #[trigger] self.users@[i].id < self.next_id
    }

    /// Ids of course rows are unique and below the allocation counter.
    pub open spec fn courses_ok(self) -> bool {
        &&& forall|i: int, j: int|
            0 <= i < j < self.courses@.len() ==> #[trigger] self.courses@[i].id != #[trigger] self.courses@[j].id
        &&& forall|i: int| 0 <= i < self.courses@.len() ==> #[trigger] self.courses@[i].id < self.next_id
    }

    /// Ids of subject rows are unique and below the allocation counter.
    pub open spec fn subjects_ok(self) -> bool {
        &&& forall|i: int, j: int|
            0 <= i < j < self.subjects@.len() ==> #[trigger] self.subjects@[i].id
                != #[trigger] self.subjects@[j].id
        &&& forall|i: int|
            0 <= i < self.subjects@.len() ==> #[trigger] self.subjects@[i].id < self.next_id
    }

    /// Ids of assessment rows are unique and below the allocation counter.
    pub open spec fn assessments_ok(self) -> bool {
        &&& forall|i: int, j: int|
            0 <= i < j < self.assessments@.len() ==> #[trigger] self.assessments@[i].id
                != #[trigger] self.assessments@[j].id
        &&& forall|i: int|
            0 <= i < self.assessments@.len() ==> #[trigger] self.assessments@[i].id < self.next_id
    }

    /// Ids of grade rows are unique and below the allocation counter, and at
    /// most one grade exists per assessment and student pair.
    pub open spec fn grades_ok(self) -> bool {
        &&& forall|i: int, j: int|
            0 <= i < j < self.grades@.len() ==> #[trigger] self.grades@[i].id != #[trigger] self.grades@[j].id
        &&& forall|i: int| 0 <= i < self.grades@.len() ==> #[trigger] self.grades@[i].id < self.next_id
        &&& forall|i: int, j: int|
            0 <= i < j < self.grades@.len() && #[trigger] self.grades@[i].assessment_id is Some
                && (#[trigger] self.grades@[j].assessment_id) == self.grades@[i].assessment_id ==> self.grades@[i].student_id
                != self.grades@[j].student_id
    }

    /// Ids of broadcast messages are unique and below the allocation counter.
    pub open spec fn messages_ok(self) -> bool {
        &&& forall|i: int, j: int|
            0 <= i < j < self.messages@.len() ==> #[trigger] self.messages@[i].id
                != #[trigger] self.messages@[j].id
        &&& forall|i: int|
            0 <= i < self.messages@.len() ==> #[trigger] self.messages@[i].id < self.next_id
    }

    /// Ids of subject messages are unique and below the allocation counter.
    pub open spec fn subject_messages_ok(self) -> bool {
        &&& forall|i: int, j: int|
            0 <= i < j < self.subject_messages@.len() ==> #[trigger] self.subject_messages@[i].id
                != #[trigger] self.subject_messages@[j].id
        &&& forall|i: int|
            0 <= i < self.subject_messages@.len() ==> #[trigger] self.subject_messages@[i].id
                < self.next_id
    }

    /// Ids of homework submissions are unique and below the allocation
    /// counter, and at most one submission exists per student and task pair.
    pub open spec fn homework_submissions_ok(self) -> bool {
        &&& forall|i: int, j: int|
            0 <= i < j < self.homework_submissions@.len()
                ==> #[trigger] self.homework_submissions@[i].id
                != #[trigger] self.homework_submissions@[j].id
        &&& forall|i: int|
            0 <= i < self.homework_submissions@.len() ==> #[trigger] self.homework_submissions@[i].id
                < self.next_id
        &&& forall|i: int, j: int|
            0 <= i < j < self.homework_submissions@.len()
                && (#[trigger] self.homework_submissions@[i].student_id)
                == (#[trigger] self.homework_submissions@[j].student_id)
                ==> self.homework_submissions@[i].task_id != self.homework_submissions@[j].task_id
    }

    /// Ids of quizzes are unique and below the allocation counter, a quiz
    /// belongs to at most one assessment, and the assessment it names was
    /// allocated.
    pub open spec fn quizzes_ok(self) -> bool {
        &&& forall|i: int, j: int|
            0 <= i < j < self.quizzes@.len() ==> #[trigger] self.quizzes@[i].id
                != #[trigger] self.quizzes@[j].id
        &&& forall|i: int|
            0 <= i < self.quizzes@.len() ==> #[trigger] self.quizzes@[i].id < self.next_id
        &&& forall|i: int, j: int|
            0 <= i < j < self.quizzes@.len() ==> #[trigger] self.quizzes@[i].assessment_id
                != #[trigger] self.quizzes@[j].assessment_id
        &&& forall|i: int|
            0 <= i < self.quizzes@.len() ==> #[trigger] self.quizzes@[i].assessment_id
                < self.next_id
    }

    /// Ids of quiz questions are unique and below the allocation counter.
    pub open spec fn selfassessable_tasks_ok(self) -> bool {
        &&& forall|i: int, j: int|
            0 <= i < j < self.selfassessable_tasks@.len()
                ==> #[trigger] self.selfassessable_tasks@[i].id
                != #[trigger] self.selfassessable_tasks@[j].id
        &&& forall|i: int|
            0 <= i < self.selfassessable_tasks@.len() ==> #[trigger] self.selfassessable_tasks@[i].id
                < self.next_id
    }

    /// Ids of quiz submissions are unique and below the allocation counter,
    /// and at most one submission exists per student and quiz pair.
    pub open spec fn selfassessable_submissions_ok(self) -> bool {
        &&& forall|i: int, j: int|
            0 <= i < j < self.selfassessable_submissions@.len()
                ==> #[trigger] self.selfassessable_submissions@[i].id
                != #[trigger] self.selfassessable_submissions@[j].id
        &&& forall|i: int|
            0 <= i < self.selfassessable_submissions@.len()
                ==> #[trigger] self.selfassessable_submissions@[i].id < self.next_id
        &&& forall|i: int, j: int|
            0 <= i < j < self.selfassessable_submissions@.len()
                && (#[trigger] self.selfassessable_submissions@[i].student_id)
                == (#[trigger] self.selfassessable_submissions@[j].student_id)
                ==> self.selfassessable_submissions@[i].selfassessable_id
                != self.selfassessable_submissions@[j].selfassessable_id
    }

    /// Ids of staged quiz grades are unique and below the allocation
    /// counter, at most one staged grade exists per student and quiz pair,
    /// and every staged grade is backed by a stored submission of the same
    /// student for the same quiz.
    pub open spec fn pending_ok(self) -> bool {
        &&& forall|i: int, j: int|
            0 <= i < j < self.selfassessable_pending_grades@.len()
                ==> #[trigger] self.selfassessable_pending_grades@[i].id
                != #[trigger] self.selfassessable_pending_grades@[j].id
        &&& forall|i: int|
            0 <= i < self.selfassessable_pending_grades@.len()
                ==> #[trigger] self.selfassessable_pending_grades@[i].id < self.next_id
        &&& forall|i: int, j: int|
            0 <= i < j < self.selfassessable_pending_grades@.len()
                && (#[trigger] self.selfassessable_pending_grades@[i].student_id)
                == (#[trigger] self.selfassessable_pending_grades@[j].student_id)
                ==> self.selfassessable_pending_grades@[i].selfassessable_id
                != self.selfassessable_pending_grades@[j].selfassessable_id
        &&& forall|i: int|
            0 <= i < self.selfassessable_pending_grades@.len() ==> pair_submitted(
                self.selfassessable_submissions@,
                (#[trigger] self.selfassessable_pending_grades@[i]).student_id,
                self.selfassessable_pending_grades@[i].selfassessable_id,
            )
    }

    /// Ids of attendance rows are unique and below the allocation counter.
    pub open spec fn assistance_ok(self) -> bool {
        &&& forall|i: int, j: int|
            0 <= i < j < self.assistance@.len() ==> #[trigger] self.assistance@[i].id
                != #[trigger] self.assistance@[j].id
        &&& forall|i: int|
            0 <= i < self.assistance@.len() ==> #[trigger] self.assistance@[i].id < self.next_id
    }

    /// Ids of sanction rows are unique and below the allocation counter.
    pub open spec fn sanctions_ok(self) -> bool {
        &&& forall|i: int, j: int|
            0 <= i < j < self.disciplinary_sanctions@.len()
                ==> #[trigger] self.disciplinary_sanctions@[i].id
                != #[trigger] self.disciplinary_sanctions@[j].id
        &&& forall|i: int|
            0 <= i < self.disciplinary_sanctions@.len()
                ==> #[trigger] self.disciplinary_sanctions@[i].id < self.next_id
    }

    /// Ids of timetable rows are unique and below the allocation counter.
    pub open spec fn timetables_ok(self) -> bool {
        &&& forall|i: int, j: int|
            0 <= i < j < self.timetables@.len() ==> #[trigger] self.timetables@[i].id
                != #[trigger] self.timetables@[j].id
        &&& forall|i: int|
            0 <= i < self.timetables@.len() ==> #[trigger] self.timetables@[i].id < self.next_id
    }

    /// At most one personal-data row exists per account.
    pub open spec fn personal_data_ok(self) -> bool {
        forall|i: int, j: int|
            0 <= i < j < self.personal_data@.len() ==> #[trigger] self.personal_data@[i].user_id
                != #[trigger] self.personal_data@[j].user_id
    }

    /// The well-formedness invariant of the whole state.
    pub open spec fn wf(self) -> bool {
        &&& self.users_ok()
        &&& self.courses_ok()
        &&& self.subjects_ok()
        &&& self.assessments_ok()
        &&& self.grades_ok()
        &&& self.messages_ok()
        &&& self.subject_messages_ok()
        &&& self.homework_submissions_ok()
        &&& self.quizzes_ok()
        &&& self.selfassessable_tasks_ok()
        &&& self.selfassessable_submissions_ok()
        &&& self.pending_ok()
        &&& self.assistance_ok()
        &&& self.sanctions_ok()
        &&& self.timetables_ok()
        &&& self.personal_data_ok()
    }

    /// An empty state with the allocation counter at zero.
    pub fn empty() -> (r: School)
        ensures
            r.wf(),
            r.users@.len() == 0,
            r.roles@.len() == 0,
            r.families@.len() == 0,
            r.courses@.len() == 0,
            r.subjects@.len() == 0,
            r.assessments@.len() == 0,
            r.grades@.len() == 0,
            r.messages@.len() == 0,
            r.message_courses@.len() == 0,
            r.subject_messages@.len() == 0,
            r.homework_submissions@.len() == 0,
            r.quizzes@.len() == 0,
            r.selfassessable_tasks@.len() == 0,
            r.selfassessable_submissions@.len() == 0,
            r.selfassessable_pending_grades@.len() == 0,
            r.assistance@.len() == 0,
            r.disciplinary_sanctions@.len() == 0,
            r.timetables@.len() == 0,
            r.personal_data@.len() == 0,
            r.next_id == 0,
    {
        School {
            users: Vec::new(),
            roles: Vec::new(),
            families: Vec::new(),
            courses: Vec::new(),
            subjects: Vec::new(),
            assessments: Vec::new(),
            grades: Vec::new(),
            messages: Vec::new(),
            message_courses: Vec::new(),
            subject_messages: Vec::new(),
            homework_submissions: Vec::new(),
            quizzes: Vec::new(),
            selfassessable_tasks: Vec::new(),
            selfassessable_submissions: Vec::new(),
            selfassessable_pending_grades: Vec::new(),
            assistance: Vec::new(),
            disciplinary_sanctions: Vec::new(),
            timetables: Vec::new(),
            personal_data: Vec::new(),
            next_id: 0,
        }
    }
}

/// Index of the first user row with the given id, searching from `i`.
pub open spec fn user_idx_from(s: Seq<UserRow>, id: u64, i: int) -> Option<int>
    decreases s.len() - i,
{
    if !(0 <= i < s.len()) {
        None
    } else if s[i].id == id {
        Some(i)
    } else {
        user_idx_from(s, id, i + 1)
    }
}

/// Index of the first user row with the given id.
pub open spec fn user_idx(db: School, id: u64) -> Option<int> {
    user_idx_from(db.users@, id, 0)
}

/// Index of the first course row with the given id, searching from `i`.
pub open spec fn course_idx_from(s: Seq<Course>, id: u64, i: int) -> Option<int>
    decreases s.len() - i,
{
    if !(0 <= i < s.len()) {
        None
    } else if s[i].id == id {
        Some(i)
    } else {
        course_idx_from(s, id, i + 1)
    }
}

/// Index of the first course row with the given id.
pub open spec fn course_idx(db: School, id: u64) -> Option<int> {
    course_idx_from(db.courses@, id, 0)
}

/// Index of the first subject row with the given id, searching from `i`.
pub open spec fn subject_idx_from(s: Seq<SubjectRow>, id: u64, i: int) -> Option<int>
    decreases s.len() - i,
{
    if !(0 <= i < s.len()) {
        None
    } else if s[i].id == id {
        Some(i)
    } else {
        subject_idx_from(s, id, i + 1)
    }
}

/// Index of the first subject row with the given id.
pub open spec fn subject_idx(db: School, id: u64) -> Option<int> {
    subject_idx_from(db.subjects@, id, 0)
}

/// Index of the first assessment row with the given id, searching from `i`.
pub open spec fn assessment_idx_from(s: Seq<Assessment>, id: u64, i: int) -> Option<int>
    decreases s.len() - i,
{
    if !(0 <= i < s.len()) {
        None
    } else if s[i].id == id {
        Some(i)
    } else {
        assessment_idx_from(s, id, i + 1)
    }
}

/// Index of the first assessment row with the given id.
pub open spec fn assessment_idx(db: School, id: u64) -> Option<int> {
    assessment_idx_from(db.assessments@, id, 0)
}

/// Index of the first quiz with the given id, searching from `i`.
pub open spec fn quiz_idx_from(s: Seq<Quiz>, id: u64, i: int) -> Option<int>
    decreases s.len() - i,
{
    if !(0 <= i < s.len()) {
        None
    } else if s[i].id == id {
        Some(i)
    } else {
        quiz_idx_from(s, id, i + 1)
    }
}

/// Index of the first quiz with the given id.
pub open spec fn quiz_idx(db: School, id: u64) -> Option<int> {
    quiz_idx_from(db.quizzes@, id, 0)
}

/// Index of the first quiz attached to the given assessment, searching from
/// `i`.
pub open spec fn quiz_by_assessment_from(s: Seq<Quiz>, assessment_id: u64, i: int) -> Option<int>
    decreases s.len() - i,
{
    if !(0 <= i < s.len()) {
        None
    } else if s[i].assessment_id == assessment_id {
        Some(i)
    } else {
        quiz_by_assessment_from(s, assessment_id, i + 1)
    }
}

/// Index of the first quiz attached to the given assessment.
pub open spec fn quiz_by_assessment(db: School, assessment_id: u64) -> Option<int> {
    quiz_by_assessment_from(db.quizzes@, assessment_id, 0)
}

/// Index of the first personal-data row of the given account, searching from
/// `i`.
pub open spec fn pd_idx_from(s: Seq<PersonalDataRow>, user_id: u64, i: int) -> Option<int>
    decreases s.len() - i,
{
    if !(0 <= i < s.len()) {
        None
    } else if s[i].user_id == user_id {
        Some(i)
    } else {
        pd_idx_from(s, user_id, i + 1)
    }
}

/// Index of the first personal-data row of the given account.
pub open spec fn pd_idx(db: School, user_id: u64) -> Option<int> {
    pd_idx_from(db.personal_data@, user_id, 0)
}

/// The course the given account belongs to, if the account exists and has
/// one.
pub open spec fn course_of_user(db: School, user_id: u64) -> Option<u64> {
    match user_idx(db, user_id) {
        Some(i) => db.users@[i].course_id,
        None => None,
    }
}

/// The course a subject belongs to, if the subject exists.
pub open spec fn course_of_subject(db: School, subject_id: u64) -> Option<u64> {
    match subject_idx(db, subject_id) {
        Some(i) => Some(db.subjects@[i].course_id),
        None => None,
    }
}

/// The teacher `teacher_id` teaches the subject `subject_id`.
pub open spec fn teacher_teaches(db: School, teacher_id: u64, subject_id: u64) -> bool {
    exists|i: int|
        0 <= i < db.subjects@.len() && #[trigger] db.subjects@[i].id == subject_id
            && db.subjects@[i].teacher_id == teacher_id
}

/// The teacher teaches at least one subject of the course.
pub open spec fn teacher_in_course(db: School, teacher_id: u64, course_id: u64) -> bool {
    exists|i: int|
        0 <= i < db.subjects@.len() && #[trigger] db.subjects@[i].course_id == course_id
            && db.subjects@[i].teacher_id == teacher_id
}

/// A course row with the given id exists and names this preceptor.
pub open spec fn preceptor_presides(db: School, preceptor_id: u64, course_id: u64) -> bool {
    exists|i: int|
        0 <= i < db.courses@.len() && #[trigger] db.courses@[i].id == course_id
            && db.courses@[i].preceptor_id == Some(preceptor_id)
}

/// A user row with the given id exists and belongs to the course.
pub open spec fn user_in_course(db: School, user_id: u64, course_id: u64) -> bool {
    exists|i: int|
        0 <= i < db.users@.len() && #[trigger] db.users@[i].id == user_id
            && db.users@[i].course_id == Some(course_id)
}

/// A family link from `father_id` to `student_id` exists.
pub open spec fn linked_family(db: School, father_id: u64, student_id: u64) -> bool {
    exists|i: int|
        0 <= i < db.families@.len() && #[trigger] db.families@[i].father_id == father_id
            && db.families@[i].student_id == student_id
}

/// A grade for this assessment and student already exists.
pub open spec fn grade_exists_for(db: School, assessment_id: u64, student_id: u64) -> bool {
    exists|i: int|
        0 <= i < db.grades@.len() && #[trigger] db.grades@[i].assessment_id == Some(assessment_id)
            && db.grades@[i].student_id == student_id
}

/// The student already submitted this homework task.
pub open spec fn homework_submitted(db: School, student_id: u64, task_id: u64) -> bool {
    exists|i: int|
        0 <= i < db.homework_submissions@.len()
            && #[trigger] db.homework_submissions@[i].student_id == student_id
            && db.homework_submissions@[i].task_id == task_id
}

/// A submission by the student for the quiz stands in the given
/// submission table.
pub open spec fn pair_submitted(
    subs: Seq<SelfassessableResponse>,
    student_id: u64,
    selfassessable_id: u64,
) -> bool {
    exists|i: int|
        0 <= i < subs.len() && #[trigger] subs[i].student_id == student_id
            && subs[i].selfassessable_id == selfassessable_id
}

/// The student already answered this quiz.
pub open spec fn quiz_answered(db: School, student_id: u64, selfassessable_id: u64) -> bool {
    pair_submitted(db.selfassessable_submissions@, student_id, selfassessable_id)
}


impl School {
    /// Position of the user row with the given id.
    pub fn user_pos(&self, id: u64) -> (r: Option<usize>)
        ensures
            match r {
                Some(k) => user_idx(*self, id) == Some(k as int) && k < self.users@.len()
                    && self.users@[k as int].id == id,
                None => user_idx(*self, id) is None,
            },
    {
        let mut i: usize = 0;
        while i < self.users.len()
            invariant
                i <= self.users@.len(),
                user_idx(*self, id) == user_idx_from(self.users@, id, i as int),
            decreases self.users@.len() - i,
        {
            if self.users[i].id == id {
                return Some(i);
            }
            i += 1;
        }
        None
    }

    /// Position of the course row with the given id.
    pub fn course_pos(&self, id: u64) -> (r: Option<usize>)
        ensures
            match r {
                Some(k) => course_idx(*self, id) == Some(k as int) && k < self.courses@.len()
                    && self.courses@[k as int].id == id,
                None => course_idx(*self, id) is None,
            },
    {
        let mut i: usize = 0;
        while i < self.courses.len()
            invariant
                i <= self.courses@.len(),
                course_idx(*self, id) == course_idx_from(self.courses@, id, i as int),
            decreases self.courses@.len() - i,
        {
            if self.courses[i].id == id {
                return Some(i);
            }
            i += 1;
        }
        None
    }

    /// Position of the subject row with the given id.
    pub fn subject_pos(&self, id: u64) -> (r: Option<usize>)
        ensures
            match r {
                Some(k) => subject_idx(*self, id) == Some(k as int) && k < self.subjects@.len()
                    && self.subjects@[k as int].id == id,
                None => subject_idx(*self, id) is None,
            },
    {
        let mut i: usize = 0;
        while i < self.subjects.len()
            invariant
                i <= self.subjects@.len(),
                subject_idx(*self, id) == subject_idx_from(self.subjects@, id, i as int),
            decreases self.subjects@.len() - i,
        {
            if self.subjects[i].id == id {
                return Some(i);
            }
            i += 1;
        }
        None
    }

    /// Position of the assessment row with the given id.
    pub fn assessment_pos(&self, id: u64) -> (r: Option<usize>)
        ensures
            match r {
                Some(k) => assessment_idx(*self, id) == Some(k as int) && k
                    < self.assessments@.len() && self.assessments@[k as int].id == id,
                None => assessment_idx(*self, id) is None,
            },
    {
        let mut i: usize = 0;
        while i < self.assessments.len()
            invariant
                i <= self.assessments@.len(),
                assessment_idx(*self, id) == assessment_idx_from(self.assessments@, id, i as int),
            decreases self.assessments@.len() - i,
        {
            if self.assessments[i].id == id {
                return Some(i);
            }
            i += 1;
        }
        None
    }

    /// Position of the quiz with the given id.
    pub fn quiz_pos(&self, id: u64) -> (r: Option<usize>)
        ensures
            match r {
                Some(k) => quiz_idx(*self, id) == Some(k as int) && k < self.quizzes@.len()
                    && self.quizzes@[k as int].id == id,
                None => quiz_idx(*self, id) is None,
            },
    {
        let mut i: usize = 0;
        while i < self.quizzes.len()
            invariant
                i <= self.quizzes@.len(),
                quiz_idx(*self, id) == quiz_idx_from(self.quizzes@, id, i as int),
            decreases self.quizzes@.len() - i,
        {
            if self.quizzes[i].id == id {
                return Some(i);
            }
            i += 1;
        }
        None
    }

    /// Position of the quiz attached to the given assessment.
    pub fn quiz_pos_by_assessment(&self, assessment_id: u64) -> (r: Option<usize>)
        ensures
            match r {
                Some(k) => quiz_by_assessment(*self, assessment_id) == Some(k as int) && k
                    < self.quizzes@.len() && self.quizzes@[k as int].assessment_id
                    == assessment_id,
                None => quiz_by_assessment(*self, assessment_id) is None,
            },
    {
        let mut i: usize = 0;
        while i < self.quizzes.len()
            invariant
                i <= self.quizzes@.len(),
                quiz_by_assessment(*self, assessment_id) == quiz_by_assessment_from(
                    self.quizzes@,
                    assessment_id,
                    i as int,
                ),
            decreases self.quizzes@.len() - i,
        {
            if self.quizzes[i].assessment_id == assessment_id {
                return Some(i);
            }
            i += 1;
        }
        None
    }

    /// Position of the personal-data row of the given account.
    pub fn pd_pos(&self, user_id: u64) -> (r: Option<usize>)
        ensures
            match r {
                Some(k) => pd_idx(*self, user_id) == Some(k as int) && k
                    < self.personal_data@.len() && self.personal_data@[k as int].user_id
                    == user_id,
                None => pd_idx(*self, user_id) is None,
            },
    {
        let mut i: usize = 0;
        while i < self.personal_data.len()
            invariant
                i <= self.personal_data@.len(),
                pd_idx(*self, user_id) == pd_idx_from(self.personal_data@, user_id, i as int),
            decreases self.personal_data@.len() - i,
        {
            if self.personal_data[i].user_id == user_id {
                return Some(i);
            }
            i += 1;
        }
        None
    }

    /// The course of the given account, as [`course_of_user`] gives it.
    pub fn user_course(&self, user_id: u64) -> (r: Option<u64>)
        ensures
            r == course_of_user(*self, user_id),
    {
        match self.user_pos(user_id) {
            Some(k) => match self.users[k].course_id {
                Some(c) => Some(c),
                None => None,
            },
            None => None,
        }
    }

    /// The course of the given subject, as [`course_of_subject`] gives it.
    pub fn subject_course(&self, subject_id: u64) -> (r: Option<u64>)
        ensures
            r == course_of_subject(*self, subject_id),
    {
        match self.subject_pos(subject_id) {
            Some(k) => Some(self.subjects[k].course_id),
            None => None,
        }
    }

    /// Decides [`teacher_teaches`].
    pub fn is_teacher_of(&self, teacher_id: u64, subject_id: u64) -> (b: bool)
        ensures
            b == teacher_teaches(*self, teacher_id, subject_id),
    {
        let mut i: usize = 0;
        while i < self.subjects.len()
            invariant
                i <= self.subjects@.len(),
                forall|k: int|
                    0 <= k < i ==> !(#[trigger] self.subjects@[k].id == subject_id
                        && self.subjects@[k].teacher_id == teacher_id),
            decreases self.subjects@.len() - i,
        {
            if self.subjects[i].id == subject_id && self.subjects[i].teacher_id == teacher_id {
                return true;
            }
            i += 1;
        }
        false
    }

    /// Decides [`teacher_in_course`].
    pub fn is_teacher_in_course(&self, teacher_id: u64, course_id: u64) -> (b: bool)
        ensures
            b == teacher_in_course(*self, teacher_id, course_id),
    {
        let mut i: usize = 0;
        while i < self.subjects.len()
            invariant
                i <= self.subjects@.len(),
                forall|k: int|
                    0 <= k < i ==> !(#[trigger] self.subjects@[k].course_id == course_id
                        && self.subjects@[k].teacher_id == teacher_id),
            decreases self.subjects@.len() - i,
        {
            if self.subjects[i].course_id == course_id && self.subjects[i].teacher_id == teacher_id
            {
                return true;
            }
            i += 1;
        }
        false
    }

    /// Decides [`preceptor_presides`].
    pub fn is_preceptor_of(&self, preceptor_id: u64, course_id: u64) -> (b: bool)
        ensures
            b == preceptor_presides(*self, preceptor_id, course_id),
    {
        let mut i: usize = 0;
        while i < self.courses.len()
            invariant
                i <= self.courses@.len(),
                forall|k: int|
                    0 <= k < i ==> !(#[trigger] self.courses@[k].id == course_id
                        && self.courses@[k].preceptor_id == Some(preceptor_id)),
            decreases self.courses@.len() - i,
        {
            let is_p = match self.courses[i].preceptor_id {
                Some(p) => p == preceptor_id,
                None => false,
            };
            if self.courses[i].id == course_id && is_p {
                return true;
            }
            i += 1;
        }
        false
    }

    /// Decides [`user_in_course`].
    pub fn is_user_in_course(&self, user_id: u64, course_id: u64) -> (b: bool)
        ensures
            b == user_in_course(*self, user_id, course_id),
    {
        let mut i: usize = 0;
        while i < self.users.len()
            invariant
                i <= self.users@.len(),
                forall|k: int|
                    0 <= k < i ==> !(#[trigger] self.users@[k].id == user_id
                        && self.users@[k].course_id == Some(course_id)),
            decreases self.users@.len() - i,
        {
            let in_c = match self.users[i].course_id {
                Some(c) => c == course_id,
                None => false,
            };
            if self.users[i].id == user_id && in_c {
                return true;
            }
            i += 1;
        }
        false
    }

    /// Decides [`linked_family`].
    pub fn is_linked_family(&self, father_id: u64, student_id: u64) -> (b: bool)
        ensures
            b == linked_family(*self, father_id, student_id),
    {
        let mut i: usize = 0;
        while i < self.families.len()
            invariant
                i <= self.families@.len(),
                forall|k: int|
                    0 <= k < i ==> !(#[trigger] self.families@[k].father_id == father_id
                        && self.families@[k].student_id == student_id),
            decreases self.families@.len() - i,
        {
            if self.families[i].father_id == father_id && self.families[i].student_id == student_id
            {
                return true;
            }
            i += 1;
        }
        false
    }

    /// Decides [`grade_exists_for`].
    pub fn has_grade_for(&self, assessment_id: u64, student_id: u64) -> (b: bool)
        ensures
            b == grade_exists_for(*self, assessment_id, student_id),
    {
        let mut i: usize = 0;
        while i < self.grades.len()
            invariant
                i <= self.grades@.len(),
                forall|k: int|
                    0 <= k < i ==> !(#[trigger] self.grades@[k].assessment_id == Some(
                        assessment_id,
                    ) && self.grades@[k].student_id == student_id),
            decreases self.grades@.len() - i,
        {
            let hit = match self.grades[i].assessment_id {
                Some(a) => a == assessment_id,
                None => false,
            };
            if hit && self.grades[i].student_id == student_id {
                return true;
            }
            i += 1;
        }
        false
    }

    /// Decides [`homework_submitted`].
    pub fn has_homework_submission(&self, student_id: u64, task_id: u64) -> (b: bool)
        ensures
            b == homework_submitted(*self, student_id, task_id),
    {
        let mut i: usize = 0;
        while i < self.homework_submissions.len()
            invariant
                i <= self.homework_submissions@.len(),
                forall|k: int|
                    0 <= k < i ==> !(#[trigger] self.homework_submissions@[k].student_id
                        == student_id && self.homework_submissions@[k].task_id == task_id),
            decreases self.homework_submissions@.len() - i,
        {
            if self.homework_submissions[i].student_id == student_id
                && self.homework_submissions[i].task_id == task_id {
                return true;
            }
            i += 1;
        }
        false
    }

    /// Decides [`quiz_answered`].
    pub fn has_quiz_answer(&self, student_id: u64, selfassessable_id: u64) -> (b: bool)
        ensures
            b == quiz_answered(*self, student_id, selfassessable_id),
    {
        let mut i: usize = 0;
        while i < self.selfassessable_submissions.len()
            invariant
                i <= self.selfassessable_submissions@.len(),
                forall|k: int|
                    0 <= k < i ==> !(#[trigger] self.selfassessable_submissions@[k].student_id
                        == student_id && self.selfassessable_submissions@[k].selfassessable_id
                        == selfassessable_id),
            decreases self.selfassessable_submissions@.len() - i,
        {
            if self.selfassessable_submissions[i].student_id == student_id
                && self.selfassessable_submissions[i].selfassessable_id == selfassessable_id {
                return true;
            }
            i += 1;
        }
        false
    }
}


/// Every table other than `grades` is unchanged
/// between the two states.
pub open spec fn unchanged_except_grades(a: School, b: School) -> bool {
    &&& a.users@ == b.users@
    &&& a.roles@ == b.roles@
    &&& a.families@ == b.families@
    &&& a.courses@ == b.courses@
    &&& a.subjects@ == b.subjects@
    &&& a.assessments@ == b.assessments@
    &&& a.messages@ == b.messages@
    &&& a.message_courses@ == b.message_courses@
    &&& a.subject_messages@ == b.subject_messages@
    &&& a.homework_submissions@ == b.homework_submissions@
    &&& a.quizzes@ == b.quizzes@
    &&& a.selfassessable_tasks@ == b.selfassessable_tasks@
    &&& a.selfassessable_submissions@ == b.selfassessable_submissions@
    &&& a.selfassessable_pending_grades@ == b.selfassessable_pending_grades@
    &&& a.assistance@ == b.assistance@
    &&& a.disciplinary_sanctions@ == b.disciplinary_sanctions@
    &&& a.timetables@ == b.timetables@
    &&& a.personal_data@ == b.personal_data@
}

/// Every table other than `users` is unchanged
/// between the two states.
pub open spec fn unchanged_except_users(a: School, b: School) -> bool {
    &&& a.roles@ == b.roles@
    &&& a.families@ == b.families@
    &&& a.courses@ == b.courses@
    &&& a.subjects@ == b.subjects@
    &&& a.assessments@ == b.assessments@
    &&& a.grades@ == b.grades@
    &&& a.messages@ == b.messages@
    &&& a.message_courses@ == b.message_courses@
    &&& a.subject_messages@ == b.subject_messages@
    &&& a.homework_submissions@ == b.homework_submissions@
    &&& a.quizzes@ == b.quizzes@
    &&& a.selfassessable_tasks@ == b.selfassessable_tasks@
    &&& a.selfassessable_submissions@ == b.selfassessable_submissions@
    &&& a.selfassessable_pending_grades@ == b.selfassessable_pending_grades@
    &&& a.assistance@ == b.assistance@
    &&& a.disciplinary_sanctions@ == b.disciplinary_sanctions@
    &&& a.timetables@ == b.timetables@
    &&& a.personal_data@ == b.personal_data@
}

/// Every table other than `roles` is unchanged
/// between the two states.
pub open spec fn unchanged_except_roles(a: School, b: School) -> bool {
    &&& a.users@ == b.users@
    &&& a.families@ == b.families@
    &&& a.courses@ == b.courses@
    &&& a.subjects@ == b.subjects@
    &&& a.assessments@ == b.assessments@
    &&& a.grades@ == b.grades@
    &&& a.messages@ == b.messages@
    &&& a.message_courses@ == b.message_courses@
    &&& a.subject_messages@ == b.subject_messages@
    &&& a.homework_submissions@ == b.homework_submissions@
    &&& a.quizzes@ == b.quizzes@
    &&& a.selfassessable_tasks@ == b.selfassessable_tasks@
    &&& a.selfassessable_submissions@ == b.selfassessable_submissions@
    &&& a.selfassessable_pending_grades@ == b.selfassessable_pending_grades@
    &&& a.assistance@ == b.assistance@
    &&& a.disciplinary_sanctions@ == b.disciplinary_sanctions@
    &&& a.timetables@ == b.timetables@
    &&& a.personal_data@ == b.personal_data@
}

/// Every table other than `families` is unchanged
/// between the two states.
pub open spec fn unchanged_except_families(a: School, b: School) -> bool {
    &&& a.users@ == b.users@
    &&& a.roles@ == b.roles@
    &&& a.courses@ == b.courses@
    &&& a.subjects@ == b.subjects@
    &&& a.assessments@ == b.assessments@
    &&& a.grades@ == b.grades@
    &&& a.messages@ == b.messages@
    &&& a.message_courses@ == b.message_courses@
    &&& a.subject_messages@ == b.subject_messages@
    &&& a.homework_submissions@ == b.homework_submissions@
    &&& a.quizzes@ == b.quizzes@
    &&& a.selfassessable_tasks@ == b.selfassessable_tasks@
    &&& a.selfassessable_submissions@ == b.selfassessable_submissions@
    &&& a.selfassessable_pending_grades@ == b.selfassessable_pending_grades@
    &&& a.assistance@ == b.assistance@
    &&& a.disciplinary_sanctions@ == b.disciplinary_sanctions@
    &&& a.timetables@ == b.timetables@
    &&& a.personal_data@ == b.personal_data@
}

/// Every table other than `courses` is unchanged
/// between the two states.
pub open spec fn unchanged_except_courses(a: School, b: School) -> bool {
    &&& a.users@ == b.users@
    &&& a.roles@ == b.roles@
    &&& a.families@ == b.families@
    &&& a.subjects@ == b.subjects@
    &&& a.assessments@ == b.assessments@
    &&& a.grades@ == b.grades@
    &&& a.messages@ == b.messages@
    &&& a.message_courses@ == b.message_courses@
    &&& a.subject_messages@ == b.subject_messages@
    &&& a.homework_submissions@ == b.homework_submissions@
    &&& a.quizzes@ == b.quizzes@
    &&& a.selfassessable_tasks@ == b.selfassessable_tasks@
    &&& a.selfassessable_submissions@ == b.selfassessable_submissions@
    &&& a.selfassessable_pending_grades@ == b.selfassessable_pending_grades@
    &&& a.assistance@ == b.assistance@
    &&& a.disciplinary_sanctions@ == b.disciplinary_sanctions@
    &&& a.timetables@ == b.timetables@
    &&& a.personal_data@ == b.personal_data@
}

/// Every table other than `subjects` is unchanged
/// between the two states.
pub open spec fn unchanged_except_subjects(a: School, b: School) -> bool {
    &&& a.users@ == b.users@
    &&& a.roles@ == b.roles@
    &&& a.families@ == b.families@
    &&& a.courses@ == b.courses@
    &&& a.assessments@ == b.assessments@
    &&& a.grades@ == b.grades@
    &&& a.messages@ == b.messages@
    &&& a.message_courses@ == b.message_courses@
    &&& a.subject_messages@ == b.subject_messages@
    &&& a.homework_submissions@ == b.homework_submissions@
    &&& a.quizzes@ == b.quizzes@
    &&& a.selfassessable_tasks@ == b.selfassessable_tasks@
    &&& a.selfassessable_submissions@ == b.selfassessable_submissions@
    &&& a.selfassessable_pending_grades@ == b.selfassessable_pending_grades@
    &&& a.assistance@ == b.assistance@
    &&& a.disciplinary_sanctions@ == b.disciplinary_sanctions@
    &&& a.timetables@ == b.timetables@
    &&& a.personal_data@ == b.personal_data@
}

/// Every table other than `timetables` is unchanged
/// between the two states.
pub open spec fn unchanged_except_timetables(a: School, b: School) -> bool {
    &&& a.users@ == b.users@
    &&& a.roles@ == b.roles@
    &&& a.families@ == b.families@
    &&& a.courses@ == b.courses@
    &&& a.subjects@ == b.subjects@
    &&& a.assessments@ == b.assessments@
    &&& a.grades@ == b.grades@
    &&& a.messages@ == b.messages@
    &&& a.message_courses@ == b.message_courses@
    &&& a.subject_messages@ == b.subject_messages@
    &&& a.homework_submissions@ == b.homework_submissions@
    &&& a.quizzes@ == b.quizzes@
    &&& a.selfassessable_tasks@ == b.selfassessable_tasks@
    &&& a.selfassessable_submissions@ == b.selfassessable_submissions@
    &&& a.selfassessable_pending_grades@ == b.selfassessable_pending_grades@
    &&& a.assistance@ == b.assistance@
    &&& a.disciplinary_sanctions@ == b.disciplinary_sanctions@
    &&& a.personal_data@ == b.personal_data@
}

/// Every table other than `assessments`, `quizzes`, `selfassessable_tasks` is unchanged
/// between the two states.
pub open spec fn unchanged_except_assessment_bundle(a: School, b: School) -> bool {
    &&& a.users@ == b.users@
    &&& a.roles@ == b.roles@
    &&& a.families@ == b.families@
    &&& a.courses@ == b.courses@
    &&& a.subjects@ == b.subjects@
    &&& a.grades@ == b.grades@
    &&& a.messages@ == b.messages@
    &&& a.message_courses@ == b.message_courses@
    &&& a.subject_messages@ == b.subject_messages@
    &&& a.homework_submissions@ == b.homework_submissions@
    &&& a.selfassessable_submissions@ == b.selfassessable_submissions@
    &&& a.selfassessable_pending_grades@ == b.selfassessable_pending_grades@
    &&& a.assistance@ == b.assistance@
    &&& a.disciplinary_sanctions@ == b.disciplinary_sanctions@
    &&& a.timetables@ == b.timetables@
    &&& a.personal_data@ == b.personal_data@
}

/// Every table other than `assessments` is unchanged
/// between the two states.
pub open spec fn unchanged_except_assessments(a: School, b: School) -> bool {
    &&& a.users@ == b.users@
    &&& a.roles@ == b.roles@
    &&& a.families@ == b.families@
    &&& a.courses@ == b.courses@
    &&& a.subjects@ == b.subjects@
    &&& a.grades@ == b.grades@
    &&& a.messages@ == b.messages@
    &&& a.message_courses@ == b.message_courses@
    &&& a.subject_messages@ == b.subject_messages@
    &&& a.homework_submissions@ == b.homework_submissions@
    &&& a.quizzes@ == b.quizzes@
    &&& a.selfassessable_tasks@ == b.selfassessable_tasks@
    &&& a.selfassessable_submissions@ == b.selfassessable_submissions@
    &&& a.selfassessable_pending_grades@ == b.selfassessable_pending_grades@
    &&& a.assistance@ == b.assistance@
    &&& a.disciplinary_sanctions@ == b.disciplinary_sanctions@
    &&& a.timetables@ == b.timetables@
    &&& a.personal_data@ == b.personal_data@
}

/// Every table other than `messages`, `message_courses` is unchanged
/// between the two states.
pub open spec fn unchanged_except_messages(a: School, b: School) -> bool {
    &&& a.users@ == b.users@
    &&& a.roles@ == b.roles@
    &&& a.families@ == b.families@
    &&& a.courses@ == b.courses@
    &&& a.subjects@ == b.subjects@
    &&& a.assessments@ == b.assessments@
    &&& a.grades@ == b.grades@
    &&& a.subject_messages@ == b.subject_messages@
    &&& a.homework_submissions@ == b.homework_submissions@
    &&& a.quizzes@ == b.quizzes@
    &&& a.selfassessable_tasks@ == b.selfassessable_tasks@
    &&& a.selfassessable_submissions@ == b.selfassessable_submissions@
    &&& a.selfassessable_pending_grades@ == b.selfassessable_pending_grades@
    &&& a.assistance@ == b.assistance@
    &&& a.disciplinary_sanctions@ == b.disciplinary_sanctions@
    &&& a.timetables@ == b.timetables@
    &&& a.personal_data@ == b.personal_data@
}

/// Every table other than `subject_messages` is unchanged
/// between the two states.
pub open spec fn unchanged_except_subject_messages(a: School, b: School) -> bool {
    &&& a.users@ == b.users@
    &&& a.roles@ == b.roles@
    &&& a.families@ == b.families@
    &&& a.courses@ == b.courses@
    &&& a.subjects@ == b.subjects@
    &&& a.assessments@ == b.assessments@
    &&& a.grades@ == b.grades@
    &&& a.messages@ == b.messages@
    &&& a.message_courses@ == b.message_courses@
    &&& a.homework_submissions@ == b.homework_submissions@
    &&& a.quizzes@ == b.quizzes@
    &&& a.selfassessable_tasks@ == b.selfassessable_tasks@
    &&& a.selfassessable_submissions@ == b.selfassessable_submissions@
    &&& a.selfassessable_pending_grades@ == b.selfassessable_pending_grades@
    &&& a.assistance@ == b.assistance@
    &&& a.disciplinary_sanctions@ == b.disciplinary_sanctions@
    &&& a.timetables@ == b.timetables@
    &&& a.personal_data@ == b.personal_data@
}

/// Every table other than `homework_submissions` is unchanged
/// between the two states.
pub open spec fn unchanged_except_homework_submissions(a: School, b: School) -> bool {
    &&& a.users@ == b.users@
    &&& a.roles@ == b.roles@
    &&& a.families@ == b.families@
    &&& a.courses@ == b.courses@
    &&& a.subjects@ == b.subjects@
    &&& a.assessments@ == b.assessments@
    &&& a.grades@ == b.grades@
    &&& a.messages@ == b.messages@
    &&& a.message_courses@ == b.message_courses@
    &&& a.subject_messages@ == b.subject_messages@
    &&& a.quizzes@ == b.quizzes@
    &&& a.selfassessable_tasks@ == b.selfassessable_tasks@
    &&& a.selfassessable_submissions@ == b.selfassessable_submissions@
    &&& a.selfassessable_pending_grades@ == b.selfassessable_pending_grades@
    &&& a.assistance@ == b.assistance@
    &&& a.disciplinary_sanctions@ == b.disciplinary_sanctions@
    &&& a.timetables@ == b.timetables@
    &&& a.personal_data@ == b.personal_data@
}

/// Every table other than `selfassessable_submissions`, `selfassessable_pending_grades` is unchanged
/// between the two states.
pub open spec fn unchanged_except_quiz_submission(a: School, b: School) -> bool {
    &&& a.users@ == b.users@
    &&& a.roles@ == b.roles@
    &&& a.families@ == b.families@
    &&& a.courses@ == b.courses@
    &&& a.subjects@ == b.subjects@
    &&& a.assessments@ == b.assessments@
    &&& a.grades@ == b.grades@
    &&& a.messages@ == b.messages@
    &&& a.message_courses@ == b.message_courses@
    &&& a.subject_messages@ == b.subject_messages@
    &&& a.homework_submissions@ == b.homework_submissions@
    &&& a.quizzes@ == b.quizzes@
    &&& a.selfassessable_tasks@ == b.selfassessable_tasks@
    &&& a.assistance@ == b.assistance@
    &&& a.disciplinary_sanctions@ == b.disciplinary_sanctions@
    &&& a.timetables@ == b.timetables@
    &&& a.personal_data@ == b.personal_data@
}

/// Every table other than `assistance` is unchanged
/// between the two states.
pub open spec fn unchanged_except_assistance(a: School, b: School) -> bool {
    &&& a.users@ == b.users@
    &&& a.roles@ == b.roles@
    &&& a.families@ == b.families@
    &&& a.courses@ == b.courses@
    &&& a.subjects@ == b.subjects@
    &&& a.assessments@ == b.assessments@
    &&& a.grades@ == b.grades@
    &&& a.messages@ == b.messages@
    &&& a.message_courses@ == b.message_courses@
    &&& a.subject_messages@ == b.subject_messages@
    &&& a.homework_submissions@ == b.homework_submissions@
    &&& a.quizzes@ == b.quizzes@
    &&& a.selfassessable_tasks@ == b.selfassessable_tasks@
    &&& a.selfassessable_submissions@ == b.selfassessable_submissions@
    &&& a.selfassessable_pending_grades@ == b.selfassessable_pending_grades@
    &&& a.disciplinary_sanctions@ == b.disciplinary_sanctions@
    &&& a.timetables@ == b.timetables@
    &&& a.personal_data@ == b.personal_data@
}

/// Every table other than `disciplinary_sanctions` is unchanged
/// between the two states.
pub open spec fn unchanged_except_sanctions(a: School, b: School) -> bool {
    &&& a.users@ == b.users@
    &&& a.roles@ == b.roles@
    &&& a.families@ == b.families@
    &&& a.courses@ == b.courses@
    &&& a.subjects@ == b.subjects@
    &&& a.assessments@ == b.assessments@
    &&& a.grades@ == b.grades@
    &&& a.messages@ == b.messages@
    &&& a.message_courses@ == b.message_courses@
    &&& a.subject_messages@ == b.subject_messages@
    &&& a.homework_submissions@ == b.homework_submissions@
    &&& a.quizzes@ == b.quizzes@
    &&& a.selfassessable_tasks@ == b.selfassessable_tasks@
    &&& a.selfassessable_submissions@ == b.selfassessable_submissions@
    &&& a.selfassessable_pending_grades@ == b.selfassessable_pending_grades@
    &&& a.assistance@ == b.assistance@
    &&& a.timetables@ == b.timetables@
    &&& a.personal_data@ == b.personal_data@
}

/// Every table other than `personal_data` is unchanged
/// between the two states.
pub open spec fn unchanged_except_personal_data(a: School, b: School) -> bool {
    &&& a.users@ == b.users@
    &&& a.roles@ == b.roles@
    &&& a.families@ == b.families@
    &&& a.courses@ == b.courses@
    &&& a.subjects@ == b.subjects@
    &&& a.assessments@ == b.assessments@
    &&& a.grades@ == b.grades@
    &&& a.messages@ == b.messages@
    &&& a.message_courses@ == b.message_courses@
    &&& a.subject_messages@ == b.subject_messages@
    &&& a.homework_submissions@ == b.homework_submissions@
    &&& a.quizzes@ == b.quizzes@
    &&& a.selfassessable_tasks@ == b.selfassessable_tasks@
    &&& a.selfassessable_submissions@ == b.selfassessable_submissions@
    &&& a.selfassessable_pending_grades@ == b.selfassessable_pending_grades@
    &&& a.assistance@ == b.assistance@
    &&& a.disciplinary_sanctions@ == b.disciplinary_sanctions@
    &&& a.timetables@ == b.timetables@
}

/// Every table other than `grades`, `selfassessable_pending_grades` is unchanged
/// between the two states.
pub open spec fn unchanged_except_sweep(a: School, b: School) -> bool {
    &&& a.users@ == b.users@
    &&& a.roles@ == b.roles@
    &&& a.families@ == b.families@
    &&& a.courses@ == b.courses@
    &&& a.subjects@ == b.subjects@
    &&& a.assessments@ == b.assessments@
    &&& a.messages@ == b.messages@
    &&& a.message_courses@ == b.message_courses@
    &&& a.subject_messages@ == b.subject_messages@
    &&& a.homework_submissions@ == b.homework_submissions@
    &&& a.quizzes@ == b.quizzes@
    &&& a.selfassessable_tasks@ == b.selfassessable_tasks@
    &&& a.selfassessable_submissions@ == b.selfassessable_submissions@
    &&& a.assistance@ == b.assistance@
    &&& a.disciplinary_sanctions@ == b.disciplinary_sanctions@
    &&& a.timetables@ == b.timetables@
    &&& a.personal_data@ == b.personal_data@
}


/// What a successful search from `i` says of the index it returns.
pub proof fn lemma_assessment_idx_from_some(s: Seq<Assessment>, key: u64, i: int, k: int)
    requires
        0 <= i,
        assessment_idx_from(s, key, i) == Some(k),
    ensures
        i <= k < s.len(),
        s[k].id == key,
    decreases s.len() - i,
{
    if !(0 <= i < s.len()) {
    } else if s[i].id == key {
    } else {
        lemma_assessment_idx_from_some(s, key, i + 1, k);
    }
}

/// What a successful search from `i` says of the index it returns.
pub proof fn lemma_quiz_idx_from_some(s: Seq<Quiz>, key: u64, i: int, k: int)
    requires
        0 <= i,
        quiz_idx_from(s, key, i) == Some(k),
    ensures
        i <= k < s.len(),
        s[k].id == key,
    decreases s.len() - i,
{
    if !(0 <= i < s.len()) {
    } else if s[i].id == key {
    } else {
        lemma_quiz_idx_from_some(s, key, i + 1, k);
    }
}

/// When the search finds nothing from `i` on, no row from `i` on matches.
pub proof fn lemma_pd_idx_from_none(s: Seq<PersonalDataRow>, key: u64, i: int)
    requires
        (pd_idx_from(s, key, i) is None),
        0 <= i,
    ensures
        forall|k: int| i <= k < s.len() ==> (#[trigger] s[k].user_id) != key,
    decreases s.len() - i,
{
    if i < s.len() {
        lemma_pd_idx_from_none(s, key, i + 1);
    }
}

/// When the lookup finds nothing, no row matches.
pub proof fn lemma_pd_idx_none(db: School, key: u64)
    requires
        (pd_idx(db, key) is None),
    ensures
        forall|k: int| 0 <= k < db.personal_data@.len() ==> (#[trigger] db.personal_data@[k].user_id) != key,
{
    lemma_pd_idx_from_none(db.personal_data@, key, 0);
}


/// Index of the first grades row with the given id, searching
/// from `i`.
pub open spec fn grade_idx_from(s: Seq<Grade>, id: u64, i: int) -> Option<int>
    decreases s.len() - i,
{
    if !(0 <= i < s.len()) {
        None
    } else if s[i].id == id {
        Some(i)
    } else {
        grade_idx_from(s, id, i + 1)
    }
}

/// Index of the first grades row with the given id.
pub open spec fn grade_idx(db: School, id: u64) -> Option<int> {
    grade_idx_from(db.grades@, id, 0)
}

/// Index of the first messages row with the given id, searching
/// from `i`.
pub open spec fn message_idx_from(s: Seq<Message>, id: u64, i: int) -> Option<int>
    decreases s.len() - i,
{
    if !(0 <= i < s.len()) {
        None
    } else if s[i].id == id {
        Some(i)
    } else {
        message_idx_from(s, id, i + 1)
    }
}

/// Index of the first messages row with the given id.
pub open spec fn message_idx(db: School, id: u64) -> Option<int> {
    message_idx_from(db.messages@, id, 0)
}

/// Index of the first subject messages row with the given id, searching
/// from `i`.
pub open spec fn subject_message_idx_from(s: Seq<SubjectMessage>, id: u64, i: int) -> Option<int>
    decreases s.len() - i,
{
    if !(0 <= i < s.len()) {
        None
    } else if s[i].id == id {
        Some(i)
    } else {
        subject_message_idx_from(s, id, i + 1)
    }
}

/// Index of the first subject messages row with the given id.
pub open spec fn subject_message_idx(db: School, id: u64) -> Option<int> {
    subject_message_idx_from(db.subject_messages@, id, 0)
}

/// Index of the first homework submissions row with the given id, searching
/// from `i`.
pub open spec fn submission_idx_from(s: Seq<HomeworkSubmission>, id: u64, i: int) -> Option<int>
    decreases s.len() - i,
{
    if !(0 <= i < s.len()) {
        None
    } else if s[i].id == id {
        Some(i)
    } else {
        submission_idx_from(s, id, i + 1)
    }
}

/// Index of the first homework submissions row with the given id.
pub open spec fn submission_idx(db: School, id: u64) -> Option<int> {
    submission_idx_from(db.homework_submissions@, id, 0)
}

/// Index of the first assistance row with the given id, searching
/// from `i`.
pub open spec fn assistance_idx_from(s: Seq<Assistance>, id: u64, i: int) -> Option<int>
    decreases s.len() - i,
{
    if !(0 <= i < s.len()) {
        None
    } else if s[i].id == id {
        Some(i)
    } else {
        assistance_idx_from(s, id, i + 1)
    }
}

/// Index of the first assistance row with the given id.
pub open spec fn assistance_idx(db: School, id: u64) -> Option<int> {
    assistance_idx_from(db.assistance@, id, 0)
}

/// Index of the first disciplinary sanctions row with the given id, searching
/// from `i`.
pub open spec fn sanction_idx_from(s: Seq<DisciplinarySanction>, id: u64, i: int) -> Option<int>
    decreases s.len() - i,
{
    if !(0 <= i < s.len()) {
        None
    } else if s[i].id == id {
        Some(i)
    } else {
        sanction_idx_from(s, id, i + 1)
    }
}

/// Index of the first disciplinary sanctions row with the given id.
pub open spec fn sanction_idx(db: School, id: u64) -> Option<int> {
    sanction_idx_from(db.disciplinary_sanctions@, id, 0)
}

impl School {

    /// Position of the grades row with the given id.
    pub fn grade_pos(&self, id: u64) -> (r: Option<usize>)
        ensures
            match r {
                Some(k) => grade_idx(*self, id) == Some(k as int) && k < self.grades@.len()
                    && self.grades@[k as int].id == id,
                None => grade_idx(*self, id) is None,
            },
    {
        let mut i: usize = 0;
        while i < self.grades.len()
            invariant
                i <= self.grades@.len(),
                grade_idx(*self, id) == grade_idx_from(self.grades@, id, i as int),
            decreases self.grades@.len() - i,
        {
            if self.grades[i].id == id {
                return Some(i);
            }
            i += 1;
        }
        None
    }

    /// Position of the messages row with the given id.
    pub fn message_pos(&self, id: u64) -> (r: Option<usize>)
        ensures
            match r {
                Some(k) => message_idx(*self, id) == Some(k as int) && k < self.messages@.len()
                    && self.messages@[k as int].id == id,
                None => message_idx(*self, id) is None,
            },
    {
        let mut i: usize = 0;
        while i < self.messages.len()
            invariant
                i <= self.messages@.len(),
                message_idx(*self, id) == message_idx_from(self.messages@, id, i as int),
            decreases self.messages@.len() - i,
        {
            if self.messages[i].id == id {
                return Some(i);
            }
            i += 1;
        }
        None
    }

    /// Position of the subject messages row with the given id.
    pub fn subject_message_pos(&self, id: u64) -> (r: Option<usize>)
        ensures
            match r {
                Some(k) => subject_message_idx(*self, id) == Some(k as int) && k < self.subject_messages@.len()
                    && self.subject_messages@[k as int].id == id,
                None => subject_message_idx(*self, id) is None,
            },
    {
        let mut i: usize = 0;
        while i < self.subject_messages.len()
            invariant
                i <= self.subject_messages@.len(),
                subject_message_idx(*self, id) == subject_message_idx_from(self.subject_messages@, id, i as int),
            decreases self.subject_messages@.len() - i,
        {
            if self.subject_messages[i].id == id {
                return Some(i);
            }
            i += 1;
        }
        None
    }

    /// Position of the homework submissions row with the given id.
    pub fn submission_pos(&self, id: u64) -> (r: Option<usize>)
        ensures
            match r {
                Some(k) => submission_idx(*self, id) == Some(k as int) && k < self.homework_submissions@.len()
                    && self.homework_submissions@[k as int].id == id,
                None => submission_idx(*self, id) is None,
            },
    {
        let mut i: usize = 0;
        while i < self.homework_submissions.len()
            invariant
                i <= self.homework_submissions@.len(),
                submission_idx(*self, id) == submission_idx_from(self.homework_submissions@, id, i as int),
            decreases self.homework_submissions@.len() - i,
        {
            if self.homework_submissions[i].id == id {
                return Some(i);
            }
            i += 1;
        }
        None
    }

    /// Position of the assistance row with the given id.
    pub fn assistance_row_pos(&self, id: u64) -> (r: Option<usize>)
        ensures
            match r {
                Some(k) => assistance_idx(*self, id) == Some(k as int) && k < self.assistance@.len()
                    && self.assistance@[k as int].id == id,
                None => assistance_idx(*self, id) is None,
            },
    {
        let mut i: usize = 0;
        while i < self.assistance.len()
            invariant
                i <= self.assistance@.len(),
                assistance_idx(*self, id) == assistance_idx_from(self.assistance@, id, i as int),
            decreases self.assistance@.len() - i,
        {
            if self.assistance[i].id == id {
                return Some(i);
            }
            i += 1;
        }
        None
    }

    /// Position of the disciplinary sanctions row with the given id.
    pub fn sanction_pos(&self, id: u64) -> (r: Option<usize>)
        ensures
            match r {
                Some(k) => sanction_idx(*self, id) == Some(k as int) && k < self.disciplinary_sanctions@.len()
                    && self.disciplinary_sanctions@[k as int].id == id,
                None => sanction_idx(*self, id) is None,
            },
    {
        let mut i: usize = 0;
        while i < self.disciplinary_sanctions.len()
            invariant
                i <= self.disciplinary_sanctions@.len(),
                sanction_idx(*self, id) == sanction_idx_from(self.disciplinary_sanctions@, id, i as int),
            decreases self.disciplinary_sanctions@.len() - i,
        {
            if self.disciplinary_sanctions[i].id == id {
                return Some(i);
            }
            i += 1;
        }
        None
    }
}


/// Replacing one assessments row, its key unchanged, preserves
/// well-formedness.
pub proof fn lemma_assessments_update_wf(a: School, b: School, k: int, row: Assessment)
    requires
        a.wf(),
        0 <= k < a.assessments@.len(),
        row.id == a.assessments@[k].id,
        b.assessments@ == a.assessments@.update(k, row),
        b.next_id == a.next_id,
        unchanged_except_assessments(a, b),
    ensures
        b.wf(),
{
    assert forall|i: int|
        0 <= i < b.assessments@.len() implies (#[trigger] b.assessments@[i].id)
            == a.assessments@[i].id by {
        if i != k {
            assert(b.assessments@[i] == a.assessments@[i]);
        }
    }
}

/// Removing one assessments row preserves well-formedness.
pub proof fn lemma_assessments_remove_wf(a: School, b: School, k: int)
    requires
        a.wf(),
        0 <= k < a.assessments@.len(),
        b.assessments@ == a.assessments@.remove(k),
        b.next_id == a.next_id,
        unchanged_except_assessments(a, b),
    ensures
        b.wf(),
{
    a.assessments@.remove_ensures(k);
    assert forall|i: int, j: int|
        0 <= i < j < b.assessments@.len() implies (#[trigger] b.assessments@[i]).id != (
    #[trigger] b.assessments@[j]).id by {
        let ai: int = if i < k { i } else { i + 1 };
        let aj: int = if j < k { j } else { j + 1 };
        assert(b.assessments@[i] == a.assessments@[ai]);
        assert(b.assessments@[j] == a.assessments@[aj]);
    }
    assert forall|i: int|
        0 <= i < b.assessments@.len() implies (#[trigger] b.assessments@[i]).id < b.next_id by {
        if i < k {
            assert(b.assessments@[i] == a.assessments@[i]);
        } else {
            assert(b.assessments@[i] == a.assessments@[i + 1]);
        }
    }
}

/// Replacing one grades row, its key unchanged, preserves
/// well-formedness.
pub proof fn lemma_grades_update_wf(a: School, b: School, k: int, row: Grade)
    requires
        a.wf(),
        0 <= k < a.grades@.len(),
        row.id == a.grades@[k].id,
        row.assessment_id is Some ==> forall|i: int|
            0 <= i < a.grades@.len() && i != k ==> !((#[trigger] a.grades@[i].assessment_id)
                == row.assessment_id && a.grades@[i].student_id == row.student_id),
        b.grades@ == a.grades@.update(k, row),
        b.next_id == a.next_id,
        unchanged_except_grades(a, b),
    ensures
        b.wf(),
{
    assert forall|i: int|
        0 <= i < b.grades@.len() implies (#[trigger] b.grades@[i].id)
            == a.grades@[i].id by {
        if i != k {
            assert(b.grades@[i] == a.grades@[i]);
        }
    }
    assert forall|i: int, j: int|
        0 <= i < j < b.grades@.len() && b.grades@[i].assessment_id is Some && b.grades@[j].assessment_id == b.grades@[i].assessment_id
            && b.grades@[j].student_id == b.grades@[i].student_id implies false by {
        if i != k && j != k {
            assert(b.grades@[i] == a.grades@[i]);
            assert(b.grades@[j] == a.grades@[j]);
        } else if i == k {
            assert(b.grades@[j] == a.grades@[j]);
        } else {
            assert(b.grades@[i] == a.grades@[i]);
        }
    }
}

/// Removing one grades row preserves well-formedness.
pub proof fn lemma_grades_remove_wf(a: School, b: School, k: int)
    requires
        a.wf(),
        0 <= k < a.grades@.len(),
        b.grades@ == a.grades@.remove(k),
        b.next_id == a.next_id,
        unchanged_except_grades(a, b),
    ensures
        b.wf(),
{
    a.grades@.remove_ensures(k);
    assert forall|i: int, j: int|
        0 <= i < j < b.grades@.len() implies (#[trigger] b.grades@[i]).id != (
    #[trigger] b.grades@[j]).id by {
        let ai: int = if i < k { i } else { i + 1 };
        let aj: int = if j < k { j } else { j + 1 };
        assert(b.grades@[i] == a.grades@[ai]);
        assert(b.grades@[j] == a.grades@[aj]);
    }
    assert forall|i: int|
        0 <= i < b.grades@.len() implies (#[trigger] b.grades@[i]).id < b.next_id by {
        if i < k {
            assert(b.grades@[i] == a.grades@[i]);
        } else {
            assert(b.grades@[i] == a.grades@[i + 1]);
        }
    }
    assert forall|i: int, j: int|
        0 <= i < j < b.grades@.len() && b.grades@[i].assessment_id is Some && b.grades@[j].assessment_id == b.grades@[i].assessment_id
            && b.grades@[j].student_id == b.grades@[i].student_id implies false by {
        if true {
            let ai: int = if i < k { i } else { i + 1 };
            let aj: int = if j < k { j } else { j + 1 };
            assert(b.grades@[i] == a.grades@[ai]);
            assert(b.grades@[j] == a.grades@[aj]);
        }
    }
}

/// Replacing one messages row, its key unchanged, preserves
/// well-formedness.
pub proof fn lemma_messages_update_wf(a: School, b: School, k: int, row: Message)
    requires
        a.wf(),
        0 <= k < a.messages@.len(),
        row.id == a.messages@[k].id,
        b.messages@ == a.messages@.update(k, row),
        b.next_id == a.next_id,
        b.message_courses@ == a.message_courses@,
        unchanged_except_messages(a, b),
    ensures
        b.wf(),
{
    assert forall|i: int|
        0 <= i < b.messages@.len() implies (#[trigger] b.messages@[i].id)
            == a.messages@[i].id by {
        if i != k {
            assert(b.messages@[i] == a.messages@[i]);
        }
    }
}

/// Removing one messages row preserves well-formedness.
pub proof fn lemma_messages_remove_wf(a: School, b: School, k: int)
    requires
        a.wf(),
        0 <= k < a.messages@.len(),
        b.messages@ == a.messages@.remove(k),
        b.next_id == a.next_id,
        b.message_courses@ == a.message_courses@,
        unchanged_except_messages(a, b),
    ensures
        b.wf(),
{
    a.messages@.remove_ensures(k);
    assert forall|i: int, j: int|
        0 <= i < j < b.messages@.len() implies (#[trigger] b.messages@[i]).id != (
    #[trigger] b.messages@[j]).id by {
        let ai: int = if i < k { i } else { i + 1 };
        let aj: int = if j < k { j } else { j + 1 };
        assert(b.messages@[i] == a.messages@[ai]);
        assert(b.messages@[j] == a.messages@[aj]);
    }
    assert forall|i: int|
        0 <= i < b.messages@.len() implies (#[trigger] b.messages@[i]).id < b.next_id by {
        if i < k {
            assert(b.messages@[i] == a.messages@[i]);
        } else {
            assert(b.messages@[i] == a.messages@[i + 1]);
        }
    }
}

/// Replacing one subject messages row, its key unchanged, preserves
/// well-formedness.
pub proof fn lemma_subject_messages_update_wf(a: School, b: School, k: int, row: SubjectMessage)
    requires
        a.wf(),
        0 <= k < a.subject_messages@.len(),
        row.id == a.subject_messages@[k].id,
        b.subject_messages@ == a.subject_messages@.update(k, row),
        b.next_id == a.next_id,
        unchanged_except_subject_messages(a, b),
    ensures
        b.wf(),
{
    assert forall|i: int|
        0 <= i < b.subject_messages@.len() implies (#[trigger] b.subject_messages@[i].id)
            == a.subject_messages@[i].id by {
        if i != k {
            assert(b.subject_messages@[i] == a.subject_messages@[i]);
        }
    }
}

/// Removing one subject messages row preserves well-formedness.
pub proof fn lemma_subject_messages_remove_wf(a: School, b: School, k: int)
    requires
        a.wf(),
        0 <= k < a.subject_messages@.len(),
        b.subject_messages@ == a.subject_messages@.remove(k),
        b.next_id == a.next_id,
        unchanged_except_subject_messages(a, b),
    ensures
        b.wf(),
{
    a.subject_messages@.remove_ensures(k);
    assert forall|i: int, j: int|
        0 <= i < j < b.subject_messages@.len() implies (#[trigger] b.subject_messages@[i]).id != (
    #[trigger] b.subject_messages@[j]).id by {
        let ai: int = if i < k { i } else { i + 1 };
        let aj: int = if j < k { j } else { j + 1 };
        assert(b.subject_messages@[i] == a.subject_messages@[ai]);
        assert(b.subject_messages@[j] == a.subject_messages@[aj]);
    }
    assert forall|i: int|
        0 <= i < b.subject_messages@.len() implies (#[trigger] b.subject_messages@[i]).id < b.next_id by {
        if i < k {
            assert(b.subject_messages@[i] == a.subject_messages@[i]);
        } else {
            assert(b.subject_messages@[i] == a.subject_messages@[i + 1]);
        }
    }
}

/// Replacing one homework submissions row, its key unchanged, preserves
/// well-formedness.
pub proof fn lemma_homework_update_wf(a: School, b: School, k: int, row: HomeworkSubmission)
    requires
        a.wf(),
        0 <= k < a.homework_submissions@.len(),
        row.id == a.homework_submissions@[k].id,
        forall|i: int|
            0 <= i < a.homework_submissions@.len() && i != k ==> !((#[trigger] a.homework_submissions@[i].student_id)
                == row.student_id && a.homework_submissions@[i].task_id == row.task_id),
        b.homework_submissions@ == a.homework_submissions@.update(k, row),
        b.next_id == a.next_id,
        unchanged_except_homework_submissions(a, b),
    ensures
        b.wf(),
{
    assert forall|i: int|
        0 <= i < b.homework_submissions@.len() implies (#[trigger] b.homework_submissions@[i].id)
            == a.homework_submissions@[i].id by {
        if i != k {
            assert(b.homework_submissions@[i] == a.homework_submissions@[i]);
        }
    }
    assert forall|i: int, j: int|
        0 <= i < j < b.homework_submissions@.len() && b.homework_submissions@[j].student_id == b.homework_submissions@[i].student_id
            && b.homework_submissions@[j].task_id == b.homework_submissions@[i].task_id implies false by {
        if i != k && j != k {
            assert(b.homework_submissions@[i] == a.homework_submissions@[i]);
            assert(b.homework_submissions@[j] == a.homework_submissions@[j]);
        } else if i == k {
            assert(b.homework_submissions@[j] == a.homework_submissions@[j]);
        } else {
            assert(b.homework_submissions@[i] == a.homework_submissions@[i]);
        }
    }
}

/// Removing one homework submissions row preserves well-formedness.
pub proof fn lemma_homework_remove_wf(a: School, b: School, k: int)
    requires
        a.wf(),
        0 <= k < a.homework_submissions@.len(),
        b.homework_submissions@ == a.homework_submissions@.remove(k),
        b.next_id == a.next_id,
        unchanged_except_homework_submissions(a, b),
    ensures
        b.wf(),
{
    a.homework_submissions@.remove_ensures(k);
    assert forall|i: int, j: int|
        0 <= i < j < b.homework_submissions@.len() implies (#[trigger] b.homework_submissions@[i]).id != (
    #[trigger] b.homework_submissions@[j]).id by {
        let ai: int = if i < k { i } else { i + 1 };
        let aj: int = if j < k { j } else { j + 1 };
        assert(b.homework_submissions@[i] == a.homework_submissions@[ai]);
        assert(b.homework_submissions@[j] == a.homework_submissions@[aj]);
    }
    assert forall|i: int|
        0 <= i < b.homework_submissions@.len() implies (#[trigger] b.homework_submissions@[i]).id < b.next_id by {
        if i < k {
            assert(b.homework_submissions@[i] == a.homework_submissions@[i]);
        } else {
            assert(b.homework_submissions@[i] == a.homework_submissions@[i + 1]);
        }
    }
    assert forall|i: int, j: int|
        0 <= i < j < b.homework_submissions@.len() && b.homework_submissions@[j].student_id == b.homework_submissions@[i].student_id
            && b.homework_submissions@[j].task_id == b.homework_submissions@[i].task_id implies false by {
        if true {
            let ai: int = if i < k { i } else { i + 1 };
            let aj: int = if j < k { j } else { j + 1 };
            assert(b.homework_submissions@[i] == a.homework_submissions@[ai]);
            assert(b.homework_submissions@[j] == a.homework_submissions@[aj]);
        }
    }
}

/// Replacing one assistance row, its key unchanged, preserves
/// well-formedness.
pub proof fn lemma_assistance_update_wf(a: School, b: School, k: int, row: Assistance)
    requires
        a.wf(),
        0 <= k < a.assistance@.len(),
        row.id == a.assistance@[k].id,
        b.assistance@ == a.assistance@.update(k, row),
        b.next_id == a.next_id,
        unchanged_except_assistance(a, b),
    ensures
        b.wf(),
{
    assert forall|i: int|
        0 <= i < b.assistance@.len() implies (#[trigger] b.assistance@[i].id)
            == a.assistance@[i].id by {
        if i != k {
            assert(b.assistance@[i] == a.assistance@[i]);
        }
    }
}

/// Removing one assistance row preserves well-formedness.
pub proof fn lemma_assistance_remove_wf(a: School, b: School, k: int)
    requires
        a.wf(),
        0 <= k < a.assistance@.len(),
        b.assistance@ == a.assistance@.remove(k),
        b.next_id == a.next_id,
        unchanged_except_assistance(a, b),
    ensures
        b.wf(),
{
    a.assistance@.remove_ensures(k);
    assert forall|i: int, j: int|
        0 <= i < j < b.assistance@.len() implies (#[trigger] b.assistance@[i]).id != (
    #[trigger] b.assistance@[j]).id by {
        let ai: int = if i < k { i } else { i + 1 };
        let aj: int = if j < k { j } else { j + 1 };
        assert(b.assistance@[i] == a.assistance@[ai]);
        assert(b.assistance@[j] == a.assistance@[aj]);
    }
    assert forall|i: int|
        0 <= i < b.assistance@.len() implies (#[trigger] b.assistance@[i]).id < b.next_id by {
        if i < k {
            assert(b.assistance@[i] == a.assistance@[i]);
        } else {
            assert(b.assistance@[i] == a.assistance@[i + 1]);
        }
    }
}

/// Replacing one disciplinary sanctions row, its key unchanged, preserves
/// well-formedness.
pub proof fn lemma_sanctions_update_wf(a: School, b: School, k: int, row: DisciplinarySanction)
    requires
        a.wf(),
        0 <= k < a.disciplinary_sanctions@.len(),
        row.id == a.disciplinary_sanctions@[k].id,
        b.disciplinary_sanctions@ == a.disciplinary_sanctions@.update(k, row),
        b.next_id == a.next_id,
        unchanged_except_sanctions(a, b),
    ensures
        b.wf(),
{
    assert forall|i: int|
        0 <= i < b.disciplinary_sanctions@.len() implies (#[trigger] b.disciplinary_sanctions@[i].id)
            == a.disciplinary_sanctions@[i].id by {
        if i != k {
            assert(b.disciplinary_sanctions@[i] == a.disciplinary_sanctions@[i]);
        }
    }
}

/// Removing one disciplinary sanctions row preserves well-formedness.
pub proof fn lemma_sanctions_remove_wf(a: School, b: School, k: int)
    requires
        a.wf(),
        0 <= k < a.disciplinary_sanctions@.len(),
        b.disciplinary_sanctions@ == a.disciplinary_sanctions@.remove(k),
        b.next_id == a.next_id,
        unchanged_except_sanctions(a, b),
    ensures
        b.wf(),
{
    a.disciplinary_sanctions@.remove_ensures(k);
    assert forall|i: int, j: int|
        0 <= i < j < b.disciplinary_sanctions@.len() implies (#[trigger] b.disciplinary_sanctions@[i]).id != (
    #[trigger] b.disciplinary_sanctions@[j]).id by {
        let ai: int = if i < k { i } else { i + 1 };
        let aj: int = if j < k { j } else { j + 1 };
        assert(b.disciplinary_sanctions@[i] == a.disciplinary_sanctions@[ai]);
        assert(b.disciplinary_sanctions@[j] == a.disciplinary_sanctions@[aj]);
    }
    assert forall|i: int|
        0 <= i < b.disciplinary_sanctions@.len() implies (#[trigger] b.disciplinary_sanctions@[i]).id < b.next_id by {
        if i < k {
            assert(b.disciplinary_sanctions@[i] == a.disciplinary_sanctions@[i]);
        } else {
            assert(b.disciplinary_sanctions@[i] == a.disciplinary_sanctions@[i + 1]);
        }
    }
}

/// Replacing one personal data row, its key unchanged, preserves
/// well-formedness.
pub proof fn lemma_personal_data_update_wf(a: School, b: School, k: int, row: PersonalDataRow)
    requires
        a.wf(),
        0 <= k < a.personal_data@.len(),
        row.user_id == a.personal_data@[k].user_id,
        b.personal_data@ == a.personal_data@.update(k, row),
        b.next_id == a.next_id,
        unchanged_except_personal_data(a, b),
    ensures
        b.wf(),
{
    assert forall|i: int|
        0 <= i < b.personal_data@.len() implies (#[trigger] b.personal_data@[i].user_id)
            == a.personal_data@[i].user_id by {
        if i != k {
            assert(b.personal_data@[i] == a.personal_data@[i]);
        }
    }
}

/// Removing one personal data row preserves well-formedness.
pub proof fn lemma_personal_data_remove_wf(a: School, b: School, k: int)
    requires
        a.wf(),
        0 <= k < a.personal_data@.len(),
        b.personal_data@ == a.personal_data@.remove(k),
        b.next_id == a.next_id,
        unchanged_except_personal_data(a, b),
    ensures
        b.wf(),
{
    a.personal_data@.remove_ensures(k);
    assert forall|i: int, j: int|
        0 <= i < j < b.personal_data@.len() implies (#[trigger] b.personal_data@[i]).user_id != (
    #[trigger] b.personal_data@[j]).user_id by {
        let ai: int = if i < k { i } else { i + 1 };
        let aj: int = if j < k { j } else { j + 1 };
        assert(b.personal_data@[i] == a.personal_data@[ai]);
        assert(b.personal_data@[j] == a.personal_data@[aj]);
    }

}


/// What a successful subject-message search from `i` says of the index it
/// returns.
pub proof fn lemma_subject_message_idx_from_some(s: Seq<SubjectMessage>, key: u64, i: int, k: int)
    requires
        0 <= i,
        subject_message_idx_from(s, key, i) == Some(k),
    ensures
        i <= k < s.len(),
        s[k].id == key,
    decreases s.len() - i,
{
    if !(0 <= i < s.len()) {
    } else if s[i].id == key {
    } else {
        lemma_subject_message_idx_from_some(s, key, i + 1, k);
    }
}

} // verus!
