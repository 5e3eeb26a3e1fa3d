//! Self-assessable quizzes: validation of a new quiz, the date-gated
//! listings a student may fetch, the shuffled presentation that never
//! reveals the correct option, and the positional scoring of a submission
//! on the 0-10 scale held in hundredths.

use vstd::prelude::*;

use crate::filters::SelfassessableFilter;
use crate::school::{course_of_user, quiz_by_assessment, School};
use crate::scope::{assessment_open_for_student, task_open_for_student, task_quiz_filter};
use crate::structs::{
    MySelf, NewSelfassessable, PublicSelfassessable, Role, Selfassessable, SelfassessableTask,
};
use crate::ApiError;

verus! {

impl NewSelfassessable {
    /// All option columns that are present have exactly as many entries as
    /// there are questions and correct answers.
    pub open spec fn valid(self) -> bool {
        &&& self.correct@.len() == self.incorrect1@.len()
        &&& self.correct@.len() == self.questions@.len()
        &&& match self.incorrect2 {
            Some(v) => self.correct@.len() == v@.len(),
            None => true,
        }
        &&& match self.incorrect3 {
            Some(v) => self.correct@.len() == v@.len(),
            None => true,
        }
        &&& match self.incorrect4 {
            Some(v) => self.correct@.len() == v@.len(),
            None => true,
        }
    }

    /// Checks the column lengths of a new quiz against each other.
    pub fn validate(&self) -> (b: bool)
        ensures
            b == self.valid(),
    {
        if self.correct.len() != self.incorrect1.len() {
            return false;
        }
        if self.correct.len() != self.questions.len() {
            return false;
        }
        if let Some(v) = &self.incorrect2 {
            if self.correct.len() != v.len() {
                return false;
            }
        }
        if let Some(v) = &self.incorrect3 {
            if self.correct.len() != v.len() {
                return false;
            }
        }
        if let Some(v) = &self.incorrect4 {
            if self.correct.len() != v.len() {
                return false;
            }
        }
        true
    }

    /// The `k`-th question row a valid new quiz generates, given the quiz id
    /// and the id the row is allocated.
    pub open spec fn nth_task(self, selfassessable_id: u64, id: u64, k: int) -> SelfassessableTask {
        SelfassessableTask {
            id,
            selfassessable_id,
            question: self.questions@[k],
            correct: self.correct@[k],
            incorrect1: self.incorrect1@[k],
            incorrect2: match self.incorrect2 {
                Some(v) => Some(v@[k]),
                None => None,
            },
            incorrect3: match self.incorrect3 {
                Some(v) => Some(v@[k]),
                None => None,
            },
            incorrect4: match self.incorrect4 {
                Some(v) => Some(v@[k]),
                None => None,
            },
        }
    }

    /// Builds the question rows of the quiz, with consecutive ids starting
    /// at `first_id`.
    pub fn generate_tasks(&self, selfassessable_id: u64, first_id: u64) -> (res: Vec<
        SelfassessableTask,
    >)
        requires
            self.valid(),
            first_id + self.questions@.len() <= u64::MAX,
        ensures
            res@.len() == self.questions@.len(),
            forall|k: int|
                0 <= k < res@.len() ==> res@[k] == self.nth_task(
                    selfassessable_id,
                    (first_id + k) as u64,
                    k,
                ),
    {
        let mut res: Vec<SelfassessableTask> = Vec::new();
        let mut i: usize = 0;
        while i < self.questions.len()
            invariant
                self.valid(),
                first_id + self.questions@.len() <= u64::MAX,
                i <= self.questions@.len(),
                res@.len() == i,
                forall|k: int|
                    0 <= k < i ==> res@[k] == self.nth_task(
                        selfassessable_id,
                        (first_id + k) as u64,
                        k,
                    ),
            decreases self.questions@.len() - i,
        {
            let row = SelfassessableTask {
                id: first_id + (i as u64),
                selfassessable_id,
                question: self.questions[i].clone(),
                correct: self.correct[i].clone(),
                incorrect1: self.incorrect1[i].clone(),
                incorrect2: match &self.incorrect2 {
                    Some(v) => Some(v[i].clone()),
                    None => None,
                },
                incorrect3: match &self.incorrect3 {
                    Some(v) => Some(v[i].clone()),
                    None => None,
                },
                incorrect4: match &self.incorrect4 {
                    Some(v) => Some(v[i].clone()),
                    None => None,
                },
            };
            res.push(row);
            i += 1;
        }
        res
    }
}

/// The number of positions, among the first `n`, where the submitted answer
/// equals the stored correct answer.
pub open spec fn match_count(answers: Seq<String>, corrects: Seq<String>, n: int) -> int
    decreases n,
{
    if n <= 0 {
        0
    } else {
        match_count(answers, corrects, n - 1) + if answers[n - 1]@ == corrects[n - 1]@ {
            1int
        } else {
            0int
        }
    }
}

/// Counts positional matches between the submitted answers and the stored
/// correct answers, up to the shorter of the two lists.
pub fn count_matches(answers: &Vec<String>, corrects: &Vec<String>) -> (r: usize)
    ensures
        r == match_count(
            answers@,
            corrects@,
            if answers@.len() <= corrects@.len() {
                answers@.len() as int
            } else {
                corrects@.len() as int
            },
        ),
        r <= answers@.len(),
{
    let n = if answers.len() <= corrects.len() {
        answers.len()
    } else {
        corrects.len()
    };
    let mut cnt: usize = 0;
    let mut i: usize = 0;
    while i < n
        invariant
            n <= answers@.len(),
            n <= corrects@.len(),
            i <= n,
            cnt == match_count(answers@, corrects@, i as int),
            cnt <= i,
        decreases n - i,
    {
        if crate::text::str_eq(&answers[i], &corrects[i]) {
            cnt += 1;
        }
        i += 1;
    }
    cnt
}

/// The staged grade of a quiz submission, in hundredths of a point: the
/// fraction of matches over the number of submitted answers, scaled to the
/// 0-10 scale.
pub open spec fn score_of(matches: int, total: int) -> int {
    (1000 * matches) / total
}

/// Computes [`score_of`] on machine integers.
pub fn score_hundredths(matches: usize, total: usize) -> (r: u32)
    requires
        0 < total,
        matches <= total,
    ensures
        r == score_of(matches as int, total as int),
        r <= 1000,
{
    let wide: u128 = (1000u128 * (matches as u128)) / (total as u128);
    proof {
        assert((1000 * (matches as int)) / (total as int) <= 1000) by (nonlinear_arith)
            requires
                0 < total,
                matches <= total,
        ;
    }
    wide as u32
}

/// The quiz-id restriction the caller's assessment filter resolves to:
/// `None` when the named assessment has no quiz, otherwise the optional quiz
/// id to restrict to.
pub open spec fn quiz_filter_of(db: School, f: SelfassessableFilter) -> Option<Option<u64>> {
    match f.assessment_id {
        None => Some(None),
        Some(aid) => match quiz_by_assessment(db, aid) {
            Some(qi) => Some(Some(db.quizzes@[qi].id)),
            None => None,
        },
    }
}

/// A question row the student may fetch today under the resolved quiz
/// restriction.
pub open spec fn open_task(
    db: School,
    student_id: u64,
    qf: Option<u64>,
    today: u64,
    st: SelfassessableTask,
) -> bool {
    task_open_for_student(db, student_id, st, today) && task_quiz_filter(qf, st)
}

/// The question rows open to the student today, from table position `i` on.
pub open spec fn open_tasks_from(db: School, student_id: u64, qf: Option<u64>, today: u64, i: int) -> Seq<
    SelfassessableTask,
>
    decreases db.selfassessable_tasks@.len() - i,
{
    if !(0 <= i < db.selfassessable_tasks@.len()) {
        Seq::empty()
    } else {
        let rest = open_tasks_from(db, student_id, qf, today, i + 1);
        if open_task(db, student_id, qf, today, db.selfassessable_tasks@[i]) {
            seq![db.selfassessable_tasks@[i]] + rest
        } else {
            rest
        }
    }
}

/// The question rows open to the student today.
pub open spec fn open_tasks(db: School, student_id: u64, qf: Option<u64>, today: u64) -> Seq<
    SelfassessableTask,
> {
    open_tasks_from(db, student_id, qf, today, 0)
}

/// A question row projected to what the owning reader sees.
pub open spec fn sa_of_task(t: SelfassessableTask) -> Selfassessable {
    Selfassessable {
        id: t.id,
        question: t.question,
        correct: t.correct,
        incorrect1: t.incorrect1,
        incorrect2: t.incorrect2,
        incorrect3: t.incorrect3,
        incorrect4: t.incorrect4,
    }
}

fn subject_course_match_student(db: &School, student_id: u64, subject_id: u64) -> (b: bool)
    ensures
        b == exists|si: int|
            0 <= si < db.subjects@.len() && #[trigger] db.subjects@[si].id == subject_id
                && course_of_user(*db, student_id) == Some(db.subjects@[si].course_id),
{
    let mut i: usize = 0;
    while i < db.subjects.len()
        invariant
            i <= db.subjects@.len(),
            forall|k: int|
                0 <= k < i ==> !(#[trigger] db.subjects@[k].id == subject_id && course_of_user(
                    *db,
                    student_id,
                ) == Some(db.subjects@[k].course_id)),
        decreases db.subjects@.len() - i,
    {
        let hit = match db.user_course(student_id) {
            Some(uc) => uc == db.subjects[i].course_id,
            None => false,
        };
        if db.subjects[i].id == subject_id && hit {
            return true;
        }
        i += 1;
    }
    false
}

/// Decides [`assessment_open_for_student`].
pub(crate) fn assessment_open_exec(db: &School, student_id: u64, assessment_id: u64, today: u64) -> (b:
    bool)
    ensures
        b == assessment_open_for_student(*db, student_id, assessment_id, today),
{
    let mut i: usize = 0;
    while i < db.assessments.len()
        invariant
            i <= db.assessments@.len(),
            forall|k: int|
                0 <= k < i ==> !(#[trigger] db.assessments@[k].id == assessment_id
                    && db.assessments@[k].due_date == today && exists|si: int|
                    0 <= si < db.subjects@.len() && #[trigger] db.subjects@[si].id
                        == db.assessments@[k].subject_id && course_of_user(*db, student_id)
                        == Some(db.subjects@[si].course_id)),
        decreases db.assessments@.len() - i,
    {
        let a = &db.assessments[i];
        if a.id == assessment_id && a.due_date == today && subject_course_match_student(
            db,
            student_id,
            a.subject_id,
        ) {
            return true;
        }
        i += 1;
    }
    false
}

fn task_open_exec(db: &School, student_id: u64, today: u64, i: usize) -> (b: bool)
    requires
        i < db.selfassessable_tasks@.len(),
    ensures
        b == task_open_for_student(*db, student_id, db.selfassessable_tasks@[i as int], today),
{
    let st_quiz = db.selfassessable_tasks[i].selfassessable_id;
    let mut j: usize = 0;
    while j < db.quizzes.len()
        invariant
            i < db.selfassessable_tasks@.len(),
            st_quiz == db.selfassessable_tasks@[i as int].selfassessable_id,
            j <= db.quizzes@.len(),
            forall|k: int|
                0 <= k < j ==> !(#[trigger] db.quizzes@[k].id == st_quiz
                    && assessment_open_for_student(
                    *db,
                    student_id,
                    db.quizzes@[k].assessment_id,
                    today,
                )),
        decreases db.quizzes@.len() - j,
    {
        if db.quizzes[j].id == st_quiz && assessment_open_exec(
            db,
            student_id,
            db.quizzes[j].assessment_id,
            today,
        ) {
            return true;
        }
        j += 1;
    }
    false
}

fn open_task_exec(db: &School, student_id: u64, qf: &Option<u64>, today: u64, i: usize) -> (b: bool)
    requires
        i < db.selfassessable_tasks@.len(),
    ensures
        b == open_task(*db, student_id, *qf, today, db.selfassessable_tasks@[i as int]),
{
    let quiz_ok = match qf {
        Some(q) => db.selfassessable_tasks[i].selfassessable_id == *q,
        None => true,
    };
    if !quiz_ok {
        return false;
    }
    task_open_exec(db, student_id, today, i)
}

impl MySelf {
    /// Resolves the caller's assessment filter to a quiz-id restriction, as
    /// [`quiz_filter_of`] specifies.
    pub fn get_selfassessable_id(&self, db: &School, assessment_id: u64) -> (r: Result<
        u64,
        ApiError,
    >)
        ensures
            match r {
                Ok(id) => match quiz_by_assessment(*db, assessment_id) {
                    Some(qi) => id == db.quizzes@[qi].id,
                    None => false,
                },
                Err(e) => e == ApiError::NotFound && quiz_by_assessment(*db, assessment_id)
                    is None,
            },
    {
        match db.quiz_pos_by_assessment(assessment_id) {
            Some(k) => Ok(db.quizzes[k].id),
            None => Err(ApiError::NotFound),
        }
    }

    /// Lists the quiz questions, with their correct answers, of quizzes open
    /// to this student today.  Only a student may call this; the filter, if
    /// set, restricts to the quiz of one assessment and is rejected when
    /// that assessment has no quiz.
    pub fn get_selfassessables(
        &self,
        db: &School,
        filter: &SelfassessableFilter,
        today: u64,
    ) -> (res: Result<Vec<Selfassessable>, ApiError>)
        ensures
            match res {
                Ok(v) => self.role is student && match quiz_filter_of(*db, *filter) {
                    Some(qf) => {
                        let rows = open_tasks(*db, self.id, qf, today);
                        &&& v@.len() == rows.len()
                        &&& forall|k: int| 0 <= k < v@.len() ==> v@[k] == sa_of_task(rows[k])
                    },
                    None => false,
                },
                Err(e) => if !(self.role is student) {
                    e == ApiError::Unauthorized
                } else {
                    e == ApiError::NotFound && quiz_filter_of(*db, *filter) is None
                },
            },
    {
        match self.role {
            Role::student => {},
            _ => {
                return Err(ApiError::Unauthorized);
            },
        }
        let qf: Option<u64> = match filter.assessment_id {
            Some(aid) => match db.quiz_pos_by_assessment(aid) {
                Some(k) => Some(db.quizzes[k].id),
                None => {
                    return Err(ApiError::NotFound);
                },
            },
            None => None,
        };
        let mut res: Vec<Selfassessable> = Vec::new();
        let ghost mut done: Seq<SelfassessableTask> = Seq::empty();
        let mut i: usize = 0;
        while i < db.selfassessable_tasks.len()
            invariant
                i <= db.selfassessable_tasks@.len(),
                open_tasks(*db, self.id, qf, today) == done + open_tasks_from(
                    *db,
                    self.id,
                    qf,
                    today,
                    i as int,
                ),
                res@.len() == done.len(),
                forall|k: int| 0 <= k < done.len() ==> res@[k] == sa_of_task(done[k]),
            decreases db.selfassessable_tasks@.len() - i,
        {
            if open_task_exec(db, self.id, &qf, today, i) {
                let t = &db.selfassessable_tasks[i];
                let out = Selfassessable {
                    id: t.id,
                    question: t.question.clone(),
                    correct: t.correct.clone(),
                    incorrect1: t.incorrect1.clone(),
                    incorrect2: crate::structs::clone_opt_string(&t.incorrect2),
                    incorrect3: crate::structs::clone_opt_string(&t.incorrect3),
                    incorrect4: crate::structs::clone_opt_string(&t.incorrect4),
                };
                res.push(out);
                proof {
                    crate::listing::lemma_push_concat(
                        done,
                        db.selfassessable_tasks@[i as int],
                        open_tasks_from(*db, self.id, qf, today, i + 1),
                    );
                    done = done.push(db.selfassessable_tasks@[i as int]);
                }
            }
            i += 1;
        }
        Ok(res)
    }
}


/// The sequence an optional string contributes to an option list.
pub open spec fn opt_seq(o: Option<String>) -> Seq<String> {
    match o {
        Some(s) => seq![s],
        None => Seq::empty(),
    }
}

/// The options a stored question row holds: the correct answer and every
/// present incorrect one, in storage order.
pub open spec fn task_options(t: SelfassessableTask) -> Seq<String> {
    seq![t.correct, t.incorrect1] + opt_seq(t.incorrect2) + opt_seq(t.incorrect3) + opt_seq(
        t.incorrect4,
    )
}

/// The options a public question row presents, in presentation order.
pub open spec fn public_options(p: PublicSelfassessable) -> Seq<String> {
    seq![p.op1, p.op2] + opt_seq(p.op3) + opt_seq(p.op4) + opt_seq(p.op5)
}

/// The public row presents exactly the stored options of the question, in
/// some order, and nothing marks which one is correct.
pub open spec fn public_matches_task(p: PublicSelfassessable, t: SelfassessableTask) -> bool {
    &&& p.id == t.id
    &&& p.question == t.question
    &&& public_options(p).to_multiset() == task_options(t).to_multiset()
}

fn options_of_task(t: &SelfassessableTask) -> (v: Vec<String>)
    ensures
        v@ == task_options(*t),
        2 <= v@.len() <= 5,
{
    let mut v: Vec<String> = Vec::new();
    v.push(t.correct.clone());
    v.push(t.incorrect1.clone());
    proof {
        assert(v@ =~= seq![t.correct, t.incorrect1]);
    }
    match &t.incorrect2 {
        Some(s) => v.push(s.clone()),
        None => {},
    }
    proof {
        assert(v@ =~= seq![t.correct, t.incorrect1] + opt_seq(t.incorrect2));
    }
    match &t.incorrect3 {
        Some(s) => v.push(s.clone()),
        None => {},
    }
    proof {
        assert(v@ =~= seq![t.correct, t.incorrect1] + opt_seq(t.incorrect2) + opt_seq(
            t.incorrect3,
        ));
    }
    match &t.incorrect4 {
        Some(s) => v.push(s.clone()),
        None => {},
    }
    proof {
        assert(v@ =~= task_options(*t));
    }
    v
}

/// Shuffles the options of one question row and lays them out as a public
/// row.  The options come back as a permutation of the stored ones.
fn publish_task(t: &SelfassessableTask) -> (p: PublicSelfassessable)
    ensures
        public_matches_task(p, *t),
{
    let mut opts = options_of_task(t);
    crate::host::shuffle_strings(&mut opts);
    let n = opts.len();
    let p = PublicSelfassessable {
        id: t.id,
        question: t.question.clone(),
        op1: opts[0].clone(),
        op2: opts[1].clone(),
        op3: if n > 2 {
            Some(opts[2].clone())
        } else {
            None
        },
        op4: if n > 3 {
            Some(opts[3].clone())
        } else {
            None
        },
        op5: if n > 4 {
            Some(opts[4].clone())
        } else {
            None
        },
    };
    proof {
        if opts@.len() == 2 {
            assert(public_options(p) =~= opts@);
        } else if opts@.len() == 3 {
            assert(public_options(p) =~= opts@);
        } else if opts@.len() == 4 {
            assert(public_options(p) =~= opts@);
        } else {
            assert(public_options(p) =~= opts@);
        }
    }
    p
}

/// The quiz submissions of the student, restricted by the resolved quiz
/// filter, from table position `i` on.
pub open spec fn responses_listed_from(db: School, student_id: u64, qf: Option<u64>, i: int) -> Seq<
    crate::structs::SelfassessableResponse,
>
    decreases db.selfassessable_submissions@.len() - i,
{
    if !(0 <= i < db.selfassessable_submissions@.len()) {
        Seq::empty()
    } else {
        let rest = responses_listed_from(db, student_id, qf, i + 1);
        let row = db.selfassessable_submissions@[i];
        if row.student_id == student_id && match qf {
            Some(q) => row.selfassessable_id == q,
            None => true,
        } {
            seq![row] + rest
        } else {
            rest
        }
    }
}

/// The quiz submissions of the student under the resolved quiz filter.
pub open spec fn responses_listed(db: School, student_id: u64, qf: Option<u64>) -> Seq<
    crate::structs::SelfassessableResponse,
> {
    responses_listed_from(db, student_id, qf, 0)
}

/// The staged quiz grades listed for `me` under the resolved quiz filter,
/// from table position `i` on.
pub open spec fn pending_listed_from(me: MySelf, db: School, qf: Option<u64>, i: int) -> Seq<
    crate::structs::PendingSelfassessableGrade,
>
    decreases db.selfassessable_pending_grades@.len() - i,
{
    if !(0 <= i < db.selfassessable_pending_grades@.len()) {
        Seq::empty()
    } else {
        let rest = pending_listed_from(me, db, qf, i + 1);
        let row = db.selfassessable_pending_grades@[i];
        if crate::scope::pending_grade_in_scope(me, db, row) && match qf {
            Some(q) => row.selfassessable_id == q,
            None => true,
        } {
            seq![row] + rest
        } else {
            rest
        }
    }
}

/// The staged quiz grades the identity may read under the resolved filter.
pub open spec fn pending_listed(me: MySelf, db: School, qf: Option<u64>) -> Seq<
    crate::structs::PendingSelfassessableGrade,
> {
    pending_listed_from(me, db, qf, 0)
}

fn assessment_taught_exec(db: &School, teacher_id: u64, assessment_id: u64) -> (b: bool)
    ensures
        b == exists|ai: int|
            0 <= ai < db.assessments@.len() && #[trigger] db.assessments@[ai].id == assessment_id
                && crate::school::teacher_teaches(*db, teacher_id, db.assessments@[ai].subject_id),
{
    let mut i: usize = 0;
    while i < db.assessments.len()
        invariant
            i <= db.assessments@.len(),
            forall|k: int|
                0 <= k < i ==> !(#[trigger] db.assessments@[k].id == assessment_id
                    && crate::school::teacher_teaches(
                    *db,
                    teacher_id,
                    db.assessments@[k].subject_id,
                )),
        decreases db.assessments@.len() - i,
    {
        if db.assessments[i].id == assessment_id && db.is_teacher_of(
            teacher_id,
            db.assessments[i].subject_id,
        ) {
            return true;
        }
        i += 1;
    }
    false
}

#[verifier::loop_isolation(false)]
fn pending_scope_exec(me: &MySelf, db: &School, i: usize) -> (b: bool)
    requires
        i < db.selfassessable_pending_grades@.len(),
    ensures
        b == crate::scope::pending_grade_in_scope(
            *me,
            *db,
            db.selfassessable_pending_grades@[i as int],
        ),
{
    let pg_quiz = db.selfassessable_pending_grades[i].selfassessable_id;
    match me.role {
        Role::admin => true,
        Role::teacher => {
            let mut j: usize = 0;
            let mut found = false;
            while j < db.quizzes.len()
                invariant
                    j <= db.quizzes@.len(),
                    i < db.selfassessable_pending_grades@.len(),
                    pg_quiz == db.selfassessable_pending_grades@[i as int].selfassessable_id,
                    !found ==> forall|k: int|
                        0 <= k < j ==> !(#[trigger] db.quizzes@[k].id == pg_quiz && exists|ai: int|
                            0 <= ai < db.assessments@.len() && #[trigger] db.assessments@[ai].id
                                == db.quizzes@[k].assessment_id && crate::school::teacher_teaches(
                                *db,
                                me.id,
                                db.assessments@[ai].subject_id,
                            )),
                    found ==> crate::scope::pending_grade_in_scope(
                        *me,
                        *db,
                        db.selfassessable_pending_grades@[i as int],
                    ),
                decreases db.quizzes@.len() - j + (if found {
                    0int
                } else {
                    1int
                }),
            {
                if found {
                    break ;
                }
                if db.quizzes[j].id == pg_quiz && assessment_taught_exec(
                    db,
                    me.id,
                    db.quizzes[j].assessment_id,
                ) {
                    found = true;
                } else {
                    j += 1;
                }
            }
            found
        },
        _ => false,
    }
}

impl MySelf {
    /// Lists the quiz questions open to this student today, each with its
    /// options randomly shuffled so that the position of the correct answer
    /// reveals nothing.  Repeated calls may order the same options
    /// differently.
    pub fn get_public_selfassessables(
        &self,
        db: &School,
        filter: &SelfassessableFilter,
        today: u64,
    ) -> (res: Result<Vec<PublicSelfassessable>, ApiError>)
        ensures
            match res {
                Ok(v) => self.role is student && match quiz_filter_of(*db, *filter) {
                    Some(qf) => {
                        let rows = open_tasks(*db, self.id, qf, today);
                        &&& v@.len() == rows.len()
                        &&& forall|k: int|
                            0 <= k < v@.len() ==> public_matches_task(v@[k], rows[k])
                    },
                    None => false,
                },
                Err(e) => if !(self.role is student) {
                    e == ApiError::Unauthorized
                } else {
                    e == ApiError::NotFound && quiz_filter_of(*db, *filter) is None
                },
            },
    {
        match self.role {
            Role::student => {},
            _ => {
                return Err(ApiError::Unauthorized);
            },
        }
        let qf: Option<u64> = match filter.assessment_id {
            Some(aid) => match db.quiz_pos_by_assessment(aid) {
                Some(k) => Some(db.quizzes[k].id),
                None => {
                    return Err(ApiError::NotFound);
                },
            },
            None => None,
        };
        let mut res: Vec<PublicSelfassessable> = Vec::new();
        let ghost mut done: Seq<SelfassessableTask> = Seq::empty();
        let mut i: usize = 0;
        while i < db.selfassessable_tasks.len()
            invariant
                i <= db.selfassessable_tasks@.len(),
                open_tasks(*db, self.id, qf, today) == done + open_tasks_from(
                    *db,
                    self.id,
                    qf,
                    today,
                    i as int,
                ),
                res@.len() == done.len(),
                forall|k: int| 0 <= k < done.len() ==> public_matches_task(res@[k], done[k]),
            decreases db.selfassessable_tasks@.len() - i,
        {
            if open_task_exec(db, self.id, &qf, today, i) {
                let p = publish_task(&db.selfassessable_tasks[i]);
                res.push(p);
                proof {
                    crate::listing::lemma_push_concat(
                        done,
                        db.selfassessable_tasks@[i as int],
                        open_tasks_from(*db, self.id, qf, today, i + 1),
                    );
                    done = done.push(db.selfassessable_tasks@[i as int]);
                }
            }
            i += 1;
        }
        Ok(res)
    }

    /// Lists this student's own quiz submissions, optionally restricted to
    /// the quiz of one assessment.
    pub fn get_selfassessables_responses(&self, db: &School, filter: &SelfassessableFilter) -> (res:
        Result<Vec<crate::structs::SelfassessableResponse>, ApiError>)
        ensures
            match res {
                Ok(v) => self.role is student && match quiz_filter_of(*db, *filter) {
                    Some(qf) => v@ == responses_listed(*db, self.id, qf),
                    None => false,
                },
                Err(e) => if !(self.role is student) {
                    e == ApiError::Unauthorized
                } else {
                    e == ApiError::NotFound && quiz_filter_of(*db, *filter) is None
                },
            },
    {
        match self.role {
            Role::student => {},
            _ => {
                return Err(ApiError::Unauthorized);
            },
        }
        let qf: Option<u64> = match filter.assessment_id {
            Some(aid) => match db.quiz_pos_by_assessment(aid) {
                Some(k) => Some(db.quizzes[k].id),
                None => {
                    return Err(ApiError::NotFound);
                },
            },
            None => None,
        };
        let mut res: Vec<crate::structs::SelfassessableResponse> = Vec::new();
        let mut i: usize = 0;
        while i < db.selfassessable_submissions.len()
            invariant
                i <= db.selfassessable_submissions@.len(),
                responses_listed(*db, self.id, qf) == res@ + responses_listed_from(
                    *db,
                    self.id,
                    qf,
                    i as int,
                ),
            decreases db.selfassessable_submissions@.len() - i,
        {
            let row = &db.selfassessable_submissions[i];
            let keep = row.student_id == self.id && match qf {
                Some(q) => row.selfassessable_id == q,
                None => true,
            };
            if keep {
                proof {
                    crate::listing::lemma_push_concat(
                        res@,
                        db.selfassessable_submissions@[i as int],
                        responses_listed_from(*db, self.id, qf, i + 1),
                    );
                }
                res.push(db.selfassessable_submissions[i].clone());
            }
            i += 1;
        }
        Ok(res)
    }

    /// Lists the staged quiz grades this identity may read: everything for
    /// an administrator, a teacher's own subjects for a teacher, nothing for
    /// anyone else.
    pub fn get_pending_selfassessables_grades(
        &self,
        db: &School,
        filter: &SelfassessableFilter,
    ) -> (res: Result<Vec<crate::structs::PendingSelfassessableGrade>, ApiError>)
        ensures
            match res {
                Ok(v) => (self.role is admin || self.role is teacher) && match quiz_filter_of(
                    *db,
                    *filter,
                ) {
                    Some(qf) => v@ == pending_listed(*self, *db, qf),
                    None => false,
                },
                Err(e) => if !(self.role is admin || self.role is teacher) {
                    e == ApiError::Unauthorized
                } else {
                    e == ApiError::NotFound && quiz_filter_of(*db, *filter) is None
                },
            },
    {
        match self.role {
            Role::admin | Role::teacher => {},
            _ => {
                return Err(ApiError::Unauthorized);
            },
        }
        let qf: Option<u64> = match filter.assessment_id {
            Some(aid) => match db.quiz_pos_by_assessment(aid) {
                Some(k) => Some(db.quizzes[k].id),
                None => {
                    return Err(ApiError::NotFound);
                },
            },
            None => None,
        };
        let mut res: Vec<crate::structs::PendingSelfassessableGrade> = Vec::new();
        let mut i: usize = 0;
        while i < db.selfassessable_pending_grades.len()
            invariant
                i <= db.selfassessable_pending_grades@.len(),
                pending_listed(*self, *db, qf) == res@ + pending_listed_from(
                    *self,
                    *db,
                    qf,
                    i as int,
                ),
            decreases db.selfassessable_pending_grades@.len() - i,
        {
            let row_quiz = db.selfassessable_pending_grades[i].selfassessable_id;
            let keep = pending_scope_exec(self, db, i) && match qf {
                Some(q) => row_quiz == q,
                None => true,
            };
            if keep {
                proof {
                    crate::listing::lemma_push_concat(
                        res@,
                        db.selfassessable_pending_grades@[i as int],
                        pending_listed_from(*self, *db, qf, i + 1),
                    );
                }
                res.push(db.selfassessable_pending_grades[i].clone());
            }
            i += 1;
        }
        Ok(res)
    }

    /// Whether this caller already answered the quiz of the given
    /// assessment; rejected when the assessment has no quiz.
    pub fn get_is_selfassessable_answered(&self, db: &School, assessment_id: u64) -> (r: Result<
        bool,
        ApiError,
    >)
        ensures
            match r {
                Ok(b) => match quiz_by_assessment(*db, assessment_id) {
                    Some(qi) => b == crate::school::quiz_answered(
                        *db,
                        self.id,
                        db.quizzes@[qi].id,
                    ),
                    None => false,
                },
                Err(e) => e == ApiError::NotFound && quiz_by_assessment(*db, assessment_id)
                    is None,
            },
    {
        match db.quiz_pos_by_assessment(assessment_id) {
            Some(k) => Ok(db.has_quiz_answer(self.id, db.quizzes[k].id)),
            None => Err(ApiError::NotFound),
        }
    }

    /// Whether this caller already submitted the given homework task.
    pub fn get_is_homework_answered(&self, db: &School, homework_id: u64) -> (b: bool)
        ensures
            b == crate::school::homework_submitted(*db, self.id, homework_id),
    {
        db.has_homework_submission(self.id, homework_id)
    }
}

} // verus!
