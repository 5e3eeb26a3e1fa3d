//! The library-wide laws: statements that relate several operations, each
//! proved from the contracts the operations themselves carry.

use vstd::prelude::*;

use crate::filters::{AssistanceFilter, DisciplinarySanctionFilter, GradeFilter};
use crate::listing::{
    assistance_listed, assistance_listed_from, grades_listed, grades_listed_from, sanctions_listed,
    sanctions_listed_from,
};
use crate::posts::{assessment_in_subject, post_grade_check, post_submission_check, quiz_corrects};
use crate::school::{
    grade_exists_for, homework_submitted, linked_family, subject_message_idx, School,
};
use crate::scope::{assistance_visible, grade_visible, sanction_visible, task_open_for_student};
use crate::selfassess::{
    match_count, open_tasks_from, public_matches_task, public_options, task_options,
};
use crate::structs::{
    HomeworkSubmission, MySelf, NewGrade, PublicSelfassessable, SelfassessableTask,
};
use crate::sweep::{
    pending_due, promote_srcs, promote_srcs_from, retained_from, should_promote,
};
use crate::ApiError;

verus! {

/// The students linked to a father.
pub open spec fn father_students(db: School, father_id: u64) -> Set<u64> {
    Set::new(|s: u64| linked_family(db, father_id, s))
}

/// Every listed grade is visible and every visible stored grade is listed.
pub proof fn lemma_grades_listed_sound(me: MySelf, db: School, f: GradeFilter, i: int)
    requires
        0 <= i,
    ensures
        forall|k: int|
            0 <= k < grades_listed_from(me, db, f, i).len() ==> grade_visible(
                me,
                db,
                f,
                #[trigger] grades_listed_from(me, db, f, i)[k],
            ),
        forall|j: int|
            i <= j < db.grades@.len() && grade_visible(me, db, f, db.grades@[j])
                ==> grades_listed_from(me, db, f, i).contains(#[trigger] db.grades@[j]),
    decreases db.grades@.len() - i,
{
    if 0 <= i < db.grades@.len() {
        lemma_grades_listed_sound(me, db, f, i + 1);
        let l = grades_listed_from(me, db, f, i);
        let rest = grades_listed_from(me, db, f, i + 1);
        if grade_visible(me, db, f, db.grades@[i]) {
            assert(l == seq![db.grades@[i]] + rest);
            assert forall|k: int|
                0 <= k < l.len() implies grade_visible(me, db, f, #[trigger] l[k]) by {
                if k == 0 {
                    assert(l[0] == db.grades@[i]);
                } else {
                    assert(l[k] == rest[k - 1]);
                }
            }
            assert forall|j: int|
                i <= j < db.grades@.len() && grade_visible(me, db, f, db.grades@[j]) implies l
                .contains(#[trigger] db.grades@[j]) by {
                if j == i {
                    assert(l[0] == db.grades@[i]);
                } else {
                    assert(rest.contains(db.grades@[j]));
                    let w = choose|w: int| 0 <= w < rest.len() && rest[w] == db.grades@[j];
                    assert(l[w + 1] == db.grades@[j]);
                }
            }
        } else {
            assert(l == rest);
        }
    }
}

/// For a father, the visible grades are exactly the grades of linked
/// students that pass the filter; with no linked student the listing is
/// empty, with no error.
pub proof fn lemma_father_grade_scope(me: MySelf, db: School, f: GradeFilter)
    requires
        me.role is father,
    ensures
        forall|k: int|
            0 <= k < grades_listed(me, db, f).len() ==> father_students(db, me.id).contains(
                (#[trigger] grades_listed(me, db, f)[k]).student_id,
            ),
        forall|j: int|
            0 <= j < db.grades@.len() && linked_family(
                db,
                me.id,
                db.grades@[j].student_id,
            ) && crate::scope::grade_filter_matches(f, db.grades@[j]) ==> grades_listed(
                me,
                db,
                f,
            ).contains(#[trigger] db.grades@[j]),
        father_students(db, me.id).is_empty() ==> grades_listed(me, db, f).len() == 0,
{
    lemma_grades_listed_sound(me, db, f, 0);
    if father_students(db, me.id).is_empty() {
        if grades_listed(me, db, f).len() > 0 {
            let g = grades_listed(me, db, f)[0];
            assert(grade_visible(me, db, f, g));
            assert(father_students(db, me.id).contains(g.student_id));
        }
    }
}

/// Every listed attendance row is visible.
pub proof fn lemma_assistance_listed_sound(me: MySelf, db: School, f: AssistanceFilter, i: int)
    requires
        0 <= i,
    ensures
        forall|k: int|
            0 <= k < assistance_listed_from(me, db, f, i).len() ==> assistance_visible(
                me,
                db,
                f,
                #[trigger] assistance_listed_from(me, db, f, i)[k],
            ),
    decreases db.assistance@.len() - i,
{
    if 0 <= i < db.assistance@.len() {
        lemma_assistance_listed_sound(me, db, f, i + 1);
        let l = assistance_listed_from(me, db, f, i);
        let rest = assistance_listed_from(me, db, f, i + 1);
        if assistance_visible(me, db, f, db.assistance@[i]) {
            assert(l == seq![db.assistance@[i]] + rest);
            assert forall|k: int|
                0 <= k < l.len() implies assistance_visible(me, db, f, #[trigger] l[k]) by {
                if k == 0 {
                    assert(l[0] == db.assistance@[i]);
                } else {
                    assert(l[k] == rest[k - 1]);
                }
            }
        } else {
            assert(l == rest);
        }
    }
}

/// Every listed sanction row is visible.
pub proof fn lemma_sanctions_listed_sound(
    me: MySelf,
    db: School,
    f: DisciplinarySanctionFilter,
    i: int,
)
    requires
        0 <= i,
    ensures
        forall|k: int|
            0 <= k < sanctions_listed_from(me, db, f, i).len() ==> sanction_visible(
                me,
                db,
                f,
                #[trigger] sanctions_listed_from(me, db, f, i)[k],
            ),
    decreases db.disciplinary_sanctions@.len() - i,
{
    if 0 <= i < db.disciplinary_sanctions@.len() {
        lemma_sanctions_listed_sound(me, db, f, i + 1);
        let l = sanctions_listed_from(me, db, f, i);
        let rest = sanctions_listed_from(me, db, f, i + 1);
        if sanction_visible(me, db, f, db.disciplinary_sanctions@[i]) {
            assert(l == seq![db.disciplinary_sanctions@[i]] + rest);
            assert forall|k: int|
                0 <= k < l.len() implies sanction_visible(me, db, f, #[trigger] l[k]) by {
                if k == 0 {
                    assert(l[0] == db.disciplinary_sanctions@[i]);
                } else {
                    assert(l[k] == rest[k - 1]);
                }
            }
        } else {
            assert(l == rest);
        }
    }
}

/// A teacher always receives an empty result for attendance and sanction
/// records, whatever the filters say.
pub proof fn lemma_teacher_records_denied(
    me: MySelf,
    db: School,
    fa: AssistanceFilter,
    fd: DisciplinarySanctionFilter,
)
    requires
        me.role is teacher,
    ensures
        assistance_listed(me, db, fa).len() == 0,
        sanctions_listed(me, db, fd).len() == 0,
{
    lemma_assistance_listed_sound(me, db, fa, 0);
    lemma_sanctions_listed_sound(me, db, fd, 0);
    if assistance_listed(me, db, fa).len() > 0 {
        assert(assistance_visible(me, db, fa, assistance_listed(me, db, fa)[0]));
    }
    if sanctions_listed(me, db, fd).len() > 0 {
        assert(sanction_visible(me, db, fd, sanctions_listed(me, db, fd)[0]));
    }
}

/// Every quiz question row a student is shown is open today: its owning
/// assessment's due date is exactly today and the subject belongs to the
/// student's course.
pub proof fn lemma_open_tasks_sound(db: School, student_id: u64, qf: Option<u64>, today: u64, i: int)
    requires
        0 <= i,
    ensures
        forall|k: int|
            0 <= k < open_tasks_from(db, student_id, qf, today, i).len()
                ==> task_open_for_student(
                db,
                student_id,
                #[trigger] open_tasks_from(db, student_id, qf, today, i)[k],
                today,
            ),
        forall|j: int|
            i <= j < db.selfassessable_tasks@.len() && crate::selfassess::open_task(
                db,
                student_id,
                qf,
                today,
                db.selfassessable_tasks@[j],
            ) ==> open_tasks_from(db, student_id, qf, today, i).contains(
                #[trigger] db.selfassessable_tasks@[j],
            ),
    decreases db.selfassessable_tasks@.len() - i,
{
    if 0 <= i < db.selfassessable_tasks@.len() {
        lemma_open_tasks_sound(db, student_id, qf, today, i + 1);
        let l = open_tasks_from(db, student_id, qf, today, i);
        let rest = open_tasks_from(db, student_id, qf, today, i + 1);
        if crate::selfassess::open_task(db, student_id, qf, today, db.selfassessable_tasks@[i]) {
            assert(l == seq![db.selfassessable_tasks@[i]] + rest);
            assert forall|k: int|
                0 <= k < l.len() implies task_open_for_student(
                db,
                student_id,
                #[trigger] l[k],
                today,
            ) by {
                if k == 0 {
                    assert(l[0] == db.selfassessable_tasks@[i]);
                } else {
                    assert(l[k] == rest[k - 1]);
                }
            }
            assert forall|j: int|
                i <= j < db.selfassessable_tasks@.len() && crate::selfassess::open_task(
                    db,
                    student_id,
                    qf,
                    today,
                    db.selfassessable_tasks@[j],
                ) implies l.contains(#[trigger] db.selfassessable_tasks@[j]) by {
                if j == i {
                    assert(l[0] == db.selfassessable_tasks@[i]);
                } else {
                    assert(rest.contains(db.selfassessable_tasks@[j]));
                    let w = choose|w: int|
                        0 <= w < rest.len() && rest[w] == db.selfassessable_tasks@[j];
                    assert(l[w + 1] == db.selfassessable_tasks@[j]);
                }
            }
        } else {
            assert(l == rest);
        }
    }
}

/// A published quiz question presents two to five options, and the stored
/// correct answer is always among them.
pub proof fn lemma_public_quiz_options(p: PublicSelfassessable, t: SelfassessableTask)
    requires
        public_matches_task(p, t),
    ensures
        2 <= public_options(p).len() <= 5,
        public_options(p).to_multiset().contains(t.correct),
{
    broadcast use vstd::seq_lib::group_to_multiset_ensures;

    assert(task_options(t)[0] == t.correct);
    assert(task_options(t).contains(t.correct));
    assert(task_options(t).to_multiset().contains(t.correct));
    assert(public_options(p).to_multiset().len() == task_options(t).to_multiset().len());
}

/// After a successful homework submission, a second submission by the same
/// student for the same task is rejected as a conflict.
pub proof fn lemma_homework_second_submission_conflict(
    me: MySelf,
    a: School,
    b: School,
    homework_id: u64,
    path: String,
)
    requires
        post_submission_check(me, a, homework_id) is None,
        b.homework_submissions@ == a.homework_submissions@.push(
            HomeworkSubmission {
                id: a.next_id,
                path: path,
                student_id: me.id,
                task_id: homework_id,
            },
        ),
        b.next_id == a.next_id + 1,
        crate::school::unchanged_except_homework_submissions(a, b),
    ensures
        post_submission_check(me, b, homework_id) == Some(ApiError::Conflict),
{
    let last = b.homework_submissions@.len() - 1;
    assert(b.homework_submissions@[last].student_id == me.id);
    assert(homework_submitted(b, me.id, homework_id));
}

/// A grade creation succeeds only when any referenced assessment belongs to
/// the named subject and no grade for that assessment and student exists.
pub proof fn lemma_grade_creation_guards(me: MySelf, db: School, g: NewGrade)
    ensures
        post_grade_check(me, db, g) is None ==> match g.assessment_id {
            Some(aid) => assessment_in_subject(db, aid, g.subject) && !grade_exists_for(
                db,
                aid,
                g.student_id,
            ),
            None => true,
        },
{
}

/// A submission whose answers all match the stored correct answers scores
/// the full ten points.
pub proof fn lemma_match_count_full(a: Seq<String>, c: Seq<String>, n: int)
    requires
        0 <= n <= a.len(),
        n <= c.len(),
        forall|i: int| 0 <= i < n ==> (#[trigger] a[i]@) == c[i]@,
    ensures
        match_count(a, c, n) == n,
    decreases n,
{
    if n > 0 {
        lemma_match_count_full(a, c, n - 1);
    }
}

/// A submission with no matching answer counts no matches.
pub proof fn lemma_match_count_zero(a: Seq<String>, c: Seq<String>, n: int)
    requires
        0 <= n <= a.len(),
        n <= c.len(),
        forall|i: int| 0 <= i < n ==> (#[trigger] a[i]@) != c[i]@,
    ensures
        match_count(a, c, n) == 0,
    decreases n,
{
    if n > 0 {
        lemma_match_count_zero(a, c, n - 1);
    }
}

/// A fully correct submission stages the full score of ten points, held as
/// a thousand hundredths.
pub proof fn lemma_perfect_submission_scores_ten(db: School, quiz_id: u64, answers: Seq<String>)
    requires
        answers.len() > 0,
        answers.len() == quiz_corrects(db, quiz_id).len(),
        forall|i: int|
            0 <= i < answers.len() ==> (#[trigger] answers[i]@) == quiz_corrects(db, quiz_id)[i]@,
    ensures
        crate::posts::staged_score(db, quiz_id, answers) == 1000,
{
    let n = answers.len() as int;
    lemma_match_count_full(answers, quiz_corrects(db, quiz_id), n);
    assert((1000 * n) / n == 1000) by (nonlinear_arith)
        requires
            n >= 1,
    ;
}

/// A submission with no matching answer stages a score of zero.
pub proof fn lemma_zero_submission_scores_zero(db: School, quiz_id: u64, answers: Seq<String>)
    requires
        answers.len() > 0,
        forall|i: int|
            0 <= i < answers.len() && i < quiz_corrects(db, quiz_id).len() ==> (
            #[trigger] answers[i]@) != quiz_corrects(db, quiz_id)[i]@,
    ensures
        crate::posts::staged_score(db, quiz_id, answers) == 0,
{
    let c = quiz_corrects(db, quiz_id);
    let n = if answers.len() <= c.len() {
        answers.len() as int
    } else {
        c.len() as int
    };
    lemma_match_count_zero(answers, c, n);
    assert(0int / (answers.len() as int) == 0) by (nonlinear_arith)
        requires
            answers.len() >= 1,
    ;
}

/// A promotable staged row appears among the promotion sources.
pub proof fn lemma_promote_srcs_complete(db: School, today: u64, i: int, j: int)
    requires
        0 <= i <= j < db.selfassessable_pending_grades@.len(),
        should_promote(db, db.selfassessable_pending_grades@[j], today),
    ensures
        exists|k: int|
            0 <= k < promote_srcs_from(db, today, i).len() && #[trigger] promote_srcs_from(
                db,
                today,
                i,
            )[k] == j,
    decreases j - i,
{
    let srcs = promote_srcs_from(db, today, i);
    let rest = promote_srcs_from(db, today, i + 1);
    if i == j {
        assert(srcs[0] == i);
    } else {
        lemma_promote_srcs_complete(db, today, i + 1, j);
        let k = choose|k: int| 0 <= k < rest.len() && #[trigger] rest[k] == j;
        if should_promote(db, db.selfassessable_pending_grades@[i], today) {
            assert(srcs == seq![i] + rest);
            assert(srcs[k + 1] == j);
        } else {
            assert(srcs == rest);
            assert(srcs[k] == j);
        }
    }
}

/// The sweep scenario law: a due staged grade whose assessment-and-student
/// pair is not yet graded occupies exactly one promotion slot — so the
/// sweep's contract yields exactly one new grade row for it, with the fixed
/// description, the staged value and the resolved assessment and subject —
/// and the staged row is not among the retained rows.  A pair graded before
/// the sweep runs is the one input left out: promoting it would violate the
/// one-grade-per-pair invariant, so the sweep consumes the staged row
/// without writing a second grade.
pub proof fn lemma_sweep_promotes_due_staged_grade(db: School, today: u64, j: int)
    requires
        0 <= j < db.selfassessable_pending_grades@.len(),
        should_promote(db, db.selfassessable_pending_grades@[j], today),
    ensures
        exists|k: int|
            0 <= k < promote_srcs(db, today).len() && #[trigger] promote_srcs(db, today)[k] == j,
        forall|k1: int, k2: int|
            0 <= k1 < promote_srcs(db, today).len() && 0 <= k2 < promote_srcs(db, today).len()
                && #[trigger] promote_srcs(db, today)[k1] == j && #[trigger] promote_srcs(
                db,
                today,
            )[k2] == j ==> k1 == k2,
        forall|k: int|
            0 <= k < retained_from(db, today, 0).len() ==> #[trigger] retained_from(
                db,
                today,
                0,
            )[k] != db.selfassessable_pending_grades@[j],
{
    lemma_promote_srcs_complete(db, today, 0, j);
    crate::sweep::lemma_promote_srcs_props(db, today, 0);
    let srcs = promote_srcs(db, today);
    assert forall|k1: int, k2: int|
        0 <= k1 < srcs.len() && 0 <= k2 < srcs.len() && #[trigger] srcs[k1] == j
            && #[trigger] srcs[k2] == j implies k1 == k2 by {
        if k1 < k2 {
            assert(srcs[k1] < srcs[k2]);
        } else if k2 < k1 {
            assert(srcs[k2] < srcs[k1]);
        }
    }
    lemma_retained_not_due(db, today, 0);
    assert forall|k: int|
        0 <= k < retained_from(db, today, 0).len() implies #[trigger] retained_from(
        db,
        today,
        0,
    )[k] != db.selfassessable_pending_grades@[j] by {
        assert(!pending_due(db, retained_from(db, today, 0)[k], today));
        assert(pending_due(db, db.selfassessable_pending_grades@[j], today));
    }
}

/// Every staged row the sweep retains was not due.
pub proof fn lemma_retained_not_due(db: School, today: u64, i: int)
    requires
        0 <= i,
    ensures
        forall|k: int|
            0 <= k < retained_from(db, today, i).len() ==> !pending_due(
                db,
                #[trigger] retained_from(db, today, i)[k],
                today,
            ),
    decreases db.selfassessable_pending_grades@.len() - i,
{
    if 0 <= i < db.selfassessable_pending_grades@.len() {
        lemma_retained_not_due(db, today, i + 1);
        let l = retained_from(db, today, i);
        let rest = retained_from(db, today, i + 1);
        if !pending_due(db, db.selfassessable_pending_grades@[i], today) {
            assert(l == seq![db.selfassessable_pending_grades@[i]] + rest);
            assert forall|k: int|
                0 <= k < l.len() implies !pending_due(db, #[trigger] l[k], today) by {
                if k == 0 {
                    assert(l[0] == db.selfassessable_pending_grades@[i]);
                } else {
                    assert(l[k] == rest[k - 1]);
                }
            }
        } else {
            assert(l == rest);
        }
    }
}

/// A staging table in which no row should be promoted yields an empty
/// promotion list.
pub proof fn lemma_promote_srcs_empty(db: School, today: u64, i: int)
    requires
        0 <= i,
        forall|k: int|
            i <= k < db.selfassessable_pending_grades@.len() ==> !should_promote(
                db,
                #[trigger] db.selfassessable_pending_grades@[k],
                today,
            ),
    ensures
        promote_srcs_from(db, today, i).len() == 0,
    decreases db.selfassessable_pending_grades@.len() - i,
{
    if 0 <= i < db.selfassessable_pending_grades@.len() {
        lemma_promote_srcs_empty(db, today, i + 1);
    }
}

/// Running the sweep on a state the sweep produced promotes nothing: every
/// retained staged grade was not due, and the joins it reads are unchanged.
pub proof fn lemma_sweep_idempotent(a: School, b: School, today: u64)
    requires
        b.selfassessable_pending_grades@ == retained_from(a, today, 0),
        b.quizzes@ == a.quizzes@,
        b.assessments@ == a.assessments@,
    ensures
        promote_srcs(b, today).len() == 0,
{
    lemma_retained_not_due(a, today, 0);
    assert forall|k: int|
        0 <= k < b.selfassessable_pending_grades@.len() implies !should_promote(
        b,
        #[trigger] b.selfassessable_pending_grades@[k],
        today,
    ) by {
        let pg = b.selfassessable_pending_grades@[k];
        assert(!pending_due(a, pg, today));
        assert(crate::sweep::pending_join(b, pg) == crate::sweep::pending_join(a, pg));
    }
    lemma_promote_srcs_empty(b, today, 0);
}

/// Deleting a subject message removes its row entirely: no row with that id
/// remains afterwards.
pub proof fn lemma_subject_message_delete_removes_row(a: School, b: School, sm_id: u64)
    requires
        a.wf(),
        crate::deletes::subject_message_delete_effect(a, b, sm_id),
    ensures
        subject_message_idx(a, sm_id) is Some ==> subject_message_idx(b, sm_id) is None,
{
    match subject_message_idx(a, sm_id) {
        Some(k) => {
            crate::school::lemma_subject_message_idx_from_some(a.subject_messages@, sm_id, 0, k);
            a.subject_messages@.remove_ensures(k);
            match subject_message_idx(b, sm_id) {
                Some(k2) => {
                    crate::school::lemma_subject_message_idx_from_some(
                        b.subject_messages@,
                        sm_id,
                        0,
                        k2,
                    );
                    if k2 < k {
                        assert(b.subject_messages@[k2] == a.subject_messages@[k2]);
                        assert(false);
                    } else {
                        assert(b.subject_messages@[k2] == a.subject_messages@[k2 + 1]);
                        assert(false);
                    }
                },
                None => {},
            }
        },
        None => {},
    }
}


/// A grade filter with no field set.
pub open spec fn empty_grade_filter() -> GradeFilter {
    GradeFilter { subject_id: None, student_id: None, description: None }
}

/// Filters only narrow a scope: every grade listed under any filter is also
/// listed when no filter is supplied.
pub proof fn lemma_filters_only_narrow(me: MySelf, db: School, f: GradeFilter)
    ensures
        forall|k: int|
            0 <= k < grades_listed(me, db, f).len() ==> grades_listed(
                me,
                db,
                empty_grade_filter(),
            ).contains(#[trigger] grades_listed(me, db, f)[k]),
{
    lemma_grades_listed_sound(me, db, f, 0);
    lemma_grades_listed_sound(me, db, empty_grade_filter(), 0);
    lemma_grades_listed_members(me, db, f, 0);
    assert forall|k: int|
        0 <= k < grades_listed(me, db, f).len() implies grades_listed(
        me,
        db,
        empty_grade_filter(),
    ).contains(#[trigger] grades_listed(me, db, f)[k]) by {
        let g = grades_listed(me, db, f)[k];
        assert(grade_visible(me, db, f, g));
        let j = choose|j: int| 0 <= j < db.grades@.len() && db.grades@[j] == g;
        assert(grade_visible(me, db, empty_grade_filter(), db.grades@[j]));
    }
}

/// Every listed grade is one of the stored grade rows.
pub proof fn lemma_grades_listed_members(me: MySelf, db: School, f: GradeFilter, i: int)
    requires
        0 <= i,
    ensures
        forall|k: int|
            0 <= k < grades_listed_from(me, db, f, i).len() ==> exists|j: int|
                0 <= j < db.grades@.len() && db.grades@[j] == #[trigger] grades_listed_from(
                    me,
                    db,
                    f,
                    i,
                )[k],
    decreases db.grades@.len() - i,
{
    if 0 <= i < db.grades@.len() {
        lemma_grades_listed_members(me, db, f, i + 1);
        let l = grades_listed_from(me, db, f, i);
        let rest = grades_listed_from(me, db, f, i + 1);
        if grade_visible(me, db, f, db.grades@[i]) {
            assert(l == seq![db.grades@[i]] + rest);
            assert forall|k: int|
                0 <= k < l.len() implies exists|j: int|
                0 <= j < db.grades@.len() && db.grades@[j] == #[trigger] l[k] by {
                if k == 0 {
                    assert(db.grades@[i] == l[0]);
                } else {
                    assert(l[k] == rest[k - 1]);
                }
            }
        } else {
            assert(l == rest);
        }
    }
}

} // verus!
