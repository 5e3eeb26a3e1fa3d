//! The scheduled sweep: staged quiz grades whose owning assessment's due
//! date has passed are consumed; each is promoted into a permanent grade
//! unless a grade for its assessment and student already exists, so the
//! one-grade-per-pair invariant is never violated.  Promotion and removal
//! happen in one atomic step, and running the sweep again on the resulting
//! state promotes nothing, because no retained staged grade is due.

use vstd::prelude::*;

use crate::school::{
    assessment_idx, grade_exists_for, pair_submitted, quiz_idx, unchanged_except_sweep, School,
};
use crate::structs::{Grade, GradeType, PendingSelfassessableGrade};
use crate::ApiError;

verus! {

/// The description every sweep-promoted grade carries.
pub open spec fn sweep_text() -> Seq<char> {
    "Autoevaluaci\u{00f3}n cerrada"@
}

/// The assessment a staged grade resolves to through its quiz: the
/// assessment's id, subject and due date, if both joins land.
pub open spec fn pending_join(db: School, pg: PendingSelfassessableGrade) -> Option<(u64, u64, u64)> {
    match quiz_idx(db, pg.selfassessable_id) {
        Some(qi) => match assessment_idx(db, db.quizzes@[qi].assessment_id) {
            Some(ai) => Some(
                (
                    db.assessments@[ai].id,
                    db.assessments@[ai].subject_id,
                    db.assessments@[ai].due_date,
                ),
            ),
            None => None,
        },
        None => None,
    }
}

/// A staged grade is due: its assessment exists and its due date lies
/// strictly before today.  Due staged grades are consumed by the sweep.
pub open spec fn pending_due(db: School, pg: PendingSelfassessableGrade, today: u64) -> bool {
    match pending_join(db, pg) {
        Some(t) => t.2 < today,
        None => false,
    }
}

/// A due staged grade is promoted unless its assessment and student pair is
/// already graded.
pub open spec fn should_promote(db: School, pg: PendingSelfassessableGrade, today: u64) -> bool {
    match pending_join(db, pg) {
        Some(t) => t.2 < today && !grade_exists_for(db, t.0, pg.student_id),
        None => false,
    }
}

/// The staging-table indices of the rows the sweep promotes, from position
/// `i` on, in order.
pub open spec fn promote_srcs_from(db: School, today: u64, i: int) -> Seq<int>
    decreases db.selfassessable_pending_grades@.len() - i,
{
    if !(0 <= i < db.selfassessable_pending_grades@.len()) {
        Seq::empty()
    } else {
        let rest = promote_srcs_from(db, today, i + 1);
        if should_promote(db, db.selfassessable_pending_grades@[i], today) {
            seq![i] + rest
        } else {
            rest
        }
    }
}

/// The staging-table indices of the rows the sweep promotes, in order.
pub open spec fn promote_srcs(db: School, today: u64) -> Seq<int> {
    promote_srcs_from(db, today, 0)
}

/// The staged rows the sweep keeps: those not due, in order, from position
/// `i` on.
pub open spec fn retained_from(db: School, today: u64, i: int) -> Seq<PendingSelfassessableGrade>
    decreases db.selfassessable_pending_grades@.len() - i,
{
    if !(0 <= i < db.selfassessable_pending_grades@.len()) {
        Seq::empty()
    } else {
        let rest = retained_from(db, today, i + 1);
        if pending_due(db, db.selfassessable_pending_grades@[i], today) {
            rest
        } else {
            seq![db.selfassessable_pending_grades@[i]] + rest
        }
    }
}

/// The `k`-th promoted grade matches the staged row it came from: same
/// student and value, the resolved assessment and subject, the fixed sweep
/// description, the numerical kind, and the `k`-th freshly allocated id.
pub open spec fn promoted_matches(db: School, today: u64, k: int, g: Grade) -> bool {
    let j = promote_srcs(db, today)[k];
    let pg = db.selfassessable_pending_grades@[j];
    &&& g.id == db.next_id + k
    &&& g.student_id == pg.student_id
    &&& g.grade == pg.grade
    &&& match pending_join(db, pg) {
        Some(t) => g.assessment_id == Some(t.0) && g.subject_id == t.1,
        None => false,
    }
    &&& match g.description {
        Some(d) => d@ == sweep_text(),
        None => false,
    }
    &&& g.grade_type == Some(GradeType::Numerical)
    &&& g.created_at is None
}

/// Elements of the promotion index list lie in the table, satisfy the
/// promotion condition, and are strictly increasing.
pub proof fn lemma_promote_srcs_props(db: School, today: u64, i: int)
    requires
        0 <= i,
    ensures
        forall|k: int|
            0 <= k < promote_srcs_from(db, today, i).len() ==> i <= #[trigger] promote_srcs_from(
                db,
                today,
                i,
            )[k] < db.selfassessable_pending_grades@.len() && should_promote(
                db,
                db.selfassessable_pending_grades@[promote_srcs_from(db, today, i)[k]],
                today,
            ),
        forall|a: int, b: int|
            0 <= a < b < promote_srcs_from(db, today, i).len() ==> #[trigger] promote_srcs_from(
                db,
                today,
                i,
            )[a] < #[trigger] promote_srcs_from(db, today, i)[b],
    decreases db.selfassessable_pending_grades@.len() - i,
{
    if 0 <= i < db.selfassessable_pending_grades@.len() {
        lemma_promote_srcs_props(db, today, i + 1);
        let srcs = promote_srcs_from(db, today, i);
        let rest = promote_srcs_from(db, today, i + 1);
        if should_promote(db, db.selfassessable_pending_grades@[i], today) {
            assert(srcs == seq![i] + rest);
            assert forall|k: int|
                0 <= k < srcs.len() implies i <= (#[trigger] srcs[k])
                    < db.selfassessable_pending_grades@.len() && should_promote(
                    db,
                    db.selfassessable_pending_grades@[srcs[k]],
                    today,
                ) by {
                if k == 0 {
                    assert(srcs[0] == i);
                } else {
                    assert(srcs[k] == rest[k - 1]);
                }
            }
            assert forall|a: int, b: int|
                0 <= a < b < srcs.len() implies (#[trigger] srcs[a]) < (#[trigger] srcs[b]) by {
                if a == 0 {
                    assert(srcs[0] == i);
                    assert(srcs[b] == rest[b - 1]);
                } else {
                    assert(srcs[a] == rest[a - 1]);
                    assert(srcs[b] == rest[b - 1]);
                }
            }
        } else {
            assert(srcs == rest);
        }
    }
}

/// Two distinct staged rows never resolve to the same assessment and
/// student pair: each quiz belongs to one assessment and a student stages
/// at most one grade per quiz.
pub proof fn lemma_pending_pairs_distinct(db: School, today: u64, j1: int, j2: int)
    requires
        db.wf(),
        0 <= j1 < j2 < db.selfassessable_pending_grades@.len(),
    ensures
        match (
            pending_join(db, db.selfassessable_pending_grades@[j1]),
            pending_join(db, db.selfassessable_pending_grades@[j2]),
        ) {
            (Some(t1), Some(t2)) => !(t1.0 == t2.0
                && db.selfassessable_pending_grades@[j1].student_id
                == db.selfassessable_pending_grades@[j2].student_id),
            _ => true,
        },
{
    let pg1 = db.selfassessable_pending_grades@[j1];
    let pg2 = db.selfassessable_pending_grades@[j2];
    match (pending_join(db, pg1), pending_join(db, pg2)) {
        (Some(t1), Some(t2)) => {
            if t1.0 == t2.0 && pg1.student_id == pg2.student_id {
                assert(pg1.selfassessable_id != pg2.selfassessable_id);
                match quiz_idx(db, pg1.selfassessable_id) {
                    Some(qi1) => {
                        crate::school::lemma_quiz_idx_from_some(
                            db.quizzes@,
                            pg1.selfassessable_id,
                            0,
                            qi1,
                        );
                        match quiz_idx(db, pg2.selfassessable_id) {
                            Some(qi2) => {
                                crate::school::lemma_quiz_idx_from_some(
                                    db.quizzes@,
                                    pg2.selfassessable_id,
                                    0,
                                    qi2,
                                );
                                assert(qi1 != qi2);
                                assert(db.quizzes@[qi1].assessment_id
                                    != db.quizzes@[qi2].assessment_id);
                                match assessment_idx(db, db.quizzes@[qi1].assessment_id) {
                                    Some(ai1) => {
                                        crate::school::lemma_assessment_idx_from_some(
                                            db.assessments@,
                                            db.quizzes@[qi1].assessment_id,
                                            0,
                                            ai1,
                                        );
                                        match assessment_idx(db, db.quizzes@[qi2].assessment_id) {
                                            Some(ai2) => {
                                                crate::school::lemma_assessment_idx_from_some(
                                                    db.assessments@,
                                                    db.quizzes@[qi2].assessment_id,
                                                    0,
                                                    ai2,
                                                );
                                                assert(t1.0 == db.quizzes@[qi1].assessment_id);
                                                assert(t2.0 == db.quizzes@[qi2].assessment_id);
                                                assert(false);
                                            },
                                            None => {},
                                        }
                                    },
                                    None => {},
                                }
                            },
                            None => {},
                        }
                    },
                    None => {},
                }
            }
        },
        _ => {},
    }
}

fn pending_join_exec(db: &School, pg: &PendingSelfassessableGrade) -> (r: Option<(u64, u64, u64)>)
    ensures
        r == pending_join(*db, *pg),
{
    match db.quiz_pos(pg.selfassessable_id) {
        Some(qi) => match db.assessment_pos(db.quizzes[qi].assessment_id) {
            Some(ai) => Some(
                (
                    db.assessments[ai].id,
                    db.assessments[ai].subject_id,
                    db.assessments[ai].due_date,
                ),
            ),
            None => None,
        },
        None => None,
    }
}

/// One unfolding step of the promotion index count.
proof fn lemma_promote_srcs_len(db: School, today: u64, i: int)
    requires
        0 <= i < db.selfassessable_pending_grades@.len(),
    ensures
        promote_srcs_from(db, today, i).len() == promote_srcs_from(db, today, i + 1).len() + (
        if should_promote(db, db.selfassessable_pending_grades@[i], today) {
            1int
        } else {
            0int
        }),
{
}

/// The full outcome of one sweep run from state `a` to state `b` on the
/// given date: on success, exactly the due staged grades were consumed, the
/// promotable ones appended as grades in order, and nothing else changed;
/// on failure the state is untouched and the id space was exhausted.
pub open spec fn sweep_outcome(a: School, b: School, today: u64, r: Result<usize, ApiError>) -> bool {
    match r {
        Ok(n) => {
            &&& n == promote_srcs(a, today).len()
            &&& b.grades@.len() == a.grades@.len() + n
            &&& b.grades@.subrange(0, a.grades@.len() as int) == a.grades@
            &&& forall|k: int|
                0 <= k < n ==> promoted_matches(a, today, k, #[trigger] b.grades@[a.grades@.len() + k])
            &&& b.selfassessable_pending_grades@ == retained_from(a, today, 0)
            &&& b.next_id == a.next_id + n
            &&& unchanged_except_sweep(a, b)
        },
        Err(e) => e == ApiError::Storage && b == a && a.next_id + promote_srcs(a, today).len()
            > u64::MAX,
    }
}

/// Promotes every due staged quiz grade into a permanent grade, unless its
/// assessment and student pair is already graded, then removes every due
/// staged row, leaving the rest.  Returns how many grades were promoted.
#[verifier::loop_isolation(false)]
pub fn migrate_selfassessable_pending_grades(db: &mut School, today: u64) -> (r: Result<
    usize,
    ApiError,
>)
    requires
        old(db).wf(),
    ensures
        final(db).wf(),
        sweep_outcome(*old(db), *final(db), today, r),
{
    let ghost db0 = *old(db);
    let mut promote: Vec<bool> = Vec::new();
    let mut count: usize = 0;
    let mut i: usize = 0;
    while i < db.selfassessable_pending_grades.len()
        invariant
            i <= db0.selfassessable_pending_grades@.len(),
            *db == db0,
            promote@.len() == i,
            forall|k: int|
                0 <= k < i ==> promote@[k] == should_promote(
                    db0,
                    db0.selfassessable_pending_grades@[k],
                    today,
                ),
            count == promote_srcs_from(db0, today, 0).len() - promote_srcs_from(
                db0,
                today,
                i as int,
            ).len(),
            count <= i,
        decreases db0.selfassessable_pending_grades@.len() - i,
    {
        let pg_student = db.selfassessable_pending_grades[i].student_id;
        let this_promote = match pending_join_exec(db, &db.selfassessable_pending_grades[i]) {
            Some(t) => t.2 < today && !db.has_grade_for(t.0, pg_student),
            None => false,
        };
        promote.push(this_promote);
        if this_promote {
            count += 1;
        }
        proof {
            lemma_promote_srcs_len(db0, today, i as int);
        }
        i += 1;
    }
    if count as u64 > u64::MAX - db.next_id {
        return Err(ApiError::Storage);
    }
    let ghost n_total = promote_srcs(db0, today).len() as int;
    let mut kept: Vec<PendingSelfassessableGrade> = Vec::new();
    let ghost mut kept_srcs: Seq<int> = Seq::empty();
    let ghost mut done: int = 0;
    let mut i: usize = 0;
    while i < db.selfassessable_pending_grades.len()
        invariant
            i <= db0.selfassessable_pending_grades@.len(),
            db.selfassessable_pending_grades@ == db0.selfassessable_pending_grades@,
            db.selfassessable_submissions@ == db0.selfassessable_submissions@,
            db.quizzes@ == db0.quizzes@,
            db.assessments@ == db0.assessments@,
            unchanged_except_sweep(db0, *db),
            db.wf(),
            promote@.len() == db0.selfassessable_pending_grades@.len(),
            forall|k: int|
                0 <= k < promote@.len() ==> promote@[k] == should_promote(
                    db0,
                    db0.selfassessable_pending_grades@[k],
                    today,
                ),
            done == promote_srcs_from(db0, today, 0).len() - promote_srcs_from(
                db0,
                today,
                i as int,
            ).len(),
            0 <= done <= n_total,
            db.next_id == db0.next_id + done,
            db0.next_id + n_total <= u64::MAX,
            db.grades@.len() == db0.grades@.len() + done,
            db.grades@.subrange(0, db0.grades@.len() as int) == db0.grades@,
            forall|k: int|
                0 <= k < done ==> promoted_matches(
                    db0,
                    today,
                    k,
                    #[trigger] db.grades@[db0.grades@.len() + k],
                ),
            promote_srcs_from(db0, today, 0) == promote_srcs_from(db0, today, 0).take(done)
                + promote_srcs_from(db0, today, i as int),
            retained_from(db0, today, 0) == kept@ + retained_from(db0, today, i as int),
            kept_srcs.len() == kept@.len(),
            forall|k: int|
                0 <= k < kept_srcs.len() ==> 0 <= #[trigger] kept_srcs[k] < i
                    && kept@[k] == db0.selfassessable_pending_grades@[kept_srcs[k]],
            forall|a: int, b: int|
                0 <= a < b < kept_srcs.len() ==> #[trigger] kept_srcs[a] < #[trigger] kept_srcs[b],
        decreases db0.selfassessable_pending_grades@.len() - i,
    {
        let pg_student = db.selfassessable_pending_grades[i].student_id;
        let pg_grade = db.selfassessable_pending_grades[i].grade;
        let target = pending_join_exec(db, &db.selfassessable_pending_grades[i]);
        let due = match target {
            Some(t) => t.2 < today,
            None => false,
        };
        proof {
            assert(pending_join(db0, db0.selfassessable_pending_grades@[i as int]) == target);
        }
        if promote[i] {
            let t = match target {
                Some(t) => t,
                None => (0, 0, 0),
            };
            let g = Grade {
                id: db.next_id,
                description: Some(String::from_str("Autoevaluaci\u{00f3}n cerrada")),
                grade: pg_grade,
                student_id: pg_student,
                subject_id: t.1,
                assessment_id: Some(t.0),
                grade_type: Some(GradeType::Numerical),
                created_at: None,
            };
            proof {
                reveal_strlit("Autoevaluaci\u{00f3}n cerrada");
                assert(promote_srcs_from(db0, today, i as int) == seq![i as int]
                    + promote_srcs_from(db0, today, i + 1));
                assert(promote_srcs_from(db0, today, 0)[done] == i as int) by {
                    assert(promote_srcs_from(db0, today, 0) == promote_srcs_from(
                        db0,
                        today,
                        0,
                    ).take(done) + (seq![i as int] + promote_srcs_from(db0, today, i + 1)));
                }
                assert(promote_srcs_from(db0, today, 0).take(done + 1) =~= promote_srcs_from(
                    db0,
                    today,
                    0,
                ).take(done) + seq![i as int]);
                assert(promote_srcs_from(db0, today, 0) =~= promote_srcs_from(db0, today, 0).take(
                    done + 1,
                ) + promote_srcs_from(db0, today, i + 1));
            }
            let ghost pre_grades = db.grades@;
            db.grades.push(g);
            db.next_id = db.next_id + 1;
            proof {
                done = done + 1;
                lemma_promote_srcs_props(db0, today, 0);
                assert(db.grades@.subrange(0, db0.grades@.len() as int) =~= db0.grades@);
                assert forall|k: int|
                    0 <= k < done implies promoted_matches(
                    db0,
                    today,
                    k,
                    #[trigger] db.grades@[db0.grades@.len() + k],
                ) by {
                    if k < done - 1 {
                        assert(db.grades@[db0.grades@.len() + k] == pre_grades[db0.grades@.len()
                            + k]);
                    } else {
                        assert(db.grades@[db0.grades@.len() + k] == g);
                    }
                }
                assert forall|a: int, b: int|
                    0 <= a < b < db.grades@.len() && (#[trigger] db.grades@[a].assessment_id)
                        is Some && (#[trigger] db.grades@[b].assessment_id)
                        == db.grades@[a].assessment_id implies db.grades@[a].student_id
                    != db.grades@[b].student_id by {
                    let old_len = db0.grades@.len() as int;
                    if b < db.grades@.len() - 1 {
                        assert(db.grades@[a] == pre_grades[a]);
                        assert(db.grades@[b] == pre_grades[b]);
                    } else {
                        assert(db.grades@[b] == g);
                        if a < old_len {
                            assert(db.grades@[a] == db0.grades@[a]);
                            assert(!grade_exists_for(db0, t.0, pg_student));
                        } else {
                            let ka = a - old_len;
                            assert(0 <= ka < done);
                            assert(db.grades@[db0.grades@.len() + ka] == db.grades@[a]);
                            assert(promoted_matches(db0, today, ka, db.grades@[a]));
                            let ja = promote_srcs(db0, today)[ka];
                            let jb = promote_srcs(db0, today)[done - 1];
                            assert(jb == i as int);
                            assert(ja < jb);
                            lemma_pending_pairs_distinct(db0, today, ja, jb);
                        }
                    }
                }
            }
        } else {
            if due {
                proof {
                    assert(should_promote(
                        db0,
                        db0.selfassessable_pending_grades@[i as int],
                        today,
                    ) == false);
                }
            } else {
                proof {
                    crate::listing::lemma_push_concat(
                        kept@,
                        db0.selfassessable_pending_grades@[i as int],
                        retained_from(db0, today, i + 1),
                    );
                }
                kept.push(db.selfassessable_pending_grades[i].clone());
                proof {
                    kept_srcs = kept_srcs.push(i as int);
                }
            }
        }
        i += 1;
    }
    let n = count;
    db.selfassessable_pending_grades = kept;
    proof {
        assert forall|a: int, b: int|
            0 <= a < b < final(db).selfassessable_pending_grades@.len() implies (
        #[trigger] final(db).selfassessable_pending_grades@[a].id) != (
        #[trigger] final(db).selfassessable_pending_grades@[b].id) by {
            let ja = kept_srcs[a];
            let jb = kept_srcs[b];
            assert(ja < jb);
            assert(final(db).selfassessable_pending_grades@[a]
                == db0.selfassessable_pending_grades@[ja]);
            assert(final(db).selfassessable_pending_grades@[b]
                == db0.selfassessable_pending_grades@[jb]);
        }
        assert forall|a: int|
            0 <= a < final(db).selfassessable_pending_grades@.len() implies (
        #[trigger] final(db).selfassessable_pending_grades@[a].id) < final(db).next_id by {
            let ja = kept_srcs[a];
            assert(final(db).selfassessable_pending_grades@[a]
                == db0.selfassessable_pending_grades@[ja]);
            assert(db0.selfassessable_pending_grades@[ja].id < db0.next_id);
        }
        assert forall|a: int, b: int|
            0 <= a < b < final(db).selfassessable_pending_grades@.len() && (
        #[trigger] final(db).selfassessable_pending_grades@[a].student_id) == (
        #[trigger] final(db).selfassessable_pending_grades@[b].student_id) implies final(db).selfassessable_pending_grades@[a].selfassessable_id != final(db).selfassessable_pending_grades@[b].selfassessable_id by {
            let ja = kept_srcs[a];
            let jb = kept_srcs[b];
            assert(ja < jb);
            assert(final(db).selfassessable_pending_grades@[a]
                == db0.selfassessable_pending_grades@[ja]);
            assert(final(db).selfassessable_pending_grades@[b]
                == db0.selfassessable_pending_grades@[jb]);
        }
        assert forall|a: int|
            0 <= a < final(db).selfassessable_pending_grades@.len() implies pair_submitted(
            final(db).selfassessable_submissions@,
            (#[trigger] final(db).selfassessable_pending_grades@[a]).student_id,
            final(db).selfassessable_pending_grades@[a].selfassessable_id,
        ) by {
            let ja = kept_srcs[a];
            assert(final(db).selfassessable_pending_grades@[a]
                == db0.selfassessable_pending_grades@[ja]);
            assert(pair_submitted(
                db0.selfassessable_submissions@,
                db0.selfassessable_pending_grades@[ja].student_id,
                db0.selfassessable_pending_grades@[ja].selfassessable_id,
            ));
        }
        assert(final(db).grades@.subrange(0, db0.grades@.len() as int) =~= db0.grades@);
    }
    Ok(n)
}

/// Runs one sweep round against the host clock's current date, as the
/// scheduled job does every interval.
pub fn run_scheduled_sweep(db: &mut School) -> (r: Result<usize, ApiError>)
    requires
        old(db).wf(),
    ensures
        final(db).wf(),
        exists|today: u64| sweep_outcome(*old(db), *final(db), today, r),
{
    let today = crate::host::today_day_number();
    let r = migrate_selfassessable_pending_grades(db, today);
    proof {
        assert(sweep_outcome(*old(db), *final(db), today, r));
    }
    r
}

} // verus!
