use school_core::filters::SelfassessableFilter;
use school_core::school::School;
use school_core::structs::{
    AssessmentType, MySelf, NewSelfassessable, NewSubmissionSelfAssessable, NewTask, Payload, Role,
};
use school_core::sweep::migrate_selfassessable_pending_grades;
use school_core::ApiError;

const TODAY: u64 = 739_000;

fn admin() -> MySelf {
    MySelf { role: Role::admin, id: 0 }
}

fn no_filter() -> SelfassessableFilter {
    SelfassessableFilter { assessment_id: None }
}

/// A course with three students and a four-question quiz due today.
fn quiz_setup() -> (School, u64, Vec<u64>, u64) {
    let mut db = School::empty();
    let teacher = db.insert_user("t@school".to_string(), "pw".to_string(), None).unwrap();
    let course = db
        .insert_course(1, "A".to_string(), "sec".to_string(), "m".to_string(), None, "1A".to_string())
        .unwrap();
    let mut students = Vec::new();
    for email in ["a@school", "b@school", "c@school"] {
        students.push(db.insert_user(email.to_string(), "pw".to_string(), Some(course)).unwrap());
    }
    let subject = db.insert_subject("Biology".to_string(), teacher, course).unwrap();
    let payload = Payload {
        newtask: NewTask {
            subject,
            task: "cells quiz".to_string(),
            due_date: TODAY,
            type_: AssessmentType::Selfassessable,
        },
        newselfassessable: Some(NewSelfassessable {
            questions: vec![
                "q1".to_string(),
                "q2".to_string(),
                "q3".to_string(),
                "q4".to_string(),
            ],
            correct: vec![
                "r1".to_string(),
                "r2".to_string(),
                "r3".to_string(),
                "r4".to_string(),
            ],
            incorrect1: vec![
                "w1".to_string(),
                "w2".to_string(),
                "w3".to_string(),
                "w4".to_string(),
            ],
            incorrect2: Some(vec![
                "x1".to_string(),
                "x2".to_string(),
                "x3".to_string(),
                "x4".to_string(),
            ]),
            incorrect3: None,
            incorrect4: None,
        }),
    };
    let teacher_me = MySelf { role: Role::teacher, id: teacher };
    let assessment = teacher_me.post_assessment(&mut db, &payload, 1000).unwrap();
    (db, assessment, students, subject)
}

fn answers(list: &[&str]) -> Vec<String> {
    list.iter().map(|s| s.to_string()).collect()
}

#[test]
fn quiz_visible_only_on_due_date() {
    let (db, _assessment, students, _subject) = quiz_setup();
    let st = MySelf { role: Role::student, id: students[0] };
    let on_day = st.get_public_selfassessables(&db, &no_filter(), TODAY).unwrap();
    assert_eq!(on_day.len(), 4);
    let off_day = st.get_public_selfassessables(&db, &no_filter(), TODAY + 1).unwrap();
    assert_eq!(off_day.len(), 0);
    let before = st.get_public_selfassessables(&db, &no_filter(), TODAY - 1).unwrap();
    assert_eq!(before.len(), 0);
}

#[test]
fn quiz_options_are_a_permutation_with_the_correct_one() {
    let (db, _assessment, students, _subject) = quiz_setup();
    let st = MySelf { role: Role::student, id: students[0] };
    let rows = st.get_public_selfassessables(&db, &no_filter(), TODAY).unwrap();
    assert_eq!(rows.len(), 4);
    for (i, row) in rows.iter().enumerate() {
        let mut opts = vec![row.op1.clone(), row.op2.clone()];
        if let Some(o) = &row.op3 {
            opts.push(o.clone());
        }
        if let Some(o) = &row.op4 {
            opts.push(o.clone());
        }
        if let Some(o) = &row.op5 {
            opts.push(o.clone());
        }
        let mut expected = vec![
            format!("r{}", i + 1),
            format!("w{}", i + 1),
            format!("x{}", i + 1),
        ];
        opts.sort();
        expected.sort();
        assert_eq!(opts, expected);
    }
}

#[test]
fn quiz_fetch_denied_for_non_students() {
    let (db, _assessment, _students, _subject) = quiz_setup();
    let r = admin().get_public_selfassessables(&db, &no_filter(), TODAY);
    assert_eq!(r.err(), Some(ApiError::Unauthorized));
}

#[test]
fn quiz_filter_on_missing_assessment_is_not_found() {
    let (db, _assessment, students, _subject) = quiz_setup();
    let st = MySelf { role: Role::student, id: students[0] };
    let r = st.get_selfassessables(
        &db,
        &SelfassessableFilter { assessment_id: Some(9999) },
        TODAY,
    );
    assert_eq!(r.err(), Some(ApiError::NotFound));
    assert_eq!(st.get_selfassessable_id(&db, 9999), Err(ApiError::NotFound));
}

#[test]
fn perfect_submission_stages_ten() {
    let (mut db, assessment, students, _subject) = quiz_setup();
    let st = MySelf { role: Role::student, id: students[0] };
    let sub = NewSubmissionSelfAssessable {
        assessment_id: assessment,
        answers: answers(&["r1", "r2", "r3", "r4"]),
    };
    let score = st.post_submission_selfassessable(&mut db, &sub, TODAY).unwrap();
    assert_eq!(score, 1000);
}

#[test]
fn zero_submission_stages_zero() {
    let (mut db, assessment, students, _subject) = quiz_setup();
    let st = MySelf { role: Role::student, id: students[1] };
    let sub = NewSubmissionSelfAssessable {
        assessment_id: assessment,
        answers: answers(&["no", "no", "no", "no"]),
    };
    let score = st.post_submission_selfassessable(&mut db, &sub, TODAY).unwrap();
    assert_eq!(score, 0);
}

#[test]
fn partial_submission_scales_to_the_ten_point_scale() {
    let (mut db, assessment, students, _subject) = quiz_setup();
    let st = MySelf { role: Role::student, id: students[2] };
    let sub = NewSubmissionSelfAssessable {
        assessment_id: assessment,
        answers: answers(&["r1", "r2", "r3", "no"]),
    };
    let score = st.post_submission_selfassessable(&mut db, &sub, TODAY).unwrap();
    assert_eq!(score, 750);
}

#[test]
fn second_quiz_submission_is_a_conflict() {
    let (mut db, assessment, students, _subject) = quiz_setup();
    let st = MySelf { role: Role::student, id: students[0] };
    let sub = NewSubmissionSelfAssessable {
        assessment_id: assessment,
        answers: answers(&["r1", "r2", "r3", "r4"]),
    };
    assert!(st.post_submission_selfassessable(&mut db, &sub, TODAY).is_ok());
    assert_eq!(st.get_is_selfassessable_answered(&db, assessment), Ok(true));
    let again = st.post_submission_selfassessable(&mut db, &sub, TODAY);
    assert_eq!(again.err(), Some(ApiError::Conflict));
}

#[test]
fn submission_on_wrong_day_is_rejected() {
    let (mut db, assessment, students, _subject) = quiz_setup();
    let st = MySelf { role: Role::student, id: students[0] };
    let sub = NewSubmissionSelfAssessable {
        assessment_id: assessment,
        answers: answers(&["r1", "r2", "r3", "r4"]),
    };
    let r = st.post_submission_selfassessable(&mut db, &sub, TODAY + 1);
    assert_eq!(r.err(), Some(ApiError::Validation));
}

#[test]
fn stored_response_joins_answers_with_commas() {
    let (mut db, assessment, students, _subject) = quiz_setup();
    let st = MySelf { role: Role::student, id: students[0] };
    let sub = NewSubmissionSelfAssessable {
        assessment_id: assessment,
        answers: answers(&["r1", "r2", "r3", "r4"]),
    };
    st.post_submission_selfassessable(&mut db, &sub, TODAY).unwrap();
    let responses = st.get_selfassessables_responses(&db, &no_filter()).unwrap();
    assert_eq!(responses.len(), 1);
    assert_eq!(responses[0].answers, "r1,r2,r3,r4");
    assert_eq!(responses[0].student_id, students[0]);
}

#[test]
fn sweep_promotes_once_with_fixed_description() {
    let (mut db, assessment, students, subject) = quiz_setup();
    let st = MySelf { role: Role::student, id: students[2] };
    let sub = NewSubmissionSelfAssessable {
        assessment_id: assessment,
        answers: answers(&["r1", "r2", "r3", "no"]),
    };
    st.post_submission_selfassessable(&mut db, &sub, TODAY).unwrap();
    let pending_before = admin().get_pending_selfassessables_grades(&db, &no_filter()).unwrap();
    assert_eq!(pending_before.len(), 1);

    let promoted = migrate_selfassessable_pending_grades(&mut db, TODAY + 1).unwrap();
    assert_eq!(promoted, 1);
    let grades = admin().get_grades(
        &db,
        &school_core::filters::GradeFilter {
            subject_id: None,
            student_id: Some(students[2]),
            description: None,
        },
    );
    assert_eq!(grades.len(), 1);
    assert_eq!(grades[0].description.as_deref(), Some("Autoevaluaci\u{00f3}n cerrada"));
    assert_eq!(grades[0].grade, 750);
    assert_eq!(grades[0].subject_id, subject);
    assert_eq!(grades[0].assessment_id, Some(assessment));
    let pending_after = admin().get_pending_selfassessables_grades(&db, &no_filter()).unwrap();
    assert_eq!(pending_after.len(), 0);

    let promoted_again = migrate_selfassessable_pending_grades(&mut db, TODAY + 1).unwrap();
    assert_eq!(promoted_again, 0);
    let grades_again = admin().get_grades(
        &db,
        &school_core::filters::GradeFilter {
            subject_id: None,
            student_id: Some(students[2]),
            description: None,
        },
    );
    assert_eq!(grades_again.len(), 1);
}

#[test]
fn sweep_leaves_undue_grades_staged() {
    let (mut db, assessment, students, _subject) = quiz_setup();
    let st = MySelf { role: Role::student, id: students[0] };
    let sub = NewSubmissionSelfAssessable {
        assessment_id: assessment,
        answers: answers(&["r1", "r2", "r3", "r4"]),
    };
    st.post_submission_selfassessable(&mut db, &sub, TODAY).unwrap();
    let promoted = migrate_selfassessable_pending_grades(&mut db, TODAY).unwrap();
    assert_eq!(promoted, 0);
    let pending = admin().get_pending_selfassessables_grades(&db, &no_filter()).unwrap();
    assert_eq!(pending.len(), 1);
    assert_eq!(pending[0].grade, 1000);
}

#[test]
fn quiz_payload_validation() {
    let bad = NewSelfassessable {
        questions: vec!["q1".to_string()],
        correct: vec!["r1".to_string(), "r2".to_string()],
        incorrect1: vec!["w1".to_string(), "w2".to_string()],
        incorrect2: None,
        incorrect3: None,
        incorrect4: None,
    };
    assert!(!bad.validate());
    let good = NewSelfassessable {
        questions: vec!["q1".to_string()],
        correct: vec!["r1".to_string()],
        incorrect1: vec!["w1".to_string()],
        incorrect2: None,
        incorrect3: None,
        incorrect4: None,
    };
    assert!(good.validate());
}

#[test]
fn sweep_consumes_but_does_not_duplicate_an_already_graded_pair() {
    let (mut db, assessment, students, subject) = quiz_setup();
    let st = MySelf { role: Role::student, id: students[0] };
    let sub = NewSubmissionSelfAssessable {
        assessment_id: assessment,
        answers: answers(&["r1", "r2", "r3", "r4"]),
    };
    st.post_submission_selfassessable(&mut db, &sub, TODAY).unwrap();
    // The teacher grades the assessment by hand before the sweep runs.
    let t = MySelf { role: Role::teacher, id: db.subjects[0].teacher_id };
    t.post_grade(
        &mut db,
        &school_core::structs::NewGrade {
            subject,
            assessment_id: Some(assessment),
            student_id: students[0],
            grade_type: school_core::structs::GradeType::Numerical,
            description: "hand graded".to_string(),
            grade: 600,
        },
    )
    .unwrap();
    let promoted = migrate_selfassessable_pending_grades(&mut db, TODAY + 1).unwrap();
    assert_eq!(promoted, 0);
    // The staged row is consumed, and the hand-written grade stays the only
    // one for the pair.
    let pending = admin().get_pending_selfassessables_grades(&db, &no_filter()).unwrap();
    assert_eq!(pending.len(), 0);
    let grades = admin().get_grades(
        &db,
        &school_core::filters::GradeFilter {
            subject_id: None,
            student_id: Some(students[0]),
            description: None,
        },
    );
    assert_eq!(grades.len(), 1);
    assert_eq!(grades[0].description.as_deref(), Some("hand graded"));
    assert_eq!(grades[0].grade, 600);
}
