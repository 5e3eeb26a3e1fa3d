use school_core::filters::{
    AssistanceFilter, DisciplinarySanctionFilter, GradeFilter, MessageFilter,
    SelfassessableFilter, SubjectFilter, UserFilter,
};
use school_core::school::School;
use school_core::structs::{
    AssessmentType, GradeType, MySelf, New, NewAssistance, NewDisciplinarySanction, NewGrade,
    NewMessage, NewSelfassessable, NewSubmissionSelfAssessable, NewTask, Payload, Role,
};
use school_core::ApiError;

fn admin() -> MySelf {
    MySelf { role: Role::admin, id: 0 }
}

fn no_grade_filter() -> GradeFilter {
    GradeFilter { subject_id: None, student_id: None, description: None }
}

/// One course, one teacher, two students (one linked to the father), one
/// subject, and one grade per student.
fn family_setup() -> (School, u64, u64, u64, u64, u64) {
    let mut db = School::empty();
    let teacher = db.insert_user("t@school".to_string(), "pw".to_string(), None).unwrap();
    let course = db
        .insert_course(1, "A".to_string(), "sec".to_string(), "m".to_string(), None, "1A".to_string())
        .unwrap();
    let s1 = db.insert_user("s1@school".to_string(), "pw".to_string(), Some(course)).unwrap();
    let s2 = db.insert_user("s2@school".to_string(), "pw".to_string(), Some(course)).unwrap();
    let father = db.insert_user("f@school".to_string(), "pw".to_string(), None).unwrap();
    db.insert_family(father, s1);
    let subject = db.insert_subject("Mathematics".to_string(), teacher, course).unwrap();
    let a = admin();
    for st in [s1, s2] {
        let res = a.post_grade(
            &mut db,
            &NewGrade {
                subject,
                assessment_id: None,
                student_id: st,
                grade_type: GradeType::Numerical,
                description: "unit".to_string(),
                grade: 800,
            },
        );
        assert!(res.is_ok());
    }
    (db, teacher, course, s1, s2, father)
}

#[test]
fn father_sees_only_linked_students_grades() {
    let (db, _t, _c, s1, _s2, father) = family_setup();
    let me = MySelf::new(father, Role::father);
    let grades = me.get_grades(&db, &no_grade_filter());
    assert_eq!(grades.len(), 1);
    assert_eq!(grades[0].student_id, s1);
}

#[test]
fn father_with_no_links_sees_empty_grades() {
    let (mut db, _t, _c, _s1, _s2, _father) = family_setup();
    let lonely = db.insert_user("f2@school".to_string(), "pw".to_string(), None).unwrap();
    let me = MySelf { role: Role::father, id: lonely };
    let grades = me.get_grades(&db, &no_grade_filter());
    assert_eq!(grades.len(), 0);
}

#[test]
fn admin_sees_all_grades_student_sees_own() {
    let (db, _t, _c, s1, s2, _f) = family_setup();
    assert_eq!(admin().get_grades(&db, &no_grade_filter()).len(), 2);
    let st = MySelf { role: Role::student, id: s1 };
    let mine = st.get_grades(&db, &no_grade_filter());
    assert_eq!(mine.len(), 1);
    assert_eq!(mine[0].student_id, s1);
    let other = MySelf { role: Role::student, id: s2 }.get_grades(&db, &no_grade_filter());
    assert_eq!(other.len(), 1);
    assert_eq!(other[0].student_id, s2);
}

#[test]
fn teacher_sees_grades_of_taught_subjects_only() {
    let (mut db, teacher, course, s1, _s2, _f) = family_setup();
    let other_teacher = db.insert_user("t2@school".to_string(), "pw".to_string(), None).unwrap();
    let other_subject = db.insert_subject("History".to_string(), other_teacher, course).unwrap();
    let res = admin().post_grade(
        &mut db,
        &NewGrade {
            subject: other_subject,
            assessment_id: None,
            student_id: s1,
            grade_type: GradeType::Conceptual,
            description: "hist".to_string(),
            grade: 900,
        },
    );
    assert!(res.is_ok());
    let me = MySelf { role: Role::teacher, id: teacher };
    let grades = me.get_grades(&db, &no_grade_filter());
    assert_eq!(grades.len(), 2);
    for g in &grades {
        assert_eq!(g.description.as_deref(), Some("unit"));
    }
}

#[test]
fn grade_filters_narrow_by_student_and_description() {
    let (db, _t, _c, s1, _s2, _f) = family_setup();
    let by_student = admin().get_grades(
        &db,
        &GradeFilter { subject_id: None, student_id: Some(s1), description: None },
    );
    assert_eq!(by_student.len(), 1);
    let by_desc = admin().get_grades(
        &db,
        &GradeFilter { subject_id: None, student_id: None, description: Some("unit".to_string()) },
    );
    assert_eq!(by_desc.len(), 2);
    let miss = admin().get_grades(
        &db,
        &GradeFilter { subject_id: None, student_id: None, description: Some("UNIT".to_string()) },
    );
    assert_eq!(miss.len(), 0);
}

#[test]
fn teacher_denied_assistance_and_sanctions() {
    let (mut db, teacher, course, s1, _s2, _f) = family_setup();
    let preceptor = db.insert_user("p@school".to_string(), "pw".to_string(), None).unwrap();
    {
        let k = db.course_pos(course).unwrap();
        db.courses[k].preceptor_id = Some(preceptor);
    }
    let p = MySelf { role: Role::preceptor, id: preceptor };
    let r = p.post_assistance(
        &mut db,
        &NewAssistance { student_id: s1, presence: "present".to_string(), date: 10 },
    );
    assert!(r.is_ok());
    let r = p.post_disciplinary_sanction(
        &mut db,
        &NewDisciplinarySanction {
            student_id: s1,
            sanction_type: "warning".to_string(),
            quantity: 1,
            description: "late".to_string(),
            date: 10,
        },
    );
    assert!(r.is_ok());
    let af = AssistanceFilter { assistance_id: None, student_id: None, presence: None, date: None };
    let df = DisciplinarySanctionFilter {
        disciplinary_sanction_id: None,
        student_id: None,
        sanction_type: None,
    };
    let t = MySelf { role: Role::teacher, id: teacher };
    assert_eq!(t.get_assistance(&db, &af).len(), 0);
    assert_eq!(t.get_disciplinary_sanction(&db, &df).len(), 0);
    assert_eq!(admin().get_assistance(&db, &af).len(), 1);
    assert_eq!(admin().get_disciplinary_sanction(&db, &df).len(), 1);
    let st = MySelf { role: Role::student, id: s1 };
    assert_eq!(st.get_assistance(&db, &af).len(), 1);
    assert_eq!(p.get_assistance(&db, &af).len(), 1);
}

#[test]
fn subject_name_filter_is_case_insensitive_substring() {
    let (db, _t, _c, _s1, _s2, _f) = family_setup();
    let found = admin().get_subjects(
        &db,
        &SubjectFilter {
            teacher_id: None,
            course_id: None,
            name: Some("math".to_string()),
            subject_id: None,
        },
    );
    assert_eq!(found.len(), 1);
    assert_eq!(found[0].name, "Mathematics");
    assert_eq!(found[0].course_name, "1A");
    let missed = admin().get_subjects(
        &db,
        &SubjectFilter {
            teacher_id: None,
            course_id: None,
            name: Some("chem".to_string()),
            subject_id: None,
        },
    );
    assert_eq!(missed.len(), 0);
}

#[test]
fn students_listing_by_role() {
    let (db, teacher, course, s1, _s2, father) = family_setup();
    let uf = UserFilter { course: None, name: None, user_id: None };
    let t = MySelf { role: Role::teacher, id: teacher };
    let listed = t.get_students(&db, &uf);
    assert_eq!(listed.len(), 2);
    for u in &listed {
        assert_eq!(u.course_id, Some(course));
    }
    let f = MySelf { role: Role::father, id: father };
    let linked = f.get_students(&db, &uf);
    assert_eq!(linked.len(), 1);
    assert_eq!(linked[0].id, s1);
    let st = MySelf { role: Role::student, id: s1 };
    let own = st.get_students(&db, &uf);
    assert_eq!(own.len(), 1);
    assert_eq!(own[0].id, s1);
}

#[test]
fn courses_listing_by_role() {
    let (db, teacher, course, s1, _s2, _f) = family_setup();
    let t = MySelf { role: Role::teacher, id: teacher };
    let tc = t.get_courses(&db);
    assert_eq!(tc.len(), 1);
    assert_eq!(tc[0].id, course);
    let st = MySelf { role: Role::student, id: s1 };
    assert_eq!(st.get_courses(&db).len(), 1);
    assert_eq!(admin().get_courses(&db).len(), 1);
}

#[test]
fn storage_exhaustion_is_reported() {
    let mut db = School::empty();
    db.next_id = u64::MAX;
    let r = db.insert_user("x@school".to_string(), "pw".to_string(), None);
    assert_eq!(r, Err(ApiError::Storage));
}

#[test]
fn pending_grade_listing_is_role_scoped() {
    let mut db = School::empty();
    let teacher = db.insert_user("t@school".to_string(), "pw".to_string(), None).unwrap();
    let course = db
        .insert_course(1, "A".to_string(), "sec".to_string(), "m".to_string(), None, "1A".to_string())
        .unwrap();
    let student = db.insert_user("s@school".to_string(), "pw".to_string(), Some(course)).unwrap();
    let subject = db.insert_subject("Latin".to_string(), teacher, course).unwrap();
    let t = MySelf { role: Role::teacher, id: teacher };
    let assessment = t
        .post_assessment(
            &mut db,
            &Payload {
                newtask: NewTask {
                    subject,
                    task: "quiz".to_string(),
                    due_date: 30,
                    type_: AssessmentType::Selfassessable,
                },
                newselfassessable: Some(NewSelfassessable {
                    questions: vec!["q".to_string()],
                    correct: vec!["r".to_string()],
                    incorrect1: vec!["w".to_string()],
                    incorrect2: None,
                    incorrect3: None,
                    incorrect4: None,
                }),
            },
            7,
        )
        .unwrap();
    let st = MySelf { role: Role::student, id: student };
    st.post_submission_selfassessable(
        &mut db,
        &NewSubmissionSelfAssessable { assessment_id: assessment, answers: vec!["r".to_string()] },
        30,
    )
    .unwrap();
    let nf = SelfassessableFilter { assessment_id: None };
    assert_eq!(t.get_pending_selfassessables_grades(&db, &nf).unwrap().len(), 1);
    assert_eq!(admin().get_pending_selfassessables_grades(&db, &nf).unwrap().len(), 1);
    assert_eq!(
        st.get_pending_selfassessables_grades(&db, &nf).err(),
        Some(ApiError::Unauthorized)
    );
    let other_teacher = MySelf { role: Role::teacher, id: 9999 };
    assert_eq!(other_teacher.get_pending_selfassessables_grades(&db, &nf).unwrap().len(), 0);
}

#[test]
fn preceptor_may_broadcast_only_to_owned_courses() {
    let mut db = School::empty();
    let preceptor = db.insert_user("p@school".to_string(), "pw".to_string(), None).unwrap();
    let owned = db
        .insert_course(
            1,
            "A".to_string(),
            "sec".to_string(),
            "m".to_string(),
            Some(preceptor),
            "1A".to_string(),
        )
        .unwrap();
    let foreign = db
        .insert_course(2, "B".to_string(), "sec".to_string(), "m".to_string(), None, "2B".to_string())
        .unwrap();
    let p = MySelf { role: Role::preceptor, id: preceptor };
    let to_foreign = NewMessage {
        courses: format!("{foreign}"),
        title: "T".to_string(),
        message: "m".to_string(),
    };
    assert_eq!(p.post_message(&mut db, &to_foreign).err(), Some(ApiError::Unauthorized));
    let to_owned = NewMessage {
        courses: format!("{owned},{foreign}"),
        title: "T".to_string(),
        message: "m".to_string(),
    };
    assert!(p.post_message(&mut db, &to_owned).is_ok());
    let st_role = MySelf { role: Role::student, id: preceptor };
    assert_eq!(st_role.post_message(&mut db, &to_owned).err(), Some(ApiError::Unauthorized));
}

#[test]
fn message_title_filter_is_case_insensitive_substring() {
    let mut db = School::empty();
    let _pad = db.insert_user("pad@school".to_string(), "pw".to_string(), None).unwrap();
    let course = db
        .insert_course(1, "A".to_string(), "sec".to_string(), "m".to_string(), None, "1A".to_string())
        .unwrap();
    admin()
        .post_message(
            &mut db,
            &NewMessage {
                courses: format!("{course}"),
                title: "Field Trip Friday".to_string(),
                message: "bring boots".to_string(),
            },
        )
        .unwrap();
    let hit = admin().get_messages(
        &db,
        &MessageFilter { sender_id: None, title: Some("trip".to_string()), course_id: None },
    );
    assert_eq!(hit.len(), 1);
    let miss = admin().get_messages(
        &db,
        &MessageFilter { sender_id: None, title: Some("exam".to_string()), course_id: None },
    );
    assert_eq!(miss.len(), 0);
}
