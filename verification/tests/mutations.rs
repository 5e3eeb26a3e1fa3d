use school_core::filters::{MessageFilter, SubjectMessageFilter};
use school_core::school::School;
use school_core::structs::{
    AssessmentType, GradeType, MySelf, NewGrade, NewMessage, NewSubjectMessage, NewTask, Payload,
    Role, SubjectMessageType, UpdateGrade, UpdateMessage,
};
use school_core::ApiError;

fn admin() -> MySelf {
    MySelf { role: Role::admin, id: 0 }
}

/// One course with a teacher, a student and one homework assessment.
fn homework_setup() -> (School, u64, u64, u64, u64) {
    let mut db = School::empty();
    let teacher = db.insert_user("t@school".to_string(), "pw".to_string(), None).unwrap();
    let course = db
        .insert_course(1, "A".to_string(), "sec".to_string(), "m".to_string(), None, "1A".to_string())
        .unwrap();
    let student = db.insert_user("s@school".to_string(), "pw".to_string(), Some(course)).unwrap();
    let subject = db.insert_subject("Physics".to_string(), teacher, course).unwrap();
    let t = MySelf { role: Role::teacher, id: teacher };
    let payload = Payload {
        newtask: NewTask {
            subject,
            task: "exercise sheet".to_string(),
            due_date: 100,
            type_: AssessmentType::Homework,
        },
        newselfassessable: None,
    };
    let homework = t.post_assessment(&mut db, &payload, 42).unwrap();
    (db, teacher, student, subject, homework)
}

#[test]
fn homework_double_submission_is_a_conflict() {
    let (mut db, _t, student, _subject, homework) = homework_setup();
    let st = MySelf { role: Role::student, id: student };
    assert!(!st.get_is_homework_answered(&db, homework));
    let first = st.post_submission(&mut db, homework, "uploads/a.pdf".to_string());
    assert!(first.is_ok());
    assert!(st.get_is_homework_answered(&db, homework));
    let second = st.post_submission(&mut db, homework, "uploads/b.pdf".to_string());
    assert_eq!(second.err(), Some(ApiError::Conflict));
    assert_eq!(db.homework_submissions.len(), 1);
    assert_eq!(db.homework_submissions[0].path, "uploads/a.pdf");
}

#[test]
fn homework_submission_requires_homework_kind_and_membership() {
    let (mut db, teacher, student, subject, _homework) = homework_setup();
    let t = MySelf { role: Role::teacher, id: teacher };
    let exam = t
        .post_assessment(
            &mut db,
            &Payload {
                newtask: NewTask {
                    subject,
                    task: "exam".to_string(),
                    due_date: 100,
                    type_: AssessmentType::Exam,
                },
                newselfassessable: None,
            },
            42,
        )
        .unwrap();
    let st = MySelf { role: Role::student, id: student };
    let r = st.post_submission(&mut db, exam, "uploads/a.pdf".to_string());
    assert_eq!(r.err(), Some(ApiError::Validation));
    let outsider = db.insert_user("o@school".to_string(), "pw".to_string(), None).unwrap();
    let out = MySelf { role: Role::student, id: outsider };
    let r = out.post_submission(&mut db, exam, "uploads/a.pdf".to_string());
    assert_eq!(r.err(), Some(ApiError::NotFound));
    let r = t.post_submission(&mut db, exam, "uploads/a.pdf".to_string());
    assert_eq!(r.err(), Some(ApiError::Unauthorized));
}

#[test]
fn grade_against_foreign_assessment_is_rejected() {
    let (mut db, teacher, student, subject, homework) = homework_setup();
    let other_teacher = db.insert_user("t2@school".to_string(), "pw".to_string(), None).unwrap();
    let course2 = db
        .insert_course(2, "B".to_string(), "sec".to_string(), "m".to_string(), None, "2B".to_string())
        .unwrap();
    let other_subject = db.insert_subject("Art".to_string(), other_teacher, course2).unwrap();
    let t = MySelf { role: Role::teacher, id: teacher };
    // A teacher grading a subject they do not teach fails the role check.
    let foreign_subject = NewGrade {
        subject: other_subject,
        assessment_id: Some(homework),
        student_id: student,
        grade_type: GradeType::Numerical,
        description: "x".to_string(),
        grade: 500,
    };
    assert_eq!(t.post_grade(&mut db, &foreign_subject).err(), Some(ApiError::Unauthorized));
    // An assessment that does not belong to the named subject is a
    // cross-entity consistency failure: invalid payload.
    let wrong_subject_for_assessment = NewGrade {
        subject,
        assessment_id: Some(9999),
        student_id: student,
        grade_type: GradeType::Numerical,
        description: "x".to_string(),
        grade: 500,
    };
    assert_eq!(
        t.post_grade(&mut db, &wrong_subject_for_assessment).err(),
        Some(ApiError::Validation)
    );
    // So is a student outside the subject's course.
    let outsider = db.insert_user("out@school".to_string(), "pw".to_string(), None).unwrap();
    let student_not_in_course = NewGrade {
        subject,
        assessment_id: None,
        student_id: outsider,
        grade_type: GradeType::Numerical,
        description: "x".to_string(),
        grade: 500,
    };
    assert_eq!(
        t.post_grade(&mut db, &student_not_in_course).err(),
        Some(ApiError::Validation)
    );
    assert_eq!(db.grades.len(), 0);
}

#[test]
fn duplicate_grade_for_assessment_and_student_is_a_conflict() {
    let (mut db, teacher, student, subject, homework) = homework_setup();
    let t = MySelf { role: Role::teacher, id: teacher };
    let g = NewGrade {
        subject,
        assessment_id: Some(homework),
        student_id: student,
        grade_type: GradeType::Numerical,
        description: "graded".to_string(),
        grade: 700,
    };
    assert!(t.post_grade(&mut db, &g).is_ok());
    assert_eq!(t.post_grade(&mut db, &g).err(), Some(ApiError::Conflict));
    assert_eq!(db.grades.len(), 1);
}

#[test]
fn student_cannot_create_grades() {
    let (mut db, _t, student, subject, _homework) = homework_setup();
    let st = MySelf { role: Role::student, id: student };
    let g = NewGrade {
        subject,
        assessment_id: None,
        student_id: student,
        grade_type: GradeType::Numerical,
        description: "self serve".to_string(),
        grade: 1000,
    };
    assert_eq!(st.post_grade(&mut db, &g).err(), Some(ApiError::Unauthorized));
    assert_eq!(db.grades.len(), 0);
}

#[test]
fn update_with_empty_patch_is_invalid() {
    let (mut db, teacher, student, subject, _homework) = homework_setup();
    let t = MySelf { role: Role::teacher, id: teacher };
    let g = NewGrade {
        subject,
        assessment_id: None,
        student_id: student,
        grade_type: GradeType::Numerical,
        description: "to patch".to_string(),
        grade: 600,
    };
    let gid = t.post_grade(&mut db, &g).unwrap();
    let empty = UpdateGrade {
        description: None,
        grade: None,
        student_id: None,
        subject_id: None,
        assessment_id: None,
        grade_type: None,
    };
    assert_eq!(t.update_grade(&mut db, gid, &empty).err(), Some(ApiError::Validation));
    let patch = UpdateGrade {
        description: None,
        grade: Some(950),
        student_id: None,
        subject_id: None,
        assessment_id: None,
        grade_type: None,
    };
    assert!(t.update_grade(&mut db, gid, &patch).is_ok());
    assert_eq!(db.grades[0].grade, 950);
    assert_eq!(db.grades[0].description.as_deref(), Some("to patch"));
}

#[test]
fn delete_grade_requires_ownership() {
    let (mut db, teacher, student, subject, _homework) = homework_setup();
    let t = MySelf { role: Role::teacher, id: teacher };
    let gid = t
        .post_grade(
            &mut db,
            &NewGrade {
                subject,
                assessment_id: None,
                student_id: student,
                grade_type: GradeType::Numerical,
                description: "temp".to_string(),
                grade: 100,
            },
        )
        .unwrap();
    let stranger = MySelf { role: Role::teacher, id: 9999 };
    assert_eq!(stranger.delete_grade(&mut db, gid).err(), Some(ApiError::Unauthorized));
    assert!(t.delete_grade(&mut db, gid).is_ok());
    assert_eq!(db.grades.len(), 0);
}

#[test]
fn broadcast_message_fans_out_to_parsed_courses() {
    let mut db = School::empty();
    let mut course_ids = Vec::new();
    for n in 0..3 {
        course_ids.push(
            db.insert_course(
                n,
                "A".to_string(),
                "sec".to_string(),
                "m".to_string(),
                None,
                format!("c{}", n),
            )
            .unwrap(),
        );
    }
    let student = db
        .insert_user("s@school".to_string(), "pw".to_string(), Some(course_ids[1]))
        .unwrap();
    let msg = NewMessage {
        courses: format!(" {} , {} ,junk", course_ids[1], course_ids[2]),
        title: "Notice".to_string(),
        message: "hello".to_string(),
    };
    let mid = admin().post_message(&mut db, &msg).unwrap();
    assert_eq!(db.message_courses.len(), 2);
    let st = MySelf { role: Role::student, id: student };
    let mf = MessageFilter { sender_id: None, title: None, course_id: None };
    let seen = st.get_messages(&db, &mf);
    assert_eq!(seen.len(), 1);
    assert_eq!(seen[0].id, mid);
    assert_eq!(seen[0].message, "hello");
    let other = db.insert_user("o@school".to_string(), "pw".to_string(), Some(course_ids[0])).unwrap();
    let unreached = MySelf { role: Role::student, id: other }.get_messages(&db, &mf);
    assert_eq!(unreached.len(), 0);
}

#[test]
fn broadcast_message_with_out_of_range_course_is_invalid() {
    let mut db = School::empty();
    let msg = NewMessage {
        courses: "40".to_string(),
        title: "Notice".to_string(),
        message: "hello".to_string(),
    };
    assert_eq!(admin().post_message(&mut db, &msg).err(), Some(ApiError::Validation));
    assert_eq!(db.messages.len(), 0);
}

#[test]
fn message_update_respects_sender_ownership() {
    let mut db = School::empty();
    let sender = db.insert_user("t@school".to_string(), "pw".to_string(), None).unwrap();
    let c = db
        .insert_course(1, "A".to_string(), "sec".to_string(), "m".to_string(), None, "1A".to_string())
        .unwrap();
    let mid = admin()
        .post_message(
            &mut db,
            &NewMessage {
                courses: format!("{}", c),
                title: "T".to_string(),
                message: "old".to_string(),
            },
        )
        .unwrap();
    let not_sender = MySelf { role: Role::teacher, id: sender + 100 };
    let patch = UpdateMessage { title: None, message: Some("new".to_string()) };
    assert_eq!(not_sender.update_message(&mut db, mid, &patch).err(), Some(ApiError::Unauthorized));
    assert!(admin().update_message(&mut db, mid, &patch).is_ok());
    assert_eq!(db.messages[0].message, "new");
}

#[test]
fn subject_message_file_delete_reports_backing_file() {
    let (mut db, teacher, _student, subject, _homework) = homework_setup();
    let t = MySelf { role: Role::teacher, id: teacher };
    let with_file = NewSubjectMessage {
        sender_id: teacher,
        subject_id: subject,
        title: "slides".to_string(),
        content: "uploads/files/slides.pdf".to_string(),
        type_: SubjectMessageType::File,
    };
    let sm1 = t.post_subject_messages(&mut db, &with_file, 50).unwrap();
    let plain = NewSubjectMessage {
        sender_id: teacher,
        subject_id: subject,
        title: "note".to_string(),
        content: "read chapter 3".to_string(),
        type_: SubjectMessageType::Message,
    };
    let sm2 = t.post_subject_messages(&mut db, &plain, 51).unwrap();
    let smf = SubjectMessageFilter { subject_message_id: None, sender_id: None, subject_id: None };
    assert_eq!(t.get_subject_messages(&db, &smf).len(), 2);

    let removed_file = t.delete_subject_message(&mut db, sm1).unwrap();
    assert_eq!(removed_file.as_deref(), Some("uploads/files/slides.pdf"));
    let removed_plain = t.delete_subject_message(&mut db, sm2).unwrap();
    assert_eq!(removed_plain, None);
    assert_eq!(t.get_subject_messages(&db, &smf).len(), 0);
}

#[test]
fn subject_message_creation_is_role_checked() {
    let (mut db, _teacher, student, subject, _homework) = homework_setup();
    let st = MySelf { role: Role::student, id: student };
    let msg = NewSubjectMessage {
        sender_id: student,
        subject_id: subject,
        title: "hi".to_string(),
        content: "spam".to_string(),
        type_: SubjectMessageType::Message,
    };
    assert_eq!(st.post_subject_messages(&mut db, &msg, 50).err(), Some(ApiError::Unauthorized));
    let link = NewSubjectMessage {
        sender_id: 0,
        subject_id: subject,
        title: "hi".to_string(),
        content: "http://example".to_string(),
        type_: SubjectMessageType::Link,
    };
    assert_eq!(admin().post_subject_messages(&mut db, &link, 50).err(), Some(ApiError::Validation));
}

#[test]
fn homework_submission_delete_reports_backing_file() {
    let (mut db, _t, student, _subject, homework) = homework_setup();
    let st = MySelf { role: Role::student, id: student };
    let sid = st.post_submission(&mut db, homework, "uploads/hw.pdf".to_string()).unwrap();
    let removed = st.delete_submission(&mut db, sid).unwrap();
    assert_eq!(removed.as_deref(), Some("uploads/hw.pdf"));
    assert_eq!(db.homework_submissions.len(), 0);
}
