use school_core::auth::Claims;
use school_core::filters::{
    AssessmentFilter, SubjectFilter, TimetableFilter, UserFilter,
};
use school_core::school::School;
use school_core::structs::{
    AssessmentType, MySelf, New, NewTask, Payload, Role, UpdateAssistance, UpdatePersonalData,
};
use school_core::text::{ci_contains_exec, join_commas, parse_courses};
use school_core::uploads::{validate_content_type, validate_upload};
use school_core::ApiError;

fn admin() -> MySelf {
    MySelf { role: Role::admin, id: 0 }
}

#[test]
fn parse_courses_keeps_numeric_tokens_in_order() {
    assert_eq!(parse_courses("1,2,3"), vec![1, 2, 3]);
    assert_eq!(parse_courses(" 4 ,junk, +5 ,"), vec![4, 5]);
    assert_eq!(parse_courses(""), Vec::<u64>::new());
    assert_eq!(parse_courses("nope"), Vec::<u64>::new());
    assert_eq!(parse_courses("12"), vec![12]);
    assert_eq!(parse_courses("99999999999999999999999999"), Vec::<u64>::new());
    assert_eq!(parse_courses("18446744073709551615"), vec![u64::MAX]);
}

#[test]
fn case_insensitive_containment() {
    assert!(ci_contains_exec("Mathematics", "MATH"));
    assert!(ci_contains_exec("Mathematics", ""));
    assert!(!ci_contains_exec("Mathematics", "physics"));
    assert!(ci_contains_exec("a", "A"));
    assert!(!ci_contains_exec("", "a"));
}

#[test]
fn join_commas_matches_storage_format() {
    let v = vec!["a".to_string(), "b".to_string(), "c".to_string()];
    assert_eq!(join_commas(&v), "a,b,c");
    assert_eq!(join_commas(&vec!["solo".to_string()]), "solo");
    assert_eq!(join_commas(&Vec::new()), "");
}

#[test]
fn claims_carry_the_identity() {
    let me = MySelf::new(7, Role::preceptor);
    let claims = Claims::new(me);
    assert_eq!(claims.user.id, 7);
    assert!(matches!(claims.user.role, Role::preceptor));
}

#[test]
fn roles_and_login_lookup() {
    let mut db = School::empty();
    let uid = db.insert_user("who@school".to_string(), "hash".to_string(), None).unwrap();
    db.insert_role(uid, Role::teacher);
    db.insert_role(uid, Role::preceptor);
    assert!(db.has_role(uid, Role::teacher));
    assert!(!db.has_role(uid, Role::admin));
    let roles = db.roles_of_user(uid);
    assert_eq!(roles.len(), 2);
    assert!(matches!(roles[0], Role::teacher));
    assert!(matches!(roles[1], Role::preceptor));
    let pos = db.user_pos_by_email(&"who@school".to_string());
    assert!(pos.is_some());
    assert_eq!(db.users[pos.unwrap()].password, "hash");
    assert!(db.user_pos_by_email(&"nobody@school".to_string()).is_none());
}

#[test]
fn personal_data_lifecycle() {
    let mut db = School::empty();
    let uid = db.insert_user("p@school".to_string(), "pw".to_string(), None).unwrap();
    let r = db.insert_personal_data(
        uid,
        "Ada Lovelace".to_string(),
        "555".to_string(),
        "Somewhere 1".to_string(),
        700000,
    );
    assert!(r.is_ok());
    let dup = db.insert_personal_data(
        uid,
        "Ada".to_string(),
        "555".to_string(),
        "Somewhere 1".to_string(),
        700000,
    );
    assert_eq!(dup, Err(ApiError::Conflict));
    let me = MySelf { role: Role::student, id: uid };
    let pd = me.get_personal_data(&db).unwrap();
    assert_eq!(pd.full_name, "Ada Lovelace");
    let nobody = MySelf { role: Role::student, id: 9999 };
    assert_eq!(nobody.get_personal_data(&db).err(), Some(ApiError::NotFound));

    let patch = UpdatePersonalData {
        full_name: None,
        phone_number: Some("556".to_string()),
        address: None,
        birth_date: None,
    };
    assert_eq!(me.update_personal_data(&mut db, uid, &patch).err(), Some(ApiError::Unauthorized));
    assert!(admin().update_personal_data(&mut db, uid, &patch).is_ok());
    let pd = me.get_personal_data(&db).unwrap();
    assert_eq!(pd.phone_number, "556");
    assert_eq!(pd.full_name, "Ada Lovelace");

    let found = me.get_public_personal_data(
        &db,
        &UserFilter { course: None, name: Some("lovelace".to_string()), user_id: None },
    );
    assert_eq!(found.len(), 1);
    assert_eq!(found[0].full_name, "Ada Lovelace");

    assert!(admin().delete_personal_data(&mut db, uid).is_ok());
    assert_eq!(me.get_personal_data(&db).err(), Some(ApiError::NotFound));
}

#[test]
fn profile_picture_lifecycle() {
    let mut db = School::empty();
    let uid = db.insert_user("p@school".to_string(), "pw".to_string(), None).unwrap();
    let me = MySelf { role: Role::student, id: uid };
    assert_eq!(me.get_profile_picture(&db), None);
    me.post_profile_picture(&mut db, Some("pics/me.png".to_string()));
    assert_eq!(me.get_profile_picture(&db).as_deref(), Some("pics/me.png"));
    let other = MySelf { role: Role::student, id: 9999 };
    assert_eq!(
        other.update_profile_picture(&mut db, uid, Some("x.png".to_string())).err(),
        Some(ApiError::Unauthorized)
    );
    assert!(me.delete_profile_picture(&mut db, uid).is_ok());
    assert_eq!(me.get_profile_picture(&db), None);
}

#[test]
fn assessments_listing_with_filters_and_person_filter_rejection() {
    let mut db = School::empty();
    let teacher = db.insert_user("t@school".to_string(), "pw".to_string(), None).unwrap();
    let course = db
        .insert_course(1, "A".to_string(), "sec".to_string(), "m".to_string(), None, "1A".to_string())
        .unwrap();
    let student = db.insert_user("s@school".to_string(), "pw".to_string(), Some(course)).unwrap();
    let subject = db.insert_subject("Chemistry".to_string(), teacher, course).unwrap();
    let t = MySelf { role: Role::teacher, id: teacher };
    for (task, due) in [("early lab", 10u64), ("late lab", 100u64)] {
        let r = t.post_assessment(
            &mut db,
            &Payload {
                newtask: NewTask {
                    subject,
                    task: task.to_string(),
                    due_date: due,
                    type_: AssessmentType::Exam,
                },
                newselfassessable: None,
            },
            5,
        );
        assert!(r.is_ok());
    }
    let no_sf = SubjectFilter { teacher_id: None, course_id: None, name: None, subject_id: None };
    let no_pf = UserFilter { course: None, name: None, user_id: None };
    let st = MySelf { role: Role::student, id: student };
    let all = st
        .get_assessments(
            &db,
            &AssessmentFilter { subject_id: None, task: None, due: None },
            &no_sf,
            &no_pf,
            50,
        )
        .unwrap();
    assert_eq!(all.len(), 2);
    let due_only = st
        .get_assessments(
            &db,
            &AssessmentFilter { subject_id: None, task: None, due: Some(true) },
            &no_sf,
            &no_pf,
            50,
        )
        .unwrap();
    assert_eq!(due_only.len(), 1);
    assert_eq!(due_only[0].task, "late lab");
    let by_task = st
        .get_assessments(
            &db,
            &AssessmentFilter { subject_id: None, task: Some("EARLY".to_string()), due: None },
            &no_sf,
            &no_pf,
            50,
        )
        .unwrap();
    assert_eq!(by_task.len(), 1);
    let rejected = st.get_assessments(
        &db,
        &AssessmentFilter { subject_id: None, task: None, due: None },
        &no_sf,
        &UserFilter { course: None, name: Some("x".to_string()), user_id: None },
        50,
    );
    assert_eq!(rejected.err(), Some(ApiError::Validation));
    let outsider = db.insert_user("o@school".to_string(), "pw".to_string(), None).unwrap();
    let out = MySelf { role: Role::student, id: outsider };
    let empty = out
        .get_assessments(
            &db,
            &AssessmentFilter { subject_id: None, task: None, due: None },
            &no_sf,
            &no_pf,
            50,
        )
        .unwrap();
    assert_eq!(empty.len(), 0);
}

#[test]
fn timetables_by_role_and_day_filter() {
    let mut db = School::empty();
    let teacher = db.insert_user("t@school".to_string(), "pw".to_string(), None).unwrap();
    let course = db
        .insert_course(1, "A".to_string(), "sec".to_string(), "m".to_string(), None, "1A".to_string())
        .unwrap();
    let student = db.insert_user("s@school".to_string(), "pw".to_string(), Some(course)).unwrap();
    let subject = db.insert_subject("Music".to_string(), teacher, course).unwrap();
    db.insert_timetable(course, subject, "monday".to_string(), 480, 540).unwrap();
    db.insert_timetable(course, subject, "friday".to_string(), 600, 660).unwrap();
    let st = MySelf { role: Role::student, id: student };
    let no_tf = TimetableFilter { teacher_id: None, course_id: None, subject_id: None, day: None };
    assert_eq!(st.get_timetables(&db, &no_tf).len(), 2);
    let monday = st.get_timetables(
        &db,
        &TimetableFilter {
            teacher_id: None,
            course_id: None,
            subject_id: None,
            day: Some("monday".to_string()),
        },
    );
    assert_eq!(monday.len(), 1);
    assert_eq!(monday[0].start_time, 480);
    let outsider = db.insert_user("o@school".to_string(), "pw".to_string(), None).unwrap();
    let out = MySelf { role: Role::student, id: outsider };
    assert_eq!(out.get_timetables(&db, &no_tf).len(), 0);
}

#[test]
fn assistance_update_and_delete_authorization() {
    let mut db = School::empty();
    let preceptor = db.insert_user("p@school".to_string(), "pw".to_string(), None).unwrap();
    let course = db
        .insert_course(
            1,
            "A".to_string(),
            "sec".to_string(),
            "m".to_string(),
            Some(preceptor),
            "1A".to_string(),
        )
        .unwrap();
    let student = db.insert_user("s@school".to_string(), "pw".to_string(), Some(course)).unwrap();
    let p = MySelf { role: Role::preceptor, id: preceptor };
    let aid = p
        .post_assistance(
            &mut db,
            &school_core::structs::NewAssistance {
                student_id: student,
                presence: "absent".to_string(),
                date: 20,
            },
        )
        .unwrap();
    let patch = UpdateAssistance { student_id: student, presence: "present".to_string(), date: 20 };
    assert!(p.update_assistance(&mut db, aid, &patch).is_ok());
    assert_eq!(db.assistance[0].presence, "present");
    let st = MySelf { role: Role::student, id: student };
    assert_eq!(st.update_assistance(&mut db, aid, &patch).err(), Some(ApiError::Unauthorized));
    assert_eq!(st.delete_assistance(&mut db, aid).err(), Some(ApiError::Unauthorized));
    assert!(p.delete_assistance(&mut db, aid).is_ok());
    assert_eq!(db.assistance.len(), 0);
}

#[test]
fn upload_validation_checks_extension_and_size() {
    let allowed = vec!["pdf".to_string(), "docx".to_string()];
    let ok = validate_upload("report.v2.PDF", 1024, &allowed);
    assert_eq!(ok.unwrap(), "PDF");
    let bad_ext = validate_upload("image.png", 1024, &allowed);
    assert_eq!(bad_ext.err(), Some(ApiError::Validation));
    let no_dot = validate_upload("pdf", 1024, &allowed);
    assert_eq!(no_dot.unwrap(), "pdf");
    let too_big = validate_upload("report.pdf", 10 * 1024 * 1024 + 1, &allowed);
    assert_eq!(too_big.err(), Some(ApiError::Validation));
}

#[test]
fn notification_recipients_follow_course_membership() {
    let mut db = School::empty();
    let teacher = db.insert_user("t@school".to_string(), "pw".to_string(), None).unwrap();
    let course = db
        .insert_course(1, "A".to_string(), "sec".to_string(), "m".to_string(), None, "1A".to_string())
        .unwrap();
    let s1 = db.insert_user("s1@school".to_string(), "pw".to_string(), Some(course)).unwrap();
    let s2 = db.insert_user("s2@school".to_string(), "pw".to_string(), Some(course)).unwrap();
    db.insert_personal_data(s1, "One".to_string(), "1".to_string(), "a".to_string(), 1).unwrap();
    let subject = db.insert_subject("Geo".to_string(), teacher, course).unwrap();
    let by_subject = db.subject_recipients(subject);
    assert_eq!(by_subject.len(), 1);
    assert_eq!(by_subject[0].email, "s1@school");
    assert_eq!(by_subject[0].full_name, "One");
    db.insert_personal_data(s2, "Two".to_string(), "2".to_string(), "b".to_string(), 2).unwrap();
    let by_course = db.course_recipients(course);
    assert_eq!(by_course.len(), 2);
    assert_eq!(by_course[1].email, "s2@school");
}

#[test]
fn upload_content_type_must_be_on_the_allow_list() {
    let allowed = vec![
        "application/pdf".to_string(),
        "application/vnd.openxmlformats-officedocument.wordprocessingml.document".to_string(),
    ];
    assert_eq!(validate_content_type("application/pdf", &allowed), Ok(()));
    assert_eq!(
        validate_content_type("image/png", &allowed).err(),
        Some(ApiError::Validation)
    );
    // The comparison is exact: a differently cased type is a different type.
    assert_eq!(
        validate_content_type("Application/PDF", &allowed).err(),
        Some(ApiError::Validation)
    );
    assert_eq!(
        validate_content_type("application/pdf", &Vec::new()).err(),
        Some(ApiError::Validation)
    );
}
