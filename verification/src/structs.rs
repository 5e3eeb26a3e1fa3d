//! Data model: the caller's identity, the role enumeration, and the row and
//! payload types of every entity the backend manages.
//!
//! Dates are held as day numbers, instants as unix timestamps, times of day
//! as minutes since midnight, and grade values as hundredths of a point on
//! the 0-10 scale (10.00 is stored as 1000), so that every field is a plain
//! value the verifier can reason about.

use vstd::prelude::*;

verus! {

/// The five roles a caller can authenticate as.
#[allow(non_camel_case_types)]
#[derive(Clone, Copy, PartialEq, Eq, Structural, Debug)]
pub enum Role {
    admin,
    teacher,
    student,
    preceptor,
    father,
}

/// The authenticated identity of the caller: its user id and the role the
/// session was opened with.
#[derive(Clone, Copy, PartialEq, Eq, Structural, Debug)]
pub struct MySelf {
    pub role: Role,
    pub id: u64,
}

/// Constructor trait for an identity, kept for callers that build one from a
/// decoded token.
pub trait New: Sized {
    fn new(id: u64, role: Role) -> Self;
}

impl New for MySelf {
    fn new(id: u64, role: Role) -> (r: Self)
        ensures
            r.id == id,
            r.role == role,
    {
        MySelf { role, id }
    }
}

/// Copies an optional string, preserving its value exactly.
pub fn clone_opt_string(s: &Option<String>) -> (r: Option<String>)
    ensures
        r == *s,
{
    match s {
        Some(x) => Some(x.clone()),
        None => None,
    }
}

/// Copies an optional id, preserving its value exactly.
pub fn clone_opt_u64(s: &Option<u64>) -> (r: Option<u64>)
    ensures
        r == *s,
{
    match s {
        Some(x) => Some(*x),
        None => None,
    }
}

/// A stored account row.  The role a caller acts under comes from the roles
/// table, not from this row.
pub struct User {
    pub id: u64,
    pub password: String,
    pub email: String,
    pub role: Role,
    pub last_login: String,
}

/// Registration payload for a new account.
pub struct NewUser {
    pub password: String,
    pub email: String,
    pub role: Role,
}

/// Login payload without a role.
pub struct Credentials {
    pub email: String,
    pub password: String,
}

/// Login payload naming the role the session should be opened with.
pub struct CredentialsRole {
    pub email: String,
    pub password: String,
    pub role: Role,
}

/// Public projection of an account: what student listings expose.
pub struct PubUser {
    pub id: u64,
    pub photo: Option<String>,
    pub course_id: Option<u64>,
}

/// A stored account as the listing logic sees it: its id, optional course
/// membership, optional profile picture, and credentials.
pub struct UserRow {
    pub id: u64,
    pub email: String,
    pub password: String,
    pub course_id: Option<u64>,
    pub photo: Option<String>,
    pub last_login: String,
}

/// One granted role for one account.
pub struct RoleRow {
    pub user_id: u64,
    pub role: Role,
}

/// A family link: the father may see the linked student's records.
pub struct Family {
    pub father_id: u64,
    pub student_id: u64,
}

/// A course (one class group), possibly presided by a preceptor.
pub struct Course {
    pub id: u64,
    pub year: i32,
    pub division: String,
    pub level: String,
    pub shift: String,
    pub preceptor_id: Option<u64>,
    pub name: String,
}

/// A stored subject row: taught by one teacher inside one course.
pub struct SubjectRow {
    pub id: u64,
    pub name: String,
    pub teacher_id: u64,
    pub course_id: u64,
}

/// A subject as listings return it, with the name of its course joined in.
pub struct Subject {
    pub id: u64,
    pub name: String,
    pub teacher_id: u64,
    pub course_id: u64,
    pub course_name: String,
}

/// The kinds an assessment can have.
#[derive(Clone, Copy, PartialEq, Eq, Structural, Debug)]
pub enum AssessmentType {
    Exam,
    Homework,
    Project,
    Oral,
    Remedial,
    Selfassessable,
}

/// A stored assessment: a dated task inside one subject.
pub struct Assessment {
    pub id: u64,
    pub subject_id: u64,
    pub task: String,
    pub due_date: u64,
    pub created_at: u64,
    pub type_: AssessmentType,
}

/// Payload for creating an assessment.
pub struct NewTask {
    pub subject: u64,
    pub task: String,
    pub due_date: u64,
    pub type_: AssessmentType,
}

/// The ways a grade value may be interpreted.
#[derive(Clone, Copy, PartialEq, Eq, Structural, Debug)]
pub enum GradeType {
    Numerical,
    Conceptual,
    Percentage,
}

/// A stored grade.  `grade` holds hundredths of a point (0..=1000).
pub struct Grade {
    pub id: u64,
    pub description: Option<String>,
    pub grade: u32,
    pub student_id: u64,
    pub subject_id: u64,
    pub assessment_id: Option<u64>,
    pub grade_type: Option<GradeType>,
    pub created_at: Option<u64>,
}

/// Payload for creating a grade.  `grade` holds hundredths of a point.
pub struct NewGrade {
    pub subject: u64,
    pub assessment_id: Option<u64>,
    pub student_id: u64,
    pub grade_type: GradeType,
    pub description: String,
    pub grade: u32,
}

/// A broadcast message, fanned out to courses through `MessageCourse` rows.
pub struct Message {
    pub id: u64,
    pub title: String,
    pub message: String,
    pub sender_id: u64,
    pub created_at: Option<u64>,
}

/// Payload for creating a broadcast message; `courses` is the textual,
/// comma-separated list of target course ids as the client sent it.
pub struct NewMessage {
    pub courses: String,
    pub title: String,
    pub message: String,
}

/// One fan-out link between a broadcast message and a course.
pub struct MessageCourse {
    pub message_id: u64,
    pub course_id: u64,
}

/// The kinds a per-subject announcement can have.
#[derive(Clone, Copy, PartialEq, Eq, Structural, Debug)]
pub enum SubjectMessageType {
    Message,
    Link,
    File,
}

/// A stored per-subject announcement.  For the `File` kind, `content` holds
/// the path of the stored file.
pub struct SubjectMessage {
    pub id: u64,
    pub sender_id: u64,
    pub subject_id: u64,
    pub title: String,
    pub content: String,
    pub created_at: u64,
    pub type_: SubjectMessageType,
}

/// Payload for creating a per-subject announcement.
pub struct NewSubjectMessage {
    pub sender_id: u64,
    pub subject_id: u64,
    pub title: String,
    pub content: String,
    pub type_: SubjectMessageType,
}

/// Patch for a broadcast message.
pub struct UpdateMessage {
    pub title: Option<String>,
    pub message: Option<String>,
}

/// A stored homework submission: one uploaded file per student and task.
pub struct HomeworkSubmission {
    pub id: u64,
    pub path: String,
    pub student_id: u64,
    pub task_id: u64,
}

/// A quiz attached one-to-one to an assessment of the self-assessable kind.
pub struct Quiz {
    pub id: u64,
    pub assessment_id: u64,
}

/// A stored quiz question with its correct option and one to four wrong
/// options.
pub struct SelfassessableTask {
    pub id: u64,
    pub selfassessable_id: u64,
    pub question: String,
    pub correct: String,
    pub incorrect1: String,
    pub incorrect2: Option<String>,
    pub incorrect3: Option<String>,
    pub incorrect4: Option<String>,
}

/// A quiz question as the owning teacher reads it back.
pub struct Selfassessable {
    pub id: u64,
    pub question: String,
    pub correct: String,
    pub incorrect1: String,
    pub incorrect2: Option<String>,
    pub incorrect3: Option<String>,
    pub incorrect4: Option<String>,
}

/// A quiz question as a student sees it: the options in a shuffled order
/// that never reveals which one is correct.
pub struct PublicSelfassessable {
    pub id: u64,
    pub question: String,
    pub op1: String,
    pub op2: String,
    pub op3: Option<String>,
    pub op4: Option<String>,
    pub op5: Option<String>,
}

/// Payload for creating a quiz: column-wise question, correct and incorrect
/// option lists that must all have the same length.
pub struct NewSelfassessable {
    pub questions: Vec<String>,
    pub correct: Vec<String>,
    pub incorrect1: Vec<String>,
    pub incorrect2: Option<Vec<String>>,
    pub incorrect3: Option<Vec<String>>,
    pub incorrect4: Option<Vec<String>>,
}

/// Payload for creating an assessment together with its quiz when the kind
/// is self-assessable.
pub struct Payload {
    pub newtask: NewTask,
    pub newselfassessable: Option<NewSelfassessable>,
}

/// Payload for answering a quiz.
pub struct NewSubmissionSelfAssessable {
    pub assessment_id: u64,
    pub answers: Vec<String>,
}

/// A stored quiz submission; `answers` is the comma-joined answer list.
pub struct SelfassessableResponse {
    pub id: u64,
    pub selfassessable_id: u64,
    pub answers: String,
    pub student_id: u64,
}

/// A staged quiz result, promoted to a permanent grade by the sweep once the
/// owning assessment's due date has passed.  `grade` holds hundredths.
pub struct PendingSelfassessableGrade {
    pub id: u64,
    pub selfassessable_id: u64,
    pub student_id: u64,
    pub grade: u32,
}

/// A stored attendance record.
pub struct Assistance {
    pub id: u64,
    pub student_id: u64,
    pub presence: String,
    pub date: u64,
}

/// Payload for creating an attendance record.
pub struct NewAssistance {
    pub student_id: u64,
    pub presence: String,
    pub date: u64,
}

/// Replacement values for an attendance record.
pub struct UpdateAssistance {
    pub student_id: u64,
    pub presence: String,
    pub date: u64,
}

/// A stored disciplinary sanction.
pub struct DisciplinarySanction {
    pub id: u64,
    pub student_id: u64,
    pub sanction_type: String,
    pub quantity: i32,
    pub description: String,
    pub date: u64,
}

/// Payload for creating a disciplinary sanction.
pub struct NewDisciplinarySanction {
    pub student_id: u64,
    pub sanction_type: String,
    pub quantity: i32,
    pub description: String,
    pub date: u64,
}

/// Replacement values for a disciplinary sanction.
pub struct UpdateDisciplinarySanction {
    pub sanction_type: String,
    pub quantity: i32,
    pub description: String,
    pub date: u64,
}

/// A stored timetable slot.  Times are minutes since midnight.
pub struct Timetable {
    pub id: u64,
    pub course_id: u64,
    pub subject_id: u64,
    pub day: String,
    pub start_time: u32,
    pub end_time: u32,
}

/// A stored personal-data row, one-to-one with an account.
pub struct PersonalDataRow {
    pub user_id: u64,
    pub full_name: String,
    pub phone_number: String,
    pub address: String,
    pub birth_date: u64,
}

/// Personal data as the owning caller reads it.
pub struct PersonalData {
    pub full_name: String,
    pub phone_number: String,
    pub address: String,
    pub birth_date: u64,
}

/// Public projection of personal data for people search.
pub struct PublicPersonalData {
    pub full_name: String,
    pub photo: Option<String>,
}

/// Response wrapper for a profile-picture URL.
pub struct PhotoUrlResponse {
    pub url: String,
}

/// One notification recipient: the address and name the mail collaborator
/// formats a message for.
pub struct Recipient {
    pub email: String,
    pub full_name: String,
}

/// Patch for an account.
pub struct UpdateUser {
    pub password: Option<String>,
    pub email: Option<String>,
    pub role: Option<Role>,
}

/// Patch for a course.
pub struct UpdateCourse {
    pub year: Option<i32>,
    pub division: Option<String>,
    pub level: Option<String>,
    pub shift: Option<String>,
    pub preceptor_id: Option<u64>,
}

/// Patch for a grade; `grade` holds hundredths of a point.
pub struct UpdateGrade {
    pub description: Option<String>,
    pub grade: Option<u32>,
    pub student_id: Option<u64>,
    pub subject_id: Option<u64>,
    pub assessment_id: Option<u64>,
    pub grade_type: Option<GradeType>,
}

/// Patch for a subject.
pub struct UpdateSubject {
    pub name: Option<String>,
    pub teacher_id: Option<u64>,
    pub course_id: Option<u64>,
}

/// Patch for an assessment.
pub struct UpdateAssessment {
    pub subject_id: Option<u64>,
    pub task: Option<String>,
    pub due_date: Option<u64>,
    pub type_: Option<AssessmentType>,
}

/// Patch for a timetable slot.
pub struct UpdateTimetable {
    pub course_id: Option<u64>,
    pub subject_id: Option<u64>,
    pub day: Option<String>,
    pub start_time: Option<u32>,
    pub end_time: Option<u32>,
}

/// Patch for a personal-data row.
pub struct UpdatePersonalData {
    pub full_name: Option<String>,
    pub phone_number: Option<String>,
    pub address: Option<String>,
    pub birth_date: Option<u64>,
}

/// Patch for a per-subject announcement.
pub struct UpdateSubjectMessage {
    pub title: Option<String>,
    pub content: Option<String>,
    pub type_: Option<SubjectMessageType>,
}

/// Patch for a homework submission.
pub struct UpdateSubmission {
    pub path: Option<String>,
    pub student_id: Option<u64>,
    pub task_id: Option<u64>,
}

/// Request body naming a homework task.
pub struct HomeworkId {
    pub homework_id: u64,
}

/// Request body naming a quiz.
pub struct SelfassessableId {
    pub selfassessable_id: u64,
}

impl Clone for Course {
    fn clone(&self) -> (r: Self)
        ensures
            r == *self,
    {
        Course {
            id: self.id,
            year: self.year,
            division: self.division.clone(),
            level: self.level.clone(),
            shift: self.shift.clone(),
            preceptor_id: clone_opt_u64(&self.preceptor_id),
            name: self.name.clone(),
        }
    }
}

impl Clone for Assessment {
    fn clone(&self) -> (r: Self)
        ensures
            r == *self,
    {
        Assessment {
            id: self.id,
            subject_id: self.subject_id,
            task: self.task.clone(),
            due_date: self.due_date,
            created_at: self.created_at,
            type_: self.type_,
        }
    }
}

impl Clone for Grade {
    fn clone(&self) -> (r: Self)
        ensures
            r == *self,
    {
        Grade {
            id: self.id,
            description: clone_opt_string(&self.description),
            grade: self.grade,
            student_id: self.student_id,
            subject_id: self.subject_id,
            assessment_id: clone_opt_u64(&self.assessment_id),
            grade_type: match self.grade_type {
                Some(g) => Some(g),
                None => None,
            },
            created_at: clone_opt_u64(&self.created_at),
        }
    }
}

impl Clone for Message {
    fn clone(&self) -> (r: Self)
        ensures
            r == *self,
    {
        Message {
            id: self.id,
            title: self.title.clone(),
            message: self.message.clone(),
            sender_id: self.sender_id,
            created_at: clone_opt_u64(&self.created_at),
        }
    }
}

impl Clone for SubjectMessage {
    fn clone(&self) -> (r: Self)
        ensures
            r == *self,
    {
        SubjectMessage {
            id: self.id,
            sender_id: self.sender_id,
            subject_id: self.subject_id,
            title: self.title.clone(),
            content: self.content.clone(),
            created_at: self.created_at,
            type_: self.type_,
        }
    }
}

impl Clone for Timetable {
    fn clone(&self) -> (r: Self)
        ensures
            r == *self,
    {
        Timetable {
            id: self.id,
            course_id: self.course_id,
            subject_id: self.subject_id,
            day: self.day.clone(),
            start_time: self.start_time,
            end_time: self.end_time,
        }
    }
}

impl Clone for Assistance {
    fn clone(&self) -> (r: Self)
        ensures
            r == *self,
    {
        Assistance {
            id: self.id,
            student_id: self.student_id,
            presence: self.presence.clone(),
            date: self.date,
        }
    }
}

impl Clone for DisciplinarySanction {
    fn clone(&self) -> (r: Self)
        ensures
            r == *self,
    {
        DisciplinarySanction {
            id: self.id,
            student_id: self.student_id,
            sanction_type: self.sanction_type.clone(),
            quantity: self.quantity,
            description: self.description.clone(),
            date: self.date,
        }
    }
}

impl Clone for SelfassessableResponse {
    fn clone(&self) -> (r: Self)
        ensures
            r == *self,
    {
        SelfassessableResponse {
            id: self.id,
            selfassessable_id: self.selfassessable_id,
            answers: self.answers.clone(),
            student_id: self.student_id,
        }
    }
}

impl Clone for PendingSelfassessableGrade {
    fn clone(&self) -> (r: Self)
        ensures
            r == *self,
    {
        PendingSelfassessableGrade {
            id: self.id,
            selfassessable_id: self.selfassessable_id,
            student_id: self.student_id,
            grade: self.grade,
        }
    }
}

} // verus!
