//! Learning management: learning paths, assessment attempts and the
//! certificates issued when a course is completed.
use vstd::prelude::*;
use vstd::string::StringExecFns;
use crate::common::{in_time_range, new_id, now_millis, utc_stamp, uuid_hyphenated, uuid_text};
use crate::mrp::stamped;

verus! {

#[derive(Debug, Clone, Copy, PartialEq, Eq, Structural)]
pub enum CourseCategory {
    Compliance,
    Technical,
    Leadership,
    Sales,
    Safety,
    Onboarding,
    ProfessionalDevelopment,
    ProductTraining,
    SoftSkills,
    ITSecurity,
}

#[derive(Debug, Clone, Copy, PartialEq, Eq, Structural)]
pub enum DifficultyLevel {
    Beginner,
    Intermediate,
    Advanced,
    Expert,
}

#[derive(Debug, Clone, Copy, PartialEq, Eq, Structural)]
pub enum CourseFormat {
    Online,
    InPerson,
    Hybrid,
    SelfPaced,
    VirtualLive,
}

#[derive(Debug, Clone, Copy, PartialEq, Eq, Structural)]
pub enum CourseStatus {
    Draft,
    Published,
    Archived,
    Deprecated,
}

#[derive(Debug, Clone, Copy, PartialEq, Eq, Structural)]
pub enum ContentType {
    Video,
    Document,
    Quiz,
    Assignment,
    SCORM,
    Interactive,
    ExternalLink,
}

#[derive(Debug, Clone, Copy, PartialEq, Eq, Structural)]
pub enum EnrollmentStatus {
    Enrolled,
    InProgress,
    Completed,
    Failed,
    Expired,
    Cancelled,
}

#[derive(Debug, Clone, Copy, PartialEq, Eq, Structural)]
pub enum PathStatus {
    Active,
    Inactive,
    Archived,
}

#[derive(Debug, Clone, Copy, PartialEq, Eq, Structural)]
pub enum AssessmentType {
    Quiz,
    Exam,
    Survey,
    Certification,
    SkillAssessment,
}

#[derive(Debug, Clone, Copy, PartialEq, Eq, Structural)]
pub enum AssessmentStatus {
    Draft,
    Active,
    Closed,
}

#[derive(Debug, Clone, Copy, PartialEq, Eq, Structural)]
pub enum QuestionType {
    MultipleChoice,
    TrueFalse,
    ShortAnswer,
    Essay,
    Matching,
    FillBlank,
}

#[derive(Debug, Clone, Copy, PartialEq, Eq, Structural)]
pub enum AttemptStatus {
    InProgress,
    Submitted,
    Graded,
    TimedOut,
}

/// One answer offered by a multiple-choice question.
#[derive(Debug, Clone)]
pub struct QuestionOption {
    pub label: String,
    pub value: String,
    pub is_correct: bool,
}

/// A course's place in a learning path.
#[derive(Debug, Clone, Copy)]
pub struct LearningPathCourse {
    pub course_id: u128,
    pub sequence: i32,
    pub is_required: bool,
}

/// A sequence of courses aimed at a role.
#[derive(Debug, Clone)]
pub struct LearningPath {
    pub id: u128,
    pub name: String,
    pub description: Option<String>,
    pub target_role: Option<String>,
    pub courses: Vec<LearningPathCourse>,
    pub total_credits: i32,
    pub status: PathStatus,
    pub created_at_ms: i64,
}

/// Proof that an employee completed a course.
#[derive(Debug, Clone)]
pub struct Certificate {
    pub id: u128,
    pub employee_id: u128,
    pub course_id: u128,
    pub certificate_number: String,
    pub issued_at_ms: i64,
    pub expires_at_ms: Option<i64>,
    pub verification_code: String,
}

/// What an employee asks for when enrolling in a course.
#[derive(Debug, Clone, Copy)]
pub struct EnrollRequest {
    pub course_id: u128,
    pub employee_id: u128,
    pub due_date: Option<crate::common::CivilDate>,
}

/// Storage handle of the learning-management module (holds no state).
pub struct SqliteLMSRepository;

/// Learning-management operations.
pub struct LMSService {
    pub repo: SqliteLMSRepository,
}

/// Number of a certificate issued at `ms`: `CERT-` and the UTC stamp.
pub open spec fn certificate_number_of(ms: i64) -> Seq<char> {
    stamped(seq!['C', 'E', 'R', 'T', '-'], ms)
}

/// Number of the attempt that follows `previous` attempts, as a 32-bit
/// integer (wrapping as the cast `as i32` does).
pub open spec fn attempt_number_after(previous: int) -> i32 {
    (previous + 1) as i32
}

impl LMSService {
    pub fn new(repo: SqliteLMSRepository) -> (s: Self) {
        LMSService { repo }
    }

    /// An active learning path with no courses and no credits yet.
    pub fn create_learning_path(
        &self,
        name: String,
        description: Option<String>,
        target_role: Option<String>,
    ) -> (p: LearningPath)
        ensures
            p.name == name,
            p.description == description,
            p.target_role == target_role,
            p.courses@.len() == 0,
            p.total_credits == 0,
            p.status == PathStatus::Active,
    {
        LearningPath {
            id: new_id(),
            name,
            description,
            target_role,
            courses: Vec::new(),
            total_credits: 0,
            status: PathStatus::Active,
            created_at_ms: now_millis(),
        }
    }

    /// The number of a new attempt when `previous` attempts were made
    /// before: one more.
    pub fn next_attempt_number(&self, previous: usize) -> (n: i32)
        requires
            previous < usize::MAX,
        ensures
            n == attempt_number_after(previous as int),
    {
        #[verifier::truncate]
        let n: i32 = (previous + 1) as i32;
        n
    }

    /// The certificate an enrolment earns once its new status is known: one
    /// exactly when the status is `Completed`, numbered `CERT-` and the UTC
    /// stamp of its issue, never expiring, with a fresh verification code.
    pub fn certificate_for(
        &self,
        status: EnrollmentStatus,
        employee_id: u128,
        course_id: u128,
    ) -> (c: Option<Certificate>)
        ensures
            c is Some <==> status == EnrollmentStatus::Completed,
            c matches Some(cert) ==> {
                &&& cert.employee_id == employee_id
                &&& cert.course_id == course_id
                &&& in_time_range(cert.issued_at_ms as int)
                &&& cert.certificate_number@ == certificate_number_of(cert.issued_at_ms)
                &&& cert.expires_at_ms is None
                &&& exists|k: u128| cert.verification_code@ == #[trigger] uuid_hyphenated(k)
            },
    {
        match status {
            EnrollmentStatus::Completed => {
                let now = now_millis();
                let number = String::from_str("CERT-").concat(utc_stamp(now).as_str());
                let code_id = new_id();
                let code = uuid_text(code_id);
                proof {
                    reveal_strlit("CERT-");
                    assert("CERT-"@ =~= seq!['C', 'E', 'R', 'T', '-']);
                }
                Some(Certificate {
                    id: new_id(),
                    employee_id,
                    course_id,
                    certificate_number: number,
                    issued_at_ms: now,
                    expires_at_ms: None,
                    verification_code: code,
                })
            },
            _ => None,
        }
    }
}

} // verus!
