//! Learning catalogue: the vocabulary of courses, enrolments, assessments,
//! certificates and virtual sessions.
use vstd::prelude::*;

verus! {

#[derive(Debug, Clone, Copy, PartialEq, Eq, Structural)]
pub enum ContentType {
    Video,
    Document,
    Presentation,
    Interactive,
    SCORM,
    Quiz,
    Survey,
    Assignment,
    ExternalLink,
    VirtualClassroom,
}

#[derive(Debug, Clone, Copy, PartialEq, Eq, Structural)]
pub enum DifficultyLevel {
    Beginner,
    Intermediate,
    Advanced,
    Expert,
}

#[derive(Debug, Clone, Copy, PartialEq, Eq, Structural)]
pub enum EnrollmentType {
    SelfDirected,
    Manager,
    Admin,
    Automatic,
}

#[derive(Debug, Clone, Copy, PartialEq, Eq, Structural)]
pub enum CourseStatus {
    Draft,
    Published,
    Archived,
    Deprecated,
}

#[derive(Debug, Clone, Copy, PartialEq, Eq, Structural)]
pub enum EnrollmentStatus {
    Enrolled,
    InProgress,
    Completed,
    Failed,
    Expired,
    Cancelled,
}

#[derive(Debug, Clone, Copy, PartialEq, Eq, Structural)]
pub enum ContentProgressStatus {
    NotStarted,
    InProgress,
    Completed,
    Failed,
}

#[derive(Debug, Clone, Copy, PartialEq, Eq, Structural)]
pub enum AssessmentType {
    Quiz,
    Exam,
    Survey,
    Practice,
    PreTest,
    PostTest,
}

#[derive(Debug, Clone, Copy, PartialEq, Eq, Structural)]
pub enum QuestionType {
    MultipleChoice,
    MultipleSelect,
    TrueFalse,
    FillBlank,
    ShortAnswer,
    Essay,
    Matching,
    Sequencing,
    Hotspot,
}

#[derive(Debug, Clone, Copy, PartialEq, Eq, Structural)]
pub enum AssessmentAttemptStatus {
    InProgress,
    Submitted,
    Graded,
    Abandoned,
}

#[derive(Debug, Clone, Copy, PartialEq, Eq, Structural)]
pub enum CertificateStatus {
    Active,
    Expired,
    Revoked,
}

#[derive(Debug, Clone, Copy, PartialEq, Eq, Structural)]
pub enum VirtualPlatform {
    Zoom,
    Teams,
    WebEx,
    GoogleMeet,
    Custom,
}

#[derive(Debug, Clone, Copy, PartialEq, Eq, Structural)]
pub enum VirtualSessionStatus {
    Scheduled,
    InProgress,
    Completed,
    Cancelled,
}

#[derive(Debug, Clone, Copy, PartialEq, Eq, Structural)]
pub enum AttendanceStatus {
    Registered,
    Attended,
    Partial,
    Absent,
}

/// Storage of the learning catalogue.
pub trait LearningRepository {}

/// Storage handle of the learning catalogue (holds no state).
pub struct SqliteLearningRepository;

impl LearningRepository for SqliteLearningRepository {}

/// Learning catalogue operations.
pub struct LearningService {
    repo: SqliteLearningRepository,
}

impl LearningService {
    pub fn new(repo: SqliteLearningRepository) -> (s: Self) {
        LearningService { repo }
    }
}

} // verus!
