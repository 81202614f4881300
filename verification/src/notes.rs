//! Notes attached to any entity: validation, note kinds and their texts,
//! edits and pinning.
use vstd::prelude::*;
use vstd::string::StringExecFns;
use crate::common::{all_ascii, ascii_lower_char, blank, is_blank, lowercase, new_id, text_eq,
    unicode_lowercase};

verus! {

#[derive(Debug, Clone, Copy, PartialEq, Eq, Structural)]
pub enum NoteType {
    General,
    Phone,
    Email,
    Meeting,
    Task,
    FollowUp,
    Important,
}

/// Storage handle of notes (holds no state).
pub struct NoteRepository;

pub struct NoteService {
    repo: NoteRepository,
}

/// Why a note request was refused.
#[derive(Debug, Clone, Copy, PartialEq, Eq, Structural)]
pub enum NoteError {
    EmptyContent,
    EmptyEntityType,
}

/// A note. Instants are milliseconds since the Unix epoch.
#[derive(Debug, Clone)]
pub struct Note {
    pub id: u128,
    pub created_by: Option<u128>,
    pub updated_by: Option<u128>,
    pub created_at_ms: i64,
    pub updated_at_ms: i64,
    pub entity_type: String,
    pub entity_id: u128,
    pub note_type: NoteType,
    pub title: Option<String>,
    pub content: String,
    pub is_private: bool,
    pub is_pinned: bool,
    pub reminder_at_ms: Option<i64>,
    pub reminded_at_ms: Option<i64>,
}

#[derive(Debug, Clone)]
pub struct CreateNoteRequest {
    pub entity_type: String,
    pub entity_id: u128,
    pub note_type: Option<String>,
    pub title: Option<String>,
    pub content: String,
    pub is_private: Option<bool>,
    pub reminder_at_ms: Option<i64>,
}

#[derive(Debug, Clone)]
pub struct UpdateNoteRequest {
    pub note_type: Option<String>,
    pub title: Option<String>,
    pub content: Option<String>,
    pub is_private: Option<bool>,
    pub is_pinned: Option<bool>,
    pub reminder_at_ms: Option<i64>,
}

/// The text shown for a note kind.
pub open spec fn note_type_name(t: NoteType) -> Seq<char> {
    match t {
        NoteType::General => "General"@,
        NoteType::Phone => "Phone"@,
        NoteType::Email => "Email"@,
        NoteType::Meeting => "Meeting"@,
        NoteType::Task => "Task"@,
        NoteType::FollowUp => "FollowUp"@,
        NoteType::Important => "Important"@,
    }
}

/// The note kind a text names, ignoring case; `General` for any other text.
pub open spec fn note_type_from_text(s: Seq<char>) -> NoteType {
    note_type_from_lowered(unicode_lowercase(s))
}

/// The note kind a lower-case text names; `General` for any other text.
pub open spec fn note_type_from_lowered(l: Seq<char>) -> NoteType {
    if l == "general"@ {
        NoteType::General
    } else if l == "phone"@ {
        NoteType::Phone
    } else if l == "email"@ {
        NoteType::Email
    } else if l == "meeting"@ {
        NoteType::Meeting
    } else if l == "task"@ {
        NoteType::Task
    } else if l == "followup"@ || l == "follow_up"@ || l == "follow-up"@ {
        NoteType::FollowUp
    } else if l == "important"@ {
        NoteType::Important
    } else {
        NoteType::General
    }
}

impl NoteType {
    /// The text shown for the kind.
    pub fn as_str(&self) -> (r: &'static str)
        ensures
            r@ == note_type_name(*self),
    {
        match self {
            NoteType::General => "General",
            NoteType::Phone => "Phone",
            NoteType::Email => "Email",
            NoteType::Meeting => "Meeting",
            NoteType::Task => "Task",
            NoteType::FollowUp => "FollowUp",
            NoteType::Important => "Important",
        }
    }

    /// The kind a text names, ignoring case (see `note_type_from_text`).
    pub fn parse(s: &str) -> (r: NoteType)
        ensures
            r == note_type_from_text(s@),
            all_ascii(s@) ==> r == note_type_from_lowered(s@.map_values(|c: char| ascii_lower_char(c))),
    {
        let l = lowercase(s);
        let l = l.as_str();
        if text_eq(l, "general") {
            NoteType::General
        } else if text_eq(l, "phone") {
            NoteType::Phone
        } else if text_eq(l, "email") {
            NoteType::Email
        } else if text_eq(l, "meeting") {
            NoteType::Meeting
        } else if text_eq(l, "task") {
            NoteType::Task
        } else if text_eq(l, "followup") || text_eq(l, "follow_up") || text_eq(l, "follow-up") {
            NoteType::FollowUp
        } else if text_eq(l, "important") {
            NoteType::Important
        } else {
            NoteType::General
        }
    }
}

/// The kind a request names, `General` when it names none.
pub open spec fn requested_type(t: Option<String>) -> NoteType {
    match t {
        Some(s) => note_type_from_text(s@),
        None => NoteType::General,
    }
}

impl NoteService {
    /// The one value of the service, which holds no state.
    pub closed spec fn the_service() -> Self {
        NoteService { repo: NoteRepository }
    }
}

impl Default for NoteService {
    /// The same service as `new`.
    fn default() -> (s: Self)
        ensures
            s == NoteService::the_service(),
    {
        Self::new()
    }
}

/// `NoteService` holds no state: every value of it is the one that `new` and
/// `default` give, so any two of them answer every call alike.
pub proof fn law_note_service_is_stateless(a: NoteService)
    ensures
        a == NoteService::the_service(),
{
}

impl NoteService {
    pub fn new() -> (s: Self)
        ensures
            s == NoteService::the_service(),
    {
        NoteService { repo: NoteRepository }
    }

    /// A new note from a request by `user_id`: its content and entity type
    /// must not be blank; its kind is the one named (`General` by default);
    /// it is public unless the request says otherwise, and not pinned.
    pub fn create(&self, req: CreateNoteRequest, user_id: u128, now_ms: i64) -> (r: Result<Note, NoteError>)
        ensures
            is_blank(req.content@) ==> r == Err::<Note, NoteError>(NoteError::EmptyContent),
            !is_blank(req.content@) && is_blank(req.entity_type@) ==> r == Err::<Note, NoteError>(NoteError::EmptyEntityType),
            !is_blank(req.content@) && !is_blank(req.entity_type@) ==> (r matches Ok(n) && {
                &&& n.entity_type == req.entity_type
                &&& n.entity_id == req.entity_id
                &&& n.note_type == requested_type(req.note_type)
                &&& n.title == req.title
                &&& n.content == req.content
                &&& n.is_private == match req.is_private { Some(p) => p, None => false }
                &&& !n.is_pinned
                &&& n.reminder_at_ms == req.reminder_at_ms
                &&& n.reminded_at_ms is None
                &&& n.created_by == Some(user_id)
                &&& n.updated_by is None
                &&& n.created_at_ms == now_ms
                &&& n.updated_at_ms == now_ms
            }),
    {
        if blank(req.content.as_str()) {
            return Err(NoteError::EmptyContent);
        }
        if blank(req.entity_type.as_str()) {
            return Err(NoteError::EmptyEntityType);
        }
        let note_type = match &req.note_type {
            Some(t) => NoteType::parse(t.as_str()),
            None => NoteType::General,
        };
        let is_private = match req.is_private {
            Some(p) => p,
            None => false,
        };
        Ok(Note {
            id: new_id(),
            created_by: Some(user_id),
            updated_by: None,
            created_at_ms: now_ms,
            updated_at_ms: now_ms,
            entity_type: req.entity_type,
            entity_id: req.entity_id,
            note_type,
            title: req.title,
            content: req.content,
            is_private,
            is_pinned: false,
            reminder_at_ms: req.reminder_at_ms,
            reminded_at_ms: None,
        })
    }

    /// A note edited by `user_id`: each field the request carries replaces
    /// the note's; new content must not be blank.
    pub fn update(&self, note: Note, req: UpdateNoteRequest, user_id: u128, now_ms: i64) -> (r: Result<Note, NoteError>)
        ensures
            (req.content matches Some(c) && is_blank(c@)) ==> r == Err::<Note, NoteError>(NoteError::EmptyContent),
            !(req.content matches Some(c) && is_blank(c@)) ==> (r matches Ok(n) && n == (Note {
                note_type: match req.note_type { Some(t) => note_type_from_text(t@), None => note.note_type },
                title: match req.title { Some(t) => Some(t), None => note.title },
                content: match req.content { Some(c) => c, None => note.content },
                is_private: match req.is_private { Some(p) => p, None => note.is_private },
                is_pinned: match req.is_pinned { Some(p) => p, None => note.is_pinned },
                reminder_at_ms: match req.reminder_at_ms { Some(t) => Some(t), None => note.reminder_at_ms },
                updated_at_ms: now_ms,
                updated_by: Some(user_id),
                ..note
            })),
    {
        let mut note = note;
        match &req.note_type {
            Some(t) => {
                note.note_type = NoteType::parse(t.as_str());
            },
            None => {},
        }
        match req.title {
            Some(t) => {
                note.title = Some(t);
            },
            None => {},
        }
        match req.content {
            Some(c) => {
                if blank(c.as_str()) {
                    return Err(NoteError::EmptyContent);
                }
                note.content = c;
            },
            None => {},
        }
        match req.is_private {
            Some(p) => {
                note.is_private = p;
            },
            None => {},
        }
        match req.is_pinned {
            Some(p) => {
                note.is_pinned = p;
            },
            None => {},
        }
        match req.reminder_at_ms {
            Some(t) => {
                note.reminder_at_ms = Some(t);
            },
            None => {},
        }
        note.updated_at_ms = now_ms;
        note.updated_by = Some(user_id);
        Ok(note)
    }

    /// A note pinned or unpinned by `user_id`.
    pub fn set_pinned(&self, note: Note, pinned: bool, user_id: u128, now_ms: i64) -> (r: Note)
        ensures
            r == (Note { is_pinned: pinned, updated_at_ms: now_ms, updated_by: Some(user_id), ..note }),
    {
        let mut note = note;
        note.is_pinned = pinned;
        note.updated_at_ms = now_ms;
        note.updated_by = Some(user_id);
        note
    }

    /// A note whose reminder went out at `now_ms`.
    pub fn mark_reminded(&self, note: Note, now_ms: i64) -> (r: Note)
        ensures
            r == (Note { reminded_at_ms: Some(now_ms), updated_at_ms: now_ms, ..note }),
    {
        let mut note = note;
        note.reminded_at_ms = Some(now_ms);
        note.updated_at_ms = now_ms;
        note
    }
}

/// The text shown for a note kind is ASCII and reads back as the same kind.
pub proof fn law_note_type_text_round_trip(t: NoteType)
    ensures
        all_ascii(note_type_name(t)),
        note_type_from_lowered(note_type_name(t).map_values(|c: char| ascii_lower_char(c))) == t,
{
    reveal_strlit("General");
    reveal_strlit("Phone");
    reveal_strlit("Email");
    reveal_strlit("Meeting");
    reveal_strlit("Task");
    reveal_strlit("FollowUp");
    reveal_strlit("Important");
    reveal_strlit("general");
    reveal_strlit("phone");
    reveal_strlit("email");
    reveal_strlit("meeting");
    reveal_strlit("task");
    reveal_strlit("followup");
    reveal_strlit("follow_up");
    reveal_strlit("follow-up");
    reveal_strlit("important");
    assert("general"@.len() == 7);
    assert("phone"@.len() == 5);
    assert("email"@.len() == 5);
    assert("meeting"@.len() == 7);
    assert("task"@.len() == 4);
    assert("followup"@.len() == 8);
    assert("follow_up"@.len() == 9);
    assert("follow-up"@.len() == 9);
    assert("important"@.len() == 9);
    assert("general"@[0] != "meeting"@[0]);
    assert("phone"@[0] != "email"@[0]);
    assert("follow_up"@[6] != "follow-up"@[6]);
    assert("follow_up"@[0] != "important"@[0]);
    assert("follow-up"@[0] != "important"@[0]);
    match t {
        NoteType::General => {
            assert("General"@.map_values(|c: char| ascii_lower_char(c)) =~= "general"@);
        },
        NoteType::Phone => {
            assert("Phone"@.map_values(|c: char| ascii_lower_char(c)) =~= "phone"@);
        },
        NoteType::Email => {
            assert("Email"@.map_values(|c: char| ascii_lower_char(c)) =~= "email"@);
        },
        NoteType::Meeting => {
            assert("Meeting"@.map_values(|c: char| ascii_lower_char(c)) =~= "meeting"@);
        },
        NoteType::Task => {
            assert("Task"@.map_values(|c: char| ascii_lower_char(c)) =~= "task"@);
        },
        NoteType::FollowUp => {
            assert("FollowUp"@.map_values(|c: char| ascii_lower_char(c)) =~= "followup"@);
        },
        NoteType::Important => {
            assert("Important"@.map_values(|c: char| ascii_lower_char(c)) =~= "important"@);
        },
    }
}

} // verus!
