//! Notifications: building sent, scheduled and broadcast notifications,
//! rendering templates, user preferences and template records.
use vstd::prelude::*;
use vstd::string::StringExecFns;
use crate::common::{clone_opt_string, lemma_replace_absent, new_id, occurs_in, replace_all, replace_text,
    RecordStatus};

verus! {

#[derive(Debug, Clone, Copy, PartialEq, Eq, Structural)]
pub enum NotificationChannel {
    InApp,
    Email,
    SMS,
    Push,
    Slack,
    Teams,
    Webhook,
}

#[derive(Debug, Clone, Copy, PartialEq, Eq, Structural)]
pub enum NotificationPriority {
    Low,
    Normal,
    High,
    Urgent,
}

#[derive(Debug, Clone, Copy, PartialEq, Eq, Structural)]
pub enum NotificationStatus {
    Pending,
    Sent,
    Delivered,
    Failed,
    Read,
    Dismissed,
    Bounced,
}

#[derive(Debug, Clone, Copy, PartialEq, Eq, Structural)]
pub enum NotificationType {
    System,
    Alert,
    Reminder,
    Approval,
    Task,
    Message,
    Event,
    Report,
    Workflow,
    Security,
    Billing,
    Update,
}

#[derive(Debug, Clone, Copy, PartialEq, Eq, Structural)]
pub enum DigestFrequency {
    Immediate,
    Hourly,
    Daily,
    Weekly,
}

#[derive(Debug, Clone, Copy, PartialEq, Eq, Structural)]
pub enum BatchStatus {
    Draft,
    Scheduled,
    Processing,
    Completed,
    Cancelled,
    Failed,
}

#[derive(Debug, Clone, Copy, PartialEq, Eq, Structural)]
pub enum QueueStatus {
    Pending,
    Processing,
    Completed,
    Failed,
    Cancelled,
}

#[derive(Debug, Clone, Copy, PartialEq, Eq, Structural)]
pub enum DeviceType {
    IOS,
    Android,
    Web,
    Desktop,
}

/// Storage handle of notifications (holds no state).
pub struct SqliteNotificationRepository;

/// Storage handle of notification preferences (holds no state).
pub struct SqliteNotificationPreferenceRepository;

/// Storage handle of notification templates (holds no state).
pub struct SqliteNotificationTemplateRepository;

pub struct NotificationService {
    notification_repo: SqliteNotificationRepository,
    preference_repo: SqliteNotificationPreferenceRepository,
    template_repo: SqliteNotificationTemplateRepository,
}

pub struct NotificationPreferenceService {
    preference_repo: SqliteNotificationPreferenceRepository,
}

pub struct NotificationTemplateService {
    template_repo: SqliteNotificationTemplateRepository,
}

/// A notification (its data payload travels beside it). Instants are
/// milliseconds since the Unix epoch.
#[derive(Debug, Clone)]
pub struct Notification {
    pub id: u128,
    pub user_id: u128,
    pub notification_type: NotificationType,
    pub channel: NotificationChannel,
    pub priority: NotificationPriority,
    pub title: String,
    pub body: String,
    pub action_url: Option<String>,
    pub action_text: Option<String>,
    pub icon: Option<String>,
    pub image_url: Option<String>,
    pub template_id: Option<u128>,
    pub related_entity_type: Option<String>,
    pub related_entity_id: Option<u128>,
    pub scheduled_at_ms: Option<i64>,
    pub sent_at_ms: Option<i64>,
    pub delivered_at_ms: Option<i64>,
    pub read_at_ms: Option<i64>,
    pub dismissed_at_ms: Option<i64>,
    pub status: NotificationStatus,
    pub retry_count: i32,
    pub max_retries: i32,
    pub last_error: Option<String>,
    pub expires_at_ms: Option<i64>,
    pub created_at_ms: i64,
    pub updated_at_ms: i64,
}

#[derive(Debug, Clone)]
pub struct NotificationPreference {
    pub id: u128,
    pub user_id: u128,
    pub notification_type: NotificationType,
    pub channel: NotificationChannel,
    pub enabled: bool,
    pub priority_threshold: NotificationPriority,
    pub quiet_hours_start: Option<String>,
    pub quiet_hours_end: Option<String>,
    pub quiet_hours_timezone: Option<String>,
    pub digest_enabled: bool,
    pub digest_frequency: Option<DigestFrequency>,
    pub created_at_ms: i64,
    pub updated_at_ms: i64,
}


/// A notification template (its variable description travels beside it).
#[derive(Debug, Clone)]
pub struct NotificationTemplate {
    pub id: u128,
    pub name: String,
    pub code: String,
    pub notification_type: NotificationType,
    pub channel: NotificationChannel,
    pub subject_template: Option<String>,
    pub body_template: String,
    pub html_template: Option<String>,
    pub default_priority: NotificationPriority,
    pub status: RecordStatus,
    pub created_at_ms: i64,
    pub updated_at_ms: i64,
}

/// A template variable with its value already turned to text.
#[derive(Debug, Clone)]
pub struct TemplateVariable {
    pub name: String,
    pub value: String,
}

/// The placeholder a variable named `name` fills: `{{name}}`.
pub open spec fn placeholder(name: Seq<char>) -> Seq<char> {
    "{{"@ + name + "}}"@
}

/// `template` with the variables filled in one after the other, each
/// replacing every occurrence of its placeholder.
pub open spec fn rendered(template: Seq<char>, vars: Seq<TemplateVariable>) -> Seq<char>
    decreases vars.len(),
{
    if vars.len() == 0 {
        template
    } else {
        replace_all(rendered(template, vars.drop_last()), placeholder(vars.last().name@), vars.last().value@)
    }
}

/// A text with no `{{` in it renders unchanged, whatever the variables.
pub proof fn law_plain_text_renders_unchanged(template: Seq<char>, vars: Seq<TemplateVariable>)
    requires
        !occurs_in(template, seq!['{', '{']),
    ensures
        rendered(template, vars) == template,
    decreases vars.len(),
{
    if vars.len() > 0 {
        law_plain_text_renders_unchanged(template, vars.drop_last());
        let p = placeholder(vars.last().name@);
        reveal_strlit("{{");
        reveal_strlit("}}");
        if occurs_in(template, p) {
            let i = choose|i: int| 0 <= i && i + p.len() <= template.len() && #[trigger] template.subrange(i, i + p.len()) == p;
            assert(template.subrange(i, i + 2) =~= seq!['{', '{']);
        }
        lemma_replace_absent(template, p, vars.last().value@);
    }
}

/// Fills the variables into a template (see `rendered`).
pub fn render_template(template: &str, vars: &Vec<TemplateVariable>) -> (r: String)
    ensures
        r@ == rendered(template@, vars@),
{
    let mut result = String::from_str(template);
    let mut i: usize = 0;
    while i < vars.len()
        invariant
            i <= vars.len(),
            result@ == rendered(template@, vars@.take(i as int)),
        decreases vars.len() - i,
    {
        let v = &vars[i];
        let p = String::from_str("{{").concat(v.name.as_str()).concat("}}");
        proof {
            reveal_strlit("{{");
            reveal_strlit("}}");
            assert(p@.len() > 0);
            assert(vars@.take(i + 1).drop_last() =~= vars@.take(i as int));
        }
        result = replace_text(result.as_str(), p.as_str(), v.value.as_str());
        i = i + 1;
    }
    assert(vars@.take(vars.len() as int) =~= vars@);
    result
}

/// A notification as first stored: nothing delivered, read or dismissed,
/// no retries yet (three allowed), no error, no expiry.
pub open spec fn fresh_notification(
    n: Notification,
    user_id: u128,
    notification_type: NotificationType,
    channel: NotificationChannel,
    priority: NotificationPriority,
    title: String,
    body: String,
    action_url: Option<String>,
    action_text: Option<String>,
    scheduled_at_ms: Option<i64>,
    sent_at_ms: Option<i64>,
    status: NotificationStatus,
    now_ms: i64,
) -> bool {
    &&& n.user_id == user_id
    &&& n.notification_type == notification_type
    &&& n.channel == channel
    &&& n.priority == priority
    &&& n.title == title
    &&& n.body == body
    &&& n.action_url == action_url
    &&& n.action_text == action_text
    &&& n.icon is None
    &&& n.image_url is None
    &&& n.template_id is None
    &&& n.related_entity_type is None
    &&& n.related_entity_id is None
    &&& n.scheduled_at_ms == scheduled_at_ms
    &&& n.sent_at_ms == sent_at_ms
    &&& n.delivered_at_ms is None
    &&& n.read_at_ms is None
    &&& n.dismissed_at_ms is None
    &&& n.status == status
    &&& n.retry_count == 0
    &&& n.max_retries == 3
    &&& n.last_error is None
    &&& n.expires_at_ms is None
    &&& n.created_at_ms == now_ms
    &&& n.updated_at_ms == now_ms
}

impl NotificationService {
    /// The one value of the service, which holds no state.
    pub closed spec fn the_service() -> Self {
        NotificationService {
            notification_repo: SqliteNotificationRepository,
            preference_repo: SqliteNotificationPreferenceRepository,
            template_repo: SqliteNotificationTemplateRepository,
        }
    }
}

impl Default for NotificationService {
    /// The same service as `new`.
    fn default() -> (s: Self)
        ensures
            s == NotificationService::the_service(),
    {
        Self::new()
    }
}

/// `NotificationService` holds no state: every value of it is the one that `new` and
/// `default` give, so any two of them answer every call alike.
pub proof fn law_notification_service_is_stateless(a: NotificationService)
    ensures
        a == NotificationService::the_service(),
{
}

impl NotificationService {
    pub fn new() -> (s: Self)
        ensures
            s == NotificationService::the_service(),
    {
        NotificationService {
            notification_repo: SqliteNotificationRepository,
            preference_repo: SqliteNotificationPreferenceRepository,
            template_repo: SqliteNotificationTemplateRepository,
        }
    }

    /// A notification sent now: normal priority unless another is given.
    pub fn send(
        &self,
        user_id: u128,
        notification_type: NotificationType,
        channel: NotificationChannel,
        title: String,
        body: String,
        action_url: Option<String>,
        action_text: Option<String>,
        priority: Option<NotificationPriority>,
        now_ms: i64,
    ) -> (n: Notification)
        ensures
            fresh_notification(n, user_id, notification_type, channel,
                match priority { Some(p) => p, None => NotificationPriority::Normal },
                title, body, action_url, action_text, None, Some(now_ms), NotificationStatus::Sent, now_ms),
    {
        let priority = match priority {
            Some(p) => p,
            None => NotificationPriority::Normal,
        };
        Notification {
            id: new_id(),
            user_id,
            notification_type,
            channel,
            priority,
            title,
            body,
            action_url,
            action_text,
            icon: None,
            image_url: None,
            template_id: None,
            related_entity_type: None,
            related_entity_id: None,
            scheduled_at_ms: None,
            sent_at_ms: Some(now_ms),
            delivered_at_ms: None,
            read_at_ms: None,
            dismissed_at_ms: None,
            status: NotificationStatus::Sent,
            retry_count: 0,
            max_retries: 3,
            last_error: None,
            expires_at_ms: None,
            created_at_ms: now_ms,
            updated_at_ms: now_ms,
        }
    }

    /// A notification to be sent at `scheduled_at_ms`: pending, normal priority.
    pub fn schedule(
        &self,
        user_id: u128,
        notification_type: NotificationType,
        channel: NotificationChannel,
        title: String,
        body: String,
        scheduled_at_ms: i64,
        now_ms: i64,
    ) -> (n: Notification)
        ensures
            fresh_notification(n, user_id, notification_type, channel, NotificationPriority::Normal,
                title, body, None, None, Some(scheduled_at_ms), None, NotificationStatus::Pending, now_ms),
    {
        Notification {
            id: new_id(),
            user_id,
            notification_type,
            channel,
            priority: NotificationPriority::Normal,
            title,
            body,
            action_url: None,
            action_text: None,
            icon: None,
            image_url: None,
            template_id: None,
            related_entity_type: None,
            related_entity_id: None,
            scheduled_at_ms: Some(scheduled_at_ms),
            sent_at_ms: None,
            delivered_at_ms: None,
            read_at_ms: None,
            dismissed_at_ms: None,
            status: NotificationStatus::Pending,
            retry_count: 0,
            max_retries: 3,
            last_error: None,
            expires_at_ms: None,
            created_at_ms: now_ms,
            updated_at_ms: now_ms,
        }
    }

    /// One notification sent now to each user, in order, with the same
    /// content.
    pub fn broadcast(
        &self,
        user_ids: &Vec<u128>,
        notification_type: NotificationType,
        channel: NotificationChannel,
        title: &String,
        body: &String,
        now_ms: i64,
    ) -> (r: Vec<Notification>)
        ensures
            r.len() == user_ids.len(),
            forall|i: int| 0 <= i < r.len() ==> fresh_notification(#[trigger] r[i], user_ids[i], notification_type,
                channel, NotificationPriority::Normal, *title, *body, None, None, None, Some(now_ms),
                NotificationStatus::Sent, now_ms),
    {
        let mut out: Vec<Notification> = Vec::new();
        let mut i: usize = 0;
        while i < user_ids.len()
            invariant
                i <= user_ids.len(),
                out.len() == i,
                forall|k: int| 0 <= k < i ==> fresh_notification(#[trigger] out[k], user_ids[k], notification_type,
                    channel, NotificationPriority::Normal, *title, *body, None, None, None, Some(now_ms),
                    NotificationStatus::Sent, now_ms),
            decreases user_ids.len() - i,
        {
            let n = self.send(user_ids[i], notification_type, channel, title.clone(), body.clone(),
                None, None, None, now_ms);
            out.push(n);
            i = i + 1;
        }
        out
    }

    /// The title and body of a notification sent from `template` with
    /// `vars`: its subject (empty when it has none) and its body, rendered.
    pub fn render_from_template(&self, template: &NotificationTemplate, vars: &Vec<TemplateVariable>) -> (r: (String, String))
        ensures
            r.0@ == rendered(match template.subject_template { Some(s) => s@, None => Seq::empty() }, vars@),
            r.1@ == rendered(template.body_template@, vars@),
    {
        let subject = match &template.subject_template {
            Some(s) => s.clone(),
            None => String::new(),
        };
        (render_template(subject.as_str(), vars), render_template(template.body_template.as_str(), vars))
    }

    /// A notification sent now to `user_id` from `template`: of the
    /// template's type, channel and default priority, with its subject and
    /// body rendered with `vars` (see `render_from_template`).
    pub fn send_with_template(
        &self,
        user_id: u128,
        template: &NotificationTemplate,
        vars: &Vec<TemplateVariable>,
        now_ms: i64,
    ) -> (n: Notification)
        ensures
            fresh_notification(n, user_id, template.notification_type, template.channel,
                template.default_priority,
                n.title, n.body, None, None, None, Some(now_ms), NotificationStatus::Sent, now_ms),
            n.title@ == rendered(match template.subject_template { Some(s) => s@, None => Seq::empty() }, vars@),
            n.body@ == rendered(template.body_template@, vars@),
    {
        let (title, body) = self.render_from_template(template, vars);
        self.send(user_id, template.notification_type, template.channel, title, body, None, None,
            Some(template.default_priority), now_ms)
    }
}

impl NotificationPreferenceService {
    /// The one value of the service, which holds no state.
    pub closed spec fn the_service() -> Self {
        NotificationPreferenceService { preference_repo: SqliteNotificationPreferenceRepository }
    }
}

impl Default for NotificationPreferenceService {
    /// The same service as `new`.
    fn default() -> (s: Self)
        ensures
            s == NotificationPreferenceService::the_service(),
    {
        Self::new()
    }
}

/// `NotificationPreferenceService` holds no state: every value of it is the one that `new` and
/// `default` give, so any two of them answer every call alike.
pub proof fn law_notification_preference_service_is_stateless(a: NotificationPreferenceService)
    ensures
        a == NotificationPreferenceService::the_service(),
{
}

impl NotificationPreferenceService {
    pub fn new() -> (s: Self)
        ensures
            s == NotificationPreferenceService::the_service(),
    {
        NotificationPreferenceService { preference_repo: SqliteNotificationPreferenceRepository }
    }

    /// The preference to store: the existing one with `enabled` changed, or a
    /// new one with normal priority threshold, no quiet hours and no digest.
    pub fn set_preference(
        &self,
        existing: Option<NotificationPreference>,
        user_id: u128,
        notification_type: NotificationType,
        channel: NotificationChannel,
        enabled: bool,
        now_ms: i64,
    ) -> (p: NotificationPreference)
        ensures
            match existing {
                Some(e) => p == (NotificationPreference { enabled, ..e }),
                None => {
                    &&& p.user_id == user_id
                    &&& p.notification_type == notification_type
                    &&& p.channel == channel
                    &&& p.enabled == enabled
                    &&& p.priority_threshold == NotificationPriority::Normal
                    &&& p.quiet_hours_start is None
                    &&& p.quiet_hours_end is None
                    &&& p.quiet_hours_timezone is None
                    &&& !p.digest_enabled
                    &&& p.digest_frequency is None
                    &&& p.created_at_ms == now_ms
                    &&& p.updated_at_ms == now_ms
                },
            },
    {
        match existing {
            Some(e) => {
                let mut e = e;
                e.enabled = enabled;
                e
            },
            None => NotificationPreference {
                id: new_id(),
                user_id,
                notification_type,
                channel,
                enabled,
                priority_threshold: NotificationPriority::Normal,
                quiet_hours_start: None,
                quiet_hours_end: None,
                quiet_hours_timezone: None,
                digest_enabled: false,
                digest_frequency: None,
                created_at_ms: now_ms,
                updated_at_ms: now_ms,
            },
        }
    }

    /// Whether a notification is enabled: as its preference says, enabled
    /// when there is none.
    pub fn is_notification_enabled(&self, preference: &Option<NotificationPreference>) -> (r: bool)
        ensures
            r == match *preference { Some(p) => p.enabled, None => true },
    {
        match preference {
            Some(p) => p.enabled,
            None => true,
        }
    }
}

impl NotificationTemplateService {
    /// The one value of the service, which holds no state.
    pub closed spec fn the_service() -> Self {
        NotificationTemplateService { template_repo: SqliteNotificationTemplateRepository }
    }
}

impl Default for NotificationTemplateService {
    /// The same service as `new`.
    fn default() -> (s: Self)
        ensures
            s == NotificationTemplateService::the_service(),
    {
        Self::new()
    }
}

/// `NotificationTemplateService` holds no state: every value of it is the one that `new` and
/// `default` give, so any two of them answer every call alike.
pub proof fn law_notification_template_service_is_stateless(a: NotificationTemplateService)
    ensures
        a == NotificationTemplateService::the_service(),
{
}

impl NotificationTemplateService {
    pub fn new() -> (s: Self)
        ensures
            s == NotificationTemplateService::the_service(),
    {
        NotificationTemplateService { template_repo: SqliteNotificationTemplateRepository }
    }

    /// A new active template with normal default priority.
    pub fn create(
        &self,
        name: String,
        code: String,
        notification_type: NotificationType,
        channel: NotificationChannel,
        subject_template: Option<String>,
        body_template: String,
        html_template: Option<String>,
        now_ms: i64,
    ) -> (t: NotificationTemplate)
        ensures
            t.name == name,
            t.code == code,
            t.notification_type == notification_type,
            t.channel == channel,
            t.subject_template == subject_template,
            t.body_template == body_template,
            t.html_template == html_template,
            t.default_priority == NotificationPriority::Normal,
            t.status == RecordStatus::Active,
            t.created_at_ms == now_ms,
            t.updated_at_ms == now_ms,
    {
        NotificationTemplate {
            id: new_id(),
            name,
            code,
            notification_type,
            channel,
            subject_template,
            body_template,
            html_template,
            default_priority: NotificationPriority::Normal,
            status: RecordStatus::Active,
            created_at_ms: now_ms,
            updated_at_ms: now_ms,
        }
    }
}

/// A notification read at `now_ms`.
pub open spec fn read_at(n: Notification, now_ms: i64) -> Notification {
    Notification { status: NotificationStatus::Read, read_at_ms: Some(now_ms), updated_at_ms: now_ms, ..n }
}

/// A notification after user `user_id` marks all theirs read at `now_ms`:
/// read when it is theirs and sent, as it was otherwise.
pub open spec fn after_read_all(n: Notification, user_id: u128, now_ms: i64) -> Notification {
    if n.user_id == user_id && n.status == NotificationStatus::Sent {
        read_at(n, now_ms)
    } else {
        n
    }
}

impl NotificationService {
    /// A notification read at `now_ms`.
    pub fn mark_read(&self, n: Notification, now_ms: i64) -> (r: Notification)
        ensures
            r == read_at(n, now_ms),
    {
        let mut n = n;
        n.status = NotificationStatus::Read;
        n.read_at_ms = Some(now_ms);
        n.updated_at_ms = now_ms;
        n
    }

    /// A notification dismissed at `now_ms`.
    pub fn dismiss(&self, n: Notification, now_ms: i64) -> (r: Notification)
        ensures
            r == (Notification {
                status: NotificationStatus::Dismissed,
                dismissed_at_ms: Some(now_ms),
                updated_at_ms: now_ms,
                ..n
            }),
    {
        let mut n = n;
        n.status = NotificationStatus::Dismissed;
        n.dismissed_at_ms = Some(now_ms);
        n.updated_at_ms = now_ms;
        n
    }

    /// The notifications after user `user_id` marks all theirs read at
    /// `now_ms`: those of the user that were sent are read, every other one
    /// is left as it was (see `after_read_all`).
    pub fn mark_all_read(&self, ns: Vec<Notification>, user_id: u128, now_ms: i64) -> (r: Vec<Notification>)
        ensures
            r.len() == ns.len(),
            forall|i: int| 0 <= i < r.len() ==> #[trigger] r[i] == after_read_all(ns[i], user_id, now_ms),
    {
        let ghost orig = ns@;
        let mut rest = ns;
        let mut out: Vec<Notification> = Vec::new();
        while rest.len() > 0
            invariant
                out.len() + rest.len() == orig.len(),
                rest@ == orig.subrange(out.len() as int, orig.len() as int),
                forall|i: int| 0 <= i < out.len() ==> #[trigger] out[i] == after_read_all(orig[i], user_id, now_ms),
            decreases rest.len(),
        {
            let ghost k = out.len();
            let n = rest.remove(0);
            assert(n == orig[k as int]);
            assert(rest@ =~= orig.subrange(k + 1, orig.len() as int));
            let updated = if n.user_id == user_id && n.status == NotificationStatus::Sent {
                self.mark_read(n, now_ms)
            } else {
                n
            };
            out.push(updated);
        }
        out
    }
}

/// Marking all of a user's notifications read a second time changes
/// nothing: none of theirs is left sent.
pub proof fn law_read_all_settles(n: Notification, user_id: u128, first_ms: i64, again_ms: i64)
    ensures
        after_read_all(after_read_all(n, user_id, first_ms), user_id, again_ms) == after_read_all(
            n,
            user_id,
            first_ms,
        ),
{
}

/// Marking all of a user's notifications read never touches another user's.
pub proof fn law_read_all_keeps_others(n: Notification, user_id: u128, now_ms: i64)
    requires
        n.user_id != user_id,
    ensures
        after_read_all(n, user_id, now_ms) == n,
{
}

} // verus!
