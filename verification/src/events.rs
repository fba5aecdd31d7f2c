//! # Communication domain events
//!
//! Every state change of an aggregate emits one of these events. Each
//! implements [`DomainEvent`], which gives its wire type
//! (`communication.<aggregate>.<verb>`, e.g.
//! `communication.notice.created`), its schema version, the aggregate
//! type it belongs to, and the envelope fields: event id, aggregate
//! id, owning school and time of occurrence.
use vstd::prelude::*;

use crate::foundation::{
    derive_uuid_v5, uuid_v5, CalendarDate, CorrelationId, EventId, SchoolId, StudentId, Timestamp,
    UserId,
};
use crate::value_objects::{
    AbsentNotificationTimeSetupId, AudienceDescriptor, CallType, Channel, ChatConversationId,
    ChatGroupId, ChatGroupMessageRecipientId, ChatGroupMessageRemoveId, ChatGroupPrivacy,
    ChatGroupRole, ChatGroupType, ChatInvitationId, ChatInvitationTypeEnum, ChatInvitationTypeId,
    ChatMessageId, ChatStatus, ComplaintId, ComplaintSource, ComplaintStatus, ComplaintTypeId,
    ContactMessageId, CustomSmsSettingId, Destination, EmailAddress, EmailLogId, EmailSettingId,
    GatewayType, MailDriver, MessageId, MessageType, NoticeId, NoticeTitle, NotificationId,
    NotificationSettingId, NotificationType, PersonName, PhoneCallLogId, PhoneNumber,
    RequestMethod, SendMessageId, SmsGatewayId, SmsLogId, SmsTemplateId, SpeechSliderId,
    TemplateKey, TimeOfDay, Url,
};

verus! {

/// The UUID namespace from which `aggregate_id()` is derived (a v5
/// UUID of the acting user) for the events whose state has no typed
/// id: [`UserBlocked`], [`UserUnblocked`] and [`ChatStatusSet`]. The
/// derived id is stable across replays and unique to this crate.
pub const AGGREGATE_ID_NAMESPACE: u128 = 0x6f_d1_a1_4b_2c_7e_4b_2c_a9_8e_3f_4a_5b_6c;

/// The envelope every communication event exposes to the event bus.
pub trait DomainEvent {
    /// The wire type, `communication.<aggregate>.<verb>`.
    fn event_type(&self) -> &'static str;

    /// The payload schema version.
    fn schema_version(&self) -> u32;

    /// The aggregate type the event belongs to.
    fn aggregate_type(&self) -> &'static str;

    /// The unique id of this event.
    fn event_id(&self) -> EventId;

    /// The UUID of the aggregate the event belongs to.
    fn aggregate_id(&self) -> u128;

    /// The school (tenant) the event belongs to.
    fn school_id(&self) -> SchoolId;

    /// When the event occurred.
    fn occurred_at(&self) -> Timestamp;
}

// =============================================================================
// Notice events
// =============================================================================

/// Emitted when a new `Notice` is created.
#[derive(Debug, Clone, PartialEq)]
pub struct NoticeCreated {
    pub notice_id: NoticeId,
    pub title: NoticeTitle,
    pub notice_date: CalendarDate,
    pub publish_on: Option<CalendarDate>,
    pub audience: AudienceDescriptor,
    pub event_id: EventId,
    pub correlation_id: CorrelationId,
    pub occurred_at: Timestamp,
}

impl NoticeCreated {
    /// Builds the event from its fields.
    pub fn new(
        notice_id: NoticeId,
        title: NoticeTitle,
        notice_date: CalendarDate,
        publish_on: Option<CalendarDate>,
        audience: AudienceDescriptor,
        event_id: EventId,
        correlation_id: CorrelationId,
        occurred_at: Timestamp,
    ) -> (e: Self)
        ensures
            e.notice_id == notice_id,
            e.title == title,
            e.notice_date == notice_date,
            e.publish_on == publish_on,
            e.audience == audience,
            e.event_id == event_id,
            e.correlation_id == correlation_id,
            e.occurred_at == occurred_at,
    {
        NoticeCreated {
            notice_id,
            title,
            notice_date,
            publish_on,
            audience,
            event_id,
            correlation_id,
            occurred_at,
        }
    }
}

impl DomainEvent for NoticeCreated {
    fn event_type(&self) -> (t: &'static str)
        ensures
            t@ == "communication.notice.created"@,
    {
        "communication.notice.created"
    }

    fn schema_version(&self) -> (v: u32)
        ensures
            v == 1,
    {
        1
    }

    fn aggregate_type(&self) -> (t: &'static str)
        ensures
            t@ == "notice"@,
    {
        "notice"
    }

    fn event_id(&self) -> (id: EventId)
        ensures
            id == self.event_id,
    {
        self.event_id
    }

    fn aggregate_id(&self) -> (id: u128)
        ensures
            id == self.notice_id.value,
    {
        self.notice_id.as_uuid()
    }

    fn school_id(&self) -> (s: SchoolId)
        ensures
            s == self.notice_id.school_id,
    {
        self.notice_id.school_id()
    }

    fn occurred_at(&self) -> (t: Timestamp)
        ensures
            t == self.occurred_at,
    {
        self.occurred_at
    }
}

/// Emitted when a `Notice` is updated.
#[derive(Debug, Clone, PartialEq)]
pub struct NoticeUpdated {
    pub notice_id: NoticeId,
    pub changes: Vec<String>,
    pub event_id: EventId,
    pub correlation_id: CorrelationId,
    pub occurred_at: Timestamp,
}

impl NoticeUpdated {
    /// Builds the event from its fields.
    pub fn new(
        notice_id: NoticeId,
        changes: Vec<String>,
        event_id: EventId,
        correlation_id: CorrelationId,
        occurred_at: Timestamp,
    ) -> (e: Self)
        ensures
            e.notice_id == notice_id,
            e.changes == changes,
            e.event_id == event_id,
            e.correlation_id == correlation_id,
            e.occurred_at == occurred_at,
    {
        NoticeUpdated {
            notice_id,
            changes,
            event_id,
            correlation_id,
            occurred_at,
        }
    }
}

impl DomainEvent for NoticeUpdated {
    fn event_type(&self) -> (t: &'static str)
        ensures
            t@ == "communication.notice.updated"@,
    {
        "communication.notice.updated"
    }

    fn schema_version(&self) -> (v: u32)
        ensures
            v == 1,
    {
        1
    }

    fn aggregate_type(&self) -> (t: &'static str)
        ensures
            t@ == "notice"@,
    {
        "notice"
    }

    fn event_id(&self) -> (id: EventId)
        ensures
            id == self.event_id,
    {
        self.event_id
    }

    fn aggregate_id(&self) -> (id: u128)
        ensures
            id == self.notice_id.value,
    {
        self.notice_id.as_uuid()
    }

    fn school_id(&self) -> (s: SchoolId)
        ensures
            s == self.notice_id.school_id,
    {
        self.notice_id.school_id()
    }

    fn occurred_at(&self) -> (t: Timestamp)
        ensures
            t == self.occurred_at,
    {
        self.occurred_at
    }
}

/// Emitted when a `Notice` is published.
#[derive(Debug, Clone, PartialEq)]
pub struct NoticePublished {
    pub notice_id: NoticeId,
    pub published_at: Timestamp,
    pub event_id: EventId,
    pub correlation_id: CorrelationId,
    pub occurred_at: Timestamp,
}

impl NoticePublished {
    /// Builds the event from its fields.
    pub fn new(
        notice_id: NoticeId,
        published_at: Timestamp,
        event_id: EventId,
        correlation_id: CorrelationId,
        occurred_at: Timestamp,
    ) -> (e: Self)
        ensures
            e.notice_id == notice_id,
            e.published_at == published_at,
            e.event_id == event_id,
            e.correlation_id == correlation_id,
            e.occurred_at == occurred_at,
    {
        NoticePublished {
            notice_id,
            published_at,
            event_id,
            correlation_id,
            occurred_at,
        }
    }
}

impl DomainEvent for NoticePublished {
    fn event_type(&self) -> (t: &'static str)
        ensures
            t@ == "communication.notice.published"@,
    {
        "communication.notice.published"
    }

    fn schema_version(&self) -> (v: u32)
        ensures
            v == 1,
    {
        1
    }

    fn aggregate_type(&self) -> (t: &'static str)
        ensures
            t@ == "notice"@,
    {
        "notice"
    }

    fn event_id(&self) -> (id: EventId)
        ensures
            id == self.event_id,
    {
        self.event_id
    }

    fn aggregate_id(&self) -> (id: u128)
        ensures
            id == self.notice_id.value,
    {
        self.notice_id.as_uuid()
    }

    fn school_id(&self) -> (s: SchoolId)
        ensures
            s == self.notice_id.school_id,
    {
        self.notice_id.school_id()
    }

    fn occurred_at(&self) -> (t: Timestamp)
        ensures
            t == self.occurred_at,
    {
        self.occurred_at
    }
}

/// Emitted when a `Notice` is unpublished.
#[derive(Debug, Clone, PartialEq)]
pub struct NoticeUnpublished {
    pub notice_id: NoticeId,
    pub reason: Option<String>,
    pub event_id: EventId,
    pub correlation_id: CorrelationId,
    pub occurred_at: Timestamp,
}

impl NoticeUnpublished {
    /// Builds the event from its fields.
    pub fn new(
        notice_id: NoticeId,
        reason: Option<String>,
        event_id: EventId,
        correlation_id: CorrelationId,
        occurred_at: Timestamp,
    ) -> (e: Self)
        ensures
            e.notice_id == notice_id,
            e.reason == reason,
            e.event_id == event_id,
            e.correlation_id == correlation_id,
            e.occurred_at == occurred_at,
    {
        NoticeUnpublished {
            notice_id,
            reason,
            event_id,
            correlation_id,
            occurred_at,
        }
    }
}

impl DomainEvent for NoticeUnpublished {
    fn event_type(&self) -> (t: &'static str)
        ensures
            t@ == "communication.notice.unpublished"@,
    {
        "communication.notice.unpublished"
    }

    fn schema_version(&self) -> (v: u32)
        ensures
            v == 1,
    {
        1
    }

    fn aggregate_type(&self) -> (t: &'static str)
        ensures
            t@ == "notice"@,
    {
        "notice"
    }

    fn event_id(&self) -> (id: EventId)
        ensures
            id == self.event_id,
    {
        self.event_id
    }

    fn aggregate_id(&self) -> (id: u128)
        ensures
            id == self.notice_id.value,
    {
        self.notice_id.as_uuid()
    }

    fn school_id(&self) -> (s: SchoolId)
        ensures
            s == self.notice_id.school_id,
    {
        self.notice_id.school_id()
    }

    fn occurred_at(&self) -> (t: Timestamp)
        ensures
            t == self.occurred_at,
    {
        self.occurred_at
    }
}

/// Emitted when a `Notice` is deleted.
#[derive(Debug, Clone, PartialEq)]
pub struct NoticeDeleted {
    pub notice_id: NoticeId,
    pub event_id: EventId,
    pub correlation_id: CorrelationId,
    pub occurred_at: Timestamp,
}

impl NoticeDeleted {
    /// Builds the event from its fields.
    pub fn new(
        notice_id: NoticeId,
        event_id: EventId,
        correlation_id: CorrelationId,
        occurred_at: Timestamp,
    ) -> (e: Self)
        ensures
            e.notice_id == notice_id,
            e.event_id == event_id,
            e.correlation_id == correlation_id,
            e.occurred_at == occurred_at,
    {
        NoticeDeleted {
            notice_id,
            event_id,
            correlation_id,
            occurred_at,
        }
    }
}

impl DomainEvent for NoticeDeleted {
    fn event_type(&self) -> (t: &'static str)
        ensures
            t@ == "communication.notice.deleted"@,
    {
        "communication.notice.deleted"
    }

    fn schema_version(&self) -> (v: u32)
        ensures
            v == 1,
    {
        1
    }

    fn aggregate_type(&self) -> (t: &'static str)
        ensures
            t@ == "notice"@,
    {
        "notice"
    }

    fn event_id(&self) -> (id: EventId)
        ensures
            id == self.event_id,
    {
        self.event_id
    }

    fn aggregate_id(&self) -> (id: u128)
        ensures
            id == self.notice_id.value,
    {
        self.notice_id.as_uuid()
    }

    fn school_id(&self) -> (s: SchoolId)
        ensures
            s == self.notice_id.school_id,
    {
        self.notice_id.school_id()
    }

    fn occurred_at(&self) -> (t: Timestamp)
        ensures
            t == self.occurred_at,
    {
        self.occurred_at
    }
}

// =============================================================================
// Complaint events
// =============================================================================

/// Emitted when a new `Complaint` is registered.
#[derive(Debug, Clone, PartialEq)]
pub struct ComplaintRegistered {
    pub complaint_id: ComplaintId,
    pub complaint_type_id: ComplaintTypeId,
    pub complaint_source: ComplaintSource,
    pub date: CalendarDate,
    pub event_id: EventId,
    pub correlation_id: CorrelationId,
    pub occurred_at: Timestamp,
}

impl ComplaintRegistered {
    /// Builds the event from its fields.
    pub fn new(
        complaint_id: ComplaintId,
        complaint_type_id: ComplaintTypeId,
        complaint_source: ComplaintSource,
        date: CalendarDate,
        event_id: EventId,
        correlation_id: CorrelationId,
        occurred_at: Timestamp,
    ) -> (e: Self)
        ensures
            e.complaint_id == complaint_id,
            e.complaint_type_id == complaint_type_id,
            e.complaint_source == complaint_source,
            e.date == date,
            e.event_id == event_id,
            e.correlation_id == correlation_id,
            e.occurred_at == occurred_at,
    {
        ComplaintRegistered {
            complaint_id,
            complaint_type_id,
            complaint_source,
            date,
            event_id,
            correlation_id,
            occurred_at,
        }
    }
}

impl DomainEvent for ComplaintRegistered {
    fn event_type(&self) -> (t: &'static str)
        ensures
            t@ == "communication.complaint.registered"@,
    {
        "communication.complaint.registered"
    }

    fn schema_version(&self) -> (v: u32)
        ensures
            v == 1,
    {
        1
    }

    fn aggregate_type(&self) -> (t: &'static str)
        ensures
            t@ == "complaint"@,
    {
        "complaint"
    }

    fn event_id(&self) -> (id: EventId)
        ensures
            id == self.event_id,
    {
        self.event_id
    }

    fn aggregate_id(&self) -> (id: u128)
        ensures
            id == self.complaint_id.value,
    {
        self.complaint_id.as_uuid()
    }

    fn school_id(&self) -> (s: SchoolId)
        ensures
            s == self.complaint_id.school_id,
    {
        self.complaint_id.school_id()
    }

    fn occurred_at(&self) -> (t: Timestamp)
        ensures
            t == self.occurred_at,
    {
        self.occurred_at
    }
}

/// Emitted when a `Complaint` is assigned to a user.
#[derive(Debug, Clone, PartialEq)]
pub struct ComplaintAssigned {
    pub complaint_id: ComplaintId,
    pub assignee_user_id: UserId,
    pub event_id: EventId,
    pub correlation_id: CorrelationId,
    pub occurred_at: Timestamp,
}

impl ComplaintAssigned {
    /// Builds the event from its fields.
    pub fn new(
        complaint_id: ComplaintId,
        assignee_user_id: UserId,
        event_id: EventId,
        correlation_id: CorrelationId,
        occurred_at: Timestamp,
    ) -> (e: Self)
        ensures
            e.complaint_id == complaint_id,
            e.assignee_user_id == assignee_user_id,
            e.event_id == event_id,
            e.correlation_id == correlation_id,
            e.occurred_at == occurred_at,
    {
        ComplaintAssigned {
            complaint_id,
            assignee_user_id,
            event_id,
            correlation_id,
            occurred_at,
        }
    }
}

impl DomainEvent for ComplaintAssigned {
    fn event_type(&self) -> (t: &'static str)
        ensures
            t@ == "communication.complaint.assigned"@,
    {
        "communication.complaint.assigned"
    }

    fn schema_version(&self) -> (v: u32)
        ensures
            v == 1,
    {
        1
    }

    fn aggregate_type(&self) -> (t: &'static str)
        ensures
            t@ == "complaint"@,
    {
        "complaint"
    }

    fn event_id(&self) -> (id: EventId)
        ensures
            id == self.event_id,
    {
        self.event_id
    }

    fn aggregate_id(&self) -> (id: u128)
        ensures
            id == self.complaint_id.value,
    {
        self.complaint_id.as_uuid()
    }

    fn school_id(&self) -> (s: SchoolId)
        ensures
            s == self.complaint_id.school_id,
    {
        self.complaint_id.school_id()
    }

    fn occurred_at(&self) -> (t: Timestamp)
        ensures
            t == self.occurred_at,
    {
        self.occurred_at
    }
}

/// Emitted when the status of a `Complaint` changes.
#[derive(Debug, Clone, PartialEq)]
pub struct ComplaintStatusChanged {
    pub complaint_id: ComplaintId,
    pub from: ComplaintStatus,
    pub to: ComplaintStatus,
    pub event_id: EventId,
    pub correlation_id: CorrelationId,
    pub occurred_at: Timestamp,
}

impl ComplaintStatusChanged {
    /// Builds the event from its fields.
    pub fn new(
        complaint_id: ComplaintId,
        from: ComplaintStatus,
        to: ComplaintStatus,
        event_id: EventId,
        correlation_id: CorrelationId,
        occurred_at: Timestamp,
    ) -> (e: Self)
        ensures
            e.complaint_id == complaint_id,
            e.from == from,
            e.to == to,
            e.event_id == event_id,
            e.correlation_id == correlation_id,
            e.occurred_at == occurred_at,
    {
        ComplaintStatusChanged {
            complaint_id,
            from,
            to,
            event_id,
            correlation_id,
            occurred_at,
        }
    }
}

impl DomainEvent for ComplaintStatusChanged {
    fn event_type(&self) -> (t: &'static str)
        ensures
            t@ == "communication.complaint.status_changed"@,
    {
        "communication.complaint.status_changed"
    }

    fn schema_version(&self) -> (v: u32)
        ensures
            v == 1,
    {
        1
    }

    fn aggregate_type(&self) -> (t: &'static str)
        ensures
            t@ == "complaint"@,
    {
        "complaint"
    }

    fn event_id(&self) -> (id: EventId)
        ensures
            id == self.event_id,
    {
        self.event_id
    }

    fn aggregate_id(&self) -> (id: u128)
        ensures
            id == self.complaint_id.value,
    {
        self.complaint_id.as_uuid()
    }

    fn school_id(&self) -> (s: SchoolId)
        ensures
            s == self.complaint_id.school_id,
    {
        self.complaint_id.school_id()
    }

    fn occurred_at(&self) -> (t: Timestamp)
        ensures
            t == self.occurred_at,
    {
        self.occurred_at
    }
}

/// Emitted when a `Complaint` is resolved.
#[derive(Debug, Clone, PartialEq)]
pub struct ComplaintResolved {
    pub complaint_id: ComplaintId,
    pub action_taken: String,
    pub resolved_at: Timestamp,
    pub event_id: EventId,
    pub correlation_id: CorrelationId,
    pub occurred_at: Timestamp,
}

impl ComplaintResolved {
    /// Builds the event from its fields.
    pub fn new(
        complaint_id: ComplaintId,
        action_taken: String,
        resolved_at: Timestamp,
        event_id: EventId,
        correlation_id: CorrelationId,
        occurred_at: Timestamp,
    ) -> (e: Self)
        ensures
            e.complaint_id == complaint_id,
            e.action_taken == action_taken,
            e.resolved_at == resolved_at,
            e.event_id == event_id,
            e.correlation_id == correlation_id,
            e.occurred_at == occurred_at,
    {
        ComplaintResolved {
            complaint_id,
            action_taken,
            resolved_at,
            event_id,
            correlation_id,
            occurred_at,
        }
    }
}

impl DomainEvent for ComplaintResolved {
    fn event_type(&self) -> (t: &'static str)
        ensures
            t@ == "communication.complaint.resolved"@,
    {
        "communication.complaint.resolved"
    }

    fn schema_version(&self) -> (v: u32)
        ensures
            v == 1,
    {
        1
    }

    fn aggregate_type(&self) -> (t: &'static str)
        ensures
            t@ == "complaint"@,
    {
        "complaint"
    }

    fn event_id(&self) -> (id: EventId)
        ensures
            id == self.event_id,
    {
        self.event_id
    }

    fn aggregate_id(&self) -> (id: u128)
        ensures
            id == self.complaint_id.value,
    {
        self.complaint_id.as_uuid()
    }

    fn school_id(&self) -> (s: SchoolId)
        ensures
            s == self.complaint_id.school_id,
    {
        self.complaint_id.school_id()
    }

    fn occurred_at(&self) -> (t: Timestamp)
        ensures
            t == self.occurred_at,
    {
        self.occurred_at
    }
}

/// Emitted when a note is added to a `Complaint`.
#[derive(Debug, Clone, PartialEq)]
pub struct ComplaintNoteAdded {
    pub complaint_id: ComplaintId,
    pub note: String,
    pub author: UserId,
    pub event_id: EventId,
    pub correlation_id: CorrelationId,
    pub occurred_at: Timestamp,
}

impl ComplaintNoteAdded {
    /// Builds the event from its fields.
    pub fn new(
        complaint_id: ComplaintId,
        note: String,
        author: UserId,
        event_id: EventId,
        correlation_id: CorrelationId,
        occurred_at: Timestamp,
    ) -> (e: Self)
        ensures
            e.complaint_id == complaint_id,
            e.note == note,
            e.author == author,
            e.event_id == event_id,
            e.correlation_id == correlation_id,
            e.occurred_at == occurred_at,
    {
        ComplaintNoteAdded {
            complaint_id,
            note,
            author,
            event_id,
            correlation_id,
            occurred_at,
        }
    }
}

impl DomainEvent for ComplaintNoteAdded {
    fn event_type(&self) -> (t: &'static str)
        ensures
            t@ == "communication.complaint.note_added"@,
    {
        "communication.complaint.note_added"
    }

    fn schema_version(&self) -> (v: u32)
        ensures
            v == 1,
    {
        1
    }

    fn aggregate_type(&self) -> (t: &'static str)
        ensures
            t@ == "complaint"@,
    {
        "complaint"
    }

    fn event_id(&self) -> (id: EventId)
        ensures
            id == self.event_id,
    {
        self.event_id
    }

    fn aggregate_id(&self) -> (id: u128)
        ensures
            id == self.complaint_id.value,
    {
        self.complaint_id.as_uuid()
    }

    fn school_id(&self) -> (s: SchoolId)
        ensures
            s == self.complaint_id.school_id,
    {
        self.complaint_id.school_id()
    }

    fn occurred_at(&self) -> (t: Timestamp)
        ensures
            t == self.occurred_at,
    {
        self.occurred_at
    }
}

/// Emitted when a new `ComplaintType` is created.
#[derive(Debug, Clone, PartialEq)]
pub struct ComplaintTypeCreated {
    pub complaint_type_id: ComplaintTypeId,
    pub name: String,
    pub event_id: EventId,
    pub correlation_id: CorrelationId,
    pub occurred_at: Timestamp,
}

impl ComplaintTypeCreated {
    /// Builds the event from its fields.
    pub fn new(
        complaint_type_id: ComplaintTypeId,
        name: String,
        event_id: EventId,
        correlation_id: CorrelationId,
        occurred_at: Timestamp,
    ) -> (e: Self)
        ensures
            e.complaint_type_id == complaint_type_id,
            e.name == name,
            e.event_id == event_id,
            e.correlation_id == correlation_id,
            e.occurred_at == occurred_at,
    {
        ComplaintTypeCreated {
            complaint_type_id,
            name,
            event_id,
            correlation_id,
            occurred_at,
        }
    }
}

impl DomainEvent for ComplaintTypeCreated {
    fn event_type(&self) -> (t: &'static str)
        ensures
            t@ == "communication.complaint_type.created"@,
    {
        "communication.complaint_type.created"
    }

    fn schema_version(&self) -> (v: u32)
        ensures
            v == 1,
    {
        1
    }

    fn aggregate_type(&self) -> (t: &'static str)
        ensures
            t@ == "complaint_type"@,
    {
        "complaint_type"
    }

    fn event_id(&self) -> (id: EventId)
        ensures
            id == self.event_id,
    {
        self.event_id
    }

    fn aggregate_id(&self) -> (id: u128)
        ensures
            id == self.complaint_type_id.value,
    {
        self.complaint_type_id.as_uuid()
    }

    fn school_id(&self) -> (s: SchoolId)
        ensures
            s == self.complaint_type_id.school_id,
    {
        self.complaint_type_id.school_id()
    }

    fn occurred_at(&self) -> (t: Timestamp)
        ensures
            t == self.occurred_at,
    {
        self.occurred_at
    }
}

/// Emitted when a `ComplaintType` is updated.
#[derive(Debug, Clone, PartialEq)]
pub struct ComplaintTypeUpdated {
    pub complaint_type_id: ComplaintTypeId,
    pub changes: Vec<String>,
    pub event_id: EventId,
    pub correlation_id: CorrelationId,
    pub occurred_at: Timestamp,
}

impl ComplaintTypeUpdated {
    /// Builds the event from its fields.
    pub fn new(
        complaint_type_id: ComplaintTypeId,
        changes: Vec<String>,
        event_id: EventId,
        correlation_id: CorrelationId,
        occurred_at: Timestamp,
    ) -> (e: Self)
        ensures
            e.complaint_type_id == complaint_type_id,
            e.changes == changes,
            e.event_id == event_id,
            e.correlation_id == correlation_id,
            e.occurred_at == occurred_at,
    {
        ComplaintTypeUpdated {
            complaint_type_id,
            changes,
            event_id,
            correlation_id,
            occurred_at,
        }
    }
}

impl DomainEvent for ComplaintTypeUpdated {
    fn event_type(&self) -> (t: &'static str)
        ensures
            t@ == "communication.complaint_type.updated"@,
    {
        "communication.complaint_type.updated"
    }

    fn schema_version(&self) -> (v: u32)
        ensures
            v == 1,
    {
        1
    }

    fn aggregate_type(&self) -> (t: &'static str)
        ensures
            t@ == "complaint_type"@,
    {
        "complaint_type"
    }

    fn event_id(&self) -> (id: EventId)
        ensures
            id == self.event_id,
    {
        self.event_id
    }

    fn aggregate_id(&self) -> (id: u128)
        ensures
            id == self.complaint_type_id.value,
    {
        self.complaint_type_id.as_uuid()
    }

    fn school_id(&self) -> (s: SchoolId)
        ensures
            s == self.complaint_type_id.school_id,
    {
        self.complaint_type_id.school_id()
    }

    fn occurred_at(&self) -> (t: Timestamp)
        ensures
            t == self.occurred_at,
    {
        self.occurred_at
    }
}

/// Emitted when a `ComplaintType` is deleted.
#[derive(Debug, Clone, PartialEq)]
pub struct ComplaintTypeDeleted {
    pub complaint_type_id: ComplaintTypeId,
    pub event_id: EventId,
    pub correlation_id: CorrelationId,
    pub occurred_at: Timestamp,
}

impl ComplaintTypeDeleted {
    /// Builds the event from its fields.
    pub fn new(
        complaint_type_id: ComplaintTypeId,
        event_id: EventId,
        correlation_id: CorrelationId,
        occurred_at: Timestamp,
    ) -> (e: Self)
        ensures
            e.complaint_type_id == complaint_type_id,
            e.event_id == event_id,
            e.correlation_id == correlation_id,
            e.occurred_at == occurred_at,
    {
        ComplaintTypeDeleted {
            complaint_type_id,
            event_id,
            correlation_id,
            occurred_at,
        }
    }
}

impl DomainEvent for ComplaintTypeDeleted {
    fn event_type(&self) -> (t: &'static str)
        ensures
            t@ == "communication.complaint_type.deleted"@,
    {
        "communication.complaint_type.deleted"
    }

    fn schema_version(&self) -> (v: u32)
        ensures
            v == 1,
    {
        1
    }

    fn aggregate_type(&self) -> (t: &'static str)
        ensures
            t@ == "complaint_type"@,
    {
        "complaint_type"
    }

    fn event_id(&self) -> (id: EventId)
        ensures
            id == self.event_id,
    {
        self.event_id
    }

    fn aggregate_id(&self) -> (id: u128)
        ensures
            id == self.complaint_type_id.value,
    {
        self.complaint_type_id.as_uuid()
    }

    fn school_id(&self) -> (s: SchoolId)
        ensures
            s == self.complaint_type_id.school_id,
    {
        self.complaint_type_id.school_id()
    }

    fn occurred_at(&self) -> (t: Timestamp)
        ensures
            t == self.occurred_at,
    {
        self.occurred_at
    }
}

// =============================================================================
// Notification events
// =============================================================================

/// Emitted when a `Notification` is sent to a recipient.
#[derive(Debug, Clone, PartialEq)]
pub struct NotificationSent {
    pub notification_id: NotificationId,
    pub recipient_user_id: UserId,
    pub notification_type: NotificationType,
    pub channel: Channel,
    pub event_id: EventId,
    pub correlation_id: CorrelationId,
    pub occurred_at: Timestamp,
}

impl NotificationSent {
    /// Builds the event from its fields.
    pub fn new(
        notification_id: NotificationId,
        recipient_user_id: UserId,
        notification_type: NotificationType,
        channel: Channel,
        event_id: EventId,
        correlation_id: CorrelationId,
        occurred_at: Timestamp,
    ) -> (e: Self)
        ensures
            e.notification_id == notification_id,
            e.recipient_user_id == recipient_user_id,
            e.notification_type == notification_type,
            e.channel == channel,
            e.event_id == event_id,
            e.correlation_id == correlation_id,
            e.occurred_at == occurred_at,
    {
        NotificationSent {
            notification_id,
            recipient_user_id,
            notification_type,
            channel,
            event_id,
            correlation_id,
            occurred_at,
        }
    }
}

impl DomainEvent for NotificationSent {
    fn event_type(&self) -> (t: &'static str)
        ensures
            t@ == "communication.notification.sent"@,
    {
        "communication.notification.sent"
    }

    fn schema_version(&self) -> (v: u32)
        ensures
            v == 1,
    {
        1
    }

    fn aggregate_type(&self) -> (t: &'static str)
        ensures
            t@ == "notification"@,
    {
        "notification"
    }

    fn event_id(&self) -> (id: EventId)
        ensures
            id == self.event_id,
    {
        self.event_id
    }

    fn aggregate_id(&self) -> (id: u128)
        ensures
            id == self.notification_id.value,
    {
        self.notification_id.as_uuid()
    }

    fn school_id(&self) -> (s: SchoolId)
        ensures
            s == self.notification_id.school_id,
    {
        self.notification_id.school_id()
    }

    fn occurred_at(&self) -> (t: Timestamp)
        ensures
            t == self.occurred_at,
    {
        self.occurred_at
    }
}

/// Emitted when a `Notification` is read by its recipient.
#[derive(Debug, Clone, PartialEq)]
pub struct NotificationRead {
    pub notification_id: NotificationId,
    pub read_at: Timestamp,
    pub event_id: EventId,
    pub correlation_id: CorrelationId,
    pub occurred_at: Timestamp,
}

impl NotificationRead {
    /// Builds the event from its fields.
    pub fn new(
        notification_id: NotificationId,
        read_at: Timestamp,
        event_id: EventId,
        correlation_id: CorrelationId,
        occurred_at: Timestamp,
    ) -> (e: Self)
        ensures
            e.notification_id == notification_id,
            e.read_at == read_at,
            e.event_id == event_id,
            e.correlation_id == correlation_id,
            e.occurred_at == occurred_at,
    {
        NotificationRead {
            notification_id,
            read_at,
            event_id,
            correlation_id,
            occurred_at,
        }
    }
}

impl DomainEvent for NotificationRead {
    fn event_type(&self) -> (t: &'static str)
        ensures
            t@ == "communication.notification.read"@,
    {
        "communication.notification.read"
    }

    fn schema_version(&self) -> (v: u32)
        ensures
            v == 1,
    {
        1
    }

    fn aggregate_type(&self) -> (t: &'static str)
        ensures
            t@ == "notification"@,
    {
        "notification"
    }

    fn event_id(&self) -> (id: EventId)
        ensures
            id == self.event_id,
    {
        self.event_id
    }

    fn aggregate_id(&self) -> (id: u128)
        ensures
            id == self.notification_id.value,
    {
        self.notification_id.as_uuid()
    }

    fn school_id(&self) -> (s: SchoolId)
        ensures
            s == self.notification_id.school_id,
    {
        self.notification_id.school_id()
    }

    fn occurred_at(&self) -> (t: Timestamp)
        ensures
            t == self.occurred_at,
    {
        self.occurred_at
    }
}

/// Emitted when a `Notification` is withdrawn before the recipient
/// reads it.
#[derive(Debug, Clone, PartialEq)]
pub struct NotificationWithdrawn {
    pub notification_id: NotificationId,
    pub reason: String,
    pub event_id: EventId,
    pub correlation_id: CorrelationId,
    pub occurred_at: Timestamp,
}

impl NotificationWithdrawn {
    /// Builds the event from its fields.
    pub fn new(
        notification_id: NotificationId,
        reason: String,
        event_id: EventId,
        correlation_id: CorrelationId,
        occurred_at: Timestamp,
    ) -> (e: Self)
        ensures
            e.notification_id == notification_id,
            e.reason == reason,
            e.event_id == event_id,
            e.correlation_id == correlation_id,
            e.occurred_at == occurred_at,
    {
        NotificationWithdrawn {
            notification_id,
            reason,
            event_id,
            correlation_id,
            occurred_at,
        }
    }
}

impl DomainEvent for NotificationWithdrawn {
    fn event_type(&self) -> (t: &'static str)
        ensures
            t@ == "communication.notification.withdrawn"@,
    {
        "communication.notification.withdrawn"
    }

    fn schema_version(&self) -> (v: u32)
        ensures
            v == 1,
    {
        1
    }

    fn aggregate_type(&self) -> (t: &'static str)
        ensures
            t@ == "notification"@,
    {
        "notification"
    }

    fn event_id(&self) -> (id: EventId)
        ensures
            id == self.event_id,
    {
        self.event_id
    }

    fn aggregate_id(&self) -> (id: u128)
        ensures
            id == self.notification_id.value,
    {
        self.notification_id.as_uuid()
    }

    fn school_id(&self) -> (s: SchoolId)
        ensures
            s == self.notification_id.school_id,
    {
        self.notification_id.school_id()
    }

    fn occurred_at(&self) -> (t: Timestamp)
        ensures
            t == self.occurred_at,
    {
        self.occurred_at
    }
}

// =============================================================================
// EmailLog event
// =============================================================================

/// Emitted when an outbound email is recorded in the audit log.
#[derive(Debug, Clone, PartialEq)]
pub struct EmailLogged {
    pub email_log_id: EmailLogId,
    pub title: String,
    pub send_through: MailDriver,
    pub send_to: EmailAddress,
    pub send_date: CalendarDate,
    pub source_message_id: Option<MessageId>,
    pub event_id: EventId,
    pub correlation_id: CorrelationId,
    pub occurred_at: Timestamp,
}

impl EmailLogged {
    /// Builds the event from its fields.
    pub fn new(
        email_log_id: EmailLogId,
        title: String,
        send_through: MailDriver,
        send_to: EmailAddress,
        send_date: CalendarDate,
        source_message_id: Option<MessageId>,
        event_id: EventId,
        correlation_id: CorrelationId,
        occurred_at: Timestamp,
    ) -> (e: Self)
        ensures
            e.email_log_id == email_log_id,
            e.title == title,
            e.send_through == send_through,
            e.send_to == send_to,
            e.send_date == send_date,
            e.source_message_id == source_message_id,
            e.event_id == event_id,
            e.correlation_id == correlation_id,
            e.occurred_at == occurred_at,
    {
        EmailLogged {
            email_log_id,
            title,
            send_through,
            send_to,
            send_date,
            source_message_id,
            event_id,
            correlation_id,
            occurred_at,
        }
    }
}

impl DomainEvent for EmailLogged {
    fn event_type(&self) -> (t: &'static str)
        ensures
            t@ == "communication.email_log.logged"@,
    {
        "communication.email_log.logged"
    }

    fn schema_version(&self) -> (v: u32)
        ensures
            v == 1,
    {
        1
    }

    fn aggregate_type(&self) -> (t: &'static str)
        ensures
            t@ == "email_log"@,
    {
        "email_log"
    }

    fn event_id(&self) -> (id: EventId)
        ensures
            id == self.event_id,
    {
        self.event_id
    }

    fn aggregate_id(&self) -> (id: u128)
        ensures
            id == self.email_log_id.value,
    {
        self.email_log_id.as_uuid()
    }

    fn school_id(&self) -> (s: SchoolId)
        ensures
            s == self.email_log_id.school_id,
    {
        self.email_log_id.school_id()
    }

    fn occurred_at(&self) -> (t: Timestamp)
        ensures
            t == self.occurred_at,
    {
        self.occurred_at
    }
}

// =============================================================================
// SmsLog event
// =============================================================================

/// Emitted when an outbound SMS is recorded in the audit log.
#[derive(Debug, Clone, PartialEq)]
pub struct SmsLogged {
    pub sms_log_id: SmsLogId,
    pub title: String,
    pub send_through: SmsGatewayId,
    pub send_to: PhoneNumber,
    pub send_date: CalendarDate,
    pub source_message_id: Option<MessageId>,
    pub event_id: EventId,
    pub correlation_id: CorrelationId,
    pub occurred_at: Timestamp,
}

impl SmsLogged {
    /// Builds the event from its fields.
    pub fn new(
        sms_log_id: SmsLogId,
        title: String,
        send_through: SmsGatewayId,
        send_to: PhoneNumber,
        send_date: CalendarDate,
        source_message_id: Option<MessageId>,
        event_id: EventId,
        correlation_id: CorrelationId,
        occurred_at: Timestamp,
    ) -> (e: Self)
        ensures
            e.sms_log_id == sms_log_id,
            e.title == title,
            e.send_through == send_through,
            e.send_to == send_to,
            e.send_date == send_date,
            e.source_message_id == source_message_id,
            e.event_id == event_id,
            e.correlation_id == correlation_id,
            e.occurred_at == occurred_at,
    {
        SmsLogged {
            sms_log_id,
            title,
            send_through,
            send_to,
            send_date,
            source_message_id,
            event_id,
            correlation_id,
            occurred_at,
        }
    }
}

impl DomainEvent for SmsLogged {
    fn event_type(&self) -> (t: &'static str)
        ensures
            t@ == "communication.sms_log.logged"@,
    {
        "communication.sms_log.logged"
    }

    fn schema_version(&self) -> (v: u32)
        ensures
            v == 1,
    {
        1
    }

    fn aggregate_type(&self) -> (t: &'static str)
        ensures
            t@ == "sms_log"@,
    {
        "sms_log"
    }

    fn event_id(&self) -> (id: EventId)
        ensures
            id == self.event_id,
    {
        self.event_id
    }

    fn aggregate_id(&self) -> (id: u128)
        ensures
            id == self.sms_log_id.value,
    {
        self.sms_log_id.as_uuid()
    }

    fn school_id(&self) -> (s: SchoolId)
        ensures
            s == self.sms_log_id.school_id,
    {
        self.sms_log_id.school_id()
    }

    fn occurred_at(&self) -> (t: Timestamp)
        ensures
            t == self.occurred_at,
    {
        self.occurred_at
    }
}

// =============================================================================
// SmsTemplate events
// =============================================================================

/// Emitted when a new `SmsTemplate` is created.
#[derive(Debug, Clone, PartialEq)]
pub struct SmsTemplateCreated {
    pub sms_template_id: SmsTemplateId,
    pub channel: Channel,
    pub purpose: TemplateKey,
    pub event_id: EventId,
    pub correlation_id: CorrelationId,
    pub occurred_at: Timestamp,
}

impl SmsTemplateCreated {
    /// Builds the event from its fields.
    pub fn new(
        sms_template_id: SmsTemplateId,
        channel: Channel,
        purpose: TemplateKey,
        event_id: EventId,
        correlation_id: CorrelationId,
        occurred_at: Timestamp,
    ) -> (e: Self)
        ensures
            e.sms_template_id == sms_template_id,
            e.channel == channel,
            e.purpose == purpose,
            e.event_id == event_id,
            e.correlation_id == correlation_id,
            e.occurred_at == occurred_at,
    {
        SmsTemplateCreated {
            sms_template_id,
            channel,
            purpose,
            event_id,
            correlation_id,
            occurred_at,
        }
    }
}

impl DomainEvent for SmsTemplateCreated {
    fn event_type(&self) -> (t: &'static str)
        ensures
            t@ == "communication.sms_template.created"@,
    {
        "communication.sms_template.created"
    }

    fn schema_version(&self) -> (v: u32)
        ensures
            v == 1,
    {
        1
    }

    fn aggregate_type(&self) -> (t: &'static str)
        ensures
            t@ == "sms_template"@,
    {
        "sms_template"
    }

    fn event_id(&self) -> (id: EventId)
        ensures
            id == self.event_id,
    {
        self.event_id
    }

    fn aggregate_id(&self) -> (id: u128)
        ensures
            id == self.sms_template_id.value,
    {
        self.sms_template_id.as_uuid()
    }

    fn school_id(&self) -> (s: SchoolId)
        ensures
            s == self.sms_template_id.school_id,
    {
        self.sms_template_id.school_id()
    }

    fn occurred_at(&self) -> (t: Timestamp)
        ensures
            t == self.occurred_at,
    {
        self.occurred_at
    }
}

/// Emitted when a `SmsTemplate` is updated.
#[derive(Debug, Clone, PartialEq)]
pub struct SmsTemplateUpdated {
    pub sms_template_id: SmsTemplateId,
    pub changes: Vec<String>,
    pub event_id: EventId,
    pub correlation_id: CorrelationId,
    pub occurred_at: Timestamp,
}

impl SmsTemplateUpdated {
    /// Builds the event from its fields.
    pub fn new(
        sms_template_id: SmsTemplateId,
        changes: Vec<String>,
        event_id: EventId,
        correlation_id: CorrelationId,
        occurred_at: Timestamp,
    ) -> (e: Self)
        ensures
            e.sms_template_id == sms_template_id,
            e.changes == changes,
            e.event_id == event_id,
            e.correlation_id == correlation_id,
            e.occurred_at == occurred_at,
    {
        SmsTemplateUpdated {
            sms_template_id,
            changes,
            event_id,
            correlation_id,
            occurred_at,
        }
    }
}

impl DomainEvent for SmsTemplateUpdated {
    fn event_type(&self) -> (t: &'static str)
        ensures
            t@ == "communication.sms_template.updated"@,
    {
        "communication.sms_template.updated"
    }

    fn schema_version(&self) -> (v: u32)
        ensures
            v == 1,
    {
        1
    }

    fn aggregate_type(&self) -> (t: &'static str)
        ensures
            t@ == "sms_template"@,
    {
        "sms_template"
    }

    fn event_id(&self) -> (id: EventId)
        ensures
            id == self.event_id,
    {
        self.event_id
    }

    fn aggregate_id(&self) -> (id: u128)
        ensures
            id == self.sms_template_id.value,
    {
        self.sms_template_id.as_uuid()
    }

    fn school_id(&self) -> (s: SchoolId)
        ensures
            s == self.sms_template_id.school_id,
    {
        self.sms_template_id.school_id()
    }

    fn occurred_at(&self) -> (t: Timestamp)
        ensures
            t == self.occurred_at,
    {
        self.occurred_at
    }
}

/// Emitted when a `SmsTemplate` is enabled.
#[derive(Debug, Clone, PartialEq)]
pub struct SmsTemplateEnabled {
    pub sms_template_id: SmsTemplateId,
    pub event_id: EventId,
    pub correlation_id: CorrelationId,
    pub occurred_at: Timestamp,
}

impl SmsTemplateEnabled {
    /// Builds the event from its fields.
    pub fn new(
        sms_template_id: SmsTemplateId,
        event_id: EventId,
        correlation_id: CorrelationId,
        occurred_at: Timestamp,
    ) -> (e: Self)
        ensures
            e.sms_template_id == sms_template_id,
            e.event_id == event_id,
            e.correlation_id == correlation_id,
            e.occurred_at == occurred_at,
    {
        SmsTemplateEnabled {
            sms_template_id,
            event_id,
            correlation_id,
            occurred_at,
        }
    }
}

impl DomainEvent for SmsTemplateEnabled {
    fn event_type(&self) -> (t: &'static str)
        ensures
            t@ == "communication.sms_template.enabled"@,
    {
        "communication.sms_template.enabled"
    }

    fn schema_version(&self) -> (v: u32)
        ensures
            v == 1,
    {
        1
    }

    fn aggregate_type(&self) -> (t: &'static str)
        ensures
            t@ == "sms_template"@,
    {
        "sms_template"
    }

    fn event_id(&self) -> (id: EventId)
        ensures
            id == self.event_id,
    {
        self.event_id
    }

    fn aggregate_id(&self) -> (id: u128)
        ensures
            id == self.sms_template_id.value,
    {
        self.sms_template_id.as_uuid()
    }

    fn school_id(&self) -> (s: SchoolId)
        ensures
            s == self.sms_template_id.school_id,
    {
        self.sms_template_id.school_id()
    }

    fn occurred_at(&self) -> (t: Timestamp)
        ensures
            t == self.occurred_at,
    {
        self.occurred_at
    }
}

/// Emitted when a `SmsTemplate` is disabled.
#[derive(Debug, Clone, PartialEq)]
pub struct SmsTemplateDisabled {
    pub sms_template_id: SmsTemplateId,
    pub event_id: EventId,
    pub correlation_id: CorrelationId,
    pub occurred_at: Timestamp,
}

impl SmsTemplateDisabled {
    /// Builds the event from its fields.
    pub fn new(
        sms_template_id: SmsTemplateId,
        event_id: EventId,
        correlation_id: CorrelationId,
        occurred_at: Timestamp,
    ) -> (e: Self)
        ensures
            e.sms_template_id == sms_template_id,
            e.event_id == event_id,
            e.correlation_id == correlation_id,
            e.occurred_at == occurred_at,
    {
        SmsTemplateDisabled {
            sms_template_id,
            event_id,
            correlation_id,
            occurred_at,
        }
    }
}

impl DomainEvent for SmsTemplateDisabled {
    fn event_type(&self) -> (t: &'static str)
        ensures
            t@ == "communication.sms_template.disabled"@,
    {
        "communication.sms_template.disabled"
    }

    fn schema_version(&self) -> (v: u32)
        ensures
            v == 1,
    {
        1
    }

    fn aggregate_type(&self) -> (t: &'static str)
        ensures
            t@ == "sms_template"@,
    {
        "sms_template"
    }

    fn event_id(&self) -> (id: EventId)
        ensures
            id == self.event_id,
    {
        self.event_id
    }

    fn aggregate_id(&self) -> (id: u128)
        ensures
            id == self.sms_template_id.value,
    {
        self.sms_template_id.as_uuid()
    }

    fn school_id(&self) -> (s: SchoolId)
        ensures
            s == self.sms_template_id.school_id,
    {
        self.sms_template_id.school_id()
    }

    fn occurred_at(&self) -> (t: Timestamp)
        ensures
            t == self.occurred_at,
    {
        self.occurred_at
    }
}

/// Emitted when a `SmsTemplate` is deleted.
#[derive(Debug, Clone, PartialEq)]
pub struct SmsTemplateDeleted {
    pub sms_template_id: SmsTemplateId,
    pub event_id: EventId,
    pub correlation_id: CorrelationId,
    pub occurred_at: Timestamp,
}

impl SmsTemplateDeleted {
    /// Builds the event from its fields.
    pub fn new(
        sms_template_id: SmsTemplateId,
        event_id: EventId,
        correlation_id: CorrelationId,
        occurred_at: Timestamp,
    ) -> (e: Self)
        ensures
            e.sms_template_id == sms_template_id,
            e.event_id == event_id,
            e.correlation_id == correlation_id,
            e.occurred_at == occurred_at,
    {
        SmsTemplateDeleted {
            sms_template_id,
            event_id,
            correlation_id,
            occurred_at,
        }
    }
}

impl DomainEvent for SmsTemplateDeleted {
    fn event_type(&self) -> (t: &'static str)
        ensures
            t@ == "communication.sms_template.deleted"@,
    {
        "communication.sms_template.deleted"
    }

    fn schema_version(&self) -> (v: u32)
        ensures
            v == 1,
    {
        1
    }

    fn aggregate_type(&self) -> (t: &'static str)
        ensures
            t@ == "sms_template"@,
    {
        "sms_template"
    }

    fn event_id(&self) -> (id: EventId)
        ensures
            id == self.event_id,
    {
        self.event_id
    }

    fn aggregate_id(&self) -> (id: u128)
        ensures
            id == self.sms_template_id.value,
    {
        self.sms_template_id.as_uuid()
    }

    fn school_id(&self) -> (s: SchoolId)
        ensures
            s == self.sms_template_id.school_id,
    {
        self.sms_template_id.school_id()
    }

    fn occurred_at(&self) -> (t: Timestamp)
        ensures
            t == self.occurred_at,
    {
        self.occurred_at
    }
}

// =============================================================================
// EmailSetting events
// =============================================================================

/// Emitted when an `EmailSetting` is configured.
#[derive(Debug, Clone, PartialEq)]
pub struct EmailSettingConfigured {
    pub email_setting_id: EmailSettingId,
    pub mail_driver: MailDriver,
    pub mail_host: String,
    pub event_id: EventId,
    pub correlation_id: CorrelationId,
    pub occurred_at: Timestamp,
}

impl EmailSettingConfigured {
    /// Builds the event from its fields.
    pub fn new(
        email_setting_id: EmailSettingId,
        mail_driver: MailDriver,
        mail_host: String,
        event_id: EventId,
        correlation_id: CorrelationId,
        occurred_at: Timestamp,
    ) -> (e: Self)
        ensures
            e.email_setting_id == email_setting_id,
            e.mail_driver == mail_driver,
            e.mail_host == mail_host,
            e.event_id == event_id,
            e.correlation_id == correlation_id,
            e.occurred_at == occurred_at,
    {
        EmailSettingConfigured {
            email_setting_id,
            mail_driver,
            mail_host,
            event_id,
            correlation_id,
            occurred_at,
        }
    }
}

impl DomainEvent for EmailSettingConfigured {
    fn event_type(&self) -> (t: &'static str)
        ensures
            t@ == "communication.email_setting.configured"@,
    {
        "communication.email_setting.configured"
    }

    fn schema_version(&self) -> (v: u32)
        ensures
            v == 1,
    {
        1
    }

    fn aggregate_type(&self) -> (t: &'static str)
        ensures
            t@ == "email_setting"@,
    {
        "email_setting"
    }

    fn event_id(&self) -> (id: EventId)
        ensures
            id == self.event_id,
    {
        self.event_id
    }

    fn aggregate_id(&self) -> (id: u128)
        ensures
            id == self.email_setting_id.value,
    {
        self.email_setting_id.as_uuid()
    }

    fn school_id(&self) -> (s: SchoolId)
        ensures
            s == self.email_setting_id.school_id,
    {
        self.email_setting_id.school_id()
    }

    fn occurred_at(&self) -> (t: Timestamp)
        ensures
            t == self.occurred_at,
    {
        self.occurred_at
    }
}

/// Emitted when an `EmailSetting` is activated.
#[derive(Debug, Clone, PartialEq)]
pub struct EmailSettingActivated {
    pub email_setting_id: EmailSettingId,
    pub previous_id: Option<EmailSettingId>,
    pub event_id: EventId,
    pub correlation_id: CorrelationId,
    pub occurred_at: Timestamp,
}

impl EmailSettingActivated {
    /// Builds the event from its fields.
    pub fn new(
        email_setting_id: EmailSettingId,
        previous_id: Option<EmailSettingId>,
        event_id: EventId,
        correlation_id: CorrelationId,
        occurred_at: Timestamp,
    ) -> (e: Self)
        ensures
            e.email_setting_id == email_setting_id,
            e.previous_id == previous_id,
            e.event_id == event_id,
            e.correlation_id == correlation_id,
            e.occurred_at == occurred_at,
    {
        EmailSettingActivated {
            email_setting_id,
            previous_id,
            event_id,
            correlation_id,
            occurred_at,
        }
    }
}

impl DomainEvent for EmailSettingActivated {
    fn event_type(&self) -> (t: &'static str)
        ensures
            t@ == "communication.email_setting.activated"@,
    {
        "communication.email_setting.activated"
    }

    fn schema_version(&self) -> (v: u32)
        ensures
            v == 1,
    {
        1
    }

    fn aggregate_type(&self) -> (t: &'static str)
        ensures
            t@ == "email_setting"@,
    {
        "email_setting"
    }

    fn event_id(&self) -> (id: EventId)
        ensures
            id == self.event_id,
    {
        self.event_id
    }

    fn aggregate_id(&self) -> (id: u128)
        ensures
            id == self.email_setting_id.value,
    {
        self.email_setting_id.as_uuid()
    }

    fn school_id(&self) -> (s: SchoolId)
        ensures
            s == self.email_setting_id.school_id,
    {
        self.email_setting_id.school_id()
    }

    fn occurred_at(&self) -> (t: Timestamp)
        ensures
            t == self.occurred_at,
    {
        self.occurred_at
    }
}

/// Emitted when an `EmailSetting` is deleted.
#[derive(Debug, Clone, PartialEq)]
pub struct EmailSettingDeleted {
    pub email_setting_id: EmailSettingId,
    pub event_id: EventId,
    pub correlation_id: CorrelationId,
    pub occurred_at: Timestamp,
}

impl EmailSettingDeleted {
    /// Builds the event from its fields.
    pub fn new(
        email_setting_id: EmailSettingId,
        event_id: EventId,
        correlation_id: CorrelationId,
        occurred_at: Timestamp,
    ) -> (e: Self)
        ensures
            e.email_setting_id == email_setting_id,
            e.event_id == event_id,
            e.correlation_id == correlation_id,
            e.occurred_at == occurred_at,
    {
        EmailSettingDeleted {
            email_setting_id,
            event_id,
            correlation_id,
            occurred_at,
        }
    }
}

impl DomainEvent for EmailSettingDeleted {
    fn event_type(&self) -> (t: &'static str)
        ensures
            t@ == "communication.email_setting.deleted"@,
    {
        "communication.email_setting.deleted"
    }

    fn schema_version(&self) -> (v: u32)
        ensures
            v == 1,
    {
        1
    }

    fn aggregate_type(&self) -> (t: &'static str)
        ensures
            t@ == "email_setting"@,
    {
        "email_setting"
    }

    fn event_id(&self) -> (id: EventId)
        ensures
            id == self.event_id,
    {
        self.event_id
    }

    fn aggregate_id(&self) -> (id: u128)
        ensures
            id == self.email_setting_id.value,
    {
        self.email_setting_id.as_uuid()
    }

    fn school_id(&self) -> (s: SchoolId)
        ensures
            s == self.email_setting_id.school_id,
    {
        self.email_setting_id.school_id()
    }

    fn occurred_at(&self) -> (t: Timestamp)
        ensures
            t == self.occurred_at,
    {
        self.occurred_at
    }
}

// =============================================================================
// SmsGateway events
// =============================================================================

/// Emitted when an `SmsGateway` is configured.
#[derive(Debug, Clone, PartialEq)]
pub struct SmsGatewayConfigured {
    pub sms_gateway_id: SmsGatewayId,
    pub gateway_type: GatewayType,
    pub event_id: EventId,
    pub correlation_id: CorrelationId,
    pub occurred_at: Timestamp,
}

impl SmsGatewayConfigured {
    /// Builds the event from its fields.
    pub fn new(
        sms_gateway_id: SmsGatewayId,
        gateway_type: GatewayType,
        event_id: EventId,
        correlation_id: CorrelationId,
        occurred_at: Timestamp,
    ) -> (e: Self)
        ensures
            e.sms_gateway_id == sms_gateway_id,
            e.gateway_type == gateway_type,
            e.event_id == event_id,
            e.correlation_id == correlation_id,
            e.occurred_at == occurred_at,
    {
        SmsGatewayConfigured {
            sms_gateway_id,
            gateway_type,
            event_id,
            correlation_id,
            occurred_at,
        }
    }
}

impl DomainEvent for SmsGatewayConfigured {
    fn event_type(&self) -> (t: &'static str)
        ensures
            t@ == "communication.sms_gateway.configured"@,
    {
        "communication.sms_gateway.configured"
    }

    fn schema_version(&self) -> (v: u32)
        ensures
            v == 1,
    {
        1
    }

    fn aggregate_type(&self) -> (t: &'static str)
        ensures
            t@ == "sms_gateway"@,
    {
        "sms_gateway"
    }

    fn event_id(&self) -> (id: EventId)
        ensures
            id == self.event_id,
    {
        self.event_id
    }

    fn aggregate_id(&self) -> (id: u128)
        ensures
            id == self.sms_gateway_id.value,
    {
        self.sms_gateway_id.as_uuid()
    }

    fn school_id(&self) -> (s: SchoolId)
        ensures
            s == self.sms_gateway_id.school_id,
    {
        self.sms_gateway_id.school_id()
    }

    fn occurred_at(&self) -> (t: Timestamp)
        ensures
            t == self.occurred_at,
    {
        self.occurred_at
    }
}

/// Emitted when an `SmsGateway` is activated.
#[derive(Debug, Clone, PartialEq)]
pub struct SmsGatewayActivated {
    pub sms_gateway_id: SmsGatewayId,
    pub gateway_type: GatewayType,
    pub previous_id: Option<SmsGatewayId>,
    pub event_id: EventId,
    pub correlation_id: CorrelationId,
    pub occurred_at: Timestamp,
}

impl SmsGatewayActivated {
    /// Builds the event from its fields.
    pub fn new(
        sms_gateway_id: SmsGatewayId,
        gateway_type: GatewayType,
        previous_id: Option<SmsGatewayId>,
        event_id: EventId,
        correlation_id: CorrelationId,
        occurred_at: Timestamp,
    ) -> (e: Self)
        ensures
            e.sms_gateway_id == sms_gateway_id,
            e.gateway_type == gateway_type,
            e.previous_id == previous_id,
            e.event_id == event_id,
            e.correlation_id == correlation_id,
            e.occurred_at == occurred_at,
    {
        SmsGatewayActivated {
            sms_gateway_id,
            gateway_type,
            previous_id,
            event_id,
            correlation_id,
            occurred_at,
        }
    }
}

impl DomainEvent for SmsGatewayActivated {
    fn event_type(&self) -> (t: &'static str)
        ensures
            t@ == "communication.sms_gateway.activated"@,
    {
        "communication.sms_gateway.activated"
    }

    fn schema_version(&self) -> (v: u32)
        ensures
            v == 1,
    {
        1
    }

    fn aggregate_type(&self) -> (t: &'static str)
        ensures
            t@ == "sms_gateway"@,
    {
        "sms_gateway"
    }

    fn event_id(&self) -> (id: EventId)
        ensures
            id == self.event_id,
    {
        self.event_id
    }

    fn aggregate_id(&self) -> (id: u128)
        ensures
            id == self.sms_gateway_id.value,
    {
        self.sms_gateway_id.as_uuid()
    }

    fn school_id(&self) -> (s: SchoolId)
        ensures
            s == self.sms_gateway_id.school_id,
    {
        self.sms_gateway_id.school_id()
    }

    fn occurred_at(&self) -> (t: Timestamp)
        ensures
            t == self.occurred_at,
    {
        self.occurred_at
    }
}

/// Emitted when an `SmsGateway` is deleted.
#[derive(Debug, Clone, PartialEq)]
pub struct SmsGatewayDeleted {
    pub sms_gateway_id: SmsGatewayId,
    pub event_id: EventId,
    pub correlation_id: CorrelationId,
    pub occurred_at: Timestamp,
}

impl SmsGatewayDeleted {
    /// Builds the event from its fields.
    pub fn new(
        sms_gateway_id: SmsGatewayId,
        event_id: EventId,
        correlation_id: CorrelationId,
        occurred_at: Timestamp,
    ) -> (e: Self)
        ensures
            e.sms_gateway_id == sms_gateway_id,
            e.event_id == event_id,
            e.correlation_id == correlation_id,
            e.occurred_at == occurred_at,
    {
        SmsGatewayDeleted {
            sms_gateway_id,
            event_id,
            correlation_id,
            occurred_at,
        }
    }
}

impl DomainEvent for SmsGatewayDeleted {
    fn event_type(&self) -> (t: &'static str)
        ensures
            t@ == "communication.sms_gateway.deleted"@,
    {
        "communication.sms_gateway.deleted"
    }

    fn schema_version(&self) -> (v: u32)
        ensures
            v == 1,
    {
        1
    }

    fn aggregate_type(&self) -> (t: &'static str)
        ensures
            t@ == "sms_gateway"@,
    {
        "sms_gateway"
    }

    fn event_id(&self) -> (id: EventId)
        ensures
            id == self.event_id,
    {
        self.event_id
    }

    fn aggregate_id(&self) -> (id: u128)
        ensures
            id == self.sms_gateway_id.value,
    {
        self.sms_gateway_id.as_uuid()
    }

    fn school_id(&self) -> (s: SchoolId)
        ensures
            s == self.sms_gateway_id.school_id,
    {
        self.sms_gateway_id.school_id()
    }

    fn occurred_at(&self) -> (t: Timestamp)
        ensures
            t == self.occurred_at,
    {
        self.occurred_at
    }
}

// =============================================================================
// NotificationSetting events
// =============================================================================

/// Emitted when a new `NotificationSetting` is created.
#[derive(Debug, Clone, PartialEq)]
pub struct NotificationSettingCreated {
    pub notification_setting_id: NotificationSettingId,
    pub event: String,
    pub destination: Destination,
    pub event_id: EventId,
    pub correlation_id: CorrelationId,
    pub occurred_at: Timestamp,
}

impl NotificationSettingCreated {
    /// Builds the event from its fields.
    pub fn new(
        notification_setting_id: NotificationSettingId,
        event: String,
        destination: Destination,
        event_id: EventId,
        correlation_id: CorrelationId,
        occurred_at: Timestamp,
    ) -> (e: Self)
        ensures
            e.notification_setting_id == notification_setting_id,
            e.event == event,
            e.destination == destination,
            e.event_id == event_id,
            e.correlation_id == correlation_id,
            e.occurred_at == occurred_at,
    {
        NotificationSettingCreated {
            notification_setting_id,
            event,
            destination,
            event_id,
            correlation_id,
            occurred_at,
        }
    }
}

impl DomainEvent for NotificationSettingCreated {
    fn event_type(&self) -> (t: &'static str)
        ensures
            t@ == "communication.notification_setting.created"@,
    {
        "communication.notification_setting.created"
    }

    fn schema_version(&self) -> (v: u32)
        ensures
            v == 1,
    {
        1
    }

    fn aggregate_type(&self) -> (t: &'static str)
        ensures
            t@ == "notification_setting"@,
    {
        "notification_setting"
    }

    fn event_id(&self) -> (id: EventId)
        ensures
            id == self.event_id,
    {
        self.event_id
    }

    fn aggregate_id(&self) -> (id: u128)
        ensures
            id == self.notification_setting_id.value,
    {
        self.notification_setting_id.as_uuid()
    }

    fn school_id(&self) -> (s: SchoolId)
        ensures
            s == self.notification_setting_id.school_id,
    {
        self.notification_setting_id.school_id()
    }

    fn occurred_at(&self) -> (t: Timestamp)
        ensures
            t == self.occurred_at,
    {
        self.occurred_at
    }
}

/// Emitted when a `NotificationSetting` is updated.
#[derive(Debug, Clone, PartialEq)]
pub struct NotificationSettingUpdated {
    pub notification_setting_id: NotificationSettingId,
    pub changes: Vec<String>,
    pub event_id: EventId,
    pub correlation_id: CorrelationId,
    pub occurred_at: Timestamp,
}

impl NotificationSettingUpdated {
    /// Builds the event from its fields.
    pub fn new(
        notification_setting_id: NotificationSettingId,
        changes: Vec<String>,
        event_id: EventId,
        correlation_id: CorrelationId,
        occurred_at: Timestamp,
    ) -> (e: Self)
        ensures
            e.notification_setting_id == notification_setting_id,
            e.changes == changes,
            e.event_id == event_id,
            e.correlation_id == correlation_id,
            e.occurred_at == occurred_at,
    {
        NotificationSettingUpdated {
            notification_setting_id,
            changes,
            event_id,
            correlation_id,
            occurred_at,
        }
    }
}

impl DomainEvent for NotificationSettingUpdated {
    fn event_type(&self) -> (t: &'static str)
        ensures
            t@ == "communication.notification_setting.updated"@,
    {
        "communication.notification_setting.updated"
    }

    fn schema_version(&self) -> (v: u32)
        ensures
            v == 1,
    {
        1
    }

    fn aggregate_type(&self) -> (t: &'static str)
        ensures
            t@ == "notification_setting"@,
    {
        "notification_setting"
    }

    fn event_id(&self) -> (id: EventId)
        ensures
            id == self.event_id,
    {
        self.event_id
    }

    fn aggregate_id(&self) -> (id: u128)
        ensures
            id == self.notification_setting_id.value,
    {
        self.notification_setting_id.as_uuid()
    }

    fn school_id(&self) -> (s: SchoolId)
        ensures
            s == self.notification_setting_id.school_id,
    {
        self.notification_setting_id.school_id()
    }

    fn occurred_at(&self) -> (t: Timestamp)
        ensures
            t == self.occurred_at,
    {
        self.occurred_at
    }
}

/// Emitted when a `NotificationSetting` is deleted.
#[derive(Debug, Clone, PartialEq)]
pub struct NotificationSettingDeleted {
    pub notification_setting_id: NotificationSettingId,
    pub event_id: EventId,
    pub correlation_id: CorrelationId,
    pub occurred_at: Timestamp,
}

impl NotificationSettingDeleted {
    /// Builds the event from its fields.
    pub fn new(
        notification_setting_id: NotificationSettingId,
        event_id: EventId,
        correlation_id: CorrelationId,
        occurred_at: Timestamp,
    ) -> (e: Self)
        ensures
            e.notification_setting_id == notification_setting_id,
            e.event_id == event_id,
            e.correlation_id == correlation_id,
            e.occurred_at == occurred_at,
    {
        NotificationSettingDeleted {
            notification_setting_id,
            event_id,
            correlation_id,
            occurred_at,
        }
    }
}

impl DomainEvent for NotificationSettingDeleted {
    fn event_type(&self) -> (t: &'static str)
        ensures
            t@ == "communication.notification_setting.deleted"@,
    {
        "communication.notification_setting.deleted"
    }

    fn schema_version(&self) -> (v: u32)
        ensures
            v == 1,
    {
        1
    }

    fn aggregate_type(&self) -> (t: &'static str)
        ensures
            t@ == "notification_setting"@,
    {
        "notification_setting"
    }

    fn event_id(&self) -> (id: EventId)
        ensures
            id == self.event_id,
    {
        self.event_id
    }

    fn aggregate_id(&self) -> (id: u128)
        ensures
            id == self.notification_setting_id.value,
    {
        self.notification_setting_id.as_uuid()
    }

    fn school_id(&self) -> (s: SchoolId)
        ensures
            s == self.notification_setting_id.school_id,
    {
        self.notification_setting_id.school_id()
    }

    fn occurred_at(&self) -> (t: Timestamp)
        ensures
            t == self.occurred_at,
    {
        self.occurred_at
    }
}

// =============================================================================
// AbsentNotification events
// =============================================================================

/// Emitted when an `AbsentNotificationTimeSetup` is scheduled.
#[derive(Debug, Clone, PartialEq)]
pub struct AbsentNotificationScheduled {
    pub absent_notification_time_setup_id: AbsentNotificationTimeSetupId,
    pub time_from: TimeOfDay,
    pub time_to: TimeOfDay,
    pub event_id: EventId,
    pub correlation_id: CorrelationId,
    pub occurred_at: Timestamp,
}

impl AbsentNotificationScheduled {
    /// Builds the event from its fields.
    pub fn new(
        absent_notification_time_setup_id: AbsentNotificationTimeSetupId,
        time_from: TimeOfDay,
        time_to: TimeOfDay,
        event_id: EventId,
        correlation_id: CorrelationId,
        occurred_at: Timestamp,
    ) -> (e: Self)
        ensures
            e.absent_notification_time_setup_id == absent_notification_time_setup_id,
            e.time_from == time_from,
            e.time_to == time_to,
            e.event_id == event_id,
            e.correlation_id == correlation_id,
            e.occurred_at == occurred_at,
    {
        AbsentNotificationScheduled {
            absent_notification_time_setup_id,
            time_from,
            time_to,
            event_id,
            correlation_id,
            occurred_at,
        }
    }
}

impl DomainEvent for AbsentNotificationScheduled {
    fn event_type(&self) -> (t: &'static str)
        ensures
            t@ == "communication.absent_notification.scheduled"@,
    {
        "communication.absent_notification.scheduled"
    }

    fn schema_version(&self) -> (v: u32)
        ensures
            v == 1,
    {
        1
    }

    fn aggregate_type(&self) -> (t: &'static str)
        ensures
            t@ == "absent_notification_time_setup"@,
    {
        "absent_notification_time_setup"
    }

    fn event_id(&self) -> (id: EventId)
        ensures
            id == self.event_id,
    {
        self.event_id
    }

    fn aggregate_id(&self) -> (id: u128)
        ensures
            id == self.absent_notification_time_setup_id.value,
    {
        self.absent_notification_time_setup_id.as_uuid()
    }

    fn school_id(&self) -> (s: SchoolId)
        ensures
            s == self.absent_notification_time_setup_id.school_id,
    {
        self.absent_notification_time_setup_id.school_id()
    }

    fn occurred_at(&self) -> (t: Timestamp)
        ensures
            t == self.occurred_at,
    {
        self.occurred_at
    }
}

/// Emitted when an `AbsentNotificationTimeSetup` is enabled.
#[derive(Debug, Clone, PartialEq)]
pub struct AbsentNotificationEnabled {
    pub absent_notification_time_setup_id: AbsentNotificationTimeSetupId,
    pub event_id: EventId,
    pub correlation_id: CorrelationId,
    pub occurred_at: Timestamp,
}

impl AbsentNotificationEnabled {
    /// Builds the event from its fields.
    pub fn new(
        absent_notification_time_setup_id: AbsentNotificationTimeSetupId,
        event_id: EventId,
        correlation_id: CorrelationId,
        occurred_at: Timestamp,
    ) -> (e: Self)
        ensures
            e.absent_notification_time_setup_id == absent_notification_time_setup_id,
            e.event_id == event_id,
            e.correlation_id == correlation_id,
            e.occurred_at == occurred_at,
    {
        AbsentNotificationEnabled {
            absent_notification_time_setup_id,
            event_id,
            correlation_id,
            occurred_at,
        }
    }
}

impl DomainEvent for AbsentNotificationEnabled {
    fn event_type(&self) -> (t: &'static str)
        ensures
            t@ == "communication.absent_notification.enabled"@,
    {
        "communication.absent_notification.enabled"
    }

    fn schema_version(&self) -> (v: u32)
        ensures
            v == 1,
    {
        1
    }

    fn aggregate_type(&self) -> (t: &'static str)
        ensures
            t@ == "absent_notification_time_setup"@,
    {
        "absent_notification_time_setup"
    }

    fn event_id(&self) -> (id: EventId)
        ensures
            id == self.event_id,
    {
        self.event_id
    }

    fn aggregate_id(&self) -> (id: u128)
        ensures
            id == self.absent_notification_time_setup_id.value,
    {
        self.absent_notification_time_setup_id.as_uuid()
    }

    fn school_id(&self) -> (s: SchoolId)
        ensures
            s == self.absent_notification_time_setup_id.school_id,
    {
        self.absent_notification_time_setup_id.school_id()
    }

    fn occurred_at(&self) -> (t: Timestamp)
        ensures
            t == self.occurred_at,
    {
        self.occurred_at
    }
}

/// Emitted when an `AbsentNotificationTimeSetup` is disabled.
#[derive(Debug, Clone, PartialEq)]
pub struct AbsentNotificationDisabled {
    pub absent_notification_time_setup_id: AbsentNotificationTimeSetupId,
    pub event_id: EventId,
    pub correlation_id: CorrelationId,
    pub occurred_at: Timestamp,
}

impl AbsentNotificationDisabled {
    /// Builds the event from its fields.
    pub fn new(
        absent_notification_time_setup_id: AbsentNotificationTimeSetupId,
        event_id: EventId,
        correlation_id: CorrelationId,
        occurred_at: Timestamp,
    ) -> (e: Self)
        ensures
            e.absent_notification_time_setup_id == absent_notification_time_setup_id,
            e.event_id == event_id,
            e.correlation_id == correlation_id,
            e.occurred_at == occurred_at,
    {
        AbsentNotificationDisabled {
            absent_notification_time_setup_id,
            event_id,
            correlation_id,
            occurred_at,
        }
    }
}

impl DomainEvent for AbsentNotificationDisabled {
    fn event_type(&self) -> (t: &'static str)
        ensures
            t@ == "communication.absent_notification.disabled"@,
    {
        "communication.absent_notification.disabled"
    }

    fn schema_version(&self) -> (v: u32)
        ensures
            v == 1,
    {
        1
    }

    fn aggregate_type(&self) -> (t: &'static str)
        ensures
            t@ == "absent_notification_time_setup"@,
    {
        "absent_notification_time_setup"
    }

    fn event_id(&self) -> (id: EventId)
        ensures
            id == self.event_id,
    {
        self.event_id
    }

    fn aggregate_id(&self) -> (id: u128)
        ensures
            id == self.absent_notification_time_setup_id.value,
    {
        self.absent_notification_time_setup_id.as_uuid()
    }

    fn school_id(&self) -> (s: SchoolId)
        ensures
            s == self.absent_notification_time_setup_id.school_id,
    {
        self.absent_notification_time_setup_id.school_id()
    }

    fn occurred_at(&self) -> (t: Timestamp)
        ensures
            t == self.occurred_at,
    {
        self.occurred_at
    }
}

/// Emitted when an `AbsentNotificationTimeSetup` is deleted.
#[derive(Debug, Clone, PartialEq)]
pub struct AbsentNotificationDeleted {
    pub absent_notification_time_setup_id: AbsentNotificationTimeSetupId,
    pub event_id: EventId,
    pub correlation_id: CorrelationId,
    pub occurred_at: Timestamp,
}

impl AbsentNotificationDeleted {
    /// Builds the event from its fields.
    pub fn new(
        absent_notification_time_setup_id: AbsentNotificationTimeSetupId,
        event_id: EventId,
        correlation_id: CorrelationId,
        occurred_at: Timestamp,
    ) -> (e: Self)
        ensures
            e.absent_notification_time_setup_id == absent_notification_time_setup_id,
            e.event_id == event_id,
            e.correlation_id == correlation_id,
            e.occurred_at == occurred_at,
    {
        AbsentNotificationDeleted {
            absent_notification_time_setup_id,
            event_id,
            correlation_id,
            occurred_at,
        }
    }
}

impl DomainEvent for AbsentNotificationDeleted {
    fn event_type(&self) -> (t: &'static str)
        ensures
            t@ == "communication.absent_notification.deleted"@,
    {
        "communication.absent_notification.deleted"
    }

    fn schema_version(&self) -> (v: u32)
        ensures
            v == 1,
    {
        1
    }

    fn aggregate_type(&self) -> (t: &'static str)
        ensures
            t@ == "absent_notification_time_setup"@,
    {
        "absent_notification_time_setup"
    }

    fn event_id(&self) -> (id: EventId)
        ensures
            id == self.event_id,
    {
        self.event_id
    }

    fn aggregate_id(&self) -> (id: u128)
        ensures
            id == self.absent_notification_time_setup_id.value,
    {
        self.absent_notification_time_setup_id.as_uuid()
    }

    fn school_id(&self) -> (s: SchoolId)
        ensures
            s == self.absent_notification_time_setup_id.school_id,
    {
        self.absent_notification_time_setup_id.school_id()
    }

    fn occurred_at(&self) -> (t: Timestamp)
        ensures
            t == self.occurred_at,
    {
        self.occurred_at
    }
}

/// Emitted when an absent-notification dispatch is sent to a
/// student's guardian. The aggregate id is the
/// `absent_notification_time_setup_id` (the schedule row that
/// triggered the dispatch).
#[derive(Debug, Clone, PartialEq)]
pub struct AbsentNotificationSent {
    pub absent_notification_time_setup_id: AbsentNotificationTimeSetupId,
    pub student_id: StudentId,
    pub channel: Channel,
    pub template_id: SmsTemplateId,
    pub event_id: EventId,
    pub correlation_id: CorrelationId,
    pub occurred_at: Timestamp,
}

impl AbsentNotificationSent {
    /// Builds the event from its fields.
    pub fn new(
        absent_notification_time_setup_id: AbsentNotificationTimeSetupId,
        student_id: StudentId,
        channel: Channel,
        template_id: SmsTemplateId,
        event_id: EventId,
        correlation_id: CorrelationId,
        occurred_at: Timestamp,
    ) -> (e: Self)
        ensures
            e.absent_notification_time_setup_id == absent_notification_time_setup_id,
            e.student_id == student_id,
            e.channel == channel,
            e.template_id == template_id,
            e.event_id == event_id,
            e.correlation_id == correlation_id,
            e.occurred_at == occurred_at,
    {
        AbsentNotificationSent {
            absent_notification_time_setup_id,
            student_id,
            channel,
            template_id,
            event_id,
            correlation_id,
            occurred_at,
        }
    }
}

impl DomainEvent for AbsentNotificationSent {
    fn event_type(&self) -> (t: &'static str)
        ensures
            t@ == "communication.absent_notification.sent"@,
    {
        "communication.absent_notification.sent"
    }

    fn schema_version(&self) -> (v: u32)
        ensures
            v == 1,
    {
        1
    }

    fn aggregate_type(&self) -> (t: &'static str)
        ensures
            t@ == "absent_notification_time_setup"@,
    {
        "absent_notification_time_setup"
    }

    fn event_id(&self) -> (id: EventId)
        ensures
            id == self.event_id,
    {
        self.event_id
    }

    fn aggregate_id(&self) -> (id: u128)
        ensures
            id == self.absent_notification_time_setup_id.value,
    {
        self.absent_notification_time_setup_id.as_uuid()
    }

    fn school_id(&self) -> (s: SchoolId)
        ensures
            s == self.absent_notification_time_setup_id.school_id,
    {
        self.absent_notification_time_setup_id.school_id()
    }

    fn occurred_at(&self) -> (t: Timestamp)
        ensures
            t == self.occurred_at,
    {
        self.occurred_at
    }
}

// =============================================================================
// Chat 1-to-1 events
// =============================================================================

/// Emitted when a new 1-to-1 `ChatConversation` is opened.
#[derive(Debug, Clone, PartialEq)]
pub struct ChatConversationOpened {
    pub chat_conversation_id: ChatConversationId,
    pub from_id: UserId,
    pub to_id: UserId,
    pub event_id: EventId,
    pub correlation_id: CorrelationId,
    pub occurred_at: Timestamp,
}

impl ChatConversationOpened {
    /// Builds the event from its fields.
    pub fn new(
        chat_conversation_id: ChatConversationId,
        from_id: UserId,
        to_id: UserId,
        event_id: EventId,
        correlation_id: CorrelationId,
        occurred_at: Timestamp,
    ) -> (e: Self)
        ensures
            e.chat_conversation_id == chat_conversation_id,
            e.from_id == from_id,
            e.to_id == to_id,
            e.event_id == event_id,
            e.correlation_id == correlation_id,
            e.occurred_at == occurred_at,
    {
        ChatConversationOpened {
            chat_conversation_id,
            from_id,
            to_id,
            event_id,
            correlation_id,
            occurred_at,
        }
    }
}

impl DomainEvent for ChatConversationOpened {
    fn event_type(&self) -> (t: &'static str)
        ensures
            t@ == "communication.chat_conversation.opened"@,
    {
        "communication.chat_conversation.opened"
    }

    fn schema_version(&self) -> (v: u32)
        ensures
            v == 1,
    {
        1
    }

    fn aggregate_type(&self) -> (t: &'static str)
        ensures
            t@ == "chat_conversation"@,
    {
        "chat_conversation"
    }

    fn event_id(&self) -> (id: EventId)
        ensures
            id == self.event_id,
    {
        self.event_id
    }

    fn aggregate_id(&self) -> (id: u128)
        ensures
            id == self.chat_conversation_id.value,
    {
        self.chat_conversation_id.as_uuid()
    }

    fn school_id(&self) -> (s: SchoolId)
        ensures
            s == self.chat_conversation_id.school_id,
    {
        self.chat_conversation_id.school_id()
    }

    fn occurred_at(&self) -> (t: Timestamp)
        ensures
            t == self.occurred_at,
    {
        self.occurred_at
    }
}

/// Emitted when a 1-to-1 `ChatConversation` is closed.
#[derive(Debug, Clone, PartialEq)]
pub struct ChatConversationClosed {
    pub chat_conversation_id: ChatConversationId,
    pub event_id: EventId,
    pub correlation_id: CorrelationId,
    pub occurred_at: Timestamp,
}

impl ChatConversationClosed {
    /// Builds the event from its fields.
    pub fn new(
        chat_conversation_id: ChatConversationId,
        event_id: EventId,
        correlation_id: CorrelationId,
        occurred_at: Timestamp,
    ) -> (e: Self)
        ensures
            e.chat_conversation_id == chat_conversation_id,
            e.event_id == event_id,
            e.correlation_id == correlation_id,
            e.occurred_at == occurred_at,
    {
        ChatConversationClosed {
            chat_conversation_id,
            event_id,
            correlation_id,
            occurred_at,
        }
    }
}

impl DomainEvent for ChatConversationClosed {
    fn event_type(&self) -> (t: &'static str)
        ensures
            t@ == "communication.chat_conversation.closed"@,
    {
        "communication.chat_conversation.closed"
    }

    fn schema_version(&self) -> (v: u32)
        ensures
            v == 1,
    {
        1
    }

    fn aggregate_type(&self) -> (t: &'static str)
        ensures
            t@ == "chat_conversation"@,
    {
        "chat_conversation"
    }

    fn event_id(&self) -> (id: EventId)
        ensures
            id == self.event_id,
    {
        self.event_id
    }

    fn aggregate_id(&self) -> (id: u128)
        ensures
            id == self.chat_conversation_id.value,
    {
        self.chat_conversation_id.as_uuid()
    }

    fn school_id(&self) -> (s: SchoolId)
        ensures
            s == self.chat_conversation_id.school_id,
    {
        self.chat_conversation_id.school_id()
    }

    fn occurred_at(&self) -> (t: Timestamp)
        ensures
            t == self.occurred_at,
    {
        self.occurred_at
    }
}

/// Emitted when a `ChatMessage` is sent in a 1-to-1 conversation.
#[derive(Debug, Clone, PartialEq)]
pub struct ChatMessageSent {
    pub chat_message_id: ChatMessageId,
    pub chat_conversation_id: ChatConversationId,
    pub from_id: UserId,
    pub to_id: UserId,
    pub message_type: MessageType,
    pub event_id: EventId,
    pub correlation_id: CorrelationId,
    pub occurred_at: Timestamp,
}

impl ChatMessageSent {
    /// Builds the event from its fields.
    pub fn new(
        chat_message_id: ChatMessageId,
        chat_conversation_id: ChatConversationId,
        from_id: UserId,
        to_id: UserId,
        message_type: MessageType,
        event_id: EventId,
        correlation_id: CorrelationId,
        occurred_at: Timestamp,
    ) -> (e: Self)
        ensures
            e.chat_message_id == chat_message_id,
            e.chat_conversation_id == chat_conversation_id,
            e.from_id == from_id,
            e.to_id == to_id,
            e.message_type == message_type,
            e.event_id == event_id,
            e.correlation_id == correlation_id,
            e.occurred_at == occurred_at,
    {
        ChatMessageSent {
            chat_message_id,
            chat_conversation_id,
            from_id,
            to_id,
            message_type,
            event_id,
            correlation_id,
            occurred_at,
        }
    }
}

impl DomainEvent for ChatMessageSent {
    fn event_type(&self) -> (t: &'static str)
        ensures
            t@ == "communication.chat_message.sent"@,
    {
        "communication.chat_message.sent"
    }

    fn schema_version(&self) -> (v: u32)
        ensures
            v == 1,
    {
        1
    }

    fn aggregate_type(&self) -> (t: &'static str)
        ensures
            t@ == "chat_message"@,
    {
        "chat_message"
    }

    fn event_id(&self) -> (id: EventId)
        ensures
            id == self.event_id,
    {
        self.event_id
    }

    fn aggregate_id(&self) -> (id: u128)
        ensures
            id == self.chat_message_id.value,
    {
        self.chat_message_id.as_uuid()
    }

    fn school_id(&self) -> (s: SchoolId)
        ensures
            s == self.chat_message_id.school_id,
    {
        self.chat_message_id.school_id()
    }

    fn occurred_at(&self) -> (t: Timestamp)
        ensures
            t == self.occurred_at,
    {
        self.occurred_at
    }
}

/// Emitted when a `ChatMessage` is seen by its recipient.
#[derive(Debug, Clone, PartialEq)]
pub struct ChatMessageSeen {
    pub chat_message_id: ChatMessageId,
    pub seen_by: UserId,
    pub seen_at: Timestamp,
    pub event_id: EventId,
    pub correlation_id: CorrelationId,
    pub occurred_at: Timestamp,
}

impl ChatMessageSeen {
    /// Builds the event from its fields.
    pub fn new(
        chat_message_id: ChatMessageId,
        seen_by: UserId,
        seen_at: Timestamp,
        event_id: EventId,
        correlation_id: CorrelationId,
        occurred_at: Timestamp,
    ) -> (e: Self)
        ensures
            e.chat_message_id == chat_message_id,
            e.seen_by == seen_by,
            e.seen_at == seen_at,
            e.event_id == event_id,
            e.correlation_id == correlation_id,
            e.occurred_at == occurred_at,
    {
        ChatMessageSeen {
            chat_message_id,
            seen_by,
            seen_at,
            event_id,
            correlation_id,
            occurred_at,
        }
    }
}

impl DomainEvent for ChatMessageSeen {
    fn event_type(&self) -> (t: &'static str)
        ensures
            t@ == "communication.chat_message.seen"@,
    {
        "communication.chat_message.seen"
    }

    fn schema_version(&self) -> (v: u32)
        ensures
            v == 1,
    {
        1
    }

    fn aggregate_type(&self) -> (t: &'static str)
        ensures
            t@ == "chat_message"@,
    {
        "chat_message"
    }

    fn event_id(&self) -> (id: EventId)
        ensures
            id == self.event_id,
    {
        self.event_id
    }

    fn aggregate_id(&self) -> (id: u128)
        ensures
            id == self.chat_message_id.value,
    {
        self.chat_message_id.as_uuid()
    }

    fn school_id(&self) -> (s: SchoolId)
        ensures
            s == self.chat_message_id.school_id,
    {
        self.chat_message_id.school_id()
    }

    fn occurred_at(&self) -> (t: Timestamp)
        ensures
            t == self.occurred_at,
    {
        self.occurred_at
    }
}

/// Emitted when a `ChatMessage` is soft-deleted.
#[derive(Debug, Clone, PartialEq)]
pub struct ChatMessageDeleted {
    pub chat_message_id: ChatMessageId,
    pub deleted_by: UserId,
    pub event_id: EventId,
    pub correlation_id: CorrelationId,
    pub occurred_at: Timestamp,
}

impl ChatMessageDeleted {
    /// Builds the event from its fields.
    pub fn new(
        chat_message_id: ChatMessageId,
        deleted_by: UserId,
        event_id: EventId,
        correlation_id: CorrelationId,
        occurred_at: Timestamp,
    ) -> (e: Self)
        ensures
            e.chat_message_id == chat_message_id,
            e.deleted_by == deleted_by,
            e.event_id == event_id,
            e.correlation_id == correlation_id,
            e.occurred_at == occurred_at,
    {
        ChatMessageDeleted {
            chat_message_id,
            deleted_by,
            event_id,
            correlation_id,
            occurred_at,
        }
    }
}

impl DomainEvent for ChatMessageDeleted {
    fn event_type(&self) -> (t: &'static str)
        ensures
            t@ == "communication.chat_message.deleted"@,
    {
        "communication.chat_message.deleted"
    }

    fn schema_version(&self) -> (v: u32)
        ensures
            v == 1,
    {
        1
    }

    fn aggregate_type(&self) -> (t: &'static str)
        ensures
            t@ == "chat_message"@,
    {
        "chat_message"
    }

    fn event_id(&self) -> (id: EventId)
        ensures
            id == self.event_id,
    {
        self.event_id
    }

    fn aggregate_id(&self) -> (id: u128)
        ensures
            id == self.chat_message_id.value,
    {
        self.chat_message_id.as_uuid()
    }

    fn school_id(&self) -> (s: SchoolId)
        ensures
            s == self.chat_message_id.school_id,
    {
        self.chat_message_id.school_id()
    }

    fn occurred_at(&self) -> (t: Timestamp)
        ensures
            t == self.occurred_at,
    {
        self.occurred_at
    }
}

// =============================================================================
// Chat group events
// =============================================================================

/// Emitted when a new `ChatGroup` is created.
#[derive(Debug, Clone, PartialEq)]
pub struct ChatGroupCreated {
    pub chat_group_id: ChatGroupId,
    pub name: String,
    pub privacy: ChatGroupPrivacy,
    pub group_type: ChatGroupType,
    pub created_by: UserId,
    pub event_id: EventId,
    pub correlation_id: CorrelationId,
    pub occurred_at: Timestamp,
}

impl ChatGroupCreated {
    /// Builds the event from its fields.
    pub fn new(
        chat_group_id: ChatGroupId,
        name: String,
        privacy: ChatGroupPrivacy,
        group_type: ChatGroupType,
        created_by: UserId,
        event_id: EventId,
        correlation_id: CorrelationId,
        occurred_at: Timestamp,
    ) -> (e: Self)
        ensures
            e.chat_group_id == chat_group_id,
            e.name == name,
            e.privacy == privacy,
            e.group_type == group_type,
            e.created_by == created_by,
            e.event_id == event_id,
            e.correlation_id == correlation_id,
            e.occurred_at == occurred_at,
    {
        ChatGroupCreated {
            chat_group_id,
            name,
            privacy,
            group_type,
            created_by,
            event_id,
            correlation_id,
            occurred_at,
        }
    }
}

impl DomainEvent for ChatGroupCreated {
    fn event_type(&self) -> (t: &'static str)
        ensures
            t@ == "communication.chat_group.created"@,
    {
        "communication.chat_group.created"
    }

    fn schema_version(&self) -> (v: u32)
        ensures
            v == 1,
    {
        1
    }

    fn aggregate_type(&self) -> (t: &'static str)
        ensures
            t@ == "chat_group"@,
    {
        "chat_group"
    }

    fn event_id(&self) -> (id: EventId)
        ensures
            id == self.event_id,
    {
        self.event_id
    }

    fn aggregate_id(&self) -> (id: u128)
        ensures
            id == self.chat_group_id.value,
    {
        self.chat_group_id.as_uuid()
    }

    fn school_id(&self) -> (s: SchoolId)
        ensures
            s == self.chat_group_id.school_id,
    {
        self.chat_group_id.school_id()
    }

    fn occurred_at(&self) -> (t: Timestamp)
        ensures
            t == self.occurred_at,
    {
        self.occurred_at
    }
}

/// Emitted when a `ChatGroup` is updated.
#[derive(Debug, Clone, PartialEq)]
pub struct ChatGroupUpdated {
    pub chat_group_id: ChatGroupId,
    pub changes: Vec<String>,
    pub event_id: EventId,
    pub correlation_id: CorrelationId,
    pub occurred_at: Timestamp,
}

impl ChatGroupUpdated {
    /// Builds the event from its fields.
    pub fn new(
        chat_group_id: ChatGroupId,
        changes: Vec<String>,
        event_id: EventId,
        correlation_id: CorrelationId,
        occurred_at: Timestamp,
    ) -> (e: Self)
        ensures
            e.chat_group_id == chat_group_id,
            e.changes == changes,
            e.event_id == event_id,
            e.correlation_id == correlation_id,
            e.occurred_at == occurred_at,
    {
        ChatGroupUpdated {
            chat_group_id,
            changes,
            event_id,
            correlation_id,
            occurred_at,
        }
    }
}

impl DomainEvent for ChatGroupUpdated {
    fn event_type(&self) -> (t: &'static str)
        ensures
            t@ == "communication.chat_group.updated"@,
    {
        "communication.chat_group.updated"
    }

    fn schema_version(&self) -> (v: u32)
        ensures
            v == 1,
    {
        1
    }

    fn aggregate_type(&self) -> (t: &'static str)
        ensures
            t@ == "chat_group"@,
    {
        "chat_group"
    }

    fn event_id(&self) -> (id: EventId)
        ensures
            id == self.event_id,
    {
        self.event_id
    }

    fn aggregate_id(&self) -> (id: u128)
        ensures
            id == self.chat_group_id.value,
    {
        self.chat_group_id.as_uuid()
    }

    fn school_id(&self) -> (s: SchoolId)
        ensures
            s == self.chat_group_id.school_id,
    {
        self.chat_group_id.school_id()
    }

    fn occurred_at(&self) -> (t: Timestamp)
        ensures
            t == self.occurred_at,
    {
        self.occurred_at
    }
}

/// Emitted when a `ChatGroup`'s read-only flag is changed.
#[derive(Debug, Clone, PartialEq)]
pub struct ChatGroupReadOnlySet {
    pub chat_group_id: ChatGroupId,
    pub read_only: bool,
    pub event_id: EventId,
    pub correlation_id: CorrelationId,
    pub occurred_at: Timestamp,
}

impl ChatGroupReadOnlySet {
    /// Builds the event from its fields.
    pub fn new(
        chat_group_id: ChatGroupId,
        read_only: bool,
        event_id: EventId,
        correlation_id: CorrelationId,
        occurred_at: Timestamp,
    ) -> (e: Self)
        ensures
            e.chat_group_id == chat_group_id,
            e.read_only == read_only,
            e.event_id == event_id,
            e.correlation_id == correlation_id,
            e.occurred_at == occurred_at,
    {
        ChatGroupReadOnlySet {
            chat_group_id,
            read_only,
            event_id,
            correlation_id,
            occurred_at,
        }
    }
}

impl DomainEvent for ChatGroupReadOnlySet {
    fn event_type(&self) -> (t: &'static str)
        ensures
            t@ == "communication.chat_group.read_only_set"@,
    {
        "communication.chat_group.read_only_set"
    }

    fn schema_version(&self) -> (v: u32)
        ensures
            v == 1,
    {
        1
    }

    fn aggregate_type(&self) -> (t: &'static str)
        ensures
            t@ == "chat_group"@,
    {
        "chat_group"
    }

    fn event_id(&self) -> (id: EventId)
        ensures
            id == self.event_id,
    {
        self.event_id
    }

    fn aggregate_id(&self) -> (id: u128)
        ensures
            id == self.chat_group_id.value,
    {
        self.chat_group_id.as_uuid()
    }

    fn school_id(&self) -> (s: SchoolId)
        ensures
            s == self.chat_group_id.school_id,
    {
        self.chat_group_id.school_id()
    }

    fn occurred_at(&self) -> (t: Timestamp)
        ensures
            t == self.occurred_at,
    {
        self.occurred_at
    }
}

/// Emitted when a `ChatGroup` is deleted.
#[derive(Debug, Clone, PartialEq)]
pub struct ChatGroupDeleted {
    pub chat_group_id: ChatGroupId,
    pub event_id: EventId,
    pub correlation_id: CorrelationId,
    pub occurred_at: Timestamp,
}

impl ChatGroupDeleted {
    /// Builds the event from its fields.
    pub fn new(
        chat_group_id: ChatGroupId,
        event_id: EventId,
        correlation_id: CorrelationId,
        occurred_at: Timestamp,
    ) -> (e: Self)
        ensures
            e.chat_group_id == chat_group_id,
            e.event_id == event_id,
            e.correlation_id == correlation_id,
            e.occurred_at == occurred_at,
    {
        ChatGroupDeleted {
            chat_group_id,
            event_id,
            correlation_id,
            occurred_at,
        }
    }
}

impl DomainEvent for ChatGroupDeleted {
    fn event_type(&self) -> (t: &'static str)
        ensures
            t@ == "communication.chat_group.deleted"@,
    {
        "communication.chat_group.deleted"
    }

    fn schema_version(&self) -> (v: u32)
        ensures
            v == 1,
    {
        1
    }

    fn aggregate_type(&self) -> (t: &'static str)
        ensures
            t@ == "chat_group"@,
    {
        "chat_group"
    }

    fn event_id(&self) -> (id: EventId)
        ensures
            id == self.event_id,
    {
        self.event_id
    }

    fn aggregate_id(&self) -> (id: u128)
        ensures
            id == self.chat_group_id.value,
    {
        self.chat_group_id.as_uuid()
    }

    fn school_id(&self) -> (s: SchoolId)
        ensures
            s == self.chat_group_id.school_id,
    {
        self.chat_group_id.school_id()
    }

    fn occurred_at(&self) -> (t: Timestamp)
        ensures
            t == self.occurred_at,
    {
        self.occurred_at
    }
}

// =============================================================================
// Chat group membership events
// =============================================================================

/// Emitted when a user is added to a `ChatGroup`.
#[derive(Debug, Clone, PartialEq)]
pub struct ChatGroupUserAdded {
    pub chat_group_id: ChatGroupId,
    pub user_id: UserId,
    pub role: ChatGroupRole,
    pub event_id: EventId,
    pub correlation_id: CorrelationId,
    pub occurred_at: Timestamp,
}

impl ChatGroupUserAdded {
    /// Builds the event from its fields.
    pub fn new(
        chat_group_id: ChatGroupId,
        user_id: UserId,
        role: ChatGroupRole,
        event_id: EventId,
        correlation_id: CorrelationId,
        occurred_at: Timestamp,
    ) -> (e: Self)
        ensures
            e.chat_group_id == chat_group_id,
            e.user_id == user_id,
            e.role == role,
            e.event_id == event_id,
            e.correlation_id == correlation_id,
            e.occurred_at == occurred_at,
    {
        ChatGroupUserAdded {
            chat_group_id,
            user_id,
            role,
            event_id,
            correlation_id,
            occurred_at,
        }
    }
}

impl DomainEvent for ChatGroupUserAdded {
    fn event_type(&self) -> (t: &'static str)
        ensures
            t@ == "communication.chat_group_user.added"@,
    {
        "communication.chat_group_user.added"
    }

    fn schema_version(&self) -> (v: u32)
        ensures
            v == 1,
    {
        1
    }

    fn aggregate_type(&self) -> (t: &'static str)
        ensures
            t@ == "chat_group_user"@,
    {
        "chat_group_user"
    }

    fn event_id(&self) -> (id: EventId)
        ensures
            id == self.event_id,
    {
        self.event_id
    }

    fn aggregate_id(&self) -> (id: u128)
        ensures
            id == self.chat_group_id.value,
    {
        self.chat_group_id.as_uuid()
    }

    fn school_id(&self) -> (s: SchoolId)
        ensures
            s == self.chat_group_id.school_id,
    {
        self.chat_group_id.school_id()
    }

    fn occurred_at(&self) -> (t: Timestamp)
        ensures
            t == self.occurred_at,
    {
        self.occurred_at
    }
}

/// Emitted when a `ChatGroup` member's role is changed.
#[derive(Debug, Clone, PartialEq)]
pub struct ChatGroupUserRoleChanged {
    pub chat_group_id: ChatGroupId,
    pub user_id: UserId,
    pub from: ChatGroupRole,
    pub to: ChatGroupRole,
    pub event_id: EventId,
    pub correlation_id: CorrelationId,
    pub occurred_at: Timestamp,
}

impl ChatGroupUserRoleChanged {
    /// Builds the event from its fields.
    pub fn new(
        chat_group_id: ChatGroupId,
        user_id: UserId,
        from: ChatGroupRole,
        to: ChatGroupRole,
        event_id: EventId,
        correlation_id: CorrelationId,
        occurred_at: Timestamp,
    ) -> (e: Self)
        ensures
            e.chat_group_id == chat_group_id,
            e.user_id == user_id,
            e.from == from,
            e.to == to,
            e.event_id == event_id,
            e.correlation_id == correlation_id,
            e.occurred_at == occurred_at,
    {
        ChatGroupUserRoleChanged {
            chat_group_id,
            user_id,
            from,
            to,
            event_id,
            correlation_id,
            occurred_at,
        }
    }
}

impl DomainEvent for ChatGroupUserRoleChanged {
    fn event_type(&self) -> (t: &'static str)
        ensures
            t@ == "communication.chat_group_user.role_changed"@,
    {
        "communication.chat_group_user.role_changed"
    }

    fn schema_version(&self) -> (v: u32)
        ensures
            v == 1,
    {
        1
    }

    fn aggregate_type(&self) -> (t: &'static str)
        ensures
            t@ == "chat_group_user"@,
    {
        "chat_group_user"
    }

    fn event_id(&self) -> (id: EventId)
        ensures
            id == self.event_id,
    {
        self.event_id
    }

    fn aggregate_id(&self) -> (id: u128)
        ensures
            id == self.chat_group_id.value,
    {
        self.chat_group_id.as_uuid()
    }

    fn school_id(&self) -> (s: SchoolId)
        ensures
            s == self.chat_group_id.school_id,
    {
        self.chat_group_id.school_id()
    }

    fn occurred_at(&self) -> (t: Timestamp)
        ensures
            t == self.occurred_at,
    {
        self.occurred_at
    }
}

/// Emitted when a user is removed from a `ChatGroup`.
#[derive(Debug, Clone, PartialEq)]
pub struct ChatGroupUserRemoved {
    pub chat_group_id: ChatGroupId,
    pub user_id: UserId,
    pub removed_by: UserId,
    pub event_id: EventId,
    pub correlation_id: CorrelationId,
    pub occurred_at: Timestamp,
}

impl ChatGroupUserRemoved {
    /// Builds the event from its fields.
    pub fn new(
        chat_group_id: ChatGroupId,
        user_id: UserId,
        removed_by: UserId,
        event_id: EventId,
        correlation_id: CorrelationId,
        occurred_at: Timestamp,
    ) -> (e: Self)
        ensures
            e.chat_group_id == chat_group_id,
            e.user_id == user_id,
            e.removed_by == removed_by,
            e.event_id == event_id,
            e.correlation_id == correlation_id,
            e.occurred_at == occurred_at,
    {
        ChatGroupUserRemoved {
            chat_group_id,
            user_id,
            removed_by,
            event_id,
            correlation_id,
            occurred_at,
        }
    }
}

impl DomainEvent for ChatGroupUserRemoved {
    fn event_type(&self) -> (t: &'static str)
        ensures
            t@ == "communication.chat_group_user.removed"@,
    {
        "communication.chat_group_user.removed"
    }

    fn schema_version(&self) -> (v: u32)
        ensures
            v == 1,
    {
        1
    }

    fn aggregate_type(&self) -> (t: &'static str)
        ensures
            t@ == "chat_group_user"@,
    {
        "chat_group_user"
    }

    fn event_id(&self) -> (id: EventId)
        ensures
            id == self.event_id,
    {
        self.event_id
    }

    fn aggregate_id(&self) -> (id: u128)
        ensures
            id == self.chat_group_id.value,
    {
        self.chat_group_id.as_uuid()
    }

    fn school_id(&self) -> (s: SchoolId)
        ensures
            s == self.chat_group_id.school_id,
    {
        self.chat_group_id.school_id()
    }

    fn occurred_at(&self) -> (t: Timestamp)
        ensures
            t == self.occurred_at,
    {
        self.occurred_at
    }
}

// =============================================================================
// Chat group delivery events
// =============================================================================

/// Emitted when a per-recipient delivery row is recorded for a
/// group message.
#[derive(Debug, Clone, PartialEq)]
pub struct GroupMessageRecipientRecorded {
    pub chat_group_message_recipient_id: ChatGroupMessageRecipientId,
    pub chat_group_id: ChatGroupId,
    pub user_id: UserId,
    pub event_id: EventId,
    pub correlation_id: CorrelationId,
    pub occurred_at: Timestamp,
}

impl GroupMessageRecipientRecorded {
    /// Builds the event from its fields.
    pub fn new(
        chat_group_message_recipient_id: ChatGroupMessageRecipientId,
        chat_group_id: ChatGroupId,
        user_id: UserId,
        event_id: EventId,
        correlation_id: CorrelationId,
        occurred_at: Timestamp,
    ) -> (e: Self)
        ensures
            e.chat_group_message_recipient_id == chat_group_message_recipient_id,
            e.chat_group_id == chat_group_id,
            e.user_id == user_id,
            e.event_id == event_id,
            e.correlation_id == correlation_id,
            e.occurred_at == occurred_at,
    {
        GroupMessageRecipientRecorded {
            chat_group_message_recipient_id,
            chat_group_id,
            user_id,
            event_id,
            correlation_id,
            occurred_at,
        }
    }
}

impl DomainEvent for GroupMessageRecipientRecorded {
    fn event_type(&self) -> (t: &'static str)
        ensures
            t@ == "communication.chat_group_message_recipient.recorded"@,
    {
        "communication.chat_group_message_recipient.recorded"
    }

    fn schema_version(&self) -> (v: u32)
        ensures
            v == 1,
    {
        1
    }

    fn aggregate_type(&self) -> (t: &'static str)
        ensures
            t@ == "chat_group_message_recipient"@,
    {
        "chat_group_message_recipient"
    }

    fn event_id(&self) -> (id: EventId)
        ensures
            id == self.event_id,
    {
        self.event_id
    }

    fn aggregate_id(&self) -> (id: u128)
        ensures
            id == self.chat_group_message_recipient_id.value,
    {
        self.chat_group_message_recipient_id.as_uuid()
    }

    fn school_id(&self) -> (s: SchoolId)
        ensures
            s == self.chat_group_message_recipient_id.school_id,
    {
        self.chat_group_message_recipient_id.school_id()
    }

    fn occurred_at(&self) -> (t: Timestamp)
        ensures
            t == self.occurred_at,
    {
        self.occurred_at
    }
}

/// Emitted when a recipient marks a group message as read.
#[derive(Debug, Clone, PartialEq)]
pub struct GroupMessageMarkedRead {
    pub chat_group_message_recipient_id: ChatGroupMessageRecipientId,
    pub read_at: Timestamp,
    pub event_id: EventId,
    pub correlation_id: CorrelationId,
    pub occurred_at: Timestamp,
}

impl GroupMessageMarkedRead {
    /// Builds the event from its fields.
    pub fn new(
        chat_group_message_recipient_id: ChatGroupMessageRecipientId,
        read_at: Timestamp,
        event_id: EventId,
        correlation_id: CorrelationId,
        occurred_at: Timestamp,
    ) -> (e: Self)
        ensures
            e.chat_group_message_recipient_id == chat_group_message_recipient_id,
            e.read_at == read_at,
            e.event_id == event_id,
            e.correlation_id == correlation_id,
            e.occurred_at == occurred_at,
    {
        GroupMessageMarkedRead {
            chat_group_message_recipient_id,
            read_at,
            event_id,
            correlation_id,
            occurred_at,
        }
    }
}

impl DomainEvent for GroupMessageMarkedRead {
    fn event_type(&self) -> (t: &'static str)
        ensures
            t@ == "communication.chat_group_message_recipient.marked_read"@,
    {
        "communication.chat_group_message_recipient.marked_read"
    }

    fn schema_version(&self) -> (v: u32)
        ensures
            v == 1,
    {
        1
    }

    fn aggregate_type(&self) -> (t: &'static str)
        ensures
            t@ == "chat_group_message_recipient"@,
    {
        "chat_group_message_recipient"
    }

    fn event_id(&self) -> (id: EventId)
        ensures
            id == self.event_id,
    {
        self.event_id
    }

    fn aggregate_id(&self) -> (id: u128)
        ensures
            id == self.chat_group_message_recipient_id.value,
    {
        self.chat_group_message_recipient_id.as_uuid()
    }

    fn school_id(&self) -> (s: SchoolId)
        ensures
            s == self.chat_group_message_recipient_id.school_id,
    {
        self.chat_group_message_recipient_id.school_id()
    }

    fn occurred_at(&self) -> (t: Timestamp)
        ensures
            t == self.occurred_at,
    {
        self.occurred_at
    }
}

/// Emitted when a group message is removed for a single user.
#[derive(Debug, Clone, PartialEq)]
pub struct GroupMessageRemovedForUser {
    pub chat_group_message_remove_id: ChatGroupMessageRemoveId,
    pub user_id: UserId,
    pub event_id: EventId,
    pub correlation_id: CorrelationId,
    pub occurred_at: Timestamp,
}

impl GroupMessageRemovedForUser {
    /// Builds the event from its fields.
    pub fn new(
        chat_group_message_remove_id: ChatGroupMessageRemoveId,
        user_id: UserId,
        event_id: EventId,
        correlation_id: CorrelationId,
        occurred_at: Timestamp,
    ) -> (e: Self)
        ensures
            e.chat_group_message_remove_id == chat_group_message_remove_id,
            e.user_id == user_id,
            e.event_id == event_id,
            e.correlation_id == correlation_id,
            e.occurred_at == occurred_at,
    {
        GroupMessageRemovedForUser {
            chat_group_message_remove_id,
            user_id,
            event_id,
            correlation_id,
            occurred_at,
        }
    }
}

impl DomainEvent for GroupMessageRemovedForUser {
    fn event_type(&self) -> (t: &'static str)
        ensures
            t@ == "communication.chat_group_message_remove.removed_for_user"@,
    {
        "communication.chat_group_message_remove.removed_for_user"
    }

    fn schema_version(&self) -> (v: u32)
        ensures
            v == 1,
    {
        1
    }

    fn aggregate_type(&self) -> (t: &'static str)
        ensures
            t@ == "chat_group_message_remove"@,
    {
        "chat_group_message_remove"
    }

    fn event_id(&self) -> (id: EventId)
        ensures
            id == self.event_id,
    {
        self.event_id
    }

    fn aggregate_id(&self) -> (id: u128)
        ensures
            id == self.chat_group_message_remove_id.value,
    {
        self.chat_group_message_remove_id.as_uuid()
    }

    fn school_id(&self) -> (s: SchoolId)
        ensures
            s == self.chat_group_message_remove_id.school_id,
    {
        self.chat_group_message_remove_id.school_id()
    }

    fn occurred_at(&self) -> (t: Timestamp)
        ensures
            t == self.occurred_at,
    {
        self.occurred_at
    }
}

// =============================================================================
// Chat block / invitation / status events
// =============================================================================

/// Emitted when a user blocks another user. The block row has no
/// typed id (the natural key is the
/// `(block_by, block_to)` pair), so `aggregate_id()` is derived
/// deterministically from `block_by` via a v5 UUID in the
/// `AGGREGATE_ID_NAMESPACE`. The `school_id` is carried on the
/// event payload because `UserId` is not school-scoped.
#[derive(Debug, Clone, PartialEq)]
pub struct UserBlocked {
    pub school_id: SchoolId,
    pub block_by: UserId,
    pub block_to: UserId,
    pub blocked_at: Timestamp,
    pub event_id: EventId,
    pub correlation_id: CorrelationId,
    pub occurred_at: Timestamp,
}

impl UserBlocked {
    /// Builds the event from its fields.
    pub fn new(
        school_id: SchoolId,
        block_by: UserId,
        block_to: UserId,
        blocked_at: Timestamp,
        event_id: EventId,
        correlation_id: CorrelationId,
        occurred_at: Timestamp,
    ) -> (e: Self)
        ensures
            e.school_id == school_id,
            e.block_by == block_by,
            e.block_to == block_to,
            e.blocked_at == blocked_at,
            e.event_id == event_id,
            e.correlation_id == correlation_id,
            e.occurred_at == occurred_at,
    {
        UserBlocked {
            school_id,
            block_by,
            block_to,
            blocked_at,
            event_id,
            correlation_id,
            occurred_at,
        }
    }
}

impl DomainEvent for UserBlocked {
    fn event_type(&self) -> (t: &'static str)
        ensures
            t@ == "communication.chat_block_user.blocked"@,
    {
        "communication.chat_block_user.blocked"
    }

    fn schema_version(&self) -> (v: u32)
        ensures
            v == 1,
    {
        1
    }

    fn aggregate_type(&self) -> (t: &'static str)
        ensures
            t@ == "chat_block_user"@,
    {
        "chat_block_user"
    }

    fn event_id(&self) -> (id: EventId)
        ensures
            id == self.event_id,
    {
        self.event_id
    }

    fn aggregate_id(&self) -> (id: u128)
        ensures
            id == uuid_v5(AGGREGATE_ID_NAMESPACE, self.block_by.value),
    {
        derive_uuid_v5(AGGREGATE_ID_NAMESPACE, self.block_by.as_uuid())
    }

    fn school_id(&self) -> (s: SchoolId)
        ensures
            s == self.school_id,
    {
        self.school_id
    }

    fn occurred_at(&self) -> (t: Timestamp)
        ensures
            t == self.occurred_at,
    {
        self.occurred_at
    }
}

/// Emitted when a user unblocks another user. `aggregate_id()` is
/// derived from `block_by` for the same reason as
/// [`UserBlocked`].
#[derive(Debug, Clone, PartialEq)]
pub struct UserUnblocked {
    pub school_id: SchoolId,
    pub block_by: UserId,
    pub block_to: UserId,
    pub event_id: EventId,
    pub correlation_id: CorrelationId,
    pub occurred_at: Timestamp,
}

impl UserUnblocked {
    /// Builds the event from its fields.
    pub fn new(
        school_id: SchoolId,
        block_by: UserId,
        block_to: UserId,
        event_id: EventId,
        correlation_id: CorrelationId,
        occurred_at: Timestamp,
    ) -> (e: Self)
        ensures
            e.school_id == school_id,
            e.block_by == block_by,
            e.block_to == block_to,
            e.event_id == event_id,
            e.correlation_id == correlation_id,
            e.occurred_at == occurred_at,
    {
        UserUnblocked {
            school_id,
            block_by,
            block_to,
            event_id,
            correlation_id,
            occurred_at,
        }
    }
}

impl DomainEvent for UserUnblocked {
    fn event_type(&self) -> (t: &'static str)
        ensures
            t@ == "communication.chat_block_user.unblocked"@,
    {
        "communication.chat_block_user.unblocked"
    }

    fn schema_version(&self) -> (v: u32)
        ensures
            v == 1,
    {
        1
    }

    fn aggregate_type(&self) -> (t: &'static str)
        ensures
            t@ == "chat_block_user"@,
    {
        "chat_block_user"
    }

    fn event_id(&self) -> (id: EventId)
        ensures
            id == self.event_id,
    {
        self.event_id
    }

    fn aggregate_id(&self) -> (id: u128)
        ensures
            id == uuid_v5(AGGREGATE_ID_NAMESPACE, self.block_by.value),
    {
        derive_uuid_v5(AGGREGATE_ID_NAMESPACE, self.block_by.as_uuid())
    }

    fn school_id(&self) -> (s: SchoolId)
        ensures
            s == self.school_id,
    {
        self.school_id
    }

    fn occurred_at(&self) -> (t: Timestamp)
        ensures
            t == self.occurred_at,
    {
        self.occurred_at
    }
}

/// Emitted when a chat invitation is sent.
#[derive(Debug, Clone, PartialEq)]
pub struct ChatInvitationSent {
    pub chat_invitation_id: ChatInvitationId,
    pub from: UserId,
    pub to: UserId,
    pub invitation_type: ChatInvitationTypeEnum,
    pub event_id: EventId,
    pub correlation_id: CorrelationId,
    pub occurred_at: Timestamp,
}

impl ChatInvitationSent {
    /// Builds the event from its fields.
    pub fn new(
        chat_invitation_id: ChatInvitationId,
        from: UserId,
        to: UserId,
        invitation_type: ChatInvitationTypeEnum,
        event_id: EventId,
        correlation_id: CorrelationId,
        occurred_at: Timestamp,
    ) -> (e: Self)
        ensures
            e.chat_invitation_id == chat_invitation_id,
            e.from == from,
            e.to == to,
            e.invitation_type == invitation_type,
            e.event_id == event_id,
            e.correlation_id == correlation_id,
            e.occurred_at == occurred_at,
    {
        ChatInvitationSent {
            chat_invitation_id,
            from,
            to,
            invitation_type,
            event_id,
            correlation_id,
            occurred_at,
        }
    }
}

impl DomainEvent for ChatInvitationSent {
    fn event_type(&self) -> (t: &'static str)
        ensures
            t@ == "communication.chat_invitation.sent"@,
    {
        "communication.chat_invitation.sent"
    }

    fn schema_version(&self) -> (v: u32)
        ensures
            v == 1,
    {
        1
    }

    fn aggregate_type(&self) -> (t: &'static str)
        ensures
            t@ == "chat_invitation"@,
    {
        "chat_invitation"
    }

    fn event_id(&self) -> (id: EventId)
        ensures
            id == self.event_id,
    {
        self.event_id
    }

    fn aggregate_id(&self) -> (id: u128)
        ensures
            id == self.chat_invitation_id.value,
    {
        self.chat_invitation_id.as_uuid()
    }

    fn school_id(&self) -> (s: SchoolId)
        ensures
            s == self.chat_invitation_id.school_id,
    {
        self.chat_invitation_id.school_id()
    }

    fn occurred_at(&self) -> (t: Timestamp)
        ensures
            t == self.occurred_at,
    {
        self.occurred_at
    }
}

/// Emitted when a chat invitation is accepted.
#[derive(Debug, Clone, PartialEq)]
pub struct ChatInvitationAccepted {
    pub chat_invitation_id: ChatInvitationId,
    pub accepted_by: UserId,
    pub event_id: EventId,
    pub correlation_id: CorrelationId,
    pub occurred_at: Timestamp,
}

impl ChatInvitationAccepted {
    /// Builds the event from its fields.
    pub fn new(
        chat_invitation_id: ChatInvitationId,
        accepted_by: UserId,
        event_id: EventId,
        correlation_id: CorrelationId,
        occurred_at: Timestamp,
    ) -> (e: Self)
        ensures
            e.chat_invitation_id == chat_invitation_id,
            e.accepted_by == accepted_by,
            e.event_id == event_id,
            e.correlation_id == correlation_id,
            e.occurred_at == occurred_at,
    {
        ChatInvitationAccepted {
            chat_invitation_id,
            accepted_by,
            event_id,
            correlation_id,
            occurred_at,
        }
    }
}

impl DomainEvent for ChatInvitationAccepted {
    fn event_type(&self) -> (t: &'static str)
        ensures
            t@ == "communication.chat_invitation.accepted"@,
    {
        "communication.chat_invitation.accepted"
    }

    fn schema_version(&self) -> (v: u32)
        ensures
            v == 1,
    {
        1
    }

    fn aggregate_type(&self) -> (t: &'static str)
        ensures
            t@ == "chat_invitation"@,
    {
        "chat_invitation"
    }

    fn event_id(&self) -> (id: EventId)
        ensures
            id == self.event_id,
    {
        self.event_id
    }

    fn aggregate_id(&self) -> (id: u128)
        ensures
            id == self.chat_invitation_id.value,
    {
        self.chat_invitation_id.as_uuid()
    }

    fn school_id(&self) -> (s: SchoolId)
        ensures
            s == self.chat_invitation_id.school_id,
    {
        self.chat_invitation_id.school_id()
    }

    fn occurred_at(&self) -> (t: Timestamp)
        ensures
            t == self.occurred_at,
    {
        self.occurred_at
    }
}

/// Emitted when a chat invitation is rejected.
#[derive(Debug, Clone, PartialEq)]
pub struct ChatInvitationRejected {
    pub chat_invitation_id: ChatInvitationId,
    pub rejected_by: UserId,
    pub event_id: EventId,
    pub correlation_id: CorrelationId,
    pub occurred_at: Timestamp,
}

impl ChatInvitationRejected {
    /// Builds the event from its fields.
    pub fn new(
        chat_invitation_id: ChatInvitationId,
        rejected_by: UserId,
        event_id: EventId,
        correlation_id: CorrelationId,
        occurred_at: Timestamp,
    ) -> (e: Self)
        ensures
            e.chat_invitation_id == chat_invitation_id,
            e.rejected_by == rejected_by,
            e.event_id == event_id,
            e.correlation_id == correlation_id,
            e.occurred_at == occurred_at,
    {
        ChatInvitationRejected {
            chat_invitation_id,
            rejected_by,
            event_id,
            correlation_id,
            occurred_at,
        }
    }
}

impl DomainEvent for ChatInvitationRejected {
    fn event_type(&self) -> (t: &'static str)
        ensures
            t@ == "communication.chat_invitation.rejected"@,
    {
        "communication.chat_invitation.rejected"
    }

    fn schema_version(&self) -> (v: u32)
        ensures
            v == 1,
    {
        1
    }

    fn aggregate_type(&self) -> (t: &'static str)
        ensures
            t@ == "chat_invitation"@,
    {
        "chat_invitation"
    }

    fn event_id(&self) -> (id: EventId)
        ensures
            id == self.event_id,
    {
        self.event_id
    }

    fn aggregate_id(&self) -> (id: u128)
        ensures
            id == self.chat_invitation_id.value,
    {
        self.chat_invitation_id.as_uuid()
    }

    fn school_id(&self) -> (s: SchoolId)
        ensures
            s == self.chat_invitation_id.school_id,
    {
        self.chat_invitation_id.school_id()
    }

    fn occurred_at(&self) -> (t: Timestamp)
        ensures
            t == self.occurred_at,
    {
        self.occurred_at
    }
}

/// Emitted when a user sets their chat status. There is no typed
/// id for the per-user status row, so `aggregate_id()` is
/// deterministically derived from `user_id` via a v5 UUID in the
/// `AGGREGATE_ID_NAMESPACE`. The `school_id` is carried on the
/// event payload because `UserId` is not school-scoped.
#[derive(Debug, Clone, PartialEq)]
pub struct ChatStatusSet {
    pub school_id: SchoolId,
    pub user_id: UserId,
    pub status: ChatStatus,
    pub set_at: Timestamp,
    pub event_id: EventId,
    pub correlation_id: CorrelationId,
    pub occurred_at: Timestamp,
}

impl ChatStatusSet {
    /// Builds the event from its fields.
    pub fn new(
        school_id: SchoolId,
        user_id: UserId,
        status: ChatStatus,
        set_at: Timestamp,
        event_id: EventId,
        correlation_id: CorrelationId,
        occurred_at: Timestamp,
    ) -> (e: Self)
        ensures
            e.school_id == school_id,
            e.user_id == user_id,
            e.status == status,
            e.set_at == set_at,
            e.event_id == event_id,
            e.correlation_id == correlation_id,
            e.occurred_at == occurred_at,
    {
        ChatStatusSet {
            school_id,
            user_id,
            status,
            set_at,
            event_id,
            correlation_id,
            occurred_at,
        }
    }
}

impl DomainEvent for ChatStatusSet {
    fn event_type(&self) -> (t: &'static str)
        ensures
            t@ == "communication.chat_status.set"@,
    {
        "communication.chat_status.set"
    }

    fn schema_version(&self) -> (v: u32)
        ensures
            v == 1,
    {
        1
    }

    fn aggregate_type(&self) -> (t: &'static str)
        ensures
            t@ == "chat_status"@,
    {
        "chat_status"
    }

    fn event_id(&self) -> (id: EventId)
        ensures
            id == self.event_id,
    {
        self.event_id
    }

    fn aggregate_id(&self) -> (id: u128)
        ensures
            id == uuid_v5(AGGREGATE_ID_NAMESPACE, self.user_id.value),
    {
        derive_uuid_v5(AGGREGATE_ID_NAMESPACE, self.user_id.as_uuid())
    }

    fn school_id(&self) -> (s: SchoolId)
        ensures
            s == self.school_id,
    {
        self.school_id
    }

    fn occurred_at(&self) -> (t: Timestamp)
        ensures
            t == self.occurred_at,
    {
        self.occurred_at
    }
}

// =============================================================================
// Chat invitation classification event
// =============================================================================

/// Emitted when a chat invitation is classified into a
/// `ChatInvitationType` row. Its `aggregate_id()` is
/// the `chat_invitation_type_id` (the classification row, not the
/// invitation).
#[derive(Debug, Clone, PartialEq)]
pub struct ChatInvitationClassified {
    pub chat_invitation_type_id: ChatInvitationTypeId,
    pub invitation_id: ChatInvitationId,
    pub invitation_type: ChatInvitationTypeEnum,
    pub event_id: EventId,
    pub correlation_id: CorrelationId,
    pub occurred_at: Timestamp,
}

impl ChatInvitationClassified {
    /// Builds the event from its fields.
    pub fn new(
        chat_invitation_type_id: ChatInvitationTypeId,
        invitation_id: ChatInvitationId,
        invitation_type: ChatInvitationTypeEnum,
        event_id: EventId,
        correlation_id: CorrelationId,
        occurred_at: Timestamp,
    ) -> (e: Self)
        ensures
            e.chat_invitation_type_id == chat_invitation_type_id,
            e.invitation_id == invitation_id,
            e.invitation_type == invitation_type,
            e.event_id == event_id,
            e.correlation_id == correlation_id,
            e.occurred_at == occurred_at,
    {
        ChatInvitationClassified {
            chat_invitation_type_id,
            invitation_id,
            invitation_type,
            event_id,
            correlation_id,
            occurred_at,
        }
    }
}

impl DomainEvent for ChatInvitationClassified {
    fn event_type(&self) -> (t: &'static str)
        ensures
            t@ == "communication.chat_invitation_type.classified"@,
    {
        "communication.chat_invitation_type.classified"
    }

    fn schema_version(&self) -> (v: u32)
        ensures
            v == 1,
    {
        1
    }

    fn aggregate_type(&self) -> (t: &'static str)
        ensures
            t@ == "chat_invitation_type"@,
    {
        "chat_invitation_type"
    }

    fn event_id(&self) -> (id: EventId)
        ensures
            id == self.event_id,
    {
        self.event_id
    }

    fn aggregate_id(&self) -> (id: u128)
        ensures
            id == self.chat_invitation_type_id.value,
    {
        self.chat_invitation_type_id.as_uuid()
    }

    fn school_id(&self) -> (s: SchoolId)
        ensures
            s == self.chat_invitation_type_id.school_id,
    {
        self.chat_invitation_type_id.school_id()
    }

    fn occurred_at(&self) -> (t: Timestamp)
        ensures
            t == self.occurred_at,
    {
        self.occurred_at
    }
}

// =============================================================================
// SendMessage events
// =============================================================================

/// Emitted when a `SendMessage` is created.
#[derive(Debug, Clone, PartialEq)]
pub struct SendMessageCreated {
    pub send_message_id: SendMessageId,
    pub audience: AudienceDescriptor,
    pub publish_on: Option<CalendarDate>,
    pub event_id: EventId,
    pub correlation_id: CorrelationId,
    pub occurred_at: Timestamp,
}

impl SendMessageCreated {
    /// Builds the event from its fields.
    pub fn new(
        send_message_id: SendMessageId,
        audience: AudienceDescriptor,
        publish_on: Option<CalendarDate>,
        event_id: EventId,
        correlation_id: CorrelationId,
        occurred_at: Timestamp,
    ) -> (e: Self)
        ensures
            e.send_message_id == send_message_id,
            e.audience == audience,
            e.publish_on == publish_on,
            e.event_id == event_id,
            e.correlation_id == correlation_id,
            e.occurred_at == occurred_at,
    {
        SendMessageCreated {
            send_message_id,
            audience,
            publish_on,
            event_id,
            correlation_id,
            occurred_at,
        }
    }
}

impl DomainEvent for SendMessageCreated {
    fn event_type(&self) -> (t: &'static str)
        ensures
            t@ == "communication.send_message.created"@,
    {
        "communication.send_message.created"
    }

    fn schema_version(&self) -> (v: u32)
        ensures
            v == 1,
    {
        1
    }

    fn aggregate_type(&self) -> (t: &'static str)
        ensures
            t@ == "send_message"@,
    {
        "send_message"
    }

    fn event_id(&self) -> (id: EventId)
        ensures
            id == self.event_id,
    {
        self.event_id
    }

    fn aggregate_id(&self) -> (id: u128)
        ensures
            id == self.send_message_id.value,
    {
        self.send_message_id.as_uuid()
    }

    fn school_id(&self) -> (s: SchoolId)
        ensures
            s == self.send_message_id.school_id,
    {
        self.send_message_id.school_id()
    }

    fn occurred_at(&self) -> (t: Timestamp)
        ensures
            t == self.occurred_at,
    {
        self.occurred_at
    }
}

/// Emitted when a `SendMessage` is dispatched to its audience.
#[derive(Debug, Clone, PartialEq)]
pub struct SendMessageDispatched {
    pub send_message_id: SendMessageId,
    pub recipient_count: u32,
    pub dispatched_at: Timestamp,
    pub event_id: EventId,
    pub correlation_id: CorrelationId,
    pub occurred_at: Timestamp,
}

impl SendMessageDispatched {
    /// Builds the event from its fields.
    pub fn new(
        send_message_id: SendMessageId,
        recipient_count: u32,
        dispatched_at: Timestamp,
        event_id: EventId,
        correlation_id: CorrelationId,
        occurred_at: Timestamp,
    ) -> (e: Self)
        ensures
            e.send_message_id == send_message_id,
            e.recipient_count == recipient_count,
            e.dispatched_at == dispatched_at,
            e.event_id == event_id,
            e.correlation_id == correlation_id,
            e.occurred_at == occurred_at,
    {
        SendMessageDispatched {
            send_message_id,
            recipient_count,
            dispatched_at,
            event_id,
            correlation_id,
            occurred_at,
        }
    }
}

impl DomainEvent for SendMessageDispatched {
    fn event_type(&self) -> (t: &'static str)
        ensures
            t@ == "communication.send_message.dispatched"@,
    {
        "communication.send_message.dispatched"
    }

    fn schema_version(&self) -> (v: u32)
        ensures
            v == 1,
    {
        1
    }

    fn aggregate_type(&self) -> (t: &'static str)
        ensures
            t@ == "send_message"@,
    {
        "send_message"
    }

    fn event_id(&self) -> (id: EventId)
        ensures
            id == self.event_id,
    {
        self.event_id
    }

    fn aggregate_id(&self) -> (id: u128)
        ensures
            id == self.send_message_id.value,
    {
        self.send_message_id.as_uuid()
    }

    fn school_id(&self) -> (s: SchoolId)
        ensures
            s == self.send_message_id.school_id,
    {
        self.send_message_id.school_id()
    }

    fn occurred_at(&self) -> (t: Timestamp)
        ensures
            t == self.occurred_at,
    {
        self.occurred_at
    }
}

/// Emitted when a `SendMessage` is cancelled before dispatch.
#[derive(Debug, Clone, PartialEq)]
pub struct SendMessageCancelled {
    pub send_message_id: SendMessageId,
    pub reason: String,
    pub event_id: EventId,
    pub correlation_id: CorrelationId,
    pub occurred_at: Timestamp,
}

impl SendMessageCancelled {
    /// Builds the event from its fields.
    pub fn new(
        send_message_id: SendMessageId,
        reason: String,
        event_id: EventId,
        correlation_id: CorrelationId,
        occurred_at: Timestamp,
    ) -> (e: Self)
        ensures
            e.send_message_id == send_message_id,
            e.reason == reason,
            e.event_id == event_id,
            e.correlation_id == correlation_id,
            e.occurred_at == occurred_at,
    {
        SendMessageCancelled {
            send_message_id,
            reason,
            event_id,
            correlation_id,
            occurred_at,
        }
    }
}

impl DomainEvent for SendMessageCancelled {
    fn event_type(&self) -> (t: &'static str)
        ensures
            t@ == "communication.send_message.cancelled"@,
    {
        "communication.send_message.cancelled"
    }

    fn schema_version(&self) -> (v: u32)
        ensures
            v == 1,
    {
        1
    }

    fn aggregate_type(&self) -> (t: &'static str)
        ensures
            t@ == "send_message"@,
    {
        "send_message"
    }

    fn event_id(&self) -> (id: EventId)
        ensures
            id == self.event_id,
    {
        self.event_id
    }

    fn aggregate_id(&self) -> (id: u128)
        ensures
            id == self.send_message_id.value,
    {
        self.send_message_id.as_uuid()
    }

    fn school_id(&self) -> (s: SchoolId)
        ensures
            s == self.send_message_id.school_id,
    {
        self.send_message_id.school_id()
    }

    fn occurred_at(&self) -> (t: Timestamp)
        ensures
            t == self.occurred_at,
    {
        self.occurred_at
    }
}

// =============================================================================
// ContactMessage events
// =============================================================================

/// Emitted when a public contact-form message is received.
#[derive(Debug, Clone, PartialEq)]
pub struct ContactMessageReceived {
    pub contact_message_id: ContactMessageId,
    pub name: PersonName,
    pub email: EmailAddress,
    pub phone: PhoneNumber,
    pub subject: String,
    pub event_id: EventId,
    pub correlation_id: CorrelationId,
    pub occurred_at: Timestamp,
}

impl ContactMessageReceived {
    /// Builds the event from its fields.
    pub fn new(
        contact_message_id: ContactMessageId,
        name: PersonName,
        email: EmailAddress,
        phone: PhoneNumber,
        subject: String,
        event_id: EventId,
        correlation_id: CorrelationId,
        occurred_at: Timestamp,
    ) -> (e: Self)
        ensures
            e.contact_message_id == contact_message_id,
            e.name == name,
            e.email == email,
            e.phone == phone,
            e.subject == subject,
            e.event_id == event_id,
            e.correlation_id == correlation_id,
            e.occurred_at == occurred_at,
    {
        ContactMessageReceived {
            contact_message_id,
            name,
            email,
            phone,
            subject,
            event_id,
            correlation_id,
            occurred_at,
        }
    }
}

impl DomainEvent for ContactMessageReceived {
    fn event_type(&self) -> (t: &'static str)
        ensures
            t@ == "communication.contact_message.received"@,
    {
        "communication.contact_message.received"
    }

    fn schema_version(&self) -> (v: u32)
        ensures
            v == 1,
    {
        1
    }

    fn aggregate_type(&self) -> (t: &'static str)
        ensures
            t@ == "contact_message"@,
    {
        "contact_message"
    }

    fn event_id(&self) -> (id: EventId)
        ensures
            id == self.event_id,
    {
        self.event_id
    }

    fn aggregate_id(&self) -> (id: u128)
        ensures
            id == self.contact_message_id.value,
    {
        self.contact_message_id.as_uuid()
    }

    fn school_id(&self) -> (s: SchoolId)
        ensures
            s == self.contact_message_id.school_id,
    {
        self.contact_message_id.school_id()
    }

    fn occurred_at(&self) -> (t: Timestamp)
        ensures
            t == self.occurred_at,
    {
        self.occurred_at
    }
}

/// Emitted when a staff member views a contact message.
#[derive(Debug, Clone, PartialEq)]
pub struct ContactMessageViewed {
    pub contact_message_id: ContactMessageId,
    pub viewed_by: UserId,
    pub event_id: EventId,
    pub correlation_id: CorrelationId,
    pub occurred_at: Timestamp,
}

impl ContactMessageViewed {
    /// Builds the event from its fields.
    pub fn new(
        contact_message_id: ContactMessageId,
        viewed_by: UserId,
        event_id: EventId,
        correlation_id: CorrelationId,
        occurred_at: Timestamp,
    ) -> (e: Self)
        ensures
            e.contact_message_id == contact_message_id,
            e.viewed_by == viewed_by,
            e.event_id == event_id,
            e.correlation_id == correlation_id,
            e.occurred_at == occurred_at,
    {
        ContactMessageViewed {
            contact_message_id,
            viewed_by,
            event_id,
            correlation_id,
            occurred_at,
        }
    }
}

impl DomainEvent for ContactMessageViewed {
    fn event_type(&self) -> (t: &'static str)
        ensures
            t@ == "communication.contact_message.viewed"@,
    {
        "communication.contact_message.viewed"
    }

    fn schema_version(&self) -> (v: u32)
        ensures
            v == 1,
    {
        1
    }

    fn aggregate_type(&self) -> (t: &'static str)
        ensures
            t@ == "contact_message"@,
    {
        "contact_message"
    }

    fn event_id(&self) -> (id: EventId)
        ensures
            id == self.event_id,
    {
        self.event_id
    }

    fn aggregate_id(&self) -> (id: u128)
        ensures
            id == self.contact_message_id.value,
    {
        self.contact_message_id.as_uuid()
    }

    fn school_id(&self) -> (s: SchoolId)
        ensures
            s == self.contact_message_id.school_id,
    {
        self.contact_message_id.school_id()
    }

    fn occurred_at(&self) -> (t: Timestamp)
        ensures
            t == self.occurred_at,
    {
        self.occurred_at
    }
}

/// Emitted when a staff member replies to a contact message.
#[derive(Debug, Clone, PartialEq)]
pub struct ContactMessageReplied {
    pub contact_message_id: ContactMessageId,
    pub reply_channel: Channel,
    pub replied_by: UserId,
    pub event_id: EventId,
    pub correlation_id: CorrelationId,
    pub occurred_at: Timestamp,
}

impl ContactMessageReplied {
    /// Builds the event from its fields.
    pub fn new(
        contact_message_id: ContactMessageId,
        reply_channel: Channel,
        replied_by: UserId,
        event_id: EventId,
        correlation_id: CorrelationId,
        occurred_at: Timestamp,
    ) -> (e: Self)
        ensures
            e.contact_message_id == contact_message_id,
            e.reply_channel == reply_channel,
            e.replied_by == replied_by,
            e.event_id == event_id,
            e.correlation_id == correlation_id,
            e.occurred_at == occurred_at,
    {
        ContactMessageReplied {
            contact_message_id,
            reply_channel,
            replied_by,
            event_id,
            correlation_id,
            occurred_at,
        }
    }
}

impl DomainEvent for ContactMessageReplied {
    fn event_type(&self) -> (t: &'static str)
        ensures
            t@ == "communication.contact_message.replied"@,
    {
        "communication.contact_message.replied"
    }

    fn schema_version(&self) -> (v: u32)
        ensures
            v == 1,
    {
        1
    }

    fn aggregate_type(&self) -> (t: &'static str)
        ensures
            t@ == "contact_message"@,
    {
        "contact_message"
    }

    fn event_id(&self) -> (id: EventId)
        ensures
            id == self.event_id,
    {
        self.event_id
    }

    fn aggregate_id(&self) -> (id: u128)
        ensures
            id == self.contact_message_id.value,
    {
        self.contact_message_id.as_uuid()
    }

    fn school_id(&self) -> (s: SchoolId)
        ensures
            s == self.contact_message_id.school_id,
    {
        self.contact_message_id.school_id()
    }

    fn occurred_at(&self) -> (t: Timestamp)
        ensures
            t == self.occurred_at,
    {
        self.occurred_at
    }
}

// =============================================================================
// SpeechSlider events
// =============================================================================

/// Emitted when a new `SpeechSlider` is created.
#[derive(Debug, Clone, PartialEq)]
pub struct SpeechSliderCreated {
    pub speech_slider_id: SpeechSliderId,
    pub name: String,
    pub designation: String,
    pub event_id: EventId,
    pub correlation_id: CorrelationId,
    pub occurred_at: Timestamp,
}

impl SpeechSliderCreated {
    /// Builds the event from its fields.
    pub fn new(
        speech_slider_id: SpeechSliderId,
        name: String,
        designation: String,
        event_id: EventId,
        correlation_id: CorrelationId,
        occurred_at: Timestamp,
    ) -> (e: Self)
        ensures
            e.speech_slider_id == speech_slider_id,
            e.name == name,
            e.designation == designation,
            e.event_id == event_id,
            e.correlation_id == correlation_id,
            e.occurred_at == occurred_at,
    {
        SpeechSliderCreated {
            speech_slider_id,
            name,
            designation,
            event_id,
            correlation_id,
            occurred_at,
        }
    }
}

impl DomainEvent for SpeechSliderCreated {
    fn event_type(&self) -> (t: &'static str)
        ensures
            t@ == "communication.speech_slider.created"@,
    {
        "communication.speech_slider.created"
    }

    fn schema_version(&self) -> (v: u32)
        ensures
            v == 1,
    {
        1
    }

    fn aggregate_type(&self) -> (t: &'static str)
        ensures
            t@ == "speech_slider"@,
    {
        "speech_slider"
    }

    fn event_id(&self) -> (id: EventId)
        ensures
            id == self.event_id,
    {
        self.event_id
    }

    fn aggregate_id(&self) -> (id: u128)
        ensures
            id == self.speech_slider_id.value,
    {
        self.speech_slider_id.as_uuid()
    }

    fn school_id(&self) -> (s: SchoolId)
        ensures
            s == self.speech_slider_id.school_id,
    {
        self.speech_slider_id.school_id()
    }

    fn occurred_at(&self) -> (t: Timestamp)
        ensures
            t == self.occurred_at,
    {
        self.occurred_at
    }
}

/// Emitted when a `SpeechSlider` is updated.
#[derive(Debug, Clone, PartialEq)]
pub struct SpeechSliderUpdated {
    pub speech_slider_id: SpeechSliderId,
    pub changes: Vec<String>,
    pub event_id: EventId,
    pub correlation_id: CorrelationId,
    pub occurred_at: Timestamp,
}

impl SpeechSliderUpdated {
    /// Builds the event from its fields.
    pub fn new(
        speech_slider_id: SpeechSliderId,
        changes: Vec<String>,
        event_id: EventId,
        correlation_id: CorrelationId,
        occurred_at: Timestamp,
    ) -> (e: Self)
        ensures
            e.speech_slider_id == speech_slider_id,
            e.changes == changes,
            e.event_id == event_id,
            e.correlation_id == correlation_id,
            e.occurred_at == occurred_at,
    {
        SpeechSliderUpdated {
            speech_slider_id,
            changes,
            event_id,
            correlation_id,
            occurred_at,
        }
    }
}

impl DomainEvent for SpeechSliderUpdated {
    fn event_type(&self) -> (t: &'static str)
        ensures
            t@ == "communication.speech_slider.updated"@,
    {
        "communication.speech_slider.updated"
    }

    fn schema_version(&self) -> (v: u32)
        ensures
            v == 1,
    {
        1
    }

    fn aggregate_type(&self) -> (t: &'static str)
        ensures
            t@ == "speech_slider"@,
    {
        "speech_slider"
    }

    fn event_id(&self) -> (id: EventId)
        ensures
            id == self.event_id,
    {
        self.event_id
    }

    fn aggregate_id(&self) -> (id: u128)
        ensures
            id == self.speech_slider_id.value,
    {
        self.speech_slider_id.as_uuid()
    }

    fn school_id(&self) -> (s: SchoolId)
        ensures
            s == self.speech_slider_id.school_id,
    {
        self.speech_slider_id.school_id()
    }

    fn occurred_at(&self) -> (t: Timestamp)
        ensures
            t == self.occurred_at,
    {
        self.occurred_at
    }
}

/// Emitted when a `SpeechSlider` is deleted.
#[derive(Debug, Clone, PartialEq)]
pub struct SpeechSliderDeleted {
    pub speech_slider_id: SpeechSliderId,
    pub event_id: EventId,
    pub correlation_id: CorrelationId,
    pub occurred_at: Timestamp,
}

impl SpeechSliderDeleted {
    /// Builds the event from its fields.
    pub fn new(
        speech_slider_id: SpeechSliderId,
        event_id: EventId,
        correlation_id: CorrelationId,
        occurred_at: Timestamp,
    ) -> (e: Self)
        ensures
            e.speech_slider_id == speech_slider_id,
            e.event_id == event_id,
            e.correlation_id == correlation_id,
            e.occurred_at == occurred_at,
    {
        SpeechSliderDeleted {
            speech_slider_id,
            event_id,
            correlation_id,
            occurred_at,
        }
    }
}

impl DomainEvent for SpeechSliderDeleted {
    fn event_type(&self) -> (t: &'static str)
        ensures
            t@ == "communication.speech_slider.deleted"@,
    {
        "communication.speech_slider.deleted"
    }

    fn schema_version(&self) -> (v: u32)
        ensures
            v == 1,
    {
        1
    }

    fn aggregate_type(&self) -> (t: &'static str)
        ensures
            t@ == "speech_slider"@,
    {
        "speech_slider"
    }

    fn event_id(&self) -> (id: EventId)
        ensures
            id == self.event_id,
    {
        self.event_id
    }

    fn aggregate_id(&self) -> (id: u128)
        ensures
            id == self.speech_slider_id.value,
    {
        self.speech_slider_id.as_uuid()
    }

    fn school_id(&self) -> (s: SchoolId)
        ensures
            s == self.speech_slider_id.school_id,
    {
        self.speech_slider_id.school_id()
    }

    fn occurred_at(&self) -> (t: Timestamp)
        ensures
            t == self.occurred_at,
    {
        self.occurred_at
    }
}

// =============================================================================
// PhoneCallLog events
// =============================================================================

/// Emitted when a phone call is logged.
#[derive(Debug, Clone, PartialEq)]
pub struct PhoneCallLogged {
    pub phone_call_log_id: PhoneCallLogId,
    pub name: PersonName,
    pub phone: PhoneNumber,
    pub call_type: CallType,
    pub date: CalendarDate,
    pub event_id: EventId,
    pub correlation_id: CorrelationId,
    pub occurred_at: Timestamp,
}

impl PhoneCallLogged {
    /// Builds the event from its fields.
    pub fn new(
        phone_call_log_id: PhoneCallLogId,
        name: PersonName,
        phone: PhoneNumber,
        call_type: CallType,
        date: CalendarDate,
        event_id: EventId,
        correlation_id: CorrelationId,
        occurred_at: Timestamp,
    ) -> (e: Self)
        ensures
            e.phone_call_log_id == phone_call_log_id,
            e.name == name,
            e.phone == phone,
            e.call_type == call_type,
            e.date == date,
            e.event_id == event_id,
            e.correlation_id == correlation_id,
            e.occurred_at == occurred_at,
    {
        PhoneCallLogged {
            phone_call_log_id,
            name,
            phone,
            call_type,
            date,
            event_id,
            correlation_id,
            occurred_at,
        }
    }
}

impl DomainEvent for PhoneCallLogged {
    fn event_type(&self) -> (t: &'static str)
        ensures
            t@ == "communication.phone_call_log.logged"@,
    {
        "communication.phone_call_log.logged"
    }

    fn schema_version(&self) -> (v: u32)
        ensures
            v == 1,
    {
        1
    }

    fn aggregate_type(&self) -> (t: &'static str)
        ensures
            t@ == "phone_call_log"@,
    {
        "phone_call_log"
    }

    fn event_id(&self) -> (id: EventId)
        ensures
            id == self.event_id,
    {
        self.event_id
    }

    fn aggregate_id(&self) -> (id: u128)
        ensures
            id == self.phone_call_log_id.value,
    {
        self.phone_call_log_id.as_uuid()
    }

    fn school_id(&self) -> (s: SchoolId)
        ensures
            s == self.phone_call_log_id.school_id,
    {
        self.phone_call_log_id.school_id()
    }

    fn occurred_at(&self) -> (t: Timestamp)
        ensures
            t == self.occurred_at,
    {
        self.occurred_at
    }
}

/// Emitted when the follow-up date on a phone-call log is updated.
#[derive(Debug, Clone, PartialEq)]
pub struct PhoneCallFollowUpUpdated {
    pub phone_call_log_id: PhoneCallLogId,
    pub next_follow_up_date: CalendarDate,
    pub event_id: EventId,
    pub correlation_id: CorrelationId,
    pub occurred_at: Timestamp,
}

impl PhoneCallFollowUpUpdated {
    /// Builds the event from its fields.
    pub fn new(
        phone_call_log_id: PhoneCallLogId,
        next_follow_up_date: CalendarDate,
        event_id: EventId,
        correlation_id: CorrelationId,
        occurred_at: Timestamp,
    ) -> (e: Self)
        ensures
            e.phone_call_log_id == phone_call_log_id,
            e.next_follow_up_date == next_follow_up_date,
            e.event_id == event_id,
            e.correlation_id == correlation_id,
            e.occurred_at == occurred_at,
    {
        PhoneCallFollowUpUpdated {
            phone_call_log_id,
            next_follow_up_date,
            event_id,
            correlation_id,
            occurred_at,
        }
    }
}

impl DomainEvent for PhoneCallFollowUpUpdated {
    fn event_type(&self) -> (t: &'static str)
        ensures
            t@ == "communication.phone_call_log.follow_up_updated"@,
    {
        "communication.phone_call_log.follow_up_updated"
    }

    fn schema_version(&self) -> (v: u32)
        ensures
            v == 1,
    {
        1
    }

    fn aggregate_type(&self) -> (t: &'static str)
        ensures
            t@ == "phone_call_log"@,
    {
        "phone_call_log"
    }

    fn event_id(&self) -> (id: EventId)
        ensures
            id == self.event_id,
    {
        self.event_id
    }

    fn aggregate_id(&self) -> (id: u128)
        ensures
            id == self.phone_call_log_id.value,
    {
        self.phone_call_log_id.as_uuid()
    }

    fn school_id(&self) -> (s: SchoolId)
        ensures
            s == self.phone_call_log_id.school_id,
    {
        self.phone_call_log_id.school_id()
    }

    fn occurred_at(&self) -> (t: Timestamp)
        ensures
            t == self.occurred_at,
    {
        self.occurred_at
    }
}

// =============================================================================
// CustomSmsSetting events
// =============================================================================

/// Emitted when a new `CustomSmsSetting` is created.
#[derive(Debug, Clone, PartialEq)]
pub struct CustomSmsSettingCreated {
    pub custom_sms_setting_id: CustomSmsSettingId,
    pub gateway_id: SmsGatewayId,
    pub gateway_url: Url,
    pub request_method: RequestMethod,
    pub event_id: EventId,
    pub correlation_id: CorrelationId,
    pub occurred_at: Timestamp,
}

impl CustomSmsSettingCreated {
    /// Builds the event from its fields.
    pub fn new(
        custom_sms_setting_id: CustomSmsSettingId,
        gateway_id: SmsGatewayId,
        gateway_url: Url,
        request_method: RequestMethod,
        event_id: EventId,
        correlation_id: CorrelationId,
        occurred_at: Timestamp,
    ) -> (e: Self)
        ensures
            e.custom_sms_setting_id == custom_sms_setting_id,
            e.gateway_id == gateway_id,
            e.gateway_url == gateway_url,
            e.request_method == request_method,
            e.event_id == event_id,
            e.correlation_id == correlation_id,
            e.occurred_at == occurred_at,
    {
        CustomSmsSettingCreated {
            custom_sms_setting_id,
            gateway_id,
            gateway_url,
            request_method,
            event_id,
            correlation_id,
            occurred_at,
        }
    }
}

impl DomainEvent for CustomSmsSettingCreated {
    fn event_type(&self) -> (t: &'static str)
        ensures
            t@ == "communication.custom_sms_setting.created"@,
    {
        "communication.custom_sms_setting.created"
    }

    fn schema_version(&self) -> (v: u32)
        ensures
            v == 1,
    {
        1
    }

    fn aggregate_type(&self) -> (t: &'static str)
        ensures
            t@ == "custom_sms_setting"@,
    {
        "custom_sms_setting"
    }

    fn event_id(&self) -> (id: EventId)
        ensures
            id == self.event_id,
    {
        self.event_id
    }

    fn aggregate_id(&self) -> (id: u128)
        ensures
            id == self.custom_sms_setting_id.value,
    {
        self.custom_sms_setting_id.as_uuid()
    }

    fn school_id(&self) -> (s: SchoolId)
        ensures
            s == self.custom_sms_setting_id.school_id,
    {
        self.custom_sms_setting_id.school_id()
    }

    fn occurred_at(&self) -> (t: Timestamp)
        ensures
            t == self.occurred_at,
    {
        self.occurred_at
    }
}

/// Emitted when a `CustomSmsSetting` is updated.
#[derive(Debug, Clone, PartialEq)]
pub struct CustomSmsSettingUpdated {
    pub custom_sms_setting_id: CustomSmsSettingId,
    pub changes: Vec<String>,
    pub event_id: EventId,
    pub correlation_id: CorrelationId,
    pub occurred_at: Timestamp,
}

impl CustomSmsSettingUpdated {
    /// Builds the event from its fields.
    pub fn new(
        custom_sms_setting_id: CustomSmsSettingId,
        changes: Vec<String>,
        event_id: EventId,
        correlation_id: CorrelationId,
        occurred_at: Timestamp,
    ) -> (e: Self)
        ensures
            e.custom_sms_setting_id == custom_sms_setting_id,
            e.changes == changes,
            e.event_id == event_id,
            e.correlation_id == correlation_id,
            e.occurred_at == occurred_at,
    {
        CustomSmsSettingUpdated {
            custom_sms_setting_id,
            changes,
            event_id,
            correlation_id,
            occurred_at,
        }
    }
}

impl DomainEvent for CustomSmsSettingUpdated {
    fn event_type(&self) -> (t: &'static str)
        ensures
            t@ == "communication.custom_sms_setting.updated"@,
    {
        "communication.custom_sms_setting.updated"
    }

    fn schema_version(&self) -> (v: u32)
        ensures
            v == 1,
    {
        1
    }

    fn aggregate_type(&self) -> (t: &'static str)
        ensures
            t@ == "custom_sms_setting"@,
    {
        "custom_sms_setting"
    }

    fn event_id(&self) -> (id: EventId)
        ensures
            id == self.event_id,
    {
        self.event_id
    }

    fn aggregate_id(&self) -> (id: u128)
        ensures
            id == self.custom_sms_setting_id.value,
    {
        self.custom_sms_setting_id.as_uuid()
    }

    fn school_id(&self) -> (s: SchoolId)
        ensures
            s == self.custom_sms_setting_id.school_id,
    {
        self.custom_sms_setting_id.school_id()
    }

    fn occurred_at(&self) -> (t: Timestamp)
        ensures
            t == self.occurred_at,
    {
        self.occurred_at
    }
}

/// Emitted when a `CustomSmsSetting` is deleted.
#[derive(Debug, Clone, PartialEq)]
pub struct CustomSmsSettingDeleted {
    pub custom_sms_setting_id: CustomSmsSettingId,
    pub event_id: EventId,
    pub correlation_id: CorrelationId,
    pub occurred_at: Timestamp,
}

impl CustomSmsSettingDeleted {
    /// Builds the event from its fields.
    pub fn new(
        custom_sms_setting_id: CustomSmsSettingId,
        event_id: EventId,
        correlation_id: CorrelationId,
        occurred_at: Timestamp,
    ) -> (e: Self)
        ensures
            e.custom_sms_setting_id == custom_sms_setting_id,
            e.event_id == event_id,
            e.correlation_id == correlation_id,
            e.occurred_at == occurred_at,
    {
        CustomSmsSettingDeleted {
            custom_sms_setting_id,
            event_id,
            correlation_id,
            occurred_at,
        }
    }
}

impl DomainEvent for CustomSmsSettingDeleted {
    fn event_type(&self) -> (t: &'static str)
        ensures
            t@ == "communication.custom_sms_setting.deleted"@,
    {
        "communication.custom_sms_setting.deleted"
    }

    fn schema_version(&self) -> (v: u32)
        ensures
            v == 1,
    {
        1
    }

    fn aggregate_type(&self) -> (t: &'static str)
        ensures
            t@ == "custom_sms_setting"@,
    {
        "custom_sms_setting"
    }

    fn event_id(&self) -> (id: EventId)
        ensures
            id == self.event_id,
    {
        self.event_id
    }

    fn aggregate_id(&self) -> (id: u128)
        ensures
            id == self.custom_sms_setting_id.value,
    {
        self.custom_sms_setting_id.as_uuid()
    }

    fn school_id(&self) -> (s: SchoolId)
        ensures
            s == self.custom_sms_setting_id.school_id,
    {
        self.custom_sms_setting_id.school_id()
    }

    fn occurred_at(&self) -> (t: Timestamp)
        ensures
            t == self.occurred_at,
    {
        self.occurred_at
    }
}

} // verus!
