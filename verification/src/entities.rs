//! # Communication child entities
//!
//! Child entities have identity and lifecycle but are not aggregate
//! roots: they are loaded and persisted only through their root.
//!
//! - `NoticeAttachment`: a file attached to a notice.
//! - `ComplaintNote`: a free-text note added to a complaint.
//! - `NotificationDeliveryAttempt`: one delivery attempt of a
//!   notification on one channel.
//! - `ChatGroupAvatar`: one avatar snapshot of a chat group.
//! - `ChatGroupMessage`: a message posted in a chat group.
//! - `ChatConversationLastRead`: the per-user "last read" pointer of a
//!   one-to-one conversation.
//! - `SendMessageRecipient`: the per-recipient outcome of a broadcast.
//! - `EmailSettingSecret`, `SmsGatewayCredential`: secret-rotation
//!   snapshots (the secret itself is never stored in clear).
//! - `AbsentNotificationDispatch`: one dispatch triggered by an
//!   absent-notification schedule.
//! - `ContactMessageReply`: a staff reply to a contact message.
//!
//! Four embedded value objects stand here too: `NoticeAudience`,
//! `SmsTemplateVariable`, `NotificationSettingAudience` and
//! `CustomSmsSettingParam`.
use vstd::prelude::*;

use crate::errors::DomainError;
use crate::foundation::{
    ClassId, CorrelationId, Etag, EventId, RoleId, SchoolId, SectionId, StudentId, Timestamp,
    UserId, Version,
};
use crate::value_objects::{
    copy_vec, AbsentNotificationDispatchId, AbsentNotificationTimeSetupId, Channel,
    ChatConversationId, ChatConversationLastReadId, ChatGroupAvatarId, ChatGroupId,
    ChatGroupMessageId, ChatMessageBody, ChatMessageId, ComplaintId, ComplaintNoteId,
    ContactMessageId, ContactMessageReplyId, EmailSettingId, EmailSettingSecretId, FileReference,
    MessageType, NoticeAttachmentId, NoticeId, NotificationDeliveryAttemptId, NotificationId,
    SecretReference, SendMessageId, SendMessageRecipientId, SmsGatewayCredentialId, SmsGatewayId,
};

verus! {

// =============================================================================
// DeliveryOutcome
// =============================================================================

/// The outcome of one delivery attempt (distinct from the notification status: one notification may produce many attempts).
#[derive(Debug, Clone, Copy, PartialEq, Eq, Hash, Structural)]
pub enum DeliveryOutcome {
    /// Queued but not yet attempted by the adapter.
    Pending,
    /// The adapter confirmed delivery.
    Delivered,
    /// The adapter returned a permanent error.
    Failed,
    /// The adapter asked for a later retry.
    Deferred,
}

impl DeliveryOutcome {
    /// The wire-form text of each variant.
    pub open spec fn wire(self) -> Seq<char> {
        match self {
            DeliveryOutcome::Pending => "pending"@,
            DeliveryOutcome::Delivered => "delivered"@,
            DeliveryOutcome::Failed => "failed"@,
            DeliveryOutcome::Deferred => "deferred"@,
        }
    }

    /// Returns the wire-form string.
    pub fn as_str(self) -> (s: &'static str)
        ensures
            s@ == self.wire(),
    {
        match self {
            DeliveryOutcome::Pending => "pending",
            DeliveryOutcome::Delivered => "delivered",
            DeliveryOutcome::Failed => "failed",
            DeliveryOutcome::Deferred => "deferred",
        }
    }
}

/// A file attached to a notice. The `display_order` may be
/// amended after creation (e.g. drag-to-reorder in the UI), so
/// this child entity carries the full 8-field audit footer.
#[derive(Debug)]
pub struct NoticeAttachment {
    /// The typed id.
    pub id: NoticeAttachmentId,
    /// The owning school (derived from the id).
    pub school_id: SchoolId,
    /// The notice this attachment belongs to.
    pub notice_id: NoticeId,
    /// The file reference (storage key, never the raw bytes).
    pub file: FileReference,
    /// The optional caption rendered beneath the attachment.
    pub caption: Option<String>,
    /// The display order (0-indexed; lower = earlier).
    pub display_order: u32,
    /// Optimistic-concurrency version.
    pub version: Version,
    /// Conditional-update etag.
    pub etag: Etag,
    /// Creation timestamp.
    pub created_at: Timestamp,
    /// Last-update timestamp.
    pub updated_at: Timestamp,
    /// The user who created the attachment.
    pub created_by: UserId,
    /// The user who last amended the attachment.
    pub updated_by: UserId,
    /// The id of the last event that mutated this row.
    pub last_event_id: Option<EventId>,
    /// The correlation id at creation time.
    pub correlation_id: CorrelationId,
}

impl NoticeAttachment {
    /// Constructs a new `NoticeAttachment`.
    pub fn new(
        id: NoticeAttachmentId,
        notice_id: NoticeId,
        file: FileReference,
        caption: Option<String>,
        display_order: u32,
        created_by: UserId,
        created_at: Timestamp,
        correlation_id: CorrelationId,
    ) -> (r: Self)
        ensures
            r.school_id == id.school_id,
            r.id == id,
            r.notice_id == notice_id,
            r.file == file,
            r.caption == caption,
            r.display_order == display_order,
            r.version == (Version { value: 1 }),
            r.etag == (Etag { value: 0 }),
            r.created_at == created_at,
            r.updated_at == created_at,
            r.created_by == created_by,
            r.updated_by == created_by,
            r.last_event_id.is_none(),
            r.correlation_id == correlation_id,
    {
        NoticeAttachment {
            school_id: id.school_id(),
            id,
            notice_id,
            file,
            caption,
            display_order,
            version: Version::initial(),
            etag: Etag::placeholder(),
            created_at,
            updated_at: created_at,
            created_by,
            updated_by: created_by,
            last_event_id: None,
            correlation_id,
        }
    }
}

/// A free-text administrative note added to a complaint.
/// Append-only: amendments are recorded as new rows.
#[derive(Debug)]
pub struct ComplaintNote {
    /// The typed id.
    pub id: ComplaintNoteId,
    /// The owning school (derived from the id).
    pub school_id: SchoolId,
    /// The complaint this note is attached to.
    pub complaint_id: ComplaintId,
    /// The author of the note.
    pub author: UserId,
    /// The note body (free-text).
    pub body: String,
    /// The created-at timestamp.
    pub created_at: Timestamp,
    /// The correlation id at creation time.
    pub correlation_id: CorrelationId,
}

impl ComplaintNote {
    /// Constructs a new `ComplaintNote`.
    pub fn new(
        id: ComplaintNoteId,
        complaint_id: ComplaintId,
        author: UserId,
        body: String,
        created_at: Timestamp,
        correlation_id: CorrelationId,
    ) -> (r: Self)
        ensures
            r.school_id == id.school_id,
            r.id == id,
            r.complaint_id == complaint_id,
            r.author == author,
            r.body == body,
            r.created_at == created_at,
            r.correlation_id == correlation_id,
    {
        ComplaintNote {
            school_id: id.school_id(),
            id,
            complaint_id,
            author,
            body,
            created_at,
            correlation_id,
        }
    }
}

/// A single delivery attempt of a notification to one channel
/// via one adapter. Append-only.
#[derive(Debug)]
pub struct NotificationDeliveryAttempt {
    /// The typed id.
    pub id: NotificationDeliveryAttemptId,
    /// The owning school (derived from the id).
    pub school_id: SchoolId,
    /// The notification being delivered.
    pub notification_id: NotificationId,
    /// The channel the attempt targeted.
    pub channel: Channel,
    /// The adapter name that handled the attempt (e.g. "smtp",
    /// "twilio", "web").
    pub adapter: String,
    /// The outcome of the attempt.
    pub outcome: DeliveryOutcome,
    /// The wall-clock time the attempt was dispatched.
    pub attempted_at: Timestamp,
    /// The optional error message (populated on `Failed` or
    /// `Deferred`).
    pub error: Option<String>,
    /// The correlation id at attempt time.
    pub correlation_id: CorrelationId,
}

impl NotificationDeliveryAttempt {
    /// Constructs a new `NotificationDeliveryAttempt`.
    pub fn new(
        id: NotificationDeliveryAttemptId,
        notification_id: NotificationId,
        channel: Channel,
        adapter: String,
        outcome: DeliveryOutcome,
        attempted_at: Timestamp,
        error: Option<String>,
        correlation_id: CorrelationId,
    ) -> (r: Self)
        ensures
            r.school_id == id.school_id,
            r.id == id,
            r.notification_id == notification_id,
            r.channel == channel,
            r.adapter == adapter,
            r.outcome == outcome,
            r.attempted_at == attempted_at,
            r.error == error,
            r.correlation_id == correlation_id,
    {
        NotificationDeliveryAttempt {
            school_id: id.school_id(),
            id,
            notification_id,
            channel,
            adapter,
            outcome,
            attempted_at,
            error,
            correlation_id,
        }
    }
}

/// One avatar snapshot of a chat group. Append-only: a new avatar
/// upload produces a new row; the latest row is the current
/// avatar.
#[derive(Debug)]
pub struct ChatGroupAvatar {
    /// The typed id.
    pub id: ChatGroupAvatarId,
    /// The owning school (derived from the id).
    pub school_id: SchoolId,
    /// The chat group this avatar belongs to.
    pub chat_group_id: ChatGroupId,
    /// The avatar file reference.
    pub file: FileReference,
    /// The user who set this avatar.
    pub set_by: UserId,
    /// The timestamp the avatar was set.
    pub set_at: Timestamp,
    /// The correlation id at set time.
    pub correlation_id: CorrelationId,
}

impl ChatGroupAvatar {
    /// Constructs a new `ChatGroupAvatar`.
    pub fn new(
        id: ChatGroupAvatarId,
        chat_group_id: ChatGroupId,
        file: FileReference,
        set_by: UserId,
        set_at: Timestamp,
        correlation_id: CorrelationId,
    ) -> (r: Self)
        ensures
            r.school_id == id.school_id,
            r.id == id,
            r.chat_group_id == chat_group_id,
            r.file == file,
            r.set_by == set_by,
            r.set_at == set_at,
            r.correlation_id == correlation_id,
    {
        ChatGroupAvatar {
            school_id: id.school_id(),
            id,
            chat_group_id,
            file,
            set_by,
            set_at,
            correlation_id,
        }
    }
}

/// A single message posted in a chat group. Append-only: edits
/// and deletes are recorded as new events, not amendments to
/// this row.
#[derive(Debug)]
pub struct ChatGroupMessage {
    /// The typed id.
    pub id: ChatGroupMessageId,
    /// The owning school (derived from the id).
    pub school_id: SchoolId,
    /// The chat group the message was posted in.
    pub chat_group_id: ChatGroupId,
    /// The user who sent the message.
    pub sender: UserId,
    /// The message body.
    pub body: ChatMessageBody,
    /// The message type (text, image, pdf, document, voice).
    pub message_type: MessageType,
    /// The optional attached file (for non-text messages).
    pub file: Option<FileReference>,
    /// The sent-at timestamp.
    pub sent_at: Timestamp,
    /// The correlation id at send time.
    pub correlation_id: CorrelationId,
}

impl ChatGroupMessage {
    /// Constructs a new `ChatGroupMessage`.
    pub fn new(
        id: ChatGroupMessageId,
        chat_group_id: ChatGroupId,
        sender: UserId,
        body: ChatMessageBody,
        message_type: MessageType,
        file: Option<FileReference>,
        sent_at: Timestamp,
        correlation_id: CorrelationId,
    ) -> (r: Self)
        ensures
            r.school_id == id.school_id,
            r.id == id,
            r.chat_group_id == chat_group_id,
            r.sender == sender,
            r.body == body,
            r.message_type == message_type,
            r.file == file,
            r.sent_at == sent_at,
            r.correlation_id == correlation_id,
    {
        ChatGroupMessage {
            school_id: id.school_id(),
            id,
            chat_group_id,
            sender,
            body,
            message_type,
            file,
            sent_at,
            correlation_id,
        }
    }
}

/// The per-user "last read" pointer on a 1-to-1 chat
/// conversation. Each row is a snapshot in time; the latest row
/// per `(chat_conversation_id, user)` is the current pointer.
#[derive(Debug)]
pub struct ChatConversationLastRead {
    /// The typed id.
    pub id: ChatConversationLastReadId,
    /// The owning school (derived from the id).
    pub school_id: SchoolId,
    /// The 1-to-1 chat conversation.
    pub chat_conversation_id: ChatConversationId,
    /// The user whose pointer this is.
    pub user: UserId,
    /// The last message the user has read.
    pub last_read_message_id: ChatMessageId,
    /// The read-at timestamp.
    pub read_at: Timestamp,
    /// The correlation id at read time.
    pub correlation_id: CorrelationId,
}

impl ChatConversationLastRead {
    /// Constructs a new `ChatConversationLastRead`.
    pub fn new(
        id: ChatConversationLastReadId,
        chat_conversation_id: ChatConversationId,
        user: UserId,
        last_read_message_id: ChatMessageId,
        read_at: Timestamp,
        correlation_id: CorrelationId,
    ) -> (r: Self)
        ensures
            r.school_id == id.school_id,
            r.id == id,
            r.chat_conversation_id == chat_conversation_id,
            r.user == user,
            r.last_read_message_id == last_read_message_id,
            r.read_at == read_at,
            r.correlation_id == correlation_id,
    {
        ChatConversationLastRead {
            school_id: id.school_id(),
            id,
            chat_conversation_id,
            user,
            last_read_message_id,
            read_at,
            correlation_id,
        }
    }
}

/// The per-recipient delivery outcome of a `SendMessage`
/// dispatch. One row per recipient; the aggregate counts rows
/// by outcome to compute dispatch statistics.
#[derive(Debug)]
pub struct SendMessageRecipient {
    /// The typed id.
    pub id: SendMessageRecipientId,
    /// The owning school (derived from the id).
    pub school_id: SchoolId,
    /// The `SendMessage` dispatch this row belongs to.
    pub send_message_id: SendMessageId,
    /// The recipient user.
    pub user: UserId,
    /// The channel the message was sent on.
    pub channel: Channel,
    /// The delivery outcome for this recipient.
    pub outcome: DeliveryOutcome,
    /// The delivered-at timestamp (populated on `Delivered`,
    /// `None` for `Pending`/`Failed`/`Deferred`).
    pub delivered_at: Option<Timestamp>,
    /// The correlation id at dispatch time.
    pub correlation_id: CorrelationId,
}

impl SendMessageRecipient {
    /// Constructs a new `SendMessageRecipient`.
    pub fn new(
        id: SendMessageRecipientId,
        send_message_id: SendMessageId,
        user: UserId,
        channel: Channel,
        outcome: DeliveryOutcome,
        delivered_at: Option<Timestamp>,
        correlation_id: CorrelationId,
    ) -> (r: Self)
        ensures
            r.school_id == id.school_id,
            r.id == id,
            r.send_message_id == send_message_id,
            r.user == user,
            r.channel == channel,
            r.outcome == outcome,
            r.delivered_at == delivered_at,
            r.correlation_id == correlation_id,
    {
        SendMessageRecipient {
            school_id: id.school_id(),
            id,
            send_message_id,
            user,
            channel,
            outcome,
            delivered_at,
            correlation_id,
        }
    }
}

/// One secret-rotation snapshot for an email setting. The
/// `secret` is a `SecretReference` (vault key / KMS handle) —
/// the cleartext password is never persisted on this row.
#[derive(Debug)]
pub struct EmailSettingSecret {
    /// The typed id.
    pub id: EmailSettingSecretId,
    /// The owning school (derived from the id).
    pub school_id: SchoolId,
    /// The email setting this secret belongs to.
    pub email_setting_id: EmailSettingId,
    /// The reference to the secret in the secret store.
    pub secret: SecretReference,
    /// The user who set this secret.
    pub set_by: UserId,
    /// The set-at timestamp.
    pub set_at: Timestamp,
    /// The correlation id at set time.
    pub correlation_id: CorrelationId,
}

impl EmailSettingSecret {
    /// Constructs a new `EmailSettingSecret`.
    pub fn new(
        id: EmailSettingSecretId,
        email_setting_id: EmailSettingId,
        secret: SecretReference,
        set_by: UserId,
        set_at: Timestamp,
        correlation_id: CorrelationId,
    ) -> (r: Self)
        ensures
            r.school_id == id.school_id,
            r.id == id,
            r.email_setting_id == email_setting_id,
            r.secret == secret,
            r.set_by == set_by,
            r.set_at == set_at,
            r.correlation_id == correlation_id,
    {
        EmailSettingSecret {
            school_id: id.school_id(),
            id,
            email_setting_id,
            secret,
            set_by,
            set_at,
            correlation_id,
        }
    }
}

/// One credential-rotation snapshot for an SMS gateway. The
/// `secret` is a `SecretReference` — cleartext credentials are
/// never persisted on this row.
#[derive(Debug)]
pub struct SmsGatewayCredential {
    /// The typed id.
    pub id: SmsGatewayCredentialId,
    /// The owning school (derived from the id).
    pub school_id: SchoolId,
    /// The SMS gateway this credential belongs to.
    pub sms_gateway_id: SmsGatewayId,
    /// The reference to the credential in the secret store.
    pub secret: SecretReference,
    /// The user who set this credential.
    pub set_by: UserId,
    /// The set-at timestamp.
    pub set_at: Timestamp,
    /// The correlation id at set time.
    pub correlation_id: CorrelationId,
}

impl SmsGatewayCredential {
    /// Constructs a new `SmsGatewayCredential`.
    pub fn new(
        id: SmsGatewayCredentialId,
        sms_gateway_id: SmsGatewayId,
        secret: SecretReference,
        set_by: UserId,
        set_at: Timestamp,
        correlation_id: CorrelationId,
    ) -> (r: Self)
        ensures
            r.school_id == id.school_id,
            r.id == id,
            r.sms_gateway_id == sms_gateway_id,
            r.secret == secret,
            r.set_by == set_by,
            r.set_at == set_at,
            r.correlation_id == correlation_id,
    {
        SmsGatewayCredential {
            school_id: id.school_id(),
            id,
            sms_gateway_id,
            secret,
            set_by,
            set_at,
            correlation_id,
        }
    }
}

/// One out-bound dispatch triggered by an absent-notification
/// time setup, for a specific student on a specific day. The
/// rendered body and the resolved recipient list are
/// snapshotted on this row (the templates and audience are
/// versioned independently on the aggregate).
#[derive(Debug)]
pub struct AbsentNotificationDispatch {
    /// The typed id.
    pub id: AbsentNotificationDispatchId,
    /// The owning school (derived from the id).
    pub school_id: SchoolId,
    /// The absent-notification time setup that triggered the
    /// dispatch.
    pub absent_notification_time_setup_id: AbsentNotificationTimeSetupId,
    /// The student the dispatch is about.
    pub student_id: StudentId,
    /// The channel the dispatch used.
    pub channel: Channel,
    /// The rendered (post-template-substitution) body.
    pub rendered_body: String,
    /// The resolved recipient list.
    pub recipients: Vec<UserId>,
    /// The delivery outcome.
    pub outcome: DeliveryOutcome,
    /// The dispatched-at timestamp.
    pub dispatched_at: Timestamp,
    /// The correlation id at dispatch time.
    pub correlation_id: CorrelationId,
}

impl AbsentNotificationDispatch {
    /// Constructs a new `AbsentNotificationDispatch`.
    pub fn new(
        id: AbsentNotificationDispatchId,
        absent_notification_time_setup_id: AbsentNotificationTimeSetupId,
        student_id: StudentId,
        channel: Channel,
        rendered_body: String,
        recipients: Vec<UserId>,
        outcome: DeliveryOutcome,
        dispatched_at: Timestamp,
        correlation_id: CorrelationId,
    ) -> (r: Self)
        ensures
            r.school_id == id.school_id,
            r.id == id,
            r.absent_notification_time_setup_id == absent_notification_time_setup_id,
            r.student_id == student_id,
            r.channel == channel,
            r.rendered_body == rendered_body,
            r.recipients == recipients,
            r.outcome == outcome,
            r.dispatched_at == dispatched_at,
            r.correlation_id == correlation_id,
    {
        AbsentNotificationDispatch {
            school_id: id.school_id(),
            id,
            absent_notification_time_setup_id,
            student_id,
            channel,
            rendered_body,
            recipients,
            outcome,
            dispatched_at,
            correlation_id,
        }
    }
}

/// A staff reply to a contact message. Append-only: follow-up
/// replies are recorded as new rows, not amendments.
#[derive(Debug)]
pub struct ContactMessageReply {
    /// The typed id.
    pub id: ContactMessageReplyId,
    /// The owning school (derived from the id).
    pub school_id: SchoolId,
    /// The contact message this reply is attached to.
    pub contact_message_id: ContactMessageId,
    /// The user who wrote the reply.
    pub author: UserId,
    /// The reply body.
    pub body: String,
    /// The channel the reply was sent on.
    pub channel: Channel,
    /// The replied-at timestamp.
    pub replied_at: Timestamp,
    /// The correlation id at reply time.
    pub correlation_id: CorrelationId,
}

impl ContactMessageReply {
    /// Constructs a new `ContactMessageReply`.
    pub fn new(
        id: ContactMessageReplyId,
        contact_message_id: ContactMessageId,
        author: UserId,
        body: String,
        channel: Channel,
        replied_at: Timestamp,
        correlation_id: CorrelationId,
    ) -> (r: Self)
        ensures
            r.school_id == id.school_id,
            r.id == id,
            r.contact_message_id == contact_message_id,
            r.author == author,
            r.body == body,
            r.channel == channel,
            r.replied_at == replied_at,
            r.correlation_id == correlation_id,
    {
        ContactMessageReply {
            school_id: id.school_id(),
            id,
            contact_message_id,
            author,
            body,
            channel,
            replied_at,
            correlation_id,
        }
    }
}

// =============================================================================
// Embedded value objects
// =============================================================================

/// The roles a notice reaches (at least one).
#[derive(Debug, PartialEq, Eq, Hash)]
pub struct NoticeAudience(pub Vec<RoleId>);

impl NoticeAudience {
    /// Builds an audience from a non-empty list of roles.
    pub fn new(roles: Vec<RoleId>) -> (r: Result<Self, DomainError>)
        ensures
            r is Ok <==> roles@.len() > 0,
            r matches Ok(a) ==> a.0@ == roles@,
            r matches Err(e) ==> e is Validation,
    {
        if roles.len() == 0 {
            return Err(DomainError::validation("notice audience must be non-empty"));
        }
        Ok(NoticeAudience(roles))
    }

    /// Returns the roles.
    pub fn roles(&self) -> (s: &[RoleId])
        ensures
            s@ == self.0@,
    {
        self.0.as_slice()
    }
}

/// A placeholder declared inside an SMS template body.
#[derive(Debug, PartialEq, Eq, Hash)]
pub struct SmsTemplateVariable {
    /// The placeholder name.
    pub name: String,
    /// What the placeholder stands for.
    pub description: String,
}

impl SmsTemplateVariable {
    /// Builds a declaration.
    pub fn new(name: String, description: String) -> (v: Self)
        ensures
            v.name == name,
            v.description == description,
    {
        SmsTemplateVariable { name, description }
    }
}

/// The audience of a notification setting.
#[derive(Debug, PartialEq, Eq, Hash)]
pub enum NotificationSettingAudience {
    /// Every user holding any of the roles.
    Roles(Vec<RoleId>),
    /// Users of a class, optionally narrowed to one section.
    ClassSection {
        /// The class.
        class: ClassId,
        /// The section; `None` means every section.
        section: Option<SectionId>,
    },
    /// A specific set of users.
    Users(Vec<UserId>),
    /// Every user of the school.
    All,
}

impl Clone for NotificationSettingAudience {
    fn clone(&self) -> (c: Self)
        ensures
            c.kind_of() == self.kind_of(),
            c.kind_of() == NotificationSettingAudienceKind::Roles ==> c->Roles_0@ == self->Roles_0@,
            c.kind_of() == NotificationSettingAudienceKind::Users ==> c->Users_0@ == self->Users_0@,
            c.kind_of() == NotificationSettingAudienceKind::ClassSection ==> c == *self,
    {
        match self {
            NotificationSettingAudience::Roles(v) => NotificationSettingAudience::Roles(copy_vec(v)),
            NotificationSettingAudience::ClassSection { class, section } => {
                NotificationSettingAudience::ClassSection { class: *class, section: *section }
            },
            NotificationSettingAudience::Users(v) => NotificationSettingAudience::Users(copy_vec(v)),
            NotificationSettingAudience::All => NotificationSettingAudience::All,
        }
    }
}

impl NotificationSettingAudience {
    /// The kind of each variant.
    pub open spec fn kind_of(&self) -> NotificationSettingAudienceKind {
        match self {
            NotificationSettingAudience::Roles(_) => NotificationSettingAudienceKind::Roles,
            NotificationSettingAudience::ClassSection { .. } => NotificationSettingAudienceKind::ClassSection,
            NotificationSettingAudience::Users(_) => NotificationSettingAudienceKind::Users,
            NotificationSettingAudience::All => NotificationSettingAudienceKind::All,
        }
    }

    /// The kind of audience.
    pub fn kind(&self) -> (k: NotificationSettingAudienceKind)
        ensures
            k == self.kind_of(),
    {
        match self {
            NotificationSettingAudience::Roles(_) => NotificationSettingAudienceKind::Roles,
            NotificationSettingAudience::ClassSection { .. } => NotificationSettingAudienceKind::ClassSection,
            NotificationSettingAudience::Users(_) => NotificationSettingAudienceKind::Users,
            NotificationSettingAudience::All => NotificationSettingAudienceKind::All,
        }
    }
}

/// The kind of a notification-setting audience.
#[derive(Debug, Clone, Copy, PartialEq, Eq, Hash, Structural)]
pub enum NotificationSettingAudienceKind {
    /// Role-based.
    Roles,
    /// Class (and section) based.
    ClassSection,
    /// An explicit user list.
    Users,
    /// Everyone.
    All,
}

impl NotificationSettingAudienceKind {
    /// The wire-form text of each variant.
    pub open spec fn wire(self) -> Seq<char> {
        match self {
            NotificationSettingAudienceKind::Roles => "roles"@,
            NotificationSettingAudienceKind::ClassSection => "class_section"@,
            NotificationSettingAudienceKind::Users => "users"@,
            NotificationSettingAudienceKind::All => "all"@,
        }
    }

    /// Returns the wire-form string.
    pub fn as_str(self) -> (s: &'static str)
        ensures
            s@ == self.wire(),
    {
        match self {
            NotificationSettingAudienceKind::Roles => "roles",
            NotificationSettingAudienceKind::ClassSection => "class_section",
            NotificationSettingAudienceKind::Users => "users",
            NotificationSettingAudienceKind::All => "all",
        }
    }
}

/// One key/value request parameter of a custom SMS gateway.
#[derive(Debug, PartialEq, Eq, Hash)]
pub struct CustomSmsSettingParam {
    /// The parameter name.
    pub key: String,
    /// The parameter value.
    pub value: String,
}

impl Clone for CustomSmsSettingParam {
    fn clone(&self) -> (c: Self)
        ensures
            c.key@ == self.key@,
            c.value@ == self.value@,
    {
        CustomSmsSettingParam { key: self.key.clone(), value: self.value.clone() }
    }
}

/// A text made only of whitespace (what `str::trim` empties).
pub open spec fn is_blank(s: Seq<char>) -> bool {
    forall|i: int| 0 <= i < s.len() ==> is_whitespace_char(#[trigger] s[i])
}

/// The whitespace characters `char::is_whitespace` accepts (Unicode
/// `White_Space`).
pub open spec fn is_whitespace_char(c: char) -> bool {
    ||| ('\u{9}' <= c <= '\u{d}')
    ||| c == ' '
    ||| c == '\u{85}'
    ||| c == '\u{a0}'
    ||| c == '\u{1680}'
    ||| ('\u{2000}' <= c <= '\u{200a}')
    ||| c == '\u{2028}'
    ||| c == '\u{2029}'
    ||| c == '\u{202f}'
    ||| c == '\u{205f}'
    ||| c == '\u{3000}'
}

fn whitespace(c: char) -> (b: bool)
    ensures
        b == is_whitespace_char(c),
{
    ('\u{9}' <= c && c <= '\u{d}') || c == ' ' || c == '\u{85}' || c == '\u{a0}' || c
        == '\u{1680}' || ('\u{2000}' <= c && c <= '\u{200a}') || c == '\u{2028}' || c
        == '\u{2029}' || c == '\u{202f}' || c == '\u{205f}' || c == '\u{3000}'
}

impl CustomSmsSettingParam {
    /// Builds a parameter; the key must hold a non-whitespace char.
    pub fn new(key: String, value: String) -> (r: Result<Self, DomainError>)
        ensures
            r is Ok <==> !is_blank(key@),
            r matches Ok(p) ==> p.key == key && p.value == value,
            r matches Err(e) ==> e is Validation,
    {
        let chars = crate::value_objects::char_vec(key.as_str());
        let mut i: usize = 0;
        while i < chars.len()
            invariant
                i <= chars@.len(),
                chars@ == key@,
                forall|j: int| 0 <= j < i ==> is_whitespace_char(#[trigger] chars@[j]),
            decreases chars@.len() - i,
        {
            if !whitespace(chars[i]) {
                return Ok(CustomSmsSettingParam { key, value });
            }
            i += 1;
        }
        Err(DomainError::validation("custom sms setting param key must be non-empty"))
    }
}

} // verus!
