//! # Communication domain queries
//!
//! One typed query per root aggregate. Each has a `query_type` that
//! returns a stable dotted identifier (`communication.<aggregate>.query`)
//! and an `execute` that answers `NotSupported`: the typed executors
//! are not wired yet.
use vstd::prelude::*;

use crate::aggregate::{
    AbsentNotificationTimeSetup, ChatBlockUser, ChatConversation, ChatGroup,
    ChatGroupMessageRecipient, ChatGroupMessageRemove, ChatGroupUser, ChatInvitation,
    ChatInvitationType, ChatMessage, Complaint, ComplaintType, ContactMessage, CustomSmsSetting,
    EmailLog, EmailSetting, Notice, Notification, NotificationSetting, PhoneCallLog, SendMessage,
    SmsGateway, SmsLog, SmsTemplate, SpeechSlider,
};
use crate::errors::{
    DomainError,
};
use crate::foundation::{
    CalendarDate, SchoolId, UserId,
};
use crate::value_objects::{
    AbsentNotificationStatus, AudienceDescriptor, CallType, Channel, ChatConversationId,
    ChatGroupId, ChatGroupPrivacy, ChatGroupRole, ChatGroupType, ChatInvitationId,
    ChatInvitationStatus, ChatInvitationTypeEnum, ChatMessageId, ChatMessageStatus, ChatStatus,
    ComplaintSource, ComplaintStatus, ComplaintTypeId, ContactMessageReplyStatus,
    ContactMessageViewStatus, Destination, EmailAddress, GatewayType, MailDriver, MessageType,
    NoticeStatus, NoticeType, NotificationStatus, NotificationType, PhoneNumber, RequestMethod,
    SendMessageStatus, SmsGatewayId, SmsTemplateStatus,
};

verus! {

// =============================================================================
// NoticeQuery
// =============================================================================

/// A typed query for `Notice` rows.
#[derive(Debug, Clone, PartialEq)]
pub struct NoticeQuery {
    /// Tenant anchor.
    pub school_id: SchoolId,
    /// If `true`, return only currently-published, in-window notices.
    pub active_only: bool,
    /// Filter by audience descriptor.
    pub audience_filter: Option<AudienceDescriptor>,
    /// Optional inclusive date range on `notice_date`.
    pub date_range: Option<(CalendarDate, CalendarDate)>,
    /// Optional notice-type filter.
    pub notice_type: Option<NoticeType>,
    /// Optional status filter.
    pub status: Option<NoticeStatus>,
    /// Optional limit on the number of rows returned.
    pub limit: Option<u32>,
}

impl NoticeQuery {
    /// The stable query type identifier.
    pub fn query_type() -> (t: &'static str)
        ensures
            t@ == "communication.notice.query"@,
    {
        "communication.notice.query"
    }

    /// Executes the query. No executor is wired for this query yet, so
    /// it always answers `NotSupported`.
    pub fn execute(&self) -> (r: Result<Vec<Notice>, DomainError>)
        ensures
            r matches Err(e) && e is NotSupported,
    {
        Err(DomainError::not_supported("NoticeQuery::execute has no executor yet"))
    }
}

// =============================================================================
// ComplaintQuery
// =============================================================================

/// A typed query for `Complaint` rows.
#[derive(Debug, Clone, PartialEq)]
pub struct ComplaintQuery {
    /// Tenant anchor.
    pub school_id: SchoolId,
    /// If `true`, return only open (unresolved) complaints.
    pub active_only: bool,
    /// Filter by complaint status.
    pub status: Option<ComplaintStatus>,
    /// Filter by assignee.
    pub assignee_user_id: Option<UserId>,
    /// Filter by complaint type.
    pub complaint_type_id: Option<ComplaintTypeId>,
    /// Filter by complaint source channel.
    pub complaint_source: Option<ComplaintSource>,
    /// Optional inclusive date range on `date`.
    pub date_range: Option<(CalendarDate, CalendarDate)>,
    /// Optional limit on the number of rows returned.
    pub limit: Option<u32>,
}

impl ComplaintQuery {
    /// The stable query type identifier.
    pub fn query_type() -> (t: &'static str)
        ensures
            t@ == "communication.complaint.query"@,
    {
        "communication.complaint.query"
    }

    /// Executes the query. No executor is wired for this query yet, so
    /// it always answers `NotSupported`.
    pub fn execute(&self) -> (r: Result<Vec<Complaint>, DomainError>)
        ensures
            r matches Err(e) && e is NotSupported,
    {
        Err(DomainError::not_supported("ComplaintQuery::execute has no executor yet"))
    }
}

// =============================================================================
// ComplaintTypeQuery
// =============================================================================

/// A typed query for `ComplaintType` rows.
#[derive(Debug, Clone, PartialEq)]
pub struct ComplaintTypeQuery {
    /// Tenant anchor.
    pub school_id: SchoolId,
    /// If `true`, return only non-deleted complaint types.
    pub active_only: bool,
    /// Free-text search by type name.
    pub search: Option<String>,
    /// Optional limit on the number of rows returned.
    pub limit: Option<u32>,
}

impl ComplaintTypeQuery {
    /// The stable query type identifier.
    pub fn query_type() -> (t: &'static str)
        ensures
            t@ == "communication.complaint_type.query"@,
    {
        "communication.complaint_type.query"
    }

    /// Executes the query. No executor is wired for this query yet, so
    /// it always answers `NotSupported`.
    pub fn execute(&self) -> (r: Result<Vec<ComplaintType>, DomainError>)
        ensures
            r matches Err(e) && e is NotSupported,
    {
        Err(DomainError::not_supported("ComplaintTypeQuery::execute has no executor yet"))
    }
}

// =============================================================================
// NotificationQuery
// =============================================================================

/// A typed query for `Notification` rows.
#[derive(Debug, Clone, PartialEq)]
pub struct NotificationQuery {
    /// Tenant anchor.
    pub school_id: SchoolId,
    /// If `true`, return only non-withdrawn, non-failed notifications.
    pub active_only: bool,
    /// Filter by recipient.
    pub recipient_user_id: Option<UserId>,
    /// Filter by notification type.
    pub notification_type: Option<NotificationType>,
    /// Filter by status.
    pub status: Option<NotificationStatus>,
    /// If `Some(true)`, return only unread notifications for
    /// `recipient_user_id`.
    pub unread_only: Option<bool>,
    /// Optional inclusive date range on `occurred_at`.
    pub date_range: Option<(CalendarDate, CalendarDate)>,
    /// Optional limit on the number of rows returned.
    pub limit: Option<u32>,
}

impl NotificationQuery {
    /// The stable query type identifier.
    pub fn query_type() -> (t: &'static str)
        ensures
            t@ == "communication.notification.query"@,
    {
        "communication.notification.query"
    }

    /// Executes the query. No executor is wired for this query yet, so
    /// it always answers `NotSupported`.
    pub fn execute(&self) -> (r: Result<Vec<Notification>, DomainError>)
        ensures
            r matches Err(e) && e is NotSupported,
    {
        Err(DomainError::not_supported("NotificationQuery::execute has no executor yet"))
    }
}

// =============================================================================
// EmailLogQuery
// =============================================================================

/// A typed query for `EmailLog` rows.
#[derive(Debug, Clone, PartialEq)]
pub struct EmailLogQuery {
    /// Tenant anchor.
    pub school_id: SchoolId,
    /// If `true`, return only successful deliveries.
    pub active_only: bool,
    /// Filter by recipient address.
    pub recipient: Option<EmailAddress>,
    /// Filter by mail driver.
    pub mail_driver: Option<MailDriver>,
    /// Optional inclusive date range on `send_date`.
    pub date_range: Option<(CalendarDate, CalendarDate)>,
    /// Optional limit on the number of rows returned.
    pub limit: Option<u32>,
}

impl EmailLogQuery {
    /// The stable query type identifier.
    pub fn query_type() -> (t: &'static str)
        ensures
            t@ == "communication.email_log.query"@,
    {
        "communication.email_log.query"
    }

    /// Executes the query. No executor is wired for this query yet, so
    /// it always answers `NotSupported`.
    pub fn execute(&self) -> (r: Result<Vec<EmailLog>, DomainError>)
        ensures
            r matches Err(e) && e is NotSupported,
    {
        Err(DomainError::not_supported("EmailLogQuery::execute has no executor yet"))
    }
}

// =============================================================================
// SmsLogQuery
// =============================================================================

/// A typed query for `SmsLog` rows.
#[derive(Debug, Clone, PartialEq)]
pub struct SmsLogQuery {
    /// Tenant anchor.
    pub school_id: SchoolId,
    /// If `true`, return only successful deliveries.
    pub active_only: bool,
    /// Filter by recipient phone number.
    pub recipient: Option<PhoneNumber>,
    /// Filter by gateway.
    pub gateway_id: Option<SmsGatewayId>,
    /// Optional inclusive date range on `send_date`.
    pub date_range: Option<(CalendarDate, CalendarDate)>,
    /// Optional limit on the number of rows returned.
    pub limit: Option<u32>,
}

impl SmsLogQuery {
    /// The stable query type identifier.
    pub fn query_type() -> (t: &'static str)
        ensures
            t@ == "communication.sms_log.query"@,
    {
        "communication.sms_log.query"
    }

    /// Executes the query. No executor is wired for this query yet, so
    /// it always answers `NotSupported`.
    pub fn execute(&self) -> (r: Result<Vec<SmsLog>, DomainError>)
        ensures
            r matches Err(e) && e is NotSupported,
    {
        Err(DomainError::not_supported("SmsLogQuery::execute has no executor yet"))
    }
}

// =============================================================================
// SmsTemplateQuery
// =============================================================================

/// A typed query for `SmsTemplate` rows.
#[derive(Debug, Clone, PartialEq)]
pub struct SmsTemplateQuery {
    /// Tenant anchor.
    pub school_id: SchoolId,
    /// If `true`, return only enabled templates.
    pub active_only: bool,
    /// Filter by channel.
    pub channel: Option<Channel>,
    /// Filter by enabled/disabled status.
    pub status: Option<SmsTemplateStatus>,
    /// Free-text search by purpose or subject.
    pub search: Option<String>,
    /// Optional limit on the number of rows returned.
    pub limit: Option<u32>,
}

impl SmsTemplateQuery {
    /// The stable query type identifier.
    pub fn query_type() -> (t: &'static str)
        ensures
            t@ == "communication.sms_template.query"@,
    {
        "communication.sms_template.query"
    }

    /// Executes the query. No executor is wired for this query yet, so
    /// it always answers `NotSupported`.
    pub fn execute(&self) -> (r: Result<Vec<SmsTemplate>, DomainError>)
        ensures
            r matches Err(e) && e is NotSupported,
    {
        Err(DomainError::not_supported("SmsTemplateQuery::execute has no executor yet"))
    }
}

// =============================================================================
// EmailSettingQuery
// =============================================================================

/// A typed query for `EmailSetting` rows.
#[derive(Debug, Clone, PartialEq)]
pub struct EmailSettingQuery {
    /// Tenant anchor.
    pub school_id: SchoolId,
    /// If `true`, return only the currently-active email setting.
    pub active_only: bool,
    /// Filter by mail driver.
    pub mail_driver: Option<MailDriver>,
    /// Optional limit on the number of rows returned.
    pub limit: Option<u32>,
}

impl EmailSettingQuery {
    /// The stable query type identifier.
    pub fn query_type() -> (t: &'static str)
        ensures
            t@ == "communication.email_setting.query"@,
    {
        "communication.email_setting.query"
    }

    /// Executes the query. No executor is wired for this query yet, so
    /// it always answers `NotSupported`.
    pub fn execute(&self) -> (r: Result<Vec<EmailSetting>, DomainError>)
        ensures
            r matches Err(e) && e is NotSupported,
    {
        Err(DomainError::not_supported("EmailSettingQuery::execute has no executor yet"))
    }
}

// =============================================================================
// SmsGatewayQuery
// =============================================================================

/// A typed query for `SmsGateway` rows.
#[derive(Debug, Clone, PartialEq)]
pub struct SmsGatewayQuery {
    /// Tenant anchor.
    pub school_id: SchoolId,
    /// If `true`, return only the currently-active gateway.
    pub active_only: bool,
    /// Filter by gateway type.
    pub gateway_type: Option<GatewayType>,
    /// Optional limit on the number of rows returned.
    pub limit: Option<u32>,
}

impl SmsGatewayQuery {
    /// The stable query type identifier.
    pub fn query_type() -> (t: &'static str)
        ensures
            t@ == "communication.sms_gateway.query"@,
    {
        "communication.sms_gateway.query"
    }

    /// Executes the query. No executor is wired for this query yet, so
    /// it always answers `NotSupported`.
    pub fn execute(&self) -> (r: Result<Vec<SmsGateway>, DomainError>)
        ensures
            r matches Err(e) && e is NotSupported,
    {
        Err(DomainError::not_supported("SmsGatewayQuery::execute has no executor yet"))
    }
}

// =============================================================================
// NotificationSettingQuery
// =============================================================================

/// A typed query for `NotificationSetting` rows.
#[derive(Debug, Clone, PartialEq)]
pub struct NotificationSettingQuery {
    /// Tenant anchor.
    pub school_id: SchoolId,
    /// If `true`, return only non-deleted settings.
    pub active_only: bool,
    /// Filter by event key.
    pub event: Option<String>,
    /// Filter by destination bitflag.
    pub destination: Option<Destination>,
    /// Optional limit on the number of rows returned.
    pub limit: Option<u32>,
}

impl NotificationSettingQuery {
    /// The stable query type identifier.
    pub fn query_type() -> (t: &'static str)
        ensures
            t@ == "communication.notification_setting.query"@,
    {
        "communication.notification_setting.query"
    }

    /// Executes the query. No executor is wired for this query yet, so
    /// it always answers `NotSupported`.
    pub fn execute(&self) -> (r: Result<Vec<NotificationSetting>, DomainError>)
        ensures
            r matches Err(e) && e is NotSupported,
    {
        Err(DomainError::not_supported("NotificationSettingQuery::execute has no executor yet"))
    }
}

// =============================================================================
// AbsentNotificationTimeSetupQuery
// =============================================================================

/// A typed query for `AbsentNotificationTimeSetup` rows.
#[derive(Debug, Clone, PartialEq)]
pub struct AbsentNotificationTimeSetupQuery {
    /// Tenant anchor.
    pub school_id: SchoolId,
    /// If `true`, return only enabled time setups.
    pub active_only: bool,
    /// Filter by enabled/disabled status.
    pub status: Option<AbsentNotificationStatus>,
    /// Optional limit on the number of rows returned.
    pub limit: Option<u32>,
}

impl AbsentNotificationTimeSetupQuery {
    /// The stable query type identifier.
    pub fn query_type() -> (t: &'static str)
        ensures
            t@ == "communication.absent_notification_time_setup.query"@,
    {
        "communication.absent_notification_time_setup.query"
    }

    /// Executes the query. No executor is wired for this query yet, so
    /// it always answers `NotSupported`.
    pub fn execute(&self) -> (r: Result<Vec<AbsentNotificationTimeSetup>, DomainError>)
        ensures
            r matches Err(e) && e is NotSupported,
    {
        Err(DomainError::not_supported("AbsentNotificationTimeSetupQuery::execute has no executor yet"))
    }
}

// =============================================================================
// ChatMessageQuery
// =============================================================================

/// A typed query for `ChatMessage` rows.
#[derive(Debug, Clone, PartialEq)]
pub struct ChatMessageQuery {
    /// Tenant anchor.
    pub school_id: SchoolId,
    /// If `true`, return only non-deleted messages.
    pub active_only: bool,
    /// Filter by 1-to-1 conversation.
    pub conversation_id: Option<ChatConversationId>,
    /// Filter by sender.
    pub from_id: Option<UserId>,
    /// Filter by recipient.
    pub to_id: Option<UserId>,
    /// Filter by message type.
    pub message_type: Option<MessageType>,
    /// Filter by seen/unseen status.
    pub status: Option<ChatMessageStatus>,
    /// Optional inclusive date range on `sent_at`.
    pub date_range: Option<(CalendarDate, CalendarDate)>,
    /// Optional limit on the number of rows returned.
    pub limit: Option<u32>,
}

impl ChatMessageQuery {
    /// The stable query type identifier.
    pub fn query_type() -> (t: &'static str)
        ensures
            t@ == "communication.chat_message.query"@,
    {
        "communication.chat_message.query"
    }

    /// Executes the query. No executor is wired for this query yet, so
    /// it always answers `NotSupported`.
    pub fn execute(&self) -> (r: Result<Vec<ChatMessage>, DomainError>)
        ensures
            r matches Err(e) && e is NotSupported,
    {
        Err(DomainError::not_supported("ChatMessageQuery::execute has no executor yet"))
    }
}

// =============================================================================
// ChatConversationQuery
// =============================================================================

/// A typed query for `ChatConversation` rows.
#[derive(Debug, Clone, PartialEq)]
pub struct ChatConversationQuery {
    /// Tenant anchor.
    pub school_id: SchoolId,
    /// If `true`, return only currently-open conversations.
    pub active_only: bool,
    /// Filter by participant.
    pub user_id: Option<UserId>,
    /// Optional limit on the number of rows returned.
    pub limit: Option<u32>,
}

impl ChatConversationQuery {
    /// The stable query type identifier.
    pub fn query_type() -> (t: &'static str)
        ensures
            t@ == "communication.chat_conversation.query"@,
    {
        "communication.chat_conversation.query"
    }

    /// Executes the query. No executor is wired for this query yet, so
    /// it always answers `NotSupported`.
    pub fn execute(&self) -> (r: Result<Vec<ChatConversation>, DomainError>)
        ensures
            r matches Err(e) && e is NotSupported,
    {
        Err(DomainError::not_supported("ChatConversationQuery::execute has no executor yet"))
    }
}

// =============================================================================
// ChatGroupQuery
// =============================================================================

/// A typed query for `ChatGroup` rows.
#[derive(Debug, Clone, PartialEq)]
pub struct ChatGroupQuery {
    /// Tenant anchor.
    pub school_id: SchoolId,
    /// If `true`, return only non-deleted groups.
    pub active_only: bool,
    /// Filter by privacy.
    pub privacy: Option<ChatGroupPrivacy>,
    /// Filter by group type (open/closed).
    pub group_type: Option<ChatGroupType>,
    /// Filter by member.
    pub member_user_id: Option<UserId>,
    /// Free-text search by name.
    pub search: Option<String>,
    /// Optional limit on the number of rows returned.
    pub limit: Option<u32>,
}

impl ChatGroupQuery {
    /// The stable query type identifier.
    pub fn query_type() -> (t: &'static str)
        ensures
            t@ == "communication.chat_group.query"@,
    {
        "communication.chat_group.query"
    }

    /// Executes the query. No executor is wired for this query yet, so
    /// it always answers `NotSupported`.
    pub fn execute(&self) -> (r: Result<Vec<ChatGroup>, DomainError>)
        ensures
            r matches Err(e) && e is NotSupported,
    {
        Err(DomainError::not_supported("ChatGroupQuery::execute has no executor yet"))
    }
}

// =============================================================================
// ChatGroupUserQuery
// =============================================================================

/// A typed query for `ChatGroupUser` rows.
#[derive(Debug, Clone, PartialEq)]
pub struct ChatGroupUserQuery {
    /// Tenant anchor.
    pub school_id: SchoolId,
    /// If `true`, return only currently-active memberships.
    pub active_only: bool,
    /// Filter by group.
    pub group_id: Option<ChatGroupId>,
    /// Filter by user.
    pub user_id: Option<UserId>,
    /// Filter by role (member/admin).
    pub role: Option<ChatGroupRole>,
    /// Optional limit on the number of rows returned.
    pub limit: Option<u32>,
}

impl ChatGroupUserQuery {
    /// The stable query type identifier.
    pub fn query_type() -> (t: &'static str)
        ensures
            t@ == "communication.chat_group_user.query"@,
    {
        "communication.chat_group_user.query"
    }

    /// Executes the query. No executor is wired for this query yet, so
    /// it always answers `NotSupported`.
    pub fn execute(&self) -> (r: Result<Vec<ChatGroupUser>, DomainError>)
        ensures
            r matches Err(e) && e is NotSupported,
    {
        Err(DomainError::not_supported("ChatGroupUserQuery::execute has no executor yet"))
    }
}

// =============================================================================
// ChatGroupMessageRecipientQuery
// =============================================================================

/// A typed query for `ChatGroupMessageRecipient` rows.
#[derive(Debug, Clone, PartialEq)]
pub struct ChatGroupMessageRecipientQuery {
    /// Tenant anchor.
    pub school_id: SchoolId,
    /// If `true`, return only non-removed recipients.
    pub active_only: bool,
    /// Filter by group.
    pub group_id: Option<ChatGroupId>,
    /// Filter by user.
    pub user_id: Option<UserId>,
    /// Filter by source message.
    pub message_id: Option<ChatMessageId>,
    /// If `Some(true)`, return only unread recipient rows.
    pub unread_only: Option<bool>,
    /// Optional limit on the number of rows returned.
    pub limit: Option<u32>,
}

impl ChatGroupMessageRecipientQuery {
    /// The stable query type identifier.
    pub fn query_type() -> (t: &'static str)
        ensures
            t@ == "communication.chat_group_message_recipient.query"@,
    {
        "communication.chat_group_message_recipient.query"
    }

    /// Executes the query. No executor is wired for this query yet, so
    /// it always answers `NotSupported`.
    pub fn execute(&self) -> (r: Result<Vec<ChatGroupMessageRecipient>, DomainError>)
        ensures
            r matches Err(e) && e is NotSupported,
    {
        Err(DomainError::not_supported("ChatGroupMessageRecipientQuery::execute has no executor yet"))
    }
}

// =============================================================================
// ChatGroupMessageRemoveQuery
// =============================================================================

/// A typed query for `ChatGroupMessageRemove` rows.
#[derive(Debug, Clone, PartialEq)]
pub struct ChatGroupMessageRemoveQuery {
    /// Tenant anchor.
    pub school_id: SchoolId,
    /// If `true`, return only non-retracted removal records.
    pub active_only: bool,
    /// Filter by group.
    pub group_id: Option<ChatGroupId>,
    /// Filter by user.
    pub user_id: Option<UserId>,
    /// Filter by source message.
    pub message_id: Option<ChatMessageId>,
    /// Optional limit on the number of rows returned.
    pub limit: Option<u32>,
}

impl ChatGroupMessageRemoveQuery {
    /// The stable query type identifier.
    pub fn query_type() -> (t: &'static str)
        ensures
            t@ == "communication.chat_group_message_remove.query"@,
    {
        "communication.chat_group_message_remove.query"
    }

    /// Executes the query. No executor is wired for this query yet, so
    /// it always answers `NotSupported`.
    pub fn execute(&self) -> (r: Result<Vec<ChatGroupMessageRemove>, DomainError>)
        ensures
            r matches Err(e) && e is NotSupported,
    {
        Err(DomainError::not_supported("ChatGroupMessageRemoveQuery::execute has no executor yet"))
    }
}

// =============================================================================
// ChatBlockUserQuery
// =============================================================================

/// A typed query for `ChatBlockUser` rows.
#[derive(Debug, Clone, PartialEq)]
pub struct ChatBlockUserQuery {
    /// Tenant anchor.
    pub school_id: SchoolId,
    /// If `true`, return only currently-active blocks.
    pub active_only: bool,
    /// Filter by blocker.
    pub block_by: Option<UserId>,
    /// Filter by blocked user.
    pub block_to: Option<UserId>,
    /// Optional limit on the number of rows returned.
    pub limit: Option<u32>,
}

impl ChatBlockUserQuery {
    /// The stable query type identifier.
    pub fn query_type() -> (t: &'static str)
        ensures
            t@ == "communication.chat_block_user.query"@,
    {
        "communication.chat_block_user.query"
    }

    /// Executes the query. No executor is wired for this query yet, so
    /// it always answers `NotSupported`.
    pub fn execute(&self) -> (r: Result<Vec<ChatBlockUser>, DomainError>)
        ensures
            r matches Err(e) && e is NotSupported,
    {
        Err(DomainError::not_supported("ChatBlockUserQuery::execute has no executor yet"))
    }
}

// =============================================================================
// ChatInvitationQuery
// =============================================================================

/// A typed query for `ChatInvitation` rows.
#[derive(Debug, Clone, PartialEq)]
pub struct ChatInvitationQuery {
    /// Tenant anchor.
    pub school_id: SchoolId,
    /// If `true`, return only pending invitations.
    pub active_only: bool,
    /// Filter by sender.
    pub from: Option<UserId>,
    /// Filter by recipient.
    pub to: Option<UserId>,
    /// Filter by invitation status.
    pub status: Option<ChatInvitationStatus>,
    /// Filter by invitation type.
    pub invitation_type: Option<ChatInvitationTypeEnum>,
    /// Optional limit on the number of rows returned.
    pub limit: Option<u32>,
}

impl ChatInvitationQuery {
    /// The stable query type identifier.
    pub fn query_type() -> (t: &'static str)
        ensures
            t@ == "communication.chat_invitation.query"@,
    {
        "communication.chat_invitation.query"
    }

    /// Executes the query. No executor is wired for this query yet, so
    /// it always answers `NotSupported`.
    pub fn execute(&self) -> (r: Result<Vec<ChatInvitation>, DomainError>)
        ensures
            r matches Err(e) && e is NotSupported,
    {
        Err(DomainError::not_supported("ChatInvitationQuery::execute has no executor yet"))
    }
}

// =============================================================================
// ChatInvitationTypeQuery
// =============================================================================

/// A typed query for `ChatInvitationType` rows.
#[derive(Debug, Clone, PartialEq)]
pub struct ChatInvitationTypeQuery {
    /// Tenant anchor.
    pub school_id: SchoolId,
    /// If `true`, return only non-deleted classifications.
    pub active_only: bool,
    /// Filter by invitation type.
    pub invitation_type: Option<ChatInvitationTypeEnum>,
    /// Filter by source invitation.
    pub invitation_id: Option<ChatInvitationId>,
    /// Optional limit on the number of rows returned.
    pub limit: Option<u32>,
}

impl ChatInvitationTypeQuery {
    /// The stable query type identifier.
    pub fn query_type() -> (t: &'static str)
        ensures
            t@ == "communication.chat_invitation_type.query"@,
    {
        "communication.chat_invitation_type.query"
    }

    /// Executes the query. No executor is wired for this query yet, so
    /// it always answers `NotSupported`.
    pub fn execute(&self) -> (r: Result<Vec<ChatInvitationType>, DomainError>)
        ensures
            r matches Err(e) && e is NotSupported,
    {
        Err(DomainError::not_supported("ChatInvitationTypeQuery::execute has no executor yet"))
    }
}

// =============================================================================
// ChatStatusQuery
// =============================================================================

/// A typed query for `ChatStatus` rows.
#[derive(Debug, Clone, PartialEq)]
pub struct ChatStatusQuery {
    /// Tenant anchor.
    pub school_id: SchoolId,
    /// If `true`, return only the latest status per user.
    pub active_only: bool,
    /// Filter by user.
    pub user_id: Option<UserId>,
    /// Filter by status.
    pub status: Option<ChatStatus>,
    /// Optional limit on the number of rows returned.
    pub limit: Option<u32>,
}

impl ChatStatusQuery {
    /// The stable query type identifier.
    pub fn query_type() -> (t: &'static str)
        ensures
            t@ == "communication.chat_status.query"@,
    {
        "communication.chat_status.query"
    }

    /// Executes the query. No executor is wired for this query yet, so
    /// it always answers `NotSupported`.
    pub fn execute(&self) -> (r: Result<Vec<ChatStatus>, DomainError>)
        ensures
            r matches Err(e) && e is NotSupported,
    {
        Err(DomainError::not_supported("ChatStatusQuery::execute has no executor yet"))
    }
}

// =============================================================================
// SendMessageQuery
// =============================================================================

/// A typed query for `SendMessage` rows.
#[derive(Debug, Clone, PartialEq)]
pub struct SendMessageQuery {
    /// Tenant anchor.
    pub school_id: SchoolId,
    /// If `true`, return only non-cancelled, non-completed sends.
    pub active_only: bool,
    /// Filter by send status.
    pub status: Option<SendMessageStatus>,
    /// Filter by audience descriptor.
    pub audience_filter: Option<AudienceDescriptor>,
    /// Optional inclusive date range on `notice_date`.
    pub date_range: Option<(CalendarDate, CalendarDate)>,
    /// Optional limit on the number of rows returned.
    pub limit: Option<u32>,
}

impl SendMessageQuery {
    /// The stable query type identifier.
    pub fn query_type() -> (t: &'static str)
        ensures
            t@ == "communication.send_message.query"@,
    {
        "communication.send_message.query"
    }

    /// Executes the query. No executor is wired for this query yet, so
    /// it always answers `NotSupported`.
    pub fn execute(&self) -> (r: Result<Vec<SendMessage>, DomainError>)
        ensures
            r matches Err(e) && e is NotSupported,
    {
        Err(DomainError::not_supported("SendMessageQuery::execute has no executor yet"))
    }
}

// =============================================================================
// ContactMessageQuery
// =============================================================================

/// A typed query for `ContactMessage` rows.
#[derive(Debug, Clone, PartialEq)]
pub struct ContactMessageQuery {
    /// Tenant anchor.
    pub school_id: SchoolId,
    /// If `true`, return only non-deleted messages.
    pub active_only: bool,
    /// Filter by viewed/unviewed status.
    pub view_status: Option<ContactMessageViewStatus>,
    /// Filter by replied/unreplied status.
    pub reply_status: Option<ContactMessageReplyStatus>,
    /// Optional inclusive date range on `received_at`.
    pub date_range: Option<(CalendarDate, CalendarDate)>,
    /// Free-text search by subject or name.
    pub search: Option<String>,
    /// Optional limit on the number of rows returned.
    pub limit: Option<u32>,
}

impl ContactMessageQuery {
    /// The stable query type identifier.
    pub fn query_type() -> (t: &'static str)
        ensures
            t@ == "communication.contact_message.query"@,
    {
        "communication.contact_message.query"
    }

    /// Executes the query. No executor is wired for this query yet, so
    /// it always answers `NotSupported`.
    pub fn execute(&self) -> (r: Result<Vec<ContactMessage>, DomainError>)
        ensures
            r matches Err(e) && e is NotSupported,
    {
        Err(DomainError::not_supported("ContactMessageQuery::execute has no executor yet"))
    }
}

// =============================================================================
// SpeechSliderQuery
// =============================================================================

/// A typed query for `SpeechSlider` rows.
#[derive(Debug, Clone, PartialEq)]
pub struct SpeechSliderQuery {
    /// Tenant anchor.
    pub school_id: SchoolId,
    /// If `true`, return only non-deleted sliders.
    pub active_only: bool,
    /// Free-text search by name or designation.
    pub search: Option<String>,
    /// Optional limit on the number of rows returned.
    pub limit: Option<u32>,
}

impl SpeechSliderQuery {
    /// The stable query type identifier.
    pub fn query_type() -> (t: &'static str)
        ensures
            t@ == "communication.speech_slider.query"@,
    {
        "communication.speech_slider.query"
    }

    /// Executes the query. No executor is wired for this query yet, so
    /// it always answers `NotSupported`.
    pub fn execute(&self) -> (r: Result<Vec<SpeechSlider>, DomainError>)
        ensures
            r matches Err(e) && e is NotSupported,
    {
        Err(DomainError::not_supported("SpeechSliderQuery::execute has no executor yet"))
    }
}

// =============================================================================
// PhoneCallLogQuery
// =============================================================================

/// A typed query for `PhoneCallLog` rows.
#[derive(Debug, Clone, PartialEq)]
pub struct PhoneCallLogQuery {
    /// Tenant anchor.
    pub school_id: SchoolId,
    /// If `true`, return only non-deleted call logs.
    pub active_only: bool,
    /// Filter by call direction/type.
    pub call_type: Option<CallType>,
    /// If `Some(true)`, return only calls whose
    /// `next_follow_up_date` is on or before today.
    pub follow_up_due_only: Option<bool>,
    /// Optional inclusive date range on `date`.
    pub date_range: Option<(CalendarDate, CalendarDate)>,
    /// Free-text search by name or phone.
    pub search: Option<String>,
    /// Optional limit on the number of rows returned.
    pub limit: Option<u32>,
}

impl PhoneCallLogQuery {
    /// The stable query type identifier.
    pub fn query_type() -> (t: &'static str)
        ensures
            t@ == "communication.phone_call_log.query"@,
    {
        "communication.phone_call_log.query"
    }

    /// Executes the query. No executor is wired for this query yet, so
    /// it always answers `NotSupported`.
    pub fn execute(&self) -> (r: Result<Vec<PhoneCallLog>, DomainError>)
        ensures
            r matches Err(e) && e is NotSupported,
    {
        Err(DomainError::not_supported("PhoneCallLogQuery::execute has no executor yet"))
    }
}

// =============================================================================
// CustomSmsSettingQuery
// =============================================================================

/// A typed query for `CustomSmsSetting` rows.
#[derive(Debug, Clone, PartialEq)]
pub struct CustomSmsSettingQuery {
    /// Tenant anchor.
    pub school_id: SchoolId,
    /// If `true`, return only non-deleted custom settings.
    pub active_only: bool,
    /// Filter by gateway.
    pub gateway_id: Option<SmsGatewayId>,
    /// Filter by request method.
    pub request_method: Option<RequestMethod>,
    /// Free-text search by gateway name.
    pub search: Option<String>,
    /// Optional limit on the number of rows returned.
    pub limit: Option<u32>,
}

impl CustomSmsSettingQuery {
    /// The stable query type identifier.
    pub fn query_type() -> (t: &'static str)
        ensures
            t@ == "communication.custom_sms_setting.query"@,
    {
        "communication.custom_sms_setting.query"
    }

    /// Executes the query. No executor is wired for this query yet, so
    /// it always answers `NotSupported`.
    pub fn execute(&self) -> (r: Result<Vec<CustomSmsSetting>, DomainError>)
        ensures
            r matches Err(e) && e is NotSupported,
    {
        Err(DomainError::not_supported("CustomSmsSettingQuery::execute has no executor yet"))
    }
}

} // verus!
