//! # Communication domain services
//!
//! Pure factory functions: each takes a typed command, a clock and an
//! id generator, and returns the new aggregate (or updates the given
//! one) together with the typed event it emits. The dispatcher
//! persists the aggregate and writes the audit, outbox and idempotency
//! rows in one transaction.
//!
//! The time of a change and the event id come from the clock and the
//! id generator, whatever they return; each factory's contract states
//! the result in terms of the command, the aggregate it was given, and
//! those two values, which the emitted event carries as `occurred_at`
//! and `event_id`. A created aggregate's id reuses the event id's UUID
//! under the command's school.
//!
//! Next to the factories stand the headline services (thin wrappers
//! over a factory), the service structs (`NotificationService`,
//! `ChatService`, `ComplaintService`, `AbsentNotificationService`, and
//! `TemplateService::render`), the policies (`SmsDispatchPolicy`,
//! `ChatInvitePolicy`) and the specifications (`ActiveRecipients`,
//! `NoticesPublishedInRange`).
use vstd::prelude::*;

use crate::aggregate::{
    AbsentNotificationTimeSetup, ChatBlockUser, ChatConversation, ChatGroup,
    ChatGroupMessageRecipient, ChatGroupMessageRemove, ChatGroupUser, ChatInvitation,
    ChatInvitationType, ChatMessage, Complaint, ComplaintType, ContactMessage, CustomSmsSetting,
    EmailLog, EmailSetting, Notice, Notification, NotificationSetting, PhoneCallLog, SendMessage,
    SmsGateway, SmsLog, SmsTemplate, SpeechSlider, audience_users, field_if, recipient_count_of,
};
use crate::commands::{
    AcceptChatInvitationCommand, ActivateEmailSettingCommand, ActivateSmsGatewayCommand,
    AddComplaintNoteCommand, AddUserToChatGroupCommand, AssignComplaintCommand, BlockUserCommand,
    CancelSendMessageCommand, ClassifyChatInvitationCommand, CloseChatConversationCommand,
    ConfigureAbsentNotificationCommand, ConfigureEmailSettingCommand, ConfigureSmsGatewayCommand,
    CreateChatGroupCommand, CreateComplaintTypeCommand, CreateCustomSmsSettingCommand,
    CreateNoticeCommand, CreateNotificationSettingCommand, CreateSendMessageCommand,
    CreateSmsTemplateCommand, CreateSpeechSliderCommand, DeleteAbsentNotificationCommand,
    DeleteChatGroupCommand, DeleteChatMessageCommand, DeleteComplaintTypeCommand,
    DeleteCustomSmsSettingCommand, DeleteEmailSettingCommand, DeleteNoticeCommand,
    DeleteNotificationSettingCommand, DeleteSmsGatewayCommand, DeleteSmsTemplateCommand,
    DeleteSpeechSliderCommand, DisableAbsentNotificationCommand, DisableSmsTemplateCommand,
    DispatchSendMessageCommand, EnableAbsentNotificationCommand, EnableSmsTemplateCommand,
    LogEmailSentCommand, LogPhoneCallCommand, LogSmsSentCommand, MarkChatMessageSeenCommand,
    MarkContactMessageViewedCommand, MarkGroupMessageReadCommand, MarkNotificationReadCommand,
    OpenChatConversationCommand, PublishNoticeCommand, ReceiveContactMessageCommand,
    RecordGroupMessageRecipientCommand, RegisterComplaintCommand, RejectChatInvitationCommand,
    RemoveGroupMessageForUserCommand, RemoveUserFromChatGroupCommand, ReplyToContactMessageCommand,
    ResolveComplaintCommand, SendChatInvitationCommand, SendChatMessageCommand,
    SendNotificationCommand, SetChatGroupReadOnlyCommand, SetChatGroupUserRoleCommand,
    SetChatStatusCommand, UnblockUserCommand, UnpublishNoticeCommand, UpdateChatGroupCommand,
    UpdateComplaintStatusCommand, UpdateComplaintTypeCommand, UpdateCustomSmsSettingCommand,
    UpdateNoticeCommand, UpdateNotificationSettingCommand, UpdatePhoneCallFollowUpCommand,
    UpdateSmsTemplateCommand, UpdateSpeechSliderCommand, WithdrawNotificationCommand,
};
use crate::entities::{
    AbsentNotificationDispatch, ComplaintNote, ContactMessageReply, DeliveryOutcome,
};
use crate::errors::{
    DomainError,
};
use crate::events::{
    AbsentNotificationDeleted, AbsentNotificationDisabled, AbsentNotificationEnabled,
    AbsentNotificationScheduled, ChatConversationClosed, ChatConversationOpened, ChatGroupCreated,
    ChatGroupDeleted, ChatGroupReadOnlySet, ChatGroupUpdated, ChatGroupUserAdded,
    ChatGroupUserRemoved, ChatGroupUserRoleChanged, ChatInvitationAccepted,
    ChatInvitationClassified, ChatInvitationRejected, ChatInvitationSent, ChatMessageDeleted,
    ChatMessageSeen, ChatMessageSent, ChatStatusSet, ComplaintAssigned, ComplaintNoteAdded,
    ComplaintRegistered, ComplaintResolved, ComplaintStatusChanged, ComplaintTypeCreated,
    ComplaintTypeDeleted, ComplaintTypeUpdated, ContactMessageReceived, ContactMessageReplied,
    ContactMessageViewed, CustomSmsSettingCreated, CustomSmsSettingDeleted,
    CustomSmsSettingUpdated, EmailLogged, EmailSettingActivated, EmailSettingConfigured,
    EmailSettingDeleted, GroupMessageMarkedRead, GroupMessageRecipientRecorded,
    GroupMessageRemovedForUser, NoticeCreated, NoticeDeleted, NoticePublished, NoticeUnpublished,
    NoticeUpdated, NotificationRead, NotificationSent, NotificationSettingCreated,
    NotificationSettingDeleted, NotificationSettingUpdated, NotificationWithdrawn,
    PhoneCallFollowUpUpdated, PhoneCallLogged, SendMessageCancelled, SendMessageCreated,
    SendMessageDispatched, SmsGatewayActivated, SmsGatewayConfigured, SmsGatewayDeleted, SmsLogged,
    SmsTemplateCreated, SmsTemplateDeleted, SmsTemplateDisabled, SmsTemplateEnabled,
    SmsTemplateUpdated, SpeechSliderCreated, SpeechSliderDeleted, SpeechSliderUpdated, UserBlocked,
    UserUnblocked,
};
use crate::foundation::{
    ActiveStatus, CalendarDate, Clock, CorrelationId, Etag, EventId, IdGenerator, StudentId,
    Timestamp, UserId, Version,
};
use crate::rendering::{
    TemplateService, TextMap, substituted, texts,
};
use crate::template::{
    less_from, text_less,
};
use crate::value_objects::{
    AbsentNotificationDispatchId, AbsentNotificationStatus, AbsentNotificationTimeSetupId, Channel,
    ChatBlockUserId, ChatConversationId, ChatGroupId, ChatGroupMessageRecipientId,
    ChatGroupMessageRemoveId, ChatGroupRole, ChatGroupUserId, ChatInvitationId,
    ChatInvitationStatus, ChatInvitationTypeId, ChatMessageId, ChatMessageStatus, ComplaintAction,
    ComplaintId, ComplaintNoteId, ComplaintStatus, ComplaintTypeId, ContactMessageId,
    ContactMessageReplyId, ContactMessageReplyStatus, ContactMessageViewStatus, CustomSmsSettingId,
    Destination, EmailLogId, EmailSettingId, NoticeId, NoticeStatus, NoticeType, NotificationId,
    NotificationSettingId, NotificationStatus, PhoneCallLogId, RenderedBody, SendMessageId,
    SendMessageStatus, SmsGatewayId, SmsLogId, SmsTemplateId, SmsTemplateStatus, SpeechSliderId,
    TemplateKey, TimeOfDay, bounded_text, digit_value, is_hhmm, minute_of_day, same_text,
    two_digits,
};

verus! {

/// The texts of a list of static names.
pub open spec fn str_texts(names: Seq<&'static str>) -> Seq<Seq<char>> {
    names.map_values(|name: &'static str| name@)
}

/// Owned copies of a list of static names, in order.
fn owned_strings(names: &Vec<&'static str>) -> (out: Vec<String>)
    ensures
        texts(out@) == str_texts(names@),
{
    let mut out: Vec<String> = Vec::new();
    let mut k: usize = 0;
    while k < names.len()
        invariant
            k <= names@.len(),
            texts(out@) == str_texts(names@.take(k as int)),
        decreases names@.len() - k,
    {
        let ghost before = out@;
        out.push(names[k].to_owned());
        proof {
            assert(names@.take(k + 1) =~= names@.take(k as int).push(names@[k as int]));
            assert(texts(out@) =~= texts(before).push(names@[k as int]@));
            assert(str_texts(names@.take(k + 1)) =~= str_texts(names@.take(k as int)).push(names@[k as int]@));
        }
        k += 1;
    }
    assert(names@.take(names@.len() as int) =~= names@);
    out
}

// =============================================================================
// Notice service
// =============================================================================

/// The change of [`create_notice`] made at time `now` under event id
/// `event_id`.
pub fn create_notice_at(
    cmd: CreateNoticeCommand,
    now: Timestamp,
    event_id: EventId,
) -> (r: Result<(Notice, NoticeCreated), DomainError>)
    ensures
        r is Ok,
        r matches Ok((made, event)) ==> (made.school_id == cmd.tenant.school_id),
        r matches Ok((made, event)) ==> (made.id == (NoticeId { school_id: cmd.tenant.school_id, value: event_id.value })),
        r matches Ok((made, event)) ==> (made.title@ == cmd.title@),
        r matches Ok((made, event)) ==> (made.body@ == cmd.body@),
        r matches Ok((made, event)) ==> (made.notice_type == NoticeType::General),
        r matches Ok((made, event)) ==> (made.notice_date == cmd.notice_date),
        r matches Ok((made, event)) ==> (made.publish_on == cmd.publish_on),
        r matches Ok((made, event)) ==> (made.audience@ == cmd.audience@),
        r matches Ok((made, event)) ==> (made.attachment == cmd.attachment),
        r matches Ok((made, event)) ==> (made.status == NoticeStatus::Draft),
        r matches Ok((made, event)) ==> (made.version == (Version { value: 1 })),
        r matches Ok((made, event)) ==> (made.etag == (Etag { value: 0 })),
        r matches Ok((made, event)) ==> (made.created_at == now),
        r matches Ok((made, event)) ==> (made.updated_at == now),
        r matches Ok((made, event)) ==> (made.created_by == cmd.tenant.actor_id),
        r matches Ok((made, event)) ==> (made.updated_by == cmd.tenant.actor_id),
        r matches Ok((made, event)) ==> (made.active_status == ActiveStatus::Active),
        r matches Ok((made, event)) ==> (made.last_event_id == Some(event_id)),
        r matches Ok((made, event)) ==> (made.correlation_id == cmd.tenant.correlation_id),
        r matches Ok((made, event)) ==> (event.notice_id == (NoticeId { school_id: cmd.tenant.school_id, value: event_id.value })),
        r matches Ok((made, event)) ==> (event.title == cmd.title),
        r matches Ok((made, event)) ==> (event.notice_date == cmd.notice_date),
        r matches Ok((made, event)) ==> (event.publish_on == cmd.publish_on),
        r matches Ok((made, event)) ==> (event.audience == cmd.audience),
        r matches Ok((made, event)) ==> (event.event_id == event_id),
        r matches Ok((made, event)) ==> (event.correlation_id == cmd.tenant.correlation_id),
        r matches Ok((made, event)) ==> (event.occurred_at == now),
{
    let school = cmd.tenant.school_id;
    let id = NoticeId::new(school, event_id.as_uuid());
    let mut notice = Notice::fresh(
        id,
        cmd.title.clone(),
        cmd.body.clone(),
        cmd.notice_date,
        cmd.publish_on,
        cmd.audience.clone(),
        cmd.attachment,
        cmd.tenant.actor_id,
        now,
        cmd.tenant.correlation_id,
    );
    notice.last_event_id = Some(event_id);
    let event = NoticeCreated::new(
        id,
        cmd.title,
        cmd.notice_date,
        cmd.publish_on,
        cmd.audience,
        event_id,
        cmd.tenant.correlation_id,
        now,
    );
    Ok((notice, event))
}

/// Builds a new [`Notice`] aggregate + a [`NoticeCreated`]
/// event.
pub fn create_notice<C: Clock, G: IdGenerator>(
    cmd: CreateNoticeCommand,
    clock: &C,
    ids: &G,
) -> (r: Result<(Notice, NoticeCreated), DomainError>)
    ensures
        r is Ok,
        r matches Ok((made, event)) ==> (made.school_id == cmd.tenant.school_id),
        r matches Ok((made, event)) ==> (made.id == (NoticeId { school_id: cmd.tenant.school_id, value: event.event_id.value })),
        r matches Ok((made, event)) ==> (made.title@ == cmd.title@),
        r matches Ok((made, event)) ==> (made.body@ == cmd.body@),
        r matches Ok((made, event)) ==> (made.notice_type == NoticeType::General),
        r matches Ok((made, event)) ==> (made.notice_date == cmd.notice_date),
        r matches Ok((made, event)) ==> (made.publish_on == cmd.publish_on),
        r matches Ok((made, event)) ==> (made.audience@ == cmd.audience@),
        r matches Ok((made, event)) ==> (made.attachment == cmd.attachment),
        r matches Ok((made, event)) ==> (made.status == NoticeStatus::Draft),
        r matches Ok((made, event)) ==> (made.version == (Version { value: 1 })),
        r matches Ok((made, event)) ==> (made.etag == (Etag { value: 0 })),
        r matches Ok((made, event)) ==> (made.created_at == event.occurred_at),
        r matches Ok((made, event)) ==> (made.updated_at == event.occurred_at),
        r matches Ok((made, event)) ==> (made.created_by == cmd.tenant.actor_id),
        r matches Ok((made, event)) ==> (made.updated_by == cmd.tenant.actor_id),
        r matches Ok((made, event)) ==> (made.active_status == ActiveStatus::Active),
        r matches Ok((made, event)) ==> (made.last_event_id == Some(event.event_id)),
        r matches Ok((made, event)) ==> (made.correlation_id == cmd.tenant.correlation_id),
        r matches Ok((made, event)) ==> (event.notice_id == (NoticeId { school_id: cmd.tenant.school_id, value: event.event_id.value })),
        r matches Ok((made, event)) ==> (event.title == cmd.title),
        r matches Ok((made, event)) ==> (event.notice_date == cmd.notice_date),
        r matches Ok((made, event)) ==> (event.publish_on == cmd.publish_on),
        r matches Ok((made, event)) ==> (event.audience == cmd.audience),
        r matches Ok((made, event)) ==> (event.correlation_id == cmd.tenant.correlation_id),
{
    let now = clock.now();
    let event_id = ids.next_event_id();
    create_notice_at(cmd, now, event_id)
}

/// The change of [`update_notice`] made at time `now` under event id
/// `event_id`.
pub fn update_notice_at(
    cmd: UpdateNoticeCommand,
    now: Timestamp,
    event_id: EventId,
    notice: &mut Notice,
) -> (r: Result<NoticeUpdated, DomainError>)
    ensures
        r is Ok,
        r matches Ok(event) ==> (event.notice_id == old(notice).id),
        r matches Ok(event) ==> (texts(event.changes@) == str_texts(field_if(cmd.title is Some && cmd.title.unwrap()@ != old(notice).title@, "title") + field_if(cmd.body is Some && cmd.body.unwrap()@ != old(notice).body@, "body") + field_if(cmd.publish_on != old(notice).publish_on, "publish_on") + field_if(cmd.audience is Some && cmd.audience.unwrap()@ != old(notice).audience@, "audience"))),
        r matches Ok(event) ==> (event.event_id == event_id),
        r matches Ok(event) ==> (event.correlation_id == cmd.tenant.correlation_id),
        r matches Ok(event) ==> (event.occurred_at == now),
        r matches Ok(event) ==> (*final(notice) == (Notice { updated_at: now, updated_by: cmd.tenant.actor_id, version: old(notice).version.bumped(), last_event_id: Some(event_id), title: (match cmd.title { Some(v) => v, None => old(notice).title }), body: (match cmd.body { Some(v) => v, None => old(notice).body }), publish_on: cmd.publish_on, audience: (match cmd.audience { Some(v) => v, None => old(notice).audience }), ..*old(notice) })),
{
    let changes = notice.update(
        cmd.title,
        cmd.body,
        Some(cmd.publish_on),
        cmd.audience,
        cmd.tenant.actor_id,
        now,
        event_id,
    );
    Ok(NoticeUpdated::new(
        notice.id,
        owned_strings(&changes),
        event_id,
        cmd.tenant.correlation_id,
        now,
    ))
}

/// Mutates a [`Notice`] aggregate and emits a [`NoticeUpdated`]
/// event.
pub fn update_notice<C: Clock, G: IdGenerator>(
    cmd: UpdateNoticeCommand,
    clock: &C,
    ids: &G,
    notice: &mut Notice,
) -> (r: Result<NoticeUpdated, DomainError>)
    ensures
        r is Ok,
        r matches Ok(event) ==> (event.notice_id == old(notice).id),
        r matches Ok(event) ==> (texts(event.changes@) == str_texts(field_if(cmd.title is Some && cmd.title.unwrap()@ != old(notice).title@, "title") + field_if(cmd.body is Some && cmd.body.unwrap()@ != old(notice).body@, "body") + field_if(cmd.publish_on != old(notice).publish_on, "publish_on") + field_if(cmd.audience is Some && cmd.audience.unwrap()@ != old(notice).audience@, "audience"))),
        r matches Ok(event) ==> (event.correlation_id == cmd.tenant.correlation_id),
        r matches Ok(event) ==> (*final(notice) == (Notice { updated_at: event.occurred_at, updated_by: cmd.tenant.actor_id, version: old(notice).version.bumped(), last_event_id: Some(event.event_id), title: (match cmd.title { Some(v) => v, None => old(notice).title }), body: (match cmd.body { Some(v) => v, None => old(notice).body }), publish_on: cmd.publish_on, audience: (match cmd.audience { Some(v) => v, None => old(notice).audience }), ..*old(notice) })),
{
    let now = clock.now();
    let event_id = ids.next_event_id();
    update_notice_at(cmd, now, event_id, notice)
}

/// The change of [`publish_notice`] made at time `now` under event id
/// `event_id`.
pub fn publish_notice_at(
    cmd: PublishNoticeCommand,
    now: Timestamp,
    event_id: EventId,
    notice: &mut Notice,
) -> (r: Result<NoticePublished, DomainError>)
    ensures
        r is Ok,
        r matches Ok(event) ==> (event.notice_id == old(notice).id),
        r matches Ok(event) ==> (event.published_at == cmd.publish_at.unwrap_or(now)),
        r matches Ok(event) ==> (event.event_id == event_id),
        r matches Ok(event) ==> (event.correlation_id == cmd.tenant.correlation_id),
        r matches Ok(event) ==> (event.occurred_at == now),
        r matches Ok(event) ==> (*final(notice) == (Notice { status: NoticeStatus::Published, updated_at: now, updated_by: cmd.tenant.actor_id, version: old(notice).version.bumped(), last_event_id: Some(event_id), ..*old(notice) })),
{
    let published_at = cmd.publish_at.unwrap_or(now);
    notice.publish(cmd.tenant.actor_id, now, event_id);
    Ok(NoticePublished::new(
        notice.id,
        published_at,
        event_id,
        cmd.tenant.correlation_id,
        now,
    ))
}

/// Publishes a [`Notice`] aggregate and emits a
/// [`NoticePublished`] event.
pub fn publish_notice<C: Clock, G: IdGenerator>(
    cmd: PublishNoticeCommand,
    clock: &C,
    ids: &G,
    notice: &mut Notice,
) -> (r: Result<NoticePublished, DomainError>)
    ensures
        r is Ok,
        r matches Ok(event) ==> (event.notice_id == old(notice).id),
        r matches Ok(event) ==> (event.published_at == cmd.publish_at.unwrap_or(event.occurred_at)),
        r matches Ok(event) ==> (event.correlation_id == cmd.tenant.correlation_id),
        r matches Ok(event) ==> (*final(notice) == (Notice { status: NoticeStatus::Published, updated_at: event.occurred_at, updated_by: cmd.tenant.actor_id, version: old(notice).version.bumped(), last_event_id: Some(event.event_id), ..*old(notice) })),
{
    let now = clock.now();
    let event_id = ids.next_event_id();
    publish_notice_at(cmd, now, event_id, notice)
}

/// The change of [`unpublish_notice`] made at time `now` under event id
/// `event_id`.
pub fn unpublish_notice_at(
    cmd: UnpublishNoticeCommand,
    now: Timestamp,
    event_id: EventId,
    notice: &mut Notice,
) -> (r: Result<NoticeUnpublished, DomainError>)
    ensures
        r is Ok,
        r matches Ok(event) ==> (event.notice_id == old(notice).id),
        r matches Ok(event) ==> (event.reason == cmd.reason),
        r matches Ok(event) ==> (event.event_id == event_id),
        r matches Ok(event) ==> (event.correlation_id == cmd.tenant.correlation_id),
        r matches Ok(event) ==> (event.occurred_at == now),
        r matches Ok(event) ==> (*final(notice) == (Notice { status: NoticeStatus::Unpublished, updated_at: now, updated_by: cmd.tenant.actor_id, version: old(notice).version.bumped(), last_event_id: Some(event_id), ..*old(notice) })),
{
    notice.unpublish(cmd.tenant.actor_id, now, event_id);
    Ok(NoticeUnpublished::new(
        notice.id,
        cmd.reason,
        event_id,
        cmd.tenant.correlation_id,
        now,
    ))
}

/// Unpublishes a [`Notice`] aggregate and emits a
/// [`NoticeUnpublished`] event.
pub fn unpublish_notice<C: Clock, G: IdGenerator>(
    cmd: UnpublishNoticeCommand,
    clock: &C,
    ids: &G,
    notice: &mut Notice,
) -> (r: Result<NoticeUnpublished, DomainError>)
    ensures
        r is Ok,
        r matches Ok(event) ==> (event.notice_id == old(notice).id),
        r matches Ok(event) ==> (event.reason == cmd.reason),
        r matches Ok(event) ==> (event.correlation_id == cmd.tenant.correlation_id),
        r matches Ok(event) ==> (*final(notice) == (Notice { status: NoticeStatus::Unpublished, updated_at: event.occurred_at, updated_by: cmd.tenant.actor_id, version: old(notice).version.bumped(), last_event_id: Some(event.event_id), ..*old(notice) })),
{
    let now = clock.now();
    let event_id = ids.next_event_id();
    unpublish_notice_at(cmd, now, event_id, notice)
}

/// The change of [`delete_notice`] made at time `now` under event id
/// `event_id`.
pub fn delete_notice_at(
    cmd: DeleteNoticeCommand,
    now: Timestamp,
    event_id: EventId,
    notice: &mut Notice,
) -> (r: Result<NoticeDeleted, DomainError>)
    ensures
        r is Ok,
        r matches Ok(event) ==> (event.notice_id == old(notice).id),
        r matches Ok(event) ==> (event.event_id == event_id),
        r matches Ok(event) ==> (event.correlation_id == cmd.tenant.correlation_id),
        r matches Ok(event) ==> (event.occurred_at == now),
        r matches Ok(event) ==> (*final(notice) == (Notice { active_status: ActiveStatus::Retired, updated_at: now, updated_by: cmd.tenant.actor_id, version: old(notice).version.bumped(), last_event_id: Some(event_id), ..*old(notice) })),
{
    notice.mark_deleted(cmd.tenant.actor_id, now, event_id);
    Ok(NoticeDeleted::new(
        notice.id,
        event_id,
        cmd.tenant.correlation_id,
        now,
    ))
}

/// Soft-deletes a [`Notice`] aggregate and emits a
/// [`NoticeDeleted`] event.
pub fn delete_notice<C: Clock, G: IdGenerator>(
    cmd: DeleteNoticeCommand,
    clock: &C,
    ids: &G,
    notice: &mut Notice,
) -> (r: Result<NoticeDeleted, DomainError>)
    ensures
        r is Ok,
        r matches Ok(event) ==> (event.notice_id == old(notice).id),
        r matches Ok(event) ==> (event.correlation_id == cmd.tenant.correlation_id),
        r matches Ok(event) ==> (*final(notice) == (Notice { active_status: ActiveStatus::Retired, updated_at: event.occurred_at, updated_by: cmd.tenant.actor_id, version: old(notice).version.bumped(), last_event_id: Some(event.event_id), ..*old(notice) })),
{
    let now = clock.now();
    let event_id = ids.next_event_id();
    delete_notice_at(cmd, now, event_id, notice)
}

// =============================================================================
// Complaint service
// =============================================================================

/// The change of [`register_complaint`] made at time `now` under event id
/// `event_id`.
pub fn register_complaint_at(
    cmd: RegisterComplaintCommand,
    now: Timestamp,
    event_id: EventId,
) -> (r: Result<(Complaint, ComplaintRegistered), DomainError>)
    ensures
        r is Ok,
        r matches Ok((made, event)) ==> (made.school_id == cmd.tenant.school_id),
        r matches Ok((made, event)) ==> (made.id == (ComplaintId { school_id: cmd.tenant.school_id, value: event_id.value })),
        r matches Ok((made, event)) ==> (made.complaint_type_id == cmd.complaint_type_id),
        r matches Ok((made, event)) ==> (made.complaint_by == cmd.complaint_by),
        r matches Ok((made, event)) ==> (made.complaint_source == cmd.complaint_source),
        r matches Ok((made, event)) ==> (made.phone == cmd.phone),
        r matches Ok((made, event)) ==> (made.date == cmd.date),
        r matches Ok((made, event)) ==> (made.description@ == cmd.description@),
        r matches Ok((made, event)) ==> (made.file == cmd.file),
        r matches Ok((made, event)) ==> (made.assignee_user_id.is_none()),
        r matches Ok((made, event)) ==> (made.status == ComplaintStatus::Open),
        r matches Ok((made, event)) ==> (made.action_taken.is_none()),
        r matches Ok((made, event)) ==> (made.version == (Version { value: 1 })),
        r matches Ok((made, event)) ==> (made.etag == (Etag { value: 0 })),
        r matches Ok((made, event)) ==> (made.created_at == now),
        r matches Ok((made, event)) ==> (made.updated_at == now),
        r matches Ok((made, event)) ==> (made.created_by == cmd.tenant.actor_id),
        r matches Ok((made, event)) ==> (made.updated_by == cmd.tenant.actor_id),
        r matches Ok((made, event)) ==> (made.active_status == ActiveStatus::Active),
        r matches Ok((made, event)) ==> (made.last_event_id == Some(event_id)),
        r matches Ok((made, event)) ==> (made.correlation_id == cmd.tenant.correlation_id),
        r matches Ok((made, event)) ==> (event.complaint_id == (ComplaintId { school_id: cmd.tenant.school_id, value: event_id.value })),
        r matches Ok((made, event)) ==> (event.complaint_type_id == cmd.complaint_type_id),
        r matches Ok((made, event)) ==> (event.complaint_source == cmd.complaint_source),
        r matches Ok((made, event)) ==> (event.date == cmd.date),
        r matches Ok((made, event)) ==> (event.event_id == event_id),
        r matches Ok((made, event)) ==> (event.correlation_id == cmd.tenant.correlation_id),
        r matches Ok((made, event)) ==> (event.occurred_at == now),
{
    let school = cmd.tenant.school_id;
    let id = ComplaintId::new(school, event_id.as_uuid());
    let mut complaint = Complaint::fresh(
        id,
        cmd.complaint_by,
        cmd.complaint_type_id,
        cmd.complaint_source,
        cmd.phone,
        cmd.date,
        cmd.description.clone(),
        cmd.file,
        cmd.tenant.actor_id,
        now,
        cmd.tenant.correlation_id,
    );
    complaint.last_event_id = Some(event_id);
    let event = ComplaintRegistered::new(
        id,
        cmd.complaint_type_id,
        cmd.complaint_source,
        cmd.date,
        event_id,
        cmd.tenant.correlation_id,
        now,
    );
    Ok((complaint, event))
}

/// Builds a new [`Complaint`] aggregate + a
/// [`ComplaintRegistered`] event.
pub fn register_complaint<C: Clock, G: IdGenerator>(
    cmd: RegisterComplaintCommand,
    clock: &C,
    ids: &G,
) -> (r: Result<(Complaint, ComplaintRegistered), DomainError>)
    ensures
        r is Ok,
        r matches Ok((made, event)) ==> (made.school_id == cmd.tenant.school_id),
        r matches Ok((made, event)) ==> (made.id == (ComplaintId { school_id: cmd.tenant.school_id, value: event.event_id.value })),
        r matches Ok((made, event)) ==> (made.complaint_type_id == cmd.complaint_type_id),
        r matches Ok((made, event)) ==> (made.complaint_by == cmd.complaint_by),
        r matches Ok((made, event)) ==> (made.complaint_source == cmd.complaint_source),
        r matches Ok((made, event)) ==> (made.phone == cmd.phone),
        r matches Ok((made, event)) ==> (made.date == cmd.date),
        r matches Ok((made, event)) ==> (made.description@ == cmd.description@),
        r matches Ok((made, event)) ==> (made.file == cmd.file),
        r matches Ok((made, event)) ==> (made.assignee_user_id.is_none()),
        r matches Ok((made, event)) ==> (made.status == ComplaintStatus::Open),
        r matches Ok((made, event)) ==> (made.action_taken.is_none()),
        r matches Ok((made, event)) ==> (made.version == (Version { value: 1 })),
        r matches Ok((made, event)) ==> (made.etag == (Etag { value: 0 })),
        r matches Ok((made, event)) ==> (made.created_at == event.occurred_at),
        r matches Ok((made, event)) ==> (made.updated_at == event.occurred_at),
        r matches Ok((made, event)) ==> (made.created_by == cmd.tenant.actor_id),
        r matches Ok((made, event)) ==> (made.updated_by == cmd.tenant.actor_id),
        r matches Ok((made, event)) ==> (made.active_status == ActiveStatus::Active),
        r matches Ok((made, event)) ==> (made.last_event_id == Some(event.event_id)),
        r matches Ok((made, event)) ==> (made.correlation_id == cmd.tenant.correlation_id),
        r matches Ok((made, event)) ==> (event.complaint_id == (ComplaintId { school_id: cmd.tenant.school_id, value: event.event_id.value })),
        r matches Ok((made, event)) ==> (event.complaint_type_id == cmd.complaint_type_id),
        r matches Ok((made, event)) ==> (event.complaint_source == cmd.complaint_source),
        r matches Ok((made, event)) ==> (event.date == cmd.date),
        r matches Ok((made, event)) ==> (event.correlation_id == cmd.tenant.correlation_id),
{
    let now = clock.now();
    let event_id = ids.next_event_id();
    register_complaint_at(cmd, now, event_id)
}

/// The change of [`assign_complaint`] made at time `now` under event id
/// `event_id`.
pub fn assign_complaint_at(
    cmd: AssignComplaintCommand,
    now: Timestamp,
    event_id: EventId,
    complaint: &mut Complaint,
) -> (r: Result<ComplaintAssigned, DomainError>)
    ensures
        r is Ok,
        r matches Ok(event) ==> (event.complaint_id == old(complaint).id),
        r matches Ok(event) ==> (event.assignee_user_id == cmd.assignee_user_id),
        r matches Ok(event) ==> (event.event_id == event_id),
        r matches Ok(event) ==> (event.correlation_id == cmd.tenant.correlation_id),
        r matches Ok(event) ==> (event.occurred_at == now),
        r matches Ok(event) ==> (*final(complaint) == (Complaint { assignee_user_id: Some(cmd.assignee_user_id), updated_at: now, updated_by: cmd.tenant.actor_id, version: old(complaint).version.bumped(), last_event_id: Some(event_id), ..*old(complaint) })),
{
    complaint.assign(cmd.assignee_user_id, cmd.tenant.actor_id, now, event_id);
    Ok(ComplaintAssigned::new(
        complaint.id,
        cmd.assignee_user_id,
        event_id,
        cmd.tenant.correlation_id,
        now,
    ))
}

/// Assigns a [`Complaint`] to a user and emits a
/// [`ComplaintAssigned`] event.
pub fn assign_complaint<C: Clock, G: IdGenerator>(
    cmd: AssignComplaintCommand,
    clock: &C,
    ids: &G,
    complaint: &mut Complaint,
) -> (r: Result<ComplaintAssigned, DomainError>)
    ensures
        r is Ok,
        r matches Ok(event) ==> (event.complaint_id == old(complaint).id),
        r matches Ok(event) ==> (event.assignee_user_id == cmd.assignee_user_id),
        r matches Ok(event) ==> (event.correlation_id == cmd.tenant.correlation_id),
        r matches Ok(event) ==> (*final(complaint) == (Complaint { assignee_user_id: Some(cmd.assignee_user_id), updated_at: event.occurred_at, updated_by: cmd.tenant.actor_id, version: old(complaint).version.bumped(), last_event_id: Some(event.event_id), ..*old(complaint) })),
{
    let now = clock.now();
    let event_id = ids.next_event_id();
    assign_complaint_at(cmd, now, event_id, complaint)
}

/// The change of [`update_complaint_status`] made at time `now` under event id
/// `event_id`.
pub fn update_complaint_status_at(
    cmd: UpdateComplaintStatusCommand,
    now: Timestamp,
    event_id: EventId,
    complaint: &mut Complaint,
) -> (r: Result<ComplaintStatusChanged, DomainError>)
    ensures
        r is Ok,
        r matches Ok(event) ==> (event.complaint_id == old(complaint).id),
        r matches Ok(event) ==> (event.from == old(complaint).status),
        r matches Ok(event) ==> (event.to == cmd.status),
        r matches Ok(event) ==> (event.event_id == event_id),
        r matches Ok(event) ==> (event.correlation_id == cmd.tenant.correlation_id),
        r matches Ok(event) ==> (event.occurred_at == now),
        r matches Ok(event) ==> (*final(complaint) == (Complaint { status: cmd.status, updated_at: now, updated_by: cmd.tenant.actor_id, version: old(complaint).version.bumped(), last_event_id: Some(event_id), ..*old(complaint) })),
{
    let from = complaint.status;
    complaint.update_status(cmd.status, cmd.tenant.actor_id, now, event_id);
    Ok(ComplaintStatusChanged::new(
        complaint.id,
        from,
        cmd.status,
        event_id,
        cmd.tenant.correlation_id,
        now,
    ))
}

/// Updates the status of a [`Complaint`] and emits a
/// [`ComplaintStatusChanged`] event.
pub fn update_complaint_status<C: Clock, G: IdGenerator>(
    cmd: UpdateComplaintStatusCommand,
    clock: &C,
    ids: &G,
    complaint: &mut Complaint,
) -> (r: Result<ComplaintStatusChanged, DomainError>)
    ensures
        r is Ok,
        r matches Ok(event) ==> (event.complaint_id == old(complaint).id),
        r matches Ok(event) ==> (event.from == old(complaint).status),
        r matches Ok(event) ==> (event.to == cmd.status),
        r matches Ok(event) ==> (event.correlation_id == cmd.tenant.correlation_id),
        r matches Ok(event) ==> (*final(complaint) == (Complaint { status: cmd.status, updated_at: event.occurred_at, updated_by: cmd.tenant.actor_id, version: old(complaint).version.bumped(), last_event_id: Some(event.event_id), ..*old(complaint) })),
{
    let now = clock.now();
    let event_id = ids.next_event_id();
    update_complaint_status_at(cmd, now, event_id, complaint)
}

/// The change of [`resolve_complaint`] made at time `now` under event id
/// `event_id`.
pub fn resolve_complaint_at(
    cmd: ResolveComplaintCommand,
    now: Timestamp,
    event_id: EventId,
    complaint: &mut Complaint,
) -> (r: Result<ComplaintResolved, DomainError>)
    ensures
        r is Ok,
        r matches Ok(event) ==> (event.complaint_id == old(complaint).id),
        r matches Ok(event) ==> (event.action_taken == cmd.action_taken),
        r matches Ok(event) ==> (event.resolved_at == now),
        r matches Ok(event) ==> (event.event_id == event_id),
        r matches Ok(event) ==> (event.correlation_id == cmd.tenant.correlation_id),
        r matches Ok(event) ==> (event.occurred_at == now),
        r matches Ok(event) ==> (*final(complaint) == (Complaint { status: ComplaintStatus::Resolved, action_taken: final(complaint).action_taken, updated_at: now, updated_by: cmd.tenant.actor_id, version: old(complaint).version.bumped(), last_event_id: Some(event_id), ..*old(complaint) })),
        r matches Ok(event) ==> ((final(complaint).action_taken matches Some(x) && x@ == cmd.action_taken@)),
{
    let resolved_at = now;
    complaint.resolve(
        cmd.action_taken.clone(),
        cmd.tenant.actor_id,
        now,
        event_id,
    );
    Ok(ComplaintResolved::new(
        complaint.id,
        cmd.action_taken,
        resolved_at,
        event_id,
        cmd.tenant.correlation_id,
        now,
    ))
}

/// Resolves a [`Complaint`] and emits a [`ComplaintResolved`]
/// event.
pub fn resolve_complaint<C: Clock, G: IdGenerator>(
    cmd: ResolveComplaintCommand,
    clock: &C,
    ids: &G,
    complaint: &mut Complaint,
) -> (r: Result<ComplaintResolved, DomainError>)
    ensures
        r is Ok,
        r matches Ok(event) ==> (event.complaint_id == old(complaint).id),
        r matches Ok(event) ==> (event.action_taken == cmd.action_taken),
        r matches Ok(event) ==> (event.resolved_at == event.occurred_at),
        r matches Ok(event) ==> (event.correlation_id == cmd.tenant.correlation_id),
        r matches Ok(event) ==> (*final(complaint) == (Complaint { status: ComplaintStatus::Resolved, action_taken: final(complaint).action_taken, updated_at: event.occurred_at, updated_by: cmd.tenant.actor_id, version: old(complaint).version.bumped(), last_event_id: Some(event.event_id), ..*old(complaint) })),
        r matches Ok(event) ==> ((final(complaint).action_taken matches Some(x) && x@ == cmd.action_taken@)),
{
    let now = clock.now();
    let event_id = ids.next_event_id();
    resolve_complaint_at(cmd, now, event_id, complaint)
}

/// The change of [`add_complaint_note`] made at time `now` under event id
/// `event_id`.
pub fn add_complaint_note_at(
    cmd: AddComplaintNoteCommand,
    now: Timestamp,
    event_id: EventId,
    complaint: &mut Complaint,
) -> (r: Result<(ComplaintNote, ComplaintNoteAdded), DomainError>)
    ensures
        r is Ok,
        r matches Ok((made, event)) ==> (made.school_id == cmd.tenant.school_id),
        r matches Ok((made, event)) ==> (made.id == (ComplaintNoteId { school_id: cmd.tenant.school_id, value: event_id.value })),
        r matches Ok((made, event)) ==> (made.complaint_id == old(complaint).id),
        r matches Ok((made, event)) ==> (made.author == cmd.tenant.actor_id),
        r matches Ok((made, event)) ==> (made.body@ == cmd.note@),
        r matches Ok((made, event)) ==> (made.created_at == now),
        r matches Ok((made, event)) ==> (made.correlation_id == cmd.tenant.correlation_id),
        r matches Ok((made, event)) ==> (event.complaint_id == old(complaint).id),
        r matches Ok((made, event)) ==> (event.note == cmd.note),
        r matches Ok((made, event)) ==> (event.author == cmd.tenant.actor_id),
        r matches Ok((made, event)) ==> (event.event_id == event_id),
        r matches Ok((made, event)) ==> (event.correlation_id == cmd.tenant.correlation_id),
        r matches Ok((made, event)) ==> (event.occurred_at == now),
        r matches Ok((made, event)) ==> (*final(complaint) == *old(complaint)),
{
    let school = cmd.tenant.school_id;
    let id = ComplaintNoteId::new(school, event_id.as_uuid());
    let note = ComplaintNote::new(
        id,
        complaint.id,
        cmd.tenant.actor_id,
        cmd.note.clone(),
        now,
        cmd.tenant.correlation_id,
    );
    let event = ComplaintNoteAdded::new(
        complaint.id,
        cmd.note,
        cmd.tenant.actor_id,
        event_id,
        cmd.tenant.correlation_id,
        now,
    );
    Ok((note, event))
}

/// Adds a note to a [`Complaint`] and emits a
/// [`ComplaintNoteAdded`] event.
pub fn add_complaint_note<C: Clock, G: IdGenerator>(
    cmd: AddComplaintNoteCommand,
    clock: &C,
    ids: &G,
    complaint: &mut Complaint,
) -> (r: Result<(ComplaintNote, ComplaintNoteAdded), DomainError>)
    ensures
        r is Ok,
        r matches Ok((made, event)) ==> (made.school_id == cmd.tenant.school_id),
        r matches Ok((made, event)) ==> (made.id == (ComplaintNoteId { school_id: cmd.tenant.school_id, value: event.event_id.value })),
        r matches Ok((made, event)) ==> (made.complaint_id == old(complaint).id),
        r matches Ok((made, event)) ==> (made.author == cmd.tenant.actor_id),
        r matches Ok((made, event)) ==> (made.body@ == cmd.note@),
        r matches Ok((made, event)) ==> (made.created_at == event.occurred_at),
        r matches Ok((made, event)) ==> (made.correlation_id == cmd.tenant.correlation_id),
        r matches Ok((made, event)) ==> (event.complaint_id == old(complaint).id),
        r matches Ok((made, event)) ==> (event.note == cmd.note),
        r matches Ok((made, event)) ==> (event.author == cmd.tenant.actor_id),
        r matches Ok((made, event)) ==> (event.correlation_id == cmd.tenant.correlation_id),
        r matches Ok((made, event)) ==> (*final(complaint) == *old(complaint)),
{
    let now = clock.now();
    let event_id = ids.next_event_id();
    add_complaint_note_at(cmd, now, event_id, complaint)
}

// =============================================================================
// ComplaintType service
// =============================================================================

/// The change of [`create_complaint_type`] made at time `now` under event id
/// `event_id`.
pub fn create_complaint_type_at(
    cmd: CreateComplaintTypeCommand,
    now: Timestamp,
    event_id: EventId,
) -> (r: Result<(ComplaintType, ComplaintTypeCreated), DomainError>)
    ensures
        r is Ok,
        r matches Ok((made, event)) ==> (made.school_id == cmd.tenant.school_id),
        r matches Ok((made, event)) ==> (made.id == (ComplaintTypeId { school_id: cmd.tenant.school_id, value: event_id.value })),
        r matches Ok((made, event)) ==> (made.name@ == cmd.name@),
        r matches Ok((made, event)) ==> (made.description == cmd.description),
        r matches Ok((made, event)) ==> (made.version == (Version { value: 1 })),
        r matches Ok((made, event)) ==> (made.etag == (Etag { value: 0 })),
        r matches Ok((made, event)) ==> (made.created_at == now),
        r matches Ok((made, event)) ==> (made.updated_at == now),
        r matches Ok((made, event)) ==> (made.created_by == cmd.tenant.actor_id),
        r matches Ok((made, event)) ==> (made.updated_by == cmd.tenant.actor_id),
        r matches Ok((made, event)) ==> (made.active_status == ActiveStatus::Active),
        r matches Ok((made, event)) ==> (made.last_event_id == Some(event_id)),
        r matches Ok((made, event)) ==> (made.correlation_id == cmd.tenant.correlation_id),
        r matches Ok((made, event)) ==> (event.complaint_type_id == (ComplaintTypeId { school_id: cmd.tenant.school_id, value: event_id.value })),
        r matches Ok((made, event)) ==> (event.name == cmd.name),
        r matches Ok((made, event)) ==> (event.event_id == event_id),
        r matches Ok((made, event)) ==> (event.correlation_id == cmd.tenant.correlation_id),
        r matches Ok((made, event)) ==> (event.occurred_at == now),
{
    let school = cmd.tenant.school_id;
    let id = ComplaintTypeId::new(school, event_id.as_uuid());
    let mut ct = ComplaintType::fresh(
        id,
        cmd.name.clone(),
        cmd.description,
        cmd.tenant.actor_id,
        now,
        cmd.tenant.correlation_id,
    );
    ct.last_event_id = Some(event_id);
    let event = ComplaintTypeCreated::new(
        id,
        cmd.name,
        event_id,
        cmd.tenant.correlation_id,
        now,
    );
    Ok((ct, event))
}

/// Builds a new [`ComplaintType`] aggregate + a
/// [`ComplaintTypeCreated`] event.
pub fn create_complaint_type<C: Clock, G: IdGenerator>(
    cmd: CreateComplaintTypeCommand,
    clock: &C,
    ids: &G,
) -> (r: Result<(ComplaintType, ComplaintTypeCreated), DomainError>)
    ensures
        r is Ok,
        r matches Ok((made, event)) ==> (made.school_id == cmd.tenant.school_id),
        r matches Ok((made, event)) ==> (made.id == (ComplaintTypeId { school_id: cmd.tenant.school_id, value: event.event_id.value })),
        r matches Ok((made, event)) ==> (made.name@ == cmd.name@),
        r matches Ok((made, event)) ==> (made.description == cmd.description),
        r matches Ok((made, event)) ==> (made.version == (Version { value: 1 })),
        r matches Ok((made, event)) ==> (made.etag == (Etag { value: 0 })),
        r matches Ok((made, event)) ==> (made.created_at == event.occurred_at),
        r matches Ok((made, event)) ==> (made.updated_at == event.occurred_at),
        r matches Ok((made, event)) ==> (made.created_by == cmd.tenant.actor_id),
        r matches Ok((made, event)) ==> (made.updated_by == cmd.tenant.actor_id),
        r matches Ok((made, event)) ==> (made.active_status == ActiveStatus::Active),
        r matches Ok((made, event)) ==> (made.last_event_id == Some(event.event_id)),
        r matches Ok((made, event)) ==> (made.correlation_id == cmd.tenant.correlation_id),
        r matches Ok((made, event)) ==> (event.complaint_type_id == (ComplaintTypeId { school_id: cmd.tenant.school_id, value: event.event_id.value })),
        r matches Ok((made, event)) ==> (event.name == cmd.name),
        r matches Ok((made, event)) ==> (event.correlation_id == cmd.tenant.correlation_id),
{
    let now = clock.now();
    let event_id = ids.next_event_id();
    create_complaint_type_at(cmd, now, event_id)
}

/// The change of [`update_complaint_type`] made at time `now` under event id
/// `event_id`.
pub fn update_complaint_type_at(
    cmd: UpdateComplaintTypeCommand,
    now: Timestamp,
    event_id: EventId,
    ct: &mut ComplaintType,
) -> (r: Result<ComplaintTypeUpdated, DomainError>)
    ensures
        r is Ok,
        r matches Ok(event) ==> (event.complaint_type_id == old(ct).id),
        r matches Ok(event) ==> (texts(event.changes@) == str_texts(field_if(cmd.name is Some, "name") + field_if(true, "description"))),
        r matches Ok(event) ==> (event.event_id == event_id),
        r matches Ok(event) ==> (event.correlation_id == cmd.tenant.correlation_id),
        r matches Ok(event) ==> (event.occurred_at == now),
        r matches Ok(event) ==> (*final(ct) == (ComplaintType { updated_at: now, updated_by: cmd.tenant.actor_id, version: old(ct).version.bumped(), last_event_id: Some(event_id), name: (match cmd.name { Some(v) => v, None => old(ct).name }), description: cmd.description, ..*old(ct) })),
{
    let changes = ct.update(
        cmd.name,
        Some(cmd.description),
        cmd.tenant.actor_id,
        now,
        event_id,
    );
    Ok(ComplaintTypeUpdated::new(
        ct.id,
        owned_strings(&changes),
        event_id,
        cmd.tenant.correlation_id,
        now,
    ))
}

/// Mutates a [`ComplaintType`] aggregate and emits a
/// [`ComplaintTypeUpdated`] event.
pub fn update_complaint_type<C: Clock, G: IdGenerator>(
    cmd: UpdateComplaintTypeCommand,
    clock: &C,
    ids: &G,
    ct: &mut ComplaintType,
) -> (r: Result<ComplaintTypeUpdated, DomainError>)
    ensures
        r is Ok,
        r matches Ok(event) ==> (event.complaint_type_id == old(ct).id),
        r matches Ok(event) ==> (texts(event.changes@) == str_texts(field_if(cmd.name is Some, "name") + field_if(true, "description"))),
        r matches Ok(event) ==> (event.correlation_id == cmd.tenant.correlation_id),
        r matches Ok(event) ==> (*final(ct) == (ComplaintType { updated_at: event.occurred_at, updated_by: cmd.tenant.actor_id, version: old(ct).version.bumped(), last_event_id: Some(event.event_id), name: (match cmd.name { Some(v) => v, None => old(ct).name }), description: cmd.description, ..*old(ct) })),
{
    let now = clock.now();
    let event_id = ids.next_event_id();
    update_complaint_type_at(cmd, now, event_id, ct)
}

/// The change of [`delete_complaint_type`] made at time `now` under event id
/// `event_id`.
pub fn delete_complaint_type_at(
    cmd: DeleteComplaintTypeCommand,
    now: Timestamp,
    event_id: EventId,
    ct: &mut ComplaintType,
) -> (r: Result<ComplaintTypeDeleted, DomainError>)
    ensures
        r is Ok,
        r matches Ok(event) ==> (event.complaint_type_id == old(ct).id),
        r matches Ok(event) ==> (event.event_id == event_id),
        r matches Ok(event) ==> (event.correlation_id == cmd.tenant.correlation_id),
        r matches Ok(event) ==> (event.occurred_at == now),
        r matches Ok(event) ==> (*final(ct) == (ComplaintType { active_status: ActiveStatus::Retired, updated_at: now, updated_by: cmd.tenant.actor_id, version: old(ct).version.bumped(), last_event_id: Some(event_id), ..*old(ct) })),
{
    ct.mark_deleted(cmd.tenant.actor_id, now, event_id);
    Ok(ComplaintTypeDeleted::new(
        ct.id,
        event_id,
        cmd.tenant.correlation_id,
        now,
    ))
}

/// Soft-deletes a [`ComplaintType`] aggregate and emits a
/// [`ComplaintTypeDeleted`] event.
pub fn delete_complaint_type<C: Clock, G: IdGenerator>(
    cmd: DeleteComplaintTypeCommand,
    clock: &C,
    ids: &G,
    ct: &mut ComplaintType,
) -> (r: Result<ComplaintTypeDeleted, DomainError>)
    ensures
        r is Ok,
        r matches Ok(event) ==> (event.complaint_type_id == old(ct).id),
        r matches Ok(event) ==> (event.correlation_id == cmd.tenant.correlation_id),
        r matches Ok(event) ==> (*final(ct) == (ComplaintType { active_status: ActiveStatus::Retired, updated_at: event.occurred_at, updated_by: cmd.tenant.actor_id, version: old(ct).version.bumped(), last_event_id: Some(event.event_id), ..*old(ct) })),
{
    let now = clock.now();
    let event_id = ids.next_event_id();
    delete_complaint_type_at(cmd, now, event_id, ct)
}

// =============================================================================
// Notification service
// =============================================================================

/// The change of [`send_notification`] made at time `now` under event id
/// `event_id`.
pub fn send_notification_at(
    cmd: SendNotificationCommand,
    now: Timestamp,
    event_id: EventId,
) -> (r: Result<(Notification, NotificationSent), DomainError>)
    ensures
        r is Ok,
        r matches Ok((made, event)) ==> (made.school_id == cmd.tenant.school_id),
        r matches Ok((made, event)) ==> (made.id == (NotificationId { school_id: cmd.tenant.school_id, value: event_id.value })),
        r matches Ok((made, event)) ==> (made.recipient_user_id == cmd.recipient_user_id),
        r matches Ok((made, event)) ==> (made.notification_type == cmd.notification_type),
        r matches Ok((made, event)) ==> (made.message == cmd.message),
        r matches Ok((made, event)) ==> (made.url == cmd.url),
        r matches Ok((made, event)) ==> (made.data == cmd.data),
        r matches Ok((made, event)) ==> (made.channel == cmd.channel),
        r matches Ok((made, event)) ==> (made.status == NotificationStatus::Pending),
        r matches Ok((made, event)) ==> (made.delivered_at.is_none()),
        r matches Ok((made, event)) ==> (made.read_at.is_none()),
        r matches Ok((made, event)) ==> (made.withdrawn_at.is_none()),
        r matches Ok((made, event)) ==> (made.withdrawn_reason.is_none()),
        r matches Ok((made, event)) ==> (made.version == (Version { value: 1 })),
        r matches Ok((made, event)) ==> (made.etag == (Etag { value: 0 })),
        r matches Ok((made, event)) ==> (made.created_at == now),
        r matches Ok((made, event)) ==> (made.updated_at == now),
        r matches Ok((made, event)) ==> (made.created_by == cmd.tenant.actor_id),
        r matches Ok((made, event)) ==> (made.updated_by == cmd.tenant.actor_id),
        r matches Ok((made, event)) ==> (made.active_status == ActiveStatus::Active),
        r matches Ok((made, event)) ==> (made.last_event_id == Some(event_id)),
        r matches Ok((made, event)) ==> (made.correlation_id == cmd.tenant.correlation_id),
        r matches Ok((made, event)) ==> (event.notification_id == (NotificationId { school_id: cmd.tenant.school_id, value: event_id.value })),
        r matches Ok((made, event)) ==> (event.recipient_user_id == cmd.recipient_user_id),
        r matches Ok((made, event)) ==> (event.notification_type == cmd.notification_type),
        r matches Ok((made, event)) ==> (event.channel == cmd.channel),
        r matches Ok((made, event)) ==> (event.event_id == event_id),
        r matches Ok((made, event)) ==> (event.correlation_id == cmd.tenant.correlation_id),
        r matches Ok((made, event)) ==> (event.occurred_at == now),
{
    let school = cmd.tenant.school_id;
    let id = NotificationId::new(school, event_id.as_uuid());
    let mut n = Notification::fresh(
        id,
        cmd.recipient_user_id,
        cmd.notification_type,
        cmd.message,
        cmd.url,
        cmd.data,
        cmd.channel,
        cmd.tenant.actor_id,
        now,
        cmd.tenant.correlation_id,
    );
    n.last_event_id = Some(event_id);
    let event = NotificationSent::new(
        id,
        cmd.recipient_user_id,
        cmd.notification_type,
        cmd.channel,
        event_id,
        cmd.tenant.correlation_id,
        now,
    );
    Ok((n, event))
}

/// Builds a new [`Notification`] aggregate + a
/// [`NotificationSent`] event.
pub fn send_notification<C: Clock, G: IdGenerator>(
    cmd: SendNotificationCommand,
    clock: &C,
    ids: &G,
) -> (r: Result<(Notification, NotificationSent), DomainError>)
    ensures
        r is Ok,
        r matches Ok((made, event)) ==> (made.school_id == cmd.tenant.school_id),
        r matches Ok((made, event)) ==> (made.id == (NotificationId { school_id: cmd.tenant.school_id, value: event.event_id.value })),
        r matches Ok((made, event)) ==> (made.recipient_user_id == cmd.recipient_user_id),
        r matches Ok((made, event)) ==> (made.notification_type == cmd.notification_type),
        r matches Ok((made, event)) ==> (made.message == cmd.message),
        r matches Ok((made, event)) ==> (made.url == cmd.url),
        r matches Ok((made, event)) ==> (made.data == cmd.data),
        r matches Ok((made, event)) ==> (made.channel == cmd.channel),
        r matches Ok((made, event)) ==> (made.status == NotificationStatus::Pending),
        r matches Ok((made, event)) ==> (made.delivered_at.is_none()),
        r matches Ok((made, event)) ==> (made.read_at.is_none()),
        r matches Ok((made, event)) ==> (made.withdrawn_at.is_none()),
        r matches Ok((made, event)) ==> (made.withdrawn_reason.is_none()),
        r matches Ok((made, event)) ==> (made.version == (Version { value: 1 })),
        r matches Ok((made, event)) ==> (made.etag == (Etag { value: 0 })),
        r matches Ok((made, event)) ==> (made.created_at == event.occurred_at),
        r matches Ok((made, event)) ==> (made.updated_at == event.occurred_at),
        r matches Ok((made, event)) ==> (made.created_by == cmd.tenant.actor_id),
        r matches Ok((made, event)) ==> (made.updated_by == cmd.tenant.actor_id),
        r matches Ok((made, event)) ==> (made.active_status == ActiveStatus::Active),
        r matches Ok((made, event)) ==> (made.last_event_id == Some(event.event_id)),
        r matches Ok((made, event)) ==> (made.correlation_id == cmd.tenant.correlation_id),
        r matches Ok((made, event)) ==> (event.notification_id == (NotificationId { school_id: cmd.tenant.school_id, value: event.event_id.value })),
        r matches Ok((made, event)) ==> (event.recipient_user_id == cmd.recipient_user_id),
        r matches Ok((made, event)) ==> (event.notification_type == cmd.notification_type),
        r matches Ok((made, event)) ==> (event.channel == cmd.channel),
        r matches Ok((made, event)) ==> (event.correlation_id == cmd.tenant.correlation_id),
{
    let now = clock.now();
    let event_id = ids.next_event_id();
    send_notification_at(cmd, now, event_id)
}

/// The change of [`mark_notification_read`] made at time `now` under event id
/// `event_id`.
pub fn mark_notification_read_at(
    cmd: MarkNotificationReadCommand,
    now: Timestamp,
    event_id: EventId,
    n: &mut Notification,
) -> (r: Result<NotificationRead, DomainError>)
    ensures
        r is Ok,
        r matches Ok(event) ==> (event.notification_id == old(n).id),
        r matches Ok(event) ==> (event.read_at == now),
        r matches Ok(event) ==> (event.event_id == event_id),
        r matches Ok(event) ==> (event.correlation_id == cmd.tenant.correlation_id),
        r matches Ok(event) ==> (event.occurred_at == now),
        r matches Ok(event) ==> (*final(n) == (Notification { status: NotificationStatus::Read, read_at: Some(now), updated_at: now, updated_by: cmd.tenant.actor_id, version: old(n).version.bumped(), last_event_id: Some(event_id), ..*old(n) })),
{
    let read_at = now;
    n.mark_read(cmd.tenant.actor_id, now, event_id);
    Ok(NotificationRead::new(
        n.id,
        read_at,
        event_id,
        cmd.tenant.correlation_id,
        now,
    ))
}

/// Marks a [`Notification`] as read and emits a
/// [`NotificationRead`] event.
pub fn mark_notification_read<C: Clock, G: IdGenerator>(
    cmd: MarkNotificationReadCommand,
    clock: &C,
    ids: &G,
    n: &mut Notification,
) -> (r: Result<NotificationRead, DomainError>)
    ensures
        r is Ok,
        r matches Ok(event) ==> (event.notification_id == old(n).id),
        r matches Ok(event) ==> (event.read_at == event.occurred_at),
        r matches Ok(event) ==> (event.correlation_id == cmd.tenant.correlation_id),
        r matches Ok(event) ==> (*final(n) == (Notification { status: NotificationStatus::Read, read_at: Some(event.occurred_at), updated_at: event.occurred_at, updated_by: cmd.tenant.actor_id, version: old(n).version.bumped(), last_event_id: Some(event.event_id), ..*old(n) })),
{
    let now = clock.now();
    let event_id = ids.next_event_id();
    mark_notification_read_at(cmd, now, event_id, n)
}

/// The change of [`withdraw_notification`] made at time `now` under event id
/// `event_id`.
pub fn withdraw_notification_at(
    cmd: WithdrawNotificationCommand,
    now: Timestamp,
    event_id: EventId,
    n: &mut Notification,
) -> (r: Result<NotificationWithdrawn, DomainError>)
    ensures
        r is Ok,
        r matches Ok(event) ==> (event.notification_id == old(n).id),
        r matches Ok(event) ==> (event.reason == cmd.reason),
        r matches Ok(event) ==> (event.event_id == event_id),
        r matches Ok(event) ==> (event.correlation_id == cmd.tenant.correlation_id),
        r matches Ok(event) ==> (event.occurred_at == now),
        r matches Ok(event) ==> (*final(n) == (Notification { status: NotificationStatus::Withdrawn, withdrawn_at: Some(now), withdrawn_reason: final(n).withdrawn_reason, updated_at: now, updated_by: cmd.tenant.actor_id, version: old(n).version.bumped(), last_event_id: Some(event_id), ..*old(n) })),
        r matches Ok(event) ==> ((final(n).withdrawn_reason matches Some(x) && x@ == cmd.reason@)),
{
    n.withdraw(
        cmd.reason.clone(),
        cmd.tenant.actor_id,
        now,
        event_id,
    );
    Ok(NotificationWithdrawn::new(
        n.id,
        cmd.reason,
        event_id,
        cmd.tenant.correlation_id,
        now,
    ))
}

/// Withdraws a [`Notification`] and emits a
/// [`NotificationWithdrawn`] event.
pub fn withdraw_notification<C: Clock, G: IdGenerator>(
    cmd: WithdrawNotificationCommand,
    clock: &C,
    ids: &G,
    n: &mut Notification,
) -> (r: Result<NotificationWithdrawn, DomainError>)
    ensures
        r is Ok,
        r matches Ok(event) ==> (event.notification_id == old(n).id),
        r matches Ok(event) ==> (event.reason == cmd.reason),
        r matches Ok(event) ==> (event.correlation_id == cmd.tenant.correlation_id),
        r matches Ok(event) ==> (*final(n) == (Notification { status: NotificationStatus::Withdrawn, withdrawn_at: Some(event.occurred_at), withdrawn_reason: final(n).withdrawn_reason, updated_at: event.occurred_at, updated_by: cmd.tenant.actor_id, version: old(n).version.bumped(), last_event_id: Some(event.event_id), ..*old(n) })),
        r matches Ok(event) ==> ((final(n).withdrawn_reason matches Some(x) && x@ == cmd.reason@)),
{
    let now = clock.now();
    let event_id = ids.next_event_id();
    withdraw_notification_at(cmd, now, event_id, n)
}

// =============================================================================
// EmailLog service (append-only)
// =============================================================================

/// The change of [`log_email_sent`] made at time `now` under event id
/// `event_id`.
pub fn log_email_sent_at(
    cmd: LogEmailSentCommand,
    now: Timestamp,
    event_id: EventId,
) -> (r: Result<(EmailLog, EmailLogged), DomainError>)
    ensures
        r is Ok,
        r matches Ok((made, event)) ==> (made.school_id == cmd.tenant.school_id),
        r matches Ok((made, event)) ==> (made.id == (EmailLogId { school_id: cmd.tenant.school_id, value: event_id.value })),
        r matches Ok((made, event)) ==> (made.title@ == cmd.title@),
        r matches Ok((made, event)) ==> (made.description == cmd.description),
        r matches Ok((made, event)) ==> (made.send_date == cmd.send_date),
        r matches Ok((made, event)) ==> (made.send_through == cmd.send_through),
        r matches Ok((made, event)) ==> (made.send_to@ == cmd.send_to@),
        r matches Ok((made, event)) ==> (made.message_id == cmd.message_id),
        r matches Ok((made, event)) ==> (made.version == (Version { value: 1 })),
        r matches Ok((made, event)) ==> (made.etag == (Etag { value: 0 })),
        r matches Ok((made, event)) ==> (made.created_at == now),
        r matches Ok((made, event)) ==> (made.updated_at == now),
        r matches Ok((made, event)) ==> (made.created_by == cmd.tenant.actor_id),
        r matches Ok((made, event)) ==> (made.updated_by == cmd.tenant.actor_id),
        r matches Ok((made, event)) ==> (made.active_status == ActiveStatus::Active),
        r matches Ok((made, event)) ==> (made.last_event_id == Some(event_id)),
        r matches Ok((made, event)) ==> (made.correlation_id == cmd.tenant.correlation_id),
        r matches Ok((made, event)) ==> (event.email_log_id == (EmailLogId { school_id: cmd.tenant.school_id, value: event_id.value })),
        r matches Ok((made, event)) ==> (event.title == cmd.title),
        r matches Ok((made, event)) ==> (event.send_through == cmd.send_through),
        r matches Ok((made, event)) ==> (event.send_to == cmd.send_to),
        r matches Ok((made, event)) ==> (event.send_date == cmd.send_date),
        r matches Ok((made, event)) ==> (event.source_message_id == cmd.message_id),
        r matches Ok((made, event)) ==> (event.event_id == event_id),
        r matches Ok((made, event)) ==> (event.correlation_id == cmd.tenant.correlation_id),
        r matches Ok((made, event)) ==> (event.occurred_at == now),
{
    let school = cmd.tenant.school_id;
    let id = EmailLogId::new(school, event_id.as_uuid());
    let mut log = EmailLog::fresh(
        id,
        cmd.title.clone(),
        cmd.description,
        cmd.send_date,
        cmd.send_through,
        cmd.send_to.clone(),
        cmd.message_id,
        cmd.tenant.actor_id,
        now,
        cmd.tenant.correlation_id,
    );
    log.last_event_id = Some(event_id);
    let event = EmailLogged::new(
        id,
        cmd.title,
        cmd.send_through,
        cmd.send_to,
        cmd.send_date,
        cmd.message_id,
        event_id,
        cmd.tenant.correlation_id,
        now,
    );
    Ok((log, event))
}

/// Appends an [`EmailLog`] aggregate + an [`EmailLogged`] event.
/// `EmailLog` is append-only (no update / delete).
pub fn log_email_sent<C: Clock, G: IdGenerator>(
    cmd: LogEmailSentCommand,
    clock: &C,
    ids: &G,
) -> (r: Result<(EmailLog, EmailLogged), DomainError>)
    ensures
        r is Ok,
        r matches Ok((made, event)) ==> (made.school_id == cmd.tenant.school_id),
        r matches Ok((made, event)) ==> (made.id == (EmailLogId { school_id: cmd.tenant.school_id, value: event.event_id.value })),
        r matches Ok((made, event)) ==> (made.title@ == cmd.title@),
        r matches Ok((made, event)) ==> (made.description == cmd.description),
        r matches Ok((made, event)) ==> (made.send_date == cmd.send_date),
        r matches Ok((made, event)) ==> (made.send_through == cmd.send_through),
        r matches Ok((made, event)) ==> (made.send_to@ == cmd.send_to@),
        r matches Ok((made, event)) ==> (made.message_id == cmd.message_id),
        r matches Ok((made, event)) ==> (made.version == (Version { value: 1 })),
        r matches Ok((made, event)) ==> (made.etag == (Etag { value: 0 })),
        r matches Ok((made, event)) ==> (made.created_at == event.occurred_at),
        r matches Ok((made, event)) ==> (made.updated_at == event.occurred_at),
        r matches Ok((made, event)) ==> (made.created_by == cmd.tenant.actor_id),
        r matches Ok((made, event)) ==> (made.updated_by == cmd.tenant.actor_id),
        r matches Ok((made, event)) ==> (made.active_status == ActiveStatus::Active),
        r matches Ok((made, event)) ==> (made.last_event_id == Some(event.event_id)),
        r matches Ok((made, event)) ==> (made.correlation_id == cmd.tenant.correlation_id),
        r matches Ok((made, event)) ==> (event.email_log_id == (EmailLogId { school_id: cmd.tenant.school_id, value: event.event_id.value })),
        r matches Ok((made, event)) ==> (event.title == cmd.title),
        r matches Ok((made, event)) ==> (event.send_through == cmd.send_through),
        r matches Ok((made, event)) ==> (event.send_to == cmd.send_to),
        r matches Ok((made, event)) ==> (event.send_date == cmd.send_date),
        r matches Ok((made, event)) ==> (event.source_message_id == cmd.message_id),
        r matches Ok((made, event)) ==> (event.correlation_id == cmd.tenant.correlation_id),
{
    let now = clock.now();
    let event_id = ids.next_event_id();
    log_email_sent_at(cmd, now, event_id)
}

// =============================================================================
// SmsLog service (append-only)
// =============================================================================

/// The change of [`log_sms_sent`] made at time `now` under event id
/// `event_id`.
pub fn log_sms_sent_at(
    cmd: LogSmsSentCommand,
    now: Timestamp,
    event_id: EventId,
) -> (r: Result<(SmsLog, SmsLogged), DomainError>)
    ensures
        r is Ok,
        r matches Ok((made, event)) ==> (made.school_id == cmd.tenant.school_id),
        r matches Ok((made, event)) ==> (made.id == (SmsLogId { school_id: cmd.tenant.school_id, value: event_id.value })),
        r matches Ok((made, event)) ==> (made.title@ == cmd.title@),
        r matches Ok((made, event)) ==> (made.description == cmd.description),
        r matches Ok((made, event)) ==> (made.send_date == cmd.send_date),
        r matches Ok((made, event)) ==> (made.send_through == cmd.send_through),
        r matches Ok((made, event)) ==> (made.send_to@ == cmd.send_to@),
        r matches Ok((made, event)) ==> (made.message_id == cmd.message_id),
        r matches Ok((made, event)) ==> (made.version == (Version { value: 1 })),
        r matches Ok((made, event)) ==> (made.etag == (Etag { value: 0 })),
        r matches Ok((made, event)) ==> (made.created_at == now),
        r matches Ok((made, event)) ==> (made.updated_at == now),
        r matches Ok((made, event)) ==> (made.created_by == cmd.tenant.actor_id),
        r matches Ok((made, event)) ==> (made.updated_by == cmd.tenant.actor_id),
        r matches Ok((made, event)) ==> (made.active_status == ActiveStatus::Active),
        r matches Ok((made, event)) ==> (made.last_event_id == Some(event_id)),
        r matches Ok((made, event)) ==> (made.correlation_id == cmd.tenant.correlation_id),
        r matches Ok((made, event)) ==> (event.sms_log_id == (SmsLogId { school_id: cmd.tenant.school_id, value: event_id.value })),
        r matches Ok((made, event)) ==> (event.title == cmd.title),
        r matches Ok((made, event)) ==> (event.send_through == cmd.send_through),
        r matches Ok((made, event)) ==> (event.send_to == cmd.send_to),
        r matches Ok((made, event)) ==> (event.send_date == cmd.send_date),
        r matches Ok((made, event)) ==> (event.source_message_id == cmd.message_id),
        r matches Ok((made, event)) ==> (event.event_id == event_id),
        r matches Ok((made, event)) ==> (event.correlation_id == cmd.tenant.correlation_id),
        r matches Ok((made, event)) ==> (event.occurred_at == now),
{
    let school = cmd.tenant.school_id;
    let id = SmsLogId::new(school, event_id.as_uuid());
    let mut log = SmsLog::fresh(
        id,
        cmd.title.clone(),
        cmd.description,
        cmd.send_date,
        cmd.send_through,
        cmd.send_to.clone(),
        cmd.message_id,
        cmd.tenant.actor_id,
        now,
        cmd.tenant.correlation_id,
    );
    log.last_event_id = Some(event_id);
    let event = SmsLogged::new(
        id,
        cmd.title,
        cmd.send_through,
        cmd.send_to,
        cmd.send_date,
        cmd.message_id,
        event_id,
        cmd.tenant.correlation_id,
        now,
    );
    Ok((log, event))
}

/// Appends an [`SmsLog`] aggregate + an [`SmsLogged`] event.
/// `SmsLog` is append-only (no update / delete).
pub fn log_sms_sent<C: Clock, G: IdGenerator>(
    cmd: LogSmsSentCommand,
    clock: &C,
    ids: &G,
) -> (r: Result<(SmsLog, SmsLogged), DomainError>)
    ensures
        r is Ok,
        r matches Ok((made, event)) ==> (made.school_id == cmd.tenant.school_id),
        r matches Ok((made, event)) ==> (made.id == (SmsLogId { school_id: cmd.tenant.school_id, value: event.event_id.value })),
        r matches Ok((made, event)) ==> (made.title@ == cmd.title@),
        r matches Ok((made, event)) ==> (made.description == cmd.description),
        r matches Ok((made, event)) ==> (made.send_date == cmd.send_date),
        r matches Ok((made, event)) ==> (made.send_through == cmd.send_through),
        r matches Ok((made, event)) ==> (made.send_to@ == cmd.send_to@),
        r matches Ok((made, event)) ==> (made.message_id == cmd.message_id),
        r matches Ok((made, event)) ==> (made.version == (Version { value: 1 })),
        r matches Ok((made, event)) ==> (made.etag == (Etag { value: 0 })),
        r matches Ok((made, event)) ==> (made.created_at == event.occurred_at),
        r matches Ok((made, event)) ==> (made.updated_at == event.occurred_at),
        r matches Ok((made, event)) ==> (made.created_by == cmd.tenant.actor_id),
        r matches Ok((made, event)) ==> (made.updated_by == cmd.tenant.actor_id),
        r matches Ok((made, event)) ==> (made.active_status == ActiveStatus::Active),
        r matches Ok((made, event)) ==> (made.last_event_id == Some(event.event_id)),
        r matches Ok((made, event)) ==> (made.correlation_id == cmd.tenant.correlation_id),
        r matches Ok((made, event)) ==> (event.sms_log_id == (SmsLogId { school_id: cmd.tenant.school_id, value: event.event_id.value })),
        r matches Ok((made, event)) ==> (event.title == cmd.title),
        r matches Ok((made, event)) ==> (event.send_through == cmd.send_through),
        r matches Ok((made, event)) ==> (event.send_to == cmd.send_to),
        r matches Ok((made, event)) ==> (event.send_date == cmd.send_date),
        r matches Ok((made, event)) ==> (event.source_message_id == cmd.message_id),
        r matches Ok((made, event)) ==> (event.correlation_id == cmd.tenant.correlation_id),
{
    let now = clock.now();
    let event_id = ids.next_event_id();
    log_sms_sent_at(cmd, now, event_id)
}

// =============================================================================
// SmsTemplate service
// =============================================================================

/// The change of [`create_sms_template`] made at time `now` under event id
/// `event_id`.
pub fn create_sms_template_at(
    cmd: CreateSmsTemplateCommand,
    now: Timestamp,
    event_id: EventId,
) -> (r: Result<(SmsTemplate, SmsTemplateCreated), DomainError>)
    ensures
        r is Ok <==> bounded_text(cmd.purpose@, 100),
        r matches Err(e) ==> (e is Validation),
        r matches Ok((made, event)) ==> (made.school_id == cmd.tenant.school_id),
        r matches Ok((made, event)) ==> (made.id == (SmsTemplateId { school_id: cmd.tenant.school_id, value: event_id.value })),
        r matches Ok((made, event)) ==> (made.channel == cmd.channel),
        r matches Ok((made, event)) ==> (made.purpose == cmd.purpose),
        r matches Ok((made, event)) ==> (made.subject == cmd.subject),
        r matches Ok((made, event)) ==> (made.body == cmd.body),
        r matches Ok((made, event)) ==> (made.module == cmd.module),
        r matches Ok((made, event)) ==> (made.variables == cmd.variables),
        r matches Ok((made, event)) ==> (made.status == SmsTemplateStatus::Disabled),
        r matches Ok((made, event)) ==> (made.version == (Version { value: 1 })),
        r matches Ok((made, event)) ==> (made.etag == (Etag { value: 0 })),
        r matches Ok((made, event)) ==> (made.created_at == now),
        r matches Ok((made, event)) ==> (made.updated_at == now),
        r matches Ok((made, event)) ==> (made.created_by == cmd.tenant.actor_id),
        r matches Ok((made, event)) ==> (made.updated_by == cmd.tenant.actor_id),
        r matches Ok((made, event)) ==> (made.active_status == ActiveStatus::Active),
        r matches Ok((made, event)) ==> (made.last_event_id == Some(event_id)),
        r matches Ok((made, event)) ==> (made.correlation_id == cmd.tenant.correlation_id),
        r matches Ok((made, event)) ==> (event.sms_template_id == (SmsTemplateId { school_id: cmd.tenant.school_id, value: event_id.value })),
        r matches Ok((made, event)) ==> (event.channel == cmd.channel),
        r matches Ok((made, event)) ==> (event.purpose@ == cmd.purpose@),
        r matches Ok((made, event)) ==> (event.event_id == event_id),
        r matches Ok((made, event)) ==> (event.correlation_id == cmd.tenant.correlation_id),
        r matches Ok((made, event)) ==> (event.occurred_at == now),
{
    let school = cmd.tenant.school_id;
    let id = SmsTemplateId::new(school, event_id.as_uuid());
    let purpose_key = TemplateKey::new(cmd.purpose.as_str())?;
    let mut t = SmsTemplate::fresh(
        id,
        cmd.channel,
        cmd.purpose,
        cmd.subject,
        cmd.body,
        cmd.module,
        cmd.variables,
        cmd.tenant.actor_id,
        now,
        cmd.tenant.correlation_id,
    );
    t.last_event_id = Some(event_id);
    let event = SmsTemplateCreated::new(
        id,
        cmd.channel,
        purpose_key,
        event_id,
        cmd.tenant.correlation_id,
        now,
    );
    Ok((t, event))
}

/// Builds a new [`SmsTemplate`] aggregate + an
/// [`SmsTemplateCreated`] event.
pub fn create_sms_template<C: Clock, G: IdGenerator>(
    cmd: CreateSmsTemplateCommand,
    clock: &C,
    ids: &G,
) -> (r: Result<(SmsTemplate, SmsTemplateCreated), DomainError>)
    ensures
        r is Ok <==> bounded_text(cmd.purpose@, 100),
        r matches Err(e) ==> (e is Validation),
        r matches Ok((made, event)) ==> (made.school_id == cmd.tenant.school_id),
        r matches Ok((made, event)) ==> (made.id == (SmsTemplateId { school_id: cmd.tenant.school_id, value: event.event_id.value })),
        r matches Ok((made, event)) ==> (made.channel == cmd.channel),
        r matches Ok((made, event)) ==> (made.purpose == cmd.purpose),
        r matches Ok((made, event)) ==> (made.subject == cmd.subject),
        r matches Ok((made, event)) ==> (made.body == cmd.body),
        r matches Ok((made, event)) ==> (made.module == cmd.module),
        r matches Ok((made, event)) ==> (made.variables == cmd.variables),
        r matches Ok((made, event)) ==> (made.status == SmsTemplateStatus::Disabled),
        r matches Ok((made, event)) ==> (made.version == (Version { value: 1 })),
        r matches Ok((made, event)) ==> (made.etag == (Etag { value: 0 })),
        r matches Ok((made, event)) ==> (made.created_at == event.occurred_at),
        r matches Ok((made, event)) ==> (made.updated_at == event.occurred_at),
        r matches Ok((made, event)) ==> (made.created_by == cmd.tenant.actor_id),
        r matches Ok((made, event)) ==> (made.updated_by == cmd.tenant.actor_id),
        r matches Ok((made, event)) ==> (made.active_status == ActiveStatus::Active),
        r matches Ok((made, event)) ==> (made.last_event_id == Some(event.event_id)),
        r matches Ok((made, event)) ==> (made.correlation_id == cmd.tenant.correlation_id),
        r matches Ok((made, event)) ==> (event.sms_template_id == (SmsTemplateId { school_id: cmd.tenant.school_id, value: event.event_id.value })),
        r matches Ok((made, event)) ==> (event.channel == cmd.channel),
        r matches Ok((made, event)) ==> (event.purpose@ == cmd.purpose@),
        r matches Ok((made, event)) ==> (event.correlation_id == cmd.tenant.correlation_id),
{
    let now = clock.now();
    let event_id = ids.next_event_id();
    create_sms_template_at(cmd, now, event_id)
}

/// The change of [`update_sms_template`] made at time `now` under event id
/// `event_id`.
pub fn update_sms_template_at(
    cmd: UpdateSmsTemplateCommand,
    now: Timestamp,
    event_id: EventId,
    t: &mut SmsTemplate,
) -> (r: Result<SmsTemplateUpdated, DomainError>)
    ensures
        r is Ok,
        r matches Ok(event) ==> (event.sms_template_id == old(t).id),
        r matches Ok(event) ==> (texts(event.changes@) == str_texts(field_if(cmd.subject is Some, "subject") + field_if(cmd.body is Some, "body") + field_if(cmd.variables is Some, "variables"))),
        r matches Ok(event) ==> (event.event_id == event_id),
        r matches Ok(event) ==> (event.correlation_id == cmd.tenant.correlation_id),
        r matches Ok(event) ==> (event.occurred_at == now),
        r matches Ok(event) ==> (*final(t) == (SmsTemplate { updated_at: now, updated_by: cmd.tenant.actor_id, version: old(t).version.bumped(), last_event_id: Some(event_id), subject: (match cmd.subject { Some(v) => v, None => old(t).subject }), body: (match cmd.body { Some(v) => v, None => old(t).body }), variables: (match cmd.variables { Some(v) => v, None => old(t).variables }), ..*old(t) })),
{
    let changes = t.update(
        cmd.subject,
        cmd.body,
        cmd.variables,
        cmd.tenant.actor_id,
        now,
        event_id,
    );
    Ok(SmsTemplateUpdated::new(
        t.id,
        owned_strings(&changes),
        event_id,
        cmd.tenant.correlation_id,
        now,
    ))
}

/// Mutates an [`SmsTemplate`] aggregate and emits an
/// [`SmsTemplateUpdated`] event.
pub fn update_sms_template<C: Clock, G: IdGenerator>(
    cmd: UpdateSmsTemplateCommand,
    clock: &C,
    ids: &G,
    t: &mut SmsTemplate,
) -> (r: Result<SmsTemplateUpdated, DomainError>)
    ensures
        r is Ok,
        r matches Ok(event) ==> (event.sms_template_id == old(t).id),
        r matches Ok(event) ==> (texts(event.changes@) == str_texts(field_if(cmd.subject is Some, "subject") + field_if(cmd.body is Some, "body") + field_if(cmd.variables is Some, "variables"))),
        r matches Ok(event) ==> (event.correlation_id == cmd.tenant.correlation_id),
        r matches Ok(event) ==> (*final(t) == (SmsTemplate { updated_at: event.occurred_at, updated_by: cmd.tenant.actor_id, version: old(t).version.bumped(), last_event_id: Some(event.event_id), subject: (match cmd.subject { Some(v) => v, None => old(t).subject }), body: (match cmd.body { Some(v) => v, None => old(t).body }), variables: (match cmd.variables { Some(v) => v, None => old(t).variables }), ..*old(t) })),
{
    let now = clock.now();
    let event_id = ids.next_event_id();
    update_sms_template_at(cmd, now, event_id, t)
}

/// The change of [`enable_sms_template`] made at time `now` under event id
/// `event_id`.
pub fn enable_sms_template_at(
    cmd: EnableSmsTemplateCommand,
    now: Timestamp,
    event_id: EventId,
    t: &mut SmsTemplate,
) -> (r: Result<SmsTemplateEnabled, DomainError>)
    ensures
        r is Ok,
        r matches Ok(event) ==> (event.sms_template_id == old(t).id),
        r matches Ok(event) ==> (event.event_id == event_id),
        r matches Ok(event) ==> (event.correlation_id == cmd.tenant.correlation_id),
        r matches Ok(event) ==> (event.occurred_at == now),
        r matches Ok(event) ==> (*final(t) == (SmsTemplate { status: SmsTemplateStatus::Enabled, updated_at: now, updated_by: cmd.tenant.actor_id, version: old(t).version.bumped(), last_event_id: Some(event_id), ..*old(t) })),
{
    t.enable(cmd.tenant.actor_id, now, event_id);
    Ok(SmsTemplateEnabled::new(
        t.id,
        event_id,
        cmd.tenant.correlation_id,
        now,
    ))
}

/// Enables an [`SmsTemplate`] and emits an
/// [`SmsTemplateEnabled`] event.
pub fn enable_sms_template<C: Clock, G: IdGenerator>(
    cmd: EnableSmsTemplateCommand,
    clock: &C,
    ids: &G,
    t: &mut SmsTemplate,
) -> (r: Result<SmsTemplateEnabled, DomainError>)
    ensures
        r is Ok,
        r matches Ok(event) ==> (event.sms_template_id == old(t).id),
        r matches Ok(event) ==> (event.correlation_id == cmd.tenant.correlation_id),
        r matches Ok(event) ==> (*final(t) == (SmsTemplate { status: SmsTemplateStatus::Enabled, updated_at: event.occurred_at, updated_by: cmd.tenant.actor_id, version: old(t).version.bumped(), last_event_id: Some(event.event_id), ..*old(t) })),
{
    let now = clock.now();
    let event_id = ids.next_event_id();
    enable_sms_template_at(cmd, now, event_id, t)
}

/// The change of [`disable_sms_template`] made at time `now` under event id
/// `event_id`.
pub fn disable_sms_template_at(
    cmd: DisableSmsTemplateCommand,
    now: Timestamp,
    event_id: EventId,
    t: &mut SmsTemplate,
) -> (r: Result<SmsTemplateDisabled, DomainError>)
    ensures
        r is Ok,
        r matches Ok(event) ==> (event.sms_template_id == old(t).id),
        r matches Ok(event) ==> (event.event_id == event_id),
        r matches Ok(event) ==> (event.correlation_id == cmd.tenant.correlation_id),
        r matches Ok(event) ==> (event.occurred_at == now),
        r matches Ok(event) ==> (*final(t) == (SmsTemplate { status: SmsTemplateStatus::Disabled, updated_at: now, updated_by: cmd.tenant.actor_id, version: old(t).version.bumped(), last_event_id: Some(event_id), ..*old(t) })),
{
    t.disable(cmd.tenant.actor_id, now, event_id);
    Ok(SmsTemplateDisabled::new(
        t.id,
        event_id,
        cmd.tenant.correlation_id,
        now,
    ))
}

/// Disables an [`SmsTemplate`] and emits an
/// [`SmsTemplateDisabled`] event.
pub fn disable_sms_template<C: Clock, G: IdGenerator>(
    cmd: DisableSmsTemplateCommand,
    clock: &C,
    ids: &G,
    t: &mut SmsTemplate,
) -> (r: Result<SmsTemplateDisabled, DomainError>)
    ensures
        r is Ok,
        r matches Ok(event) ==> (event.sms_template_id == old(t).id),
        r matches Ok(event) ==> (event.correlation_id == cmd.tenant.correlation_id),
        r matches Ok(event) ==> (*final(t) == (SmsTemplate { status: SmsTemplateStatus::Disabled, updated_at: event.occurred_at, updated_by: cmd.tenant.actor_id, version: old(t).version.bumped(), last_event_id: Some(event.event_id), ..*old(t) })),
{
    let now = clock.now();
    let event_id = ids.next_event_id();
    disable_sms_template_at(cmd, now, event_id, t)
}

/// The change of [`delete_sms_template`] made at time `now` under event id
/// `event_id`.
pub fn delete_sms_template_at(
    cmd: DeleteSmsTemplateCommand,
    now: Timestamp,
    event_id: EventId,
    t: &mut SmsTemplate,
) -> (r: Result<SmsTemplateDeleted, DomainError>)
    ensures
        r is Ok,
        r matches Ok(event) ==> (event.sms_template_id == old(t).id),
        r matches Ok(event) ==> (event.event_id == event_id),
        r matches Ok(event) ==> (event.correlation_id == cmd.tenant.correlation_id),
        r matches Ok(event) ==> (event.occurred_at == now),
        r matches Ok(event) ==> (*final(t) == (SmsTemplate { active_status: ActiveStatus::Retired, updated_at: now, updated_by: cmd.tenant.actor_id, version: old(t).version.bumped(), last_event_id: Some(event_id), ..*old(t) })),
{
    t.mark_deleted(cmd.tenant.actor_id, now, event_id);
    Ok(SmsTemplateDeleted::new(
        t.id,
        event_id,
        cmd.tenant.correlation_id,
        now,
    ))
}

/// Soft-deletes an [`SmsTemplate`] and emits an
/// [`SmsTemplateDeleted`] event.
pub fn delete_sms_template<C: Clock, G: IdGenerator>(
    cmd: DeleteSmsTemplateCommand,
    clock: &C,
    ids: &G,
    t: &mut SmsTemplate,
) -> (r: Result<SmsTemplateDeleted, DomainError>)
    ensures
        r is Ok,
        r matches Ok(event) ==> (event.sms_template_id == old(t).id),
        r matches Ok(event) ==> (event.correlation_id == cmd.tenant.correlation_id),
        r matches Ok(event) ==> (*final(t) == (SmsTemplate { active_status: ActiveStatus::Retired, updated_at: event.occurred_at, updated_by: cmd.tenant.actor_id, version: old(t).version.bumped(), last_event_id: Some(event.event_id), ..*old(t) })),
{
    let now = clock.now();
    let event_id = ids.next_event_id();
    delete_sms_template_at(cmd, now, event_id, t)
}

// =============================================================================
// EmailSetting service
// =============================================================================

/// The change of [`configure_email_setting`] made at time `now` under event id
/// `event_id`.
pub fn configure_email_setting_at(
    cmd: ConfigureEmailSettingCommand,
    now: Timestamp,
    event_id: EventId,
) -> (r: Result<(EmailSetting, EmailSettingConfigured), DomainError>)
    ensures
        r is Ok,
        r matches Ok((made, event)) ==> (made.school_id == cmd.tenant.school_id),
        r matches Ok((made, event)) ==> (made.id == (EmailSettingId { school_id: cmd.tenant.school_id, value: event_id.value })),
        r matches Ok((made, event)) ==> (made.email_engine_type == cmd.email_engine_type),
        r matches Ok((made, event)) ==> (made.from_name == cmd.from_name),
        r matches Ok((made, event)) ==> (made.from_email == cmd.from_email),
        r matches Ok((made, event)) ==> (made.mail_driver == cmd.mail_driver),
        r matches Ok((made, event)) ==> (made.mail_host@ == cmd.mail_host@),
        r matches Ok((made, event)) ==> (made.mail_port == cmd.mail_port),
        r matches Ok((made, event)) ==> (made.mail_username == cmd.mail_username),
        r matches Ok((made, event)) ==> (made.mail_password == cmd.mail_password),
        r matches Ok((made, event)) ==> (made.mail_encryption == cmd.mail_encryption),
        r matches Ok((made, event)) ==> (made.active == false),
        r matches Ok((made, event)) ==> (made.version == (Version { value: 1 })),
        r matches Ok((made, event)) ==> (made.etag == (Etag { value: 0 })),
        r matches Ok((made, event)) ==> (made.created_at == now),
        r matches Ok((made, event)) ==> (made.updated_at == now),
        r matches Ok((made, event)) ==> (made.created_by == cmd.tenant.actor_id),
        r matches Ok((made, event)) ==> (made.updated_by == cmd.tenant.actor_id),
        r matches Ok((made, event)) ==> (made.active_status == ActiveStatus::Active),
        r matches Ok((made, event)) ==> (made.last_event_id == Some(event_id)),
        r matches Ok((made, event)) ==> (made.correlation_id == cmd.tenant.correlation_id),
        r matches Ok((made, event)) ==> (event.email_setting_id == (EmailSettingId { school_id: cmd.tenant.school_id, value: event_id.value })),
        r matches Ok((made, event)) ==> (event.mail_driver == cmd.mail_driver),
        r matches Ok((made, event)) ==> (event.mail_host == cmd.mail_host),
        r matches Ok((made, event)) ==> (event.event_id == event_id),
        r matches Ok((made, event)) ==> (event.correlation_id == cmd.tenant.correlation_id),
        r matches Ok((made, event)) ==> (event.occurred_at == now),
{
    let school = cmd.tenant.school_id;
    let id = EmailSettingId::new(school, event_id.as_uuid());
    let mut es = EmailSetting::fresh(
        id,
        cmd.email_engine_type,
        cmd.from_name,
        cmd.from_email,
        cmd.mail_driver,
        cmd.mail_host.clone(),
        cmd.mail_port,
        cmd.mail_username,
        cmd.mail_password,
        cmd.mail_encryption,
        cmd.tenant.actor_id,
        now,
        cmd.tenant.correlation_id,
    );
    es.last_event_id = Some(event_id);
    let event = EmailSettingConfigured::new(
        id,
        cmd.mail_driver,
        cmd.mail_host,
        event_id,
        cmd.tenant.correlation_id,
        now,
    );
    Ok((es, event))
}

/// Builds a new [`EmailSetting`] aggregate + an
/// [`EmailSettingConfigured`] event.
pub fn configure_email_setting<C: Clock, G: IdGenerator>(
    cmd: ConfigureEmailSettingCommand,
    clock: &C,
    ids: &G,
) -> (r: Result<(EmailSetting, EmailSettingConfigured), DomainError>)
    ensures
        r is Ok,
        r matches Ok((made, event)) ==> (made.school_id == cmd.tenant.school_id),
        r matches Ok((made, event)) ==> (made.id == (EmailSettingId { school_id: cmd.tenant.school_id, value: event.event_id.value })),
        r matches Ok((made, event)) ==> (made.email_engine_type == cmd.email_engine_type),
        r matches Ok((made, event)) ==> (made.from_name == cmd.from_name),
        r matches Ok((made, event)) ==> (made.from_email == cmd.from_email),
        r matches Ok((made, event)) ==> (made.mail_driver == cmd.mail_driver),
        r matches Ok((made, event)) ==> (made.mail_host@ == cmd.mail_host@),
        r matches Ok((made, event)) ==> (made.mail_port == cmd.mail_port),
        r matches Ok((made, event)) ==> (made.mail_username == cmd.mail_username),
        r matches Ok((made, event)) ==> (made.mail_password == cmd.mail_password),
        r matches Ok((made, event)) ==> (made.mail_encryption == cmd.mail_encryption),
        r matches Ok((made, event)) ==> (made.active == false),
        r matches Ok((made, event)) ==> (made.version == (Version { value: 1 })),
        r matches Ok((made, event)) ==> (made.etag == (Etag { value: 0 })),
        r matches Ok((made, event)) ==> (made.created_at == event.occurred_at),
        r matches Ok((made, event)) ==> (made.updated_at == event.occurred_at),
        r matches Ok((made, event)) ==> (made.created_by == cmd.tenant.actor_id),
        r matches Ok((made, event)) ==> (made.updated_by == cmd.tenant.actor_id),
        r matches Ok((made, event)) ==> (made.active_status == ActiveStatus::Active),
        r matches Ok((made, event)) ==> (made.last_event_id == Some(event.event_id)),
        r matches Ok((made, event)) ==> (made.correlation_id == cmd.tenant.correlation_id),
        r matches Ok((made, event)) ==> (event.email_setting_id == (EmailSettingId { school_id: cmd.tenant.school_id, value: event.event_id.value })),
        r matches Ok((made, event)) ==> (event.mail_driver == cmd.mail_driver),
        r matches Ok((made, event)) ==> (event.mail_host == cmd.mail_host),
        r matches Ok((made, event)) ==> (event.correlation_id == cmd.tenant.correlation_id),
{
    let now = clock.now();
    let event_id = ids.next_event_id();
    configure_email_setting_at(cmd, now, event_id)
}

/// The change of [`activate_email_setting`] made at time `now` under event id
/// `event_id`.
pub fn activate_email_setting_at(
    cmd: ActivateEmailSettingCommand,
    now: Timestamp,
    event_id: EventId,
    es: &mut EmailSetting,
) -> (r: Result<EmailSettingActivated, DomainError>)
    ensures
        r is Ok,
        r matches Ok(event) ==> (event.email_setting_id == old(es).id),
        r matches Ok(event) ==> (event.previous_id.is_none()),
        r matches Ok(event) ==> (event.event_id == event_id),
        r matches Ok(event) ==> (event.correlation_id == cmd.tenant.correlation_id),
        r matches Ok(event) ==> (event.occurred_at == now),
        r matches Ok(event) ==> (*final(es) == (EmailSetting { active: true, updated_at: now, updated_by: cmd.tenant.actor_id, version: old(es).version.bumped(), last_event_id: Some(event_id), ..*old(es) })),
{
    let previous_id = es.activate(cmd.tenant.actor_id, now, event_id);
    Ok(EmailSettingActivated::new(
        es.id,
        previous_id,
        event_id,
        cmd.tenant.correlation_id,
        now,
    ))
}

/// Activates an [`EmailSetting`] and emits an
/// [`EmailSettingActivated`] event.
pub fn activate_email_setting<C: Clock, G: IdGenerator>(
    cmd: ActivateEmailSettingCommand,
    clock: &C,
    ids: &G,
    es: &mut EmailSetting,
) -> (r: Result<EmailSettingActivated, DomainError>)
    ensures
        r is Ok,
        r matches Ok(event) ==> (event.email_setting_id == old(es).id),
        r matches Ok(event) ==> (event.previous_id.is_none()),
        r matches Ok(event) ==> (event.correlation_id == cmd.tenant.correlation_id),
        r matches Ok(event) ==> (*final(es) == (EmailSetting { active: true, updated_at: event.occurred_at, updated_by: cmd.tenant.actor_id, version: old(es).version.bumped(), last_event_id: Some(event.event_id), ..*old(es) })),
{
    let now = clock.now();
    let event_id = ids.next_event_id();
    activate_email_setting_at(cmd, now, event_id, es)
}

/// The change of [`delete_email_setting`] made at time `now` under event id
/// `event_id`.
pub fn delete_email_setting_at(
    cmd: DeleteEmailSettingCommand,
    now: Timestamp,
    event_id: EventId,
    es: &mut EmailSetting,
) -> (r: Result<EmailSettingDeleted, DomainError>)
    ensures
        r is Ok,
        r matches Ok(event) ==> (event.email_setting_id == old(es).id),
        r matches Ok(event) ==> (event.event_id == event_id),
        r matches Ok(event) ==> (event.correlation_id == cmd.tenant.correlation_id),
        r matches Ok(event) ==> (event.occurred_at == now),
        r matches Ok(event) ==> (*final(es) == (EmailSetting { active: false, active_status: ActiveStatus::Retired, updated_at: now, updated_by: cmd.tenant.actor_id, version: old(es).version.bumped(), last_event_id: Some(event_id), ..*old(es) })),
{
    es.mark_deleted(cmd.tenant.actor_id, now, event_id);
    Ok(EmailSettingDeleted::new(
        es.id,
        event_id,
        cmd.tenant.correlation_id,
        now,
    ))
}

/// Soft-deletes an [`EmailSetting`] and emits an
/// [`EmailSettingDeleted`] event.
pub fn delete_email_setting<C: Clock, G: IdGenerator>(
    cmd: DeleteEmailSettingCommand,
    clock: &C,
    ids: &G,
    es: &mut EmailSetting,
) -> (r: Result<EmailSettingDeleted, DomainError>)
    ensures
        r is Ok,
        r matches Ok(event) ==> (event.email_setting_id == old(es).id),
        r matches Ok(event) ==> (event.correlation_id == cmd.tenant.correlation_id),
        r matches Ok(event) ==> (*final(es) == (EmailSetting { active: false, active_status: ActiveStatus::Retired, updated_at: event.occurred_at, updated_by: cmd.tenant.actor_id, version: old(es).version.bumped(), last_event_id: Some(event.event_id), ..*old(es) })),
{
    let now = clock.now();
    let event_id = ids.next_event_id();
    delete_email_setting_at(cmd, now, event_id, es)
}

// =============================================================================
// SmsGateway service
// =============================================================================

/// The change of [`configure_sms_gateway`] made at time `now` under event id
/// `event_id`.
pub fn configure_sms_gateway_at(
    cmd: ConfigureSmsGatewayCommand,
    now: Timestamp,
    event_id: EventId,
) -> (r: Result<(SmsGateway, SmsGatewayConfigured), DomainError>)
    ensures
        r is Ok,
        r matches Ok((made, event)) ==> (made.school_id == cmd.tenant.school_id),
        r matches Ok((made, event)) ==> (made.id == (SmsGatewayId { school_id: cmd.tenant.school_id, value: event_id.value })),
        r matches Ok((made, event)) ==> (made.gateway_type == cmd.gateway_type),
        r matches Ok((made, event)) ==> (made.credentials == cmd.credentials),
        r matches Ok((made, event)) ==> (made.active == false),
        r matches Ok((made, event)) ==> (made.version == (Version { value: 1 })),
        r matches Ok((made, event)) ==> (made.etag == (Etag { value: 0 })),
        r matches Ok((made, event)) ==> (made.created_at == now),
        r matches Ok((made, event)) ==> (made.updated_at == now),
        r matches Ok((made, event)) ==> (made.created_by == cmd.tenant.actor_id),
        r matches Ok((made, event)) ==> (made.updated_by == cmd.tenant.actor_id),
        r matches Ok((made, event)) ==> (made.active_status == ActiveStatus::Active),
        r matches Ok((made, event)) ==> (made.last_event_id == Some(event_id)),
        r matches Ok((made, event)) ==> (made.correlation_id == cmd.tenant.correlation_id),
        r matches Ok((made, event)) ==> (event.sms_gateway_id == (SmsGatewayId { school_id: cmd.tenant.school_id, value: event_id.value })),
        r matches Ok((made, event)) ==> (event.gateway_type == cmd.gateway_type),
        r matches Ok((made, event)) ==> (event.event_id == event_id),
        r matches Ok((made, event)) ==> (event.correlation_id == cmd.tenant.correlation_id),
        r matches Ok((made, event)) ==> (event.occurred_at == now),
{
    let school = cmd.tenant.school_id;
    let id = SmsGatewayId::new(school, event_id.as_uuid());
    let mut g = SmsGateway::fresh(
        id,
        cmd.gateway_type,
        cmd.credentials,
        cmd.tenant.actor_id,
        now,
        cmd.tenant.correlation_id,
    );
    g.last_event_id = Some(event_id);
    let event = SmsGatewayConfigured::new(
        id,
        cmd.gateway_type,
        event_id,
        cmd.tenant.correlation_id,
        now,
    );
    Ok((g, event))
}

/// Builds a new [`SmsGateway`] aggregate + an
/// [`SmsGatewayConfigured`] event.
pub fn configure_sms_gateway<C: Clock, G: IdGenerator>(
    cmd: ConfigureSmsGatewayCommand,
    clock: &C,
    ids: &G,
) -> (r: Result<(SmsGateway, SmsGatewayConfigured), DomainError>)
    ensures
        r is Ok,
        r matches Ok((made, event)) ==> (made.school_id == cmd.tenant.school_id),
        r matches Ok((made, event)) ==> (made.id == (SmsGatewayId { school_id: cmd.tenant.school_id, value: event.event_id.value })),
        r matches Ok((made, event)) ==> (made.gateway_type == cmd.gateway_type),
        r matches Ok((made, event)) ==> (made.credentials == cmd.credentials),
        r matches Ok((made, event)) ==> (made.active == false),
        r matches Ok((made, event)) ==> (made.version == (Version { value: 1 })),
        r matches Ok((made, event)) ==> (made.etag == (Etag { value: 0 })),
        r matches Ok((made, event)) ==> (made.created_at == event.occurred_at),
        r matches Ok((made, event)) ==> (made.updated_at == event.occurred_at),
        r matches Ok((made, event)) ==> (made.created_by == cmd.tenant.actor_id),
        r matches Ok((made, event)) ==> (made.updated_by == cmd.tenant.actor_id),
        r matches Ok((made, event)) ==> (made.active_status == ActiveStatus::Active),
        r matches Ok((made, event)) ==> (made.last_event_id == Some(event.event_id)),
        r matches Ok((made, event)) ==> (made.correlation_id == cmd.tenant.correlation_id),
        r matches Ok((made, event)) ==> (event.sms_gateway_id == (SmsGatewayId { school_id: cmd.tenant.school_id, value: event.event_id.value })),
        r matches Ok((made, event)) ==> (event.gateway_type == cmd.gateway_type),
        r matches Ok((made, event)) ==> (event.correlation_id == cmd.tenant.correlation_id),
{
    let now = clock.now();
    let event_id = ids.next_event_id();
    configure_sms_gateway_at(cmd, now, event_id)
}

/// The change of [`activate_sms_gateway`] made at time `now` under event id
/// `event_id`.
pub fn activate_sms_gateway_at(
    cmd: ActivateSmsGatewayCommand,
    now: Timestamp,
    event_id: EventId,
    g: &mut SmsGateway,
) -> (r: Result<SmsGatewayActivated, DomainError>)
    ensures
        r is Ok,
        r matches Ok(event) ==> (event.sms_gateway_id == old(g).id),
        r matches Ok(event) ==> (event.gateway_type == old(g).gateway_type),
        r matches Ok(event) ==> (event.previous_id.is_none()),
        r matches Ok(event) ==> (event.event_id == event_id),
        r matches Ok(event) ==> (event.correlation_id == cmd.tenant.correlation_id),
        r matches Ok(event) ==> (event.occurred_at == now),
        r matches Ok(event) ==> (*final(g) == (SmsGateway { active: true, updated_at: now, updated_by: cmd.tenant.actor_id, version: old(g).version.bumped(), last_event_id: Some(event_id), ..*old(g) })),
{
    let previous_id = g.activate(cmd.tenant.actor_id, now, event_id);
    Ok(SmsGatewayActivated::new(
        g.id,
        g.gateway_type,
        previous_id,
        event_id,
        cmd.tenant.correlation_id,
        now,
    ))
}

/// Activates an [`SmsGateway`] and emits an
/// [`SmsGatewayActivated`] event.
pub fn activate_sms_gateway<C: Clock, G: IdGenerator>(
    cmd: ActivateSmsGatewayCommand,
    clock: &C,
    ids: &G,
    g: &mut SmsGateway,
) -> (r: Result<SmsGatewayActivated, DomainError>)
    ensures
        r is Ok,
        r matches Ok(event) ==> (event.sms_gateway_id == old(g).id),
        r matches Ok(event) ==> (event.gateway_type == old(g).gateway_type),
        r matches Ok(event) ==> (event.previous_id.is_none()),
        r matches Ok(event) ==> (event.correlation_id == cmd.tenant.correlation_id),
        r matches Ok(event) ==> (*final(g) == (SmsGateway { active: true, updated_at: event.occurred_at, updated_by: cmd.tenant.actor_id, version: old(g).version.bumped(), last_event_id: Some(event.event_id), ..*old(g) })),
{
    let now = clock.now();
    let event_id = ids.next_event_id();
    activate_sms_gateway_at(cmd, now, event_id, g)
}

/// The change of [`delete_sms_gateway`] made at time `now` under event id
/// `event_id`.
pub fn delete_sms_gateway_at(
    cmd: DeleteSmsGatewayCommand,
    now: Timestamp,
    event_id: EventId,
    g: &mut SmsGateway,
) -> (r: Result<SmsGatewayDeleted, DomainError>)
    ensures
        r is Ok,
        r matches Ok(event) ==> (event.sms_gateway_id == old(g).id),
        r matches Ok(event) ==> (event.event_id == event_id),
        r matches Ok(event) ==> (event.correlation_id == cmd.tenant.correlation_id),
        r matches Ok(event) ==> (event.occurred_at == now),
        r matches Ok(event) ==> (*final(g) == (SmsGateway { active: false, active_status: ActiveStatus::Retired, updated_at: now, updated_by: cmd.tenant.actor_id, version: old(g).version.bumped(), last_event_id: Some(event_id), ..*old(g) })),
{
    g.mark_deleted(cmd.tenant.actor_id, now, event_id);
    Ok(SmsGatewayDeleted::new(
        g.id,
        event_id,
        cmd.tenant.correlation_id,
        now,
    ))
}

/// Soft-deletes an [`SmsGateway`] and emits an
/// [`SmsGatewayDeleted`] event.
pub fn delete_sms_gateway<C: Clock, G: IdGenerator>(
    cmd: DeleteSmsGatewayCommand,
    clock: &C,
    ids: &G,
    g: &mut SmsGateway,
) -> (r: Result<SmsGatewayDeleted, DomainError>)
    ensures
        r is Ok,
        r matches Ok(event) ==> (event.sms_gateway_id == old(g).id),
        r matches Ok(event) ==> (event.correlation_id == cmd.tenant.correlation_id),
        r matches Ok(event) ==> (*final(g) == (SmsGateway { active: false, active_status: ActiveStatus::Retired, updated_at: event.occurred_at, updated_by: cmd.tenant.actor_id, version: old(g).version.bumped(), last_event_id: Some(event.event_id), ..*old(g) })),
{
    let now = clock.now();
    let event_id = ids.next_event_id();
    delete_sms_gateway_at(cmd, now, event_id, g)
}

// =============================================================================
// CustomSmsSetting service
// =============================================================================

/// The change of [`create_custom_sms_setting`] made at time `now` under event id
/// `event_id`.
pub fn create_custom_sms_setting_at(
    cmd: CreateCustomSmsSettingCommand,
    now: Timestamp,
    event_id: EventId,
) -> (r: Result<(CustomSmsSetting, CustomSmsSettingCreated), DomainError>)
    ensures
        r is Ok,
        r matches Ok((made, event)) ==> (made.school_id == cmd.tenant.school_id),
        r matches Ok((made, event)) ==> (made.id == (CustomSmsSettingId { school_id: cmd.tenant.school_id, value: event_id.value })),
        r matches Ok((made, event)) ==> (made.gateway_id == cmd.gateway_id),
        r matches Ok((made, event)) ==> (made.gateway_name == cmd.gateway_name),
        r matches Ok((made, event)) ==> (made.set_auth == cmd.set_auth),
        r matches Ok((made, event)) ==> (made.gateway_url@ == cmd.gateway_url@),
        r matches Ok((made, event)) ==> (made.request_method == cmd.request_method),
        r matches Ok((made, event)) ==> (made.send_to_parameter_name == cmd.send_to_parameter_name),
        r matches Ok((made, event)) ==> (made.message_to_parameter_name == cmd.message_to_parameter_name),
        r matches Ok((made, event)) ==> (made.params == cmd.params),
        r matches Ok((made, event)) ==> (made.version == (Version { value: 1 })),
        r matches Ok((made, event)) ==> (made.etag == (Etag { value: 0 })),
        r matches Ok((made, event)) ==> (made.created_at == now),
        r matches Ok((made, event)) ==> (made.updated_at == now),
        r matches Ok((made, event)) ==> (made.created_by == cmd.tenant.actor_id),
        r matches Ok((made, event)) ==> (made.updated_by == cmd.tenant.actor_id),
        r matches Ok((made, event)) ==> (made.active_status == ActiveStatus::Active),
        r matches Ok((made, event)) ==> (made.last_event_id == Some(event_id)),
        r matches Ok((made, event)) ==> (made.correlation_id == cmd.tenant.correlation_id),
        r matches Ok((made, event)) ==> (event.custom_sms_setting_id == (CustomSmsSettingId { school_id: cmd.tenant.school_id, value: event_id.value })),
        r matches Ok((made, event)) ==> (event.gateway_id == cmd.gateway_id),
        r matches Ok((made, event)) ==> (event.gateway_url == cmd.gateway_url),
        r matches Ok((made, event)) ==> (event.request_method == cmd.request_method),
        r matches Ok((made, event)) ==> (event.event_id == event_id),
        r matches Ok((made, event)) ==> (event.correlation_id == cmd.tenant.correlation_id),
        r matches Ok((made, event)) ==> (event.occurred_at == now),
{
    let school = cmd.tenant.school_id;
    let id = CustomSmsSettingId::new(school, event_id.as_uuid());
    let mut s = CustomSmsSetting::fresh(
        id,
        cmd.gateway_id,
        cmd.gateway_name,
        cmd.set_auth,
        cmd.gateway_url.clone(),
        cmd.request_method,
        cmd.send_to_parameter_name,
        cmd.message_to_parameter_name,
        cmd.params,
        cmd.tenant.actor_id,
        now,
        cmd.tenant.correlation_id,
    );
    s.last_event_id = Some(event_id);
    let event = CustomSmsSettingCreated::new(
        id,
        cmd.gateway_id,
        cmd.gateway_url,
        cmd.request_method,
        event_id,
        cmd.tenant.correlation_id,
        now,
    );
    Ok((s, event))
}

/// Builds a new [`CustomSmsSetting`] aggregate + a
/// [`CustomSmsSettingCreated`] event.
pub fn create_custom_sms_setting<C: Clock, G: IdGenerator>(
    cmd: CreateCustomSmsSettingCommand,
    clock: &C,
    ids: &G,
) -> (r: Result<(CustomSmsSetting, CustomSmsSettingCreated), DomainError>)
    ensures
        r is Ok,
        r matches Ok((made, event)) ==> (made.school_id == cmd.tenant.school_id),
        r matches Ok((made, event)) ==> (made.id == (CustomSmsSettingId { school_id: cmd.tenant.school_id, value: event.event_id.value })),
        r matches Ok((made, event)) ==> (made.gateway_id == cmd.gateway_id),
        r matches Ok((made, event)) ==> (made.gateway_name == cmd.gateway_name),
        r matches Ok((made, event)) ==> (made.set_auth == cmd.set_auth),
        r matches Ok((made, event)) ==> (made.gateway_url@ == cmd.gateway_url@),
        r matches Ok((made, event)) ==> (made.request_method == cmd.request_method),
        r matches Ok((made, event)) ==> (made.send_to_parameter_name == cmd.send_to_parameter_name),
        r matches Ok((made, event)) ==> (made.message_to_parameter_name == cmd.message_to_parameter_name),
        r matches Ok((made, event)) ==> (made.params == cmd.params),
        r matches Ok((made, event)) ==> (made.version == (Version { value: 1 })),
        r matches Ok((made, event)) ==> (made.etag == (Etag { value: 0 })),
        r matches Ok((made, event)) ==> (made.created_at == event.occurred_at),
        r matches Ok((made, event)) ==> (made.updated_at == event.occurred_at),
        r matches Ok((made, event)) ==> (made.created_by == cmd.tenant.actor_id),
        r matches Ok((made, event)) ==> (made.updated_by == cmd.tenant.actor_id),
        r matches Ok((made, event)) ==> (made.active_status == ActiveStatus::Active),
        r matches Ok((made, event)) ==> (made.last_event_id == Some(event.event_id)),
        r matches Ok((made, event)) ==> (made.correlation_id == cmd.tenant.correlation_id),
        r matches Ok((made, event)) ==> (event.custom_sms_setting_id == (CustomSmsSettingId { school_id: cmd.tenant.school_id, value: event.event_id.value })),
        r matches Ok((made, event)) ==> (event.gateway_id == cmd.gateway_id),
        r matches Ok((made, event)) ==> (event.gateway_url == cmd.gateway_url),
        r matches Ok((made, event)) ==> (event.request_method == cmd.request_method),
        r matches Ok((made, event)) ==> (event.correlation_id == cmd.tenant.correlation_id),
{
    let now = clock.now();
    let event_id = ids.next_event_id();
    create_custom_sms_setting_at(cmd, now, event_id)
}

/// The change of [`update_custom_sms_setting`] made at time `now` under event id
/// `event_id`.
pub fn update_custom_sms_setting_at(
    cmd: UpdateCustomSmsSettingCommand,
    now: Timestamp,
    event_id: EventId,
    s: &mut CustomSmsSetting,
) -> (r: Result<CustomSmsSettingUpdated, DomainError>)
    ensures
        r is Ok,
        r matches Ok(event) ==> (event.custom_sms_setting_id == old(s).id),
        r matches Ok(event) ==> (texts(event.changes@) == str_texts(field_if(cmd.gateway_name is Some, "gateway_name") + field_if(cmd.set_auth is Some, "set_auth") + field_if(cmd.gateway_url is Some, "gateway_url") + field_if(cmd.request_method is Some, "request_method") + field_if(cmd.params is Some, "params"))),
        r matches Ok(event) ==> (event.event_id == event_id),
        r matches Ok(event) ==> (event.correlation_id == cmd.tenant.correlation_id),
        r matches Ok(event) ==> (event.occurred_at == now),
        r matches Ok(event) ==> (*final(s) == (CustomSmsSetting { updated_at: now, updated_by: cmd.tenant.actor_id, version: old(s).version.bumped(), last_event_id: Some(event_id), gateway_name: (match cmd.gateway_name { Some(v) => v, None => old(s).gateway_name }), set_auth: (match cmd.set_auth { Some(v) => Some(v), None => old(s).set_auth }), gateway_url: (match cmd.gateway_url { Some(v) => v, None => old(s).gateway_url }), request_method: (match cmd.request_method { Some(v) => v, None => old(s).request_method }), params: (match cmd.params { Some(v) => v, None => old(s).params }), ..*old(s) })),
{
    let changes = s.update(
        cmd.gateway_name,
        cmd.set_auth,
        cmd.gateway_url,
        cmd.request_method,
        cmd.params,
        cmd.tenant.actor_id,
        now,
        event_id,
    );
    Ok(CustomSmsSettingUpdated::new(
        s.id,
        owned_strings(&changes),
        event_id,
        cmd.tenant.correlation_id,
        now,
    ))
}

/// Mutates a [`CustomSmsSetting`] aggregate and emits a
/// [`CustomSmsSettingUpdated`] event.
pub fn update_custom_sms_setting<C: Clock, G: IdGenerator>(
    cmd: UpdateCustomSmsSettingCommand,
    clock: &C,
    ids: &G,
    s: &mut CustomSmsSetting,
) -> (r: Result<CustomSmsSettingUpdated, DomainError>)
    ensures
        r is Ok,
        r matches Ok(event) ==> (event.custom_sms_setting_id == old(s).id),
        r matches Ok(event) ==> (texts(event.changes@) == str_texts(field_if(cmd.gateway_name is Some, "gateway_name") + field_if(cmd.set_auth is Some, "set_auth") + field_if(cmd.gateway_url is Some, "gateway_url") + field_if(cmd.request_method is Some, "request_method") + field_if(cmd.params is Some, "params"))),
        r matches Ok(event) ==> (event.correlation_id == cmd.tenant.correlation_id),
        r matches Ok(event) ==> (*final(s) == (CustomSmsSetting { updated_at: event.occurred_at, updated_by: cmd.tenant.actor_id, version: old(s).version.bumped(), last_event_id: Some(event.event_id), gateway_name: (match cmd.gateway_name { Some(v) => v, None => old(s).gateway_name }), set_auth: (match cmd.set_auth { Some(v) => Some(v), None => old(s).set_auth }), gateway_url: (match cmd.gateway_url { Some(v) => v, None => old(s).gateway_url }), request_method: (match cmd.request_method { Some(v) => v, None => old(s).request_method }), params: (match cmd.params { Some(v) => v, None => old(s).params }), ..*old(s) })),
{
    let now = clock.now();
    let event_id = ids.next_event_id();
    update_custom_sms_setting_at(cmd, now, event_id, s)
}

/// The change of [`delete_custom_sms_setting`] made at time `now` under event id
/// `event_id`.
pub fn delete_custom_sms_setting_at(
    cmd: DeleteCustomSmsSettingCommand,
    now: Timestamp,
    event_id: EventId,
    s: &mut CustomSmsSetting,
) -> (r: Result<CustomSmsSettingDeleted, DomainError>)
    ensures
        r is Ok,
        r matches Ok(event) ==> (event.custom_sms_setting_id == old(s).id),
        r matches Ok(event) ==> (event.event_id == event_id),
        r matches Ok(event) ==> (event.correlation_id == cmd.tenant.correlation_id),
        r matches Ok(event) ==> (event.occurred_at == now),
        r matches Ok(event) ==> (*final(s) == (CustomSmsSetting { active_status: ActiveStatus::Retired, updated_at: now, updated_by: cmd.tenant.actor_id, version: old(s).version.bumped(), last_event_id: Some(event_id), ..*old(s) })),
{
    s.mark_deleted(cmd.tenant.actor_id, now, event_id);
    Ok(CustomSmsSettingDeleted::new(
        s.id,
        event_id,
        cmd.tenant.correlation_id,
        now,
    ))
}

/// Soft-deletes a [`CustomSmsSetting`] and emits a
/// [`CustomSmsSettingDeleted`] event.
pub fn delete_custom_sms_setting<C: Clock, G: IdGenerator>(
    cmd: DeleteCustomSmsSettingCommand,
    clock: &C,
    ids: &G,
    s: &mut CustomSmsSetting,
) -> (r: Result<CustomSmsSettingDeleted, DomainError>)
    ensures
        r is Ok,
        r matches Ok(event) ==> (event.custom_sms_setting_id == old(s).id),
        r matches Ok(event) ==> (event.correlation_id == cmd.tenant.correlation_id),
        r matches Ok(event) ==> (*final(s) == (CustomSmsSetting { active_status: ActiveStatus::Retired, updated_at: event.occurred_at, updated_by: cmd.tenant.actor_id, version: old(s).version.bumped(), last_event_id: Some(event.event_id), ..*old(s) })),
{
    let now = clock.now();
    let event_id = ids.next_event_id();
    delete_custom_sms_setting_at(cmd, now, event_id, s)
}

// =============================================================================
// NotificationSetting service
// =============================================================================

/// The change of [`create_notification_setting`] made at time `now` under event id
/// `event_id`.
pub fn create_notification_setting_at(
    cmd: CreateNotificationSettingCommand,
    now: Timestamp,
    event_id: EventId,
) -> (r: Result<(NotificationSetting, NotificationSettingCreated), DomainError>)
    ensures
        r is Ok,
        r matches Ok((made, event)) ==> (made.school_id == cmd.tenant.school_id),
        r matches Ok((made, event)) ==> (made.id == (NotificationSettingId { school_id: cmd.tenant.school_id, value: event_id.value })),
        r matches Ok((made, event)) ==> (made.event == cmd.event),
        r matches Ok((made, event)) ==> (made.destination == cmd.destination),
        r matches Ok((made, event)) ==> (made.recipient == cmd.recipient),
        r matches Ok((made, event)) ==> (made.subject == cmd.subject),
        r matches Ok((made, event)) ==> (made.template_id == cmd.template_id),
        r matches Ok((made, event)) ==> (made.shortcode == cmd.shortcode),
        r matches Ok((made, event)) ==> (made.version == (Version { value: 1 })),
        r matches Ok((made, event)) ==> (made.etag == (Etag { value: 0 })),
        r matches Ok((made, event)) ==> (made.created_at == now),
        r matches Ok((made, event)) ==> (made.updated_at == now),
        r matches Ok((made, event)) ==> (made.created_by == cmd.tenant.actor_id),
        r matches Ok((made, event)) ==> (made.updated_by == cmd.tenant.actor_id),
        r matches Ok((made, event)) ==> (made.active_status == ActiveStatus::Active),
        r matches Ok((made, event)) ==> (made.last_event_id == Some(event_id)),
        r matches Ok((made, event)) ==> (made.correlation_id == cmd.tenant.correlation_id),
        r matches Ok((made, event)) ==> (event.notification_setting_id == (NotificationSettingId { school_id: cmd.tenant.school_id, value: event_id.value })),
        r matches Ok((made, event)) ==> (event.event@ == cmd.event@),
        r matches Ok((made, event)) ==> (event.destination == cmd.destination),
        r matches Ok((made, event)) ==> (event.event_id == event_id),
        r matches Ok((made, event)) ==> (event.correlation_id == cmd.tenant.correlation_id),
        r matches Ok((made, event)) ==> (event.occurred_at == now),
{
    let school = cmd.tenant.school_id;
    let id = NotificationSettingId::new(school, event_id.as_uuid());
    let mut ns = NotificationSetting::fresh(
        id,
        cmd.event,
        cmd.destination,
        cmd.recipient,
        cmd.subject,
        cmd.template_id,
        cmd.shortcode,
        cmd.tenant.actor_id,
        now,
        cmd.tenant.correlation_id,
    );
    ns.last_event_id = Some(event_id);
    let event = NotificationSettingCreated::new(
        id,
        ns.event.clone(),
        cmd.destination,
        event_id,
        cmd.tenant.correlation_id,
        now,
    );
    Ok((ns, event))
}

/// Builds a new [`NotificationSetting`] aggregate + a
/// [`NotificationSettingCreated`] event.
pub fn create_notification_setting<C: Clock, G: IdGenerator>(
    cmd: CreateNotificationSettingCommand,
    clock: &C,
    ids: &G,
) -> (r: Result<(NotificationSetting, NotificationSettingCreated), DomainError>)
    ensures
        r is Ok,
        r matches Ok((made, event)) ==> (made.school_id == cmd.tenant.school_id),
        r matches Ok((made, event)) ==> (made.id == (NotificationSettingId { school_id: cmd.tenant.school_id, value: event.event_id.value })),
        r matches Ok((made, event)) ==> (made.event == cmd.event),
        r matches Ok((made, event)) ==> (made.destination == cmd.destination),
        r matches Ok((made, event)) ==> (made.recipient == cmd.recipient),
        r matches Ok((made, event)) ==> (made.subject == cmd.subject),
        r matches Ok((made, event)) ==> (made.template_id == cmd.template_id),
        r matches Ok((made, event)) ==> (made.shortcode == cmd.shortcode),
        r matches Ok((made, event)) ==> (made.version == (Version { value: 1 })),
        r matches Ok((made, event)) ==> (made.etag == (Etag { value: 0 })),
        r matches Ok((made, event)) ==> (made.created_at == event.occurred_at),
        r matches Ok((made, event)) ==> (made.updated_at == event.occurred_at),
        r matches Ok((made, event)) ==> (made.created_by == cmd.tenant.actor_id),
        r matches Ok((made, event)) ==> (made.updated_by == cmd.tenant.actor_id),
        r matches Ok((made, event)) ==> (made.active_status == ActiveStatus::Active),
        r matches Ok((made, event)) ==> (made.last_event_id == Some(event.event_id)),
        r matches Ok((made, event)) ==> (made.correlation_id == cmd.tenant.correlation_id),
        r matches Ok((made, event)) ==> (event.notification_setting_id == (NotificationSettingId { school_id: cmd.tenant.school_id, value: event.event_id.value })),
        r matches Ok((made, event)) ==> (event.event@ == cmd.event@),
        r matches Ok((made, event)) ==> (event.destination == cmd.destination),
        r matches Ok((made, event)) ==> (event.correlation_id == cmd.tenant.correlation_id),
{
    let now = clock.now();
    let event_id = ids.next_event_id();
    create_notification_setting_at(cmd, now, event_id)
}

/// The change of [`update_notification_setting`] made at time `now` under event id
/// `event_id`.
pub fn update_notification_setting_at(
    cmd: UpdateNotificationSettingCommand,
    now: Timestamp,
    event_id: EventId,
    ns: &mut NotificationSetting,
) -> (r: Result<NotificationSettingUpdated, DomainError>)
    ensures
        r is Ok,
        r matches Ok(event) ==> (event.notification_setting_id == old(ns).id),
        r matches Ok(event) ==> (texts(event.changes@) == str_texts(field_if(cmd.destination is Some, "destination") + field_if(cmd.recipient is Some, "recipient") + field_if(cmd.subject is Some, "subject") + field_if(cmd.template_id is Some, "template_id") + field_if(cmd.shortcode is Some, "shortcode"))),
        r matches Ok(event) ==> (event.event_id == event_id),
        r matches Ok(event) ==> (event.correlation_id == cmd.tenant.correlation_id),
        r matches Ok(event) ==> (event.occurred_at == now),
        r matches Ok(event) ==> (*final(ns) == (NotificationSetting { updated_at: now, updated_by: cmd.tenant.actor_id, version: old(ns).version.bumped(), last_event_id: Some(event_id), destination: (match cmd.destination { Some(v) => v, None => old(ns).destination }), recipient: (match cmd.recipient { Some(v) => v, None => old(ns).recipient }), subject: (match cmd.subject { Some(v) => v, None => old(ns).subject }), template_id: (match cmd.template_id { Some(v) => v, None => old(ns).template_id }), shortcode: (match cmd.shortcode { Some(v) => v, None => old(ns).shortcode }), ..*old(ns) })),
{
    let changes = ns.update(
        cmd.destination,
        cmd.recipient,
        cmd.subject,
        cmd.template_id,
        cmd.shortcode,
        cmd.tenant.actor_id,
        now,
        event_id,
    );
    Ok(NotificationSettingUpdated::new(
        ns.id,
        owned_strings(&changes),
        event_id,
        cmd.tenant.correlation_id,
        now,
    ))
}

/// Mutates a [`NotificationSetting`] aggregate and emits a
/// [`NotificationSettingUpdated`] event.
pub fn update_notification_setting<C: Clock, G: IdGenerator>(
    cmd: UpdateNotificationSettingCommand,
    clock: &C,
    ids: &G,
    ns: &mut NotificationSetting,
) -> (r: Result<NotificationSettingUpdated, DomainError>)
    ensures
        r is Ok,
        r matches Ok(event) ==> (event.notification_setting_id == old(ns).id),
        r matches Ok(event) ==> (texts(event.changes@) == str_texts(field_if(cmd.destination is Some, "destination") + field_if(cmd.recipient is Some, "recipient") + field_if(cmd.subject is Some, "subject") + field_if(cmd.template_id is Some, "template_id") + field_if(cmd.shortcode is Some, "shortcode"))),
        r matches Ok(event) ==> (event.correlation_id == cmd.tenant.correlation_id),
        r matches Ok(event) ==> (*final(ns) == (NotificationSetting { updated_at: event.occurred_at, updated_by: cmd.tenant.actor_id, version: old(ns).version.bumped(), last_event_id: Some(event.event_id), destination: (match cmd.destination { Some(v) => v, None => old(ns).destination }), recipient: (match cmd.recipient { Some(v) => v, None => old(ns).recipient }), subject: (match cmd.subject { Some(v) => v, None => old(ns).subject }), template_id: (match cmd.template_id { Some(v) => v, None => old(ns).template_id }), shortcode: (match cmd.shortcode { Some(v) => v, None => old(ns).shortcode }), ..*old(ns) })),
{
    let now = clock.now();
    let event_id = ids.next_event_id();
    update_notification_setting_at(cmd, now, event_id, ns)
}

/// The change of [`delete_notification_setting`] made at time `now` under event id
/// `event_id`.
pub fn delete_notification_setting_at(
    cmd: DeleteNotificationSettingCommand,
    now: Timestamp,
    event_id: EventId,
    ns: &mut NotificationSetting,
) -> (r: Result<NotificationSettingDeleted, DomainError>)
    ensures
        r is Ok,
        r matches Ok(event) ==> (event.notification_setting_id == old(ns).id),
        r matches Ok(event) ==> (event.event_id == event_id),
        r matches Ok(event) ==> (event.correlation_id == cmd.tenant.correlation_id),
        r matches Ok(event) ==> (event.occurred_at == now),
        r matches Ok(event) ==> (*final(ns) == (NotificationSetting { active_status: ActiveStatus::Retired, updated_at: now, updated_by: cmd.tenant.actor_id, version: old(ns).version.bumped(), last_event_id: Some(event_id), ..*old(ns) })),
{
    ns.mark_deleted(cmd.tenant.actor_id, now, event_id);
    Ok(NotificationSettingDeleted::new(
        ns.id,
        event_id,
        cmd.tenant.correlation_id,
        now,
    ))
}

/// Soft-deletes a [`NotificationSetting`] and emits a
/// [`NotificationSettingDeleted`] event.
pub fn delete_notification_setting<C: Clock, G: IdGenerator>(
    cmd: DeleteNotificationSettingCommand,
    clock: &C,
    ids: &G,
    ns: &mut NotificationSetting,
) -> (r: Result<NotificationSettingDeleted, DomainError>)
    ensures
        r is Ok,
        r matches Ok(event) ==> (event.notification_setting_id == old(ns).id),
        r matches Ok(event) ==> (event.correlation_id == cmd.tenant.correlation_id),
        r matches Ok(event) ==> (*final(ns) == (NotificationSetting { active_status: ActiveStatus::Retired, updated_at: event.occurred_at, updated_by: cmd.tenant.actor_id, version: old(ns).version.bumped(), last_event_id: Some(event.event_id), ..*old(ns) })),
{
    let now = clock.now();
    let event_id = ids.next_event_id();
    delete_notification_setting_at(cmd, now, event_id, ns)
}

// =============================================================================
// AbsentNotification service
// =============================================================================

/// The change of [`configure_absent_notification`] made at time `now` under event id
/// `event_id`.
pub fn configure_absent_notification_at(
    cmd: ConfigureAbsentNotificationCommand,
    now: Timestamp,
    event_id: EventId,
) -> (r: Result<(AbsentNotificationTimeSetup, AbsentNotificationScheduled), DomainError>)
    ensures
        r is Ok,
        r matches Ok((made, event)) ==> (made.school_id == cmd.tenant.school_id),
        r matches Ok((made, event)) ==> (made.id == (AbsentNotificationTimeSetupId { school_id: cmd.tenant.school_id, value: event_id.value })),
        r matches Ok((made, event)) ==> (made.time_from@ == cmd.time_from@),
        r matches Ok((made, event)) ==> (made.time_to@ == cmd.time_to@),
        r matches Ok((made, event)) ==> (made.status == AbsentNotificationStatus::Disabled),
        r matches Ok((made, event)) ==> (made.version == (Version { value: 1 })),
        r matches Ok((made, event)) ==> (made.etag == (Etag { value: 0 })),
        r matches Ok((made, event)) ==> (made.created_at == now),
        r matches Ok((made, event)) ==> (made.updated_at == now),
        r matches Ok((made, event)) ==> (made.created_by == cmd.tenant.actor_id),
        r matches Ok((made, event)) ==> (made.updated_by == cmd.tenant.actor_id),
        r matches Ok((made, event)) ==> (made.active_status == ActiveStatus::Active),
        r matches Ok((made, event)) ==> (made.last_event_id == Some(event_id)),
        r matches Ok((made, event)) ==> (made.correlation_id == cmd.tenant.correlation_id),
        r matches Ok((made, event)) ==> (event.absent_notification_time_setup_id == (AbsentNotificationTimeSetupId { school_id: cmd.tenant.school_id, value: event_id.value })),
        r matches Ok((made, event)) ==> (event.time_from == cmd.time_from),
        r matches Ok((made, event)) ==> (event.time_to == cmd.time_to),
        r matches Ok((made, event)) ==> (event.event_id == event_id),
        r matches Ok((made, event)) ==> (event.correlation_id == cmd.tenant.correlation_id),
        r matches Ok((made, event)) ==> (event.occurred_at == now),
{
    let school = cmd.tenant.school_id;
    let id = AbsentNotificationTimeSetupId::new(school, event_id.as_uuid());
    let mut an = AbsentNotificationTimeSetup::fresh(
        id,
        cmd.time_from.clone(),
        cmd.time_to.clone(),
        cmd.tenant.actor_id,
        now,
        cmd.tenant.correlation_id,
    );
    an.last_event_id = Some(event_id);
    let event = AbsentNotificationScheduled::new(
        id,
        cmd.time_from,
        cmd.time_to,
        event_id,
        cmd.tenant.correlation_id,
        now,
    );
    Ok((an, event))
}

/// Configures a new [`AbsentNotificationTimeSetup`] aggregate +
/// an [`AbsentNotificationScheduled`] event.
pub fn configure_absent_notification<C: Clock, G: IdGenerator>(
    cmd: ConfigureAbsentNotificationCommand,
    clock: &C,
    ids: &G,
) -> (r: Result<(AbsentNotificationTimeSetup, AbsentNotificationScheduled), DomainError>)
    ensures
        r is Ok,
        r matches Ok((made, event)) ==> (made.school_id == cmd.tenant.school_id),
        r matches Ok((made, event)) ==> (made.id == (AbsentNotificationTimeSetupId { school_id: cmd.tenant.school_id, value: event.event_id.value })),
        r matches Ok((made, event)) ==> (made.time_from@ == cmd.time_from@),
        r matches Ok((made, event)) ==> (made.time_to@ == cmd.time_to@),
        r matches Ok((made, event)) ==> (made.status == AbsentNotificationStatus::Disabled),
        r matches Ok((made, event)) ==> (made.version == (Version { value: 1 })),
        r matches Ok((made, event)) ==> (made.etag == (Etag { value: 0 })),
        r matches Ok((made, event)) ==> (made.created_at == event.occurred_at),
        r matches Ok((made, event)) ==> (made.updated_at == event.occurred_at),
        r matches Ok((made, event)) ==> (made.created_by == cmd.tenant.actor_id),
        r matches Ok((made, event)) ==> (made.updated_by == cmd.tenant.actor_id),
        r matches Ok((made, event)) ==> (made.active_status == ActiveStatus::Active),
        r matches Ok((made, event)) ==> (made.last_event_id == Some(event.event_id)),
        r matches Ok((made, event)) ==> (made.correlation_id == cmd.tenant.correlation_id),
        r matches Ok((made, event)) ==> (event.absent_notification_time_setup_id == (AbsentNotificationTimeSetupId { school_id: cmd.tenant.school_id, value: event.event_id.value })),
        r matches Ok((made, event)) ==> (event.time_from == cmd.time_from),
        r matches Ok((made, event)) ==> (event.time_to == cmd.time_to),
        r matches Ok((made, event)) ==> (event.correlation_id == cmd.tenant.correlation_id),
{
    let now = clock.now();
    let event_id = ids.next_event_id();
    configure_absent_notification_at(cmd, now, event_id)
}

/// The change of [`enable_absent_notification`] made at time `now` under event id
/// `event_id`.
pub fn enable_absent_notification_at(
    cmd: EnableAbsentNotificationCommand,
    now: Timestamp,
    event_id: EventId,
    an: &mut AbsentNotificationTimeSetup,
) -> (r: Result<AbsentNotificationEnabled, DomainError>)
    ensures
        r is Ok,
        r matches Ok(event) ==> (event.absent_notification_time_setup_id == old(an).id),
        r matches Ok(event) ==> (event.event_id == event_id),
        r matches Ok(event) ==> (event.correlation_id == cmd.tenant.correlation_id),
        r matches Ok(event) ==> (event.occurred_at == now),
        r matches Ok(event) ==> (*final(an) == (AbsentNotificationTimeSetup { status: AbsentNotificationStatus::Enabled, updated_at: now, updated_by: cmd.tenant.actor_id, version: old(an).version.bumped(), last_event_id: Some(event_id), ..*old(an) })),
{
    an.enable(cmd.tenant.actor_id, now, event_id);
    Ok(AbsentNotificationEnabled::new(
        an.id,
        event_id,
        cmd.tenant.correlation_id,
        now,
    ))
}

/// Enables an [`AbsentNotificationTimeSetup`] and emits an
/// [`AbsentNotificationEnabled`] event.
pub fn enable_absent_notification<C: Clock, G: IdGenerator>(
    cmd: EnableAbsentNotificationCommand,
    clock: &C,
    ids: &G,
    an: &mut AbsentNotificationTimeSetup,
) -> (r: Result<AbsentNotificationEnabled, DomainError>)
    ensures
        r is Ok,
        r matches Ok(event) ==> (event.absent_notification_time_setup_id == old(an).id),
        r matches Ok(event) ==> (event.correlation_id == cmd.tenant.correlation_id),
        r matches Ok(event) ==> (*final(an) == (AbsentNotificationTimeSetup { status: AbsentNotificationStatus::Enabled, updated_at: event.occurred_at, updated_by: cmd.tenant.actor_id, version: old(an).version.bumped(), last_event_id: Some(event.event_id), ..*old(an) })),
{
    let now = clock.now();
    let event_id = ids.next_event_id();
    enable_absent_notification_at(cmd, now, event_id, an)
}

/// The change of [`disable_absent_notification`] made at time `now` under event id
/// `event_id`.
pub fn disable_absent_notification_at(
    cmd: DisableAbsentNotificationCommand,
    now: Timestamp,
    event_id: EventId,
    an: &mut AbsentNotificationTimeSetup,
) -> (r: Result<AbsentNotificationDisabled, DomainError>)
    ensures
        r is Ok,
        r matches Ok(event) ==> (event.absent_notification_time_setup_id == old(an).id),
        r matches Ok(event) ==> (event.event_id == event_id),
        r matches Ok(event) ==> (event.correlation_id == cmd.tenant.correlation_id),
        r matches Ok(event) ==> (event.occurred_at == now),
        r matches Ok(event) ==> (*final(an) == (AbsentNotificationTimeSetup { status: AbsentNotificationStatus::Disabled, updated_at: now, updated_by: cmd.tenant.actor_id, version: old(an).version.bumped(), last_event_id: Some(event_id), ..*old(an) })),
{
    an.disable(cmd.tenant.actor_id, now, event_id);
    Ok(AbsentNotificationDisabled::new(
        an.id,
        event_id,
        cmd.tenant.correlation_id,
        now,
    ))
}

/// Disables an [`AbsentNotificationTimeSetup`] and emits an
/// [`AbsentNotificationDisabled`] event.
pub fn disable_absent_notification<C: Clock, G: IdGenerator>(
    cmd: DisableAbsentNotificationCommand,
    clock: &C,
    ids: &G,
    an: &mut AbsentNotificationTimeSetup,
) -> (r: Result<AbsentNotificationDisabled, DomainError>)
    ensures
        r is Ok,
        r matches Ok(event) ==> (event.absent_notification_time_setup_id == old(an).id),
        r matches Ok(event) ==> (event.correlation_id == cmd.tenant.correlation_id),
        r matches Ok(event) ==> (*final(an) == (AbsentNotificationTimeSetup { status: AbsentNotificationStatus::Disabled, updated_at: event.occurred_at, updated_by: cmd.tenant.actor_id, version: old(an).version.bumped(), last_event_id: Some(event.event_id), ..*old(an) })),
{
    let now = clock.now();
    let event_id = ids.next_event_id();
    disable_absent_notification_at(cmd, now, event_id, an)
}

/// The change of [`delete_absent_notification`] made at time `now` under event id
/// `event_id`.
pub fn delete_absent_notification_at(
    cmd: DeleteAbsentNotificationCommand,
    now: Timestamp,
    event_id: EventId,
    an: &mut AbsentNotificationTimeSetup,
) -> (r: Result<AbsentNotificationDeleted, DomainError>)
    ensures
        r is Ok,
        r matches Ok(event) ==> (event.absent_notification_time_setup_id == old(an).id),
        r matches Ok(event) ==> (event.event_id == event_id),
        r matches Ok(event) ==> (event.correlation_id == cmd.tenant.correlation_id),
        r matches Ok(event) ==> (event.occurred_at == now),
        r matches Ok(event) ==> (*final(an) == (AbsentNotificationTimeSetup { active_status: ActiveStatus::Retired, updated_at: now, updated_by: cmd.tenant.actor_id, version: old(an).version.bumped(), last_event_id: Some(event_id), ..*old(an) })),
{
    an.mark_deleted(cmd.tenant.actor_id, now, event_id);
    Ok(AbsentNotificationDeleted::new(
        an.id,
        event_id,
        cmd.tenant.correlation_id,
        now,
    ))
}

/// Soft-deletes an [`AbsentNotificationTimeSetup`] and emits an
/// [`AbsentNotificationDeleted`] event.
pub fn delete_absent_notification<C: Clock, G: IdGenerator>(
    cmd: DeleteAbsentNotificationCommand,
    clock: &C,
    ids: &G,
    an: &mut AbsentNotificationTimeSetup,
) -> (r: Result<AbsentNotificationDeleted, DomainError>)
    ensures
        r is Ok,
        r matches Ok(event) ==> (event.absent_notification_time_setup_id == old(an).id),
        r matches Ok(event) ==> (event.correlation_id == cmd.tenant.correlation_id),
        r matches Ok(event) ==> (*final(an) == (AbsentNotificationTimeSetup { active_status: ActiveStatus::Retired, updated_at: event.occurred_at, updated_by: cmd.tenant.actor_id, version: old(an).version.bumped(), last_event_id: Some(event.event_id), ..*old(an) })),
{
    let now = clock.now();
    let event_id = ids.next_event_id();
    delete_absent_notification_at(cmd, now, event_id, an)
}

// =============================================================================
// Chat 1-to-1 service
// =============================================================================

/// The change of [`open_chat_conversation`] made at time `now` under event id
/// `event_id`.
pub fn open_chat_conversation_at(
    cmd: OpenChatConversationCommand,
    now: Timestamp,
    event_id: EventId,
) -> (r: Result<(ChatConversation, ChatConversationOpened), DomainError>)
    ensures
        r is Ok,
        r matches Ok((made, event)) ==> (made.school_id == cmd.tenant.school_id),
        r matches Ok((made, event)) ==> (made.id == (ChatConversationId { school_id: cmd.tenant.school_id, value: event_id.value })),
        r matches Ok((made, event)) ==> (made.from_id == cmd.from_id),
        r matches Ok((made, event)) ==> (made.to_id == cmd.to_id),
        r matches Ok((made, event)) ==> (made.closed == false),
        r matches Ok((made, event)) ==> (made.created_at == now),
        r matches Ok((made, event)) ==> (made.version == (Version { value: 1 })),
        r matches Ok((made, event)) ==> (made.etag == (Etag { value: 0 })),
        r matches Ok((made, event)) ==> (made.updated_at == now),
        r matches Ok((made, event)) ==> (made.created_by == cmd.tenant.actor_id),
        r matches Ok((made, event)) ==> (made.updated_by == cmd.tenant.actor_id),
        r matches Ok((made, event)) ==> (made.active_status == ActiveStatus::Active),
        r matches Ok((made, event)) ==> (made.last_event_id == Some(event_id)),
        r matches Ok((made, event)) ==> (made.correlation_id == cmd.tenant.correlation_id),
        r matches Ok((made, event)) ==> (event.chat_conversation_id == (ChatConversationId { school_id: cmd.tenant.school_id, value: event_id.value })),
        r matches Ok((made, event)) ==> (event.from_id == cmd.from_id),
        r matches Ok((made, event)) ==> (event.to_id == cmd.to_id),
        r matches Ok((made, event)) ==> (event.event_id == event_id),
        r matches Ok((made, event)) ==> (event.correlation_id == cmd.tenant.correlation_id),
        r matches Ok((made, event)) ==> (event.occurred_at == now),
{
    let school = cmd.tenant.school_id;
    let id = ChatConversationId::new(school, event_id.as_uuid());
    let mut conv = ChatConversation::fresh(
        id,
        cmd.from_id,
        cmd.to_id,
        cmd.tenant.actor_id,
        now,
        cmd.tenant.correlation_id,
    );
    conv.last_event_id = Some(event_id);
    let event = ChatConversationOpened::new(
        id,
        cmd.from_id,
        cmd.to_id,
        event_id,
        cmd.tenant.correlation_id,
        now,
    );
    Ok((conv, event))
}

/// Opens a new [`ChatConversation`] aggregate + a
/// [`ChatConversationOpened`] event.
pub fn open_chat_conversation<C: Clock, G: IdGenerator>(
    cmd: OpenChatConversationCommand,
    clock: &C,
    ids: &G,
) -> (r: Result<(ChatConversation, ChatConversationOpened), DomainError>)
    ensures
        r is Ok,
        r matches Ok((made, event)) ==> (made.school_id == cmd.tenant.school_id),
        r matches Ok((made, event)) ==> (made.id == (ChatConversationId { school_id: cmd.tenant.school_id, value: event.event_id.value })),
        r matches Ok((made, event)) ==> (made.from_id == cmd.from_id),
        r matches Ok((made, event)) ==> (made.to_id == cmd.to_id),
        r matches Ok((made, event)) ==> (made.closed == false),
        r matches Ok((made, event)) ==> (made.created_at == event.occurred_at),
        r matches Ok((made, event)) ==> (made.version == (Version { value: 1 })),
        r matches Ok((made, event)) ==> (made.etag == (Etag { value: 0 })),
        r matches Ok((made, event)) ==> (made.updated_at == event.occurred_at),
        r matches Ok((made, event)) ==> (made.created_by == cmd.tenant.actor_id),
        r matches Ok((made, event)) ==> (made.updated_by == cmd.tenant.actor_id),
        r matches Ok((made, event)) ==> (made.active_status == ActiveStatus::Active),
        r matches Ok((made, event)) ==> (made.last_event_id == Some(event.event_id)),
        r matches Ok((made, event)) ==> (made.correlation_id == cmd.tenant.correlation_id),
        r matches Ok((made, event)) ==> (event.chat_conversation_id == (ChatConversationId { school_id: cmd.tenant.school_id, value: event.event_id.value })),
        r matches Ok((made, event)) ==> (event.from_id == cmd.from_id),
        r matches Ok((made, event)) ==> (event.to_id == cmd.to_id),
        r matches Ok((made, event)) ==> (event.correlation_id == cmd.tenant.correlation_id),
{
    let now = clock.now();
    let event_id = ids.next_event_id();
    open_chat_conversation_at(cmd, now, event_id)
}

/// The change of [`close_chat_conversation`] made at time `now` under event id
/// `event_id`.
pub fn close_chat_conversation_at(
    cmd: CloseChatConversationCommand,
    now: Timestamp,
    event_id: EventId,
    conv: &mut ChatConversation,
) -> (r: Result<ChatConversationClosed, DomainError>)
    ensures
        r is Ok,
        r matches Ok(event) ==> (event.chat_conversation_id == old(conv).id),
        r matches Ok(event) ==> (event.event_id == event_id),
        r matches Ok(event) ==> (event.correlation_id == cmd.tenant.correlation_id),
        r matches Ok(event) ==> (event.occurred_at == now),
        r matches Ok(event) ==> (*final(conv) == (ChatConversation { closed: true, updated_at: now, updated_by: cmd.tenant.actor_id, version: old(conv).version.bumped(), last_event_id: Some(event_id), ..*old(conv) })),
{
    conv.close(cmd.tenant.actor_id, now, event_id);
    Ok(ChatConversationClosed::new(
        conv.id,
        event_id,
        cmd.tenant.correlation_id,
        now,
    ))
}

/// Closes a [`ChatConversation`] and emits a
/// [`ChatConversationClosed`] event.
pub fn close_chat_conversation<C: Clock, G: IdGenerator>(
    cmd: CloseChatConversationCommand,
    clock: &C,
    ids: &G,
    conv: &mut ChatConversation,
) -> (r: Result<ChatConversationClosed, DomainError>)
    ensures
        r is Ok,
        r matches Ok(event) ==> (event.chat_conversation_id == old(conv).id),
        r matches Ok(event) ==> (event.correlation_id == cmd.tenant.correlation_id),
        r matches Ok(event) ==> (*final(conv) == (ChatConversation { closed: true, updated_at: event.occurred_at, updated_by: cmd.tenant.actor_id, version: old(conv).version.bumped(), last_event_id: Some(event.event_id), ..*old(conv) })),
{
    let now = clock.now();
    let event_id = ids.next_event_id();
    close_chat_conversation_at(cmd, now, event_id, conv)
}

/// The change of [`send_chat_message`] made at time `now` under event id
/// `event_id`.
pub fn send_chat_message_at(
    cmd: SendChatMessageCommand,
    now: Timestamp,
    event_id: EventId,
    conversation_id: ChatConversationId,
) -> (r: Result<(ChatMessage, ChatMessageSent), DomainError>)
    ensures
        r is Ok,
        r matches Ok((made, event)) ==> (made.school_id == cmd.tenant.school_id),
        r matches Ok((made, event)) ==> (made.id == (ChatMessageId { school_id: cmd.tenant.school_id, value: event_id.value })),
        r matches Ok((made, event)) ==> (made.conversation_id == conversation_id),
        r matches Ok((made, event)) ==> (made.from_id == cmd.from_id),
        r matches Ok((made, event)) ==> (made.to_id == cmd.to_id),
        r matches Ok((made, event)) ==> (made.body == cmd.body),
        r matches Ok((made, event)) ==> (made.message_type == cmd.message_type),
        r matches Ok((made, event)) ==> (made.file == cmd.file),
        r matches Ok((made, event)) ==> (made.reply_to == cmd.reply_to),
        r matches Ok((made, event)) ==> (made.forward_of == cmd.forward_of),
        r matches Ok((made, event)) ==> (made.status == ChatMessageStatus::Unread),
        r matches Ok((made, event)) ==> (made.seen_at.is_none()),
        r matches Ok((made, event)) ==> (made.deleted_by.is_none()),
        r matches Ok((made, event)) ==> (made.version == (Version { value: 1 })),
        r matches Ok((made, event)) ==> (made.etag == (Etag { value: 0 })),
        r matches Ok((made, event)) ==> (made.created_at == now),
        r matches Ok((made, event)) ==> (made.updated_at == now),
        r matches Ok((made, event)) ==> (made.created_by == cmd.tenant.actor_id),
        r matches Ok((made, event)) ==> (made.updated_by == cmd.tenant.actor_id),
        r matches Ok((made, event)) ==> (made.active_status == ActiveStatus::Active),
        r matches Ok((made, event)) ==> (made.last_event_id == Some(event_id)),
        r matches Ok((made, event)) ==> (made.correlation_id == cmd.tenant.correlation_id),
        r matches Ok((made, event)) ==> (event.chat_message_id == (ChatMessageId { school_id: cmd.tenant.school_id, value: event_id.value })),
        r matches Ok((made, event)) ==> (event.chat_conversation_id == conversation_id),
        r matches Ok((made, event)) ==> (event.from_id == cmd.from_id),
        r matches Ok((made, event)) ==> (event.to_id == cmd.to_id),
        r matches Ok((made, event)) ==> (event.message_type == cmd.message_type),
        r matches Ok((made, event)) ==> (event.event_id == event_id),
        r matches Ok((made, event)) ==> (event.correlation_id == cmd.tenant.correlation_id),
        r matches Ok((made, event)) ==> (event.occurred_at == now),
{
    let school = cmd.tenant.school_id;
    let id = ChatMessageId::new(school, event_id.as_uuid());
    let mut m = ChatMessage::fresh(
        id,
        conversation_id,
        cmd.from_id,
        cmd.to_id,
        cmd.body,
        cmd.message_type,
        cmd.file,
        cmd.reply_to,
        cmd.forward_of,
        cmd.tenant.actor_id,
        now,
        cmd.tenant.correlation_id,
    );
    m.last_event_id = Some(event_id);
    let event = ChatMessageSent::new(
        id,
        m.conversation_id,
        cmd.from_id,
        cmd.to_id,
        cmd.message_type,
        event_id,
        cmd.tenant.correlation_id,
        now,
    );
    Ok((m, event))
}

/// Sends a [`ChatMessage`] and emits a [`ChatMessageSent`]
/// event.
pub fn send_chat_message<C: Clock, G: IdGenerator>(
    cmd: SendChatMessageCommand,
    clock: &C,
    ids: &G,
) -> (r: Result<(ChatMessage, ChatMessageSent), DomainError>)
    ensures
        r is Ok,
        r matches Ok((made, event)) ==> (made.school_id == cmd.tenant.school_id),
        r matches Ok((made, event)) ==> (made.id == (ChatMessageId { school_id: cmd.tenant.school_id, value: event.event_id.value })),
        r matches Ok((made, event)) ==> ((cmd.conversation_id matches Some(c) ==> made.conversation_id == c)),
        r matches Ok((made, event)) ==> ((cmd.conversation_id is None ==> made.conversation_id.school_id == cmd.tenant.school_id)),
        r matches Ok((made, event)) ==> (made.from_id == cmd.from_id),
        r matches Ok((made, event)) ==> (made.to_id == cmd.to_id),
        r matches Ok((made, event)) ==> (made.body == cmd.body),
        r matches Ok((made, event)) ==> (made.message_type == cmd.message_type),
        r matches Ok((made, event)) ==> (made.file == cmd.file),
        r matches Ok((made, event)) ==> (made.reply_to == cmd.reply_to),
        r matches Ok((made, event)) ==> (made.forward_of == cmd.forward_of),
        r matches Ok((made, event)) ==> (made.status == ChatMessageStatus::Unread),
        r matches Ok((made, event)) ==> (made.seen_at.is_none()),
        r matches Ok((made, event)) ==> (made.deleted_by.is_none()),
        r matches Ok((made, event)) ==> (made.version == (Version { value: 1 })),
        r matches Ok((made, event)) ==> (made.etag == (Etag { value: 0 })),
        r matches Ok((made, event)) ==> (made.created_at == event.occurred_at),
        r matches Ok((made, event)) ==> (made.updated_at == event.occurred_at),
        r matches Ok((made, event)) ==> (made.created_by == cmd.tenant.actor_id),
        r matches Ok((made, event)) ==> (made.updated_by == cmd.tenant.actor_id),
        r matches Ok((made, event)) ==> (made.active_status == ActiveStatus::Active),
        r matches Ok((made, event)) ==> (made.last_event_id == Some(event.event_id)),
        r matches Ok((made, event)) ==> (made.correlation_id == cmd.tenant.correlation_id),
        r matches Ok((made, event)) ==> (event.chat_message_id == (ChatMessageId { school_id: cmd.tenant.school_id, value: event.event_id.value })),
        r matches Ok((made, event)) ==> (event.chat_conversation_id == made.conversation_id),
        r matches Ok((made, event)) ==> (event.from_id == cmd.from_id),
        r matches Ok((made, event)) ==> (event.to_id == cmd.to_id),
        r matches Ok((made, event)) ==> (event.message_type == cmd.message_type),
        r matches Ok((made, event)) ==> (event.correlation_id == cmd.tenant.correlation_id),
{
    let now = clock.now();
    let event_id = ids.next_event_id();
    let conversation_id = match cmd.conversation_id {
        Some(c) => c,
        None => ChatConversationId::new(cmd.tenant.school_id, ids.next_event_id().as_uuid()),
    };
    send_chat_message_at(cmd, now, event_id, conversation_id)
}

/// The change of [`mark_chat_message_seen`] made at time `now` under event id
/// `event_id`.
pub fn mark_chat_message_seen_at(
    cmd: MarkChatMessageSeenCommand,
    now: Timestamp,
    event_id: EventId,
    m: &mut ChatMessage,
) -> (r: Result<ChatMessageSeen, DomainError>)
    ensures
        r is Ok,
        r matches Ok(event) ==> (event.chat_message_id == old(m).id),
        r matches Ok(event) ==> (event.seen_by == cmd.tenant.actor_id),
        r matches Ok(event) ==> (event.seen_at == now),
        r matches Ok(event) ==> (event.event_id == event_id),
        r matches Ok(event) ==> (event.correlation_id == cmd.tenant.correlation_id),
        r matches Ok(event) ==> (event.occurred_at == now),
        r matches Ok(event) ==> (*final(m) == (ChatMessage { status: ChatMessageStatus::Seen, seen_at: Some(now), updated_at: now, updated_by: cmd.tenant.actor_id, version: old(m).version.bumped(), last_event_id: Some(event_id), ..*old(m) })),
{
    let seen_at = now;
    m.mark_seen(cmd.tenant.actor_id, now, event_id);
    Ok(ChatMessageSeen::new(
        m.id,
        cmd.tenant.actor_id,
        seen_at,
        event_id,
        cmd.tenant.correlation_id,
        now,
    ))
}

/// Marks a [`ChatMessage`] as seen and emits a
/// [`ChatMessageSeen`] event.
pub fn mark_chat_message_seen<C: Clock, G: IdGenerator>(
    cmd: MarkChatMessageSeenCommand,
    clock: &C,
    ids: &G,
    m: &mut ChatMessage,
) -> (r: Result<ChatMessageSeen, DomainError>)
    ensures
        r is Ok,
        r matches Ok(event) ==> (event.chat_message_id == old(m).id),
        r matches Ok(event) ==> (event.seen_by == cmd.tenant.actor_id),
        r matches Ok(event) ==> (event.seen_at == event.occurred_at),
        r matches Ok(event) ==> (event.correlation_id == cmd.tenant.correlation_id),
        r matches Ok(event) ==> (*final(m) == (ChatMessage { status: ChatMessageStatus::Seen, seen_at: Some(event.occurred_at), updated_at: event.occurred_at, updated_by: cmd.tenant.actor_id, version: old(m).version.bumped(), last_event_id: Some(event.event_id), ..*old(m) })),
{
    let now = clock.now();
    let event_id = ids.next_event_id();
    mark_chat_message_seen_at(cmd, now, event_id, m)
}

/// The change of [`delete_chat_message`] made at time `now` under event id
/// `event_id`.
pub fn delete_chat_message_at(
    cmd: DeleteChatMessageCommand,
    now: Timestamp,
    event_id: EventId,
    m: &mut ChatMessage,
) -> (r: Result<ChatMessageDeleted, DomainError>)
    ensures
        r is Ok,
        r matches Ok(event) ==> (event.chat_message_id == old(m).id),
        r matches Ok(event) ==> (event.deleted_by == cmd.tenant.actor_id),
        r matches Ok(event) ==> (event.event_id == event_id),
        r matches Ok(event) ==> (event.correlation_id == cmd.tenant.correlation_id),
        r matches Ok(event) ==> (event.occurred_at == now),
        r matches Ok(event) ==> (*final(m) == (ChatMessage { deleted_by: Some(cmd.tenant.actor_id), active_status: ActiveStatus::Retired, updated_at: now, updated_by: cmd.tenant.actor_id, version: old(m).version.bumped(), last_event_id: Some(event_id), ..*old(m) })),
{
    m.mark_deleted(cmd.tenant.actor_id, now, event_id);
    Ok(ChatMessageDeleted::new(
        m.id,
        cmd.tenant.actor_id,
        event_id,
        cmd.tenant.correlation_id,
        now,
    ))
}

/// Soft-deletes a [`ChatMessage`] and emits a
/// [`ChatMessageDeleted`] event.
pub fn delete_chat_message<C: Clock, G: IdGenerator>(
    cmd: DeleteChatMessageCommand,
    clock: &C,
    ids: &G,
    m: &mut ChatMessage,
) -> (r: Result<ChatMessageDeleted, DomainError>)
    ensures
        r is Ok,
        r matches Ok(event) ==> (event.chat_message_id == old(m).id),
        r matches Ok(event) ==> (event.deleted_by == cmd.tenant.actor_id),
        r matches Ok(event) ==> (event.correlation_id == cmd.tenant.correlation_id),
        r matches Ok(event) ==> (*final(m) == (ChatMessage { deleted_by: Some(cmd.tenant.actor_id), active_status: ActiveStatus::Retired, updated_at: event.occurred_at, updated_by: cmd.tenant.actor_id, version: old(m).version.bumped(), last_event_id: Some(event.event_id), ..*old(m) })),
{
    let now = clock.now();
    let event_id = ids.next_event_id();
    delete_chat_message_at(cmd, now, event_id, m)
}

// =============================================================================
// Chat group service
// =============================================================================

/// The change of [`create_chat_group`] made at time `now` under event id
/// `event_id`.
pub fn create_chat_group_at(
    cmd: CreateChatGroupCommand,
    now: Timestamp,
    event_id: EventId,
) -> (r: Result<(ChatGroup, ChatGroupCreated), DomainError>)
    ensures
        r is Ok,
        r matches Ok((made, event)) ==> (made.school_id == cmd.tenant.school_id),
        r matches Ok((made, event)) ==> (made.id == (ChatGroupId { school_id: cmd.tenant.school_id, value: event_id.value })),
        r matches Ok((made, event)) ==> (made.name@ == cmd.name@),
        r matches Ok((made, event)) ==> (made.description == cmd.description),
        r matches Ok((made, event)) ==> (made.photo == cmd.photo),
        r matches Ok((made, event)) ==> (made.privacy == cmd.privacy),
        r matches Ok((made, event)) ==> (made.group_type == cmd.group_type),
        r matches Ok((made, event)) ==> (made.class_id == cmd.class_id),
        r matches Ok((made, event)) ==> (made.section_id == cmd.section_id),
        r matches Ok((made, event)) ==> (made.subject_id == cmd.subject_id),
        r matches Ok((made, event)) ==> (made.teacher_id == cmd.teacher_id),
        r matches Ok((made, event)) ==> (made.created_by == cmd.tenant.actor_id),
        r matches Ok((made, event)) ==> (made.read_only == false),
        r matches Ok((made, event)) ==> (made.version == (Version { value: 1 })),
        r matches Ok((made, event)) ==> (made.etag == (Etag { value: 0 })),
        r matches Ok((made, event)) ==> (made.created_at == now),
        r matches Ok((made, event)) ==> (made.updated_at == now),
        r matches Ok((made, event)) ==> (made.updated_by == cmd.tenant.actor_id),
        r matches Ok((made, event)) ==> (made.active_status == ActiveStatus::Active),
        r matches Ok((made, event)) ==> (made.last_event_id == Some(event_id)),
        r matches Ok((made, event)) ==> (made.correlation_id == cmd.tenant.correlation_id),
        r matches Ok((made, event)) ==> (event.chat_group_id == (ChatGroupId { school_id: cmd.tenant.school_id, value: event_id.value })),
        r matches Ok((made, event)) ==> (event.name == cmd.name),
        r matches Ok((made, event)) ==> (event.privacy == cmd.privacy),
        r matches Ok((made, event)) ==> (event.group_type == cmd.group_type),
        r matches Ok((made, event)) ==> (event.created_by == cmd.tenant.actor_id),
        r matches Ok((made, event)) ==> (event.event_id == event_id),
        r matches Ok((made, event)) ==> (event.correlation_id == cmd.tenant.correlation_id),
        r matches Ok((made, event)) ==> (event.occurred_at == now),
{
    let school = cmd.tenant.school_id;
    let id = ChatGroupId::new(school, event_id.as_uuid());
    let mut g = ChatGroup::fresh(
        id,
        cmd.name.clone(),
        cmd.description,
        cmd.photo,
        cmd.privacy,
        cmd.group_type,
        cmd.class_id,
        cmd.section_id,
        cmd.subject_id,
        cmd.teacher_id,
        cmd.initial_members,
        cmd.tenant.actor_id,
        now,
        cmd.tenant.correlation_id,
    );
    g.last_event_id = Some(event_id);
    let event = ChatGroupCreated::new(
        id,
        cmd.name,
        cmd.privacy,
        cmd.group_type,
        cmd.tenant.actor_id,
        event_id,
        cmd.tenant.correlation_id,
        now,
    );
    Ok((g, event))
}

/// Creates a new [`ChatGroup`] aggregate + a
/// [`ChatGroupCreated`] event.
pub fn create_chat_group<C: Clock, G: IdGenerator>(
    cmd: CreateChatGroupCommand,
    clock: &C,
    ids: &G,
) -> (r: Result<(ChatGroup, ChatGroupCreated), DomainError>)
    ensures
        r is Ok,
        r matches Ok((made, event)) ==> (made.school_id == cmd.tenant.school_id),
        r matches Ok((made, event)) ==> (made.id == (ChatGroupId { school_id: cmd.tenant.school_id, value: event.event_id.value })),
        r matches Ok((made, event)) ==> (made.name@ == cmd.name@),
        r matches Ok((made, event)) ==> (made.description == cmd.description),
        r matches Ok((made, event)) ==> (made.photo == cmd.photo),
        r matches Ok((made, event)) ==> (made.privacy == cmd.privacy),
        r matches Ok((made, event)) ==> (made.group_type == cmd.group_type),
        r matches Ok((made, event)) ==> (made.class_id == cmd.class_id),
        r matches Ok((made, event)) ==> (made.section_id == cmd.section_id),
        r matches Ok((made, event)) ==> (made.subject_id == cmd.subject_id),
        r matches Ok((made, event)) ==> (made.teacher_id == cmd.teacher_id),
        r matches Ok((made, event)) ==> (made.created_by == cmd.tenant.actor_id),
        r matches Ok((made, event)) ==> (made.read_only == false),
        r matches Ok((made, event)) ==> (made.version == (Version { value: 1 })),
        r matches Ok((made, event)) ==> (made.etag == (Etag { value: 0 })),
        r matches Ok((made, event)) ==> (made.created_at == event.occurred_at),
        r matches Ok((made, event)) ==> (made.updated_at == event.occurred_at),
        r matches Ok((made, event)) ==> (made.updated_by == cmd.tenant.actor_id),
        r matches Ok((made, event)) ==> (made.active_status == ActiveStatus::Active),
        r matches Ok((made, event)) ==> (made.last_event_id == Some(event.event_id)),
        r matches Ok((made, event)) ==> (made.correlation_id == cmd.tenant.correlation_id),
        r matches Ok((made, event)) ==> (event.chat_group_id == (ChatGroupId { school_id: cmd.tenant.school_id, value: event.event_id.value })),
        r matches Ok((made, event)) ==> (event.name == cmd.name),
        r matches Ok((made, event)) ==> (event.privacy == cmd.privacy),
        r matches Ok((made, event)) ==> (event.group_type == cmd.group_type),
        r matches Ok((made, event)) ==> (event.created_by == cmd.tenant.actor_id),
        r matches Ok((made, event)) ==> (event.correlation_id == cmd.tenant.correlation_id),
{
    let now = clock.now();
    let event_id = ids.next_event_id();
    create_chat_group_at(cmd, now, event_id)
}

/// The change of [`update_chat_group`] made at time `now` under event id
/// `event_id`.
pub fn update_chat_group_at(
    cmd: UpdateChatGroupCommand,
    now: Timestamp,
    event_id: EventId,
    g: &mut ChatGroup,
) -> (r: Result<ChatGroupUpdated, DomainError>)
    ensures
        r is Ok,
        r matches Ok(event) ==> (event.chat_group_id == old(g).id),
        r matches Ok(event) ==> (texts(event.changes@) == str_texts(field_if(cmd.name is Some, "name") + field_if(cmd.description is Some, "description") + field_if(cmd.photo is Some, "photo"))),
        r matches Ok(event) ==> (event.event_id == event_id),
        r matches Ok(event) ==> (event.correlation_id == cmd.tenant.correlation_id),
        r matches Ok(event) ==> (event.occurred_at == now),
        r matches Ok(event) ==> (*final(g) == (ChatGroup { updated_at: now, updated_by: cmd.tenant.actor_id, version: old(g).version.bumped(), last_event_id: Some(event_id), name: (match cmd.name { Some(v) => v, None => old(g).name }), description: (match cmd.description { Some(v) => Some(v), None => old(g).description }), photo: (match cmd.photo { Some(v) => Some(v), None => old(g).photo }), ..*old(g) })),
{
    let changes = g.update(
        cmd.name,
        cmd.description,
        cmd.photo,
        cmd.tenant.actor_id,
        now,
        event_id,
    );
    Ok(ChatGroupUpdated::new(
        g.id,
        owned_strings(&changes),
        event_id,
        cmd.tenant.correlation_id,
        now,
    ))
}

/// Mutates a [`ChatGroup`] aggregate and emits a
/// [`ChatGroupUpdated`] event.
pub fn update_chat_group<C: Clock, G: IdGenerator>(
    cmd: UpdateChatGroupCommand,
    clock: &C,
    ids: &G,
    g: &mut ChatGroup,
) -> (r: Result<ChatGroupUpdated, DomainError>)
    ensures
        r is Ok,
        r matches Ok(event) ==> (event.chat_group_id == old(g).id),
        r matches Ok(event) ==> (texts(event.changes@) == str_texts(field_if(cmd.name is Some, "name") + field_if(cmd.description is Some, "description") + field_if(cmd.photo is Some, "photo"))),
        r matches Ok(event) ==> (event.correlation_id == cmd.tenant.correlation_id),
        r matches Ok(event) ==> (*final(g) == (ChatGroup { updated_at: event.occurred_at, updated_by: cmd.tenant.actor_id, version: old(g).version.bumped(), last_event_id: Some(event.event_id), name: (match cmd.name { Some(v) => v, None => old(g).name }), description: (match cmd.description { Some(v) => Some(v), None => old(g).description }), photo: (match cmd.photo { Some(v) => Some(v), None => old(g).photo }), ..*old(g) })),
{
    let now = clock.now();
    let event_id = ids.next_event_id();
    update_chat_group_at(cmd, now, event_id, g)
}

/// The change of [`set_chat_group_read_only`] made at time `now` under event id
/// `event_id`.
pub fn set_chat_group_read_only_at(
    cmd: SetChatGroupReadOnlyCommand,
    now: Timestamp,
    event_id: EventId,
    g: &mut ChatGroup,
) -> (r: Result<ChatGroupReadOnlySet, DomainError>)
    ensures
        r is Ok,
        r matches Ok(event) ==> (event.chat_group_id == old(g).id),
        r matches Ok(event) ==> (event.read_only == cmd.read_only),
        r matches Ok(event) ==> (event.event_id == event_id),
        r matches Ok(event) ==> (event.correlation_id == cmd.tenant.correlation_id),
        r matches Ok(event) ==> (event.occurred_at == now),
        r matches Ok(event) ==> (*final(g) == (ChatGroup { read_only: cmd.read_only, updated_at: now, updated_by: cmd.tenant.actor_id, version: old(g).version.bumped(), last_event_id: Some(event_id), ..*old(g) })),
{
    g.set_read_only(
        cmd.read_only,
        cmd.tenant.actor_id,
        now,
        event_id,
    );
    Ok(ChatGroupReadOnlySet::new(
        g.id,
        cmd.read_only,
        event_id,
        cmd.tenant.correlation_id,
        now,
    ))
}

/// Sets the read-only flag on a [`ChatGroup`] and emits a
/// [`ChatGroupReadOnlySet`] event.
pub fn set_chat_group_read_only<C: Clock, G: IdGenerator>(
    cmd: SetChatGroupReadOnlyCommand,
    clock: &C,
    ids: &G,
    g: &mut ChatGroup,
) -> (r: Result<ChatGroupReadOnlySet, DomainError>)
    ensures
        r is Ok,
        r matches Ok(event) ==> (event.chat_group_id == old(g).id),
        r matches Ok(event) ==> (event.read_only == cmd.read_only),
        r matches Ok(event) ==> (event.correlation_id == cmd.tenant.correlation_id),
        r matches Ok(event) ==> (*final(g) == (ChatGroup { read_only: cmd.read_only, updated_at: event.occurred_at, updated_by: cmd.tenant.actor_id, version: old(g).version.bumped(), last_event_id: Some(event.event_id), ..*old(g) })),
{
    let now = clock.now();
    let event_id = ids.next_event_id();
    set_chat_group_read_only_at(cmd, now, event_id, g)
}

/// The change of [`delete_chat_group`] made at time `now` under event id
/// `event_id`.
pub fn delete_chat_group_at(
    cmd: DeleteChatGroupCommand,
    now: Timestamp,
    event_id: EventId,
    g: &mut ChatGroup,
) -> (r: Result<ChatGroupDeleted, DomainError>)
    ensures
        r is Ok,
        r matches Ok(event) ==> (event.chat_group_id == old(g).id),
        r matches Ok(event) ==> (event.event_id == event_id),
        r matches Ok(event) ==> (event.correlation_id == cmd.tenant.correlation_id),
        r matches Ok(event) ==> (event.occurred_at == now),
        r matches Ok(event) ==> (*final(g) == (ChatGroup { active_status: ActiveStatus::Retired, updated_at: now, updated_by: cmd.tenant.actor_id, version: old(g).version.bumped(), last_event_id: Some(event_id), ..*old(g) })),
{
    g.mark_deleted(cmd.tenant.actor_id, now, event_id);
    Ok(ChatGroupDeleted::new(
        g.id,
        event_id,
        cmd.tenant.correlation_id,
        now,
    ))
}

/// Soft-deletes a [`ChatGroup`] and emits a
/// [`ChatGroupDeleted`] event.
pub fn delete_chat_group<C: Clock, G: IdGenerator>(
    cmd: DeleteChatGroupCommand,
    clock: &C,
    ids: &G,
    g: &mut ChatGroup,
) -> (r: Result<ChatGroupDeleted, DomainError>)
    ensures
        r is Ok,
        r matches Ok(event) ==> (event.chat_group_id == old(g).id),
        r matches Ok(event) ==> (event.correlation_id == cmd.tenant.correlation_id),
        r matches Ok(event) ==> (*final(g) == (ChatGroup { active_status: ActiveStatus::Retired, updated_at: event.occurred_at, updated_by: cmd.tenant.actor_id, version: old(g).version.bumped(), last_event_id: Some(event.event_id), ..*old(g) })),
{
    let now = clock.now();
    let event_id = ids.next_event_id();
    delete_chat_group_at(cmd, now, event_id, g)
}

// =============================================================================
// Chat group membership service
// =============================================================================

/// The change of [`add_user_to_chat_group`] made at time `now` under event id
/// `event_id`.
pub fn add_user_to_chat_group_at(
    cmd: AddUserToChatGroupCommand,
    now: Timestamp,
    event_id: EventId,
) -> (r: Result<(ChatGroupUser, ChatGroupUserAdded), DomainError>)
    ensures
        r is Ok,
        r matches Ok((made, event)) ==> (made.school_id == cmd.tenant.school_id),
        r matches Ok((made, event)) ==> (made.id == (ChatGroupUserId { school_id: cmd.tenant.school_id, value: event_id.value })),
        r matches Ok((made, event)) ==> (made.chat_group_id == cmd.chat_group_id),
        r matches Ok((made, event)) ==> (made.user_id == cmd.user_id),
        r matches Ok((made, event)) ==> (made.role == cmd.role),
        r matches Ok((made, event)) ==> (made.added_by == cmd.tenant.actor_id),
        r matches Ok((made, event)) ==> (made.added_at == now),
        r matches Ok((made, event)) ==> (made.removed_by.is_none()),
        r matches Ok((made, event)) ==> (made.deleted_at.is_none()),
        r matches Ok((made, event)) ==> (made.version == (Version { value: 1 })),
        r matches Ok((made, event)) ==> (made.etag == (Etag { value: 0 })),
        r matches Ok((made, event)) ==> (made.created_at == now),
        r matches Ok((made, event)) ==> (made.updated_at == now),
        r matches Ok((made, event)) ==> (made.created_by == cmd.tenant.actor_id),
        r matches Ok((made, event)) ==> (made.updated_by == cmd.tenant.actor_id),
        r matches Ok((made, event)) ==> (made.active_status == ActiveStatus::Active),
        r matches Ok((made, event)) ==> (made.last_event_id == Some(event_id)),
        r matches Ok((made, event)) ==> (made.correlation_id == cmd.tenant.correlation_id),
        r matches Ok((made, event)) ==> (event.chat_group_id == cmd.chat_group_id),
        r matches Ok((made, event)) ==> (event.user_id == cmd.user_id),
        r matches Ok((made, event)) ==> (event.role == cmd.role),
        r matches Ok((made, event)) ==> (event.event_id == event_id),
        r matches Ok((made, event)) ==> (event.correlation_id == cmd.tenant.correlation_id),
        r matches Ok((made, event)) ==> (event.occurred_at == now),
{
    let school = cmd.tenant.school_id;
    let id = ChatGroupUserId::new(school, event_id.as_uuid());
    let mut m = ChatGroupUser::fresh(
        id,
        cmd.chat_group_id,
        cmd.user_id,
        cmd.role,
        cmd.tenant.actor_id,
        now,
        cmd.tenant.correlation_id,
    );
    m.last_event_id = Some(event_id);
    let event = ChatGroupUserAdded::new(
        cmd.chat_group_id,
        cmd.user_id,
        cmd.role,
        event_id,
        cmd.tenant.correlation_id,
        now,
    );
    Ok((m, event))
}

/// Adds a user to a [`ChatGroup`] and emits a
/// [`ChatGroupUserAdded`] event.
pub fn add_user_to_chat_group<C: Clock, G: IdGenerator>(
    cmd: AddUserToChatGroupCommand,
    clock: &C,
    ids: &G,
) -> (r: Result<(ChatGroupUser, ChatGroupUserAdded), DomainError>)
    ensures
        r is Ok,
        r matches Ok((made, event)) ==> (made.school_id == cmd.tenant.school_id),
        r matches Ok((made, event)) ==> (made.id == (ChatGroupUserId { school_id: cmd.tenant.school_id, value: event.event_id.value })),
        r matches Ok((made, event)) ==> (made.chat_group_id == cmd.chat_group_id),
        r matches Ok((made, event)) ==> (made.user_id == cmd.user_id),
        r matches Ok((made, event)) ==> (made.role == cmd.role),
        r matches Ok((made, event)) ==> (made.added_by == cmd.tenant.actor_id),
        r matches Ok((made, event)) ==> (made.added_at == event.occurred_at),
        r matches Ok((made, event)) ==> (made.removed_by.is_none()),
        r matches Ok((made, event)) ==> (made.deleted_at.is_none()),
        r matches Ok((made, event)) ==> (made.version == (Version { value: 1 })),
        r matches Ok((made, event)) ==> (made.etag == (Etag { value: 0 })),
        r matches Ok((made, event)) ==> (made.created_at == event.occurred_at),
        r matches Ok((made, event)) ==> (made.updated_at == event.occurred_at),
        r matches Ok((made, event)) ==> (made.created_by == cmd.tenant.actor_id),
        r matches Ok((made, event)) ==> (made.updated_by == cmd.tenant.actor_id),
        r matches Ok((made, event)) ==> (made.active_status == ActiveStatus::Active),
        r matches Ok((made, event)) ==> (made.last_event_id == Some(event.event_id)),
        r matches Ok((made, event)) ==> (made.correlation_id == cmd.tenant.correlation_id),
        r matches Ok((made, event)) ==> (event.chat_group_id == cmd.chat_group_id),
        r matches Ok((made, event)) ==> (event.user_id == cmd.user_id),
        r matches Ok((made, event)) ==> (event.role == cmd.role),
        r matches Ok((made, event)) ==> (event.correlation_id == cmd.tenant.correlation_id),
{
    let now = clock.now();
    let event_id = ids.next_event_id();
    add_user_to_chat_group_at(cmd, now, event_id)
}

/// The change of [`set_chat_group_user_role`] made at time `now` under event id
/// `event_id`.
pub fn set_chat_group_user_role_at(
    cmd: SetChatGroupUserRoleCommand,
    now: Timestamp,
    event_id: EventId,
    m: &mut ChatGroupUser,
) -> (r: Result<ChatGroupUserRoleChanged, DomainError>)
    ensures
        r is Ok,
        r matches Ok(event) ==> (event.chat_group_id == old(m).chat_group_id),
        r matches Ok(event) ==> (event.user_id == old(m).user_id),
        r matches Ok(event) ==> (event.from == old(m).role),
        r matches Ok(event) ==> (event.to == cmd.role),
        r matches Ok(event) ==> (event.event_id == event_id),
        r matches Ok(event) ==> (event.correlation_id == cmd.tenant.correlation_id),
        r matches Ok(event) ==> (event.occurred_at == now),
        r matches Ok(event) ==> (*final(m) == (ChatGroupUser { role: cmd.role, updated_at: now, updated_by: cmd.tenant.actor_id, version: old(m).version.bumped(), last_event_id: Some(event_id), ..*old(m) })),
{
    let from = m.role;
    m.set_role(cmd.role, cmd.tenant.actor_id, now, event_id);
    Ok(ChatGroupUserRoleChanged::new(
        m.chat_group_id,
        m.user_id,
        from,
        cmd.role,
        event_id,
        cmd.tenant.correlation_id,
        now,
    ))
}

/// Sets the role of a [`ChatGroupUser`] and emits a
/// [`ChatGroupUserRoleChanged`] event.
pub fn set_chat_group_user_role<C: Clock, G: IdGenerator>(
    cmd: SetChatGroupUserRoleCommand,
    clock: &C,
    ids: &G,
    m: &mut ChatGroupUser,
) -> (r: Result<ChatGroupUserRoleChanged, DomainError>)
    ensures
        r is Ok,
        r matches Ok(event) ==> (event.chat_group_id == old(m).chat_group_id),
        r matches Ok(event) ==> (event.user_id == old(m).user_id),
        r matches Ok(event) ==> (event.from == old(m).role),
        r matches Ok(event) ==> (event.to == cmd.role),
        r matches Ok(event) ==> (event.correlation_id == cmd.tenant.correlation_id),
        r matches Ok(event) ==> (*final(m) == (ChatGroupUser { role: cmd.role, updated_at: event.occurred_at, updated_by: cmd.tenant.actor_id, version: old(m).version.bumped(), last_event_id: Some(event.event_id), ..*old(m) })),
{
    let now = clock.now();
    let event_id = ids.next_event_id();
    set_chat_group_user_role_at(cmd, now, event_id, m)
}

/// The change of [`remove_user_from_chat_group`] made at time `now` under event id
/// `event_id`.
pub fn remove_user_from_chat_group_at(
    cmd: RemoveUserFromChatGroupCommand,
    now: Timestamp,
    event_id: EventId,
    m: &mut ChatGroupUser,
) -> (r: Result<ChatGroupUserRemoved, DomainError>)
    ensures
        r is Ok,
        r matches Ok(event) ==> (event.chat_group_id == old(m).chat_group_id),
        r matches Ok(event) ==> (event.user_id == old(m).user_id),
        r matches Ok(event) ==> (event.removed_by == cmd.tenant.actor_id),
        r matches Ok(event) ==> (event.event_id == event_id),
        r matches Ok(event) ==> (event.correlation_id == cmd.tenant.correlation_id),
        r matches Ok(event) ==> (event.occurred_at == now),
        r matches Ok(event) ==> (*final(m) == (ChatGroupUser { removed_by: Some(cmd.tenant.actor_id), deleted_at: Some(now), active_status: ActiveStatus::Retired, updated_at: now, updated_by: cmd.tenant.actor_id, version: old(m).version.bumped(), last_event_id: Some(event_id), ..*old(m) })),
{
    m.mark_removed(cmd.tenant.actor_id, now, event_id);
    Ok(ChatGroupUserRemoved::new(
        m.chat_group_id,
        m.user_id,
        cmd.tenant.actor_id,
        event_id,
        cmd.tenant.correlation_id,
        now,
    ))
}

/// Removes a user from a [`ChatGroup`] and emits a
/// [`ChatGroupUserRemoved`] event.
pub fn remove_user_from_chat_group<C: Clock, G: IdGenerator>(
    cmd: RemoveUserFromChatGroupCommand,
    clock: &C,
    ids: &G,
    m: &mut ChatGroupUser,
) -> (r: Result<ChatGroupUserRemoved, DomainError>)
    ensures
        r is Ok,
        r matches Ok(event) ==> (event.chat_group_id == old(m).chat_group_id),
        r matches Ok(event) ==> (event.user_id == old(m).user_id),
        r matches Ok(event) ==> (event.removed_by == cmd.tenant.actor_id),
        r matches Ok(event) ==> (event.correlation_id == cmd.tenant.correlation_id),
        r matches Ok(event) ==> (*final(m) == (ChatGroupUser { removed_by: Some(cmd.tenant.actor_id), deleted_at: Some(event.occurred_at), active_status: ActiveStatus::Retired, updated_at: event.occurred_at, updated_by: cmd.tenant.actor_id, version: old(m).version.bumped(), last_event_id: Some(event.event_id), ..*old(m) })),
{
    let now = clock.now();
    let event_id = ids.next_event_id();
    remove_user_from_chat_group_at(cmd, now, event_id, m)
}

// =============================================================================
// Chat group message recipient service
// =============================================================================

/// The change of [`record_group_message_recipient`] made at time `now` under event id
/// `event_id`.
pub fn record_group_message_recipient_at(
    cmd: RecordGroupMessageRecipientCommand,
    now: Timestamp,
    event_id: EventId,
) -> (r: Result<(ChatGroupMessageRecipient, GroupMessageRecipientRecorded), DomainError>)
    ensures
        r is Ok,
        r matches Ok((made, event)) ==> (made.school_id == cmd.tenant.school_id),
        r matches Ok((made, event)) ==> (made.id == (ChatGroupMessageRecipientId { school_id: cmd.tenant.school_id, value: event_id.value })),
        r matches Ok((made, event)) ==> (made.chat_group_id == cmd.chat_group_id),
        r matches Ok((made, event)) ==> (made.user_id == cmd.user_id),
        r matches Ok((made, event)) ==> (made.group_message_id == cmd.group_message_id),
        r matches Ok((made, event)) ==> (made.read_at.is_none()),
        r matches Ok((made, event)) ==> (made.deleted_at.is_none()),
        r matches Ok((made, event)) ==> (made.version == (Version { value: 1 })),
        r matches Ok((made, event)) ==> (made.etag == (Etag { value: 0 })),
        r matches Ok((made, event)) ==> (made.created_at == now),
        r matches Ok((made, event)) ==> (made.updated_at == now),
        r matches Ok((made, event)) ==> (made.created_by == cmd.tenant.actor_id),
        r matches Ok((made, event)) ==> (made.updated_by == cmd.tenant.actor_id),
        r matches Ok((made, event)) ==> (made.active_status == ActiveStatus::Active),
        r matches Ok((made, event)) ==> (made.last_event_id == Some(event_id)),
        r matches Ok((made, event)) ==> (made.correlation_id == cmd.tenant.correlation_id),
        r matches Ok((made, event)) ==> (event.chat_group_message_recipient_id == (ChatGroupMessageRecipientId { school_id: cmd.tenant.school_id, value: event_id.value })),
        r matches Ok((made, event)) ==> (event.chat_group_id == cmd.chat_group_id),
        r matches Ok((made, event)) ==> (event.user_id == cmd.user_id),
        r matches Ok((made, event)) ==> (event.event_id == event_id),
        r matches Ok((made, event)) ==> (event.correlation_id == cmd.tenant.correlation_id),
        r matches Ok((made, event)) ==> (event.occurred_at == now),
{
    let school = cmd.tenant.school_id;
    let id = ChatGroupMessageRecipientId::new(school, event_id.as_uuid());
    let mut r = ChatGroupMessageRecipient::fresh(
        id,
        cmd.chat_group_id,
        cmd.user_id,
        cmd.group_message_id,
        cmd.tenant.actor_id,
        now,
        cmd.tenant.correlation_id,
    );
    r.last_event_id = Some(event_id);
    let event = GroupMessageRecipientRecorded::new(
        id,
        cmd.chat_group_id,
        cmd.user_id,
        event_id,
        cmd.tenant.correlation_id,
        now,
    );
    Ok((r, event))
}

/// Records a [`ChatGroupMessageRecipient`] and emits a
/// [`GroupMessageRecipientRecorded`] event.
pub fn record_group_message_recipient<C: Clock, G: IdGenerator>(
    cmd: RecordGroupMessageRecipientCommand,
    clock: &C,
    ids: &G,
) -> (r: Result<(ChatGroupMessageRecipient, GroupMessageRecipientRecorded), DomainError>)
    ensures
        r is Ok,
        r matches Ok((made, event)) ==> (made.school_id == cmd.tenant.school_id),
        r matches Ok((made, event)) ==> (made.id == (ChatGroupMessageRecipientId { school_id: cmd.tenant.school_id, value: event.event_id.value })),
        r matches Ok((made, event)) ==> (made.chat_group_id == cmd.chat_group_id),
        r matches Ok((made, event)) ==> (made.user_id == cmd.user_id),
        r matches Ok((made, event)) ==> (made.group_message_id == cmd.group_message_id),
        r matches Ok((made, event)) ==> (made.read_at.is_none()),
        r matches Ok((made, event)) ==> (made.deleted_at.is_none()),
        r matches Ok((made, event)) ==> (made.version == (Version { value: 1 })),
        r matches Ok((made, event)) ==> (made.etag == (Etag { value: 0 })),
        r matches Ok((made, event)) ==> (made.created_at == event.occurred_at),
        r matches Ok((made, event)) ==> (made.updated_at == event.occurred_at),
        r matches Ok((made, event)) ==> (made.created_by == cmd.tenant.actor_id),
        r matches Ok((made, event)) ==> (made.updated_by == cmd.tenant.actor_id),
        r matches Ok((made, event)) ==> (made.active_status == ActiveStatus::Active),
        r matches Ok((made, event)) ==> (made.last_event_id == Some(event.event_id)),
        r matches Ok((made, event)) ==> (made.correlation_id == cmd.tenant.correlation_id),
        r matches Ok((made, event)) ==> (event.chat_group_message_recipient_id == (ChatGroupMessageRecipientId { school_id: cmd.tenant.school_id, value: event.event_id.value })),
        r matches Ok((made, event)) ==> (event.chat_group_id == cmd.chat_group_id),
        r matches Ok((made, event)) ==> (event.user_id == cmd.user_id),
        r matches Ok((made, event)) ==> (event.correlation_id == cmd.tenant.correlation_id),
{
    let now = clock.now();
    let event_id = ids.next_event_id();
    record_group_message_recipient_at(cmd, now, event_id)
}

/// The change of [`mark_group_message_read`] made at time `now` under event id
/// `event_id`.
pub fn mark_group_message_read_at(
    cmd: MarkGroupMessageReadCommand,
    now: Timestamp,
    event_id: EventId,
    recipient: &mut ChatGroupMessageRecipient,
) -> (r: Result<GroupMessageMarkedRead, DomainError>)
    ensures
        r is Ok,
        r matches Ok(event) ==> (event.chat_group_message_recipient_id == old(recipient).id),
        r matches Ok(event) ==> (event.read_at == now),
        r matches Ok(event) ==> (event.event_id == event_id),
        r matches Ok(event) ==> (event.correlation_id == cmd.tenant.correlation_id),
        r matches Ok(event) ==> (event.occurred_at == now),
        r matches Ok(event) ==> (*final(recipient) == (ChatGroupMessageRecipient { read_at: Some(now), updated_at: now, updated_by: cmd.tenant.actor_id, version: old(recipient).version.bumped(), last_event_id: Some(event_id), ..*old(recipient) })),
{
    let read_at = now;
    recipient.mark_read(cmd.tenant.actor_id, now, event_id);
    Ok(GroupMessageMarkedRead::new(
        recipient.id,
        read_at,
        event_id,
        cmd.tenant.correlation_id,
        now,
    ))
}

/// Marks a [`ChatGroupMessageRecipient`] as read and emits a
/// [`GroupMessageMarkedRead`] event.
pub fn mark_group_message_read<C: Clock, G: IdGenerator>(
    cmd: MarkGroupMessageReadCommand,
    clock: &C,
    ids: &G,
    recipient: &mut ChatGroupMessageRecipient,
) -> (r: Result<GroupMessageMarkedRead, DomainError>)
    ensures
        r is Ok,
        r matches Ok(event) ==> (event.chat_group_message_recipient_id == old(recipient).id),
        r matches Ok(event) ==> (event.read_at == event.occurred_at),
        r matches Ok(event) ==> (event.correlation_id == cmd.tenant.correlation_id),
        r matches Ok(event) ==> (*final(recipient) == (ChatGroupMessageRecipient { read_at: Some(event.occurred_at), updated_at: event.occurred_at, updated_by: cmd.tenant.actor_id, version: old(recipient).version.bumped(), last_event_id: Some(event.event_id), ..*old(recipient) })),
{
    let now = clock.now();
    let event_id = ids.next_event_id();
    mark_group_message_read_at(cmd, now, event_id, recipient)
}

// =============================================================================
// Chat group message remove service
// =============================================================================

/// The change of [`remove_group_message_for_user`] made at time `now` under event id
/// `event_id`.
pub fn remove_group_message_for_user_at(
    cmd: RemoveGroupMessageForUserCommand,
    now: Timestamp,
    event_id: EventId,
) -> (r: Result<(ChatGroupMessageRemove, GroupMessageRemovedForUser), DomainError>)
    ensures
        r is Ok,
        r matches Ok((made, event)) ==> (made.school_id == cmd.tenant.school_id),
        r matches Ok((made, event)) ==> (made.id == (ChatGroupMessageRemoveId { school_id: cmd.tenant.school_id, value: event_id.value })),
        r matches Ok((made, event)) ==> (made.chat_group_message_recipient_id == cmd.chat_group_message_recipient_id),
        r matches Ok((made, event)) ==> (made.user_id == cmd.user_id),
        r matches Ok((made, event)) ==> (made.removed_at == now),
        r matches Ok((made, event)) ==> (made.version == (Version { value: 1 })),
        r matches Ok((made, event)) ==> (made.etag == (Etag { value: 0 })),
        r matches Ok((made, event)) ==> (made.created_at == now),
        r matches Ok((made, event)) ==> (made.updated_at == now),
        r matches Ok((made, event)) ==> (made.created_by == cmd.tenant.actor_id),
        r matches Ok((made, event)) ==> (made.updated_by == cmd.tenant.actor_id),
        r matches Ok((made, event)) ==> (made.active_status == ActiveStatus::Active),
        r matches Ok((made, event)) ==> (made.last_event_id == Some(event_id)),
        r matches Ok((made, event)) ==> (made.correlation_id == cmd.tenant.correlation_id),
        r matches Ok((made, event)) ==> (event.chat_group_message_remove_id == (ChatGroupMessageRemoveId { school_id: cmd.tenant.school_id, value: event_id.value })),
        r matches Ok((made, event)) ==> (event.user_id == cmd.user_id),
        r matches Ok((made, event)) ==> (event.event_id == event_id),
        r matches Ok((made, event)) ==> (event.correlation_id == cmd.tenant.correlation_id),
        r matches Ok((made, event)) ==> (event.occurred_at == now),
{
    let school = cmd.tenant.school_id;
    let id = ChatGroupMessageRemoveId::new(school, event_id.as_uuid());
    let mut rm = ChatGroupMessageRemove::fresh(
        id,
        cmd.chat_group_message_recipient_id,
        cmd.user_id,
        cmd.tenant.actor_id,
        now,
        cmd.tenant.correlation_id,
    );
    rm.last_event_id = Some(event_id);
    let event = GroupMessageRemovedForUser::new(
        id,
        cmd.user_id,
        event_id,
        cmd.tenant.correlation_id,
        now,
    );
    Ok((rm, event))
}

/// Records a [`ChatGroupMessageRemove`] and emits a
/// [`GroupMessageRemovedForUser`] event.
pub fn remove_group_message_for_user<C: Clock, G: IdGenerator>(
    cmd: RemoveGroupMessageForUserCommand,
    clock: &C,
    ids: &G,
) -> (r: Result<(ChatGroupMessageRemove, GroupMessageRemovedForUser), DomainError>)
    ensures
        r is Ok,
        r matches Ok((made, event)) ==> (made.school_id == cmd.tenant.school_id),
        r matches Ok((made, event)) ==> (made.id == (ChatGroupMessageRemoveId { school_id: cmd.tenant.school_id, value: event.event_id.value })),
        r matches Ok((made, event)) ==> (made.chat_group_message_recipient_id == cmd.chat_group_message_recipient_id),
        r matches Ok((made, event)) ==> (made.user_id == cmd.user_id),
        r matches Ok((made, event)) ==> (made.removed_at == event.occurred_at),
        r matches Ok((made, event)) ==> (made.version == (Version { value: 1 })),
        r matches Ok((made, event)) ==> (made.etag == (Etag { value: 0 })),
        r matches Ok((made, event)) ==> (made.created_at == event.occurred_at),
        r matches Ok((made, event)) ==> (made.updated_at == event.occurred_at),
        r matches Ok((made, event)) ==> (made.created_by == cmd.tenant.actor_id),
        r matches Ok((made, event)) ==> (made.updated_by == cmd.tenant.actor_id),
        r matches Ok((made, event)) ==> (made.active_status == ActiveStatus::Active),
        r matches Ok((made, event)) ==> (made.last_event_id == Some(event.event_id)),
        r matches Ok((made, event)) ==> (made.correlation_id == cmd.tenant.correlation_id),
        r matches Ok((made, event)) ==> (event.chat_group_message_remove_id == (ChatGroupMessageRemoveId { school_id: cmd.tenant.school_id, value: event.event_id.value })),
        r matches Ok((made, event)) ==> (event.user_id == cmd.user_id),
        r matches Ok((made, event)) ==> (event.correlation_id == cmd.tenant.correlation_id),
{
    let now = clock.now();
    let event_id = ids.next_event_id();
    remove_group_message_for_user_at(cmd, now, event_id)
}

// =============================================================================
// Chat block service
// =============================================================================

/// The change of [`block_user`] made at time `now` under event id
/// `event_id`.
pub fn block_user_at(
    cmd: BlockUserCommand,
    now: Timestamp,
    event_id: EventId,
) -> (r: Result<(ChatBlockUser, UserBlocked), DomainError>)
    ensures
        r is Ok,
        r matches Ok((made, event)) ==> (made.school_id == cmd.tenant.school_id),
        r matches Ok((made, event)) ==> (made.id == (ChatBlockUserId { school_id: cmd.tenant.school_id, value: event_id.value })),
        r matches Ok((made, event)) ==> (made.block_by == cmd.tenant.actor_id),
        r matches Ok((made, event)) ==> (made.block_to == cmd.block_to),
        r matches Ok((made, event)) ==> (made.blocked_at == now),
        r matches Ok((made, event)) ==> (made.version == (Version { value: 1 })),
        r matches Ok((made, event)) ==> (made.etag == (Etag { value: 0 })),
        r matches Ok((made, event)) ==> (made.created_at == now),
        r matches Ok((made, event)) ==> (made.updated_at == now),
        r matches Ok((made, event)) ==> (made.created_by == cmd.tenant.actor_id),
        r matches Ok((made, event)) ==> (made.updated_by == cmd.tenant.actor_id),
        r matches Ok((made, event)) ==> (made.active_status == ActiveStatus::Active),
        r matches Ok((made, event)) ==> (made.last_event_id == Some(event_id)),
        r matches Ok((made, event)) ==> (made.correlation_id == cmd.tenant.correlation_id),
        r matches Ok((made, event)) ==> (event.school_id == cmd.tenant.school_id),
        r matches Ok((made, event)) ==> (event.block_by == cmd.tenant.actor_id),
        r matches Ok((made, event)) ==> (event.block_to == cmd.block_to),
        r matches Ok((made, event)) ==> (event.blocked_at == now),
        r matches Ok((made, event)) ==> (event.event_id == event_id),
        r matches Ok((made, event)) ==> (event.correlation_id == cmd.tenant.correlation_id),
        r matches Ok((made, event)) ==> (event.occurred_at == now),
{
    let school = cmd.tenant.school_id;
    let id = ChatBlockUserId::new(school, event_id.as_uuid());
    let mut b = ChatBlockUser::fresh(
        id,
        cmd.tenant.actor_id,
        cmd.block_to,
        now,
        cmd.tenant.correlation_id,
    );
    b.last_event_id = Some(event_id);
    let blocked_at = now;
    let event = UserBlocked::new(
        cmd.tenant.school_id,
        cmd.tenant.actor_id,
        cmd.block_to,
        blocked_at,
        event_id,
        cmd.tenant.correlation_id,
        now,
    );
    Ok((b, event))
}

/// Blocks a user and emits a [`UserBlocked`] event.
pub fn block_user<C: Clock, G: IdGenerator>(
    cmd: BlockUserCommand,
    clock: &C,
    ids: &G,
) -> (r: Result<(ChatBlockUser, UserBlocked), DomainError>)
    ensures
        r is Ok,
        r matches Ok((made, event)) ==> (made.school_id == cmd.tenant.school_id),
        r matches Ok((made, event)) ==> (made.id == (ChatBlockUserId { school_id: cmd.tenant.school_id, value: event.event_id.value })),
        r matches Ok((made, event)) ==> (made.block_by == cmd.tenant.actor_id),
        r matches Ok((made, event)) ==> (made.block_to == cmd.block_to),
        r matches Ok((made, event)) ==> (made.blocked_at == event.occurred_at),
        r matches Ok((made, event)) ==> (made.version == (Version { value: 1 })),
        r matches Ok((made, event)) ==> (made.etag == (Etag { value: 0 })),
        r matches Ok((made, event)) ==> (made.created_at == event.occurred_at),
        r matches Ok((made, event)) ==> (made.updated_at == event.occurred_at),
        r matches Ok((made, event)) ==> (made.created_by == cmd.tenant.actor_id),
        r matches Ok((made, event)) ==> (made.updated_by == cmd.tenant.actor_id),
        r matches Ok((made, event)) ==> (made.active_status == ActiveStatus::Active),
        r matches Ok((made, event)) ==> (made.last_event_id == Some(event.event_id)),
        r matches Ok((made, event)) ==> (made.correlation_id == cmd.tenant.correlation_id),
        r matches Ok((made, event)) ==> (event.school_id == cmd.tenant.school_id),
        r matches Ok((made, event)) ==> (event.block_by == cmd.tenant.actor_id),
        r matches Ok((made, event)) ==> (event.block_to == cmd.block_to),
        r matches Ok((made, event)) ==> (event.blocked_at == event.occurred_at),
        r matches Ok((made, event)) ==> (event.correlation_id == cmd.tenant.correlation_id),
{
    let now = clock.now();
    let event_id = ids.next_event_id();
    block_user_at(cmd, now, event_id)
}

/// The change of [`unblock_user`] made at time `now` under event id
/// `event_id`.
pub fn unblock_user_at(
    cmd: UnblockUserCommand,
    now: Timestamp,
    event_id: EventId,
    b: &mut ChatBlockUser,
) -> (r: Result<UserUnblocked, DomainError>)
    ensures
        r is Ok,
        r matches Ok(event) ==> (event.school_id == cmd.tenant.school_id),
        r matches Ok(event) ==> (event.block_by == old(b).block_by),
        r matches Ok(event) ==> (event.block_to == old(b).block_to),
        r matches Ok(event) ==> (event.event_id == event_id),
        r matches Ok(event) ==> (event.correlation_id == cmd.tenant.correlation_id),
        r matches Ok(event) ==> (event.occurred_at == now),
        r matches Ok(event) ==> (*final(b) == (ChatBlockUser { active_status: ActiveStatus::Retired, updated_at: now, updated_by: cmd.tenant.actor_id, version: old(b).version.bumped(), last_event_id: Some(event_id), ..*old(b) })),
{
    b.mark_unblocked(cmd.tenant.actor_id, now, event_id);
    Ok(UserUnblocked::new(
        cmd.tenant.school_id,
        b.block_by,
        b.block_to,
        event_id,
        cmd.tenant.correlation_id,
        now,
    ))
}

/// Unblocks a user and emits a [`UserUnblocked`] event.
pub fn unblock_user<C: Clock, G: IdGenerator>(
    cmd: UnblockUserCommand,
    clock: &C,
    ids: &G,
    b: &mut ChatBlockUser,
) -> (r: Result<UserUnblocked, DomainError>)
    ensures
        r is Ok,
        r matches Ok(event) ==> (event.school_id == cmd.tenant.school_id),
        r matches Ok(event) ==> (event.block_by == old(b).block_by),
        r matches Ok(event) ==> (event.block_to == old(b).block_to),
        r matches Ok(event) ==> (event.correlation_id == cmd.tenant.correlation_id),
        r matches Ok(event) ==> (*final(b) == (ChatBlockUser { active_status: ActiveStatus::Retired, updated_at: event.occurred_at, updated_by: cmd.tenant.actor_id, version: old(b).version.bumped(), last_event_id: Some(event.event_id), ..*old(b) })),
{
    let now = clock.now();
    let event_id = ids.next_event_id();
    unblock_user_at(cmd, now, event_id, b)
}

// =============================================================================
// Chat invitation service
// =============================================================================

/// The change of [`send_chat_invitation`] made at time `now` under event id
/// `event_id`.
pub fn send_chat_invitation_at(
    cmd: SendChatInvitationCommand,
    now: Timestamp,
    event_id: EventId,
) -> (r: Result<(ChatInvitation, ChatInvitationSent), DomainError>)
    ensures
        r is Ok,
        r matches Ok((made, event)) ==> (made.school_id == cmd.tenant.school_id),
        r matches Ok((made, event)) ==> (made.id == (ChatInvitationId { school_id: cmd.tenant.school_id, value: event_id.value })),
        r matches Ok((made, event)) ==> (made.from == cmd.tenant.actor_id),
        r matches Ok((made, event)) ==> (made.to == cmd.to),
        r matches Ok((made, event)) ==> (made.invitation_type == cmd.invitation_type),
        r matches Ok((made, event)) ==> (made.status == ChatInvitationStatus::Pending),
        r matches Ok((made, event)) ==> (made.section_id == cmd.section_id),
        r matches Ok((made, event)) ==> (made.class_teacher_id == cmd.class_teacher_id),
        r matches Ok((made, event)) ==> (made.sent_at == now),
        r matches Ok((made, event)) ==> (made.responded_at.is_none()),
        r matches Ok((made, event)) ==> (made.version == (Version { value: 1 })),
        r matches Ok((made, event)) ==> (made.etag == (Etag { value: 0 })),
        r matches Ok((made, event)) ==> (made.created_at == now),
        r matches Ok((made, event)) ==> (made.updated_at == now),
        r matches Ok((made, event)) ==> (made.created_by == cmd.tenant.actor_id),
        r matches Ok((made, event)) ==> (made.updated_by == cmd.tenant.actor_id),
        r matches Ok((made, event)) ==> (made.active_status == ActiveStatus::Active),
        r matches Ok((made, event)) ==> (made.last_event_id == Some(event_id)),
        r matches Ok((made, event)) ==> (made.correlation_id == cmd.tenant.correlation_id),
        r matches Ok((made, event)) ==> (event.chat_invitation_id == (ChatInvitationId { school_id: cmd.tenant.school_id, value: event_id.value })),
        r matches Ok((made, event)) ==> (event.from == cmd.tenant.actor_id),
        r matches Ok((made, event)) ==> (event.to == cmd.to),
        r matches Ok((made, event)) ==> (event.invitation_type == cmd.invitation_type),
        r matches Ok((made, event)) ==> (event.event_id == event_id),
        r matches Ok((made, event)) ==> (event.correlation_id == cmd.tenant.correlation_id),
        r matches Ok((made, event)) ==> (event.occurred_at == now),
{
    let school = cmd.tenant.school_id;
    let id = ChatInvitationId::new(school, event_id.as_uuid());
    let mut inv = ChatInvitation::fresh(
        id,
        cmd.tenant.actor_id,
        cmd.to,
        cmd.invitation_type,
        cmd.section_id,
        cmd.class_teacher_id,
        cmd.tenant.actor_id,
        now,
        cmd.tenant.correlation_id,
    );
    inv.last_event_id = Some(event_id);
    let event = ChatInvitationSent::new(
        id,
        cmd.tenant.actor_id,
        cmd.to,
        cmd.invitation_type,
        event_id,
        cmd.tenant.correlation_id,
        now,
    );
    Ok((inv, event))
}

/// Sends a [`ChatInvitation`] and emits a [`ChatInvitationSent`]
/// event.
pub fn send_chat_invitation<C: Clock, G: IdGenerator>(
    cmd: SendChatInvitationCommand,
    clock: &C,
    ids: &G,
) -> (r: Result<(ChatInvitation, ChatInvitationSent), DomainError>)
    ensures
        r is Ok,
        r matches Ok((made, event)) ==> (made.school_id == cmd.tenant.school_id),
        r matches Ok((made, event)) ==> (made.id == (ChatInvitationId { school_id: cmd.tenant.school_id, value: event.event_id.value })),
        r matches Ok((made, event)) ==> (made.from == cmd.tenant.actor_id),
        r matches Ok((made, event)) ==> (made.to == cmd.to),
        r matches Ok((made, event)) ==> (made.invitation_type == cmd.invitation_type),
        r matches Ok((made, event)) ==> (made.status == ChatInvitationStatus::Pending),
        r matches Ok((made, event)) ==> (made.section_id == cmd.section_id),
        r matches Ok((made, event)) ==> (made.class_teacher_id == cmd.class_teacher_id),
        r matches Ok((made, event)) ==> (made.sent_at == event.occurred_at),
        r matches Ok((made, event)) ==> (made.responded_at.is_none()),
        r matches Ok((made, event)) ==> (made.version == (Version { value: 1 })),
        r matches Ok((made, event)) ==> (made.etag == (Etag { value: 0 })),
        r matches Ok((made, event)) ==> (made.created_at == event.occurred_at),
        r matches Ok((made, event)) ==> (made.updated_at == event.occurred_at),
        r matches Ok((made, event)) ==> (made.created_by == cmd.tenant.actor_id),
        r matches Ok((made, event)) ==> (made.updated_by == cmd.tenant.actor_id),
        r matches Ok((made, event)) ==> (made.active_status == ActiveStatus::Active),
        r matches Ok((made, event)) ==> (made.last_event_id == Some(event.event_id)),
        r matches Ok((made, event)) ==> (made.correlation_id == cmd.tenant.correlation_id),
        r matches Ok((made, event)) ==> (event.chat_invitation_id == (ChatInvitationId { school_id: cmd.tenant.school_id, value: event.event_id.value })),
        r matches Ok((made, event)) ==> (event.from == cmd.tenant.actor_id),
        r matches Ok((made, event)) ==> (event.to == cmd.to),
        r matches Ok((made, event)) ==> (event.invitation_type == cmd.invitation_type),
        r matches Ok((made, event)) ==> (event.correlation_id == cmd.tenant.correlation_id),
{
    let now = clock.now();
    let event_id = ids.next_event_id();
    send_chat_invitation_at(cmd, now, event_id)
}

/// The change of [`accept_chat_invitation`] made at time `now` under event id
/// `event_id`.
pub fn accept_chat_invitation_at(
    cmd: AcceptChatInvitationCommand,
    now: Timestamp,
    event_id: EventId,
    inv: &mut ChatInvitation,
) -> (r: Result<ChatInvitationAccepted, DomainError>)
    ensures
        r is Ok,
        r matches Ok(event) ==> (event.chat_invitation_id == old(inv).id),
        r matches Ok(event) ==> (event.accepted_by == cmd.tenant.actor_id),
        r matches Ok(event) ==> (event.event_id == event_id),
        r matches Ok(event) ==> (event.correlation_id == cmd.tenant.correlation_id),
        r matches Ok(event) ==> (event.occurred_at == now),
        r matches Ok(event) ==> (*final(inv) == (ChatInvitation { status: ChatInvitationStatus::Connected, responded_at: Some(now), updated_at: now, updated_by: cmd.tenant.actor_id, version: old(inv).version.bumped(), last_event_id: Some(event_id), ..*old(inv) })),
{
    inv.accept(cmd.tenant.actor_id, now, event_id);
    Ok(ChatInvitationAccepted::new(
        inv.id,
        cmd.tenant.actor_id,
        event_id,
        cmd.tenant.correlation_id,
        now,
    ))
}

/// Accepts a [`ChatInvitation`] and emits a
/// [`ChatInvitationAccepted`] event.
pub fn accept_chat_invitation<C: Clock, G: IdGenerator>(
    cmd: AcceptChatInvitationCommand,
    clock: &C,
    ids: &G,
    inv: &mut ChatInvitation,
) -> (r: Result<ChatInvitationAccepted, DomainError>)
    ensures
        r is Ok,
        r matches Ok(event) ==> (event.chat_invitation_id == old(inv).id),
        r matches Ok(event) ==> (event.accepted_by == cmd.tenant.actor_id),
        r matches Ok(event) ==> (event.correlation_id == cmd.tenant.correlation_id),
        r matches Ok(event) ==> (*final(inv) == (ChatInvitation { status: ChatInvitationStatus::Connected, responded_at: Some(event.occurred_at), updated_at: event.occurred_at, updated_by: cmd.tenant.actor_id, version: old(inv).version.bumped(), last_event_id: Some(event.event_id), ..*old(inv) })),
{
    let now = clock.now();
    let event_id = ids.next_event_id();
    accept_chat_invitation_at(cmd, now, event_id, inv)
}

/// The change of [`reject_chat_invitation`] made at time `now` under event id
/// `event_id`.
pub fn reject_chat_invitation_at(
    cmd: RejectChatInvitationCommand,
    now: Timestamp,
    event_id: EventId,
    inv: &mut ChatInvitation,
) -> (r: Result<ChatInvitationRejected, DomainError>)
    ensures
        r is Ok,
        r matches Ok(event) ==> (event.chat_invitation_id == old(inv).id),
        r matches Ok(event) ==> (event.rejected_by == cmd.tenant.actor_id),
        r matches Ok(event) ==> (event.event_id == event_id),
        r matches Ok(event) ==> (event.correlation_id == cmd.tenant.correlation_id),
        r matches Ok(event) ==> (event.occurred_at == now),
        r matches Ok(event) ==> (*final(inv) == (ChatInvitation { status: ChatInvitationStatus::Blocked, responded_at: Some(now), updated_at: now, updated_by: cmd.tenant.actor_id, version: old(inv).version.bumped(), last_event_id: Some(event_id), ..*old(inv) })),
{
    inv.reject(cmd.tenant.actor_id, now, event_id);
    Ok(ChatInvitationRejected::new(
        inv.id,
        cmd.tenant.actor_id,
        event_id,
        cmd.tenant.correlation_id,
        now,
    ))
}

/// Rejects a [`ChatInvitation`] and emits a
/// [`ChatInvitationRejected`] event.
pub fn reject_chat_invitation<C: Clock, G: IdGenerator>(
    cmd: RejectChatInvitationCommand,
    clock: &C,
    ids: &G,
    inv: &mut ChatInvitation,
) -> (r: Result<ChatInvitationRejected, DomainError>)
    ensures
        r is Ok,
        r matches Ok(event) ==> (event.chat_invitation_id == old(inv).id),
        r matches Ok(event) ==> (event.rejected_by == cmd.tenant.actor_id),
        r matches Ok(event) ==> (event.correlation_id == cmd.tenant.correlation_id),
        r matches Ok(event) ==> (*final(inv) == (ChatInvitation { status: ChatInvitationStatus::Blocked, responded_at: Some(event.occurred_at), updated_at: event.occurred_at, updated_by: cmd.tenant.actor_id, version: old(inv).version.bumped(), last_event_id: Some(event.event_id), ..*old(inv) })),
{
    let now = clock.now();
    let event_id = ids.next_event_id();
    reject_chat_invitation_at(cmd, now, event_id, inv)
}

/// The change of [`classify_chat_invitation`] made at time `now` under event id
/// `event_id`.
pub fn classify_chat_invitation_at(
    cmd: ClassifyChatInvitationCommand,
    now: Timestamp,
    event_id: EventId,
) -> (r: Result<(ChatInvitationType, ChatInvitationClassified), DomainError>)
    ensures
        r is Ok,
        r matches Ok((made, event)) ==> (made.school_id == cmd.tenant.school_id),
        r matches Ok((made, event)) ==> (made.id == (ChatInvitationTypeId { school_id: cmd.tenant.school_id, value: event_id.value })),
        r matches Ok((made, event)) ==> (made.invitation_id == cmd.invitation_id),
        r matches Ok((made, event)) ==> (made.invitation_type == cmd.invitation_type),
        r matches Ok((made, event)) ==> (made.section_id == cmd.section_id),
        r matches Ok((made, event)) ==> (made.class_teacher_id == cmd.class_teacher_id),
        r matches Ok((made, event)) ==> (made.version == (Version { value: 1 })),
        r matches Ok((made, event)) ==> (made.etag == (Etag { value: 0 })),
        r matches Ok((made, event)) ==> (made.created_at == now),
        r matches Ok((made, event)) ==> (made.updated_at == now),
        r matches Ok((made, event)) ==> (made.created_by == cmd.tenant.actor_id),
        r matches Ok((made, event)) ==> (made.updated_by == cmd.tenant.actor_id),
        r matches Ok((made, event)) ==> (made.active_status == ActiveStatus::Active),
        r matches Ok((made, event)) ==> (made.last_event_id == Some(event_id)),
        r matches Ok((made, event)) ==> (made.correlation_id == cmd.tenant.correlation_id),
        r matches Ok((made, event)) ==> (event.chat_invitation_type_id == (ChatInvitationTypeId { school_id: cmd.tenant.school_id, value: event_id.value })),
        r matches Ok((made, event)) ==> (event.invitation_id == cmd.invitation_id),
        r matches Ok((made, event)) ==> (event.invitation_type == cmd.invitation_type),
        r matches Ok((made, event)) ==> (event.event_id == event_id),
        r matches Ok((made, event)) ==> (event.correlation_id == cmd.tenant.correlation_id),
        r matches Ok((made, event)) ==> (event.occurred_at == now),
{
    let school = cmd.tenant.school_id;
    let id = ChatInvitationTypeId::new(school, event_id.as_uuid());
    let mut cit = ChatInvitationType::fresh(
        id,
        cmd.invitation_id,
        cmd.invitation_type,
        cmd.section_id,
        cmd.class_teacher_id,
        cmd.tenant.actor_id,
        now,
        cmd.tenant.correlation_id,
    );
    cit.last_event_id = Some(event_id);
    let event = ChatInvitationClassified::new(
        id,
        cmd.invitation_id,
        cmd.invitation_type,
        event_id,
        cmd.tenant.correlation_id,
        now,
    );
    Ok((cit, event))
}

/// Classifies a [`ChatInvitation`] and emits a
/// [`ChatInvitationClassified`] event.
pub fn classify_chat_invitation<C: Clock, G: IdGenerator>(
    cmd: ClassifyChatInvitationCommand,
    clock: &C,
    ids: &G,
) -> (r: Result<(ChatInvitationType, ChatInvitationClassified), DomainError>)
    ensures
        r is Ok,
        r matches Ok((made, event)) ==> (made.school_id == cmd.tenant.school_id),
        r matches Ok((made, event)) ==> (made.id == (ChatInvitationTypeId { school_id: cmd.tenant.school_id, value: event.event_id.value })),
        r matches Ok((made, event)) ==> (made.invitation_id == cmd.invitation_id),
        r matches Ok((made, event)) ==> (made.invitation_type == cmd.invitation_type),
        r matches Ok((made, event)) ==> (made.section_id == cmd.section_id),
        r matches Ok((made, event)) ==> (made.class_teacher_id == cmd.class_teacher_id),
        r matches Ok((made, event)) ==> (made.version == (Version { value: 1 })),
        r matches Ok((made, event)) ==> (made.etag == (Etag { value: 0 })),
        r matches Ok((made, event)) ==> (made.created_at == event.occurred_at),
        r matches Ok((made, event)) ==> (made.updated_at == event.occurred_at),
        r matches Ok((made, event)) ==> (made.created_by == cmd.tenant.actor_id),
        r matches Ok((made, event)) ==> (made.updated_by == cmd.tenant.actor_id),
        r matches Ok((made, event)) ==> (made.active_status == ActiveStatus::Active),
        r matches Ok((made, event)) ==> (made.last_event_id == Some(event.event_id)),
        r matches Ok((made, event)) ==> (made.correlation_id == cmd.tenant.correlation_id),
        r matches Ok((made, event)) ==> (event.chat_invitation_type_id == (ChatInvitationTypeId { school_id: cmd.tenant.school_id, value: event.event_id.value })),
        r matches Ok((made, event)) ==> (event.invitation_id == cmd.invitation_id),
        r matches Ok((made, event)) ==> (event.invitation_type == cmd.invitation_type),
        r matches Ok((made, event)) ==> (event.correlation_id == cmd.tenant.correlation_id),
{
    let now = clock.now();
    let event_id = ids.next_event_id();
    classify_chat_invitation_at(cmd, now, event_id)
}

// =============================================================================
// Chat status service
// =============================================================================

/// The change of [`set_chat_status`] made at time `now` under event id
/// `event_id`.
pub fn set_chat_status_at(
    cmd: SetChatStatusCommand,
    now: Timestamp,
    event_id: EventId,
) -> (r: Result<ChatStatusSet, DomainError>)
    ensures
        r is Ok,
        r matches Ok(event) ==> (event.school_id == cmd.tenant.school_id),
        r matches Ok(event) ==> (event.user_id == cmd.tenant.actor_id),
        r matches Ok(event) ==> (event.status == cmd.status),
        r matches Ok(event) ==> (event.set_at == now),
        r matches Ok(event) ==> (event.event_id == event_id),
        r matches Ok(event) ==> (event.correlation_id == cmd.tenant.correlation_id),
        r matches Ok(event) ==> (event.occurred_at == now),
{
    let set_at = now;
    let event = ChatStatusSet::new(
        cmd.tenant.school_id,
        cmd.tenant.actor_id,
        cmd.status,
        set_at,
        event_id,
        cmd.tenant.correlation_id,
        now,
    );
    Ok(event)
}

/// Sets a [`ChatStatus`] and emits a [`ChatStatusSet`] event.
pub fn set_chat_status<C: Clock, G: IdGenerator>(
    cmd: SetChatStatusCommand,
    clock: &C,
    ids: &G,
) -> (r: Result<ChatStatusSet, DomainError>)
    ensures
        r is Ok,
        r matches Ok(event) ==> (event.school_id == cmd.tenant.school_id),
        r matches Ok(event) ==> (event.user_id == cmd.tenant.actor_id),
        r matches Ok(event) ==> (event.status == cmd.status),
        r matches Ok(event) ==> (event.set_at == event.occurred_at),
        r matches Ok(event) ==> (event.correlation_id == cmd.tenant.correlation_id),
{
    let now = clock.now();
    let event_id = ids.next_event_id();
    set_chat_status_at(cmd, now, event_id)
}

// =============================================================================
// SendMessage service
// =============================================================================

/// The change of [`create_send_message`] made at time `now` under event id
/// `event_id`.
pub fn create_send_message_at(
    cmd: CreateSendMessageCommand,
    now: Timestamp,
    event_id: EventId,
) -> (r: Result<(SendMessage, SendMessageCreated), DomainError>)
    ensures
        r is Ok,
        r matches Ok((made, event)) ==> (made.school_id == cmd.tenant.school_id),
        r matches Ok((made, event)) ==> (made.id == (SendMessageId { school_id: cmd.tenant.school_id, value: event_id.value })),
        r matches Ok((made, event)) ==> (made.message_title == cmd.message_title),
        r matches Ok((made, event)) ==> (made.message_body == cmd.message_body),
        r matches Ok((made, event)) ==> (made.notice_date == cmd.notice_date),
        r matches Ok((made, event)) ==> (made.publish_on == cmd.publish_on),
        r matches Ok((made, event)) ==> (made.message_to@ == cmd.message_to@),
        r matches Ok((made, event)) ==> (made.audience@ == audience_users(cmd.message_to@)),
        r matches Ok((made, event)) ==> (made.status == SendMessageStatus::Draft),
        r matches Ok((made, event)) ==> (made.recipient_count.is_none()),
        r matches Ok((made, event)) ==> (made.dispatched_at.is_none()),
        r matches Ok((made, event)) ==> (made.cancelled_reason.is_none()),
        r matches Ok((made, event)) ==> (made.version == (Version { value: 1 })),
        r matches Ok((made, event)) ==> (made.etag == (Etag { value: 0 })),
        r matches Ok((made, event)) ==> (made.created_at == now),
        r matches Ok((made, event)) ==> (made.updated_at == now),
        r matches Ok((made, event)) ==> (made.created_by == cmd.tenant.actor_id),
        r matches Ok((made, event)) ==> (made.updated_by == cmd.tenant.actor_id),
        r matches Ok((made, event)) ==> (made.active_status == ActiveStatus::Active),
        r matches Ok((made, event)) ==> (made.last_event_id == Some(event_id)),
        r matches Ok((made, event)) ==> (made.correlation_id == cmd.tenant.correlation_id),
        r matches Ok((made, event)) ==> (event.send_message_id == (SendMessageId { school_id: cmd.tenant.school_id, value: event_id.value })),
        r matches Ok((made, event)) ==> (event.audience == cmd.message_to),
        r matches Ok((made, event)) ==> (event.publish_on == cmd.publish_on),
        r matches Ok((made, event)) ==> (event.event_id == event_id),
        r matches Ok((made, event)) ==> (event.correlation_id == cmd.tenant.correlation_id),
        r matches Ok((made, event)) ==> (event.occurred_at == now),
{
    let school = cmd.tenant.school_id;
    let id = SendMessageId::new(school, event_id.as_uuid());
    let mut sm = SendMessage::fresh(
        id,
        cmd.message_title,
        cmd.message_body,
        cmd.notice_date,
        cmd.publish_on,
        cmd.message_to.clone(),
        cmd.tenant.actor_id,
        now,
        cmd.tenant.correlation_id,
    );
    sm.last_event_id = Some(event_id);
    let event = SendMessageCreated::new(
        id,
        cmd.message_to,
        cmd.publish_on,
        event_id,
        cmd.tenant.correlation_id,
        now,
    );
    Ok((sm, event))
}

/// Creates a new [`SendMessage`] aggregate + a
/// [`SendMessageCreated`] event.
pub fn create_send_message<C: Clock, G: IdGenerator>(
    cmd: CreateSendMessageCommand,
    clock: &C,
    ids: &G,
) -> (r: Result<(SendMessage, SendMessageCreated), DomainError>)
    ensures
        r is Ok,
        r matches Ok((made, event)) ==> (made.school_id == cmd.tenant.school_id),
        r matches Ok((made, event)) ==> (made.id == (SendMessageId { school_id: cmd.tenant.school_id, value: event.event_id.value })),
        r matches Ok((made, event)) ==> (made.message_title == cmd.message_title),
        r matches Ok((made, event)) ==> (made.message_body == cmd.message_body),
        r matches Ok((made, event)) ==> (made.notice_date == cmd.notice_date),
        r matches Ok((made, event)) ==> (made.publish_on == cmd.publish_on),
        r matches Ok((made, event)) ==> (made.message_to@ == cmd.message_to@),
        r matches Ok((made, event)) ==> (made.audience@ == audience_users(cmd.message_to@)),
        r matches Ok((made, event)) ==> (made.status == SendMessageStatus::Draft),
        r matches Ok((made, event)) ==> (made.recipient_count.is_none()),
        r matches Ok((made, event)) ==> (made.dispatched_at.is_none()),
        r matches Ok((made, event)) ==> (made.cancelled_reason.is_none()),
        r matches Ok((made, event)) ==> (made.version == (Version { value: 1 })),
        r matches Ok((made, event)) ==> (made.etag == (Etag { value: 0 })),
        r matches Ok((made, event)) ==> (made.created_at == event.occurred_at),
        r matches Ok((made, event)) ==> (made.updated_at == event.occurred_at),
        r matches Ok((made, event)) ==> (made.created_by == cmd.tenant.actor_id),
        r matches Ok((made, event)) ==> (made.updated_by == cmd.tenant.actor_id),
        r matches Ok((made, event)) ==> (made.active_status == ActiveStatus::Active),
        r matches Ok((made, event)) ==> (made.last_event_id == Some(event.event_id)),
        r matches Ok((made, event)) ==> (made.correlation_id == cmd.tenant.correlation_id),
        r matches Ok((made, event)) ==> (event.send_message_id == (SendMessageId { school_id: cmd.tenant.school_id, value: event.event_id.value })),
        r matches Ok((made, event)) ==> (event.audience == cmd.message_to),
        r matches Ok((made, event)) ==> (event.publish_on == cmd.publish_on),
        r matches Ok((made, event)) ==> (event.correlation_id == cmd.tenant.correlation_id),
{
    let now = clock.now();
    let event_id = ids.next_event_id();
    create_send_message_at(cmd, now, event_id)
}

/// The change of [`dispatch_send_message`] made at time `now` under event id
/// `event_id`.
pub fn dispatch_send_message_at(
    cmd: DispatchSendMessageCommand,
    now: Timestamp,
    event_id: EventId,
    sm: &mut SendMessage,
) -> (r: Result<SendMessageDispatched, DomainError>)
    ensures
        r is Ok,
        r matches Ok(event) ==> (event.send_message_id == old(sm).id),
        r matches Ok(event) ==> (event.recipient_count == recipient_count_of(old(sm).audience@.len())),
        r matches Ok(event) ==> (event.dispatched_at == now),
        r matches Ok(event) ==> (event.event_id == event_id),
        r matches Ok(event) ==> (event.correlation_id == cmd.tenant.correlation_id),
        r matches Ok(event) ==> (event.occurred_at == now),
        r matches Ok(event) ==> (*final(sm) == (SendMessage { status: SendMessageStatus::Dispatched, recipient_count: Some(recipient_count_of(old(sm).audience@.len())), dispatched_at: Some(now), updated_at: now, updated_by: cmd.tenant.actor_id, version: old(sm).version.bumped(), last_event_id: Some(event_id), ..*old(sm) })),
{
    let recipient_count = sm.dispatch(cmd.tenant.actor_id, now, event_id);
    Ok(SendMessageDispatched::new(
        sm.id,
        recipient_count,
        now,
        event_id,
        cmd.tenant.correlation_id,
        now,
    ))
}

/// Dispatches a [`SendMessage`] and emits a
/// [`SendMessageDispatched`] event.
pub fn dispatch_send_message<C: Clock, G: IdGenerator>(
    cmd: DispatchSendMessageCommand,
    clock: &C,
    ids: &G,
    sm: &mut SendMessage,
) -> (r: Result<SendMessageDispatched, DomainError>)
    ensures
        r is Ok,
        r matches Ok(event) ==> (event.send_message_id == old(sm).id),
        r matches Ok(event) ==> (event.recipient_count == recipient_count_of(old(sm).audience@.len())),
        r matches Ok(event) ==> (event.dispatched_at == event.occurred_at),
        r matches Ok(event) ==> (event.correlation_id == cmd.tenant.correlation_id),
        r matches Ok(event) ==> (*final(sm) == (SendMessage { status: SendMessageStatus::Dispatched, recipient_count: Some(recipient_count_of(old(sm).audience@.len())), dispatched_at: Some(event.occurred_at), updated_at: event.occurred_at, updated_by: cmd.tenant.actor_id, version: old(sm).version.bumped(), last_event_id: Some(event.event_id), ..*old(sm) })),
{
    let now = clock.now();
    let event_id = ids.next_event_id();
    dispatch_send_message_at(cmd, now, event_id, sm)
}

/// The change of [`cancel_send_message`] made at time `now` under event id
/// `event_id`.
pub fn cancel_send_message_at(
    cmd: CancelSendMessageCommand,
    now: Timestamp,
    event_id: EventId,
    sm: &mut SendMessage,
) -> (r: Result<SendMessageCancelled, DomainError>)
    ensures
        r is Ok,
        r matches Ok(event) ==> (event.send_message_id == old(sm).id),
        r matches Ok(event) ==> (event.reason@ == (match cmd.reason { Some(t) => t@, None => Seq::<char>::empty() })),
        r matches Ok(event) ==> (event.event_id == event_id),
        r matches Ok(event) ==> (event.correlation_id == cmd.tenant.correlation_id),
        r matches Ok(event) ==> (event.occurred_at == now),
        r matches Ok(event) ==> (*final(sm) == (SendMessage { status: SendMessageStatus::Cancelled, cancelled_reason: final(sm).cancelled_reason, updated_at: now, updated_by: cmd.tenant.actor_id, version: old(sm).version.bumped(), last_event_id: Some(event_id), ..*old(sm) })),
        r matches Ok(event) ==> (final(sm).cancelled_reason.deep_view() == cmd.reason.deep_view()),
{
    sm.cancel(cmd.reason.clone(), cmd.tenant.actor_id, now, event_id);
    Ok(SendMessageCancelled::new(
        sm.id,
        match cmd.reason {
            Some(t) => t,
            None => String::new(),
        },
        event_id,
        cmd.tenant.correlation_id,
        now,
    ))
}

/// Cancels a [`SendMessage`] and emits a
/// [`SendMessageCancelled`] event.
pub fn cancel_send_message<C: Clock, G: IdGenerator>(
    cmd: CancelSendMessageCommand,
    clock: &C,
    ids: &G,
    sm: &mut SendMessage,
) -> (r: Result<SendMessageCancelled, DomainError>)
    ensures
        r is Ok,
        r matches Ok(event) ==> (event.send_message_id == old(sm).id),
        r matches Ok(event) ==> (event.reason@ == (match cmd.reason { Some(t) => t@, None => Seq::<char>::empty() })),
        r matches Ok(event) ==> (event.correlation_id == cmd.tenant.correlation_id),
        r matches Ok(event) ==> (*final(sm) == (SendMessage { status: SendMessageStatus::Cancelled, cancelled_reason: final(sm).cancelled_reason, updated_at: event.occurred_at, updated_by: cmd.tenant.actor_id, version: old(sm).version.bumped(), last_event_id: Some(event.event_id), ..*old(sm) })),
        r matches Ok(event) ==> (final(sm).cancelled_reason.deep_view() == cmd.reason.deep_view()),
{
    let now = clock.now();
    let event_id = ids.next_event_id();
    cancel_send_message_at(cmd, now, event_id, sm)
}

// =============================================================================
// ContactMessage service
// =============================================================================

/// The change of [`receive_contact_message`] made at time `now` under event id
/// `event_id`.
pub fn receive_contact_message_at(
    cmd: ReceiveContactMessageCommand,
    now: Timestamp,
    event_id: EventId,
) -> (r: Result<(ContactMessage, ContactMessageReceived), DomainError>)
    ensures
        r is Ok <==> (cmd.email is Some && cmd.phone is Some),
        r matches Err(e) ==> (e is Validation),
        r matches Ok((made, event)) ==> (made.school_id == cmd.tenant.school_id),
        r matches Ok((made, event)) ==> (made.id == (ContactMessageId { school_id: cmd.tenant.school_id, value: event_id.value })),
        r matches Ok((made, event)) ==> (made.name == cmd.name),
        r matches Ok((made, event)) ==> (made.phone == cmd.phone),
        r matches Ok((made, event)) ==> (made.email == cmd.email),
        r matches Ok((made, event)) ==> (made.subject@ == cmd.subject@),
        r matches Ok((made, event)) ==> (made.message == cmd.message),
        r matches Ok((made, event)) ==> (made.view_status == ContactMessageViewStatus::Unviewed),
        r matches Ok((made, event)) ==> (made.reply_status == ContactMessageReplyStatus::Unreplied),
        r matches Ok((made, event)) ==> (made.viewed_by.is_none()),
        r matches Ok((made, event)) ==> (made.replied_by.is_none()),
        r matches Ok((made, event)) ==> (made.version == (Version { value: 1 })),
        r matches Ok((made, event)) ==> (made.etag == (Etag { value: 0 })),
        r matches Ok((made, event)) ==> (made.created_at == now),
        r matches Ok((made, event)) ==> (made.updated_at == now),
        r matches Ok((made, event)) ==> (made.created_by == cmd.tenant.actor_id),
        r matches Ok((made, event)) ==> (made.updated_by == cmd.tenant.actor_id),
        r matches Ok((made, event)) ==> (made.active_status == ActiveStatus::Active),
        r matches Ok((made, event)) ==> (made.last_event_id == Some(event_id)),
        r matches Ok((made, event)) ==> (made.correlation_id == cmd.tenant.correlation_id),
        r matches Ok((made, event)) ==> (event.contact_message_id == (ContactMessageId { school_id: cmd.tenant.school_id, value: event_id.value })),
        r matches Ok((made, event)) ==> (event.name@ == cmd.name@),
        r matches Ok((made, event)) ==> (event.email@ == cmd.email.unwrap()@),
        r matches Ok((made, event)) ==> (event.phone@ == cmd.phone.unwrap()@),
        r matches Ok((made, event)) ==> (event.subject@ == cmd.subject@),
        r matches Ok((made, event)) ==> (event.event_id == event_id),
        r matches Ok((made, event)) ==> (event.correlation_id == cmd.tenant.correlation_id),
        r matches Ok((made, event)) ==> (event.occurred_at == now),
{
    let school = cmd.tenant.school_id;
    let id = ContactMessageId::new(school, event_id.as_uuid());
    let name_for_event = cmd.name.clone();
    let email_for_event = match &cmd.email {
        Some(v) => v.clone(),
        None => {
            return Err(DomainError::validation("contact message requires an email address"));
        },
    };
    let phone_for_event = match &cmd.phone {
        Some(v) => v.clone(),
        None => {
            return Err(DomainError::validation("contact message requires a phone number"));
        },
    };
    let subject_for_event = cmd.subject.as_str().to_owned();
    let mut cm = ContactMessage::fresh(
        id,
        cmd.name,
        cmd.phone,
        cmd.email,
        subject_for_event.clone(),
        cmd.message,
        cmd.tenant.actor_id,
        now,
        cmd.tenant.correlation_id,
    );
    cm.last_event_id = Some(event_id);
    let event = ContactMessageReceived::new(
        id,
        name_for_event,
        email_for_event,
        phone_for_event,
        subject_for_event,
        event_id,
        cmd.tenant.correlation_id,
        now,
    );
    Ok((cm, event))
}

/// Receives a [`ContactMessage`] and emits a
/// [`ContactMessageReceived`] event.
pub fn receive_contact_message<C: Clock, G: IdGenerator>(
    cmd: ReceiveContactMessageCommand,
    clock: &C,
    ids: &G,
) -> (r: Result<(ContactMessage, ContactMessageReceived), DomainError>)
    ensures
        r is Ok <==> (cmd.email is Some && cmd.phone is Some),
        r matches Err(e) ==> (e is Validation),
        r matches Ok((made, event)) ==> (made.school_id == cmd.tenant.school_id),
        r matches Ok((made, event)) ==> (made.id == (ContactMessageId { school_id: cmd.tenant.school_id, value: event.event_id.value })),
        r matches Ok((made, event)) ==> (made.name == cmd.name),
        r matches Ok((made, event)) ==> (made.phone == cmd.phone),
        r matches Ok((made, event)) ==> (made.email == cmd.email),
        r matches Ok((made, event)) ==> (made.subject@ == cmd.subject@),
        r matches Ok((made, event)) ==> (made.message == cmd.message),
        r matches Ok((made, event)) ==> (made.view_status == ContactMessageViewStatus::Unviewed),
        r matches Ok((made, event)) ==> (made.reply_status == ContactMessageReplyStatus::Unreplied),
        r matches Ok((made, event)) ==> (made.viewed_by.is_none()),
        r matches Ok((made, event)) ==> (made.replied_by.is_none()),
        r matches Ok((made, event)) ==> (made.version == (Version { value: 1 })),
        r matches Ok((made, event)) ==> (made.etag == (Etag { value: 0 })),
        r matches Ok((made, event)) ==> (made.created_at == event.occurred_at),
        r matches Ok((made, event)) ==> (made.updated_at == event.occurred_at),
        r matches Ok((made, event)) ==> (made.created_by == cmd.tenant.actor_id),
        r matches Ok((made, event)) ==> (made.updated_by == cmd.tenant.actor_id),
        r matches Ok((made, event)) ==> (made.active_status == ActiveStatus::Active),
        r matches Ok((made, event)) ==> (made.last_event_id == Some(event.event_id)),
        r matches Ok((made, event)) ==> (made.correlation_id == cmd.tenant.correlation_id),
        r matches Ok((made, event)) ==> (event.contact_message_id == (ContactMessageId { school_id: cmd.tenant.school_id, value: event.event_id.value })),
        r matches Ok((made, event)) ==> (event.name@ == cmd.name@),
        r matches Ok((made, event)) ==> (event.email@ == cmd.email.unwrap()@),
        r matches Ok((made, event)) ==> (event.phone@ == cmd.phone.unwrap()@),
        r matches Ok((made, event)) ==> (event.subject@ == cmd.subject@),
        r matches Ok((made, event)) ==> (event.correlation_id == cmd.tenant.correlation_id),
{
    let now = clock.now();
    let event_id = ids.next_event_id();
    receive_contact_message_at(cmd, now, event_id)
}

/// The change of [`mark_contact_message_viewed`] made at time `now` under event id
/// `event_id`.
pub fn mark_contact_message_viewed_at(
    cmd: MarkContactMessageViewedCommand,
    now: Timestamp,
    event_id: EventId,
    cm: &mut ContactMessage,
) -> (r: Result<ContactMessageViewed, DomainError>)
    ensures
        r is Ok,
        r matches Ok(event) ==> (event.contact_message_id == old(cm).id),
        r matches Ok(event) ==> (event.viewed_by == cmd.tenant.actor_id),
        r matches Ok(event) ==> (event.event_id == event_id),
        r matches Ok(event) ==> (event.correlation_id == cmd.tenant.correlation_id),
        r matches Ok(event) ==> (event.occurred_at == now),
        r matches Ok(event) ==> (*final(cm) == (ContactMessage { view_status: ContactMessageViewStatus::Viewed, viewed_by: Some(cmd.tenant.actor_id), updated_at: now, updated_by: cmd.tenant.actor_id, version: old(cm).version.bumped(), last_event_id: Some(event_id), ..*old(cm) })),
{
    cm.mark_viewed(cmd.tenant.actor_id, now, event_id);
    Ok(ContactMessageViewed::new(
        cm.id,
        cmd.tenant.actor_id,
        event_id,
        cmd.tenant.correlation_id,
        now,
    ))
}

/// Marks a [`ContactMessage`] as viewed and emits a
/// [`ContactMessageViewed`] event.
pub fn mark_contact_message_viewed<C: Clock, G: IdGenerator>(
    cmd: MarkContactMessageViewedCommand,
    clock: &C,
    ids: &G,
    cm: &mut ContactMessage,
) -> (r: Result<ContactMessageViewed, DomainError>)
    ensures
        r is Ok,
        r matches Ok(event) ==> (event.contact_message_id == old(cm).id),
        r matches Ok(event) ==> (event.viewed_by == cmd.tenant.actor_id),
        r matches Ok(event) ==> (event.correlation_id == cmd.tenant.correlation_id),
        r matches Ok(event) ==> (*final(cm) == (ContactMessage { view_status: ContactMessageViewStatus::Viewed, viewed_by: Some(cmd.tenant.actor_id), updated_at: event.occurred_at, updated_by: cmd.tenant.actor_id, version: old(cm).version.bumped(), last_event_id: Some(event.event_id), ..*old(cm) })),
{
    let now = clock.now();
    let event_id = ids.next_event_id();
    mark_contact_message_viewed_at(cmd, now, event_id, cm)
}

/// The change of [`reply_to_contact_message`] made at time `now` under event id
/// `event_id`.
pub fn reply_to_contact_message_at(
    cmd: ReplyToContactMessageCommand,
    now: Timestamp,
    event_id: EventId,
    cm: &mut ContactMessage,
) -> (r: Result<(ContactMessageReply, ContactMessageReplied), DomainError>)
    ensures
        r is Ok,
        r matches Ok((made, event)) ==> (made.school_id == cmd.tenant.school_id),
        r matches Ok((made, event)) ==> (made.id == (ContactMessageReplyId { school_id: cmd.tenant.school_id, value: event_id.value })),
        r matches Ok((made, event)) ==> (made.contact_message_id == old(cm).id),
        r matches Ok((made, event)) ==> (made.author == cmd.tenant.actor_id),
        r matches Ok((made, event)) ==> (made.body == cmd.reply_body),
        r matches Ok((made, event)) ==> (made.channel == cmd.reply_channel),
        r matches Ok((made, event)) ==> (made.replied_at == now),
        r matches Ok((made, event)) ==> (made.correlation_id == cmd.tenant.correlation_id),
        r matches Ok((made, event)) ==> (event.contact_message_id == old(cm).id),
        r matches Ok((made, event)) ==> (event.reply_channel == cmd.reply_channel),
        r matches Ok((made, event)) ==> (event.replied_by == cmd.tenant.actor_id),
        r matches Ok((made, event)) ==> (event.event_id == event_id),
        r matches Ok((made, event)) ==> (event.correlation_id == cmd.tenant.correlation_id),
        r matches Ok((made, event)) ==> (event.occurred_at == now),
        r matches Ok((made, event)) ==> (*final(cm) == *old(cm)),
{
    let school = cmd.tenant.school_id;
    let id = ContactMessageReplyId::new(school, event_id.as_uuid());
    let r = ContactMessageReply::new(
        id,
        cm.id,
        cmd.tenant.actor_id,
        cmd.reply_body,
        cmd.reply_channel,
        now,
        cmd.tenant.correlation_id,
    );
    let event = ContactMessageReplied::new(
        cm.id,
        cmd.reply_channel,
        cmd.tenant.actor_id,
        event_id,
        cmd.tenant.correlation_id,
        now,
    );
    Ok((r, event))
}

/// Replies to a [`ContactMessage`] and emits a
/// [`ContactMessageReplied`] event.
pub fn reply_to_contact_message<C: Clock, G: IdGenerator>(
    cmd: ReplyToContactMessageCommand,
    clock: &C,
    ids: &G,
    cm: &mut ContactMessage,
) -> (r: Result<(ContactMessageReply, ContactMessageReplied), DomainError>)
    ensures
        r is Ok,
        r matches Ok((made, event)) ==> (made.school_id == cmd.tenant.school_id),
        r matches Ok((made, event)) ==> (made.id == (ContactMessageReplyId { school_id: cmd.tenant.school_id, value: event.event_id.value })),
        r matches Ok((made, event)) ==> (made.contact_message_id == old(cm).id),
        r matches Ok((made, event)) ==> (made.author == cmd.tenant.actor_id),
        r matches Ok((made, event)) ==> (made.body == cmd.reply_body),
        r matches Ok((made, event)) ==> (made.channel == cmd.reply_channel),
        r matches Ok((made, event)) ==> (made.replied_at == event.occurred_at),
        r matches Ok((made, event)) ==> (made.correlation_id == cmd.tenant.correlation_id),
        r matches Ok((made, event)) ==> (event.contact_message_id == old(cm).id),
        r matches Ok((made, event)) ==> (event.reply_channel == cmd.reply_channel),
        r matches Ok((made, event)) ==> (event.replied_by == cmd.tenant.actor_id),
        r matches Ok((made, event)) ==> (event.correlation_id == cmd.tenant.correlation_id),
        r matches Ok((made, event)) ==> (*final(cm) == *old(cm)),
{
    let now = clock.now();
    let event_id = ids.next_event_id();
    reply_to_contact_message_at(cmd, now, event_id, cm)
}

// =============================================================================
// SpeechSlider service
// =============================================================================

/// The change of [`create_speech_slider`] made at time `now` under event id
/// `event_id`.
pub fn create_speech_slider_at(
    cmd: CreateSpeechSliderCommand,
    now: Timestamp,
    event_id: EventId,
) -> (r: Result<(SpeechSlider, SpeechSliderCreated), DomainError>)
    ensures
        r is Ok,
        r matches Ok((made, event)) ==> (made.school_id == cmd.tenant.school_id),
        r matches Ok((made, event)) ==> (made.id == (SpeechSliderId { school_id: cmd.tenant.school_id, value: event_id.value })),
        r matches Ok((made, event)) ==> (made.name == cmd.name),
        r matches Ok((made, event)) ==> (made.designation == cmd.designation),
        r matches Ok((made, event)) ==> (made.speech == cmd.speech),
        r matches Ok((made, event)) ==> (made.image == cmd.image),
        r matches Ok((made, event)) ==> (made.version == (Version { value: 1 })),
        r matches Ok((made, event)) ==> (made.etag == (Etag { value: 0 })),
        r matches Ok((made, event)) ==> (made.created_at == now),
        r matches Ok((made, event)) ==> (made.updated_at == now),
        r matches Ok((made, event)) ==> (made.created_by == cmd.tenant.actor_id),
        r matches Ok((made, event)) ==> (made.updated_by == cmd.tenant.actor_id),
        r matches Ok((made, event)) ==> (made.active_status == ActiveStatus::Active),
        r matches Ok((made, event)) ==> (made.last_event_id == Some(event_id)),
        r matches Ok((made, event)) ==> (made.correlation_id == cmd.tenant.correlation_id),
        r matches Ok((made, event)) ==> (event.speech_slider_id == (SpeechSliderId { school_id: cmd.tenant.school_id, value: event_id.value })),
        r matches Ok((made, event)) ==> (event.name@ == cmd.name@),
        r matches Ok((made, event)) ==> (event.designation@ == cmd.designation@),
        r matches Ok((made, event)) ==> (event.event_id == event_id),
        r matches Ok((made, event)) ==> (event.correlation_id == cmd.tenant.correlation_id),
        r matches Ok((made, event)) ==> (event.occurred_at == now),
{
    let school = cmd.tenant.school_id;
    let id = SpeechSliderId::new(school, event_id.as_uuid());
    let name_str = cmd.name.as_str().to_owned();
    let designation_str = cmd.designation.clone();
    let mut s = SpeechSlider::fresh(
        id,
        cmd.name,
        cmd.designation,
        cmd.speech,
        cmd.image,
        cmd.tenant.actor_id,
        now,
        cmd.tenant.correlation_id,
    );
    s.last_event_id = Some(event_id);
    let event = SpeechSliderCreated::new(
        id,
        name_str,
        designation_str,
        event_id,
        cmd.tenant.correlation_id,
        now,
    );
    Ok((s, event))
}

/// Creates a new [`SpeechSlider`] aggregate + a
/// [`SpeechSliderCreated`] event.
pub fn create_speech_slider<C: Clock, G: IdGenerator>(
    cmd: CreateSpeechSliderCommand,
    clock: &C,
    ids: &G,
) -> (r: Result<(SpeechSlider, SpeechSliderCreated), DomainError>)
    ensures
        r is Ok,
        r matches Ok((made, event)) ==> (made.school_id == cmd.tenant.school_id),
        r matches Ok((made, event)) ==> (made.id == (SpeechSliderId { school_id: cmd.tenant.school_id, value: event.event_id.value })),
        r matches Ok((made, event)) ==> (made.name == cmd.name),
        r matches Ok((made, event)) ==> (made.designation == cmd.designation),
        r matches Ok((made, event)) ==> (made.speech == cmd.speech),
        r matches Ok((made, event)) ==> (made.image == cmd.image),
        r matches Ok((made, event)) ==> (made.version == (Version { value: 1 })),
        r matches Ok((made, event)) ==> (made.etag == (Etag { value: 0 })),
        r matches Ok((made, event)) ==> (made.created_at == event.occurred_at),
        r matches Ok((made, event)) ==> (made.updated_at == event.occurred_at),
        r matches Ok((made, event)) ==> (made.created_by == cmd.tenant.actor_id),
        r matches Ok((made, event)) ==> (made.updated_by == cmd.tenant.actor_id),
        r matches Ok((made, event)) ==> (made.active_status == ActiveStatus::Active),
        r matches Ok((made, event)) ==> (made.last_event_id == Some(event.event_id)),
        r matches Ok((made, event)) ==> (made.correlation_id == cmd.tenant.correlation_id),
        r matches Ok((made, event)) ==> (event.speech_slider_id == (SpeechSliderId { school_id: cmd.tenant.school_id, value: event.event_id.value })),
        r matches Ok((made, event)) ==> (event.name@ == cmd.name@),
        r matches Ok((made, event)) ==> (event.designation@ == cmd.designation@),
        r matches Ok((made, event)) ==> (event.correlation_id == cmd.tenant.correlation_id),
{
    let now = clock.now();
    let event_id = ids.next_event_id();
    create_speech_slider_at(cmd, now, event_id)
}

/// The change of [`update_speech_slider`] made at time `now` under event id
/// `event_id`.
pub fn update_speech_slider_at(
    cmd: UpdateSpeechSliderCommand,
    now: Timestamp,
    event_id: EventId,
    s: &mut SpeechSlider,
) -> (r: Result<SpeechSliderUpdated, DomainError>)
    ensures
        r is Ok,
        r matches Ok(event) ==> (event.speech_slider_id == old(s).id),
        r matches Ok(event) ==> (texts(event.changes@) == str_texts(field_if(cmd.name is Some, "name") + field_if(cmd.designation is Some, "designation") + field_if(cmd.speech is Some, "speech") + field_if(cmd.image is Some, "image"))),
        r matches Ok(event) ==> (event.event_id == event_id),
        r matches Ok(event) ==> (event.correlation_id == cmd.tenant.correlation_id),
        r matches Ok(event) ==> (event.occurred_at == now),
        r matches Ok(event) ==> (*final(s) == (SpeechSlider { updated_at: now, updated_by: cmd.tenant.actor_id, version: old(s).version.bumped(), last_event_id: Some(event_id), name: (match cmd.name { Some(v) => v, None => old(s).name }), designation: (match cmd.designation { Some(v) => v, None => old(s).designation }), speech: (match cmd.speech { Some(v) => v, None => old(s).speech }), image: (match cmd.image { Some(v) => Some(v), None => old(s).image }), ..*old(s) })),
{
    let changes = s.update(
        cmd.name,
        cmd.designation,
        cmd.speech,
        cmd.image,
        cmd.tenant.actor_id,
        now,
        event_id,
    );
    Ok(SpeechSliderUpdated::new(
        s.id,
        owned_strings(&changes),
        event_id,
        cmd.tenant.correlation_id,
        now,
    ))
}

/// Mutates a [`SpeechSlider`] and emits a
/// [`SpeechSliderUpdated`] event.
pub fn update_speech_slider<C: Clock, G: IdGenerator>(
    cmd: UpdateSpeechSliderCommand,
    clock: &C,
    ids: &G,
    s: &mut SpeechSlider,
) -> (r: Result<SpeechSliderUpdated, DomainError>)
    ensures
        r is Ok,
        r matches Ok(event) ==> (event.speech_slider_id == old(s).id),
        r matches Ok(event) ==> (texts(event.changes@) == str_texts(field_if(cmd.name is Some, "name") + field_if(cmd.designation is Some, "designation") + field_if(cmd.speech is Some, "speech") + field_if(cmd.image is Some, "image"))),
        r matches Ok(event) ==> (event.correlation_id == cmd.tenant.correlation_id),
        r matches Ok(event) ==> (*final(s) == (SpeechSlider { updated_at: event.occurred_at, updated_by: cmd.tenant.actor_id, version: old(s).version.bumped(), last_event_id: Some(event.event_id), name: (match cmd.name { Some(v) => v, None => old(s).name }), designation: (match cmd.designation { Some(v) => v, None => old(s).designation }), speech: (match cmd.speech { Some(v) => v, None => old(s).speech }), image: (match cmd.image { Some(v) => Some(v), None => old(s).image }), ..*old(s) })),
{
    let now = clock.now();
    let event_id = ids.next_event_id();
    update_speech_slider_at(cmd, now, event_id, s)
}

/// The change of [`delete_speech_slider`] made at time `now` under event id
/// `event_id`.
pub fn delete_speech_slider_at(
    cmd: DeleteSpeechSliderCommand,
    now: Timestamp,
    event_id: EventId,
    s: &mut SpeechSlider,
) -> (r: Result<SpeechSliderDeleted, DomainError>)
    ensures
        r is Ok,
        r matches Ok(event) ==> (event.speech_slider_id == old(s).id),
        r matches Ok(event) ==> (event.event_id == event_id),
        r matches Ok(event) ==> (event.correlation_id == cmd.tenant.correlation_id),
        r matches Ok(event) ==> (event.occurred_at == now),
        r matches Ok(event) ==> (*final(s) == (SpeechSlider { active_status: ActiveStatus::Retired, updated_at: now, updated_by: cmd.tenant.actor_id, version: old(s).version.bumped(), last_event_id: Some(event_id), ..*old(s) })),
{
    s.mark_deleted(cmd.tenant.actor_id, now, event_id);
    Ok(SpeechSliderDeleted::new(
        s.id,
        event_id,
        cmd.tenant.correlation_id,
        now,
    ))
}

/// Soft-deletes a [`SpeechSlider`] and emits a
/// [`SpeechSliderDeleted`] event.
pub fn delete_speech_slider<C: Clock, G: IdGenerator>(
    cmd: DeleteSpeechSliderCommand,
    clock: &C,
    ids: &G,
    s: &mut SpeechSlider,
) -> (r: Result<SpeechSliderDeleted, DomainError>)
    ensures
        r is Ok,
        r matches Ok(event) ==> (event.speech_slider_id == old(s).id),
        r matches Ok(event) ==> (event.correlation_id == cmd.tenant.correlation_id),
        r matches Ok(event) ==> (*final(s) == (SpeechSlider { active_status: ActiveStatus::Retired, updated_at: event.occurred_at, updated_by: cmd.tenant.actor_id, version: old(s).version.bumped(), last_event_id: Some(event.event_id), ..*old(s) })),
{
    let now = clock.now();
    let event_id = ids.next_event_id();
    delete_speech_slider_at(cmd, now, event_id, s)
}

// =============================================================================
// PhoneCallLog service
// =============================================================================

/// The change of [`log_phone_call`] made at time `now` under event id
/// `event_id`.
pub fn log_phone_call_at(
    cmd: LogPhoneCallCommand,
    now: Timestamp,
    event_id: EventId,
) -> (r: Result<(PhoneCallLog, PhoneCallLogged), DomainError>)
    ensures
        r is Ok,
        r matches Ok((made, event)) ==> (made.school_id == cmd.tenant.school_id),
        r matches Ok((made, event)) ==> (made.id == (PhoneCallLogId { school_id: cmd.tenant.school_id, value: event_id.value })),
        r matches Ok((made, event)) ==> (made.name == cmd.name),
        r matches Ok((made, event)) ==> (made.phone == cmd.phone),
        r matches Ok((made, event)) ==> (made.date == cmd.date),
        r matches Ok((made, event)) ==> (made.description == cmd.description),
        r matches Ok((made, event)) ==> (made.next_follow_up_date == cmd.next_follow_up_date),
        r matches Ok((made, event)) ==> (made.call_duration == cmd.call_duration),
        r matches Ok((made, event)) ==> (made.call_type == cmd.call_type),
        r matches Ok((made, event)) ==> (made.version == (Version { value: 1 })),
        r matches Ok((made, event)) ==> (made.etag == (Etag { value: 0 })),
        r matches Ok((made, event)) ==> (made.created_at == now),
        r matches Ok((made, event)) ==> (made.updated_at == now),
        r matches Ok((made, event)) ==> (made.created_by == cmd.tenant.actor_id),
        r matches Ok((made, event)) ==> (made.updated_by == cmd.tenant.actor_id),
        r matches Ok((made, event)) ==> (made.active_status == ActiveStatus::Active),
        r matches Ok((made, event)) ==> (made.last_event_id == Some(event_id)),
        r matches Ok((made, event)) ==> (made.correlation_id == cmd.tenant.correlation_id),
        r matches Ok((made, event)) ==> (event.phone_call_log_id == (PhoneCallLogId { school_id: cmd.tenant.school_id, value: event_id.value })),
        r matches Ok((made, event)) ==> (event.name@ == cmd.name@),
        r matches Ok((made, event)) ==> (event.phone@ == cmd.phone@),
        r matches Ok((made, event)) ==> (event.call_type == cmd.call_type),
        r matches Ok((made, event)) ==> (event.date == cmd.date),
        r matches Ok((made, event)) ==> (event.event_id == event_id),
        r matches Ok((made, event)) ==> (event.correlation_id == cmd.tenant.correlation_id),
        r matches Ok((made, event)) ==> (event.occurred_at == now),
{
    let school = cmd.tenant.school_id;
    let id = PhoneCallLogId::new(school, event_id.as_uuid());
    let name_for_event = cmd.name.clone();
    let phone_for_event = cmd.phone.clone();
    let mut pcl = PhoneCallLog::fresh(
        id,
        cmd.name,
        cmd.phone,
        cmd.date,
        cmd.description,
        cmd.next_follow_up_date,
        cmd.call_duration,
        cmd.call_type,
        cmd.tenant.actor_id,
        now,
        cmd.tenant.correlation_id,
    );
    pcl.last_event_id = Some(event_id);
    let event = PhoneCallLogged::new(
        id,
        name_for_event,
        phone_for_event,
        cmd.call_type,
        cmd.date,
        event_id,
        cmd.tenant.correlation_id,
        now,
    );
    Ok((pcl, event))
}

/// Logs a phone call and emits a [`PhoneCallLogged`] event.
pub fn log_phone_call<C: Clock, G: IdGenerator>(
    cmd: LogPhoneCallCommand,
    clock: &C,
    ids: &G,
) -> (r: Result<(PhoneCallLog, PhoneCallLogged), DomainError>)
    ensures
        r is Ok,
        r matches Ok((made, event)) ==> (made.school_id == cmd.tenant.school_id),
        r matches Ok((made, event)) ==> (made.id == (PhoneCallLogId { school_id: cmd.tenant.school_id, value: event.event_id.value })),
        r matches Ok((made, event)) ==> (made.name == cmd.name),
        r matches Ok((made, event)) ==> (made.phone == cmd.phone),
        r matches Ok((made, event)) ==> (made.date == cmd.date),
        r matches Ok((made, event)) ==> (made.description == cmd.description),
        r matches Ok((made, event)) ==> (made.next_follow_up_date == cmd.next_follow_up_date),
        r matches Ok((made, event)) ==> (made.call_duration == cmd.call_duration),
        r matches Ok((made, event)) ==> (made.call_type == cmd.call_type),
        r matches Ok((made, event)) ==> (made.version == (Version { value: 1 })),
        r matches Ok((made, event)) ==> (made.etag == (Etag { value: 0 })),
        r matches Ok((made, event)) ==> (made.created_at == event.occurred_at),
        r matches Ok((made, event)) ==> (made.updated_at == event.occurred_at),
        r matches Ok((made, event)) ==> (made.created_by == cmd.tenant.actor_id),
        r matches Ok((made, event)) ==> (made.updated_by == cmd.tenant.actor_id),
        r matches Ok((made, event)) ==> (made.active_status == ActiveStatus::Active),
        r matches Ok((made, event)) ==> (made.last_event_id == Some(event.event_id)),
        r matches Ok((made, event)) ==> (made.correlation_id == cmd.tenant.correlation_id),
        r matches Ok((made, event)) ==> (event.phone_call_log_id == (PhoneCallLogId { school_id: cmd.tenant.school_id, value: event.event_id.value })),
        r matches Ok((made, event)) ==> (event.name@ == cmd.name@),
        r matches Ok((made, event)) ==> (event.phone@ == cmd.phone@),
        r matches Ok((made, event)) ==> (event.call_type == cmd.call_type),
        r matches Ok((made, event)) ==> (event.date == cmd.date),
        r matches Ok((made, event)) ==> (event.correlation_id == cmd.tenant.correlation_id),
{
    let now = clock.now();
    let event_id = ids.next_event_id();
    log_phone_call_at(cmd, now, event_id)
}

/// The change of [`update_phone_call_follow_up`] made at time `now` under event id
/// `event_id`.
pub fn update_phone_call_follow_up_at(
    cmd: UpdatePhoneCallFollowUpCommand,
    now: Timestamp,
    event_id: EventId,
    pcl: &mut PhoneCallLog,
) -> (r: Result<PhoneCallFollowUpUpdated, DomainError>)
    ensures
        r is Ok,
        r matches Ok(event) ==> (event.phone_call_log_id == old(pcl).id),
        r matches Ok(event) ==> (event.next_follow_up_date == cmd.next_follow_up_date),
        r matches Ok(event) ==> (event.event_id == event_id),
        r matches Ok(event) ==> (event.correlation_id == cmd.tenant.correlation_id),
        r matches Ok(event) ==> (event.occurred_at == now),
        r matches Ok(event) ==> (*final(pcl) == (PhoneCallLog { next_follow_up_date: Some(cmd.next_follow_up_date), updated_at: now, updated_by: cmd.tenant.actor_id, version: old(pcl).version.bumped(), last_event_id: Some(event_id), ..*old(pcl) })),
{
    pcl.update_follow_up(
        cmd.next_follow_up_date,
        cmd.tenant.actor_id,
        now,
        event_id,
    );
    Ok(PhoneCallFollowUpUpdated::new(
        pcl.id,
        cmd.next_follow_up_date,
        event_id,
        cmd.tenant.correlation_id,
        now,
    ))
}

/// Updates the follow-up date of a [`PhoneCallLog`] and emits
/// a [`PhoneCallFollowUpUpdated`] event.
pub fn update_phone_call_follow_up<C: Clock, G: IdGenerator>(
    cmd: UpdatePhoneCallFollowUpCommand,
    clock: &C,
    ids: &G,
    pcl: &mut PhoneCallLog,
) -> (r: Result<PhoneCallFollowUpUpdated, DomainError>)
    ensures
        r is Ok,
        r matches Ok(event) ==> (event.phone_call_log_id == old(pcl).id),
        r matches Ok(event) ==> (event.next_follow_up_date == cmd.next_follow_up_date),
        r matches Ok(event) ==> (event.correlation_id == cmd.tenant.correlation_id),
        r matches Ok(event) ==> (*final(pcl) == (PhoneCallLog { next_follow_up_date: Some(cmd.next_follow_up_date), updated_at: event.occurred_at, updated_by: cmd.tenant.actor_id, version: old(pcl).version.bumped(), last_event_id: Some(event.event_id), ..*old(pcl) })),
{
    let now = clock.now();
    let event_id = ids.next_event_id();
    update_phone_call_follow_up_at(cmd, now, event_id, pcl)
}

// =============================================================================
// Headline service functions
// =============================================================================

/// Headline: sends a notification (in-app, push or web). The same as
/// [`send_notification`], under the name the dispatcher routes to.
pub fn notify_user<C: Clock, G: IdGenerator>(
    cmd: SendNotificationCommand,
    clock: &C,
    ids: &G,
) -> (r: Result<(Notification, NotificationSent), DomainError>)
    ensures
        r is Ok,
        r matches Ok((made, event)) ==> (made.school_id == cmd.tenant.school_id),
        r matches Ok((made, event)) ==> (made.id == (NotificationId { school_id: cmd.tenant.school_id, value: event.event_id.value })),
        r matches Ok((made, event)) ==> (made.recipient_user_id == cmd.recipient_user_id),
        r matches Ok((made, event)) ==> (made.notification_type == cmd.notification_type),
        r matches Ok((made, event)) ==> (made.message == cmd.message),
        r matches Ok((made, event)) ==> (made.url == cmd.url),
        r matches Ok((made, event)) ==> (made.data == cmd.data),
        r matches Ok((made, event)) ==> (made.channel == cmd.channel),
        r matches Ok((made, event)) ==> (made.status == NotificationStatus::Pending),
        r matches Ok((made, event)) ==> (made.delivered_at.is_none()),
        r matches Ok((made, event)) ==> (made.read_at.is_none()),
        r matches Ok((made, event)) ==> (made.withdrawn_at.is_none()),
        r matches Ok((made, event)) ==> (made.withdrawn_reason.is_none()),
        r matches Ok((made, event)) ==> (made.version == (Version { value: 1 })),
        r matches Ok((made, event)) ==> (made.etag == (Etag { value: 0 })),
        r matches Ok((made, event)) ==> (made.created_at == event.occurred_at),
        r matches Ok((made, event)) ==> (made.updated_at == event.occurred_at),
        r matches Ok((made, event)) ==> (made.created_by == cmd.tenant.actor_id),
        r matches Ok((made, event)) ==> (made.updated_by == cmd.tenant.actor_id),
        r matches Ok((made, event)) ==> (made.active_status == ActiveStatus::Active),
        r matches Ok((made, event)) ==> (made.last_event_id == Some(event.event_id)),
        r matches Ok((made, event)) ==> (made.correlation_id == cmd.tenant.correlation_id),
        r matches Ok((made, event)) ==> (event.notification_id == (NotificationId { school_id: cmd.tenant.school_id, value: event.event_id.value })),
        r matches Ok((made, event)) ==> (event.recipient_user_id == cmd.recipient_user_id),
        r matches Ok((made, event)) ==> (event.notification_type == cmd.notification_type),
        r matches Ok((made, event)) ==> (event.channel == cmd.channel),
        r matches Ok((made, event)) ==> (event.correlation_id == cmd.tenant.correlation_id),
{
    send_notification(cmd, clock, ids)
}

/// Headline: marks a notification as read. The same as
/// [`mark_notification_read`], under the name the dispatcher routes to.
pub fn mark_as_read<C: Clock, G: IdGenerator>(
    cmd: MarkNotificationReadCommand,
    clock: &C,
    ids: &G,
    n: &mut Notification,
) -> (r: Result<NotificationRead, DomainError>)
    ensures
        r is Ok,
        r matches Ok(event) ==> (event.notification_id == old(n).id),
        r matches Ok(event) ==> (event.read_at == event.occurred_at),
        r matches Ok(event) ==> (event.correlation_id == cmd.tenant.correlation_id),
        r matches Ok(event) ==> (*final(n) == (Notification { status: NotificationStatus::Read, read_at: Some(event.occurred_at), updated_at: event.occurred_at, updated_by: cmd.tenant.actor_id, version: old(n).version.bumped(), last_event_id: Some(event.event_id), ..*old(n) })),
{
    mark_notification_read(cmd, clock, ids, n)
}

/// Headline: sends a notice message (publishes the notice). The same as
/// [`publish_notice`], under the name the dispatcher routes to.
pub fn send_notice_message<C: Clock, G: IdGenerator>(
    cmd: PublishNoticeCommand,
    clock: &C,
    ids: &G,
    notice: &mut Notice,
) -> (r: Result<NoticePublished, DomainError>)
    ensures
        r is Ok,
        r matches Ok(event) ==> (event.notice_id == old(notice).id),
        r matches Ok(event) ==> (event.published_at == cmd.publish_at.unwrap_or(event.occurred_at)),
        r matches Ok(event) ==> (event.correlation_id == cmd.tenant.correlation_id),
        r matches Ok(event) ==> (*final(notice) == (Notice { status: NoticeStatus::Published, updated_at: event.occurred_at, updated_by: cmd.tenant.actor_id, version: old(notice).version.bumped(), last_event_id: Some(event.event_id), ..*old(notice) })),
{
    publish_notice(cmd, clock, ids, notice)
}

/// Headline: sends a complaint message (registers the complaint). The same as
/// [`register_complaint`], under the name the dispatcher routes to.
pub fn send_complaint_message<C: Clock, G: IdGenerator>(
    cmd: RegisterComplaintCommand,
    clock: &C,
    ids: &G,
) -> (r: Result<(Complaint, ComplaintRegistered), DomainError>)
    ensures
        r is Ok,
        r matches Ok((made, event)) ==> (made.school_id == cmd.tenant.school_id),
        r matches Ok((made, event)) ==> (made.id == (ComplaintId { school_id: cmd.tenant.school_id, value: event.event_id.value })),
        r matches Ok((made, event)) ==> (made.complaint_type_id == cmd.complaint_type_id),
        r matches Ok((made, event)) ==> (made.complaint_by == cmd.complaint_by),
        r matches Ok((made, event)) ==> (made.complaint_source == cmd.complaint_source),
        r matches Ok((made, event)) ==> (made.phone == cmd.phone),
        r matches Ok((made, event)) ==> (made.date == cmd.date),
        r matches Ok((made, event)) ==> (made.description@ == cmd.description@),
        r matches Ok((made, event)) ==> (made.file == cmd.file),
        r matches Ok((made, event)) ==> (made.assignee_user_id.is_none()),
        r matches Ok((made, event)) ==> (made.status == ComplaintStatus::Open),
        r matches Ok((made, event)) ==> (made.action_taken.is_none()),
        r matches Ok((made, event)) ==> (made.version == (Version { value: 1 })),
        r matches Ok((made, event)) ==> (made.etag == (Etag { value: 0 })),
        r matches Ok((made, event)) ==> (made.created_at == event.occurred_at),
        r matches Ok((made, event)) ==> (made.updated_at == event.occurred_at),
        r matches Ok((made, event)) ==> (made.created_by == cmd.tenant.actor_id),
        r matches Ok((made, event)) ==> (made.updated_by == cmd.tenant.actor_id),
        r matches Ok((made, event)) ==> (made.active_status == ActiveStatus::Active),
        r matches Ok((made, event)) ==> (made.last_event_id == Some(event.event_id)),
        r matches Ok((made, event)) ==> (made.correlation_id == cmd.tenant.correlation_id),
        r matches Ok((made, event)) ==> (event.complaint_id == (ComplaintId { school_id: cmd.tenant.school_id, value: event.event_id.value })),
        r matches Ok((made, event)) ==> (event.complaint_type_id == cmd.complaint_type_id),
        r matches Ok((made, event)) ==> (event.complaint_source == cmd.complaint_source),
        r matches Ok((made, event)) ==> (event.date == cmd.date),
        r matches Ok((made, event)) ==> (event.correlation_id == cmd.tenant.correlation_id),
{
    register_complaint(cmd, clock, ids)
}

/// Headline: sends a chat message. The same as
/// [`send_chat_message`], under the name the dispatcher routes to.
pub fn send_chat_message_headline<C: Clock, G: IdGenerator>(
    cmd: SendChatMessageCommand,
    clock: &C,
    ids: &G,
) -> (r: Result<(ChatMessage, ChatMessageSent), DomainError>)
    ensures
        r is Ok,
        r matches Ok((made, event)) ==> (made.school_id == cmd.tenant.school_id),
        r matches Ok((made, event)) ==> (made.id == (ChatMessageId { school_id: cmd.tenant.school_id, value: event.event_id.value })),
        r matches Ok((made, event)) ==> ((cmd.conversation_id matches Some(c) ==> made.conversation_id == c)),
        r matches Ok((made, event)) ==> ((cmd.conversation_id is None ==> made.conversation_id.school_id == cmd.tenant.school_id)),
        r matches Ok((made, event)) ==> (made.from_id == cmd.from_id),
        r matches Ok((made, event)) ==> (made.to_id == cmd.to_id),
        r matches Ok((made, event)) ==> (made.body == cmd.body),
        r matches Ok((made, event)) ==> (made.message_type == cmd.message_type),
        r matches Ok((made, event)) ==> (made.file == cmd.file),
        r matches Ok((made, event)) ==> (made.reply_to == cmd.reply_to),
        r matches Ok((made, event)) ==> (made.forward_of == cmd.forward_of),
        r matches Ok((made, event)) ==> (made.status == ChatMessageStatus::Unread),
        r matches Ok((made, event)) ==> (made.seen_at.is_none()),
        r matches Ok((made, event)) ==> (made.deleted_by.is_none()),
        r matches Ok((made, event)) ==> (made.version == (Version { value: 1 })),
        r matches Ok((made, event)) ==> (made.etag == (Etag { value: 0 })),
        r matches Ok((made, event)) ==> (made.created_at == event.occurred_at),
        r matches Ok((made, event)) ==> (made.updated_at == event.occurred_at),
        r matches Ok((made, event)) ==> (made.created_by == cmd.tenant.actor_id),
        r matches Ok((made, event)) ==> (made.updated_by == cmd.tenant.actor_id),
        r matches Ok((made, event)) ==> (made.active_status == ActiveStatus::Active),
        r matches Ok((made, event)) ==> (made.last_event_id == Some(event.event_id)),
        r matches Ok((made, event)) ==> (made.correlation_id == cmd.tenant.correlation_id),
        r matches Ok((made, event)) ==> (event.chat_message_id == (ChatMessageId { school_id: cmd.tenant.school_id, value: event.event_id.value })),
        r matches Ok((made, event)) ==> (event.chat_conversation_id == made.conversation_id),
        r matches Ok((made, event)) ==> (event.from_id == cmd.from_id),
        r matches Ok((made, event)) ==> (event.to_id == cmd.to_id),
        r matches Ok((made, event)) ==> (event.message_type == cmd.message_type),
        r matches Ok((made, event)) ==> (event.correlation_id == cmd.tenant.correlation_id),
{
    send_chat_message(cmd, clock, ids)
}

/// Headline: sends an email message (appends to the email log). The same as
/// [`log_email_sent`], under the name the dispatcher routes to.
pub fn send_email_message<C: Clock, G: IdGenerator>(
    cmd: LogEmailSentCommand,
    clock: &C,
    ids: &G,
) -> (r: Result<(EmailLog, EmailLogged), DomainError>)
    ensures
        r is Ok,
        r matches Ok((made, event)) ==> (made.school_id == cmd.tenant.school_id),
        r matches Ok((made, event)) ==> (made.id == (EmailLogId { school_id: cmd.tenant.school_id, value: event.event_id.value })),
        r matches Ok((made, event)) ==> (made.title@ == cmd.title@),
        r matches Ok((made, event)) ==> (made.description == cmd.description),
        r matches Ok((made, event)) ==> (made.send_date == cmd.send_date),
        r matches Ok((made, event)) ==> (made.send_through == cmd.send_through),
        r matches Ok((made, event)) ==> (made.send_to@ == cmd.send_to@),
        r matches Ok((made, event)) ==> (made.message_id == cmd.message_id),
        r matches Ok((made, event)) ==> (made.version == (Version { value: 1 })),
        r matches Ok((made, event)) ==> (made.etag == (Etag { value: 0 })),
        r matches Ok((made, event)) ==> (made.created_at == event.occurred_at),
        r matches Ok((made, event)) ==> (made.updated_at == event.occurred_at),
        r matches Ok((made, event)) ==> (made.created_by == cmd.tenant.actor_id),
        r matches Ok((made, event)) ==> (made.updated_by == cmd.tenant.actor_id),
        r matches Ok((made, event)) ==> (made.active_status == ActiveStatus::Active),
        r matches Ok((made, event)) ==> (made.last_event_id == Some(event.event_id)),
        r matches Ok((made, event)) ==> (made.correlation_id == cmd.tenant.correlation_id),
        r matches Ok((made, event)) ==> (event.email_log_id == (EmailLogId { school_id: cmd.tenant.school_id, value: event.event_id.value })),
        r matches Ok((made, event)) ==> (event.title == cmd.title),
        r matches Ok((made, event)) ==> (event.send_through == cmd.send_through),
        r matches Ok((made, event)) ==> (event.send_to == cmd.send_to),
        r matches Ok((made, event)) ==> (event.send_date == cmd.send_date),
        r matches Ok((made, event)) ==> (event.source_message_id == cmd.message_id),
        r matches Ok((made, event)) ==> (event.correlation_id == cmd.tenant.correlation_id),
{
    log_email_sent(cmd, clock, ids)
}

/// Headline: sends an SMS message (appends to the SMS log). The same as
/// [`log_sms_sent`], under the name the dispatcher routes to.
pub fn send_sms_message<C: Clock, G: IdGenerator>(
    cmd: LogSmsSentCommand,
    clock: &C,
    ids: &G,
) -> (r: Result<(SmsLog, SmsLogged), DomainError>)
    ensures
        r is Ok,
        r matches Ok((made, event)) ==> (made.school_id == cmd.tenant.school_id),
        r matches Ok((made, event)) ==> (made.id == (SmsLogId { school_id: cmd.tenant.school_id, value: event.event_id.value })),
        r matches Ok((made, event)) ==> (made.title@ == cmd.title@),
        r matches Ok((made, event)) ==> (made.description == cmd.description),
        r matches Ok((made, event)) ==> (made.send_date == cmd.send_date),
        r matches Ok((made, event)) ==> (made.send_through == cmd.send_through),
        r matches Ok((made, event)) ==> (made.send_to@ == cmd.send_to@),
        r matches Ok((made, event)) ==> (made.message_id == cmd.message_id),
        r matches Ok((made, event)) ==> (made.version == (Version { value: 1 })),
        r matches Ok((made, event)) ==> (made.etag == (Etag { value: 0 })),
        r matches Ok((made, event)) ==> (made.created_at == event.occurred_at),
        r matches Ok((made, event)) ==> (made.updated_at == event.occurred_at),
        r matches Ok((made, event)) ==> (made.created_by == cmd.tenant.actor_id),
        r matches Ok((made, event)) ==> (made.updated_by == cmd.tenant.actor_id),
        r matches Ok((made, event)) ==> (made.active_status == ActiveStatus::Active),
        r matches Ok((made, event)) ==> (made.last_event_id == Some(event.event_id)),
        r matches Ok((made, event)) ==> (made.correlation_id == cmd.tenant.correlation_id),
        r matches Ok((made, event)) ==> (event.sms_log_id == (SmsLogId { school_id: cmd.tenant.school_id, value: event.event_id.value })),
        r matches Ok((made, event)) ==> (event.title == cmd.title),
        r matches Ok((made, event)) ==> (event.send_through == cmd.send_through),
        r matches Ok((made, event)) ==> (event.send_to == cmd.send_to),
        r matches Ok((made, event)) ==> (event.send_date == cmd.send_date),
        r matches Ok((made, event)) ==> (event.source_message_id == cmd.message_id),
        r matches Ok((made, event)) ==> (event.correlation_id == cmd.tenant.correlation_id),
{
    log_sms_sent(cmd, clock, ids)
}

// =============================================================================
// Service struct: NotificationService
// =============================================================================

/// Whether a template serves an event on a channel.
pub open spec fn template_serves(t: SmsTemplate, event: Seq<char>, channel: Channel) -> bool {
    t.channel == channel && t.purpose@ == event
}

/// The notification service: picks a template, renders the body,
/// routes to the channels, and gives the dispatch window.
pub struct NotificationService;

impl NotificationService {
    /// The first candidate template for the event on the channel, if
    /// any.
    pub fn select_template<'a>(
        event: &str,
        channel: Channel,
        candidates: &'a [SmsTemplate],
    ) -> (r: Option<&'a SmsTemplate>)
        ensures
            r is None <==> forall|i: int|
                0 <= i < candidates@.len() ==> !template_serves(#[trigger] candidates@[i], event@, channel),
            r matches Some(t) ==> exists|i: int|
                0 <= i < candidates@.len() && candidates@[i] == *t && template_serves(*t, event@, channel)
                    && forall|j: int| 0 <= j < i ==> !template_serves(#[trigger] candidates@[j], event@, channel),
    {
        let mut k: usize = 0;
        while k < candidates.len()
            invariant
                k <= candidates@.len(),
                forall|j: int| 0 <= j < k ==> !template_serves(#[trigger] candidates@[j], event@, channel),
            decreases candidates@.len() - k,
        {
            let t = &candidates[k];
            if t.channel == channel && same_text(t.purpose.as_str(), event) {
                return Some(t);
            }
            k += 1;
        }
        None
    }

    /// Renders the notification body of a template with the values of
    /// `vars` (see [`TemplateService::render`]).
    pub fn render(template: &SmsTemplate, vars: &TextMap) -> (r: Result<RenderedBody, DomainError>)
        ensures
            r is Ok <==> substituted(template.body@, vars@, 0) is Some,
            r matches Ok(v) ==> substituted(template.body@, vars@, 0) == Some(v@),
            r matches Err(e) ==> e is Validation,
    {
        TemplateService::render(template, vars)
    }

    /// The channels (email, SMS, web, app) that deliver the event the
    /// setting configures.
    pub fn route(setting: &NotificationSetting) -> (d: Destination)
        ensures
            d == setting.destination,
    {
        setting.destination
    }

    /// The dispatch window `(from, to)` of an absent-notification
    /// schedule.
    pub fn next_window(setup: &AbsentNotificationTimeSetup) -> (w: (TimeOfDay, TimeOfDay))
        ensures
            w.0@ == setup.time_from@,
            w.1@ == setup.time_to@,
    {
        (setup.time_from.clone(), setup.time_to.clone())
    }
}

// =============================================================================
// Service struct: ChatService
// =============================================================================

/// Whether a conversation is between `a` and `b`, either way round.
pub open spec fn conversation_between(c: ChatConversation, a: UserId, b: UserId) -> bool {
    (c.from_id == a && c.to_id == b) || (c.from_id == b && c.to_id == a)
}

/// The chat service: block checks, conversation lookup, group fan-out
/// and posting rights.
pub struct ChatService;

impl ChatService {
    /// Whether `from` has a block in force in `blocks`: some block that
    /// is still active and whose blocker (`block_by`) is `from`. The
    /// blocked side (`block_to`) is not compared.
    pub fn is_blocked(from: UserId, blocks: &[ChatBlockUser]) -> (b: bool)
        ensures
            b == exists|i: int|
                0 <= i < blocks@.len() && (#[trigger] blocks@[i]).block_by == from
                    && blocks@[i].active_status == ActiveStatus::Active,
    {
        let mut k: usize = 0;
        while k < blocks.len()
            invariant
                k <= blocks@.len(),
                forall|j: int|
                    0 <= j < k ==> !((#[trigger] blocks@[j]).block_by == from
                        && blocks@[j].active_status == ActiveStatus::Active),
            decreases blocks@.len() - k,
        {
            if blocks[k].block_by == from && blocks[k].is_active() {
                return true;
            }
            k += 1;
        }
        false
    }

    /// The first open conversation between `a` and `b`, if any.
    pub fn resolve_conversation(
        a: UserId,
        b: UserId,
        conversations: &[ChatConversation],
    ) -> (r: Option<&ChatConversation>)
        ensures
            r is None <==> forall|i: int|
                0 <= i < conversations@.len() ==> !(conversation_between(#[trigger] conversations@[i], a, b) && !conversations@[i].closed),
            r matches Some(c) ==> exists|i: int|
                0 <= i < conversations@.len() && conversations@[i] == *c && conversation_between(*c, a, b) && !c.closed
                    && forall|j: int| 0 <= j < i ==> !(conversation_between(#[trigger] conversations@[j], a, b) && !conversations@[j].closed),
    {
        let mut k: usize = 0;
        while k < conversations.len()
            invariant
                k <= conversations@.len(),
                forall|j: int|
                    0 <= j < k ==> !(conversation_between(#[trigger] conversations@[j], a, b) && !conversations@[j].closed),
            decreases conversations@.len() - k,
        {
            let c = &conversations[k];
            if ((c.from_id == a && c.to_id == b) || (c.from_id == b && c.to_id == a)) && !c.closed {
                return Some(c);
            }
            k += 1;
        }
        None
    }

    /// The users who receive a group message: every member, in order.
    pub fn fan_out_group_recipients(members: &[ChatGroupUser]) -> (users: Vec<UserId>)
        ensures
            users@.len() == members@.len(),
            forall|i: int| 0 <= i < members@.len() ==> users@[i] == (#[trigger] members@[i]).user_id,
    {
        let mut users: Vec<UserId> = Vec::new();
        let mut k: usize = 0;
        while k < members.len()
            invariant
                k <= members@.len(),
                users@.len() == k,
                forall|i: int| 0 <= i < k ==> users@[i] == (#[trigger] members@[i]).user_id,
            decreases members@.len() - k,
        {
            users.push(members[k].user_id);
            k += 1;
        }
        users
    }

    /// Whether `user` may post in the group: the group is not read-only,
    /// or `membership` is the user's own and makes them an admin.
    pub fn can_post(group: &ChatGroup, user: UserId, membership: Option<&ChatGroupUser>) -> (b: bool)
        ensures
            b == (!group.read_only || (membership matches Some(m) && m.user_id == user && m.role
                == ChatGroupRole::Admin)),
    {
        if !group.read_only {
            return true;
        }
        match membership {
            Some(m) => m.user_id == user && matches!(m.role, ChatGroupRole::Admin),
            None => false,
        }
    }
}

// =============================================================================
// Service struct: ComplaintService
// =============================================================================

/// The status a complaint moves to from `current` under `action`:
/// `Resolved` is final; otherwise the action names the new status.
pub open spec fn next_status_of(current: ComplaintStatus, action: ComplaintAction) -> ComplaintStatus {
    match current {
        ComplaintStatus::Resolved => ComplaintStatus::Resolved,
        _ => match action {
            ComplaintAction::Open => ComplaintStatus::Open,
            ComplaintAction::InProgress => ComplaintStatus::InProgress,
            ComplaintAction::Resolve => ComplaintStatus::Resolved,
        },
    }
}

/// The escalation path from a status: the status itself followed by
/// every later stage of `Open → InProgress → Resolved`.
pub open spec fn escalation_of(current: ComplaintStatus) -> Seq<ComplaintStatus> {
    match current {
        ComplaintStatus::Open => seq![ComplaintStatus::Open, ComplaintStatus::InProgress, ComplaintStatus::Resolved],
        ComplaintStatus::InProgress => seq![ComplaintStatus::InProgress, ComplaintStatus::Resolved],
        ComplaintStatus::Resolved => seq![ComplaintStatus::Resolved],
    }
}

/// The stage number of a status along `Open → InProgress → Resolved`.
pub open spec fn stage(s: ComplaintStatus) -> int {
    match s {
        ComplaintStatus::Open => 0,
        ComplaintStatus::InProgress => 1,
        ComplaintStatus::Resolved => 2,
    }
}

/// The complaint service: categorisation, anonymity, status transitions
/// and escalation paths.
pub struct ComplaintService;

impl ComplaintService {
    /// The name of the complaint's type: the first of `types` with the
    /// complaint's type id, or `"Uncategorised"` when none has it.
    pub fn categorize(complaint: &Complaint, types: &[ComplaintType]) -> (name: String)
        ensures
            (forall|i: int| 0 <= i < types@.len() ==> (#[trigger] types@[i]).id != complaint.complaint_type_id)
                ==> name@ == "Uncategorised"@,
            (exists|i: int| 0 <= i < types@.len() && (#[trigger] types@[i]).id == complaint.complaint_type_id)
                ==> exists|i: int|
                0 <= i < types@.len() && types@[i].id == complaint.complaint_type_id && name@ == types@[i].name@
                    && forall|j: int| 0 <= j < i ==> (#[trigger] types@[j]).id != complaint.complaint_type_id,
    {
        let mut k: usize = 0;
        while k < types.len()
            invariant
                k <= types@.len(),
                forall|j: int| 0 <= j < k ==> (#[trigger] types@[j]).id != complaint.complaint_type_id,
            decreases types@.len() - k,
        {
            if types[k].id == complaint.complaint_type_id {
                return types[k].name.clone();
            }
            k += 1;
        }
        "Uncategorised".to_owned()
    }

    /// Whether the complaint was filed anonymously (no complainant).
    pub fn is_anonymous(complaint: &Complaint) -> (b: bool)
        ensures
            b == complaint.complaint_by.is_none(),
    {
        complaint.complaint_by.is_none()
    }

    /// The status a complaint moves to from `current` under `action`.
    pub fn next_status(current: ComplaintStatus, action: ComplaintAction) -> (s: ComplaintStatus)
        ensures
            s == next_status_of(current, action),
    {
        match (current, action) {
            (ComplaintStatus::Open, ComplaintAction::InProgress) => ComplaintStatus::InProgress,
            (ComplaintStatus::InProgress, ComplaintAction::Resolve) => ComplaintStatus::Resolved,
            (ComplaintStatus::Open, ComplaintAction::Resolve) => ComplaintStatus::Resolved,
            (ComplaintStatus::Open, ComplaintAction::Open) => ComplaintStatus::Open,
            (ComplaintStatus::InProgress, ComplaintAction::Open) => ComplaintStatus::Open,
            (ComplaintStatus::InProgress, ComplaintAction::InProgress) => ComplaintStatus::InProgress,
            (ComplaintStatus::Resolved, _) => ComplaintStatus::Resolved,
        }
    }

    /// The escalation path from `current`, in order.
    pub fn escalation_path(current: ComplaintStatus) -> (path: Vec<ComplaintStatus>)
        ensures
            path@ == escalation_of(current),
    {
        match current {
            ComplaintStatus::Open => vec![
                ComplaintStatus::Open,
                ComplaintStatus::InProgress,
                ComplaintStatus::Resolved,
            ],
            ComplaintStatus::InProgress => vec![ComplaintStatus::InProgress, ComplaintStatus::Resolved],
            ComplaintStatus::Resolved => vec![ComplaintStatus::Resolved],
        }
    }
}

/// A resolved complaint stays resolved, whatever the action.
pub proof fn lemma_resolved_is_final(action: ComplaintAction)
    ensures
        next_status_of(ComplaintStatus::Resolved, action) == ComplaintStatus::Resolved,
{
}

/// Resolving moves any complaint to `Resolved`.
pub proof fn lemma_resolve_always_resolves(current: ComplaintStatus)
    ensures
        next_status_of(current, ComplaintAction::Resolve) == ComplaintStatus::Resolved,
{
}

/// An unresolved complaint moves to the status its action names, and
/// only the `Resolve` action resolves it: `Open` reopens, `InProgress`
/// marks it in progress, `Resolve` resolves, whichever of `Open` and
/// `InProgress` it had.
pub proof fn lemma_action_names_next_status(current: ComplaintStatus, action: ComplaintAction)
    requires
        current != ComplaintStatus::Resolved,
    ensures
        (next_status_of(current, action) == ComplaintStatus::Resolved) <==> (action == ComplaintAction::Resolve),
        (next_status_of(current, action) == ComplaintStatus::InProgress) <==> (action == ComplaintAction::InProgress),
        (next_status_of(current, action) == ComplaintStatus::Open) <==> (action == ComplaintAction::Open),
        next_status_of(current, action) == next_status_of(ComplaintStatus::Open, action),
{
}

/// The escalation path starts at the current status, climbs strictly
/// stage by stage, and always ends at `Resolved`.
pub proof fn lemma_escalation_path_shape(current: ComplaintStatus)
    ensures
        escalation_of(current).len() == 3 - stage(current),
        escalation_of(current)[0] == current,
        escalation_of(current).last() == ComplaintStatus::Resolved,
        forall|i: int|
            0 <= i < escalation_of(current).len() ==> stage(#[trigger] escalation_of(current)[i]) == stage(current) + i,
{
}

/// Every status a complaint can move to under an action either lies on
/// its escalation path or is a step back to `Open` from `InProgress`.
pub proof fn lemma_next_status_on_path(current: ComplaintStatus, action: ComplaintAction)
    ensures
        escalation_of(current).contains(next_status_of(current, action)) || (current
            == ComplaintStatus::InProgress && next_status_of(current, action) == ComplaintStatus::Open),
{
    let next = next_status_of(current, action);
    match current {
        ComplaintStatus::Open => {
            assert(escalation_of(current)[stage(next)] == next);
        },
        ComplaintStatus::InProgress => {
            if next != ComplaintStatus::Open {
                assert(escalation_of(current)[stage(next) - 1] == next);
            }
        },
        ComplaintStatus::Resolved => {
            assert(escalation_of(current)[0] == next);
        },
    }
}

// =============================================================================
// Service struct: AbsentNotificationService
// =============================================================================

/// Whether a time of day lies in `[from, to)`, comparing `HH:MM`
/// texts (which order as the minutes of the day they name).
pub open spec fn in_window_of(at: Seq<char>, from: Seq<char>, to: Seq<char>) -> bool {
    minute_of_day(from) <= minute_of_day(at) && minute_of_day(at) < minute_of_day(to)
}

/// For `HH:MM` texts, the text order (the order of `str`) and the order
/// of the minutes they name agree, so comparing the minutes compares
/// the texts.
pub proof fn lemma_hhmm_text_order(a: Seq<char>, b: Seq<char>)
    requires
        is_hhmm(a),
        is_hhmm(b),
    ensures
        text_less(a, b) <==> minute_of_day(a) < minute_of_day(b),
{
    reveal_with_fuel(less_from, 6);
    assert((a[0] < b[0]) <==> (digit_value(a[0]) < digit_value(b[0])));
    assert((a[1] < b[1]) <==> (digit_value(a[1]) < digit_value(b[1])));
    assert((a[3] < b[3]) <==> (digit_value(a[3]) < digit_value(b[3])));
    assert((a[4] < b[4]) <==> (digit_value(a[4]) < digit_value(b[4])));
    assert((a[0] == b[0]) <==> (digit_value(a[0]) == digit_value(b[0])));
    assert((a[1] == b[1]) <==> (digit_value(a[1]) == digit_value(b[1])));
    assert((a[3] == b[3]) <==> (digit_value(a[3]) == digit_value(b[3])));
    assert((a[4] == b[4]) <==> (digit_value(a[4]) == digit_value(b[4])));
}

/// Ordering `HH:MM` times by the minute of the day is ordering them by
/// hour, then by minute.
proof fn lemma_minute_order(h1: int, m1: int, h2: int, m2: int)
    requires
        0 <= m1 < 60,
        0 <= m2 < 60,
    ensures
        (h1 * 60 + m1 <= h2 * 60 + m2) <==> (h1 < h2 || (h1 == h2 && m1 <= m2)),
        (h1 * 60 + m1 < h2 * 60 + m2) <==> (h1 < h2 || (h1 == h2 && m1 < m2)),
{
    if h1 < h2 {
        assert(h1 * 60 + m1 < h2 * 60 + m2) by (nonlinear_arith)
            requires
                h1 < h2,
                0 <= m1 < 60,
                0 <= m2 < 60,
        ;
    } else if h1 > h2 {
        assert(h1 * 60 + m1 > h2 * 60 + m2) by (nonlinear_arith)
            requires
                h1 > h2,
                0 <= m1 < 60,
                0 <= m2 < 60,
        ;
    }
}

/// The dispatch window compares whole times of day, minutes as well as
/// hours: `at` is in `[from, to)` exactly when `from` is at or before
/// `at` (an earlier hour, or the same hour and a minute no later) and
/// `at` is before `to` (an earlier hour, or the same hour and an
/// earlier minute). This is also the order of the `HH:MM` texts: `at`
/// does not sort before `from` and sorts before `to`.
pub proof fn lemma_window_compares_whole_times(at: Seq<char>, from: Seq<char>, to: Seq<char>)
    requires
        is_hhmm(at),
        is_hhmm(from),
        is_hhmm(to),
    ensures
        in_window_of(at, from, to) <==> ((two_digits(from[0], from[1]) < two_digits(at[0], at[1]) || (two_digits(
            from[0],
            from[1],
        ) == two_digits(at[0], at[1]) && two_digits(from[3], from[4]) <= two_digits(at[3], at[4]))) && (two_digits(
            at[0],
            at[1],
        ) < two_digits(to[0], to[1]) || (two_digits(at[0], at[1]) == two_digits(to[0], to[1]) && two_digits(
            at[3],
            at[4],
        ) < two_digits(to[3], to[4])))),
        in_window_of(at, from, to) <==> (!text_less(at, from) && text_less(at, to)),
{
    lemma_minute_order(two_digits(from[0], from[1]), two_digits(from[3], from[4]), two_digits(at[0], at[1]), two_digits(at[3], at[4]));
    lemma_minute_order(two_digits(at[0], at[1]), two_digits(at[3], at[4]), two_digits(to[0], to[1]), two_digits(to[3], to[4]));
    lemma_hhmm_text_order(at, from);
    lemma_hhmm_text_order(at, to);
}

/// The absent-notification service: the dispatch window, the dispatch
/// decision, the dispatch record and the body.
pub struct AbsentNotificationService;

impl AbsentNotificationService {
    /// Whether `at` falls in the schedule's window `[time_from,
    /// time_to)`.
    pub fn in_window(at: TimeOfDay, setup: &AbsentNotificationTimeSetup) -> (b: bool)
        ensures
            b == in_window_of(at@, setup.time_from@, setup.time_to@),
    {
        let m = at.minutes_since_midnight();
        setup.time_from.minutes_since_midnight() <= m && m < setup.time_to.minutes_since_midnight()
    }

    /// Whether to dispatch now: the schedule is enabled and `at` is in
    /// its window.
    pub fn should_dispatch(at: TimeOfDay, setup: &AbsentNotificationTimeSetup) -> (b: bool)
        ensures
            b == (setup.status == AbsentNotificationStatus::Enabled && in_window_of(
                at@,
                setup.time_from@,
                setup.time_to@,
            )),
    {
        matches!(setup.status, AbsentNotificationStatus::Enabled) && Self::in_window(at, setup)
    }

    /// Builds the dispatch record of one absent student on one channel,
    /// from the pre-rendered body, the resolved recipients, the outcome
    /// and the dispatch time.
    pub fn build_dispatch(
        id: AbsentNotificationDispatchId,
        setup_id: AbsentNotificationTimeSetupId,
        student_id: StudentId,
        channel: Channel,
        rendered_body: String,
        recipients: Vec<UserId>,
        outcome: DeliveryOutcome,
        dispatched_at: Timestamp,
        correlation_id: CorrelationId,
    ) -> (d: AbsentNotificationDispatch)
        ensures
            d.id == id,
            d.school_id == id.school_id,
            d.absent_notification_time_setup_id == setup_id,
            d.student_id == student_id,
            d.channel == channel,
            d.rendered_body == rendered_body,
            d.recipients == recipients,
            d.outcome == outcome,
            d.dispatched_at == dispatched_at,
            d.correlation_id == correlation_id,
    {
        AbsentNotificationDispatch::new(
            id,
            setup_id,
            student_id,
            channel,
            rendered_body,
            recipients,
            outcome,
            dispatched_at,
            correlation_id,
        )
    }

    /// Renders the absent-notification body of a template with the
    /// values of `vars` (see [`TemplateService::render`]).
    pub fn render(template: &SmsTemplate, vars: &TextMap) -> (r: Result<RenderedBody, DomainError>)
        ensures
            r is Ok <==> substituted(template.body@, vars@, 0) is Some,
            r matches Ok(v) ==> substituted(template.body@, vars@, 0) == Some(v@),
            r matches Err(e) ==> e is Validation,
    {
        TemplateService::render(template, vars)
    }
}

// =============================================================================
// TemplateService::render
// =============================================================================

impl TemplateService {
    /// Renders the body of a template: every declared variable must
    /// have a value in `vars`, and every placeholder is replaced by its
    /// value.
    pub fn render(template: &SmsTemplate, vars: &TextMap) -> (r: Result<RenderedBody, DomainError>)
        ensures
            r is Ok <==> substituted(template.body@, vars@, 0) is Some,
            r matches Ok(v) ==> substituted(template.body@, vars@, 0) == Some(v@),
            r matches Err(e) ==> e is Validation,
    {
        Self::render_body(template.body.as_str(), vars)
    }
}

// =============================================================================
// Policy: SmsDispatchPolicy
// =============================================================================

/// The SMS dispatch policy, checked before a broadcast is dispatched.
pub struct SmsDispatchPolicy;

impl SmsDispatchPolicy {
    /// Allows the dispatch when the message is a draft, its `publish_on`
    /// date (if any) is not after `now`, and its audience is non-empty;
    /// the first check that fails gives the error.
    pub fn check(cmd: &DispatchSendMessageCommand, sm: &SendMessage, now: CalendarDate) -> (r: Result<(), DomainError>)
        ensures
            sm.status != SendMessageStatus::Draft ==> (r matches Err(e) && e is Conflict),
            sm.status == SendMessageStatus::Draft && (sm.publish_on matches Some(p) && now.before(p))
                ==> (r matches Err(e) && e is Validation),
            sm.status == SendMessageStatus::Draft && !(sm.publish_on matches Some(p) && now.before(p))
                && sm.audience@.len() == 0 ==> (r matches Err(e) && e is Validation),
            r is Ok <==> (sm.status == SendMessageStatus::Draft && !(sm.publish_on matches Some(p)
                && now.before(p)) && sm.audience@.len() > 0),
    {
        if !matches!(sm.status, SendMessageStatus::Draft) {
            return Err(DomainError::conflict("send message is not in a dispatchable status"));
        }
        if let Some(publish_on) = sm.publish_on {
            if now.is_before(&publish_on) {
                return Err(DomainError::validation("send message publish_on is in the future"));
            }
        }
        if sm.audience.len() == 0 {
            return Err(DomainError::validation("send message audience is empty"));
        }
        Ok(())
    }
}

// =============================================================================
// Specification: ActiveRecipients
// =============================================================================

/// The "active recipients" specification: a notification whose status
/// is `Pending` or `Dispatched`.
pub struct ActiveRecipients;

impl ActiveRecipients {
    /// Whether the notification is an active recipient record.
    pub fn is_satisfied_by(n: &Notification) -> (b: bool)
        ensures
            b == (n.status == NotificationStatus::Pending || n.status == NotificationStatus::Dispatched),
    {
        matches!(n.status, NotificationStatus::Pending | NotificationStatus::Dispatched)
    }
}

// =============================================================================
// Specification: NoticesPublishedInRange
// =============================================================================

/// The "notices published in range" specification: a published notice
/// whose date lies in `[from, to]`.
pub struct NoticesPublishedInRange;

impl NoticesPublishedInRange {
    /// Whether the notice is published and dated within `[from, to]`.
    pub fn is_satisfied_by(notice: &Notice, from: CalendarDate, to: CalendarDate) -> (b: bool)
        ensures
            b == (notice.status == NoticeStatus::Published && from.on_or_before(notice.notice_date)
                && notice.notice_date.on_or_before(to)),
    {
        matches!(notice.status, NoticeStatus::Published) && from.is_on_or_before(&notice.notice_date)
            && notice.notice_date.is_on_or_before(&to)
    }
}

// =============================================================================
// Policy: ChatInvitePolicy
// =============================================================================

/// Whether `actor` has blocked `to` in `blocks`.
pub open spec fn has_blocked(blocks: Seq<ChatBlockUser>, actor: UserId, to: UserId) -> bool {
    exists|i: int| 0 <= i < blocks.len() && (#[trigger] blocks[i]).block_by == actor && blocks[i].block_to == to
}

/// Whether `invitations` hold a pending invitation from `from` to `to`.
pub open spec fn has_pending_invitation(invitations: Seq<ChatInvitation>, from: UserId, to: UserId) -> bool {
    exists|i: int|
        0 <= i < invitations.len() && (#[trigger] invitations[i]).from == from && invitations[i].to == to
            && invitations[i].status == ChatInvitationStatus::Pending
}

/// The chat invite policy, checked before an invitation is sent.
pub struct ChatInvitePolicy;

impl ChatInvitePolicy {
    /// Allows the invitation unless it is addressed to the actor
    /// (validation error), the actor has blocked the recipient
    /// (forbidden), or the actor has already received a pending
    /// invitation from the recipient (conflict), checked in that order.
    pub fn check(
        cmd: &SendChatInvitationCommand,
        blocks: &[ChatBlockUser],
        open_invitations: &[ChatInvitation],
    ) -> (r: Result<(), DomainError>)
        ensures
            cmd.to == cmd.tenant.actor_id ==> (r matches Err(e) && e is Validation),
            cmd.to != cmd.tenant.actor_id && has_blocked(blocks@, cmd.tenant.actor_id, cmd.to) ==> (r matches Err(e)
                && e is Forbidden),
            cmd.to != cmd.tenant.actor_id && !has_blocked(blocks@, cmd.tenant.actor_id, cmd.to)
                && has_pending_invitation(open_invitations@, cmd.to, cmd.tenant.actor_id) ==> (r matches Err(e)
                && e is Conflict),
            r is Ok <==> (cmd.to != cmd.tenant.actor_id && !has_blocked(blocks@, cmd.tenant.actor_id, cmd.to)
                && !has_pending_invitation(open_invitations@, cmd.to, cmd.tenant.actor_id)),
    {
        let actor = cmd.tenant.actor_id;
        if cmd.to == actor {
            return Err(DomainError::validation("cannot send a chat invitation to yourself"));
        }
        let mut k: usize = 0;
        while k < blocks.len()
            invariant
                k <= blocks@.len(),
                actor == cmd.tenant.actor_id,
                cmd.to != actor,
                forall|j: int| 0 <= j < k ==> !((#[trigger] blocks@[j]).block_by == actor && blocks@[j].block_to == cmd.to),
            decreases blocks@.len() - k,
        {
            if blocks[k].block_by == actor && blocks[k].block_to == cmd.to {
                return Err(DomainError::forbidden("actor has blocked the recipient"));
            }
            k += 1;
        }
        let mut k: usize = 0;
        while k < open_invitations.len()
            invariant
                k <= open_invitations@.len(),
                actor == cmd.tenant.actor_id,
                cmd.to != actor,
                !has_blocked(blocks@, actor, cmd.to),
                forall|j: int|
                    0 <= j < k ==> !((#[trigger] open_invitations@[j]).from == cmd.to && open_invitations@[j].to == actor
                        && open_invitations@[j].status == ChatInvitationStatus::Pending),
            decreases open_invitations@.len() - k,
        {
            let inv = &open_invitations[k];
            if inv.from == cmd.to && inv.to == actor && matches!(inv.status, ChatInvitationStatus::Pending) {
                return Err(DomainError::conflict("an open invitation already exists for this pair"));
            }
            k += 1;
        }
        Ok(())
    }
}

} // verus!
