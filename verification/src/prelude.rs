//! The names most callers need, in one place: the engine-wide
//! identifiers and ports, the aggregates, child entities, commands,
//! events, queries, value objects, factory services and service
//! structs.
pub use crate::foundation::{
    AcademicYearId, ActiveStatus, CalendarDate, ClassId, Clock, CorrelationId, Etag, EventId,
    IdGenerator, RoleId, SchoolId, SectionId, StaffId, StudentId, SubjectId, SystemClock,
    SystemIdGen, TenantContext, Timestamp, UserId, UserType, Version,
};
pub use crate::errors::{
    CommunicationError, DomainError,
};
pub use crate::aggregate::{
    AbsentNotificationTimeSetup, ChatBlockUser, ChatConversation, ChatGroup,
    ChatGroupMessageRecipient, ChatGroupMessageRemove, ChatGroupUser, ChatInvitation,
    ChatInvitationType, ChatMessage, ChatStatusRecord, Complaint, ComplaintType, ContactMessage,
    CustomSmsSetting, EmailLog, EmailSetting, Notice, Notification, NotificationSetting,
    PhoneCallLog, SendMessage, SmsGateway, SmsLog, SmsTemplate, SpeechSlider,
};
pub use crate::entities::{
    AbsentNotificationDispatch, ChatConversationLastRead, ChatGroupAvatar, ChatGroupMessage,
    ComplaintNote, ContactMessageReply, CustomSmsSettingParam, DeliveryOutcome, EmailSettingSecret,
    NoticeAttachment, NoticeAudience, NotificationDeliveryAttempt, NotificationSettingAudience,
    NotificationSettingAudienceKind, SendMessageRecipient, SmsGatewayCredential,
    SmsTemplateVariable,
};
pub use crate::events::{
    AbsentNotificationDeleted, AbsentNotificationDisabled, AbsentNotificationEnabled,
    AbsentNotificationScheduled, AbsentNotificationSent, ChatConversationClosed,
    ChatConversationOpened, ChatGroupCreated, ChatGroupDeleted, ChatGroupReadOnlySet,
    ChatGroupUpdated, ChatGroupUserAdded, ChatGroupUserRemoved, ChatGroupUserRoleChanged,
    ChatInvitationAccepted, ChatInvitationClassified, ChatInvitationRejected, ChatInvitationSent,
    ChatMessageDeleted, ChatMessageSeen, ChatMessageSent, ChatStatusSet, ComplaintAssigned,
    ComplaintNoteAdded, ComplaintRegistered, ComplaintResolved, ComplaintStatusChanged,
    ComplaintTypeCreated, ComplaintTypeDeleted, ComplaintTypeUpdated, ContactMessageReceived,
    ContactMessageReplied, ContactMessageViewed, CustomSmsSettingCreated, CustomSmsSettingDeleted,
    CustomSmsSettingUpdated, DomainEvent, EmailLogged, EmailSettingActivated,
    EmailSettingConfigured, EmailSettingDeleted, GroupMessageMarkedRead,
    GroupMessageRecipientRecorded, GroupMessageRemovedForUser, NoticeCreated, NoticeDeleted,
    NoticePublished, NoticeUnpublished, NoticeUpdated, NotificationRead, NotificationSent,
    NotificationSettingCreated, NotificationSettingDeleted, NotificationSettingUpdated,
    NotificationWithdrawn, PhoneCallFollowUpUpdated, PhoneCallLogged, SendMessageCancelled,
    SendMessageCreated, SendMessageDispatched, SmsGatewayActivated, SmsGatewayConfigured,
    SmsGatewayDeleted, SmsLogged, SmsTemplateCreated, SmsTemplateDeleted, SmsTemplateDisabled,
    SmsTemplateEnabled, SmsTemplateUpdated, SpeechSliderCreated, SpeechSliderDeleted,
    SpeechSliderUpdated, UserBlocked, UserUnblocked,
};
pub use crate::query::{
    AbsentNotificationTimeSetupQuery, ChatBlockUserQuery, ChatConversationQuery,
    ChatGroupMessageRecipientQuery, ChatGroupMessageRemoveQuery, ChatGroupQuery,
    ChatGroupUserQuery, ChatInvitationQuery, ChatInvitationTypeQuery, ChatMessageQuery,
    ChatStatusQuery, ComplaintQuery, ComplaintTypeQuery, ContactMessageQuery,
    CustomSmsSettingQuery, EmailLogQuery, EmailSettingQuery, NoticeQuery, NotificationQuery,
    NotificationSettingQuery, PhoneCallLogQuery, SendMessageQuery, SmsGatewayQuery, SmsLogQuery,
    SmsTemplateQuery, SpeechSliderQuery,
};
pub use crate::commands::{
    AcceptChatInvitationCommand, ActivateEmailSettingCommand, ActivateSmsGatewayCommand,
    AddComplaintNoteCommand, AddUserToChatGroupCommand, AssignComplaintCommand, BlockUserCommand,
    CancelSendMessageCommand, ClassifyChatInvitationCommand, CloseChatConversationCommand,
    ConfigureAbsentNotificationCommand, ConfigureEmailSettingCommand, ConfigureSmsGatewayCommand,
    CreateChatGroupCommand, CreateComplaintTypeCommand, CreateCustomSmsSettingCommand,
    CreateNoticeCommand, CreateNotificationSettingCommand, CreateSendMessageCommand,
    CreateSmsTemplateCommand, CreateSpeechSliderCommand, DeleteAbsentNotificationCommand,
    DeleteChatGroupCommand, DeleteChatMessageCommand, DeleteComplaintTypeCommand,
    DeleteCustomSmsSettingCommand, DeleteEmailSettingCommand, DeleteNoticeCommand,
    DeleteNotificationSettingCommand, DeleteSmsGatewayCommand, DeleteSmsTemplateCommand,
    DeleteSpeechSliderCommand, DisableAbsentNotificationCommand, DisableSmsTemplateCommand,
    DispatchSendMessageCommand, EnableAbsentNotificationCommand, EnableSmsTemplateCommand,
    LogEmailSentCommand, LogPhoneCallCommand, LogSmsSentCommand, MarkChatMessageSeenCommand,
    MarkContactMessageViewedCommand, MarkGroupMessageReadCommand, MarkNotificationReadCommand,
    OpenChatConversationCommand, PublishNoticeCommand, ReceiveContactMessageCommand,
    RecordGroupMessageRecipientCommand, RegisterComplaintCommand, RejectChatInvitationCommand,
    RemoveGroupMessageForUserCommand, RemoveUserFromChatGroupCommand, ReplyToContactMessageCommand,
    ResolveComplaintCommand, SendChatInvitationCommand, SendChatMessageCommand,
    SendNotificationCommand, SetChatGroupReadOnlyCommand, SetChatGroupUserRoleCommand,
    SetChatStatusCommand, UnblockUserCommand, UnpublishNoticeCommand, UpdateChatGroupCommand,
    UpdateComplaintStatusCommand, UpdateComplaintTypeCommand, UpdateCustomSmsSettingCommand,
    UpdateNoticeCommand, UpdateNotificationSettingCommand, UpdatePhoneCallFollowUpCommand,
    UpdateSmsTemplateCommand, UpdateSpeechSliderCommand, WithdrawNotificationCommand,
};
pub use crate::services::{
    AbsentNotificationService, ActiveRecipients, ChatInvitePolicy, ChatService, ComplaintService,
    NoticesPublishedInRange, NotificationService, SmsDispatchPolicy, accept_chat_invitation,
    activate_email_setting, activate_sms_gateway, add_complaint_note, add_user_to_chat_group,
    assign_complaint, block_user, cancel_send_message, classify_chat_invitation,
    close_chat_conversation, configure_absent_notification, configure_email_setting,
    configure_sms_gateway, create_chat_group, create_complaint_type, create_custom_sms_setting,
    create_notice, create_notification_setting, create_send_message, create_sms_template,
    create_speech_slider, delete_absent_notification, delete_chat_group, delete_chat_message,
    delete_complaint_type, delete_custom_sms_setting, delete_email_setting, delete_notice,
    delete_notification_setting, delete_sms_gateway, delete_sms_template, delete_speech_slider,
    disable_absent_notification, disable_sms_template, dispatch_send_message,
    enable_absent_notification, enable_sms_template, log_email_sent, log_phone_call, log_sms_sent,
    mark_as_read, mark_chat_message_seen, mark_contact_message_viewed, mark_group_message_read,
    mark_notification_read, notify_user, open_chat_conversation, publish_notice,
    receive_contact_message, record_group_message_recipient, register_complaint,
    reject_chat_invitation, remove_group_message_for_user, remove_user_from_chat_group,
    reply_to_contact_message, resolve_complaint, send_chat_invitation, send_chat_message,
    send_chat_message_headline, send_complaint_message, send_email_message, send_notice_message,
    send_notification, send_sms_message, set_chat_group_read_only, set_chat_group_user_role,
    set_chat_status, unblock_user, unpublish_notice, update_chat_group, update_complaint_status,
    update_complaint_type, update_custom_sms_setting, update_notice, update_notification_setting,
    update_phone_call_follow_up, update_sms_template, update_speech_slider, withdraw_notification,
};
pub use crate::value_objects::{
    AbsentNotificationDispatchId, AbsentNotificationStatus, AbsentNotificationTimeSetupId,
    AudienceDescriptor, CallDescription, CallDuration, CallType, Channel, ChatBlockUserId,
    ChatConversationId, ChatConversationLastReadId, ChatGroupAvatarId, ChatGroupId,
    ChatGroupMessageId, ChatGroupMessageRecipientId, ChatGroupMessageRemoveId, ChatGroupPrivacy,
    ChatGroupRole, ChatGroupType, ChatGroupUserId, ChatInvitationId, ChatInvitationStatus,
    ChatInvitationTypeEnum, ChatInvitationTypeId, ChatMessageBody, ChatMessageId,
    ChatMessageStatus, ChatStatus, ChatStatusId, ComplaintAction, ComplaintDescription,
    ComplaintId, ComplaintNoteId, ComplaintSource, ComplaintStatus, ComplaintTypeId,
    ContactMessageId, ContactMessageReplyId, ContactMessageReplyStatus, ContactMessageViewStatus,
    CustomSmsSettingId, Destination, DispatchDate, EmailAddress, EmailLogId, EmailSettingId,
    EmailSettingSecretId, EmailSubject, FileReference, GatewayName, GatewayType, MailDriver,
    MailDriverName, MailEncryption, MessageId, MessageType, NoticeAttachmentId, NoticeBody,
    NoticeDate, NoticeId, NoticeStatus, NoticeTitle, NoticeType, NotificationDeliveryAttemptId,
    NotificationId, NotificationMessage, NotificationRoute, NotificationSettingId,
    NotificationStatus, NotificationType, PersonName, PhoneCallLogId, PhoneNumber, PublishOn,
    RenderWarning, RenderedBody, RequestMethod, SecretReference, SendMessageId,
    SendMessageRecipientId, SendMessageStatus, Slug, SmsGatewayCredentialId, SmsGatewayCredentials,
    SmsGatewayId, SmsLogId, SmsTemplateId, SmsTemplateStatus, SpeechSliderId, SpeechText,
    StarRating, TemplateBody, TemplateKey, TemplateVariable, TimeOfDay, TimeWindow, Url,
};
pub use crate::rendering::{
    TextMap,
};
pub use crate::template::{
    NotificationTemplate, NotificationTemplateId, VariableMap,
};
