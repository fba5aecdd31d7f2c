use educore_communication::prelude::{
    AbsentNotificationDispatch, AbsentNotificationTimeSetup, ChatBlockUser, ChatConversation,
    ChatConversationLastRead, ChatGroup, ChatGroupAvatar, ChatGroupMessage,
    ChatGroupMessageRecipient, ChatGroupMessageRemove, ChatGroupUser, ChatInvitation,
    ChatInvitationType, ChatMessage, ChatStatusRecord, Complaint, ComplaintNote, ComplaintType,
    ContactMessage, ContactMessageReply, CustomSmsSetting, EmailLog, EmailSetting,
    EmailSettingSecret, Notice, NoticeAttachment, Notification, NotificationDeliveryAttempt,
    NotificationSetting, PhoneCallLog, SendMessage, SendMessageRecipient, SmsGateway,
    SmsGatewayCredential, SmsLog, SmsTemplate, SpeechSlider,
};
use educore_communication::{PACKAGE_NAME, PACKAGE_VERSION};

#[test]
fn package_metadata_is_set() {
    assert_eq!(PACKAGE_NAME, "educore-communication");
    assert!(!PACKAGE_VERSION.is_empty());
}

#[test]
fn prelude_exports_expected_symbols() {
    let _: Option<Notice> = None;
    let _: Option<Complaint> = None;
    let _: Option<ComplaintType> = None;
    let _: Option<Notification> = None;
    let _: Option<EmailLog> = None;
    let _: Option<SmsLog> = None;
    let _: Option<SmsTemplate> = None;
    let _: Option<EmailSetting> = None;
    let _: Option<SmsGateway> = None;
    let _: Option<NotificationSetting> = None;
    let _: Option<AbsentNotificationTimeSetup> = None;
    let _: Option<ChatMessage> = None;
    let _: Option<ChatConversation> = None;
    let _: Option<ChatGroup> = None;
    let _: Option<ChatGroupUser> = None;
    let _: Option<ChatGroupMessageRecipient> = None;
    let _: Option<ChatGroupMessageRemove> = None;
    let _: Option<ChatBlockUser> = None;
    let _: Option<ChatInvitation> = None;
    let _: Option<ChatInvitationType> = None;
    let _: Option<ChatStatusRecord> = None;
    let _: Option<SendMessage> = None;
    let _: Option<ContactMessage> = None;
    let _: Option<SpeechSlider> = None;
    let _: Option<PhoneCallLog> = None;
    let _: Option<CustomSmsSetting> = None;

    let _: Option<NoticeAttachment> = None;
    let _: Option<ComplaintNote> = None;
    let _: Option<NotificationDeliveryAttempt> = None;
    let _: Option<ChatGroupAvatar> = None;
    let _: Option<ChatGroupMessage> = None;
    let _: Option<ChatConversationLastRead> = None;
    let _: Option<SendMessageRecipient> = None;
    let _: Option<EmailSettingSecret> = None;
    let _: Option<SmsGatewayCredential> = None;
    let _: Option<AbsentNotificationDispatch> = None;
    let _: Option<ContactMessageReply> = None;
}
