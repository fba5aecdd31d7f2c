use educore_communication::errors::DomainError;
use educore_communication::foundation::{IdGenerator, SystemIdGen};
use educore_communication::query::{
    AbsentNotificationTimeSetupQuery, ChatBlockUserQuery, ChatConversationQuery,
    ChatGroupMessageRecipientQuery, ChatGroupMessageRemoveQuery, ChatGroupQuery,
    ChatGroupUserQuery, ChatInvitationQuery, ChatInvitationTypeQuery, ChatMessageQuery,
    ChatStatusQuery, ComplaintQuery, ComplaintTypeQuery, ContactMessageQuery,
    CustomSmsSettingQuery, EmailLogQuery, EmailSettingQuery, NoticeQuery, NotificationQuery,
    NotificationSettingQuery, PhoneCallLogQuery, SendMessageQuery, SmsGatewayQuery, SmsLogQuery,
    SmsTemplateQuery, SpeechSliderQuery,
};

#[test]
fn query_type_strings_are_stable() {
    assert_eq!(NoticeQuery::query_type(), "communication.notice.query");
    assert_eq!(ComplaintQuery::query_type(), "communication.complaint.query");
    assert_eq!(ComplaintTypeQuery::query_type(), "communication.complaint_type.query");
    assert_eq!(NotificationQuery::query_type(), "communication.notification.query");
    assert_eq!(EmailLogQuery::query_type(), "communication.email_log.query");
    assert_eq!(SmsLogQuery::query_type(), "communication.sms_log.query");
    assert_eq!(SmsTemplateQuery::query_type(), "communication.sms_template.query");
    assert_eq!(EmailSettingQuery::query_type(), "communication.email_setting.query");
    assert_eq!(SmsGatewayQuery::query_type(), "communication.sms_gateway.query");
    assert_eq!(
        NotificationSettingQuery::query_type(),
        "communication.notification_setting.query"
    );
    assert_eq!(
        AbsentNotificationTimeSetupQuery::query_type(),
        "communication.absent_notification_time_setup.query"
    );
    assert_eq!(ChatMessageQuery::query_type(), "communication.chat_message.query");
    assert_eq!(ChatConversationQuery::query_type(), "communication.chat_conversation.query");
    assert_eq!(ChatGroupQuery::query_type(), "communication.chat_group.query");
    assert_eq!(ChatGroupUserQuery::query_type(), "communication.chat_group_user.query");
    assert_eq!(
        ChatGroupMessageRecipientQuery::query_type(),
        "communication.chat_group_message_recipient.query"
    );
    assert_eq!(
        ChatGroupMessageRemoveQuery::query_type(),
        "communication.chat_group_message_remove.query"
    );
    assert_eq!(ChatBlockUserQuery::query_type(), "communication.chat_block_user.query");
    assert_eq!(ChatInvitationQuery::query_type(), "communication.chat_invitation.query");
    assert_eq!(
        ChatInvitationTypeQuery::query_type(),
        "communication.chat_invitation_type.query"
    );
    assert_eq!(ChatStatusQuery::query_type(), "communication.chat_status.query");
    assert_eq!(SendMessageQuery::query_type(), "communication.send_message.query");
    assert_eq!(ContactMessageQuery::query_type(), "communication.contact_message.query");
    assert_eq!(SpeechSliderQuery::query_type(), "communication.speech_slider.query");
    assert_eq!(PhoneCallLogQuery::query_type(), "communication.phone_call_log.query");
    assert_eq!(CustomSmsSettingQuery::query_type(), "communication.custom_sms_setting.query");
}

#[test]
fn every_query_returns_not_supported() {
    let g = SystemIdGen;
    let s = g.next_school_id();
    let u = g.next_user_id();
    let q1 = NoticeQuery {
        school_id: s,
        active_only: true,
        audience_filter: None,
        date_range: None,
        notice_type: None,
        status: None,
        limit: None,
    };
    assert!(matches!(q1.execute(), Err(DomainError::NotSupported(_))));
    let q2 = ComplaintQuery {
        school_id: s,
        active_only: true,
        status: None,
        assignee_user_id: Some(u),
        complaint_type_id: None,
        complaint_source: None,
        date_range: None,
        limit: None,
    };
    assert!(q2.execute().is_err());
    let q3 = ComplaintTypeQuery { school_id: s, active_only: true, search: None, limit: None };
    assert!(q3.execute().is_err());
    let q24 = SpeechSliderQuery { school_id: s, active_only: true, search: None, limit: None };
    assert!(q24.execute().is_err());
}
