use educore_communication::aggregate::{ChatBlockUser, ChatInvitation, Complaint, SendMessage};
use educore_communication::commands::{
    CreateComplaintTypeCommand, CreateNoticeCommand, CreateSendMessageCommand, CreateSmsTemplateCommand,
    LogEmailSentCommand, PublishNoticeCommand, ReceiveContactMessageCommand,
    RegisterComplaintCommand, SendChatInvitationCommand, UpdateComplaintTypeCommand,
    UpdateNoticeCommand,
};
use educore_communication::entities::DeliveryOutcome;
use educore_communication::errors::DomainError;
use educore_communication::events::{DomainEvent, EmailLogged, NoticeCreated};
use educore_communication::foundation::{
    CalendarDate, CorrelationId, IdGenerator, SchoolId, SystemClock, SystemIdGen,
    TenantContext, Timestamp, UserId, UserType,
};
use educore_communication::rendering::{TemplateService, TextMap};
use educore_communication::services::{
    create_complaint_type, create_notice, create_send_message, create_sms_template, log_email_sent, publish_notice,
    receive_contact_message, register_complaint, send_chat_invitation, update_complaint_type, update_notice,
    ChatInvitePolicy, ComplaintService,
    SmsDispatchPolicy,
};
use educore_communication::value_objects::{
    AudienceDescriptor, Channel, ChatInvitationTypeEnum, ComplaintAction, ComplaintDescription,
    ComplaintSource, ComplaintStatus, ComplaintTypeId, EmailAddress, EmailSubject, MailDriver,
    NoticeBody, NoticeTitle, PersonName, RenderWarning, TemplateBody, TemplateVariable,
};

fn ctx() -> (SchoolId, UserId, Timestamp, CorrelationId, TenantContext) {
    let g = SystemIdGen;
    let school = g.next_school_id();
    let user = g.next_user_id();
    let corr = g.next_correlation_id();
    let tenant = TenantContext::for_user(school, user, corr, UserType::SchoolAdmin);
    (school, user, Timestamp::now(), corr, tenant)
}

fn notice_date() -> CalendarDate {
    CalendarDate::from_ymd_opt(2026, 6, 15).unwrap()
}

fn sms_template_cmd(tenant: TenantContext, body: &str, names: &[&str]) -> CreateSmsTemplateCommand {
    CreateSmsTemplateCommand {
        tenant,
        channel: Channel::Sms,
        purpose: "absent".to_owned(),
        subject: EmailSubject::new("Subject").unwrap(),
        body: TemplateBody::new(body).unwrap(),
        module: "attendance".to_owned(),
        variables: names.iter().map(|n| TemplateVariable::new(n, "").unwrap()).collect(),
    }
}

#[test]
fn create_notice_emits_event() {
    let (school, _user, _at, _corr, tenant) = ctx();
    let cmd = CreateNoticeCommand {
        tenant,
        title: NoticeTitle::new("Holiday").unwrap(),
        body: NoticeBody::new("School closed on Monday").unwrap(),
        notice_date: notice_date(),
        publish_on: Some(notice_date()),
        audience: AudienceDescriptor::All,
        attachment: None,
    };
    let (notice, event) = create_notice(cmd, &SystemClock, &SystemIdGen).unwrap();
    assert_eq!(notice.school_id, school);
    assert_eq!(event.event_type(), "communication.notice.created");
    let _: &NoticeCreated = &event;
}

#[test]
fn log_email_sent_emits_event() {
    let (_school, _user, _at, _corr, tenant) = ctx();
    let cmd = LogEmailSentCommand {
        tenant,
        title: "Receipt".to_owned(),
        description: "Thanks".to_owned(),
        send_date: notice_date(),
        send_through: MailDriver::Smtp,
        send_to: EmailAddress::new("parent@example.com").unwrap(),
        message_id: None,
    };
    let (_log, event) = log_email_sent(cmd, &SystemClock, &SystemIdGen).unwrap();
    assert_eq!(event.event_type(), "communication.email_log.logged");
    let _: &EmailLogged = &event;
}

#[test]
fn template_service_render_with_all_vars_resolves() {
    let (_school, _user, _at, _corr, tenant) = ctx();
    let cmd = sms_template_cmd(
        tenant,
        "Hello {{name}}, your child {{child}} is absent on {{date}}.",
        &["name", "child", "date"],
    );
    let (template, _event) = create_sms_template(cmd, &SystemClock, &SystemIdGen).unwrap();
    let mut vars = TextMap::new();
    vars.insert("name".to_owned(), "Alice".to_owned());
    vars.insert("child".to_owned(), "Bob".to_owned());
    vars.insert("date".to_owned(), "2026-06-15".to_owned());
    let rendered = TemplateService::render(&template, &vars).unwrap();
    assert_eq!(rendered.as_str(), "Hello Alice, your child Bob is absent on 2026-06-15.");
}

#[test]
fn template_service_render_with_missing_var_fails() {
    let (_school, _user, _at, _corr, tenant) = ctx();
    let cmd = sms_template_cmd(tenant, "Hello {{name}}", &["name"]);
    let (template, _event) = create_sms_template(cmd, &SystemClock, &SystemIdGen).unwrap();
    let empty = TextMap::new();
    let err = TemplateService::render(&template, &empty).unwrap_err();
    assert!(matches!(err, DomainError::Validation(_)));
}

#[test]
fn template_service_declared_returns_unique_names() {
    let body = "Hi {{name}}, {{name}}! Welcome to {{school}}.";
    let declared = TemplateService::declared(body);
    assert_eq!(declared, vec!["name".to_owned(), "school".to_owned()]);
}

#[test]
fn template_service_lint_detects_html() {
    let body = "Hello <b>name</b>";
    let warnings = TemplateService::lint(body);
    assert!(warnings.iter().any(|w| matches!(w, RenderWarning::HtmlInSms { .. })));
}

#[test]
fn empty_map_renders_a_body_without_placeholders_verbatim() {
    let (_school, _user, _at, _corr, tenant) = ctx();
    let body = "No placeholders here: just text, and a lone { brace.";
    let cmd = sms_template_cmd(tenant, body, &[]);
    let (template, _event) = create_sms_template(cmd, &SystemClock, &SystemIdGen).unwrap();
    let rendered = TemplateService::render(&template, &TextMap::new()).unwrap();
    assert_eq!(rendered.as_str(), body);
}

#[test]
fn empty_map_fails_exactly_when_a_placeholder_exists() {
    assert!(TemplateService::render_body("plain", &TextMap::new()).is_ok());
    assert!(TemplateService::render_body("a {{x}} b", &TextMap::new()).is_err());
    assert!(TemplateService::render_body("unterminated {{x", &TextMap::new()).is_ok());
}

#[test]
fn substitute_rejects_malformed_placeholder() {
    let mut vars = TextMap::new();
    vars.insert("a".to_owned(), "1".to_owned());
    let err = TemplateService::substitute("x {{}} y", &vars).unwrap_err();
    assert!(matches!(err, DomainError::Validation(_)));
    assert_eq!(TemplateService::substitute("x {{a}}{{a}} y", &vars).unwrap(), "x 11 y");
}

#[test]
fn validate_body_requires_every_variable_declared() {
    let vars = vec![TemplateVariable::new("name", "").unwrap()];
    assert!(TemplateService::validate_body("Hi {{name}}", &vars).is_ok());
    let err = TemplateService::validate_body("Hi there", &vars).unwrap_err();
    assert!(matches!(err, DomainError::Validation(_)));
}

#[test]
fn lint_reports_mismatched_braces_first() {
    let warnings = TemplateService::lint("{{a} <i>x</i>");
    assert_eq!(warnings.len(), 2);
    assert!(matches!(warnings[0], RenderWarning::MismatchedBraces { position: 0, .. }));
    assert!(matches!(warnings[1], RenderWarning::HtmlInSms { .. }));
    assert!(TemplateService::lint("{{a}} plain").is_empty());
}

#[test]
fn created_notice_reuses_event_uuid_and_tenant() {
    let (school, user, _at, corr, tenant) = ctx();
    let cmd = CreateNoticeCommand {
        tenant,
        title: NoticeTitle::new("Exam").unwrap(),
        body: NoticeBody::new("Exams start Monday").unwrap(),
        notice_date: notice_date(),
        publish_on: None,
        audience: AudienceDescriptor::All,
        attachment: None,
    };
    let (notice, event) = create_notice(cmd, &SystemClock, &SystemIdGen).unwrap();
    assert_eq!(notice.id.as_uuid(), event.event_id.as_uuid());
    assert_eq!(notice.id.school_id(), school);
    assert_eq!(notice.created_by, user);
    assert_eq!(notice.correlation_id, corr);
    assert_eq!(notice.version.value, 1);
    assert_eq!(notice.last_event_id, Some(event.event_id));
    assert_eq!(event.notice_id, notice.id);
    assert_eq!(event.aggregate_id(), notice.id.as_uuid());
    assert_eq!(event.school_id(), school);
    assert_eq!(event.occurred_at(), notice.created_at);
}

#[test]
fn update_then_publish_bumps_version_each_time() {
    let (_school, _user, _at, _corr, tenant) = ctx();
    let cmd = CreateNoticeCommand {
        tenant,
        title: NoticeTitle::new("Exam").unwrap(),
        body: NoticeBody::new("Exams start Monday").unwrap(),
        notice_date: notice_date(),
        publish_on: None,
        audience: AudienceDescriptor::All,
        attachment: None,
    };
    let (mut notice, _) = create_notice(cmd, &SystemClock, &SystemIdGen).unwrap();
    let update = UpdateNoticeCommand {
        tenant,
        notice_id: notice.id,
        title: Some(NoticeTitle::new("Exams").unwrap()),
        body: None,
        publish_on: None,
        audience: None,
    };
    let ev = update_notice(update, &SystemClock, &SystemIdGen, &mut notice).unwrap();
    assert_eq!(ev.changes, vec!["title".to_owned()]);
    assert_eq!(notice.title.as_str(), "Exams");
    assert_eq!(notice.version.value, 2);
    let publish = PublishNoticeCommand { tenant, notice_id: notice.id, publish_at: None };
    let ev = publish_notice(publish, &SystemClock, &SystemIdGen, &mut notice).unwrap();
    assert_eq!(ev.published_at, ev.occurred_at);
    assert_eq!(notice.version.value, 3);
    assert_eq!(notice.last_event_id, Some(ev.event_id));
}

#[test]
fn contact_message_requires_email_and_phone() {
    let (_school, _user, _at, _corr, tenant) = ctx();
    let cmd = ReceiveContactMessageCommand {
        tenant,
        name: PersonName::new("Ann").unwrap(),
        phone: None,
        email: Some(EmailAddress::new("ann@example.com").unwrap()),
        subject: EmailSubject::new("Admissions").unwrap(),
        message: "Hello".to_owned(),
    };
    let err = receive_contact_message(cmd, &SystemClock, &SystemIdGen).unwrap_err();
    assert!(matches!(err, DomainError::Validation(_)));
}

#[test]
fn sms_template_with_overlong_purpose_is_rejected() {
    let (_school, _user, _at, _corr, tenant) = ctx();
    let mut cmd = sms_template_cmd(tenant, "Hi", &[]);
    cmd.purpose = "p".repeat(101);
    let err = create_sms_template(cmd, &SystemClock, &SystemIdGen).unwrap_err();
    assert!(matches!(err, DomainError::Validation(_)));
}

#[test]
fn complaint_status_transitions() {
    assert_eq!(ComplaintService::next_status(ComplaintStatus::Open, ComplaintAction::InProgress), ComplaintStatus::InProgress);
    assert_eq!(ComplaintService::next_status(ComplaintStatus::InProgress, ComplaintAction::Open), ComplaintStatus::Open);
    assert_eq!(ComplaintService::next_status(ComplaintStatus::Open, ComplaintAction::Resolve), ComplaintStatus::Resolved);
    for a in [ComplaintAction::Open, ComplaintAction::InProgress, ComplaintAction::Resolve] {
        assert_eq!(ComplaintService::next_status(ComplaintStatus::Resolved, a), ComplaintStatus::Resolved);
    }
    assert_eq!(
        ComplaintService::escalation_path(ComplaintStatus::Open),
        vec![ComplaintStatus::Open, ComplaintStatus::InProgress, ComplaintStatus::Resolved]
    );
    assert_eq!(ComplaintService::escalation_path(ComplaintStatus::Resolved), vec![ComplaintStatus::Resolved]);
}

#[test]
fn complaint_categorize_falls_back_to_uncategorised() {
    let (school, _user, _at, _corr, tenant) = ctx();
    let cmd = RegisterComplaintCommand {
        tenant,
        complaint_by: None,
        complaint_type_id: ComplaintTypeId::new(school, 9),
        complaint_source: ComplaintSource::Web,
        phone: None,
        date: notice_date(),
        description: ComplaintDescription::new("Noise").unwrap(),
        file: None,
    };
    let (complaint, _): (Complaint, _) = register_complaint(cmd, &SystemClock, &SystemIdGen).unwrap();
    assert!(ComplaintService::is_anonymous(&complaint));
    assert_eq!(ComplaintService::categorize(&complaint, &[]), "Uncategorised");
}

#[test]
fn chat_invite_policy_errors() {
    let (_school, user, _at, _corr, tenant) = ctx();
    let cmd = SendChatInvitationCommand {
        tenant,
        to: user,
        invitation_type: ChatInvitationTypeEnum::OneToOne,
        section_id: None,
        class_teacher_id: None,
    };
    let blocks: Vec<ChatBlockUser> = Vec::new();
    let invites: Vec<ChatInvitation> = Vec::new();
    let err = ChatInvitePolicy::check(&cmd, &blocks, &invites).unwrap_err();
    assert!(matches!(err, DomainError::Validation(_)));
    let other = SystemIdGen.next_user_id();
    let cmd = SendChatInvitationCommand { to: other, ..cmd };
    assert!(ChatInvitePolicy::check(&cmd, &blocks, &invites).is_ok());
}

#[test]
fn sms_dispatch_policy_rejects_empty_audience_and_future_dates() {
    let (_school, _user, _at, _corr, tenant) = ctx();
    let cmd = CreateSendMessageCommand {
        tenant,
        message_title: "Title".to_owned(),
        message_body: "Body".to_owned(),
        notice_date: notice_date(),
        publish_on: None,
        message_to: AudienceDescriptor::All,
    };
    let (sm, _): (SendMessage, _) = create_send_message(cmd, &SystemClock, &SystemIdGen).unwrap();
    let dispatch = educore_communication::commands::DispatchSendMessageCommand {
        tenant,
        send_message_id: sm.id,
    };
    let err = SmsDispatchPolicy::check(&dispatch, &sm, notice_date()).unwrap_err();
    assert!(matches!(err, DomainError::Validation(_)));
}

#[test]
fn select_template_picks_the_first_match() {
    let (_school, _user, _at, _corr, tenant) = ctx();
    let (t1, _) = create_sms_template(sms_template_cmd(tenant, "One", &[]), &SystemClock, &SystemIdGen).unwrap();
    let (t2, _) = create_sms_template(sms_template_cmd(tenant, "Two", &[]), &SystemClock, &SystemIdGen).unwrap();
    let candidates = vec![t1, t2];
    let found = educore_communication::services::NotificationService::select_template(
        "absent",
        Channel::Sms,
        &candidates,
    )
    .unwrap();
    assert_eq!(found.body.as_str(), "One");
    assert!(educore_communication::services::NotificationService::select_template(
        "absent",
        Channel::Email,
        &candidates,
    )
    .is_none());
    assert!(educore_communication::services::NotificationService::select_template(
        "present",
        Channel::Sms,
        &candidates,
    )
    .is_none());
}

#[test]
fn build_dispatch_records_the_outcome() {
    let (school, user, at, corr, _tenant) = ctx();
    let d = educore_communication::services::AbsentNotificationService::build_dispatch(
        educore_communication::value_objects::AbsentNotificationDispatchId::new(school, 1),
        educore_communication::value_objects::AbsentNotificationTimeSetupId::new(school, 2),
        educore_communication::foundation::StudentId::new(school, 3),
        Channel::Sms,
        "Your child is absent".to_owned(),
        vec![user],
        DeliveryOutcome::Delivered,
        at,
        corr,
    );
    assert_eq!(d.school_id, school);
    assert_eq!(d.recipients, vec![user]);
    assert_eq!(d.outcome, DeliveryOutcome::Delivered);
    assert_eq!(d.dispatched_at, at);
}

#[test]
fn update_lists_only_fields_whose_value_changed() {
    let (_school, _user, _at, _corr, tenant) = ctx();
    let cmd = CreateNoticeCommand {
        tenant,
        title: NoticeTitle::new("Exam").unwrap(),
        body: NoticeBody::new("Exams start Monday").unwrap(),
        notice_date: notice_date(),
        publish_on: None,
        audience: AudienceDescriptor::All,
        attachment: None,
    };
    let (mut notice, _) = create_notice(cmd, &SystemClock, &SystemIdGen).unwrap();
    let update = UpdateNoticeCommand {
        tenant,
        notice_id: notice.id,
        title: Some(NoticeTitle::new("Exam").unwrap()),
        body: Some(NoticeBody::new("Exams start Tuesday").unwrap()),
        publish_on: Some(notice_date()),
        audience: Some(AudienceDescriptor::All),
    };
    let ev = update_notice(update, &SystemClock, &SystemIdGen, &mut notice).unwrap();
    assert_eq!(ev.changes, vec!["body".to_owned(), "publish_on".to_owned()]);
    assert_eq!(notice.publish_on, Some(notice_date()));
    assert_eq!(notice.version.value, 2);
}

#[test]
fn complaint_type_update_lists_every_given_field() {
    let (_school, _user, _at, _corr, tenant) = ctx();
    let create = CreateComplaintTypeCommand {
        tenant,
        name: "Noise".to_owned(),
        description: Some("Loud music".to_owned()),
    };
    let (mut ct, _) = create_complaint_type(create, &SystemClock, &SystemIdGen).unwrap();
    let same_name = UpdateComplaintTypeCommand {
        tenant,
        complaint_type_id: ct.id,
        name: Some("Noise".to_owned()),
        description: Some("Loud music at night".to_owned()),
    };
    let ev = update_complaint_type(same_name, &SystemClock, &SystemIdGen, &mut ct).unwrap();
    assert_eq!(ev.changes, vec!["name".to_owned(), "description".to_owned()]);
    assert_eq!(ct.description.as_deref(), Some("Loud music at night"));
    let no_name = UpdateComplaintTypeCommand {
        tenant,
        complaint_type_id: ct.id,
        name: None,
        description: Some("Loud music at night".to_owned()),
    };
    let ev = update_complaint_type(no_name, &SystemClock, &SystemIdGen, &mut ct).unwrap();
    assert_eq!(ev.changes, vec!["description".to_owned()]);
    assert_eq!(ct.name, "Noise");
    assert_eq!(ct.version.value, 3);
}

#[test]
fn chat_invite_policy_conflicts_on_an_invitation_received_from_the_recipient() {
    let (_school, user, _at, _corr, tenant) = ctx();
    let other = SystemIdGen.next_user_id();
    let blocks: Vec<ChatBlockUser> = Vec::new();
    let invite = |from_tenant: TenantContext, to: UserId| {
        let cmd = SendChatInvitationCommand {
            tenant: from_tenant,
            to,
            invitation_type: ChatInvitationTypeEnum::OneToOne,
            section_id: None,
            class_teacher_id: None,
        };
        send_chat_invitation(cmd, &SystemClock, &SystemIdGen).unwrap().0
    };
    let received = vec![invite(TenantContext { actor_id: other, ..tenant }, user)];
    let sent = vec![invite(tenant, other)];
    let cmd = SendChatInvitationCommand {
        tenant,
        to: other,
        invitation_type: ChatInvitationTypeEnum::OneToOne,
        section_id: None,
        class_teacher_id: None,
    };
    let err = ChatInvitePolicy::check(&cmd, &blocks, &received).unwrap_err();
    assert!(matches!(err, DomainError::Conflict(_)));
    assert!(ChatInvitePolicy::check(&cmd, &blocks, &sent).is_ok());
}

#[test]
fn lint_reports_the_byte_position_of_the_imbalance() {
    let at = |body: &str| match &TemplateService::lint(body)[0] {
        RenderWarning::MismatchedBraces { position, .. } => *position,
        _ => panic!("expected a brace warning"),
    };
    assert_eq!(at("ab{{"), 2);
    assert_eq!(at("é{{"), 2);
    assert_eq!(at("{{a}} }}"), 6);
    assert_eq!(at("{{a {{b}}"), 0);
    assert_eq!(at("x}} {{ }}"), 1);
    assert!(TemplateService::lint("x}} {{").is_empty());
}

#[test]
fn factory_core_uses_the_given_time_and_event_id() {
    let (school, _user, _at, _corr, tenant) = ctx();
    let cmd = CreateNoticeCommand {
        tenant,
        title: NoticeTitle::new("Exam").unwrap(),
        body: NoticeBody::new("Exams start Monday").unwrap(),
        notice_date: notice_date(),
        publish_on: None,
        audience: AudienceDescriptor::All,
        attachment: None,
    };
    let now = Timestamp::from_millis(1_700_000_000_000);
    let event_id = educore_communication::foundation::EventId::from_uuid(77);
    let (notice, event) =
        educore_communication::services::create_notice_at(cmd, now, event_id).unwrap();
    assert_eq!(notice.id.as_uuid(), 77);
    assert_eq!(notice.id.school_id(), school);
    assert_eq!(notice.created_at, now);
    assert_eq!(event.event_id, event_id);
    assert_eq!(event.occurred_at, now);
    assert_eq!(notice.last_event_id, Some(event_id));
}
