use educore_communication::aggregate::{AbsentNotificationTimeSetup, ChatGroup, ChatGroupUser};
use educore_communication::commands::{
    AddUserToChatGroupCommand, BlockUserCommand, ConfigureAbsentNotificationCommand,
    CreateChatGroupCommand, CreateSendMessageCommand, DispatchSendMessageCommand,
    EnableAbsentNotificationCommand, OpenChatConversationCommand, SetChatGroupReadOnlyCommand,
};
use educore_communication::errors::{CommunicationError, DomainError};
use educore_communication::events::DomainEvent;
use educore_communication::foundation::{
    CalendarDate, IdGenerator, SystemClock, SystemIdGen, TenantContext, UserType, Version,
};
use educore_communication::rendering::TextMap;
use educore_communication::services::{
    add_user_to_chat_group, block_user, configure_absent_notification, create_chat_group,
    create_send_message, dispatch_send_message, enable_absent_notification,
    open_chat_conversation, set_chat_group_read_only, AbsentNotificationService, ChatService,
};
use educore_communication::value_objects::{
    AudienceDescriptor, ChatGroupPrivacy, ChatGroupRole, ChatGroupType, Destination, TimeOfDay,
};

fn tenant() -> TenantContext {
    let g = SystemIdGen;
    TenantContext::for_user(
        g.next_school_id(),
        g.next_user_id(),
        g.next_correlation_id(),
        UserType::Teacher,
    )
}

#[test]
fn destination_union_contains_both_and_commutes() {
    let a = Destination::email() | Destination::app();
    let b = Destination::sms();
    let ab = a | b;
    let ba = b | a;
    assert_eq!(ab, ba);
    assert!(ab.contains(a) && ab.contains(b));
    assert_eq!(ab.as_str(), "E,S,A");
    assert_eq!(a | a, a);
    assert_eq!(Destination::from_bits_truncate(0xff).bits(), 15);
}

#[test]
fn calendar_dates_exist_exactly_on_real_days() {
    assert!(CalendarDate::from_ymd_opt(2024, 2, 29).is_some());
    assert!(CalendarDate::from_ymd_opt(2023, 2, 29).is_none());
    assert!(CalendarDate::from_ymd_opt(1900, 2, 29).is_none());
    assert!(CalendarDate::from_ymd_opt(2000, 2, 29).is_some());
    assert!(CalendarDate::from_ymd_opt(2026, 4, 31).is_none());
    assert!(CalendarDate::from_ymd_opt(2026, 13, 1).is_none());
    assert!(CalendarDate::from_ymd_opt(262142, 12, 31).is_some());
    assert!(CalendarDate::from_ymd_opt(262143, 1, 1).is_none());
    assert!(CalendarDate::from_ymd_opt(-262143, 1, 1).is_some());
    assert!(CalendarDate::from_ymd_opt(-262144, 12, 31).is_none());
}

#[test]
fn calendar_order_is_chronological() {
    let a = CalendarDate::from_ymd_opt(2026, 6, 15).unwrap();
    let b = CalendarDate::from_ymd_opt(2026, 7, 1).unwrap();
    assert!(a.is_before(&b));
    assert!(!b.is_before(&a));
    assert!(!a.is_before(&a));
    assert!(a.is_on_or_before(&a));
}

#[test]
fn version_bumps_by_one_and_saturates() {
    assert_eq!(Version::initial().next().value, 2);
    assert_eq!(Version { value: u64::MAX }.next().value, u64::MAX);
}

#[test]
fn absent_notification_window_is_half_open() {
    let cmd = ConfigureAbsentNotificationCommand {
        tenant: tenant(),
        time_from: TimeOfDay::new("09:00").unwrap(),
        time_to: TimeOfDay::new("17:00").unwrap(),
    };
    let (mut setup, _): (AbsentNotificationTimeSetup, _) =
        configure_absent_notification(cmd, &SystemClock, &SystemIdGen).unwrap();
    let at = |s: &str| TimeOfDay::new(s).unwrap();
    assert!(!AbsentNotificationService::in_window(at("08:59"), &setup));
    assert!(AbsentNotificationService::in_window(at("09:00"), &setup));
    assert!(AbsentNotificationService::in_window(at("16:59"), &setup));
    assert!(!AbsentNotificationService::in_window(at("17:00"), &setup));
    let enable = EnableAbsentNotificationCommand {
        tenant: tenant(),
        absent_notification_time_setup_id: setup.id,
    };
    enable_absent_notification(enable, &SystemClock, &SystemIdGen, &mut setup).unwrap();
    assert!(AbsentNotificationService::should_dispatch(at("10:30"), &setup));
    assert!(!AbsentNotificationService::should_dispatch(at("18:00"), &setup));
    let (from, to) = educore_communication::services::NotificationService::next_window(&setup);
    assert_eq!((from.as_str(), to.as_str()), ("09:00", "17:00"));
}

#[test]
fn blocked_user_event_id_is_a_stable_v5_uuid_of_the_actor() {
    let t = tenant();
    let other = SystemIdGen.next_user_id();
    let (_b1, e1) = block_user(BlockUserCommand { tenant: t, block_to: other }, &SystemClock, &SystemIdGen).unwrap();
    let (_b2, e2) = block_user(BlockUserCommand { tenant: t, block_to: other }, &SystemClock, &SystemIdGen).unwrap();
    assert_eq!(e1.aggregate_id(), e2.aggregate_id());
    assert_ne!(e1.aggregate_id(), t.actor_id.as_uuid());
    assert_eq!((e1.aggregate_id() >> 76) & 0xf, 5);
    assert_eq!(e1.school_id(), t.school_id);
    assert_eq!(e1.event_type(), "communication.chat_block_user.blocked");
    assert_eq!(e1.schema_version(), 1);
    let t2 = tenant();
    let (_b3, e3) = block_user(BlockUserCommand { tenant: t2, block_to: other }, &SystemClock, &SystemIdGen).unwrap();
    assert_ne!(e1.aggregate_id(), e3.aggregate_id());
}

#[test]
fn chat_service_rules() {
    let t = tenant();
    let member = SystemIdGen.next_user_id();
    let cmd = CreateChatGroupCommand {
        tenant: t,
        name: "Class 5A".to_owned(),
        description: None,
        photo: None,
        privacy: ChatGroupPrivacy::Class,
        group_type: ChatGroupType::Closed,
        class_id: None,
        section_id: None,
        subject_id: None,
        teacher_id: None,
        initial_members: vec![member],
    };
    let (mut group, _): (ChatGroup, _) = create_chat_group(cmd, &SystemClock, &SystemIdGen).unwrap();
    assert!(ChatService::can_post(&group, member, None));
    let ro = SetChatGroupReadOnlyCommand { tenant: t, chat_group_id: group.id, read_only: true };
    set_chat_group_read_only(ro, &SystemClock, &SystemIdGen, &mut group).unwrap();
    assert!(!ChatService::can_post(&group, member, None));
    let add = AddUserToChatGroupCommand {
        tenant: t,
        chat_group_id: group.id,
        user_id: member,
        role: ChatGroupRole::Admin,
    };
    let (admin, _): (ChatGroupUser, _) =
        add_user_to_chat_group(add, &SystemClock, &SystemIdGen).unwrap();
    assert!(ChatService::can_post(&group, member, Some(&admin)));
    assert!(!ChatService::can_post(&group, t.actor_id, Some(&admin)));
    assert_eq!(ChatService::fan_out_group_recipients(&[admin]), vec![member]);

    let (b, _) = block_user(BlockUserCommand { tenant: t, block_to: member }, &SystemClock, &SystemIdGen).unwrap();
    assert!(ChatService::is_blocked(t.actor_id, &[b]));

    let open = OpenChatConversationCommand { tenant: t, from_id: t.actor_id, to_id: member };
    let (conv, _) = open_chat_conversation(open, &SystemClock, &SystemIdGen).unwrap();
    let convs = vec![conv];
    assert!(ChatService::resolve_conversation(member, t.actor_id, &convs).is_some());
    assert!(ChatService::resolve_conversation(member, member, &convs).is_none());
}

#[test]
fn dispatch_counts_explicit_recipients() {
    let t = tenant();
    let u1 = SystemIdGen.next_user_id();
    let u2 = SystemIdGen.next_user_id();
    let cmd = CreateSendMessageCommand {
        tenant: t,
        message_title: "T".to_owned(),
        message_body: "B".to_owned(),
        notice_date: CalendarDate::from_ymd_opt(2026, 1, 5).unwrap(),
        publish_on: None,
        message_to: AudienceDescriptor::users(vec![u1, u2]).unwrap(),
    };
    let (mut sm, _) = create_send_message(cmd, &SystemClock, &SystemIdGen).unwrap();
    assert_eq!(sm.audience, vec![u1, u2]);
    let d = DispatchSendMessageCommand { tenant: t, send_message_id: sm.id };
    let ev = dispatch_send_message(d, &SystemClock, &SystemIdGen, &mut sm).unwrap();
    assert_eq!(ev.recipient_count, 2);
    assert_eq!(sm.recipient_count, Some(2));
    assert_eq!(sm.version.value, 2);
}

#[test]
fn text_map_later_value_wins() {
    let mut m = TextMap::new();
    m.insert("k".to_owned(), "1".to_owned());
    m.insert("k".to_owned(), "2".to_owned());
    assert_eq!(m.len(), 1);
    assert_eq!(m.get("k").map(|s| s.as_str()), Some("2"));
    assert!(!m.contains_key("x"));
}

#[test]
fn communication_error_helpers_prefix_messages() {
    assert_eq!(
        CommunicationError::template_render("x"),
        DomainError::Validation("template render: x".to_owned())
    );
    assert_eq!(
        CommunicationError::chat_blocked("y"),
        DomainError::Conflict("chat blocked: y".to_owned())
    );
    assert!(DomainError::forbidden("z").is_forbidden());
}
