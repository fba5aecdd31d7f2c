use educore_communication::foundation::{
    ActiveStatus, Etag, EventId, IdGenerator, SystemIdGen, Timestamp, Version,
};
use educore_communication::template::{
    NotificationTemplate, NotificationTemplateId, TemplateVariable, VariableMap,
};
use educore_communication::value_objects::Channel;

fn sample_template() -> NotificationTemplate {
    let g = SystemIdGen;
    let mut variables = VariableMap::new();
    variables.insert("parent_name".to_owned(), TemplateVariable::String);
    variables.insert("student_name".to_owned(), TemplateVariable::String);
    variables.insert("date".to_owned(), TemplateVariable::Date);
    NotificationTemplate {
        id: NotificationTemplateId::fresh(),
        school_id: g.next_school_id(),
        name: "attendance.absent.parent".to_owned(),
        channel: Channel::Email,
        subject: "Your ward was absent on {date}".to_owned(),
        body_template: "Dear {parent_name}, {student_name} was absent on {date}.".to_owned(),
        variables,
        version: Version::initial(),
        etag: Etag::placeholder(),
        created_at: Timestamp::now(),
        updated_at: Timestamp::now(),
        created_by: g.next_user_id(),
        updated_by: g.next_user_id(),
        active_status: ActiveStatus::Active,
        correlation_id: None,
    }
}

#[test]
fn channel_accessor_returns_configured_channel() {
    let t = sample_template();
    assert_eq!(t.channel(), Channel::Email);
}

#[test]
fn references_variable_detects_subject_and_body() {
    let t = sample_template();
    assert!(t.references_variable("date"));
    assert!(t.references_variable("parent_name"));
    assert!(t.references_variable("student_name"));
    assert!(!t.references_variable("nonexistent"));
}

#[test]
fn declared_variables_returns_sorted_keys() {
    let t = sample_template();
    let vars = t.declared_variables();
    assert_eq!(vars, vec!["date", "parent_name", "student_name"]);
}

#[test]
fn template_variable_locale_required() {
    assert!(TemplateVariable::Currency.requires_locale());
    assert!(TemplateVariable::Date.requires_locale());
    assert!(!TemplateVariable::String.requires_locale());
    assert!(!TemplateVariable::Integer.requires_locale());
    assert!(!TemplateVariable::Bool.requires_locale());
}

#[test]
fn active_status_accessor() {
    let t = sample_template();
    assert!(t.is_active());
}

#[test]
fn notification_template_id_fresh_is_unique() {
    let id1 = NotificationTemplateId::fresh();
    let id2 = NotificationTemplateId::fresh();
    assert_ne!(id1, id2);
}

#[test]
fn notification_template_id_as_uuid_round_trip() {
    let id = NotificationTemplateId::fresh();
    let uuid = id.as_uuid();
    let back = NotificationTemplateId::from_uuid(uuid);
    assert_eq!(id, back);
}

#[test]
fn notification_template_id_event_id_compat() {
    let event_id = EventId::from_uuid(NotificationTemplateId::fresh().as_uuid());
    let _uuid = event_id.as_uuid();
}

#[test]
fn fresh_ids_are_version_seven() {
    let id = NotificationTemplateId::fresh();
    assert_eq!((id.as_uuid() >> 76) & 0xf, 7);
    assert_eq!(&id.to_text()[14..15], "7");
}

#[test]
fn variable_map_replaces_and_keeps_order() {
    let mut m = VariableMap::new();
    m.insert("b".to_owned(), TemplateVariable::Integer);
    m.insert("a".to_owned(), TemplateVariable::Bool);
    m.insert("ab".to_owned(), TemplateVariable::Date);
    m.insert("b".to_owned(), TemplateVariable::Currency);
    assert_eq!(m.len(), 3);
    assert_eq!(m.get("b"), Some(TemplateVariable::Currency));
    assert_eq!(m.get("zz"), None);
    assert_eq!(m.names(), vec!["a", "ab", "b"]);
}
