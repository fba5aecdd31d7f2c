use educore_communication::foundation::{RoleId, SchoolId, UserId};
use educore_communication::value_objects::{
    AudienceDescriptor, CallDuration, ComplaintAction, ComplaintStatus, Destination,
    EmailAddress, GatewayType, MessageId, NoticeAudience, NoticeId, NoticeStatus, NoticeTitle,
    PhoneNumber, RequestMethod, SecretReference, Slug, SmsGatewayCredentials, StarRating,
    TemplateVariable, TimeOfDay, TimeWindow, Url,
};

#[test]
fn typed_id_display_and_accessors() {
    let school = SchoolId::from_uuid(0);
    let id = NoticeId::new(school, 42);
    assert_eq!(id.school_id(), school);
    assert_eq!(id.as_uuid(), 42);
    assert_eq!(
        id.to_text(),
        format!("{}/{}", school.to_text(), "00000000-0000-0000-0000-00000000002a")
    );
}

#[test]
fn notice_title_validates_length() {
    assert!(NoticeTitle::new("").is_err());
    assert!(NoticeTitle::new("hello world").is_ok());
    assert!(NoticeTitle::new(&"x".repeat(201)).is_err());
}

#[test]
fn email_address_validates() {
    assert!(EmailAddress::new("a@b.co").is_ok());
    assert!(EmailAddress::new("no-at-sign").is_err());
    assert!(EmailAddress::new("a@b").is_err());
    assert!(EmailAddress::new("a @b.co").is_err());
    assert!(EmailAddress::new(&format!("{}@x.co", "x".repeat(200))).is_err());
}

#[test]
fn phone_number_validates() {
    assert!(PhoneNumber::new("+15551234567").is_ok());
    assert!(PhoneNumber::new("555-1234").is_ok());
    assert!(PhoneNumber::new("(555) 123-4567").is_ok());
    assert!(PhoneNumber::new("not a phone!").is_err());
    assert!(PhoneNumber::new("").is_err());
}

#[test]
fn url_validates() {
    assert!(Url::new("https://example.com/path").is_ok());
    assert!(Url::new("http://example.com").is_ok());
    assert!(Url::new("example.com").is_err());
    assert!(Url::new("https://").is_err());
}

#[test]
fn slug_validates() {
    assert!(Slug::new("hello-world-1").is_ok());
    assert!(Slug::new("UPPER").is_err());
    assert!(Slug::new("with space").is_err());
    assert!(Slug::new("").is_err());
}

#[test]
fn star_rating_validates() {
    assert!(StarRating::new(0).is_err());
    assert!(StarRating::new(1).is_ok());
    assert!(StarRating::new(5).is_ok());
    assert!(StarRating::new(6).is_err());
}

#[test]
fn time_of_day_validates() {
    assert!(TimeOfDay::new("00:00").is_ok());
    assert!(TimeOfDay::new("23:59").is_ok());
    assert!(TimeOfDay::new("24:00").is_err());
    assert!(TimeOfDay::new("12:60").is_err());
    assert!(TimeOfDay::new("1:00").is_err());
}

#[test]
fn time_window_validates_ordering() {
    let a = TimeOfDay::new("09:00").unwrap();
    let b = TimeOfDay::new("17:00").unwrap();
    let c = TimeOfDay::new("09:00").unwrap();
    assert!(TimeWindow::new(a.clone(), b.clone()).is_ok());
    assert!(TimeWindow::new(b, a.clone()).is_err());
    assert!(TimeWindow::new(a, c).is_err());
}

#[test]
fn call_duration_validates() {
    assert!(CallDuration::new("00:00:00").is_ok());
    assert!(CallDuration::new("23:59:59").is_ok());
    assert!(CallDuration::new("24:00:00").is_err());
    assert!(CallDuration::new("12:34").is_err());
}

#[test]
fn template_variable_validates() {
    assert!(TemplateVariable::new("name", "desc").is_ok());
    assert!(TemplateVariable::new("name", "").is_ok());
    assert!(TemplateVariable::new("", "desc").is_err());
    assert!(TemplateVariable::new(&"x".repeat(51), "d").is_err());
}

#[test]
fn destination_bitflag_works() {
    let d = Destination::email() | Destination::sms();
    assert!(d.contains(Destination::email()));
    assert!(d.contains(Destination::sms()));
    assert!(!d.contains(Destination::web()));
    assert_eq!(d.as_str(), "E,S");
    assert_eq!(Destination::web().as_str(), "W");
    assert_eq!(
        (Destination::email() | Destination::sms() | Destination::web() | Destination::app())
            .as_str(),
        "E,S,W,A"
    );
    assert_eq!(Destination::empty().as_str(), "");
}

#[test]
fn audience_descriptor_validates_non_empty() {
    let role = RoleId::new(SchoolId::from_uuid(0), 1);
    let user = UserId::from_uuid(2);
    assert!(AudienceDescriptor::roles(vec![]).is_err());
    assert!(AudienceDescriptor::roles(vec![role]).is_ok());
    assert!(AudienceDescriptor::users(vec![]).is_err());
    assert!(AudienceDescriptor::users(vec![user]).is_ok());
    assert!(matches!(AudienceDescriptor::all(), AudienceDescriptor::All));
}

#[test]
fn notice_audience_validates_non_empty() {
    let role = RoleId::new(SchoolId::from_uuid(0), 1);
    assert!(NoticeAudience::new(vec![]).is_err());
    assert!(NoticeAudience::new(vec![role]).is_ok());
}

#[test]
fn sms_gateway_credentials_gateway_type_matches_variant() {
    let creds = SmsGatewayCredentials::Clickatell {
        username: "u".to_string(),
        password: SecretReference::new("p").unwrap(),
        api_id: "a".to_string(),
    };
    assert_eq!(creds.gateway_type(), GatewayType::Clickatell);
    let creds = SmsGatewayCredentials::Custom {
        url: Url::new("https://example.com/send").unwrap(),
        request_method: RequestMethod::Post,
        params: vec![("to".to_string(), "{phone}".to_string())],
    };
    assert_eq!(creds.gateway_type(), GatewayType::Custom);
}

#[test]
fn notice_status_wire_forms() {
    assert_eq!(NoticeStatus::Draft.as_str(), "Draft");
    assert_eq!(NoticeStatus::Published.as_str(), "Published");
}

#[test]
fn complaint_status_wire_forms() {
    assert_eq!(ComplaintStatus::Open.as_str(), "Open");
    assert_eq!(ComplaintStatus::InProgress.as_str(), "InProgress");
    assert_eq!(ComplaintStatus::Resolved.as_str(), "Resolved");
}

#[test]
fn complaint_action_wire_forms() {
    assert_eq!(ComplaintAction::Open.as_str(), "Open");
    assert_eq!(ComplaintAction::InProgress.as_str(), "InProgress");
    assert_eq!(ComplaintAction::Resolve.as_str(), "Resolve");
}

#[test]
fn message_id_display() {
    let m = MessageId::new(7);
    assert_eq!(m.as_uuid(), 7);
    assert_eq!(m.to_text(), "00000000-0000-0000-0000-000000000007");
}

#[test]
fn email_address_needs_a_single_at_sign_and_counts_chars() {
    assert!(EmailAddress::new("a@b@c.co").is_err());
    assert!(EmailAddress::new(&format!("{}@x.co", "é".repeat(150))).is_ok());
    assert!(EmailAddress::new(&format!("{}@x.co", "é".repeat(196))).is_err());
}

#[test]
fn destination_rebuilt_from_its_bits_is_itself() {
    for d in [
        Destination::empty(),
        Destination::email() | Destination::web(),
        Destination::email() | Destination::sms() | Destination::web() | Destination::app(),
    ] {
        assert_eq!(Destination::from_bits_truncate(d.bits()), d);
    }
}
