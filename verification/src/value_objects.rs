//! # Communication value objects
//!
//! The typed ids (one per aggregate and child entity), the closed
//! enums, the validated value objects, the embedded value-object
//! lists and the local `MessageId`.
//!
//! - Every typed id is `{ school_id, value }`: it carries its school
//!   anchor so ids of different tenants never compare equal.
//! - Strings are validated at construction; the constructors return
//!   `Result<Self, DomainError>` and there are no setters that bypass
//!   validation. Each validated string keeps its rule as a type
//!   invariant.
//! - `Destination` is a bitflag over email, SMS, web and app, with
//!   `contains()` for membership and `as_str()` for the comma-joined
//!   single-letter code (`"E"`, `"S"`, `"W"`, `"A"`, `"E,S"`, ...).
use vstd::prelude::*;
use vstd::string::*;
use vstd::utf8::encode_utf8;

use crate::errors::DomainError;
use crate::foundation::{
    uuid_hyphenated, uuid_text, CalendarDate, ClassId, RoleId, SchoolId, SectionId, UserId,
};

verus! {

// =============================================================================
// Shared text predicates
// =============================================================================

/// A non-empty text of at most `max` characters.
pub open spec fn bounded_text(s: Seq<char>, max: nat) -> bool {
    0 < s.len() <= max
}

/// Whether no character of `s` equals `c`.
pub open spec fn lacks_char(s: Seq<char>, c: char) -> bool {
    forall|i: int| 0 <= i < s.len() ==> s[i] != c
}

/// An ASCII decimal digit.
pub open spec fn is_digit(c: char) -> bool {
    '0' <= c <= '9'
}

/// The numeric value of an ASCII digit.
pub open spec fn digit_value(c: char) -> int {
    c as int - 48
}

/// The two-digit number written by `a` then `b`.
pub open spec fn two_digits(a: char, b: char) -> int {
    digit_value(a) * 10 + digit_value(b)
}

/// The characters of a string, in order.
pub(crate) fn char_vec(s: &str) -> (v: Vec<char>)
    ensures
        v@ == s@,
{
    broadcast use vstd::string::group_string_axioms;

    let mut v: Vec<char> = Vec::new();
    for c in it: s.chars()
        invariant
            v@ == it.seq().take(it.index() as int),
            it.seq() == s@,
    {
        v.push(c);
    }
    v
}

/// Whether two texts are equal, char by char.
pub(crate) fn same_text(a: &str, b: &str) -> (eq: bool)
    ensures
        eq == (a@ == b@),
{
    let n = a.unicode_len();
    if n != b.unicode_len() {
        return false;
    }
    let mut k: usize = 0;
    while k < n
        invariant
            k <= n,
            n == a@.len(),
            n == b@.len(),
            forall|j: int| 0 <= j < k ==> a@[j] == b@[j],
        decreases n - k,
    {
        if a.get_char(k) != b.get_char(k) {
            return false;
        }
        k += 1;
    }
    assert(a@ =~= b@);
    true
}

fn is_digit_char(c: char) -> (b: bool)
    ensures
        b == is_digit(c),
{
    '0' <= c && c <= '9'
}

fn digit_of(c: char) -> (d: u8)
    requires
        is_digit(c),
    ensures
        d == digit_value(c),
{
    (c as u32 - 48) as u8
}

// =============================================================================
// Typed ids
// =============================================================================

/// The display form of a typed id: the school UUID, `/`, the local UUID.
pub open spec fn typed_id_text(school: SchoolId, value: u128) -> Seq<char> {
    uuid_text(school.value) + seq!['/'] + uuid_text(value)
}

fn render_typed_id(school: SchoolId, value: u128) -> (text: String)
    ensures
        text@ == typed_id_text(school, value),
{
    let s = uuid_hyphenated(school.value);
    let s = s.concat("/");
    let v = uuid_hyphenated(value);
    proof {
        reveal_strlit("/");
    }
    s.concat(v.as_str())
}

// ---- aggregate roots ----

/// A typed id for a notice.
#[derive(Debug, Clone, Copy, PartialEq, Eq, Hash, PartialOrd, Ord, Structural)]
pub struct NoticeId {
    /// The owning school (tenant anchor).
    pub school_id: SchoolId,
    /// The local UUID.
    pub value: u128,
}

impl NoticeId {
    /// Constructs the id from its parts.
    pub fn new(school_id: SchoolId, value: u128) -> (id: Self)
        ensures
            id.school_id == school_id,
            id.value == value,
    {
        NoticeId { school_id, value }
    }

    /// The local UUID.
    pub fn as_uuid(&self) -> (value: u128)
        ensures
            value == self.value,
    {
        self.value
    }

    /// The owning school.
    pub fn school_id(&self) -> (school: SchoolId)
        ensures
            school == self.school_id,
    {
        self.school_id
    }

    /// The display form `"{school}/{value}"`.
    pub fn to_text(&self) -> (text: String)
        ensures
            text@ == typed_id_text(self.school_id, self.value),
    {
        render_typed_id(self.school_id, self.value)
    }
}

/// A typed id for a complaint.
#[derive(Debug, Clone, Copy, PartialEq, Eq, Hash, PartialOrd, Ord, Structural)]
pub struct ComplaintId {
    /// The owning school (tenant anchor).
    pub school_id: SchoolId,
    /// The local UUID.
    pub value: u128,
}

impl ComplaintId {
    /// Constructs the id from its parts.
    pub fn new(school_id: SchoolId, value: u128) -> (id: Self)
        ensures
            id.school_id == school_id,
            id.value == value,
    {
        ComplaintId { school_id, value }
    }

    /// The local UUID.
    pub fn as_uuid(&self) -> (value: u128)
        ensures
            value == self.value,
    {
        self.value
    }

    /// The owning school.
    pub fn school_id(&self) -> (school: SchoolId)
        ensures
            school == self.school_id,
    {
        self.school_id
    }

    /// The display form `"{school}/{value}"`.
    pub fn to_text(&self) -> (text: String)
        ensures
            text@ == typed_id_text(self.school_id, self.value),
    {
        render_typed_id(self.school_id, self.value)
    }
}

/// A typed id for a complaint type.
#[derive(Debug, Clone, Copy, PartialEq, Eq, Hash, PartialOrd, Ord, Structural)]
pub struct ComplaintTypeId {
    /// The owning school (tenant anchor).
    pub school_id: SchoolId,
    /// The local UUID.
    pub value: u128,
}

impl ComplaintTypeId {
    /// Constructs the id from its parts.
    pub fn new(school_id: SchoolId, value: u128) -> (id: Self)
        ensures
            id.school_id == school_id,
            id.value == value,
    {
        ComplaintTypeId { school_id, value }
    }

    /// The local UUID.
    pub fn as_uuid(&self) -> (value: u128)
        ensures
            value == self.value,
    {
        self.value
    }

    /// The owning school.
    pub fn school_id(&self) -> (school: SchoolId)
        ensures
            school == self.school_id,
    {
        self.school_id
    }

    /// The display form `"{school}/{value}"`.
    pub fn to_text(&self) -> (text: String)
        ensures
            text@ == typed_id_text(self.school_id, self.value),
    {
        render_typed_id(self.school_id, self.value)
    }
}

/// A typed id for a notification.
#[derive(Debug, Clone, Copy, PartialEq, Eq, Hash, PartialOrd, Ord, Structural)]
pub struct NotificationId {
    /// The owning school (tenant anchor).
    pub school_id: SchoolId,
    /// The local UUID.
    pub value: u128,
}

impl NotificationId {
    /// Constructs the id from its parts.
    pub fn new(school_id: SchoolId, value: u128) -> (id: Self)
        ensures
            id.school_id == school_id,
            id.value == value,
    {
        NotificationId { school_id, value }
    }

    /// The local UUID.
    pub fn as_uuid(&self) -> (value: u128)
        ensures
            value == self.value,
    {
        self.value
    }

    /// The owning school.
    pub fn school_id(&self) -> (school: SchoolId)
        ensures
            school == self.school_id,
    {
        self.school_id
    }

    /// The display form `"{school}/{value}"`.
    pub fn to_text(&self) -> (text: String)
        ensures
            text@ == typed_id_text(self.school_id, self.value),
    {
        render_typed_id(self.school_id, self.value)
    }
}

/// A typed id for an email-log row.
#[derive(Debug, Clone, Copy, PartialEq, Eq, Hash, PartialOrd, Ord, Structural)]
pub struct EmailLogId {
    /// The owning school (tenant anchor).
    pub school_id: SchoolId,
    /// The local UUID.
    pub value: u128,
}

impl EmailLogId {
    /// Constructs the id from its parts.
    pub fn new(school_id: SchoolId, value: u128) -> (id: Self)
        ensures
            id.school_id == school_id,
            id.value == value,
    {
        EmailLogId { school_id, value }
    }

    /// The local UUID.
    pub fn as_uuid(&self) -> (value: u128)
        ensures
            value == self.value,
    {
        self.value
    }

    /// The owning school.
    pub fn school_id(&self) -> (school: SchoolId)
        ensures
            school == self.school_id,
    {
        self.school_id
    }

    /// The display form `"{school}/{value}"`.
    pub fn to_text(&self) -> (text: String)
        ensures
            text@ == typed_id_text(self.school_id, self.value),
    {
        render_typed_id(self.school_id, self.value)
    }
}

/// A typed id for an SMS-log row.
#[derive(Debug, Clone, Copy, PartialEq, Eq, Hash, PartialOrd, Ord, Structural)]
pub struct SmsLogId {
    /// The owning school (tenant anchor).
    pub school_id: SchoolId,
    /// The local UUID.
    pub value: u128,
}

impl SmsLogId {
    /// Constructs the id from its parts.
    pub fn new(school_id: SchoolId, value: u128) -> (id: Self)
        ensures
            id.school_id == school_id,
            id.value == value,
    {
        SmsLogId { school_id, value }
    }

    /// The local UUID.
    pub fn as_uuid(&self) -> (value: u128)
        ensures
            value == self.value,
    {
        self.value
    }

    /// The owning school.
    pub fn school_id(&self) -> (school: SchoolId)
        ensures
            school == self.school_id,
    {
        self.school_id
    }

    /// The display form `"{school}/{value}"`.
    pub fn to_text(&self) -> (text: String)
        ensures
            text@ == typed_id_text(self.school_id, self.value),
    {
        render_typed_id(self.school_id, self.value)
    }
}

/// A typed id for an SMS template.
#[derive(Debug, Clone, Copy, PartialEq, Eq, Hash, PartialOrd, Ord, Structural)]
pub struct SmsTemplateId {
    /// The owning school (tenant anchor).
    pub school_id: SchoolId,
    /// The local UUID.
    pub value: u128,
}

impl SmsTemplateId {
    /// Constructs the id from its parts.
    pub fn new(school_id: SchoolId, value: u128) -> (id: Self)
        ensures
            id.school_id == school_id,
            id.value == value,
    {
        SmsTemplateId { school_id, value }
    }

    /// The local UUID.
    pub fn as_uuid(&self) -> (value: u128)
        ensures
            value == self.value,
    {
        self.value
    }

    /// The owning school.
    pub fn school_id(&self) -> (school: SchoolId)
        ensures
            school == self.school_id,
    {
        self.school_id
    }

    /// The display form `"{school}/{value}"`.
    pub fn to_text(&self) -> (text: String)
        ensures
            text@ == typed_id_text(self.school_id, self.value),
    {
        render_typed_id(self.school_id, self.value)
    }
}

/// A typed id for an email setting.
#[derive(Debug, Clone, Copy, PartialEq, Eq, Hash, PartialOrd, Ord, Structural)]
pub struct EmailSettingId {
    /// The owning school (tenant anchor).
    pub school_id: SchoolId,
    /// The local UUID.
    pub value: u128,
}

impl EmailSettingId {
    /// Constructs the id from its parts.
    pub fn new(school_id: SchoolId, value: u128) -> (id: Self)
        ensures
            id.school_id == school_id,
            id.value == value,
    {
        EmailSettingId { school_id, value }
    }

    /// The local UUID.
    pub fn as_uuid(&self) -> (value: u128)
        ensures
            value == self.value,
    {
        self.value
    }

    /// The owning school.
    pub fn school_id(&self) -> (school: SchoolId)
        ensures
            school == self.school_id,
    {
        self.school_id
    }

    /// The display form `"{school}/{value}"`.
    pub fn to_text(&self) -> (text: String)
        ensures
            text@ == typed_id_text(self.school_id, self.value),
    {
        render_typed_id(self.school_id, self.value)
    }
}

/// A typed id for an SMS gateway.
#[derive(Debug, Clone, Copy, PartialEq, Eq, Hash, PartialOrd, Ord, Structural)]
pub struct SmsGatewayId {
    /// The owning school (tenant anchor).
    pub school_id: SchoolId,
    /// The local UUID.
    pub value: u128,
}

impl SmsGatewayId {
    /// Constructs the id from its parts.
    pub fn new(school_id: SchoolId, value: u128) -> (id: Self)
        ensures
            id.school_id == school_id,
            id.value == value,
    {
        SmsGatewayId { school_id, value }
    }

    /// The local UUID.
    pub fn as_uuid(&self) -> (value: u128)
        ensures
            value == self.value,
    {
        self.value
    }

    /// The owning school.
    pub fn school_id(&self) -> (school: SchoolId)
        ensures
            school == self.school_id,
    {
        self.school_id
    }

    /// The display form `"{school}/{value}"`.
    pub fn to_text(&self) -> (text: String)
        ensures
            text@ == typed_id_text(self.school_id, self.value),
    {
        render_typed_id(self.school_id, self.value)
    }
}

/// A typed id for a notification setting.
#[derive(Debug, Clone, Copy, PartialEq, Eq, Hash, PartialOrd, Ord, Structural)]
pub struct NotificationSettingId {
    /// The owning school (tenant anchor).
    pub school_id: SchoolId,
    /// The local UUID.
    pub value: u128,
}

impl NotificationSettingId {
    /// Constructs the id from its parts.
    pub fn new(school_id: SchoolId, value: u128) -> (id: Self)
        ensures
            id.school_id == school_id,
            id.value == value,
    {
        NotificationSettingId { school_id, value }
    }

    /// The local UUID.
    pub fn as_uuid(&self) -> (value: u128)
        ensures
            value == self.value,
    {
        self.value
    }

    /// The owning school.
    pub fn school_id(&self) -> (school: SchoolId)
        ensures
            school == self.school_id,
    {
        self.school_id
    }

    /// The display form `"{school}/{value}"`.
    pub fn to_text(&self) -> (text: String)
        ensures
            text@ == typed_id_text(self.school_id, self.value),
    {
        render_typed_id(self.school_id, self.value)
    }
}

/// A typed id for an absent-notification time setup.
#[derive(Debug, Clone, Copy, PartialEq, Eq, Hash, PartialOrd, Ord, Structural)]
pub struct AbsentNotificationTimeSetupId {
    /// The owning school (tenant anchor).
    pub school_id: SchoolId,
    /// The local UUID.
    pub value: u128,
}

impl AbsentNotificationTimeSetupId {
    /// Constructs the id from its parts.
    pub fn new(school_id: SchoolId, value: u128) -> (id: Self)
        ensures
            id.school_id == school_id,
            id.value == value,
    {
        AbsentNotificationTimeSetupId { school_id, value }
    }

    /// The local UUID.
    pub fn as_uuid(&self) -> (value: u128)
        ensures
            value == self.value,
    {
        self.value
    }

    /// The owning school.
    pub fn school_id(&self) -> (school: SchoolId)
        ensures
            school == self.school_id,
    {
        self.school_id
    }

    /// The display form `"{school}/{value}"`.
    pub fn to_text(&self) -> (text: String)
        ensures
            text@ == typed_id_text(self.school_id, self.value),
    {
        render_typed_id(self.school_id, self.value)
    }
}

/// A typed id for a chat message.
#[derive(Debug, Clone, Copy, PartialEq, Eq, Hash, PartialOrd, Ord, Structural)]
pub struct ChatMessageId {
    /// The owning school (tenant anchor).
    pub school_id: SchoolId,
    /// The local UUID.
    pub value: u128,
}

impl ChatMessageId {
    /// Constructs the id from its parts.
    pub fn new(school_id: SchoolId, value: u128) -> (id: Self)
        ensures
            id.school_id == school_id,
            id.value == value,
    {
        ChatMessageId { school_id, value }
    }

    /// The local UUID.
    pub fn as_uuid(&self) -> (value: u128)
        ensures
            value == self.value,
    {
        self.value
    }

    /// The owning school.
    pub fn school_id(&self) -> (school: SchoolId)
        ensures
            school == self.school_id,
    {
        self.school_id
    }

    /// The display form `"{school}/{value}"`.
    pub fn to_text(&self) -> (text: String)
        ensures
            text@ == typed_id_text(self.school_id, self.value),
    {
        render_typed_id(self.school_id, self.value)
    }
}

/// A typed id for a chat conversation.
#[derive(Debug, Clone, Copy, PartialEq, Eq, Hash, PartialOrd, Ord, Structural)]
pub struct ChatConversationId {
    /// The owning school (tenant anchor).
    pub school_id: SchoolId,
    /// The local UUID.
    pub value: u128,
}

impl ChatConversationId {
    /// Constructs the id from its parts.
    pub fn new(school_id: SchoolId, value: u128) -> (id: Self)
        ensures
            id.school_id == school_id,
            id.value == value,
    {
        ChatConversationId { school_id, value }
    }

    /// The local UUID.
    pub fn as_uuid(&self) -> (value: u128)
        ensures
            value == self.value,
    {
        self.value
    }

    /// The owning school.
    pub fn school_id(&self) -> (school: SchoolId)
        ensures
            school == self.school_id,
    {
        self.school_id
    }

    /// The display form `"{school}/{value}"`.
    pub fn to_text(&self) -> (text: String)
        ensures
            text@ == typed_id_text(self.school_id, self.value),
    {
        render_typed_id(self.school_id, self.value)
    }
}

/// A typed id for a chat group.
#[derive(Debug, Clone, Copy, PartialEq, Eq, Hash, PartialOrd, Ord, Structural)]
pub struct ChatGroupId {
    /// The owning school (tenant anchor).
    pub school_id: SchoolId,
    /// The local UUID.
    pub value: u128,
}

impl ChatGroupId {
    /// Constructs the id from its parts.
    pub fn new(school_id: SchoolId, value: u128) -> (id: Self)
        ensures
            id.school_id == school_id,
            id.value == value,
    {
        ChatGroupId { school_id, value }
    }

    /// The local UUID.
    pub fn as_uuid(&self) -> (value: u128)
        ensures
            value == self.value,
    {
        self.value
    }

    /// The owning school.
    pub fn school_id(&self) -> (school: SchoolId)
        ensures
            school == self.school_id,
    {
        self.school_id
    }

    /// The display form `"{school}/{value}"`.
    pub fn to_text(&self) -> (text: String)
        ensures
            text@ == typed_id_text(self.school_id, self.value),
    {
        render_typed_id(self.school_id, self.value)
    }
}

/// A typed id for a chat-group membership row.
#[derive(Debug, Clone, Copy, PartialEq, Eq, Hash, PartialOrd, Ord, Structural)]
pub struct ChatGroupUserId {
    /// The owning school (tenant anchor).
    pub school_id: SchoolId,
    /// The local UUID.
    pub value: u128,
}

impl ChatGroupUserId {
    /// Constructs the id from its parts.
    pub fn new(school_id: SchoolId, value: u128) -> (id: Self)
        ensures
            id.school_id == school_id,
            id.value == value,
    {
        ChatGroupUserId { school_id, value }
    }

    /// The local UUID.
    pub fn as_uuid(&self) -> (value: u128)
        ensures
            value == self.value,
    {
        self.value
    }

    /// The owning school.
    pub fn school_id(&self) -> (school: SchoolId)
        ensures
            school == self.school_id,
    {
        self.school_id
    }

    /// The display form `"{school}/{value}"`.
    pub fn to_text(&self) -> (text: String)
        ensures
            text@ == typed_id_text(self.school_id, self.value),
    {
        render_typed_id(self.school_id, self.value)
    }
}

/// A typed id for a chat-group message recipient row.
#[derive(Debug, Clone, Copy, PartialEq, Eq, Hash, PartialOrd, Ord, Structural)]
pub struct ChatGroupMessageRecipientId {
    /// The owning school (tenant anchor).
    pub school_id: SchoolId,
    /// The local UUID.
    pub value: u128,
}

impl ChatGroupMessageRecipientId {
    /// Constructs the id from its parts.
    pub fn new(school_id: SchoolId, value: u128) -> (id: Self)
        ensures
            id.school_id == school_id,
            id.value == value,
    {
        ChatGroupMessageRecipientId { school_id, value }
    }

    /// The local UUID.
    pub fn as_uuid(&self) -> (value: u128)
        ensures
            value == self.value,
    {
        self.value
    }

    /// The owning school.
    pub fn school_id(&self) -> (school: SchoolId)
        ensures
            school == self.school_id,
    {
        self.school_id
    }

    /// The display form `"{school}/{value}"`.
    pub fn to_text(&self) -> (text: String)
        ensures
            text@ == typed_id_text(self.school_id, self.value),
    {
        render_typed_id(self.school_id, self.value)
    }
}

/// A typed id for a chat-group message removal row.
#[derive(Debug, Clone, Copy, PartialEq, Eq, Hash, PartialOrd, Ord, Structural)]
pub struct ChatGroupMessageRemoveId {
    /// The owning school (tenant anchor).
    pub school_id: SchoolId,
    /// The local UUID.
    pub value: u128,
}

impl ChatGroupMessageRemoveId {
    /// Constructs the id from its parts.
    pub fn new(school_id: SchoolId, value: u128) -> (id: Self)
        ensures
            id.school_id == school_id,
            id.value == value,
    {
        ChatGroupMessageRemoveId { school_id, value }
    }

    /// The local UUID.
    pub fn as_uuid(&self) -> (value: u128)
        ensures
            value == self.value,
    {
        self.value
    }

    /// The owning school.
    pub fn school_id(&self) -> (school: SchoolId)
        ensures
            school == self.school_id,
    {
        self.school_id
    }

    /// The display form `"{school}/{value}"`.
    pub fn to_text(&self) -> (text: String)
        ensures
            text@ == typed_id_text(self.school_id, self.value),
    {
        render_typed_id(self.school_id, self.value)
    }
}

/// A typed id for a chat block row.
#[derive(Debug, Clone, Copy, PartialEq, Eq, Hash, PartialOrd, Ord, Structural)]
pub struct ChatBlockUserId {
    /// The owning school (tenant anchor).
    pub school_id: SchoolId,
    /// The local UUID.
    pub value: u128,
}

impl ChatBlockUserId {
    /// Constructs the id from its parts.
    pub fn new(school_id: SchoolId, value: u128) -> (id: Self)
        ensures
            id.school_id == school_id,
            id.value == value,
    {
        ChatBlockUserId { school_id, value }
    }

    /// The local UUID.
    pub fn as_uuid(&self) -> (value: u128)
        ensures
            value == self.value,
    {
        self.value
    }

    /// The owning school.
    pub fn school_id(&self) -> (school: SchoolId)
        ensures
            school == self.school_id,
    {
        self.school_id
    }

    /// The display form `"{school}/{value}"`.
    pub fn to_text(&self) -> (text: String)
        ensures
            text@ == typed_id_text(self.school_id, self.value),
    {
        render_typed_id(self.school_id, self.value)
    }
}

/// A typed id for a chat invitation.
#[derive(Debug, Clone, Copy, PartialEq, Eq, Hash, PartialOrd, Ord, Structural)]
pub struct ChatInvitationId {
    /// The owning school (tenant anchor).
    pub school_id: SchoolId,
    /// The local UUID.
    pub value: u128,
}

impl ChatInvitationId {
    /// Constructs the id from its parts.
    pub fn new(school_id: SchoolId, value: u128) -> (id: Self)
        ensures
            id.school_id == school_id,
            id.value == value,
    {
        ChatInvitationId { school_id, value }
    }

    /// The local UUID.
    pub fn as_uuid(&self) -> (value: u128)
        ensures
            value == self.value,
    {
        self.value
    }

    /// The owning school.
    pub fn school_id(&self) -> (school: SchoolId)
        ensures
            school == self.school_id,
    {
        self.school_id
    }

    /// The display form `"{school}/{value}"`.
    pub fn to_text(&self) -> (text: String)
        ensures
            text@ == typed_id_text(self.school_id, self.value),
    {
        render_typed_id(self.school_id, self.value)
    }
}

/// A typed id for a chat invitation type row.
#[derive(Debug, Clone, Copy, PartialEq, Eq, Hash, PartialOrd, Ord, Structural)]
pub struct ChatInvitationTypeId {
    /// The owning school (tenant anchor).
    pub school_id: SchoolId,
    /// The local UUID.
    pub value: u128,
}

impl ChatInvitationTypeId {
    /// Constructs the id from its parts.
    pub fn new(school_id: SchoolId, value: u128) -> (id: Self)
        ensures
            id.school_id == school_id,
            id.value == value,
    {
        ChatInvitationTypeId { school_id, value }
    }

    /// The local UUID.
    pub fn as_uuid(&self) -> (value: u128)
        ensures
            value == self.value,
    {
        self.value
    }

    /// The owning school.
    pub fn school_id(&self) -> (school: SchoolId)
        ensures
            school == self.school_id,
    {
        self.school_id
    }

    /// The display form `"{school}/{value}"`.
    pub fn to_text(&self) -> (text: String)
        ensures
            text@ == typed_id_text(self.school_id, self.value),
    {
        render_typed_id(self.school_id, self.value)
    }
}

/// A typed id for a chat status row.
#[derive(Debug, Clone, Copy, PartialEq, Eq, Hash, PartialOrd, Ord, Structural)]
pub struct ChatStatusId {
    /// The owning school (tenant anchor).
    pub school_id: SchoolId,
    /// The local UUID.
    pub value: u128,
}

impl ChatStatusId {
    /// Constructs the id from its parts.
    pub fn new(school_id: SchoolId, value: u128) -> (id: Self)
        ensures
            id.school_id == school_id,
            id.value == value,
    {
        ChatStatusId { school_id, value }
    }

    /// The local UUID.
    pub fn as_uuid(&self) -> (value: u128)
        ensures
            value == self.value,
    {
        self.value
    }

    /// The owning school.
    pub fn school_id(&self) -> (school: SchoolId)
        ensures
            school == self.school_id,
    {
        self.school_id
    }

    /// The display form `"{school}/{value}"`.
    pub fn to_text(&self) -> (text: String)
        ensures
            text@ == typed_id_text(self.school_id, self.value),
    {
        render_typed_id(self.school_id, self.value)
    }
}

/// A typed id for a send-message broadcast.
#[derive(Debug, Clone, Copy, PartialEq, Eq, Hash, PartialOrd, Ord, Structural)]
pub struct SendMessageId {
    /// The owning school (tenant anchor).
    pub school_id: SchoolId,
    /// The local UUID.
    pub value: u128,
}

impl SendMessageId {
    /// Constructs the id from its parts.
    pub fn new(school_id: SchoolId, value: u128) -> (id: Self)
        ensures
            id.school_id == school_id,
            id.value == value,
    {
        SendMessageId { school_id, value }
    }

    /// The local UUID.
    pub fn as_uuid(&self) -> (value: u128)
        ensures
            value == self.value,
    {
        self.value
    }

    /// The owning school.
    pub fn school_id(&self) -> (school: SchoolId)
        ensures
            school == self.school_id,
    {
        self.school_id
    }

    /// The display form `"{school}/{value}"`.
    pub fn to_text(&self) -> (text: String)
        ensures
            text@ == typed_id_text(self.school_id, self.value),
    {
        render_typed_id(self.school_id, self.value)
    }
}

/// A typed id for a contact message.
#[derive(Debug, Clone, Copy, PartialEq, Eq, Hash, PartialOrd, Ord, Structural)]
pub struct ContactMessageId {
    /// The owning school (tenant anchor).
    pub school_id: SchoolId,
    /// The local UUID.
    pub value: u128,
}

impl ContactMessageId {
    /// Constructs the id from its parts.
    pub fn new(school_id: SchoolId, value: u128) -> (id: Self)
        ensures
            id.school_id == school_id,
            id.value == value,
    {
        ContactMessageId { school_id, value }
    }

    /// The local UUID.
    pub fn as_uuid(&self) -> (value: u128)
        ensures
            value == self.value,
    {
        self.value
    }

    /// The owning school.
    pub fn school_id(&self) -> (school: SchoolId)
        ensures
            school == self.school_id,
    {
        self.school_id
    }

    /// The display form `"{school}/{value}"`.
    pub fn to_text(&self) -> (text: String)
        ensures
            text@ == typed_id_text(self.school_id, self.value),
    {
        render_typed_id(self.school_id, self.value)
    }
}

/// A typed id for a speech slider.
#[derive(Debug, Clone, Copy, PartialEq, Eq, Hash, PartialOrd, Ord, Structural)]
pub struct SpeechSliderId {
    /// The owning school (tenant anchor).
    pub school_id: SchoolId,
    /// The local UUID.
    pub value: u128,
}

impl SpeechSliderId {
    /// Constructs the id from its parts.
    pub fn new(school_id: SchoolId, value: u128) -> (id: Self)
        ensures
            id.school_id == school_id,
            id.value == value,
    {
        SpeechSliderId { school_id, value }
    }

    /// The local UUID.
    pub fn as_uuid(&self) -> (value: u128)
        ensures
            value == self.value,
    {
        self.value
    }

    /// The owning school.
    pub fn school_id(&self) -> (school: SchoolId)
        ensures
            school == self.school_id,
    {
        self.school_id
    }

    /// The display form `"{school}/{value}"`.
    pub fn to_text(&self) -> (text: String)
        ensures
            text@ == typed_id_text(self.school_id, self.value),
    {
        render_typed_id(self.school_id, self.value)
    }
}

/// A typed id for a phone-call log.
#[derive(Debug, Clone, Copy, PartialEq, Eq, Hash, PartialOrd, Ord, Structural)]
pub struct PhoneCallLogId {
    /// The owning school (tenant anchor).
    pub school_id: SchoolId,
    /// The local UUID.
    pub value: u128,
}

impl PhoneCallLogId {
    /// Constructs the id from its parts.
    pub fn new(school_id: SchoolId, value: u128) -> (id: Self)
        ensures
            id.school_id == school_id,
            id.value == value,
    {
        PhoneCallLogId { school_id, value }
    }

    /// The local UUID.
    pub fn as_uuid(&self) -> (value: u128)
        ensures
            value == self.value,
    {
        self.value
    }

    /// The owning school.
    pub fn school_id(&self) -> (school: SchoolId)
        ensures
            school == self.school_id,
    {
        self.school_id
    }

    /// The display form `"{school}/{value}"`.
    pub fn to_text(&self) -> (text: String)
        ensures
            text@ == typed_id_text(self.school_id, self.value),
    {
        render_typed_id(self.school_id, self.value)
    }
}

/// A typed id for a custom SMS setting.
#[derive(Debug, Clone, Copy, PartialEq, Eq, Hash, PartialOrd, Ord, Structural)]
pub struct CustomSmsSettingId {
    /// The owning school (tenant anchor).
    pub school_id: SchoolId,
    /// The local UUID.
    pub value: u128,
}

impl CustomSmsSettingId {
    /// Constructs the id from its parts.
    pub fn new(school_id: SchoolId, value: u128) -> (id: Self)
        ensures
            id.school_id == school_id,
            id.value == value,
    {
        CustomSmsSettingId { school_id, value }
    }

    /// The local UUID.
    pub fn as_uuid(&self) -> (value: u128)
        ensures
            value == self.value,
    {
        self.value
    }

    /// The owning school.
    pub fn school_id(&self) -> (school: SchoolId)
        ensures
            school == self.school_id,
    {
        self.school_id
    }

    /// The display form `"{school}/{value}"`.
    pub fn to_text(&self) -> (text: String)
        ensures
            text@ == typed_id_text(self.school_id, self.value),
    {
        render_typed_id(self.school_id, self.value)
    }
}

// ---- child entities ----

/// A typed id for a notice attachment.
#[derive(Debug, Clone, Copy, PartialEq, Eq, Hash, PartialOrd, Ord, Structural)]
pub struct NoticeAttachmentId {
    /// The owning school (tenant anchor).
    pub school_id: SchoolId,
    /// The local UUID.
    pub value: u128,
}

impl NoticeAttachmentId {
    /// Constructs the id from its parts.
    pub fn new(school_id: SchoolId, value: u128) -> (id: Self)
        ensures
            id.school_id == school_id,
            id.value == value,
    {
        NoticeAttachmentId { school_id, value }
    }

    /// The local UUID.
    pub fn as_uuid(&self) -> (value: u128)
        ensures
            value == self.value,
    {
        self.value
    }

    /// The owning school.
    pub fn school_id(&self) -> (school: SchoolId)
        ensures
            school == self.school_id,
    {
        self.school_id
    }

    /// The display form `"{school}/{value}"`.
    pub fn to_text(&self) -> (text: String)
        ensures
            text@ == typed_id_text(self.school_id, self.value),
    {
        render_typed_id(self.school_id, self.value)
    }
}

/// A typed id for a complaint note.
#[derive(Debug, Clone, Copy, PartialEq, Eq, Hash, PartialOrd, Ord, Structural)]
pub struct ComplaintNoteId {
    /// The owning school (tenant anchor).
    pub school_id: SchoolId,
    /// The local UUID.
    pub value: u128,
}

impl ComplaintNoteId {
    /// Constructs the id from its parts.
    pub fn new(school_id: SchoolId, value: u128) -> (id: Self)
        ensures
            id.school_id == school_id,
            id.value == value,
    {
        ComplaintNoteId { school_id, value }
    }

    /// The local UUID.
    pub fn as_uuid(&self) -> (value: u128)
        ensures
            value == self.value,
    {
        self.value
    }

    /// The owning school.
    pub fn school_id(&self) -> (school: SchoolId)
        ensures
            school == self.school_id,
    {
        self.school_id
    }

    /// The display form `"{school}/{value}"`.
    pub fn to_text(&self) -> (text: String)
        ensures
            text@ == typed_id_text(self.school_id, self.value),
    {
        render_typed_id(self.school_id, self.value)
    }
}

/// A typed id for a notification delivery attempt.
#[derive(Debug, Clone, Copy, PartialEq, Eq, Hash, PartialOrd, Ord, Structural)]
pub struct NotificationDeliveryAttemptId {
    /// The owning school (tenant anchor).
    pub school_id: SchoolId,
    /// The local UUID.
    pub value: u128,
}

impl NotificationDeliveryAttemptId {
    /// Constructs the id from its parts.
    pub fn new(school_id: SchoolId, value: u128) -> (id: Self)
        ensures
            id.school_id == school_id,
            id.value == value,
    {
        NotificationDeliveryAttemptId { school_id, value }
    }

    /// The local UUID.
    pub fn as_uuid(&self) -> (value: u128)
        ensures
            value == self.value,
    {
        self.value
    }

    /// The owning school.
    pub fn school_id(&self) -> (school: SchoolId)
        ensures
            school == self.school_id,
    {
        self.school_id
    }

    /// The display form `"{school}/{value}"`.
    pub fn to_text(&self) -> (text: String)
        ensures
            text@ == typed_id_text(self.school_id, self.value),
    {
        render_typed_id(self.school_id, self.value)
    }
}

/// A typed id for a chat-group avatar.
#[derive(Debug, Clone, Copy, PartialEq, Eq, Hash, PartialOrd, Ord, Structural)]
pub struct ChatGroupAvatarId {
    /// The owning school (tenant anchor).
    pub school_id: SchoolId,
    /// The local UUID.
    pub value: u128,
}

impl ChatGroupAvatarId {
    /// Constructs the id from its parts.
    pub fn new(school_id: SchoolId, value: u128) -> (id: Self)
        ensures
            id.school_id == school_id,
            id.value == value,
    {
        ChatGroupAvatarId { school_id, value }
    }

    /// The local UUID.
    pub fn as_uuid(&self) -> (value: u128)
        ensures
            value == self.value,
    {
        self.value
    }

    /// The owning school.
    pub fn school_id(&self) -> (school: SchoolId)
        ensures
            school == self.school_id,
    {
        self.school_id
    }

    /// The display form `"{school}/{value}"`.
    pub fn to_text(&self) -> (text: String)
        ensures
            text@ == typed_id_text(self.school_id, self.value),
    {
        render_typed_id(self.school_id, self.value)
    }
}

/// A typed id for a chat-group message.
#[derive(Debug, Clone, Copy, PartialEq, Eq, Hash, PartialOrd, Ord, Structural)]
pub struct ChatGroupMessageId {
    /// The owning school (tenant anchor).
    pub school_id: SchoolId,
    /// The local UUID.
    pub value: u128,
}

impl ChatGroupMessageId {
    /// Constructs the id from its parts.
    pub fn new(school_id: SchoolId, value: u128) -> (id: Self)
        ensures
            id.school_id == school_id,
            id.value == value,
    {
        ChatGroupMessageId { school_id, value }
    }

    /// The local UUID.
    pub fn as_uuid(&self) -> (value: u128)
        ensures
            value == self.value,
    {
        self.value
    }

    /// The owning school.
    pub fn school_id(&self) -> (school: SchoolId)
        ensures
            school == self.school_id,
    {
        self.school_id
    }

    /// The display form `"{school}/{value}"`.
    pub fn to_text(&self) -> (text: String)
        ensures
            text@ == typed_id_text(self.school_id, self.value),
    {
        render_typed_id(self.school_id, self.value)
    }
}

/// A typed id for a conversation last-read pointer.
#[derive(Debug, Clone, Copy, PartialEq, Eq, Hash, PartialOrd, Ord, Structural)]
pub struct ChatConversationLastReadId {
    /// The owning school (tenant anchor).
    pub school_id: SchoolId,
    /// The local UUID.
    pub value: u128,
}

impl ChatConversationLastReadId {
    /// Constructs the id from its parts.
    pub fn new(school_id: SchoolId, value: u128) -> (id: Self)
        ensures
            id.school_id == school_id,
            id.value == value,
    {
        ChatConversationLastReadId { school_id, value }
    }

    /// The local UUID.
    pub fn as_uuid(&self) -> (value: u128)
        ensures
            value == self.value,
    {
        self.value
    }

    /// The owning school.
    pub fn school_id(&self) -> (school: SchoolId)
        ensures
            school == self.school_id,
    {
        self.school_id
    }

    /// The display form `"{school}/{value}"`.
    pub fn to_text(&self) -> (text: String)
        ensures
            text@ == typed_id_text(self.school_id, self.value),
    {
        render_typed_id(self.school_id, self.value)
    }
}

/// A typed id for a send-message recipient.
#[derive(Debug, Clone, Copy, PartialEq, Eq, Hash, PartialOrd, Ord, Structural)]
pub struct SendMessageRecipientId {
    /// The owning school (tenant anchor).
    pub school_id: SchoolId,
    /// The local UUID.
    pub value: u128,
}

impl SendMessageRecipientId {
    /// Constructs the id from its parts.
    pub fn new(school_id: SchoolId, value: u128) -> (id: Self)
        ensures
            id.school_id == school_id,
            id.value == value,
    {
        SendMessageRecipientId { school_id, value }
    }

    /// The local UUID.
    pub fn as_uuid(&self) -> (value: u128)
        ensures
            value == self.value,
    {
        self.value
    }

    /// The owning school.
    pub fn school_id(&self) -> (school: SchoolId)
        ensures
            school == self.school_id,
    {
        self.school_id
    }

    /// The display form `"{school}/{value}"`.
    pub fn to_text(&self) -> (text: String)
        ensures
            text@ == typed_id_text(self.school_id, self.value),
    {
        render_typed_id(self.school_id, self.value)
    }
}

/// A typed id for an email-setting secret snapshot.
#[derive(Debug, Clone, Copy, PartialEq, Eq, Hash, PartialOrd, Ord, Structural)]
pub struct EmailSettingSecretId {
    /// The owning school (tenant anchor).
    pub school_id: SchoolId,
    /// The local UUID.
    pub value: u128,
}

impl EmailSettingSecretId {
    /// Constructs the id from its parts.
    pub fn new(school_id: SchoolId, value: u128) -> (id: Self)
        ensures
            id.school_id == school_id,
            id.value == value,
    {
        EmailSettingSecretId { school_id, value }
    }

    /// The local UUID.
    pub fn as_uuid(&self) -> (value: u128)
        ensures
            value == self.value,
    {
        self.value
    }

    /// The owning school.
    pub fn school_id(&self) -> (school: SchoolId)
        ensures
            school == self.school_id,
    {
        self.school_id
    }

    /// The display form `"{school}/{value}"`.
    pub fn to_text(&self) -> (text: String)
        ensures
            text@ == typed_id_text(self.school_id, self.value),
    {
        render_typed_id(self.school_id, self.value)
    }
}

/// A typed id for an SMS-gateway credential snapshot.
#[derive(Debug, Clone, Copy, PartialEq, Eq, Hash, PartialOrd, Ord, Structural)]
pub struct SmsGatewayCredentialId {
    /// The owning school (tenant anchor).
    pub school_id: SchoolId,
    /// The local UUID.
    pub value: u128,
}

impl SmsGatewayCredentialId {
    /// Constructs the id from its parts.
    pub fn new(school_id: SchoolId, value: u128) -> (id: Self)
        ensures
            id.school_id == school_id,
            id.value == value,
    {
        SmsGatewayCredentialId { school_id, value }
    }

    /// The local UUID.
    pub fn as_uuid(&self) -> (value: u128)
        ensures
            value == self.value,
    {
        self.value
    }

    /// The owning school.
    pub fn school_id(&self) -> (school: SchoolId)
        ensures
            school == self.school_id,
    {
        self.school_id
    }

    /// The display form `"{school}/{value}"`.
    pub fn to_text(&self) -> (text: String)
        ensures
            text@ == typed_id_text(self.school_id, self.value),
    {
        render_typed_id(self.school_id, self.value)
    }
}

/// A typed id for an absent-notification dispatch.
#[derive(Debug, Clone, Copy, PartialEq, Eq, Hash, PartialOrd, Ord, Structural)]
pub struct AbsentNotificationDispatchId {
    /// The owning school (tenant anchor).
    pub school_id: SchoolId,
    /// The local UUID.
    pub value: u128,
}

impl AbsentNotificationDispatchId {
    /// Constructs the id from its parts.
    pub fn new(school_id: SchoolId, value: u128) -> (id: Self)
        ensures
            id.school_id == school_id,
            id.value == value,
    {
        AbsentNotificationDispatchId { school_id, value }
    }

    /// The local UUID.
    pub fn as_uuid(&self) -> (value: u128)
        ensures
            value == self.value,
    {
        self.value
    }

    /// The owning school.
    pub fn school_id(&self) -> (school: SchoolId)
        ensures
            school == self.school_id,
    {
        self.school_id
    }

    /// The display form `"{school}/{value}"`.
    pub fn to_text(&self) -> (text: String)
        ensures
            text@ == typed_id_text(self.school_id, self.value),
    {
        render_typed_id(self.school_id, self.value)
    }
}

/// A typed id for a contact-message reply.
#[derive(Debug, Clone, Copy, PartialEq, Eq, Hash, PartialOrd, Ord, Structural)]
pub struct ContactMessageReplyId {
    /// The owning school (tenant anchor).
    pub school_id: SchoolId,
    /// The local UUID.
    pub value: u128,
}

impl ContactMessageReplyId {
    /// Constructs the id from its parts.
    pub fn new(school_id: SchoolId, value: u128) -> (id: Self)
        ensures
            id.school_id == school_id,
            id.value == value,
    {
        ContactMessageReplyId { school_id, value }
    }

    /// The local UUID.
    pub fn as_uuid(&self) -> (value: u128)
        ensures
            value == self.value,
    {
        self.value
    }

    /// The owning school.
    pub fn school_id(&self) -> (school: SchoolId)
        ensures
            school == self.school_id,
    {
        self.school_id
    }

    /// The display form `"{school}/{value}"`.
    pub fn to_text(&self) -> (text: String)
        ensures
            text@ == typed_id_text(self.school_id, self.value),
    {
        render_typed_id(self.school_id, self.value)
    }
}

// =============================================================================
// Closed enums
// =============================================================================

/// The classification of a notice; it decides the default audience.
#[derive(Debug, Clone, Copy, PartialEq, Eq, Hash, Structural)]
pub enum NoticeType {
    /// A school-wide general announcement.
    General,
    /// A notice scoped to a single class.
    Class,
    /// A notice targeted at a specific student.
    Student,
    /// A notice targeted at staff.
    Staff,
    /// A notice targeted at parents.
    Parent,
    /// A notice for an upcoming event.
    Event,
}

impl NoticeType {
    /// The wire-form text of each variant.
    pub open spec fn wire(self) -> Seq<char> {
        match self {
            NoticeType::General => "General"@,
            NoticeType::Class => "Class"@,
            NoticeType::Student => "Student"@,
            NoticeType::Staff => "Staff"@,
            NoticeType::Parent => "Parent"@,
            NoticeType::Event => "Event"@,
        }
    }

    /// Returns the wire-form string.
    pub fn as_str(self) -> (s: &'static str)
        ensures
            s@ == self.wire(),
    {
        match self {
            NoticeType::General => "General",
            NoticeType::Class => "Class",
            NoticeType::Student => "Student",
            NoticeType::Staff => "Staff",
            NoticeType::Parent => "Parent",
            NoticeType::Event => "Event",
        }
    }
}

/// The publication state of a notice.
#[derive(Debug, Clone, Copy, PartialEq, Eq, Hash, Structural)]
pub enum NoticeStatus {
    /// The notice is a draft and is not visible to readers.
    Draft,
    /// The notice is scheduled to publish on a future date.
    Scheduled,
    /// The notice is published and visible to its audience.
    Published,
    /// The notice was published and has since been withdrawn.
    Unpublished,
}

impl NoticeStatus {
    /// The wire-form text of each variant.
    pub open spec fn wire(self) -> Seq<char> {
        match self {
            NoticeStatus::Draft => "Draft"@,
            NoticeStatus::Scheduled => "Scheduled"@,
            NoticeStatus::Published => "Published"@,
            NoticeStatus::Unpublished => "Unpublished"@,
        }
    }

    /// Returns the wire-form string.
    pub fn as_str(self) -> (s: &'static str)
        ensures
            s@ == self.wire(),
    {
        match self {
            NoticeStatus::Draft => "Draft",
            NoticeStatus::Scheduled => "Scheduled",
            NoticeStatus::Published => "Published",
            NoticeStatus::Unpublished => "Unpublished",
        }
    }
}

/// The lifecycle status of a complaint.
#[derive(Debug, Clone, Copy, PartialEq, Eq, Hash, Structural)]
pub enum ComplaintStatus {
    /// The complaint is open and awaiting triage.
    Open,
    /// The complaint is being actively worked.
    InProgress,
    /// The complaint has been resolved.
    Resolved,
}

impl ComplaintStatus {
    /// The wire-form text of each variant.
    pub open spec fn wire(self) -> Seq<char> {
        match self {
            ComplaintStatus::Open => "Open"@,
            ComplaintStatus::InProgress => "InProgress"@,
            ComplaintStatus::Resolved => "Resolved"@,
        }
    }

    /// Returns the wire-form string.
    pub fn as_str(self) -> (s: &'static str)
        ensures
            s@ == self.wire(),
    {
        match self {
            ComplaintStatus::Open => "Open",
            ComplaintStatus::InProgress => "InProgress",
            ComplaintStatus::Resolved => "Resolved",
        }
    }
}

/// The channel through which a complaint was reported.
#[derive(Debug, Clone, Copy, PartialEq, Eq, Hash, Structural)]
pub enum ComplaintSource {
    /// Walk-in at reception.
    WalkIn,
    /// Reported by phone.
    Phone,
    /// Reported by email.
    Email,
    /// Reported via the school's web form.
    Web,
    /// Some other channel.
    Other,
    /// Reported anonymously.
    Anonymous,
}

impl ComplaintSource {
    /// The wire-form text of each variant.
    pub open spec fn wire(self) -> Seq<char> {
        match self {
            ComplaintSource::WalkIn => "WalkIn"@,
            ComplaintSource::Phone => "Phone"@,
            ComplaintSource::Email => "Email"@,
            ComplaintSource::Web => "Web"@,
            ComplaintSource::Other => "Other"@,
            ComplaintSource::Anonymous => "Anonymous"@,
        }
    }

    /// Returns the wire-form string.
    pub fn as_str(self) -> (s: &'static str)
        ensures
            s@ == self.wire(),
    {
        match self {
            ComplaintSource::WalkIn => "WalkIn",
            ComplaintSource::Phone => "Phone",
            ComplaintSource::Email => "Email",
            ComplaintSource::Web => "Web",
            ComplaintSource::Other => "Other",
            ComplaintSource::Anonymous => "Anonymous",
        }
    }
}

/// The visual severity of a notification.
#[derive(Debug, Clone, Copy, PartialEq, Eq, Hash, Structural)]
pub enum NotificationType {
    /// Informational.
    Info,
    /// A warning that something may need attention.
    Warning,
    /// A success message.
    Success,
    /// An error message.
    Error,
}

impl NotificationType {
    /// The wire-form text of each variant.
    pub open spec fn wire(self) -> Seq<char> {
        match self {
            NotificationType::Info => "Info"@,
            NotificationType::Warning => "Warning"@,
            NotificationType::Success => "Success"@,
            NotificationType::Error => "Error"@,
        }
    }

    /// Returns the wire-form string.
    pub fn as_str(self) -> (s: &'static str)
        ensures
            s@ == self.wire(),
    {
        match self {
            NotificationType::Info => "Info",
            NotificationType::Warning => "Warning",
            NotificationType::Success => "Success",
            NotificationType::Error => "Error",
        }
    }
}

/// The delivery state of a notification.
#[derive(Debug, Clone, Copy, PartialEq, Eq, Hash, Structural)]
pub enum NotificationStatus {
    /// Queued but not yet dispatched.
    Pending,
    /// Dispatched to a channel.
    Dispatched,
    /// Delivered to the recipient.
    Delivered,
    /// Delivery failed.
    Failed,
    /// The recipient has read it.
    Read,
    /// Withdrawn before being read.
    Withdrawn,
}

impl NotificationStatus {
    /// The wire-form text of each variant.
    pub open spec fn wire(self) -> Seq<char> {
        match self {
            NotificationStatus::Pending => "Pending"@,
            NotificationStatus::Dispatched => "Dispatched"@,
            NotificationStatus::Delivered => "Delivered"@,
            NotificationStatus::Failed => "Failed"@,
            NotificationStatus::Read => "Read"@,
            NotificationStatus::Withdrawn => "Withdrawn"@,
        }
    }

    /// Returns the wire-form string.
    pub fn as_str(self) -> (s: &'static str)
        ensures
            s@ == self.wire(),
    {
        match self {
            NotificationStatus::Pending => "Pending",
            NotificationStatus::Dispatched => "Dispatched",
            NotificationStatus::Delivered => "Delivered",
            NotificationStatus::Failed => "Failed",
            NotificationStatus::Read => "Read",
            NotificationStatus::Withdrawn => "Withdrawn",
        }
    }
}

/// A logical channel label.
#[derive(Debug, Clone, Copy, PartialEq, Eq, Hash, Structural)]
pub enum Channel {
    /// Email channel.
    Email,
    /// SMS channel.
    Sms,
    /// In-app web notification.
    Web,
    /// In-app mobile/desktop notification.
    App,
    /// Push notification.
    Push,
}

impl Channel {
    /// The wire-form text of each variant.
    pub open spec fn wire(self) -> Seq<char> {
        match self {
            Channel::Email => "Email"@,
            Channel::Sms => "Sms"@,
            Channel::Web => "Web"@,
            Channel::App => "App"@,
            Channel::Push => "Push"@,
        }
    }

    /// Returns the wire-form string.
    pub fn as_str(self) -> (s: &'static str)
        ensures
            s@ == self.wire(),
    {
        match self {
            Channel::Email => "Email",
            Channel::Sms => "Sms",
            Channel::Web => "Web",
            Channel::App => "App",
            Channel::Push => "Push",
        }
    }
}

/// The kind of payload carried by a chat message.
#[derive(Debug, Clone, Copy, PartialEq, Eq, Hash, Structural)]
pub enum MessageType {
    /// Plain text body.
    Text,
    /// An image attachment.
    Image,
    /// A PDF document.
    Pdf,
    /// A generic document.
    Document,
    /// A voice note.
    Voice,
}

impl MessageType {
    /// The wire-form text of each variant.
    pub open spec fn wire(self) -> Seq<char> {
        match self {
            MessageType::Text => "Text"@,
            MessageType::Image => "Image"@,
            MessageType::Pdf => "Pdf"@,
            MessageType::Document => "Document"@,
            MessageType::Voice => "Voice"@,
        }
    }

    /// Returns the wire-form string.
    pub fn as_str(self) -> (s: &'static str)
        ensures
            s@ == self.wire(),
    {
        match self {
            MessageType::Text => "Text",
            MessageType::Image => "Image",
            MessageType::Pdf => "Pdf",
            MessageType::Document => "Document",
            MessageType::Voice => "Voice",
        }
    }
}

/// The kind of phone call logged.
#[derive(Debug, Clone, Copy, PartialEq, Eq, Hash, Structural)]
pub enum CallType {
    /// An incoming call.
    Incoming,
    /// An outgoing call.
    Outgoing,
    /// A missed call.
    Missed,
}

impl CallType {
    /// The wire-form text of each variant.
    pub open spec fn wire(self) -> Seq<char> {
        match self {
            CallType::Incoming => "Incoming"@,
            CallType::Outgoing => "Outgoing"@,
            CallType::Missed => "Missed"@,
        }
    }

    /// Returns the wire-form string.
    pub fn as_str(self) -> (s: &'static str)
        ensures
            s@ == self.wire(),
    {
        match self {
            CallType::Incoming => "Incoming",
            CallType::Outgoing => "Outgoing",
            CallType::Missed => "Missed",
        }
    }
}

/// The SMS gateway vendor; it decides the credential shape.
#[derive(Debug, Clone, Copy, PartialEq, Eq, Hash, Structural)]
pub enum GatewayType {
    /// Clickatell.
    Clickatell,
    /// Twilio.
    Twilio,
    /// Msg91.
    Msg91,
    /// Textlocal.
    Textlocal,
    /// AfricaTalking.
    AfricaTalking,
    /// Custom HTTP gateway.
    Custom,
}

impl GatewayType {
    /// The wire-form text of each variant.
    pub open spec fn wire(self) -> Seq<char> {
        match self {
            GatewayType::Clickatell => "Clickatell"@,
            GatewayType::Twilio => "Twilio"@,
            GatewayType::Msg91 => "Msg91"@,
            GatewayType::Textlocal => "Textlocal"@,
            GatewayType::AfricaTalking => "AfricaTalking"@,
            GatewayType::Custom => "Custom"@,
        }
    }

    /// Returns the wire-form string.
    pub fn as_str(self) -> (s: &'static str)
        ensures
            s@ == self.wire(),
    {
        match self {
            GatewayType::Clickatell => "Clickatell",
            GatewayType::Twilio => "Twilio",
            GatewayType::Msg91 => "Msg91",
            GatewayType::Textlocal => "Textlocal",
            GatewayType::AfricaTalking => "AfricaTalking",
            GatewayType::Custom => "Custom",
        }
    }
}

/// The encryption mode for an SMTP mail driver.
#[derive(Debug, Clone, Copy, PartialEq, Eq, Hash, Structural)]
pub enum MailEncryption {
    /// No encryption (plaintext).
    Unencrypted,
    /// Implicit TLS.
    Tls,
    /// STARTTLS.
    StartTls,
}

impl MailEncryption {
    /// The wire-form text of each variant.
    pub open spec fn wire(self) -> Seq<char> {
        match self {
            MailEncryption::Unencrypted => "None"@,
            MailEncryption::Tls => "Tls"@,
            MailEncryption::StartTls => "StartTls"@,
        }
    }

    /// Returns the wire-form string.
    pub fn as_str(self) -> (s: &'static str)
        ensures
            s@ == self.wire(),
    {
        match self {
            MailEncryption::Unencrypted => "None",
            MailEncryption::Tls => "Tls",
            MailEncryption::StartTls => "StartTls",
        }
    }
}

/// The mail transport driver.
#[derive(Debug, Clone, Copy, PartialEq, Eq, Hash, Structural)]
pub enum MailDriver {
    /// Standard SMTP.
    Smtp,
    /// Local sendmail binary.
    Sendmail,
    /// Mailgun HTTP API.
    Mailgun,
    /// Amazon SES.
    Ses,
    /// Postmark HTTP API.
    Postmark,
}

impl MailDriver {
    /// The wire-form text of each variant.
    pub open spec fn wire(self) -> Seq<char> {
        match self {
            MailDriver::Smtp => "Smtp"@,
            MailDriver::Sendmail => "Sendmail"@,
            MailDriver::Mailgun => "Mailgun"@,
            MailDriver::Ses => "Ses"@,
            MailDriver::Postmark => "Postmark"@,
        }
    }

    /// Returns the wire-form string.
    pub fn as_str(self) -> (s: &'static str)
        ensures
            s@ == self.wire(),
    {
        match self {
            MailDriver::Smtp => "Smtp",
            MailDriver::Sendmail => "Sendmail",
            MailDriver::Mailgun => "Mailgun",
            MailDriver::Ses => "Ses",
            MailDriver::Postmark => "Postmark",
        }
    }
}

/// The HTTP method for a custom SMS gateway.
#[derive(Debug, Clone, Copy, PartialEq, Eq, Hash, Structural)]
pub enum RequestMethod {
    /// HTTP GET.
    Get,
    /// HTTP POST.
    Post,
}

impl RequestMethod {
    /// The wire-form text of each variant.
    pub open spec fn wire(self) -> Seq<char> {
        match self {
            RequestMethod::Get => "Get"@,
            RequestMethod::Post => "Post"@,
        }
    }

    /// Returns the wire-form string.
    pub fn as_str(self) -> (s: &'static str)
        ensures
            s@ == self.wire(),
    {
        match self {
            RequestMethod::Get => "Get",
            RequestMethod::Post => "Post",
        }
    }
}

/// The enabled/disabled state of an SMS template.
#[derive(Debug, Clone, Copy, PartialEq, Eq, Hash, Structural)]
pub enum SmsTemplateStatus {
    /// The template may be used.
    Enabled,
    /// The template may not be used.
    Disabled,
}

impl SmsTemplateStatus {
    /// The wire-form text of each variant.
    pub open spec fn wire(self) -> Seq<char> {
        match self {
            SmsTemplateStatus::Enabled => "Enabled"@,
            SmsTemplateStatus::Disabled => "Disabled"@,
        }
    }

    /// Returns the wire-form string.
    pub fn as_str(self) -> (s: &'static str)
        ensures
            s@ == self.wire(),
    {
        match self {
            SmsTemplateStatus::Enabled => "Enabled",
            SmsTemplateStatus::Disabled => "Disabled",
        }
    }
}

/// The enabled/disabled state of an absent-notification schedule.
#[derive(Debug, Clone, Copy, PartialEq, Eq, Hash, Structural)]
pub enum AbsentNotificationStatus {
    /// The schedule is enabled.
    Enabled,
    /// The schedule is disabled.
    Disabled,
}

impl AbsentNotificationStatus {
    /// The wire-form text of each variant.
    pub open spec fn wire(self) -> Seq<char> {
        match self {
            AbsentNotificationStatus::Enabled => "Enabled"@,
            AbsentNotificationStatus::Disabled => "Disabled"@,
        }
    }

    /// Returns the wire-form string.
    pub fn as_str(self) -> (s: &'static str)
        ensures
            s@ == self.wire(),
    {
        match self {
            AbsentNotificationStatus::Enabled => "Enabled",
            AbsentNotificationStatus::Disabled => "Disabled",
        }
    }
}

/// The privacy level of a chat group.
#[derive(Debug, Clone, Copy, PartialEq, Eq, Hash, Structural)]
pub enum ChatGroupPrivacy {
    /// Anyone in the school can see and join.
    Public,
    /// Visible but joining must be approved.
    Private,
    /// Tied to a class; only class members can join.
    Class,
}

impl ChatGroupPrivacy {
    /// The wire-form text of each variant.
    pub open spec fn wire(self) -> Seq<char> {
        match self {
            ChatGroupPrivacy::Public => "Public"@,
            ChatGroupPrivacy::Private => "Private"@,
            ChatGroupPrivacy::Class => "Class"@,
        }
    }

    /// Returns the wire-form string.
    pub fn as_str(self) -> (s: &'static str)
        ensures
            s@ == self.wire(),
    {
        match self {
            ChatGroupPrivacy::Public => "Public",
            ChatGroupPrivacy::Private => "Private",
            ChatGroupPrivacy::Class => "Class",
        }
    }
}

/// The join mode of a chat group.
#[derive(Debug, Clone, Copy, PartialEq, Eq, Hash, Structural)]
pub enum ChatGroupType {
    /// Anyone in the school can join.
    Open,
    /// An admin must approve joins.
    Closed,
}

impl ChatGroupType {
    /// The wire-form text of each variant.
    pub open spec fn wire(self) -> Seq<char> {
        match self {
            ChatGroupType::Open => "Open"@,
            ChatGroupType::Closed => "Closed"@,
        }
    }

    /// Returns the wire-form string.
    pub fn as_str(self) -> (s: &'static str)
        ensures
            s@ == self.wire(),
    {
        match self {
            ChatGroupType::Open => "Open",
            ChatGroupType::Closed => "Closed",
        }
    }
}

/// The role of a member within a chat group.
#[derive(Debug, Clone, Copy, PartialEq, Eq, Hash, Structural)]
pub enum ChatGroupRole {
    /// A regular member.
    Member,
    /// An admin (can moderate).
    Admin,
}

impl ChatGroupRole {
    /// The wire-form text of each variant.
    pub open spec fn wire(self) -> Seq<char> {
        match self {
            ChatGroupRole::Member => "Member"@,
            ChatGroupRole::Admin => "Admin"@,
        }
    }

    /// Returns the wire-form string.
    pub fn as_str(self) -> (s: &'static str)
        ensures
            s@ == self.wire(),
    {
        match self {
            ChatGroupRole::Member => "Member",
            ChatGroupRole::Admin => "Admin",
        }
    }
}

/// The presence status of a chat user.
#[derive(Debug, Clone, Copy, PartialEq, Eq, Hash, Structural)]
pub enum ChatStatus {
    /// The user is offline.
    Inactive,
    /// The user is online and reachable.
    Active,
    /// The user is online but away.
    Away,
    /// The user is online but busy.
    Busy,
}

impl ChatStatus {
    /// The wire-form text of each variant.
    pub open spec fn wire(self) -> Seq<char> {
        match self {
            ChatStatus::Inactive => "Inactive"@,
            ChatStatus::Active => "Active"@,
            ChatStatus::Away => "Away"@,
            ChatStatus::Busy => "Busy"@,
        }
    }

    /// Returns the wire-form string.
    pub fn as_str(self) -> (s: &'static str)
        ensures
            s@ == self.wire(),
    {
        match self {
            ChatStatus::Inactive => "Inactive",
            ChatStatus::Active => "Active",
            ChatStatus::Away => "Away",
            ChatStatus::Busy => "Busy",
        }
    }
}

/// The state of a chat invitation.
#[derive(Debug, Clone, Copy, PartialEq, Eq, Hash, Structural)]
pub enum ChatInvitationStatus {
    /// Sent and awaiting a response.
    Pending,
    /// Accepted; the two parties are connected.
    Connected,
    /// Rejected, or the user is blocked.
    Blocked,
}

impl ChatInvitationStatus {
    /// The wire-form text of each variant.
    pub open spec fn wire(self) -> Seq<char> {
        match self {
            ChatInvitationStatus::Pending => "Pending"@,
            ChatInvitationStatus::Connected => "Connected"@,
            ChatInvitationStatus::Blocked => "Blocked"@,
        }
    }

    /// Returns the wire-form string.
    pub fn as_str(self) -> (s: &'static str)
        ensures
            s@ == self.wire(),
    {
        match self {
            ChatInvitationStatus::Pending => "Pending",
            ChatInvitationStatus::Connected => "Connected",
            ChatInvitationStatus::Blocked => "Blocked",
        }
    }
}

/// The classification of a chat invitation.
#[derive(Debug, Clone, Copy, PartialEq, Eq, Hash, Structural)]
pub enum ChatInvitationTypeEnum {
    /// A direct (1:1) chat.
    OneToOne,
    /// A group chat.
    Group,
    /// A class-teacher chat.
    ClassTeacher,
}

impl ChatInvitationTypeEnum {
    /// The wire-form text of each variant.
    pub open spec fn wire(self) -> Seq<char> {
        match self {
            ChatInvitationTypeEnum::OneToOne => "OneToOne"@,
            ChatInvitationTypeEnum::Group => "Group"@,
            ChatInvitationTypeEnum::ClassTeacher => "ClassTeacher"@,
        }
    }

    /// Returns the wire-form string.
    pub fn as_str(self) -> (s: &'static str)
        ensures
            s@ == self.wire(),
    {
        match self {
            ChatInvitationTypeEnum::OneToOne => "OneToOne",
            ChatInvitationTypeEnum::Group => "Group",
            ChatInvitationTypeEnum::ClassTeacher => "ClassTeacher",
        }
    }
}

/// The read state of a chat message.
#[derive(Debug, Clone, Copy, PartialEq, Eq, Hash, Structural)]
pub enum ChatMessageStatus {
    /// Not read yet.
    Unread,
    /// Seen by the recipient.
    Seen,
}

impl ChatMessageStatus {
    /// The wire-form text of each variant.
    pub open spec fn wire(self) -> Seq<char> {
        match self {
            ChatMessageStatus::Unread => "Unread"@,
            ChatMessageStatus::Seen => "Seen"@,
        }
    }

    /// Returns the wire-form string.
    pub fn as_str(self) -> (s: &'static str)
        ensures
            s@ == self.wire(),
    {
        match self {
            ChatMessageStatus::Unread => "Unread",
            ChatMessageStatus::Seen => "Seen",
        }
    }
}

/// The lifecycle status of a send-message broadcast.
#[derive(Debug, Clone, Copy, PartialEq, Eq, Hash, Structural)]
pub enum SendMessageStatus {
    /// The broadcast is a draft.
    Draft,
    /// Dispatched to its recipients.
    Dispatched,
    /// Cancelled before dispatch.
    Cancelled,
    /// Finished dispatching.
    Completed,
}

impl SendMessageStatus {
    /// The wire-form text of each variant.
    pub open spec fn wire(self) -> Seq<char> {
        match self {
            SendMessageStatus::Draft => "Draft"@,
            SendMessageStatus::Dispatched => "Dispatched"@,
            SendMessageStatus::Cancelled => "Cancelled"@,
            SendMessageStatus::Completed => "Completed"@,
        }
    }

    /// Returns the wire-form string.
    pub fn as_str(self) -> (s: &'static str)
        ensures
            s@ == self.wire(),
    {
        match self {
            SendMessageStatus::Draft => "Draft",
            SendMessageStatus::Dispatched => "Dispatched",
            SendMessageStatus::Cancelled => "Cancelled",
            SendMessageStatus::Completed => "Completed",
        }
    }
}

/// The view state of a contact-form submission.
#[derive(Debug, Clone, Copy, PartialEq, Eq, Hash, Structural)]
pub enum ContactMessageViewStatus {
    /// Not viewed by staff.
    Unviewed,
    /// Viewed by staff.
    Viewed,
}

impl ContactMessageViewStatus {
    /// The wire-form text of each variant.
    pub open spec fn wire(self) -> Seq<char> {
        match self {
            ContactMessageViewStatus::Unviewed => "Unviewed"@,
            ContactMessageViewStatus::Viewed => "Viewed"@,
        }
    }

    /// Returns the wire-form string.
    pub fn as_str(self) -> (s: &'static str)
        ensures
            s@ == self.wire(),
    {
        match self {
            ContactMessageViewStatus::Unviewed => "Unviewed",
            ContactMessageViewStatus::Viewed => "Viewed",
        }
    }
}

/// The reply state of a contact-form submission.
#[derive(Debug, Clone, Copy, PartialEq, Eq, Hash, Structural)]
pub enum ContactMessageReplyStatus {
    /// Not replied to.
    Unreplied,
    /// Replied to.
    Replied,
}

impl ContactMessageReplyStatus {
    /// The wire-form text of each variant.
    pub open spec fn wire(self) -> Seq<char> {
        match self {
            ContactMessageReplyStatus::Unreplied => "Unreplied"@,
            ContactMessageReplyStatus::Replied => "Replied"@,
        }
    }

    /// Returns the wire-form string.
    pub fn as_str(self) -> (s: &'static str)
        ensures
            s@ == self.wire(),
    {
        match self {
            ContactMessageReplyStatus::Unreplied => "Unreplied",
            ContactMessageReplyStatus::Replied => "Replied",
        }
    }
}

/// A complaint workflow verb, mirroring the status transitions.
#[derive(Debug, Clone, Copy, PartialEq, Eq, Hash, Structural)]
pub enum ComplaintAction {
    /// Move the complaint to `Open`.
    Open,
    /// Move the complaint to `InProgress`.
    InProgress,
    /// Resolve the complaint.
    Resolve,
}

impl ComplaintAction {
    /// The wire-form text of each variant.
    pub open spec fn wire(self) -> Seq<char> {
        match self {
            ComplaintAction::Open => "Open"@,
            ComplaintAction::InProgress => "InProgress"@,
            ComplaintAction::Resolve => "Resolve"@,
        }
    }

    /// Returns the wire-form string.
    pub fn as_str(self) -> (s: &'static str)
        ensures
            s@ == self.wire(),
    {
        match self {
            ComplaintAction::Open => "Open",
            ComplaintAction::InProgress => "InProgress",
            ComplaintAction::Resolve => "Resolve",
        }
    }
}

// =============================================================================
// Destination bitflag
// =============================================================================

/// Whether the flag of weight `w` (1, 2, 4 or 8) is set in `bits`.
pub open spec fn flag_set(bits: u8, w: u8) -> bool {
    (bits / w) % 2 == 1
}

/// The single-letter codes of the flags set in `bits`, in the
/// canonical order email, SMS, web, app.
pub open spec fn destination_letters(bits: u8) -> Seq<char> {
    (if flag_set(bits, 1) { seq!['E'] } else { Seq::empty() }) + (if flag_set(bits, 2) {
        seq!['S']
    } else {
        Seq::empty()
    }) + (if flag_set(bits, 4) { seq!['W'] } else { Seq::empty() }) + (if flag_set(bits, 8) {
        seq!['A']
    } else {
        Seq::empty()
    })
}

/// The letters separated by commas (`"E,S,A"`); empty for no letters.
pub open spec fn comma_joined(letters: Seq<char>) -> Seq<char> {
    Seq::new(
        if letters.len() == 0 {
            0
        } else {
            (2 * letters.len() - 1) as nat
        },
        |i: int|
            if i % 2 == 0 {
                letters[i / 2]
            } else {
                ','
            },
    )
}

/// A typed bitflag over the four delivery destinations (email, SMS,
/// web, app). Compose routes with `|`, test them with `contains()`,
/// and render them with `as_str()`.
#[derive(Debug, Clone, Copy, PartialEq, Eq, Hash, Structural)]
pub struct Destination {
    bits: u8,
}

impl Destination {
    /// Only the four known flags are ever set.
    #[verifier::type_invariant]
    spec fn known_flags(self) -> bool {
        self.bits < 16
    }

    /// Email destination flag.
    pub fn email() -> (d: Destination)
        ensures
            d.spec_bits() == 1,
    {
        Destination { bits: 1 }
    }

    /// SMS destination flag.
    pub fn sms() -> (d: Destination)
        ensures
            d.spec_bits() == 2,
    {
        Destination { bits: 2 }
    }

    /// Web destination flag.
    pub fn web() -> (d: Destination)
        ensures
            d.spec_bits() == 4,
    {
        Destination { bits: 4 }
    }

    /// App destination flag.
    pub fn app() -> (d: Destination)
        ensures
            d.spec_bits() == 8,
    {
        Destination { bits: 8 }
    }

    /// The empty destination (no channel).
    pub fn empty() -> (d: Destination)
        ensures
            d.spec_bits() == 0,
    {
        Destination { bits: 0 }
    }

    /// The bit pattern.
    pub closed spec fn spec_bits(self) -> u8 {
        self.bits
    }

    /// The destination with the flags of both operands.
    pub closed spec fn union(self, other: Destination) -> Destination {
        Destination { bits: self.bits | other.bits }
    }

    /// Whether every flag of `other` is set in `self`.
    pub open spec fn includes(self, other: Destination) -> bool {
        &&& flag_set(other.spec_bits(), 1) ==> flag_set(self.spec_bits(), 1)
        &&& flag_set(other.spec_bits(), 2) ==> flag_set(self.spec_bits(), 2)
        &&& flag_set(other.spec_bits(), 4) ==> flag_set(self.spec_bits(), 4)
        &&& flag_set(other.spec_bits(), 8) ==> flag_set(self.spec_bits(), 8)
    }

    /// Whether the bit pattern uses only the four known flags.
    pub open spec fn is_known(self) -> bool {
        self.spec_bits() < 16
    }

    /// The wire-form text: the comma-joined letters of the set flags.
    pub open spec fn text(self) -> Seq<char> {
        if self.is_known() {
            comma_joined(destination_letters(self.spec_bits()))
        } else {
            Seq::empty()
        }
    }

    /// Returns `true` if `self` contains every flag set in `other`.
    pub fn contains(self, other: Destination) -> (b: bool)
        ensures
            b == self.includes(other),
    {
        proof {
            use_type_invariant(&self);
            use_type_invariant(&other);
        }
        let a = self.bits;
        let o = other.bits;
        assert(((a & o) == o) == ((((o / 1) % 2 == 1) ==> ((a / 1) % 2 == 1)) && (((o / 2) % 2
            == 1) ==> ((a / 2) % 2 == 1)) && (((o / 4) % 2 == 1) ==> ((a / 4) % 2 == 1)) && (((o
            / 8) % 2 == 1) ==> ((a / 8) % 2 == 1)))) by (bit_vector)
            requires
                a < 16,
                o < 16,
        ;
        (a & o) == o
    }

    /// Returns the underlying bit pattern.
    pub fn bits(self) -> (b: u8)
        ensures
            b == self.spec_bits(),
            b < 16,
    {
        proof {
            use_type_invariant(&self);
        }
        self.bits
    }

    /// Builds a destination from a raw bit pattern, keeping only the
    /// four known flags.
    pub fn from_bits_truncate(bits: u8) -> (d: Destination)
        ensures
            d.spec_bits() == bits % 16,
            d.is_known(),
    {
        assert((bits & 15u8) == bits % 16) by (bit_vector);
        Destination { bits: bits & 0b1111 }
    }

    /// The wire-form string: `"E"`, `"S"`, `"W"`, `"A"` for one flag,
    /// the comma-joined letters in the order E, S, W, A for several
    /// (`"E,S,W,A"`), and `""` for none.
    pub fn as_str(self) -> (s: &'static str)
        ensures
            s@ == self.text(),
    {
        proof {
            use_type_invariant(&self);
        }
        let b = self.bits;
        proof {
            reveal_strlit("");
            reveal_strlit("E");
            reveal_strlit("S");
            reveal_strlit("W");
            reveal_strlit("A");
            reveal_strlit("E,S");
            reveal_strlit("E,W");
            reveal_strlit("E,A");
            reveal_strlit("S,W");
            reveal_strlit("S,A");
            reveal_strlit("W,A");
            reveal_strlit("E,S,W");
            reveal_strlit("E,S,A");
            reveal_strlit("E,W,A");
            reveal_strlit("S,W,A");
            reveal_strlit("E,S,W,A");
        }
        let s = match b {
            0b0000 => "",
            0b0001 => "E",
            0b0010 => "S",
            0b0100 => "W",
            0b1000 => "A",
            0b0011 => "E,S",
            0b0101 => "E,W",
            0b1001 => "E,A",
            0b0110 => "S,W",
            0b1010 => "S,A",
            0b1100 => "W,A",
            0b0111 => "E,S,W",
            0b1011 => "E,S,A",
            0b1101 => "E,W,A",
            0b1110 => "S,W,A",
            0b1111 => "E,S,W,A",
            _ => "",
        };
        assert(s@ =~= self.text());
        s
    }
}

impl core::ops::BitOr for Destination {
    type Output = Destination;

    fn bitor(self, rhs: Destination) -> (d: Destination)
        ensures
            d == self.union(rhs),
    {
        proof {
            use_type_invariant(&self);
            use_type_invariant(&rhs);
        }
        let x = self.bits;
        let y = rhs.bits;
        assert((x < 16 && y < 16) ==> (x | y) < 16) by (bit_vector);
        Destination { bits: x | y }
    }
}

impl vstd::std_specs::ops::BitOrSpecImpl for Destination {
    open spec fn obeys_bitor_spec() -> bool {
        true
    }

    open spec fn bitor_req(self, rhs: Destination) -> bool {
        true
    }

    open spec fn bitor_spec(self, rhs: Destination) -> Destination {
        self.union(rhs)
    }
}

impl Destination {
    /// The union of two destinations: a flag is set in the result iff
    /// it is set in either operand, and known flags stay known.
    pub proof fn lemma_union(a: Destination, b: Destination)
        ensures
            flag_set(a.union(b).spec_bits(), 1) == (flag_set(a.spec_bits(), 1) || flag_set(
                b.spec_bits(),
                1,
            )),
            flag_set(a.union(b).spec_bits(), 2) == (flag_set(a.spec_bits(), 2) || flag_set(
                b.spec_bits(),
                2,
            )),
            flag_set(a.union(b).spec_bits(), 4) == (flag_set(a.spec_bits(), 4) || flag_set(
                b.spec_bits(),
                4,
            )),
            flag_set(a.union(b).spec_bits(), 8) == (flag_set(a.spec_bits(), 8) || flag_set(
                b.spec_bits(),
                8,
            )),
            a.is_known() && b.is_known() ==> a.union(b).is_known(),
    {
        let x = a.bits;
        let y = b.bits;
        assert((((x | y) / 1) % 2 == 1) == (((x / 1) % 2 == 1) || ((y / 1) % 2 == 1))
            && (((x | y) / 2) % 2 == 1) == (((x / 2) % 2 == 1) || ((y / 2) % 2 == 1)) && (((x
            | y) / 4) % 2 == 1) == (((x / 4) % 2 == 1) || ((y / 4) % 2 == 1)) && (((x | y) / 8)
            % 2 == 1) == (((x / 8) % 2 == 1) || ((y / 8) % 2 == 1)) && ((x < 16 && y < 16) ==> (x
            | y) < 16)) by (bit_vector);
    }

    /// A union contains both of its operands, and the order of the
    /// operands does not matter.
    pub proof fn lemma_union_contains_operands(a: Destination, b: Destination)
        ensures
            a.union(b).includes(a),
            a.union(b).includes(b),
            a.union(b) == b.union(a),
    {
        Self::lemma_union(a, b);
        let x = a.bits;
        let y = b.bits;
        assert((x | y) == (y | x)) by (bit_vector);
    }

    /// A destination is determined by its bits.
    pub proof fn lemma_bits_determine(a: Destination, b: Destination)
        requires
            a.spec_bits() == b.spec_bits(),
        ensures
            a == b,
    {
    }

    /// Rebuilding a destination from its own bits gives it back: for
    /// known bits, `bits % 16` is the bits themselves.
    pub proof fn lemma_from_own_bits(d: Destination, rebuilt: Destination)
        requires
            d.is_known(),
            rebuilt.spec_bits() == d.spec_bits() % 16,
        ensures
            rebuilt == d,
    {
        Self::lemma_bits_determine(rebuilt, d);
    }

    /// Adding a destination that is already contained changes nothing.
    pub proof fn lemma_union_idempotent(a: Destination)
        ensures
            a.union(a) == a,
    {
        let x = a.bits;
        assert((x | x) == x) by (bit_vector);
    }
}

// =============================================================================
// Validated strings
// =============================================================================

/// A notice title (1..=200 chars).
#[derive(Debug, PartialEq, Eq, Hash)]
pub struct NoticeTitle(String);

impl View for NoticeTitle {
    type V = Seq<char>;

    closed spec fn view(&self) -> Seq<char> {
        self.0@
    }
}

impl Clone for NoticeTitle {
    fn clone(&self) -> (c: Self)
        ensures
            c@ == self@,
    {
        proof {
            use_type_invariant(self);
        }
        NoticeTitle(self.0.clone())
    }
}

impl NoticeTitle {
    /// Maximum length in chars.
    pub const MAX_LEN: usize = 200;

    #[verifier::type_invariant]
    spec fn well_formed(self) -> bool {
        bounded_text(self.0@, 200)
    }

    /// Validates non-empty and at most 200 chars.
    pub fn new(raw: &str) -> (r: Result<Self, DomainError>)
        ensures
            r is Ok <==> bounded_text(raw@, 200),
            r matches Ok(v) ==> v@ == raw@,
            r matches Err(e) ==> e is Validation,
    {
        if raw.is_empty() {
            return Err(DomainError::validation("notice title must not be empty"));
        }
        if raw.unicode_len() > 200 {
            return Err(DomainError::validation("notice title must be 1..200 chars"));
        }
        Ok(NoticeTitle(raw.to_owned()))
    }

    /// Returns the inner string.
    pub fn as_str(&self) -> (s: &str)
        ensures
            s@ == self@,
            bounded_text(s@, 200),
    {
        proof {
            use_type_invariant(self);
        }
        self.0.as_str()
    }
}

/// A notice body (1..=5000 chars).
#[derive(Debug, PartialEq, Eq, Hash)]
pub struct NoticeBody(String);

impl View for NoticeBody {
    type V = Seq<char>;

    closed spec fn view(&self) -> Seq<char> {
        self.0@
    }
}

impl Clone for NoticeBody {
    fn clone(&self) -> (c: Self)
        ensures
            c@ == self@,
    {
        proof {
            use_type_invariant(self);
        }
        NoticeBody(self.0.clone())
    }
}

impl NoticeBody {
    /// Maximum length in chars.
    pub const MAX_LEN: usize = 5000;

    #[verifier::type_invariant]
    spec fn well_formed(self) -> bool {
        bounded_text(self.0@, 5000)
    }

    /// Validates non-empty and at most 5000 chars.
    pub fn new(raw: &str) -> (r: Result<Self, DomainError>)
        ensures
            r is Ok <==> bounded_text(raw@, 5000),
            r matches Ok(v) ==> v@ == raw@,
            r matches Err(e) ==> e is Validation,
    {
        if raw.is_empty() {
            return Err(DomainError::validation("notice body must not be empty"));
        }
        if raw.unicode_len() > 5000 {
            return Err(DomainError::validation("notice body must be 1..5000 chars"));
        }
        Ok(NoticeBody(raw.to_owned()))
    }

    /// Returns the inner string.
    pub fn as_str(&self) -> (s: &str)
        ensures
            s@ == self@,
            bounded_text(s@, 5000),
    {
        proof {
            use_type_invariant(self);
        }
        self.0.as_str()
    }
}

/// A complaint description (1..=5000 chars).
#[derive(Debug, PartialEq, Eq, Hash)]
pub struct ComplaintDescription(String);

impl View for ComplaintDescription {
    type V = Seq<char>;

    closed spec fn view(&self) -> Seq<char> {
        self.0@
    }
}

impl Clone for ComplaintDescription {
    fn clone(&self) -> (c: Self)
        ensures
            c@ == self@,
    {
        proof {
            use_type_invariant(self);
        }
        ComplaintDescription(self.0.clone())
    }
}

impl ComplaintDescription {
    /// Maximum length in chars.
    pub const MAX_LEN: usize = 5000;

    #[verifier::type_invariant]
    spec fn well_formed(self) -> bool {
        bounded_text(self.0@, 5000)
    }

    /// Validates non-empty and at most 5000 chars.
    pub fn new(raw: &str) -> (r: Result<Self, DomainError>)
        ensures
            r is Ok <==> bounded_text(raw@, 5000),
            r matches Ok(v) ==> v@ == raw@,
            r matches Err(e) ==> e is Validation,
    {
        if raw.is_empty() {
            return Err(DomainError::validation("complaint description must not be empty"));
        }
        if raw.unicode_len() > 5000 {
            return Err(DomainError::validation("complaint description must be 1..5000 chars"));
        }
        Ok(ComplaintDescription(raw.to_owned()))
    }

    /// Returns the inner string.
    pub fn as_str(&self) -> (s: &str)
        ensures
            s@ == self@,
            bounded_text(s@, 5000),
    {
        proof {
            use_type_invariant(self);
        }
        self.0.as_str()
    }
}

/// A speech-slider text (1..=5000 chars).
#[derive(Debug, PartialEq, Eq, Hash)]
pub struct SpeechText(String);

impl View for SpeechText {
    type V = Seq<char>;

    closed spec fn view(&self) -> Seq<char> {
        self.0@
    }
}

impl Clone for SpeechText {
    fn clone(&self) -> (c: Self)
        ensures
            c@ == self@,
    {
        proof {
            use_type_invariant(self);
        }
        SpeechText(self.0.clone())
    }
}

impl SpeechText {
    /// Maximum length in chars.
    pub const MAX_LEN: usize = 5000;

    #[verifier::type_invariant]
    spec fn well_formed(self) -> bool {
        bounded_text(self.0@, 5000)
    }

    /// Validates non-empty and at most 5000 chars.
    pub fn new(raw: &str) -> (r: Result<Self, DomainError>)
        ensures
            r is Ok <==> bounded_text(raw@, 5000),
            r matches Ok(v) ==> v@ == raw@,
            r matches Err(e) ==> e is Validation,
    {
        if raw.is_empty() {
            return Err(DomainError::validation("speech text must not be empty"));
        }
        if raw.unicode_len() > 5000 {
            return Err(DomainError::validation("speech text must be 1..5000 chars"));
        }
        Ok(SpeechText(raw.to_owned()))
    }

    /// Returns the inner string.
    pub fn as_str(&self) -> (s: &str)
        ensures
            s@ == self@,
            bounded_text(s@, 5000),
    {
        proof {
            use_type_invariant(self);
        }
        self.0.as_str()
    }
}

/// A chat message body (1..=10000 chars).
#[derive(Debug, PartialEq, Eq, Hash)]
pub struct ChatMessageBody(String);

impl View for ChatMessageBody {
    type V = Seq<char>;

    closed spec fn view(&self) -> Seq<char> {
        self.0@
    }
}

impl Clone for ChatMessageBody {
    fn clone(&self) -> (c: Self)
        ensures
            c@ == self@,
    {
        proof {
            use_type_invariant(self);
        }
        ChatMessageBody(self.0.clone())
    }
}

impl ChatMessageBody {
    /// Maximum length in chars.
    pub const MAX_LEN: usize = 10000;

    #[verifier::type_invariant]
    spec fn well_formed(self) -> bool {
        bounded_text(self.0@, 10000)
    }

    /// Validates non-empty and at most 10000 chars.
    pub fn new(raw: &str) -> (r: Result<Self, DomainError>)
        ensures
            r is Ok <==> bounded_text(raw@, 10000),
            r matches Ok(v) ==> v@ == raw@,
            r matches Err(e) ==> e is Validation,
    {
        if raw.is_empty() {
            return Err(DomainError::validation("chat message body must not be empty"));
        }
        if raw.unicode_len() > 10000 {
            return Err(DomainError::validation("chat message body must be 1..10000 chars"));
        }
        Ok(ChatMessageBody(raw.to_owned()))
    }

    /// Returns the inner string.
    pub fn as_str(&self) -> (s: &str)
        ensures
            s@ == self@,
            bounded_text(s@, 10000),
    {
        proof {
            use_type_invariant(self);
        }
        self.0.as_str()
    }
}

/// An SMS/email template body (1..=65535 chars).
#[derive(Debug, PartialEq, Eq, Hash)]
pub struct TemplateBody(String);

impl View for TemplateBody {
    type V = Seq<char>;

    closed spec fn view(&self) -> Seq<char> {
        self.0@
    }
}

impl Clone for TemplateBody {
    fn clone(&self) -> (c: Self)
        ensures
            c@ == self@,
    {
        proof {
            use_type_invariant(self);
        }
        TemplateBody(self.0.clone())
    }
}

impl TemplateBody {
    /// Maximum length in chars.
    pub const MAX_LEN: usize = 65535;

    #[verifier::type_invariant]
    spec fn well_formed(self) -> bool {
        bounded_text(self.0@, 65535)
    }

    /// Validates non-empty and at most 65535 chars.
    pub fn new(raw: &str) -> (r: Result<Self, DomainError>)
        ensures
            r is Ok <==> bounded_text(raw@, 65535),
            r matches Ok(v) ==> v@ == raw@,
            r matches Err(e) ==> e is Validation,
    {
        if raw.is_empty() {
            return Err(DomainError::validation("template body must not be empty"));
        }
        if raw.unicode_len() > 65535 {
            return Err(DomainError::validation("template body must be 1..65535 chars"));
        }
        Ok(TemplateBody(raw.to_owned()))
    }

    /// Returns the inner string.
    pub fn as_str(&self) -> (s: &str)
        ensures
            s@ == self@,
            bounded_text(s@, 65535),
    {
        proof {
            use_type_invariant(self);
        }
        self.0.as_str()
    }
}

/// An email subject (1..=200 chars).
#[derive(Debug, PartialEq, Eq, Hash)]
pub struct EmailSubject(String);

impl View for EmailSubject {
    type V = Seq<char>;

    closed spec fn view(&self) -> Seq<char> {
        self.0@
    }
}

impl Clone for EmailSubject {
    fn clone(&self) -> (c: Self)
        ensures
            c@ == self@,
    {
        proof {
            use_type_invariant(self);
        }
        EmailSubject(self.0.clone())
    }
}

impl EmailSubject {
    /// Maximum length in chars.
    pub const MAX_LEN: usize = 200;

    #[verifier::type_invariant]
    spec fn well_formed(self) -> bool {
        bounded_text(self.0@, 200)
    }

    /// Validates non-empty and at most 200 chars.
    pub fn new(raw: &str) -> (r: Result<Self, DomainError>)
        ensures
            r is Ok <==> bounded_text(raw@, 200),
            r matches Ok(v) ==> v@ == raw@,
            r matches Err(e) ==> e is Validation,
    {
        if raw.is_empty() {
            return Err(DomainError::validation("email subject must not be empty"));
        }
        if raw.unicode_len() > 200 {
            return Err(DomainError::validation("email subject must be 1..200 chars"));
        }
        Ok(EmailSubject(raw.to_owned()))
    }

    /// Returns the inner string.
    pub fn as_str(&self) -> (s: &str)
        ensures
            s@ == self@,
            bounded_text(s@, 200),
    {
        proof {
            use_type_invariant(self);
        }
        self.0.as_str()
    }
}

/// A call description / call notes (1..=5000 chars).
#[derive(Debug, PartialEq, Eq, Hash)]
pub struct CallDescription(String);

impl View for CallDescription {
    type V = Seq<char>;

    closed spec fn view(&self) -> Seq<char> {
        self.0@
    }
}

impl Clone for CallDescription {
    fn clone(&self) -> (c: Self)
        ensures
            c@ == self@,
    {
        proof {
            use_type_invariant(self);
        }
        CallDescription(self.0.clone())
    }
}

impl CallDescription {
    /// Maximum length in chars.
    pub const MAX_LEN: usize = 5000;

    #[verifier::type_invariant]
    spec fn well_formed(self) -> bool {
        bounded_text(self.0@, 5000)
    }

    /// Validates non-empty and at most 5000 chars.
    pub fn new(raw: &str) -> (r: Result<Self, DomainError>)
        ensures
            r is Ok <==> bounded_text(raw@, 5000),
            r matches Ok(v) ==> v@ == raw@,
            r matches Err(e) ==> e is Validation,
    {
        if raw.is_empty() {
            return Err(DomainError::validation("call description must not be empty"));
        }
        if raw.unicode_len() > 5000 {
            return Err(DomainError::validation("call description must be 1..5000 chars"));
        }
        Ok(CallDescription(raw.to_owned()))
    }

    /// Returns the inner string.
    pub fn as_str(&self) -> (s: &str)
        ensures
            s@ == self@,
            bounded_text(s@, 5000),
    {
        proof {
            use_type_invariant(self);
        }
        self.0.as_str()
    }
}

/// A notification message body (1..=1000 chars).
#[derive(Debug, PartialEq, Eq, Hash)]
pub struct NotificationMessage(String);

impl View for NotificationMessage {
    type V = Seq<char>;

    closed spec fn view(&self) -> Seq<char> {
        self.0@
    }
}

impl Clone for NotificationMessage {
    fn clone(&self) -> (c: Self)
        ensures
            c@ == self@,
    {
        proof {
            use_type_invariant(self);
        }
        NotificationMessage(self.0.clone())
    }
}

impl NotificationMessage {
    /// Maximum length in chars.
    pub const MAX_LEN: usize = 1000;

    #[verifier::type_invariant]
    spec fn well_formed(self) -> bool {
        bounded_text(self.0@, 1000)
    }

    /// Validates non-empty and at most 1000 chars.
    pub fn new(raw: &str) -> (r: Result<Self, DomainError>)
        ensures
            r is Ok <==> bounded_text(raw@, 1000),
            r matches Ok(v) ==> v@ == raw@,
            r matches Err(e) ==> e is Validation,
    {
        if raw.is_empty() {
            return Err(DomainError::validation("notification message must not be empty"));
        }
        if raw.unicode_len() > 1000 {
            return Err(DomainError::validation("notification message must be 1..1000 chars"));
        }
        Ok(NotificationMessage(raw.to_owned()))
    }

    /// Returns the inner string.
    pub fn as_str(&self) -> (s: &str)
        ensures
            s@ == self@,
            bounded_text(s@, 1000),
    {
        proof {
            use_type_invariant(self);
        }
        self.0.as_str()
    }
}

/// A mail driver name (1..=50 chars).
#[derive(Debug, PartialEq, Eq, Hash)]
pub struct MailDriverName(String);

impl View for MailDriverName {
    type V = Seq<char>;

    closed spec fn view(&self) -> Seq<char> {
        self.0@
    }
}

impl Clone for MailDriverName {
    fn clone(&self) -> (c: Self)
        ensures
            c@ == self@,
    {
        proof {
            use_type_invariant(self);
        }
        MailDriverName(self.0.clone())
    }
}

impl MailDriverName {
    /// Maximum length in chars.
    pub const MAX_LEN: usize = 50;

    #[verifier::type_invariant]
    spec fn well_formed(self) -> bool {
        bounded_text(self.0@, 50)
    }

    /// Validates non-empty and at most 50 chars.
    pub fn new(raw: &str) -> (r: Result<Self, DomainError>)
        ensures
            r is Ok <==> bounded_text(raw@, 50),
            r matches Ok(v) ==> v@ == raw@,
            r matches Err(e) ==> e is Validation,
    {
        if raw.is_empty() {
            return Err(DomainError::validation("mail driver name must not be empty"));
        }
        if raw.unicode_len() > 50 {
            return Err(DomainError::validation("mail driver name must be 1..50 chars"));
        }
        Ok(MailDriverName(raw.to_owned()))
    }

    /// Returns the inner string.
    pub fn as_str(&self) -> (s: &str)
        ensures
            s@ == self@,
            bounded_text(s@, 50),
    {
        proof {
            use_type_invariant(self);
        }
        self.0.as_str()
    }
}

/// An SMS gateway name (1..=100 chars).
#[derive(Debug, PartialEq, Eq, Hash)]
pub struct GatewayName(String);

impl View for GatewayName {
    type V = Seq<char>;

    closed spec fn view(&self) -> Seq<char> {
        self.0@
    }
}

impl Clone for GatewayName {
    fn clone(&self) -> (c: Self)
        ensures
            c@ == self@,
    {
        proof {
            use_type_invariant(self);
        }
        GatewayName(self.0.clone())
    }
}

impl GatewayName {
    /// Maximum length in chars.
    pub const MAX_LEN: usize = 100;

    #[verifier::type_invariant]
    spec fn well_formed(self) -> bool {
        bounded_text(self.0@, 100)
    }

    /// Validates non-empty and at most 100 chars.
    pub fn new(raw: &str) -> (r: Result<Self, DomainError>)
        ensures
            r is Ok <==> bounded_text(raw@, 100),
            r matches Ok(v) ==> v@ == raw@,
            r matches Err(e) ==> e is Validation,
    {
        if raw.is_empty() {
            return Err(DomainError::validation("gateway name must not be empty"));
        }
        if raw.unicode_len() > 100 {
            return Err(DomainError::validation("gateway name must be 1..100 chars"));
        }
        Ok(GatewayName(raw.to_owned()))
    }

    /// Returns the inner string.
    pub fn as_str(&self) -> (s: &str)
        ensures
            s@ == self@,
            bounded_text(s@, 100),
    {
        proof {
            use_type_invariant(self);
        }
        self.0.as_str()
    }
}

/// A person name (1..=200 chars).
#[derive(Debug, PartialEq, Eq, Hash)]
pub struct PersonName(String);

impl View for PersonName {
    type V = Seq<char>;

    closed spec fn view(&self) -> Seq<char> {
        self.0@
    }
}

impl Clone for PersonName {
    fn clone(&self) -> (c: Self)
        ensures
            c@ == self@,
    {
        proof {
            use_type_invariant(self);
        }
        PersonName(self.0.clone())
    }
}

impl PersonName {
    /// Maximum length in chars.
    pub const MAX_LEN: usize = 200;

    #[verifier::type_invariant]
    spec fn well_formed(self) -> bool {
        bounded_text(self.0@, 200)
    }

    /// Validates non-empty and at most 200 chars.
    pub fn new(raw: &str) -> (r: Result<Self, DomainError>)
        ensures
            r is Ok <==> bounded_text(raw@, 200),
            r matches Ok(v) ==> v@ == raw@,
            r matches Err(e) ==> e is Validation,
    {
        if raw.is_empty() {
            return Err(DomainError::validation("person name must not be empty"));
        }
        if raw.unicode_len() > 200 {
            return Err(DomainError::validation("person name must be 1..200 chars"));
        }
        Ok(PersonName(raw.to_owned()))
    }

    /// Returns the inner string.
    pub fn as_str(&self) -> (s: &str)
        ensures
            s@ == self@,
            bounded_text(s@, 200),
    {
        proof {
            use_type_invariant(self);
        }
        self.0.as_str()
    }
}

/// A template key used by the renderer to look a template up (1..=100 chars).
#[derive(Debug, PartialEq, Eq, Hash)]
pub struct TemplateKey(String);

impl View for TemplateKey {
    type V = Seq<char>;

    closed spec fn view(&self) -> Seq<char> {
        self.0@
    }
}

impl Clone for TemplateKey {
    fn clone(&self) -> (c: Self)
        ensures
            c@ == self@,
    {
        proof {
            use_type_invariant(self);
        }
        TemplateKey(self.0.clone())
    }
}

impl TemplateKey {
    /// Maximum length in chars.
    pub const MAX_LEN: usize = 100;

    #[verifier::type_invariant]
    spec fn well_formed(self) -> bool {
        bounded_text(self.0@, 100)
    }

    /// Validates non-empty and at most 100 chars.
    pub fn new(raw: &str) -> (r: Result<Self, DomainError>)
        ensures
            r is Ok <==> bounded_text(raw@, 100),
            r matches Ok(v) ==> v@ == raw@,
            r matches Err(e) ==> e is Validation,
    {
        if raw.is_empty() {
            return Err(DomainError::validation("template key must not be empty"));
        }
        if raw.unicode_len() > 100 {
            return Err(DomainError::validation("template key must be 1..100 chars"));
        }
        Ok(TemplateKey(raw.to_owned()))
    }

    /// Returns the inner string.
    pub fn as_str(&self) -> (s: &str)
        ensures
            s@ == self@,
            bounded_text(s@, 100),
    {
        proof {
            use_type_invariant(self);
        }
        self.0.as_str()
    }
}

/// A reference to a secret stored outside the database (a vault key, an env var, ...). Callers must not log the value.
#[derive(Debug, PartialEq, Eq, Hash)]
pub struct SecretReference(String);

impl View for SecretReference {
    type V = Seq<char>;

    closed spec fn view(&self) -> Seq<char> {
        self.0@
    }
}

impl Clone for SecretReference {
    fn clone(&self) -> (c: Self)
        ensures
            c@ == self@,
    {
        proof {
            use_type_invariant(self);
        }
        SecretReference(self.0.clone())
    }
}

impl SecretReference {
    /// Maximum length in chars.
    pub const MAX_LEN: usize = 256;

    #[verifier::type_invariant]
    spec fn well_formed(self) -> bool {
        bounded_text(self.0@, 256)
    }

    /// Validates non-empty and at most 256 chars.
    pub fn new(raw: &str) -> (r: Result<Self, DomainError>)
        ensures
            r is Ok <==> bounded_text(raw@, 256),
            r matches Ok(v) ==> v@ == raw@,
            r matches Err(e) ==> e is Validation,
    {
        if raw.is_empty() {
            return Err(DomainError::validation("secret reference must be non-empty and <= 256 chars"));
        }
        if raw.unicode_len() > 256 {
            return Err(DomainError::validation("secret reference must be non-empty and <= 256 chars"));
        }
        Ok(SecretReference(raw.to_owned()))
    }

    /// Returns the inner string.
    pub fn as_str(&self) -> (s: &str)
        ensures
            s@ == self@,
            bounded_text(s@, 256),
    {
        proof {
            use_type_invariant(self);
        }
        self.0.as_str()
    }
}

/// A reference to a file held by the files adapter (an object-store key
/// or a row id). Non-empty.
#[derive(Debug, PartialEq, Eq, Hash)]
pub struct FileReference(String);

impl View for FileReference {
    type V = Seq<char>;

    closed spec fn view(&self) -> Seq<char> {
        self.0@
    }
}

impl Clone for FileReference {
    fn clone(&self) -> (c: Self)
        ensures
            c@ == self@,
    {
        proof {
            use_type_invariant(self);
        }
        FileReference(self.0.clone())
    }
}

impl FileReference {
    #[verifier::type_invariant]
    spec fn well_formed(self) -> bool {
        self.0@.len() > 0
    }

    /// Validates that the reference is non-empty.
    pub fn new(raw: &str) -> (r: Result<Self, DomainError>)
        ensures
            r is Ok <==> raw@.len() > 0,
            r matches Ok(v) ==> v@ == raw@,
            r matches Err(e) ==> e is Validation,
    {
        if raw.is_empty() {
            return Err(DomainError::validation("file reference must be non-empty"));
        }
        Ok(FileReference(raw.to_owned()))
    }

    /// Returns the inner string.
    pub fn as_str(&self) -> (s: &str)
        ensures
            s@ == self@,
            s@.len() > 0,
    {
        proof {
            use_type_invariant(self);
        }
        self.0.as_str()
    }
}

// ---- Slug ----

/// A character allowed in a slug: `[a-z0-9-]`.
pub open spec fn is_slug_char(c: char) -> bool {
    ('a' <= c <= 'z') || is_digit(c) || c == '-'
}

/// A URL-safe slug: 1..=200 chars matching `[a-z0-9-]`.
pub open spec fn is_slug(s: Seq<char>) -> bool {
    &&& bounded_text(s, 200)
    &&& forall|i: int| 0 <= i < s.len() ==> is_slug_char(#[trigger] s[i])
}

/// A URL-safe slug (1..=200 chars, matching `[a-z0-9-]`).
#[derive(Debug, PartialEq, Eq, Hash)]
pub struct Slug(String);

impl View for Slug {
    type V = Seq<char>;

    closed spec fn view(&self) -> Seq<char> {
        self.0@
    }
}

impl Clone for Slug {
    fn clone(&self) -> (c: Self)
        ensures
            c@ == self@,
    {
        proof {
            use_type_invariant(self);
        }
        Slug(self.0.clone())
    }
}

impl Slug {
    /// Maximum length in chars.
    pub const MAX_LEN: usize = 200;

    #[verifier::type_invariant]
    spec fn well_formed(self) -> bool {
        is_slug(self.0@)
    }

    /// Validates non-empty, at most 200 chars, and the `[a-z0-9-]`
    /// character class.
    pub fn new(raw: &str) -> (r: Result<Self, DomainError>)
        ensures
            r is Ok <==> is_slug(raw@),
            r matches Ok(v) ==> v@ == raw@,
            r matches Err(e) ==> e is Validation,
    {
        if raw.is_empty() {
            return Err(DomainError::validation("slug must not be empty"));
        }
        let chars = char_vec(raw);
        if chars.len() > 200 {
            return Err(DomainError::validation("slug must be 1..200 chars matching [a-z0-9-]"));
        }
        let mut i: usize = 0;
        while i < chars.len()
            invariant
                i <= chars@.len(),
                chars@ == raw@,
                forall|j: int| 0 <= j < i ==> is_slug_char(#[trigger] chars@[j]),
            decreases chars@.len() - i,
        {
            let c = chars[i];
            if !(('a' <= c && c <= 'z') || is_digit_char(c) || c == '-') {
                return Err(
                    DomainError::validation("slug must be 1..200 chars matching [a-z0-9-]"),
                );
            }
            i += 1;
        }
        Ok(Slug(raw.to_owned()))
    }

    /// Returns the inner string.
    pub fn as_str(&self) -> (s: &str)
        ensures
            s@ == self@,
            is_slug(s@),
    {
        proof {
            use_type_invariant(self);
        }
        self.0.as_str()
    }
}

// =============================================================================
// Numeric value objects
// =============================================================================

/// A star rating (1..=5).
#[derive(Debug, Clone, Copy, PartialEq, Eq, Hash, PartialOrd, Ord, Structural)]
pub struct StarRating(pub u8);

impl StarRating {
    /// Validates the 1..=5 range.
    pub fn new(value: u8) -> (r: Result<Self, DomainError>)
        ensures
            r is Ok <==> 1 <= value <= 5,
            r matches Ok(v) ==> v.0 == value,
            r matches Err(e) ==> e is Validation,
    {
        if !(1 <= value && value <= 5) {
            return Err(DomainError::validation("star rating must be 1..5"));
        }
        Ok(StarRating(value))
    }

    /// Returns the inner value.
    pub fn value(self) -> (v: u8)
        ensures
            v == self.0,
    {
        self.0
    }
}

// =============================================================================
// Times of day, windows and durations
// =============================================================================

/// A 24-hour `HH:MM` time of day.
pub open spec fn is_hhmm(s: Seq<char>) -> bool {
    &&& s.len() == 5
    &&& s[2] == ':'
    &&& is_digit(s[0]) && is_digit(s[1]) && is_digit(s[3]) && is_digit(s[4])
    &&& two_digits(s[0], s[1]) < 24
    &&& two_digits(s[3], s[4]) < 60
}

/// The minute of the day (0..1440) written by a valid `HH:MM` text.
pub open spec fn minute_of_day(s: Seq<char>) -> int {
    two_digits(s[0], s[1]) * 60 + two_digits(s[3], s[4])
}

/// An `HH:MM:SS` duration with hours below 24.
pub open spec fn is_hhmmss(s: Seq<char>) -> bool {
    &&& s.len() == 8
    &&& s[2] == ':' && s[5] == ':'
    &&& is_digit(s[0]) && is_digit(s[1]) && is_digit(s[3]) && is_digit(s[4])
    &&& is_digit(s[6]) && is_digit(s[7])
    &&& two_digits(s[0], s[1]) < 24
    &&& two_digits(s[3], s[4]) < 60
    &&& two_digits(s[6], s[7]) < 60
}

/// Returns `true` if `s` is a 24-hour `HH:MM` time of day.
fn is_hhmm_24h(s: &str) -> (b: bool)
    ensures
        b == is_hhmm(s@),
{
    let c = char_vec(s);
    if c.len() != 5 {
        return false;
    }
    if c[2] != ':' {
        return false;
    }
    if !is_digit_char(c[0]) || !is_digit_char(c[1]) || !is_digit_char(c[3]) || !is_digit_char(
        c[4],
    ) {
        return false;
    }
    let hour = digit_of(c[0]) * 10 + digit_of(c[1]);
    let minute = digit_of(c[3]) * 10 + digit_of(c[4]);
    hour < 24 && minute < 60
}

/// Returns `true` if `s` is an `HH:MM:SS` duration.
fn is_hhmmss_text(s: &str) -> (b: bool)
    ensures
        b == is_hhmmss(s@),
{
    let c = char_vec(s);
    if c.len() != 8 {
        return false;
    }
    if c[2] != ':' || c[5] != ':' {
        return false;
    }
    if !is_digit_char(c[0]) || !is_digit_char(c[1]) || !is_digit_char(c[3]) || !is_digit_char(
        c[4],
    ) || !is_digit_char(c[6]) || !is_digit_char(c[7]) {
        return false;
    }
    let hour = digit_of(c[0]) * 10 + digit_of(c[1]);
    let minute = digit_of(c[3]) * 10 + digit_of(c[4]);
    let second = digit_of(c[6]) * 10 + digit_of(c[7]);
    hour < 24 && minute < 60 && second < 60
}

/// A 24-hour time of day in `HH:MM` form.
#[derive(Debug, PartialEq, Eq, Hash, PartialOrd, Ord)]
pub struct TimeOfDay(String);

impl View for TimeOfDay {
    type V = Seq<char>;

    closed spec fn view(&self) -> Seq<char> {
        self.0@
    }
}

impl Clone for TimeOfDay {
    fn clone(&self) -> (c: Self)
        ensures
            c@ == self@,
    {
        proof {
            use_type_invariant(self);
        }
        TimeOfDay(self.0.clone())
    }
}

impl TimeOfDay {
    #[verifier::type_invariant]
    spec fn well_formed(self) -> bool {
        is_hhmm(self.0@)
    }

    /// Validates the `HH:MM` 24-hour format.
    pub fn new(raw: &str) -> (r: Result<Self, DomainError>)
        ensures
            r is Ok <==> is_hhmm(raw@),
            r matches Ok(v) ==> v@ == raw@,
            r matches Err(e) ==> e is Validation,
    {
        if !is_hhmm_24h(raw) {
            return Err(DomainError::validation("time of day must be HH:MM 24h"));
        }
        Ok(TimeOfDay(raw.to_owned()))
    }

    /// The hour component (0..=23).
    pub fn hour(&self) -> (h: u8)
        ensures
            h == two_digits(self@[0], self@[1]),
            h < 24,
    {
        proof {
            use_type_invariant(self);
        }
        let c = char_vec(self.0.as_str());
        digit_of(c[0]) * 10 + digit_of(c[1])
    }

    /// The minute component (0..=59).
    pub fn minute(&self) -> (m: u8)
        ensures
            m == two_digits(self@[3], self@[4]),
            m < 60,
    {
        proof {
            use_type_invariant(self);
        }
        let c = char_vec(self.0.as_str());
        digit_of(c[3]) * 10 + digit_of(c[4])
    }

    /// The minute of the day (0..1440).
    pub fn minutes_since_midnight(&self) -> (m: u16)
        ensures
            m == minute_of_day(self@),
            m < 1440,
    {
        let h = self.hour();
        let m = self.minute();
        h as u16 * 60 + m as u16
    }

    /// Returns the inner string in `HH:MM` form.
    pub fn as_str(&self) -> (s: &str)
        ensures
            s@ == self@,
            is_hhmm(s@),
    {
        proof {
            use_type_invariant(self);
        }
        self.0.as_str()
    }
}

/// A `(from, to)` time window with `from` strictly before `to`.
#[derive(Debug, Clone, PartialEq, Eq, Hash)]
pub struct TimeWindow {
    /// The window start (inclusive).
    pub from: TimeOfDay,
    /// The window end (exclusive).
    pub to: TimeOfDay,
}

impl TimeWindow {
    /// Validates that `from` is strictly before `to`.
    pub fn new(from: TimeOfDay, to: TimeOfDay) -> (r: Result<Self, DomainError>)
        ensures
            r is Ok <==> minute_of_day(from@) < minute_of_day(to@),
            r matches Ok(w) ==> w.from@ == from@ && w.to@ == to@,
            r matches Err(e) ==> e is Validation,
    {
        if !(from.minutes_since_midnight() < to.minutes_since_midnight()) {
            return Err(DomainError::validation("time window from must be strictly before to"));
        }
        Ok(TimeWindow { from, to })
    }
}

/// A call duration in `HH:MM:SS` form.
#[derive(Debug, PartialEq, Eq, Hash)]
pub struct CallDuration(String);

impl View for CallDuration {
    type V = Seq<char>;

    closed spec fn view(&self) -> Seq<char> {
        self.0@
    }
}

impl Clone for CallDuration {
    fn clone(&self) -> (c: Self)
        ensures
            c@ == self@,
    {
        proof {
            use_type_invariant(self);
        }
        CallDuration(self.0.clone())
    }
}

impl CallDuration {
    /// Maximum length in chars.
    pub const MAX_LEN: usize = 100;

    #[verifier::type_invariant]
    spec fn well_formed(self) -> bool {
        is_hhmmss(self.0@)
    }

    /// Validates the `HH:MM:SS` format (which also bounds the length).
    pub fn new(raw: &str) -> (r: Result<Self, DomainError>)
        ensures
            r is Ok <==> is_hhmmss(raw@),
            r matches Ok(v) ==> v@ == raw@,
            r matches Err(e) ==> e is Validation,
    {
        if raw.is_empty() {
            return Err(
                DomainError::validation("call duration must be 1..100 chars in HH:MM:SS format"),
            );
        }
        if raw.unicode_len() > 100 {
            return Err(
                DomainError::validation("call duration must be 1..100 chars in HH:MM:SS format"),
            );
        }
        if !is_hhmmss_text(raw) {
            return Err(
                DomainError::validation("call duration must be 1..100 chars in HH:MM:SS format"),
            );
        }
        Ok(CallDuration(raw.to_owned()))
    }

    /// Returns the inner string.
    pub fn as_str(&self) -> (s: &str)
        ensures
            s@ == self@,
            is_hhmmss(s@),
    {
        proof {
            use_type_invariant(self);
        }
        self.0.as_str()
    }
}

// =============================================================================
// Email addresses
// =============================================================================

/// `at` is the position of the first `@` of `s`.
pub open spec fn first_at_sign(s: Seq<char>, at: int) -> bool {
    &&& 0 <= at < s.len()
    &&& s[at] == '@'
    &&& forall|i: int| 0 <= i < at ==> s[i] != '@'
}

/// The text split at its `@` (position `at`) has a non-empty local
/// part and a non-empty domain, no further `@`, no spaces, and a domain
/// that contains a `.` but neither starts nor ends with one.
pub open spec fn email_parts_ok(s: Seq<char>, at: int) -> bool {
    &&& 0 < at && at + 1 < s.len()
    &&& forall|i: int| at < i < s.len() ==> s[i] != '@'
    &&& lacks_char(s, ' ')
    &&& exists|i: int| at < i < s.len() && s[i] == '.'
    &&& s[at + 1] != '.'
    &&& s[s.len() - 1] != '.'
}

/// A plausible email address: 1..=200 chars, with a single `@` that
/// separates a well-formed local part and domain.
pub open spec fn is_plausible_email(s: Seq<char>) -> bool {
    &&& s.len() > 0
    &&& s.len() <= 200
    &&& exists|at: int| first_at_sign(s, at) && email_parts_ok(s, at)
}

/// The number of bytes of the UTF-8 encoding of `c`.
pub open spec fn utf8_width(c: char) -> nat {
    if (c as u32) <= 0x7F {
        1
    } else if (c as u32) <= 0x7FF {
        2
    } else if (c as u32) <= 0xFFFF {
        3
    } else {
        4
    }
}

/// The UTF-8 length of `s`, summed from its end.
pub open spec fn utf8_len(s: Seq<char>) -> nat
    decreases s.len(),
{
    if s.len() == 0 {
        0
    } else {
        utf8_len(s.drop_last()) + utf8_width(s.last())
    }
}

/// `utf8_len` counts the bytes that `encode_utf8` produces.
pub proof fn lemma_utf8_len(s: Seq<char>)
    ensures
        utf8_len(s) == encode_utf8(s).len(),
    decreases s.len(),
{
    if s.len() > 0 {
        vstd::utf8::char_is_scalar(s[0]);
        lemma_utf8_len(s.drop_first());
        if s.len() > 1 {
            lemma_utf8_len(s.drop_last());
            lemma_utf8_len(s.drop_first().drop_last());
            assert(s.drop_first().drop_last() =~= s.drop_last().drop_first());
            assert(s.drop_first().last() == s.last());
            assert(s.drop_last()[0] == s[0]);
            vstd::utf8::char_is_scalar(s.last());
        } else {
            assert(s.drop_last() =~= Seq::<char>::empty());
            assert(s.drop_first() =~= Seq::<char>::empty());
        }
    }
}

/// The UTF-8 length of a prefix never exceeds that of the whole text.
pub proof fn lemma_utf8_len_prefix(s: Seq<char>, k: int)
    requires
        0 <= k <= s.len(),
    ensures
        utf8_len(s.take(k)) <= utf8_len(s),
    decreases s.len() - k,
{
    if k < s.len() {
        lemma_utf8_len_prefix(s, k + 1);
        assert(s.take(k + 1).drop_last() =~= s.take(k));
    } else {
        assert(s.take(k) =~= s);
    }
}

/// Finds the first occurrence of `c` in `s[from..]`; `s.len()` when
/// there is none.
fn find_char(s: &Vec<char>, c: char, from: usize) -> (p: usize)
    requires
        from <= s@.len(),
    ensures
        from <= p <= s@.len(),
        p < s@.len() ==> s@[p as int] == c,
        forall|i: int| from <= i < p ==> s@[i] != c,
{
    let mut i = from;
    while i < s.len()
        invariant
            from <= i <= s@.len(),
            forall|j: int| from <= j < i ==> s@[j] != c,
        decreases s@.len() - i,
    {
        if s[i] == c {
            return i;
        }
        i += 1;
    }
    i
}

/// Returns `true` if `s` looks like a plausible email address.
fn email_is_plausible(s: &str) -> (b: bool)
    ensures
        b == is_plausible_email(s@),
{
    if s.is_empty() {
        return false;
    }
    let c = char_vec(s);
    let n = c.len();
    if n > 200 {
        return false;
    }
    let at = find_char(&c, '@', 0);
    if at == n {
        assert(!exists|a: int| first_at_sign(s@, a) && email_parts_ok(s@, a));
        return false;
    }
    assert(first_at_sign(s@, at as int));
    assert forall|a: int| first_at_sign(s@, a) implies a == at by {
        if a < at {
            assert(s@[a] != '@');
        } else if a > at {
            assert(s@[at as int] == '@');
        }
    }
    if at == 0 || at + 1 >= n {
        return false;
    }
    let second = find_char(&c, '@', at + 1);
    if second < n {
        assert(!email_parts_ok(s@, at as int));
        return false;
    }
    let space = find_char(&c, ' ', 0);
    if space < n {
        assert(!lacks_char(s@, ' '));
        return false;
    }
    let dot = find_char(&c, '.', at + 1);
    if dot == n {
        assert(!exists|i: int| at < i < s@.len() && s@[i] == '.');
        return false;
    }
    if c[at + 1] != '.' && c[n - 1] != '.' {
        assert(email_parts_ok(s@, at as int));
        true
    } else {
        false
    }
}

/// An email address: a local part and a domain separated by a single
/// `@`, a domain with a `.`, and at most 200 chars.
#[derive(Debug, PartialEq, Eq, Hash)]
pub struct EmailAddress(String);

impl View for EmailAddress {
    type V = Seq<char>;

    closed spec fn view(&self) -> Seq<char> {
        self.0@
    }
}

impl Clone for EmailAddress {
    fn clone(&self) -> (c: Self)
        ensures
            c@ == self@,
    {
        proof {
            use_type_invariant(self);
        }
        EmailAddress(self.0.clone())
    }
}

impl EmailAddress {
    /// Maximum length in chars.
    pub const MAX_LEN: usize = 200;

    #[verifier::type_invariant]
    spec fn well_formed(self) -> bool {
        self.0@.len() <= 200 && is_plausible_email(self.0@)
    }

    /// Validates the structure and the length.
    pub fn new(raw: &str) -> (r: Result<Self, DomainError>)
        ensures
            r is Ok <==> raw@.len() <= 200 && is_plausible_email(raw@),
            r matches Ok(v) ==> v@ == raw@,
            r matches Err(e) ==> e is Validation,
    {
        if raw.unicode_len() > 200 {
            return Err(
                DomainError::validation("email address must be valid RFC 5322 and <= 200 chars"),
            );
        }
        if !email_is_plausible(raw) {
            return Err(
                DomainError::validation("email address must be valid RFC 5322 and <= 200 chars"),
            );
        }
        Ok(EmailAddress(raw.to_owned()))
    }

    /// Returns the inner string.
    pub fn as_str(&self) -> (s: &str)
        ensures
            s@ == self@,
            is_plausible_email(s@),
    {
        proof {
            use_type_invariant(self);
        }
        self.0.as_str()
    }
}

// =============================================================================
// Phone numbers
// =============================================================================

/// A character allowed at position `i` of a phone number: a digit, a
/// space, `-`, `(`, `)`, or a leading `+`.
pub open spec fn phone_char_ok(s: Seq<char>, i: int) -> bool {
    is_digit(s[i]) || (s[i] == '+' && i == 0) || s[i] == ' ' || s[i] == '-' || s[i] == '('
        || s[i] == ')'
}

/// A plausible phone number: 1..=20 chars, starting with `+`, a digit
/// or `(`, made only of allowed characters, with at least one digit.
pub open spec fn is_plausible_phone(s: Seq<char>) -> bool {
    &&& bounded_text(s, 20)
    &&& (s[0] == '+' || is_digit(s[0]) || s[0] == '(')
    &&& forall|i: int| 0 <= i < s.len() ==> #[trigger] phone_char_ok(s, i)
    &&& exists|i: int| 0 <= i < s.len() && is_digit(#[trigger] s[i])
}

/// Returns `true` if `s` looks like a plausible phone number.
fn phone_is_plausible(s: &str) -> (b: bool)
    ensures
        b == is_plausible_phone(s@),
{
    let c = char_vec(s);
    if c.len() == 0 || c.len() > 20 {
        return false;
    }
    let first = c[0];
    if first != '+' && !is_digit_char(first) && first != '(' {
        return false;
    }
    let mut has_digit = false;
    let mut i: usize = 0;
    while i < c.len()
        invariant
            i <= c@.len(),
            c@ == s@,
            forall|j: int| 0 <= j < i ==> #[trigger] phone_char_ok(s@, j),
            has_digit == exists|j: int| 0 <= j < i && is_digit(#[trigger] s@[j]),
        decreases c@.len() - i,
    {
        let ch = c[i];
        if is_digit_char(ch) {
            has_digit = true;
        } else if ch == '+' && i == 0 {
        } else if ch == ' ' || ch == '-' || ch == '(' || ch == ')' {
        } else {
            assert(!phone_char_ok(s@, i as int));
            return false;
        }
        i += 1;
    }
    has_digit
}

/// A phone number in E.164 form (`+15551234567`) or a national format
/// (digits with optional spaces, hyphens and parentheses), at most 20
/// chars.
#[derive(Debug, PartialEq, Eq, Hash)]
pub struct PhoneNumber(String);

impl View for PhoneNumber {
    type V = Seq<char>;

    closed spec fn view(&self) -> Seq<char> {
        self.0@
    }
}

impl Clone for PhoneNumber {
    fn clone(&self) -> (c: Self)
        ensures
            c@ == self@,
    {
        proof {
            use_type_invariant(self);
        }
        PhoneNumber(self.0.clone())
    }
}

impl PhoneNumber {
    /// Maximum length in chars.
    pub const MAX_LEN: usize = 20;

    #[verifier::type_invariant]
    spec fn well_formed(self) -> bool {
        is_plausible_phone(self.0@)
    }

    /// Validates the format and the length.
    pub fn new(raw: &str) -> (r: Result<Self, DomainError>)
        ensures
            r is Ok <==> is_plausible_phone(raw@),
            r matches Ok(v) ==> v@ == raw@,
            r matches Err(e) ==> e is Validation,
    {
        if raw.unicode_len() > 20 {
            return Err(
                DomainError::validation(
                    "phone number must be E.164 or national format, <= 20 chars",
                ),
            );
        }
        if !phone_is_plausible(raw) {
            return Err(
                DomainError::validation(
                    "phone number must be E.164 or national format, <= 20 chars",
                ),
            );
        }
        Ok(PhoneNumber(raw.to_owned()))
    }

    /// Returns the inner string.
    pub fn as_str(&self) -> (s: &str)
        ensures
            s@ == self@,
            is_plausible_phone(s@),
    {
        proof {
            use_type_invariant(self);
        }
        self.0.as_str()
    }
}

// =============================================================================
// URLs
// =============================================================================

/// Whether `s` starts with `https://`.
pub open spec fn starts_https(s: Seq<char>) -> bool {
    s.len() >= 8 && s[0] == 'h' && s[1] == 't' && s[2] == 't' && s[3] == 'p' && s[4] == 's'
        && s[5] == ':' && s[6] == '/' && s[7] == '/'
}

/// Whether `s` starts with `http://`.
pub open spec fn starts_http(s: Seq<char>) -> bool {
    s.len() >= 7 && s[0] == 'h' && s[1] == 't' && s[2] == 't' && s[3] == 'p' && s[4] == ':'
        && s[5] == '/' && s[6] == '/'
}

/// The length of the scheme prefix (`https://` or `http://`), or 0.
pub open spec fn scheme_len(s: Seq<char>) -> int {
    if starts_https(s) {
        8
    } else if starts_http(s) {
        7
    } else {
        0
    }
}

/// A character that ends the host part of a URL.
pub open spec fn ends_host(c: char) -> bool {
    c == '/' || c == '?' || c == '#'
}

/// `e` is where the host that starts at `k` ends: the first `/`, `?`
/// or `#` at or after `k`, or the end of `s`.
pub open spec fn host_end(s: Seq<char>, k: int, e: int) -> bool {
    &&& k <= e <= s.len()
    &&& (e == s.len() || ends_host(s[e]))
    &&& forall|j: int| k <= j < e ==> !ends_host(s[j])
}

/// The host `s[k..e]` is non-empty, contains a `.`, and neither starts
/// nor ends with one.
pub open spec fn host_ok(s: Seq<char>, k: int, e: int) -> bool {
    &&& k < e
    &&& exists|j: int| k <= j < e && s[j] == '.'
    &&& s[k] != '.'
    &&& s[e - 1] != '.'
}

/// A plausible URL: an `http://` or `https://` scheme followed by a
/// non-empty rest whose host is plausible.
pub open spec fn is_plausible_url(s: Seq<char>) -> bool {
    let k = scheme_len(s);
    &&& s.len() > 0
    &&& k > 0
    &&& s.len() > k
    &&& exists|e: int| host_end(s, k, e) && host_ok(s, k, e)
}

/// Finds where the host that starts at `k` ends.
fn find_host_end(c: &Vec<char>, k: usize) -> (e: usize)
    requires
        k <= c@.len(),
    ensures
        host_end(c@, k as int, e as int),
{
    let mut e = k;
    while e < c.len()
        invariant
            k <= e <= c@.len(),
            forall|j: int| k <= j < e ==> !ends_host(c@[j]),
        decreases c@.len() - e,
    {
        let ch = c[e];
        if ch == '/' || ch == '?' || ch == '#' {
            return e;
        }
        e += 1;
    }
    e
}

/// Returns `true` if `s` looks like a plausible URL.
fn url_is_plausible(s: &str) -> (b: bool)
    ensures
        b == is_plausible_url(s@),
{
    let c = char_vec(s);
    let n = c.len();
    if n == 0 {
        return false;
    }
    let k: usize = if n >= 8 && c[0] == 'h' && c[1] == 't' && c[2] == 't' && c[3] == 'p' && c[4]
        == 's' && c[5] == ':' && c[6] == '/' && c[7] == '/' {
        8
    } else if n >= 7 && c[0] == 'h' && c[1] == 't' && c[2] == 't' && c[3] == 'p' && c[4] == ':'
        && c[5] == '/' && c[6] == '/' {
        7
    } else {
        0
    };
    assert(k == scheme_len(s@));
    if k == 0 {
        return false;
    }
    if n <= k {
        return false;
    }
    let e = find_host_end(&c, k);
    assert(host_end(s@, k as int, e as int));
    assert forall|e2: int| host_end(s@, k as int, e2) implies e2 == e by {
        if e2 < e {
            assert(!ends_host(s@[e2]));
        } else if e2 > e {
            assert(!ends_host(s@[e as int]));
        }
    }
    if e == k {
        return false;
    }
    let dot = find_char(&c, '.', k);
    if dot >= e {
        assert(!exists|j: int| k <= j < e && s@[j] == '.');
        return false;
    }
    c[k] != '.' && c[e - 1] != '.'
}

/// A URL of at most 2048 chars starting with `http://` or `https://`
/// and naming a plausible host. Not a full RFC 3986 parser.
#[derive(Debug, PartialEq, Eq, Hash)]
pub struct Url(String);

impl View for Url {
    type V = Seq<char>;

    closed spec fn view(&self) -> Seq<char> {
        self.0@
    }
}

impl Clone for Url {
    fn clone(&self) -> (c: Self)
        ensures
            c@ == self@,
    {
        proof {
            use_type_invariant(self);
        }
        Url(self.0.clone())
    }
}

impl Url {
    /// Maximum length in chars.
    pub const MAX_LEN: usize = 2048;

    #[verifier::type_invariant]
    spec fn well_formed(self) -> bool {
        self.0@.len() <= 2048 && is_plausible_url(self.0@)
    }

    /// Validates the length and the scheme/host shape.
    pub fn new(raw: &str) -> (r: Result<Self, DomainError>)
        ensures
            r is Ok <==> raw@.len() <= 2048 && is_plausible_url(raw@),
            r matches Ok(v) ==> v@ == raw@,
            r matches Err(e) ==> e is Validation,
    {
        if raw.unicode_len() > 2048 {
            return Err(DomainError::validation("url must be valid and <= 2048 chars"));
        }
        if !url_is_plausible(raw) {
            return Err(DomainError::validation("url must be valid and <= 2048 chars"));
        }
        Ok(Url(raw.to_owned()))
    }

    /// Returns the inner string.
    pub fn as_str(&self) -> (s: &str)
        ensures
            s@ == self@,
            is_plausible_url(s@),
    {
        proof {
            use_type_invariant(self);
        }
        self.0.as_str()
    }
}

// =============================================================================
// Template variables
// =============================================================================

/// A single `(name, description)` template variable declaration: the
/// name is 1..=50 chars, the description 0..=200 chars.
#[derive(Debug, PartialEq, Eq, Hash)]
pub struct TemplateVariable {
    /// The placeholder name used in the template body.
    pub name: String,
    /// A human-readable description; may be empty.
    pub description: String,
}

impl Clone for TemplateVariable {
    fn clone(&self) -> (c: Self)
        ensures
            c.name@ == self.name@,
            c.description@ == self.description@,
    {
        TemplateVariable { name: self.name.clone(), description: self.description.clone() }
    }
}

impl TemplateVariable {
    /// Maximum length of a variable name.
    pub const NAME_MAX_LEN: usize = 50;

    /// Maximum length of a variable description.
    pub const DESCRIPTION_MAX_LEN: usize = 200;

    /// Validates the name (1..=50 chars) and the description (at most
    /// 200 chars).
    pub fn new(name: &str, description: &str) -> (r: Result<Self, DomainError>)
        ensures
            r is Ok <==> bounded_text(name@, 50) && description@.len() <= 200,
            r matches Ok(v) ==> v.name@ == name@ && v.description@ == description@,
            r matches Err(e) ==> e is Validation,
    {
        if name.is_empty() {
            return Err(DomainError::validation("template variable name must be 1..50 chars"));
        }
        if name.unicode_len() > 50 {
            return Err(DomainError::validation("template variable name must be 1..50 chars"));
        }
        if description.unicode_len() > 200 {
            return Err(
                DomainError::validation("template variable description must be <= 200 chars"),
            );
        }
        Ok(TemplateVariable { name: name.to_owned(), description: description.to_owned() })
    }
}

// =============================================================================
// Dates and rendered bodies
// =============================================================================

/// The day a notification, email or SMS was sent.
#[derive(Debug, Clone, Copy, PartialEq, Eq, Hash, PartialOrd, Ord)]
pub struct DispatchDate(pub CalendarDate);

impl DispatchDate {
    /// Wraps a date.
    pub fn new(date: CalendarDate) -> (d: Self)
        ensures
            d.0 == date,
    {
        DispatchDate(date)
    }

    /// Returns the inner date.
    pub fn value(self) -> (d: CalendarDate)
        ensures
            d == self.0,
    {
        self.0
    }
}

/// The publication date of a notice.
#[derive(Debug, Clone, Copy, PartialEq, Eq, Hash, PartialOrd, Ord)]
pub struct NoticeDate(pub CalendarDate);

impl NoticeDate {
    /// Wraps a date.
    pub fn new(date: CalendarDate) -> (d: Self)
        ensures
            d.0 == date,
    {
        NoticeDate(date)
    }

    /// Returns the inner date.
    pub fn value(self) -> (d: CalendarDate)
        ensures
            d == self.0,
    {
        self.0
    }
}

/// A publish-on schedule: `None` publishes immediately, `Some(date)`
/// publishes on that date.
#[derive(Debug, Clone, Copy, PartialEq, Eq, Hash)]
pub struct PublishOn(pub Option<CalendarDate>);

impl PublishOn {
    /// Publish immediately.
    pub fn immediate() -> (p: Self)
        ensures
            p.0 is None,
    {
        PublishOn(None)
    }

    /// Publish on the given date.
    pub fn scheduled(date: CalendarDate) -> (p: Self)
        ensures
            p.0 == Some(date),
    {
        PublishOn(Some(date))
    }

    /// Returns the inner optional date.
    pub fn value(self) -> (d: Option<CalendarDate>)
        ensures
            d == self.0,
    {
        self.0
    }
}

/// A rendered template body, the output of the template service. Only
/// this crate produces one.
#[derive(Debug, PartialEq, Eq, Hash)]
pub struct RenderedBody(String);

impl View for RenderedBody {
    type V = Seq<char>;

    closed spec fn view(&self) -> Seq<char> {
        self.0@
    }
}

impl Clone for RenderedBody {
    fn clone(&self) -> (c: Self)
        ensures
            c@ == self@,
    {
        RenderedBody(self.0.clone())
    }
}

impl RenderedBody {
    /// Wraps an already-rendered string.
    pub(crate) fn from_rendered(s: String) -> (r: Self)
        ensures
            r@ == s@,
    {
        RenderedBody(s)
    }

    /// Returns the inner rendered string.
    pub fn as_str(&self) -> (s: &str)
        ensures
            s@ == self@,
    {
        self.0.as_str()
    }
}

// =============================================================================
// Audience and routing
// =============================================================================

/// Who a notice or a broadcast reaches. The list variants are
/// non-empty when built through the constructors.
#[derive(Debug, PartialEq, Eq, Hash)]
pub enum AudienceDescriptor {
    /// Every user holding any of the roles.
    Roles(Vec<RoleId>),
    /// Users of a class, optionally narrowed to one section.
    ClassSection {
        /// The class.
        class: ClassId,
        /// The section; `None` means every section of the class.
        section: Option<SectionId>,
    },
    /// A specific set of users.
    Users(Vec<UserId>),
    /// Every user of the school.
    All,
}

/// An element-wise copy of a vector of plain values.
pub(crate) fn copy_vec<T: Copy>(v: &Vec<T>) -> (w: Vec<T>)
    ensures
        w@ == v@,
{
    let mut w: Vec<T> = Vec::new();
    let mut i: usize = 0;
    while i < v.len()
        invariant
            i <= v@.len(),
            w@ == v@.take(i as int),
        decreases v@.len() - i,
    {
        w.push(v[i]);
        i += 1;
        assert(w@ =~= v@.take(i as int));
    }
    assert(v@.take(v@.len() as int) =~= v@);
    w
}

/// The mathematical form of an audience: the lists become sequences.
pub enum AudienceView {
    /// Every user holding any of the roles.
    Roles(Seq<RoleId>),
    /// Users of a class, optionally narrowed to one section.
    ClassSection {
        /// The class.
        class: ClassId,
        /// The section.
        section: Option<SectionId>,
    },
    /// A specific set of users.
    Users(Seq<UserId>),
    /// Every user of the school.
    All,
}

impl View for AudienceDescriptor {
    type V = AudienceView;

    open spec fn view(&self) -> AudienceView {
        match self {
            AudienceDescriptor::Roles(v) => AudienceView::Roles(v@),
            AudienceDescriptor::ClassSection { class, section } => AudienceView::ClassSection {
                class: *class,
                section: *section,
            },
            AudienceDescriptor::Users(v) => AudienceView::Users(v@),
            AudienceDescriptor::All => AudienceView::All,
        }
    }
}

impl Clone for AudienceDescriptor {
    fn clone(&self) -> (c: Self)
        ensures
            c@ == self@,
    {
        match self {
            AudienceDescriptor::Roles(v) => AudienceDescriptor::Roles(copy_vec(v)),
            AudienceDescriptor::ClassSection { class, section } => AudienceDescriptor::ClassSection {
                class: *class,
                section: *section,
            },
            AudienceDescriptor::Users(v) => AudienceDescriptor::Users(copy_vec(v)),
            AudienceDescriptor::All => AudienceDescriptor::All,
        }
    }
}

/// Whether two role lists are equal, element by element.
fn same_roles(a: &Vec<RoleId>, b: &Vec<RoleId>) -> (eq: bool)
    ensures
        eq == (a@ == b@),
{
    if a.len() != b.len() {
        return false;
    }
    let mut k: usize = 0;
    while k < a.len()
        invariant
            k <= a@.len(),
            a@.len() == b@.len(),
            forall|j: int| 0 <= j < k ==> a@[j] == b@[j],
        decreases a@.len() - k,
    {
        if a[k] != b[k] {
            return false;
        }
        k += 1;
    }
    assert(a@ =~= b@);
    true
}

/// Whether two user lists are equal, element by element.
fn same_users(a: &Vec<UserId>, b: &Vec<UserId>) -> (eq: bool)
    ensures
        eq == (a@ == b@),
{
    if a.len() != b.len() {
        return false;
    }
    let mut k: usize = 0;
    while k < a.len()
        invariant
            k <= a@.len(),
            a@.len() == b@.len(),
            forall|j: int| 0 <= j < k ==> a@[j] == b@[j],
        decreases a@.len() - k,
    {
        if a[k] != b[k] {
            return false;
        }
        k += 1;
    }
    assert(a@ =~= b@);
    true
}

impl AudienceDescriptor {
    /// Whether two audiences name the same recipients in the same way.
    pub fn same_as(&self, other: &Self) -> (eq: bool)
        ensures
            eq == (self@ == other@),
    {
        match (self, other) {
            (AudienceDescriptor::Roles(a), AudienceDescriptor::Roles(b)) => same_roles(a, b),
            (AudienceDescriptor::Users(a), AudienceDescriptor::Users(b)) => same_users(a, b),
            (
                AudienceDescriptor::ClassSection { class: c1, section: s1 },
                AudienceDescriptor::ClassSection { class: c2, section: s2 },
            ) => {
                let same_section = match (s1, s2) {
                    (Some(x), Some(y)) => *x == *y,
                    (None, None) => true,
                    _ => false,
                };
                *c1 == *c2 && same_section
            },
            (AudienceDescriptor::All, AudienceDescriptor::All) => true,
            _ => false,
        }
    }

    /// A `Roles` audience; the list must be non-empty.
    pub fn roles(roles: Vec<RoleId>) -> (r: Result<Self, DomainError>)
        ensures
            r is Ok <==> roles@.len() > 0,
            r matches Ok(a) ==> a@ == AudienceView::Roles(roles@),
            r matches Err(e) ==> e is Validation,
    {
        if roles.len() == 0 {
            return Err(DomainError::validation("audience roles must be a non-empty vec"));
        }
        Ok(AudienceDescriptor::Roles(roles))
    }

    /// A `ClassSection` audience.
    pub fn class_section(class: ClassId, section: Option<SectionId>) -> (a: Self)
        ensures
            a == (AudienceDescriptor::ClassSection { class, section }),
    {
        AudienceDescriptor::ClassSection { class, section }
    }

    /// A `Users` audience; the list must be non-empty.
    pub fn users(users: Vec<UserId>) -> (r: Result<Self, DomainError>)
        ensures
            r is Ok <==> users@.len() > 0,
            r matches Ok(a) ==> a@ == AudienceView::Users(users@),
            r matches Err(e) ==> e is Validation,
    {
        if users.len() == 0 {
            return Err(DomainError::validation("audience users must be a non-empty vec"));
        }
        Ok(AudienceDescriptor::Users(users))
    }

    /// The school-wide audience.
    pub fn all() -> (a: Self)
        ensures
            a == AudienceDescriptor::All,
    {
        AudienceDescriptor::All
    }
}

/// The routing decision for a notification event: the event, the
/// destinations, and the recipient.
#[derive(Debug, PartialEq, Eq, Hash)]
pub struct NotificationRoute {
    /// The event name (e.g. `"student.absent"`).
    pub event: String,
    /// The destinations to dispatch to.
    pub destination: Destination,
    /// The recipient.
    pub recipient: UserId,
}

impl NotificationRoute {
    /// Builds a route.
    pub fn new(event: String, destination: Destination, recipient: UserId) -> (r: Self)
        ensures
            r.event == event,
            r.destination == destination,
            r.recipient == recipient,
    {
        NotificationRoute { event, destination, recipient }
    }
}

/// An advisory warning emitted by the template service; it does not
/// fail rendering.
#[derive(Debug, PartialEq, Eq)]
pub enum RenderWarning {
    /// A declared template variable is not used in the body.
    UnusedVar(String),
    /// The body has unbalanced `{{` / `}}` braces.
    MismatchedBraces {
        /// The byte position of the imbalance: where the first
        /// unmatched `{{` or `}}` starts.
        position: usize,
        /// The body.
        body: String,
    },
    /// The body contains HTML but the target channel is SMS.
    HtmlInSms {
        /// The HTML snippet that triggered the warning.
        html: String,
        /// The SMS body.
        sms_body: String,
    },
}

impl RenderWarning {
    /// The wire-form text of each kind.
    pub open spec fn wire(&self) -> Seq<char> {
        match self {
            RenderWarning::UnusedVar(_) => "UnusedVar"@,
            RenderWarning::MismatchedBraces { .. } => "MismatchedBraces"@,
            RenderWarning::HtmlInSms { .. } => "HtmlInSms"@,
        }
    }

    /// Returns the wire-form string for the warning kind.
    pub fn as_str(&self) -> (s: &'static str)
        ensures
            s@ == self.wire(),
    {
        match self {
            RenderWarning::UnusedVar(_) => "UnusedVar",
            RenderWarning::MismatchedBraces { .. } => "MismatchedBraces",
            RenderWarning::HtmlInSms { .. } => "HtmlInSms",
        }
    }
}

// =============================================================================
// SMS gateway credentials
// =============================================================================

/// The credential payload of an SMS gateway; the variant matches the
/// gateway's `GatewayType`.
#[derive(Debug, PartialEq, Eq)]
#[allow(inconsistent_fields)]
pub enum SmsGatewayCredentials {
    /// Clickatell credentials.
    Clickatell {
        /// The API username.
        username: String,
        /// The API password.
        password: SecretReference,
        /// The Clickatell api_id.
        api_id: String,
    },
    /// Twilio credentials.
    Twilio {
        /// The account SID.
        account_sid: String,
        /// The auth token.
        auth_token: SecretReference,
        /// The registered sending number (E.164).
        registered_no: String,
    },
    /// Msg91 credentials.
    Msg91 {
        /// The auth key.
        auth_key: String,
        /// The sender id.
        sender_id: String,
        /// The route (transactional / promotional / ...).
        route: String,
    },
    /// Textlocal credentials.
    Textlocal {
        /// The API key.
        api_key: String,
        /// The sender id.
        sender: String,
    },
    /// AfricaTalking credentials.
    AfricaTalking {
        /// The username.
        username: String,
        /// The API key.
        api_key: SecretReference,
    },
    /// Custom HTTP gateway.
    Custom {
        /// The endpoint URL.
        url: Url,
        /// The HTTP method.
        request_method: RequestMethod,
        /// The query/body parameters as `(name, value)` pairs.
        params: Vec<(String, String)>,
    },
}

impl SmsGatewayCredentials {
    /// The gateway type each credential variant belongs to.
    pub open spec fn spec_gateway_type(&self) -> GatewayType {
        match self {
            SmsGatewayCredentials::Clickatell { .. } => GatewayType::Clickatell,
            SmsGatewayCredentials::Twilio { .. } => GatewayType::Twilio,
            SmsGatewayCredentials::Msg91 { .. } => GatewayType::Msg91,
            SmsGatewayCredentials::Textlocal { .. } => GatewayType::Textlocal,
            SmsGatewayCredentials::AfricaTalking { .. } => GatewayType::AfricaTalking,
            SmsGatewayCredentials::Custom { .. } => GatewayType::Custom,
        }
    }

    /// Returns the `GatewayType` of this credential variant.
    pub fn gateway_type(&self) -> (t: GatewayType)
        ensures
            t == self.spec_gateway_type(),
    {
        match self {
            SmsGatewayCredentials::Clickatell { .. } => GatewayType::Clickatell,
            SmsGatewayCredentials::Twilio { .. } => GatewayType::Twilio,
            SmsGatewayCredentials::Msg91 { .. } => GatewayType::Msg91,
            SmsGatewayCredentials::Textlocal { .. } => GatewayType::Textlocal,
            SmsGatewayCredentials::AfricaTalking { .. } => GatewayType::AfricaTalking,
            SmsGatewayCredentials::Custom { .. } => GatewayType::Custom,
        }
    }
}

// =============================================================================
// Embedded value-object lists
// =============================================================================

/// The audience of a notice: the roles it reaches (at least one).
#[derive(Debug, PartialEq, Eq, Hash)]
pub struct NoticeAudience(pub Vec<RoleId>);

impl NoticeAudience {
    /// Builds an audience from a non-empty list of roles.
    pub fn new(roles: Vec<RoleId>) -> (r: Result<Self, DomainError>)
        ensures
            r is Ok <==> roles@.len() > 0,
            r matches Ok(a) ==> a.0@ == roles@,
            r matches Err(e) ==> e is Validation,
    {
        if roles.len() == 0 {
            return Err(DomainError::validation("notice audience must contain at least one role"));
        }
        Ok(NoticeAudience(roles))
    }

    /// Returns the roles.
    pub fn as_slice(&self) -> (s: &[RoleId])
        ensures
            s@ == self.0@,
    {
        self.0.as_slice()
    }
}

/// The variable declarations of an SMS template (at least one).
#[derive(Debug, PartialEq, Eq, Hash)]
pub struct SmsTemplateVariable(pub Vec<TemplateVariable>);

impl SmsTemplateVariable {
    /// Builds the list from a non-empty vector of declarations.
    pub fn new(vars: Vec<TemplateVariable>) -> (r: Result<Self, DomainError>)
        ensures
            r is Ok <==> vars@.len() > 0,
            r matches Ok(a) ==> a.0@ == vars@,
            r matches Err(e) ==> e is Validation,
    {
        if vars.len() == 0 {
            return Err(DomainError::validation("sms template variables must be a non-empty vec"));
        }
        Ok(SmsTemplateVariable(vars))
    }

    /// Returns the declarations.
    pub fn as_slice(&self) -> (s: &[TemplateVariable])
        ensures
            s@ == self.0@,
    {
        self.0.as_slice()
    }
}

/// The audience of a notification setting; the same shape as an
/// `AudienceDescriptor`.
pub type NotificationSettingAudience = AudienceDescriptor;

/// A custom-gateway request parameter list: key 1..=100 chars, value
/// 1..=1000 chars, for each pair.
pub open spec fn params_ok(params: Seq<(String, String)>) -> bool {
    forall|i: int| 0 <= i < params.len() ==> #[trigger] param_ok(params[i])
}

/// One request parameter: key 1..=100 chars, value 1..=1000 chars.
pub open spec fn param_ok(p: (String, String)) -> bool {
    bounded_text(p.0@, 100) && bounded_text(p.1@, 1000)
}

/// The `(name, value)` request parameters of a custom SMS setting (at
/// least one).
#[derive(Debug, PartialEq, Eq, Hash)]
pub struct CustomSmsSettingParam(pub Vec<(String, String)>);

impl CustomSmsSettingParam {
    /// Maximum length of a parameter key.
    pub const KEY_MAX_LEN: usize = 100;

    /// Maximum length of a parameter value.
    pub const VALUE_MAX_LEN: usize = 1000;

    /// Builds the list from a non-empty vector, checking every key and
    /// value length.
    pub fn new(params: Vec<(String, String)>) -> (r: Result<Self, DomainError>)
        ensures
            r is Ok <==> params@.len() > 0 && params_ok(params@),
            r matches Ok(a) ==> a.0@ == params@,
            r matches Err(e) ==> e is Validation,
    {
        if params.len() == 0 {
            return Err(
                DomainError::validation("custom sms setting params must be a non-empty vec"),
            );
        }
        let mut i: usize = 0;
        while i < params.len()
            invariant
                i <= params@.len(),
                forall|j: int| 0 <= j < i ==> #[trigger] param_ok(params@[j]),
            decreases params@.len() - i,
        {
            let pair = &params[i];
            let k = pair.0.as_str();
            let v = pair.1.as_str();
            if k.is_empty() || k.unicode_len() > 100 {
                assert(!param_ok(params@[i as int]));
                return Err(
                    DomainError::validation("custom sms setting param key must be 1..100 chars"),
                );
            }
            if v.is_empty() || v.unicode_len() > 1000 {
                assert(!param_ok(params@[i as int]));
                return Err(
                    DomainError::validation(
                        "custom sms setting param value must be 1..1000 chars",
                    ),
                );
            }
            assert(param_ok(params@[i as int]));
            i += 1;
        }
        Ok(CustomSmsSettingParam(params))
    }

    /// Returns the parameters.
    pub fn as_slice(&self) -> (s: &[(String, String)])
        ensures
            s@ == self.0@,
    {
        self.0.as_slice()
    }
}

// =============================================================================
// MessageId
// =============================================================================

/// A cross-domain email or SMS message identifier.
#[derive(Debug, Clone, Copy, PartialEq, Eq, Hash, PartialOrd, Ord, Structural)]
pub struct MessageId(pub u128);

impl MessageId {
    /// Wraps a UUID.
    pub fn new(value: u128) -> (m: Self)
        ensures
            m.0 == value,
    {
        MessageId(value)
    }

    /// Returns the UUID.
    pub fn as_uuid(&self) -> (v: u128)
        ensures
            v == self.0,
    {
        self.0
    }

    /// The hyphenated UUID text.
    pub fn to_text(&self) -> (text: String)
        ensures
            text@ == uuid_text(self.0),
    {
        uuid_hyphenated(self.0)
    }
}

} // verus!
