//! # Engine-wide identifiers and audit values
//!
//! The tenant anchor (`SchoolId`), the actor (`UserId`), event and
//! correlation identifiers, the foreign-key ids the communication
//! aggregates point at (students, staff, roles, classes, ...), and the
//! audit-footer values every aggregate carries (`Timestamp`,
//! `Version`, `Etag`, `ActiveStatus`).
//!
//! Every identifier holds its 128-bit UUID as a plain `u128`; the
//! canonical hyphenated text form is produced by the `uuid` crate.
//! Calendar dates are validated and ordered here; whether a date
//! exists is decided by `chrono`.
use vstd::prelude::*;
use vstd::arithmetic::power::pow;

verus! {

// =============================================================================
// UUID text form
// =============================================================================

/// The lowercase hexadecimal digit for a nibble value `0..16`.
pub open spec fn hex_digit(n: int) -> char {
    if n < 10 {
        (48 + n) as char
    } else {
        (87 + n) as char
    }
}

/// The index (0..32) of the hex nibble shown at text position `p`
/// of the hyphenated form (the hyphens stand at 8, 13, 18 and 23).
pub open spec fn uuid_nibble_index(p: int) -> int {
    if p < 8 {
        p
    } else if p < 13 {
        p - 1
    } else if p < 18 {
        p - 2
    } else if p < 23 {
        p - 3
    } else {
        p - 4
    }
}

/// The canonical hyphenated lowercase text form of a UUID
/// (`xxxxxxxx-xxxx-xxxx-xxxx-xxxxxxxxxxxx`), most significant nibble
/// first.
pub open spec fn uuid_text(value: u128) -> Seq<char> {
    Seq::new(
        36,
        |p: int|
            if p == 8 || p == 13 || p == 18 || p == 23 {
                '-'
            } else {
                hex_digit(
                    ((value as int) / pow(16, (31 - uuid_nibble_index(p)) as nat)) % 16,
                )
            },
    )
}

/// Renders a UUID with `uuid::Uuid`'s `Display`, which writes the
/// hyphenated lowercase form. The contract restates that format.
#[verifier::external_body]
pub(crate) fn uuid_hyphenated(value: u128) -> (text: String)
    ensures
        text@ == uuid_text(value),
{
    uuid::Uuid::from_u128(value).to_string()
}

/// The identifier `uuid::Uuid::new_v5` derives (SHA-1, RFC 9562) from a
/// namespace and the 16 big-endian bytes of `name`.
pub uninterp spec fn uuid_v5(namespace: u128, name: u128) -> u128;

/// Calls `uuid::Uuid::new_v5` with the namespace and the bytes of the
/// identifier `name`. The contract names the result; it also records
/// the version nibble (5) that the crate documents for such ids.
#[verifier::external_body]
pub(crate) fn derive_uuid_v5(namespace: u128, name: u128) -> (id: u128)
    ensures
        id == uuid_v5(namespace, name),
        (id >> 76u128) & 0xfu128 == 5,
{
    uuid::Uuid::new_v5(&uuid::Uuid::from_u128(namespace), uuid::Uuid::from_u128(name).as_bytes()).as_u128()
}

/// Calls `uuid::Uuid::now_v7`, a time-ordered identifier with random
/// bits. Nothing about the value is stated beyond the version nibble
/// (7) that the crate documents: it depends on the clock and on chance.
#[verifier::external_body]
pub(crate) fn fresh_uuid_v7() -> (id: u128)
    ensures
        (id >> 76u128) & 0xfu128 == 7,
{
    uuid::Uuid::now_v7().as_u128()
}

// =============================================================================
// Engine identifiers
// =============================================================================

/// A school (tenant) identifier.
#[derive(Debug, Clone, Copy, PartialEq, Eq, Hash, PartialOrd, Ord, Structural)]
pub struct SchoolId {
    /// The UUID of the school.
    pub value: u128,
}

impl SchoolId {
    /// Wraps a UUID.
    pub fn from_uuid(value: u128) -> (id: Self)
        ensures
            id.value == value,
    {
        SchoolId { value }
    }

    /// Returns the UUID.
    pub fn as_uuid(&self) -> (value: u128)
        ensures
            value == self.value,
    {
        self.value
    }

    /// The hyphenated UUID text.
    pub fn to_text(&self) -> (text: String)
        ensures
            text@ == uuid_text(self.value),
    {
        uuid_hyphenated(self.value)
    }
}

/// A user identifier. Users are global (not school-scoped).
#[derive(Debug, Clone, Copy, PartialEq, Eq, Hash, PartialOrd, Ord, Structural)]
pub struct UserId {
    /// The UUID of the user.
    pub value: u128,
}

impl UserId {
    /// Wraps a UUID.
    pub fn from_uuid(value: u128) -> (id: Self)
        ensures
            id.value == value,
    {
        UserId { value }
    }

    /// Returns the UUID.
    pub fn as_uuid(&self) -> (value: u128)
        ensures
            value == self.value,
    {
        self.value
    }
}

/// A domain-event identifier.
#[derive(Debug, Clone, Copy, PartialEq, Eq, Hash, PartialOrd, Ord, Structural)]
pub struct EventId {
    /// The UUID of the event.
    pub value: u128,
}

impl EventId {
    /// Wraps a UUID.
    pub fn from_uuid(value: u128) -> (id: Self)
        ensures
            id.value == value,
    {
        EventId { value }
    }

    /// Returns the UUID.
    pub fn as_uuid(&self) -> (value: u128)
        ensures
            value == self.value,
    {
        self.value
    }
}

/// A correlation identifier tying a command to the rows and events
/// it produced.
#[derive(Debug, Clone, Copy, PartialEq, Eq, Hash, PartialOrd, Ord, Structural)]
pub struct CorrelationId {
    /// The UUID of the correlation.
    pub value: u128,
}

impl CorrelationId {
    /// Wraps a UUID.
    pub fn from_uuid(value: u128) -> (id: Self)
        ensures
            id.value == value,
    {
        CorrelationId { value }
    }

    /// Returns the UUID.
    pub fn as_uuid(&self) -> (value: u128)
        ensures
            value == self.value,
    {
        self.value
    }
}

// =============================================================================
// Foreign-key ids (academic and HR records)
// =============================================================================

/// A student id (school-anchored).
#[derive(Debug, Clone, Copy, PartialEq, Eq, Hash, PartialOrd, Ord, Structural)]
pub struct StudentId {
    /// The owning school.
    pub school_id: SchoolId,
    /// The local UUID.
    pub value: u128,
}

impl StudentId {
    /// Constructs the id from its parts.
    pub fn new(school_id: SchoolId, value: u128) -> (id: Self)
        ensures
            id.school_id == school_id,
            id.value == value,
    {
        StudentId { school_id, value }
    }
}

/// A staff id (school-anchored).
#[derive(Debug, Clone, Copy, PartialEq, Eq, Hash, PartialOrd, Ord, Structural)]
pub struct StaffId {
    /// The owning school.
    pub school_id: SchoolId,
    /// The local UUID.
    pub value: u128,
}

impl StaffId {
    /// Constructs the id from its parts.
    pub fn new(school_id: SchoolId, value: u128) -> (id: Self)
        ensures
            id.school_id == school_id,
            id.value == value,
    {
        StaffId { school_id, value }
    }
}

/// A role id (school-anchored).
#[derive(Debug, Clone, Copy, PartialEq, Eq, Hash, PartialOrd, Ord, Structural)]
pub struct RoleId {
    /// The owning school.
    pub school_id: SchoolId,
    /// The local UUID.
    pub value: u128,
}

impl RoleId {
    /// Constructs the id from its parts.
    pub fn new(school_id: SchoolId, value: u128) -> (id: Self)
        ensures
            id.school_id == school_id,
            id.value == value,
    {
        RoleId { school_id, value }
    }
}

/// A class id (school-anchored).
#[derive(Debug, Clone, Copy, PartialEq, Eq, Hash, PartialOrd, Ord, Structural)]
pub struct ClassId {
    /// The owning school.
    pub school_id: SchoolId,
    /// The local UUID.
    pub value: u128,
}

impl ClassId {
    /// Constructs the id from its parts.
    pub fn new(school_id: SchoolId, value: u128) -> (id: Self)
        ensures
            id.school_id == school_id,
            id.value == value,
    {
        ClassId { school_id, value }
    }
}

/// A section id (school-anchored).
#[derive(Debug, Clone, Copy, PartialEq, Eq, Hash, PartialOrd, Ord, Structural)]
pub struct SectionId {
    /// The owning school.
    pub school_id: SchoolId,
    /// The local UUID.
    pub value: u128,
}

impl SectionId {
    /// Constructs the id from its parts.
    pub fn new(school_id: SchoolId, value: u128) -> (id: Self)
        ensures
            id.school_id == school_id,
            id.value == value,
    {
        SectionId { school_id, value }
    }
}

/// A subject id (school-anchored).
#[derive(Debug, Clone, Copy, PartialEq, Eq, Hash, PartialOrd, Ord, Structural)]
pub struct SubjectId {
    /// The owning school.
    pub school_id: SchoolId,
    /// The local UUID.
    pub value: u128,
}

impl SubjectId {
    /// Constructs the id from its parts.
    pub fn new(school_id: SchoolId, value: u128) -> (id: Self)
        ensures
            id.school_id == school_id,
            id.value == value,
    {
        SubjectId { school_id, value }
    }
}

/// An academic-year id (school-anchored).
#[derive(Debug, Clone, Copy, PartialEq, Eq, Hash, PartialOrd, Ord, Structural)]
pub struct AcademicYearId {
    /// The owning school.
    pub school_id: SchoolId,
    /// The local UUID.
    pub value: u128,
}

impl AcademicYearId {
    /// Constructs the id from its parts.
    pub fn new(school_id: SchoolId, value: u128) -> (id: Self)
        ensures
            id.school_id == school_id,
            id.value == value,
    {
        AcademicYearId { school_id, value }
    }
}

// =============================================================================
// Tenant context
// =============================================================================

/// The kind of user issuing a command.
#[derive(Debug, Clone, Copy, PartialEq, Eq, Hash, Structural)]
pub enum UserType {
    /// A platform (super) administrator.
    SuperAdmin,
    /// A school administrator.
    SchoolAdmin,
    /// A member of staff.
    Staff,
    /// A teacher.
    Teacher,
    /// A student.
    Student,
    /// A parent or guardian.
    Parent,
    /// An automated system actor.
    System,
}

/// Who is acting, for which school, under which correlation id.
#[derive(Debug, Clone, Copy, PartialEq, Eq, Hash, Structural)]
pub struct TenantContext {
    /// The school the command runs against.
    pub school_id: SchoolId,
    /// The acting user.
    pub actor_id: UserId,
    /// The correlation id of the request.
    pub correlation_id: CorrelationId,
    /// The kind of the acting user.
    pub user_type: UserType,
}

impl TenantContext {
    /// Builds a context for a user of a school.
    pub fn for_user(
        school_id: SchoolId,
        actor_id: UserId,
        correlation_id: CorrelationId,
        user_type: UserType,
    ) -> (ctx: Self)
        ensures
            ctx.school_id == school_id,
            ctx.actor_id == actor_id,
            ctx.correlation_id == correlation_id,
            ctx.user_type == user_type,
    {
        TenantContext { school_id, actor_id, correlation_id, user_type }
    }
}

// =============================================================================
// Audit footer values
// =============================================================================

/// A point in time, in milliseconds since the Unix epoch (UTC).
#[derive(Debug, Clone, Copy, PartialEq, Eq, Hash, PartialOrd, Ord, Structural)]
pub struct Timestamp {
    /// Milliseconds since 1970-01-01T00:00:00Z.
    pub millis: i64,
}

impl Timestamp {
    /// Wraps a count of milliseconds since the epoch.
    pub fn from_millis(millis: i64) -> (t: Self)
        ensures
            t.millis == millis,
    {
        Timestamp { millis }
    }
}

impl Timestamp {
    /// The current wall-clock time.
    pub fn now() -> (t: Self) {
        Timestamp { millis: current_millis() }
    }
}

/// Reads the system clock with `chrono::Utc::now` and returns its
/// `timestamp_millis`. Nothing is stated of the value: it is whatever
/// the machine's clock shows.
#[verifier::external_body]
fn current_millis() -> (millis: i64) {
    chrono::Utc::now().timestamp_millis()
}

// =============================================================================
// Clock and id-generator ports
// =============================================================================

/// A source of the current time. The factory services read the time
/// of each change from it.
pub trait Clock {
    /// The current time.
    fn now(&self) -> Timestamp;
}

/// A source of fresh identifiers.
pub trait IdGenerator {
    /// A fresh event id.
    fn next_event_id(&self) -> EventId;

    /// A fresh school id.
    fn next_school_id(&self) -> SchoolId;

    /// A fresh user id.
    fn next_user_id(&self) -> UserId;

    /// A fresh correlation id.
    fn next_correlation_id(&self) -> CorrelationId;
}

/// The clock of the machine.
pub struct SystemClock;

impl Clock for SystemClock {
    fn now(&self) -> (t: Timestamp) {
        Timestamp::now()
    }
}

/// Generates time-ordered (version 7) UUIDs.
pub struct SystemIdGen;

impl IdGenerator for SystemIdGen {
    fn next_event_id(&self) -> (id: EventId)
        ensures
            (id.value >> 76u128) & 0xfu128 == 7,
    {
        EventId::from_uuid(fresh_uuid_v7())
    }

    fn next_school_id(&self) -> (id: SchoolId)
        ensures
            (id.value >> 76u128) & 0xfu128 == 7,
    {
        SchoolId::from_uuid(fresh_uuid_v7())
    }

    fn next_user_id(&self) -> (id: UserId)
        ensures
            (id.value >> 76u128) & 0xfu128 == 7,
    {
        UserId::from_uuid(fresh_uuid_v7())
    }

    fn next_correlation_id(&self) -> (id: CorrelationId)
        ensures
            (id.value >> 76u128) & 0xfu128 == 7,
    {
        CorrelationId::from_uuid(fresh_uuid_v7())
    }
}

/// The optimistic-locking version of an aggregate.
#[derive(Debug, Clone, Copy, PartialEq, Eq, Hash, PartialOrd, Ord, Structural)]
pub struct Version {
    /// The version number; a fresh aggregate starts at 1.
    pub value: u64,
}

impl Version {
    /// The version of a freshly created aggregate.
    pub fn initial() -> (v: Self)
        ensures
            v.value == 1,
    {
        Version { value: 1 }
    }

    /// The version that follows this one.
    pub open spec fn bumped(self) -> Version {
        Version { value: next_version(self.value) }
    }

    /// The following version (saturating at `u64::MAX`).
    pub fn next(self) -> (v: Self)
        ensures
            v == self.bumped(),
    {
        Version { value: self.value.saturating_add(1) }
    }
}

/// The version number after `v`.
pub open spec fn next_version(v: u64) -> u64 {
    if v == u64::MAX {
        v
    } else {
        (v + 1) as u64
    }
}

/// Bumping never lowers a version; below the ceiling it adds exactly
/// one.
pub proof fn lemma_version_bump(v: Version)
    ensures
        v.bumped().value >= v.value,
        v.value < u64::MAX ==> v.bumped().value == v.value + 1,
        v.value == u64::MAX ==> v.bumped() == v,
{
}

/// A content hash used for conditional updates.
#[derive(Debug, Clone, Copy, PartialEq, Eq, Hash, Structural)]
pub struct Etag {
    /// The 128-bit content hash.
    pub value: u128,
}

impl Etag {
    /// The placeholder etag a fresh row carries until storage computes
    /// the real hash.
    pub fn placeholder() -> (e: Self)
        ensures
            e.value == 0,
    {
        Etag { value: 0 }
    }
}

/// Whether a row is live or soft-deleted.
#[derive(Debug, Clone, Copy, PartialEq, Eq, Hash, Structural)]
pub enum ActiveStatus {
    /// The row is live.
    Active,
    /// The row has been soft-deleted.
    Retired,
}

// =============================================================================
// Calendar dates
// =============================================================================

/// The first year `chrono::NaiveDate` can represent.
pub open spec fn min_calendar_year() -> int {
    -262143
}

/// The last year `chrono::NaiveDate` can represent.
pub open spec fn max_calendar_year() -> int {
    262142
}

/// Whether `year` is a leap year of the proleptic Gregorian calendar.
pub open spec fn is_leap_year(year: int) -> bool {
    (year % 4 == 0 && year % 100 != 0) || year % 400 == 0
}

/// The number of days of `month` (1..=12) in `year`.
pub open spec fn days_in_month(year: int, month: int) -> int {
    if month == 2 {
        if is_leap_year(year) {
            29
        } else {
            28
        }
    } else if month == 4 || month == 6 || month == 9 || month == 11 {
        30
    } else {
        31
    }
}

/// Whether `(year, month, day)` names a day of the proleptic Gregorian
/// calendar that `chrono::NaiveDate` can represent.
pub open spec fn date_exists(year: int, month: int, day: int) -> bool {
    &&& min_calendar_year() <= year <= max_calendar_year()
    &&& 1 <= month <= 12
    &&& 1 <= day <= days_in_month(year, month)
}

/// Asks `chrono::NaiveDate::from_ymd_opt` whether the date exists. The
/// crate documents `None` exactly for days that do not exist and for
/// years out of its range; the contract states that rule.
#[verifier::external_body]
fn chrono_date_exists(year: i32, month: u32, day: u32) -> (found: bool)
    ensures
        found == date_exists(year as int, month as int, day as int),
{
    chrono::NaiveDate::from_ymd_opt(year, month, day).is_some()
}

/// A calendar date (the engine's `NaiveDate`), ordered chronologically.
#[derive(Debug, Clone, Copy, PartialEq, Eq, Hash, PartialOrd, Ord)]
pub struct CalendarDate {
    year: i32,
    month: u32,
    day: u32,
}

impl CalendarDate {
    #[verifier::type_invariant]
    spec fn is_real_day(self) -> bool {
        date_exists(self.year as int, self.month as int, self.day as int)
    }

    /// The year.
    pub closed spec fn spec_year(self) -> int {
        self.year as int
    }

    /// The month (1..=12).
    pub closed spec fn spec_month(self) -> int {
        self.month as int
    }

    /// The day of the month.
    pub closed spec fn spec_day(self) -> int {
        self.day as int
    }

    /// Whether `self` is strictly before `other`.
    pub open spec fn before(self, other: CalendarDate) -> bool {
        ||| self.spec_year() < other.spec_year()
        ||| self.spec_year() == other.spec_year() && self.spec_month() < other.spec_month()
        ||| self.spec_year() == other.spec_year() && self.spec_month() == other.spec_month()
            && self.spec_day() < other.spec_day()
    }

    /// Whether `self` is on or before `other`.
    pub open spec fn on_or_before(self, other: CalendarDate) -> bool {
        self.before(other) || self == other
    }

    /// Two dates with the same year, month and day are the same date.
    pub proof fn lemma_same_parts(self, other: CalendarDate)
        requires
            self.spec_year() == other.spec_year(),
            self.spec_month() == other.spec_month(),
            self.spec_day() == other.spec_day(),
        ensures
            self == other,
    {
    }

    /// Chronological order is a strict total order: irreflexive,
    /// transitive, and any two distinct dates are ordered one way or the
    /// other.
    pub proof fn lemma_before_total_order(a: CalendarDate, b: CalendarDate, c: CalendarDate)
        ensures
            !a.before(a),
            a.before(b) && b.before(c) ==> a.before(c),
            a.before(b) ==> !b.before(a),
            a != b ==> a.before(b) || b.before(a),
    {
        if a != b && !a.before(b) && !b.before(a) {
            a.lemma_same_parts(b);
        }
    }

    /// A date is on or before another exactly when it is not after it.
    pub proof fn lemma_on_or_before_is_not_after(a: CalendarDate, b: CalendarDate)
        ensures
            a.on_or_before(b) <==> !b.before(a),
    {
        if !a.before(b) && !b.before(a) {
            a.lemma_same_parts(b);
        }
    }

    /// Within one month, dates are ordered by their day number: the
    /// date with the smaller day comes first (the 15th of June 2026 is
    /// before the 20th), and never the other way round.
    pub proof fn lemma_same_month_orders_by_day(a: CalendarDate, b: CalendarDate)
        requires
            a.spec_year() == b.spec_year(),
            a.spec_month() == b.spec_month(),
        ensures
            a.before(b) <==> a.spec_day() < b.spec_day(),
    {
    }

    /// Dates are ordered chronologically, by year, then month, then day:
    /// `a` is before `b` exactly when the number `YYYYMMDD` written by
    /// `a` is smaller than the one written by `b`.
    pub proof fn lemma_before_orders_by_date_number(a: CalendarDate, b: CalendarDate)
        requires
            1 <= a.spec_month() <= 12,
            1 <= b.spec_month() <= 12,
            1 <= a.spec_day() <= 31,
            1 <= b.spec_day() <= 31,
        ensures
            a.before(b) <==> a.spec_year() * 10000 + a.spec_month() * 100 + a.spec_day() < b.spec_year()
                * 10000 + b.spec_month() * 100 + b.spec_day(),
    {
        let (y1, m1, d1) = (a.spec_year(), a.spec_month(), a.spec_day());
        let (y2, m2, d2) = (b.spec_year(), b.spec_month(), b.spec_day());
        if y1 < y2 {
            assert(y1 * 10000 + m1 * 100 + d1 < y2 * 10000 + m2 * 100 + d2) by (nonlinear_arith)
                requires
                    y1 < y2,
                    1 <= m1 <= 12,
                    1 <= m2 <= 12,
                    1 <= d1 <= 31,
                    1 <= d2 <= 31,
            ;
        } else if y1 > y2 {
            assert(y1 * 10000 + m1 * 100 + d1 > y2 * 10000 + m2 * 100 + d2) by (nonlinear_arith)
                requires
                    y1 > y2,
                    1 <= m1 <= 12,
                    1 <= m2 <= 12,
                    1 <= d1 <= 31,
                    1 <= d2 <= 31,
            ;
        }
    }

    /// Makes a date from year, month and day; `None` when the day does
    /// not exist (or is out of range).
    pub fn from_ymd_opt(year: i32, month: u32, day: u32) -> (date: Option<Self>)
        ensures
            date is Some <==> date_exists(year as int, month as int, day as int),
            date matches Some(d) ==> d.spec_year() == year && d.spec_month() == month
                && d.spec_day() == day,
    {
        if chrono_date_exists(year, month, day) {
            Some(CalendarDate { year, month, day })
        } else {
            None
        }
    }

    /// The year.
    pub fn year(&self) -> (y: i32)
        ensures
            y == self.spec_year(),
    {
        self.year
    }

    /// The month (1..=12).
    pub fn month(&self) -> (m: u32)
        ensures
            m == self.spec_month(),
            1 <= m <= 12,
    {
        proof {
            use_type_invariant(self);
        }
        self.month
    }

    /// The day of the month.
    pub fn day(&self) -> (d: u32)
        ensures
            d == self.spec_day(),
            1 <= d <= days_in_month(self.spec_year(), self.spec_month()),
    {
        proof {
            use_type_invariant(self);
        }
        self.day
    }

    /// Whether `self` and `other` are the same day.
    pub fn is_same_day(&self, other: &CalendarDate) -> (b: bool)
        ensures
            b == (*self == *other),
    {
        if self.year == other.year && self.month == other.month && self.day == other.day {
            proof {
                self.lemma_same_parts(*other);
            }
            true
        } else {
            false
        }
    }

    /// Whether `self` is strictly before `other`.
    pub fn is_before(&self, other: &CalendarDate) -> (b: bool)
        ensures
            b == self.before(*other),
    {
        self.year < other.year || (self.year == other.year && self.month < other.month) || (
        self.year == other.year && self.month == other.month && self.day < other.day)
    }

    /// Whether `self` is on or before `other`.
    pub fn is_on_or_before(&self, other: &CalendarDate) -> (b: bool)
        ensures
            b == self.on_or_before(*other),
    {
        if self.year == other.year && self.month == other.month && self.day == other.day {
            proof {
                self.lemma_same_parts(*other);
            }
            true
        } else {
            self.is_before(other)
        }
    }
}

} // verus!
