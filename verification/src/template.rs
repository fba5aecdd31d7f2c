//! # The notification template aggregate
//!
//! A channel-bound, content-only template (subject and body) that the
//! engine renders against the typed variables of a notification. Its
//! placeholders are written `{name}`. The declared variables form a map
//! from name to variable type that lists its names in sorted order.
//!
//! `SmsTemplate` stays the channel-bound delivery record;
//! `NotificationTemplate` is the engine-side shape of the content.
use vstd::prelude::*;

use crate::foundation::{
    fresh_uuid_v7, uuid_hyphenated, uuid_text, ActiveStatus, Etag, SchoolId, Timestamp, UserId,
    Version,
};
use crate::rendering::texts;
use crate::value_objects::{char_vec, Channel};

verus! {

// =============================================================================
// NotificationTemplateId
// =============================================================================

/// The typed id of a [`NotificationTemplate`]: a UUID.
#[derive(Debug, Clone, Copy, PartialEq, Eq, Hash, Structural)]
pub struct NotificationTemplateId(pub u128);

impl NotificationTemplateId {
    /// A fresh time-ordered (version 7) id.
    pub fn fresh() -> (id: Self)
        ensures
            (id.0 >> 76u128) & 0xfu128 == 7,
    {
        NotificationTemplateId(fresh_uuid_v7())
    }

    /// The UUID of the id.
    pub fn as_uuid(&self) -> (u: u128)
        ensures
            u == self.0,
    {
        self.0
    }

    /// The id with the given UUID.
    pub fn from_uuid(u: u128) -> (id: Self)
        ensures
            id.0 == u,
    {
        NotificationTemplateId(u)
    }

    /// The display form: the hyphenated UUID.
    pub fn to_text(&self) -> (s: String)
        ensures
            s@ == uuid_text(self.0),
    {
        uuid_hyphenated(self.0)
    }
}

/// Reading back the UUID of an id made from a UUID gives that UUID,
/// and the other way round.
pub proof fn lemma_template_id_round_trip(u: u128, id: NotificationTemplateId)
    ensures
        NotificationTemplateId(u).0 == u,
        NotificationTemplateId(id.0) == id,
{
}

// =============================================================================
// TemplateVariable
// =============================================================================

/// The type of a template variable.
#[derive(Debug, Clone, Copy, PartialEq, Eq, Structural)]
pub enum TemplateVariable {
    /// A free-form string.
    String,
    /// A signed integer.
    Integer,
    /// A boolean.
    Bool,
    /// A date or time, rendered as RFC 3339.
    Date,
    /// A monetary amount, rendered in the school's locale.
    Currency,
}

impl TemplateVariable {
    /// Whether the variable needs locale formatting when rendered:
    /// dates and amounts do.
    pub fn requires_locale(&self) -> (b: bool)
        ensures
            b == (*self == TemplateVariable::Currency || *self == TemplateVariable::Date),
    {
        match self {
            TemplateVariable::Currency | TemplateVariable::Date => true,
            _ => false,
        }
    }
}

// =============================================================================
// Text order
// =============================================================================

/// Whether `a` sorts strictly before `b`, comparing from position `k`
/// on: by the first differing char's code point, and a proper prefix
/// before the longer text (the order of `String`).
pub open spec fn less_from(a: Seq<char>, b: Seq<char>, k: int) -> bool
    decreases a.len() - k,
{
    if k < 0 || k >= b.len() {
        false
    } else if k >= a.len() {
        true
    } else if a[k] != b[k] {
        a[k] < b[k]
    } else {
        less_from(a, b, k + 1)
    }
}

/// Whether `a` sorts strictly before `b`.
pub open spec fn text_less(a: Seq<char>, b: Seq<char>) -> bool {
    less_from(a, b, 0)
}

/// No text sorts before itself.
pub proof fn lemma_less_irreflexive(a: Seq<char>, k: int)
    requires
        k >= 0,
    ensures
        !less_from(a, a, k),
    decreases a.len() - k,
{
    if k < a.len() {
        lemma_less_irreflexive(a, k + 1);
    }
}

/// The order is asymmetric.
pub proof fn lemma_less_asymmetric(a: Seq<char>, b: Seq<char>, k: int)
    requires
        k >= 0,
        less_from(a, b, k),
    ensures
        !less_from(b, a, k),
    decreases a.len() - k,
{
    if k < a.len() && k < b.len() && a[k] == b[k] {
        lemma_less_asymmetric(a, b, k + 1);
    }
}

/// The order is transitive.
pub proof fn lemma_less_transitive(a: Seq<char>, b: Seq<char>, c: Seq<char>, k: int)
    requires
        k >= 0,
        less_from(a, b, k),
        less_from(b, c, k),
    ensures
        less_from(a, c, k),
    decreases a.len() - k,
{
    if k < a.len() && k < b.len() && k < c.len() && a[k] == b[k] && b[k] == c[k] {
        lemma_less_transitive(a, b, c, k + 1);
    }
}

/// Two texts are equal from `k` on, or one sorts before the other.
pub proof fn lemma_less_total(a: Seq<char>, b: Seq<char>, k: int)
    requires
        0 <= k <= a.len(),
        k <= b.len(),
    ensures
        less_from(a, b, k) || less_from(b, a, k) || (a.len() == b.len() && forall|j: int|
            k <= j < a.len() ==> a[j] == b[j]),
    decreases a.len() - k,
{
    if k < a.len() && k < b.len() && a[k] == b[k] {
        lemma_less_total(a, b, k + 1);
        if a.len() == b.len() && forall|j: int| k + 1 <= j < a.len() ==> a[j] == b[j] {
            assert forall|j: int| k <= j < a.len() implies a[j] == b[j] by {
                if j > k {
                    assert(k + 1 <= j < a.len());
                }
            }
        }
    }
}

/// Distinct texts are ordered one way or the other.
pub proof fn lemma_text_less_total(a: Seq<char>, b: Seq<char>)
    requires
        a != b,
    ensures
        text_less(a, b) || text_less(b, a),
{
    lemma_less_total(a, b, 0);
    if a.len() == b.len() && forall|j: int| 0 <= j < a.len() ==> a[j] == b[j] {
        assert(a =~= b);
    }
}

/// Whether `a` sorts strictly before `b`.
fn text_less_exec(a: &Vec<char>, b: &Vec<char>) -> (r: bool)
    ensures
        r == text_less(a@, b@),
{
    let mut k: usize = 0;
    while k < a.len() && k < b.len()
        invariant
            k <= a@.len(),
            k <= b@.len(),
            text_less(a@, b@) == less_from(a@, b@, k as int),
        decreases a@.len() - k,
    {
        if a[k] != b[k] {
            return a[k] < b[k];
        }
        k += 1;
    }
    k < b.len()
}

// =============================================================================
// The sorted variable map
// =============================================================================

/// The names of the entries are in strictly increasing order.
pub open spec fn sorted_names(entries: Seq<(String, TemplateVariable)>) -> bool {
    forall|i: int, j: int|
        0 <= i < j < entries.len() ==> text_less(#[trigger] entries[i].0@, #[trigger] entries[j].0@)
}

/// The position of an entry named `k`.
pub open spec fn position_of(entries: Seq<(String, TemplateVariable)>, k: Seq<char>) -> int {
    choose|i: int| 0 <= i < entries.len() && entries[i].0@ == k
}

/// The map the entries denote: each entry's name to its type.
pub open spec fn variable_map(entries: Seq<(String, TemplateVariable)>) -> Map<
    Seq<char>,
    TemplateVariable,
> {
    Map::new(
        |k: Seq<char>| exists|i: int| 0 <= i < entries.len() && entries[i].0@ == k,
        |k: Seq<char>| entries[position_of(entries, k)].1,
    )
}

/// In sorted entries each name occurs once, so the map gives every
/// entry's own type.
proof fn lemma_variable_map_at(entries: Seq<(String, TemplateVariable)>, n: int)
    requires
        sorted_names(entries),
        0 <= n < entries.len(),
    ensures
        variable_map(entries).contains_key(entries[n].0@),
        variable_map(entries)[entries[n].0@] == entries[n].1,
{
    let k = entries[n].0@;
    assert(variable_map(entries).contains_key(k));
    let c = position_of(entries, k);
    assert(0 <= c < entries.len() && entries[c].0@ == k);
    assert(variable_map(entries)[k] == entries[c].1);
    if c < n {
        assert(text_less(entries[c].0@, entries[n].0@));
        lemma_less_irreflexive(k, 0);
    } else if c > n {
        assert(text_less(entries[n].0@, entries[c].0@));
        lemma_less_irreflexive(k, 0);
    }
}

/// The declared variables of a template: a map from name to type that
/// keeps its names in sorted order.
#[derive(Debug)]
pub struct VariableMap {
    entries: Vec<(String, TemplateVariable)>,
}

impl View for VariableMap {
    type V = Map<Seq<char>, TemplateVariable>;

    closed spec fn view(&self) -> Map<Seq<char>, TemplateVariable> {
        variable_map(self.entries@)
    }
}

impl VariableMap {
    #[verifier::type_invariant]
    spec fn well_formed(self) -> bool {
        sorted_names(self.entries@)
    }

    /// An empty map.
    pub fn new() -> (m: Self)
        ensures
            m@ == Map::<Seq<char>, TemplateVariable>::empty(),
    {
        let m = VariableMap { entries: Vec::new() };
        assert(m@ =~= Map::<Seq<char>, TemplateVariable>::empty());
        m
    }

    /// The number of declared names.
    pub fn len(&self) -> (n: usize)
        ensures
            n == self@.dom().len(),
    {
        proof {
            use_type_invariant(self);
            self.lemma_dom();
        }
        self.entries.len()
    }

    /// The domain is the set of entry names, one per entry.
    proof fn lemma_dom(&self)
        requires
            sorted_names(self.entries@),
        ensures
            self@.dom() == texts(self.name_seq()).to_set(),
            self@.dom().len() == self.entries@.len(),
            texts(self.name_seq()).no_duplicates(),
    {
        let names = texts(self.name_seq());
        assert(names.len() == self.entries@.len());
        assert forall|i: int, j: int| 0 <= i < names.len() && 0 <= j < names.len() && i != j implies names[i] != names[j] by {
            assert(names[i] == self.entries@[i].0@ && names[j] == self.entries@[j].0@);
            if i < j {
                lemma_less_irreflexive(names[i], 0);
            } else {
                lemma_less_irreflexive(names[j], 0);
            }
        }
        assert forall|k: Seq<char>| #![auto] self@.dom().contains(k) <==> names.to_set().contains(k) by {
            if self@.dom().contains(k) {
                let i = choose|i: int| 0 <= i < self.entries@.len() && self.entries@[i].0@ == k;
                assert(names[i] == k);
            }
            if names.to_set().contains(k) {
                let i = choose|i: int| 0 <= i < names.len() && names[i] == k;
                assert(self.entries@[i].0@ == k);
            }
        }
        assert(self@.dom() =~= names.to_set());
        names.unique_seq_to_set();
    }

    /// The entry names, in order.
    closed spec fn name_seq(&self) -> Seq<String> {
        self.entries@.map_values(|e: (String, TemplateVariable)| e.0)
    }

    /// The type declared for `name`, if any.
    pub fn get(&self, name: &str) -> (r: Option<TemplateVariable>)
        ensures
            r matches Some(t) ==> self@.contains_key(name@) && self@[name@] == t,
            r is None ==> !self@.contains_key(name@),
    {
        proof {
            use_type_invariant(self);
        }
        let key = name.to_owned();
        let mut i: usize = 0;
        while i < self.entries.len()
            invariant
                i <= self.entries@.len(),
                key@ == name@,
                sorted_names(self.entries@),
                forall|j: int| 0 <= j < i ==> self.entries@[j].0@ != name@,
            decreases self.entries@.len() - i,
        {
            if self.entries[i].0 == key {
                proof {
                    lemma_variable_map_at(self.entries@, i as int);
                }
                return Some(self.entries[i].1);
            }
            i += 1;
        }
        None
    }

    /// Declares `name` with type `kind`, replacing any previous type;
    /// the names stay sorted.
    pub fn insert(&mut self, name: String, kind: TemplateVariable)
        ensures
            final(self)@ == old(self)@.insert(name@, kind),
    {
        proof {
            use_type_invariant(&*self);
        }
        let key = char_vec(name.as_str());
        let mut p: usize = 0;
        while p < self.entries.len()
            invariant
                p <= self.entries@.len(),
                key@ == name@,
                sorted_names(self.entries@),
                forall|j: int| 0 <= j < p ==> text_less(#[trigger] self.entries@[j].0@, name@),
            ensures
                p <= self.entries@.len(),
                forall|j: int| 0 <= j < p ==> text_less(#[trigger] self.entries@[j].0@, name@),
                p < self.entries@.len() ==> !text_less(self.entries@[p as int].0@, name@),
            decreases self.entries@.len() - p,
        {
            let here = char_vec(self.entries[p].0.as_str());
            if !text_less_exec(&here, &key) {
                break;
            }
            p += 1;
        }
        let ghost old_entries = self.entries@;
        let ghost old_map = self@;
        let mut entries: Vec<(String, TemplateVariable)> = Vec::new();
        std::mem::swap(&mut entries, &mut self.entries);
        assert(entries@ == old_entries);
        if p < entries.len() && entries[p].0 == name {
            entries.set(p, (name, kind));
            proof {
                assert forall|i: int, j: int| 0 <= i < j < entries@.len() implies text_less(
                    #[trigger] entries@[i].0@,
                    #[trigger] entries@[j].0@,
                ) by {
                    assert(entries@[i].0@ == old_entries[i].0@);
                    assert(entries@[j].0@ == old_entries[j].0@);
                }
                assert forall|k: Seq<char>| #![auto] variable_map(entries@).contains_key(k)
                    <==> old_map.insert(name@, kind).contains_key(k) by {
                    if variable_map(entries@).contains_key(k) {
                        let i = choose|i: int| 0 <= i < entries@.len() && entries@[i].0@ == k;
                        assert(old_entries[i].0@ == k);
                    }
                    if old_map.contains_key(k) {
                        let i = choose|i: int| 0 <= i < old_entries.len() && old_entries[i].0@ == k;
                        assert(entries@[i].0@ == k);
                    }
                    if k == name@ {
                        assert(entries@[p as int].0@ == k);
                    }
                }
                assert forall|k: Seq<char>| #![auto] variable_map(entries@).contains_key(k)
                    implies variable_map(entries@)[k] == old_map.insert(name@, kind)[k] by {
                    let i = choose|i: int| 0 <= i < entries@.len() && entries@[i].0@ == k;
                    lemma_variable_map_at(entries@, i);
                    if i != p {
                        assert(entries@[i] == old_entries[i]);
                        lemma_variable_map_at(old_entries, i);
                    }
                }
                assert(variable_map(entries@) =~= old_map.insert(name@, kind));
            }
        } else {
            proof {
                if p < old_entries.len() {
                    let here = old_entries[p as int].0@;
                    lemma_text_less_total(here, name@);
                }
            }
            entries.insert(p, (name, kind));
            proof {
                let new_entries = entries@;
                assert(new_entries == old_entries.insert(p as int, (name, kind)));
                assert forall|i: int| #![auto] 0 <= i < p implies new_entries[i] == old_entries[i] by {}
                assert forall|i: int| #![auto] p < i < new_entries.len() implies new_entries[i] == old_entries[i - 1] by {}
                assert forall|i: int, j: int| 0 <= i < j < new_entries.len() implies text_less(
                    #[trigger] new_entries[i].0@,
                    #[trigger] new_entries[j].0@,
                ) by {
                    if j < p {
                        assert(new_entries[i] == old_entries[i] && new_entries[j] == old_entries[j]);
                    } else if j == p {
                        assert(new_entries[i] == old_entries[i]);
                    } else if i < p {
                        assert(new_entries[i] == old_entries[i] && new_entries[j] == old_entries[j - 1]);
                        assert(text_less(old_entries[i].0@, name@));
                        assert(text_less(name@, old_entries[p as int].0@));
                        lemma_less_transitive(old_entries[i].0@, name@, old_entries[p as int].0@, 0);
                        if j - 1 > p {
                            lemma_less_transitive(old_entries[i].0@, old_entries[p as int].0@, old_entries[j - 1].0@, 0);
                        }
                    } else if i == p {
                        assert(new_entries[j] == old_entries[j - 1]);
                        if j - 1 > p {
                            lemma_less_transitive(name@, old_entries[p as int].0@, old_entries[j - 1].0@, 0);
                        }
                    } else {
                        assert(new_entries[i] == old_entries[i - 1] && new_entries[j] == old_entries[j - 1]);
                    }
                }
                assert forall|k: Seq<char>| #![auto] variable_map(new_entries).contains_key(k)
                    <==> old_map.insert(name@, kind).contains_key(k) by {
                    if variable_map(new_entries).contains_key(k) {
                        let i = choose|i: int| 0 <= i < new_entries.len() && new_entries[i].0@ == k;
                        if i < p {
                            assert(old_entries[i].0@ == k);
                        } else if i > p {
                            assert(old_entries[i - 1].0@ == k);
                        }
                    }
                    if old_map.contains_key(k) {
                        let i = choose|i: int| 0 <= i < old_entries.len() && old_entries[i].0@ == k;
                        if i < p {
                            assert(new_entries[i].0@ == k);
                        } else {
                            assert(new_entries[i + 1].0@ == k);
                        }
                    }
                    if k == name@ {
                        assert(new_entries[p as int].0@ == k);
                    }
                }
                assert forall|k: Seq<char>| #![auto] variable_map(new_entries).contains_key(k)
                    implies variable_map(new_entries)[k] == old_map.insert(name@, kind)[k] by {
                    let i = choose|i: int| 0 <= i < new_entries.len() && new_entries[i].0@ == k;
                    lemma_variable_map_at(new_entries, i);
                    if i < p {
                        lemma_variable_map_at(old_entries, i);
                        assert(text_less(k, name@));
                        lemma_less_irreflexive(k, 0);
                    } else if i > p {
                        lemma_variable_map_at(old_entries, i - 1);
                        assert(new_entries[p as int].0@ == name@);
                        assert(text_less(new_entries[p as int].0@, new_entries[i].0@));
                        lemma_less_irreflexive(k, 0);
                    }
                }
                assert(variable_map(new_entries) =~= old_map.insert(name@, kind));
            }
        }
        self.entries = entries;
    }

    /// The declared names, in sorted order.
    pub fn names(&self) -> (names: Vec<String>)
        ensures
            names@.len() == self@.dom().len(),
            forall|k: Seq<char>| self@.contains_key(k) <==> texts(names@).contains(k),
            forall|i: int, j: int|
                0 <= i < j < names@.len() ==> text_less(#[trigger] names@[i]@, #[trigger] names@[j]@),
    {
        proof {
            use_type_invariant(self);
            self.lemma_dom();
        }
        let mut names: Vec<String> = Vec::new();
        let mut i: usize = 0;
        while i < self.entries.len()
            invariant
                i <= self.entries@.len(),
                names@.len() == i,
                forall|j: int| 0 <= j < i ==> (#[trigger] names@[j])@ == self.entries@[j].0@,
            decreases self.entries@.len() - i,
        {
            names.push(self.entries[i].0.clone());
            i += 1;
        }
        proof {
            use_type_invariant(self);
            assert(texts(names@) =~= texts(self.name_seq()));
            assert forall|k: Seq<char>| self@.contains_key(k) <==> texts(names@).contains(k) by {
                assert(self@.dom().contains(k) <==> texts(self.name_seq()).to_set().contains(k));
            }
            assert forall|i: int, j: int| 0 <= i < j < names@.len() implies text_less(
                #[trigger] names@[i]@,
                #[trigger] names@[j]@,
            ) by {
                assert(names@[i]@ == self.entries@[i].0@ && names@[j]@ == self.entries@[j].0@);
            }
        }
        names
    }
}

// =============================================================================
// NotificationTemplate
// =============================================================================

/// Whether `hay` holds `needle` at position `i`.
pub open spec fn occurs_at_spec(hay: Seq<char>, needle: Seq<char>, i: int) -> bool {
    hay.subrange(i, i + needle.len()) == needle
}

/// Whether `needle` occurs in `hay`.
pub open spec fn occurs_in(needle: Seq<char>, hay: Seq<char>) -> bool {
    exists|i: int| 0 <= i && i + needle.len() <= hay.len() && #[trigger] occurs_at_spec(hay, needle, i)
}

/// The placeholder text `{name}`.
pub open spec fn placeholder_of(name: Seq<char>) -> Seq<char> {
    seq!['{'] + name + seq!['}']
}

/// Whether `needle` occurs in `hay` at position `i`.
fn occurs_at(hay: &Vec<char>, needle: &Vec<char>, i: usize) -> (b: bool)
    requires
        i + needle@.len() <= hay@.len(),
    ensures
        b == occurs_at_spec(hay@, needle@, i as int),
{
    let hl = hay.len();
    let mut k: usize = 0;
    while k < needle.len()
        invariant
            k <= needle@.len(),
            hl == hay@.len(),
            i + needle@.len() <= hay@.len(),
            forall|j: int| 0 <= j < k ==> hay@[i + j] == needle@[j],
        decreases needle@.len() - k,
    {
        assert(i + k < hay@.len());
        if hay[i + k] != needle[k] {
            assert(hay@.subrange(i as int, i + needle@.len())[k as int] != needle@[k as int]);
            return false;
        }
        k += 1;
    }
    assert(hay@.subrange(i as int, i + needle@.len()) =~= needle@);
    true
}

/// Whether `needle` occurs anywhere in `hay`.
fn occurs(needle: &Vec<char>, hay: &Vec<char>) -> (b: bool)
    ensures
        b == occurs_in(needle@, hay@),
{
    if needle.len() > hay.len() {
        return false;
    }
    let last = hay.len() - needle.len();
    let mut i: usize = 0;
    loop
        invariant
            i <= last,
            last + needle@.len() == hay@.len(),
            forall|j: int| 0 <= j < i ==> !#[trigger] occurs_at_spec(hay@, needle@, j),
        ensures
            last + needle@.len() == hay@.len(),
            forall|j: int| 0 <= j <= last ==> !#[trigger] occurs_at_spec(hay@, needle@, j),
        decreases last - i,
    {
        if occurs_at(hay, needle, i) {
            return true;
        }
        if i == last {
            break;
        }
        i += 1;
    }
    proof {
        assert forall|j: int| 0 <= j && j + needle@.len() <= hay@.len() implies !#[trigger] occurs_at_spec(hay@, needle@, j) by {
            assert(j <= last);
        }
    }
    false
}

/// A channel-bound notification template with its declared variables.
#[derive(Debug)]
pub struct NotificationTemplate {
    /// The typed id.
    pub id: NotificationTemplateId,
    /// The owning school.
    pub school_id: SchoolId,
    /// The template slug (e.g. `"attendance.absent.parent"`).
    pub name: String,
    /// The channel the template targets; one template per channel.
    pub channel: Channel,
    /// The subject line (email and push only).
    pub subject: String,
    /// The body; placeholders are written `{name}`.
    pub body_template: String,
    /// The declared variables, by name.
    pub variables: VariableMap,
    /// The optimistic-locking version.
    pub version: Version,
    /// The content hash for conditional updates.
    pub etag: Etag,
    /// When the template was created.
    pub created_at: Timestamp,
    /// When the template was last changed.
    pub updated_at: Timestamp,
    /// Who created the template.
    pub created_by: UserId,
    /// Who last changed the template.
    pub updated_by: UserId,
    /// Live or soft-deleted.
    pub active_status: ActiveStatus,
    /// The correlation UUID of the last change, if any.
    pub correlation_id: Option<u128>,
}

impl NotificationTemplate {
    /// The channel the template targets.
    pub fn channel(&self) -> (c: Channel)
        ensures
            c == self.channel,
    {
        self.channel
    }

    /// Whether the body or the subject holds the placeholder
    /// `{var_name}`.
    pub fn references_variable(&self, var_name: &str) -> (b: bool)
        ensures
            b == (occurs_in(placeholder_of(var_name@), self.body_template@) || occurs_in(
                placeholder_of(var_name@),
                self.subject@,
            )),
    {
        let mut needle: Vec<char> = Vec::new();
        needle.push('{');
        let name = char_vec(var_name);
        let mut k: usize = 0;
        while k < name.len()
            invariant
                k <= name@.len(),
                needle@ == seq!['{'] + name@.take(k as int),
            decreases name@.len() - k,
        {
            needle.push(name[k]);
            k += 1;
            assert(needle@ =~= seq!['{'] + name@.take(k as int));
        }
        needle.push('}');
        assert(name@.take(name@.len() as int) =~= name@);
        assert(needle@ =~= placeholder_of(var_name@));
        let body = char_vec(self.body_template.as_str());
        let subject = char_vec(self.subject.as_str());
        occurs(&needle, &body) || occurs(&needle, &subject)
    }

    /// The declared variable names, in sorted order.
    pub fn declared_variables(&self) -> (names: Vec<String>)
        ensures
            names@.len() == self.variables@.dom().len(),
            forall|k: Seq<char>| self.variables@.contains_key(k) <==> texts(names@).contains(k),
            forall|i: int, j: int|
                0 <= i < j < names@.len() ==> text_less(#[trigger] names@[i]@, #[trigger] names@[j]@),
    {
        self.variables.names()
    }

    /// Whether the template is live (not soft-deleted).
    pub fn is_active(&self) -> (b: bool)
        ensures
            b == (self.active_status == ActiveStatus::Active),
    {
        match self.active_status {
            ActiveStatus::Active => true,
            ActiveStatus::Retired => false,
        }
    }
}

} // verus!
