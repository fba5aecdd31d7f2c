//! # Template rendering
//!
//! The placeholder grammar of SMS/email templates and the template
//! service that scans, validates, substitutes and lints bodies.
//!
//! A body is scanned from left to right. At a position holding `{{`,
//! the placeholder runs to the first `}}` after it; its name is the
//! text in between, and scanning resumes after the `}}`. A `{{` with
//! no `}}` after it is plain text, as is every other character. A name
//! is well formed when it is non-empty and holds no brace.
use vstd::prelude::*;
use vstd::string::*;

use crate::errors::DomainError;
use crate::value_objects::{
    char_vec, lemma_utf8_len, lemma_utf8_len_prefix, utf8_len, RenderWarning, RenderedBody,
    TemplateVariable,
};

verus! {

// =============================================================================
// The placeholder grammar
// =============================================================================

/// The position of the first `}}` that starts at or after `from`, or
/// `s.len()` when there is none.
pub open spec fn first_close(s: Seq<char>, from: int) -> int
    decreases s.len() - from,
{
    if from < 0 || from + 1 >= s.len() {
        s.len() as int
    } else if s[from] == '}' && s[from + 1] == '}' {
        from
    } else {
        first_close(s, from + 1)
    }
}

/// What `first_close` finds.
pub proof fn lemma_first_close(s: Seq<char>, from: int)
    requires
        from >= 0,
    ensures
        first_close(s, from) <= s.len(),
        first_close(s, from) < s.len() ==> from <= first_close(s, from) && first_close(s, from)
            + 1 < s.len() && s[first_close(s, from)] == '}' && s[first_close(s, from) + 1] == '}',
        forall|j: int| from <= j < first_close(s, from) && j + 1 < s.len() ==> !(#[trigger] s[j] == '}' && s[j + 1] == '}'),
    decreases s.len() - from,
{
    if from + 1 < s.len() && !(s[from] == '}' && s[from + 1] == '}') {
        lemma_first_close(s, from + 1);
    }
}

/// A placeholder name is non-empty and holds no brace.
pub open spec fn name_ok(name: Seq<char>) -> bool {
    &&& name.len() > 0
    &&& forall|i: int| 0 <= i < name.len() ==> name[i] != '{' && name[i] != '}'
}

/// Whether a placeholder opens at position `i`: `{{` followed, later,
/// by a `}}`.
pub open spec fn opens_placeholder(s: Seq<char>, i: int) -> bool {
    &&& 0 <= i
    &&& i + 1 < s.len()
    &&& s[i] == '{'
    &&& s[i + 1] == '{'
    &&& first_close(s, i + 2) < s.len()
}

/// The raw names of the placeholders met when scanning `s` from `i`,
/// in source order (well formed or not, repeats included).
pub open spec fn placeholder_names(s: Seq<char>, i: int) -> Seq<Seq<char>>
    decreases s.len() - i,
{
    if i < 0 || i + 1 >= s.len() {
        Seq::empty()
    } else if opens_placeholder(s, i) {
        proof {
            lemma_first_close(s, i + 2);
        }
        seq![s.subrange(i + 2, first_close(s, i + 2))] + placeholder_names(
            s,
            first_close(s, i + 2) + 2,
        )
    } else {
        placeholder_names(s, i + 1)
    }
}

/// The well-formed names of `xs`, deduplicated, in order of first
/// appearance.
pub open spec fn declared_of(xs: Seq<Seq<char>>) -> Seq<Seq<char>>
    decreases xs.len(),
{
    if xs.len() == 0 {
        Seq::empty()
    } else {
        let prev = declared_of(xs.drop_last());
        if name_ok(xs.last()) && !prev.contains(xs.last()) {
            prev.push(xs.last())
        } else {
            prev
        }
    }
}

/// The variables a body declares: its well-formed placeholder names,
/// in source order, each once.
pub open spec fn declared_names(s: Seq<char>) -> Seq<Seq<char>> {
    declared_of(placeholder_names(s, 0))
}

/// The text of `s` from `i` with every placeholder replaced by the
/// value its name maps to; `None` when a placeholder is malformed or
/// names a missing variable.
pub open spec fn substituted(s: Seq<char>, vars: Map<Seq<char>, Seq<char>>, i: int) -> Option<
    Seq<char>,
>
    decreases s.len() - i,
{
    if i < 0 || i >= s.len() {
        Some(Seq::empty())
    } else if opens_placeholder(s, i) {
        proof {
            lemma_first_close(s, i + 2);
        }
        let name = s.subrange(i + 2, first_close(s, i + 2));
        if !name_ok(name) || !vars.contains_key(name) {
            None
        } else {
            match substituted(s, vars, first_close(s, i + 2) + 2) {
                Some(rest) => Some(vars[name] + rest),
                None => None,
            }
        }
    } else {
        match substituted(s, vars, i + 1) {
            Some(rest) => Some(seq![s[i]] + rest),
            None => None,
        }
    }
}

/// The number of non-overlapping `cc` pairs met scanning `s` from `i`
/// left to right (what `str::matches` counts for a two-char pattern).
pub open spec fn pair_count(s: Seq<char>, c: char, i: int) -> nat
    decreases s.len() - i,
{
    if i < 0 || i + 1 >= s.len() {
        0
    } else if s[i] == c && s[i + 1] == c {
        1 + pair_count(s, c, i + 2)
    } else {
        pair_count(s, c, i + 1)
    }
}

// =============================================================================
// Laws of the grammar
// =============================================================================

/// Every name of `names` is well formed and has a value in `vars`.
pub open spec fn all_resolvable(names: Seq<Seq<char>>, vars: Map<Seq<char>, Seq<char>>) -> bool {
    forall|k: int|
        0 <= k < names.len() ==> name_ok(#[trigger] names[k]) && vars.contains_key(names[k])
}

proof fn lemma_all_resolvable_cons(
    x: Seq<char>,
    rest: Seq<Seq<char>>,
    vars: Map<Seq<char>, Seq<char>>,
)
    ensures
        all_resolvable(seq![x] + rest, vars) <==> (name_ok(x) && vars.contains_key(x)
            && all_resolvable(rest, vars)),
{
    let all = seq![x] + rest;
    assert(all[0] == x);
    assert forall|k: int| 0 <= k < rest.len() implies all[k + 1] == rest[k] by {}
    if all_resolvable(all, vars) {
        assert forall|k: int| 0 <= k < rest.len() implies name_ok(#[trigger] rest[k])
            && vars.contains_key(rest[k]) by {
            assert(all[k + 1] == rest[k]);
        }
    }
    if name_ok(x) && vars.contains_key(x) && all_resolvable(rest, vars) {
        assert forall|k: int| 0 <= k < all.len() implies name_ok(#[trigger] all[k])
            && vars.contains_key(all[k]) by {
            if k > 0 {
                assert(all[k] == rest[k - 1]);
            }
        }
    }
}

/// Substitution succeeds exactly when every placeholder met from `i`
/// is well formed and names a variable of the map.
pub proof fn lemma_substituted_some_iff(s: Seq<char>, vars: Map<Seq<char>, Seq<char>>, i: int)
    requires
        i >= 0,
    ensures
        substituted(s, vars, i) is Some <==> all_resolvable(placeholder_names(s, i), vars),
    decreases s.len() - i,
{
    if i >= s.len() {
    } else if i + 1 >= s.len() {
        assert(!opens_placeholder(s, i));
        lemma_substituted_some_iff(s, vars, i + 1);
    } else if opens_placeholder(s, i) {
        lemma_first_close(s, i + 2);
        let e = first_close(s, i + 2);
        let name = s.subrange(i + 2, e);
        lemma_substituted_some_iff(s, vars, e + 2);
        lemma_all_resolvable_cons(name, placeholder_names(s, e + 2), vars);
    } else {
        lemma_substituted_some_iff(s, vars, i + 1);
    }
}

/// A body without placeholders renders to itself, whatever the map.
pub proof fn lemma_no_placeholder_renders_verbatim(s: Seq<char>, vars: Map<Seq<char>, Seq<char>>, i: int)
    requires
        0 <= i <= s.len(),
        placeholder_names(s, i).len() == 0,
    ensures
        substituted(s, vars, i) == Some(s.subrange(i, s.len() as int)),
    decreases s.len() - i,
{
    if i >= s.len() {
        assert(s.subrange(i, s.len() as int) =~= Seq::<char>::empty());
    } else if i + 1 >= s.len() {
        assert(!opens_placeholder(s, i));
        lemma_no_placeholder_renders_verbatim(s, vars, i + 1);
        assert(seq![s[i]] + s.subrange(i + 1, s.len() as int) =~= s.subrange(i, s.len() as int));
    } else {
        if opens_placeholder(s, i) {
            lemma_first_close(s, i + 2);
            assert(placeholder_names(s, i).len() > 0);
        }
        lemma_no_placeholder_renders_verbatim(s, vars, i + 1);
        assert(seq![s[i]] + s.subrange(i + 1, s.len() as int) =~= s.subrange(i, s.len() as int));
    }
}

/// The first `}}` from `from` is at `k` when `s[k..k+2]` is `}}` and no
/// `}` stands in between.
proof fn lemma_first_close_at(s: Seq<char>, from: int, k: int)
    requires
        0 <= from <= k,
        k + 1 < s.len(),
        s[k] == '}',
        s[k + 1] == '}',
        forall|j: int| from <= j < k ==> s[j] != '}',
    ensures
        first_close(s, from) == k,
    decreases k - from,
{
    if from < k {
        lemma_first_close_at(s, from + 1, k);
    }
}

/// `first_close` in a text and in a suffix of it agree, up to the shift.
proof fn lemma_first_close_shift(s: Seq<char>, q: Seq<char>, k: int, from: int)
    requires
        0 <= k <= from,
        k + q.len() == s.len(),
        forall|j: int| 0 <= j < q.len() ==> s[k + j] == q[j],
    ensures
        first_close(s, from) == first_close(q, from - k) + k,
    decreases s.len() - from,
{
    if from + 1 < s.len() {
        assert(s[from] == q[from - k] && s[from + 1] == q[from - k + 1]);
        lemma_first_close_shift(s, q, k, from + 1);
    }
}

/// Substituting from position `i >= k` of a text is substituting from
/// `i - k` of its suffix `q` that starts at `k`.
proof fn lemma_substituted_shift(
    s: Seq<char>,
    q: Seq<char>,
    vars: Map<Seq<char>, Seq<char>>,
    k: int,
    i: int,
)
    requires
        0 <= k <= i,
        k + q.len() == s.len(),
        forall|j: int| 0 <= j < q.len() ==> s[k + j] == q[j],
    ensures
        substituted(s, vars, i) == substituted(q, vars, i - k),
    decreases s.len() - i,
{
    if i < s.len() {
        assert(s[i] == q[i - k]);
        if i + 1 < s.len() {
            assert(s[i + 1] == q[i - k + 1]);
            lemma_first_close_shift(s, q, k, i + 2);
        }
        if opens_placeholder(s, i) {
            lemma_first_close(s, i + 2);
            let e = first_close(s, i + 2);
            assert(s.subrange(i + 2, e) =~= q.subrange(i - k + 2, e - k));
            lemma_substituted_shift(s, q, vars, k, e + 2);
        } else {
            lemma_substituted_shift(s, q, vars, k, i + 1);
        }
    }
}

/// A run of text without `{` is copied as it stands.
proof fn lemma_substituted_plain_run(s: Seq<char>, vars: Map<Seq<char>, Seq<char>>, i: int, m: int)
    requires
        0 <= i <= m <= s.len(),
        forall|j: int| i <= j < m ==> s[j] != '{',
    ensures
        substituted(s, vars, i) == match substituted(s, vars, m) {
            Some(r) => Some(s.subrange(i, m) + r),
            None => None,
        },
    decreases m - i,
{
    if i == m {
        match substituted(s, vars, m) {
            Some(r) => {
                assert(s.subrange(i, m) + r =~= r);
            },
            None => {},
        }
    } else {
        assert(!opens_placeholder(s, i));
        lemma_substituted_plain_run(s, vars, i + 1, m);
        match substituted(s, vars, m) {
            Some(r) => {
                assert(seq![s[i]] + (s.subrange(i + 1, m) + r) =~= s.subrange(i, m) + r);
            },
            None => {},
        }
    }
}

/// A placeholder is replaced by its value wherever it stands, at the
/// very end of the body too: plain text `p` (no `{`), then `{{n}}` for
/// a well-formed name `n` of the map, then any text `q`, substitutes to
/// `p`, the value of `n`, and what `q` substitutes to; it fails exactly
/// when `q` fails.
pub proof fn lemma_placeholder_replaced_by_its_value(
    p: Seq<char>,
    n: Seq<char>,
    q: Seq<char>,
    vars: Map<Seq<char>, Seq<char>>,
)
    requires
        !p.contains('{'),
        name_ok(n),
        vars.contains_key(n),
    ensures
        substituted(p + seq!['{', '{'] + n + seq!['}', '}'] + q, vars, 0) == match substituted(q, vars, 0) {
            Some(r) => Some(p + vars[n] + r),
            None => None,
        },
{
    let s = p + seq!['{', '{'] + n + seq!['}', '}'] + q;
    let m = p.len() as int;
    let e = m + 2 + n.len();
    let k = e + 2;
    assert forall|j: int| 0 <= j < m implies s[j] != '{' by {
        assert(s[j] == p[j]);
        if s[j] == '{' {
            assert(p.contains('{'));
        }
    }
    lemma_substituted_plain_run(s, vars, 0, m);
    assert(s.subrange(0, m) =~= p);
    assert(s[m] == '{' && s[m + 1] == '{');
    assert(s[e] == '}' && s[e + 1] == '}');
    assert forall|j: int| m + 2 <= j < e implies s[j] != '}' by {
        assert(s[j] == n[j - m - 2]);
    }
    lemma_first_close_at(s, m + 2, e);
    assert(opens_placeholder(s, m));
    assert(s.subrange(m + 2, e) =~= n);
    assert forall|j: int| 0 <= j < q.len() implies s[k + j] == q[j] by {}
    lemma_substituted_shift(s, q, vars, k, k);
    match substituted(q, vars, 0) {
        Some(r) => {
            assert(p + (vars[n] + r) =~= p + vars[n] + r);
        },
        None => {},
    }
}

/// What `declared_of` keeps: exactly the well-formed names of `xs`.
pub proof fn lemma_declared_members(xs: Seq<Seq<char>>, x: Seq<char>)
    ensures
        declared_of(xs).contains(x) <==> (xs.contains(x) && name_ok(x)),
    decreases xs.len(),
{
    if xs.len() > 0 {
        let init = xs.drop_last();
        lemma_declared_members(init, x);
        assert(xs =~= init.push(xs.last()));
        if xs.contains(x) && x != xs.last() {
            let k = choose|k: int| 0 <= k < xs.len() && xs[k] == x;
            assert(init[k] == x);
        }
        if init.contains(x) {
            let k = choose|k: int| 0 <= k < init.len() && init[k] == x;
            assert(xs[k] == x);
        }
        let prev = declared_of(init);
        if name_ok(xs.last()) && !prev.contains(xs.last()) {
            assert(prev.push(xs.last())[prev.len() as int] == xs.last());
            if prev.push(xs.last()).contains(x) && x != xs.last() {
                let k = choose|k: int| 0 <= k < prev.len() + 1 && prev.push(xs.last())[k] == x;
                assert(prev[k] == x);
            }
            if prev.contains(x) {
                let k = choose|k: int| 0 <= k < prev.len() && prev[k] == x;
                assert(prev.push(xs.last())[k] == x);
            }
        }
    }
}

/// `declared_of` never lists a name twice.
pub proof fn lemma_declared_unique(xs: Seq<Seq<char>>)
    ensures
        declared_of(xs).no_duplicates(),
    decreases xs.len(),
{
    if xs.len() > 0 {
        lemma_declared_unique(xs.drop_last());
        let prev = declared_of(xs.drop_last());
        if name_ok(xs.last()) && !prev.contains(xs.last()) {
            let p = prev.push(xs.last());
            assert forall|a: int, b: int| 0 <= a < p.len() && 0 <= b < p.len() && a != b implies p[a] != p[b] by {
                if a < prev.len() && b < prev.len() {
                    assert(p[a] == prev[a] && p[b] == prev[b]);
                } else if a < prev.len() {
                    assert(p[a] == prev[a]);
                } else if b < prev.len() {
                    assert(p[b] == prev[b]);
                }
            }
        }
    }
}

/// The declared variables of a body are its well-formed placeholder
/// names, each listed once.
pub proof fn lemma_declared_names(s: Seq<char>, x: Seq<char>)
    ensures
        declared_names(s).contains(x) <==> (placeholder_names(s, 0).contains(x) && name_ok(x)),
        declared_names(s).no_duplicates(),
{
    lemma_declared_members(placeholder_names(s, 0), x);
    lemma_declared_unique(placeholder_names(s, 0));
}

/// With no values at all, a body renders exactly when it has no
/// placeholder.
pub proof fn lemma_empty_map_renders_iff_no_placeholder(s: Seq<char>)
    ensures
        substituted(s, Map::empty(), 0) is Some <==> placeholder_names(s, 0).len() == 0,
{
    lemma_substituted_some_iff(s, Map::empty(), 0);
    let names = placeholder_names(s, 0);
    if names.len() > 0 {
        assert(!Map::<Seq<char>, Seq<char>>::empty().contains_key(names[0]));
    }
}

/// A body without an opening brace has no placeholder.
pub proof fn lemma_braceless_has_no_placeholder(s: Seq<char>, i: int)
    requires
        i >= 0,
        forall|j: int| 0 <= j < s.len() ==> s[j] != '{',
    ensures
        placeholder_names(s, i).len() == 0,
    decreases s.len() - i,
{
    if i + 1 < s.len() {
        assert(!opens_placeholder(s, i));
        lemma_braceless_has_no_placeholder(s, i + 1);
    }
}

/// A body whose placeholders are all well formed renders with any map
/// that gives a value to each of its declared variables.
pub proof fn lemma_declared_values_suffice(s: Seq<char>, vars: Map<Seq<char>, Seq<char>>)
    requires
        forall|k: int| 0 <= k < placeholder_names(s, 0).len() ==> name_ok(#[trigger] placeholder_names(s, 0)[k]),
        forall|k: int| 0 <= k < declared_names(s).len() ==> vars.contains_key(#[trigger] declared_names(s)[k]),
    ensures
        substituted(s, vars, 0) is Some,
{
    let names = placeholder_names(s, 0);
    assert forall|k: int| 0 <= k < names.len() implies name_ok(#[trigger] names[k]) && vars.contains_key(names[k]) by {
        let x = names[k];
        lemma_declared_names(s, x);
        assert(names.contains(x));
        let d = choose|d: int| 0 <= d < declared_names(s).len() && declared_names(s)[d] == x;
        assert(vars.contains_key(declared_names(s)[d]));
    }
    lemma_substituted_some_iff(s, vars, 0);
}

// =============================================================================
// Substitution maps
// =============================================================================

/// The map a list of `(name, value)` entries denotes; a later entry
/// for a name overrides an earlier one.
pub open spec fn entries_map(entries: Seq<(String, String)>) -> Map<Seq<char>, Seq<char>>
    decreases entries.len(),
{
    if entries.len() == 0 {
        Map::empty()
    } else {
        entries_map(entries.drop_last()).insert(entries.last().0@, entries.last().1@)
    }
}

/// No two entries share a name.
pub open spec fn keys_unique(entries: Seq<(String, String)>) -> bool {
    forall|a: int, b: int|
        0 <= a < entries.len() && 0 <= b < entries.len() && a != b ==> entries[a].0@
            != entries[b].0@
}

/// With unique names, the map holds a name exactly when an entry has
/// it, with that entry's value.
proof fn lemma_entries_map(entries: Seq<(String, String)>, k: Seq<char>)
    requires
        keys_unique(entries),
    ensures
        entries_map(entries).contains_key(k) <==> exists|i: int|
            0 <= i < entries.len() && entries[i].0@ == k,
        forall|i: int|
            0 <= i < entries.len() && entries[i].0@ == k ==> entries_map(entries)[k]
                == entries[i].1@,
    decreases entries.len(),
{
    if entries.len() > 0 {
        let init = entries.drop_last();
        assert(keys_unique(init)) by {
            assert forall|a: int, b: int| 0 <= a < init.len() && 0 <= b < init.len() && a != b implies init[a].0@ != init[b].0@ by {
                assert(init[a] == entries[a] && init[b] == entries[b]);
            }
        }
        lemma_entries_map(init, k);
        if exists|i: int| 0 <= i < entries.len() && entries[i].0@ == k {
            let i = choose|i: int| 0 <= i < entries.len() && entries[i].0@ == k;
            if i < entries.len() - 1 {
                assert(init[i] == entries[i]);
            }
        }
        if exists|i: int| 0 <= i < init.len() && init[i].0@ == k {
            let i = choose|i: int| 0 <= i < init.len() && init[i].0@ == k;
            assert(entries[i] == init[i]);
        }
        assert forall|i: int| 0 <= i < entries.len() && entries[i].0@ == k implies entries_map(entries)[k] == entries[i].1@ by {
            if i < entries.len() - 1 {
                assert(init[i] == entries[i]);
                assert(entries[i].0@ != entries[entries.len() - 1].0@);
            }
        }
    }
}

/// A map from text keys to text values (the engine's ordered string
/// map): the variable values handed to the renderer, the data of a
/// notification.
#[derive(Debug)]
pub struct TextMap {
    entries: Vec<(String, String)>,
}

impl View for TextMap {
    type V = Map<Seq<char>, Seq<char>>;

    closed spec fn view(&self) -> Map<Seq<char>, Seq<char>> {
        entries_map(self.entries@)
    }
}

impl TextMap {
    #[verifier::type_invariant]
    spec fn well_formed(self) -> bool {
        keys_unique(self.entries@)
    }

    /// An empty map.
    pub fn new() -> (m: Self)
        ensures
            m@ == Map::<Seq<char>, Seq<char>>::empty(),
    {
        TextMap { entries: Vec::new() }
    }

    /// The number of names in the map.
    pub fn len(&self) -> (n: usize)
        ensures
            n == self@.dom().len(),
    {
        proof {
            use_type_invariant(self);
            self.lemma_dom_len();
        }
        self.entries.len()
    }

    proof fn lemma_dom_len(&self)
        requires
            keys_unique(self.entries@),
        ensures
            self@.dom().len() == self.entries@.len(),
            self@.dom().finite(),
    {
        lemma_entries_dom(self.entries@);
    }

    /// Whether the map holds a value for `name`.
    pub fn contains_key(&self, name: &str) -> (b: bool)
        ensures
            b == self@.contains_key(name@),
    {
        match self.index_of(name) {
            Some(_) => true,
            None => false,
        }
    }

    fn index_of(&self, name: &str) -> (r: Option<usize>)
        ensures
            r matches Some(i) ==> i < self.entries@.len() && self.entries@[i as int].0@ == name@
                && entries_map(self.entries@).contains_key(name@) && entries_map(
                self.entries@,
            )[name@] == self.entries@[i as int].1@,
            r is None ==> !entries_map(self.entries@).contains_key(name@),
    {
        proof {
            use_type_invariant(self);
            lemma_entries_map(self.entries@, name@);
        }
        let key = name.to_owned();
        let mut i: usize = 0;
        while i < self.entries.len()
            invariant
                i <= self.entries@.len(),
                key@ == name@,
                forall|j: int| 0 <= j < i ==> self.entries@[j].0@ != name@,
            decreases self.entries@.len() - i,
        {
            if self.entries[i].0 == key {
                proof {
                    use_type_invariant(self);
                    lemma_entries_map(self.entries@, name@);
                }
                return Some(i);
            }
            i += 1;
        }
        None
    }

    /// The value held for `name`, if any.
    pub fn get(&self, name: &str) -> (r: Option<&String>)
        ensures
            r matches Some(v) ==> self@.contains_key(name@) && v@ == self@[name@],
            r is None ==> !self@.contains_key(name@),
    {
        match self.index_of(name) {
            Some(i) => Some(&self.entries[i].1),
            None => None,
        }
    }

    /// Sets the value of `name`, replacing any previous value.
    pub fn insert(&mut self, name: String, value: String)
        ensures
            final(self)@ == old(self)@.insert(name@, value@),
    {
        proof {
            use_type_invariant(&*self);
        }
        match self.index_of(name.as_str()) {
            Some(i) => {
                let ghost old_entries = self.entries@;
                let mut entries: Vec<(String, String)> = Vec::new();
                std::mem::swap(&mut entries, &mut self.entries);
                proof {
                    lemma_entries_map(old_entries, name@);
                }
                entries.set(i, (name, value));
                proof {
                    assert(keys_unique(entries@)) by {
                        assert forall|a: int, b: int| 0 <= a < entries@.len() && 0 <= b < entries@.len() && a != b implies entries@[a].0@ != entries@[b].0@ by {
                            assert(old_entries[a].0@ != old_entries[b].0@);
                        }
                    }
                    assert forall|k: Seq<char>| #![auto] entries_map(entries@).contains_key(k)
                        == entries_map(old_entries).insert(name@, value@).contains_key(k) by {
                        lemma_entries_map(entries@, k);
                        lemma_entries_map(old_entries, k);
                        if k == name@ {
                            assert(entries@[i as int].0@ == k);
                        } else {
                            if exists|j: int| 0 <= j < old_entries.len() && old_entries[j].0@ == k {
                                let j = choose|j: int| 0 <= j < old_entries.len() && old_entries[j].0@ == k;
                                assert(entries@[j] == old_entries[j]);
                            }
                            if exists|j: int| 0 <= j < entries@.len() && entries@[j].0@ == k {
                                let j = choose|j: int| 0 <= j < entries@.len() && entries@[j].0@ == k;
                                assert(j != i);
                                assert(old_entries[j] == entries@[j]);
                            }
                        }
                    }
                    assert forall|k: Seq<char>| #![auto] entries_map(entries@).contains_key(k)
                        implies entries_map(entries@)[k] == entries_map(old_entries).insert(name@, value@)[k] by {
                        lemma_entries_map(entries@, k);
                        lemma_entries_map(old_entries, k);
                        let j = choose|j: int| 0 <= j < entries@.len() && entries@[j].0@ == k;
                        if j != i {
                            assert(old_entries[j] == entries@[j]);
                        }
                    }
                    assert(entries_map(entries@) =~= entries_map(old_entries).insert(name@, value@));
                }
                self.entries = entries;
            },
            None => {
                let ghost old_entries = self.entries@;
                let mut entries: Vec<(String, String)> = Vec::new();
                std::mem::swap(&mut entries, &mut self.entries);
                entries.push((name, value));
                proof {
                    assert(entries@.drop_last() =~= old_entries);
                    assert(keys_unique(entries@)) by {
                        lemma_entries_map(old_entries, entries@.last().0@);
                        assert forall|a: int, b: int| 0 <= a < entries@.len() && 0 <= b < entries@.len() && a != b implies entries@[a].0@ != entries@[b].0@ by {
                            if a < old_entries.len() && b < old_entries.len() {
                                assert(entries@[a] == old_entries[a] && entries@[b] == old_entries[b]);
                            } else if a < old_entries.len() {
                                assert(entries@[a] == old_entries[a]);
                            } else {
                                assert(entries@[b] == old_entries[b]);
                            }
                        }
                    }
                }
                self.entries = entries;
            },
        }
    }
}

/// With unique names, the domain holds one name per entry.
proof fn lemma_entries_dom(entries: Seq<(String, String)>)
    requires
        keys_unique(entries),
    ensures
        entries_map(entries).dom().finite(),
        entries_map(entries).dom().len() == entries.len(),
    decreases entries.len(),
{
    if entries.len() > 0 {
        let init = entries.drop_last();
        assert(keys_unique(init)) by {
            assert forall|a: int, b: int| 0 <= a < init.len() && 0 <= b < init.len() && a != b implies init[a].0@ != init[b].0@ by {
                assert(init[a] == entries[a] && init[b] == entries[b]);
            }
        }
        lemma_entries_dom(init);
        lemma_entries_map(init, entries.last().0@);
        if exists|i: int| 0 <= i < init.len() && init[i].0@ == entries.last().0@ {
            let i = choose|i: int| 0 <= i < init.len() && init[i].0@ == entries.last().0@;
            assert(entries[i] == init[i]);
        }
    }
}

// =============================================================================
// Scanning helpers
// =============================================================================

/// The view of each string of a list.
pub open spec fn texts(v: Seq<String>) -> Seq<Seq<char>> {
    v.map_values(|x: String| x@)
}

/// `prefix` put in front of a successful substitution.
pub open spec fn prepend(prefix: Seq<char>, o: Option<Seq<char>>) -> Option<Seq<char>> {
    match o {
        Some(r) => Some(prefix + r),
        None => None,
    }
}

/// Finds the first `}}` at or after `from`.
fn find_close(c: &Vec<char>, from: usize) -> (e: usize)
    requires
        from <= c@.len(),
    ensures
        e == first_close(c@, from as int),
        e <= c@.len(),
{
    proof {
        lemma_first_close(c@, from as int);
    }
    let mut j = from;
    while j < c.len() && j + 1 < c.len()
        invariant
            from <= j <= c@.len(),
            first_close(c@, from as int) == first_close(c@, j as int),
        decreases c@.len() - j,
    {
        if c[j] == '}' && c[j + 1] == '}' {
            return j;
        }
        j += 1;
    }
    c.len()
}

/// Whether `c[from..to]` is a well-formed placeholder name.
fn name_ok_at(c: &Vec<char>, from: usize, to: usize) -> (b: bool)
    requires
        from <= to <= c@.len(),
    ensures
        b == name_ok(c@.subrange(from as int, to as int)),
{
    if from == to {
        return false;
    }
    let mut j = from;
    while j < to
        invariant
            from <= j <= to <= c@.len(),
            forall|k: int| from <= k < j ==> c@[k] != '{' && c@[k] != '}',
        decreases to - j,
    {
        if c[j] == '{' || c[j] == '}' {
            assert(c@.subrange(from as int, to as int)[j - from] == c@[j as int]);
            return false;
        }
        j += 1;
    }
    let ghost name = c@.subrange(from as int, to as int);
    assert forall|k: int| 0 <= k < name.len() implies name[k] != '{' && name[k] != '}' by {
        assert(name[k] == c@[from + k]);
    }
    true
}

/// Whether `t` is one of the strings of `v`.
fn contains_text(v: &Vec<String>, t: &String) -> (b: bool)
    ensures
        b == texts(v@).contains(t@),
{
    let mut k: usize = 0;
    while k < v.len()
        invariant
            k <= v@.len(),
            forall|j: int| 0 <= j < k ==> v@[j]@ != t@,
        decreases v@.len() - k,
    {
        if v[k] == *t {
            assert(texts(v@)[k as int] == t@);
            return true;
        }
        k += 1;
    }
    proof {
        if texts(v@).contains(t@) {
            let j = choose|j: int| 0 <= j < texts(v@).len() && texts(v@)[j] == t@;
            assert(v@[j]@ == t@);
        }
    }
    false
}

/// The number of non-overlapping `cc` pairs of `c`.
fn count_pairs(s: &Vec<char>, c: char) -> (count: usize)
    ensures
        count == pair_count(s@, c, 0),
{
    let mut count: usize = 0;
    let mut i: usize = 0;
    while i < s.len() && i + 1 < s.len()
        invariant
            i <= s@.len(),
            count <= i,
            pair_count(s@, c, 0) == count + pair_count(s@, c, i as int),
        decreases s@.len() - i,
    {
        if s[i] == c && s[i + 1] == c {
            count += 1;
            i += 2;
        } else {
            i += 1;
        }
    }
    count
}

// =============================================================================
// TemplateService
// =============================================================================

/// The kinds of advisory warning `lint` reports for a body.
pub open spec fn lint_mismatched(s: Seq<char>) -> bool {
    pair_count(s, '{', 0) != pair_count(s, '}', 0)
}

/// Where the first unmatched `{{` or `}}` of `s` starts, scanning from
/// `i` left to right with `depth` unclosed `{{` pending, the oldest of
/// which (the one opened on an empty stack) starts at `bottom`. A `}}`
/// with nothing to close is the answer; otherwise, at the end, the
/// oldest unclosed `{{`; `s.len()` when every pair is matched. The
/// pairs are found as `str::matches` finds them: left to right, without
/// overlap.
pub open spec fn unmatched_from(s: Seq<char>, i: int, depth: nat, bottom: int) -> int
    decreases s.len() - i,
{
    if i < 0 || i + 1 >= s.len() {
        if depth > 0 {
            bottom
        } else {
            s.len() as int
        }
    } else if s[i] == '{' && s[i + 1] == '{' {
        unmatched_from(s, i + 2, depth + 1, if depth == 0 { i } else { bottom })
    } else if s[i] == '}' && s[i + 1] == '}' {
        if depth == 0 {
            i
        } else {
            unmatched_from(s, i + 2, (depth - 1) as nat, bottom)
        }
    } else {
        unmatched_from(s, i + 1, depth, bottom)
    }
}

/// The char position of the first unmatched `{{` or `}}` of `s`
/// (`s.len()` when there is none).
pub open spec fn first_unmatched(s: Seq<char>) -> int {
    unmatched_from(s, 0, 0, 0)
}

/// The byte offset (in UTF-8) of char position `p` of `s`.
pub open spec fn byte_offset(s: Seq<char>, p: int) -> nat {
    utf8_len(s.take(p))
}

/// When the scan finds no unmatched pair, the `{{` and `}}` counts
/// (from `i`, plus the pending ones) agree.
proof fn lemma_unmatched_counts(s: Seq<char>, i: int, depth: nat, bottom: int)
    requires
        0 <= i <= s.len(),
        depth > 0 ==> 0 <= bottom < i,
    ensures
        unmatched_from(s, i, depth, bottom) <= s.len(),
        unmatched_from(s, i, depth, bottom) == s.len() ==> pair_count(s, '{', i) + depth
            == pair_count(s, '}', i),
    decreases s.len() - i,
{
    if i + 1 >= s.len() {
    } else if s[i] == '{' && s[i + 1] == '{' {
        lemma_unmatched_counts(s, i + 2, depth + 1, if depth == 0 { i } else { bottom });
        assert(pair_count(s, '}', i) == pair_count(s, '}', i + 1));
        assert(pair_count(s, '}', i + 1) == pair_count(s, '}', i + 2));
    } else if s[i] == '}' && s[i + 1] == '}' {
        if depth > 0 {
            lemma_unmatched_counts(s, i + 2, (depth - 1) as nat, bottom);
            assert(pair_count(s, '{', i) == pair_count(s, '{', i + 1));
            assert(pair_count(s, '{', i + 1) == pair_count(s, '{', i + 2));
        }
    } else {
        lemma_unmatched_counts(s, i + 1, depth, bottom);
    }
}

/// A body whose `{{` and `}}` counts differ has an unmatched pair, and
/// the reported position is where that `{{` or `}}` starts.
pub proof fn lemma_mismatch_has_position(s: Seq<char>)
    requires
        lint_mismatched(s),
    ensures
        0 <= first_unmatched(s) < s.len(),
        first_unmatched(s) + 1 < s.len(),
        (s[first_unmatched(s)] == '{' && s[first_unmatched(s) + 1] == '{') || (s[first_unmatched(s)] == '}'
            && s[first_unmatched(s) + 1] == '}'),
{
    lemma_unmatched_counts(s, 0, 0, 0);
    lemma_unmatched_nonneg(s, 0, 0, 0);
    lemma_unmatched_at_pair(s, 0, 0, 0);
}

/// A position the scan answers (short of the end) starts a `{{` or a
/// `}}`.
proof fn lemma_unmatched_at_pair(s: Seq<char>, i: int, depth: nat, bottom: int)
    requires
        0 <= i,
        depth > 0 ==> 0 <= bottom && bottom + 1 < s.len() && s[bottom] == '{' && s[bottom + 1] == '{',
    ensures
        unmatched_from(s, i, depth, bottom) < s.len() ==> unmatched_from(s, i, depth, bottom) + 1 < s.len()
            && ((s[unmatched_from(s, i, depth, bottom)] == '{' && s[unmatched_from(s, i, depth, bottom) + 1]
            == '{') || (s[unmatched_from(s, i, depth, bottom)] == '}' && s[unmatched_from(s, i, depth, bottom)
            + 1] == '}')),
    decreases s.len() - i,
{
    if i + 1 >= s.len() {
    } else if s[i] == '{' && s[i + 1] == '{' {
        lemma_unmatched_at_pair(s, i + 2, depth + 1, if depth == 0 { i } else { bottom });
    } else if s[i] == '}' && s[i + 1] == '}' {
        if depth > 0 {
            lemma_unmatched_at_pair(s, i + 2, (depth - 1) as nat, bottom);
        }
    } else {
        lemma_unmatched_at_pair(s, i + 1, depth, bottom);
    }
}

/// The scan never answers a negative position.
proof fn lemma_unmatched_nonneg(s: Seq<char>, i: int, depth: nat, bottom: int)
    requires
        0 <= i,
        depth > 0 ==> 0 <= bottom,
    ensures
        unmatched_from(s, i, depth, bottom) >= 0,
    decreases s.len() - i,
{
    if i + 1 >= s.len() {
    } else if s[i] == '{' && s[i + 1] == '{' {
        lemma_unmatched_nonneg(s, i + 2, depth + 1, if depth == 0 { i } else { bottom });
    } else if s[i] == '}' && s[i + 1] == '}' {
        if depth > 0 {
            lemma_unmatched_nonneg(s, i + 2, (depth - 1) as nat, bottom);
        }
    } else {
        lemma_unmatched_nonneg(s, i + 1, depth, bottom);
    }
}

/// The char position of the first unmatched `{{` or `}}`.
fn find_unmatched(c: &Vec<char>) -> (p: usize)
    ensures
        p == first_unmatched(c@),
{
    let n = c.len();
    let mut i: usize = 0;
    let mut depth: usize = 0;
    let mut bottom: usize = 0;
    while i < n && i + 1 < n
        invariant
            i <= n,
            n == c@.len(),
            depth <= i,
            depth > 0 ==> bottom < i,
            first_unmatched(c@) == unmatched_from(c@, i as int, depth as nat, bottom as int),
        decreases n - i,
    {
        if c[i] == '{' && c[i + 1] == '{' {
            if depth == 0 {
                bottom = i;
            }
            depth = depth + 1;
            i = i + 2;
        } else if c[i] == '}' && c[i + 1] == '}' {
            if depth == 0 {
                return i;
            }
            depth = depth - 1;
            i = i + 2;
        } else {
            i = i + 1;
        }
    }
    if depth > 0 {
        bottom
    } else {
        n
    }
}

/// The UTF-8 byte offset of char position `p` of `body`.
fn byte_position(body: &str, c: &Vec<char>, p: usize) -> (b: usize)
    requires
        c@ == body@,
        p <= c@.len(),
    ensures
        b == byte_offset(body@, p as int),
{
    let total_bytes = body.as_bytes().len();
    proof {
        lemma_utf8_len(body@);
    }
    let mut total: usize = 0;
    let mut k: usize = 0;
    while k < p
        invariant
            k <= p <= c@.len(),
            c@ == body@,
            utf8_len(c@) == total_bytes,
            total == utf8_len(c@.take(k as int)),
        decreases p - k,
    {
        let u = c[k] as u32;
        let w: usize = if u <= 0x7F {
            1
        } else if u <= 0x7FF {
            2
        } else if u <= 0xFFFF {
            3
        } else {
            4
        };
        proof {
            assert(c@.take(k + 1).drop_last() =~= c@.take(k as int));
            lemma_utf8_len_prefix(c@, k + 1);
        }
        total = total + w;
        k += 1;
    }
    total
}

/// Whether a body holds both a `<` and a `>`.
pub open spec fn lint_html(s: Seq<char>) -> bool {
    s.contains('<') && s.contains('>')
}

/// `lint` flags HTML when, and only when, the body holds a `<` and
/// also a `>`: a body with only one of the two (say `"75% > 50%"`) gets
/// no HTML warning.
pub proof fn lemma_html_needs_both_brackets(s: Seq<char>)
    ensures
        forall|i: int, j: int|
            0 <= i < s.len() && 0 <= j < s.len() && s[i] == '<' && s[j] == '>' ==> lint_html(s),
        (forall|i: int| 0 <= i < s.len() ==> s[i] != '<') ==> !lint_html(s),
        (forall|j: int| 0 <= j < s.len() ==> s[j] != '>') ==> !lint_html(s),
{
    assert forall|i: int, j: int|
        0 <= i < s.len() && 0 <= j < s.len() && s[i] == '<' && s[j] == '>' implies lint_html(s) by {
        assert(s.contains('<'));
        assert(s.contains('>'));
    }
}

/// The SMS template service: pure functions that validate a body,
/// list its declared `{{var}}` placeholders, substitute them, and lint
/// it.
pub struct TemplateService;

impl TemplateService {
    /// The declared `{{name}}` placeholders of the body, in source
    /// order, each once.
    pub fn declared(body: &str) -> (names: Vec<String>)
        ensures
            texts(names@) == declared_names(body@),
    {
        let c = char_vec(body);
        let n = c.len();
        let mut out: Vec<String> = Vec::new();
        let ghost mut done: Seq<Seq<char>> = Seq::empty();
        let mut i: usize = 0;
        assert(texts(out@) =~= declared_of(done));
        while i < n && i + 1 < n
            invariant
                i <= n,
                n == c@.len(),
                c@ == body@,
                placeholder_names(body@, 0) =~= done + placeholder_names(body@, i as int),
                texts(out@) == declared_of(done),
            decreases n - i,
        {
            if c[i] == '{' && c[i + 1] == '{' {
                let e = find_close(&c, i + 2);
                if e < n {
                    proof {
                        lemma_first_close(c@, i + 2);
                    }
                    let ghost name_seq = body@.subrange(i + 2, e as int);
                    let name = body.substring_char(i + 2, e).to_owned();
                    let ok = name_ok_at(&c, i + 2, e);
                    let known = contains_text(&out, &name);
                    proof {
                        assert(opens_placeholder(body@, i as int));
                        assert(placeholder_names(body@, i as int) =~= seq![name_seq] + placeholder_names(body@, e + 2));
                        assert(done.push(name_seq).drop_last() =~= done);
                    }
                    if ok && !known {
                        let ghost before = out@;
                        out.push(name);
                        proof {
                            assert(texts(out@) =~= texts(before).push(name_seq));
                        }
                    }
                    proof {
                        done = done.push(name_seq);
                    }
                    i = e + 2;
                    continue;
                }
            }
            proof {
                assert(!opens_placeholder(body@, i as int));
            }
            i += 1;
        }
        out
    }

    /// Validates that every variable of `variables` is declared by a
    /// `{{name}}` placeholder of the body.
    pub fn validate_body(body: &str, variables: &[TemplateVariable]) -> (r: Result<(), DomainError>)
        ensures
            r is Ok <==> forall|k: int|
                0 <= k < variables@.len() ==> declared_names(body@).contains(
                    #[trigger] variables@[k].name@,
                ),
            r matches Err(e) ==> e is Validation,
    {
        let declared = Self::declared(body);
        let mut k: usize = 0;
        while k < variables.len()
            invariant
                k <= variables@.len(),
                texts(declared@) == declared_names(body@),
                forall|j: int|
                    0 <= j < k ==> declared_names(body@).contains(#[trigger] variables@[j].name@),
            decreases variables@.len() - k,
        {
            if !contains_text(&declared, &variables[k].name) {
                let msg = prefixed_text("declared variable {{", variables[k].name.as_str());
                return Err(DomainError::Validation(msg.concat("}} is not present in the body")));
            }
            k += 1;
        }
        Ok(())
    }

    /// Replaces every `{{name}}` placeholder of the body with its value
    /// from `vars`; fails on a malformed placeholder or a missing value.
    pub fn substitute(body: &str, vars: &TextMap) -> (r: Result<String, DomainError>)
        ensures
            substituted(body@, vars@, 0) matches Some(t) ==> (r matches Ok(out) && out@ == t),
            substituted(body@, vars@, 0) is None ==> (r matches Err(e) && e is Validation),
    {
        let c = char_vec(body);
        let n = c.len();
        let mut out = String::new();
        let mut seg: usize = 0;
        let mut i: usize = 0;
        while i < n
            invariant
                seg <= i <= n,
                n == c@.len(),
                c@ == body@,
                substituted(body@, vars@, 0) == prepend(
                    out@ + body@.subrange(seg as int, i as int),
                    substituted(body@, vars@, i as int),
                ),
            decreases n - i,
        {
            if i + 1 < n && c[i] == '{' && c[i + 1] == '{' {
                let e = find_close(&c, i + 2);
                if e < n {
                    proof {
                        lemma_first_close(c@, i + 2);
                        assert(opens_placeholder(body@, i as int));
                    }
                    let name = body.substring_char(i + 2, e);
                    if !name_ok_at(&c, i + 2, e) {
                        return Err(DomainError::validation("empty or malformed placeholder"));
                    }
                    match vars.get(name) {
                        None => {
                            let msg = prefixed_text("missing substitution value for variable '", name);
                            return Err(DomainError::Validation(msg.concat("'")));
                        },
                        Some(value) => {
                            let piece = body.substring_char(seg, i);
                            let ghost before = out@;
                            out = out.concat(piece);
                            out = out.concat(value.as_str());
                            proof {
                                assert(out@ =~= (before + body@.subrange(seg as int, i as int)) + vars@[name@]);
                                assert(body@.subrange(e + 2, e + 2) =~= Seq::<char>::empty());
                                assert(out@ + body@.subrange(e + 2, e + 2) =~= out@);
                                match substituted(body@, vars@, e + 2) {
                                    Some(rest) => {
                                        assert((before + body@.subrange(seg as int, i as int)) + (vars@[name@] + rest) =~= out@ + rest);
                                    },
                                    None => {},
                                }
                            }
                            seg = e + 2;
                            i = e + 2;
                            continue;
                        },
                    }
                }
            }
            proof {
                assert(!opens_placeholder(body@, i as int));
                assert(body@.subrange(seg as int, i as int).push(body@[i as int]) =~= body@.subrange(seg as int, i + 1));
                match substituted(body@, vars@, i + 1) {
                    Some(rest) => {
                        assert((out@ + body@.subrange(seg as int, i as int)) + (seq![body@[i as int]] + rest) =~= (out@ + body@.subrange(seg as int, i + 1)) + rest);
                    },
                    None => {},
                }
            }
            i += 1;
        }
        let piece = body.substring_char(seg, n);
        let ghost before = out@;
        out = out.concat(piece);
        proof {
            assert(before + body@.subrange(seg as int, n as int) + Seq::<char>::empty() =~= out@);
        }
        Ok(out)
    }

    /// Renders a body: every declared variable must have a value, and
    /// every placeholder is replaced by its value.
    pub fn render_body(body: &str, vars: &TextMap) -> (r: Result<RenderedBody, DomainError>)
        ensures
            r is Ok <==> substituted(body@, vars@, 0) is Some,
            r matches Ok(v) ==> substituted(body@, vars@, 0) == Some(v@),
            r matches Err(e) ==> e is Validation,
    {
        let declared = Self::declared(body);
        let mut k: usize = 0;
        while k < declared.len()
            invariant
                k <= declared@.len(),
                texts(declared@) == declared_names(body@),
            decreases declared@.len() - k,
        {
            if !vars.contains_key(declared[k].as_str()) {
                proof {
                    let x = declared@[k as int]@;
                    assert(texts(declared@)[k as int] == x);
                    lemma_declared_names(body@, x);
                    let ks = choose|ks: int| 0 <= ks < placeholder_names(body@, 0).len() && placeholder_names(body@, 0)[ks] == x;
                    lemma_substituted_some_iff(body@, vars@, 0);
                    assert(!vars@.contains_key(placeholder_names(body@, 0)[ks]));
                }
                let msg = prefixed_text("missing substitution value for variable '", declared[k].as_str());
                return Err(DomainError::Validation(msg.concat("'")));
            }
            k += 1;
        }
        let rendered = Self::substitute(body, vars)?;
        Ok(RenderedBody::from_rendered(rendered))
    }

    /// Lints a body: unbalanced `{{` / `}}` pairs (at the byte position
    /// of the first unmatched one) and HTML in an SMS body are reported
    /// as advisory warnings, in that order.
    pub fn lint(body: &str) -> (warnings: Vec<RenderWarning>)
        ensures
            warnings@.len() == (if lint_mismatched(body@) { 1int } else { 0 }) + (if lint_html(body@) { 1int } else { 0 }),
            lint_mismatched(body@) ==> (warnings@[0] matches RenderWarning::MismatchedBraces { position, body: b } && position == byte_offset(body@, first_unmatched(body@)) && b@ == body@),
            lint_html(body@) ==> (warnings@.last() matches RenderWarning::HtmlInSms { html, sms_body } && html@ == body@ && sms_body@ == body@),
    {
        let c = char_vec(body);
        let mut warnings: Vec<RenderWarning> = Vec::new();
        let opens = count_pairs(&c, '{');
        let closes = count_pairs(&c, '}');
        if opens != closes {
            let p = find_unmatched(&c);
            proof {
                lemma_mismatch_has_position(c@);
            }
            let position = byte_position(body, &c, p);
            warnings.push(RenderWarning::MismatchedBraces { position, body: body.to_owned() });
        }
        let lt = find_in(&c, '<');
        let gt = find_in(&c, '>');
        if lt && gt {
            warnings.push(RenderWarning::HtmlInSms { html: body.to_owned(), sms_body: body.to_owned() });
        }
        warnings
    }
}

/// Whether `c` occurs in `s`.
fn find_in(s: &Vec<char>, c: char) -> (b: bool)
    ensures
        b == s@.contains(c),
{
    let mut k: usize = 0;
    while k < s.len()
        invariant
            k <= s@.len(),
            forall|j: int| 0 <= j < k ==> s@[j] != c,
        decreases s@.len() - k,
    {
        if s[k] == c {
            return true;
        }
        k += 1;
    }
    false
}

/// Joins a prefix and a text into a new string.
fn prefixed_text(prefix: &str, text: &str) -> (s: String)
    ensures
        s@ == prefix@ + text@,
{
    let s = prefix.to_owned();
    s.concat(text)
}

} // verus!
