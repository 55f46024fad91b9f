//! The event record that every part of a run publishes, and the ordered
//! string map that carries its free-form fields.
use vstd::prelude::*;
use crate::text::{chars_of, owned, str_eq};
use crate::clock::timestamp_now;

verus! {

// ---------------------------------------------------------------------
// Ordering of strings (byte order of UTF-8 equals code point order)
// ---------------------------------------------------------------------

/// Strict lexicographic order by code point, the order of `String: Ord`.
pub open spec fn lex_lt(a: Seq<char>, b: Seq<char>) -> bool
    decreases a.len(),
{
    if a.len() == 0 {
        b.len() > 0
    } else if b.len() == 0 {
        false
    } else if a[0] != b[0] {
        a[0] < b[0]
    } else {
        lex_lt(a.drop_first(), b.drop_first())
    }
}

/// No string is before itself.
pub proof fn lemma_lex_irreflexive(a: Seq<char>)
    ensures
        !lex_lt(a, a),
    decreases a.len(),
{
    if a.len() > 0 {
        lemma_lex_irreflexive(a.drop_first());
    }
}

/// Of two strings, exactly one is first, or they are equal.
pub proof fn lemma_lex_trichotomy(a: Seq<char>, b: Seq<char>)
    ensures
        lex_lt(a, b) || lex_lt(b, a) || a == b,
        !(lex_lt(a, b) && lex_lt(b, a)),
    decreases a.len(),
{
    if a.len() > 0 && b.len() > 0 {
        if a[0] == b[0] {
            lemma_lex_trichotomy(a.drop_first(), b.drop_first());
            if a.drop_first() == b.drop_first() {
                assert(a == seq![a[0]] + a.drop_first());
                assert(b == seq![b[0]] + b.drop_first());
            }
        }
    } else if a.len() == 0 && b.len() == 0 {
        assert(a == b);
    }
}

/// String order is transitive.
pub proof fn lemma_lex_transitive(a: Seq<char>, b: Seq<char>, c: Seq<char>)
    requires
        lex_lt(a, b),
        lex_lt(b, c),
    ensures
        lex_lt(a, c),
    decreases a.len(),
{
    if a.len() > 0 && b.len() > 0 && c.len() > 0 {
        if a[0] == b[0] && b[0] == c[0] {
            lemma_lex_transitive(a.drop_first(), b.drop_first(), c.drop_first());
        }
    }
}

/// Exact three-way comparison of two strings: -1, 0 or 1.
pub fn str_compare(a: &str, b: &str) -> (r: i8)
    ensures
        r == -1 <==> lex_lt(a@, b@),
        r == 1 <==> lex_lt(b@, a@),
        r == 0 <==> a@ == b@,
        r == -1 || r == 0 || r == 1,
{
    let va = chars_of(a);
    let vb = chars_of(b);
    let mut i: usize = 0;
    assert(va@.skip(0) == va@);
    assert(vb@.skip(0) == vb@);
    while i < va.len() && i < vb.len()
        invariant
            va@ == a@,
            vb@ == b@,
            i <= va.len(),
            i <= vb.len(),
            va@.take(i as int) == vb@.take(i as int),
            lex_lt(a@, b@) == lex_lt(va@.skip(i as int), vb@.skip(i as int)),
            lex_lt(b@, a@) == lex_lt(vb@.skip(i as int), va@.skip(i as int)),
        decreases va.len() - i,
    {
        let ghost sa = va@.skip(i as int);
        let ghost sb = vb@.skip(i as int);
        assert(sa[0] == va@[i as int]);
        assert(sb[0] == vb@[i as int]);
        if va[i] != vb[i] {
            proof {
                lemma_lex_trichotomy(a@, b@);
            }
            if va[i] < vb[i] {
                return -1;
            } else {
                return 1;
            }
        }
        assert(sa.drop_first() == va@.skip(i + 1));
        assert(sb.drop_first() == vb@.skip(i + 1));
        assert(va@.take(i + 1) == va@.take(i as int).push(va@[i as int]));
        assert(vb@.take(i + 1) == vb@.take(i as int).push(vb@[i as int]));
        i += 1;
    }
    proof {
        lemma_lex_trichotomy(a@, b@);
    }
    if va.len() == vb.len() {
        assert(va@ == va@.take(i as int));
        assert(vb@ == vb@.take(i as int));
        proof {
            lemma_lex_irreflexive(a@);
        }
        0
    } else if va.len() < vb.len() {
        assert(va@.skip(i as int).len() == 0);
        -1
    } else {
        assert(vb@.skip(i as int).len() == 0);
        1
    }
}

// ---------------------------------------------------------------------
// FieldMap: a string map kept sorted by key
// ---------------------------------------------------------------------

/// A map from string keys to string values, kept in ascending key order
/// (the order a `BTreeMap<String, String>` iterates and serializes in).
#[derive(Debug, Clone, Default, PartialEq, Eq)]
pub struct FieldMap {
    pub entries: Vec<(String, String)>,
}

/// The map described by a list of pairs (a later pair wins).
pub open spec fn pairs_map(e: Seq<(String, String)>) -> Map<Seq<char>, Seq<char>>
    decreases e.len(),
{
    if e.len() == 0 {
        Map::empty()
    } else {
        pairs_map(e.drop_last()).insert(e.last().0@, e.last().1@)
    }
}

/// The keys of a list of pairs are strictly ascending.
pub open spec fn keys_sorted(e: Seq<(String, String)>) -> bool {
    forall|i: int, j: int| 0 <= i < j < e.len() ==> lex_lt(#[trigger] e[i].0@, #[trigger] e[j].0@)
}

/// Every pair of a sorted list is in its map.
pub proof fn lemma_pairs_map_lookup(e: Seq<(String, String)>, i: int)
    requires
        keys_sorted(e),
        0 <= i < e.len(),
    ensures
        pairs_map(e).contains_key(e[i].0@),
        pairs_map(e)[e[i].0@] == e[i].1@,
    decreases e.len(),
{
    if i < e.len() - 1 {
        lemma_pairs_map_lookup(e.drop_last(), i);
        assert(lex_lt(e[i].0@, e[e.len() - 1].0@));
        lemma_lex_irreflexive(e[i].0@);
    }
}

/// A key that no pair has is not in the map.
pub proof fn lemma_pairs_map_absent(e: Seq<(String, String)>, k: Seq<char>)
    requires
        forall|i: int| 0 <= i < e.len() ==> e[i].0@ != k,
    ensures
        !pairs_map(e).contains_key(k),
    decreases e.len(),
{
    if e.len() > 0 {
        lemma_pairs_map_absent(e.drop_last(), k);
    }
}

/// A key of the map is the key of some pair.
pub proof fn lemma_pairs_map_dom(e: Seq<(String, String)>, k: Seq<char>)
    requires
        pairs_map(e).contains_key(k),
    ensures
        exists|i: int| 0 <= i < e.len() && e[i].0@ == k,
    decreases e.len(),
{
    if e.len() > 0 && e.last().0@ != k {
        lemma_pairs_map_dom(e.drop_last(), k);
        let i = choose|i: int| 0 <= i < e.drop_last().len() && e.drop_last()[i].0@ == k;
        assert(e[i].0@ == k);
    }
}

/// Two sorted lists with the same keys at the same places and the same
/// values describe the same map.
pub proof fn lemma_pairs_map_ext(a: Seq<(String, String)>, b: Seq<(String, String)>)
    requires
        a.len() == b.len(),
        forall|i: int| 0 <= i < a.len() ==> a[i].0@ == b[i].0@ && a[i].1@ == b[i].1@,
    ensures
        pairs_map(a) == pairs_map(b),
    decreases a.len(),
{
    if a.len() > 0 {
        lemma_pairs_map_ext(a.drop_last(), b.drop_last());
    }
}

impl View for FieldMap {
    type V = Map<Seq<char>, Seq<char>>;

    open spec fn view(&self) -> Map<Seq<char>, Seq<char>> {
        pairs_map(self.entries@)
    }
}

impl FieldMap {
    /// Keys are strictly ascending, hence distinct.
    pub open spec fn wf(&self) -> bool {
        keys_sorted(self.entries@)
    }

    /// An empty map.
    pub fn new() -> (m: FieldMap)
        ensures
            m.wf(),
            m@ == Map::<Seq<char>, Seq<char>>::empty(),
            m.entries@.len() == 0,
    {
        FieldMap { entries: Vec::new() }
    }

    /// A copy of the map, entry for entry.
    pub fn duplicate(&self) -> (m: FieldMap)
        ensures
            m.entries@ == self.entries@,
            m.wf() == self.wf(),
            m@ == self@,
    {
        let mut entries: Vec<(String, String)> = Vec::new();
        let mut i: usize = 0;
        while i < self.entries.len()
            invariant
                i <= self.entries.len(),
                entries@ == self.entries@.take(i as int),
            decreases self.entries.len() - i,
        {
            let k = self.entries[i].0.clone();
            let v = self.entries[i].1.clone();
            entries.push((k, v));
            assert(entries@ =~= self.entries@.take(i + 1));
            i += 1;
        }
        assert(self.entries@.take(self.entries@.len() as int) == self.entries@);
        FieldMap { entries }
    }

    /// Number of entries.
    pub fn len(&self) -> (n: usize)
        requires
            self.wf(),
        ensures
            n == self.entries@.len(),
    {
        self.entries.len()
    }

    /// The value stored under `key`.
    pub fn get(&self, key: &str) -> (r: Option<&String>)
        requires
            self.wf(),
        ensures
            r.is_some() == self@.contains_key(key@),
            r.is_some() ==> r.unwrap()@ == self@[key@],
    {
        let mut i: usize = 0;
        while i < self.entries.len()
            invariant
                self.wf(),
                i <= self.entries.len(),
                forall|j: int| 0 <= j < i ==> self.entries@[j].0@ != key@,
            decreases self.entries.len() - i,
        {
            if str_eq(self.entries[i].0.as_str(), key) {
                proof {
                    lemma_pairs_map_lookup(self.entries@, i as int);
                }
                return Some(&self.entries[i].1);
            }
            i += 1;
        }
        proof {
            lemma_pairs_map_absent(self.entries@, key@);
        }
        None
    }

    /// Stores `value` under `key`, replacing an earlier value.
    pub fn insert(&mut self, key: String, value: String)
        requires
            old(self).wf(),
        ensures
            final(self).wf(),
            final(self)@ == old(self)@.insert(key@, value@),
    {
        let ghost e0 = old(self).entries@;
        let mut i: usize = 0;
        let n = self.entries.len();
        while i < n
            invariant
                n == self.entries.len(),
                self.entries@ == e0,
                old(self).entries@ == e0,
                keys_sorted(e0),
                i <= n,
                forall|j: int| 0 <= j < i ==> lex_lt(#[trigger] e0[j].0@, key@),
            decreases n - i,
        {
            let c = str_compare(self.entries[i].0.as_str(), key.as_str());
            if c == 0 {
                let ghost kk = key;
                let ghost vv = value;
                self.entries.set(i, (key, value));
                assert(self.entries@ == e0.update(i as int, (kk, vv)));
                proof {
                    let e1 = self.entries@;
                    assert forall|a: int, b: int| 0 <= a < b < e1.len() implies lex_lt(
                        #[trigger] e1[a].0@,
                        #[trigger] e1[b].0@,
                    ) by {
                        assert(lex_lt(e0[a].0@, e0[b].0@));
                    }
                    // the new list equals the old one with the last binding of the key updated
                    lemma_set_preserves_map(e0, i as int, kk, vv);
                    assert(self@ == pairs_map(e0).insert(kk@, vv@));
                    assert(old(self)@ == pairs_map(e0));
                }
                return;
            }
            if c == 1 {
                // e0[i] > key: insert here
                let ghost kk = key;
                let ghost vv = value;
                proof {
                    assert forall|j: int| 0 <= j < e0.len() implies e0[j].0@ != kk@ by {
                        lemma_lex_irreflexive(kk@);
                        if j < i {
                            assert(lex_lt(e0[j].0@, kk@));
                        } else if j > i {
                            assert(lex_lt(e0[i as int].0@, e0[j].0@));
                            lemma_lex_transitive(kk@, e0[i as int].0@, e0[j].0@);
                        }
                    }
                }
                self.entries.insert(i, (key, value));
                assert(self.entries@ == e0.insert(i as int, (kk, vv)));
                proof {
                    let e1 = self.entries@;
                    assert forall|a: int, b: int| 0 <= a < b < e1.len() implies lex_lt(
                        #[trigger] e1[a].0@,
                        #[trigger] e1[b].0@,
                    ) by {
                        if b < i {
                            assert(lex_lt(e0[a].0@, e0[b].0@));
                        } else if b == i {
                            assert(lex_lt(e0[a].0@, kk@));
                        } else if a < i {
                            assert(lex_lt(e0[a].0@, kk@));
                            assert(lex_lt(kk@, e0[i as int].0@));
                            if b - 1 > i {
                                assert(lex_lt(e0[i as int].0@, e0[b - 1].0@));
                                lemma_lex_transitive(kk@, e0[i as int].0@, e0[b - 1].0@);
                            }
                            lemma_lex_transitive(e0[a].0@, kk@, e0[b - 1].0@);
                        } else if a == i {
                            if b - 1 > i {
                                assert(lex_lt(e0[i as int].0@, e0[b - 1].0@));
                                lemma_lex_transitive(kk@, e0[i as int].0@, e0[b - 1].0@);
                            }
                        } else {
                            assert(lex_lt(e0[a - 1].0@, e0[b - 1].0@));
                        }
                    }
                    lemma_insert_preserves_map(e0, i as int, kk, vv);
                    assert(self@ == pairs_map(e0).insert(kk@, vv@));
                    assert(old(self)@ == pairs_map(e0));
                }
                return;
            }
            i += 1;
        }
        let ghost kk = key;
        let ghost vv = value;
        proof {
            assert forall|j: int| 0 <= j < e0.len() implies e0[j].0@ != kk@ by {
                lemma_lex_irreflexive(kk@);
                assert(lex_lt(e0[j].0@, kk@));
            }
            lemma_pairs_map_absent(e0, kk@);
        }
        self.entries.push((key, value));
        proof {
            let e1 = self.entries@;
            assert(e1.drop_last() == e0);
            assert(e1.last() == (kk, vv));
            assert forall|a: int, b: int| 0 <= a < b < e1.len() implies lex_lt(
                #[trigger] e1[a].0@,
                #[trigger] e1[b].0@,
            ) by {
                if b < e0.len() {
                    assert(lex_lt(e0[a].0@, e0[b].0@));
                }
            }
        }
    }
}

/// Replacing the value of the pair at `i` (same key) updates the map.
pub proof fn lemma_set_preserves_map(e0: Seq<(String, String)>, i: int, key: String, value: String)
    requires
        keys_sorted(e0),
        0 <= i < e0.len(),
        e0[i].0@ == key@,
    ensures
        pairs_map(e0.update(i, (key, value))) == pairs_map(e0).insert(key@, value@),
    decreases e0.len(),
{
    let e1 = e0.update(i, (key, value));
    if i == e0.len() - 1 {
        assert(e1.drop_last() == e0.drop_last());
        // the key is absent from the prefix
        assert forall|j: int| 0 <= j < e0.drop_last().len() implies e0.drop_last()[j].0@ != key@ by {
            assert(lex_lt(e0[j].0@, e0[i].0@));
            lemma_lex_irreflexive(key@);
        }
        lemma_pairs_map_absent(e0.drop_last(), key@);
        assert(pairs_map(e1) =~= pairs_map(e0).insert(key@, value@));
    } else {
        let p0 = e0.drop_last();
        assert(e1.drop_last() == p0.update(i, (key, value)));
        assert(e1.last() == e0.last());
        assert(keys_sorted(p0));
        lemma_set_preserves_map(p0, i, key, value);
        assert(lex_lt(e0[i].0@, e0.last().0@));
        lemma_lex_irreflexive(key@);
        assert(e0.last().0@ != key@);
        let lk = e0.last().0@;
        let lv = e0.last().1@;
        assert(pairs_map(e1) == pairs_map(p0).insert(key@, value@).insert(lk, lv));
        assert(pairs_map(e0) == pairs_map(p0).insert(lk, lv));
        assert(pairs_map(e1) =~= pairs_map(e0).insert(key@, value@));
    }
}

/// Inserting a fresh pair at `i` keeps the map of the rest and adds it.
pub proof fn lemma_insert_preserves_map(
    e0: Seq<(String, String)>,
    i: int,
    key: String,
    value: String,
)
    requires
        keys_sorted(e0),
        0 <= i < e0.len(),
        forall|j: int| 0 <= j < e0.len() ==> e0[j].0@ != key@,
    ensures
        pairs_map(e0.insert(i, (key, value))) == pairs_map(e0).insert(key@, value@),
    decreases e0.len(),
{
    let e1 = e0.insert(i, (key, value));
    if i == e0.len() - 1 {
        // e1 = prefix ++ [new, last]
        let p0 = e0.drop_last();
        assert(e1.drop_last() == p0.push((key, value)));
        assert(e1.last() == e0.last());
        assert(p0.push((key, value)).drop_last() == p0);
        let lk = e0.last().0@;
        let lv = e0.last().1@;
        assert(lk != key@);
        assert(pairs_map(p0.push((key, value))) == pairs_map(p0).insert(key@, value@));
        assert(pairs_map(e1) == pairs_map(e1.drop_last()).insert(lk, lv));
        assert(pairs_map(e1) == pairs_map(p0).insert(key@, value@).insert(lk, lv));
        assert(pairs_map(e0) == pairs_map(p0).insert(lk, lv));
        assert(pairs_map(e1) =~= pairs_map(e0).insert(key@, value@));
    } else {
        assert(e1.drop_last() == e0.drop_last().insert(i, (key, value)));
        lemma_insert_preserves_map(e0.drop_last(), i, key, value);
        assert(pairs_map(e1) =~= pairs_map(e0).insert(key@, value@));
    }
}

// ---------------------------------------------------------------------
// Events
// ---------------------------------------------------------------------

/// What happened.
#[derive(Debug, Clone, Copy, PartialEq, Eq)]
pub enum EventKind {
    RunStarted,
    TabOpened,
    PromptSubmitted,
    TarDiscovered,
    DownloadReceipt,
    DeployQueued,
    DeployFinished,
    RemoteSafety,
    PromptPolicy,
    BrowserLog,
    Error,
}

/// How serious it is.
#[derive(Debug, Clone, Copy, PartialEq, Eq)]
pub enum Severity {
    Info,
    Warn,
    Error,
}

/// The name of an event kind (its `Debug` rendering).
pub open spec fn kind_name_spec(kind: EventKind) -> Seq<char> {
    match kind {
        EventKind::RunStarted => "RunStarted"@,
        EventKind::TabOpened => "TabOpened"@,
        EventKind::PromptSubmitted => "PromptSubmitted"@,
        EventKind::TarDiscovered => "TarDiscovered"@,
        EventKind::DownloadReceipt => "DownloadReceipt"@,
        EventKind::DeployQueued => "DeployQueued"@,
        EventKind::DeployFinished => "DeployFinished"@,
        EventKind::RemoteSafety => "RemoteSafety"@,
        EventKind::PromptPolicy => "PromptPolicy"@,
        EventKind::BrowserLog => "BrowserLog"@,
        EventKind::Error => "Error"@,
    }
}

/// The name of an event kind.
pub fn kind_name(kind: EventKind) -> (s: &'static str)
    ensures
        s@ == kind_name_spec(kind),
{
    match kind {
        EventKind::RunStarted => "RunStarted",
        EventKind::TabOpened => "TabOpened",
        EventKind::PromptSubmitted => "PromptSubmitted",
        EventKind::TarDiscovered => "TarDiscovered",
        EventKind::DownloadReceipt => "DownloadReceipt",
        EventKind::DeployQueued => "DeployQueued",
        EventKind::DeployFinished => "DeployFinished",
        EventKind::RemoteSafety => "RemoteSafety",
        EventKind::PromptPolicy => "PromptPolicy",
        EventKind::BrowserLog => "BrowserLog",
        EventKind::Error => "Error",
    }
}

/// One record on the run's event bus.
#[derive(Debug, Clone, PartialEq, Eq)]
pub struct JailgunEvent {
    pub run_id: String,
    pub kind: EventKind,
    pub message: String,
    pub tab_id: Option<u16>,
    pub severity: Severity,
    pub fields: FieldMap,
    pub timestamp: String,
}

impl JailgunEvent {
    pub open spec fn wf(&self) -> bool {
        self.fields.wf()
    }

    /// A fresh event stamped with the current time: no tab, `Info`
    /// severity, no fields.
    pub fn new(run_id: &str, kind: EventKind, message: &str) -> (e: JailgunEvent)
        ensures
            e.wf(),
            e.run_id@ == run_id@,
            e.kind == kind,
            e.message@ == message@,
            e.tab_id.is_none(),
            e.severity == Severity::Info,
            e.fields@ == Map::<Seq<char>, Seq<char>>::empty(),
            e.fields.entries@.len() == 0,
    {
        JailgunEvent {
            run_id: owned(run_id),
            kind,
            message: owned(message),
            tab_id: None,
            severity: Severity::Info,
            fields: FieldMap::new(),
            timestamp: timestamp_now(),
        }
    }

    /// The same event attached to a tab.
    pub fn with_tab(self, tab_id: u16) -> (e: JailgunEvent)
        ensures
            e == (JailgunEvent { tab_id: Some(tab_id), ..self }),
    {
        JailgunEvent { tab_id: Some(tab_id), ..self }
    }

    /// The same event with another severity.
    pub fn with_severity(self, severity: Severity) -> (e: JailgunEvent)
        ensures
            e == (JailgunEvent { severity, ..self }),
    {
        JailgunEvent { severity, ..self }
    }

    /// The same event with one more field (replacing a field of that key).
    pub fn with_field(self, key: &str, value: &str) -> (e: JailgunEvent)
        requires
            self.wf(),
        ensures
            e.wf(),
            e.fields@ == self.fields@.insert(key@, value@),
            e.run_id == self.run_id,
            e.kind == self.kind,
            e.message == self.message,
            e.tab_id == self.tab_id,
            e.severity == self.severity,
            e.timestamp == self.timestamp,
    {
        let mut e = self;
        e.fields.insert(owned(key), owned(value));
        e
    }
}

} // verus!
