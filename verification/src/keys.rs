//! The byte-wise lexicographic order on keys, and maps from byte-string
//! keys kept sorted in that order.
use vstd::prelude::*;
use crate::util::copy_bytes;

verus! {

/// Whether `a` comes strictly before `b` in byte-wise lexicographic order
/// (a proper prefix comes first).
pub open spec fn lex_lt(a: Seq<u8>, b: Seq<u8>) -> bool
    decreases a.len(),
{
    if a.len() == 0 {
        b.len() > 0
    } else if b.len() == 0 {
        false
    } else if a[0] != b[0] {
        a[0] < b[0]
    } else {
        lex_lt(a.skip(1), b.skip(1))
    }
}

/// No key comes before itself.
pub proof fn lemma_lex_irreflexive(a: Seq<u8>)
    ensures
        !lex_lt(a, a),
    decreases a.len(),
{
    if a.len() > 0 {
        lemma_lex_irreflexive(a.skip(1));
    }
}

/// The order is transitive.
pub proof fn lemma_lex_transitive(a: Seq<u8>, b: Seq<u8>, c: Seq<u8>)
    requires
        lex_lt(a, b),
        lex_lt(b, c),
    ensures
        lex_lt(a, c),
    decreases a.len(),
{
    if a.len() > 0 && b.len() > 0 && c.len() > 0 && a[0] == b[0] && b[0] == c[0] {
        lemma_lex_transitive(a.skip(1), b.skip(1), c.skip(1));
    }
}

/// Two different keys are ordered one way or the other.
pub proof fn lemma_lex_total(a: Seq<u8>, b: Seq<u8>)
    ensures
        a == b || lex_lt(a, b) || lex_lt(b, a),
    decreases a.len(),
{
    if a.len() == 0 {
        if b.len() == 0 {
            assert(a =~= b);
        }
    } else if b.len() == 0 {
    } else if a[0] != b[0] {
    } else {
        let a1 = a.skip(1);
        let b1 = b.skip(1);
        lemma_lex_total(a1, b1);
        if a1 == b1 {
            assert(a1.len() == a.len() - 1);
            assert(b1.len() == b.len() - 1);
            assert(a =~= b) by {
                assert forall|k: int| 0 <= k < a.len() implies a[k] == b[k] by {
                    if k > 0 {
                        assert(a[k] == a1[k - 1]);
                        assert(b[k] == b1[k - 1]);
                    }
                }
            }
        } else {
            assert(lex_lt(a, b) == lex_lt(a1, b1));
            assert(lex_lt(b, a) == lex_lt(b1, a1));
        }
    }
}

/// The order is asymmetric.
pub proof fn lemma_lex_asymmetric(a: Seq<u8>, b: Seq<u8>)
    requires
        lex_lt(a, b),
    ensures
        !lex_lt(b, a),
{
    if lex_lt(b, a) {
        lemma_lex_transitive(a, b, a);
        lemma_lex_irreflexive(a);
    }
}

/// Dropping an equal prefix keeps the order.
proof fn lemma_lex_skip(a: Seq<u8>, b: Seq<u8>, i: int)
    requires
        0 <= i <= a.len(),
        i <= b.len(),
        a.take(i) == b.take(i),
    ensures
        lex_lt(a, b) == lex_lt(a.skip(i), b.skip(i)),
    decreases i,
{
    if i > 0 {
        assert(a[0] == a.take(i)[0]);
        assert(b[0] == b.take(i)[0]);
        assert(a.skip(1).take(i - 1) =~= a.take(i).skip(1));
        assert(b.skip(1).take(i - 1) =~= b.take(i).skip(1));
        lemma_lex_skip(a.skip(1), b.skip(1), i - 1);
        assert(a.skip(1).skip(i - 1) =~= a.skip(i));
        assert(b.skip(1).skip(i - 1) =~= b.skip(i));
    } else {
        assert(a.skip(0) =~= a);
        assert(b.skip(0) =~= b);
    }
}

/// How two keys are ordered.
#[derive(Debug, Clone, Copy, PartialEq, Eq, Structural)]
pub enum KeyOrder {
    Less,
    Equal,
    Greater,
}

/// The order of two keys.
pub fn order_keys(a: &[u8], b: &[u8]) -> (r: KeyOrder)
    ensures
        r == KeyOrder::Less <==> lex_lt(a@, b@),
        r == KeyOrder::Equal <==> a@ == b@,
        r == KeyOrder::Greater <==> lex_lt(b@, a@),
{
    let mut i: usize = 0;
    while i < a.len() && i < b.len()
        invariant
            i <= a.len(),
            i <= b.len(),
            a@.take(i as int) == b@.take(i as int),
        decreases a.len() - i,
    {
        if a[i] != b[i] {
            proof {
                lemma_lex_skip(a@, b@, i as int);
                lemma_lex_skip(b@, a@, i as int);
                assert(a@.skip(i as int)[0] == a@[i as int]);
                assert(b@.skip(i as int)[0] == b@[i as int]);
                assert(a@[i as int] != b@[i as int]);
            }
            if a[i] < b[i] {
                return KeyOrder::Less;
            } else {
                return KeyOrder::Greater;
            }
        }
        proof {
            assert(a@.take(i as int + 1) =~= a@.take(i as int).push(a@[i as int]));
            assert(b@.take(i as int + 1) =~= b@.take(i as int).push(b@[i as int]));
        }
        i = i + 1;
    }
    proof {
        lemma_lex_skip(a@, b@, i as int);
        lemma_lex_skip(b@, a@, i as int);
    }
    if a.len() == b.len() {
        proof {
            assert(a@ =~= a@.take(i as int));
            assert(b@ =~= b@.take(i as int));
            lemma_lex_irreflexive(a@);
        }
        KeyOrder::Equal
    } else if a.len() < b.len() {
        proof {
            assert(a@.skip(i as int).len() == 0);
            if a@ == b@ {
                assert(false);
            }
        }
        KeyOrder::Less
    } else {
        proof {
            assert(b@.skip(i as int).len() == 0);
            if a@ == b@ {
                assert(false);
            }
        }
        KeyOrder::Greater
    }
}

/// The view of an optional value.
pub open spec fn value_view(o: Option<Vec<u8>>) -> Option<Seq<u8>> {
    match o {
        Some(v) => Some(v@),
        None => None,
    }
}

/// The view of an entry: the key's bytes and the value's bytes (or
/// `None` for a key marked as removed).
pub open spec fn entry_view(e: (Vec<u8>, Option<Vec<u8>>)) -> (Seq<u8>, Option<Seq<u8>>) {
    (e.0@, value_view(e.1))
}

/// Whether the keys of the entries increase strictly.
pub open spec fn sorted_keys(s: Seq<(Seq<u8>, Option<Seq<u8>>)>) -> bool {
    forall|i: int, j: int| 0 <= i < j < s.len() ==> lex_lt(#[trigger] s[i].0, #[trigger] s[j].0)
}

/// Whether the entries hold `k` with value `v`.
pub open spec fn has_entry(s: Seq<(Seq<u8>, Option<Seq<u8>>)>, k: Seq<u8>, v: Option<Seq<u8>>) -> bool {
    exists|i: int| 0 <= i < s.len() && #[trigger] s[i] == (k, v)
}

/// Whether the entries hold the key `k`.
pub open spec fn has_key(s: Seq<(Seq<u8>, Option<Seq<u8>>)>, k: Seq<u8>) -> bool {
    exists|i: int| 0 <= i < s.len() && #[trigger] s[i].0 == k
}

/// Sorted entries hold each key once, so they map each key to at most one
/// value.
pub proof fn lemma_sorted_unique(s: Seq<(Seq<u8>, Option<Seq<u8>>)>, i: int, j: int)
    requires
        sorted_keys(s),
        0 <= i < s.len(),
        0 <= j < s.len(),
        s[i].0 == s[j].0,
    ensures
        i == j,
{
    if i < j {
        lemma_lex_irreflexive(s[i].0);
    } else if j < i {
        lemma_lex_irreflexive(s[i].0);
    }
}

/// In sorted entries, every key from position `j` on comes after `key`
/// when the key at `j` neither comes before `key` nor equals it.
proof fn lemma_after_bound(s: Seq<(Seq<u8>, Option<Seq<u8>>)>, j: int, key: Seq<u8>)
    requires
        sorted_keys(s),
        0 <= j < s.len(),
        !lex_lt(s[j].0, key),
        s[j].0 != key,
    ensures
        forall|m: int| j <= m < s.len() ==> lex_lt(key, #[trigger] s[m].0),
{
    lemma_lex_total(s[j].0, key);
    assert forall|m: int| j <= m < s.len() implies lex_lt(key, #[trigger] s[m].0) by {
        if m > j {
            lemma_lex_transitive(key, s[j].0, s[m].0);
        }
    }
}

/// A copy of a value.
fn copy_value(v: &Option<Vec<u8>>) -> (r: Option<Vec<u8>>)
    ensures
        value_view(r) == value_view(*v),
{
    match v {
        Some(b) => Some(copy_bytes(b.as_slice())),
        None => None,
    }
}

/// A map from byte-string keys to optional byte-string values, kept sorted
/// by key.
#[derive(Debug)]
pub struct EnvMap {
    entries: Vec<(Vec<u8>, Option<Vec<u8>>)>,
}

impl View for EnvMap {
    type V = Seq<(Seq<u8>, Option<Seq<u8>>)>;

    closed spec fn view(&self) -> Seq<(Seq<u8>, Option<Seq<u8>>)> {
        self.entries@.map_values(|e: (Vec<u8>, Option<Vec<u8>>)| entry_view(e))
    }
}

impl EnvMap {
    /// Whether the entries are sorted by key.
    pub open spec fn wf(&self) -> bool {
        sorted_keys(self@)
    }

    /// An empty map.
    pub fn new() -> (m: EnvMap)
        ensures
            m.wf(),
            m@ == Seq::<(Seq<u8>, Option<Seq<u8>>)>::empty(),
    {
        let m = EnvMap { entries: Vec::new() };
        proof {
            assert(m@ =~= Seq::<(Seq<u8>, Option<Seq<u8>>)>::empty());
        }
        m
    }

    /// The number of entries.
    pub fn len(&self) -> (n: usize)
        ensures
            n == self@.len(),
    {
        self.entries.len()
    }

    /// Whether the map is empty.
    pub fn is_empty(&self) -> (r: bool)
        ensures
            r == (self@.len() == 0),
    {
        self.entries.len() == 0
    }

    /// A copy of the entry at position `i` in key order.
    pub fn entry(&self, i: usize) -> (r: (Vec<u8>, Option<Vec<u8>>))
        requires
            i < self@.len(),
        ensures
            entry_view(r) == self@[i as int],
    {
        let e = &self.entries[i];
        let r = (copy_bytes(e.0.as_slice()), copy_value(&e.1));
        proof {
            assert(self@[i as int] == entry_view(self.entries@[i as int]));
        }
        r
    }

    /// Copies of all entries, in key order.
    pub fn to_vec(&self) -> (r: Vec<(Vec<u8>, Option<Vec<u8>>)>)
        ensures
            r@.map_values(|e: (Vec<u8>, Option<Vec<u8>>)| entry_view(e)) == self@,
    {
        let mut r: Vec<(Vec<u8>, Option<Vec<u8>>)> = Vec::new();
        let mut i: usize = 0;
        while i < self.entries.len()
            invariant
                i <= self@.len(),
                self@.len() == self.entries@.len(),
                r@.map_values(|e: (Vec<u8>, Option<Vec<u8>>)| entry_view(e)) =~= self@.take(i as int),
            decreases self.entries.len() - i,
        {
            let e = self.entry(i);
            let ghost before = r@;
            r.push(e);
            proof {
                assert(r@ =~= before.push(e));
                assert(r@.map_values(|e: (Vec<u8>, Option<Vec<u8>>)| entry_view(e)) =~= before.map_values(
                    |e: (Vec<u8>, Option<Vec<u8>>)| entry_view(e),
                ).push(entry_view(e)));
                assert(self@.take(i as int + 1) =~= self@.take(i as int).push(self@[i as int]));
            }
            i = i + 1;
        }
        proof {
            assert(self@.take(self@.len() as int) =~= self@);
        }
        r
    }

    /// Removes every entry.
    pub fn clear(&mut self)
        ensures
            final(self).wf(),
            final(self)@ == Seq::<(Seq<u8>, Option<Seq<u8>>)>::empty(),
    {
        self.entries.clear();
        proof {
            assert(self@ =~= Seq::<(Seq<u8>, Option<Seq<u8>>)>::empty());
        }
    }

    /// The position of the first entry whose key does not come before
    /// `key`: every entry before it has a smaller key.
    fn lower_bound(&self, key: &[u8]) -> (r: usize)
        requires
            self.wf(),
        ensures
            r <= self@.len(),
            forall|i: int| 0 <= i < r ==> lex_lt(#[trigger] self@[i].0, key@),
            r < self@.len() ==> !lex_lt(self@[r as int].0, key@),
    {
        let mut i: usize = 0;
        while i < self.entries.len()
            invariant
                i <= self@.len(),
                self@.len() == self.entries@.len(),
                forall|j: int| 0 <= j < i ==> lex_lt(#[trigger] self@[j].0, key@),
            decreases self.entries.len() - i,
        {
            proof {
                assert(self@[i as int] == entry_view(self.entries@[i as int]));
            }
            match order_keys(self.entries[i].0.as_slice(), key) {
                KeyOrder::Less => {},
                _ => {
                    return i;
                },
            }
            i = i + 1;
        }
        i
    }

    /// Sets `key` to `value`, replacing any value it had; the entries stay
    /// sorted.
    pub fn insert(&mut self, key: Vec<u8>, value: Option<Vec<u8>>)
        requires
            old(self).wf(),
        ensures
            final(self).wf(),
            forall|k: Seq<u8>, v: Option<Seq<u8>>|
                #![trigger has_entry(final(self)@, k, v)]
                has_entry(final(self)@, k, v) <==> ((k == key@ && v == entry_view((key, value)).1)
                    || (k != key@ && has_entry(old(self)@, k, v))),
    {
        let ghost kv = entry_view((key, value));
        let ghost s0 = self@;
        let j = self.lower_bound(key.as_slice());
        let mut found = false;
        if j < self.entries.len() {
            proof {
                assert(self@[j as int] == entry_view(self.entries@[j as int]));
            }
            match order_keys(self.entries[j].0.as_slice(), key.as_slice()) {
                KeyOrder::Equal => {
                    found = true;
                },
                _ => {},
            }
        }
        assert(!found && j < s0.len() ==> s0[j as int].0 != kv.0);
        if found {
            self.entries.set(j, (key, value));
            proof {
                assert(self@ =~= s0.update(j as int, kv));
                assert forall|a: int, b: int| 0 <= a < b < self@.len() implies lex_lt(
                    #[trigger] self@[a].0,
                    #[trigger] self@[b].0,
                ) by {
                    assert(self@[a].0 == s0[a].0);
                    assert(self@[b].0 == s0[b].0);
                }
                assert forall|k: Seq<u8>, v: Option<Seq<u8>>|
                    #![trigger has_entry(self@, k, v)]
                    has_entry(self@, k, v) <==> ((k == kv.0 && v == kv.1) || (k != kv.0
                        && has_entry(s0, k, v))) by {
                    if has_entry(self@, k, v) {
                        let i = choose|i: int| 0 <= i < self@.len() && #[trigger] self@[i] == (k, v);
                        if i != j {
                            assert(s0[i] == (k, v));
                            if k == kv.0 {
                                lemma_sorted_unique(s0, i, j as int);
                            }
                        }
                    }
                    if k == kv.0 && v == kv.1 {
                        assert(self@[j as int] == (k, v));
                    }
                    if k != kv.0 && has_entry(s0, k, v) {
                        let i = choose|i: int| 0 <= i < s0.len() && #[trigger] s0[i] == (k, v);
                        assert(i != j);
                        assert(self@[i] == (k, v));
                    }
                }
            }
        } else {
            self.entries.insert(j, (key, value));
            proof {
                assert(self@ =~= s0.insert(j as int, kv));
                if j < s0.len() {
                    lemma_after_bound(s0, j as int, kv.0);
                }
                assert forall|a: int, b: int| 0 <= a < b < self@.len() implies lex_lt(
                    #[trigger] self@[a].0,
                    #[trigger] self@[b].0,
                ) by {
                    if b < j {
                        assert(self@[a] == s0[a]);
                        assert(self@[b] == s0[b]);
                    } else if b == j {
                        assert(self@[a] == s0[a]);
                    } else if a < j {
                        assert(self@[a] == s0[a]);
                        assert(self@[b] == s0[b - 1]);
                        lemma_lex_transitive(s0[a].0, kv.0, s0[b - 1].0);
                    } else if a == j {
                        assert(self@[b] == s0[b - 1]);
                    } else {
                        assert(self@[a] == s0[a - 1]);
                        assert(self@[b] == s0[b - 1]);
                    }
                }
                assert forall|k: Seq<u8>, v: Option<Seq<u8>>|
                    #![trigger has_entry(self@, k, v)]
                    has_entry(self@, k, v) <==> ((k == kv.0 && v == kv.1) || (k != kv.0
                        && has_entry(s0, k, v))) by {
                    if has_entry(self@, k, v) {
                        let i = choose|i: int| 0 <= i < self@.len() && #[trigger] self@[i] == (k, v);
                        if i < j {
                            assert(s0[i] == (k, v));
                            assert(lex_lt(s0[i].0, kv.0));
                            if k == kv.0 {
                                lemma_lex_irreflexive(k);
                            }
                        } else if i > j {
                            assert(s0[i - 1] == (k, v));
                            if k == kv.0 {
                                assert(lex_lt(kv.0, s0[i - 1].0));
                                lemma_lex_irreflexive(k);
                            }
                        }
                    }
                    if k == kv.0 && v == kv.1 {
                        assert(self@[j as int] == (k, v));
                    }
                    if k != kv.0 && has_entry(s0, k, v) {
                        let i = choose|i: int| 0 <= i < s0.len() && #[trigger] s0[i] == (k, v);
                        if i < j {
                            assert(self@[i] == (k, v));
                        } else {
                            assert(self@[i + 1] == (k, v));
                        }
                    }
                }
            }
        }
    }

    /// Removes `key` and its value, when present; the entries stay sorted.
    pub fn remove(&mut self, key: &[u8])
        requires
            old(self).wf(),
        ensures
            final(self).wf(),
            forall|k: Seq<u8>, v: Option<Seq<u8>>|
                #![trigger has_entry(final(self)@, k, v)]
                has_entry(final(self)@, k, v) <==> (k != key@ && has_entry(old(self)@, k, v)),
    {
        let ghost s0 = self@;
        let j = self.lower_bound(key);
        let mut found = false;
        if j < self.entries.len() {
            proof {
                assert(self@[j as int] == entry_view(self.entries@[j as int]));
            }
            match order_keys(self.entries[j].0.as_slice(), key) {
                KeyOrder::Equal => {
                    found = true;
                },
                _ => {},
            }
        }
        assert(!found && j < s0.len() ==> s0[j as int].0 != key@);
        assert(found ==> j < s0.len() && s0[j as int].0 == key@);
        if found {
            self.entries.remove(j);
            proof {
                assert(self@ =~= s0.remove(j as int));
                assert forall|a: int, b: int| 0 <= a < b < self@.len() implies lex_lt(
                    #[trigger] self@[a].0,
                    #[trigger] self@[b].0,
                ) by {
                    if a < j && b < j {
                    } else if a < j {
                        assert(self@[b] == s0[b + 1]);
                    } else {
                        assert(self@[a] == s0[a + 1]);
                        assert(self@[b] == s0[b + 1]);
                    }
                }
                assert forall|k: Seq<u8>, v: Option<Seq<u8>>|
                    #![trigger has_entry(self@, k, v)]
                    has_entry(self@, k, v) implies (k != key@ && has_entry(s0, k, v)) by {
                    let i = choose|i: int| 0 <= i < self@.len() && #[trigger] self@[i] == (k, v);
                    if i < j {
                        assert(s0[i] == (k, v));
                        if k == key@ {
                            lemma_sorted_unique(s0, i, j as int);
                        }
                    } else {
                        assert(s0[i + 1] == (k, v));
                        if k == key@ {
                            lemma_sorted_unique(s0, i + 1, j as int);
                        }
                    }
                }
                assert forall|k: Seq<u8>, v: Option<Seq<u8>>|
                    #![trigger has_entry(self@, k, v)]
                    (k != key@ && has_entry(s0, k, v)) implies has_entry(self@, k, v) by {
                    let i = choose|i: int| 0 <= i < s0.len() && #[trigger] s0[i] == (k, v);
                    if i < j {
                        assert(self@[i] == (k, v));
                    } else {
                        assert(i != j);
                        assert(self@[i - 1] == (k, v));
                    }
                }
            }
        } else {
            proof {
                if j < s0.len() {
                    lemma_after_bound(s0, j as int, key@);
                }
                assert forall|k: Seq<u8>, v: Option<Seq<u8>>|
                    #![trigger has_entry(self@, k, v)]
                    has_entry(self@, k, v) implies (k != key@ && has_entry(s0, k, v)) by {
                    let i = choose|i: int| 0 <= i < self@.len() && #[trigger] self@[i] == (k, v);
                    assert(s0[i] == (k, v));
                    if k == key@ {
                        lemma_lex_irreflexive(k);
                        if i < j {
                            assert(lex_lt(s0[i].0, key@));
                        } else {
                            assert(lex_lt(key@, s0[i].0));
                        }
                    }
                }
            }
        }
    }
}

} // verus!
