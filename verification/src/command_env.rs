//! The environment changes of a command to be spawned: variables set,
//! variables removed, and whether the inherited environment is cleared;
//! and the environment that results from applying them.
use vstd::prelude::*;
use crate::env::pair_views;
use crate::keys::{
    EnvMap, entry_view, has_entry, has_key, lemma_lex_asymmetric, lemma_lex_irreflexive, lex_lt,
    sorted_keys,
};
use crate::util::copy_bytes;

verus! {

/// The key `PATH`.
pub open spec fn path_key() -> Seq<u8> {
    seq![80u8, 65u8, 84u8, 72u8]
}

/// The value a list of `KEY=VALUE` pairs gives `k`: the value of the last
/// pair for `k`, as later pairs override earlier ones.
pub open spec fn last_value(base: Seq<(Seq<u8>, Seq<u8>)>, k: Seq<u8>) -> Option<Seq<u8>>
    decreases base.len(),
{
    if base.len() == 0 {
        None
    } else if base.last().0 == k {
        Some(base.last().1)
    } else {
        last_value(base.drop_last(), k)
    }
}

/// Whether the pairs hold `k` with value `x`.
pub open spec fn has_pair(s: Seq<(Seq<u8>, Seq<u8>)>, k: Seq<u8>, x: Seq<u8>) -> bool {
    exists|i: int| 0 <= i < s.len() && #[trigger] s[i] == (k, x)
}

/// Whether the keys of the pairs increase strictly.
pub open spec fn sorted_pairs(s: Seq<(Seq<u8>, Seq<u8>)>) -> bool {
    forall|i: int, j: int| 0 <= i < j < s.len() ==> lex_lt(#[trigger] s[i].0, #[trigger] s[j].0)
}

/// The value `k` has once the changes `vars` are applied in order to an
/// environment in which it has `inherited`: the last change to `k` decides
/// (a value set, or `None` for a removal); without one it keeps what it
/// inherited.
pub open spec fn changed_value(
    vars: Seq<(Seq<u8>, Option<Seq<u8>>)>,
    k: Seq<u8>,
    inherited: Option<Seq<u8>>,
) -> Option<Seq<u8>>
    decreases vars.len(),
{
    if vars.len() == 0 {
        inherited
    } else if vars.last().0 == k {
        vars.last().1
    } else {
        changed_value(vars.drop_last(), k, inherited)
    }
}

/// The value `k` has in the environment of a spawned program: the changes
/// applied to the inherited environment `base`, or to an empty one when it
/// is cleared.
pub open spec fn captured_value(
    clear: bool,
    vars: Seq<(Seq<u8>, Option<Seq<u8>>)>,
    base: Seq<(Seq<u8>, Seq<u8>)>,
    k: Seq<u8>,
) -> Option<Seq<u8>> {
    changed_value(vars, k, if clear { None } else { last_value(base, k) })
}

/// Whether `s` is the environment of a spawned program: its pairs sorted
/// by key, each variable with its captured value.
pub open spec fn is_capture(
    s: Seq<(Seq<u8>, Seq<u8>)>,
    clear: bool,
    vars: Seq<(Seq<u8>, Option<Seq<u8>>)>,
    base: Seq<(Seq<u8>, Seq<u8>)>,
) -> bool {
    &&& sorted_pairs(s)
    &&& forall|k: Seq<u8>, x: Seq<u8>|
        #![trigger has_pair(s, k, x)]
        has_pair(s, k, x) <==> captured_value(clear, vars, base, k) == Some(x)
}

/// Two sorted lists of pairs with the same pairs are equal.
pub proof fn lemma_sorted_pairs_unique(s: Seq<(Seq<u8>, Seq<u8>)>, t: Seq<(Seq<u8>, Seq<u8>)>)
    requires
        sorted_pairs(s),
        sorted_pairs(t),
        forall|k: Seq<u8>, x: Seq<u8>| #![trigger has_pair(s, k, x)] #![trigger has_pair(t, k, x)]
            has_pair(s, k, x) <==> has_pair(t, k, x),
    ensures
        s == t,
    decreases s.len(),
{
    if s.len() == 0 {
        if t.len() > 0 {
            assert(has_pair(t, t[0].0, t[0].1));
        }
        assert(s =~= t);
    } else if t.len() == 0 {
        assert(has_pair(s, s[0].0, s[0].1));
    } else {
        assert(has_pair(s, s[0].0, s[0].1));
        assert(has_pair(t, t[0].0, t[0].1));
        let j = choose|j: int| 0 <= j < t.len() && #[trigger] t[j] == s[0];
        let i = choose|i: int| 0 <= i < s.len() && #[trigger] s[i] == t[0];
        if j > 0 && i > 0 {
            assert(lex_lt(t[0].0, t[j].0));
            assert(lex_lt(s[0].0, s[i].0));
            lemma_lex_asymmetric(t[0].0, s[0].0);
        } else if j > 0 {
            assert(lex_lt(t[0].0, t[j].0));
            lemma_lex_irreflexive(s[0].0);
        } else if i > 0 {
            assert(lex_lt(s[0].0, s[i].0));
            lemma_lex_irreflexive(t[0].0);
        }
        assert(s[0] == t[0]);
        let s1 = s.skip(1);
        let t1 = t.skip(1);
        assert forall|k: Seq<u8>, x: Seq<u8>|
            #![trigger has_pair(s1, k, x)]
            #![trigger has_pair(t1, k, x)]
            has_pair(s1, k, x) <==> has_pair(t1, k, x) by {
            if has_pair(s1, k, x) {
                let a = choose|a: int| 0 <= a < s1.len() && #[trigger] s1[a] == (k, x);
                assert(s[a + 1] == (k, x));
                assert(has_pair(s, k, x));
                let b = choose|b: int| 0 <= b < t.len() && #[trigger] t[b] == (k, x);
                if b == 0 {
                    assert(lex_lt(s[0].0, s[a + 1].0));
                    lemma_lex_irreflexive(k);
                }
                assert(t1[b - 1] == (k, x));
            }
            if has_pair(t1, k, x) {
                let b = choose|b: int| 0 <= b < t1.len() && #[trigger] t1[b] == (k, x);
                assert(t[b + 1] == (k, x));
                assert(has_pair(t, k, x));
                let a = choose|a: int| 0 <= a < s.len() && #[trigger] s[a] == (k, x);
                if a == 0 {
                    assert(lex_lt(t[0].0, t[b + 1].0));
                    lemma_lex_irreflexive(k);
                }
                assert(s1[a - 1] == (k, x));
            }
        }
        lemma_sorted_pairs_unique(s1, t1);
        assert(s =~= seq![s[0]] + s1);
        assert(t =~= seq![t[0]] + t1);
    }
}

/// The environment of a spawned program, as a sorted list of pairs.
pub open spec fn spec_capture(
    clear: bool,
    vars: Seq<(Seq<u8>, Option<Seq<u8>>)>,
    base: Seq<(Seq<u8>, Seq<u8>)>,
) -> Seq<(Seq<u8>, Seq<u8>)> {
    choose|s: Seq<(Seq<u8>, Seq<u8>)>| is_capture(s, clear, vars, base)
}

/// In entries sorted by key, applying the changes gives each key the value
/// stored with it.
pub proof fn lemma_changed_value(
    vars: Seq<(Seq<u8>, Option<Seq<u8>>)>,
    idx: int,
    inherited: Option<Seq<u8>>,
)
    requires
        sorted_keys(vars),
        0 <= idx < vars.len(),
    ensures
        changed_value(vars, vars[idx].0, inherited) == vars[idx].1,
    decreases vars.len(),
{
    let last = vars.len() - 1;
    if idx < last {
        assert(lex_lt(vars[idx].0, vars[last].0));
        lemma_lex_irreflexive(vars[idx].0);
        let init = vars.drop_last();
        assert(init[idx] == vars[idx]);
        lemma_changed_value(init, idx, inherited);
    }
}

/// Applying changes that do not touch `k` leaves it as inherited.
pub proof fn lemma_changed_value_untouched(
    vars: Seq<(Seq<u8>, Option<Seq<u8>>)>,
    k: Seq<u8>,
    inherited: Option<Seq<u8>>,
)
    requires
        !has_key(vars, k),
    ensures
        changed_value(vars, k, inherited) == inherited,
    decreases vars.len(),
{
    if vars.len() > 0 {
        let init = vars.drop_last();
        assert(vars[vars.len() - 1].0 != k);
        assert(!has_key(init, k)) by {
            if has_key(init, k) {
                let c = choose|c: int| 0 <= c < init.len() && #[trigger] init[c].0 == k;
                assert(vars[c].0 == k);
            }
        }
        lemma_changed_value_untouched(init, k, inherited);
    }
}

/// The environment changes of a command.
pub struct CommandEnv {
    clear: bool,
    saw_path: bool,
    vars: EnvMap,
}

impl CommandEnv {
    /// Whether the inherited environment is cleared.
    pub closed spec fn spec_clear(&self) -> bool {
        self.clear
    }

    /// Whether a change touched `PATH`.
    pub closed spec fn spec_saw_path(&self) -> bool {
        self.saw_path
    }

    /// The changes, sorted by key: a value to set, or `None` to remove.
    pub closed spec fn spec_vars(&self) -> Seq<(Seq<u8>, Option<Seq<u8>>)> {
        self.vars@
    }

    pub closed spec fn wf(&self) -> bool {
        self.vars.wf()
    }

    /// No changes.
    pub fn new() -> (e: CommandEnv)
        ensures
            e.wf(),
            !e.spec_clear(),
            !e.spec_saw_path(),
            e.spec_vars() == Seq::<(Seq<u8>, Option<Seq<u8>>)>::empty(),
    {
        CommandEnv { clear: false, saw_path: false, vars: EnvMap::new() }
    }

    fn maybe_saw_path(&mut self, key: &[u8])
        ensures
            final(self).clear == old(self).clear,
            final(self).vars == old(self).vars,
            final(self).saw_path == (old(self).saw_path || key@ == path_key()),
    {
        if !self.saw_path && key.len() == 4 && key[0] == 80u8 && key[1] == 65u8 && key[2] == 84u8
            && key[3] == 72u8 {
            proof {
                assert(key@ =~= path_key());
            }
            self.saw_path = true;
        }
    }

    /// Sets `key` to `value` in the spawned program's environment.
    pub fn set(&mut self, key: &[u8], value: &[u8])
        requires
            old(self).wf(),
        ensures
            final(self).wf(),
            final(self).spec_clear() == old(self).spec_clear(),
            final(self).spec_saw_path() == (old(self).spec_saw_path() || key@ == path_key()),
            forall|k: Seq<u8>, v: Option<Seq<u8>>|
                #![trigger has_entry(final(self).spec_vars(), k, v)]
                has_entry(final(self).spec_vars(), k, v) <==> ((k == key@ && v == Some(value@))
                    || (k != key@ && has_entry(old(self).spec_vars(), k, v))),
    {
        self.maybe_saw_path(key);
        self.vars.insert(copy_bytes(key), Some(copy_bytes(value)));
    }

    /// Removes `key` from the spawned program's environment: when the
    /// inherited environment is cleared any change to it is dropped,
    /// otherwise it is marked as removed.
    pub fn remove(&mut self, key: &[u8])
        requires
            old(self).wf(),
        ensures
            final(self).wf(),
            final(self).spec_clear() == old(self).spec_clear(),
            final(self).spec_saw_path() == (old(self).spec_saw_path() || key@ == path_key()),
            old(self).spec_clear() ==> forall|k: Seq<u8>, v: Option<Seq<u8>>|
                #![trigger has_entry(final(self).spec_vars(), k, v)]
                has_entry(final(self).spec_vars(), k, v) <==> (k != key@ && has_entry(
                    old(self).spec_vars(),
                    k,
                    v,
                )),
            !old(self).spec_clear() ==> forall|k: Seq<u8>, v: Option<Seq<u8>>|
                #![trigger has_entry(final(self).spec_vars(), k, v)]
                has_entry(final(self).spec_vars(), k, v) <==> ((k == key@ && v is None) || (k
                    != key@ && has_entry(old(self).spec_vars(), k, v))),
    {
        self.maybe_saw_path(key);
        if self.clear {
            self.vars.remove(key);
        } else {
            self.vars.insert(copy_bytes(key), None);
        }
    }

    /// Clears the inherited environment and drops all changes.
    pub fn clear(&mut self)
        ensures
            final(self).wf(),
            final(self).spec_clear(),
            final(self).spec_saw_path() == old(self).spec_saw_path(),
            final(self).spec_vars() == Seq::<(Seq<u8>, Option<Seq<u8>>)>::empty(),
    {
        self.clear = true;
        self.vars.clear();
    }

    /// Whether the inherited environment is cleared.
    pub fn does_clear(&self) -> (r: bool)
        ensures
            r == self.spec_clear(),
    {
        self.clear
    }

    /// Whether the spawned program may see a `PATH` other than the
    /// inherited one.
    pub fn have_changed_path(&self) -> (r: bool)
        ensures
            r == (self.spec_saw_path() || self.spec_clear()),
    {
        self.saw_path || self.clear
    }

    /// Whether there are no changes at all.
    pub fn is_unchanged(&self) -> (r: bool)
        ensures
            r == (!self.spec_clear() && self.spec_vars().len() == 0),
    {
        !self.clear && self.vars.is_empty()
    }

    /// The changes, sorted by key.
    pub fn iter(&self) -> (r: Vec<(Vec<u8>, Option<Vec<u8>>)>)
        ensures
            r@.map_values(|e: (Vec<u8>, Option<Vec<u8>>)| entry_view(e)) == self.spec_vars(),
    {
        self.vars.to_vec()
    }

    /// The environment of the spawned program: the inherited variables
    /// `base` (unless cleared; a later pair for the same key overrides an
    /// earlier one) with the changes applied, sorted by key.
    pub fn capture(&self, base: &Vec<(Vec<u8>, Vec<u8>)>) -> (r: Vec<(Vec<u8>, Vec<u8>)>)
        requires
            self.wf(),
        ensures
            is_capture(pair_views(r@), self.spec_clear(), self.spec_vars(), pair_views(base@)),
            pair_views(r@) == spec_capture(self.spec_clear(), self.spec_vars(), pair_views(base@)),
    {
        let ghost bv = pair_views(base@);
        let ghost vars = self.vars@;
        let mut res = EnvMap::new();
        if !self.clear {
            let mut i: usize = 0;
            while i < base.len()
                invariant
                    i <= base@.len(),
                    bv == pair_views(base@),
                    res.wf(),
                    forall|k: Seq<u8>, v: Option<Seq<u8>>|
                        #![trigger has_entry(res@, k, v)]
                        has_entry(res@, k, v) <==> (v is Some && v == last_value(bv.take(i as int), k)),
                decreases base.len() - i,
            {
                let ghost before = res@;
                let key = copy_bytes(base[i].0.as_slice());
                let value = copy_bytes(base[i].1.as_slice());
                res.insert(key, Some(value));
                proof {
                    let t = bv.take(i as int + 1);
                    assert(t.drop_last() =~= bv.take(i as int));
                    assert(t.last() == bv[i as int]);
                    assert(bv[i as int] == (base@[i as int].0@, base@[i as int].1@));
                    assert forall|k: Seq<u8>, v: Option<Seq<u8>>|
                        #![trigger has_entry(res@, k, v)]
                        has_entry(res@, k, v) <==> (v is Some && v == last_value(t, k)) by {
                        if k != key@ {
                            assert(has_entry(res@, k, v) <==> has_entry(before, k, v));
                        }
                    }
                }
                i = i + 1;
            }
            proof {
                assert(bv.take(base@.len() as int) =~= bv);
            }
        }
        let ghost inherited = |k: Seq<u8>| if self.clear { None } else { last_value(bv, k) };
        assert forall|k: Seq<u8>, v: Option<Seq<u8>>|
            #![trigger has_entry(res@, k, v)]
            has_entry(res@, k, v) <==> (v is Some && v == inherited(k)) by {
            if self.clear {
                assert(res@.len() == 0);
            }
        }
        let n = self.vars.len();
        let mut j: usize = 0;
        while j < n
            invariant
                j <= n,
                n == vars.len(),
                vars == self.vars@,
                sorted_keys(vars),
                res.wf(),
                forall|k: Seq<u8>, v: Option<Seq<u8>>|
                    #![trigger has_entry(res@, k, v)]
                    has_entry(res@, k, v) <==> (v is Some && v == changed_value(
                        vars.take(j as int),
                        k,
                        inherited(k),
                    )),
            decreases n - j,
        {
            let ghost before = res@;
            let (key, value) = self.vars.entry(j);
            let ghost kv = entry_view((key, value));
            let ghost pre = vars.take(j as int);
            let ghost post = vars.take(j as int + 1);
            proof {
                assert(kv == vars[j as int]);
                assert(post.drop_last() =~= pre);
                assert(post.last() == kv);
            }
            let ghost kview = key@;
            match value {
                Some(v) => {
                    res.insert(key, Some(v));
                },
                None => {
                    res.remove(key.as_slice());
                },
            }
            proof {
                assert forall|k: Seq<u8>, v: Option<Seq<u8>>|
                    #![trigger has_entry(res@, k, v)]
                    has_entry(res@, k, v) <==> (v is Some && v == changed_value(
                        post,
                        k,
                        inherited(k),
                    )) by {
                    assert(changed_value(post, k, inherited(k)) == if k == kv.0 {
                        kv.1
                    } else {
                        changed_value(pre, k, inherited(k))
                    });
                    if k != kview {
                        assert(has_entry(res@, k, v) <==> has_entry(before, k, v));
                    }
                }
            }
            j = j + 1;
        }
        proof {
            assert(vars.take(n as int) =~= vars);
        }
        let mut out: Vec<(Vec<u8>, Vec<u8>)> = Vec::new();
        let m = res.len();
        let mut p: usize = 0;
        while p < m
            invariant
                p <= m,
                m == res@.len(),
                res.wf(),
                forall|k: Seq<u8>, v: Option<Seq<u8>>|
                    #![trigger has_entry(res@, k, v)]
                    has_entry(res@, k, v) <==> (v is Some && v == changed_value(vars, k, inherited(k))),
                pair_views(out@).len() == p,
                forall|a: int| 0 <= a < p ==> #[trigger] pair_views(out@)[a] == (res@[a].0, res@[a].1->Some_0),
            decreases m - p,
        {
            let (key, value) = res.entry(p);
            proof {
                assert(has_entry(res@, res@[p as int].0, res@[p as int].1));
            }
            let v = match value {
                Some(v) => v,
                None => Vec::new(),
            };
            let ghost before = out@;
            out.push((key, v));
            proof {
                assert(pair_views(out@) =~= pair_views(before).push((key@, v@)));
            }
            p = p + 1;
        }
        proof {
            let o = pair_views(out@);
            let vb = pair_views(base@);
            assert(sorted_pairs(o)) by {
                assert forall|a: int, b: int| 0 <= a < b < o.len() implies lex_lt(
                    #[trigger] o[a].0,
                    #[trigger] o[b].0,
                ) by {
                    assert(o[a].0 == res@[a].0);
                    assert(o[b].0 == res@[b].0);
                }
            }
            assert forall|k: Seq<u8>, x: Seq<u8>|
                #![trigger has_pair(o, k, x)]
                has_pair(o, k, x) <==> captured_value(self.clear, vars, vb, k) == Some(x) by {
                assert(captured_value(self.clear, vars, vb, k) == changed_value(vars, k, inherited(k)));
                if has_pair(o, k, x) {
                    let a = choose|a: int| 0 <= a < o.len() && #[trigger] o[a] == (k, x);
                    assert(has_entry(res@, res@[a].0, res@[a].1));
                    assert(res@[a] == (k, Some(x)));
                    assert(has_entry(res@, k, Some(x)));
                }
                if captured_value(self.clear, vars, vb, k) == Some(x) {
                    assert(has_entry(res@, k, Some(x)));
                    let a = choose|a: int| 0 <= a < res@.len() && #[trigger] res@[a] == (k, Some(x));
                    assert(o[a] == (k, x));
                }
            }
            assert(is_capture(o, self.clear, vars, vb));
            let c = spec_capture(self.clear, vars, vb);
            assert(is_capture(c, self.clear, vars, vb));
            lemma_sorted_pairs_unique(o, c);
        }
        out
    }
}

/// A variable set by the changes has, in the spawned program's
/// environment, the value set — whatever was inherited.
pub proof fn lemma_capture_of_set(
    clear: bool,
    vars: Seq<(Seq<u8>, Option<Seq<u8>>)>,
    base: Seq<(Seq<u8>, Seq<u8>)>,
    k: Seq<u8>,
    v: Seq<u8>,
)
    requires
        sorted_keys(vars),
        has_entry(vars, k, Some(v)),
    ensures
        captured_value(clear, vars, base, k) == Some(v),
{
    let i = choose|i: int| 0 <= i < vars.len() && #[trigger] vars[i] == (k, Some(v));
    lemma_changed_value(vars, i, if clear { None } else { last_value(base, k) });
}

/// A variable removed by the changes is absent from the spawned program's
/// environment — whatever was inherited.
pub proof fn lemma_capture_of_removed(
    clear: bool,
    vars: Seq<(Seq<u8>, Option<Seq<u8>>)>,
    base: Seq<(Seq<u8>, Seq<u8>)>,
    k: Seq<u8>,
)
    requires
        sorted_keys(vars),
        has_entry(vars, k, None),
    ensures
        captured_value(clear, vars, base, k) is None,
{
    let i = choose|i: int| 0 <= i < vars.len() && #[trigger] vars[i] == (k, None::<Seq<u8>>);
    lemma_changed_value(vars, i, if clear { None } else { last_value(base, k) });
}

/// A variable the changes do not touch keeps its inherited value (the
/// last one given for it), or is absent when the environment is cleared.
pub proof fn lemma_capture_of_untouched(
    clear: bool,
    vars: Seq<(Seq<u8>, Option<Seq<u8>>)>,
    base: Seq<(Seq<u8>, Seq<u8>)>,
    k: Seq<u8>,
)
    requires
        !has_key(vars, k),
    ensures
        clear ==> captured_value(clear, vars, base, k) is None,
        !clear ==> captured_value(clear, vars, base, k) == last_value(base, k),
{
    lemma_changed_value_untouched(vars, k, if clear { None } else { last_value(base, k) });
}

} // verus!
