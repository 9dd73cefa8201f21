//! The environment of the running program: parsing its `KEY=VALUE`
//! entries and preparing keys and values for the C library.
use vstd::prelude::*;
use crate::error::{Error, ErrorKind};
use crate::util::{c_string_of, copy_bytes, has_nul, to_c_string};

verus! {

/// The byte `=` that separates key and value in an environment entry.
pub const EQUALS: u8 = 61;

/// Whether the entry holds a `=`.
pub open spec fn has_equals(e: Seq<u8>) -> bool {
    exists|i: int| 0 <= i < e.len() && e[i] == EQUALS
}

/// Whether `i` is the position of the first `=` in the entry.
pub open spec fn is_first_equals(e: Seq<u8>, i: int) -> bool {
    &&& 0 <= i < e.len()
    &&& e[i] == EQUALS
    &&& forall|j: int| 0 <= j < i ==> e[j] != EQUALS
}

/// The key and value of an entry with a `=`: the bytes before its first
/// `=`, and the bytes after it.
pub open spec fn env_split(e: Seq<u8>) -> (Seq<u8>, Seq<u8>) {
    let i = choose|i: int| is_first_equals(e, i);
    (e.take(i), e.skip(i + 1))
}

/// The variables of a list of entries, in order: each entry with a `=`
/// gives a key and a value; entries without one are left out.
pub open spec fn parse_env(entries: Seq<Seq<u8>>) -> Seq<(Seq<u8>, Seq<u8>)>
    decreases entries.len(),
{
    if entries.len() == 0 {
        Seq::empty()
    } else {
        let init = parse_env(entries.drop_last());
        if has_equals(entries.last()) {
            init.push(env_split(entries.last()))
        } else {
            init
        }
    }
}

/// The views of a sequence of key and value vectors.
pub open spec fn pair_views(v: Seq<(Vec<u8>, Vec<u8>)>) -> Seq<(Seq<u8>, Seq<u8>)> {
    v.map_values(|p: (Vec<u8>, Vec<u8>)| (p.0@, p.1@))
}

/// The key and value of one environment entry, split at its first `=`, or
/// `None` when it holds no `=`.
pub fn parse_env_entry(entry: &[u8]) -> (r: Option<(Vec<u8>, Vec<u8>)>)
    ensures
        !has_equals(entry@) ==> r is None,
        has_equals(entry@) ==> (r matches Some(kv) && (kv.0@, kv.1@) == env_split(entry@)),
{
    let mut i: usize = 0;
    while i < entry.len()
        invariant
            i <= entry.len(),
            forall|j: int| 0 <= j < i ==> entry@[j] != EQUALS,
        decreases entry.len() - i,
    {
        if entry[i] == EQUALS {
            proof {
                assert(is_first_equals(entry@, i as int));
                let k = choose|k: int| is_first_equals(entry@, k);
                assert(k == i as int);
            }
            let mut key: Vec<u8> = Vec::new();
            let mut j: usize = 0;
            while j < i
                invariant
                    j <= i < entry.len(),
                    key@ =~= entry@.take(j as int),
                decreases i - j,
            {
                key.push(entry[j]);
                j = j + 1;
            }
            let mut value: Vec<u8> = Vec::new();
            let mut k: usize = i + 1;
            while k < entry.len()
                invariant
                    i + 1 <= k <= entry.len(),
                    value@ =~= entry@.subrange(i as int + 1, k as int),
                decreases entry.len() - k,
            {
                value.push(entry[k]);
                k = k + 1;
            }
            proof {
                assert(value@ =~= entry@.skip(i as int + 1));
            }
            return Some((key, value));
        }
        i = i + 1;
    }
    None
}

/// A snapshot of the environment, handed out variable by variable.
pub struct Env {
    vars: Vec<(Vec<u8>, Vec<u8>)>,
    pos: usize,
}

impl Env {
    pub closed spec fn wf(&self) -> bool {
        self.pos <= self.vars@.len()
    }

    /// The variables not yet handed out, in order.
    pub closed spec fn remaining(&self) -> Seq<(Seq<u8>, Seq<u8>)> {
        pair_views(self.vars@).skip(self.pos as int)
    }

    /// The variables of the environment entries, in order; entries without
    /// a `=` are skipped.
    pub fn from_entries(entries: &Vec<Vec<u8>>) -> (r: Env)
        ensures
            r.wf(),
            r.remaining() == parse_env(entries@.map_values(|e: Vec<u8>| e@)),
    {
        let ghost ev = entries@.map_values(|e: Vec<u8>| e@);
        let mut vars: Vec<(Vec<u8>, Vec<u8>)> = Vec::new();
        let mut i: usize = 0;
        while i < entries.len()
            invariant
                i <= entries.len(),
                ev == entries@.map_values(|e: Vec<u8>| e@),
                pair_views(vars@) == parse_env(ev.take(i as int)),
            decreases entries.len() - i,
        {
            let ghost before = vars@;
            proof {
                assert(ev.take(i as int + 1).drop_last() =~= ev.take(i as int));
                assert(ev.take(i as int + 1).last() == entries@[i as int]@);
            }
            match parse_env_entry(entries[i].as_slice()) {
                Some(kv) => {
                    vars.push(kv);
                    proof {
                        assert(pair_views(vars@) =~= pair_views(before).push((kv.0@, kv.1@)));
                    }
                },
                None => {},
            }
            i = i + 1;
        }
        proof {
            assert(ev.take(entries@.len() as int) =~= ev);
        }
        let r = Env { vars, pos: 0 };
        proof {
            assert(r.remaining() =~= pair_views(r.vars@));
        }
        r
    }

    /// The variables still to come, in order (what the `Debug` output of
    /// the environment lists).
    pub fn to_vec(&self) -> (r: Vec<(Vec<u8>, Vec<u8>)>)
        requires
            self.wf(),
        ensures
            pair_views(r@) == self.remaining(),
    {
        let mut r: Vec<(Vec<u8>, Vec<u8>)> = Vec::new();
        let mut i: usize = self.pos;
        while i < self.vars.len()
            invariant
                self.wf(),
                self.pos <= i <= self.vars@.len(),
                pair_views(r@) == pair_views(self.vars@).subrange(self.pos as int, i as int),
            decreases self.vars@.len() - i,
        {
            let key = copy_bytes(self.vars[i].0.as_slice());
            let value = copy_bytes(self.vars[i].1.as_slice());
            let ghost before = r@;
            r.push((key, value));
            proof {
                assert(pair_views(self.vars@)[i as int] == (
                    self.vars@[i as int].0@,
                    self.vars@[i as int].1@,
                ));
                assert(pair_views(r@) =~= pair_views(before).push((key@, value@)));
                assert(pair_views(r@) =~= pair_views(self.vars@).subrange(self.pos as int, i + 1));
            }
            i = i + 1;
        }
        proof {
            assert(self.remaining() =~= pair_views(self.vars@).subrange(
                self.pos as int,
                self.vars@.len() as int,
            ));
        }
        r
    }

    /// How many variables are still to come.
    pub fn len(&self) -> (n: usize)
        requires
            self.wf(),
        ensures
            n == self.remaining().len(),
    {
        self.vars.len() - self.pos
    }

    /// The next variable.
    pub fn next(&mut self) -> (r: Option<(Vec<u8>, Vec<u8>)>)
        requires
            old(self).wf(),
        ensures
            final(self).wf(),
            old(self).remaining().len() == 0 ==> r is None && final(self).remaining()
                == old(self).remaining(),
            old(self).remaining().len() > 0 ==> (r matches Some(kv) && (kv.0@, kv.1@) == old(self).remaining()[0]) && final(self).remaining() == old(self).remaining().skip(1),
    {
        if self.pos >= self.vars.len() {
            return None;
        }
        let key = copy_bytes(self.vars[self.pos].0.as_slice());
        let value = copy_bytes(self.vars[self.pos].1.as_slice());
        proof {
            assert(pair_views(self.vars@)[self.pos as int] == (
                self.vars@[self.pos as int].0@,
                self.vars@[self.pos as int].1@,
            ));
        }
        self.pos = self.pos + 1;
        proof {
            assert(self.remaining() =~= old(self).remaining().skip(1));
        }
        Some((key, value))
    }
}

/// The key of a lookup as a C string, or `None` when it holds a NUL byte
/// (such a variable cannot exist, so the lookup finds nothing).
pub fn getenv_key(key: &[u8]) -> (r: Option<Vec<u8>>)
    ensures
        !has_nul(key@) ==> (r matches Some(v) && v@ == c_string_of(key@)),
        has_nul(key@) ==> r is None,
{
    to_c_string(key)
}

/// Whether `e` is the error for an environment key holding a NUL byte.
pub open spec fn is_key_nul_error(e: Error) -> bool {
    e.is_simple(ErrorKind::InvalidInput, "env key contains a NUL byte"@)
}

/// Whether `e` is the error for an environment value holding a NUL byte.
pub open spec fn is_value_nul_error(e: Error) -> bool {
    e.is_simple(ErrorKind::InvalidInput, "env value contains a NUL byte"@)
}

fn key_nul_error() -> (e: Error)
    ensures
        is_key_nul_error(e),
{
    let message = "env key contains a NUL byte";
    proof {
        reveal_strlit("env key contains a NUL byte");
    }
    Error::Simple { kind: ErrorKind::InvalidInput, message }
}

/// The key and value of `setenv` as C strings; fails with `InvalidInput`
/// when the key, or else the value, holds a NUL byte.
pub fn setenv(key: &[u8], value: &[u8]) -> (r: Result<(Vec<u8>, Vec<u8>), Error>)
    ensures
        has_nul(key@) ==> (r matches Err(e) && is_key_nul_error(e)),
        !has_nul(key@) && has_nul(value@) ==> (r matches Err(e) && is_value_nul_error(e)),
        !has_nul(key@) && !has_nul(value@) ==> (r matches Ok(kv) && kv.0@ == c_string_of(key@)
            && kv.1@ == c_string_of(value@)),
{
    let k = match to_c_string(key) {
        Some(k) => k,
        None => return Err(key_nul_error()),
    };
    let v = match to_c_string(value) {
        Some(v) => v,
        None => {
            let message = "env value contains a NUL byte";
            proof {
                reveal_strlit("env value contains a NUL byte");
            }
            return Err(Error::Simple { kind: ErrorKind::InvalidInput, message });
        },
    };
    Ok((k, v))
}

/// The key of `unsetenv` as a C string; fails with `InvalidInput` when it
/// holds a NUL byte.
pub fn unsetenv(key: &[u8]) -> (r: Result<Vec<u8>, Error>)
    ensures
        has_nul(key@) ==> (r matches Err(e) && is_key_nul_error(e)),
        !has_nul(key@) ==> (r matches Ok(k) && k@ == c_string_of(key@)),
{
    match to_c_string(key) {
        Some(k) => Ok(k),
        None => Err(key_nul_error()),
    }
}

/// The outcome of `setenv` or `unsetenv`: `0` is success, anything else
/// failure with the error left in `errno`.
pub fn env_call_result(ret: i32, errno: i32) -> (r: Result<(), Error>)
    ensures
        ret == 0 ==> r == Ok::<(), Error>(()),
        ret != 0 ==> r == Err::<(), Error>(Error::Os(errno)),
{
    crate::error::cvt_status(ret, errno)
}

/// An entry `KEY=VALUE` written from a key without `=` parses back into
/// that key and value.
pub proof fn lemma_env_entry_roundtrip(k: Seq<u8>, v: Seq<u8>)
    requires
        !has_equals(k),
    ensures
        has_equals(k.push(EQUALS) + v),
        env_split(k.push(EQUALS) + v) == (k, v),
{
    let e = k.push(EQUALS) + v;
    assert(e[k.len() as int] == EQUALS);
    assert(is_first_equals(e, k.len() as int)) by {
        assert forall|j: int| 0 <= j < k.len() implies e[j] != EQUALS by {
            assert(e[j] == k[j]);
        }
    }
    let i = choose|i: int| is_first_equals(e, i);
    if i < k.len() {
        assert(e[i] == k[i]);
    } else if i > k.len() {
        assert(e[k.len() as int] == EQUALS);
    }
    assert(i == k.len());
    assert(e.take(i) =~= k);
    assert(e.skip(i + 1) =~= v);
}

} // verus!
