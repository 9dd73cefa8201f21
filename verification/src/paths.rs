//! Search-path lists (`PATH`-style strings separated by `:`), joining of
//! paths, and the locations the platform reports (current executable,
//! temporary and home directories).
use vstd::prelude::*;
use crate::error::{Error, ErrorKind};
use crate::util::{append_bytes, copy_bytes, is_until_nul, until_nul};

verus! {

/// The byte `:` that separates the entries of a search-path list.
pub const COLON: u8 = 58;

/// The path separator `/`.
pub const SLASH: u8 = 47;

/// Whether the byte string holds no `:`.
pub open spec fn colon_free(s: Seq<u8>) -> bool {
    forall|i: int| 0 <= i < s.len() ==> s[i] != COLON
}

/// The pieces of `s` between its `:` separators, in order: one more piece
/// than there are separators, empty pieces included.
pub open spec fn split_colon(s: Seq<u8>) -> Seq<Seq<u8>>
    decreases s.len(),
{
    if s.len() == 0 {
        seq![Seq::<u8>::empty()]
    } else {
        let p = split_colon(s.drop_last());
        if s.last() == COLON {
            p.push(Seq::<u8>::empty())
        } else {
            p.update(p.len() - 1, p.last().push(s.last()))
        }
    }
}

/// The entries joined with `:` between each two of them.
pub open spec fn join_colon(segs: Seq<Seq<u8>>) -> Seq<u8>
    decreases segs.len(),
{
    if segs.len() == 0 {
        Seq::<u8>::empty()
    } else if segs.len() == 1 {
        segs[0]
    } else {
        join_colon(segs.drop_last()).push(COLON) + segs.last()
    }
}

/// The views of a sequence of byte vectors.
pub open spec fn views(v: Seq<Vec<u8>>) -> Seq<Seq<u8>> {
    v.map_values(|x: Vec<u8>| x@)
}

/// The path that a piece of a search-path list stands for: an empty piece
/// stands for the current directory `.`.
pub open spec fn path_of_piece(piece: Seq<u8>) -> Seq<u8> {
    if piece.len() == 0 {
        seq![46u8]
    } else {
        piece
    }
}

/// Whether the path is absolute (starts with `/`).
pub open spec fn is_absolute(p: Seq<u8>) -> bool {
    p.len() > 0 && p[0] == SLASH
}

/// `base` extended by `p`: `p` itself when it is absolute; otherwise `p`
/// appended to `base`, with a `/` between them when `base` is not empty and
/// does not already end in one.
pub open spec fn path_join(base: Seq<u8>, p: Seq<u8>) -> Seq<u8> {
    if is_absolute(p) {
        p
    } else if base.len() > 0 && base.last() != SLASH {
        base.push(SLASH) + p
    } else {
        base + p
    }
}

/// A split of a byte string always has at least one piece.
pub proof fn lemma_split_nonempty(s: Seq<u8>)
    ensures
        split_colon(s).len() >= 1,
    decreases s.len(),
{
    if s.len() > 0 {
        lemma_split_nonempty(s.drop_last());
    }
}

/// Appending bytes without a `:` extends the last piece of the split.
pub proof fn lemma_split_append_colon_free(x: Seq<u8>, b: Seq<u8>)
    requires
        colon_free(b),
    ensures
        split_colon(x + b) == {
            let p = split_colon(x);
            p.update(p.len() - 1, p.last() + b)
        },
    decreases b.len(),
{
    lemma_split_nonempty(x);
    if b.len() == 0 {
        assert(x + b =~= x);
        let p = split_colon(x);
        assert(p.last() + b =~= p.last());
        assert(p.update(p.len() - 1, p.last() + b) =~= p);
    } else {
        let b0 = b.drop_last();
        assert(colon_free(b0));
        lemma_split_append_colon_free(x, b0);
        assert((x + b).drop_last() =~= x + b0);
        assert((x + b).last() == b.last());
        let p = split_colon(x);
        let q = split_colon(x + b0);
        assert(q.len() == p.len());
        assert(q.last() == p.last() + b0);
        assert(q.last().push(b.last()) =~= p.last() + b);
        assert(q.update(q.len() - 1, q.last().push(b.last())) =~= p.update(
            p.len() - 1,
            p.last() + b,
        ));
    }
}

/// Splitting the joined entries gives the entries back, when there is at
/// least one entry and none holds a `:`.
pub proof fn lemma_split_join(segs: Seq<Seq<u8>>)
    requires
        segs.len() >= 1,
        forall|i: int| 0 <= i < segs.len() ==> colon_free(#[trigger] segs[i]),
    ensures
        split_colon(join_colon(segs)) == segs,
    decreases segs.len(),
{
    if segs.len() == 1 {
        lemma_split_append_colon_free(Seq::<u8>::empty(), segs[0]);
        assert(Seq::<u8>::empty() + segs[0] =~= segs[0]);
        assert(split_colon(Seq::<u8>::empty()) =~= seq![Seq::<u8>::empty()]);
        assert(Seq::<u8>::empty() + segs[0] =~= segs[0]);
        assert(split_colon(segs[0]) =~= seq![segs[0]]);
        assert(segs =~= seq![segs[0]]);
    } else {
        let init = segs.drop_last();
        assert forall|i: int| 0 <= i < init.len() implies colon_free(#[trigger] init[i]) by {
            assert(init[i] == segs[i]);
        }
        lemma_split_join(init);
        let a = join_colon(init).push(COLON);
        assert(a.drop_last() =~= join_colon(init));
        assert(split_colon(a) =~= split_colon(join_colon(init)).push(Seq::<u8>::empty()));
        lemma_split_append_colon_free(a, segs.last());
        let p = split_colon(a);
        assert(p =~= init.push(Seq::<u8>::empty()));
        assert(Seq::<u8>::empty() + segs.last() =~= segs.last());
        assert(p.update(p.len() - 1, p.last() + segs.last()) =~= segs);
    }
}

/// Joining an extended last entry extends the joined bytes.
proof fn lemma_join_extend_last(segs: Seq<Seq<u8>>, b: u8)
    requires
        segs.len() >= 1,
    ensures
        join_colon(segs.update(segs.len() - 1, segs.last().push(b))) == join_colon(segs).push(b),
{
    let t = segs.update(segs.len() - 1, segs.last().push(b));
    if segs.len() == 1 {
    } else {
        assert(t.drop_last() =~= segs.drop_last());
        assert(join_colon(segs.drop_last()).push(COLON) + segs.last().push(b) =~= (join_colon(
            segs.drop_last(),
        ).push(COLON) + segs.last()).push(b));
    }
}

/// Joining the pieces of a split gives the split bytes back.
pub proof fn lemma_join_split(s: Seq<u8>)
    ensures
        join_colon(split_colon(s)) == s,
    decreases s.len(),
{
    if s.len() == 0 {
    } else {
        let p0 = s.drop_last();
        lemma_join_split(p0);
        lemma_split_nonempty(p0);
        let p = split_colon(p0);
        if s.last() == COLON {
            let q = p.push(Seq::<u8>::empty());
            assert(q.drop_last() =~= p);
            assert(join_colon(p).push(COLON) + Seq::<u8>::empty() =~= s);
        } else {
            lemma_join_extend_last(p, s.last());
            assert(p0.push(s.last()) =~= s);
        }
    }
}

/// The remaining entries of a search-path list, as `split_paths` hands
/// them out.
pub struct SplitPaths {
    pieces: Vec<Vec<u8>>,
    pos: usize,
}

impl SplitPaths {
    /// The pieces not yet handed out.
    pub closed spec fn remaining(&self) -> Seq<Seq<u8>> {
        views(self.pieces@).skip(self.pos as int)
    }

    pub closed spec fn wf(&self) -> bool {
        self.pos <= self.pieces@.len()
    }

    /// The next entry, as a path: an empty entry stands for `.`.
    pub fn next(&mut self) -> (r: Option<Vec<u8>>)
        requires
            old(self).wf(),
        ensures
            final(self).wf(),
            old(self).remaining().len() == 0 ==> r is None && final(self).remaining()
                == old(self).remaining(),
            old(self).remaining().len() > 0 ==> (r matches Some(p) && p@ == path_of_piece(
                old(self).remaining()[0],
            )) && final(self).remaining() == old(self).remaining().skip(1),
    {
        if self.pos >= self.pieces.len() {
            return None;
        }
        let piece = &self.pieces[self.pos];
        let out = if piece.len() == 0 {
            vec![46u8]
        } else {
            piece.clone()
        };
        proof {
            assert(views(self.pieces@)[self.pos as int] == self.pieces@[self.pos as int]@);
        }
        self.pos = self.pos + 1;
        proof {
            assert(self.remaining() =~= old(self).remaining().skip(1));
        }
        Some(out)
    }

    /// How many entries are still to come.
    pub fn len(&self) -> (n: usize)
        requires
            self.wf(),
        ensures
            n == self.remaining().len(),
    {
        self.pieces.len() - self.pos
    }
}

/// The entries of a `:`-separated search-path list, in order; an empty
/// entry stands for the current directory `.`.
pub fn split_paths(unparsed: &[u8]) -> (r: SplitPaths)
    ensures
        r.wf(),
        r.remaining() == split_colon(unparsed@),
{
    let mut pieces: Vec<Vec<u8>> = Vec::new();
    let mut cur: Vec<u8> = Vec::new();
    let mut i: usize = 0;
    while i < unparsed.len()
        invariant
            i <= unparsed.len(),
            views(pieces@).push(cur@) == split_colon(unparsed@.take(i as int)),
        decreases unparsed.len() - i,
    {
        let b = unparsed[i];
        proof {
            let t = unparsed@.take(i as int + 1);
            assert(t.drop_last() =~= unparsed@.take(i as int));
            assert(t.last() == b);
        }
        if b == COLON {
            let ghost old_pieces = pieces@;
            let ghost old_cur = cur@;
            pieces.push(cur);
            cur = Vec::new();
            proof {
                assert(views(pieces@) =~= views(old_pieces).push(old_cur));
            }
        } else {
            cur.push(b);
        }
        i = i + 1;
    }
    proof {
        assert(unparsed@.take(unparsed@.len() as int) =~= unparsed@);
    }
    pieces.push(cur);
    let r = SplitPaths { pieces, pos: 0 };
    proof {
        assert(r.remaining() =~= views(pieces@));
    }
    r
}

/// Whether the byte string holds a `:`.
pub fn contains_colon(s: &[u8]) -> (r: bool)
    ensures
        r == !colon_free(s@),
{
    let mut i: usize = 0;
    while i < s.len()
        invariant
            i <= s.len(),
            forall|j: int| 0 <= j < i ==> s@[j] != COLON,
        decreases s.len() - i,
    {
        if s[i] == COLON {
            return true;
        }
        i = i + 1;
    }
    false
}

/// The error of `join_paths`: an entry holds the separator `:`.
#[derive(Debug, Clone, Copy, PartialEq, Eq, Structural)]
pub struct JoinPathsError;

impl JoinPathsError {
    /// The description of this error.
    pub fn to_string(&self) -> (s: String)
        ensures
            s@ == "path segment contains separator ':'"@,
    {
        "path segment contains separator ':'".to_owned()
    }
}

/// The entries joined into one search-path list with `:` between them;
/// fails when an entry holds a `:` itself.
pub fn join_paths(paths: &Vec<Vec<u8>>) -> (r: Result<Vec<u8>, JoinPathsError>)
    ensures
        (forall|i: int| 0 <= i < paths@.len() ==> colon_free(#[trigger] paths@[i]@)) ==> (r matches Ok(
            v,
        ) && v@ == join_colon(views(paths@))),
        (exists|i: int| 0 <= i < paths@.len() && !colon_free(#[trigger] paths@[i]@)) ==> r
            is Err,
{
    let mut joined: Vec<u8> = Vec::new();
    let mut i: usize = 0;
    while i < paths.len()
        invariant
            i <= paths.len(),
            forall|j: int| 0 <= j < i ==> colon_free(#[trigger] paths@[j]@),
            joined@ == join_colon(views(paths@).take(i as int)),
        decreases paths.len() - i,
    {
        let bytes = paths[i].as_slice();
        if contains_colon(bytes) {
            return Err(JoinPathsError);
        }
        let ghost before = joined@;
        if i > 0 {
            joined.push(COLON);
        }
        append_bytes(&mut joined, bytes);
        proof {
            let t = views(paths@).take(i as int + 1);
            assert(t.drop_last() =~= views(paths@).take(i as int));
            assert(t.last() == paths@[i as int]@);
            if i == 0 {
                assert(t =~= seq![paths@[0]@]);
                assert(Seq::<u8>::empty() + bytes@ =~= bytes@);
            }
        }
        i = i + 1;
    }
    proof {
        assert(views(paths@).take(paths@.len() as int) =~= views(paths@));
    }
    Ok(joined)
}

/// `base` extended by `p` as a path: `p` when it is absolute, otherwise
/// `p` appended after a `/`.
pub fn join_path(base: &[u8], p: &[u8]) -> (r: Vec<u8>)
    ensures
        r@ == path_join(base@, p@),
{
    if p.len() > 0 && p[0] == SLASH {
        return copy_bytes(p);
    }
    let mut r = copy_bytes(base);
    if base.len() > 0 && base[base.len() - 1] != SLASH {
        r.push(SLASH);
    }
    append_bytes(&mut r, p);
    r
}

/// Whether `e` is the error for a missing program name.
pub open spec fn is_argv0_missing_error(e: Error) -> bool {
    e.is_simple(ErrorKind::NotFound, "argv[0] empty"@)
}

/// The path of the running program: the program name `argv0` when it is
/// absolute, otherwise the name resolved against the current directory
/// `cwd` (whose failure is reported when it is needed). Fails with
/// `NotFound` when there is no program name.
pub fn current_exe(argv0: Option<Vec<u8>>, cwd: Result<Vec<u8>, Error>) -> (r: Result<
    Vec<u8>,
    Error,
>)
    ensures
        argv0 is None ==> (r matches Err(e) && is_argv0_missing_error(e)),
        argv0 matches Some(p) ==> (is_absolute(p@) ==> (r matches Ok(v) && v@ == p@)),
        argv0 matches Some(p) ==> (!is_absolute(p@) ==> match cwd {
            Ok(c) => r matches Ok(v) && v@ == path_join(c@, p@),
            Err(e) => r == Err::<Vec<u8>, Error>(e),
        }),
{
    match argv0 {
        None => {
            let message = "argv[0] empty";
            proof {
                reveal_strlit("argv[0] empty");
            }
            Err(Error::Simple { kind: ErrorKind::NotFound, message })
        },
        Some(path) => {
            if path.len() > 0 && path[0] == SLASH {
                Ok(path)
            } else {
                match cwd {
                    Ok(c) => Ok(join_path(c.as_slice(), path.as_slice())),
                    Err(e) => Err(e),
                }
            }
        },
    }
}

/// What finding the running program's path takes, decided from the
/// program name alone.
#[derive(Debug)]
pub enum CurrentExeStep {
    /// The answer, which needs no current directory: the absolute program
    /// name, or the error for a missing one.
    Done(Result<Vec<u8>, Error>),
    /// The program name is relative: ask for the current directory and
    /// resolve this name against it with `current_exe`.
    NeedsCwd(Vec<u8>),
}

/// The first step of `current_exe`: whether the current directory is
/// needed at all. It is needed exactly when the program name is relative;
/// an absolute name, or a missing one, is answered at once.
pub fn current_exe_step(argv0: Option<Vec<u8>>) -> (r: CurrentExeStep)
    ensures
        argv0 is None ==> (r matches CurrentExeStep::Done(Err(e)) && is_argv0_missing_error(e)),
        argv0 matches Some(p) ==> (is_absolute(p@) ==> (r matches CurrentExeStep::Done(Ok(v)) && v@
            == p@)),
        argv0 matches Some(p) ==> (!is_absolute(p@) ==> (r matches CurrentExeStep::NeedsCwd(q)
            && q@ == p@)),
{
    match argv0 {
        None => CurrentExeStep::Done(current_exe(None, Ok(Vec::new()))),
        Some(path) => {
            if path.len() > 0 && path[0] == SLASH {
                CurrentExeStep::Done(Ok(path))
            } else {
                CurrentExeStep::NeedsCwd(path)
            }
        },
    }
}

/// The directory for temporary files: `/tmp`.
pub fn temp_dir() -> (r: Vec<u8>)
    ensures
        r@ == seq![47u8, 116u8, 109u8, 112u8],
{
    vec![47u8, 116u8, 109u8, 112u8]
}

/// The home directory: the value of the `HOME` variable, when it is set.
pub fn home_dir(home: Option<Vec<u8>>) -> (r: Option<Vec<u8>>)
    ensures
        r == home,
{
    home
}

/// The current directory from the buffer that `getcwd` filled: the bytes
/// before the first NUL. When the call reported failure (`succeeded` is
/// false) the error is the one left in `errno`.
pub fn getcwd_result(buf: &[u8], succeeded: bool, errno: i32) -> (r: Result<Vec<u8>, Error>)
    ensures
        succeeded ==> (r matches Ok(v) && is_until_nul(buf@, v@)),
        !succeeded ==> r == Err::<Vec<u8>, Error>(Error::Os(errno)),
{
    if !succeeded {
        return Err(Error::from_raw_os_error(errno));
    }
    Ok(until_nul(buf))
}

/// The outcome of `chdir`: only the return value `-1` reports failure,
/// with the error left in `errno`.
pub fn chdir_result(ret: i32, errno: i32) -> (r: Result<(), Error>)
    ensures
        ret == -1 ==> r == Err::<(), Error>(Error::Os(errno)),
        ret != -1 ==> r == Ok::<(), Error>(()),
{
    if ret == -1 {
        return Err(Error::from_raw_os_error(errno));
    }
    Ok(())
}

/// Splitting a list joined by `join_paths` gives back the entries, when
/// there is at least one entry and none of them is empty or holds a `:`:
/// each entry is then its own path.
pub proof fn lemma_split_paths_join_paths(segs: Seq<Seq<u8>>)
    requires
        segs.len() >= 1,
        forall|i: int| 0 <= i < segs.len() ==> colon_free(#[trigger] segs[i]),
        forall|i: int| 0 <= i < segs.len() ==> #[trigger] segs[i].len() > 0,
    ensures
        split_colon(join_colon(segs)) == segs,
        forall|i: int| 0 <= i < segs.len() ==> path_of_piece(#[trigger] segs[i]) == segs[i],
{
    lemma_split_join(segs);
}

} // verus!
