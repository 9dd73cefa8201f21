//! The command-line arguments of the running program.
use vstd::prelude::*;
use crate::paths::views;
use crate::util::copy_bytes;

verus! {

/// The count of arguments kept at start-up: the count the program was
/// started with, or zero when that is negative.
pub fn init(argc: isize) -> (r: isize)
    ensures
        r == if argc < 0 { 0 } else { argc },
{
    if argc < 0 { 0 } else { argc }
}

/// The arguments of the program, handed out from both ends.
pub struct Args {
    items: Vec<Vec<u8>>,
    front: usize,
    back: usize,
}

impl Args {
    pub closed spec fn wf(&self) -> bool {
        self.front <= self.back <= self.items@.len()
    }

    /// The arguments not yet handed out, in order.
    pub closed spec fn remaining(&self) -> Seq<Seq<u8>> {
        views(self.items@).subrange(self.front as int, self.back as int)
    }

    /// The arguments read at start-up, in order.
    pub fn from_vec(items: Vec<Vec<u8>>) -> (a: Args)
        ensures
            a.wf(),
            a.remaining() == views(items@),
    {
        let n = items.len();
        let a = Args { items, front: 0, back: n };
        proof {
            assert(a.remaining() =~= views(a.items@));
        }
        a
    }

    /// The arguments still to come, in order (what the `Debug` output of
    /// the arguments lists).
    pub fn to_vec(&self) -> (r: Vec<Vec<u8>>)
        requires
            self.wf(),
        ensures
            views(r@) == self.remaining(),
    {
        let mut r: Vec<Vec<u8>> = Vec::new();
        let mut i: usize = self.front;
        while i < self.back
            invariant
                self.wf(),
                self.front <= i <= self.back,
                views(r@) == views(self.items@).subrange(self.front as int, i as int),
            decreases self.back - i,
        {
            let v = copy_bytes(self.items[i].as_slice());
            let ghost before = r@;
            r.push(v);
            proof {
                assert(views(self.items@)[i as int] == self.items@[i as int]@);
                assert(views(r@) =~= views(before).push(v@));
                assert(views(r@) =~= views(self.items@).subrange(self.front as int, i + 1));
            }
            i = i + 1;
        }
        r
    }

    /// How many arguments are still to come.
    pub fn len(&self) -> (n: usize)
        requires
            self.wf(),
        ensures
            n == self.remaining().len(),
    {
        self.back - self.front
    }

    /// The next argument from the front.
    pub fn next(&mut self) -> (r: Option<Vec<u8>>)
        requires
            old(self).wf(),
        ensures
            final(self).wf(),
            old(self).remaining().len() == 0 ==> r is None && final(self).remaining()
                == old(self).remaining(),
            old(self).remaining().len() > 0 ==> (r matches Some(v) && v@ == old(self).remaining()[0]) && final(self).remaining() == old(self).remaining().skip(1),
    {
        if self.front >= self.back {
            return None;
        }
        let v = copy_bytes(self.items[self.front].as_slice());
        proof {
            assert(views(self.items@)[self.front as int] == self.items@[self.front as int]@);
        }
        self.front = self.front + 1;
        proof {
            assert(self.remaining() =~= old(self).remaining().skip(1));
        }
        Some(v)
    }

    /// The next argument from the back.
    pub fn next_back(&mut self) -> (r: Option<Vec<u8>>)
        requires
            old(self).wf(),
        ensures
            final(self).wf(),
            old(self).remaining().len() == 0 ==> r is None && final(self).remaining()
                == old(self).remaining(),
            old(self).remaining().len() > 0 ==> (r matches Some(v) && v@ == old(self).remaining().last()) && final(self).remaining() == old(self).remaining().drop_last(),
    {
        if self.front >= self.back {
            return None;
        }
        self.back = self.back - 1;
        let v = copy_bytes(self.items[self.back].as_slice());
        proof {
            assert(views(self.items@)[self.back as int] == self.items@[self.back as int]@);
            assert(self.remaining() =~= old(self).remaining().drop_last());
        }
        Some(v)
    }
}

} // verus!
