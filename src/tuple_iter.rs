//! Lockstep iteration over several columns: the positions at which every
//! column has an element, stopping at the first column that runs out.

use vstd::prelude::*;

verus! {

/// The length of the shortest input; zero when there is no input.
pub open spec fn min_len(lens: Seq<usize>) -> nat
    decreases lens.len(),
{
    if lens.len() == 0 {
        0
    } else if lens.len() == 1 {
        lens[0] as nat
    } else {
        let m = min_len(lens.drop_last());
        if (lens.last() as nat) < m {
            lens.last() as nat
        } else {
            m
        }
    }
}

/// The positions `lo`, `lo + 1`, ..., `hi - 1`.
pub open spec fn positions(lo: int, hi: int) -> Seq<usize> {
    Seq::new(if lo < hi { (hi - lo) as nat } else { 0 }, |j: int| (lo + j) as usize)
}

/// Yields, once each and in order, the positions shared by all of its
/// input columns. It cannot be restarted.
pub struct TupleIter {
    pos: usize,
    end: usize,
}

impl View for TupleIter {
    type V = Seq<usize>;

    /// The positions still to come.
    closed spec fn view(&self) -> Seq<usize> {
        positions(self.pos as int, self.end as int)
    }
}

impl TupleIter {
    /// An iterator over columns with the given lengths.
    pub fn from(lens: &Vec<usize>) -> (r: TupleIter)
        ensures
            r@ == positions(0, min_len(lens@) as int),
            r@.len() == min_len(lens@),
    {
        let mut m: usize = 0;
        let mut i: usize = 0;
        while i < lens.len()
            invariant
                i <= lens.len(),
                m == min_len(lens@.subrange(0, i as int)),
            decreases lens.len() - i,
        {
            assert(lens@.subrange(0, i as int + 1).drop_last() =~= lens@.subrange(0, i as int));
            if i == 0 || lens[i] < m {
                m = lens[i];
            }
            i = i + 1;
        }
        assert(lens@.subrange(0, lens.len() as int) =~= lens@);
        TupleIter { pos: 0, end: m }
    }

    /// The next shared position, or `None` once the shortest column is used up.
    pub fn next(&mut self) -> (r: Option<usize>)
        ensures
            old(self)@.len() == 0 ==> r is None && final(self)@ == old(self)@,
            old(self)@.len() > 0 ==> r == Some(old(self)@[0]) && final(self)@ == old(self)@.drop_first(),
    {
        if self.pos < self.end {
            let p = self.pos;
            self.pos = self.pos + 1;
            assert(self@ =~= old(self)@.drop_first());
            Some(p)
        } else {
            None
        }
    }
}

/// The combined length is at most each input's length, and equals one of them.
pub proof fn lemma_min_len_is_min(lens: Seq<usize>)
    ensures
        forall|i: int| 0 <= i < lens.len() ==> min_len(lens) <= #[trigger] lens[i],
        lens.len() > 0 ==> exists|i: int| 0 <= i < lens.len() && min_len(lens) == #[trigger] lens[i],
    decreases lens.len(),
{
    if lens.len() > 1 {
        let init = lens.drop_last();
        lemma_min_len_is_min(init);
        assert forall|i: int| 0 <= i < lens.len() implies min_len(lens) <= #[trigger] lens[i] by {
            if i < lens.len() - 1 {
                assert(init[i] == lens[i]);
            }
        }
        let j = choose|j: int| 0 <= j < init.len() && min_len(init) == #[trigger] init[j];
        assert(init[j] == lens[j]);
        if (lens.last() as nat) < min_len(init) {
            assert(min_len(lens) == lens[lens.len() - 1]);
        } else {
            assert(min_len(lens) == lens[j]);
        }
    } else if lens.len() == 1 {
        assert(min_len(lens) == lens[0]);
    }
}

/// Lockstep iteration yields as many tuples as the shortest input has
/// elements: exactly `n` for inputs that all have length `n`, and none when
/// any input is empty.
pub proof fn lemma_tuple_count(lens: Seq<usize>, n: usize)
    ensures
        lens.len() > 0 && (forall|i: int| 0 <= i < lens.len() ==> #[trigger] lens[i] == n)
            ==> min_len(lens) == n,
        (exists|i: int| 0 <= i < lens.len() && #[trigger] lens[i] == 0) ==> min_len(lens) == 0,
        forall|i: int| 0 <= i < lens.len() ==> min_len(lens) <= #[trigger] lens[i],
{
    lemma_min_len_is_min(lens);
}

} // verus!
