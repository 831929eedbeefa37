use vstd::prelude::*;
use crate::data::{DataError, write_outcome};

verus! {

/// A region of the arena handed out by [`SliceBuffer::take_slice`]:
/// `len` bytes starting at byte offset `start`.
#[derive(Debug, Clone, Copy, PartialEq, Eq, Structural)]
pub struct Slice {
    pub start: usize,
    pub len: usize,
}

impl Slice {
    /// First byte offset past the region.
    pub open spec fn end(self) -> int {
        self.start + self.len
    }

    /// Two regions share no byte.
    pub open spec fn disjoint(self, other: Slice) -> bool {
        self.end() <= other.start || other.end() <= self.start
    }

    /// Number of bytes in the region.
    pub fn len(&self) -> (r: usize)
        ensures
            r == self.len,
    {
        self.len
    }
}

/// Fixed-capacity byte arena of `N` bytes that carves disjoint regions from
/// its unused tail by advancing a cursor. The bytes of a region are read with
/// [`SliceBuffer::get_slice`] and written with [`SliceBuffer::try_set_region`].
/// Regions are never given back.
#[derive(Debug)]
pub struct SliceBuffer<const N: usize> {
    buffer: [u8; N],
    index: usize,
}

/// What asking an arena of capacity `cap`, whose cursor stands at `cursor`,
/// for `size` bytes yields: the region, or the number of missing bytes.
pub open spec fn take_outcome(cursor: usize, cap: usize, size: usize) -> Result<Slice, usize> {
    if size as int <= cap - cursor {
        Ok(Slice { start: cursor, len: size })
    } else {
        Err((size - (cap - cursor)) as usize)
    }
}

/// The cursor after asking for `size` bytes: advanced on success, kept on failure.
pub open spec fn cursor_after(cursor: usize, cap: usize, size: usize) -> usize {
    match take_outcome(cursor, cap, size) {
        Ok(s) => (cursor + s.len) as usize,
        Err(_) => cursor,
    }
}

/// Total of the first `k` requested sizes.
pub open spec fn prefix_sum(sizes: Seq<usize>, k: int) -> int
    decreases k,
{
    if k <= 0 {
        0
    } else {
        prefix_sum(sizes, k - 1) + sizes[k - 1]
    }
}

/// The region that the `k`-th of a series of requests gets from a fresh arena.
pub open spec fn region_of(sizes: Seq<usize>, k: int) -> Slice {
    Slice { start: prefix_sum(sizes, k) as usize, len: sizes[k] }
}

proof fn lemma_prefix_sum_mono(sizes: Seq<usize>, i: int, j: int)
    requires
        0 <= i <= j <= sizes.len(),
    ensures
        0 <= prefix_sum(sizes, i) <= prefix_sum(sizes, j),
    decreases j,
{
    if i < j {
        lemma_prefix_sum_mono(sizes, i, j - 1);
    } else if j > 0 {
        lemma_prefix_sum_mono(sizes, i - 1, j - 1);
    }
}

/// Requests to a fresh arena of capacity `cap` whose sizes total at most `cap`
/// all succeed: the `k`-th gets `region_of(sizes, k)` and moves the cursor to
/// the end of it, the regions lie within the first `cap` bytes, and no two of
/// them overlap.
pub proof fn lemma_regions_disjoint(cap: usize, sizes: Seq<usize>)
    requires
        prefix_sum(sizes, sizes.len() as int) <= cap,
    ensures
        forall|k: int|
            0 <= k < sizes.len() ==> take_outcome(prefix_sum(sizes, k) as usize, cap, sizes[k])
                == Ok::<Slice, usize>(region_of(sizes, k)) && cursor_after(
                prefix_sum(sizes, k) as usize,
                cap,
                sizes[k],
            ) == prefix_sum(sizes, k + 1) && region_of(sizes, k).end() <= cap,
        forall|i: int, j: int|
            0 <= i < j < sizes.len() ==> #[trigger] region_of(sizes, i).disjoint(
                #[trigger] region_of(sizes, j),
            ),
{
    let n = sizes.len() as int;
    assert forall|k: int| 0 <= k < n implies take_outcome(prefix_sum(sizes, k) as usize, cap, sizes[k])
        == Ok::<Slice, usize>(region_of(sizes, k)) && cursor_after(
        prefix_sum(sizes, k) as usize,
        cap,
        sizes[k],
    ) == prefix_sum(sizes, k + 1) && region_of(sizes, k).end() <= cap by {
        lemma_prefix_sum_mono(sizes, k, k + 1);
        lemma_prefix_sum_mono(sizes, k + 1, n);
    }
    assert forall|i: int, j: int| 0 <= i < j < n implies #[trigger] region_of(sizes, i).disjoint(
        #[trigger] region_of(sizes, j),
    ) by {
        lemma_prefix_sum_mono(sizes, i + 1, j);
        lemma_prefix_sum_mono(sizes, j, n);
        lemma_prefix_sum_mono(sizes, i, i + 1);
    }
}

/// A request that fails leaves the cursor where it was, so any request made
/// after it gets what it would have got had the failing one never been made.
pub proof fn lemma_failed_take_keeps_cursor(cursor: usize, cap: usize, big: usize, small: usize)
    requires
        cursor <= cap,
        take_outcome(cursor, cap, big) is Err,
    ensures
        cursor_after(cursor, cap, big) == cursor,
        take_outcome(cursor_after(cursor, cap, big), cap, small) == take_outcome(cursor, cap, small),
{
}

impl<const N: usize> SliceBuffer<N> {
    /// The cursor: every byte below it has been handed out.
    pub closed spec fn cursor(&self) -> usize {
        self.index
    }

    /// The arena's bytes.
    pub closed spec fn contents(&self) -> Seq<u8> {
        self.buffer@
    }

    /// The cursor never passes the end of the arena.
    pub open spec fn wf(&self) -> bool {
        self.cursor() <= N
    }

    /// A fresh arena: all bytes zero, nothing handed out.
    pub fn new() -> (r: Self)
        ensures
            r.wf(),
            r.cursor() == 0,
            r.contents() == Seq::new(N as nat, |i: int| 0u8),
    {
        let r = Self { buffer: [0u8; N], index: 0 };
        assert(r.buffer@ =~= Seq::new(N as nat, |i: int| 0u8));
        r
    }

    /// Hands out the next `size` bytes of the unused tail, or reports how many
    /// bytes are missing, leaving the arena as it was.
    pub fn take_slice(&mut self, size: usize) -> (r: Result<Slice, usize>)
        requires
            old(self).wf(),
        ensures
            final(self).wf(),
            r == take_outcome(old(self).cursor(), N, size),
            final(self).cursor() == cursor_after(old(self).cursor(), N, size),
            final(self).contents() == old(self).contents(),
    {
        let remain = N - self.index;
        if size <= remain {
            let s = Slice { start: self.index, len: size };
            self.index = self.index + size;
            Ok(s)
        } else {
            Err(size - remain)
        }
    }

    /// The cursor's position.
    pub fn index(&self) -> (r: usize)
        ensures
            r == self.cursor(),
    {
        self.index
    }

    /// All bytes of the arena.
    pub fn buffer(&self) -> (r: &[u8])
        ensures
            r@ == self.contents(),
    {
        self.buffer.as_slice()
    }

    /// The bytes of a region that lies within the arena.
    pub fn get_slice(&self, s: Slice) -> (r: &[u8])
        requires
            s.end() <= N,
        ensures
            r@ == self.contents().subrange(s.start as int, s.end()),
    {
        vstd::slice::slice_subrange(self.buffer.as_slice(), s.start, s.start + s.len)
    }

    /// Writes `data` into the region `s` from offset `start` within it on,
    /// with the bounds discipline of a DOMAIN value: `start` must lie inside
    /// the region and the data must fit. Bytes outside the written range, and
    /// the cursor, are left as they were; a refused write changes nothing.
    pub fn try_set_region(&mut self, s: Slice, start: usize, data: &[u8]) -> (r: Result<(), DataError>)
        requires
            old(self).wf(),
            s.end() <= N,
        ensures
            final(self).wf(),
            final(self).cursor() == old(self).cursor(),
            final(self).contents().len() == old(self).contents().len(),
            match region_write(old(self).contents(), s, start as int, data@) {
                Ok(c) => r is Ok && final(self).contents() == c,
                Err(e) => r == Err::<(), DataError>(e) && final(self).contents() == old(self).contents(),
            },
    {
        if start >= s.len {
            return Err(DataError::DomainSetStartOutOfBounds);
        }
        if data.len() > s.len - start {
            return Err(DataError::DomainSetSizeOutOfBounds);
        }
        let ghost b0 = self.buffer@;
        let base = s.start + start;
        let mut j: usize = 0;
        while j < data.len()
            invariant
                base == s.start + start,
                start < s.len,
                s.start + s.len <= N,
                base + data@.len() <= s.start + s.len,
                self.index == old(self).index,
                j <= data@.len(),
                self.buffer@.len() == N,
                b0 == old(self).buffer@,
                forall|i: int|
                    0 <= i < N ==> #[trigger] self.buffer@[i] == if base <= i < base + j {
                        data@[i - base]
                    } else {
                        b0[i]
                    },
            decreases data@.len() - j,
        {
            self.buffer[base + j] = data[j];
            j = j + 1;
        }
        let ghost region = b0.subrange(s.start as int, s.end());
        let ghost nb = write_outcome(region, start as int, data@)->Ok_0;
        assert(self.buffer@ =~= b0.subrange(0, s.start as int) + nb + b0.subrange(s.end(), N as int));
        Ok(())
    }
}

/// The arena bytes `c` after writing `d` into region `s` from offset `start`
/// within it on, or the error that refuses the write (see [`write_outcome`]).
pub open spec fn region_write(c: Seq<u8>, s: Slice, start: int, d: Seq<u8>) -> Result<Seq<u8>, DataError> {
    match write_outcome(c.subrange(s.start as int, s.end()), start, d) {
        Ok(b) => Ok(c.subrange(0, s.start as int) + b + c.subrange(s.end(), c.len() as int)),
        Err(e) => Err(e),
    }
}

/// A run of requests on a fresh arena, as `take_slice` performs them: state
/// `k + 1` is what request `k` left of state `k`, and `results[k]` is what it
/// returned. When the sizes total at most `N`, every request succeeds with
/// `region_of(sizes, k)`, each region has the size asked for and lies within
/// the arena, no two regions overlap, and the cursor ends at the total.
pub proof fn lemma_take_run<const N: usize>(
    states: Seq<SliceBuffer<N>>,
    sizes: Seq<usize>,
    results: Seq<Result<Slice, usize>>,
)
    requires
        states.len() == sizes.len() + 1,
        results.len() == sizes.len(),
        states[0].cursor() == 0,
        forall|k: int|
            0 <= k < sizes.len() ==> #[trigger] results[k] == take_outcome(
                states[k].cursor(),
                N,
                sizes[k],
            ) && states[k + 1].cursor() == cursor_after(states[k].cursor(), N, sizes[k]),
        prefix_sum(sizes, sizes.len() as int) <= N,
    ensures
        forall|k: int|
            0 <= k < sizes.len() ==> #[trigger] results[k] == Ok::<Slice, usize>(region_of(sizes, k))
                && region_of(sizes, k).len == sizes[k] && region_of(sizes, k).end() <= N,
        forall|i: int, j: int|
            0 <= i < j < sizes.len() ==> #[trigger] region_of(sizes, i).disjoint(
                #[trigger] region_of(sizes, j),
            ),
        states[sizes.len() as int].cursor() == prefix_sum(sizes, sizes.len() as int),
{
    lemma_regions_disjoint(N, sizes);
    lemma_run_cursors(states, sizes, results, sizes.len() as int);
    assert forall|k: int| 0 <= k < sizes.len() implies #[trigger] results[k] == Ok::<Slice, usize>(
        region_of(sizes, k),
    ) && region_of(sizes, k).len == sizes[k] && region_of(sizes, k).end() <= N by {
        lemma_run_cursors(states, sizes, results, k);
    }
}

proof fn lemma_run_cursors<const N: usize>(
    states: Seq<SliceBuffer<N>>,
    sizes: Seq<usize>,
    results: Seq<Result<Slice, usize>>,
    k: int,
)
    requires
        states.len() == sizes.len() + 1,
        results.len() == sizes.len(),
        states[0].cursor() == 0,
        forall|k: int|
            0 <= k < sizes.len() ==> #[trigger] results[k] == take_outcome(
                states[k].cursor(),
                N,
                sizes[k],
            ) && states[k + 1].cursor() == cursor_after(states[k].cursor(), N, sizes[k]),
        prefix_sum(sizes, sizes.len() as int) <= N,
        0 <= k <= sizes.len(),
    ensures
        states[k].cursor() == prefix_sum(sizes, k),
    decreases k,
{
    if k > 0 {
        lemma_run_cursors(states, sizes, results, k - 1);
        lemma_regions_disjoint(N, sizes);
        assert(results[k - 1] == take_outcome(states[k - 1].cursor(), N, sizes[k - 1]));
    }
}

} // verus!
