//! Physical memory bootstrap: a cursor-style frame allocator over the last
//! usable region of the memory map.
//!
//! The allocator exists only for the finite bootstrap phase.  It hands out
//! page-aligned physical frame addresses in strictly increasing order, so
//! no frame is ever issued twice.

use vstd::prelude::*;
use crate::boot::{BootError, BootField, MemoryRegion, find_last_usable};

verus! {

/// Size of one physical frame, the granularity of physical allocation.
pub const FRAME_SIZE: u64 = 4096;

/// The cursor of the bootstrap-phase frame allocator: `next` is the
/// address the next frame would be issued at, `end` the first address past
/// the usable region.
#[derive(PartialEq, Eq, Structural, Clone, Copy, Debug)]
pub struct FrameAllocator {
    pub next: u64,
    pub end: u64,
}

/// `start` rounded up to the next frame boundary (exact on a boundary).
pub open spec fn spec_align_up(start: u64) -> int {
    if start % FRAME_SIZE == 0 {
        start as int
    } else {
        start + (FRAME_SIZE - start % FRAME_SIZE)
    }
}

/// The frame the allocator would issue next, if capacity remains.
pub open spec fn spec_yield(a: FrameAllocator) -> Option<u64> {
    if a.next + FRAME_SIZE <= a.end {
        Some(a.next)
    } else {
        None
    }
}

/// The cursor after one `next_frame` call.
pub open spec fn spec_step(a: FrameAllocator) -> FrameAllocator {
    if a.next + FRAME_SIZE <= a.end {
        FrameAllocator { next: (a.next + FRAME_SIZE) as u64, ..a }
    } else {
        a
    }
}

/// The cursor after `k` successive `next_frame` calls.
pub open spec fn spec_after(a: FrameAllocator, k: nat) -> FrameAllocator
    decreases k,
{
    if k == 0 {
        a
    } else {
        spec_step(spec_after(a, (k - 1) as nat))
    }
}

impl FrameAllocator {
    /// The cursor sits on a frame boundary as long as capacity remains.
    pub open spec fn wf(self) -> bool {
        self.next % FRAME_SIZE == 0 || self.next >= self.end
    }

    /// An allocator over one region: the cursor starts at the first frame
    /// boundary inside it (or at the region's end, if none fits).
    pub fn new(region: MemoryRegion) -> (a: FrameAllocator)
        ensures
            a.end == region.end,
            a.next == if spec_align_up(region.start) <= region.end {
                spec_align_up(region.start)
            } else {
                region.end as int
            },
            a.wf(),
            region.start % FRAME_SIZE == 0 && region.start <= region.end ==> a.next
                == region.start,
    {
        let rem = region.start % FRAME_SIZE;
        let next = if rem == 0 {
            if region.start <= region.end {
                region.start
            } else {
                region.end
            }
        } else {
            let pad = FRAME_SIZE - rem;
            if region.start <= u64::MAX - pad && region.start + pad <= region.end {
                region.start + pad
            } else {
                region.end
            }
        };
        proof {
            if rem != 0 && region.start + (FRAME_SIZE - rem) <= region.end {
                assert((region.start + (FRAME_SIZE - rem)) % (FRAME_SIZE as int) == 0) by (nonlinear_arith)
                    requires
                        rem == region.start % FRAME_SIZE,
                        rem != 0,
                        FRAME_SIZE == 4096,
                ;
            }
        }
        FrameAllocator { next, end: region.end }
    }

    /// An allocator over the last usable region of the memory map, or the
    /// fatal `MissingBootResource` condition if the map holds none.
    pub fn from_regions(regions: &Vec<MemoryRegion>) -> (r: Result<FrameAllocator, BootError>)
        ensures
            find_last_usable(regions@) is None ==> r == Err::<FrameAllocator, BootError>(
                BootError::MissingBootResource(BootField::UsableRegion),
            ),
            find_last_usable(regions@) matches Some(u) ==> (r matches Ok(a) && a.end == u.end
                && a.wf() && a.next == if spec_align_up(u.start) <= u.end {
                spec_align_up(u.start)
            } else {
                u.end as int
            }),
    {
        match crate::boot::last_usable_region(regions) {
            Some(u) => Ok(Self::new(u)),
            None => Err(BootError::MissingBootResource(BootField::UsableRegion)),
        }
    }

    /// Issue the next physical frame, or report exhausted capacity.  The
    /// issued address is page-aligned, lies with a whole frame inside the
    /// region, and the cursor advances past it, so the same address can
    /// never be issued again.
    pub fn next_frame(&mut self) -> (r: Option<u64>)
        requires
            old(self).wf(),
        ensures
            final(self).wf(),
            r == spec_yield(*old(self)),
            *final(self) == spec_step(*old(self)),
            r matches Some(f) ==> f == old(self).next && f % FRAME_SIZE == 0 && f + FRAME_SIZE
                <= old(self).end && final(self).next == f + FRAME_SIZE,
            r is None ==> *final(self) == *old(self),
    {
        if self.next <= u64::MAX - FRAME_SIZE && self.next + FRAME_SIZE <= self.end {
            let f = self.next;
            self.next = self.next + FRAME_SIZE;
            proof {
                assert(f % FRAME_SIZE == 0);
                assert((f + FRAME_SIZE) % (FRAME_SIZE as int) == 0) by (nonlinear_arith)
                    requires
                        f % FRAME_SIZE == 0,
                        f + FRAME_SIZE <= u64::MAX,
                        FRAME_SIZE == 4096,
                ;
            }
            Some(f)
        } else {
            None
        }
    }
}

impl FrameAllocator {
    /// Take `count` fresh frames in one go, as a mapping operation does
    /// when it maps a register block or a new page table: all distinct,
    /// all page-aligned, issued in increasing order.  The batch succeeds
    /// exactly when the region has `count` whole frames left past the
    /// cursor.  Nothing is returned if capacity runs out; frames taken
    /// before that are spent either way (the cursor still ends at
    /// `spec_after`, which stops moving once capacity is exhausted), as
    /// on hardware a partially performed mapping is not undone.
    pub fn take_frames(&mut self, count: usize) -> (r: Option<Vec<u64>>)
        requires
            old(self).wf(),
        ensures
            final(self).wf(),
            *final(self) == spec_after(*old(self), count as nat),
            r is Some <==> count == 0 || old(self).next + count * FRAME_SIZE <= old(self).end,
            r matches Some(v) ==> ({
                &&& v@.len() == count
                &&& forall|i: int|
                    0 <= i < count ==> v@[i] == old(self).next + i * FRAME_SIZE
                &&& forall|i: int, j: int| 0 <= i < j < count ==> v@[i] != v@[j]
                &&& forall|i: int| 0 <= i < count ==> v@[i] % FRAME_SIZE == 0
            }),
    {
        let mut v: Vec<u64> = Vec::new();
        let mut i: usize = 0;
        while i < count
            invariant
                old(self).wf(),
                self.wf(),
                i <= count,
                v@.len() == i,
                *self == spec_after(*old(self), i as nat),
                self.next == old(self).next + i * FRAME_SIZE,
                self.end == old(self).end,
                i > 0 ==> old(self).next + i * FRAME_SIZE <= old(self).end,
                forall|j: int|
                    0 <= j < i ==> v@[j] == old(self).next + j * FRAME_SIZE && spec_yield(
                        spec_after(*old(self), j as nat),
                    ) == Some(v@[j]),
            decreases count - i,
        {
            match self.next_frame() {
                Some(f) => {
                    v.push(f);
                },
                None => {
                    proof {
                        lemma_after_compose(*old(self), i as nat, (count - i) as nat);
                        lemma_exhausted_stays(*self, (count - i) as nat);
                    }
                    return None;
                },
            }
            i = i + 1;
        }
        proof {
            assert forall|a: int, b: int| 0 <= a < b < count implies v@[a] != v@[b] by {
                lemma_no_frame_twice(*old(self), a as nat, b as nat, v@[a], v@[b]);
            }
            assert forall|a: int| 0 <= a < count implies v@[a] % FRAME_SIZE == 0 by {
                lemma_wf_preserved(*old(self), a as nat);
            }
        }
        Some(v)
    }
}

/// Splitting a run of calls: `m + n` calls land where `n` calls after the
/// first `m` do.
pub proof fn lemma_after_compose(a: FrameAllocator, m: nat, n: nat)
    ensures
        spec_after(a, m + n) == spec_after(spec_after(a, m), n),
    decreases n,
{
    if n > 0 {
        lemma_after_compose(a, m, (n - 1) as nat);
    }
}

/// Once capacity is exhausted the cursor never moves again.
pub proof fn lemma_exhausted_stays(a: FrameAllocator, k: nat)
    requires
        spec_yield(a) is None,
    ensures
        spec_after(a, k) == a,
    decreases k,
{
    if k > 0 {
        lemma_exhausted_stays(a, (k - 1) as nat);
    }
}

/// Across any number of calls the cursor never moves backwards, and the
/// region never changes.
pub proof fn lemma_cursor_monotone(a: FrameAllocator, m: nat, n: nat)
    requires
        m <= n,
    ensures
        spec_after(a, n).end == a.end,
        spec_after(a, m).next <= spec_after(a, n).next,
        spec_after(a, m).end == a.end,
    decreases n,
{
    if n == 0 {
    } else if m == n {
        lemma_cursor_monotone(a, 0, (n - 1) as nat);
    } else {
        lemma_cursor_monotone(a, m, (n - 1) as nat);
    }
}

/// The allocator never issues the same frame address twice: any two
/// successful `next_frame` calls in a bounded sequence of calls yield
/// distinct addresses, and each issued address is page-aligned.
pub proof fn lemma_no_frame_twice(a: FrameAllocator, i: nat, j: nat, x: u64, y: u64)
    requires
        a.wf(),
        i < j,
        spec_yield(spec_after(a, i)) == Some(x),
        spec_yield(spec_after(a, j)) == Some(y),
    ensures
        x != y,
        x < y,
        x % FRAME_SIZE == 0,
        y % FRAME_SIZE == 0,
{
    lemma_wf_preserved(a, i);
    lemma_wf_preserved(a, j);
    assert(x == spec_after(a, i).next);
    assert(spec_after(a, (i + 1) as nat) == spec_step(spec_after(a, i)));
    assert(spec_after(a, (i + 1) as nat).next == x + FRAME_SIZE);
    lemma_cursor_monotone(a, (i + 1) as nat, j);
    assert(y == spec_after(a, j).next);
}

/// Well-formedness of the cursor survives any number of calls, and a
/// yielded frame is always page-aligned.
pub proof fn lemma_wf_preserved(a: FrameAllocator, k: nat)
    requires
        a.wf(),
    ensures
        spec_after(a, k).wf(),
        spec_yield(spec_after(a, k)) matches Some(f) ==> f % FRAME_SIZE == 0,
    decreases k,
{
    if k == 0 {
    } else {
        lemma_wf_preserved(a, (k - 1) as nat);
        let b = spec_after(a, (k - 1) as nat);
        if b.next + FRAME_SIZE <= b.end {
            assert((b.next + FRAME_SIZE) % (FRAME_SIZE as int) == 0) by (nonlinear_arith)
                requires
                    b.next % FRAME_SIZE == 0,
                    b.next + FRAME_SIZE <= u64::MAX,
                    FRAME_SIZE == 4096,
            ;
        }
    }
}

} // verus!
