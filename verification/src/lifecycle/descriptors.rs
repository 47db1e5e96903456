//! Which inherited descriptors a forked child closes.
//!
//! Everything here works on a caller-owned array and allocates nothing, so that
//! a child may run it between `fork` and `execve`.

use vstd::prelude::*;

verus! {

/// The first descriptor a sweep may close. The standard streams come before it.
pub const FIRST_SWEPT: i32 = 3;

/// The number of descriptors to assume where the system's answer makes no sense.
pub const FALLBACK_LIMIT: i32 = 1024;

/// Whether `keep` is in ascending order.
pub open spec fn ascending(keep: Seq<i32>) -> bool {
    forall|i: int, j: int| 0 <= i <= j < keep.len() ==> keep[i] <= keep[j]
}

/// Put `keep` in ascending order, by insertion. The sets are a handful of
/// descriptors long.
pub fn sort_keepers(keep: &mut [i32])
    ensures
        ascending(final(keep)@),
        final(keep)@.len() == old(keep)@.len(),
        final(keep)@.to_multiset() == old(keep)@.to_multiset(),
        forall|fd: i32| final(keep)@.contains(fd) <==> old(keep)@.contains(fd),
{
    let ghost before = keep@;
    let mut index: usize = 1;
    while index < keep.len()
        invariant
            1 <= index,
            keep@.len() == before.len(),
            keep@.to_multiset() == before.to_multiset(),
            forall|i: int, j: int| 0 <= i <= j < index && j < keep@.len() ==> keep@[i] <= keep@[j],
        decreases keep@.len() - index,
    {
        let mut position: usize = index;
        while position > 0 && keep[position - 1] > keep[position]
            invariant
                position <= index < keep@.len(),
                keep@.len() == before.len(),
                keep@.to_multiset() == before.to_multiset(),
                forall|i: int, j: int|
                    0 <= i <= j <= index && i != position && j != position ==> keep@[i] <= keep@[j],
                forall|j: int| position <= j <= index ==> keep@[position as int] <= keep@[j],
            decreases position,
        {
            let ghost held = keep@;
            let left: i32 = keep[position - 1];
            let right: i32 = keep[position];
            keep[position - 1] = right;
            keep[position] = left;
            proof {
                lemma_swap_keeps_contents(held, position - 1, position as int);
                assert(keep@ =~= held.update(position - 1, held[position as int]).update(
                    position as int,
                    held[position - 1],
                ));
            }
            position -= 1;
        }
        proof {
            assert forall|i: int, j: int| 0 <= i <= j < index + 1 implies keep@[i] <= keep@[j] by {
                if j == position && i < position {
                    assert(keep@[i] <= keep@[position - 1]);
                }
            }
        }
        index += 1;
    }
    proof {
        assert forall|fd: i32| keep@.contains(fd) <==> before.contains(fd) by {
            keep@.to_multiset_ensures();
            before.to_multiset_ensures();
            assert(keep@.contains(fd) <==> keep@.to_multiset().count(fd) > 0);
            assert(before.contains(fd) <==> before.to_multiset().count(fd) > 0);
        }
    }
}

proof fn lemma_swap_keeps_contents(keep: Seq<i32>, i: int, j: int)
    requires
        0 <= i < j < keep.len(),
    ensures
        keep.update(i, keep[j]).update(j, keep[i]).to_multiset() == keep.to_multiset(),
{
    let once = keep.update(i, keep[j]);
    vstd::seq_lib::to_multiset_update(keep, i, keep[j]);
    vstd::seq_lib::to_multiset_update(once, j, keep[i]);
    keep.to_multiset_ensures();
    once.to_multiset_ensures();
    assert(once.update(j, keep[i]).to_multiset() =~= keep.to_multiset());
}

/// How far a sweep between keepers has come.
#[derive(Debug, Clone, Copy, PartialEq, Eq)]
pub struct Sweep {
    at: usize,
    first: i32,
    done: bool,
}

/// Where the next gap starts behind a keeper.
pub open spec fn after(keeper: i32) -> i32 {
    if keeper == i32::MAX {
        keeper
    } else {
        (keeper + 1) as i32
    }
}

/// The ranges, both ends inclusive, that a sweep closes: what lies between the
/// keepers from `first` on, without the empty ranges. A keeper below the first
/// swept descriptor bounds nothing.
pub open spec fn gaps(keep: Seq<i32>, first: i32) -> Seq<(i32, i32)>
    decreases keep.len(),
{
    if keep.len() == 0 {
        seq![(first, i32::MAX)]
    } else if keep[0] < FIRST_SWEPT {
        gaps(keep.skip(1), first)
    } else if first > keep[0] - 1 {
        gaps(keep.skip(1), after(keep[0]))
    } else {
        seq![(first, (keep[0] - 1) as i32)] + gaps(keep.skip(1), after(keep[0]))
    }
}

impl Sweep {
    /// What is left to close, in order.
    pub closed spec fn left(self, keep: Seq<i32>) -> Seq<(i32, i32)> {
        if self.done {
            Seq::empty()
        } else if self.at <= keep.len() {
            gaps(keep.skip(self.at as int), self.first)
        } else {
            gaps(Seq::empty(), self.first)
        }
    }

    /// A sweep that has closed nothing yet.
    pub fn start(keep: &[i32]) -> (sweep: Self)
        ensures
            sweep.left(keep@) == gaps(keep@, FIRST_SWEPT),
    {
        assert(keep@.skip(0) =~= keep@);
        Sweep { at: 0, first: FIRST_SWEPT, done: false }
    }

    /// The next range to close, or nothing where the sweep is over.
    pub fn next_gap(&mut self, keep: &[i32]) -> (gap: Option<(i32, i32)>)
        ensures
            match gap {
                Some(gap) => old(self).left(keep@).len() > 0 && gap == old(self).left(keep@)[0]
                    && final(self).left(keep@) == old(self).left(keep@).skip(1),
                None => old(self).left(keep@).len() == 0 && *final(self) == *old(self),
            },
    {
        if self.done {
            return None;
        }
        while self.at < keep.len()
            invariant
                !self.done,
                old(self).left(keep@) == self.left(keep@),
            decreases keep@.len() - self.at,
        {
            let keeper: i32 = keep[self.at];
            let first: i32 = self.first;
            proof {
                let rest = keep@.skip(self.at as int);
                assert(rest[0] == keeper);
                assert(rest.skip(1) =~= keep@.skip(self.at + 1));
            }
            let ghost here = *self;
            self.at += 1;
            if keeper >= FIRST_SWEPT {
                self.first = if keeper == i32::MAX {
                    keeper
                } else {
                    keeper + 1
                };
                if first <= keeper - 1 {
                    proof {
                        let rest = keep@.skip(here.at as int);
                        assert(here.left(keep@).skip(1) =~= gaps(rest.skip(1), after(keeper)));
                        assert(here.left(keep@)[0] == (first, (keeper - 1) as i32));
                    }
                    return Some((first, keeper - 1));
                }
            }
        }
        proof {
            if self.at == keep@.len() {
                assert(keep@.skip(self.at as int).len() == 0);
            }
            assert(self.left(keep@) =~= seq![(self.first, i32::MAX)]);
            assert(self.left(keep@).skip(1) =~= Seq::empty());
        }
        let gap: (i32, i32) = (self.first, i32::MAX);
        self.done = true;
        Some(gap)
    }
}

/// Whether a descriptor is one of the keepers: the test of a sweep that closes
/// one descriptor at a time.
pub fn is_kept(keep: &[i32], fd: i32) -> (kept: bool)
    ensures
        kept == keep@.contains(fd),
{
    let mut i: usize = 0;
    while i < keep.len()
        invariant
            i <= keep@.len(),
            forall|k: int| 0 <= k < i ==> keep@[k] != fd,
        decreases keep@.len() - i,
    {
        if keep[i] == fd {
            assert(keep@[i as int] == fd);
            return true;
        }
        i += 1;
    }
    false
}

/// The exclusive upper bound of a sweep that closes one descriptor at a time.
pub fn descriptor_limit(reported: i32) -> (limit: i32)
    ensures
        limit == (if reported > FIRST_SWEPT {
            reported
        } else {
            FALLBACK_LIMIT
        }),
{
    if reported > FIRST_SWEPT {
        reported
    } else {
        FALLBACK_LIMIT
    }
}

/// Whether one of `ranges` holds `fd`.
pub open spec fn covered(ranges: Seq<(i32, i32)>, fd: i32) -> bool {
    exists|i: int| 0 <= i < ranges.len() && (#[trigger] ranges[i]).0 <= fd <= ranges[i].1
}

/// A sweep closes exactly the descriptors that are neither standard streams nor
/// keepers, and a keeper that stands for none changes nothing. No process can
/// hold the one descriptor number that has no number above it.
pub proof fn law_a_sweep_closes_all_but_the_keepers(keep: Seq<i32>, fd: i32)
    requires
        ascending(keep),
        !keep.contains(i32::MAX),
    ensures
        covered(gaps(keep, FIRST_SWEPT), fd) <==> fd >= FIRST_SWEPT && !keep.contains(fd),
{
    lemma_gaps_cover(keep, FIRST_SWEPT, fd);
}

proof fn lemma_gaps_cover(keep: Seq<i32>, first: i32, fd: i32)
    requires
        ascending(keep),
        !keep.contains(i32::MAX),
        first >= FIRST_SWEPT,
    ensures
        (forall|i: int| 0 <= i < keep.len() ==> #[trigger] keep[i] < FIRST_SWEPT || keep[i] >= first - 1)
            ==> (covered(gaps(keep, first), fd) <==> fd >= first && !keep.contains(fd)),
    decreases keep.len(),
{
    if keep.len() == 0 {
        let ranges = seq![(first, i32::MAX)];
        assert(ranges[0] == (first, i32::MAX));
        assert(gaps(keep, first) =~= ranges);
    } else {
        let rest = keep.skip(1);
        assert forall|i: int, j: int| 0 <= i <= j < rest.len() implies rest[i] <= rest[j] by {
            assert(keep[i + 1] <= keep[j + 1]);
        }
        assert(!rest.contains(i32::MAX)) by {
            if rest.contains(i32::MAX) {
                let i = choose|i: int| 0 <= i < rest.len() && rest[i] == i32::MAX;
                assert(keep[i + 1] == i32::MAX);
            }
        }
        assert(keep[0] != i32::MAX) by {
            assert(keep.contains(keep[0]));
        }
        assert(keep.contains(fd) <==> keep[0] == fd || rest.contains(fd)) by {
            if keep.contains(fd) {
                let i = choose|i: int| 0 <= i < keep.len() && keep[i] == fd;
                if i > 0 {
                    assert(rest[i - 1] == fd);
                }
            }
            if rest.contains(fd) {
                let i = choose|i: int| 0 <= i < rest.len() && rest[i] == fd;
                assert(keep[i + 1] == fd);
            }
            if keep[0] == fd {
                assert(keep.contains(keep[0]));
            }
        }
        if forall|i: int|
            0 <= i < keep.len() ==> #[trigger] keep[i] < FIRST_SWEPT || keep[i] >= first - 1 {
            if keep[0] < FIRST_SWEPT {
                lemma_gaps_cover(rest, first, fd);
                assert forall|i: int| 0 <= i < rest.len() implies #[trigger] rest[i] < FIRST_SWEPT
                    || rest[i] >= first - 1 by {
                    assert(keep[i + 1] < FIRST_SWEPT || keep[i + 1] >= first - 1);
                }
            } else {
                let next = after(keep[0]);
                lemma_gaps_cover(rest, next, fd);
                assert forall|i: int| 0 <= i < rest.len() implies #[trigger] rest[i] < FIRST_SWEPT
                    || rest[i] >= next - 1 by {
                    assert(keep[0] <= keep[i + 1]);
                }
                let tail = gaps(rest, next);
                assert(keep[0] < FIRST_SWEPT || keep[0] >= first - 1);
                if first > keep[0] - 1 {
                    assert(gaps(keep, first) == tail);
                    if fd >= first && fd < next {
                        assert(fd == keep[0]);
                    }
                } else {
                    let head = (first, (keep[0] - 1) as i32);
                    let all = seq![head] + tail;
                    assert(gaps(keep, first) == all);
                    assert(all[0] == head);
                    assert forall|i: int| 0 <= i < tail.len() implies #[trigger] tail[i] == all[i
                        + 1] by {}
                    assert(covered(all, fd) <==> (head.0 <= fd <= head.1) || covered(tail, fd)) by {
                        if covered(all, fd) {
                            let i = choose|i: int|
                                0 <= i < all.len() && (#[trigger] all[i]).0 <= fd <= all[i].1;
                            if i > 0 {
                                assert(tail[i - 1] == all[i]);
                            }
                        }
                        if covered(tail, fd) {
                            let i = choose|i: int|
                                0 <= i < tail.len() && (#[trigger] tail[i]).0 <= fd <= tail[i].1;
                            assert(all[i + 1] == tail[i]);
                        }
                        if head.0 <= fd <= head.1 {
                            assert(all[0].0 <= fd <= all[0].1);
                        }
                    }
                    if rest.contains(fd) {
                        let i = choose|i: int| 0 <= i < rest.len() && rest[i] == fd;
                        assert(keep[0] <= keep[i + 1]);
                    }
                }
            }
        }
    }
}

} // verus!
