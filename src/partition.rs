use vstd::prelude::*;

verus! {

/// `ranges` splits the indices `0..len` into consecutive, non-empty,
/// non-overlapping half-open ranges, in increasing order.
pub open spec fn covers(ranges: Seq<(usize, usize)>, len: nat) -> bool {
    &&& ranges.len() == 0 ==> len == 0
    &&& ranges.len() > 0 ==> ranges[0].0 == 0 && ranges.last().1 == len
    &&& forall|k: int| 0 <= k < ranges.len() ==> #[trigger] ranges[k].0 < ranges[k].1
    &&& forall|k: int| 0 <= k < ranges.len() - 1 ==> #[trigger] ranges[k].1 == ranges[k + 1].0
}

/// `s` with `f` applied to the elements whose index lies in `lo..hi`.
pub open spec fn apply_range<T>(s: Seq<T>, lo: int, hi: int, f: spec_fn(T) -> T) -> Seq<T> {
    Seq::new(s.len(), |i: int| if lo <= i < hi { f(s[i]) } else { s[i] })
}

/// `s` after each range of `ranges`, in turn, has had `f` applied to its
/// elements: what one worker per range computes.
pub open spec fn apply_ranges<T>(s: Seq<T>, ranges: Seq<(usize, usize)>, f: spec_fn(T) -> T) -> Seq<T>
    decreases ranges.len(),
{
    if ranges.len() == 0 {
        s
    } else {
        apply_range(
            apply_ranges(s, ranges.drop_last(), f),
            ranges.last().0 as int,
            ranges.last().1 as int,
            f,
        )
    }
}

proof fn lemma_apply_prefix<T>(s: Seq<T>, ranges: Seq<(usize, usize)>, f: spec_fn(T) -> T)
    requires
        ranges.len() > 0,
        ranges[0].0 == 0,
        forall|k: int| 0 <= k < ranges.len() ==> #[trigger] ranges[k].0 <= ranges[k].1,
        forall|k: int| 0 <= k < ranges.len() - 1 ==> #[trigger] ranges[k].1 == ranges[k + 1].0,
    ensures
        apply_ranges(s, ranges, f) == apply_range(s, 0, ranges.last().1 as int, f),
    decreases ranges.len(),
{
    let n = ranges.len();
    if n == 1 {
        assert(ranges.drop_last().len() == 0);
        assert(apply_ranges(s, ranges.drop_last(), f) == s);
        assert(ranges.last() == ranges[0]);
        assert(apply_ranges(s, ranges, f) =~= apply_range(s, 0, ranges.last().1 as int, f));
    } else {
        let init = ranges.drop_last();
        assert(init[0] == ranges[0]);
        assert forall|k: int| 0 <= k < init.len() implies #[trigger] init[k].0 <= init[k].1 by {
            assert(init[k] == ranges[k]);
        }
        assert forall|k: int| 0 <= k < init.len() - 1 implies #[trigger] init[k].1 == init[k + 1].0 by {
            assert(init[k] == ranges[k]);
            assert(init[k + 1] == ranges[k + 1]);
        }
        lemma_apply_prefix(s, init, f);
        assert(init.last() == ranges[n - 2]);
        assert(ranges[n - 2].1 == ranges[n - 1].0);
        assert(apply_ranges(s, ranges, f) =~= apply_range(s, 0, ranges.last().1 as int, f));
    }
}

/// However the indices are split among workers, applying an element-wise step
/// range by range gives the same array as applying it to every element: the
/// result of an update does not depend on the number of workers.
pub proof fn lemma_update_independent_of_partition<T>(
    s: Seq<T>,
    f: spec_fn(T) -> T,
    ranges1: Seq<(usize, usize)>,
    ranges2: Seq<(usize, usize)>,
)
    requires
        covers(ranges1, s.len()),
        covers(ranges2, s.len()),
    ensures
        apply_ranges(s, ranges1, f) == s.map_values(f),
        apply_ranges(s, ranges1, f) == apply_ranges(s, ranges2, f),
{
    lemma_covering_applies_everywhere(s, f, ranges1);
    lemma_covering_applies_everywhere(s, f, ranges2);
}

proof fn lemma_covering_applies_everywhere<T>(s: Seq<T>, f: spec_fn(T) -> T, ranges: Seq<(usize, usize)>)
    requires
        covers(ranges, s.len()),
    ensures
        apply_ranges(s, ranges, f) == s.map_values(f),
{
    if ranges.len() == 0 {
        assert(s.len() == 0);
        assert(apply_ranges(s, ranges, f) =~= s.map_values(f));
    } else {
        assert forall|k: int| 0 <= k < ranges.len() implies #[trigger] ranges[k].0 <= ranges[k].1 by {
            assert(ranges[k].0 < ranges[k].1);
        }
        lemma_apply_prefix(s, ranges, f);
        assert(apply_ranges(s, ranges, f) =~= s.map_values(f));
    }
}

/// Splits the indices `0..len` among at most `workers` workers: consecutive
/// ranges of `ceil(len / workers)` indices each, the last one possibly shorter.
pub fn partition(len: usize, workers: usize) -> (r: Vec<(usize, usize)>)
    requires
        workers > 0,
    ensures
        covers(r@, len as nat),
        r@.len() <= workers,
        forall|k: int|
            0 <= k < r@.len() ==> #[trigger] r@[k].0 == k * ((len + workers - 1) / (workers as int)),
        forall|k: int|
            0 <= k < r@.len() ==> #[trigger] r@[k].1 - r@[k].0 <= (len + workers - 1) / (workers as int),
{
    let chunk: usize = if len % workers == 0 {
        len / workers
    } else {
        proof {
            assert(workers >= 2 && len > 0) by (nonlinear_arith)
                requires
                    workers > 0,
                    len as int % workers as int != 0,
            ;
            assert((len as int / workers as int) < len as int) by (nonlinear_arith)
                requires
                    workers >= 2,
                    len > 0,
            ;
        }
        len / workers + 1
    };
    proof {
        let q = len as int / workers as int;
        let m = len as int % workers as int;
        assert(len as int == workers as int * q + m && 0 <= m < workers) by (nonlinear_arith)
            requires
                workers > 0,
                q == len as int / workers as int,
                m == len as int % workers as int,
        ;
        assert(chunk as int * workers as int >= len as int) by (nonlinear_arith)
            requires
                len as int == workers as int * q + m,
                0 <= m < workers,
                m == 0 ==> chunk == q,
                m != 0 ==> chunk == q + 1,
        ;
        assert(chunk as int == (len + workers - 1) / (workers as int)) by (nonlinear_arith)
            requires
                len as int == workers as int * q + m,
                0 <= m < workers,
                m == 0 ==> chunk == q,
                m != 0 ==> chunk == q + 1,
                workers > 0,
        ;
        assert(len > 0 ==> chunk > 0) by (nonlinear_arith)
            requires
                chunk as int * workers as int >= len as int,
                workers > 0,
        ;
    }
    let mut r: Vec<(usize, usize)> = Vec::new();
    let mut lo: usize = 0;
    while lo < len
        invariant
            lo <= len,
            chunk as int * workers as int >= len as int,
            chunk as int == (len + workers - 1) / (workers as int),
            len > 0 ==> chunk > 0,
            r@.len() <= workers,
            lo < len ==> lo as int == r@.len() * chunk,
            r@.len() == 0 ==> lo == 0,
            r@.len() > 0 ==> r@[0].0 == 0 && r@.last().1 == lo,
            forall|k: int| 0 <= k < r@.len() ==> #[trigger] r@[k].0 < r@[k].1,
            forall|k: int| 0 <= k < r@.len() ==> #[trigger] r@[k].1 - r@[k].0 <= chunk,
            forall|k: int| 0 <= k < r@.len() ==> #[trigger] r@[k].0 == k * chunk,
            forall|k: int| 0 <= k < r@.len() - 1 ==> #[trigger] r@[k].1 == r@[k + 1].0,
        decreases len - lo,
    {
        let n = r.len();
        proof {
            assert(n < workers) by (nonlinear_arith)
                requires
                    lo as int == n * chunk,
                    lo < len,
                    chunk as int * workers as int >= len as int,
            ;
        }
        let hi = if len - lo > chunk {
            lo + chunk
        } else {
            len
        };
        let ghost old_r = r@;
        r.push((lo, hi));
        proof {
            assert(r@[n as int] == (lo, hi));
            assert forall|k: int| 0 <= k < r@.len() - 1 implies #[trigger] r@[k].1 == r@[k + 1].0 by {
                if k < n - 1 {
                    assert(r@[k] == old_r[k]);
                    assert(r@[k + 1] == old_r[k + 1]);
                } else {
                    assert(r@[k] == old_r.last());
                }
            }
            assert forall|k: int| 0 <= k < r@.len() implies #[trigger] r@[k].0 < r@[k].1 by {
                if k < n {
                    assert(r@[k] == old_r[k]);
                }
            }
            assert forall|k: int| 0 <= k < r@.len() implies #[trigger] r@[k].1 - r@[k].0 <= chunk by {
                if k < n {
                    assert(r@[k] == old_r[k]);
                }
            }
            assert forall|k: int| 0 <= k < r@.len() implies #[trigger] r@[k].0 == k * chunk by {
                if k < n {
                    assert(r@[k] == old_r[k]);
                }
            }
            if hi < len {
                assert(hi as int == (n + 1) * chunk) by (nonlinear_arith)
                    requires
                        lo as int == n * chunk,
                        hi == lo + chunk,
                ;
            }
        }
        lo = hi;
    }
    r
}

} // verus!
