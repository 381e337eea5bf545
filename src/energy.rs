use vstd::prelude::*;
use crate::decode::{WindowPlan, MAX_SPAN};

verus! {

/// Sum of the squares of the samples.
pub open spec fn sum_sq(s: Seq<i32>) -> int
    decreases s.len(),
{
    if s.len() == 0 {
        0
    } else {
        sum_sq(s.drop_last()) + s.last() * s.last()
    }
}

/// Samples of window `k` of `plan`.
pub open spec fn window_of(samples: Seq<i32>, plan: WindowPlan, k: int) -> Seq<i32> {
    samples.subrange(k * plan.step, k * plan.step + plan.span)
}

/// Largest square of an `i32` sample.
pub const MAX_SQUARE: u128 = 0x4000_0000_0000_0000;

proof fn lemma_square_bound(x: i32)
    ensures
        0 <= x * x <= MAX_SQUARE,
{
    assert(0 <= x * x <= 0x4000_0000_0000_0000) by (nonlinear_arith)
        requires
            -0x8000_0000 <= x <= 0x7fff_ffff,
    ;
}

/// Sum of squares of `len` integer samples from `start`.
pub fn window_energy(samples: &Vec<i32>, start: usize, len: usize) -> (r: u128)
    requires
        start + len <= samples@.len(),
        len <= MAX_SPAN,
    ensures
        r == sum_sq(samples@.subrange(start as int, start + len)),
{
    let n = samples.len();
    assert(start + len <= n);
    let mut acc: u128 = 0;
    let mut i: usize = start;
    let end = start + len;
    while i < end
        invariant
            start <= i <= end,
            end == start + len,
            end <= n == samples@.len(),
            len <= MAX_SPAN,
            acc == sum_sq(samples@.subrange(start as int, i as int)),
            acc <= (i - start) * MAX_SQUARE,
        decreases end - i,
    {
        let x = samples[i];
        proof {
            lemma_square_bound(x);
            assert(samples@.subrange(start as int, i + 1).last() == x);
            assert(samples@.subrange(start as int, i + 1).drop_last() =~= samples@.subrange(
                start as int,
                i as int,
            ));
            assert((i - start) * MAX_SQUARE + MAX_SQUARE <= MAX_SPAN * MAX_SQUARE) by (nonlinear_arith)
                requires
                    i - start < len,
                    len <= MAX_SPAN,
            ;
        }
        let sq = (x as i64 * x as i64) as u128;
        acc = acc + sq;
        i = i + 1;
    }
    acc
}

/// Sum of squares of each window of `plan` over integer samples.
pub fn window_energies(samples: &Vec<i32>, plan: &WindowPlan) -> (r: Vec<u128>)
    requires
        plan.wf(),
        plan.total == samples@.len(),
    ensures
        r@.len() == plan.count,
        forall|k: int| 0 <= k < plan.count ==> #[trigger] r@[k] == sum_sq(window_of(samples@, *plan, k)),
{
    let n = samples.len();
    let mut out: Vec<u128> = Vec::new();
    let mut k: u64 = 0;
    while k < plan.count
        invariant
            plan.wf(),
            plan.total == samples@.len(),
            n == samples@.len(),
            k <= plan.count,
            out@.len() == k,
            forall|j: int| 0 <= j < k ==> #[trigger] out@[j] == sum_sq(window_of(samples@, *plan, j)),
        decreases plan.count - k,
    {
        let s = plan.start(k);
        let e = window_energy(samples, s as usize, plan.span as usize);
        out.push(e);
        k = k + 1;
    }
    out
}

/// One part in 10^18: the square of the RMS floor of 1e-9 of full scale.
pub const FLOOR_INVERSE: u128 = 1_000_000_000_000_000_000;

/// Whether a window whose samples have sum of squares `energy` falls under
/// the level floor: its RMS is below 1e-9 of `full_scale`, that is
/// `energy / len < full_scale^2 / 10^18`. An empty window counts as silent.
pub open spec fn silent(energy: int, len: int, full_scale: int) -> bool {
    len == 0 || energy * FLOOR_INVERSE < len * full_scale * full_scale
}

/// Decides whether a window is reported at the floor level instead of its
/// measured level.
pub fn is_silent(energy: u128, len: u64, full_scale: u64) -> (r: bool)
    requires
        full_scale <= 0x8000_0000,
    ensures
        r == silent(energy as int, len as int, full_scale as int),
{
    if len == 0 {
        return true;
    }
    let fs = full_scale as u128;
    assert(fs * fs <= 0x4000_0000_0000_0000) by (nonlinear_arith)
        requires
            fs <= 0x8000_0000,
    ;
    assert(len as u128 * (fs * fs) <= 0xffff_ffff_ffff_ffff * 0x4000_0000_0000_0000) by (nonlinear_arith)
        requires
            fs * fs <= 0x4000_0000_0000_0000,
            len <= 0xffff_ffff_ffff_ffff,
    ;
    let x = len as u128 * (fs * fs);
    assert(x == len * full_scale * full_scale) by (nonlinear_arith)
        requires
            x == len as u128 * (fs * fs),
            fs == full_scale,
    ;
    if x == 0 {
        return false;
    }
    let limit = (x - 1) / FLOOR_INVERSE;
    proof {
        lemma_below_floor(energy as int, x as int);
    }
    energy <= limit
}

proof fn lemma_below_floor(e: int, x: int)
    requires
        e >= 0,
        x >= 1,
    ensures
        (e * FLOOR_INVERSE < x) == (e <= (x - 1) / FLOOR_INVERSE as int),
{
    let f = FLOOR_INVERSE as int;
    assert((e * f < x) == (e <= (x - 1) / f)) by (nonlinear_arith)
        requires
            e >= 0,
            x >= 1,
            f > 0,
    ;
}

/// Squares of samples within full scale add up to at most the window length
/// times full scale squared: a window's RMS never exceeds full scale.
pub proof fn lemma_energy_within_full_scale(s: Seq<i32>, full_scale: int)
    requires
        forall|i: int| 0 <= i < s.len() ==> -full_scale <= #[trigger] s[i] <= full_scale,
    ensures
        sum_sq(s) <= s.len() * full_scale * full_scale,
    decreases s.len(),
{
    if s.len() > 0 {
        let p = s.drop_last();
        assert forall|i: int| 0 <= i < p.len() implies -full_scale <= #[trigger] p[i] <= full_scale by {
            assert(p[i] == s[i]);
        }
        lemma_energy_within_full_scale(p, full_scale);
        let x = s.last() as int;
        assert(-full_scale <= s[s.len() - 1] <= full_scale);
        assert(x * x <= full_scale * full_scale) by (nonlinear_arith)
            requires
                -full_scale <= x <= full_scale,
        ;
        assert(p.len() * full_scale * full_scale + full_scale * full_scale == s.len() * full_scale
            * full_scale) by (nonlinear_arith)
            requires
                p.len() + 1 == s.len(),
        ;
    }
}

/// A window of all-zero samples has no energy and sits at the floor level.
pub proof fn lemma_zero_window_silent(s: Seq<i32>, full_scale: int)
    requires
        forall|i: int| 0 <= i < s.len() ==> #[trigger] s[i] == 0,
    ensures
        sum_sq(s) == 0,
        full_scale > 0 ==> silent(sum_sq(s), s.len() as int, full_scale),
    decreases s.len(),
{
    if s.len() > 0 {
        let p = s.drop_last();
        assert forall|i: int| 0 <= i < p.len() implies #[trigger] p[i] == 0 by {
            assert(p[i] == s[i]);
        }
        lemma_zero_window_silent(p, full_scale);
        assert(s.last() == 0);
        if full_scale > 0 {
            assert(s.len() * full_scale * full_scale > 0) by (nonlinear_arith)
                requires
                    s.len() > 0,
                    full_scale > 0,
            ;
        }
    }
}

/// A window whose every sample sits at full scale, of either sign, has
/// exactly its length times full scale squared as energy, so its RMS is full
/// scale (0 dBFS) and it is never floored.
pub proof fn lemma_full_scale_window_not_silent(s: Seq<i32>, full_scale: int)
    requires
        full_scale > 0,
        s.len() > 0,
        forall|i: int| 0 <= i < s.len() ==> #[trigger] s[i] == full_scale || s[i] == -full_scale,
    ensures
        sum_sq(s) == s.len() * full_scale * full_scale,
        !silent(sum_sq(s), s.len() as int, full_scale),
{
    lemma_full_scale_energy(s, full_scale);
    let x = s.len() * full_scale * full_scale;
    assert(x > 0) by (nonlinear_arith)
        requires
            s.len() > 0,
            full_scale > 0,
            x == s.len() * full_scale * full_scale,
    ;
    assert(x * FLOOR_INVERSE >= x) by (nonlinear_arith)
        requires
            x > 0,
    ;
}

proof fn lemma_full_scale_energy(s: Seq<i32>, full_scale: int)
    requires
        forall|i: int| 0 <= i < s.len() ==> #[trigger] s[i] == full_scale || s[i] == -full_scale,
    ensures
        sum_sq(s) == s.len() * full_scale * full_scale,
    decreases s.len(),
{
    if s.len() > 0 {
        let p = s.drop_last();
        assert forall|i: int| 0 <= i < p.len() implies #[trigger] p[i] == full_scale || p[i] == -full_scale by {
            assert(p[i] == s[i]);
        }
        lemma_full_scale_energy(p, full_scale);
        let x = s.last() as int;
        assert(s[s.len() - 1] == full_scale || s[s.len() - 1] == -full_scale);
        assert(x * x == full_scale * full_scale) by (nonlinear_arith)
            requires
                x == full_scale || x == -full_scale,
        ;
        assert(p.len() * full_scale * full_scale + full_scale * full_scale == s.len() * full_scale
            * full_scale) by (nonlinear_arith)
            requires
                p.len() + 1 == s.len(),
        ;
    }
}

} // verus!
