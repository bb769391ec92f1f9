//! Selection state: the selected index and the per-entry focus blend.
//!
//! Each entry carries a blend value between 0 (fully desaturated) and
//! [`BLEND_ONE`] (full color), stored in fixed-point thousandths of a
//! percent. Every frame the blend moves toward its target — [`BLEND_ONE`]
//! for the selected entry, 0 for every other — by a fixed fraction of the
//! remaining distance, and snaps exactly to the target once the distance
//! falls within [`BLEND_EPSILON`], so it reaches the target in a bounded
//! number of frames.
use vstd::prelude::*;
use vstd::arithmetic::div_mod::lemma_div_is_ordered;
use vstd::arithmetic::div_mod::lemma_div_nonincreasing;
use vstd::arithmetic::div_mod::lemma_div_pos_is_pos;
use vstd::arithmetic::div_mod::lemma_fundamental_div_mod;
use vstd::arithmetic::div_mod::lemma_fundamental_div_mod_converse_div;

verus! {

/// A blend value of exactly this means full color; 0 means fully gray.
pub const BLEND_ONE: u32 = 10000;

/// Once a blend is within this distance of its target it snaps to the
/// target exactly.
pub const BLEND_EPSILON: u32 = 100;

/// Numerator of the per-frame transition rate: each frame the blend covers
/// `BLEND_RATE_NUM / BLEND_RATE_DEN` of the remaining distance.
pub const BLEND_RATE_NUM: u32 = 15;

/// Denominator of the per-frame transition rate.
pub const BLEND_RATE_DEN: u32 = 100;

/// The blend target of entry `i` when entry `sel` is selected.
pub open spec fn spec_blend_target(i: int, sel: int) -> int {
    if i == sel {
        BLEND_ONE as int
    } else {
        0
    }
}

/// One animation step of a single blend value toward target `t`: snap when
/// within [`BLEND_EPSILON`], else cover 15% of the remaining distance,
/// rounded down.
pub open spec fn spec_step_toward(b: int, t: int) -> int {
    if -(BLEND_EPSILON as int) <= b - t <= BLEND_EPSILON as int {
        t
    } else if t > b {
        b + (t - b) * (BLEND_RATE_NUM as int) / (BLEND_RATE_DEN as int)
    } else {
        b - (b - t) * (BLEND_RATE_NUM as int) / (BLEND_RATE_DEN as int)
    }
}

/// `b` padded with zero blends up to length `n` (new entries start gray).
pub open spec fn spec_padded(b: Seq<u32>, n: int) -> Seq<u32> {
    if n <= b.len() {
        b
    } else {
        b + Seq::new((n - b.len()) as nat, |i: int| 0u32)
    }
}

/// One whole-state animation step: every entry below `n` moves toward its
/// target, entries at `n` and beyond keep their value.
pub open spec fn spec_stepped(b: Seq<u32>, sel: int, n: int) -> Seq<u32> {
    Seq::new(
        spec_padded(b, n).len(),
        |i: int|
            if i < n {
                spec_step_toward(spec_padded(b, n)[i] as int, spec_blend_target(i, sel)) as u32
            } else {
                spec_padded(b, n)[i]
            },
    )
}

/// The whole blend state after `k` animation steps.
pub open spec fn spec_blends_after(b: Seq<u32>, sel: int, n: int, k: nat) -> Seq<u32>
    decreases k,
{
    if k == 0 {
        b
    } else {
        spec_stepped(spec_blends_after(b, sel, n, (k - 1) as nat), sel, n)
    }
}

/// The selected index after applying a move of `delta`: clamped into
/// `[0, count - 1]`; with an empty catalog the index does not move.
pub open spec fn spec_move_sel(sel: int, delta: int, count: int) -> int {
    if count == 0 {
        sel
    } else if sel + delta < 0 {
        0
    } else if sel + delta > count - 1 {
        count - 1
    } else {
        sel + delta
    }
}

/// The selection owned by the frame loop: the selected entry index and one
/// blend value per known entry.
pub struct SelectionState {
    pub selected: usize,
    pub blends: Vec<u32>,
}

impl SelectionState {
    /// Every stored blend is a valid fixed-point value.
    pub open spec fn blends_wf(self) -> bool {
        forall|i: int| 0 <= i < self.blends@.len() ==> self.blends@[i] <= BLEND_ONE
    }

    /// Validity against a catalog of `count` entries: the selected index is
    /// in range (and pinned to 0 while the catalog is empty), and every
    /// blend is a valid fixed-point value.
    pub open spec fn wf(self, count: int) -> bool {
        &&& self.blends_wf()
        &&& if count == 0 {
            self.selected == 0
        } else {
            self.selected < count
        }
    }

    /// A fresh selection: the first entry selected, no blends yet.
    pub fn new() -> (r: SelectionState)
        ensures
            r.selected == 0,
            r.blends@ =~= Seq::<u32>::empty(),
            forall|count: int| count >= 0 ==> r.wf(count),
    {
        SelectionState { selected: 0, blends: Vec::new() }
    }

    /// Moves the selection by `delta`, clamped into `[0, count - 1]`; with
    /// an empty catalog nothing moves. The blends are untouched.
    pub fn move_selection(&mut self, delta: i32, count: usize)
        requires
            old(self).wf(count as int),
        ensures
            final(self).selected == spec_move_sel(
                old(self).selected as int,
                delta as int,
                count as int,
            ),
            final(self).blends == old(self).blends,
            final(self).wf(count as int),
    {
        if count == 0 {
            return;
        }
        let target: i128 = self.selected as i128 + delta as i128;
        if target < 0 {
            self.selected = 0;
        } else if target > (count - 1) as i128 {
            self.selected = count - 1;
        } else {
            self.selected = target as usize;
        }
    }

    /// Reads the blend of entry `idx`; an entry with no stored blend yet is
    /// fully gray.
    pub fn blend_of(&self, idx: usize) -> (r: u32)
        ensures
            r == if (idx as int) < self.blends@.len() {
                self.blends@[idx as int]
            } else {
                0u32
            },
    {
        if idx < self.blends.len() {
            self.blends[idx]
        } else {
            0
        }
    }

    /// One animation frame: grows the blend list to cover the first `count`
    /// entries, then moves each of their blends one step toward its target.
    pub fn update_blends(&mut self, count: usize)
        requires
            old(self).blends_wf(),
        ensures
            final(self).selected == old(self).selected,
            final(self).blends@ =~= spec_stepped(
                old(self).blends@,
                old(self).selected as int,
                count as int,
            ),
            final(self).blends_wf(),
    {
        let ghost orig = self.blends@;
        while self.blends.len() < count
            invariant
                self.selected == old(self).selected,
                orig.len() <= self.blends@.len(),
                self.blends@.len() <= vstd::math::max(orig.len() as int, count as int),
                self.blends@.subrange(0, orig.len() as int) =~= orig,
                forall|i: int| orig.len() <= i < self.blends@.len() ==> self.blends@[i] == 0u32,
            decreases count - self.blends@.len(),
        {
            self.blends.push(0);
        }
        proof {
            assert(self.blends@ =~= spec_padded(orig, count as int));
            assert forall|i: int| 0 <= i < self.blends@.len() implies self.blends@[i]
                <= BLEND_ONE by {
                if i < orig.len() {
                    assert(self.blends@[i] == self.blends@.subrange(0, orig.len() as int)[i]);
                }
            }
        }
        let ghost padded = self.blends@;
        let mut idx: usize = 0;
        while idx < count
            invariant
                self.selected == old(self).selected,
                idx <= count,
                count <= padded.len(),
                self.blends@.len() == padded.len(),
                forall|i: int|
                    0 <= i < idx ==> self.blends@[i] == spec_step_toward(
                        padded[i] as int,
                        spec_blend_target(i, self.selected as int),
                    ) as u32,
                forall|i: int| idx <= i < padded.len() ==> self.blends@[i] == padded[i],
                forall|i: int| 0 <= i < padded.len() ==> padded[i] <= BLEND_ONE,
                forall|i: int| 0 <= i < self.blends@.len() ==> self.blends@[i] <= BLEND_ONE,
            decreases count - idx,
        {
            let target: u32 = if idx == self.selected {
                BLEND_ONE
            } else {
                0
            };
            let b = self.blends[idx];
            let next = step_toward(b, target);
            self.blends[idx] = next;
            idx += 1;
        }
        proof {
            assert(self.blends@ =~= spec_stepped(orig, self.selected as int, count as int));
        }
    }
}

/// Moves one blend value one step toward its target.
fn step_toward(b: u32, t: u32) -> (r: u32)
    requires
        b <= BLEND_ONE,
        t <= BLEND_ONE,
    ensures
        r as int == spec_step_toward(b as int, t as int),
        r <= BLEND_ONE,
{
    if b <= t {
        let d = t - b;
        if d <= BLEND_EPSILON {
            t
        } else {
            proof {
                lemma_div_pos_is_pos(d * 15, 100);
                lemma_div_nonincreasing(d * 15, 100);
                lemma_div_is_ordered(d * 15, 15 * BLEND_ONE, 100);
                lemma_step_le_dist(d as int);
            }
            b + d * BLEND_RATE_NUM / BLEND_RATE_DEN
        }
    } else {
        let d = b - t;
        if d <= BLEND_EPSILON {
            t
        } else {
            proof {
                lemma_div_pos_is_pos(d * 15, 100);
                lemma_step_le_dist(d as int);
            }
            b - d * BLEND_RATE_NUM / BLEND_RATE_DEN
        }
    }
}

/// The fraction of the distance covered in one frame never exceeds the
/// distance itself.
proof fn lemma_step_le_dist(d: int)
    requires
        d >= 0,
    ensures
        0 <= d * 15 / 100 <= d,
{
    lemma_div_pos_is_pos(d * 15, 100);
    lemma_div_is_ordered(d * 15, d * 100, 100);
    assert(d * 100 / 100 == d) by {
        lemma_fundamental_div_mod_converse_div(d * 100, 100, d, 0);
    }
}

/// Absolute distance between two blend values.
pub open spec fn spec_dist(a: int, b: int) -> int {
    if a >= b {
        a - b
    } else {
        b - a
    }
}

/// How the distance to the target evolves over one animation step: it drops
/// to 0 inside the snap window, else it loses 15%, rounded up.
pub open spec fn spec_decay(d: int) -> int {
    if d <= BLEND_EPSILON as int {
        0
    } else {
        d - d * (BLEND_RATE_NUM as int) / (BLEND_RATE_DEN as int)
    }
}

/// The distance to the target after `k` animation steps.
pub open spec fn spec_decay_iter(d: int, k: nat) -> int
    decreases k,
{
    if k == 0 {
        d
    } else {
        spec_decay(spec_decay_iter(d, (k - 1) as nat))
    }
}

/// One blend value after `k` animation steps toward target `t`.
pub open spec fn spec_iter_blend(b: int, t: int, k: nat) -> int
    decreases k,
{
    if k == 0 {
        b
    } else {
        spec_step_toward(spec_iter_blend(b, t, (k - 1) as nat), t)
    }
}

/// Above the snap window, one animation step takes the distance `d` to
/// exactly `(85 * d + 99) / 100`.
proof fn lemma_decay_closed_form(d: int)
    requires
        d > BLEND_EPSILON as int,
    ensures
        spec_decay(d) == (85 * d + 99) / 100,
{
    let q = d * 15 / 100;
    let r = (d * 15) % 100;
    lemma_fundamental_div_mod(d * 15, 100);
    vstd::arithmetic::div_mod::lemma_mod_division_less_than_divisor(d * 15, 100);
    assert(85 * d + 99 == (d - q) * 100 + (99 - r)) by (nonlinear_arith)
        requires
            d * 15 == 100 * q + r,
    ;
    lemma_fundamental_div_mod_converse_div(85 * d + 99, 100, d - q, 99 - r);
}

/// One animation step never makes the distance negative, and distances
/// that start in order stay in order.
proof fn lemma_decay_mono(x: int, b: int)
    requires
        0 <= x <= b,
    ensures
        0 <= spec_decay(x) <= spec_decay(b),
{
    if b > BLEND_EPSILON {
        lemma_step_le_dist(b);
        lemma_decay_closed_form(b);
        lemma_div_pos_is_pos(85 * b + 99, 100);
        if x > BLEND_EPSILON {
            lemma_step_le_dist(x);
            lemma_decay_closed_form(x);
            lemma_div_is_ordered(85 * x + 99, 85 * b + 99, 100);
        }
    }
}

/// Distances that start in order stay in order over any number of steps.
proof fn lemma_decay_iter_le(d: int, b: int, k: nat)
    requires
        0 <= d <= b,
    ensures
        0 <= spec_decay_iter(d, k) <= spec_decay_iter(b, k),
    decreases k,
{
    if k > 0 {
        lemma_decay_iter_le(d, b, (k - 1) as nat);
        lemma_decay_mono(spec_decay_iter(d, (k - 1) as nat), spec_decay_iter(b, (k - 1) as nat));
    }
}

/// Once the distance has reached 0 it stays 0.
proof fn lemma_decay_zero_persists(d: int, k: nat, m: nat)
    requires
        spec_decay_iter(d, k) == 0,
        k <= m,
    ensures
        spec_decay_iter(d, m) == 0,
    decreases m,
{
    if m > k {
        lemma_decay_zero_persists(d, k, (m - 1) as nat);
    }
}

/// From the largest possible distance, 31 steps reach 0: thirty steps of
/// 15% decay land inside the snap window, and one more step snaps.
proof fn lemma_decay_from_full()
    ensures
        spec_decay_iter(BLEND_ONE as int, 31) == 0,
{
    assert(spec_decay_iter(10000, 0) == 10000);
    assert(spec_decay_iter(10000, 1) == 8500);
    assert(spec_decay_iter(10000, 2) == 7225);
    assert(spec_decay_iter(10000, 3) == 6142);
    assert(spec_decay_iter(10000, 4) == 5221);
    assert(spec_decay_iter(10000, 5) == 4438);
    assert(spec_decay_iter(10000, 6) == 3773);
    assert(spec_decay_iter(10000, 7) == 3208);
    assert(spec_decay_iter(10000, 8) == 2727);
    assert(spec_decay_iter(10000, 9) == 2318);
    assert(spec_decay_iter(10000, 10) == 1971);
    assert(spec_decay_iter(10000, 11) == 1676);
    assert(spec_decay_iter(10000, 12) == 1425);
    assert(spec_decay_iter(10000, 13) == 1212);
    assert(spec_decay_iter(10000, 14) == 1031);
    assert(spec_decay_iter(10000, 15) == 877);
    assert(spec_decay_iter(10000, 16) == 746);
    assert(spec_decay_iter(10000, 17) == 635);
    assert(spec_decay_iter(10000, 18) == 540);
    assert(spec_decay_iter(10000, 19) == 459);
    assert(spec_decay_iter(10000, 20) == 391);
    assert(spec_decay_iter(10000, 21) == 333);
    assert(spec_decay_iter(10000, 22) == 284);
    assert(spec_decay_iter(10000, 23) == 242);
    assert(spec_decay_iter(10000, 24) == 206);
    assert(spec_decay_iter(10000, 25) == 176);
    assert(spec_decay_iter(10000, 26) == 150);
    assert(spec_decay_iter(10000, 27) == 128);
    assert(spec_decay_iter(10000, 28) == 109);
    assert(spec_decay_iter(10000, 29) == 93);
    assert(spec_decay_iter(10000, 30) == 0);
    assert(spec_decay_iter(10000, 31) == 0);
}

/// One step of a blend value moves its distance to the target exactly as
/// [`spec_decay`] says, and keeps the value a valid blend.
proof fn lemma_step_dist(b: int, t: int)
    requires
        0 <= b <= BLEND_ONE as int,
        t == 0 || t == BLEND_ONE as int,
    ensures
        0 <= spec_step_toward(b, t) <= BLEND_ONE as int,
        spec_dist(spec_step_toward(b, t), t) == spec_decay(spec_dist(b, t)),
{
    if spec_dist(b, t) > BLEND_EPSILON {
        if t > b {
            lemma_step_le_dist(t - b);
        } else {
            lemma_step_le_dist(b - t);
        }
    }
}

/// After `k` steps, a blend value's distance to its target is exactly the
/// `k`-fold decay of the starting distance.
proof fn lemma_iter_blend_dist(b: int, t: int, k: nat)
    requires
        0 <= b <= BLEND_ONE as int,
        t == 0 || t == BLEND_ONE as int,
    ensures
        0 <= spec_iter_blend(b, t, k) <= BLEND_ONE as int,
        spec_dist(spec_iter_blend(b, t, k), t) == spec_decay_iter(spec_dist(b, t), k),
    decreases k,
{
    if k > 0 {
        lemma_iter_blend_dist(b, t, (k - 1) as nat);
        lemma_step_dist(spec_iter_blend(b, t, (k - 1) as nat), t);
    }
}

/// For `k >= 1`, the whole-state iteration acts on each animated entry
/// exactly as the single-value iteration on its padded start value.
proof fn lemma_blends_after_elem(b: Seq<u32>, sel: int, n: int, k: nat, i: int)
    requires
        k >= 1,
        0 <= i < n,
    ensures
        spec_blends_after(b, sel, n, k).len() == spec_padded(b, n).len(),
        spec_blends_after(b, sel, n, k)[i] as int == spec_iter_blend(
            spec_padded(b, n)[i] as int,
            spec_blend_target(i, sel),
            k,
        ),
    decreases k,
{
    if k == 1 {
        assert(spec_blends_after(b, sel, n, 0) == b);
        assert(spec_blends_after(b, sel, n, 1) == spec_stepped(b, sel, n));
        assert(spec_iter_blend(spec_padded(b, n)[i] as int, spec_blend_target(i, sel), 0)
            == spec_padded(b, n)[i] as int);
    } else {
        lemma_blends_after_elem(b, sel, n, (k - 1) as nat, i);
        let prev = spec_blends_after(b, sel, n, (k - 1) as nat);
        assert(spec_padded(prev, n) == prev);
    }
}

/// Convergence law: however the blends start, a bounded number of
/// animation frames after the selection settles on `sel`, the blend of
/// every entry is exactly its target — [`BLEND_ONE`] for the selected
/// entry and 0 for every other. Fifty frames always suffice.
pub proof fn lemma_blend_convergence(b: Seq<u32>, sel: int, n: int, k: nat)
    requires
        forall|i: int| 0 <= i < b.len() ==> b[i] <= BLEND_ONE,
        k >= 50,
    ensures
        forall|i: int|
            0 <= i < n ==> spec_blends_after(b, sel, n, k)[i] as int == spec_blend_target(i, sel),
{
    assert forall|i: int|
        0 <= i < n implies spec_blends_after(b, sel, n, k)[i] as int == spec_blend_target(
        i,
        sel,
    ) by {
        let b0 = spec_padded(b, n)[i] as int;
        if i < b.len() {
            assert(spec_padded(b, n)[i] == b[i]);
        } else {
            assert(spec_padded(b, n)[i] == 0u32);
        }
        let t = spec_blend_target(i, sel);
        lemma_blends_after_elem(b, sel, n, k, i);
        lemma_iter_blend_dist(b0, t, k);
        let d0 = spec_dist(b0, t);
        lemma_decay_iter_le(d0, BLEND_ONE as int, 31);
        lemma_decay_from_full();
        lemma_decay_zero_persists(d0, 31, k);
    }
}

} // verus!
