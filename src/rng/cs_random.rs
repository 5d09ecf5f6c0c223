//! The exact generator: a subtractive lagged-Fibonacci register of 56 slots.
use vstd::prelude::*;

use super::{MAX_INT, MIN_INT, MSEED};

verus! {

/// What a generator is, abstractly: its buffer and its two cursors.
pub struct RngState {
    pub buf: Seq<i32>,
    pub inext: int,
    pub inextp: int,
}

/// Every slot that sampling reads holds a value in `[0, MAX_INT]`.
pub open spec fn well_formed(s: RngState) -> bool {
    &&& s.buf.len() == 56
    &&& 0 <= s.inext < 56
    &&& 0 <= s.inextp < 56
    &&& forall|k: int| 1 <= k < 56 ==> 0 <= #[trigger] s.buf[k] <= MAX_INT
}

/// A cursor moves forward through slots 1 to 55 and wraps back to 1.
pub open spec fn advance_cursor(i: int) -> int {
    if i + 1 >= 56 {
        1
    } else {
        i + 1
    }
}

/// The raw value that the next draw yields, in `[0, MAX_INT)`.
pub open spec fn raw(s: RngState) -> int {
    let d = s.buf[advance_cursor(s.inext)] - s.buf[advance_cursor(s.inextp)];
    if d == MAX_INT {
        d - 1
    } else if d < 0 {
        d + MAX_INT
    } else {
        d
    }
}

/// The state after one draw: both cursors move and the drawn value is fed back.
pub open spec fn next_state(s: RngState) -> RngState {
    RngState {
        buf: s.buf.update(advance_cursor(s.inext), raw(s) as i32),
        inext: advance_cursor(s.inext),
        inextp: advance_cursor(s.inextp),
    }
}

/// The state after `n` draws.
pub open spec fn advance(s: RngState, n: nat) -> RngState
    decreases n,
{
    if n == 0 {
        s
    } else {
        advance(next_state(s), (n - 1) as nat)
    }
}

/// The draw read as the fraction `raw / MAX_INT` lies below `num / den`.
pub open spec fn below(s: RngState, num: int, den: int) -> bool {
    raw(s) * den < num * MAX_INT
}

/// A draw in `[min, max)` for a width up to `MAX_INT`: the fraction
/// `raw / MAX_INT` scaled by the width and rounded down.
pub open spec fn pick(s: RngState, min: int, max: int) -> int {
    min + ((max - min) * raw(s)) / (MAX_INT as int)
}

/// The long-range draw: a first raw value given a sign by the parity of a
/// second, shifted into `[0, 2 * MAX_INT - 2]`, read as a fraction of
/// `2 * MAX_INT - 1`.
pub open spec fn long_numerator(s: RngState) -> int {
    let r = raw(s);
    let signed = if raw(next_state(s)) % 2 == 0 {
        -r
    } else {
        r
    };
    signed + MAX_INT - 1
}

/// A draw in `[min, max)` of any width that 32-bit bounds allow.
pub open spec fn draw_range(s: RngState, min: int, max: int) -> int {
    if max - min <= MAX_INT {
        pick(s, min, max)
    } else {
        min + ((max - min) * long_numerator(s)) / (2 * MAX_INT - 1)
    }
}

/// The state after a ranged draw: one draw, or two for the long range.
pub open spec fn after_range(s: RngState, min: int, max: int) -> RngState {
    if max - min <= MAX_INT {
        next_state(s)
    } else {
        next_state(next_state(s))
    }
}

/// The magnitude of a seed; the most negative seed counts as `MAX_INT`.
pub open spec fn seed_magnitude(seed: i32) -> int {
    if seed == MIN_INT {
        MAX_INT as int
    } else if seed < 0 {
        -seed
    } else {
        seed as int
    }
}

/// A negative value brought back into range by adding the modulus.
pub open spec fn fold_negative(v: int) -> int {
    if v < 0 {
        v + MAX_INT
    } else {
        v
    }
}

/// The first phase of seeding after `k` of its 54 steps: the buffer, `mj`
/// and `mk`. Step `k` writes slot `21 * k mod 55`.
pub open spec fn fill_state(mj0: int, k: nat) -> (Seq<i32>, int, int)
    decreases k,
{
    if k == 0 {
        (Seq::new(56, |j: int| 0i32).update(55, mj0 as i32), mj0, 1)
    } else {
        let (buf, mj, mk) = fill_state(mj0, (k - 1) as nat);
        let ii = (21 * k) as int % 55;
        (buf.update(ii, mk as i32), mk, fold_negative(mj - mk))
    }
}

/// A value made non-negative by adding the modulus as often as needed.
pub open spec fn lift_nonneg(v: int) -> int {
    if v >= 0 {
        v
    } else if v + MAX_INT >= 0 {
        v + MAX_INT
    } else {
        v + 2 * MAX_INT
    }
}

/// One mixing step: slot `i` less slot `1 + (i + 30) mod 55`, with 32-bit
/// wrap-around, made non-negative.
pub open spec fn mix_slot(buf: Seq<i32>, i: int) -> Seq<i32> {
    let idx = 1 + (i + 30) % 55;
    buf.update(i, lift_nonneg(buf[i].wrapping_sub(buf[idx]) as int) as i32)
}

/// Slots `1..=n` of one mixing pass applied in order.
pub open spec fn mix_upto(buf: Seq<i32>, n: nat) -> Seq<i32>
    decreases n,
{
    if n == 0 {
        buf
    } else {
        mix_slot(mix_upto(buf, (n - 1) as nat), n as int)
    }
}

/// `p` full mixing passes.
pub open spec fn mix_passes(buf: Seq<i32>, p: nat) -> Seq<i32>
    decreases p,
{
    if p == 0 {
        buf
    } else {
        mix_upto(mix_passes(buf, (p - 1) as nat), 55)
    }
}

/// The state of a generator built from `seed`: it depends on the seed's
/// magnitude alone.
pub open spec fn init_state(seed: i32) -> RngState {
    let filled = fill_state(MSEED - seed_magnitude(seed), 54).0;
    RngState { buf: mix_passes(filled, 4), inext: 0, inextp: 21 }
}

proof fn lemma_step(s: RngState)
    requires
        well_formed(s),
    ensures
        0 <= raw(s) < MAX_INT,
        well_formed(next_state(s)),
{
    let t = next_state(s);
    assert forall|k: int| 1 <= k < 56 implies 0 <= #[trigger] t.buf[k] <= MAX_INT by {
        if k != advance_cursor(s.inext) {
            assert(t.buf[k] == s.buf[k]);
        }
    }
}

proof fn lemma_advance(s: RngState, n: nat)
    requires
        well_formed(s),
    ensures
        well_formed(advance(s, n)),
        0 <= raw(advance(s, n)) < MAX_INT,
    decreases n,
{
    lemma_step(s);
    if n > 0 {
        lemma_advance(next_state(s), (n - 1) as nat);
    }
}

/// One more draw after `n` draws is `n + 1` draws.
pub proof fn lemma_advance_succ(s: RngState, n: nat)
    ensures
        advance(s, n + 1) == next_state(advance(s, n)),
    decreases n,
{
    reveal_with_fuel(advance, 2);
    if n > 0 {
        lemma_advance_succ(next_state(s), (n - 1) as nat);
    }
}

proof fn lemma_fill_len(mj0: int, k: nat)
    ensures
        fill_state(mj0, k).0.len() == 56,
    decreases k,
{
    if k > 0 {
        lemma_fill_len(mj0, (k - 1) as nat);
    }
}

proof fn lemma_mix_upto(buf: Seq<i32>, n: nat)
    requires
        buf.len() == 56,
        n <= 55,
    ensures
        mix_upto(buf, n).len() == 56,
        forall|k: int| 1 <= k <= n ==> 0 <= #[trigger] mix_upto(buf, n)[k] <= MAX_INT,
    decreases n,
{
    if n > 0 {
        lemma_mix_upto(buf, (n - 1) as nat);
        let prev = mix_upto(buf, (n - 1) as nat);
        let v = lift_nonneg(prev[n as int].wrapping_sub(prev[1 + (n as int + 30) % 55]) as int);
        assert(0 <= v <= MAX_INT);
        assert forall|k: int| 1 <= k <= n implies 0 <= #[trigger] mix_upto(buf, n)[k] <= MAX_INT by {
            if k < n {
                assert(mix_upto(buf, n)[k] == prev[k]);
            }
        }
    }
}

proof fn lemma_mix_passes(buf: Seq<i32>, p: nat)
    requires
        buf.len() == 56,
        p >= 1,
    ensures
        mix_passes(buf, p).len() == 56,
        forall|k: int| 1 <= k < 56 ==> 0 <= #[trigger] mix_passes(buf, p)[k] <= MAX_INT,
    decreases p,
{
    if p > 1 {
        lemma_mix_passes(buf, (p - 1) as nat);
    }
    lemma_mix_upto(mix_passes(buf, (p - 1) as nat), 55);
}

/// Every generator that a seed builds is well formed.
pub proof fn lemma_init_well_formed(seed: i32)
    ensures
        well_formed(init_state(seed)),
{
    let mj0 = MSEED - seed_magnitude(seed);
    lemma_fill_len(mj0, 54);
    lemma_mix_passes(fill_state(mj0, 54).0, 4);
}

/// Seeds `n` and `-n` build the same generator, hence the same sequence of
/// draws, for every `n` but the most negative integer.
pub proof fn lemma_negated_seed_same_sequence(n: i32, k: nat)
    requires
        n != MIN_INT,
    ensures
        init_state(n) == init_state((-n) as i32),
        raw(advance(init_state(n), k)) == raw(advance(init_state((-n) as i32), k)),
{
}

/// However many draws came before, a raw draw lies in `[0, MAX_INT)`, so
/// the fraction `raw / MAX_INT` lies in `[0, 1)`.
pub proof fn lemma_samples_in_range(seed: i32, n: nat)
    ensures
        0 <= raw(advance(init_state(seed), n)) < MAX_INT,
        well_formed(advance(init_state(seed), n)),
{
    lemma_init_well_formed(seed);
    lemma_advance(init_state(seed), n);
}

/// A ranged draw over `[min, max)` lands in that interval, also where the
/// width exceeds the generator's modulus.
pub proof fn lemma_draw_range_bounds(s: RngState, min: i32, max: i32)
    requires
        well_formed(s),
        min < max,
    ensures
        min <= draw_range(s, min as int, max as int) < max,
{
    lemma_step(s);
    lemma_step(next_state(s));
    let width = max - min;
    let x = raw(s);
    if width <= MAX_INT {
        assert(0 <= width * x) by (nonlinear_arith)
            requires
                0 <= x,
                0 <= width,
        ;
        assert((width * x) / (MAX_INT as int) < width) by (nonlinear_arith)
            requires
                0 <= x < MAX_INT,
                0 < width,
        ;
    } else {
        let n = long_numerator(s);
        let big: int = 2 * MAX_INT - 1;
        assert(0 <= n < big);
        assert(0 <= width * n) by (nonlinear_arith)
            requires
                0 <= n,
                0 <= width,
        ;
        assert((width * n) / big < width) by (nonlinear_arith)
            requires
                0 <= n < big,
                0 < width,
                big > 0,
        ;
    }
}

/// The legacy subtractive generator, reproduced draw for draw.
#[derive(Clone)]
pub struct CSRandom {
    seed_array: [i32; 56],
    inext: usize,
    inextp: usize,
}

impl View for CSRandom {
    type V = RngState;

    closed spec fn view(&self) -> RngState {
        RngState { buf: self.seed_array@, inext: self.inext as int, inextp: self.inextp as int }
    }
}

fn lift_value(v: i32) -> (r: i32)
    ensures
        r == lift_nonneg(v as int),
{
    let mut r = v;
    if r < 0 {
        r = r + MAX_INT;
    }
    if r < 0 {
        r = r + MAX_INT;
    }
    r
}

impl CSRandom {
    /// Builds the generator for `seed`.
    pub fn new(seed: i32) -> (r: CSRandom)
        ensures
            r@ == init_state(seed),
            well_formed(r@),
    {
        let mut seed_array: [i32; 56] = [0i32; 56];
        let sub: i32 = if seed == MIN_INT {
            MAX_INT
        } else if seed < 0 {
            -seed
        } else {
            seed
        };
        let ghost mj0: int = MSEED - sub;
        let mut mj: i32 = MSEED - sub;
        seed_array[55] = mj;
        let mut mk: i32 = 1;
        assert(seed_array@ =~= Seq::new(56, |j: int| 0i32).update(55, mj0 as i32));
        let mut i: usize = 1;
        while i < 55
            invariant
                1 <= i <= 55,
                mj0 == MSEED - seed_magnitude(seed),
                (seed_array@, mj as int, mk as int) == fill_state(mj0, (i - 1) as nat),
                i == 1 ==> mj == mj0 && mk == 1,
                i > 1 ==> 0 <= mj < MAX_INT && 0 <= mk < MAX_INT,
            decreases 55 - i,
        {
            let ii: usize = (21 * i) % 55;
            seed_array[ii] = mk;
            let next_mk: i32 = mj - mk;
            mj = mk;
            mk = if next_mk < 0 {
                next_mk + MAX_INT
            } else {
                next_mk
            };
            i = i + 1;
        }
        let ghost filled = seed_array@;
        let mut p: usize = 0;
        while p < 4
            invariant
                p <= 4,
                filled == fill_state(mj0, 54).0,
                mj0 == MSEED - seed_magnitude(seed),
                seed_array@ == mix_passes(filled, p as nat),
                p > 0 ==> forall|k: int| 1 <= k < 56 ==> 0 <= #[trigger] seed_array@[k] <= MAX_INT,
            decreases 4 - p,
        {
            let ghost start = seed_array@;
            let mut i: usize = 1;
            while i < 56
                invariant
                    1 <= i <= 56,
                    p < 4,
                    start == mix_passes(filled, p as nat),
                    seed_array@ == mix_upto(start, (i - 1) as nat),
                    forall|k: int| 1 <= k < i ==> 0 <= #[trigger] seed_array@[k] <= MAX_INT,
                    p > 0 ==> forall|k: int| 1 <= k < 56 ==> 0 <= #[trigger] seed_array@[k] <= MAX_INT,
                decreases 56 - i,
            {
                let idx: usize = 1 + (i + 30) % 55;
                let v = lift_value(seed_array[i].wrapping_sub(seed_array[idx]));
                seed_array[i] = v;
                i = i + 1;
            }
            p = p + 1;
        }
        CSRandom { seed_array, inext: 0, inextp: 21 }
    }

    /// Draws one raw value in `[0, MAX_INT)`, feeding it back into the buffer.
    pub fn sample_raw(&mut self) -> (r: i32)
        requires
            well_formed(old(self)@),
        ensures
            final(self)@ == next_state(old(self)@),
            r == raw(old(self)@),
            well_formed(final(self)@),
            0 <= r < MAX_INT,
    {
        self.inext = if self.inext + 1 >= 56 {
            1
        } else {
            self.inext + 1
        };
        self.inextp = if self.inextp + 1 >= 56 {
            1
        } else {
            self.inextp + 1
        };
        let mut ret_val: i32 = self.seed_array[self.inext] - self.seed_array[self.inextp];
        if ret_val == MAX_INT {
            ret_val = ret_val - 1;
        }
        if ret_val < 0 {
            ret_val = ret_val + MAX_INT;
        }
        self.seed_array[self.inext] = ret_val;
        ret_val
    }

    /// Draws `n` times and discards the values.
    pub fn skip(&mut self, n: u32)
        requires
            well_formed(old(self)@),
        ensures
            final(self)@ == advance(old(self)@, n as nat),
            well_formed(final(self)@),
    {
        let ghost start = self@;
        let mut k: u32 = 0;
        while k < n
            invariant
                k <= n,
                self@ == advance(start, k as nat),
                well_formed(self@),
            decreases n - k,
        {
            proof {
                lemma_advance_succ(start, k as nat);
            }
            self.sample_raw();
            k = k + 1;
        }
    }

    /// Draws once and tells whether the draw, as a fraction of `MAX_INT`,
    /// lies below `num / den`.
    pub fn chance(&mut self, num: i32, den: i32) -> (r: bool)
        requires
            well_formed(old(self)@),
            0 <= num,
            0 < den,
        ensures
            final(self)@ == next_state(old(self)@),
            well_formed(final(self)@),
            r == below(old(self)@, num as int, den as int),
    {
        let x = self.sample_raw();
        assert(0 <= (x as int) * (den as int) <= (MAX_INT as int) * (i32::MAX as int)) by (nonlinear_arith)
            requires
                0 <= x < MAX_INT,
                0 < den <= i32::MAX,
        ;
        assert(0 <= (num as int) * (MAX_INT as int) <= (i32::MAX as int) * (MAX_INT as int)) by (nonlinear_arith)
            requires
                0 <= num <= i32::MAX,
        ;
        (x as i64) * (den as i64) < (num as i64) * (MAX_INT as i64)
    }

    /// Draws a value in `[0, max)`.
    pub fn next_max(&mut self, max: i32) -> (r: i32)
        requires
            well_formed(old(self)@),
            0 <= max,
        ensures
            final(self)@ == next_state(old(self)@),
            well_formed(final(self)@),
            r == pick(old(self)@, 0, max as int),
            max == 0 ==> r == 0,
            max > 0 ==> 0 <= r < max,
    {
        let x = self.sample_raw();
        assert(0 <= (max as int) * (x as int) <= (i32::MAX as int) * (MAX_INT as int)) by (nonlinear_arith)
            requires
                0 <= x < MAX_INT,
                0 <= max <= i32::MAX,
        ;
        assert(((max as int) * (x as int)) / (MAX_INT as int) < max || max == 0) by (nonlinear_arith)
            requires
                0 <= x < MAX_INT,
                0 <= max,
        ;
        let q: i64 = ((max as i64) * (x as i64)) / (MAX_INT as i64);
        q as i32
    }

    /// The long-range sample: a raw value given a sign by the parity of a
    /// second draw, shifted into `[0, 2 * MAX_INT - 2]`.
    fn sample_lr(&mut self) -> (r: i64)
        requires
            well_formed(old(self)@),
        ensures
            final(self)@ == next_state(next_state(old(self)@)),
            well_formed(final(self)@),
            r == long_numerator(old(self)@),
            0 <= r <= 2 * MAX_INT - 2,
    {
        let res = self.sample_raw();
        let parity = self.sample_raw();
        let signed: i64 = if parity % 2 == 0 {
            -(res as i64)
        } else {
            res as i64
        };
        signed + (MAX_INT as i64) - 1
    }

    /// Draws a value in `[min, max)`; a width over `MAX_INT` takes the
    /// long-range sample, which draws twice.
    pub fn next_range(&mut self, min: i32, max: i32) -> (r: i32)
        requires
            well_formed(old(self)@),
            min <= max,
        ensures
            final(self)@ == after_range(old(self)@, min as int, max as int),
            well_formed(final(self)@),
            r == draw_range(old(self)@, min as int, max as int),
            min == max ==> r == min,
            min < max ==> min <= r < max,
    {
        let width: i64 = (max as i64) - (min as i64);
        if width <= MAX_INT as i64 {
            let x = self.sample_raw();
            assert(0 <= (width as int) * (x as int) <= (MAX_INT as int) * (MAX_INT as int)) by (nonlinear_arith)
                requires
                    0 <= x < MAX_INT,
                    0 <= width <= MAX_INT,
            ;
            assert(((width as int) * (x as int)) / (MAX_INT as int) < width || width == 0) by (nonlinear_arith)
                requires
                    0 <= x < MAX_INT,
                    0 <= width,
            ;
            let q: i64 = (width * (x as i64)) / (MAX_INT as i64);
            (q + min as i64) as i32
        } else {
            let n = self.sample_lr();
            let ghost big: int = 2 * MAX_INT - 1;
            assert(0 <= (width as int) * (n as int) <= (4294967295int) * (4294967292int)) by (nonlinear_arith)
                requires
                    0 <= n <= 2 * MAX_INT - 2,
                    0 <= width <= 4294967295int,
            ;
            assert(((width as int) * (n as int)) / big < width) by (nonlinear_arith)
                requires
                    0 <= n < big,
                    0 < width,
                    big > 0,
            ;
            let q: i128 = ((width as i128) * (n as i128)) / ((2 * (MAX_INT as i64) - 1) as i128);
            (q + min as i128) as i32
        }
    }

    /// The generator's general entry: no bound draws a raw value, one bound
    /// `max` draws in `[0, max)`, two bounds draw in `[min, max)`. A lone
    /// upper bound is taken as no bound at all.
    pub fn next(&mut self, min_val: Option<i32>, max_val: Option<i32>) -> (r: i32)
        requires
            well_formed(old(self)@),
            min_val matches Some(m) ==> m >= 0 || max_val is Some,
            min_val matches Some(lo) ==> max_val matches Some(hi) ==> lo <= hi,
        ensures
            well_formed(final(self)@),
            match (min_val, max_val) {
                (Some(lo), Some(hi)) => r == draw_range(old(self)@, lo as int, hi as int)
                    && final(self)@ == after_range(old(self)@, lo as int, hi as int),
                (Some(m), None) => r == pick(old(self)@, 0, m as int)
                    && final(self)@ == next_state(old(self)@),
                _ => r == raw(old(self)@) && final(self)@ == next_state(old(self)@),
            },
    {
        match (min_val, max_val) {
            (Some(lo), Some(hi)) => self.next_range(lo, hi),
            (Some(m), None) => self.next_max(m),
            _ => self.sample_raw(),
        }
    }
}

} // verus!
