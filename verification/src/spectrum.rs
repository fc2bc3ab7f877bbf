use vstd::prelude::*;

verus! {

/// Samples in one spectrum analysis window.
pub const SPECTRUM_FFT_SIZE: usize = 4096;

/// Display bins the spectrum shows unless changed.
pub const DEFAULT_SPECTRUM_BIN_SIZE: usize = 2048;

/// The last samples fed to the spectrum analyser, kept in a circular buffer
/// of fixed length, with a count of the samples fed since the window was
/// last analysed.  A new analysis is due every `hop` samples.
#[derive(Debug, Clone)]
pub struct SampleRing<T> {
    slots: Vec<T>,
    write_pos: usize,
    since_last: usize,
    hop: usize,
}

/// Position in the buffer of the `i`th oldest sample, when the oldest sits
/// at `start` of `n` slots.
pub open spec fn ring_slot(start: int, i: int, n: int) -> int {
    if start + i < n {
        start + i
    } else {
        start + i - n
    }
}

impl<T> SampleRing<T> {
    /// The buffer has room and the write position lies inside it.
    pub closed spec fn wf(&self) -> bool {
        &&& self.slots@.len() > 0
        &&& self.write_pos < self.slots@.len()
    }

    /// The samples held, oldest first.
    pub closed spec fn window(&self) -> Seq<T> {
        Seq::new(
            self.slots@.len(),
            |i: int| self.slots@[ring_slot(self.write_pos as int, i, self.slots@.len() as int)],
        )
    }

    /// Samples fed since the window was last analysed.
    pub closed spec fn pending(&self) -> nat {
        self.since_last as nat
    }

    /// Samples between two analyses.
    pub closed spec fn hop(&self) -> nat {
        self.hop as nat
    }

    /// A ring of `size` copies of `fill`, analysed every quarter of its
    /// length.
    pub fn new(size: usize, fill: T) -> (r: Self) where T: Copy
        requires
            size > 0,
        ensures
            r.wf(),
            r.window() == Seq::new(size as nat, |i: int| fill),
            r.pending() == 0,
            r.hop() == size / 4,
    {
        let mut slots: Vec<T> = Vec::new();
        while slots.len() < size
            invariant
                slots.len() <= size,
                forall|i: int| 0 <= i < slots.len() ==> slots@[i] == fill,
            decreases size - slots.len(),
        {
            slots.push(fill);
        }
        let r = SampleRing { slots, write_pos: 0, since_last: 0, hop: size / 4 };
        assert(r.window() =~= Seq::new(size as nat, |i: int| fill));
        r
    }

    /// Feed one sample: it becomes the newest, and the oldest is dropped.
    pub fn push(&mut self, x: T)
        requires
            old(self).wf(),
            old(self).pending() < usize::MAX,
        ensures
            final(self).wf(),
            final(self).window() == old(self).window().drop_first().push(x),
            final(self).pending() == old(self).pending() + 1,
            final(self).hop() == old(self).hop(),
    {
        let ghost before = self.window();
        let n = self.slots.len();
        let pos = self.write_pos;
        self.slots.set(pos, x);
        self.write_pos = if pos + 1 == n {
            0
        } else {
            pos + 1
        };
        self.since_last = self.since_last + 1;
        proof {
            assert forall|i: int| 0 <= i < n implies #[trigger] self.window()[i] == before.drop_first().push(x)[i] by {
                if i < n - 1 {
                    assert(self.slots@[ring_slot(self.write_pos as int, i, n as int)] == before[i + 1]);
                }
            }
            assert(self.window() =~= before.drop_first().push(x));
        }
    }

    /// Whether an analysis is due: when a whole hop of samples has been fed
    /// since the last one, the count starts again.
    pub fn take_hop(&mut self) -> (due: bool)
        ensures
            due == (old(self).pending() >= old(self).hop()),
            final(self).window() == old(self).window(),
            final(self).wf() == old(self).wf(),
            final(self).hop() == old(self).hop(),
            final(self).pending() == (if due {
                0
            } else {
                old(self).pending()
            }),
    {
        if self.since_last < self.hop {
            false
        } else {
            self.since_last = 0;
            true
        }
    }

    /// The samples held, oldest first.
    pub fn ordered(&self) -> (r: Vec<T>) where T: Copy
        requires
            self.wf(),
        ensures
            r@ == self.window(),
    {
        let n = self.slots.len();
        let mut r: Vec<T> = Vec::new();
        let mut i: usize = 0;
        while i < n
            invariant
                n == self.slots@.len(),
                self.wf(),
                i <= n,
                r@.len() == i,
                forall|j: int| 0 <= j < i ==> r@[j] == self.window()[j],
            decreases n - i,
        {
            let at = if i < n - self.write_pos {
                self.write_pos + i
            } else {
                i - (n - self.write_pos)
            };
            r.push(self.slots[at]);
            i = i + 1;
        }
        assert(r@ =~= self.window());
        r
    }
}

/// The window of a ring that held `window` after `fed` was pushed into it,
/// one sample at a time.
pub open spec fn spec_after_feeding<T>(window: Seq<T>, fed: Seq<T>) -> Seq<T>
    decreases fed.len(),
{
    if fed.len() == 0 {
        window
    } else {
        spec_after_feeding(window, fed.drop_last()).drop_first().push(fed.last())
    }
}

/// Feeding samples to the ring keeps the latest ones: its window is always
/// the last values of what it held followed by what was fed, as many as it
/// has slots.
pub proof fn lemma_ring_keeps_latest<T>(window: Seq<T>, fed: Seq<T>)
    requires
        window.len() > 0,
    ensures
        spec_after_feeding(window, fed) == (window + fed).subrange(fed.len() as int, (window.len() + fed.len()) as int),
    decreases fed.len(),
{
    if fed.len() > 0 {
        lemma_ring_keeps_latest(window, fed.drop_last());
        let before = (window + fed.drop_last()).subrange(fed.len() - 1, window.len() + fed.len() - 1);
        assert(before.drop_first().push(fed.last()) =~= (window + fed).subrange(
            fed.len() as int,
            (window.len() + fed.len()) as int,
        ));
    }
}

/// The FFT bins that display bin `i` of `bin_size` reads, out of
/// `num_fft_bins`: bins are grouped linearly, and every display bin reads at
/// least one FFT bin and none past the last.
pub open spec fn spec_display_bin_range(i: int, num_fft_bins: int, bin_size: int) -> (int, int) {
    let start = i * num_fft_bins / bin_size;
    let end = vstd::math::min(vstd::math::max((i + 1) * num_fft_bins / bin_size, start + 1), num_fft_bins);
    (start, end)
}

/// The FFT bins `start..end` that display bin `i` reads (see
/// `spec_display_bin_range`).
pub fn display_bin_range(i: usize, num_fft_bins: usize, bin_size: usize) -> (r: (usize, usize))
    requires
        i < bin_size,
        (i + 1) * num_fft_bins <= usize::MAX,
    ensures
        r.0 == spec_display_bin_range(i as int, num_fft_bins as int, bin_size as int).0,
        r.1 == spec_display_bin_range(i as int, num_fft_bins as int, bin_size as int).1,
        num_fft_bins > 0 ==> r.0 < r.1 <= num_fft_bins,
{
    proof {
        vstd::arithmetic::mul::lemma_mul_inequality(i as int, (i + 1) as int, num_fft_bins as int);
    }
    let start = i * num_fft_bins / bin_size;
    let upper = (i + 1) * num_fft_bins / bin_size;
    proof {
        if num_fft_bins > 0 {
            lemma_start_below_count(i as int, num_fft_bins as int, bin_size as int);
        }
    }
    let end = if upper > start + 1 {
        upper
    } else {
        start + 1
    };
    let end = if end < num_fft_bins {
        end
    } else {
        num_fft_bins
    };
    (start, end)
}

/// The first FFT bin of display bin `i` lies below the FFT bin count.
proof fn lemma_start_below_count(i: int, n: int, b: int)
    requires
        0 <= i < b,
        n > 0,
    ensures
        i * n / b < n,
{
    let q = i * n / b;
    vstd::arithmetic::div_mod::lemma_fundamental_div_mod(i * n, b);
    vstd::arithmetic::div_mod::lemma_mod_bound(i * n, b);
    if q >= n {
        assert(b * q >= b * n) by (nonlinear_arith)
            requires
                q >= n,
                b > 0,
        ;
        assert(i * n < b * n) by (nonlinear_arith)
            requires
                i < b,
                n > 0,
        ;
    }
}

/// Every FFT bin is read by some display bin: grouping `num_fft_bins` FFT
/// bins into `bin_size` display bins leaves none out.
pub proof fn lemma_display_bins_cover(k: int, num_fft_bins: int, bin_size: int)
    requires
        0 <= k < num_fft_bins,
        bin_size > 0,
    ensures
        exists|i: int|
            0 <= i < bin_size && #[trigger] spec_display_bin_range(i, num_fft_bins, bin_size).0 <= k
                < spec_display_bin_range(i, num_fft_bins, bin_size).1,
{
    let n = num_fft_bins;
    let b = bin_size;
    // The first display bin whose grouping starts past `k`, less one.
    let j = ((k + 1) * b + n - 1) / n;
    let i = j - 1;
    assert(j * n >= (k + 1) * b && (j - 1) * n < (k + 1) * b) by {
        vstd::arithmetic::div_mod::lemma_fundamental_div_mod((k + 1) * b + n - 1, n);
        vstd::arithmetic::div_mod::lemma_mod_bound((k + 1) * b + n - 1, n);
        vstd::arithmetic::mul::lemma_mul_is_commutative(j, n);
        vstd::arithmetic::mul::lemma_mul_is_distributive_sub_other_way(n, j, 1);
    }
    assert(1 <= j <= b) by {
        assert((k + 1) * b >= b) by (nonlinear_arith)
            requires
                k >= 0,
                b > 0,
        ;
        assert((k + 1) * b <= n * b) by (nonlinear_arith)
            requires
                k + 1 <= n,
                b > 0,
        ;
        if j < 1 {
            assert(j * n <= 0) by (nonlinear_arith)
                requires
                    j < 1,
                    n > 0,
                    j >= 0,
            ;
        }
        if j > b {
            assert((j - 1) * n >= b * n) by (nonlinear_arith)
                requires
                    j - 1 >= b,
                    n > 0,
            ;
            vstd::arithmetic::mul::lemma_mul_is_commutative(n, b);
        }
        assert(j >= 0) by {
            vstd::arithmetic::div_mod::lemma_div_pos_is_pos((k + 1) * b + n - 1, n);
        }
    }
    assert(i * n / b <= k) by {
        assert(i * n <= (k + 1) * b - 1);
        vstd::arithmetic::div_mod::lemma_div_is_ordered(i * n, (k + 1) * b - 1, b);
        assert(((k + 1) * b - 1) / b == k) by {
            assert((k + 1) * b - 1 == k * b + (b - 1)) by (nonlinear_arith);
            vstd::arithmetic::div_mod::lemma_fundamental_div_mod_converse((k + 1) * b - 1, b, k, b - 1);
        }
    }
    assert((i + 1) * n / b >= k + 1) by {
        vstd::arithmetic::div_mod::lemma_div_is_ordered((k + 1) * b, j * n, b);
        vstd::arithmetic::div_mod::lemma_div_multiples_vanish(k + 1, b);
        vstd::arithmetic::mul::lemma_mul_is_commutative(b, k + 1);
    }
    assert(spec_display_bin_range(i, n, b).0 <= k < spec_display_bin_range(i, n, b).1);
}

/// The latest complete frame of `bin_size` values in `staging`, whose
/// frames start at its first value: with `k` whole frames in it, the values
/// from `(k - 1) * bin_size` to `k * bin_size`.  Earlier frames and a partial
/// frame left at the end are dropped; without a whole frame there is none.
pub fn latest_frame<T: Copy>(staging: &Vec<T>, bin_size: usize) -> (r: Option<Vec<T>>)
    requires
        bin_size > 0,
    ensures
        staging@.len() < bin_size ==> r is None,
        staging@.len() >= bin_size ==> (r matches Some(frame) && {
            let k = staging@.len() as int / bin_size as int;
            frame@ == staging@.subrange((k - 1) * bin_size, k * bin_size)
        }),
{
    let len = staging.len();
    if len < bin_size {
        return None;
    }
    let frames = len / bin_size;
    proof {
        vstd::arithmetic::div_mod::lemma_fundamental_div_mod(len as int, bin_size as int);
        vstd::arithmetic::div_mod::lemma_mod_bound(len as int, bin_size as int);
        vstd::arithmetic::div_mod::lemma_div_pos_is_pos(len as int, bin_size as int);
        vstd::arithmetic::div_mod::lemma_div_is_ordered(bin_size as int, len as int, bin_size as int);
        vstd::arithmetic::div_mod::lemma_div_by_self(bin_size as int);
        vstd::arithmetic::mul::lemma_mul_is_commutative(bin_size as int, frames as int);
        assert((frames as int) * (bin_size as int) <= len);
        assert((frames as int - 1) * (bin_size as int) == (frames as int) * (bin_size as int) - bin_size as int)
            by (nonlinear_arith);
    }
    let end = frames * bin_size;
    let start = end - bin_size;
    let mut frame: Vec<T> = Vec::new();
    let mut k: usize = start;
    while k < end
        invariant
            start <= k <= end,
            end <= len,
            len == staging@.len(),
            frame@ == staging@.subrange(start as int, k as int),
        decreases end - k,
    {
        frame.push(staging[k]);
        k = k + 1;
        assert(frame@ =~= staging@.subrange(start as int, k as int));
    }
    Some(frame)
}

} // verus!
