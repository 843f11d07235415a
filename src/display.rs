use vstd::prelude::*;

verus! {

/// The number of colours that plot lines cycle through.
pub const PALETTE_LEN: usize = 16;

/// The fewest samples a plot shows.
pub const MIN_SAMPLES: usize = 100;

/// The most samples a plot shows.
pub const MAX_SAMPLES: usize = 2000;

/// How many samples one key press adds or removes.
pub const SAMPLES_STEP: usize = 10;

pub open spec fn spec_min(s: Seq<i32>) -> int
    decreases s.len(),
{
    if s.len() <= 1 {
        s[0] as int
    } else {
        let m = spec_min(s.drop_last());
        if s.last() < m {
            s.last() as int
        } else {
            m
        }
    }
}

pub open spec fn spec_max(s: Seq<i32>) -> int
    decreases s.len(),
{
    if s.len() <= 1 {
        s[0] as int
    } else {
        let m = spec_max(s.drop_last());
        if s.last() > m {
            s.last() as int
        } else {
            m
        }
    }
}

/// The range that fits the values `s`: from their minimum to their maximum,
/// widened by 5% of the difference (rounded up) on each side, or by one on
/// each side when all values are equal.
pub open spec fn spec_fit_range(s: Seq<i32>) -> (int, int) {
    let lo = spec_min(s);
    let hi = spec_max(s);
    if lo == hi {
        (lo - 1, hi + 1)
    } else {
        let e = (hi - lo + 19) / 20;
        (lo - e, hi + e)
    }
}

/// The range that fits `values`; see `spec_fit_range`.
pub fn min_max_finder(values: &Vec<i32>) -> (r: (i64, i64))
    requires
        values@.len() >= 1,
    ensures
        (r.0 as int, r.1 as int) == spec_fit_range(values@),
        r.0 < r.1,
{
    let mut lo: i32 = values[0];
    let mut hi: i32 = values[0];
    let mut i: usize = 1;
    while i < values.len()
        invariant
            1 <= i <= values@.len(),
            lo == spec_min(values@.subrange(0, i as int)),
            hi == spec_max(values@.subrange(0, i as int)),
            lo <= hi,
        decreases values@.len() - i,
    {
        proof {
            let s = values@.subrange(0, i + 1);
            assert(s.drop_last() =~= values@.subrange(0, i as int));
        }
        if values[i] < lo {
            lo = values[i];
        }
        if values[i] > hi {
            hi = values[i];
        }
        i = i + 1;
    }
    assert(values@.subrange(0, values@.len() as int) =~= values@);
    if lo == hi {
        (lo as i64 - 1, hi as i64 + 1)
    } else {
        let e: i64 = (hi as i64 - lo as i64 + 19) / 20;
        (lo as i64 - e, hi as i64 + e)
    }
}

/// The number of samples after a press of the up key (`more`) or the down key:
/// ten more or ten fewer, held within `[MIN_SAMPLES, MAX_SAMPLES]`.
pub fn adjust_samples(samples: usize, more: bool) -> (r: usize)
    ensures
        more ==> r == (if samples + SAMPLES_STEP > MAX_SAMPLES {
            MAX_SAMPLES as int
        } else {
            samples + SAMPLES_STEP
        }),
        !more ==> r == (if samples - SAMPLES_STEP < MIN_SAMPLES {
            MIN_SAMPLES as int
        } else {
            samples - SAMPLES_STEP
        }),
{
    if more {
        if samples > MAX_SAMPLES - SAMPLES_STEP {
            MAX_SAMPLES
        } else {
            samples + SAMPLES_STEP
        }
    } else {
        if samples < MIN_SAMPLES + SAMPLES_STEP {
            MIN_SAMPLES
        } else {
            samples - SAMPLES_STEP
        }
    }
}

/// The palette entry of channel `chan` (channels are numbered from one).
pub fn palette_index(chan: u64) -> (r: usize)
    requires
        chan >= 1,
    ensures
        r == (chan - 1) % (PALETTE_LEN as int),
        r < PALETTE_LEN,
{
    ((chan - 1) % (PALETTE_LEN as u64)) as usize
}

} // verus!
