use vstd::prelude::*;

verus! {

/// What the board offers to plot, and which kinds of channels are chosen.
pub struct ChanInfo {
    pub description: String,
    pub eeg_checked: bool,
    pub marker_checked: bool,
    pub battery_checked: bool,
    pub eeg_indices: Vec<usize>,
    pub marker_index: usize,
    pub battery_index: usize,
}

/// The channels chosen by the check boxes of `c`.
pub open spec fn spec_chosen(c: ChanInfo) -> Set<usize> {
    let eeg = if c.eeg_checked {
        c.eeg_indices@.to_set()
    } else {
        Set::empty()
    };
    let marker = if c.marker_checked {
        set![c.marker_index]
    } else {
        Set::empty()
    };
    let battery = if c.battery_checked {
        set![c.battery_index]
    } else {
        Set::empty()
    };
    eeg + marker + battery
}

/// Strictly increasing: sorted, without repeats.
pub open spec fn strictly_increasing(s: Seq<usize>) -> bool {
    forall|i: int, j: int| 0 <= i < j < s.len() ==> s[i] < s[j]
}

/// Row `i` of `s` cut into rows of `cols` items (the last row may be shorter).
pub open spec fn spec_row(s: Seq<usize>, cols: int, i: int) -> Seq<usize> {
    let hi = if (i + 1) * cols <= s.len() {
        (i + 1) * cols
    } else {
        s.len() as int
    };
    s.subrange(i * cols, hi)
}

/// Adds `x` to a strictly increasing vector, at its place, unless it is there.
fn insert_sorted(v: &mut Vec<usize>, x: usize)
    requires
        strictly_increasing(old(v)@),
    ensures
        strictly_increasing(final(v)@),
        final(v)@.to_set() == old(v)@.to_set().insert(x),
{
    let mut i: usize = 0;
    while i < v.len() && v[i] < x
        invariant
            0 <= i <= v@.len(),
            strictly_increasing(v@),
            forall|k: int| 0 <= k < i ==> v@[k] < x,
        decreases v@.len() - i,
    {
        i = i + 1;
    }
    let ghost before = v@;
    if i < v.len() && v[i] == x {
        assert(before.to_set().insert(x) =~= before.to_set());
        return;
    }
    v.insert(i, x);
    proof {
        assert(v@ =~= before.subrange(0, i as int).push(x) + before.subrange(i as int, before.len() as int));
        assert forall|a: int, b: int| 0 <= a < b < v@.len() implies v@[a] < v@[b] by {
            if b < i {
            } else if b == i {
            } else if a < i {
                assert(v@[b] == before[b - 1]);
            } else if a == i {
                assert(v@[b] == before[b - 1]);
                assert(before[i as int] > x);
            } else {
            }
        }
        assert forall|y: usize| v@.to_set().contains(y) <==> before.to_set().insert(x).contains(y) by {
            if v@.contains(y) {
                let k = choose|k: int| 0 <= k < v@.len() && v@[k] == y;
                if k < i {
                    assert(before[k] == y);
                    assert(before.contains(y));
                } else if k > i {
                    assert(before[k - 1] == y);
                    assert(before.contains(y));
                }
            }
            if before.contains(y) {
                let k = choose|k: int| 0 <= k < before.len() && before[k] == y;
                if k < i {
                    assert(v@[k] == y);
                } else {
                    assert(v@[k + 1] == y);
                }
                assert(v@.contains(y));
            }
            if y == x {
                assert(v@[i as int] == x);
                assert(v@.contains(y));
            }
        }
        assert(v@.to_set() =~= before.to_set().insert(x));
    }
}

impl ChanInfo {
    /// Nothing known of the board yet; EEG channels chosen, markers and
    /// battery not.
    pub fn new() -> (r: ChanInfo)
        ensures
            r.description@ == Seq::<char>::empty(),
            r.eeg_checked,
            !r.marker_checked,
            !r.battery_checked,
            r.eeg_indices@ == Seq::<usize>::empty(),
            r.marker_index == 0,
            r.battery_index == 0,
    {
        ChanInfo {
            description: String::new(),
            eeg_checked: true,
            marker_checked: false,
            battery_checked: false,
            eeg_indices: Vec::new(),
            marker_index: 0,
            battery_index: 0,
        }
    }

    /// Records what the board reports: its description, its EEG channels, its
    /// marker channel and its battery channel. The choices stay as they are.
    pub fn collect(
        &mut self,
        description: String,
        eeg_indices: Vec<usize>,
        marker_index: usize,
        battery_index: usize,
    )
        ensures
            final(self).description == description,
            final(self).eeg_indices == eeg_indices,
            final(self).marker_index == marker_index,
            final(self).battery_index == battery_index,
            final(self).eeg_checked == old(self).eeg_checked,
            final(self).marker_checked == old(self).marker_checked,
            final(self).battery_checked == old(self).battery_checked,
    {
        self.description = description;
        self.eeg_indices = eeg_indices;
        self.marker_index = marker_index;
        self.battery_index = battery_index;
    }

    /// The chosen channels, in increasing order, each once.
    pub fn selected_channels(&self) -> (r: Vec<usize>)
        ensures
            strictly_increasing(r@),
            r@.to_set() == spec_chosen(*self),
    {
        let mut r: Vec<usize> = Vec::new();
        if self.eeg_checked {
            let mut i: usize = 0;
            while i < self.eeg_indices.len()
                invariant
                    0 <= i <= self.eeg_indices@.len(),
                    strictly_increasing(r@),
                    r@.to_set() == self.eeg_indices@.subrange(0, i as int).to_set(),
                decreases self.eeg_indices@.len() - i,
            {
                insert_sorted(&mut r, self.eeg_indices[i]);
                proof {
                    let s = self.eeg_indices@;
                    assert(s.subrange(0, i + 1) =~= s.subrange(0, i as int).push(s[i as int]));
                    s.subrange(0, i as int).lemma_push_to_set_commute(s[i as int]);
                }
                i = i + 1;
            }
            assert(self.eeg_indices@.subrange(0, self.eeg_indices@.len() as int)
                =~= self.eeg_indices@);
        }
        let ghost after_eeg = r@.to_set();
        if self.marker_checked {
            insert_sorted(&mut r, self.marker_index);
        }
        let ghost after_marker = r@.to_set();
        if self.battery_checked {
            insert_sorted(&mut r, self.battery_index);
        }
        proof {
            let c = *self;
            let eeg = if c.eeg_checked {
                c.eeg_indices@.to_set()
            } else {
                Set::empty()
            };
            assert(Seq::<usize>::empty().to_set() =~= Set::<usize>::empty());
            assert(after_eeg =~= eeg);
            assert(r@.to_set() =~= spec_chosen(c));
        }
        r
    }
}

impl Default for ChanInfo {
    /// The same as `ChanInfo::new`.
    fn default() -> (r: ChanInfo)
        ensures
            r.description@ == Seq::<char>::empty(),
            r.eeg_checked,
            !r.marker_checked,
            !r.battery_checked,
            r.eeg_indices@ == Seq::<usize>::empty(),
            r.marker_index == 0,
            r.battery_index == 0,
    {
        ChanInfo::new()
    }
}

/// `s` cut into rows of `cols` items, in order; the last row holds what is
/// left and may be shorter.
pub fn chunk_rows(s: &Vec<usize>, cols: usize) -> (rows: Vec<Vec<usize>>)
    requires
        cols >= 1,
    ensures
        rows@.len() == (s@.len() + cols - 1) / (cols as int),
        forall|i: int| 0 <= i < rows@.len() ==> #[trigger] rows@[i]@ == spec_row(s@, cols as int, i),
{
    let mut rows: Vec<Vec<usize>> = Vec::new();
    let len = s.len();
    let mut start: usize = 0;
    if len > 0 {
        loop
            invariant_except_break
                start == rows@.len() * cols,
                start < len,
            invariant
                cols >= 1,
                len == s@.len(),
                forall|i: int|
                    0 <= i < rows@.len() ==> #[trigger] rows@[i]@ == spec_row(s@, cols as int, i),
            ensures
                rows@.len() >= 1,
                (rows@.len() - 1) * cols < len <= rows@.len() * cols,
            decreases len - start,
        {
            let ghost n = rows@.len() as int;
            proof {
                assert((n + 1) * cols == n * cols + cols) by (nonlinear_arith);
            }
            let end: usize = if len - start <= cols {
                len
            } else {
                start + cols
            };
            let mut row: Vec<usize> = Vec::new();
            let mut j: usize = start;
            while j < end
                invariant
                    start <= j <= end <= s@.len(),
                    row@ == s@.subrange(start as int, j as int),
                decreases end - j,
            {
                row.push(s[j]);
                proof {
                    assert(s@.subrange(start as int, j + 1) =~= s@.subrange(
                        start as int,
                        j as int,
                    ).push(s@[j as int]));
                }
                j = j + 1;
            }
            assert(row@ == spec_row(s@, cols as int, n));
            rows.push(row);
            if end == len {
                break;
            }
            start = end;
        }
    }
    proof {
        let n = rows@.len() as int;
        let c = cols as int;
        lemma_rows_count(len as int, c, n);
    }
    rows
}

proof fn lemma_rows_count(len: int, c: int, n: int)
    requires
        c >= 1,
        len >= 0,
        n >= 0,
        n * c >= len,
        (n - 1) * c < len || n == 0,
        n == 0 ==> len == 0,
    ensures
        n == (len + c - 1) / c,
{
    if n > 0 {
        assert((n - 1) * c == n * c - c) by (nonlinear_arith);
    }
    vstd::arithmetic::div_mod::lemma_fundamental_div_mod_converse(
        len + c - 1,
        c,
        n,
        len + c - 1 - n * c,
    );
}

} // verus!
