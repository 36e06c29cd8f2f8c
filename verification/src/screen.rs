use vstd::prelude::*;

verus! {

/// How the chart editor lays ticks out in columns: `beats_per_col` beats of
/// `beat_res` ticks each per column.
#[derive(Debug, Clone, Copy, PartialEq, Eq, Structural)]
pub struct ColumnLayout {
    pub beats_per_col: u32,
    pub beat_res: u32,
}

/// The number of ticks in a column, capped at `u32::MAX`.
pub open spec fn ticks_per_col_of(l: ColumnLayout) -> u32 {
    if l.beats_per_col * l.beat_res > u32::MAX {
        u32::MAX
    } else {
        (l.beats_per_col * l.beat_res) as u32
    }
}

/// The pieces of the tick range `start..end` cut at every column boundary, in order.
pub open spec fn column_ranges(start: u32, end: u32, tpc: u32) -> Seq<(u32, u32)>
    recommends
        tpc > 0,
    decreases end - start,
{
    if tpc > 0 && start <= end && start / tpc < end / tpc {
        let next = tpc * (1 + start / tpc);
        proof {
            lemma_next_boundary(start, end, tpc);
        }
        seq![(start, next as u32)] + column_ranges(next as u32, end, tpc)
    } else {
        seq![(start, end)]
    }
}

/// The next column boundary after `start` lies after `start` and at or before `end`
/// when `end` is in a later column.
pub proof fn lemma_next_boundary(start: u32, end: u32, tpc: u32)
    requires
        tpc > 0,
        start / tpc < end / tpc,
    ensures
        start < tpc * (1 + start / tpc) <= end,
        (tpc * (1 + start / tpc)) / (tpc as int) == 1 + start / tpc,
        (tpc * (1 + start / tpc)) % (tpc as int) == 0,
{
    let q = start / tpc;
    let qe = end / tpc;
    assert(start < tpc * (1 + q)) by (nonlinear_arith)
        requires
            q == start / tpc,
            tpc > 0,
    {
        vstd::arithmetic::div_mod::lemma_fundamental_div_mod(start as int, tpc as int);
    }
    assert(tpc * (1 + q) <= end) by (nonlinear_arith)
        requires
            q == start / tpc,
            qe == end / tpc,
            q < qe,
            tpc > 0,
    {
        vstd::arithmetic::div_mod::lemma_fundamental_div_mod(end as int, tpc as int);
        assert(tpc * (1 + q) <= tpc * qe);
    }
    vstd::arithmetic::mul::lemma_mul_is_commutative(tpc as int, 1 + q);
    vstd::arithmetic::div_mod::lemma_div_multiples_vanish(1 + q, tpc as int);
    vstd::arithmetic::div_mod::lemma_mod_multiples_basic(1 + q, tpc as int);
}

impl ColumnLayout {
    /// The number of ticks in a column, capped at `u32::MAX`.
    pub fn ticks_per_col(&self) -> (t: u32)
        ensures
            t == ticks_per_col_of(*self),
    {
        let b = self.beats_per_col as u64;
        let r = self.beat_res as u64;
        assert(b * r <= u32::MAX * u32::MAX) by (nonlinear_arith)
            requires
                b <= u32::MAX,
                r <= u32::MAX,
        ;
        let product = b * r;
        assert(product == self.beats_per_col * self.beat_res);
        if product > u32::MAX as u64 {
            u32::MAX
        } else {
            product as u32
        }
    }

    /// The column a tick lies in and how far into the column it lies.
    pub fn tick_to_column(&self, in_y: u32) -> (r: (u32, u32))
        requires
            ticks_per_col_of(*self) > 0,
        ensures
            r.0 == in_y / ticks_per_col_of(*self),
            r.1 == in_y % ticks_per_col_of(*self),
    {
        let tpc = self.ticks_per_col();
        (in_y / tpc, in_y % tpc)
    }

    /// The interval of length `l` starting at tick `y`, cut into one range per column it
    /// crosses.
    pub fn interval_to_ranges(&self, y: u32, l: u32) -> (ranges: Vec<(u32, u32)>)
        requires
            ticks_per_col_of(*self) > 0,
            y + l <= u32::MAX,
        ensures
            ranges@ == column_ranges(y, (y + l) as u32, ticks_per_col_of(*self)),
    {
        let ticks_per_col = self.ticks_per_col();
        let mut ranges: Vec<(u32, u32)> = Vec::new();
        let mut start = y;
        let end = y + l;
        while start / ticks_per_col < end / ticks_per_col
            invariant
                ticks_per_col > 0,
                y <= start <= end,
                ranges@ + column_ranges(start, end, ticks_per_col) == column_ranges(
                    y,
                    end,
                    ticks_per_col,
                ),
            decreases end - start,
        {
            proof {
                lemma_next_boundary(start, end, ticks_per_col);
            }
            let next = ticks_per_col * (1 + start / ticks_per_col);
            let ghost old_ranges = ranges@;
            ranges.push((start, next));
            proof {
                assert(column_ranges(start, end, ticks_per_col) == seq![(start, next)]
                    + column_ranges(next, end, ticks_per_col));
                assert(ranges@ + column_ranges(next, end, ticks_per_col) =~= old_ranges
                    + column_ranges(start, end, ticks_per_col));
            }
            start = next;
        }
        ranges.push((start, end));
        proof {
            assert(ranges@ =~= column_ranges(y, end, ticks_per_col));
        }
        ranges
    }
}

/// The pieces cover the interval: they start at its start, end at its end, follow each
/// other without gaps, and each lies within one column (its end may be the boundary of
/// the next one).
pub proof fn law_ranges_tile_interval(start: u32, end: u32, tpc: u32)
    requires
        tpc > 0,
        start <= end,
    ensures
        column_ranges(start, end, tpc).len() >= 1,
        column_ranges(start, end, tpc)[0].0 == start,
        column_ranges(start, end, tpc).last().1 == end,
        forall|i: int|
            0 <= i < column_ranges(start, end, tpc).len() - 1 ==> (#[trigger] column_ranges(
                start,
                end,
                tpc,
            )[i]).1 == column_ranges(start, end, tpc)[i + 1].0,
        forall|i: int|
            0 <= i < column_ranges(start, end, tpc).len() ==> {
                let r = #[trigger] column_ranges(start, end, tpc)[i];
                &&& r.0 <= r.1
                &&& (r.0 / tpc == r.1 / tpc || (r.1 % tpc == 0 && r.1 / tpc == r.0 / tpc + 1))
            },
    decreases end - start,
{
    let rs = column_ranges(start, end, tpc);
    vstd::arithmetic::div_mod::lemma_div_is_ordered(start as int, end as int, tpc as int);
    if start / tpc < end / tpc {
        lemma_next_boundary(start, end, tpc);
        let next = (tpc * (1 + start / tpc)) as u32;
        law_ranges_tile_interval(next, end, tpc);
        let tail = column_ranges(next, end, tpc);
        assert(rs == seq![(start, next)] + tail);
        assert forall|i: int| 0 <= i < rs.len() - 1 implies (#[trigger] rs[i]).1 == rs[i + 1].0 by {
            if i > 0 {
                assert(rs[i] == tail[i - 1]);
                assert(rs[i + 1] == tail[i]);
            }
        }
        assert forall|i: int| 0 <= i < rs.len() implies {
            let r = #[trigger] rs[i];
            &&& r.0 <= r.1
            &&& (r.0 / tpc == r.1 / tpc || (r.1 % tpc == 0 && r.1 / tpc == r.0 / tpc + 1))
        } by {
            if i > 0 {
                assert(rs[i] == tail[i - 1]);
            } else {
                assert(rs[0] == (start, next));
            }
        }
    }
}

} // verus!
