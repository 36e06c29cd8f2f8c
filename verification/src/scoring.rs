use vstd::prelude::*;

use crate::config::ScoreDisplayMode;

verus! {

/// What a scoring point of a chart is.
#[derive(Debug, Clone, Copy, PartialEq, Eq, Structural)]
pub enum ScoreTick {
    Laser { lane: usize },
    Slam { lane: usize },
    Chip { lane: usize },
    Hold { lane: usize, start_tick: u32 },
}

/// A scoring point and the tick it lies on.
#[derive(Debug, Clone, Copy, PartialEq, Eq, Structural)]
pub struct PlacedScoreTick {
    pub y: u32,
    pub tick: ScoreTick,
}

/// The judgement of one scoring point.
#[derive(Debug, Clone, Copy, PartialEq, Eq, Structural)]
pub enum HitRating {
    NoRating,
    Crit { tick: PlacedScoreTick },
    Good { tick: PlacedScoreTick },
    Miss { tick: PlacedScoreTick },
}

impl HitRating {
    /// Whether this judgement keeps a perfect run: critical hits and no judgement do.
    pub fn crit(self) -> (b: bool)
        ensures
            b == (self is Crit || self is NoRating),
    {
        match self {
            HitRating::NoRating => true,
            HitRating::Crit { .. } => true,
            _ => false,
        }
    }

    /// Whether this judgement is anything but a miss.
    pub fn hit(self) -> (b: bool)
        ensures
            b == !(self is Miss),
    {
        !matches!(self, HitRating::Miss { .. })
    }
}

/// Whether a scoring point is a single moment (a chip or a slam) rather than part of a
/// long note or a laser.
pub open spec fn is_short(t: PlacedScoreTick) -> bool {
    t.tick is Chip || t.tick is Slam
}

/// Whether a scoring point is a single moment (a chip or a slam).
pub fn tick_is_short(score_tick: PlacedScoreTick) -> (b: bool)
    ensures
        b == is_short(score_tick),
{
    match score_tick.tick {
        ScoreTick::Laser { .. } => false,
        ScoreTick::Slam { .. } => true,
        ScoreTick::Chip { .. } => true,
        ScoreTick::Hold { .. } => false,
    }
}

/// The number of critical hits in `s`.
pub open spec fn crit_count(s: Seq<HitRating>) -> nat
    decreases s.len(),
{
    if s.len() == 0 {
        0
    } else {
        crit_count(s.drop_last()) + if s.last() is Crit {
            1nat
        } else {
            0nat
        }
    }
}

/// The number of good hits in `s`.
pub open spec fn good_count(s: Seq<HitRating>) -> nat
    decreases s.len(),
{
    if s.len() == 0 {
        0
    } else {
        good_count(s.drop_last()) + if s.last() is Good {
            1nat
        } else {
            0nat
        }
    }
}

/// The number of misses in `s`.
pub open spec fn miss_count(s: Seq<HitRating>) -> nat
    decreases s.len(),
{
    if s.len() == 0 {
        0
    } else {
        miss_count(s.drop_last()) + if s.last() is Miss {
            1nat
        } else {
            0nat
        }
    }
}

/// How many scoring points were hit critically, hit well, and missed.
#[derive(Debug, Default, Clone, Copy, PartialEq, Eq, Structural)]
pub struct HitSummary {
    crit: u32,
    good: u32,
    miss: u32,
}

impl HitSummary {
    pub closed spec fn crits(&self) -> u32 {
        self.crit
    }

    pub closed spec fn goods(&self) -> u32 {
        self.good
    }

    pub closed spec fn misses(&self) -> u32 {
        self.miss
    }

    /// A summary with the given counts.
    pub fn new(crit: u32, good: u32, miss: u32) -> (s: Self)
        ensures
            s.crits() == crit,
            s.goods() == good,
            s.misses() == miss,
    {
        Self { crit, good, miss }
    }

    /// A perfect play: nothing was merely good and nothing was missed.
    pub fn perfect(&self) -> (b: bool)
        ensures
            b == (self.goods() == 0 && self.misses() == 0),
    {
        self.good == 0 && self.miss == 0
    }

    /// A full combo: nothing was missed.
    pub fn full_combo(&self) -> (b: bool)
        ensures
            b == (self.misses() == 0),
    {
        self.miss == 0
    }

    /// Counts the judgements of a play.
    pub fn from(value: &[HitRating]) -> (s: Self)
        requires
            crit_count(value@) <= u32::MAX,
            good_count(value@) <= u32::MAX,
            miss_count(value@) <= u32::MAX,
        ensures
            s.crits() == crit_count(value@),
            s.goods() == good_count(value@),
            s.misses() == miss_count(value@),
    {
        let mut crit: u32 = 0;
        let mut good: u32 = 0;
        let mut miss: u32 = 0;
        let mut i: usize = 0;
        while i < value.len()
            invariant
                i <= value@.len(),
                crit_count(value@) <= u32::MAX,
                good_count(value@) <= u32::MAX,
                miss_count(value@) <= u32::MAX,
                crit == crit_count(value@.take(i as int)),
                good == good_count(value@.take(i as int)),
                miss == miss_count(value@.take(i as int)),
            decreases value.len() - i,
        {
            proof {
                let t = value@.take(i as int + 1);
                assert(t.drop_last() =~= value@.take(i as int));
                assert(value@ =~= t + value@.skip(i as int + 1));
                lemma_counts_concat(t, value@.skip(i as int + 1));
            }
            match value[i] {
                HitRating::NoRating => {},
                HitRating::Crit { .. } => {
                    crit = crit + 1;
                },
                HitRating::Good { .. } => {
                    good = good + 1;
                },
                HitRating::Miss { .. } => {
                    miss = miss + 1;
                },
            }
            i = i + 1;
        }
        assert(value@.take(value.len() as int) =~= value@);
        Self { crit, good, miss }
    }
}

/// Every judgement counts for exactly one of the three counts, or for none when it is
/// no judgement.
pub proof fn law_counts_partition(s: Seq<HitRating>)
    ensures
        crit_count(s) + good_count(s) + miss_count(s) + no_rating_count(s) == s.len(),
    decreases s.len(),
{
    if s.len() > 0 {
        law_counts_partition(s.drop_last());
    }
}

/// Counting the judgements of two runs one after the other adds their counts, so the
/// order of the runs does not matter.
pub proof fn law_counts_add_up(a: Seq<HitRating>, b: Seq<HitRating>)
    ensures
        crit_count(a + b) == crit_count(a) + crit_count(b),
        good_count(a + b) == good_count(a) + good_count(b),
        miss_count(a + b) == miss_count(a) + miss_count(b),
        crit_count(a + b) == crit_count(b + a),
        good_count(a + b) == good_count(b + a),
        miss_count(a + b) == miss_count(b + a),
{
    lemma_counts_concat(a, b);
    lemma_counts_concat(b, a);
}

/// The counts depend only on which judgements were made, not on their order.
pub proof fn law_counts_ignore_order(s1: Seq<HitRating>, s2: Seq<HitRating>)
    requires
        s1.to_multiset() == s2.to_multiset(),
    ensures
        crit_count(s1) == crit_count(s2),
        good_count(s1) == good_count(s2),
        miss_count(s1) == miss_count(s2),
    decreases s1.len(),
{
    broadcast use vstd::seq_lib::group_to_multiset_ensures;

    if s1.len() == 0 {
        assert(s2.to_multiset().len() == 0);
        assert(s2 =~= s1);
    } else {
        let x = s1.last();
        let t1 = s1.drop_last();
        assert(t1.push(x) =~= s1);
        assert(s2.to_multiset().count(x) > 0);
        assert(s2.contains(x));
        let j = choose|j: int| 0 <= j < s2.len() && s2[j] == x;
        let t2 = s2.remove(j);
        assert(t2.to_multiset() =~= s2.to_multiset().remove(x));
        assert(t1.to_multiset() =~= s1.to_multiset().remove(x));
        law_counts_ignore_order(t1, t2);
        let pre = s2.take(j);
        let post = s2.skip(j + 1);
        assert(t2 =~= pre + post);
        assert(s2 =~= (pre + seq![x]) + post);
        assert(s1 =~= t1 + seq![x]);
        lemma_counts_concat(pre, post);
        lemma_counts_concat(pre, seq![x]);
        lemma_counts_concat(pre + seq![x], post);
        lemma_counts_concat(t1, seq![x]);
        assert(seq![x].drop_last() =~= Seq::<HitRating>::empty());
    }
}

proof fn lemma_counts_concat(a: Seq<HitRating>, b: Seq<HitRating>)
    ensures
        crit_count(a + b) == crit_count(a) + crit_count(b),
        good_count(a + b) == good_count(a) + good_count(b),
        miss_count(a + b) == miss_count(a) + miss_count(b),
    decreases b.len(),
{
    if b.len() == 0 {
        assert(a + b =~= a);
    } else {
        lemma_counts_concat(a, b.drop_last());
        assert((a + b).drop_last() =~= a + b.drop_last());
        assert((a + b).last() == b.last());
    }
}

/// The number of entries in `s` that are no judgement.
pub open spec fn no_rating_count(s: Seq<HitRating>) -> nat
    decreases s.len(),
{
    if s.len() == 0 {
        0
    } else {
        no_rating_count(s.drop_last()) + if s.last() is NoRating {
            1nat
        } else {
            0nat
        }
    }
}

/// The highest score a chart can give.
pub const MAX_SCORE: u64 = 10_000_000u64;

/// The running score of a play: points earned (2 for a critical hit, 1 for a good one),
/// the current and the longest combo, and the points that could have been earned on
/// the scoring points judged so far.
#[derive(Debug, Default, Clone, Copy, PartialEq, Eq, Structural)]
pub struct ScoreState {
    pub real_score: u64,
    pub combo: u64,
    pub max_combo: u64,
    pub score_current_max: u64,
}

/// Points a judgement earns.
pub open spec fn points(r: HitRating) -> u64 {
    match r {
        HitRating::Crit { .. } => 2,
        HitRating::Good { .. } => 1,
        _ => 0,
    }
}

/// The score state after a judgement.
pub open spec fn after_hit(s: ScoreState, r: HitRating) -> ScoreState {
    let real_score = (s.real_score + points(r)) as u64;
    match r {
        HitRating::Crit { .. } | HitRating::Good { .. } => ScoreState {
            real_score,
            combo: (s.combo + 1) as u64,
            max_combo: if s.max_combo >= s.combo + 1 {
                s.max_combo
            } else {
                (s.combo + 1) as u64
            },
            score_current_max: s.score_current_max,
        },
        HitRating::Miss { .. } => ScoreState { real_score, combo: 0, ..s },
        HitRating::NoRating => ScoreState { real_score, ..s },
    }
}

/// Whether a judgement changes the combo shown to the player.
pub open spec fn combo_changes(s: ScoreState, r: HitRating) -> bool {
    match r {
        HitRating::Crit { .. } | HitRating::Good { .. } => true,
        HitRating::Miss { .. } => s.combo != 0,
        HitRating::NoRating => false,
    }
}

/// The score shown in the given mode; `total` is the number of scoring points of the
/// chart.
pub open spec fn display_score(
    mode: ScoreDisplayMode,
    real_score: int,
    current_max: int,
    total: int,
) -> int {
    let max = total * 2;
    match mode {
        ScoreDisplayMode::Additive => MAX_SCORE * real_score / max,
        ScoreDisplayMode::Subtractive => MAX_SCORE * (max - (current_max - real_score)) / max,
        ScoreDisplayMode::Average => MAX_SCORE * real_score / (if current_max >= 1 {
            current_max
        } else {
            1
        }),
    }
}

impl ScoreState {
    /// The state at the start of a play.
    pub fn new() -> (s: Self)
        ensures
            s == (ScoreState { real_score: 0, combo: 0, max_combo: 0, score_current_max: 0 }),
    {
        ScoreState { real_score: 0, combo: 0, max_combo: 0, score_current_max: 0 }
    }

    /// Accounts for a judgement; returns whether the combo shown to the player changed.
    pub fn on_hit(&mut self, hit_rating: HitRating) -> (combo_updated: bool)
        requires
            old(self).real_score + 2 <= u64::MAX,
            old(self).combo + 1 <= u64::MAX,
        ensures
            *final(self) == after_hit(*old(self), hit_rating),
            combo_updated == combo_changes(*old(self), hit_rating),
    {
        self.real_score = self.real_score + match hit_rating {
            HitRating::Crit { .. } => 2,
            HitRating::Good { .. } => 1,
            _ => 0,
        };
        match hit_rating {
            HitRating::Crit { .. } | HitRating::Good { .. } => {
                self.combo = self.combo + 1;
                if self.combo > self.max_combo {
                    self.max_combo = self.combo;
                }
                true
            },
            HitRating::Miss { .. } => {
                if self.combo == 0 {
                    false
                } else {
                    self.combo = 0;
                    true
                }
            },
            HitRating::NoRating => false,
        }
    }

    /// Accounts for a scoring point that was judged: two more points were available.
    pub fn count_judged_tick(&mut self)
        requires
            old(self).score_current_max + 2 <= u64::MAX,
        ensures
            *final(self) == (ScoreState {
                score_current_max: (old(self).score_current_max + 2) as u64,
                ..*old(self)
            }),
    {
        self.score_current_max = self.score_current_max + 2;
    }

    /// The score as it stands against the whole chart, out of [`MAX_SCORE`].
    pub fn actual_display_score(&self, total: u32) -> (score: u64)
        requires
            total > 0,
            MAX_SCORE * self.real_score <= u64::MAX,
        ensures
            score == display_score(
                ScoreDisplayMode::Additive,
                self.real_score as int,
                self.score_current_max as int,
                total as int,
            ),
    {
        let max = total as u64 * 2;
        MAX_SCORE * self.real_score / max
    }

    /// The score shown during play in the given mode.
    pub fn calculate_display_score(&self, mode: ScoreDisplayMode, total: u32) -> (score: u64)
        requires
            total > 0,
            MAX_SCORE * self.real_score <= u64::MAX,
            mode is Subtractive ==> self.real_score <= self.score_current_max
                && self.score_current_max - self.real_score <= 2 * total,
        ensures
            score == display_score(
                mode,
                self.real_score as int,
                self.score_current_max as int,
                total as int,
            ),
    {
        let max = total as u64 * 2;
        match mode {
            ScoreDisplayMode::Additive => self.actual_display_score(total),
            ScoreDisplayMode::Subtractive => {
                let lost = self.score_current_max - self.real_score;
                assert(MAX_SCORE * (max - lost) <= MAX_SCORE * max) by (nonlinear_arith)
                    requires
                        lost <= max,
                ;
                MAX_SCORE * (max - lost) / max
            },
            ScoreDisplayMode::Average => {
                let div = if self.score_current_max >= 1 {
                    self.score_current_max
                } else {
                    1
                };
                MAX_SCORE * self.real_score / div
            },
        }
    }
}

/// A judgement raises the score by the points it earns and never shortens the longest
/// combo; a hit raises the combo by one, a miss resets it.
pub proof fn law_hit_accounting(s: ScoreState, r: HitRating)
    requires
        s.real_score + 2 <= u64::MAX,
        s.combo + 1 <= u64::MAX,
    ensures
        after_hit(s, r).real_score == s.real_score + points(r),
        after_hit(s, r).max_combo >= s.max_combo,
        s.max_combo >= s.combo ==> after_hit(s, r).max_combo >= after_hit(s, r).combo,
        r is Miss ==> after_hit(s, r).combo == 0,
        (r is Crit || r is Good) ==> after_hit(s, r).combo == s.combo + 1,
        r is NoRating ==> after_hit(s, r) == s,
{
}

/// While nothing more was earned than could have been, every display mode shows at
/// most [`MAX_SCORE`]; a play with nothing lost so far shows [`MAX_SCORE`] in the
/// subtractive and average modes; at the end of the chart the three modes agree.
pub proof fn law_display_score_bounds(real_score: int, current_max: int, total: int)
    requires
        total > 0,
        0 <= real_score <= current_max <= 2 * total,
    ensures
        display_score(ScoreDisplayMode::Additive, real_score, current_max, total) <= MAX_SCORE,
        display_score(ScoreDisplayMode::Subtractive, real_score, current_max, total) <= MAX_SCORE,
        display_score(ScoreDisplayMode::Average, real_score, current_max, total) <= MAX_SCORE,
        real_score == current_max ==> display_score(
            ScoreDisplayMode::Subtractive,
            real_score,
            current_max,
            total,
        ) == MAX_SCORE,
        real_score == current_max && current_max > 0 ==> display_score(
            ScoreDisplayMode::Average,
            real_score,
            current_max,
            total,
        ) == MAX_SCORE,
        current_max == 2 * total ==> display_score(
            ScoreDisplayMode::Subtractive,
            real_score,
            current_max,
            total,
        ) == display_score(ScoreDisplayMode::Additive, real_score, current_max, total)
            && display_score(ScoreDisplayMode::Average, real_score, current_max, total)
            == display_score(ScoreDisplayMode::Additive, real_score, current_max, total),
{
    let max = total * 2;
    let m = MAX_SCORE as int;
    assert(m * real_score / max <= m) by (nonlinear_arith)
        requires
            0 <= real_score <= max,
            max > 0,
            m > 0,
    {
        assert(m * real_score <= m * max);
        vstd::arithmetic::div_mod::lemma_div_is_ordered(m * real_score, m * max, max);
        vstd::arithmetic::div_mod::lemma_div_multiples_vanish(m, max);
    }
    assert(m * (max - (current_max - real_score)) / max <= m) by (nonlinear_arith)
        requires
            0 <= max - (current_max - real_score) <= max,
            max > 0,
            m > 0,
    {
        assert(m * (max - (current_max - real_score)) <= m * max);
        vstd::arithmetic::div_mod::lemma_div_is_ordered(
            m * (max - (current_max - real_score)),
            m * max,
            max,
        );
        vstd::arithmetic::div_mod::lemma_div_multiples_vanish(m, max);
    }
    if current_max >= 1 {
        assert(m * real_score / current_max <= m) by (nonlinear_arith)
            requires
                0 <= real_score <= current_max,
                current_max > 0,
                m > 0,
        {
            assert(m * real_score <= m * current_max);
            vstd::arithmetic::div_mod::lemma_div_is_ordered(
                m * real_score,
                m * current_max,
                current_max,
            );
            vstd::arithmetic::div_mod::lemma_div_multiples_vanish(m, current_max);
        }
        if real_score == current_max {
            vstd::arithmetic::div_mod::lemma_div_multiples_vanish(m, current_max);
        }
    } else {
        assert(real_score == 0);
    }
    if real_score == current_max {
        vstd::arithmetic::div_mod::lemma_div_multiples_vanish(m, max);
    }
}

/// The state of a held note while it is drawn.
#[derive(Debug, Copy, Clone, PartialEq, Eq, Structural)]
pub enum HoldState {
    Idle,
    Hit,
    Miss,
}

} // verus!
