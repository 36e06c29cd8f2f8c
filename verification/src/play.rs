use vstd::prelude::*;

use crate::autoplay::AutoPlay;
use crate::scoring::{after_hit, HitRating, PlacedScoreTick, ScoreState, ScoreTick};
use crate::timing::{judgement_for, HitWindow, Judgement};

verus! {

/// What the player's input says about a scoring point as it passes: whether its button
/// is held since the hold began, whether the laser cursor is on the laser, and whether
/// the slam was hit within its window.
#[derive(Debug, Clone, Copy, PartialEq, Eq, Structural)]
pub struct TickSense {
    pub held: bool,
    pub on_laser: bool,
    pub slam_in_window: bool,
}

/// The judgement of a scoring point as the chart passes it. Holds and lasers are judged
/// at once; a chip or slam is missed once it lies before its miss tick, taken by
/// autoplay (or, for a slam, by a hit in its window), and otherwise left for a press.
pub open spec fn passing_rating(
    tick: PlacedScoreTick,
    chip_miss_tick: u32,
    slam_miss_tick: u32,
    autoplay: AutoPlay,
    sense: TickSense,
) -> HitRating {
    let auto_buttons = autoplay is All || autoplay is Buttons;
    let auto_lasers = autoplay is All || autoplay is Lasers;
    match tick.tick {
        ScoreTick::Hold { .. } => if sense.held || auto_buttons {
            HitRating::Crit { tick }
        } else {
            HitRating::Miss { tick }
        },
        ScoreTick::Laser { .. } => if sense.on_laser || auto_lasers {
            HitRating::Crit { tick }
        } else {
            HitRating::Miss { tick }
        },
        ScoreTick::Slam { .. } => if tick.y < slam_miss_tick {
            HitRating::Miss { tick }
        } else if auto_lasers || sense.slam_in_window {
            HitRating::Crit { tick }
        } else {
            HitRating::NoRating
        },
        ScoreTick::Chip { .. } => if tick.y < chip_miss_tick {
            HitRating::Miss { tick }
        } else if auto_buttons {
            HitRating::Crit { tick }
        } else {
            HitRating::NoRating
        },
    }
}

/// Judges a scoring point as the chart passes it.
pub fn process_tick(
    tick: PlacedScoreTick,
    chip_miss_tick: u32,
    slam_miss_tick: u32,
    autoplay: AutoPlay,
    sense: TickSense,
) -> (r: HitRating)
    ensures
        r == passing_rating(tick, chip_miss_tick, slam_miss_tick, autoplay, sense),
{
    match tick.tick {
        ScoreTick::Hold { .. } => {
            if sense.held || autoplay.auto_buttons() {
                HitRating::Crit { tick }
            } else {
                HitRating::Miss { tick }
            }
        },
        ScoreTick::Laser { .. } => {
            if sense.on_laser || autoplay.auto_lasers() {
                HitRating::Crit { tick }
            } else {
                HitRating::Miss { tick }
            }
        },
        ScoreTick::Slam { .. } => {
            if tick.y < slam_miss_tick {
                HitRating::Miss { tick }
            } else if autoplay.auto_lasers() || sense.slam_in_window {
                HitRating::Crit { tick }
            } else {
                HitRating::NoRating
            }
        },
        ScoreTick::Chip { .. } => {
            if tick.y < chip_miss_tick {
                HitRating::Miss { tick }
            } else if autoplay.auto_buttons() {
                HitRating::Crit { tick }
            } else {
                HitRating::NoRating
            }
        },
    }
}

/// How each kind of scoring point is judged as it passes, over every input: a hold is
/// hit when its button is held or buttons are autoplayed; a laser when the cursor is on
/// it or lasers are autoplayed; a slam or chip before its miss tick is missed; a later
/// slam is hit exactly when lasers are autoplayed or it was hit in its window, and is
/// otherwise left unrated; a later chip is hit exactly when buttons are autoplayed, and
/// is otherwise left for a press.
pub proof fn law_passing_judgements(
    tick: PlacedScoreTick,
    chip_miss_tick: u32,
    slam_miss_tick: u32,
    autoplay: AutoPlay,
    sense: TickSense,
)
    ensures
        ({
            let r = passing_rating(tick, chip_miss_tick, slam_miss_tick, autoplay, sense);
            &&& tick.tick is Hold ==> (r == HitRating::Crit { tick } <==> (sense.held
                || autoplay == AutoPlay::Buttons || autoplay == AutoPlay::All))
            &&& tick.tick is Hold ==> (r == HitRating::Crit { tick } || r == HitRating::Miss { tick })
            &&& tick.tick is Laser ==> (r == HitRating::Crit { tick } <==> (sense.on_laser
                || autoplay == AutoPlay::Lasers || autoplay == AutoPlay::All))
            &&& tick.tick is Laser ==> (r == HitRating::Crit { tick } || r == HitRating::Miss { tick })
            &&& (tick.tick is Slam && tick.y < slam_miss_tick) ==> r == HitRating::Miss { tick }
            &&& (tick.tick is Slam && tick.y >= slam_miss_tick) ==> (r == HitRating::Crit { tick }
                <==> (autoplay == AutoPlay::Lasers || autoplay == AutoPlay::All
                || sense.slam_in_window))
            &&& (tick.tick is Slam && tick.y >= slam_miss_tick) ==> (r == HitRating::Crit { tick }
                || r == HitRating::NoRating)
            &&& (tick.tick is Chip && tick.y < chip_miss_tick) ==> r == HitRating::Miss { tick }
            &&& (tick.tick is Chip && tick.y >= chip_miss_tick) ==> (r == HitRating::Crit { tick }
                <==> (autoplay == AutoPlay::Buttons || autoplay == AutoPlay::All))
            &&& (tick.tick is Chip && tick.y >= chip_miss_tick) ==> (r == HitRating::Crit { tick }
                || r == HitRating::NoRating)
        }),
{
}

/// The judgement of a press on a scoring point, from the window it fell in.
pub open spec fn press_rating(tick: PlacedScoreTick, j: Judgement) -> HitRating {
    match j {
        Judgement::Crit => HitRating::Crit { tick },
        Judgement::Good => HitRating::Good { tick },
        Judgement::Miss => HitRating::Miss { tick },
        Judgement::Ignored => HitRating::NoRating,
    }
}

/// The judgement of a press on a scoring point, from the window it fell in.
pub fn rating_for_press(tick: PlacedScoreTick, j: Judgement) -> (r: HitRating)
    ensures
        r == press_rating(tick, j),
{
    match j {
        Judgement::Crit => HitRating::Crit { tick },
        Judgement::Good => HitRating::Good { tick },
        Judgement::Miss => HitRating::Miss { tick },
        Judgement::Ignored => HitRating::NoRating,
    }
}

/// A press is rated by the window it fell in, and the rating names the pressed point: a
/// critical window gives a critical hit, a good window a good hit, the miss window a
/// miss, and a press outside every window no rating.
pub proof fn law_press_judgements(tick: PlacedScoreTick, j: Judgement)
    ensures
        press_rating(tick, j) is Crit <==> j is Crit,
        press_rating(tick, j) is Good <==> j is Good,
        press_rating(tick, j) is Miss <==> j is Miss,
        press_rating(tick, j) is NoRating <==> j is Ignored,
        press_rating(tick, j) is Crit ==> press_rating(tick, j)->Crit_tick == tick,
        press_rating(tick, j) is Good ==> press_rating(tick, j)->Good_tick == tick,
        press_rating(tick, j) is Miss ==> press_rating(tick, j)->Miss_tick == tick,
{
}

/// Whether a scoring point belongs to the button lane `lane` (a chip or a hold there).
pub open spec fn in_button_lane(t: PlacedScoreTick, lane: usize) -> bool {
    match t.tick {
        ScoreTick::Chip { lane: l } => l == lane,
        ScoreTick::Hold { lane: l, .. } => l == lane,
        _ => false,
    }
}

/// The length of the leading run of scoring points that lie before `last_tick`.
pub open spec fn due_prefix_len(s: Seq<PlacedScoreTick>, last_tick: u32) -> int
    decreases s.len(),
{
    if s.len() == 0 || s[0].y >= last_tick {
        0
    } else {
        1 + due_prefix_len(s.drop_first(), last_tick)
    }
}

/// The scoring points still to be judged, in chart order, and the score so far.
pub struct ScoreQueue {
    ticks: Vec<PlacedScoreTick>,
    score: ScoreState,
    hit_ratings: Vec<HitRating>,
}

impl ScoreQueue {
    /// The scoring points still to be judged.
    pub closed spec fn pending(&self) -> Seq<PlacedScoreTick> {
        self.ticks@
    }

    /// The score so far.
    pub closed spec fn score_spec(&self) -> ScoreState {
        self.score
    }

    /// The judgements made so far, in the order they were made.
    pub closed spec fn ratings(&self) -> Seq<HitRating> {
        self.hit_ratings@
    }

    /// The queue's invariant: nothing earned beyond what was available, combos no longer
    /// than the points judged, and room in the counters for every pending point.
    pub open spec fn wf(&self) -> bool {
        let s = self.score_spec();
        &&& s.real_score <= s.score_current_max
        &&& 2 * s.combo <= s.score_current_max
        &&& 2 * s.max_combo <= s.score_current_max
        &&& s.score_current_max + 2 * self.pending().len() <= u64::MAX
    }

    /// A play of `ticks` that has not started.
    pub fn new(ticks: Vec<PlacedScoreTick>) -> (q: Self)
        requires
            2 * ticks@.len() <= u64::MAX,
        ensures
            q.pending() == ticks@,
            q.score_spec() == (ScoreState {
                real_score: 0,
                combo: 0,
                max_combo: 0,
                score_current_max: 0,
            }),
            q.ratings() == Seq::<HitRating>::empty(),
            q.wf(),
    {
        ScoreQueue { ticks, score: ScoreState::new(), hit_ratings: Vec::new() }
    }

    /// The judgements made so far, in the order they were made.
    pub fn hit_ratings(&self) -> (r: &Vec<HitRating>)
        ensures
            r@ == self.ratings(),
    {
        &self.hit_ratings
    }

    /// The score so far.
    pub fn score(&self) -> (s: ScoreState)
        ensures
            s == self.score_spec(),
    {
        self.score
    }

    /// The scoring points still to be judged.
    pub fn ticks(&self) -> (t: &Vec<PlacedScoreTick>)
        ensures
            t@ == self.pending(),
    {
        &self.ticks
    }

    /// Records the judgement of the pending point at `index`. No judgement leaves
    /// everything as it was; any other is added to the judgements made, removes the
    /// point, accounts for the judgement and counts the point's two points as available.
    /// Returns whether the point was removed.
    pub fn judge_at(&mut self, index: usize, rating: HitRating) -> (judged: bool)
        requires
            old(self).wf(),
            index < old(self).pending().len(),
        ensures
            final(self).wf(),
            judged == !(rating is NoRating),
            !judged ==> *final(self) == *old(self),
            judged ==> final(self).pending() == old(self).pending().remove(index as int),
            judged ==> final(self).ratings() == old(self).ratings().push(rating),
            judged ==> final(self).score_spec() == (ScoreState {
                score_current_max: (old(self).score_spec().score_current_max + 2) as u64,
                ..after_hit(old(self).score_spec(), rating)
            }),
            final(self).score_spec().score_current_max + 2 * final(self).pending().len()
                == old(self).score_spec().score_current_max + 2 * old(self).pending().len(),
    {
        if let HitRating::NoRating = rating {
            return false;
        }
        self.hit_ratings.push(rating);
        self.score.on_hit(rating);
        self.ticks.remove(index);
        self.score.count_judged_tick();
        true
    }

    /// The pending point a press in button lane `lane` goes to: the first point of that
    /// lane among the leading points before `last_tick`, unless that point is a hold,
    /// which a press does not judge.
    pub fn hittable(&self, last_tick: u32, lane: usize) -> (r: Option<usize>)
        ensures
            r == press_target(self.pending(), last_tick, lane),
    {
        let ghost s = self.ticks@;
        let mut i: usize = 0;
        assert(s.skip(0) =~= s);
        while i < self.ticks.len()
            invariant
                s == self.ticks@,
                i <= s.len(),
                due_prefix_len(s, last_tick) == i + due_prefix_len(s.skip(i as int), last_tick),
                first_in_lane(s, i as int, lane) is None,
            decreases s.len() - i,
        {
            let t = self.ticks[i];
            assert(s.skip(i as int)[0] == t);
            proof {
                lemma_due_prefix_bounds(s.skip(i as int + 1), last_tick);
            }
            if t.y >= last_tick {
                assert(due_prefix_len(s.skip(i as int), last_tick) == 0);
                return None;
            }
            assert(s.skip(i as int).drop_first() =~= s.skip(i as int + 1));
            let matches = match t.tick {
                ScoreTick::Chip { lane: l } => l == lane,
                ScoreTick::Hold { lane: l, .. } => l == lane,
                _ => false,
            };
            if matches {
                proof {
                    lemma_first_in_lane_stays(s, i as int + 1, due_prefix_len(s, last_tick), lane);
                }
                if let ScoreTick::Hold { .. } = t.tick {
                    return None;
                }
                return Some(i);
            }
            i = i + 1;
        }
        assert(s.skip(i as int) =~= Seq::<PlacedScoreTick>::empty());
        None
    }

    /// A press in button lane `lane`, with the leading points before `last_tick` in
    /// reach: the point it goes to (see [`press_target`]) is judged by the window its
    /// distance falls in (`distance` gives the distance in nanoseconds of a press to a
    /// point at a tick), and the judgement is recorded as by [`ScoreQueue::judge_at`].
    /// Without such a point, or outside every window, nothing changes.
    pub fn get_hit_rating<D: Fn(u32) -> u128>(
        &mut self,
        last_tick: u32,
        lane: usize,
        window: &HitWindow,
        distance: D,
    ) -> (r: HitRating)
        requires
            old(self).wf(),
            forall|y: u32| distance.requires((y,)),
        ensures
            final(self).wf(),
            match press_target(old(self).pending(), last_tick, lane) {
                None => r is NoRating && *final(self) == *old(self),
                Some(i) => {
                    &&& exists|d: u128|
                        distance.ensures((old(self).pending()[i as int].y,), d) && r == press_rating(
                            old(self).pending()[i as int],
                            judgement_for(*window, d),
                        )
                    &&& r is NoRating ==> *final(self) == *old(self)
                    &&& !(r is NoRating) ==> {
                        &&& final(self).pending() == old(self).pending().remove(i as int)
                        &&& final(self).ratings() == old(self).ratings().push(r)
                        &&& final(self).score_spec() == (ScoreState {
                            score_current_max: (old(self).score_spec().score_current_max + 2) as u64,
                            ..after_hit(old(self).score_spec(), r)
                        })
                    }
                },
            },
    {
        match self.hittable(last_tick, lane) {
            None => HitRating::NoRating,
            Some(i) => {
                proof {
                    lemma_press_target_in_range(self.pending(), last_tick, lane);
                }
                let tick = self.ticks[i];
                let d = distance(tick.y);
                let r = rating_for_press(tick, window.judge(d));
                self.judge_at(i, r);
                r
            },
        }
    }
}

proof fn lemma_press_target_in_range(s: Seq<PlacedScoreTick>, last_tick: u32, lane: usize)
    ensures
        press_target(s, last_tick, lane) matches Some(i) ==> i < s.len(),
{
    lemma_due_prefix_bounds(s, last_tick);
    lemma_first_in_lane_range(s, due_prefix_len(s, last_tick), lane);
}

proof fn lemma_first_in_lane_range(s: Seq<PlacedScoreTick>, n: int, lane: usize)
    ensures
        first_in_lane(s, n, lane) matches Some(i) ==> 0 <= i < n,
    decreases n,
{
    if n > 0 {
        lemma_first_in_lane_range(s, n - 1, lane);
    }
}


/// The first of the first `n` points of `s` that lies in button lane `lane`.
pub open spec fn first_in_lane(s: Seq<PlacedScoreTick>, n: int, lane: usize) -> Option<int>
    decreases n,
{
    if n <= 0 {
        None
    } else {
        match first_in_lane(s, n - 1, lane) {
            Some(i) => Some(i),
            None => if in_button_lane(s[n - 1], lane) {
                Some(n - 1)
            } else {
                None
            },
        }
    }
}

/// The pending point a press in lane `lane` judges: the first point of the lane among
/// the leading points before `last_tick`, when it is a chip.
pub open spec fn press_target(s: Seq<PlacedScoreTick>, last_tick: u32, lane: usize) -> Option<
    usize,
> {
    match first_in_lane(s, due_prefix_len(s, last_tick), lane) {
        Some(i) => if s[i].tick is Chip {
            Some(i as usize)
        } else {
            None
        },
        None => None,
    }
}

proof fn lemma_first_in_lane_stays(s: Seq<PlacedScoreTick>, m: int, n: int, lane: usize)
    requires
        m <= n,
        first_in_lane(s, m, lane) is Some,
    ensures
        first_in_lane(s, n, lane) == first_in_lane(s, m, lane),
    decreases n - m,
{
    if m < n {
        lemma_first_in_lane_stays(s, m, n - 1, lane);
    }
}

proof fn lemma_due_prefix_bounds(s: Seq<PlacedScoreTick>, last_tick: u32)
    ensures
        0 <= due_prefix_len(s, last_tick) <= s.len(),
    decreases s.len(),
{
    if s.len() > 0 && s[0].y < last_tick {
        lemma_due_prefix_bounds(s.drop_first(), last_tick);
    }
}

/// The number of leading points that lie at or before `tick`: the points the chart has
/// passed.
pub open spec fn passing_len(s: Seq<PlacedScoreTick>, tick: u32) -> int
    decreases s.len(),
{
    if s.len() == 0 || s[0].y > tick {
        0
    } else {
        1 + passing_len(s.drop_first(), tick)
    }
}

proof fn lemma_passing_len(s: Seq<PlacedScoreTick>, tick: u32, k: int)
    requires
        0 <= k <= s.len(),
        forall|j: int| 0 <= j < k ==> (#[trigger] s[j]).y <= tick,
    ensures
        passing_len(s, tick) >= k,
        passing_len(s, tick) <= s.len(),
        (k == s.len() || s[k].y > tick) ==> passing_len(s, tick) == k,
    decreases k,
{
    if k == 0 {
        lemma_passing_len_bound(s, tick);
    } else {
        assert forall|j: int| 0 <= j < k - 1 implies (#[trigger] s.drop_first()[j]).y <= tick by {
            assert(s.drop_first()[j] == s[j + 1]);
        }
        if k < s.len() {
            assert(s.drop_first()[k - 1] == s[k]);
        }
        lemma_passing_len(s.drop_first(), tick, k - 1);
        assert(s[0].y <= tick);
    }
}

proof fn lemma_passing_len_bound(s: Seq<PlacedScoreTick>, tick: u32)
    ensures
        0 <= passing_len(s, tick) <= s.len(),
    decreases s.len(),
{
    if s.len() > 0 && s[0].y <= tick {
        lemma_passing_len_bound(s.drop_first(), tick);
    }
}

/// The first `n` passed points judged in turn with their senses: the points left for a
/// press, and the judgements made, in order.
pub open spec fn passed(
    ticks: Seq<PlacedScoreTick>,
    senses: Seq<TickSense>,
    n: int,
    missed_chip_tick: u32,
    autoplay: AutoPlay,
) -> (Seq<PlacedScoreTick>, Seq<HitRating>)
    decreases n,
{
    if n <= 0 {
        (seq![], seq![])
    } else {
        let (kept, judged) = passed(ticks, senses, n - 1, missed_chip_tick, autoplay);
        let r = passing_rating(ticks[n - 1], missed_chip_tick, missed_chip_tick, autoplay, senses[n - 1]);
        if r is NoRating {
            (kept.push(ticks[n - 1]), judged)
        } else {
            (kept, judged.push(r))
        }
    }
}

/// The score after the judgements `js`, each with its two points counted as available.
pub open spec fn scored(s: ScoreState, js: Seq<HitRating>) -> ScoreState
    decreases js.len(),
{
    if js.len() == 0 {
        s
    } else {
        let prev = scored(s, js.drop_last());
        ScoreState {
            score_current_max: (prev.score_current_max + 2) as u64,
            ..after_hit(prev, js.last())
        }
    }
}

/// Judges every pending point the chart has passed at `processing_tick`, in order, the
/// `k`-th with `senses[k]` (what the input says of it, measured beforehand); chips and
/// slams missed once they lie before `missed_chip_tick`. The judged points leave the
/// queue; the others stay for a press. Returns the judgements made, in order.
pub fn judge_passing(
    queue: &mut ScoreQueue,
    processing_tick: u32,
    missed_chip_tick: u32,
    autoplay: AutoPlay,
    senses: &Vec<TickSense>,
) -> (r: Vec<HitRating>)
    requires
        old(queue).wf(),
        senses@.len() >= passing_len(old(queue).pending(), processing_tick),
    ensures
        final(queue).wf(),
        ({
            let n = passing_len(old(queue).pending(), processing_tick);
            let (kept, judged) = passed(old(queue).pending(), senses@, n, missed_chip_tick, autoplay);
            &&& r@ == judged
            &&& final(queue).pending() == kept + old(queue).pending().skip(n)
            &&& final(queue).ratings() == old(queue).ratings() + judged
            &&& final(queue).score_spec() == scored(old(queue).score_spec(), judged)
        }),
{
    let ghost orig = queue.pending();
    let ghost r0 = queue.ratings();
    let ghost s0 = queue.score_spec();
    let mut judged: Vec<HitRating> = Vec::new();
    let mut i: usize = 0;
    let mut k: usize = 0;
    let total = queue.ticks().len();
    proof {
        lemma_passing_len_bound(orig, processing_tick);
        assert(orig.skip(0) =~= orig);
    }
    while i < queue.ticks().len()
        invariant_except_break
            queue.wf(),
            total == orig.len(),
            k <= orig.len(),
            forall|j: int| 0 <= j < k ==> (#[trigger] orig[j]).y <= processing_tick,
            senses@.len() >= passing_len(orig, processing_tick),
            ({
                let (kept, js) = passed(orig, senses@, k as int, missed_chip_tick, autoplay);
                &&& i == kept.len()
                &&& queue.pending() == kept + orig.skip(k as int)
                &&& judged@ == js
                &&& queue.ratings() == r0 + js
                &&& queue.score_spec() == scored(s0, js)
            }),
        ensures
            queue.wf(),
            k <= orig.len(),
            forall|j: int| 0 <= j < k ==> (#[trigger] orig[j]).y <= processing_tick,
            k == orig.len() || orig[k as int].y > processing_tick,
            ({
                let (kept, js) = passed(orig, senses@, k as int, missed_chip_tick, autoplay);
                &&& queue.pending() == kept + orig.skip(k as int)
                &&& judged@ == js
                &&& queue.ratings() == r0 + js
                &&& queue.score_spec() == scored(s0, js)
            }),
        decreases orig.len() - k,
    {
        let ghost (kept, js) = passed(orig, senses@, k as int, missed_chip_tick, autoplay);
        let tick = queue.ticks()[i];
        assert(k < orig.len()) by {
            if k >= orig.len() {
                assert(orig.skip(k as int).len() == 0);
            }
        }
        assert(tick == orig[k as int]) by {
            assert(queue.pending()[i as int] == orig.skip(k as int)[0]);
        }
        if tick.y > processing_tick {
            break;
        }
        proof {
            lemma_passing_len(orig, processing_tick, k + 1);
        }
        let rating = process_tick(tick, missed_chip_tick, missed_chip_tick, autoplay, senses[k]);
        let was_judged = queue.judge_at(i, rating);
        proof {
            let (kept2, js2) = passed(orig, senses@, k + 1, missed_chip_tick, autoplay);
            assert(orig.skip(k as int) =~= seq![orig[k as int]] + orig.skip(k + 1));
            if was_judged {
                assert(kept2 == kept && js2 == js.push(rating));
                assert((kept + orig.skip(k as int)).remove(i as int) =~= kept + orig.skip(k + 1));
                assert(r0 + js.push(rating) =~= (r0 + js).push(rating));
                assert(js.push(rating).drop_last() =~= js);
            } else {
                assert(kept2 == kept.push(tick) && js2 == js);
                assert(kept + orig.skip(k as int) =~= kept.push(tick) + orig.skip(k + 1));
            }
        }
        if was_judged {
            judged.push(rating);
        } else {
            i = i + 1;
        }
        k = k + 1;
    }
    proof {
        lemma_passing_len(orig, processing_tick, k as int);
    }
    judged
}

} // verus!
