use vstd::prelude::*;

use crate::tools::{first_at, find_change, ChartEvent};

verus! {

/// A camera pattern that a slam can set off: the tick it waits at, the direction of slam
/// it answers to, how many ticks it lasts, and the rest of the pattern (`P`).
#[derive(Debug, Clone, Copy, PartialEq, Eq)]
pub struct CamPatternInvoke<P> {
    pub tick: u32,
    pub direction: i32,
    pub length: u32,
    pub pattern: P,
}

impl<P: Copy> ChartEvent for CamPatternInvoke<P> {
    open spec fn tick_spec(&self) -> u32 {
        self.tick
    }

    fn tick(&self) -> (t: u32) {
        self.tick
    }
}

/// A camera movement set off by a slam.
#[derive(Debug, Clone, Copy, PartialEq, Eq)]
pub enum CameraSpin<S, W> {
    Half(CamPatternInvoke<S>),
    Full(CamPatternInvoke<S>),
    Swing(CamPatternInvoke<W>),
}

impl<S, W> CameraSpin<S, W> {
    /// The first and last tick of the movement.
    pub open spec fn span(&self) -> (int, int) {
        match self {
            CameraSpin::Half(s) => (s.tick as int, s.tick + s.length),
            CameraSpin::Full(s) => (s.tick as int, s.tick + s.length),
            CameraSpin::Swing(s) => (s.tick as int, s.tick + s.length),
        }
    }

    /// The movement ends within the tick range.
    pub open spec fn fits(&self) -> bool {
        self.span().1 <= u32::MAX
    }

    /// Whether the movement is going on at `tick`.
    pub open spec fn active_at_spec(&self, tick: u32) -> bool {
        self.span().0 <= tick <= self.span().1
    }

    /// Whether the movement is going on at `tick`: from its first to its last tick.
    pub fn active_at(&self, tick: u32) -> (b: bool)
        requires
            self.fits(),
        ensures
            b == self.active_at_spec(tick),
    {
        match self {
            CameraSpin::Half(s) => s.tick <= tick && s.tick + s.length >= tick,
            CameraSpin::Full(s) => s.tick <= tick && s.tick + s.length >= tick,
            CameraSpin::Swing(s) => s.tick <= tick && s.tick + s.length >= tick,
        }
    }
}

/// The movements of `s` still going on at `tick`, in order.
pub open spec fn active_spins<S, W>(s: Seq<CameraSpin<S, W>>, tick: u32) -> Seq<CameraSpin<S, W>>
    decreases s.len(),
{
    if s.len() == 0 {
        s
    } else if s.last().active_at_spec(tick) {
        active_spins(s.drop_last(), tick).push(s.last())
    } else {
        active_spins(s.drop_last(), tick)
    }
}

/// Drops the movements that are over (or not begun) at `tick`.
pub fn check_spins<S: Copy, W: Copy>(spins: &mut Vec<CameraSpin<S, W>>, tick: u32)
    requires
        forall|i: int| 0 <= i < old(spins)@.len() ==> (#[trigger] old(spins)@[i]).fits(),
    ensures
        final(spins)@ == active_spins(old(spins)@, tick),
{
    let ghost orig = spins@;
    let mut kept: Vec<CameraSpin<S, W>> = Vec::new();
    let mut i: usize = 0;
    while i < spins.len()
        invariant
            spins@ == orig,
            i <= orig.len(),
            forall|k: int| 0 <= k < orig.len() ==> (#[trigger] orig[k]).fits(),
            kept@ == active_spins(orig.take(i as int), tick),
        decreases orig.len() - i,
    {
        let s = spins[i];
        assert(orig.take(i + 1).drop_last() =~= orig.take(i as int));
        assert(orig.take(i + 1).last() == s);
        if s.active_at(tick) {
            kept.push(s);
        }
        i = i + 1;
    }
    assert(orig.take(orig.len() as int) =~= orig);
    *spins = kept;
}

/// Takes the pattern waiting at `tick` out of `events` when it answers to a slam in
/// `direction`; a pattern for the other direction stays.
pub fn take_slam_event<P: Copy>(events: &mut Vec<CamPatternInvoke<P>>, tick: u32, direction: i32) -> (r:
    Option<CamPatternInvoke<P>>)
    ensures
        match first_at(old(events)@, tick) {
            Some(i) => if old(events)@[i].direction == direction {
                r == Some(old(events)@[i]) && final(events)@ == old(events)@.remove(i)
            } else {
                r is None && final(events)@ == old(events)@
            },
            None => r is None && final(events)@ == old(events)@,
        },
{
    match find_change(events, tick) {
        Some(i) => {
            proof {
                crate::tools::lemma_first_at_in_range(events@, tick);
            }
            if events[i].direction == direction {
                let e = events.remove(i);
                Some(e)
            } else {
                None
            }
        },
        None => None,
    }
}

/// The camera patterns of a chart that slams set off.
pub struct SlamEvents<S, W> {
    pub half_spin: Vec<CamPatternInvoke<S>>,
    pub spin: Vec<CamPatternInvoke<S>>,
    pub swing: Vec<CamPatternInvoke<W>>,
}

impl<S: Copy, W: Copy> SlamEvents<S, W> {
    /// A slam in `direction` was hit at `tick`: each kind of pattern waiting there for
    /// that direction is taken out and set off, half spin first, then full spin, then
    /// swing.
    pub fn on_slam(&mut self, tick: u32, direction: i32) -> (spins: Vec<CameraSpin<S, W>>)
        ensures
            spins@ == slam_spins(old(self).half_spin@, old(self).spin@, old(self).swing@, tick, direction),
            final(self).half_spin@ == left_after(old(self).half_spin@, tick, direction),
            final(self).spin@ == left_after(old(self).spin@, tick, direction),
            final(self).swing@ == left_after(old(self).swing@, tick, direction),
    {
        let mut spins: Vec<CameraSpin<S, W>> = Vec::new();
        if let Some(e) = take_slam_event(&mut self.half_spin, tick, direction) {
            spins.push(CameraSpin::Half(e));
        }
        if let Some(e) = take_slam_event(&mut self.spin, tick, direction) {
            spins.push(CameraSpin::Full(e));
        }
        if let Some(e) = take_slam_event(&mut self.swing, tick, direction) {
            spins.push(CameraSpin::Swing(e));
        }
        spins
    }
}

/// The pattern of `events` that a slam in `direction` at `tick` sets off, if any.
pub open spec fn set_off<P>(events: Seq<CamPatternInvoke<P>>, tick: u32, direction: i32) -> Option<
    CamPatternInvoke<P>,
>
    where P: Copy,
{
    match first_at(events, tick) {
        Some(i) => if events[i].direction == direction {
            Some(events[i])
        } else {
            None
        },
        None => None,
    }
}

/// `events` once a slam in `direction` at `tick` has set off its pattern, if any.
pub open spec fn left_after<P>(events: Seq<CamPatternInvoke<P>>, tick: u32, direction: i32) -> Seq<
    CamPatternInvoke<P>,
>
    where P: Copy,
{
    match first_at(events, tick) {
        Some(i) => if events[i].direction == direction {
            events.remove(i)
        } else {
            events
        },
        None => events,
    }
}

/// The movements a slam sets off, half spin first, then full spin, then swing.
pub open spec fn slam_spins<S, W>(
    half: Seq<CamPatternInvoke<S>>,
    full: Seq<CamPatternInvoke<S>>,
    swing: Seq<CamPatternInvoke<W>>,
    tick: u32,
    direction: i32,
) -> Seq<CameraSpin<S, W>>
    where S: Copy, W: Copy,
{
    let a: Seq<CameraSpin<S, W>> = match set_off(half, tick, direction) {
        Some(e) => seq![CameraSpin::Half(e)],
        None => seq![],
    };
    let b: Seq<CameraSpin<S, W>> = match set_off(full, tick, direction) {
        Some(e) => a.push(CameraSpin::Full(e)),
        None => a,
    };
    match set_off(swing, tick, direction) {
        Some(e) => b.push(CameraSpin::Swing(e)),
        None => b,
    }
}

/// A pattern is set off at most once: after a slam has set it off, the same slam again
/// sets off nothing more from that list unless another pattern waits at the same tick.
pub proof fn law_pattern_set_off_once<P: Copy>(events: Seq<CamPatternInvoke<P>>, tick: u32, direction: i32)
    requires
        forall|i: int, j: int| 0 <= i < j < events.len() ==> #[trigger] events[i].tick != #[trigger] events[j].tick,
    ensures
        set_off(events, tick, direction) is Some ==> set_off(left_after(events, tick, direction), tick, direction) is None,
        left_after(events, tick, direction).len() + (if set_off(events, tick, direction) is Some { 1int } else { 0 }) == events.len(),
{
    crate::tools::lemma_first_at_in_range(events, tick);
    if set_off(events, tick, direction) is Some {
        let i = first_at(events, tick)->0;
        let rest = events.remove(i);
        assert forall|k: int| 0 <= k < rest.len() implies #[trigger] rest[k].tick_spec() != tick by {
            if k < i {
                assert(rest[k] == events[k]);
            } else {
                assert(rest[k] == events[k + 1]);
            }
        }
        crate::tools::lemma_first_at_absent(rest, tick);
    }
}

/// What a slam does to one list of patterns: it takes the waiting pattern out (the list
/// then has one pattern fewer) or leaves the list as it was.
proof fn lemma_left_after_shape<P: Copy>(events: Seq<CamPatternInvoke<P>>, tick: u32, direction: i32)
    ensures
        left_after(events, tick, direction) == events || (left_after(events, tick, direction).len()
            + 1 == events.len()),
        set_off(events, tick, direction) is Some <==> left_after(events, tick, direction).len() + 1
            == events.len(),
        set_off(events, tick, direction) matches Some(e) ==> exists|i: int|
            0 <= i < events.len() && events[i] == e && left_after(events, tick, direction)
                == events.remove(i),
{
    crate::tools::lemma_first_at_in_range(events, tick);
    if set_off(events, tick, direction) is Some {
        let i = first_at(events, tick)->0;
        assert(events[i] == set_off(events, tick, direction)->0);
    }
}

/// A slam plays exactly the patterns it takes out, each as its own kind of movement:
/// when it takes a pattern out of the half-spin, full-spin or swing list, the movements
/// it returns hold that pattern as a half spin, full spin or swing; when it leaves a list
/// as it was, no movement of that kind is returned; and it returns one movement per
/// pattern taken out.
pub proof fn law_slam_plays_what_it_takes<S: Copy, W: Copy>(
    half: Seq<CamPatternInvoke<S>>,
    full: Seq<CamPatternInvoke<S>>,
    swing: Seq<CamPatternInvoke<W>>,
    tick: u32,
    direction: i32,
)
    ensures
        left_after(half, tick, direction).len() + 1 == half.len() ==> exists|i: int|
            0 <= i < half.len() && left_after(half, tick, direction) == half.remove(i)
                && slam_spins::<S, W>(half, full, swing, tick, direction).contains(
                CameraSpin::Half(half[i]),
            ),
        left_after(full, tick, direction).len() + 1 == full.len() ==> exists|i: int|
            0 <= i < full.len() && left_after(full, tick, direction) == full.remove(i)
                && slam_spins::<S, W>(half, full, swing, tick, direction).contains(
                CameraSpin::Full(full[i]),
            ),
        left_after(swing, tick, direction).len() + 1 == swing.len() ==> exists|i: int|
            0 <= i < swing.len() && left_after(swing, tick, direction) == swing.remove(i)
                && slam_spins::<S, W>(half, full, swing, tick, direction).contains(
                CameraSpin::Swing(swing[i]),
            ),
        left_after(half, tick, direction) == half ==> forall|k: int|
            0 <= k < slam_spins::<S, W>(half, full, swing, tick, direction).len()
                ==> !(#[trigger] slam_spins::<S, W>(half, full, swing, tick, direction)[k] is Half),
        left_after(full, tick, direction) == full ==> forall|k: int|
            0 <= k < slam_spins::<S, W>(half, full, swing, tick, direction).len()
                ==> !(#[trigger] slam_spins::<S, W>(half, full, swing, tick, direction)[k] is Full),
        left_after(swing, tick, direction) == swing ==> forall|k: int|
            0 <= k < slam_spins::<S, W>(half, full, swing, tick, direction).len()
                ==> !(#[trigger] slam_spins::<S, W>(half, full, swing, tick, direction)[k] is Swing),
        slam_spins::<S, W>(half, full, swing, tick, direction).len() == (half.len() - left_after(
            half,
            tick,
            direction,
        ).len()) + (full.len() - left_after(full, tick, direction).len()) + (swing.len()
            - left_after(swing, tick, direction).len()),
{
    lemma_left_after_shape(half, tick, direction);
    lemma_left_after_shape(full, tick, direction);
    lemma_left_after_shape(swing, tick, direction);
    let out = slam_spins::<S, W>(half, full, swing, tick, direction);
    let a: Seq<CameraSpin<S, W>> = match set_off(half, tick, direction) {
        Some(e) => seq![CameraSpin::Half(e)],
        None => seq![],
    };
    let b: Seq<CameraSpin<S, W>> = match set_off(full, tick, direction) {
        Some(e) => a.push(CameraSpin::Full(e)),
        None => a,
    };
    assert(forall|k: int| 0 <= k < a.len() ==> #[trigger] a[k] is Half);
    assert(forall|k: int| 0 <= k < b.len() ==> (#[trigger] b[k] is Half || b[k] is Full));
    assert(forall|k: int| 0 <= k < b.len() && set_off(half, tick, direction) is None ==> !(#[trigger] b[k] is Half));
    assert(forall|k: int| 0 <= k < out.len() - 1 ==> out[k] == b[k] || set_off(swing, tick, direction) is None);
    if let Some(e) = set_off(half, tick, direction) {
        assert(out[0] == CameraSpin::<S, W>::Half(e));
    }
    if let Some(e) = set_off(full, tick, direction) {
        assert(b[b.len() - 1] == CameraSpin::<S, W>::Full(e));
        if set_off(swing, tick, direction) is Some {
            assert(out[b.len() - 1] == b[b.len() - 1]);
        }
    }
    if let Some(e) = set_off(swing, tick, direction) {
        assert(out[out.len() - 1] == CameraSpin::<S, W>::Swing(e));
    }
}

} // verus!
