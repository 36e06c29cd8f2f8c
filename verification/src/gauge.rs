use vstd::prelude::*;

verus! {

/// The gauge a play starts with.
#[derive(Debug, Default, Clone, Copy, PartialEq, Eq, Structural)]
pub enum GaugeType {
    #[default]
    Normal,
    Hard,
}

/// Which gauge a play has: none, a normal one or a hard one.
#[derive(Debug, Default, Clone, Copy, PartialEq, Eq, Structural)]
pub enum GaugeKind {
    #[default]
    NoGauge,
    Normal,
    Hard,
}

/// The error reported for a play without a gauge.
#[verifier::external_body]
fn invalid_gauge_type() -> anyhow::Error {
    anyhow::Error::msg("Invalid gauge type")
}

impl GaugeType {
    /// Whether a play with this gauge may fall back to a normal gauge when it fails.
    pub fn fallback_supported(self) -> (b: bool)
        ensures
            b == (self is Hard),
    {
        match self {
            GaugeType::Normal => false,
            GaugeType::Hard => true,
        }
    }

    /// The gauge type of a play's gauge; a play without a gauge has none.
    pub fn try_from(value: GaugeKind) -> (r: Result<Self, anyhow::Error>)
        ensures
            value is NoGauge <==> r is Err,
            value is Normal ==> r == Ok::<GaugeType, anyhow::Error>(GaugeType::Normal),
            value is Hard ==> r == Ok::<GaugeType, anyhow::Error>(GaugeType::Hard),
    {
        match value {
            GaugeKind::NoGauge => Err(invalid_gauge_type()),
            GaugeKind::Normal => Ok(Self::Normal),
            GaugeKind::Hard => Ok(Self::Hard),
        }
    }

    /// The number a gauge type is stored as: 0 for normal, 1 for hard.
    pub fn as_u8(self) -> (n: u8)
        ensures
            n == (if self is Normal { 0u8 } else { 1u8 }),
    {
        match self {
            GaugeType::Normal => 0,
            GaugeType::Hard => 1,
        }
    }
}

/// The gauges of a play: the one in use, those it falls back to in turn (front first), and
/// those that already failed (in the order they failed).
pub struct Gauges<G> {
    active: G,
    fallback: Vec<G>,
    failed: Vec<G>,
}

impl<G> Gauges<G> {
    /// The gauge in use.
    pub closed spec fn active_gauge(&self) -> G {
        self.active
    }

    /// The gauges still waiting to take over, front first.
    pub closed spec fn fallback_seq(&self) -> Seq<G> {
        self.fallback@
    }

    /// The gauges that failed, in the order they failed.
    pub closed spec fn failed_seq(&self) -> Seq<G> {
        self.failed@
    }

    /// All gauges of the play in their order of use: the failed ones, the active one, the
    /// waiting ones.
    pub open spec fn chain(&self) -> Seq<G> {
        self.failed_seq().push(self.active_gauge()) + self.fallback_seq()
    }

    /// A play that starts with `active` and falls back to `fallback`, front first.
    pub fn new(active: G, fallback: Vec<G>) -> (r: Self)
        ensures
            r.active_gauge() == active,
            r.fallback_seq() == fallback@,
            r.failed_seq() == Seq::<G>::empty(),
    {
        Gauges { active, fallback, failed: Vec::new() }
    }

    /// The gauge in use.
    pub fn active(&self) -> (r: &G)
        ensures
            *r == self.active_gauge(),
    {
        &self.active
    }

    /// The active gauge and the waiting ones, to be updated in place.
    pub fn parts_mut(&mut self) -> (r: (&mut G, &mut Vec<G>))
        ensures
            *r.0 == old(self).active_gauge(),
            r.1@ == old(self).fallback_seq(),
            final(self).active_gauge() == *final(r.0),
            final(self).fallback_seq() == final(r.1)@,
            final(self).failed_seq() == old(self).failed_seq(),
    {
        (&mut self.active, &mut self.fallback)
    }

    /// Whether the play is lost: the active gauge is dead (`active_dead`) and no gauge is
    /// left to take over.
    pub fn is_dead(&self, active_dead: bool) -> (b: bool)
        ensures
            b == (active_dead && self.fallback_seq().len() == 0),
    {
        active_dead && self.fallback.len() == 0
    }

    /// Hands over to the next waiting gauge, if any, and records the active one as failed.
    /// Returns whether a gauge took over. No gauge is lost, added or reordered: the chain
    /// of failed, active and waiting gauges stays the same.
    pub fn fall_back(&mut self) -> (took_over: bool)
        ensures
            took_over == (old(self).fallback_seq().len() > 0),
            took_over ==> {
                &&& final(self).active_gauge() == old(self).fallback_seq()[0]
                &&& final(self).fallback_seq() == old(self).fallback_seq().drop_first()
                &&& final(self).failed_seq() == old(self).failed_seq().push(old(self).active_gauge())
            },
            !took_over ==> *final(self) == *old(self),
            final(self).chain() == old(self).chain(),
    {
        if self.fallback.len() == 0 {
            return false;
        }
        let ghost f = self.fallback@;
        let mut gauge = self.fallback.remove(0);
        std::mem::swap(&mut self.active, &mut gauge);
        self.failed.push(gauge);
        assert(f =~= seq![f[0]] + f.drop_first());
        assert(self.chain() =~= old(self).chain());
        true
    }

    /// After a hit has been applied to every gauge: when the active gauge died
    /// (`active_dead`), the next waiting gauge takes over.
    pub fn on_hit(&mut self, active_dead: bool)
        ensures
            active_dead && old(self).fallback_seq().len() > 0 ==> {
                &&& final(self).active_gauge() == old(self).fallback_seq()[0]
                &&& final(self).fallback_seq() == old(self).fallback_seq().drop_first()
                &&& final(self).failed_seq() == old(self).failed_seq().push(old(self).active_gauge())
            },
            !(active_dead && old(self).fallback_seq().len() > 0) ==> *final(self) == *old(self),
            final(self).chain() == old(self).chain(),
    {
        if active_dead {
            self.fall_back();
        }
    }
}

} // verus!
