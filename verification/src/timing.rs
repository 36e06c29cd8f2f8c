use vstd::prelude::*;

verus! {

/// Nanoseconds in a millisecond.
pub const NANOS_PER_MILLI: u128 = 1_000_000u128;

/// The timing windows of a judgement, each a time span in nanoseconds.
#[derive(Debug, Default, Clone, Copy, PartialEq, Eq, Structural)]
pub struct HitWindow {
    pub variant: i32,
    pub perfect: u128,
    pub good: u128,
    pub hold: u128,
    pub miss: u128,
}

/// How a button press is judged.
#[derive(Debug, Clone, Copy, PartialEq, Eq, Structural)]
pub enum Judgement {
    Ignored,
    Crit,
    Good,
    Miss,
}

/// The judgement of a press that lands `abs_delta` nanoseconds away from its note.
pub open spec fn judgement_for(w: HitWindow, abs_delta: u128) -> Judgement {
    if abs_delta <= w.perfect {
        Judgement::Crit
    } else if abs_delta <= w.good {
        Judgement::Good
    } else if abs_delta <= w.miss {
        Judgement::Miss
    } else {
        Judgement::Ignored
    }
}

/// Whole milliseconds in `nanos` nanoseconds (rounded down).
pub open spec fn whole_millis(nanos: u128) -> u128 {
    nanos / NANOS_PER_MILLI
}

impl HitWindow {
    /// Windows given in whole milliseconds.
    pub fn new(variant: i32, perfect_ms: u64, good_ms: u64, hold_ms: u64, miss_ms: u64) -> (w:
        Self)
        ensures
            w.variant == variant,
            w.perfect == perfect_ms * NANOS_PER_MILLI,
            w.good == good_ms * NANOS_PER_MILLI,
            w.hold == hold_ms * NANOS_PER_MILLI,
            w.miss == miss_ms * NANOS_PER_MILLI,
    {
        Self {
            variant,
            perfect: perfect_ms as u128 * NANOS_PER_MILLI,
            good: good_ms as u128 * NANOS_PER_MILLI,
            hold: hold_ms as u128 * NANOS_PER_MILLI,
            miss: miss_ms as u128 * NANOS_PER_MILLI,
        }
    }

    /// The default windows: 46 ms perfect, 92 ms good, 138 ms hold and 250 ms miss.
    pub fn normal() -> (w: Self)
        ensures
            w == normal_window(),
    {
        Self::new(0, 46, 92, 138, 250)
    }

    /// Judges a press that lands `abs_delta` nanoseconds away from its note.
    pub fn judge(&self, abs_delta: u128) -> (j: Judgement)
        ensures
            j == judgement_for(*self, abs_delta),
    {
        if abs_delta <= self.perfect {
            Judgement::Crit
        } else if abs_delta <= self.good {
            Judgement::Good
        } else if abs_delta <= self.miss {
            Judgement::Miss
        } else {
            Judgement::Ignored
        }
    }
}

/// The default windows.
pub open spec fn normal_window() -> HitWindow {
    HitWindow {
        variant: 0,
        perfect: 46_000_000u128,
        good: 92_000_000u128,
        hold: 138_000_000u128,
        miss: 250_000_000u128,
    }
}

/// The windows once configurations written with fractional milliseconds are mended:
/// a perfect window under 2 ms can only come from such a configuration and is replaced
/// by the default windows.
pub open spec fn mended_window(w: HitWindow) -> HitWindow {
    if whole_millis(w.perfect) < 2 {
        normal_window()
    } else {
        w
    }
}

/// Replaces windows that are unreasonably small, left behind when the configuration
/// moved from fractional milliseconds to whole nanoseconds, with the default windows.
pub fn float_hit_windows(hit_window: &mut HitWindow)
    ensures
        *final(hit_window) == mended_window(*old(hit_window)),
{
    if hit_window.perfect / NANOS_PER_MILLI < 2 {
        *hit_window = HitWindow::normal();
    }
}

/// Brings the timing windows of a loaded configuration up to date.
pub fn migrate_config(hit_window: &mut HitWindow)
    ensures
        *final(hit_window) == mended_window(*old(hit_window)),
{
    float_hit_windows(hit_window);
}

/// Mending the windows twice is the same as mending them once.
pub proof fn law_migration_idempotent(w: HitWindow)
    ensures
        mended_window(mended_window(w)) == mended_window(w),
{
}

/// The default windows are never replaced.
pub proof fn law_normal_window_survives_migration()
    ensures
        mended_window(normal_window()) == normal_window(),
{
}

/// With ordered windows, a press judged at some distance is judged no better at any
/// larger distance, and a press farther than the miss window is not judged at all.
pub proof fn law_judgement_monotone(w: HitWindow, d1: u128, d2: u128)
    requires
        w.perfect <= w.good <= w.miss,
        d1 <= d2,
    ensures
        judgement_for(w, d1) is Ignored ==> judgement_for(w, d2) is Ignored,
        judgement_for(w, d1) is Miss ==> (judgement_for(w, d2) is Miss || judgement_for(
            w,
            d2,
        ) is Ignored),
        judgement_for(w, d2) is Crit ==> judgement_for(w, d1) is Crit,
        d2 > w.miss ==> judgement_for(w, d2) is Ignored,
{
}

} // verus!
