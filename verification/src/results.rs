use vstd::prelude::*;

use crate::gauge::GaugeKind;
use crate::scoring::HitSummary;

verus! {

/// The badge a play earns.
#[derive(Debug, Clone, Copy, PartialEq, Eq, Structural)]
pub enum ClearMark {
    NoMark,
    Played,
    Cleared,
    HardCleared,
    FullCombo,
    Perfect,
}

/// What the result screen needs to know of the gauge at the end of a play.
#[derive(Debug, Clone, Copy, PartialEq, Eq, Structural)]
pub struct GaugeOutcome {
    pub kind: GaugeKind,
    pub cleared: bool,
    pub dead: bool,
}

/// The badge of a play.
pub open spec fn clear_mark_for(
    perfect: bool,
    full_combo: bool,
    manual: bool,
    gauge: GaugeOutcome,
) -> ClearMark {
    if manual {
        ClearMark::NoMark
    } else if !gauge.cleared || gauge.dead {
        ClearMark::Played
    } else if perfect {
        ClearMark::Perfect
    } else if full_combo {
        ClearMark::FullCombo
    } else {
        match gauge.kind {
            GaugeKind::NoGauge => ClearMark::NoMark,
            GaugeKind::Normal => ClearMark::Cleared,
            GaugeKind::Hard => ClearMark::HardCleared,
        }
    }
}

/// The badge of a play: none when the player left, "played" when the gauge was not
/// cleared, then perfect, full combo, or cleared by gauge type.
pub fn calculate_clear_mark(hits: HitSummary, manual: bool, gauge: &GaugeOutcome) -> (m:
    ClearMark)
    ensures
        m == clear_mark_for(
            hits.goods() == 0 && hits.misses() == 0,
            hits.misses() == 0,
            manual,
            *gauge,
        ),
{
    if manual {
        return ClearMark::NoMark;
    }
    if !gauge.cleared || gauge.dead {
        return ClearMark::Played;
    }
    if hits.perfect() {
        return ClearMark::Perfect;
    }
    if hits.full_combo() {
        return ClearMark::FullCombo;
    }
    match gauge.kind {
        GaugeKind::NoGauge => ClearMark::NoMark,
        GaugeKind::Normal => ClearMark::Cleared,
        GaugeKind::Hard => ClearMark::HardCleared,
    }
}

impl ClearMark {
    /// The number a badge is stored as, counting from 0 in the order of the variants.
    pub fn as_u8(self) -> (n: u8)
        ensures
            n == clear_mark_number(self),
    {
        match self {
            ClearMark::NoMark => 0,
            ClearMark::Played => 1,
            ClearMark::Cleared => 2,
            ClearMark::HardCleared => 3,
            ClearMark::FullCombo => 4,
            ClearMark::Perfect => 5,
        }
    }
}

pub open spec fn clear_mark_number(m: ClearMark) -> u8 {
    match m {
        ClearMark::NoMark => 0,
        ClearMark::Played => 1,
        ClearMark::Cleared => 2,
        ClearMark::HardCleared => 3,
        ClearMark::FullCombo => 4,
        ClearMark::Perfect => 5,
    }
}

/// The grades from best to worst, with the lowest score of each.
pub open spec fn grade_rank(score: u32) -> int {
    if score >= 9_900_000 {
        0
    } else if score >= 9_800_000 {
        1
    } else if score >= 9_700_000 {
        2
    } else if score >= 9_500_000 {
        3
    } else if score >= 9_300_000 {
        4
    } else if score >= 9_000_000 {
        5
    } else if score >= 8_700_000 {
        6
    } else if score >= 7_500_000 {
        7
    } else if score >= 6_500_000 {
        8
    } else {
        9
    }
}

/// The name of the grade with the given rank.
pub open spec fn grade_name(rank: int) -> Seq<char> {
    if rank == 0 {
        "S"@
    } else if rank == 1 {
        "AAA+"@
    } else if rank == 2 {
        "AAA"@
    } else if rank == 3 {
        "AA+"@
    } else if rank == 4 {
        "AA"@
    } else if rank == 5 {
        "A+"@
    } else if rank == 6 {
        "A"@
    } else if rank == 7 {
        "B"@
    } else if rank == 8 {
        "C"@
    } else {
        "D"@
    }
}

/// The grade a score earns: S from 9,900,000, then AAA+, AAA, AA+, AA, A+, A, B, C and D.
pub fn grade(score: u32) -> (g: &'static str)
    ensures
        g@ == grade_name(grade_rank(score)),
{
    if score >= 9_900_000 {
        "S"
    } else if score >= 9_800_000 {
        "AAA+"
    } else if score >= 9_700_000 {
        "AAA"
    } else if score >= 9_500_000 {
        "AA+"
    } else if score >= 9_300_000 {
        "AA"
    } else if score >= 9_000_000 {
        "A+"
    } else if score >= 8_700_000 {
        "A"
    } else if score >= 7_500_000 {
        "B"
    } else if score >= 6_500_000 {
        "C"
    } else {
        "D"
    }
}

/// Each grade belongs to its own band of scores: S from 9,900,000; AAA+ from 9,800,000;
/// AAA from 9,700,000; AA+ from 9,500,000; AA from 9,300,000; A+ from 9,000,000; A from
/// 8,700,000; B from 7,500,000; C from 6,500,000; D below.
pub proof fn law_grade_bands(score: u32)
    ensures
        9_900_000 <= score ==> grade_name(grade_rank(score)) == "S"@,
        9_800_000 <= score && score < 9_900_000 ==> grade_name(grade_rank(score)) == "AAA+"@,
        9_700_000 <= score && score < 9_800_000 ==> grade_name(grade_rank(score)) == "AAA"@,
        9_500_000 <= score && score < 9_700_000 ==> grade_name(grade_rank(score)) == "AA+"@,
        9_300_000 <= score && score < 9_500_000 ==> grade_name(grade_rank(score)) == "AA"@,
        9_000_000 <= score && score < 9_300_000 ==> grade_name(grade_rank(score)) == "A+"@,
        8_700_000 <= score && score < 9_000_000 ==> grade_name(grade_rank(score)) == "A"@,
        7_500_000 <= score && score < 8_700_000 ==> grade_name(grade_rank(score)) == "B"@,
        6_500_000 <= score && score < 7_500_000 ==> grade_name(grade_rank(score)) == "C"@,
        score < 6_500_000 ==> grade_name(grade_rank(score)) == "D"@,
{
}

/// A higher score never earns a worse grade.
pub proof fn law_grade_monotone(s1: u32, s2: u32)
    requires
        s1 <= s2,
    ensures
        grade_rank(s2) <= grade_rank(s1),
{
}

/// A play the player left has no badge; a play with the gauge cleared and nothing
/// missed earns at least a full combo.
pub proof fn law_clear_mark_order(perfect: bool, full_combo: bool, manual: bool, g: GaugeOutcome)
    requires
        perfect ==> full_combo,
    ensures
        manual ==> clear_mark_for(perfect, full_combo, manual, g) is NoMark,
        !manual && g.cleared && !g.dead && full_combo ==> clear_mark_number(
            clear_mark_for(perfect, full_combo, manual, g),
        ) >= 4,
        !manual && (!g.cleared || g.dead) ==> clear_mark_for(perfect, full_combo, manual, g) is Played,
{
}

} // verus!
