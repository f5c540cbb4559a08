//! Attributes: their kinds, the ring along which they lend to each other,
//! the curve along which they grow, and the set of them that one entity owns.

use crate::table::{cells_of, rendered, Column, ColumnAlignment, Table};
use crate::text::{decimal, decimal_string};
use vstd::prelude::*;
use vstd::string::StringExecFns;

verus! {

/// The number of attribute kinds, the auxiliary one included.
pub const STAT_COUNT: usize = 8;

/// The number of kinds that stand on the ring.
pub const RING_SIZE: usize = 7;

pub const MAX_BASE_VALUE: i64 = 30;

pub const PROGRESS_UNITS_PER_LEVEL: i64 = 100;

/// Transfer factors are given in parts of this scale.
pub const TRANSFER_SCALE: i64 = 100;

/// The factor between two neighbours on the ring: a fifth.
pub const MAJOR_ADJACENT: i64 = 20;

/// The reciprocal of the dropoff factor of a progress-bearing check: the
/// factor itself is a twentieth.
pub const DROPOFF_RECIPROCAL: i64 = 20;

/// Where, relative to the required value, progress is at its best.
pub const IDEAL_LEVEL_LOCATION: i64 = -2;

/// The seven attributes of the ring, in ring order, and one auxiliary kind
/// that stands outside it.
#[derive(Clone, Copy, Debug, PartialEq, Eq, Structural)]
pub enum StatKind {
    Strength,
    Endurance,
    Constitution,
    Will,
    Intelligence,
    Perception,
    Agility,
    /// Auxiliary: marks the end of the list and takes no part in transfers.
    FinalStat,
}

/// The kind that stands at a position of the list.
pub open spec fn kind_at(i: int) -> StatKind {
    if i == 0 {
        StatKind::Strength
    } else if i == 1 {
        StatKind::Endurance
    } else if i == 2 {
        StatKind::Constitution
    } else if i == 3 {
        StatKind::Will
    } else if i == 4 {
        StatKind::Intelligence
    } else if i == 5 {
        StatKind::Perception
    } else if i == 6 {
        StatKind::Agility
    } else {
        StatKind::FinalStat
    }
}

/// Two kinds are neighbours when both stand on the ring, one step apart.
pub open spec fn ring_adjacent(a: StatKind, b: StatKind) -> bool {
    &&& a.on_ring()
    &&& b.on_ring()
    &&& ((a.spec_index() - b.spec_index()) % 7 == 1 || (b.spec_index() - a.spec_index()) % 7 == 1)
}

/// The share of `source`'s base value that `target` receives, in parts of
/// `TRANSFER_SCALE`.
pub open spec fn spec_transfer_factor(target: StatKind, source: StatKind) -> int {
    if ring_adjacent(target, source) {
        20
    } else {
        0
    }
}

/// Progress needed at a level on the faster curve, the ceiling of
/// 100 * e^(0.13 * (level - 1)), tabulated for the levels 0 to 30.
pub open spec fn major_ring_curve(level: int) -> int
    recommends
        0 <= level <= 30,
{
    if level <= 0 { 88 }
    else if level == 1 { 100 }
    else if level == 2 { 114 }
    else if level == 3 { 130 }
    else if level == 4 { 148 }
    else if level == 5 { 169 }
    else if level == 6 { 192 }
    else if level == 7 { 219 }
    else if level == 8 { 249 }
    else if level == 9 { 283 }
    else if level == 10 { 323 }
    else if level == 11 { 367 }
    else if level == 12 { 418 }
    else if level == 13 { 476 }
    else if level == 14 { 542 }
    else if level == 15 { 618 }
    else if level == 16 { 703 }
    else if level == 17 { 801 }
    else if level == 18 { 912 }
    else if level == 19 { 1039 }
    else if level == 20 { 1183 }
    else if level == 21 { 1347 }
    else if level == 22 { 1534 }
    else if level == 23 { 1747 }
    else if level == 24 { 1989 }
    else if level == 25 { 2265 }
    else if level == 26 { 2580 }
    else if level == 27 { 2938 }
    else if level == 28 { 3345 }
    else if level == 29 { 3810 }
    else { 4339 }
}

/// Progress needed at a level on the slower curve, the ceiling of
/// 100 * e^(0.08 * (level - 1)), tabulated for the levels 0 to 30.
pub open spec fn minor_curve(level: int) -> int
    recommends
        0 <= level <= 30,
{
    if level <= 0 { 93 }
    else if level == 1 { 100 }
    else if level == 2 { 109 }
    else if level == 3 { 118 }
    else if level == 4 { 128 }
    else if level == 5 { 138 }
    else if level == 6 { 150 }
    else if level == 7 { 162 }
    else if level == 8 { 176 }
    else if level == 9 { 190 }
    else if level == 10 { 206 }
    else if level == 11 { 223 }
    else if level == 12 { 242 }
    else if level == 13 { 262 }
    else if level == 14 { 283 }
    else if level == 15 { 307 }
    else if level == 16 { 333 }
    else if level == 17 { 360 }
    else if level == 18 { 390 }
    else if level == 19 { 423 }
    else if level == 20 { 458 }
    else if level == 21 { 496 }
    else if level == 22 { 537 }
    else if level == 23 { 582 }
    else if level == 24 { 630 }
    else if level == 25 { 683 }
    else if level == 26 { 739 }
    else if level == 27 { 801 }
    else if level == 28 { 868 }
    else if level == 29 { 940 }
    else { 1018 }
}

impl StatKind {
    pub open spec fn spec_index(self) -> int {
        match self {
            StatKind::Strength => 0,
            StatKind::Endurance => 1,
            StatKind::Constitution => 2,
            StatKind::Will => 3,
            StatKind::Intelligence => 4,
            StatKind::Perception => 5,
            StatKind::Agility => 6,
            StatKind::FinalStat => 7,
        }
    }

    pub open spec fn on_ring(self) -> bool {
        self != StatKind::FinalStat
    }

    pub open spec fn spec_ticker(self) -> Seq<char> {
        match self {
            StatKind::Strength => "STR"@,
            StatKind::Endurance => "END"@,
            StatKind::Constitution => "CON"@,
            StatKind::Will => "WIL"@,
            StatKind::Intelligence => "INT"@,
            StatKind::Perception => "PER"@,
            StatKind::Agility => "AGI"@,
            StatKind::FinalStat => "___"@,
        }
    }

    pub open spec fn spec_display_name(self) -> Seq<char> {
        match self {
            StatKind::Strength => "Strength"@,
            StatKind::Endurance => "Endurance"@,
            StatKind::Constitution => "Constitution"@,
            StatKind::Will => "Will"@,
            StatKind::Intelligence => "Intelligence"@,
            StatKind::Perception => "Perception"@,
            StatKind::Agility => "Agility"@,
            StatKind::FinalStat => "___"@,
        }
    }

    /// The curve of a kind: the faster one on the ring, the slower one off it.
    pub open spec fn curve(self, level: int) -> int
        recommends
            0 <= level <= 30,
    {
        if self.on_ring() {
            major_ring_curve(level)
        } else {
            minor_curve(level)
        }
    }

    /// All kinds in their order.
    pub fn stat_list() -> (list: [StatKind; 8])
        ensures
            forall|i: int| 0 <= i < 8 ==> list@[i] == kind_at(i),
    {
        [
            StatKind::Strength,
            StatKind::Endurance,
            StatKind::Constitution,
            StatKind::Will,
            StatKind::Intelligence,
            StatKind::Perception,
            StatKind::Agility,
            StatKind::FinalStat,
        ]
    }

    pub fn from_usize(i: usize) -> (kind: StatKind)
        requires
            i < STAT_COUNT,
        ensures
            kind == kind_at(i as int),
            kind.spec_index() == i,
    {
        if i == 0 {
            StatKind::Strength
        } else if i == 1 {
            StatKind::Endurance
        } else if i == 2 {
            StatKind::Constitution
        } else if i == 3 {
            StatKind::Will
        } else if i == 4 {
            StatKind::Intelligence
        } else if i == 5 {
            StatKind::Perception
        } else if i == 6 {
            StatKind::Agility
        } else {
            StatKind::FinalStat
        }
    }

    pub fn index(self) -> (i: usize)
        ensures
            i == self.spec_index(),
            i < STAT_COUNT,
            kind_at(i as int) == self,
    {
        match self {
            StatKind::Strength => 0,
            StatKind::Endurance => 1,
            StatKind::Constitution => 2,
            StatKind::Will => 3,
            StatKind::Intelligence => 4,
            StatKind::Perception => 5,
            StatKind::Agility => 6,
            StatKind::FinalStat => 7,
        }
    }

    pub fn ticker(self) -> (text: &'static str)
        ensures
            text@ == self.spec_ticker(),
    {
        match self {
            StatKind::Strength => "STR",
            StatKind::Endurance => "END",
            StatKind::Constitution => "CON",
            StatKind::Will => "WIL",
            StatKind::Intelligence => "INT",
            StatKind::Perception => "PER",
            StatKind::Agility => "AGI",
            StatKind::FinalStat => self.display_name(),
        }
    }

    pub fn display_name(self) -> (text: &'static str)
        ensures
            text@ == self.spec_display_name(),
    {
        match self {
            StatKind::Strength => "Strength",
            StatKind::Endurance => "Endurance",
            StatKind::Constitution => "Constitution",
            StatKind::Will => "Will",
            StatKind::Intelligence => "Intelligence",
            StatKind::Perception => "Perception",
            StatKind::Agility => "Agility",
            StatKind::FinalStat => "___",
        }
    }

    /// The progress that takes a stat of this kind past `level`.
    pub fn progress_for_level(self, level: i64) -> (progress: i64)
        requires
            0 <= level <= MAX_BASE_VALUE,
        ensures
            progress == self.curve(level as int),
            88 <= progress <= 4339,
    {
        match self {
            StatKind::FinalStat => minor_advancement(level),
            _ => major_ring_advancement(level),
        }
    }

    /// The share of `source` that `target` receives, in parts of
    /// `TRANSFER_SCALE`: a fifth between neighbours on the ring, nothing
    /// between any other two kinds, a kind and itself included.
    pub fn transfer_factor(target: StatKind, source: StatKind) -> (factor: i64)
        ensures
            factor == spec_transfer_factor(target, source),
            factor == MAJOR_ADJACENT || factor == 0,
    {
        match target {
            StatKind::Strength => match source {
                StatKind::Endurance => MAJOR_ADJACENT,
                StatKind::Agility => MAJOR_ADJACENT,
                _ => 0,
            },
            StatKind::Endurance => match source {
                StatKind::Strength => MAJOR_ADJACENT,
                StatKind::Constitution => MAJOR_ADJACENT,
                _ => 0,
            },
            StatKind::Constitution => match source {
                StatKind::Endurance => MAJOR_ADJACENT,
                StatKind::Will => MAJOR_ADJACENT,
                _ => 0,
            },
            StatKind::Will => match source {
                StatKind::Constitution => MAJOR_ADJACENT,
                StatKind::Intelligence => MAJOR_ADJACENT,
                _ => 0,
            },
            StatKind::Intelligence => match source {
                StatKind::Will => MAJOR_ADJACENT,
                StatKind::Perception => MAJOR_ADJACENT,
                _ => 0,
            },
            StatKind::Perception => match source {
                StatKind::Intelligence => MAJOR_ADJACENT,
                StatKind::Agility => MAJOR_ADJACENT,
                _ => 0,
            },
            StatKind::Agility => match source {
                StatKind::Perception => MAJOR_ADJACENT,
                StatKind::Strength => MAJOR_ADJACENT,
                _ => 0,
            },
            StatKind::FinalStat => 0,
        }
    }
}

// The advancement curves are exponential, but slowed down with a constant
// stretch. Early levels advance with sublinear increases in the progress
// they ask for; later the curve catches up and sets a soft cap on the level.
pub fn major_ring_advancement(level: i64) -> (progress: i64)
    requires
        0 <= level <= MAX_BASE_VALUE,
    ensures
        progress == major_ring_curve(level as int),
        88 <= progress <= 4339,
{
    match level {
        0 => 88,
        1 => 100,
        2 => 114,
        3 => 130,
        4 => 148,
        5 => 169,
        6 => 192,
        7 => 219,
        8 => 249,
        9 => 283,
        10 => 323,
        11 => 367,
        12 => 418,
        13 => 476,
        14 => 542,
        15 => 618,
        16 => 703,
        17 => 801,
        18 => 912,
        19 => 1039,
        20 => 1183,
        21 => 1347,
        22 => 1534,
        23 => 1747,
        24 => 1989,
        25 => 2265,
        26 => 2580,
        27 => 2938,
        28 => 3345,
        29 => 3810,
        _ => 4339,
    }
}

// The slower stretch lets stats on this curve reach higher levels before
// the curve runs away.
pub fn minor_advancement(level: i64) -> (progress: i64)
    requires
        0 <= level <= MAX_BASE_VALUE,
    ensures
        progress == minor_curve(level as int),
        88 <= progress <= 4339,
{
    match level {
        0 => 93,
        1 => 100,
        2 => 109,
        3 => 118,
        4 => 128,
        5 => 138,
        6 => 150,
        7 => 162,
        8 => 176,
        9 => 190,
        10 => 206,
        11 => 223,
        12 => 242,
        13 => 262,
        14 => 283,
        15 => 307,
        16 => 333,
        17 => 360,
        18 => 390,
        19 => 423,
        20 => 458,
        21 => 496,
        22 => 537,
        23 => 582,
        24 => 630,
        25 => 683,
        26 => 739,
        27 => 801,
        28 => 868,
        29 => 940,
        _ => 1018,
    }
}

/// A check that grants progress: the value it asks for and the progress a
/// well-matched attempt is worth.
#[derive(Clone, Copy)]
pub struct ProgressCheck {
    pub required: i64,
    pub base_progress: i64,
}

/// The progress a check grants to an attribute whose derived value is
/// `skill_value`: `base_progress` times the smaller of `required` and
/// `1 / (dropoff * distance)`, rounded down, where `distance` is
/// `skill_value - IDEAL_LEVEL_LOCATION - required`, the dropoff is a
/// twentieth, a negative quotient counts as zero and the quotient at
/// distance zero is unbounded.
pub open spec fn progress_gain(required: int, base_progress: int, skill_value: int) -> int {
    let distance = skill_value + 2 - required;
    if distance < 0 {
        if required < 0 {
            base_progress * required
        } else {
            0
        }
    } else if distance == 0 || required * distance <= 20 {
        base_progress * required
    } else {
        (base_progress * 20) / distance
    }
}

/// `value` brought into the range of `i64`.
pub open spec fn saturated(value: int) -> int {
    if value < i64::MIN {
        i64::MIN as int
    } else if value > i64::MAX {
        i64::MAX as int
    } else {
        value
    }
}

/// `numerator / denominator`, rounded down.
fn floor_div(numerator: i128, denominator: i128) -> (quotient: i128)
    requires
        denominator > 0,
        -0x4000_0000_0000_0000_0000_0000_0000_0000 < numerator
            < 0x4000_0000_0000_0000_0000_0000_0000_0000,
        denominator < 0x4000_0000_0000_0000_0000_0000_0000_0000,
    ensures
        quotient == numerator / denominator,
{
    if numerator >= 0 {
        numerator / denominator
    } else {
        let positive: i128 = -numerator;
        let up: i128 = (positive + (denominator - 1)) / denominator;
        proof {
            lemma_floor_of_negative(numerator as int, denominator as int);
        }
        -up
    }
}

proof fn lemma_floor_of_negative(n: int, d: int)
    requires
        d > 0,
        n < 0,
    ensures
        n / d == -((-n + (d - 1)) / d),
{
    let q = (-n + (d - 1)) / d;
    let r = (-n + (d - 1)) % d;
    assert(-n + (d - 1) == d * q + r && 0 <= r < d) by {
        vstd::arithmetic::div_mod::lemma_fundamental_div_mod(-n + (d - 1), d);
    }
    // n == d * (-q) + (d - 1 - r), with a remainder in range.
    assert(n == (-q) * d + (d - 1 - r)) by (nonlinear_arith)
        requires
            -n + (d - 1) == d * q + r,
    ;
    vstd::arithmetic::div_mod::lemma_fundamental_div_mod_converse(n, d, -q, d - 1 - r);
}

fn saturate(value: i128) -> (result: i64)
    ensures
        result == saturated(value as int),
{
    if value < i64::MIN as i128 {
        i64::MIN
    } else if value > i64::MAX as i128 {
        i64::MAX
    } else {
        value as i64
    }
}

/// The progress a check grants, brought into the range of `i64`.
pub fn check_progress_gain(check: ProgressCheck, skill_value: i64) -> (gain: i64)
    ensures
        gain == saturated(
            progress_gain(check.required as int, check.base_progress as int, skill_value as int),
        ),
{
    let required: i128 = check.required as i128;
    let base_progress: i128 = check.base_progress as i128;
    let distance: i128 = skill_value as i128 - IDEAL_LEVEL_LOCATION as i128 - required;
    assert(-0x8000_0000_0000_0000 <= required < 0x8000_0000_0000_0000);
    assert(-0x8000_0000_0000_0000 <= base_progress < 0x8000_0000_0000_0000);
    assert(-0x1_8000_0000_0000_0003 <= distance <= 0x1_8000_0000_0000_0003);
    if distance < 0 {
        if required < 0 {
            assert(-0x4000_0000_0000_0000_0000_0000_0000_0000 <= base_progress * required
                <= 0x4000_0000_0000_0000_0000_0000_0000_0000) by (nonlinear_arith)
                requires
                    -0x8000_0000_0000_0000 <= required < 0x8000_0000_0000_0000,
                    -0x8000_0000_0000_0000 <= base_progress < 0x8000_0000_0000_0000,
            ;
            saturate(base_progress * required)
        } else {
            0
        }
    } else {
        // The cap applies where `required <= 20 / distance`. The product is
        // only formed where both factors are small.
        let capped: bool = if distance == 0 || required <= 0 {
            true
        } else if required <= DROPOFF_RECIPROCAL as i128 && distance <= DROPOFF_RECIPROCAL as i128 {
            assert(0 < required * distance <= 400) by (nonlinear_arith)
                requires
                    0 < required <= 20,
                    0 < distance <= 20,
            ;
            required * distance <= DROPOFF_RECIPROCAL as i128
        } else {
            false
        };
        proof {
            if distance > 0 && required <= 0 {
                assert(required * distance <= 0) by (nonlinear_arith)
                    requires
                        distance > 0,
                        required <= 0,
                ;
            }
            if distance > 0 && required > 0 && (required > 20 || distance > 20) {
                assert(required * distance > 20) by (nonlinear_arith)
                    requires
                        distance > 0,
                        required > 0,
                        required > 20 || distance > 20,
                ;
            }
        }
        if capped {
            assert(-0x4000_0000_0000_0000_0000_0000_0000_0000 <= base_progress * required
                <= 0x4000_0000_0000_0000_0000_0000_0000_0000) by (nonlinear_arith)
                requires
                    -0x8000_0000_0000_0000 <= required < 0x8000_0000_0000_0000,
                    -0x8000_0000_0000_0000 <= base_progress < 0x8000_0000_0000_0000,
            ;
            saturate(base_progress * required)
        } else {
            saturate(floor_div(base_progress * DROPOFF_RECIPROCAL as i128, distance))
        }
    }
}

/// The mathematical value of one attribute.
pub struct StatValue {
    pub kind: StatKind,
    pub base_value: int,
    pub progress: int,
    pub progress_to_next_level: int,
}

impl StatValue {
    /// The invariant of every attribute.
    pub open spec fn wf(self) -> bool {
        &&& 0 <= self.base_value <= 30
        &&& 0 <= self.progress
        &&& 0 < self.progress_to_next_level
    }

    /// An attribute at its minimum.
    pub open spec fn fresh(kind: StatKind) -> StatValue {
        StatValue { kind, base_value: 0, progress: 0, progress_to_next_level: 100 }
    }

    pub open spec fn with_base_value(self, base_value: int) -> StatValue {
        StatValue { base_value, ..self }
    }

    /// One increment: the base value goes up by one, the threshold is paid
    /// from the progress, and the next threshold is read from the curve.
    pub open spec fn stepped(self) -> StatValue {
        StatValue {
            kind: self.kind,
            base_value: self.base_value + 1,
            progress: self.progress - self.progress_to_next_level,
            progress_to_next_level: self.kind.curve(self.base_value + 1),
        }
    }

    /// An increment is due while the threshold is met below the maximum.
    pub open spec fn step_due(self) -> bool {
        self.base_value < 30 && self.progress >= self.progress_to_next_level
    }

    /// The attribute after every increment that is due.
    pub open spec fn leveled(self) -> StatValue
        decreases 30 - self.base_value,
    {
        if self.step_due() {
            self.stepped().leveled()
        } else {
            self
        }
    }

    /// The attribute after `amount` of progress: the progress never falls
    /// below zero, and every increment that is then due is made.
    pub open spec fn advanced(self, amount: int) -> StatValue {
        StatValue {
            progress: if self.progress + amount < 0 {
                0
            } else {
                self.progress + amount
            },
            ..self
        }.leveled()
    }
}

/// One attribute: its raw value, its progress and the progress that the
/// next increment takes.
#[derive(Clone, Copy)]
pub struct Stat {
    kind: StatKind,
    // Ranges from 0 to 30.
    base_value: i64,
    // Starts at 0, then increases. If it does go down, it stops at zero.
    // Decreases cannot affect base_value.
    progress: i64,
    progress_to_next_level: i64,
}

impl View for Stat {
    type V = StatValue;

    closed spec fn view(&self) -> StatValue {
        StatValue {
            kind: self.kind,
            base_value: self.base_value as int,
            progress: self.progress as int,
            progress_to_next_level: self.progress_to_next_level as int,
        }
    }
}

impl Stat {
    pub open spec fn wf(&self) -> bool {
        self@.wf()
    }

    pub fn new(kind: StatKind) -> (stat: Stat)
        ensures
            stat@ == StatValue::fresh(kind),
            stat.wf(),
    {
        Stat { kind, base_value: 0, progress: 0, progress_to_next_level: 100 }
    }

    pub fn kind(&self) -> (kind: StatKind)
        ensures
            kind == self@.kind,
    {
        self.kind
    }

    pub fn base_value(&self) -> (base_value: i64)
        ensures
            base_value == self@.base_value,
    {
        self.base_value
    }

    /// The derived value within `block`: the base value and what the other
    /// stats of the block lend to this kind. Not the final value: characters
    /// may have other modifiers outside of the stat block.
    pub fn value(&self, block: &StatBlock) -> (value: i64)
        requires
            self.wf(),
            block.wf(),
        ensures
            value == derived_value(self@, block@),
            self@.base_value <= value <= self@.base_value + 12,
    {
        let mut value_with_transfer: i64 = self.base_value;
        let mut i: usize = 0;
        proof {
            lemma_transfer_total_bounds(self@.kind, block@, 8);
        }
        while i < STAT_COUNT
            invariant
                i <= STAT_COUNT,
                self.wf(),
                block.wf(),
                value_with_transfer == self.base_value + transfer_total(self@.kind, block@, i as int),
            decreases STAT_COUNT - i,
        {
            let kind = StatKind::from_usize(i);
            let factor: i64 = StatKind::transfer_factor(self.kind, kind);
            let source: i64 = block.stat(kind).base_value;
            proof {
                lemma_transfer_total_bounds(self@.kind, block@, i as int);
                lemma_transfer_total_bounds(self@.kind, block@, i + 1);
                assert(block@[i as int].wf());
                assert(transferred(source as int, factor as int) == source * factor / 100);
            }
            assert(0 <= source * factor <= 600) by (nonlinear_arith)
                requires
                    0 <= source <= 30,
                    factor == 0 || factor == 20,
            ;
            let transferred_value: i64 = source * factor / TRANSFER_SCALE;
            value_with_transfer = value_with_transfer + transferred_value;
            i = i + 1;
        }
        value_with_transfer
    }

    /// Sets the base value directly; only values from 0 to 30 are valid.
    pub fn set_base_value(&mut self, base_value: i64)
        requires
            0 <= base_value <= MAX_BASE_VALUE,
        ensures
            final(self)@ == old(self)@.with_base_value(base_value as int),
    {
        self.base_value = base_value
    }

    /// Adds `amount` to the progress and makes every increment that is then
    /// due. At the maximum base value the progress is kept as it is.
    pub fn advance(&mut self, amount: i64)
        requires
            old(self).wf(),
            old(self)@.progress + amount <= i64::MAX,
        ensures
            final(self)@ == old(self)@.advanced(amount as int),
            final(self).wf(),
    {
        let sum: i128 = self.progress as i128 + amount as i128;
        self.progress = if sum < 0 { 0 } else { sum as i64 };
        while self.progress >= self.progress_to_next_level && self.base_value < MAX_BASE_VALUE
            invariant
                self.wf(),
                self@.leveled() == old(self)@.advanced(amount as int),
            decreases MAX_BASE_VALUE - self.base_value,
        {
            self.base_value = self.base_value + 1;
            self.progress = self.progress - self.progress_to_next_level;
            self.progress_to_next_level = self.kind.progress_for_level(self.base_value);
        }
    }

    pub fn progress(&self) -> (progress: i64)
        ensures
            progress == self@.progress,
    {
        self.progress
    }

    pub fn progress_to_next_level(&self) -> (progress: i64)
        ensures
            progress == self@.progress_to_next_level,
    {
        self.progress_to_next_level
    }
}

/// What a base value lends under a factor given in parts of the scale,
/// rounded down.
pub open spec fn transferred(base_value: int, factor: int) -> int {
    base_value * factor / 100
}

/// What the first `upto` stats of a set lend to `target`.
pub open spec fn transfer_total(target: StatKind, stats: Seq<StatValue>, upto: int) -> int
    decreases upto,
{
    if upto <= 0 {
        0
    } else {
        transfer_total(target, stats, upto - 1) + transferred(
            stats[upto - 1].base_value,
            spec_transfer_factor(target, kind_at(upto - 1)),
        )
    }
}

/// The derived value of a stat within a set: its base value and what every
/// stat of the set lends to its kind.
pub open spec fn derived_value(stat: StatValue, stats: Seq<StatValue>) -> int {
    stat.base_value + transfer_total(stat.kind, stats, 8)
}

/// The invariant of a set: one valid stat of each kind, in the kinds' order.
pub open spec fn stats_wf(stats: Seq<StatValue>) -> bool {
    &&& stats.len() == 8
    &&& forall|i: int| 0 <= i < 8 ==> (#[trigger] stats[i]).wf() && stats[i].kind == kind_at(i)
}

/// The maximum health that a set gives: the square of the derived
/// Constitution.
pub open spec fn spec_max_hp(stats: Seq<StatValue>) -> int {
    derived_value(stats[2], stats) * derived_value(stats[2], stats)
}

proof fn lemma_transfer_total_bounds(target: StatKind, stats: Seq<StatValue>, upto: int)
    requires
        stats_wf(stats),
        0 <= upto <= 8,
    ensures
        0 <= transfer_total(target, stats, upto) <= 12,
        upto < 8 ==> transfer_total(target, stats, upto + 1) == transfer_total(target, stats, upto)
            + lent(target, stats, upto),
        upto < 8 ==> 0 <= stats[upto].base_value <= 30,
    decreases 8 - upto,
{
    lemma_transfer_total_not_negative(target, stats, upto);
    if upto < 8 {
        lemma_lent(target, stats, upto);
        lemma_transfer_total_bounds(target, stats, upto + 1);
        assert(stats[upto].wf());
    } else {
        lemma_transfer_closed_form(target, stats);
    }
}

proof fn lemma_transfer_total_not_negative(target: StatKind, stats: Seq<StatValue>, upto: int)
    requires
        stats_wf(stats),
        0 <= upto <= 8,
    ensures
        0 <= transfer_total(target, stats, upto),
    decreases upto,
{
    if upto > 0 {
        lemma_lent(target, stats, upto - 1);
        lemma_transfer_total_not_negative(target, stats, upto - 1);
    }
}

/// On the ring a kind receives a fifth of each of its two neighbours' base
/// values, each rounded down, and nothing else; off the ring a kind
/// receives nothing.
pub proof fn lemma_transfer_closed_form(target: StatKind, stats: Seq<StatValue>)
    requires
        stats_wf(stats),
    ensures
        target.on_ring() ==> transfer_total(target, stats, 8) == stats[(target.spec_index() + 6)
            % 7].base_value / 5 + stats[(target.spec_index() + 1) % 7].base_value / 5,
        !target.on_ring() ==> transfer_total(target, stats, 8) == 0,
        0 <= transfer_total(target, stats, 8) <= 12,
{
    assert forall|i: int| 0 <= i < 8 implies #[trigger] transfer_total(target, stats, i + 1)
        == transfer_total(target, stats, i) + lent(target, stats, i) by {
        lemma_lent(target, stats, i);
    }
    assert forall|i: int| 0 <= i < 8 implies #[trigger] lent(target, stats, i) == (if target.on_ring()
        && (i == (target.spec_index() + 6) % 7 || i == (target.spec_index() + 1) % 7) {
        stats[i].base_value / 5
    } else {
        0
    }) && 0 <= lent(target, stats, i) <= 6 by {
        lemma_lent(target, stats, i);
    }
    assert(transfer_total(target, stats, 0) == 0);
    assert(transfer_total(target, stats, 1) == lent(target, stats, 0));
    assert(transfer_total(target, stats, 2) == transfer_total(target, stats, 1) + lent(
        target,
        stats,
        1,
    ));
    assert(transfer_total(target, stats, 3) == transfer_total(target, stats, 2) + lent(
        target,
        stats,
        2,
    ));
    assert(transfer_total(target, stats, 4) == transfer_total(target, stats, 3) + lent(
        target,
        stats,
        3,
    ));
    assert(transfer_total(target, stats, 5) == transfer_total(target, stats, 4) + lent(
        target,
        stats,
        4,
    ));
    assert(transfer_total(target, stats, 6) == transfer_total(target, stats, 5) + lent(
        target,
        stats,
        5,
    ));
    assert(transfer_total(target, stats, 7) == transfer_total(target, stats, 6) + lent(
        target,
        stats,
        6,
    ));
    assert(transfer_total(target, stats, 8) == transfer_total(target, stats, 7) + lent(
        target,
        stats,
        7,
    ));
}

/// What the stat at position `i` of a set lends to `target`.
pub open spec fn lent(target: StatKind, stats: Seq<StatValue>, i: int) -> int {
    transferred(stats[i].base_value, spec_transfer_factor(target, kind_at(i)))
}

proof fn lemma_lent(target: StatKind, stats: Seq<StatValue>, i: int)
    requires
        stats_wf(stats),
        0 <= i < 8,
    ensures
        transfer_total(target, stats, i + 1) == transfer_total(target, stats, i) + lent(
            target,
            stats,
            i,
        ),
        lent(target, stats, i) == (if target.on_ring() && (i == (target.spec_index() + 6) % 7 || i
            == (target.spec_index() + 1) % 7) {
            stats[i].base_value / 5
        } else {
            0
        }),
        0 <= lent(target, stats, i) <= 6,
{
    assert(stats[i].wf());
    let b = stats[i].base_value;
    assert(b * 20 / 100 == b / 5);
    assert(b * 0 / 100 == 0);
}

/// The set of all stats of one entity: exactly one stat per kind.
#[derive(Clone, Copy)]
pub struct StatBlock {
    stats: [Stat; 8],
}

impl View for StatBlock {
    type V = Seq<StatValue>;

    closed spec fn view(&self) -> Seq<StatValue> {
        Seq::new(8, |i: int| self.stats@[i]@)
    }
}

impl StatBlock {
    pub open spec fn wf(&self) -> bool {
        stats_wf(self@)
    }

    /// Creates a new block with no progress.
    pub fn new() -> (block: StatBlock)
        ensures
            block.wf(),
            forall|i: int| 0 <= i < 8 ==> block@[i] == StatValue::fresh(kind_at(i)),
    {
        let mut stats: [Stat; 8] = [Stat::new(StatKind::FinalStat); 8];
        let mut i: usize = 0;
        while i < STAT_COUNT
            invariant
                i <= STAT_COUNT,
                forall|j: int| 0 <= j < i ==> stats@[j]@ == StatValue::fresh(kind_at(j)),
                forall|j: int| i <= j < 8 ==> stats@[j]@ == StatValue::fresh(StatKind::FinalStat),
            decreases STAT_COUNT - i,
        {
            stats[i].kind = StatKind::from_usize(i);
            i = i + 1;
        }
        StatBlock { stats }
    }

    pub fn stat(&self, kind: StatKind) -> (stat: &Stat)
        ensures
            stat@ == self@[kind.spec_index()],
    {
        &self.stats[kind.index()]
    }

    pub fn mut_stat(&mut self, kind: StatKind) -> (stat: &mut Stat)
        ensures
            stat@ == old(self)@[kind.spec_index()],
            final(self)@ == old(self)@.update(kind.spec_index(), final(stat)@),
    {
        &mut self.stats[kind.index()]
    }

    /// Whether the derived value of `kind` reaches `required`.
    pub fn check(&self, kind: StatKind, required: i64) -> (success: bool)
        requires
            self.wf(),
        ensures
            success == (derived_value(self@[kind.spec_index()], self@) >= required),
    {
        self.stat(kind).value(self) >= required
    }

    /// Checks as `check` does, then grants the stat the progress that the
    /// attempt is worth at its derived value before the grant.
    pub fn check_with_progression(&mut self, kind: StatKind, check: ProgressCheck) -> (success:
        bool)
        requires
            old(self).wf(),
            old(self)@[kind.spec_index()].progress + saturated(
                progress_gain(
                    check.required as int,
                    check.base_progress as int,
                    derived_value(old(self)@[kind.spec_index()], old(self)@),
                ),
            ) <= i64::MAX,
        ensures
            final(self).wf(),
            success == (derived_value(old(self)@[kind.spec_index()], old(self)@) >= check.required),
            final(self)@ == old(self)@.update(
                kind.spec_index(),
                old(self)@[kind.spec_index()].advanced(
                    saturated(
                        progress_gain(
                            check.required as int,
                            check.base_progress as int,
                            derived_value(old(self)@[kind.spec_index()], old(self)@),
                        ),
                    ),
                ),
            ),
    {
        let success = self.check(kind, check.required);
        // Using the derived value means that transfers make catching up in
        // other stats easier, and that they count towards the progress cap:
        // progress diminishes if transfers make the check too easy.
        let progress = check_progress_gain(check, self.stat(kind).value(self));
        proof {
            lemma_leveled_wf(old(self)@[kind.spec_index()], progress as int);
        }
        self.mut_stat(kind).advance(progress);
        success
    }

    /// The maximum health: the square of the derived Constitution.
    pub fn max_hp(&self) -> (max_hp: i64)
        requires
            self.wf(),
        ensures
            max_hp == spec_max_hp(self@),
            0 <= max_hp <= 42 * 42,
    {
        let constitution_value: i64 = self.stat(StatKind::Constitution).value(self);
        assert(0 <= constitution_value * constitution_value <= 42 * 42) by (nonlinear_arith)
            requires
                0 <= constitution_value <= 42,
        ;
        constitution_value * constitution_value
    }

    /// A table of the stats whose derived value is not zero: name, base
    /// value, derived value, progress and the progress that the next
    /// increment takes.
    pub fn print_table(&self) -> (text: String)
        requires
            self.wf(),
        ensures
            text@ == table_text(self@),
    {
        proof {
            reveal_strlit("Stat");
            reveal_strlit("Base");
            reveal_strlit("Modified");
            reveal_strlit("Progress");
            reveal_strlit("Next Level");
        }
        let mut columns: Vec<Column<'static>> = Vec::new();
        columns.push(Column { name: "Stat", alignment: ColumnAlignment::Left });
        columns.push(Column { name: "Base", alignment: ColumnAlignment::Right });
        columns.push(Column { name: "Modified", alignment: ColumnAlignment::Right });
        columns.push(Column { name: "Progress", alignment: ColumnAlignment::Right });
        columns.push(Column { name: "Next Level", alignment: ColumnAlignment::Right });
        let table = Table { columns };
        let mut rows: Vec<Vec<String>> = Vec::new();
        let mut i: usize = 0;
        while i < STAT_COUNT
            invariant
                i <= STAT_COUNT,
                self.wf(),
                forall|r: int| 0 <= r < rows@.len() ==> (#[trigger] rows@[r])@.len() == 5,
                cells_of(rows@) =~= table_rows(self@, i as int),
            decreases STAT_COUNT - i,
        {
            let stat = &self.stats[i];
            assert(stat@ == self@[i as int]);
            let value = stat.value(self);
            if value != 0 {
                let mut row: Vec<String> = Vec::new();
                row.push(String::from_str(stat.kind.display_name()));
                row.push(decimal_string(stat.base_value()));
                row.push(decimal_string(value));
                row.push(decimal_string(stat.progress()));
                row.push(decimal_string(stat.progress_to_next_level()));
                let ghost before = rows@;
                rows.push(row);
                proof {
                    assert(cells_of(rows@)[before.len() as int] =~= table_row(self@[i as int], self@));
                    assert(cells_of(rows@) =~= cells_of(before).push(
                        table_row(self@[i as int], self@),
                    ));
                }
            }
            i = i + 1;
        }
        proof {
            assert(table.header() =~= table_header());
            assert(table.alignments() =~= table_alignments());
        }
        table.render(rows)
    }
}

pub open spec fn table_header() -> Seq<Seq<char>> {
    seq!["Stat"@, "Base"@, "Modified"@, "Progress"@, "Next Level"@]
}

pub open spec fn table_alignments() -> Seq<ColumnAlignment> {
    seq![
        ColumnAlignment::Left,
        ColumnAlignment::Right,
        ColumnAlignment::Right,
        ColumnAlignment::Right,
        ColumnAlignment::Right,
    ]
}

/// The row of one stat in the table of its set.
pub open spec fn table_row(stat: StatValue, stats: Seq<StatValue>) -> Seq<Seq<char>> {
    seq![
        stat.kind.spec_display_name(),
        decimal(stat.base_value),
        decimal(derived_value(stat, stats)),
        decimal(stat.progress),
        decimal(stat.progress_to_next_level),
    ]
}

/// The rows of the first `upto` stats: those whose derived value is not
/// zero, in their order.
pub open spec fn table_rows(stats: Seq<StatValue>, upto: int) -> Seq<Seq<Seq<char>>>
    decreases upto,
{
    if upto <= 0 {
        Seq::empty()
    } else if derived_value(stats[upto - 1], stats) != 0 {
        table_rows(stats, upto - 1).push(table_row(stats[upto - 1], stats))
    } else {
        table_rows(stats, upto - 1)
    }
}

/// The table of a set as text.
pub open spec fn table_text(stats: Seq<StatValue>) -> Seq<char> {
    rendered(seq![table_header()] + table_rows(stats, 8), table_alignments())
}

/// The maximum health is the square of Constitution's base value and a
/// fifth each, rounded down, of Endurance's and Will's.
pub proof fn lemma_max_hp(stats: Seq<StatValue>)
    requires
        stats_wf(stats),
    ensures
        spec_max_hp(stats) == (stats[2].base_value + stats[1].base_value / 5 + stats[3].base_value
            / 5) * (stats[2].base_value + stats[1].base_value / 5 + stats[3].base_value / 5),
        0 <= spec_max_hp(stats) <= 42 * 42,
{
    lemma_transfer_closed_form(StatKind::Constitution, stats);
    assert(stats[1].wf() && stats[2].wf() && stats[3].wf());
    let value = derived_value(stats[2], stats);
    assert(0 <= value * value <= 42 * 42) by (nonlinear_arith)
        requires
            0 <= value <= 42,
    ;
}

/// Advancing keeps a stat valid, never lowers its base value nor raises it
/// above 30, keeps its kind, and leaves no increment due.
pub proof fn lemma_leveled_wf(stat: StatValue, amount: int)
    requires
        stat.wf(),
    ensures
        stat.advanced(amount).wf(),
        stat.advanced(amount).kind == stat.kind,
        stat.base_value <= stat.advanced(amount).base_value <= 30,
        !stat.advanced(amount).step_due(),
{
    let start = StatValue {
        progress: if stat.progress + amount < 0 {
            0
        } else {
            stat.progress + amount
        },
        ..stat
    };
    lemma_leveled(start);
}

proof fn lemma_leveled(stat: StatValue)
    requires
        stat.wf(),
    ensures
        stat.leveled().wf(),
        stat.leveled().kind == stat.kind,
        stat.base_value <= stat.leveled().base_value <= 30,
        stat.leveled().progress <= stat.progress,
        !stat.leveled().step_due(),
    decreases 30 - stat.base_value,
{
    if stat.step_due() {
        lemma_leveled(stat.stepped());
    }
}

/// At the maximum base value progress is kept and nothing else changes.
pub proof fn lemma_progress_kept_at_cap(stat: StatValue, amount: int)
    requires
        stat.wf(),
        stat.base_value == 30,
        amount >= 0,
    ensures
        stat.advanced(amount) == (StatValue { progress: stat.progress + amount, ..stat }),
{
}

/// Progress kept at the maximum is applied again once the base value has
/// been lowered: the next advance, even by nothing, makes the increments
/// that are due from the lower value.
pub proof fn lemma_kept_progress_applies_after_lowering(
    stat: StatValue,
    amount: int,
    lowered: int,
)
    requires
        stat.wf(),
        stat.base_value == 30,
        amount >= 0,
        0 <= lowered < 30,
    ensures
        stat.advanced(amount).with_base_value(lowered).advanced(0) == (StatValue {
            progress: stat.progress + amount,
            base_value: lowered,
            ..stat
        }).leveled(),
        stat.progress + amount >= stat.progress_to_next_level ==> stat.advanced(
            amount,
        ).with_base_value(lowered).advanced(0).base_value > lowered,
{
    let kept = StatValue { progress: stat.progress + amount, base_value: lowered, ..stat };
    if kept.step_due() {
        lemma_leveled(kept.stepped());
    }
}

/// Between two kinds the factor is a fifth exactly when they are
/// neighbours on the ring; it is the same in both directions, nothing
/// between a kind and itself, and every kind of the ring has exactly the
/// kind before it and the kind after it as neighbours.
pub proof fn lemma_transfer_factor(target: StatKind, source: StatKind)
    ensures
        spec_transfer_factor(target, source) == 20 || spec_transfer_factor(target, source) == 0,
        spec_transfer_factor(target, source) == spec_transfer_factor(source, target),
        spec_transfer_factor(target, target) == 0,
        spec_transfer_factor(target, source) == 20 <==> target.on_ring() && (source == kind_at(
            (target.spec_index() + 1) % 7,
        ) || source == kind_at((target.spec_index() + 6) % 7)),
{
}

} // verus!
