use text_adventurers::stat::{
    check_progress_gain, major_ring_advancement, minor_advancement, ProgressCheck, Stat,
    StatBlock, StatKind,
};

#[test]
pub fn defaults_each_stat_to_zero() {
    let block = StatBlock::new();
    assert_eq!(block.stat(StatKind::Strength).base_value(), 0);
    assert_eq!(block.stat(StatKind::Strength).value(&block), 0);
}

#[test]
pub fn stats_have_tickers() {
    assert_eq!(StatKind::Strength.ticker(), "STR");
}

#[test]
pub fn stat_can_be_checked() {
    let mut block = StatBlock::new();
    assert!(!block.check(StatKind::Strength, 5));
    assert!(!block.check(StatKind::Strength, 6));
    block.mut_stat(StatKind::Strength).set_base_value(5);
    assert!(block.check(StatKind::Strength, 5));
    assert!(!block.check(StatKind::Strength, 6));
    // Transfers should be used when making checks.
    block.mut_stat(StatKind::Agility).set_base_value(10);
    assert!(block.check(StatKind::Strength, 6));
}

#[test]
pub fn stats_increase_as_they_advance() {
    let mut block = StatBlock::new();
    block.mut_stat(StatKind::Strength).advance(50);
    assert_eq!(block.stat(StatKind::Strength).base_value(), 0);
    block.mut_stat(StatKind::Strength).advance(100);
    assert_eq!(block.stat(StatKind::Strength).base_value(), 1);
}

#[test]
pub fn derives_max_hp_from_constitution() {
    let mut block = StatBlock::new();
    block.mut_stat(StatKind::Constitution).set_base_value(8);
    assert_eq!(block.max_hp(), 64);
}

#[test]
pub fn checks_with_progress_advance_stats() {
    let mut block = StatBlock::new();
    assert!(!block.check_with_progression(
        StatKind::Strength,
        ProgressCheck {
            required: 1,
            base_progress: 100,
        },
    ));
    assert!(block.check_with_progression(
        StatKind::Strength,
        ProgressCheck {
            required: 1,
            base_progress: 1000,
        },
    ));
    assert!(block.check_with_progression(
        StatKind::Strength,
        ProgressCheck {
            required: 5,
            base_progress: 100,
        },
    ));
}

#[test]
pub fn prints_tables() {
    let mut block = StatBlock::new();
    block.mut_stat(StatKind::Strength).set_base_value(5);
    assert_eq!(
        block.print_table(),
        String::from(
            "| Stat      | Base | Modified | Progress | Next Level |
| Strength  |    5 |        5 |        0 |        100 |
| Endurance |    0 |        1 |        0 |        100 |
| Agility   |    0 |        1 |        0 |        100 |
"
        ),
        "\nGot table:\n{}",
        block.print_table()
    );
}

#[test]
pub fn transfer_is_a_fifth_between_ring_neighbours_and_nothing_otherwise() {
    let ring = [
        StatKind::Strength,
        StatKind::Endurance,
        StatKind::Constitution,
        StatKind::Will,
        StatKind::Intelligence,
        StatKind::Perception,
        StatKind::Agility,
    ];
    for (i, target) in ring.iter().enumerate() {
        for (j, source) in ring.iter().enumerate() {
            let adjacent = (i + 1) % 7 == j || (j + 1) % 7 == i;
            let expected = if adjacent { 20 } else { 0 };
            assert_eq!(StatKind::transfer_factor(*target, *source), expected);
        }
        assert_eq!(StatKind::transfer_factor(*target, *target), 0);
        assert_eq!(StatKind::transfer_factor(*target, StatKind::FinalStat), 0);
        assert_eq!(StatKind::transfer_factor(StatKind::FinalStat, *target), 0);
    }
    assert_eq!(StatKind::transfer_factor(StatKind::Strength, StatKind::Agility), 20);
    assert_eq!(StatKind::transfer_factor(StatKind::Strength, StatKind::Constitution), 0);
}

#[test]
pub fn derived_value_adds_a_fifth_of_each_neighbour_rounded_down() {
    let mut block = StatBlock::new();
    block.mut_stat(StatKind::Constitution).set_base_value(7);
    block.mut_stat(StatKind::Endurance).set_base_value(9);
    block.mut_stat(StatKind::Will).set_base_value(30);
    block.mut_stat(StatKind::Strength).set_base_value(30);
    // 7 + floor(9 / 5) + floor(30 / 5); Strength is no neighbour.
    assert_eq!(block.stat(StatKind::Constitution).value(&block), 14);
    assert_eq!(block.max_hp(), 196);
    assert_eq!(block.stat(StatKind::FinalStat).value(&block), 0);
}

#[test]
pub fn thresholds_follow_the_curves() {
    assert_eq!(StatKind::Strength.progress_for_level(1), 100);
    assert_eq!(StatKind::Strength.progress_for_level(2), 114);
    assert_eq!(StatKind::Agility.progress_for_level(7), 219);
    assert_eq!(StatKind::Will.progress_for_level(30), 4339);
    assert_eq!(StatKind::FinalStat.progress_for_level(1), 100);
    assert_eq!(StatKind::FinalStat.progress_for_level(2), 109);
    assert_eq!(StatKind::FinalStat.progress_for_level(30), 1018);
    assert_eq!(major_ring_advancement(0), 88);
    assert_eq!(minor_advancement(0), 93);
}

#[test]
pub fn advancing_pays_each_threshold_and_keeps_the_rest() {
    let mut stat = Stat::new(StatKind::Strength);
    assert_eq!(stat.progress_to_next_level(), 100);
    stat.advance(1000);
    // 100 + 100 + 114 + 130 + 148 + 169 + 192 = 953 are paid, 47 are left.
    assert_eq!(stat.base_value(), 7);
    assert_eq!(stat.progress(), 47);
    assert_eq!(stat.progress_to_next_level(), 219);
    assert_eq!(stat.kind(), StatKind::Strength);
}

#[test]
pub fn advancing_stops_at_the_maximum_and_keeps_the_progress() {
    let mut stat = Stat::new(StatKind::Strength);
    stat.set_base_value(30);
    stat.advance(5000);
    assert_eq!(stat.base_value(), 30);
    assert_eq!(stat.progress(), 5000);
    stat.advance(17);
    assert_eq!(stat.base_value(), 30);
    assert_eq!(stat.progress(), 5017);
    // Lowered and advanced again, the kept progress is applied.
    stat.set_base_value(29);
    stat.advance(0);
    assert_eq!(stat.base_value(), 30);
    assert_eq!(stat.progress(), 4917);
    assert_eq!(stat.progress_to_next_level(), 4339);
}

#[test]
pub fn progress_never_falls_below_zero() {
    let mut stat = Stat::new(StatKind::Will);
    stat.advance(40);
    stat.advance(-100);
    assert_eq!(stat.progress(), 0);
    assert_eq!(stat.base_value(), 0);
    stat.advance(i64::MIN);
    assert_eq!(stat.progress(), 0);
}

#[test]
pub fn progress_gain_follows_the_formula() {
    let gain = |required: i64, base_progress: i64, skill: i64| {
        check_progress_gain(ProgressCheck { required, base_progress }, skill)
    };
    // Distance 1: the quotient is 20, the cap is the required value.
    assert_eq!(gain(1, 100, 0), 100);
    // Distance 2: the quotient is 10, the cap of 1 applies.
    assert_eq!(gain(1, 1000, 1), 1000);
    // Distance 4 with a cap of 5: the cap applies at 20 / 4.
    assert_eq!(gain(5, 100, 7), 500);
    // Distance 7 with a cap of 5: 20 / 7 of the base progress, rounded down.
    assert_eq!(gain(5, 100, 10), 285);
    assert_eq!(gain(5, 7, 10), 20);
    // Distance 0: only the cap is left.
    assert_eq!(gain(5, 100, 3), 500);
    // A negative distance grants nothing.
    assert_eq!(gain(5, 100, 2), 0);
    // Far above the required value the gain fades out.
    assert_eq!(gain(1, 100, 30), 64);
    assert_eq!(gain(3, 1, 30), 0);
    // Negative base progress is rounded down, away from zero.
    assert_eq!(gain(5, -1, 10), -3);
    // The result is brought into range.
    assert_eq!(gain(i64::MAX, i64::MAX, i64::MAX - 2), i64::MAX);
    assert_eq!(gain(i64::MIN, i64::MAX, 0), i64::MIN);
}

#[test]
pub fn kinds_are_listed_in_ring_order() {
    let list = StatKind::stat_list();
    for (i, kind) in list.iter().enumerate() {
        assert_eq!(kind.index(), i);
        assert_eq!(StatKind::from_usize(i), *kind);
    }
    assert_eq!(StatKind::Constitution.display_name(), "Constitution");
    assert_eq!(StatKind::FinalStat.ticker(), "___");
    assert_eq!(StatKind::Perception.ticker(), "PER");
}
