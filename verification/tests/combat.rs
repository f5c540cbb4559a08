use std::collections::VecDeque;
use text_adventurers::character::Character;
use text_adventurers::choice::Choice;
use text_adventurers::combat::{Action, CombatFrame, Target};
use text_adventurers::hp::HitPointState;
use text_adventurers::io::{Interface, TestInterface};
use text_adventurers::stat::{StatBlock, StatKind};

// Records every message as a line of its own and selects by a script of
// positions.
struct LineInterface {
    written: String,
    preset_choices: VecDeque<usize>,
}

impl LineInterface {
    fn new(preset_choices: VecDeque<usize>) -> LineInterface {
        LineInterface {
            written: String::new(),
            preset_choices,
        }
    }
}

impl Interface for LineInterface {
    fn write(&mut self, message: &str) {
        self.written.push_str(message);
        self.written.push_str("\n");
    }

    fn choose_from<T: Choice>(&mut self, mut choices: Vec<T>) -> T {
        choices.swap_remove(self.preset_choices.pop_front().unwrap())
    }
}

// Plays turns in turn order until a turn ends the combat.
fn play<I: Interface>(frame: &mut CombatFrame, interface: &mut I) {
    let mut actor = 0;
    while !frame.take_turn(interface, actor) {
        actor = frame.next_actor(actor);
    }
}

#[test]
pub fn derives_max_hitpoints_from_stats() {
    let mut stats = StatBlock::new();
    stats.mut_stat(StatKind::Constitution).set_base_value(5);
    let mut character = Character::new(String::from("TestCharacter"), stats);
    assert_eq!(character.hitpoints().max(), 25);
    character
        .stats
        .mut_stat(StatKind::Endurance)
        .set_base_value(5);
    assert_eq!(character.hitpoints().max(), 36);
}

#[test]
pub fn characters_take_actions_until_combat_end() {
    let mut char1 = Character::new_player(String::from("Char1"), StatBlock::new());
    char1.stats.mut_stat(StatKind::Strength).set_base_value(2);
    char1
        .stats
        .mut_stat(StatKind::Constitution)
        .set_base_value(2);
    char1.hitpoints().heal_fully();
    let mut char2 = Character::new_player(String::from("Char2"), StatBlock::new());
    char2
        .stats
        .mut_stat(StatKind::Constitution)
        .set_base_value(3);
    char2.hitpoints().heal_fully();
    let mut frame = CombatFrame::new();
    frame.add_character(char1);
    frame.add_character(char2);

    // Each attacks the other, turn by turn.
    let mut interface = LineInterface::new(VecDeque::from(vec![1, 0, 1, 0, 1]));
    // Newline for nicer table layout in test.
    interface.write("");
    play(&mut frame, &mut interface);

    assert_eq!(
        interface.written,
        "
| Name  | HP | Max HP |
| Char1 |  4 |      4 |
| Char2 |  9 |      9 |

Char1 attacked Char2 for 3 damage.
| Name  | HP | Max HP |
| Char1 |  4 |      4 |
| Char2 |  6 |      9 |

Char2 attacked Char1 for 1 damage.
| Name  | HP | Max HP |
| Char1 |  3 |      4 |
| Char2 |  6 |      9 |

Char1 attacked Char2 for 3 damage.
| Name  | HP | Max HP |
| Char1 |  3 |      4 |
| Char2 |  3 |      9 |

Char2 attacked Char1 for 1 damage.
| Name  | HP | Max HP |
| Char1 |  2 |      4 |
| Char2 |  3 |      9 |

Char1 attacked Char2 for 3 damage.\n"
    );
    assert_eq!(
        frame.character(1).hitpoints_snapshot().state(),
        HitPointState::Depleted
    );
    assert!(frame.finished());
    assert!(interface.preset_choices.is_empty());
}

#[test]
pub fn players_choose_actions() {
    let char1 = Character::new_player(String::from("Player"), StatBlock::new());
    let char2 = Character::new(String::from("Char2"), StatBlock::new());

    let mut frame = CombatFrame::new();
    frame.add_character(char1);
    frame.add_character(char2);

    let mut interface = LineInterface::new(VecDeque::from(vec![1]));
    // Newline for nicer table layout in test.
    interface.write("");
    play(&mut frame, &mut interface);

    assert_eq!(
        interface.written,
        "
| Name   | HP | Max HP |
| Player |  1 |      1 |
| Char2  |  1 |      1 |

Player attacked Char2 for 1 damage.\n"
    );
}

#[test]
pub fn characters_that_decide_for_themselves_attack_themselves() {
    let mut strong = Character::new(String::from("Strong"), StatBlock::new());
    strong.stats.mut_stat(StatKind::Constitution).set_base_value(3);
    strong.stats.mut_stat(StatKind::Strength).set_base_value(4);
    strong.hitpoints().heal_fully();
    let mut other = Character::new(String::from("Other"), StatBlock::new());
    other.stats.mut_stat(StatKind::Constitution).set_base_value(2);
    other.hitpoints().heal_fully();
    let mut frame = CombatFrame::new();
    frame.add_character(strong);
    frame.add_character(other);
    let mut interface = TestInterface::new(VecDeque::new());
    assert!(!frame.take_turn(&mut interface, 0));
    assert_eq!(frame.character(0).hitpoints_snapshot().current(), 4);
    assert_eq!(frame.character(1).hitpoints_snapshot().current(), 4);
    assert!(!frame.take_turn(&mut interface, 1));
    assert_eq!(frame.character(1).hitpoints_snapshot().current(), 3);
    assert!(frame.take_turn(&mut interface, 0));
    assert_eq!(
        frame.character(0).hitpoints_snapshot().state(),
        HitPointState::Depleted
    );
    assert!(interface.written.ends_with("Strong attacked Strong for 5 damage."));
}

#[test]
pub fn an_attack_on_a_missing_target_is_a_narrated_miss() {
    let bystander = Character::new(String::from("Ghost"), StatBlock::new());
    let attack = Action::Attack(Target::target_character(&bystander));
    let mut frame = CombatFrame::new();
    frame.add_character(Character::new(String::from("Knight"), StatBlock::new()));
    frame.add_character(Character::new(String::from("Rogue"), StatBlock::new()));
    let line = attack.resolve(0, &mut frame);
    assert_eq!(line, "Knight tried to attack something nonexistent.");
    assert_eq!(frame.character(0).hitpoints_snapshot().current(), 1);
    assert_eq!(frame.character(1).hitpoints_snapshot().current(), 1);
    assert!(!frame.finished());
    assert!(frame.find_target(&Target::target_character(&bystander)).is_none());
    assert!(frame
        .find_target_character(&Target::target_character(&bystander))
        .is_none());
}

#[test]
pub fn idling_changes_nothing() {
    let mut frame = CombatFrame::new();
    frame.add_character(Character::new(String::from("Knight"), StatBlock::new()));
    frame.add_character(Character::new(String::from("Rogue"), StatBlock::new()));
    let line = Action::Idle.resolve(1, &mut frame);
    assert_eq!(line, "Rogue dawdles.");
    assert_eq!(frame.character(0).hitpoints_snapshot().current(), 1);
    assert_eq!(frame.character(1).hitpoints_snapshot().current(), 1);
    assert_eq!(Action::Idle.describe(), "Do nothing");
}

#[test]
pub fn a_name_resolves_to_the_first_character_that_bears_it() {
    let mut frame = CombatFrame::new();
    frame.add_character(Character::new(String::from("Twin"), StatBlock::new()));
    frame.add_character(Character::new(String::from("Other"), StatBlock::new()));
    frame.add_character(Character::new_player(String::from("Twin"), StatBlock::new()));
    let targets = frame.list_targets();
    assert_eq!(targets.len(), 3);
    assert_eq!(targets[2].name(), "Twin");
    assert_eq!(frame.find_target(&targets[2]), Some(0));
    assert_eq!(frame.find_target(&targets[1]), Some(1));
    let found = frame.find_target_character(&targets[2]).unwrap();
    assert!(!found.is_player_controlled());
    assert_eq!(Action::Attack(Target::target_character(found)).describe(), "Attack Twin");
}

#[test]
pub fn combat_is_over_when_at_most_one_is_left_standing() {
    let mut frame = CombatFrame::new();
    assert!(frame.finished());
    let mut knight = Character::new(String::from("Knight"), StatBlock::new());
    knight.stats.mut_stat(StatKind::Strength).set_base_value(30);
    frame.add_character(knight);
    assert!(frame.finished());
    frame.add_character(Character::new(String::from("Rogue"), StatBlock::new()));
    frame.add_character(Character::new(String::from("Mage"), StatBlock::new()));
    assert!(!frame.finished());
    let rogue = Target::target_character(frame.character(1));
    let line = Action::Attack(rogue).resolve(0, &mut frame);
    assert_eq!(line, "Knight attacked Rogue for 31 damage.");
    assert!(!frame.finished());
    let mage = Target::target_character(frame.character(2));
    Action::Attack(mage).resolve(0, &mut frame);
    assert!(frame.finished());
}

#[test]
pub fn a_lowered_ceiling_brings_the_level_down_on_the_next_access() {
    let mut stats = StatBlock::new();
    stats.mut_stat(StatKind::Constitution).set_base_value(5);
    let mut character = Character::new(String::from("Fading"), stats);
    assert_eq!(character.hitpoints().current(), 25);
    character.stats.mut_stat(StatKind::Constitution).set_base_value(2);
    assert_eq!(character.hitpoints_snapshot().max(), 4);
    assert_eq!(character.hitpoints().max(), 4);
    assert_eq!(character.hitpoints().current(), 4);
    character.stats.mut_stat(StatKind::Constitution).set_base_value(0);
    assert_eq!(character.hitpoints().max(), 1);
    assert_eq!(character.hitpoints().current(), 1);
}

#[test]
pub fn the_recording_interface_takes_a_whole_combat() {
    let char1 = Character::new_player(String::from("Player"), StatBlock::new());
    let char2 = Character::new(String::from("Char2"), StatBlock::new());
    let mut frame = CombatFrame::new();
    frame.add_character(char1);
    frame.add_character(char2);
    let mut interface = TestInterface::new(VecDeque::from(vec![1]));
    play(&mut frame, &mut interface);
    assert_eq!(
        interface.written,
        "| Name   | HP | Max HP |
| Player |  1 |      1 |
| Char2  |  1 |      1 |
Player attacked Char2 for 1 damage."
    );
    assert!(interface.preset_choices.is_empty());
}

#[test]
pub fn turns_go_round_in_the_order_of_joining() {
    let mut frame = CombatFrame::new();
    frame.add_character(Character::new(String::from("First"), StatBlock::new()));
    frame.add_character(Character::new(String::from("Second"), StatBlock::new()));
    frame.add_character(Character::new_player(String::from("Third"), StatBlock::new()));
    assert_eq!(frame.len(), 3);
    assert_eq!(frame.next_actor(0), 1);
    assert_eq!(frame.next_actor(1), 2);
    assert_eq!(frame.next_actor(2), 0);
    let mut characters = frame.into_characters();
    assert_eq!(characters.len(), 3);
    assert_eq!(characters[0].name, "First");
    assert_eq!(characters[2].name, "Third");
    assert!(characters[2].is_player_controlled());
    assert_eq!(characters[1].hitpoints().max(), 1);
}

#[test]
pub fn stats_can_be_changed_through_the_character() {
    let mut character = Character::new(String::from("Growing"), StatBlock::new());
    assert_eq!(character.hitpoints().max(), 1);
    character
        .stats_mut()
        .mut_stat(StatKind::Constitution)
        .set_base_value(3);
    assert_eq!(character.stats().stat(StatKind::Constitution).base_value(), 3);
    assert_eq!(character.name(), "Growing");
    assert_eq!(character.hitpoints().max(), 9);
    assert_eq!(character.hitpoints().current(), 1);
}
