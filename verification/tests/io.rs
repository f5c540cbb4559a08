use std::collections::VecDeque;
use text_adventurers::character::Character;
use text_adventurers::combat::CombatFrame;
use text_adventurers::stat::StatBlock;
use text_adventurers::choice::{Choice, ConstantChoice};
use text_adventurers::io::{selected_position, Interface, TestInterface};

#[test]
pub fn test_interface_writes_messages() {
    let mut interface = TestInterface::new(VecDeque::new());
    assert_eq!(interface.written, String::new());
    interface.write("foo");
    assert_eq!(interface.written, "foo");
    interface.write(" bar");
    assert_eq!(interface.written, "foo bar");
}

#[derive(Clone)]
struct TestChoice {
    val: i32,
}

impl Choice for TestChoice {
    fn describe(&self) -> String {
        self.val.to_string()
    }
}

#[test]
pub fn test_interface_chooses_preset_options() {
    let mut interface = TestInterface::new(VecDeque::from(vec![0, 1, 0, 2]));
    let options = vec![
        TestChoice { val: 12 },
        TestChoice { val: 42 },
        TestChoice { val: 123 },
    ];
    assert_eq!(interface.choose_from(options.clone()).val, 12);
    assert_eq!(interface.choose_from(options.clone()).val, 42);
    assert_eq!(interface.choose_from(options.clone()).val, 12);
    assert_eq!(interface.choose_from(options.clone()).val, 123);
}

struct Door;

impl ConstantChoice for Door {
    fn describe_str(&self) -> &str {
        "Try the door."
    }
}

#[test]
pub fn constant_choices_describe_themselves() {
    assert_eq!(Door.describe(), "Try the door.");
}

struct FirstOption {
    lines: Vec<String>,
}

impl Interface for FirstOption {
    fn write(&mut self, message: &str) {
        self.lines.push(String::from(message));
    }

    fn choose_from<T: Choice>(&mut self, mut choices: Vec<T>) -> T {
        choices.swap_remove(0)
    }
}

#[test]
pub fn any_interface_can_decide_a_turn() {
    let mut frame = CombatFrame::new();
    frame.add_character(Character::new(String::from("Npc"), StatBlock::new()));
    frame.add_character(Character::new_player(String::from("Player"), StatBlock::new()));
    let mut interface = FirstOption { lines: Vec::new() };
    assert!(frame.take_turn(&mut interface, 1));
    assert_eq!(interface.lines.len(), 2);
    assert_eq!(interface.lines[1], "Player attacked Npc for 1 damage.");
}

#[test]
pub fn entered_numbers_count_from_one() {
    assert_eq!(selected_position(1, 3), Some(0));
    assert_eq!(selected_position(3, 3), Some(2));
    assert_eq!(selected_position(0, 3), None);
    assert_eq!(selected_position(4, 3), None);
    assert_eq!(selected_position(1, 0), None);
    assert_eq!(selected_position(usize::MAX, usize::MAX), Some(usize::MAX - 1));
}
