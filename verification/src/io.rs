//! The boundary to whoever decides and reads: a line goes out, a choice
//! comes back.

use crate::choice::Choice;
use std::collections::VecDeque;
use vstd::prelude::*;
use vstd::string::StringExecFns;

verus! {

/// A decision source and output sink.
pub trait Interface {
    /// Whether a selection among `options` options can be had from the
    /// interface as it stands.
    open spec fn can_choose(&self, options: nat) -> bool {
        true
    }

    /// Shows a line. What can be chosen afterwards is what could be chosen
    /// before.
    fn write(&mut self, message: &str)
        ensures
            forall|options: nat| final(self).can_choose(options) == old(self).can_choose(options),
    ;

    /// Presents the options and returns the selected one.
    fn choose_from<T: Choice>(&mut self, choices: Vec<T>) -> (chosen: T)
        requires
            old(self).can_choose(choices@.len()),
        ensures
            choices@.contains(chosen),
    ;
}

/// The position that a number entered by a person selects among `options`
/// options. People count from one; any number outside of 1 to `options`
/// selects nothing and has to be asked for again.
pub fn selected_position(entered: usize, options: usize) -> (position: Option<usize>)
    ensures
        position == if 1 <= entered <= options {
            Some((entered - 1) as usize)
        } else {
            None
        },
{
    if entered < 1 || entered > options {
        None
    } else {
        Some(entered - 1)
    }
}

/// An interface that records what is written and selects by a script of
/// positions.
pub struct TestInterface {
    pub written: String,
    pub preset_choices: VecDeque<usize>,
}

impl TestInterface {
    pub fn new(preset_choices: VecDeque<usize>) -> (interface: TestInterface)
        ensures
            interface.written@ == Seq::<char>::empty(),
            interface.preset_choices@ == preset_choices@,
    {
        TestInterface { written: String::new(), preset_choices }
    }
}

impl Interface for TestInterface {
    open spec fn can_choose(&self, options: nat) -> bool {
        self.preset_choices@.len() > 0 && self.preset_choices@[0] < options
    }

    fn write(&mut self, message: &str)
        ensures
            final(self).written@ == old(self).written@ + message@,
            final(self).preset_choices@ == old(self).preset_choices@,
    {
        self.written.append(message);
    }

    fn choose_from<T: Choice>(&mut self, choices: Vec<T>) -> (chosen: T)
        ensures
            chosen == choices@[old(self).preset_choices@[0] as int],
            final(self).preset_choices@ == old(self).preset_choices@.subrange(
                1,
                old(self).preset_choices@.len() as int,
            ),
            final(self).written@ == old(self).written@,
    {
        let mut choices = choices;
        let index = self.preset_choices.pop_front().unwrap();
        choices.swap_remove(index)
    }
}

} // verus!
