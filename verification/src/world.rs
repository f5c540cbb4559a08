//! The world that a story is told about.

use crate::accessible::{AccessPathView, Accessible};
use crate::character::Character;
use crate::stat::StatBlock;
use vstd::prelude::*;
use vstd::string::StringExecFns;

verus! {

pub struct World {
    pub player: Character,
}

impl World {
    /// A world with nothing in it but a player at the minimum of
    /// everything.
    pub fn empty() -> (world: World)
        ensures
            world.player.name_view() == "Player"@,
            world.player.wf(),
            !world.player.is_player(),
    {
        World { player: Character::new(String::from_str("Player"), StatBlock::new()) }
    }
}

impl Accessible for World {
    /// The world has no properties of its own.
    fn lookup_local(&self, property: &str) -> (found: Option<String>)
        ensures
            found is None,
    {
        None
    }

    /// The world's only child is the player, whose only property is its name.
    fn lookup_child(&self, child: &str, path: AccessPathView) -> (found: Option<String>)
        ensures
            match found {
                Some(value) => child@ == "player"@ && path.segments() == seq!["name"@] && value@
                    == self.player.name_view(),
                None => !(child@ == "player"@ && path.segments() == seq!["name"@]),
            },
    {
        if String::from_str(child) == String::from_str("player") {
            let found = self.player.lookup(path);
            proof {
                if path.segments().len() == 1 {
                    assert(path.segments() =~= seq![path.segments()[0]]);
                }
            }
            found
        } else {
            None
        }
    }
}

} // verus!
