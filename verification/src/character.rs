//! A combatant: a name, a set of stats, the hit points they give and who
//! decides for it.

use crate::accessible::Accessible;
use crate::combat::{Action, ActionView, CombatFrame, Target};
use crate::hp::{effective_max, HitPoints, Pool};
use crate::io::Interface;
use crate::stat::{lemma_max_hp, spec_max_hp, stats_wf, StatBlock, StatValue};
use vstd::prelude::*;
use vstd::string::StringExecFns;

verus! {

/// Who decides for a character.
#[derive(Clone, Copy, Debug, PartialEq, Eq, Structural)]
pub enum Controller {
    Player,
    Ai,
}

pub struct Character {
    pub name: String,
    pub stats: StatBlock,
    hitpoints: HitPoints,
    controller: Controller,
}

impl Character {
    /// The hit points as they are stored.
    pub closed spec fn pool(&self) -> Pool {
        self.hitpoints@
    }

    pub closed spec fn is_player(&self) -> bool {
        self.controller == Controller::Player
    }

    pub closed spec fn name_view(&self) -> Seq<char> {
        self.name@
    }

    pub closed spec fn stats_view(&self) -> Seq<StatValue> {
        self.stats@
    }

    pub open spec fn wf(&self) -> bool {
        stats_wf(self.stats_view()) && self.pool().wf()
    }

    /// The hit points as every access sees them: under the ceiling that the
    /// stats give at that moment.
    pub open spec fn refreshed_pool(&self) -> Pool {
        self.pool().with_max(spec_max_hp(self.stats_view()))
    }

    /// Whether the stored ceiling is the one that the stats give.
    pub open spec fn in_sync(&self) -> bool {
        self.pool().max == effective_max(spec_max_hp(self.stats_view()))
    }

    /// A character that decides for itself, at full health.
    pub fn new(name: String, stats: StatBlock) -> (character: Character)
        requires
            stats.wf(),
        ensures
            character.name_view() == name@,
            character.stats_view() == stats@,
            character.pool() == Pool::fresh(spec_max_hp(stats@)),
            !character.is_player(),
            character.wf(),
            character.in_sync(),
    {
        Character { name, stats, hitpoints: HitPoints::new(stats.max_hp()), controller: Controller::Ai }
    }

    /// A character for whom the interface decides, at full health.
    pub fn new_player(name: String, stats: StatBlock) -> (character: Character)
        requires
            stats.wf(),
        ensures
            character.name_view() == name@,
            character.stats_view() == stats@,
            character.pool() == Pool::fresh(spec_max_hp(stats@)),
            character.is_player(),
            character.wf(),
            character.in_sync(),
    {
        let mut character = Character::new(name, stats);
        character.controller = Controller::Player;
        character
    }

    /// The hit points, their ceiling first brought to what the stats give;
    /// a level above the new ceiling comes down to it.
    pub fn hitpoints(&mut self) -> (hitpoints: &mut HitPoints)
        requires
            old(self).wf(),
        ensures
            hitpoints@ == old(self).refreshed_pool(),
            hitpoints@.max == effective_max(spec_max_hp(old(self).stats_view())),
            hitpoints.wf(),
            final(self).name_view() == old(self).name_view(),
            final(self).stats_view() == old(self).stats_view(),
            final(self).is_player() == old(self).is_player(),
            final(self).pool() == final(hitpoints)@,
    {
        let max_hp = self.stats.max_hp();
        self.hitpoints.set_max(max_hp);
        &mut self.hitpoints
    }

    /// A copy of the hit points as `hitpoints` would give them.
    pub fn hitpoints_snapshot(&self) -> (hitpoints: HitPoints)
        requires
            self.wf(),
        ensures
            hitpoints@ == self.refreshed_pool(),
            hitpoints.wf(),
    {
        let mut hitpoints = self.hitpoints;
        hitpoints.set_max(self.stats.max_hp());
        hitpoints
    }

    pub fn name(&self) -> (name: &String)
        ensures
            name@ == self.name_view(),
    {
        &self.name
    }

    pub fn stats(&self) -> (stats: &StatBlock)
        ensures
            stats@ == self.stats_view(),
    {
        &self.stats
    }

    /// The stats, for change. The hit points follow on their next access.
    pub fn stats_mut(&mut self) -> (stats: &mut StatBlock)
        ensures
            stats@ == old(self).stats_view(),
            final(self).stats_view() == final(stats)@,
            final(self).name_view() == old(self).name_view(),
            final(self).pool() == old(self).pool(),
            final(self).is_player() == old(self).is_player(),
    {
        &mut self.stats
    }

    pub fn is_player_controlled(&self) -> (player: bool)
        ensures
            player == self.is_player(),
    {
        match self.controller {
            Controller::Player => true,
            Controller::Ai => false,
        }
    }

    /// The action of this character's turn. A player's comes from the
    /// interface and attacks one of the frame's characters; any other
    /// character attacks itself.
    pub fn act<I: Interface>(&self, interface: &mut I, combat_frame: &CombatFrame) -> (action:
        Action)
        requires
            self.is_player() ==> old(interface).can_choose(combat_frame.roster().len()),
        ensures
            !self.is_player() ==> action@ == ActionView::Attack(self.name_view()),
            self.is_player() ==> exists|i: int|
                0 <= i < combat_frame.roster().len() && action@ == ActionView::Attack(
                    #[trigger] combat_frame.roster()[i].name_view(),
                ),
            !self.is_player() ==> *final(interface) == *old(interface),
    {
        match self.controller {
            Controller::Player => self.ask_player_for_action(interface, combat_frame),
            Controller::Ai => self.select_action_for_npc(combat_frame),
        }
    }

    fn ask_player_for_action<I: Interface>(
        &self,
        interface: &mut I,
        combat_frame: &CombatFrame,
    ) -> (action: Action)
        requires
            old(interface).can_choose(combat_frame.roster().len()),
        ensures
            exists|i: int|
                0 <= i < combat_frame.roster().len() && action@ == ActionView::Attack(
                    #[trigger] combat_frame.roster()[i].name_view(),
                ),
    {
        let options = combat_frame.attack_options();
        let action = interface.choose_from(options);
        proof {
            let i = choose|i: int| 0 <= i < options@.len() && options@[i] == action;
            assert(action@ == ActionView::Attack(combat_frame.roster()[i].name_view()));
        }
        action
    }

    fn select_action_for_npc(&self, combat_frame: &CombatFrame) -> (action: Action)
        ensures
            action@ == ActionView::Attack(self.name_view()),
    {
        Action::Attack(Target::target_character(self))
    }
}

impl Accessible for Character {
    /// A character's one property is its name.
    fn lookup_local(&self, property: &str) -> (found: Option<String>)
        ensures
            property@ == "name"@ ==> (found matches Some(name) && name@ == self.name_view()),
            property@ != "name"@ ==> found is None,
    {
        if String::from_str(property) == String::from_str("name") {
            Some(self.name.clone())
        } else {
            None
        }
    }
}

/// On every access the ceiling of a character's hit points is what its
/// stats give at that moment, one at the least, and the level is what it
/// was unless that was above the ceiling.
pub proof fn lemma_ceiling_follows_stats(character: Character)
    requires
        character.wf(),
    ensures
        character.refreshed_pool().wf(),
        character.refreshed_pool().max == effective_max(spec_max_hp(character.stats_view())),
        character.refreshed_pool().current == if character.pool().current
            > character.refreshed_pool().max {
            character.refreshed_pool().max
        } else {
            character.pool().current
        },
        character.in_sync() ==> character.refreshed_pool() == character.pool(),
{
    lemma_max_hp(character.stats_view());
}

} // verus!
