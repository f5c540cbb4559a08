//! Turn-based combat: a roster in a fixed order, actions that are resolved
//! against it, and the test for its end.

use crate::character::Character;
use crate::choice::Choice;
use crate::hp::HitPointState;
use crate::io::Interface;
use crate::stat::{derived_value, StatKind};
use crate::table::{rendered, Column, ColumnAlignment, Table};
use crate::text::{decimal, decimal_string};
use vstd::prelude::*;
use vstd::string::StringExecFns;

verus! {

/// A character referred to by name. The name is looked up in the roster
/// when an action is resolved.
pub struct Target {
    name: String,
}

impl View for Target {
    type V = Seq<char>;

    closed spec fn view(&self) -> Seq<char> {
        self.name@
    }
}

impl Target {
    pub fn target_character(character: &Character) -> (target: Target)
        ensures
            target@ == character.name_view(),
    {
        Target { name: character.name().clone() }
    }

    /// The name that the target stands for.
    pub fn name(&self) -> (name: &str)
        ensures
            name@ == self@,
    {
        self.name.as_str()
    }
}

pub enum Action {
    Attack(Target),
    Idle,
}

/// The mathematical value of an action.
pub enum ActionView {
    Attack(Seq<char>),
    Idle,
}

impl View for Action {
    type V = ActionView;

    open spec fn view(&self) -> ActionView {
        match self {
            Action::Attack(target) => ActionView::Attack(target@),
            Action::Idle => ActionView::Idle,
        }
    }
}

impl Action {
    /// The text under which the action is offered.
    pub open spec fn description(&self) -> Seq<char> {
        match self {
            Action::Attack(target) => "Attack "@ + target@,
            Action::Idle => "Do nothing"@,
        }
    }
}

impl Choice for Action {
    fn describe(&self) -> (text: String)
        ensures
            text@ == self.description(),
    {
        match self {
            Action::Attack(target) => {
                let mut text = String::from_str("Attack ");
                text.append(target.name());
                text
            },
            Action::Idle => String::from_str("Do nothing"),
        }
    }
}

/// The first position among the first `upto` of a roster that holds a
/// character of the given name.
pub open spec fn position(roster: Seq<Character>, name: Seq<char>, upto: int) -> Option<int>
    decreases upto,
{
    if upto <= 0 {
        None
    } else {
        match position(roster, name, upto - 1) {
            Some(i) => Some(i),
            None => if roster[upto - 1].name_view() == name {
                Some(upto - 1)
            } else {
                None
            },
        }
    }
}

/// The position that a name resolves to in a roster.
pub open spec fn target_position(roster: Seq<Character>, name: Seq<char>) -> Option<int> {
    position(roster, name, roster.len() as int)
}

/// The damage of an attack: one more than the attacker's derived Strength.
pub open spec fn attack_damage(attacker: Character) -> int {
    1 + derived_value(attacker.stats_view()[0], attacker.stats_view())
}

/// Whether the character at a position of a roster is left standing: its
/// hit points are not depleted.
pub open spec fn stands(roster: Seq<Character>, i: int) -> bool {
    roster[i].pool().state() != HitPointState::Depleted
}

/// The number of characters among the first `upto` that are left standing.
pub open spec fn standing(roster: Seq<Character>, upto: int) -> int
    decreases upto,
{
    if upto <= 0 {
        0
    } else {
        standing(roster, upto - 1) + if stands(roster, upto - 1) {
            1int
        } else {
            0int
        }
    }
}

/// Combat is over when at most one character is left standing.
pub open spec fn combat_over(roster: Seq<Character>) -> bool {
    standing(roster, roster.len() as int) <= 1
}

/// The invariant of a roster: valid characters whose stored ceilings are
/// what their stats give.
pub open spec fn roster_wf(roster: Seq<Character>) -> bool {
    forall|i: int| 0 <= i < roster.len() ==> (#[trigger] roster[i]).wf() && roster[i].in_sync()
}

/// `after` is `before` with nothing changed but the stored hit points.
pub open spec fn same_but_pool(before: Character, after: Character) -> bool {
    &&& after.name_view() == before.name_view()
    &&& after.stats_view() == before.stats_view()
    &&& after.is_player() == before.is_player()
}

/// `after` is what resolving `action` for the character at `actor` makes of
/// `before`: an attack whose target is found takes the damage from the
/// target's hit points; nothing else ever changes.
pub open spec fn resolved(
    before: Seq<Character>,
    after: Seq<Character>,
    actor: int,
    action: ActionView,
) -> bool {
    &&& after.len() == before.len()
    &&& match action {
        ActionView::Attack(name) => match target_position(before, name) {
            Some(target) => {
                &&& forall|i: int| 0 <= i < before.len() && i != target ==> after[i] == before[i]
                &&& same_but_pool(before[target], after[target])
                &&& after[target].pool() == before[target].pool().damaged(
                    attack_damage(before[actor]),
                )
            },
            None => after == before,
        },
        ActionView::Idle => after == before,
    }
}

pub open spec fn attack_line(attacker: Seq<char>, target: Seq<char>, damage: int) -> Seq<char> {
    attacker + " attacked "@ + target + " for "@ + decimal(damage) + " damage."@
}

pub open spec fn miss_line(attacker: Seq<char>) -> Seq<char> {
    attacker + " tried to attack something nonexistent."@
}

pub open spec fn idle_line(attacker: Seq<char>) -> Seq<char> {
    attacker + " dawdles."@
}

/// The line that tells of an action resolved against a roster.
pub open spec fn action_line(roster: Seq<Character>, actor: int, action: ActionView) -> Seq<char> {
    match action {
        ActionView::Attack(name) => match target_position(roster, name) {
            Some(target) => attack_line(roster[actor].name_view(), name, attack_damage(roster[actor])),
            None => miss_line(roster[actor].name_view()),
        },
        ActionView::Idle => idle_line(roster[actor].name_view()),
    }
}

/// The row of the status table for one character.
pub open spec fn status_row(character: Character) -> Seq<Seq<char>> {
    seq![
        character.name_view(),
        decimal(character.refreshed_pool().current),
        decimal(character.refreshed_pool().max),
    ]
}

pub open spec fn status_rows(roster: Seq<Character>) -> Seq<Seq<Seq<char>>> {
    Seq::new(roster.len(), |i: int| status_row(roster[i]))
}

/// The status table of a roster: name, hit points and their ceiling.
pub open spec fn status_text(roster: Seq<Character>) -> Seq<char> {
    rendered(
        seq![seq!["Name"@, "HP"@, "Max HP"@]] + status_rows(roster),
        seq![ColumnAlignment::Left, ColumnAlignment::Right, ColumnAlignment::Right],
    )
}

impl Action {
    /// Resolves the action for the character at `actor` and returns the
    /// line that tells of it.
    pub fn resolve(&self, actor: usize, combat_frame: &mut CombatFrame) -> (line: String)
        requires
            old(combat_frame).wf(),
            actor < old(combat_frame).roster().len(),
        ensures
            final(combat_frame).wf(),
            resolved(
                old(combat_frame).roster(),
                final(combat_frame).roster(),
                actor as int,
                self@,
            ),
            line@ == action_line(old(combat_frame).roster(), actor as int, self@),
    {
        let ghost before = combat_frame.roster();
        match self {
            Action::Attack(target) => {
                match combat_frame.find_target(target) {
                    Some(target_index) => {
                        let actor_character = &combat_frame.characters[actor];
                        let strength: i64 = actor_character.stats().stat(StatKind::Strength).value(
                            actor_character.stats(),
                        );
                        let damage: i64 = 1 + strength;
                        let mut line = String::from_str(actor_character.name().as_str());
                        combat_frame.characters[target_index].hitpoints().take_damage(damage);
                        line.append(" attacked ");
                        line.append(target.name());
                        line.append(" for ");
                        line.append(decimal_string(damage).as_str());
                        line.append(" damage.");
                        proof {
                            let after = combat_frame.roster();
                            assert(after[target_index as int].pool() == before[target_index as int].pool().damaged(
                                damage as int,
                            ));
                            assert(after[target_index as int].in_sync());
                        }
                        line
                    },
                    None => {
                        // Missed.
                        let mut line = String::from_str(combat_frame.characters[actor].name().as_str());
                        line.append(" tried to attack something nonexistent.");
                        line
                    },
                }
            },
            Action::Idle => {
                let mut line = String::from_str(combat_frame.characters[actor].name().as_str());
                line.append(" dawdles.");
                line
            },
        }
    }

    /// Resolves the action and writes the line that tells of it, in one
    /// call of `write`.
    pub fn run<I: Interface>(&self, interface: &mut I, actor: usize, combat_frame: &mut CombatFrame)
        requires
            old(combat_frame).wf(),
            actor < old(combat_frame).roster().len(),
        ensures
            final(combat_frame).wf(),
            resolved(
                old(combat_frame).roster(),
                final(combat_frame).roster(),
                actor as int,
                self@,
            ),
            exists|shown: &mut I, text: &str|
                *shown == *old(interface) && *final(shown) == *final(interface) && text@
                    == action_line(old(combat_frame).roster(), actor as int, self@)
                    && #[trigger] call_ensures(I::write, (shown, text), ()),
            forall|options: nat|
                final(interface).can_choose(options) == old(interface).can_choose(options),
    {
        let line = self.resolve(actor, combat_frame);
        interface.write(line.as_str());
    }
}

pub struct CombatFrame {
    characters: Vec<Character>,
}

impl CombatFrame {
    /// The characters in turn order.
    pub closed spec fn roster(&self) -> Seq<Character> {
        self.characters@
    }

    pub open spec fn wf(&self) -> bool {
        roster_wf(self.roster())
    }

    pub fn new() -> (frame: CombatFrame)
        ensures
            frame.roster().len() == 0,
            frame.wf(),
    {
        CombatFrame { characters: Vec::new() }
    }

    /// Puts a character at the end of the turn order. Its stored ceiling is
    /// brought to what its stats give, as every later access would do.
    pub fn add_character(&mut self, character: Character)
        requires
            old(self).wf(),
            character.wf(),
        ensures
            final(self).wf(),
            final(self).roster().len() == old(self).roster().len() + 1,
            forall|i: int|
                0 <= i < old(self).roster().len() ==> final(self).roster()[i] == old(
                    self,
                ).roster()[i],
            same_but_pool(character, final(self).roster().last()),
            final(self).roster().last().pool() == character.refreshed_pool(),
    {
        let mut character = character;
        let _ = character.hitpoints();
        self.characters.push(character);
    }

    pub fn len(&self) -> (len: usize)
        ensures
            len == self.roster().len(),
    {
        self.characters.len()
    }

    /// The character at a position of the turn order.
    pub fn character(&self, index: usize) -> (character: &Character)
        requires
            index < self.roster().len(),
        ensures
            *character == self.roster()[index as int],
    {
        &self.characters[index]
    }

    /// Ends the session and hands the characters back, in turn order.
    pub fn into_characters(self) -> (characters: Vec<Character>)
        ensures
            characters@ == self.roster(),
    {
        self.characters
    }

    /// Whose turn it is after the turn of the character at `actor`: the
    /// next one in the order in which the characters were added, and after
    /// the last one the first one again.
    pub fn next_actor(&self, actor: usize) -> (next: usize)
        requires
            actor < self.roster().len(),
        ensures
            next == if actor + 1 == self.roster().len() {
                0
            } else {
                actor + 1
            },
            next < self.roster().len(),
    {
        if actor == self.characters.len() - 1 {
            0
        } else {
            actor + 1
        }
    }

    /// Whether at most one character is left standing.
    pub fn finished(&self) -> (over: bool)
        requires
            self.wf(),
        ensures
            over == combat_over(self.roster()),
    {
        let mut depleted_count: usize = 0;
        let mut i: usize = 0;
        while i < self.characters.len()
            invariant
                i <= self.characters@.len(),
                self.wf(),
                depleted_count + standing(self.roster(), i as int) == i,
                0 <= standing(self.roster(), i as int),
            decreases self.characters@.len() - i,
        {
            if self.characters[i].hitpoints_snapshot().state() == HitPointState::Depleted {
                depleted_count = depleted_count + 1;
            }
            i = i + 1;
        }
        self.characters.len() - depleted_count <= 1
    }

    pub fn find_target(&self, target: &Target) -> (found: Option<usize>)
        ensures
            match found {
                Some(i) => target_position(self.roster(), target@) == Some(i as int) && i
                    < self.roster().len(),
                None => target_position(self.roster(), target@) == None::<int>,
            },
    {
        let mut i: usize = 0;
        while i < self.characters.len()
            invariant
                i <= self.characters@.len(),
                position(self.roster(), target@, i as int) == None::<int>,
            decreases self.characters@.len() - i,
        {
            if *self.characters[i].name() == target.name {
                proof {
                    lemma_position_stays(self.roster(), target@, i + 1, self.roster().len() as int);
                }
                return Some(i);
            }
            i = i + 1;
        }
        None
    }

    pub fn find_target_character(&self, target: &Target) -> (found: Option<&Character>)
        ensures
            match found {
                Some(character) => target_position(self.roster(), target@) is Some
                    && *character == self.roster()[target_position(self.roster(), target@).unwrap()],
                None => target_position(self.roster(), target@) == None::<int>,
            },
    {
        match self.find_target(target) {
            Some(i) => Some(&self.characters[i]),
            None => None,
        }
    }

    /// The status table: one row per character, in turn order.
    pub fn status_table(&self) -> (text: String)
        requires
            self.wf(),
        ensures
            text@ == status_text(self.roster()),
    {
        proof {
            reveal_strlit("Name");
            reveal_strlit("HP");
            reveal_strlit("Max HP");
        }
        let mut columns: Vec<Column<'static>> = Vec::new();
        columns.push(Column { name: "Name", alignment: ColumnAlignment::Left });
        columns.push(Column { name: "HP", alignment: ColumnAlignment::Right });
        columns.push(Column { name: "Max HP", alignment: ColumnAlignment::Right });
        let table = Table { columns };
        let mut rows: Vec<Vec<String>> = Vec::new();
        let mut i: usize = 0;
        while i < self.characters.len()
            invariant
                i <= self.characters@.len(),
                self.wf(),
                rows@.len() == i,
                forall|r: int| 0 <= r < i ==> (#[trigger] rows@[r])@.len() == 3,
                forall|r: int|
                    0 <= r < i ==> crate::table::cells_of(rows@)[r] =~= status_row(
                        #[trigger] self.roster()[r],
                    ),
            decreases self.characters@.len() - i,
        {
            let character = &self.characters[i];
            let snapshot = character.hitpoints_snapshot();
            let mut row: Vec<String> = Vec::new();
            row.push(character.name().clone());
            row.push(decimal_string(snapshot.current()));
            row.push(decimal_string(snapshot.max()));
            rows.push(row);
            i = i + 1;
        }
        proof {
            assert(crate::table::cells_of(rows@) =~= status_rows(self.roster()));
            assert(table.header() =~= seq!["Name"@, "HP"@, "Max HP"@]);
            assert(table.alignments() =~= seq![
                ColumnAlignment::Left,
                ColumnAlignment::Right,
                ColumnAlignment::Right,
            ]);
        }
        table.render(rows)
    }

    /// Writes the status table, in one call of `write`.
    pub fn summarize_status<I: Interface>(&self, interface: &mut I)
        requires
            self.wf(),
        ensures
            exists|shown: &mut I, text: &str|
                *shown == *old(interface) && *final(shown) == *final(interface) && text@
                    == status_text(self.roster()) && #[trigger] call_ensures(
                    I::write,
                    (shown, text),
                    (),
                ),
            forall|options: nat|
                final(interface).can_choose(options) == old(interface).can_choose(options),
    {
        let text = self.status_table();
        interface.write(text.as_str());
    }

    /// The characters as targets, in turn order.
    pub fn list_targets(&self) -> (targets: Vec<Target>)
        ensures
            targets@.len() == self.roster().len(),
            forall|i: int|
                0 <= i < targets@.len() ==> (#[trigger] targets@[i])@ == self.roster()[i].name_view(),
    {
        let mut targets: Vec<Target> = Vec::new();
        let mut i: usize = 0;
        while i < self.characters.len()
            invariant
                i <= self.characters@.len(),
                targets@.len() == i,
                forall|j: int|
                    0 <= j < i ==> (#[trigger] targets@[j])@ == self.roster()[j].name_view(),
            decreases self.characters@.len() - i,
        {
            targets.push(Target::target_character(&self.characters[i]));
            i = i + 1;
        }
        targets
    }

    /// What a player is offered: an attack on each character, itself
    /// included, in turn order.
    pub fn attack_options(&self) -> (options: Vec<Action>)
        ensures
            options@.len() == self.roster().len(),
            forall|i: int|
                0 <= i < options@.len() ==> (#[trigger] options@[i])@ == ActionView::Attack(
                    self.roster()[i].name_view(),
                ),
    {
        let mut options: Vec<Action> = Vec::new();
        let mut i: usize = 0;
        while i < self.characters.len()
            invariant
                i <= self.characters@.len(),
                options@.len() == i,
                forall|j: int|
                    0 <= j < i ==> (#[trigger] options@[j])@ == ActionView::Attack(
                        self.roster()[j].name_view(),
                    ),
            decreases self.characters@.len() - i,
        {
            options.push(Action::Attack(Target::target_character(&self.characters[i])));
            i = i + 1;
        }
        options
    }

    /// One turn of the character at `actor`: the status is written, the
    /// character's action is had and resolved, and the line that tells of
    /// it is written. Returns whether combat is over after it.
    ///
    /// The interface sees one call of `write` with the status table, then
    /// for a player the question, then one call of `write` with the line
    /// of the action: an attack on a character of the player's choice, or
    /// else on the acting character itself.
    pub fn take_turn<I: Interface>(&mut self, interface: &mut I, actor: usize) -> (over: bool)
        requires
            old(self).wf(),
            actor < old(self).roster().len(),
            old(self).roster()[actor as int].is_player() ==> old(interface).can_choose(
                old(self).roster().len(),
            ),
        ensures
            final(self).wf(),
            over == combat_over(final(self).roster()),
            exists|shown: &mut I, table: &str, told: &mut I, line: &str, action: ActionView|
                #![trigger
                    call_ensures(I::write, (shown, table), ()),
                    call_ensures(I::write, (told, line), ()),
                    action_line(old(self).roster(), actor as int, action),
                ]
                {
                    &&& *shown == *old(interface)
                    &&& table@ == status_text(old(self).roster())
                    &&& call_ensures(I::write, (shown, table), ())
                    &&& old(self).roster()[actor as int].is_player() ==> exists|i: int|
                        0 <= i < old(self).roster().len() && action == ActionView::Attack(
                            #[trigger] old(self).roster()[i].name_view(),
                        )
                    &&& !old(self).roster()[actor as int].is_player() ==> {
                        &&& action == ActionView::Attack(
                            old(self).roster()[actor as int].name_view(),
                        )
                        &&& *told == *final(shown)
                    }
                    &&& resolved(old(self).roster(), final(self).roster(), actor as int, action)
                    &&& line@ == action_line(old(self).roster(), actor as int, action)
                    &&& call_ensures(I::write, (told, line), ())
                    &&& *final(told) == *final(interface)
                },
    {
        self.summarize_status(interface);
        let action = self.characters[actor].act(interface, &*self);
        action.run(interface, actor, self);
        self.finished()
    }
}

/// Once a name is found among the first `upto` characters, it is found at
/// the same position among any more.
pub proof fn lemma_position_stays(roster: Seq<Character>, name: Seq<char>, upto: int, more: int)
    requires
        upto <= more,
        position(roster, name, upto) is Some,
    ensures
        position(roster, name, more) == position(roster, name, upto),
    decreases more - upto,
{
    if upto < more {
        lemma_position_stays(roster, name, upto, more - 1);
    }
}

/// A name resolves to the first character that bears it, and to none
/// exactly when no character does.
pub proof fn lemma_target_position(roster: Seq<Character>, name: Seq<char>, upto: int)
    requires
        0 <= upto <= roster.len(),
    ensures
        match position(roster, name, upto) {
            Some(i) => 0 <= i < upto && roster[i].name_view() == name && forall|j: int|
                0 <= j < i ==> (#[trigger] roster[j]).name_view() != name,
            None => forall|j: int| 0 <= j < upto ==> (#[trigger] roster[j]).name_view() != name,
        },
    decreases upto,
{
    if upto > 0 {
        lemma_target_position(roster, name, upto - 1);
    }
}

/// The count of the standing is at least the number of standing
/// characters one can point at: none, one or two.
proof fn lemma_standing_counts(roster: Seq<Character>, upto: int)
    requires
        0 <= upto <= roster.len(),
    ensures
        0 <= standing(roster, upto) <= upto,
        standing(roster, upto) == 0 <==> forall|i: int| 0 <= i < upto ==> !stands(roster, i),
        standing(roster, upto) <= 1 <==> forall|i: int, j: int|
            0 <= i < j < upto ==> !stands(roster, i) || !stands(roster, j),
    decreases upto,
{
    if upto > 0 {
        lemma_standing_counts(roster, upto - 1);
        if standing(roster, upto) == 0 {
            assert(!stands(roster, upto - 1));
        }
        if standing(roster, upto) <= 1 {
            assert forall|i: int, j: int| 0 <= i < j < upto implies !stands(roster, i) || !stands(
                roster,
                j,
            ) by {
                if j == upto - 1 && stands(roster, j) {
                    assert(standing(roster, upto - 1) == 0);
                }
            }
        } else {
            // Two are standing: either both among the earlier ones, or the
            // last one and an earlier one.
            if standing(roster, upto - 1) <= 1 {
                assert(stands(roster, upto - 1));
                assert(standing(roster, upto - 1) == 1);
                let i = choose|i: int| 0 <= i < upto - 1 && stands(roster, i);
                assert(stands(roster, i) && stands(roster, upto - 1));
            } else {
                let (i, j) = choose|i: int, j: int|
                    0 <= i < j < upto - 1 && stands(roster, i) && stands(roster, j);
                assert(stands(roster, i) && stands(roster, j));
            }
        }
    }
}

/// Combat is over exactly when no two characters are left standing, and a
/// valid character stands exactly when its hit points are not at zero.
pub proof fn lemma_combat_over(roster: Seq<Character>)
    ensures
        combat_over(roster) <==> forall|i: int, j: int|
            0 <= i < j < roster.len() ==> !stands(roster, i) || !stands(roster, j),
        forall|i: int|
            0 <= i < roster.len() && (#[trigger] roster[i]).wf() ==> (stands(roster, i)
                <==> roster[i].pool().current != 0),
{
    lemma_standing_counts(roster, roster.len() as int);
}

} // verus!
