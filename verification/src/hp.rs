//! A clamped current/maximum pool of hit points.

use vstd::prelude::*;

verus! {

/// The three states a pool can be read as.
#[derive(Clone, Copy, Debug, PartialEq, Eq, Structural)]
pub enum HitPointState {
    Full,
    Damaged,
    Depleted,
}

/// The mathematical value of a pool.
pub struct Pool {
    pub current: int,
    pub max: int,
}

/// `value` brought into the range from `low` to `high`.
pub open spec fn clamp(value: int, low: int, high: int) -> int {
    if value < low {
        low
    } else if value > high {
        high
    } else {
        value
    }
}

/// A requested maximum, raised to the smallest one a pool may have.
pub open spec fn effective_max(requested: int) -> int {
    if requested <= 0 {
        1
    } else {
        requested
    }
}

impl Pool {
    /// The invariant of every pool: a positive ceiling and a level within it.
    pub open spec fn wf(self) -> bool {
        1 <= self.max && 0 <= self.current <= self.max
    }

    /// A fresh pool, full at the effective maximum.
    pub open spec fn fresh(requested: int) -> Pool {
        Pool { current: effective_max(requested), max: effective_max(requested) }
    }

    pub open spec fn state(self) -> HitPointState {
        if self.current == self.max {
            HitPointState::Full
        } else if self.current == 0 {
            HitPointState::Depleted
        } else {
            HitPointState::Damaged
        }
    }

    /// The pool with its level moved by `delta` and clamped.
    pub open spec fn shifted(self, delta: int) -> Pool {
        Pool { current: clamp(self.current + delta, 0, self.max), max: self.max }
    }

    /// The pool after damage; negative damage leaves it as it is.
    pub open spec fn damaged(self, damage: int) -> Pool {
        if damage < 0 {
            self
        } else {
            self.shifted(-damage)
        }
    }

    /// The pool after healing, which may be negative.
    pub open spec fn healed(self, health: int) -> Pool {
        self.shifted(health)
    }

    pub open spec fn refilled(self) -> Pool {
        Pool { current: self.max, max: self.max }
    }

    /// The pool under a new ceiling: the level only ever moves down to it.
    pub open spec fn with_max(self, requested: int) -> Pool {
        Pool {
            current: if self.current > effective_max(requested) {
                effective_max(requested)
            } else {
                self.current
            },
            max: effective_max(requested),
        }
    }
}

#[derive(Clone, Copy)]
pub struct HitPoints {
    current: i64,
    max: i64,
}

impl View for HitPoints {
    type V = Pool;

    closed spec fn view(&self) -> Pool {
        Pool { current: self.current as int, max: self.max as int }
    }
}

impl HitPoints {
    /// Every pool built through this type's functions is well formed.
    pub open spec fn wf(&self) -> bool {
        self@.wf()
    }

    pub fn new(max: i64) -> (hp: HitPoints)
        ensures
            hp.wf(),
            hp@ == Pool::fresh(max as int),
    {
        let max: i64 = if max <= 0 { 1 } else { max };
        HitPoints { current: max, max }
    }

    pub fn current(&self) -> (current: i64)
        ensures
            current == self@.current,
    {
        self.current
    }

    pub fn max(&self) -> (max: i64)
        ensures
            max == self@.max,
    {
        self.max
    }

    pub fn state(&self) -> (state: HitPointState)
        ensures
            state == self@.state(),
    {
        if self.current == self.max {
            HitPointState::Full
        } else if self.current == 0 {
            HitPointState::Depleted
        } else {
            HitPointState::Damaged
        }
    }

    /// Negative damage is ignored.
    pub fn take_damage(&mut self, damage: i64) -> (state: HitPointState)
        requires
            old(self).wf(),
        ensures
            final(self).wf(),
            final(self)@ == old(self)@.damaged(damage as int),
            state == final(self)@.state(),
    {
        if damage < 0 {
            return self.state();
        }
        self.set_current(self.current as i128 - damage as i128);
        self.state()
    }

    /// Negative healing is expected: certain kinds of resistance lead to it.
    pub fn heal(&mut self, health: i64) -> (state: HitPointState)
        requires
            old(self).wf(),
        ensures
            final(self).wf(),
            final(self)@ == old(self)@.healed(health as int),
            state == final(self)@.state(),
    {
        self.set_current(self.current as i128 + health as i128);
        self.state()
    }

    /// Afterwards `state` reads `Full`.
    pub fn heal_fully(&mut self)
        requires
            old(self).wf(),
        ensures
            final(self).wf(),
            final(self)@ == old(self)@.refilled(),
            final(self)@.state() == HitPointState::Full,
    {
        self.current = self.max;
    }

    pub fn set_max(&mut self, new_max: i64)
        requires
            old(self).wf(),
        ensures
            final(self).wf(),
            final(self)@ == old(self)@.with_max(new_max as int),
    {
        let new_max: i64 = if new_max <= 0 { 1 } else { new_max };
        self.max = new_max;
        if self.current > self.max {
            self.current = self.max;
        }
    }

    fn set_current(&mut self, new_hp: i128)
        requires
            old(self).wf(),
        ensures
            final(self).wf(),
            final(self)@.max == old(self)@.max,
            final(self)@.current == clamp(new_hp as int, 0, old(self)@.max),
    {
        if new_hp < 0 {
            self.current = 0;
        } else if new_hp > self.max as i128 {
            self.current = self.max;
        } else {
            self.current = new_hp as i64;
        }
    }
}

/// Damage followed by healing of the same amount brings a pool back to
/// where it was, whenever the damage did not exceed the level or the pool
/// was full.
pub proof fn lemma_damage_then_heal(pool: Pool, amount: int)
    requires
        pool.wf(),
        amount >= 0,
        amount <= pool.current || pool.current == pool.max,
    ensures
        pool.damaged(amount).healed(amount) == pool,
{
}

/// Damage followed by healing of the same amount ends at the level before
/// the damage where the damage did not exceed it, and else at the amount,
/// capped by the ceiling.
pub proof fn lemma_damage_then_heal_level(pool: Pool, amount: int)
    requires
        pool.wf(),
        amount >= 0,
    ensures
        pool.damaged(amount).healed(amount).max == pool.max,
        pool.damaged(amount).healed(amount).current == if amount <= pool.current {
            pool.current
        } else {
            clamp(amount, 0, pool.max)
        },
{
}

/// A non-positive ceiling leaves a pool with ceiling 1 and a level of at
/// most 1.
pub proof fn lemma_non_positive_max(pool: Pool, requested: int)
    requires
        pool.wf(),
        requested <= 0,
    ensures
        pool.with_max(requested).max == 1,
        pool.with_max(requested).current <= 1,
        pool.with_max(requested).current == if pool.current == 0 { 0int } else { 1int },
        pool.with_max(requested).wf(),
{
}

/// Every operation keeps a well-formed pool well formed.
pub proof fn lemma_operations_keep_wf(pool: Pool, amount: int)
    requires
        pool.wf(),
    ensures
        Pool::fresh(amount).wf(),
        pool.damaged(amount).wf(),
        pool.healed(amount).wf(),
        pool.refilled().wf(),
        pool.with_max(amount).wf(),
{
}

} // verus!
