//! What a turret shoots at.

use vstd::prelude::*;

verus! {

/// The health that a monster starts with.
pub const FULL_HEALTH: i16 = 100;

/// The name and the health of a monster. Where it is and how it moves is for the world
/// that it walks in.
pub struct Monster {
    identifier: String,
    alive: bool,
    health: i16,
}

/// What a [`Monster`] stands for.
pub struct MonsterState {
    pub identifier: Seq<char>,
    pub alive: bool,
    pub health: int,
}

impl MonsterState {
    /// A monster in full health.
    pub open spec fn fresh(identifier: Seq<char>) -> MonsterState {
        MonsterState { identifier, alive: true, health: FULL_HEALTH as int }
    }

    /// The monster is hit. While it has health left, the hit takes `amount` of it, be it
    /// more than is left. A monster with no health left is destroyed by the hit.
    pub open spec fn hit(self, amount: nat) -> MonsterState {
        if self.health <= 0 {
            self.destroy()
        } else {
            MonsterState { health: self.health - amount, ..self }
        }
    }

    /// The monster is taken out of the game.
    pub open spec fn destroy(self) -> MonsterState {
        MonsterState { alive: false, ..self }
    }

    /// The monster after `hits` hits of `amount` each.
    pub open spec fn hit_times(self, amount: nat, hits: nat) -> MonsterState
        decreases hits,
    {
        if hits == 0 {
            self
        } else {
            self.hit_times(amount, (hits - 1) as nat).hit(amount)
        }
    }
}

/// A monster that is hit again and again with the same force lives through exactly as
/// many hits as it takes to use its health up, and is destroyed by the next.
pub proof fn lemma_hits_until_destroyed(monster: MonsterState, amount: nat, hits: nat)
    requires
        monster.alive,
        monster.health > 0,
        amount > 0,
    ensures
        monster.hit_times(amount, hits).alive <==> (hits as int - 1) * amount < monster.health,
        monster.hit_times(amount, hits).identifier == monster.identifier,
    decreases hits,
{
    lemma_health_after_hits(monster, amount, hits);
    if hits > 0 {
        lemma_health_after_hits(monster, amount, (hits - 1) as nat);
        lemma_hits_until_destroyed(monster, amount, (hits - 1) as nat);
        if hits > 1 {
            assert((hits as int - 2) * amount <= (hits as int - 1) * amount) by (nonlinear_arith)
                requires
                    amount >= 0,
            ;
        }
    }
}

/// The health after a run of hits: each hit that found health left has taken its toll.
proof fn lemma_health_after_hits(monster: MonsterState, amount: nat, hits: nat)
    requires
        monster.health > 0,
        amount > 0,
    ensures
        (hits as int - 1) * amount < monster.health ==> monster.hit_times(amount, hits).health
            == monster.health - hits * amount,
        (hits as int - 1) * amount >= monster.health ==> monster.hit_times(amount, hits).health
            <= 0,
    decreases hits,
{
    if hits == 0 {
        assert(hits * amount == 0) by (nonlinear_arith)
            requires
                hits == 0,
        ;
    } else {
        let fewer = (hits - 1) as nat;
        lemma_health_after_hits(monster, amount, fewer);
        assert(hits * amount == fewer * amount + amount) by (nonlinear_arith)
            requires
                hits == fewer + 1,
        ;
        assert((fewer as int - 1) * amount == fewer * amount - amount) by (nonlinear_arith);
        assert((hits as int - 1) * amount == fewer * amount) by (nonlinear_arith)
            requires
                hits == fewer + 1,
        ;
    }
}

impl View for Monster {
    type V = MonsterState;

    closed spec fn view(&self) -> MonsterState {
        MonsterState {
            identifier: self.identifier@,
            alive: self.alive,
            health: self.health as int,
        }
    }
}

impl Monster {
    /// A monster in full health.
    pub fn new(identifier: String) -> (monster: Self)
        ensures
            monster@ == MonsterState::fresh(identifier@),
    {
        Self { identifier, alive: true, health: FULL_HEALTH }
    }

    /// The name of the monster.
    pub fn identifier(&self) -> (identifier: &String)
        ensures
            identifier@ == self@.identifier,
    {
        &self.identifier
    }

    /// Whether the monster is still in the game.
    pub fn is_alive(&self) -> (alive: bool)
        ensures
            alive == self@.alive,
    {
        self.alive
    }

    /// The health that the monster has left; it is below zero after a hit that took more
    /// than there was.
    pub fn health(&self) -> (health: i16)
        ensures
            health == self@.health,
    {
        self.health
    }

    /// Takes the monster out of the game.
    pub fn destroy(&mut self)
        ensures
            final(self)@ == old(self)@.destroy(),
    {
        self.alive = false;
    }

    /// Hits the monster with the force `amount`.
    pub fn hit(&mut self, amount: u8)
        ensures
            final(self)@ == old(self)@.hit(amount as nat),
    {
        if self.health <= 0 {
            self.destroy();
        } else {
            self.health = self.health - amount as i16;
        }
    }
}

} // verus!
