//! Entity records of the duel: players, projectiles and their attached
//! status effects, together with the fixed world constants.
//!
//! Every continuous quantity is a fixed-point integer: lengths and
//! coordinates in thousandths of a world unit, times in milliseconds,
//! dimensionless fractions in thousandths. Each record carries a
//! well-formedness predicate `wf` that constructors establish and every
//! system preserves.

use vstd::prelude::*;

use crate::cards::CardId;

verus! {

/// One thousand fixed-point steps make one world unit (and one thousand
/// milliseconds one second); this is also the denominator of fractions
/// such as the slow amount.
pub const SCALE: i64 = 1000;

/// Side of a player's square bounding box: players are 30 by 30 world
/// units, centered on their position.
pub const PLAYER_SIZE: i64 = 30000;

/// Side of a projectile's square bounding box: projectiles are 10 by 10
/// world units, centered on their position.
pub const PROJECTILE_SIZE: i64 = 10000;

/// Horizontal distance of each spawn point from the arena center: player 1
/// spawns at -SPAWN_X, player 2 at +SPAWN_X.
pub const SPAWN_X: i64 = 100000;

/// Vertical spawn coordinate: both players spawn resting on the ground.
pub const SPAWN_Y: i64 = 0;

/// A player may jump while its vertical position is within this distance
/// of the ground plane.
pub const GROUND_EPS: i64 = 1000;

/// Downward acceleration integrated into vertical velocity each tick,
/// in thousandths of a unit per second per second.
pub const GRAVITY: i64 = 9810;

/// The arena walls keep a player's center within this horizontal distance
/// of the center.
pub const WALL_X: i64 = 385000;

/// Projectiles above this height are out of bounds and despawn.
pub const CEILING_Y: i64 = 600000;

/// Bound on any coordinate a projectile (or an airborne player) can reach;
/// integration clamps here so that positions never overflow.
pub const POS_LIMIT: i64 = 1000000000000;

/// Bound on the magnitude of any velocity component (a terminal velocity).
pub const VEL_LIMIT: i64 = 1000000000;

/// Bound on every stat, damage and health value; card boosts saturate here.
pub const STAT_LIMIT: i64 = 1000000000;

/// Bound on the remaining duration of any timed effect or timer.
pub const TIME_LIMIT: i64 = 1000000000;

/// A single tick covers at most this much elapsed time, in milliseconds.
pub const DT_LIMIT: i64 = 10000;

/// Upper clamp of the aim angle: pi, in milliradians.
pub const AIM_MAX: i64 = 3142;

/// Aim adjustment applied per tick while an aim key is held, in
/// milliradians.
pub const AIM_STEP: i64 = 30;

/// A projectile lives this long, in milliseconds, unless it hits first.
pub const PROJECTILE_LIFETIME_MS: i64 = 2000;

/// A poison status attached by a hit lasts this long, in milliseconds.
pub const POISON_DURATION_MS: i64 = 3000;

/// A slow status attached by a hit lasts this long, in milliseconds.
pub const SLOW_DURATION_MS: i64 = 2000;

/// A projectile spawns this many world units from the firing player's
/// center, along the firing direction.
pub const FIRE_OFFSET_UNITS: i64 = 10;

/// A point with fixed-point coordinates, in thousandths of a world unit.
#[derive(Clone, Copy, PartialEq, Eq, Structural, Debug)]
pub struct Vec2 {
    pub x: i64,
    pub y: i64,
}

/// A player's hit points. `current` is clamped into `[0, max]`: damage
/// never drives the reported health below zero.
#[derive(Clone, Copy, PartialEq, Eq, Structural, Debug)]
pub struct Health {
    pub current: i64,
    pub max: i64,
}

impl Health {
    pub open spec fn wf(self) -> bool {
        &&& 0 <= self.current <= self.max
        &&& self.max <= STAT_LIMIT
    }
}

/// A player's mutable attributes: movement, combat and aiming numbers,
/// all non-negative and bounded by `STAT_LIMIT`. The slow amount is a
/// fraction in thousandths; the aim angle is in milliradians, within
/// `[0, AIM_MAX]`; the cooldown values are in milliseconds.
#[derive(Clone, Copy, PartialEq, Eq, Structural, Debug)]
pub struct Stats {
    pub move_speed: i64,
    pub jump_force: i64,
    pub damage: i64,
    pub projectile_speed: i64,
    pub shot_cooldown: i64,
    pub cooldown_timer: i64,
    pub poison_damage: i64,
    pub slow_amount: i64,
    pub aim_angle: i64,
}

impl Stats {
    pub open spec fn wf(self) -> bool {
        &&& 0 <= self.move_speed <= STAT_LIMIT
        &&& 0 <= self.jump_force <= STAT_LIMIT
        &&& 0 <= self.damage <= STAT_LIMIT
        &&& 0 <= self.projectile_speed <= STAT_LIMIT
        &&& 0 <= self.shot_cooldown <= TIME_LIMIT
        &&& 0 <= self.cooldown_timer <= TIME_LIMIT
        &&& 0 <= self.poison_damage <= STAT_LIMIT
        &&& 0 <= self.slow_amount <= SCALE
        &&& 0 <= self.aim_angle <= AIM_MAX
    }
}

/// Poison payload carried by a projectile: copied from the firing player's
/// stats at spawn time and turned into a `Poisoned` status on hit.
#[derive(Clone, Copy, PartialEq, Eq, Structural, Debug)]
pub struct PoisonEffect {
    pub damage_per_second: i64,
    pub duration: i64,
}

impl PoisonEffect {
    pub open spec fn wf(self) -> bool {
        &&& 0 <= self.damage_per_second <= STAT_LIMIT
        &&& 0 < self.duration <= TIME_LIMIT
    }
}

/// Slow payload carried by a projectile. The amount is a fraction in
/// thousandths of the victim's movement speed.
#[derive(Clone, Copy, PartialEq, Eq, Structural, Debug)]
pub struct SlowEffect {
    pub amount: i64,
    pub duration: i64,
}

impl SlowEffect {
    pub open spec fn wf(self) -> bool {
        &&& 0 <= self.amount <= SCALE
        &&& 0 < self.duration <= TIME_LIMIT
    }
}

/// An attached damage-over-time status. While present it drains
/// `damage_per_second` (scaled by the tick's elapsed time) from its host;
/// it is removed once `remaining` reaches zero. A new application fully
/// replaces the previous instance: the status never stacks with itself.
#[derive(Clone, Copy, PartialEq, Eq, Structural, Debug)]
pub struct Poisoned {
    pub damage_per_second: i64,
    pub remaining: i64,
}

impl Poisoned {
    pub open spec fn wf(self) -> bool {
        &&& 0 <= self.damage_per_second <= STAT_LIMIT
        &&& 0 < self.remaining <= TIME_LIMIT
    }
}

/// An attached movement-debuff status. While present it multiplies the
/// host's movement speed by `(SCALE - amount) / SCALE`; it is removed once
/// `remaining` reaches zero and never stacks with itself.
#[derive(Clone, Copy, PartialEq, Eq, Structural, Debug)]
pub struct Slowed {
    pub amount: i64,
    pub remaining: i64,
}

impl Slowed {
    pub open spec fn wf(self) -> bool {
        &&& 0 <= self.amount <= SCALE
        &&& 0 < self.remaining <= TIME_LIMIT
    }
}

/// Time a projectile has left to live, in milliseconds; positive while the
/// projectile is in the store.
#[derive(Clone, Copy, PartialEq, Eq, Structural, Debug)]
pub struct Lifetime {
    pub time_left: i64,
}

impl Lifetime {
    pub open spec fn wf(self) -> bool {
        0 < self.time_left <= TIME_LIMIT
    }
}

/// The ordered list of card ids a player has acquired over the match.
#[derive(PartialEq, Eq, Debug)]
pub struct Inventory {
    pub cards: Vec<CardId>,
}

/// A live projectile: fired by `owner`, flying along `vel`, despawned on
/// its first player hit, on lifetime expiry or when it leaves the arena.
/// The optional payloads become statuses on the player it hits.
#[derive(Clone, Copy, PartialEq, Eq, Structural, Debug)]
pub struct Projectile {
    pub owner: u64,
    pub damage: i64,
    pub pos: Vec2,
    pub vel: Vec2,
    pub lifetime: Lifetime,
    pub poison: Option<PoisonEffect>,
    pub slow: Option<SlowEffect>,
}

impl Projectile {
    pub open spec fn wf(self) -> bool {
        &&& self.owner == 1 || self.owner == 2
        &&& 0 <= self.damage <= STAT_LIMIT
        &&& -POS_LIMIT <= self.pos.x <= POS_LIMIT
        &&& -POS_LIMIT <= self.pos.y <= POS_LIMIT
        &&& -VEL_LIMIT <= self.vel.x <= VEL_LIMIT
        &&& -VEL_LIMIT <= self.vel.y <= VEL_LIMIT
        &&& self.lifetime.wf()
        &&& (self.poison matches Some(p) ==> p.wf())
        &&& (self.slow matches Some(s) ==> s.wf())
    }
}

/// One combatant. Players are created once at match setup and persist for
/// the whole match; between rounds only health, position and statuses are
/// reset. At most one `Poisoned` and one `Slowed` status are attached at a
/// time; reapplication overwrites, never stacks.
pub struct Player {
    pub id: u64,
    pub pos: Vec2,
    pub vel: Vec2,
    pub health: Health,
    pub stats: Stats,
    pub inventory: Inventory,
    pub poisoned: Option<Poisoned>,
    pub slowed: Option<Slowed>,
}

impl Player {
    pub open spec fn wf(self) -> bool {
        &&& self.id == 1 || self.id == 2
        &&& -WALL_X <= self.pos.x <= WALL_X
        &&& 0 <= self.pos.y <= POS_LIMIT
        &&& -VEL_LIMIT <= self.vel.x <= VEL_LIMIT
        &&& -VEL_LIMIT <= self.vel.y <= VEL_LIMIT
        &&& self.health.wf()
        &&& self.stats.wf()
        &&& (self.poisoned matches Some(p) ==> p.wf())
        &&& (self.slowed matches Some(s) ==> s.wf())
    }
}

/// The entity store: exactly two players and the projectiles currently in
/// flight. Player 1 always precedes player 2 in iteration order, which
/// makes combat resolution deterministic.
pub struct Arena {
    pub player1: Player,
    pub player2: Player,
    pub projectiles: Vec<Projectile>,
}

impl Arena {
    pub open spec fn wf(self) -> bool {
        &&& self.player1.wf()
        &&& self.player2.wf()
        &&& self.player1.id == 1
        &&& self.player2.id == 2
        &&& forall|i: int|
            0 <= i < self.projectiles@.len() ==> (#[trigger] self.projectiles@[i]).wf()
    }
}

} // verus!
