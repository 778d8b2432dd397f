//! The per-tick subsystems of the duel, in their fixed run order:
//! input application and firing, cooldown bookkeeping, movement stepping,
//! projectile housekeeping, status-effect lifecycle, combat resolution and
//! the round / draft state machine.
//!
//! Each subsystem is a function from the entity store (and the normalized
//! intents the embedding layer collected) to the next state; none of them
//! performs input polling or rendering.

use vstd::prelude::*;

use crate::components::Arena;
use crate::components::Health;
use crate::components::Inventory;
use crate::components::Lifetime;
use crate::components::Player;
use crate::components::PoisonEffect;
use crate::components::Poisoned;
use crate::components::Projectile;
use crate::components::SlowEffect;
use crate::components::Slowed;
use crate::components::Stats;
use crate::components::Vec2;
use crate::components::AIM_MAX;
use crate::components::AIM_STEP;
use crate::components::CEILING_Y;
use crate::components::DT_LIMIT;
use crate::components::GRAVITY;
use crate::components::GROUND_EPS;
use crate::components::FIRE_OFFSET_UNITS;
use crate::components::PLAYER_SIZE;
use crate::components::POISON_DURATION_MS;
use crate::components::POS_LIMIT;
use crate::components::PROJECTILE_SIZE;
use crate::components::PROJECTILE_LIFETIME_MS;
use crate::components::SCALE;
use crate::components::SLOW_DURATION_MS;
use crate::components::STAT_LIMIT;
use crate::components::TIME_LIMIT;
use crate::components::VEL_LIMIT;
use crate::components::WALL_X;
use crate::components::SPAWN_X;
use crate::components::SPAWN_Y;
use crate::events::PlayerKilled;
use crate::resources::CardSelection;
use crate::resources::RoundManager;
use crate::states::GameState;

verus! {

/// `x` forced into `[lo, hi]`.
pub open spec fn spec_clamp(x: int, lo: int, hi: int) -> int {
    if x < lo {
        lo
    } else if x > hi {
        hi
    } else {
        x
    }
}

fn clamp_i64(x: i64, lo: i64, hi: i64) -> (r: i64)
    requires
        lo <= hi,
    ensures
        r == spec_clamp(x as int, lo as int, hi as int),
{
    if x < lo {
        lo
    } else if x > hi {
        hi
    } else {
        x
    }
}

/// `a * b / SCALE` rounded toward zero: the displacement a fixed-point
/// rate `a` produces over `b` (a non-negative factor also in thousandths).
pub open spec fn spec_scaled(a: int, b: int) -> int {
    if a >= 0 {
        a * b / (SCALE as int)
    } else {
        -((-a) * b / (SCALE as int))
    }
}

/// A fixed-point per-second rate (a velocity component, a damage rate)
/// integrated over `dt` milliseconds.
fn rate_over_dt(v: i64, dt: i64) -> (r: i64)
    requires
        -VEL_LIMIT <= v <= VEL_LIMIT,
        0 <= dt <= DT_LIMIT,
    ensures
        r == spec_scaled(v as int, dt as int),
        -10_000_000_000 <= r <= 10_000_000_000,
{
    proof {
        assert(v >= 0 ==> v * dt <= 10_000_000_000_000) by (nonlinear_arith)
            requires
                0 <= dt <= DT_LIMIT,
                v <= VEL_LIMIT,
        ;
        assert(v < 0 ==> 0 <= (-v) * dt <= 10_000_000_000_000) by (nonlinear_arith)
            requires
                0 <= dt <= DT_LIMIT,
                -VEL_LIMIT <= v,
        ;
        assert(v >= 0 ==> 0 <= v * dt) by (nonlinear_arith)
            requires
                0 <= dt,
        ;
    }
    if v >= 0 {
        v * dt / SCALE
    } else {
        -((-v) * dt / SCALE)
    }
}

/// One component of a direction (a fraction of a unit vector, in
/// thousandths) scaled to a speed.
fn dir_times_speed(d: i64, speed: i64) -> (r: i64)
    requires
        -SCALE <= d <= SCALE,
        0 <= speed <= STAT_LIMIT,
    ensures
        r == spec_scaled(d as int, speed as int),
        -STAT_LIMIT <= r <= STAT_LIMIT,
{
    proof {
        assert(d >= 0 ==> 0 <= d * speed <= 1_000_000_000_000) by (nonlinear_arith)
            requires
                0 <= speed <= STAT_LIMIT,
                d <= SCALE,
        ;
        assert(d < 0 ==> 0 <= (-d) * speed <= 1_000_000_000_000) by (nonlinear_arith)
            requires
                0 <= speed <= STAT_LIMIT,
                -SCALE <= d,
        ;
    }
    if d >= 0 {
        d * speed / SCALE
    } else {
        -((-d) * speed / SCALE)
    }
}

/// The normalized intents one player hands the core for one tick:
/// horizontal direction (-1, 0 or +1, opposite keys cancelling
/// additively), aim-adjust intents, an edge-triggered jump, a fire
/// trigger, and the firing direction the presentation layer derived from
/// the player's aim angle (a unit vector in thousandths).
pub struct PlayerInput {
    pub direction: i64,
    pub aim_up: bool,
    pub aim_down: bool,
    pub jump: bool,
    pub fire: bool,
    pub fire_dir: Vec2,
}

impl PlayerInput {
    pub open spec fn wf(self) -> bool {
        &&& -1 <= self.direction <= 1
        &&& -SCALE <= self.fire_dir.x <= SCALE
        &&& -SCALE <= self.fire_dir.y <= SCALE
    }

    /// A tick with no key held.
    pub fn idle() -> (r: PlayerInput)
        ensures
            r == (PlayerInput {
                direction: 0,
                aim_up: false,
                aim_down: false,
                jump: false,
                fire: false,
                fire_dir: Vec2 { x: SCALE, y: 0 },
            }),
            r.wf(),
    {
        PlayerInput {
            direction: 0,
            aim_up: false,
            aim_down: false,
            jump: false,
            fire: false,
            fire_dir: Vec2 { x: SCALE, y: 0 },
        }
    }
}

/// The projectile a player fires: it starts `FIRE_OFFSET_UNITS` from the
/// player's center along the firing direction, flies at the player's
/// projectile speed, carries the player's damage, and copies the player's
/// poison and slow numbers as payloads when they are positive.
pub open spec fn spec_spawn_projectile(owner: u64, stats: Stats, pos: Vec2, dir: Vec2) -> Projectile {
    Projectile {
        owner,
        damage: stats.damage,
        pos: Vec2 {
            x: spec_clamp(
                pos.x + dir.x * FIRE_OFFSET_UNITS,
                -POS_LIMIT as int,
                POS_LIMIT as int,
            ) as i64,
            y: spec_clamp(
                pos.y + dir.y * FIRE_OFFSET_UNITS,
                -POS_LIMIT as int,
                POS_LIMIT as int,
            ) as i64,
        },
        vel: Vec2 {
            x: spec_scaled(dir.x as int, stats.projectile_speed as int) as i64,
            y: spec_scaled(dir.y as int, stats.projectile_speed as int) as i64,
        },
        lifetime: Lifetime { time_left: PROJECTILE_LIFETIME_MS },
        poison: if stats.poison_damage > 0 {
            Some(PoisonEffect {
                damage_per_second: stats.poison_damage,
                duration: POISON_DURATION_MS,
            })
        } else {
            None
        },
        slow: if stats.slow_amount > 0 {
            Some(SlowEffect { amount: stats.slow_amount, duration: SLOW_DURATION_MS })
        } else {
            None
        },
    }
}

/// Spawns the projectile a fire action produces.
pub fn spawn_projectile(owner: u64, stats: &Stats, pos: Vec2, dir: Vec2) -> (p: Projectile)
    requires
        owner == 1 || owner == 2,
        stats.wf(),
        -WALL_X <= pos.x <= WALL_X,
        0 <= pos.y <= POS_LIMIT,
        -SCALE <= dir.x <= SCALE,
        -SCALE <= dir.y <= SCALE,
    ensures
        p == spec_spawn_projectile(owner, *stats, pos, dir),
        p.wf(),
{
    let vx = dir_times_speed(dir.x, stats.projectile_speed);
    let vy = dir_times_speed(dir.y, stats.projectile_speed);
    Projectile {
        owner,
        damage: stats.damage,
        pos: Vec2 {
            x: clamp_i64(pos.x + dir.x * FIRE_OFFSET_UNITS, -POS_LIMIT, POS_LIMIT),
            y: clamp_i64(pos.y + dir.y * FIRE_OFFSET_UNITS, -POS_LIMIT, POS_LIMIT),
        },
        vel: Vec2 { x: vx, y: vy },
        lifetime: Lifetime { time_left: PROJECTILE_LIFETIME_MS },
        poison: if stats.poison_damage > 0 {
            Some(PoisonEffect {
                damage_per_second: stats.poison_damage,
                duration: POISON_DURATION_MS,
            })
        } else {
            None
        },
        slow: if stats.slow_amount > 0 {
            Some(SlowEffect { amount: stats.slow_amount, duration: SLOW_DURATION_MS })
        } else {
            None
        },
    }
}

/// The movement speed a player can reach this tick: the slow status, when
/// present, takes its fraction off the base speed.
pub open spec fn spec_effective_speed(stats: Stats, slowed: Option<Slowed>) -> int {
    match slowed {
        Some(s) => stats.move_speed * ((SCALE - s.amount) as int) / (SCALE as int),
        None => stats.move_speed as int,
    }
}

/// The aim angle after one tick of aim-adjust intents, clamped to
/// `[0, AIM_MAX]`; holding both adjust keys cancels additively.
pub open spec fn spec_new_aim(aim: int, up: bool, down: bool) -> int {
    spec_clamp(
        aim + (if up {
            AIM_STEP as int
        } else {
            0
        }) - (if down {
            AIM_STEP as int
        } else {
            0
        }),
        0,
        AIM_MAX as int,
    )
}

/// Whether this tick's input fires a shot: the trigger is held and the
/// cooldown has fully elapsed.
pub open spec fn spec_fires(p: Player, input: PlayerInput) -> bool {
    input.fire && p.stats.cooldown_timer == 0
}

/// Whether this tick's input starts a jump: the trigger is pressed while
/// the player is grounded.
pub open spec fn spec_jumps(p: Player, input: PlayerInput) -> bool {
    input.jump && p.pos.y <= GROUND_EPS
}

/// The player after one tick of input: adjusted aim, jump and horizontal
/// velocity applied, and the shot cooldown rearmed when a shot went out.
pub open spec fn spec_player_after_input(p: Player, input: PlayerInput) -> Player {
    Player {
        vel: Vec2 {
            x: (input.direction * spec_effective_speed(p.stats, p.slowed)) as i64,
            y: if spec_jumps(p, input) {
                p.stats.jump_force
            } else {
                p.vel.y
            },
        },
        stats: Stats {
            aim_angle: spec_new_aim(p.stats.aim_angle as int, input.aim_up, input.aim_down) as i64,
            cooldown_timer: if spec_fires(p, input) {
                p.stats.shot_cooldown
            } else {
                p.stats.cooldown_timer
            },
            ..p.stats
        },
        ..p
    }
}

/// Applies one player's normalized intents for this tick: sets the
/// horizontal velocity from the direction and the (possibly slowed)
/// movement speed, starts a jump only while grounded, adjusts and clamps
/// the aim angle, and — when the fire trigger is held with an elapsed
/// cooldown — appends the spawned projectile and rearms the cooldown.
pub fn player_input(p: &mut Player, projectiles: &mut Vec<Projectile>, input: &PlayerInput)
    requires
        old(p).wf(),
        input.wf(),
    ensures
        *final(p) == spec_player_after_input(*old(p), *input),
        final(p).wf(),
        final(projectiles)@ == if spec_fires(*old(p), *input) {
            old(projectiles)@.push(
                spec_spawn_projectile(old(p).id, old(p).stats, old(p).pos, input.fire_dir),
            )
        } else {
            old(projectiles)@
        },
        spec_fires(*old(p), *input) ==> final(projectiles)@.last().wf(),
{
    let mut aim_delta: i64 = 0;
    if input.aim_up {
        aim_delta = aim_delta + AIM_STEP;
    }
    if input.aim_down {
        aim_delta = aim_delta - AIM_STEP;
    }
    p.stats.aim_angle = clamp_i64(p.stats.aim_angle + aim_delta, 0, AIM_MAX);
    if input.jump && p.pos.y <= GROUND_EPS {
        p.vel.y = p.stats.jump_force;
    }
    if input.fire && p.stats.cooldown_timer == 0 {
        let shot = spawn_projectile(p.id, &p.stats, p.pos, input.fire_dir);
        projectiles.push(shot);
        p.stats.cooldown_timer = p.stats.shot_cooldown;
    }
    proof {
        lemma_effective_speed_bounds(p.stats, p.slowed);
    }
    let speed = match p.slowed {
        Some(s) => p.stats.move_speed * (SCALE - s.amount) / SCALE,
        None => p.stats.move_speed,
    };
    let vx = if input.direction == 1 {
        speed
    } else if input.direction == -1 {
        -speed
    } else {
        0
    };
    proof {
        lemma_direction_times_speed(input.direction, speed as int);
    }
    p.vel.x = vx;
}

/// A direction of -1, 0 or +1 times a speed is a sign choice, not a
/// general product.
proof fn lemma_direction_times_speed(d: i64, es: int)
    requires
        -1 <= d <= 1,
    ensures
        d == 1 ==> d * es == es,
        d == -1 ==> d * es == -es,
        d == 0 ==> d * es == 0,
{
    assert(d == 1 ==> d * es == es) by (nonlinear_arith);
    assert(d == -1 ==> d * es == -es) by (nonlinear_arith);
    assert(d == 0 ==> d * es == 0) by (nonlinear_arith);
}

/// The effective movement speed is still a bounded, non-negative stat.
proof fn lemma_effective_speed_bounds(s: Stats, sl: Option<Slowed>)
    requires
        s.wf(),
        sl matches Some(x) ==> x.wf(),
    ensures
        0 <= spec_effective_speed(s, sl) <= STAT_LIMIT,
{
    match sl {
        Some(x) => {
            let ms = s.move_speed as int;
            let f = (SCALE - x.amount) as int;
            assert(0 <= ms * f <= 1_000_000_000_000) by (nonlinear_arith)
                requires
                    0 <= ms <= STAT_LIMIT,
                    0 <= f <= SCALE,
            ;
        },
        None => {},
    }
}

/// The stats after the shot cooldown ticks down by `dt`, stopping at zero.
pub open spec fn spec_tick_cooldown(s: Stats, dt: int) -> Stats {
    Stats {
        cooldown_timer: if s.cooldown_timer - dt <= 0 {
            0
        } else {
            (s.cooldown_timer - dt) as i64
        },
        ..s
    }
}

/// Ticks both players' shot cooldowns down by the elapsed time; nothing
/// else moves.
pub fn update_cooldowns(arena: &mut Arena, dt: i64)
    requires
        old(arena).wf(),
        0 <= dt <= DT_LIMIT,
    ensures
        final(arena).wf(),
        final(arena).player1 == (Player {
            stats: spec_tick_cooldown(old(arena).player1.stats, dt as int),
            ..old(arena).player1
        }),
        final(arena).player2 == (Player {
            stats: spec_tick_cooldown(old(arena).player2.stats, dt as int),
            ..old(arena).player2
        }),
        final(arena).projectiles@ == old(arena).projectiles@,
{
    if arena.player1.stats.cooldown_timer <= dt {
        arena.player1.stats.cooldown_timer = 0;
    } else {
        arena.player1.stats.cooldown_timer = arena.player1.stats.cooldown_timer - dt;
    }
    if arena.player2.stats.cooldown_timer <= dt {
        arena.player2.stats.cooldown_timer = 0;
    } else {
        arena.player2.stats.cooldown_timer = arena.player2.stats.cooldown_timer - dt;
    }
}

/// A player one movement step later: gravity integrated into the vertical
/// velocity (semi-implicit Euler, saturating at the terminal velocity),
/// the position advanced by the updated velocity, the horizontal position
/// held between the arena walls, and ground contact clamping the player
/// onto the ground plane with the vertical velocity zeroed.
pub open spec fn spec_move_player(p: Player, dt: int) -> Player {
    let vy = if p.vel.y - GRAVITY * dt / (SCALE as int) < -VEL_LIMIT {
        -VEL_LIMIT as int
    } else {
        p.vel.y - GRAVITY * dt / (SCALE as int)
    };
    let nx = spec_clamp(p.pos.x + spec_scaled(p.vel.x as int, dt), -WALL_X as int, WALL_X as int);
    let ny = p.pos.y + spec_scaled(vy, dt);
    if ny <= 0 {
        Player { pos: Vec2 { x: nx as i64, y: 0 }, vel: Vec2 { x: p.vel.x, y: 0 }, ..p }
    } else {
        Player {
            pos: Vec2 {
                x: nx as i64,
                y: if ny > POS_LIMIT {
                    POS_LIMIT
                } else {
                    ny as i64
                },
            },
            vel: Vec2 { x: p.vel.x, y: vy as i64 },
            ..p
        }
    }
}

/// A projectile one movement step later: straight flight, with both
/// coordinates held inside the representable arena.
pub open spec fn spec_move_projectile(pr: Projectile, dt: int) -> Projectile {
    Projectile {
        pos: Vec2 {
            x: spec_clamp(
                pr.pos.x + spec_scaled(pr.vel.x as int, dt),
                -POS_LIMIT as int,
                POS_LIMIT as int,
            ) as i64,
            y: spec_clamp(
                pr.pos.y + spec_scaled(pr.vel.y as int, dt),
                -POS_LIMIT as int,
                POS_LIMIT as int,
            ) as i64,
        },
        ..pr
    }
}

fn move_player(p: &mut Player, dt: i64)
    requires
        old(p).wf(),
        0 <= dt <= DT_LIMIT,
    ensures
        *final(p) == spec_move_player(*old(p), dt as int),
        final(p).wf(),
{
    let fall = GRAVITY * dt / SCALE;
    let vy = if p.vel.y - fall < -VEL_LIMIT {
        -VEL_LIMIT
    } else {
        p.vel.y - fall
    };
    let nx = clamp_i64(p.pos.x + rate_over_dt(p.vel.x, dt), -WALL_X, WALL_X);
    let ny = p.pos.y + rate_over_dt(vy, dt);
    if ny <= 0 {
        p.pos = Vec2 { x: nx, y: 0 };
        p.vel.y = 0;
    } else {
        p.pos = Vec2 {
            x: nx,
            y: if ny > POS_LIMIT {
                POS_LIMIT
            } else {
                ny
            },
        };
        p.vel.y = vy;
    }
}

fn move_projectile(pr: &mut Projectile, dt: i64)
    requires
        old(pr).wf(),
        0 <= dt <= DT_LIMIT,
    ensures
        *final(pr) == spec_move_projectile(*old(pr), dt as int),
        final(pr).wf(),
{
    let nx = clamp_i64(pr.pos.x + rate_over_dt(pr.vel.x, dt), -POS_LIMIT, POS_LIMIT);
    let ny = clamp_i64(pr.pos.y + rate_over_dt(pr.vel.y, dt), -POS_LIMIT, POS_LIMIT);
    pr.pos = Vec2 { x: nx, y: ny };
}

/// Every projectile one movement step later, in order.
pub open spec fn spec_move_projectiles(prs: Seq<Projectile>, dt: int) -> Seq<Projectile>
    decreases prs.len(),
{
    if prs.len() == 0 {
        Seq::empty()
    } else {
        spec_move_projectiles(prs.drop_last(), dt).push(spec_move_projectile(prs.last(), dt))
    }
}

/// Moving the projectiles moves each one, elementwise.
pub proof fn lemma_move_projectiles_index(prs: Seq<Projectile>, dt: int)
    ensures
        spec_move_projectiles(prs, dt).len() == prs.len(),
        forall|i: int|
            0 <= i < prs.len() ==> #[trigger] spec_move_projectiles(prs, dt)[i]
                == spec_move_projectile(prs[i], dt),
    decreases prs.len(),
{
    if prs.len() > 0 {
        lemma_move_projectiles_index(prs.drop_last(), dt);
    }
}

/// Advances every entity by one movement step of `dt` milliseconds:
/// players fall, land and stay between the walls; projectiles fly
/// straight.
pub fn movement_step(arena: &mut Arena, dt: i64)
    requires
        old(arena).wf(),
        0 <= dt <= DT_LIMIT,
    ensures
        final(arena).wf(),
        final(arena).player1 == spec_move_player(old(arena).player1, dt as int),
        final(arena).player2 == spec_move_player(old(arena).player2, dt as int),
        final(arena).projectiles@ == spec_move_projectiles(old(arena).projectiles@, dt as int),
{
    move_player(&mut arena.player1, dt);
    move_player(&mut arena.player2, dt);
    let n = arena.projectiles.len();
    let mut i: usize = 0;
    while i < n
        invariant
            0 <= i <= n,
            n == arena.projectiles@.len(),
            n == old(arena).projectiles@.len(),
            0 <= dt <= DT_LIMIT,
            arena.player1 == spec_move_player(old(arena).player1, dt as int),
            arena.player2 == spec_move_player(old(arena).player2, dt as int),
            arena.player1.wf(),
            arena.player2.wf(),
            arena.player1.id == old(arena).player1.id,
            arena.player2.id == old(arena).player2.id,
            forall|j: int|
                i <= j < n ==> arena.projectiles@[j] == old(arena).projectiles@[j]
                    && (#[trigger] arena.projectiles@[j]).wf(),
            forall|j: int|
                0 <= j < i ==> (#[trigger] arena.projectiles@[j]) == spec_move_projectile(
                    old(arena).projectiles@[j],
                    dt as int,
                ) && arena.projectiles@[j].wf(),
        decreases n - i,
    {
        let mut pr = arena.projectiles[i];
        move_projectile(&mut pr, dt);
        arena.projectiles.set(i, pr);
        i = i + 1;
    }
    proof {
        lemma_move_projectiles_index(old(arena).projectiles@, dt as int);
        assert(arena.projectiles@ =~= spec_move_projectiles(old(arena).projectiles@, dt as int));
    }
}

/// Whether a projectile is still inside the arena's vertical bounds.
pub open spec fn spec_in_bounds(pr: Projectile) -> bool {
    pr.pos.y <= CEILING_Y
}

/// The projectiles still inside the arena's vertical bounds, in order.
pub open spec fn spec_in_bounds_only(prs: Seq<Projectile>) -> Seq<Projectile>
    decreases prs.len(),
{
    if prs.len() == 0 {
        Seq::empty()
    } else {
        let rest = spec_in_bounds_only(prs.drop_last());
        if spec_in_bounds(prs.last()) {
            rest.push(prs.last())
        } else {
            rest
        }
    }
}

proof fn lemma_in_bounds_only_step(prs: Seq<Projectile>, i: int)
    requires
        0 <= i < prs.len(),
    ensures
        spec_in_bounds_only(prs.take(i + 1)) == if spec_in_bounds(prs[i]) {
            spec_in_bounds_only(prs.take(i)).push(prs[i])
        } else {
            spec_in_bounds_only(prs.take(i))
        },
{
    assert(prs.take(i + 1).drop_last() =~= prs.take(i));
    assert(prs.take(i + 1).last() == prs[i]);
}

/// Despawning out-of-bounds projectiles never adds any.
proof fn lemma_in_bounds_only_len(prs: Seq<Projectile>)
    ensures
        spec_in_bounds_only(prs).len() <= prs.len(),
    decreases prs.len(),
{
    if prs.len() > 0 {
        lemma_in_bounds_only_len(prs.drop_last());
    }
}

/// Despawns every projectile that has left the arena through the ceiling;
/// the rest keep their order, and the players do not move.
pub fn projectile_cleanup(arena: &mut Arena)
    requires
        old(arena).wf(),
    ensures
        final(arena).wf(),
        final(arena).player1 == old(arena).player1,
        final(arena).player2 == old(arena).player2,
        final(arena).projectiles@ == spec_in_bounds_only(old(arena).projectiles@),
{
    let n = arena.projectiles.len();
    let mut kept: Vec<Projectile> = Vec::new();
    let mut i: usize = 0;
    proof {
        assert(old(arena).projectiles@.take(0) =~= Seq::<Projectile>::empty());
    }
    while i < n
        invariant
            0 <= i <= n,
            n == arena.projectiles@.len(),
            arena.projectiles@ == old(arena).projectiles@,
            forall|j: int|
                0 <= j < n ==> (#[trigger] arena.projectiles@[j]).wf(),
            kept@ == spec_in_bounds_only(old(arena).projectiles@.take(i as int)),
            forall|j: int| 0 <= j < kept@.len() ==> (#[trigger] kept@[j]).wf(),
        decreases n - i,
    {
        proof {
            lemma_in_bounds_only_step(old(arena).projectiles@, i as int);
        }
        let pr = arena.projectiles[i];
        if pr.pos.y <= CEILING_Y {
            kept.push(pr);
        }
        i = i + 1;
    }
    proof {
        assert(old(arena).projectiles@.take(n as int) =~= old(arena).projectiles@);
    }
    arena.projectiles = kept;
}

/// The projectiles that survive a lifetime tick of `dt`: every lifetime
/// shrinks by `dt`, and a projectile whose time runs out despawns. Order
/// is kept.
pub open spec fn spec_tick_lifetimes(s: Seq<Projectile>, dt: int) -> Seq<Projectile>
    decreases s.len(),
{
    if s.len() == 0 {
        Seq::empty()
    } else {
        let rest = spec_tick_lifetimes(s.drop_last(), dt);
        let pr = s.last();
        if pr.lifetime.time_left - dt > 0 {
            rest.push(
                Projectile {
                    lifetime: Lifetime { time_left: (pr.lifetime.time_left - dt) as i64 },
                    ..pr
                },
            )
        } else {
            rest
        }
    }
}

proof fn lemma_tick_lifetimes_step(s: Seq<Projectile>, dt: int, i: int)
    requires
        0 <= i < s.len(),
    ensures
        spec_tick_lifetimes(s.take(i + 1), dt) == if s[i].lifetime.time_left - dt > 0 {
            spec_tick_lifetimes(s.take(i), dt).push(
                Projectile {
                    lifetime: Lifetime { time_left: (s[i].lifetime.time_left - dt) as i64 },
                    ..s[i]
                },
            )
        } else {
            spec_tick_lifetimes(s.take(i), dt)
        },
{
    assert(s.take(i + 1).drop_last() =~= s.take(i));
    assert(s.take(i + 1).last() == s[i]);
}

/// Ticks every projectile's remaining lifetime down by `dt` and despawns
/// the ones that expire; the players do not move.
pub fn lifetime_system(arena: &mut Arena, dt: i64)
    requires
        old(arena).wf(),
        0 <= dt <= DT_LIMIT,
    ensures
        final(arena).wf(),
        final(arena).player1 == old(arena).player1,
        final(arena).player2 == old(arena).player2,
        final(arena).projectiles@ == spec_tick_lifetimes(old(arena).projectiles@, dt as int),
{
    let n = arena.projectiles.len();
    let mut kept: Vec<Projectile> = Vec::new();
    let mut i: usize = 0;
    proof {
        assert(old(arena).projectiles@.take(0) =~= Seq::<Projectile>::empty());
    }
    while i < n
        invariant
            0 <= i <= n,
            n == arena.projectiles@.len(),
            arena.projectiles@ == old(arena).projectiles@,
            0 <= dt <= DT_LIMIT,
            forall|j: int|
                0 <= j < n ==> (#[trigger] arena.projectiles@[j]).wf(),
            kept@ == spec_tick_lifetimes(old(arena).projectiles@.take(i as int), dt as int),
            forall|j: int| 0 <= j < kept@.len() ==> (#[trigger] kept@[j]).wf(),
        decreases n - i,
    {
        proof {
            lemma_tick_lifetimes_step(old(arena).projectiles@, dt as int, i as int);
        }
        let pr = arena.projectiles[i];
        if pr.lifetime.time_left > dt {
            kept.push(
                Projectile { lifetime: Lifetime { time_left: pr.lifetime.time_left - dt }, ..pr },
            );
        }
        i = i + 1;
    }
    proof {
        assert(old(arena).projectiles@.take(n as int) =~= old(arena).projectiles@);
    }
    arena.projectiles = kept;
}

/// A player after one poison tick: the poison drains its damage rate
/// scaled by `dt` (health stopping at zero) and its timer advances; when
/// the timer runs out the status is removed. The expiring tick still
/// applies its full damage before removal: the last tick always fires.
pub open spec fn spec_tick_poison(p: Player, dt: int) -> Player {
    match p.poisoned {
        None => p,
        Some(po) => {
            let drained = p.health.current - spec_scaled(po.damage_per_second as int, dt);
            let h = Health {
                current: if drained < 0 {
                    0
                } else {
                    drained as i64
                },
                ..p.health
            };
            let np = if po.remaining - dt <= 0 {
                None
            } else {
                Some(Poisoned { remaining: (po.remaining - dt) as i64, ..po })
            };
            Player { health: h, poisoned: np, ..p }
        },
    }
}

fn tick_poison_player(p: &mut Player, dt: i64)
    requires
        old(p).wf(),
        0 <= dt <= DT_LIMIT,
    ensures
        *final(p) == spec_tick_poison(*old(p), dt as int),
        final(p).wf(),
{
    match p.poisoned {
        Some(po) => {
            let drain = rate_over_dt(po.damage_per_second, dt);
            let drained = p.health.current - drain;
            p.health.current = if drained < 0 {
                0
            } else {
                drained
            };
            if po.remaining <= dt {
                p.poisoned = None;
            } else {
                p.poisoned = Some(Poisoned { remaining: po.remaining - dt, ..po });
            }
        },
        None => {},
    }
}

/// Ticks the poison status on both players: damage over time is applied,
/// expired statuses are removed, everything else stands still.
pub fn poison_damage_system(arena: &mut Arena, dt: i64)
    requires
        old(arena).wf(),
        0 <= dt <= DT_LIMIT,
    ensures
        final(arena).wf(),
        final(arena).player1 == spec_tick_poison(old(arena).player1, dt as int),
        final(arena).player2 == spec_tick_poison(old(arena).player2, dt as int),
        final(arena).projectiles@ == old(arena).projectiles@,
{
    tick_poison_player(&mut arena.player1, dt);
    tick_poison_player(&mut arena.player2, dt);
}

/// A player after one slow tick: the debuff's timer advances and the
/// status is removed at expiry, with no residual effect on the player.
pub open spec fn spec_tick_slow(p: Player, dt: int) -> Player {
    match p.slowed {
        None => p,
        Some(sl) => {
            let ns = if sl.remaining - dt <= 0 {
                None
            } else {
                Some(Slowed { remaining: (sl.remaining - dt) as i64, ..sl })
            };
            Player { slowed: ns, ..p }
        },
    }
}

fn tick_slow_player(p: &mut Player, dt: i64)
    requires
        old(p).wf(),
        0 <= dt <= DT_LIMIT,
    ensures
        *final(p) == spec_tick_slow(*old(p), dt as int),
        final(p).wf(),
{
    match p.slowed {
        Some(sl) => {
            if sl.remaining <= dt {
                p.slowed = None;
            } else {
                p.slowed = Some(Slowed { remaining: sl.remaining - dt, ..sl });
            }
        },
        None => {},
    }
}

/// Ticks the slow status on both players; everything else stands still.
pub fn slow_system(arena: &mut Arena, dt: i64)
    requires
        old(arena).wf(),
        0 <= dt <= DT_LIMIT,
    ensures
        final(arena).wf(),
        final(arena).player1 == spec_tick_slow(old(arena).player1, dt as int),
        final(arena).player2 == spec_tick_slow(old(arena).player2, dt as int),
        final(arena).projectiles@ == old(arena).projectiles@,
{
    tick_slow_player(&mut arena.player1, dt);
    tick_slow_player(&mut arena.player2, dt);
}

/// Axis-aligned box overlap: the centers are closer than the half-size
/// sums on both axes, strictly (touching boxes do not overlap).
pub open spec fn spec_aabb_overlap(a_pos: Vec2, a_size: Vec2, b_pos: Vec2, b_size: Vec2) -> bool {
    &&& 2 * vstd::math::abs((a_pos.x - b_pos.x) as int) < a_size.x + b_size.x
    &&& 2 * vstd::math::abs((a_pos.y - b_pos.y) as int) < a_size.y + b_size.y
}

/// Tests overlap of two axis-aligned boxes given by center and size.
pub fn aabb_collision(a_pos: Vec2, a_size: Vec2, b_pos: Vec2, b_size: Vec2) -> (r: bool)
    requires
        -POS_LIMIT <= a_pos.x <= POS_LIMIT,
        -POS_LIMIT <= a_pos.y <= POS_LIMIT,
        -POS_LIMIT <= b_pos.x <= POS_LIMIT,
        -POS_LIMIT <= b_pos.y <= POS_LIMIT,
        0 <= a_size.x <= 1_000_000,
        0 <= a_size.y <= 1_000_000,
        0 <= b_size.x <= 1_000_000,
        0 <= b_size.y <= 1_000_000,
    ensures
        r == spec_aabb_overlap(a_pos, a_size, b_pos, b_size),
{
    let dx = if a_pos.x >= b_pos.x {
        a_pos.x - b_pos.x
    } else {
        b_pos.x - a_pos.x
    };
    let dy = if a_pos.y >= b_pos.y {
        a_pos.y - b_pos.y
    } else {
        b_pos.y - a_pos.y
    };
    2 * dx < a_size.x + b_size.x && 2 * dy < a_size.y + b_size.y
}

/// Whether a projectile's box overlaps a player's box and the player is a
/// legal target: a projectile never hits its own firer.
pub open spec fn spec_proj_hits(pr: Projectile, pl: Player) -> bool {
    &&& pl.id != pr.owner
    &&& spec_aabb_overlap(
        pr.pos,
        Vec2 { x: PROJECTILE_SIZE, y: PROJECTILE_SIZE },
        pl.pos,
        Vec2 { x: PLAYER_SIZE, y: PLAYER_SIZE },
    )
}

/// Health after taking a hit: the damage comes off, stopping at zero.
pub open spec fn spec_hit_health(h: Health, dmg: int) -> Health {
    Health {
        current: if h.current - dmg < 0 {
            0
        } else {
            (h.current - dmg) as i64
        },
        ..h
    }
}

/// Whether this hit brings the target's health down to zero.
pub open spec fn spec_hit_kills(pl: Player, pr: Projectile) -> bool {
    pl.health.current <= pr.damage
}

/// The target after one hit: damage applied, and each payload the
/// projectile carries attached as a fresh status, overwriting (never
/// stacking with) whatever instance was there before.
pub open spec fn spec_apply_hit(pl: Player, pr: Projectile) -> Player {
    Player {
        health: spec_hit_health(pl.health, pr.damage as int),
        poisoned: match pr.poison {
            Some(e) => Some(
                Poisoned { damage_per_second: e.damage_per_second, remaining: e.duration },
            ),
            None => pl.poisoned,
        },
        slowed: match pr.slow {
            Some(e) => Some(Slowed { amount: e.amount, remaining: e.duration }),
            None => pl.slowed,
        },
        ..pl
    }
}

/// Resolving one projectile against the players, in ascending player-id
/// order: the first overlapping non-owner takes exactly one hit and the
/// testing stops, so a projectile never damages both players in a tick.
/// Returns the players afterwards and the kill notification, if any.
pub open spec fn spec_resolve_one(p1: Player, p2: Player, pr: Projectile) -> (
    Player,
    Player,
    Seq<PlayerKilled>,
) {
    if spec_proj_hits(pr, p1) {
        (
            spec_apply_hit(p1, pr),
            p2,
            if spec_hit_kills(p1, pr) {
                seq![PlayerKilled { winner: pr.owner, loser: p1.id }]
            } else {
                Seq::empty()
            },
        )
    } else if spec_proj_hits(pr, p2) {
        (
            p1,
            spec_apply_hit(p2, pr),
            if spec_hit_kills(p2, pr) {
                seq![PlayerKilled { winner: pr.owner, loser: p2.id }]
            } else {
                Seq::empty()
            },
        )
    } else {
        (p1, p2, Seq::empty())
    }
}

/// Whether a projectile finds a target among the two players (and so
/// despawns this tick).
pub open spec fn spec_proj_hit_someone(p1: Player, p2: Player, pr: Projectile) -> bool {
    spec_proj_hits(pr, p1) || spec_proj_hits(pr, p2)
}

/// The projectiles a combat pass leaves in flight: the ones that hit
/// nobody, in order. Targeting reads only positions and identities,
/// which the pass never changes, so the players before the pass decide.
pub open spec fn spec_surviving(p1: Player, p2: Player, prs: Seq<Projectile>) -> Seq<Projectile>
    decreases prs.len(),
{
    if prs.len() == 0 {
        Seq::empty()
    } else {
        let rest = spec_surviving(p1, p2, prs.drop_last());
        if spec_proj_hit_someone(p1, p2, prs.last()) {
            rest
        } else {
            rest.push(prs.last())
        }
    }
}

proof fn lemma_surviving_step(p1: Player, p2: Player, prs: Seq<Projectile>, i: int)
    requires
        0 <= i < prs.len(),
    ensures
        spec_surviving(p1, p2, prs.take(i + 1)) == if spec_proj_hit_someone(p1, p2, prs[i]) {
            spec_surviving(p1, p2, prs.take(i))
        } else {
            spec_surviving(p1, p2, prs.take(i)).push(prs[i])
        },
{
    assert(prs.take(i + 1).drop_last() =~= prs.take(i));
    assert(prs.take(i + 1).last() == prs[i]);
}

/// Resolving every projectile in store order: earlier hits are visible to
/// later projectiles in the same tick, and the kill notifications come
/// out in resolution order.
pub open spec fn spec_resolve_combat(p1: Player, p2: Player, prs: Seq<Projectile>) -> (
    Player,
    Player,
    Seq<PlayerKilled>,
)
    decreases prs.len(),
{
    if prs.len() == 0 {
        (p1, p2, Seq::empty())
    } else {
        let r = spec_resolve_combat(p1, p2, prs.drop_last());
        let s = spec_resolve_one(r.0, r.1, prs.last());
        (s.0, s.1, r.2 + s.2)
    }
}

proof fn lemma_resolve_take_step(p1: Player, p2: Player, prs: Seq<Projectile>, i: int)
    requires
        0 <= i < prs.len(),
    ensures
        spec_resolve_combat(p1, p2, prs.take(i + 1)) == ({
            let r = spec_resolve_combat(p1, p2, prs.take(i));
            let s = spec_resolve_one(r.0, r.1, prs[i]);
            (s.0, s.1, r.2 + s.2)
        }),
{
    assert(prs.take(i + 1).drop_last() =~= prs.take(i));
    assert(prs.take(i + 1).last() == prs[i]);
}

/// Combat resolution only drains health and swaps statuses: both players
/// keep their identity and position, so which player a projectile can hit
/// does not change during the pass.
pub proof fn lemma_resolve_preserves_pose(p1: Player, p2: Player, prs: Seq<Projectile>)
    ensures
        ({
            let r = spec_resolve_combat(p1, p2, prs);
            &&& r.0.id == p1.id
            &&& r.0.pos == p1.pos
            &&& r.1.id == p2.id
            &&& r.1.pos == p2.pos
        }),
    decreases prs.len(),
{
    if prs.len() > 0 {
        lemma_resolve_preserves_pose(p1, p2, prs.drop_last());
    }
}

/// Every kill notification combat emits is between the two players, with
/// the winner never the loser.
pub proof fn lemma_resolve_kills_wf(p1: Player, p2: Player, prs: Seq<Projectile>)
    requires
        p1.id == 1,
        p2.id == 2,
        forall|i: int| 0 <= i < prs.len() ==> (#[trigger] prs[i]).wf(),
    ensures
        ({
            let ks = spec_resolve_combat(p1, p2, prs).2;
            forall|i: int|
                0 <= i < ks.len() ==> ((#[trigger] ks[i]).winner == 1 || ks[i].winner == 2)
                    && (ks[i].loser == 1 || ks[i].loser == 2) && ks[i].winner != ks[i].loser
        }),
    decreases prs.len(),
{
    if prs.len() > 0 {
        lemma_resolve_kills_wf(p1, p2, prs.drop_last());
        lemma_resolve_preserves_pose(p1, p2, prs.drop_last());
        assert(prs[prs.len() - 1].wf());
    }
}

/// Applies one projectile hit to one player and reports whether it killed.
fn apply_projectile_hit(pl: &mut Player, pr: &Projectile) -> (killed: bool)
    requires
        old(pl).wf(),
        pr.wf(),
    ensures
        *final(pl) == spec_apply_hit(*old(pl), *pr),
        killed == spec_hit_kills(*old(pl), *pr),
        final(pl).wf(),
{
    let killed = pl.health.current <= pr.damage;
    pl.health.current = if pl.health.current - pr.damage < 0 {
        0
    } else {
        pl.health.current - pr.damage
    };
    match pr.poison {
        Some(e) => {
            pl.poisoned = Some(
                Poisoned { damage_per_second: e.damage_per_second, remaining: e.duration },
            );
        },
        None => {},
    }
    match pr.slow {
        Some(e) => {
            pl.slowed = Some(Slowed { amount: e.amount, remaining: e.duration });
        },
        None => {},
    }
    killed
}

/// The combat resolver: tests every live projectile against every player
/// but its owner, in ascending player-id order; the first overlapping
/// player takes exactly one hit, the projectile despawns, carried
/// payloads attach as statuses, and a hit that empties the target's
/// health emits one kill notification. Projectiles that hit nobody
/// survive in order.
pub fn projectile_player_collision(arena: &mut Arena) -> (kills: Vec<PlayerKilled>)
    requires
        old(arena).wf(),
    ensures
        final(arena).wf(),
        ({
            let r = spec_resolve_combat(
                old(arena).player1,
                old(arena).player2,
                old(arena).projectiles@,
            );
            &&& final(arena).player1 == r.0
            &&& final(arena).player2 == r.1
            &&& kills@ == r.2
        }),
        final(arena).projectiles@ == spec_surviving(
            old(arena).player1,
            old(arena).player2,
            old(arena).projectiles@,
        ),
        forall|i: int|
            0 <= i < kills@.len() ==> ((#[trigger] kills@[i]).winner == 1 || kills@[i].winner == 2)
                && (kills@[i].loser == 1 || kills@[i].loser == 2) && kills@[i].winner
                != kills@[i].loser,
{
    let n = arena.projectiles.len();
    let mut kept: Vec<Projectile> = Vec::new();
    let mut kills: Vec<PlayerKilled> = Vec::new();
    let mut i: usize = 0;
    proof {
        assert(old(arena).projectiles@.take(0) =~= Seq::<Projectile>::empty());
    }
    while i < n
        invariant
            0 <= i <= n,
            n == arena.projectiles@.len(),
            arena.projectiles@ == old(arena).projectiles@,
            old(arena).wf(),
            forall|j: int|
                0 <= j < n ==> (#[trigger] arena.projectiles@[j]).wf(),
            ({
                let r = spec_resolve_combat(
                    old(arena).player1,
                    old(arena).player2,
                    old(arena).projectiles@.take(i as int),
                );
                &&& arena.player1 == r.0
                &&& arena.player2 == r.1
                &&& kills@ == r.2
            }),
            arena.player1.wf(),
            arena.player2.wf(),
            kept@ == spec_surviving(
                old(arena).player1,
                old(arena).player2,
                old(arena).projectiles@.take(i as int),
            ),
            forall|j: int| 0 <= j < kept@.len() ==> (#[trigger] kept@[j]).wf(),
        decreases n - i,
    {
        proof {
            lemma_surviving_step(
                old(arena).player1,
                old(arena).player2,
                old(arena).projectiles@,
                i as int,
            );
            lemma_resolve_take_step(
                old(arena).player1,
                old(arena).player2,
                old(arena).projectiles@,
                i as int,
            );
            lemma_resolve_preserves_pose(
                old(arena).player1,
                old(arena).player2,
                old(arena).projectiles@.take(i as int),
            );
        }
        let pr = arena.projectiles[i];
        let proj_size = Vec2 { x: PROJECTILE_SIZE, y: PROJECTILE_SIZE };
        let player_size = Vec2 { x: PLAYER_SIZE, y: PLAYER_SIZE };
        if pr.owner != arena.player1.id && aabb_collision(
            pr.pos,
            proj_size,
            arena.player1.pos,
            player_size,
        ) {
            let loser = arena.player1.id;
            let killed = apply_projectile_hit(&mut arena.player1, &pr);
            if killed {
                kills.push(PlayerKilled { winner: pr.owner, loser });
            }
        } else if pr.owner != arena.player2.id && aabb_collision(
            pr.pos,
            proj_size,
            arena.player2.pos,
            player_size,
        ) {
            let loser = arena.player2.id;
            let killed = apply_projectile_hit(&mut arena.player2, &pr);
            if killed {
                kills.push(PlayerKilled { winner: pr.owner, loser });
            }
        } else {
            kept.push(pr);
        }
        i = i + 1;
    }
    proof {
        assert(old(arena).projectiles@.take(n as int) =~= old(arena).projectiles@);
        lemma_resolve_kills_wf(old(arena).player1, old(arena).player2, old(arena).projectiles@);
        lemma_resolve_preserves_pose(
            old(arena).player1,
            old(arena).player2,
            old(arena).projectiles@,
        );
    }
    arena.projectiles = kept;
    kills
}

/// Where a player respawns: player 1 on the left, player 2 on the right,
/// symmetric offsets from the arena center.
pub open spec fn spec_spawn_pos(id: u64) -> Vec2 {
    if id == 1 {
        Vec2 { x: (-SPAWN_X) as i64, y: SPAWN_Y }
    } else {
        Vec2 { x: SPAWN_X, y: SPAWN_Y }
    }
}

/// A player reset for the next round: full health, back on its spawn
/// point, statuses gone; stats, inventory and velocity persist.
pub open spec fn spec_reset_player(p: Player) -> Player {
    Player {
        health: Health { current: p.health.max, ..p.health },
        pos: spec_spawn_pos(p.id),
        poisoned: None,
        slowed: None,
        ..p
    }
}

fn reset_player(p: &mut Player)
    requires
        old(p).wf(),
    ensures
        *final(p) == spec_reset_player(*old(p)),
        final(p).wf(),
{
    p.health.current = p.health.max;
    p.pos = if p.id == 1 {
        Vec2 { x: -SPAWN_X, y: SPAWN_Y }
    } else {
        Vec2 { x: SPAWN_X, y: SPAWN_Y }
    };
    p.poisoned = None;
    p.slowed = None;
}

/// The scores after one kill is credited.
pub open spec fn spec_scores_after(s1: int, s2: int, e: PlayerKilled) -> (int, int) {
    (
        s1 + if e.winner == 1 {
            1int
        } else {
            0int
        },
        s2 + if e.winner == 2 {
            1int
        } else {
            0int
        },
    )
}

/// Whether crediting this kill ends the round in a draft (neither score
/// has reached the match goal) rather than ending the match.
pub open spec fn spec_step_is_draft(need: int, s1: int, s2: int, e: PlayerKilled) -> bool {
    let ns = spec_scores_after(s1, s2, e);
    ns.0 < need && ns.1 < need
}

/// The round manager's bookkeeping for one kill: the winner's score
/// grows; if either score reaches the goal the match is over (no draft
/// offered), otherwise the loser is sent to the draft.
pub open spec fn spec_round_step(
    need: int,
    s1: int,
    s2: int,
    loser: Option<u64>,
    e: PlayerKilled,
) -> (int, int, GameState, Option<u64>) {
    let ns = spec_scores_after(s1, s2, e);
    if ns.0 >= need || ns.1 >= need {
        (ns.0, ns.1, GameState::GameOver, loser)
    } else {
        (ns.0, ns.1, GameState::CardSelection, Some(e.loser))
    }
}

/// The round manager's bookkeeping folded over a tick's kill
/// notifications, in order; with no notification nothing changes.
pub open spec fn spec_round_fold(
    need: int,
    s1: int,
    s2: int,
    st: GameState,
    loser: Option<u64>,
    events: Seq<PlayerKilled>,
) -> (int, int, GameState, Option<u64>)
    decreases events.len(),
{
    if events.len() == 0 {
        (s1, s2, st, loser)
    } else {
        let r = spec_round_fold(need, s1, s2, st, loser, events.drop_last());
        spec_round_step(need, r.0, r.1, r.3, events.last())
    }
}

/// Whether any of the tick's kills sends a player to the draft (and so
/// fills the card choices).
pub open spec fn spec_any_draft(need: int, s1: int, s2: int, events: Seq<PlayerKilled>) -> bool
    decreases events.len(),
{
    if events.len() == 0 {
        false
    } else {
        let r = spec_round_fold(
            need,
            s1,
            s2,
            GameState::InGame,
            None,
            events.drop_last(),
        );
        spec_any_draft(need, s1, s2, events.drop_last()) || spec_step_is_draft(
            need,
            r.0,
            r.1,
            events.last(),
        )
    }
}

proof fn lemma_round_take_step(
    need: int,
    s1: int,
    s2: int,
    st: GameState,
    loser: Option<u64>,
    events: Seq<PlayerKilled>,
    i: int,
)
    requires
        0 <= i < events.len(),
    ensures
        spec_round_fold(need, s1, s2, st, loser, events.take(i + 1)) == ({
            let r = spec_round_fold(need, s1, s2, st, loser, events.take(i));
            spec_round_step(need, r.0, r.1, r.3, events[i])
        }),
        spec_any_draft(need, s1, s2, events.take(i + 1)) == ({
            let r = spec_round_fold(
                need,
                s1,
                s2,
                GameState::InGame,
                None,
                events.take(i),
            );
            spec_any_draft(need, s1, s2, events.take(i)) || spec_step_is_draft(
                need,
                r.0,
                r.1,
                events[i],
            )
        }),
{
    assert(events.take(i + 1).drop_last() =~= events.take(i));
    assert(events.take(i + 1).last() == events[i]);
}

/// The folded scores depend only on the starting scores and the events,
/// not on the starting state or loser.
proof fn lemma_round_fold_scores_agree(
    need: int,
    s1: int,
    s2: int,
    st_a: GameState,
    loser_a: Option<u64>,
    st_b: GameState,
    loser_b: Option<u64>,
    events: Seq<PlayerKilled>,
)
    ensures
        ({
            let a = spec_round_fold(need, s1, s2, st_a, loser_a, events);
            let b = spec_round_fold(need, s1, s2, st_b, loser_b, events);
            a.0 == b.0 && a.1 == b.1
        }),
    decreases events.len(),
{
    if events.len() > 0 {
        lemma_round_fold_scores_agree(
            need,
            s1,
            s2,
            st_a,
            loser_a,
            st_b,
            loser_b,
            events.drop_last(),
        );
    }
}

/// A credited kill raises exactly one score by one, so the folded scores
/// stay between their start and the start plus the number of kills.
proof fn lemma_round_fold_score_bounds(
    need: int,
    s1: int,
    s2: int,
    st: GameState,
    loser: Option<u64>,
    events: Seq<PlayerKilled>,
)
    ensures
        ({
            let r = spec_round_fold(need, s1, s2, st, loser, events);
            s1 <= r.0 <= s1 + events.len() && s2 <= r.1 <= s2 + events.len()
        }),
    decreases events.len(),
{
    if events.len() > 0 {
        lemma_round_fold_score_bounds(need, s1, s2, st, loser, events.drop_last());
    }
}

/// The round manager: drains the tick's kill notifications in order. Each
/// kill credits the winner's score, despawns every live projectile and
/// resets both players to full health on their spawn points. If a score
/// then reaches `rounds_to_win` the match is over and no draft is
/// offered; otherwise the loser is set to draft among three cards drawn
/// at random from the pool, distinct and without replacement.
pub fn round_manager(
    mgr: &mut RoundManager,
    selection: &mut CardSelection,
    arena: &mut Arena,
    state: &mut GameState,
    events: &Vec<PlayerKilled>,
)
    requires
        old(arena).wf(),
        old(selection).wf(),
        old(mgr).p1_score + events@.len() <= u32::MAX,
        old(mgr).p2_score + events@.len() <= u32::MAX,
        forall|i: int|
            0 <= i < events@.len() ==> ((#[trigger] events@[i]).loser == 1 || events@[i].loser
                == 2),
    ensures
        final(arena).wf(),
        final(selection).wf(),
        final(mgr).rounds_to_win == old(mgr).rounds_to_win,
        ({
            let r = spec_round_fold(
                old(mgr).rounds_to_win as int,
                old(mgr).p1_score as int,
                old(mgr).p2_score as int,
                *old(state),
                old(selection).loser,
                events@,
            );
            &&& final(mgr).p1_score == r.0
            &&& final(mgr).p2_score == r.1
            &&& *final(state) == r.2
            &&& final(selection).loser == r.3
        }),
        events@.len() > 0 ==> final(arena).player1 == spec_reset_player(old(arena).player1)
            && final(arena).player2 == spec_reset_player(old(arena).player2)
            && final(arena).projectiles@.len() == 0,
        events@.len() == 0 ==> final(arena).player1 == old(arena).player1 && final(arena).player2
            == old(arena).player2 && final(arena).projectiles@ == old(arena).projectiles@
            && final(selection).choices@ == old(selection).choices@,
        spec_any_draft(
            old(mgr).rounds_to_win as int,
            old(mgr).p1_score as int,
            old(mgr).p2_score as int,
            events@,
        ) ==> final(selection).choices@.len() == 3 && (forall|i: int, j: int|
            0 <= i < j < final(selection).choices@.len() ==> final(selection).choices@[i].id
                != final(selection).choices@[j].id) && (forall|i: int|
            0 <= i < final(selection).choices@.len() ==> crate::cards::pool_ids().contains(
                (#[trigger] final(selection).choices@[i]).id,
            )),
        !spec_any_draft(
            old(mgr).rounds_to_win as int,
            old(mgr).p1_score as int,
            old(mgr).p2_score as int,
            events@,
        ) ==> final(selection).choices@ == old(selection).choices@,
{
    let ghost need = old(mgr).rounds_to_win as int;
    let ghost s1_0 = old(mgr).p1_score as int;
    let ghost s2_0 = old(mgr).p2_score as int;
    let n = events.len();
    let mut i: usize = 0;
    proof {
        assert(events@.take(0) =~= Seq::<PlayerKilled>::empty());
    }
    while i < n
        invariant
            0 <= i <= n,
            n == events@.len(),
            need == old(mgr).rounds_to_win as int,
            s1_0 == old(mgr).p1_score as int,
            s2_0 == old(mgr).p2_score as int,
            old(arena).wf(),
            old(selection).wf(),
            s1_0 + n <= u32::MAX,
            s2_0 + n <= u32::MAX,
            forall|j: int|
                0 <= j < n ==> ((#[trigger] events@[j]).loser == 1 || events@[j].loser == 2),
            mgr.rounds_to_win == old(mgr).rounds_to_win,
            ({
                let r = spec_round_fold(
                    need,
                    s1_0,
                    s2_0,
                    *old(state),
                    old(selection).loser,
                    events@.take(i as int),
                );
                &&& mgr.p1_score == r.0
                &&& mgr.p2_score == r.1
                &&& *state == r.2
                &&& selection.loser == r.3
            }),
            i > 0 ==> arena.player1 == spec_reset_player(old(arena).player1) && arena.player2
                == spec_reset_player(old(arena).player2) && arena.projectiles@.len() == 0,
            i == 0 ==> arena.player1 == old(arena).player1 && arena.player2 == old(arena).player2
                && arena.projectiles@ == old(arena).projectiles@ && selection.choices@ == old(
                selection,
            ).choices@,
            arena.wf(),
            selection.wf(),
            spec_any_draft(need, s1_0, s2_0, events@.take(i as int)) ==> selection.choices@.len()
                == 3 && (forall|a: int, b: int|
                0 <= a < b < selection.choices@.len() ==> selection.choices@[a].id
                    != selection.choices@[b].id) && (forall|a: int|
                0 <= a < selection.choices@.len() ==> crate::cards::pool_ids().contains(
                    (#[trigger] selection.choices@[a]).id,
                )),
            !spec_any_draft(need, s1_0, s2_0, events@.take(i as int)) ==> selection.choices@
                == old(selection).choices@,
        decreases n - i,
    {
        proof {
            lemma_round_take_step(
                need,
                s1_0,
                s2_0,
                *old(state),
                old(selection).loser,
                events@,
                i as int,
            );
            lemma_round_take_step(
                need,
                s1_0,
                s2_0,
                GameState::InGame,
                None,
                events@,
                i as int,
            );
            lemma_round_fold_scores_agree(
                need,
                s1_0,
                s2_0,
                *old(state),
                old(selection).loser,
                GameState::InGame,
                None,
                events@.take(i as int),
            );
            lemma_round_fold_score_bounds(
                need,
                s1_0,
                s2_0,
                *old(state),
                old(selection).loser,
                events@.take(i as int),
            );
        }
        let e = events[i];
        if e.winner == 1 {
            mgr.p1_score = mgr.p1_score + 1;
        } else if e.winner == 2 {
            mgr.p2_score = mgr.p2_score + 1;
        }
        arena.projectiles = Vec::new();
        reset_player(&mut arena.player1);
        reset_player(&mut arena.player2);
        if mgr.p1_score >= mgr.rounds_to_win || mgr.p2_score >= mgr.rounds_to_win {
            *state = GameState::GameOver;
        } else {
            selection.loser = Some(e.loser);
            selection.choices = crate::cards::random_choices(3);
            *state = GameState::CardSelection;
        }
        i = i + 1;
    }
    proof {
        assert(events@.take(n as int) =~= events@);
    }
}

/// A lifetime tick never adds projectiles.
proof fn lemma_tick_lifetimes_len(s: Seq<Projectile>, dt: int)
    ensures
        spec_tick_lifetimes(s, dt).len() <= s.len(),
    decreases s.len(),
{
    if s.len() > 0 {
        lemma_tick_lifetimes_len(s.drop_last(), dt);
    }
}

/// Each projectile emits at most one kill notification.
proof fn lemma_resolve_kill_count(p1: Player, p2: Player, prs: Seq<Projectile>)
    ensures
        spec_resolve_combat(p1, p2, prs).2.len() <= prs.len(),
    decreases prs.len(),
{
    if prs.len() > 0 {
        lemma_resolve_kill_count(p1, p2, prs.drop_last());
    }
}

/// Whether a pick is acted on: a draft must be pending (a loser is set)
/// and the index must reference an offered choice. Anything else is a
/// no-op, not an error.
pub open spec fn spec_pick_valid(sel: CardSelection, picked: Option<usize>) -> bool {
    match picked {
        Some(i) => sel.loser is Some && (i as int) < sel.choices@.len(),
        None => false,
    }
}

/// The card pick handler: on a valid pick the chosen card's effect is
/// applied to the drafting (losing) player's stats, the card id is
/// appended to that player's inventory, the selection is cleared and play
/// resumes. An out-of-range pick, or a pick with no pending draft, leaves
/// everything untouched.
pub fn card_input_system(
    picked: Option<usize>,
    selection: &mut CardSelection,
    arena: &mut Arena,
    state: &mut GameState,
)
    requires
        old(arena).wf(),
        old(selection).wf(),
    ensures
        final(arena).wf(),
        final(selection).wf(),
        final(arena).projectiles@ == old(arena).projectiles@,
        !spec_pick_valid(*old(selection), picked) ==> final(arena).player1 == old(arena).player1
            && final(arena).player2 == old(arena).player2 && final(selection).loser == old(
            selection,
        ).loser && final(selection).choices@ == old(selection).choices@ && *final(state) == *old(
            state,
        ),
        spec_pick_valid(*old(selection), picked) ==> ({
            let idx = picked->0 as int;
            let card = old(selection).choices@[idx].id;
            let loser = old(selection).loser->0;
            let target = if loser == 1 {
                old(arena).player1
            } else {
                old(arena).player2
            };
            let chosen = if loser == 1 {
                final(arena).player1
            } else {
                final(arena).player2
            };
            let other_old = if loser == 1 {
                old(arena).player2
            } else {
                old(arena).player1
            };
            let other_new = if loser == 1 {
                final(arena).player2
            } else {
                final(arena).player1
            };
            &&& chosen.stats == crate::cards::spec_apply(card, target.stats)
            &&& chosen.inventory.cards@ == target.inventory.cards@.push(card)
            &&& chosen.id == target.id
            &&& chosen.pos == target.pos
            &&& chosen.vel == target.vel
            &&& chosen.health == target.health
            &&& chosen.poisoned == target.poisoned
            &&& chosen.slowed == target.slowed
            &&& other_new == other_old
            &&& final(selection).loser is None
            &&& final(selection).choices@.len() == 0
            &&& *final(state) == GameState::InGame
        }),
{
    let idx = match picked {
        Some(i) => i,
        None => {
            return ;
        },
    };
    let loser = match selection.loser {
        Some(l) => l,
        None => {
            return ;
        },
    };
    if idx >= selection.choices.len() {
        return ;
    }
    let card = selection.choices[idx].id;
    if loser == 1 {
        crate::cards::apply(card, &mut arena.player1.stats);
        arena.player1.inventory.cards.push(card);
    } else {
        crate::cards::apply(card, &mut arena.player2.stats);
        arena.player2.inventory.cards.push(card);
    }
    selection.loser = None;
    selection.choices = Vec::new();
    *state = GameState::InGame;
}

/// The restart handler: a restart request while the match is over zeroes
/// both scores, despawns every projectile, resets both players to full
/// health on their spawn points and resumes play. At any other time, or
/// without the request, nothing happens.
pub fn game_over_input(
    restart: bool,
    mgr: &mut RoundManager,
    arena: &mut Arena,
    state: &mut GameState,
)
    requires
        old(arena).wf(),
    ensures
        final(arena).wf(),
        final(mgr).rounds_to_win == old(mgr).rounds_to_win,
        restart && *old(state) is GameOver ==> final(mgr).p1_score == 0 && final(mgr).p2_score == 0
            && final(arena).player1 == spec_reset_player(old(arena).player1)
            && final(arena).player2 == spec_reset_player(old(arena).player2)
            && final(arena).projectiles@.len() == 0 && *final(state) == GameState::InGame,
        !(restart && *old(state) is GameOver) ==> *final(mgr) == *old(mgr) && final(arena).player1
            == old(arena).player1 && final(arena).player2 == old(arena).player2
            && final(arena).projectiles@ == old(arena).projectiles@ && *final(state) == *old(
            state,
        ),
{
    if restart && matches!(*state, GameState::GameOver) {
        mgr.p1_score = 0;
        mgr.p2_score = 0;
        arena.projectiles = Vec::new();
        reset_player(&mut arena.player1);
        reset_player(&mut arena.player2);
        *state = GameState::InGame;
    }
}

/// The base value every stat starts the match with, in fixed point:
/// movement at 200 units per second, an 8 unit-per-second jump, 10 damage
/// per shot, projectiles at 300 units per second, a half-second shot
/// cooldown, and no poison, slow or aim deflection.
pub open spec fn spec_initial_stats() -> Stats {
    Stats {
        move_speed: 200000,
        jump_force: 8000,
        damage: 10000,
        projectile_speed: 300000,
        shot_cooldown: 500,
        cooldown_timer: 0,
        poison_damage: 0,
        slow_amount: 0,
        aim_angle: 0,
    }
}

fn initial_player(id: u64) -> (p: Player)
    requires
        id == 1 || id == 2,
    ensures
        p.id == id,
        p.pos == spec_spawn_pos(id),
        p.vel == (Vec2 { x: 0, y: 0 }),
        p.health == (Health { current: 100000, max: 100000 }),
        p.stats == spec_initial_stats(),
        p.inventory.cards@.len() == 0,
        p.poisoned is None,
        p.slowed is None,
        p.wf(),
{
    Player {
        id,
        pos: if id == 1 {
            Vec2 { x: -SPAWN_X, y: SPAWN_Y }
        } else {
            Vec2 { x: SPAWN_X, y: SPAWN_Y }
        },
        vel: Vec2 { x: 0, y: 0 },
        health: Health { current: 100000, max: 100000 },
        stats: Stats {
            move_speed: 200000,
            jump_force: 8000,
            damage: 10000,
            projectile_speed: 300000,
            shot_cooldown: 500,
            cooldown_timer: 0,
            poison_damage: 0,
            slow_amount: 0,
            aim_angle: 0,
        },
        inventory: Inventory { cards: Vec::new() },
        poisoned: None,
        slowed: None,
    }
}

/// The in-play pipeline before combat: both players' intents applied
/// (any fired projectiles appended in player order), cooldowns ticked,
/// every entity moved one step, out-of-bounds projectiles despawned and
/// lifetimes ticked. Returns the players and the projectiles that combat
/// resolution then sees.
pub open spec fn spec_pre_combat(
    p1: Player,
    p2: Player,
    prs: Seq<Projectile>,
    in1: PlayerInput,
    in2: PlayerInput,
    dt: int,
) -> (Player, Player, Seq<Projectile>) {
    let q1 = spec_player_after_input(p1, in1);
    let q2 = spec_player_after_input(p2, in2);
    let shots1 = if spec_fires(p1, in1) {
        prs.push(spec_spawn_projectile(p1.id, p1.stats, p1.pos, in1.fire_dir))
    } else {
        prs
    };
    let shots2 = if spec_fires(p2, in2) {
        shots1.push(spec_spawn_projectile(p2.id, p2.stats, p2.pos, in2.fire_dir))
    } else {
        shots1
    };
    let r1 = Player { stats: spec_tick_cooldown(q1.stats, dt), ..q1 };
    let r2 = Player { stats: spec_tick_cooldown(q2.stats, dt), ..q2 };
    let m1 = spec_move_player(r1, dt);
    let m2 = spec_move_player(r2, dt);
    let flying = spec_tick_lifetimes(spec_in_bounds_only(spec_move_projectiles(shots2, dt)), dt);
    (m1, m2, flying)
}

/// What one in-play tick does, in full: the pre-combat pipeline, the
/// combat fold, both status ticks, then the round fold over this tick's
/// kill notifications — scores, state, loser, arena reset and the draft
/// choices all pinned exactly as the subsystems' own contracts pin them.
pub open spec fn spec_in_game_tick(
    g0: Game,
    g1: Game,
    in1: PlayerInput,
    in2: PlayerInput,
    dt: int,
) -> bool {
    let pre = spec_pre_combat(
        g0.arena.player1,
        g0.arena.player2,
        g0.arena.projectiles@,
        in1,
        in2,
        dt,
    );
    let combat = spec_resolve_combat(pre.0, pre.1, pre.2);
    let kills = combat.2;
    let t1 = spec_tick_slow(spec_tick_poison(combat.0, dt), dt);
    let t2 = spec_tick_slow(spec_tick_poison(combat.1, dt), dt);
    let need = g0.round_manager.rounds_to_win as int;
    let s1 = g0.round_manager.p1_score as int;
    let s2 = g0.round_manager.p2_score as int;
    let r = spec_round_fold(need, s1, s2, g0.state, g0.selection.loser, kills);
    &&& g1.round_manager.p1_score == r.0
    &&& g1.round_manager.p2_score == r.1
    &&& g1.round_manager.rounds_to_win == g0.round_manager.rounds_to_win
    &&& g1.state == r.2
    &&& g1.selection.loser == r.3
    &&& (kills.len() == 0 ==> g1.arena.player1 == t1 && g1.arena.player2 == t2
        && g1.arena.projectiles@ == spec_surviving(pre.0, pre.1, pre.2) && g1.selection.choices@
        == g0.selection.choices@)
    &&& (kills.len() > 0 ==> g1.arena.player1 == spec_reset_player(t1) && g1.arena.player2
        == spec_reset_player(t2) && g1.arena.projectiles@.len() == 0)
    &&& (spec_any_draft(need, s1, s2, kills) ==> g1.selection.choices@.len() == 3 && (forall|
        i: int,
        j: int,
    |
        0 <= i < j < g1.selection.choices@.len() ==> g1.selection.choices@[i].id
            != g1.selection.choices@[j].id) && (forall|i: int|
        0 <= i < g1.selection.choices@.len() ==> crate::cards::pool_ids().contains(
            (#[trigger] g1.selection.choices@[i]).id,
        )))
    &&& (!spec_any_draft(need, s1, s2, kills) ==> g1.selection.choices@
        == g0.selection.choices@)
}

/// What one drafting tick does: a valid pick applies the chosen card's
/// effect to the drafting player, appends the card id to its inventory,
/// clears the selection and resumes play; an invalid pick changes
/// nothing. Combat and movement never run while drafting.
pub open spec fn spec_card_tick(g0: Game, g1: Game, picked: Option<usize>) -> bool {
    &&& g1.arena.projectiles@ == g0.arena.projectiles@
    &&& g1.round_manager == g0.round_manager
    &&& (!spec_pick_valid(g0.selection, picked) ==> g1.arena.player1 == g0.arena.player1
        && g1.arena.player2 == g0.arena.player2 && g1.selection.loser == g0.selection.loser
        && g1.selection.choices@ == g0.selection.choices@ && g1.state == g0.state)
    &&& (spec_pick_valid(g0.selection, picked) ==> ({
        let idx = picked->0 as int;
        let card = g0.selection.choices@[idx].id;
        let loser = g0.selection.loser->0;
        let target = if loser == 1 {
            g0.arena.player1
        } else {
            g0.arena.player2
        };
        let chosen = if loser == 1 {
            g1.arena.player1
        } else {
            g1.arena.player2
        };
        let other_old = if loser == 1 {
            g0.arena.player2
        } else {
            g0.arena.player1
        };
        let other_new = if loser == 1 {
            g1.arena.player2
        } else {
            g1.arena.player1
        };
        &&& chosen.stats == crate::cards::spec_apply(card, target.stats)
        &&& chosen.inventory.cards@ == target.inventory.cards@.push(card)
        &&& chosen.id == target.id
        &&& chosen.pos == target.pos
        &&& chosen.vel == target.vel
        &&& chosen.health == target.health
        &&& chosen.poisoned == target.poisoned
        &&& chosen.slowed == target.slowed
        &&& other_new == other_old
        &&& g1.selection.loser is None
        &&& g1.selection.choices@.len() == 0
        &&& g1.state == GameState::InGame
    }))
}

/// What one game-over tick does: a restart zeroes both scores, resets
/// both players onto their spawn points at full health with statuses
/// cleared, despawns every projectile and resumes play; without the
/// request nothing changes. The pending selection is untouched either
/// way.
pub open spec fn spec_game_over_tick(g0: Game, g1: Game, restart: bool) -> bool {
    &&& g1.round_manager.rounds_to_win == g0.round_manager.rounds_to_win
    &&& g1.selection.loser == g0.selection.loser
    &&& g1.selection.choices@ == g0.selection.choices@
    &&& (restart ==> g1.round_manager.p1_score == 0 && g1.round_manager.p2_score == 0
        && g1.arena.player1 == spec_reset_player(g0.arena.player1) && g1.arena.player2
        == spec_reset_player(g0.arena.player2) && g1.arena.projectiles@.len() == 0 && g1.state
        == GameState::InGame)
    &&& (!restart ==> g1.round_manager == g0.round_manager && g1.arena.player1
        == g0.arena.player1 && g1.arena.player2 == g0.arena.player2 && g1.arena.projectiles@
        == g0.arena.projectiles@ && g1.state == g0.state)
}

/// The whole simulation: the entity store plus the match-wide resources
/// and the top-level state machine, stepped once per tick.
pub struct Game {
    pub arena: Arena,
    pub round_manager: RoundManager,
    pub selection: CardSelection,
    pub state: GameState,
}

impl Game {
    pub open spec fn wf(self) -> bool {
        &&& self.arena.wf()
        &&& self.selection.wf()
        &&& (self.state is CardSelection ==> self.selection.loser is Some)
    }
}

/// Builds the initial world: both players at their spawn points with 100
/// health and base stats, no projectiles, a fresh score sheet (first to
/// three rounds), no pending draft, and play under way.
pub fn setup() -> (g: Game)
    ensures
        g.wf(),
        g.arena.player1.id == 1,
        g.arena.player2.id == 2,
        g.arena.player1.pos == spec_spawn_pos(1),
        g.arena.player2.pos == spec_spawn_pos(2),
        g.arena.player1.health == (Health { current: 100000, max: 100000 }),
        g.arena.player2.health == (Health { current: 100000, max: 100000 }),
        g.arena.player1.stats == spec_initial_stats(),
        g.arena.player2.stats == spec_initial_stats(),
        g.arena.player1.inventory.cards@.len() == 0,
        g.arena.player2.inventory.cards@.len() == 0,
        g.arena.player1.poisoned is None && g.arena.player1.slowed is None,
        g.arena.player2.poisoned is None && g.arena.player2.slowed is None,
        g.arena.projectiles@.len() == 0,
        g.round_manager.p1_score == 0,
        g.round_manager.p2_score == 0,
        g.round_manager.rounds_to_win == 3,
        g.selection.loser is None,
        g.selection.choices@.len() == 0,
        g.state == GameState::InGame,
{
    Game {
        arena: Arena {
            player1: initial_player(1),
            player2: initial_player(2),
            projectiles: Vec::new(),
        },
        round_manager: RoundManager::default(),
        selection: CardSelection::new(),
        state: GameState::InGame,
    }
}

impl Game {
    /// One simulation tick, with the normalized intents the embedding
    /// layer collected. Subsystems run in their fixed order — movement
    /// (input application, cooldowns, integration), projectile
    /// housekeeping, combat resolution, status lifecycle, then the round
    /// manager draining this tick's kill notifications — and only the
    /// handlers of the active state run: combat while playing, the pick
    /// handler while drafting, the restart handler once the match is
    /// over.
    pub fn tick(
        &mut self,
        input1: &PlayerInput,
        input2: &PlayerInput,
        picked: Option<usize>,
        restart: bool,
        dt: i64,
    )
        requires
            old(self).wf(),
            input1.wf(),
            input2.wf(),
            0 <= dt <= DT_LIMIT,
            old(self).round_manager.p1_score + old(self).arena.projectiles@.len() + 2
                <= u32::MAX,
            old(self).round_manager.p2_score + old(self).arena.projectiles@.len() + 2
                <= u32::MAX,
        ensures
            final(self).wf(),
            final(self).round_manager.rounds_to_win == old(self).round_manager.rounds_to_win,
            old(self).state is InGame ==> spec_in_game_tick(
                *old(self),
                *final(self),
                *input1,
                *input2,
                dt as int,
            ),
            old(self).state is CardSelection ==> spec_card_tick(*old(self), *final(self), picked),
            old(self).state is GameOver ==> spec_game_over_tick(*old(self), *final(self), restart),
    {
        match self.state {
            GameState::InGame => {
                player_input(&mut self.arena.player1, &mut self.arena.projectiles, input1);
                player_input(&mut self.arena.player2, &mut self.arena.projectiles, input2);
                update_cooldowns(&mut self.arena, dt);
                let ghost projs_with_shots = self.arena.projectiles@;
                movement_step(&mut self.arena, dt);
                let ghost projs_moved = self.arena.projectiles@;
                projectile_cleanup(&mut self.arena);
                let ghost projs_in_bounds = self.arena.projectiles@;
                proof {
                    lemma_in_bounds_only_len(projs_moved);
                    lemma_move_projectiles_index(projs_with_shots, dt as int);
                }
                lifetime_system(&mut self.arena, dt);
                proof {
                    lemma_tick_lifetimes_len(projs_in_bounds, dt as int);
                }
                let ghost p1_at_combat = self.arena.player1;
                let ghost p2_at_combat = self.arena.player2;
                let ghost projs_at_combat = self.arena.projectiles@;
                let kills = projectile_player_collision(&mut self.arena);
                proof {
                    lemma_resolve_kill_count(p1_at_combat, p2_at_combat, projs_at_combat);
                    assert(kills@.len() <= old(self).arena.projectiles@.len() + 2);
                }
                poison_damage_system(&mut self.arena, dt);
                slow_system(&mut self.arena, dt);
                round_manager(
                    &mut self.round_manager,
                    &mut self.selection,
                    &mut self.arena,
                    &mut self.state,
                    &kills,
                );
            },
            GameState::CardSelection => {
                card_input_system(picked, &mut self.selection, &mut self.arena, &mut self.state);
            },
            GameState::GameOver => {
                game_over_input(restart, &mut self.round_manager, &mut self.arena, &mut self.state);
            },
        }
    }
}

} // verus!
