use magic_duel::components::Arena;
use magic_duel::components::Health;
use magic_duel::components::Inventory;
use magic_duel::components::Lifetime;
use magic_duel::components::Player;
use magic_duel::components::PoisonEffect;
use magic_duel::components::Projectile;
use magic_duel::components::SlowEffect;
use magic_duel::components::Stats;
use magic_duel::components::Vec2;
use magic_duel::systems::aabb_collision;
use magic_duel::systems::poison_damage_system;
use magic_duel::systems::projectile_player_collision;
use magic_duel::systems::slow_system;

fn base_stats() -> Stats {
    Stats {
        move_speed: 200000,
        jump_force: 8000,
        damage: 10000,
        projectile_speed: 300000,
        shot_cooldown: 500,
        cooldown_timer: 0,
        poison_damage: 0,
        slow_amount: 0,
        aim_angle: 0,
    }
}

fn player_at(id: u64, x: i64, y: i64) -> Player {
    Player {
        id,
        pos: Vec2 { x, y },
        vel: Vec2 { x: 0, y: 0 },
        health: Health { current: 100000, max: 100000 },
        stats: base_stats(),
        inventory: Inventory { cards: Vec::new() },
        poisoned: None,
        slowed: None,
    }
}

fn plain_projectile(owner: u64, x: i64, y: i64, damage: i64) -> Projectile {
    Projectile {
        owner,
        damage,
        pos: Vec2 { x, y },
        vel: Vec2 { x: 0, y: 0 },
        lifetime: Lifetime { time_left: 2000 },
        poison: None,
        slow: None,
    }
}

fn arena_with(projectiles: Vec<Projectile>) -> Arena {
    Arena {
        player1: player_at(1, -100000, 0),
        player2: player_at(2, 100000, 0),
        projectiles,
    }
}

#[test]
fn boxes_touching_do_not_overlap() {
    let ps = Vec2 { x: 10000, y: 10000 };
    let pl = Vec2 { x: 30000, y: 30000 };
    // half-size sum is 20000 on each axis
    assert!(aabb_collision(Vec2 { x: 0, y: 0 }, ps, Vec2 { x: 19999, y: 0 }, pl));
    assert!(!aabb_collision(Vec2 { x: 0, y: 0 }, ps, Vec2 { x: 20000, y: 0 }, pl));
    assert!(!aabb_collision(Vec2 { x: 0, y: 0 }, ps, Vec2 { x: 0, y: 20000 }, pl));
    assert!(aabb_collision(Vec2 { x: 0, y: 0 }, ps, Vec2 { x: 19999, y: -19999 }, pl));
}

#[test]
fn hit_subtracts_damage_and_despawns() {
    let mut arena = arena_with(vec![plain_projectile(1, 95000, 0, 10000)]);
    let kills = projectile_player_collision(&mut arena);
    assert_eq!(arena.player2.health.current, 90000);
    assert_eq!(arena.player1.health.current, 100000);
    assert_eq!(arena.projectiles.len(), 0);
    assert_eq!(kills.len(), 0);
}

#[test]
fn missing_projectile_survives() {
    let mut arena = arena_with(vec![plain_projectile(1, 0, 0, 10000)]);
    let kills = projectile_player_collision(&mut arena);
    assert_eq!(arena.player2.health.current, 100000);
    assert_eq!(arena.projectiles.len(), 1);
    assert_eq!(kills.len(), 0);
}

#[test]
fn no_self_damage_even_when_overlapping_owner() {
    // the projectile sits right on its own firer
    let mut arena = arena_with(vec![plain_projectile(1, -100000, 0, 10000)]);
    let kills = projectile_player_collision(&mut arena);
    assert_eq!(arena.player1.health.current, 100000);
    assert_eq!(arena.player2.health.current, 100000);
    // nobody was hit, so the projectile flies on
    assert_eq!(arena.projectiles.len(), 1);
    assert_eq!(kills.len(), 0);
}

#[test]
fn overlapping_both_players_hits_only_the_first() {
    let mut arena = arena_with(vec![plain_projectile(2, 0, 0, 10000)]);
    // move the players onto the projectile so both boxes overlap it
    arena.player1.pos = Vec2 { x: -5000, y: 0 };
    arena.player2.pos = Vec2 { x: 5000, y: 0 };
    let kills = projectile_player_collision(&mut arena);
    // player 1 is first in iteration order and is not the owner
    assert_eq!(arena.player1.health.current, 90000);
    assert_eq!(arena.player2.health.current, 100000);
    assert_eq!(kills.len(), 0);
}

#[test]
fn overlapping_both_players_skips_the_owner() {
    let mut arena = arena_with(vec![plain_projectile(1, 0, 0, 10000)]);
    arena.player1.pos = Vec2 { x: -5000, y: 0 };
    arena.player2.pos = Vec2 { x: 5000, y: 0 };
    let kills = projectile_player_collision(&mut arena);
    assert_eq!(arena.player1.health.current, 100000);
    assert_eq!(arena.player2.health.current, 90000);
    assert_eq!(kills.len(), 0);
}

#[test]
fn lethal_hit_emits_one_kill_and_health_stops_at_zero() {
    let mut arena = arena_with(vec![plain_projectile(1, 95000, 0, 250000)]);
    let kills = projectile_player_collision(&mut arena);
    // intermediate arithmetic would go to -150000; the record reads 0
    assert_eq!(arena.player2.health.current, 0);
    assert_eq!(kills.len(), 1);
    assert_eq!(kills[0].winner, 1);
    assert_eq!(kills[0].loser, 2);
}

#[test]
fn payloads_attach_and_overwrite() {
    let mut first = plain_projectile(1, 95000, 0, 1000);
    first.poison = Some(PoisonEffect { damage_per_second: 5000, duration: 3000 });
    first.slow = Some(SlowEffect { amount: 300, duration: 2000 });
    let mut arena = arena_with(vec![first]);
    let _ = projectile_player_collision(&mut arena);
    let po = arena.player2.poisoned.unwrap();
    assert_eq!(po.damage_per_second, 5000);
    assert_eq!(po.remaining, 3000);
    let sl = arena.player2.slowed.unwrap();
    assert_eq!(sl.amount, 300);
    assert_eq!(sl.remaining, 2000);

    // a second slow-carrying hit replaces the status, never stacks with it
    let mut second = plain_projectile(1, 95000, 0, 1000);
    second.slow = Some(SlowEffect { amount: 500, duration: 1500 });
    arena.projectiles = vec![second];
    let _ = projectile_player_collision(&mut arena);
    let sl = arena.player2.slowed.unwrap();
    assert_eq!(sl.amount, 500);
    assert_eq!(sl.remaining, 1500);
    // poison was not re-applied, so the first instance is still running
    let po = arena.player2.poisoned.unwrap();
    assert_eq!(po.damage_per_second, 5000);
}

#[test]
fn earlier_hits_are_visible_to_later_projectiles() {
    let mut arena = arena_with(vec![
        plain_projectile(1, 95000, 0, 60000),
        plain_projectile(1, 105000, 0, 60000),
    ]);
    let kills = projectile_player_collision(&mut arena);
    assert_eq!(arena.player2.health.current, 0);
    // the second projectile finishes the job and emits the kill
    assert_eq!(kills.len(), 1);
    assert_eq!(kills[0].winner, 1);
}

#[test]
fn poison_ticks_and_last_tick_still_fires() {
    let mut arena = arena_with(Vec::new());
    arena.player2.poisoned = Some(magic_duel::components::Poisoned {
        damage_per_second: 5000,
        remaining: 100,
    });
    // the tick that crosses expiry still applies its full scaled damage
    poison_damage_system(&mut arena, 100);
    assert_eq!(arena.player2.health.current, 99500);
    assert!(arena.player2.poisoned.is_none());
}

#[test]
fn poison_does_not_drop_health_below_zero() {
    let mut arena = arena_with(Vec::new());
    arena.player2.health.current = 200;
    arena.player2.poisoned = Some(magic_duel::components::Poisoned {
        damage_per_second: 5000,
        remaining: 3000,
    });
    poison_damage_system(&mut arena, 1000);
    assert_eq!(arena.player2.health.current, 0);
    let po = arena.player2.poisoned.unwrap();
    assert_eq!(po.remaining, 2000);
}

#[test]
fn slow_expires_without_residue() {
    let mut arena = arena_with(Vec::new());
    arena.player1.slowed = Some(magic_duel::components::Slowed { amount: 500, remaining: 150 });
    slow_system(&mut arena, 100);
    let sl = arena.player1.slowed.unwrap();
    assert_eq!(sl.remaining, 50);
    assert_eq!(sl.amount, 500);
    slow_system(&mut arena, 100);
    assert!(arena.player1.slowed.is_none());
}
