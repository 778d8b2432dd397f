use magic_duel::components::Lifetime;
use magic_duel::components::Projectile;
use magic_duel::components::Vec2;
use magic_duel::states::GameState;
use magic_duel::systems::projectile_player_collision;
use magic_duel::systems::round_manager;
use magic_duel::systems::setup;
use magic_duel::systems::PlayerInput;

fn shot_at_player2() -> Projectile {
    Projectile {
        owner: 1,
        damage: 10000,
        pos: Vec2 { x: 95000, y: 0 },
        vel: Vec2 { x: 0, y: 0 },
        lifetime: Lifetime { time_left: 2000 },
        poison: None,
        slow: None,
    }
}

#[test]
fn fresh_match_starts_in_play() {
    let g = setup();
    assert_eq!(g.arena.player1.pos, Vec2 { x: -100000, y: 0 });
    assert_eq!(g.arena.player2.pos, Vec2 { x: 100000, y: 0 });
    assert_eq!(g.arena.player1.health.current, 100000);
    assert_eq!(g.arena.player2.health.current, 100000);
    assert_eq!(g.round_manager.rounds_to_win, 3);
    assert_eq!(g.state, GameState::InGame);
    assert!(g.selection.loser.is_none());
    assert_eq!(g.arena.projectiles.len(), 0);
}

#[test]
fn ten_hits_end_the_round() {
    let mut g = setup();
    // nine hits land: health drops by 10 each, no kill is emitted
    for round in 1..=9i64 {
        g.arena.projectiles.push(shot_at_player2());
        let kills = projectile_player_collision(&mut g.arena);
        assert_eq!(kills.len(), 0);
        assert_eq!(g.arena.projectiles.len(), 0);
        assert_eq!(g.arena.player2.health.current, 100000 - round * 10000);
    }
    // the tenth hit brings health to exactly zero and emits one kill
    g.arena.projectiles.push(shot_at_player2());
    let kills = projectile_player_collision(&mut g.arena);
    assert_eq!(g.arena.player2.health.current, 0);
    assert_eq!(kills.len(), 1);
    assert_eq!(kills[0].winner, 1);
    assert_eq!(kills[0].loser, 2);

    round_manager(
        &mut g.round_manager,
        &mut g.selection,
        &mut g.arena,
        &mut g.state,
        &kills,
    );
    assert_eq!(g.round_manager.p1_score, 1);
    assert_eq!(g.arena.player1.pos, Vec2 { x: -100000, y: 0 });
    assert_eq!(g.arena.player2.pos, Vec2 { x: 100000, y: 0 });
    assert_eq!(g.arena.player1.health.current, 100000);
    assert_eq!(g.arena.player2.health.current, 100000);
    assert_eq!(g.arena.projectiles.len(), 0);
    assert_eq!(g.state, GameState::CardSelection);
    assert_eq!(g.selection.loser, Some(2));
    assert_eq!(g.selection.choices.len(), 3);
}

#[test]
fn a_fired_shot_crosses_the_arena_and_lands() {
    let mut g = setup();
    let mut fire = PlayerInput::idle();
    fire.fire = true;
    fire.fire_dir = Vec2 { x: 1000, y: 0 };
    let idle = PlayerInput::idle();
    g.tick(&fire, &idle, None, false, 100);
    assert_eq!(g.arena.projectiles.len(), 1);
    // the projectile leaves the muzzle at -90 units and covers 30 per tick
    assert_eq!(g.arena.projectiles[0].pos.x, -60000);
    for _ in 0..5 {
        g.tick(&idle, &idle, None, false, 100);
    }
    // six ticks in, the shot reaches player 2's box and lands
    assert_eq!(g.arena.projectiles.len(), 0);
    assert_eq!(g.arena.player2.health.current, 90000);
    assert_eq!(g.state, GameState::InGame);
}

#[test]
fn combat_is_ignored_while_drafting() {
    let mut g = setup();
    g.arena.projectiles.push(Projectile {
        damage: 100000,
        ..shot_at_player2()
    });
    let kills = projectile_player_collision(&mut g.arena);
    round_manager(
        &mut g.round_manager,
        &mut g.selection,
        &mut g.arena,
        &mut g.state,
        &kills,
    );
    assert_eq!(g.state, GameState::CardSelection);

    // fire triggers held during the draft are dropped: no projectile
    // spawns and nothing moves
    let mut fire = PlayerInput::idle();
    fire.fire = true;
    g.tick(&fire, &fire, None, false, 100);
    assert_eq!(g.state, GameState::CardSelection);
    assert_eq!(g.arena.projectiles.len(), 0);
    assert_eq!(g.arena.player1.health.current, 100000);
    assert_eq!(g.arena.player1.pos, Vec2 { x: -100000, y: 0 });

    // a pick during the draft tick applies the card and resumes play
    let idle = PlayerInput::idle();
    g.tick(&idle, &idle, Some(0), false, 100);
    assert_eq!(g.state, GameState::InGame);
    assert!(g.selection.loser.is_none());
    assert_eq!(g.selection.choices.len(), 0);
    assert_eq!(g.arena.player2.inventory.cards.len(), 1);
}

#[test]
fn poison_alone_never_ends_a_round() {
    let mut g = setup();
    g.arena.player2.health.current = 100;
    g.arena.player2.poisoned = Some(magic_duel::components::Poisoned {
        damage_per_second: 5000,
        remaining: 3000,
    });
    let idle = PlayerInput::idle();
    g.tick(&idle, &idle, None, false, 1000);
    // the poison drains health to the floor, but only a projectile hit
    // emits a kill, so the round keeps going
    assert_eq!(g.arena.player2.health.current, 0);
    assert_eq!(g.state, GameState::InGame);
    assert_eq!(g.round_manager.p1_score, 0);
}

#[test]
fn full_match_reaches_game_over_and_restarts() {
    let mut g = setup();
    for kill in 1..=3u32 {
        g.arena.projectiles.push(Projectile {
            damage: 100000,
            ..shot_at_player2()
        });
        let kills = projectile_player_collision(&mut g.arena);
        assert_eq!(kills.len(), 1);
        round_manager(
            &mut g.round_manager,
            &mut g.selection,
            &mut g.arena,
            &mut g.state,
            &kills,
        );
        assert_eq!(g.round_manager.p1_score, kill);
        if kill < 3 {
            assert_eq!(g.state, GameState::CardSelection);
            // the loser picks the first offered card
            magic_duel::systems::card_input_system(
                Some(0),
                &mut g.selection,
                &mut g.arena,
                &mut g.state,
            );
            assert_eq!(g.state, GameState::InGame);
            assert_eq!(g.arena.player2.inventory.cards.len(), kill as usize);
        }
    }
    // the third kill ends the match with no draft offered
    assert_eq!(g.state, GameState::GameOver);
    assert!(g.selection.loser.is_none());
    assert_eq!(g.selection.choices.len(), 0);

    let idle = PlayerInput::idle();
    g.tick(&idle, &idle, None, true, 100);
    assert_eq!(g.state, GameState::InGame);
    assert_eq!(g.round_manager.p1_score, 0);
    assert_eq!(g.round_manager.p2_score, 0);
    // acquired cards persist across a restart; health and spawn reset
    assert_eq!(g.arena.player2.inventory.cards.len(), 2);
    assert_eq!(g.arena.player2.health.current, 100000);
    assert_eq!(g.arena.player1.pos, Vec2 { x: -100000, y: 0 });
    assert_eq!(g.arena.player2.pos, Vec2 { x: 100000, y: 0 });
}
