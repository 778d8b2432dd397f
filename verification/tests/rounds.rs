use magic_duel::cards::CardId;
use magic_duel::components::Arena;
use magic_duel::components::Health;
use magic_duel::components::Inventory;
use magic_duel::components::Lifetime;
use magic_duel::components::Player;
use magic_duel::components::Poisoned;
use magic_duel::components::Projectile;
use magic_duel::components::Stats;
use magic_duel::components::Vec2;
use magic_duel::events::PlayerKilled;
use magic_duel::resources::CardSelection;
use magic_duel::resources::RoundManager;
use magic_duel::states::GameState;
use magic_duel::systems::card_input_system;
use magic_duel::systems::game_over_input;
use magic_duel::systems::round_manager;

fn base_stats() -> Stats {
    Stats {
        move_speed: 200000,
        jump_force: 8000,
        damage: 10000,
        projectile_speed: 300000,
        shot_cooldown: 500,
        cooldown_timer: 0,
        poison_damage: 0,
        slow_amount: 0,
        aim_angle: 0,
    }
}

fn player_at(id: u64, x: i64, y: i64) -> Player {
    Player {
        id,
        pos: Vec2 { x, y },
        vel: Vec2 { x: 0, y: 0 },
        health: Health { current: 100000, max: 100000 },
        stats: base_stats(),
        inventory: Inventory { cards: Vec::new() },
        poisoned: None,
        slowed: None,
    }
}

fn worn_arena() -> Arena {
    // mid-round wear: damage taken, players away from spawn, a live
    // projectile and a running status
    let mut arena = Arena {
        player1: player_at(1, -50000, 20000),
        player2: player_at(2, 30000, 0),
        projectiles: Vec::new(),
    };
    arena.player1.health.current = 40000;
    arena.player2.health.current = 0;
    arena.player2.poisoned = Some(Poisoned { damage_per_second: 5000, remaining: 1000 });
    arena.projectiles.push(Projectile {
        owner: 1,
        damage: 10000,
        pos: Vec2 { x: 0, y: 0 },
        vel: Vec2 { x: 0, y: 0 },
        lifetime: Lifetime { time_left: 2000 },
        poison: None,
        slow: None,
    });
    arena
}

#[test]
fn kill_awards_point_resets_arena_and_offers_draft() {
    let mut mgr = RoundManager::default();
    let mut selection = CardSelection::new();
    let mut arena = worn_arena();
    let mut state = GameState::InGame;
    let events = vec![PlayerKilled { winner: 1, loser: 2 }];
    round_manager(&mut mgr, &mut selection, &mut arena, &mut state, &events);

    assert_eq!(mgr.p1_score, 1);
    assert_eq!(mgr.p2_score, 0);
    // both players back at full health on their spawn points, no
    // projectiles and no statuses left
    assert_eq!(arena.player1.health.current, 100000);
    assert_eq!(arena.player2.health.current, 100000);
    assert_eq!(arena.player1.pos, Vec2 { x: -100000, y: 0 });
    assert_eq!(arena.player2.pos, Vec2 { x: 100000, y: 0 });
    assert!(arena.player2.poisoned.is_none());
    assert_eq!(arena.projectiles.len(), 0);
    // the loser drafts among exactly three distinct cards
    assert_eq!(state, GameState::CardSelection);
    assert_eq!(selection.loser, Some(2));
    assert_eq!(selection.choices.len(), 3);
    for i in 0..3 {
        for j in 0..i {
            assert_ne!(selection.choices[i].id, selection.choices[j].id);
        }
    }
}

#[test]
fn no_events_change_nothing() {
    let mut mgr = RoundManager::default();
    let mut selection = CardSelection::new();
    let mut arena = worn_arena();
    let mut state = GameState::InGame;
    let events: Vec<PlayerKilled> = Vec::new();
    round_manager(&mut mgr, &mut selection, &mut arena, &mut state, &events);
    assert_eq!(mgr.p1_score, 0);
    assert_eq!(state, GameState::InGame);
    assert_eq!(arena.player1.health.current, 40000);
    assert_eq!(arena.projectiles.len(), 1);
    assert!(selection.loser.is_none());
}

#[test]
fn match_point_ends_the_match_without_a_draft() {
    let mut mgr = RoundManager { p1_score: 2, p2_score: 1, rounds_to_win: 3 };
    let mut selection = CardSelection::new();
    let mut arena = worn_arena();
    let mut state = GameState::InGame;
    let events = vec![PlayerKilled { winner: 1, loser: 2 }];
    round_manager(&mut mgr, &mut selection, &mut arena, &mut state, &events);
    assert_eq!(mgr.p1_score, 3);
    assert_eq!(state, GameState::GameOver);
    // the third win short-circuits the draft phase entirely
    assert!(selection.loser.is_none());
    assert_eq!(selection.choices.len(), 0);
}

#[test]
fn valid_pick_applies_card_and_resumes_play() {
    let mut selection = CardSelection::new();
    selection.loser = Some(2);
    selection.choices = magic_duel::cards::random_choices_seeded(3, 7);
    let picked_id = selection.choices[1].id;
    let mut arena = worn_arena();
    let mut state = GameState::CardSelection;
    card_input_system(Some(1), &mut selection, &mut arena, &mut state);

    assert_eq!(state, GameState::InGame);
    assert!(selection.loser.is_none());
    assert_eq!(selection.choices.len(), 0);
    assert_eq!(arena.player2.inventory.cards, vec![picked_id]);
    // the loser's stats changed per the card's fixed rule
    let base = base_stats();
    let s = &arena.player2.stats;
    match picked_id {
        CardId::Power => assert_eq!(s.damage, 12000),
        CardId::Speed => assert_eq!(s.move_speed, 240000),
        CardId::Jump => assert_eq!(s.jump_force, 9600),
        CardId::Poison => assert_eq!(s.poison_damage, 5000),
        CardId::Slow => assert_eq!(s.slow_amount, 500),
    }
    // the winner's stats are untouched
    assert_eq!(arena.player1.stats, base);
}

#[test]
fn out_of_range_pick_is_a_no_op() {
    let mut selection = CardSelection::new();
    selection.loser = Some(1);
    selection.choices = magic_duel::cards::random_choices_seeded(3, 7);
    let mut arena = worn_arena();
    let mut state = GameState::CardSelection;
    card_input_system(Some(3), &mut selection, &mut arena, &mut state);
    assert_eq!(state, GameState::CardSelection);
    assert_eq!(selection.loser, Some(1));
    assert_eq!(selection.choices.len(), 3);
    assert_eq!(arena.player1.stats, base_stats());
    assert!(arena.player1.inventory.cards.is_empty());
}

#[test]
fn pick_without_a_loser_is_a_no_op() {
    let mut selection = CardSelection::new();
    let mut arena = worn_arena();
    let mut state = GameState::CardSelection;
    card_input_system(Some(0), &mut selection, &mut arena, &mut state);
    assert_eq!(state, GameState::CardSelection);
    assert!(selection.loser.is_none());
    assert_eq!(arena.player1.stats, base_stats());
}

#[test]
fn restart_resets_scores_and_arena() {
    let mut mgr = RoundManager { p1_score: 3, p2_score: 1, rounds_to_win: 3 };
    let mut arena = worn_arena();
    let mut state = GameState::GameOver;
    game_over_input(true, &mut mgr, &mut arena, &mut state);
    assert_eq!(mgr.p1_score, 0);
    assert_eq!(mgr.p2_score, 0);
    assert_eq!(mgr.rounds_to_win, 3);
    assert_eq!(state, GameState::InGame);
    assert_eq!(arena.player1.health.current, 100000);
    assert_eq!(arena.player1.pos, Vec2 { x: -100000, y: 0 });
    assert_eq!(arena.player2.pos, Vec2 { x: 100000, y: 0 });
    assert_eq!(arena.projectiles.len(), 0);
}

#[test]
fn restart_outside_game_over_is_a_no_op() {
    let mut mgr = RoundManager { p1_score: 1, p2_score: 0, rounds_to_win: 3 };
    let mut arena = worn_arena();
    let mut state = GameState::InGame;
    game_over_input(true, &mut mgr, &mut arena, &mut state);
    assert_eq!(mgr.p1_score, 1);
    assert_eq!(state, GameState::InGame);
    assert_eq!(arena.player1.health.current, 40000);

    let mut state = GameState::GameOver;
    game_over_input(false, &mut mgr, &mut arena, &mut state);
    assert_eq!(state, GameState::GameOver);
    assert_eq!(mgr.p1_score, 1);
}
