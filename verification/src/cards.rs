//! The card draft system: the fixed pool of stat-modifying cards, the
//! effect of acquiring one, and the random draw of draft choices.
//!
//! Multiplicative cards compound on repeat acquisition, the poison card
//! accumulates additively, and the slow card sets an absolute value: the
//! overwrite-not-stack asymmetry is deliberate and kept.

use vstd::prelude::*;

use rand::seq::SliceRandom;

use crate::components::Stats;
use crate::components::SCALE;
use crate::components::STAT_LIMIT;

verus! {

/// Numerator of the boost a multiplicative card applies: stats scale by
/// `CARD_BOOST_NUM / SCALE`, that is by 1.2, rounding down.
pub const CARD_BOOST_NUM: i64 = 1200;

/// Damage per second the poison card adds to the firing player's
/// projectiles, per acquisition.
pub const POISON_CARD_DPS: i64 = 5000;

/// Fraction of movement speed (in thousandths) the slow card's projectiles
/// take from their victim; reacquisition sets the same absolute value.
pub const SLOW_CARD_AMOUNT: i64 = 500;

/// Number of cards in the fixed pool.
pub const POOL_SIZE: usize = 5;

/// Identity of a card in the fixed pool.
#[derive(Clone, Copy, PartialEq, Eq, Structural, Debug)]
pub enum CardId {
    Power,
    Speed,
    Jump,
    Poison,
    Slow,
}

/// An immutable card definition: its identity plus the text the draft
/// screen shows.
#[derive(Clone, Copy, Debug)]
pub struct Card {
    pub id: CardId,
    pub name: &'static str,
    pub description: &'static str,
}

/// The ids of the fixed pool, in pool order.
pub open spec fn pool_ids() -> Seq<CardId> {
    seq![CardId::Power, CardId::Speed, CardId::Jump, CardId::Poison, CardId::Slow]
}

/// The full card pool, fixed at process start.
pub fn card_pool() -> (pool: Vec<Card>)
    ensures
        pool@.len() == POOL_SIZE,
        forall|i: int| 0 <= i < pool@.len() ==> (#[trigger] pool@[i]).id == pool_ids()[i],
{
    let mut pool: Vec<Card> = Vec::new();
    pool.push(Card { id: CardId::Power, name: "Power", description: "Increase damage" });
    pool.push(Card { id: CardId::Speed, name: "Speed", description: "Increase move speed" });
    pool.push(Card { id: CardId::Jump, name: "Jump", description: "Increase jump force" });
    pool.push(Card { id: CardId::Poison, name: "Poison", description: "Projectiles apply poison" });
    pool.push(Card { id: CardId::Slow, name: "Frost", description: "Projectiles slow enemies" });
    assert(pool@ =~= seq![pool@[0], pool@[1], pool@[2], pool@[3], pool@[4]]);
    pool
}

/// A multiplicative boost: scale by `CARD_BOOST_NUM / SCALE`, rounding
/// down and saturating at `STAT_LIMIT`.
pub open spec fn spec_boost(x: int) -> int {
    if x * (CARD_BOOST_NUM as int) / (SCALE as int) > STAT_LIMIT {
        STAT_LIMIT as int
    } else {
        x * (CARD_BOOST_NUM as int) / (SCALE as int)
    }
}

/// Additive increase saturating at `STAT_LIMIT`.
pub open spec fn spec_add_capped(x: int, d: int) -> int {
    if x + d > STAT_LIMIT {
        STAT_LIMIT as int
    } else {
        x + d
    }
}

/// What acquiring a card does to a player's stats.
pub open spec fn spec_apply(card: CardId, s: Stats) -> Stats {
    match card {
        CardId::Power => Stats { damage: spec_boost(s.damage as int) as i64, ..s },
        CardId::Speed => Stats { move_speed: spec_boost(s.move_speed as int) as i64, ..s },
        CardId::Jump => Stats { jump_force: spec_boost(s.jump_force as int) as i64, ..s },
        CardId::Poison => Stats {
            poison_damage: spec_add_capped(s.poison_damage as int, POISON_CARD_DPS as int) as i64,
            ..s
        },
        CardId::Slow => Stats { slow_amount: SLOW_CARD_AMOUNT, ..s },
    }
}

/// Multiplicative boost on a bounded, non-negative stat.
fn boost(x: i64) -> (r: i64)
    requires
        0 <= x <= STAT_LIMIT,
    ensures
        r == spec_boost(x as int),
        0 <= r <= STAT_LIMIT,
{
    let scaled = x * CARD_BOOST_NUM / SCALE;
    if scaled > STAT_LIMIT {
        STAT_LIMIT
    } else {
        scaled
    }
}

/// Applies the chosen card's fixed rule to the target stats: the damage,
/// speed and jump cards each scale their stat by 1.2 (compounding on
/// repeat acquisition), the poison card adds `POISON_CARD_DPS`, and the
/// slow card sets `slow_amount` to the absolute `SLOW_CARD_AMOUNT`.
pub fn apply(card: CardId, stats: &mut Stats)
    requires
        old(stats).wf(),
    ensures
        *final(stats) == spec_apply(card, *old(stats)),
        final(stats).wf(),
{
    match card {
        CardId::Power => {
            stats.damage = boost(stats.damage);
        },
        CardId::Speed => {
            stats.move_speed = boost(stats.move_speed);
        },
        CardId::Jump => {
            stats.jump_force = boost(stats.jump_force);
        },
        CardId::Poison => {
            let raised = stats.poison_damage + POISON_CARD_DPS;
            stats.poison_damage = if raised > STAT_LIMIT {
                STAT_LIMIT
            } else {
                raised
            };
        },
        CardId::Slow => {
            stats.slow_amount = SLOW_CARD_AMOUNT;
        },
    }
}

/// The order a seeded shuffle gives to a sequence of indices: a function
/// of the seed and the input alone.
pub uninterp spec fn seeded_shuffle(seed: u64, s: Seq<usize>) -> Seq<usize>;

/// Relies on rand::seq::SliceRandom::shuffle with rand::thread_rng: a
/// Fisher-Yates pass permutes the slice in place, so length, membership
/// and duplicate-freedom are preserved.
#[verifier::external_body]
fn shuffle_in_place(v: &mut Vec<usize>)
    ensures
        final(v)@.to_multiset() == old(v)@.to_multiset(),
        final(v)@.len() == old(v)@.len(),
        forall|x: usize| final(v)@.contains(x) == old(v)@.contains(x),
        old(v)@.no_duplicates() ==> final(v)@.no_duplicates(),
{
    v.shuffle(&mut rand::thread_rng());
}

/// Relies on rand::seq::SliceRandom::shuffle with rand::rngs::StdRng
/// seeded through rand::SeedableRng::seed_from_u64: the order depends on
/// the seed and the slice's contents alone, and is a permutation of the
/// input, so length, membership and duplicate-freedom are preserved.
#[verifier::external_body]
fn shuffle_in_place_seeded(v: &mut Vec<usize>, seed: u64)
    ensures
        final(v)@ == seeded_shuffle(seed, old(v)@),
        final(v)@.to_multiset() == old(v)@.to_multiset(),
        final(v)@.len() == old(v)@.len(),
        forall|x: usize| final(v)@.contains(x) == old(v)@.contains(x),
        old(v)@.no_duplicates() ==> final(v)@.no_duplicates(),
{
    let mut rng = <rand::rngs::StdRng as rand::SeedableRng>::seed_from_u64(seed);
    v.shuffle(&mut rng);
}

/// The identity permutation of the pool's indices, the input every shuffle
/// starts from.
pub open spec fn base_indices() -> Seq<usize> {
    seq![0usize, 1usize, 2usize, 3usize, 4usize]
}

/// Builds `[0, 1, 2, 3, 4]`.
fn pool_indices() -> (v: Vec<usize>)
    ensures
        v@ == base_indices(),
{
    let mut v: Vec<usize> = Vec::new();
    v.push(0);
    v.push(1);
    v.push(2);
    v.push(3);
    v.push(4);
    assert(v@ =~= base_indices());
    v
}

/// The deterministic tail of a draw: given the pool and a shuffled order
/// of its indices, takes the first `n` (all of them when `n` exceeds the
/// pool). Distinct order entries give distinct cards.
pub fn choices_from_order(pool: &Vec<Card>, order: &Vec<usize>, n: usize) -> (r: Vec<Card>)
    requires
        forall|i: int| 0 <= i < order@.len() ==> (#[trigger] order@[i]) < pool@.len(),
    ensures
        r@.len() == if n <= order@.len() { n as int } else { order@.len() as int },
        forall|i: int| 0 <= i < r@.len() ==> (#[trigger] r@[i]) == pool@[order@[i] as int],
{
    let k = if n <= order.len() {
        n
    } else {
        order.len()
    };
    let mut r: Vec<Card> = Vec::new();
    let mut i: usize = 0;
    while i < k
        invariant
            0 <= i <= k,
            k <= order@.len(),
            r@.len() == i,
            forall|j: int| 0 <= j < order@.len() ==> (#[trigger] order@[j]) < pool@.len(),
            forall|j: int| 0 <= j < i ==> (#[trigger] r@[j]) == pool@[order@[j] as int],
        decreases k - i,
    {
        r.push(pool[order[i]]);
        i = i + 1;
    }
    r
}

/// Draws `n` draft choices: shuffles the full pool uniformly at random and
/// takes the first `n`, distinct and without replacement; when `n` exceeds
/// the pool size the whole shuffled pool comes back.
pub fn random_choices(n: usize) -> (r: Vec<Card>)
    ensures
        r@.len() == if n <= POOL_SIZE { n as int } else { POOL_SIZE as int },
        forall|i: int| 0 <= i < r@.len() ==> pool_ids().contains((#[trigger] r@[i]).id),
        forall|i: int, j: int| 0 <= i < j < r@.len() ==> r@[i].id != r@[j].id,
{
    let pool = card_pool();
    let mut order = pool_indices();
    shuffle_in_place(&mut order);
    proof {
        lemma_shuffled_pool_order(order@);
    }
    let r = choices_from_order(&pool, &order, n);
    proof {
        lemma_choice_ids(pool@, order@, r@);
    }
    r
}

/// Draws `n` draft choices from a shuffle driven by a deterministic seed:
/// the resulting ids are a function of the seed and `n` alone, distinct
/// and all drawn from the pool.
pub fn random_choices_seeded(n: usize, seed: u64) -> (r: Vec<Card>)
    ensures
        r@.len() == if n <= POOL_SIZE { n as int } else { POOL_SIZE as int },
        forall|i: int|
            0 <= i < r@.len() ==> (#[trigger] r@[i]).id == pool_ids()[seeded_shuffle(
                seed,
                base_indices(),
            )[i] as int],
        forall|i: int| 0 <= i < r@.len() ==> pool_ids().contains((#[trigger] r@[i]).id),
        forall|i: int, j: int| 0 <= i < j < r@.len() ==> r@[i].id != r@[j].id,
{
    let pool = card_pool();
    let mut order = pool_indices();
    shuffle_in_place_seeded(&mut order, seed);
    proof {
        lemma_shuffled_pool_order(order@);
    }
    let r = choices_from_order(&pool, &order, n);
    proof {
        lemma_choice_ids(pool@, order@, r@);
    }
    r
}

/// A permutation of the pool's index range stays inside the range and
/// duplicate-free.
proof fn lemma_shuffled_pool_order(order: Seq<usize>)
    requires
        order.len() == base_indices().len(),
        forall|x: usize| order.contains(x) == base_indices().contains(x),
        order.no_duplicates(),
    ensures
        forall|i: int| 0 <= i < order.len() ==> (#[trigger] order[i]) < POOL_SIZE,
{
    assert forall|i: int| 0 <= i < order.len() implies (#[trigger] order[i]) < POOL_SIZE by {
        assert(order.contains(order[i]));
        assert(base_indices().contains(order[i]));
        let w = choose|w: int| 0 <= w < base_indices().len() && base_indices()[w] == order[i];
        assert(base_indices()[w] < POOL_SIZE);
    }
}

/// Cards picked at duplicate-free positions of the pool have distinct ids
/// and ids drawn from the pool.
proof fn lemma_choice_ids(pool: Seq<Card>, order: Seq<usize>, r: Seq<Card>)
    requires
        pool.len() == POOL_SIZE,
        forall|i: int| 0 <= i < pool.len() ==> (#[trigger] pool[i]).id == pool_ids()[i],
        forall|i: int| 0 <= i < order.len() ==> (#[trigger] order[i]) < POOL_SIZE,
        order.no_duplicates(),
        r.len() <= order.len(),
        forall|i: int| 0 <= i < r.len() ==> (#[trigger] r[i]) == pool[order[i] as int],
    ensures
        forall|i: int| 0 <= i < r.len() ==> pool_ids().contains((#[trigger] r[i]).id),
        forall|i: int, j: int| 0 <= i < j < r.len() ==> r[i].id != r[j].id,
{
    assert forall|i: int| 0 <= i < r.len() implies pool_ids().contains((#[trigger] r[i]).id) by {
        assert(r[i].id == pool_ids()[order[i] as int]);
    }
    assert forall|i: int, j: int| 0 <= i < j < r.len() implies r[i].id != r[j].id by {
        assert(order[i] != order[j]);
        assert(r[i].id == pool_ids()[order[i] as int]);
        assert(r[j].id == pool_ids()[order[j] as int]);
    }
}

} // verus!
