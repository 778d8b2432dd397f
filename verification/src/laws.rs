//! The guarantees the duel's subsystems give as a whole, each stated over
//! the specification functions that the systems' contracts use.

use vstd::prelude::*;

use crate::cards::base_indices;
use crate::cards::pool_ids;
use crate::cards::seeded_shuffle;
use crate::cards::spec_apply;
use crate::cards::Card;
use crate::cards::CardId;
use crate::cards::POISON_CARD_DPS;
use crate::cards::POOL_SIZE;
use crate::cards::SLOW_CARD_AMOUNT;
use crate::components::Health;
use crate::components::Player;
use crate::components::Projectile;
use crate::components::Slowed;
use crate::components::Stats;
use crate::components::STAT_LIMIT;
use crate::events::PlayerKilled;
use crate::states::GameState;
use crate::systems::spec_any_draft;
use crate::systems::spec_apply_hit;
use crate::systems::spec_hit_health;
use crate::systems::spec_proj_hits;
use crate::systems::spec_resolve_combat;
use crate::systems::spec_resolve_one;
use crate::systems::spec_round_fold;

verus! {

/// Health after a whole sequence of hits, applied in order.
pub open spec fn spec_health_after_hits(h: Health, hits: Seq<int>) -> Health
    decreases hits.len(),
{
    if hits.len() == 0 {
        h
    } else {
        spec_hit_health(spec_health_after_hits(h, hits.drop_last()), hits.last())
    }
}

/// Health clamp: whatever sequence of hits lands, the recorded health
/// never drops below zero (and never rises above the maximum), so no
/// snapshot ever reports a negative value.
pub proof fn lemma_health_never_below_zero(h: Health, hits: Seq<int>)
    requires
        h.wf(),
        forall|i: int| 0 <= i < hits.len() ==> #[trigger] hits[i] >= 0,
    ensures
        spec_health_after_hits(h, hits).wf(),
        0 <= spec_health_after_hits(h, hits).current,
        spec_health_after_hits(h, hits).max == h.max,
    decreases hits.len(),
{
    if hits.len() > 0 {
        lemma_health_never_below_zero(h, hits.drop_last());
        assert(hits[hits.len() - 1] >= 0);
    }
}

/// No self-damage, one projectile at a time: whatever a projectile's
/// position, direction or payload, resolving it leaves its own firer
/// exactly as it was.
pub proof fn lemma_projectile_never_hits_owner(p1: Player, p2: Player, pr: Projectile)
    requires
        p1.id == 1,
        p2.id == 2,
    ensures
        pr.owner == 1 ==> spec_resolve_one(p1, p2, pr).0 == p1,
        pr.owner == 2 ==> spec_resolve_one(p1, p2, pr).1 == p2,
{
}

/// No self-damage: a combat pass over projectiles all fired by one
/// player leaves that player entirely untouched, whatever the
/// projectiles' positions, directions or payloads.
pub proof fn lemma_no_self_damage(p1: Player, p2: Player, prs: Seq<Projectile>, shooter: u64)
    requires
        p1.id == 1,
        p2.id == 2,
        forall|i: int| 0 <= i < prs.len() ==> (#[trigger] prs[i]).owner == shooter,
    ensures
        shooter == 1 ==> spec_resolve_combat(p1, p2, prs).0 == p1,
        shooter == 2 ==> spec_resolve_combat(p1, p2, prs).1 == p2,
    decreases prs.len(),
{
    if prs.len() > 0 {
        lemma_no_self_damage(p1, p2, prs.drop_last(), shooter);
        assert(prs[prs.len() - 1].owner == shooter);
    }
}

/// A player that no live projectile can hit — by ownership or by
/// position — comes out of a whole combat pass unchanged, whatever the
/// other projectiles do to the other player.
pub proof fn lemma_untargeted_player_unchanged(p1: Player, p2: Player, prs: Seq<Projectile>)
    ensures
        (forall|i: int| 0 <= i < prs.len() ==> !spec_proj_hits(#[trigger] prs[i], p1))
            ==> spec_resolve_combat(p1, p2, prs).0 == p1,
        (forall|i: int| 0 <= i < prs.len() ==> !spec_proj_hits(#[trigger] prs[i], p2))
            ==> spec_resolve_combat(p1, p2, prs).1 == p2,
    decreases prs.len(),
{
    if prs.len() > 0 {
        lemma_untargeted_player_unchanged(p1, p2, prs.drop_last());
        crate::systems::lemma_resolve_preserves_pose(p1, p2, prs.drop_last());
        assert(forall|i: int| 0 <= i < prs.len() - 1 ==> prs.drop_last()[i] == prs[i]);
    }
}

/// Single hit per tick: resolving one projectile touches at most one
/// player, and a projectile that may hit player 1 — the first in
/// iteration order — never touches player 2, even while overlapping
/// both.
pub proof fn lemma_single_hit_per_projectile(p1: Player, p2: Player, pr: Projectile)
    ensures
        spec_resolve_one(p1, p2, pr).0 == p1 || spec_resolve_one(p1, p2, pr).1 == p2,
        spec_proj_hits(pr, p1) ==> spec_resolve_one(p1, p2, pr).1 == p2,
        spec_proj_hits(pr, p1) ==> spec_resolve_one(p1, p2, pr).0 == spec_apply_hit(p1, pr),
        !spec_proj_hits(pr, p1) && spec_proj_hits(pr, p2) ==> spec_resolve_one(p1, p2, pr).0 == p1
            && spec_resolve_one(p1, p2, pr).1 == spec_apply_hit(p2, pr),
{
}

/// Status non-stacking on the card side: acquiring the slow card twice
/// leaves the slow amount at its absolute value, not compounded, while
/// acquiring the poison card twice accumulates its rate additively.
pub proof fn lemma_status_non_stacking(s: Stats)
    requires
        s.wf(),
    ensures
        spec_apply(CardId::Slow, spec_apply(CardId::Slow, s)).slow_amount == SLOW_CARD_AMOUNT,
        s.poison_damage + 2 * POISON_CARD_DPS <= STAT_LIMIT ==> spec_apply(
            CardId::Poison,
            spec_apply(CardId::Poison, s),
        ).poison_damage == s.poison_damage + 2 * POISON_CARD_DPS,
{
}

/// Status non-stacking on the hit side: a second slow-carrying hit fully
/// replaces the first attached status — magnitude and remaining time
/// come from the newer payload alone, never a combination.
pub proof fn lemma_hit_status_overwrites(pl: Player, a: Projectile, b: Projectile)
    requires
        a.slow is Some,
        b.slow is Some,
    ensures
        spec_apply_hit(spec_apply_hit(pl, a), b).slowed == Some(
            Slowed { amount: b.slow->0.amount, remaining: b.slow->0.duration },
        ),
{
}

/// Draft determinism under a fixed seed: any two draws whose ids are
/// pinned by the same seed and count — as the seeded draw's contract
/// pins them — offer the same card ids in the same order. Which ids a
/// fresh seed yields is the random source's business; that a repeated
/// seed repeats them is proved here.
pub proof fn lemma_seeded_draw_deterministic(a: Seq<Card>, b: Seq<Card>, n: int, seed: u64)
    requires
        a.len() == if n <= POOL_SIZE as int {
            n
        } else {
            POOL_SIZE as int
        },
        b.len() == if n <= POOL_SIZE as int {
            n
        } else {
            POOL_SIZE as int
        },
        forall|i: int|
            0 <= i < a.len() ==> (#[trigger] a[i]).id == pool_ids()[seeded_shuffle(
                seed,
                base_indices(),
            )[i] as int],
        forall|i: int|
            0 <= i < b.len() ==> (#[trigger] b[i]).id == pool_ids()[seeded_shuffle(
                seed,
                base_indices(),
            )[i] as int],
    ensures
        a.map_values(|c: Card| c.id) == b.map_values(|c: Card| c.id),
{
    assert(a.map_values(|c: Card| c.id) =~= b.map_values(|c: Card| c.id));
}

/// Match termination: a kill that brings the winner's score up to the
/// goal ends the match at once — the state machine moves to `GameOver`
/// and no draft is offered for that kill.
pub proof fn lemma_match_termination(
    need: int,
    s1: int,
    s2: int,
    st: GameState,
    loser: Option<u64>,
    e: PlayerKilled,
)
    requires
        (e.winner == 1 && s1 + 1 >= need) || (e.winner == 2 && s2 + 1 >= need),
    ensures
        spec_round_fold(need, s1, s2, st, loser, seq![e]).2 == GameState::GameOver,
        spec_round_fold(need, s1, s2, st, loser, seq![e]).3 == loser,
        !spec_any_draft(need, s1, s2, seq![e]),
{
    let none: Seq<PlayerKilled> = Seq::empty();
    assert(seq![e].drop_last() =~= none);
    assert(seq![e].last() == e);
    assert(spec_round_fold(need, s1, s2, st, loser, none) == (s1, s2, st, loser));
    assert(!spec_any_draft(need, s1, s2, none));
}

} // verus!
