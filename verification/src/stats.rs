//! Derived combat-stat display values: normalized percentages and the stat
//! total, computed from a player entity with pure integer arithmetic.

use vstd::prelude::*;
use vstd::arithmetic::div_mod::{
    lemma_div_is_ordered, lemma_div_pos_is_pos, lemma_fundamental_div_mod,
    lemma_fundamental_div_mod_converse_div, lemma_mod_bound,
};
use crate::game::Entity;

verus! {

/// The denominator used for the percentage gauges: the stat total, or 1 when
/// the total is zero, so that the division is always defined.
pub open spec fn pct_denom(total: int) -> int {
    if total == 0 {
        1
    } else {
        total
    }
}

/// `stat / denom * 100`, rounded half up, over mathematical integers.
pub open spec fn pct_round(stat: int, total: int) -> int {
    (200 * stat + pct_denom(total)) / (2 * pct_denom(total))
}

/// Display values derived from a player entity for one frame.
pub struct DerivedStats {
    pub attack_pct: u16,
    pub defense_pct: u16,
    pub regen_pct: u16,
    pub total_points: u32,
}

/// A rounded percentage of a non-negative stat within its total is in [0, 100].
pub proof fn lemma_pct_round_in_range(stat: int, total: int)
    requires
        0 <= stat <= total,
    ensures
        0 <= pct_round(stat, total) <= 100,
{
    let d = pct_denom(total);
    let x = 200 * stat + d;
    lemma_div_pos_is_pos(x, 2 * d);
    assert(x <= 201 * d);
    lemma_div_is_ordered(x, 201 * d, 2 * d);
    lemma_fundamental_div_mod_converse_div(201 * d, 2 * d, 100, d);
    assert(201 * d == 100 * (2 * d) + d) by (nonlinear_arith);
}

/// Law: for non-negative stats whose sum is positive, the three rounded
/// percentages each lie in [0, 100] and their sum is within one of 100.
pub proof fn lemma_pct_round_sum_near_100(a: int, d: int, g: int)
    requires
        0 <= a,
        0 <= d,
        0 <= g,
        0 < a + d + g,
    ensures
        0 <= pct_round(a, a + d + g) <= 100,
        0 <= pct_round(d, a + d + g) <= 100,
        0 <= pct_round(g, a + d + g) <= 100,
        99 <= pct_round(a, a + d + g) + pct_round(d, a + d + g) + pct_round(g, a + d + g) <= 101,
{
    let s = a + d + g;
    lemma_pct_round_in_range(a, s);
    lemma_pct_round_in_range(d, s);
    lemma_pct_round_in_range(g, s);
    let t = 2 * s;
    let xa = 200 * a + s;
    let xd = 200 * d + s;
    let xg = 200 * g + s;
    lemma_fundamental_div_mod(xa, t);
    lemma_fundamental_div_mod(xd, t);
    lemma_fundamental_div_mod(xg, t);
    lemma_mod_bound(xa, t);
    lemma_mod_bound(xd, t);
    lemma_mod_bound(xg, t);
    let qa = xa / t;
    let qd = xd / t;
    let qg = xg / t;
    let m = xa % t + xd % t + xg % t;
    let qq = qa + qd + qg;
    assert(t * qa + t * qd + t * qg == t * (qa + qd + qg)) by (nonlinear_arith);
    assert(t * qq == 203 * s - m);
    assert(0 <= m < 6 * s);
    assert(qq >= 99) by (nonlinear_arith)
        requires
            s > 0,
            2 * s * qq > 197 * s,
    ;
    assert(qq <= 101) by (nonlinear_arith)
        requires
            s > 0,
            2 * s * qq <= 203 * s,
    ;
    assert(pct_round(a, s) == qa);
    assert(pct_round(d, s) == qd);
    assert(pct_round(g, s) == qg);
}

/// Computes the derived display stats for a player. The total is taken in a
/// wide type so the sum never overflows; a zero total yields all-zero
/// percentages rather than a division fault.
pub fn derive_stats(player: &Entity) -> (r: DerivedStats)
    ensures
        r.total_points == player.attack + player.defense + player.regen,
        r.attack_pct == pct_round(player.attack as int, r.total_points as int),
        r.defense_pct == pct_round(player.defense as int, r.total_points as int),
        r.regen_pct == pct_round(player.regen as int, r.total_points as int),
        r.attack_pct <= 100,
        r.defense_pct <= 100,
        r.regen_pct <= 100,
        r.total_points == 0 ==> r.attack_pct == 0 && r.defense_pct == 0 && r.regen_pct == 0,
{
    let total: u32 = player.attack as u32 + player.defense as u32 + player.regen as u32;
    let denom: u32 = if total == 0 {
        1
    } else {
        total
    };
    proof {
        lemma_pct_round_in_range(player.attack as int, total as int);
        lemma_pct_round_in_range(player.defense as int, total as int);
        lemma_pct_round_in_range(player.regen as int, total as int);
    }
    let attack_pct: u32 = (200 * (player.attack as u32) + denom) / (2 * denom);
    let defense_pct: u32 = (200 * (player.defense as u32) + denom) / (2 * denom);
    let regen_pct: u32 = (200 * (player.regen as u32) + denom) / (2 * denom);
    DerivedStats {
        attack_pct: attack_pct as u16,
        defense_pct: defense_pct as u16,
        regen_pct: regen_pct as u16,
        total_points: total,
    }
}

} // verus!
