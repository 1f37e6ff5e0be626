use vstd::prelude::*;

use crate::internal::{
    lemma_deposit_used_bounds, shares_for_overflows, spec_assets_for, spec_shares_for,
};
use crate::message::spec_field_u128;
use crate::mul_div::{div_up, lemma_div_up_bounds, rounded_div, Rounding};
use crate::{
    commit_transition, compensation_transition, deposit_rejection, spec_deposit_shares,
    spec_deposit_used, ERC4626Vault,
};

verus! {

/// Converting nothing yields nothing: zero assets are worth zero shares and
/// zero shares are owed zero assets, at every state and under either
/// rounding.
pub proof fn lemma_zero_conversions(total_assets: u128, supply: u128, rounding: Rounding)
    ensures
        spec_shares_for(0, total_assets, supply, rounding) == 0,
        spec_assets_for(0, total_assets, supply, rounding) == 0,
{
    if supply != 0 {
        let d = total_assets as int + 1;
        vstd::arithmetic::div_mod::lemma_div_of0(d);
        vstd::arithmetic::div_mod::lemma_mod_multiples_basic(0, d);
        vstd::arithmetic::div_mod::lemma_div_of0(supply as int);
        vstd::arithmetic::div_mod::lemma_mod_multiples_basic(0, supply as int);
    }
}

/// The first deposit into an empty vault is one-to-one: with no shares
/// issued and no assets pooled, a plain deposit of `amount` is accepted,
/// mints exactly `amount` shares, costs exactly `amount`, and leaves
/// nothing unused.
pub proof fn lemma_first_deposit_one_to_one(
    v: ERC4626Vault,
    predecessor: Seq<char>,
    amount: u128,
    msg: Seq<char>,
)
    requires
        v.spec_total_supply() == 0,
        v.total_assets == 0,
        amount > 0,
        predecessor == v.asset.spec_contract_id(),
        spec_field_u128(msg, "min_shares"@) is None,
        spec_field_u128(msg, "max_shares"@) is None,
    ensures
        deposit_rejection(v, predecessor, amount, msg) is None,
        spec_deposit_shares(v, amount, msg) == amount,
        spec_deposit_used(v, amount, msg) == amount,
{
}

/// A committed withdrawal followed by its compensation restores every
/// observable of the vault: each account's balance, the share supply, and
/// the pooled assets all return to their values before the withdrawal.
pub proof fn lemma_compensation_restores(
    v0: ERC4626Vault,
    v1: ERC4626Vault,
    v2: ERC4626Vault,
    owner: Seq<char>,
    shares: u128,
    assets: u128,
)
    requires
        commit_transition(v0, v1, owner, shares, assets),
        compensation_transition(v1, v2, owner, shares, assets),
    ensures
        v2.total_assets == v0.total_assets,
        v2.spec_total_supply() == v0.spec_total_supply(),
        forall|id: Seq<char>| v2.spec_balance_of(id) == v0.spec_balance_of(id),
        v2.asset == v0.asset,
        v2.metadata == v0.metadata,
        v2.owner == v0.owner,
{
    assert forall|id: Seq<char>| v2.spec_balance_of(id) == v0.spec_balance_of(id) by {
        if id != owner {
            assert(v1.spec_balance_of(id) == v0.spec_balance_of(id));
            assert(v2.spec_balance_of(id) == v1.spec_balance_of(id));
        }
    }
}

/// Round trip: where shares are outstanding, a deposit that mints `n` shares
/// for a cost of `u`, immediately followed by a redeem of those `n` shares,
/// returns at most `u` — never more than was paid in — and falls short of
/// `u` by at most one unit.
pub proof fn lemma_round_trip(ta: u128, s: u128, x: u128, n: u128, u: u128)
    requires
        s > 0,
        !shares_for_overflows(x, ta, s),
        n as int == spec_shares_for(x, ta, s, Rounding::Down),
        u as int == spec_assets_for(n, ta, s, Rounding::Up),
        u > 0,
        ta + u <= u128::MAX,
        s + n <= u128::MAX,
    ensures
        u <= x,
        spec_assets_for(n, (ta + u) as u128, (s + n) as u128, Rounding::Down) <= u,
        u - 1 <= spec_assets_for(n, (ta + u) as u128, (s + n) as u128, Rounding::Down),
{
    let a = ta as int;
    let sp = s as int;
    let nn = n as int;
    let uu = u as int;
    let d = a + 1;
    let y = nn * d;

    lemma_deposit_used_bounds(x, ta, s, n);
    assert(uu == div_up(y, sp));
    vstd::arithmetic::mul::lemma_mul_nonnegative(nn, d);
    lemma_div_up_bounds(y, sp);

    if nn == 0 {
        assert(y == 0) by (nonlinear_arith)
            requires
                y == nn * d,
                nn == 0,
        ;
        vstd::arithmetic::div_mod::lemma_div_of0(sp);
        vstd::arithmetic::div_mod::lemma_fundamental_div_mod(0, sp);
        assert(0int % sp == 0);
        assert(div_up(0int, sp) == 0);
        assert(false);
    }

    let d2 = sp + nn;
    let post_num = nn * (a + uu + 1);
    assert(post_num == y + nn * uu) by (nonlinear_arith)
        requires
            y == nn * d,
            d == a + 1,
            post_num == nn * (a + uu + 1),
    ;

    // The redeem never returns more than was paid in.
    assert(post_num < (uu + 1) * d2) by (nonlinear_arith)
        requires
            post_num == y + nn * uu,
            uu * sp >= y,
            d2 == sp + nn,
            sp >= 1,
            nn >= 1,
            uu >= 1,
    ;
    vstd::arithmetic::div_mod::lemma_multiply_divide_lt(post_num, d2, uu + 1);
    assert(post_num / d2 <= uu);

    // It falls short by at most one unit.
    assert(post_num >= (uu - 1) * d2) by (nonlinear_arith)
        requires
            post_num == y + nn * uu,
            uu * sp <= y + sp - 1,
            d2 == sp + nn,
            sp >= 1,
            nn >= 1,
            uu >= 1,
    ;
    vstd::arithmetic::mul::lemma_mul_is_commutative(uu - 1, d2);
    vstd::arithmetic::div_mod::lemma_div_multiples_vanish(uu - 1, d2);
    vstd::arithmetic::div_mod::lemma_div_is_ordered((uu - 1) * d2, post_num, d2);
    assert(post_num / d2 >= uu - 1);

    assert(spec_assets_for(n, (ta + u) as u128, (s + n) as u128, Rounding::Down) == rounded_div(
        post_num,
        d2,
        Rounding::Down,
    ));
}

} // verus!
