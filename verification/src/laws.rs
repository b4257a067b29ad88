use vstd::prelude::*;
use crate::error::ElemfiError;
use crate::processor::checks::Transfer;
use crate::processor::deposit::{Deposit, deposit_accounting, deposit_outcome};
use crate::processor::lending::{Borrow, Repay, borrow_outcome, repay_outcome};
use crate::processor::obligation::{CloseObligation, CreateObligation, close_obligation_outcome, create_obligation_outcome};
use crate::state::strategy::Strategy;
use crate::state::vault::{Vault, collateral_for, underlying_for};
use crate::token::AccountView;

verus! {

proof fn lemma_floor_div_times(x: int, d: int)
    requires
        x >= 0,
        d > 0,
    ensures
        (x / d) * d <= x,
        x / d >= 0,
{
    vstd::arithmetic::div_mod::lemma_fundamental_div_mod(x, d);
    vstd::arithmetic::div_mod::lemma_mod_bound(x, d);
    vstd::arithmetic::div_mod::lemma_div_pos_is_pos(x, d);
    vstd::arithmetic::mul::lemma_mul_is_commutative(x / d, d);
}

/// Rounding in the two conversions favours the vault: converting `amount` of
/// underlying to collateral and that collateral back gives at most `amount`.
pub proof fn law_conversions_round_down(v: Vault, amount: u64)
    requires
        v.collateral_supply > 0,
        v.underlying_liquidity > 0,
    ensures
        underlying_for(v, collateral_for(v, amount as int)) <= amount,
{
    let s = v.collateral_supply as int;
    let l = v.underlying_liquidity as int;
    let a = amount as int;
    let m = collateral_for(v, a);
    assert(a * s >= 0) by (nonlinear_arith)
        requires a >= 0, s >= 0;
    lemma_floor_div_times(a * s, l);
    assert(m == (a * s) / l);
    assert(m * l <= a * s);
    assert(m * l >= 0) by (nonlinear_arith)
        requires m >= 0, l >= 0;
    lemma_floor_div_times(m * l, s);
    let u = (m * l) / s;
    assert(u * s <= m * l);
    assert(u * s <= a * s);
    assert(u <= a) by (nonlinear_arith)
        requires u * s <= a * s, s > 0;
}

/// A deposit never lowers the value of a unit of collateral: with collateral in
/// circulation, liquidity per unit of supply is at least what it was.
pub proof fn law_deposit_keeps_collateral_value(d: Deposit, rem: Seq<AccountView>, base: int, amount: u64)
    requires
        d.vault.collateral_supply > 0,
        deposit_outcome(d, rem, base, amount) is Ok,
    ensures
        ({
            let v2 = deposit_outcome(d, rem, base, amount).unwrap().0;
            (v2.underlying_liquidity as int) * (d.vault.collateral_supply as int)
                >= (d.vault.underlying_liquidity as int) * (v2.collateral_supply as int)
        }),
{
    let v = d.vault;
    let s = v.collateral_supply as int;
    let l = v.underlying_liquidity as int;
    let a = amount as int;
    let m = collateral_for(v, a);
    assert(a * s >= 0) by (nonlinear_arith)
        requires a >= 0, s >= 0;
    lemma_floor_div_times(a * s, l);
    assert(m * l <= a * s);
    assert((l + a) * s >= l * (s + m)) by (nonlinear_arith)
        requires m * l <= a * s;
}

/// Creating an obligation never lowers the value of a unit of collateral:
/// liquidity per unit of supply is at least what it was.
pub proof fn law_obligation_keeps_collateral_value(
    c: CreateObligation,
    rem: Seq<AccountView>,
    amount: u64,
    created_ts: i64,
    now: i64,
)
    requires
        create_obligation_outcome(c, rem, amount, created_ts, now) is Ok,
    ensures
        ({
            let v = c.vault.account;
            let v2 = create_obligation_outcome(c, rem, amount, created_ts, now).unwrap().0;
            (v2.underlying_liquidity as int) * (v.collateral_supply as int)
                >= (v.underlying_liquidity as int) * (v2.collateral_supply as int)
        }),
{
    let v = c.vault.account;
    let s = v.collateral_supply as int;
    let l = v.underlying_liquidity as int;
    let b = amount as int;
    let p = underlying_for(v, b);
    assert(b * l >= 0) by (nonlinear_arith)
        requires b >= 0, l >= 0;
    lemma_floor_div_times(b * l, s);
    assert(p * s <= b * l);
    assert((l - p) * s >= l * (s - b)) by (nonlinear_arith)
        requires p * s <= b * l;
}

/// Creating an obligation moves value and never creates it: liquidity plus
/// pending obligations stay the same, the supply loses exactly the burnt
/// collateral, and the obligation is owed what that collateral was worth.
pub proof fn law_obligation_moves_liquidity_to_pending(
    c: CreateObligation,
    rem: Seq<AccountView>,
    amount: u64,
    created_ts: i64,
    now: i64,
)
    requires
        create_obligation_outcome(c, rem, amount, created_ts, now) is Ok,
    ensures
        ({
            let v = c.vault.account;
            let (v2, o) = create_obligation_outcome(c, rem, amount, created_ts, now).unwrap();
            &&& v2.underlying_liquidity + v2.pending_obligation_amount
                == v.underlying_liquidity + v.pending_obligation_amount
            &&& v2.collateral_supply == v.collateral_supply - amount
            &&& o.burnt_amount == amount
            &&& o.pending_amount == underlying_for(v, amount as int)
            &&& o.pending_amount <= v.underlying_liquidity
        }),
{
}

/// Paying out an obligation takes back exactly what creating it added to the
/// vault's pending obligations.
pub proof fn law_close_undoes_pending_of_create(
    c: CreateObligation,
    rem: Seq<AccountView>,
    amount: u64,
    created_ts: i64,
    now: i64,
    close: CloseObligation,
    close_rem: Seq<AccountView>,
)
    requires
        create_obligation_outcome(c, rem, amount, created_ts, now) is Ok,
        close.vault == create_obligation_outcome(c, rem, amount, created_ts, now).unwrap().0,
        close.obligation == create_obligation_outcome(c, rem, amount, created_ts, now).unwrap().1,
    ensures
        close_obligation_outcome(close, close_rem) is Err ==> close_obligation_outcome(close, close_rem)
            != Err::<(Vault, Transfer), ElemfiError>(ElemfiError::MathOverflow),
        close_obligation_outcome(close, close_rem) is Ok ==> ({
            let v3 = close_obligation_outcome(close, close_rem).unwrap().0;
            &&& v3.pending_obligation_amount == c.vault.account.pending_obligation_amount
            &&& v3.underlying_liquidity == close.vault.underlying_liquidity
            &&& close_obligation_outcome(close, close_rem).unwrap().1.amount == close.obligation.pending_amount
        }),
{
}

/// A borrow never takes a strategy beyond its utilization limit.
pub proof fn law_borrow_within_limit(b: Borrow, rem: Seq<AccountView>, amount: u64)
    requires
        borrow_outcome(b, rem, amount) is Ok,
    ensures
        borrow_outcome(b, rem, amount).unwrap().0.utilized_amount
            <= borrow_outcome(b, rem, amount).unwrap().0.utilization_max_amount,
        borrow_outcome(b, rem, amount).unwrap().0.utilized_amount == b.strategy.utilized_amount + amount,
{
}

/// Repaying what was borrowed restores the strategy exactly; the repayment can
/// only be refused over its accounts, never over the arithmetic.
pub proof fn law_repay_undoes_borrow(
    b: Borrow,
    rem: Seq<AccountView>,
    amount: u64,
    p: Repay,
    repay_rem: Seq<AccountView>,
)
    requires
        borrow_outcome(b, rem, amount) is Ok,
        p.strategy == borrow_outcome(b, rem, amount).unwrap().0,
    ensures
        repay_outcome(p, repay_rem, amount) is Err ==> repay_outcome(p, repay_rem, amount)
            != Err::<(Strategy, Transfer), ElemfiError>(ElemfiError::MathOverflow),
        repay_outcome(p, repay_rem, amount) is Ok ==> repay_outcome(p, repay_rem, amount).unwrap().0
            == b.strategy,
{
}

/// A deposit keeps the vault within its caps: the collateral supply within its
/// maximum, and the depositor's collateral within the vault's bounds; and it
/// adds exactly the deposit to the liquidity.
pub proof fn law_deposit_within_caps(d: Deposit, rem: Seq<AccountView>, base: int, amount: u64)
    requires
        deposit_outcome(d, rem, base, amount) is Ok,
    ensures
        ({
            let (v2, out) = deposit_outcome(d, rem, base, amount).unwrap();
            let held = d.collateral_token_account.amount + out.mint_amount;
            &&& v2.collateral_supply <= v2.collateral_max_supply
            &&& d.vault.collateral_min_amount <= held <= d.vault.collateral_max_amount
            &&& v2.underlying_liquidity == d.vault.underlying_liquidity + amount
            &&& v2.collateral_supply == d.vault.collateral_supply + out.mint_amount
            &&& out.mint_amount == collateral_for(d.vault, amount as int)
            &&& out.transfer.amount == amount
        }),
{
}

/// No profit from rounding: turning straight back into an obligation the
/// collateral that a deposit minted is owed at most the deposit. (Where no
/// collateral exists but liquidity does, the first depositor is owed that
/// liquidity too, so that case is left out.)
pub proof fn law_deposit_then_obligation_no_profit(v: Vault, held: u64, amount: u64)
    requires
        v.collateral_supply > 0 || v.underlying_liquidity == 0,
        deposit_accounting(v, held, amount) is Ok,
    ensures
        ({
            let (v2, minted) = deposit_accounting(v, held, amount).unwrap();
            minted > 0 ==> underlying_for(v2, minted as int) <= amount
        }),
{
    let (v2, minted) = deposit_accounting(v, held, amount).unwrap();
    let s = v.collateral_supply as int;
    let l = v.underlying_liquidity as int;
    let a = amount as int;
    let m = minted as int;
    if m > 0 {
        if s == 0 {
            assert(m == a);
            assert(v2.underlying_liquidity == a);
            assert(v2.collateral_supply == a);
            assert(a * a / a == a) by (nonlinear_arith)
                requires a > 0;
        } else {
            assert(a * s >= 0) by (nonlinear_arith)
                requires a >= 0, s >= 0;
            lemma_floor_div_times(a * s, l);
            assert(m * l <= a * s);
            let l2 = l + a;
            let s2 = s + m;
            assert(m * l2 <= a * s2) by (nonlinear_arith)
                requires m * l <= a * s, l2 == l + a, s2 == s + m;
            assert(m * l2 >= 0) by (nonlinear_arith)
                requires m >= 0, l2 >= 0;
            lemma_floor_div_times(m * l2, s2);
            let u = (m * l2) / s2;
            assert(u * s2 <= a * s2);
            assert(u <= a) by (nonlinear_arith)
                requires u * s2 <= a * s2, s2 > 0;
        }
    }
}

/// An obligation only lowers the collateral supply, so a vault within its
/// supply cap stays within it.
pub proof fn law_obligation_keeps_supply_cap(
    c: CreateObligation,
    rem: Seq<AccountView>,
    amount: u64,
    created_ts: i64,
    now: i64,
)
    requires
        c.vault.account.collateral_supply <= c.vault.account.collateral_max_supply,
        create_obligation_outcome(c, rem, amount, created_ts, now) is Ok,
    ensures
        ({
            let v2 = create_obligation_outcome(c, rem, amount, created_ts, now).unwrap().0;
            &&& v2.collateral_supply <= v2.collateral_max_supply
            &&& v2.collateral_max_supply == c.vault.account.collateral_max_supply
        }),
{
}

} // verus!
