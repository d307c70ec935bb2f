//! The obligation's invariant and the laws its operations keep.
use vstd::prelude::*;

use crate::constants::RATE_SCALE;
use crate::obligation::{accrue_slot, saturate, inc_count, dec_count, Obligation, ObligationCollateral, ObligationLiquidity};
use crate::pubkey::Pubkey;
use vstd::array::spec_array_update;

verus! {

impl Obligation {
    /// Unused slots are blank, open collateral slots hold cTokens, and open
    /// debt slots owe at least one token.
    pub open spec fn slots_clean(self) -> bool {
        &&& forall|i: int|
            0 <= i < 8 ==> (!#[trigger] self.deposits@[i].active() ==> self.deposits@[i]
                == ObligationCollateral::blank())
        &&& forall|i: int|
            0 <= i < 8 ==> (#[trigger] self.deposits@[i].active() ==> self.deposits@[i].deposited_amount > 0)
        &&& forall|i: int|
            0 <= i < 8 ==> (!#[trigger] self.borrows@[i].active() ==> self.borrows@[i]
                == ObligationLiquidity::blank())
        &&& forall|i: int|
            0 <= i < 8 ==> (#[trigger] self.borrows@[i].active() ==> self.borrows@[i].borrowed_amount_sf
                >= RATE_SCALE)
    }

    /// The obligation's invariant: counts match the open slots, which are clean.
    pub open spec fn wf(self) -> bool {
        self.counts_consistent() && self.slots_clean()
    }
}

/// If slot `j` holds `key` and no earlier slot does, the search finds `j`.
pub proof fn lemma_find_deposit_is(o: Obligation, key: Pubkey, j: int, i: int)
    requires
        0 <= i <= j < 8,
        o.deposits@[j].deposit_reserve == key,
        forall|k: int| 0 <= k < j ==> #[trigger] o.deposits@[k].deposit_reserve != key,
    ensures
        o.find_deposit_from(key, i) == Some(j),
    decreases j - i,
{
    if i < j {
        lemma_find_deposit_is(o, key, j, i + 1);
    }
}

/// If slot `j` owes `key` and no earlier slot does, the search finds `j`.
pub proof fn lemma_find_borrow_is(o: Obligation, key: Pubkey, j: int, i: int)
    requires
        0 <= i <= j < 8,
        o.borrows@[j].borrow_reserve == key,
        forall|k: int| 0 <= k < j ==> #[trigger] o.borrows@[k].borrow_reserve != key,
    ensures
        o.find_borrow_from(key, i) == Some(j),
    decreases j - i,
{
    if i < j {
        lemma_find_borrow_is(o, key, j, i + 1);
    }
}

/// Changing one collateral slot changes the open-slot count by the change in that slot.
pub proof fn lemma_deposit_count_update(a: Obligation, b: Obligation, i: int, n: int)
    requires
        0 <= i < 8,
        0 <= n <= 8,
        forall|k: int| 0 <= k < 8 && k != i ==> #[trigger] b.deposits@[k] == a.deposits@[k],
    ensures
        b.active_deposits_upto(n) == a.active_deposits_upto(n) + if n > i {
            (if b.deposits@[i].active() {
                1int
            } else {
                0
            }) - (if a.deposits@[i].active() {
                1int
            } else {
                0
            })
        } else {
            0
        },
    decreases n,
{
    if n > 0 {
        lemma_deposit_count_update(a, b, i, n - 1);
        if n - 1 != i {
            assert(b.deposits@[n - 1] == a.deposits@[n - 1]);
        }
    }
}

/// Changing one debt slot changes the open-slot count by the change in that slot.
pub proof fn lemma_borrow_count_update(a: Obligation, b: Obligation, i: int, n: int)
    requires
        0 <= i < 8,
        0 <= n <= 8,
        forall|k: int| 0 <= k < 8 && k != i ==> #[trigger] b.borrows@[k] == a.borrows@[k],
    ensures
        b.active_borrows_upto(n) == a.active_borrows_upto(n) + if n > i {
            (if b.borrows@[i].active() {
                1int
            } else {
                0
            }) - (if a.borrows@[i].active() {
                1int
            } else {
                0
            })
        } else {
            0
        },
    decreases n,
{
    if n > 0 {
        lemma_borrow_count_update(a, b, i, n - 1);
        if n - 1 != i {
            assert(b.borrows@[n - 1] == a.borrows@[n - 1]);
        }
    }
}

/// Collateral counts are unchanged by edits to debt slots, and the other way round.
pub proof fn lemma_counts_other_side(a: Obligation, b: Obligation, n: int)
    ensures
        a.deposits == b.deposits ==> a.active_deposits_upto(n) == b.active_deposits_upto(n),
        a.borrows == b.borrows ==> a.active_borrows_upto(n) == b.active_borrows_upto(n),
    decreases n,
{
    if n > 0 {
        lemma_counts_other_side(a, b, n - 1);
    }
}

/// A fresh obligation satisfies the invariant.
pub proof fn law_fresh_obligation_is_wf(o: Obligation)
    requires
        o.is_fresh(),
    ensures
        o.wf(),
{
    crate::pubkey::lemma_zero_key();
    assert forall|n: int| 0 <= n <= 8 implies o.active_deposits_upto(n) == 0 && o.active_borrows_upto(n) == 0 by {
        lemma_fresh_counts(o, n);
    }
}

proof fn lemma_fresh_counts(o: Obligation, n: int)
    requires
        o.is_fresh(),
        0 <= n <= 8,
    ensures
        o.active_deposits_upto(n) == 0,
        o.active_borrows_upto(n) == 0,
    decreases n,
{
    crate::pubkey::lemma_zero_key();
    if n > 0 {
        lemma_fresh_counts(o, n - 1);
        assert(o.deposits@[n - 1] == ObligationCollateral::blank());
        assert(o.borrows@[n - 1] == ObligationLiquidity::blank());
    }
}

/// Locking collateral of a real reserve keeps the invariant.
pub proof fn law_deposit_keeps_wf(o: Obligation, reserve: Pubkey, amount: u64)
    requires
        o.wf(),
        !reserve.is_zero(),
        o.deposit_result(reserve, amount) is Ok,
    ensures
        o.after_deposit(reserve, amount).wf(),
{
    crate::pubkey::lemma_zero_key();
    o.lemma_targets(reserve);
    o.lemma_active_counts_bounded(8);
    let i = o.deposit_target(reserve)->Some_0;
    let o2 = o.after_deposit(reserve, amount);
    assert forall|k: int| 0 <= k < 8 && k != i implies #[trigger] o2.deposits@[k] == o.deposits@[k] by {}
    lemma_deposit_count_update(o, o2, i, 8);
    lemma_counts_other_side(o, o2, 8);
    if !o.deposits@[i].active() {
        assert(o.active_deposits_upto(8) < 8) by {
            lemma_count_below_when_free(o, i, 8);
        }
    }
}

/// With an unused collateral slot, fewer than `n` of the first `n` slots are open.
pub proof fn lemma_count_below_when_free(o: Obligation, i: int, n: int)
    requires
        0 <= i < n <= 8,
        !o.deposits@[i].active(),
    ensures
        o.active_deposits_upto(n) < n,
    decreases n,
{
    o.lemma_active_counts_bounded(n - 1);
    if n - 1 > i {
        lemma_count_below_when_free(o, i, n - 1);
    }
}

/// With an unused debt slot, fewer than `n` of the first `n` slots are open.
pub proof fn lemma_borrow_count_below_when_free(o: Obligation, i: int, n: int)
    requires
        0 <= i < n <= 8,
        !o.borrows@[i].active(),
    ensures
        o.active_borrows_upto(n) < n,
    decreases n,
{
    o.lemma_active_counts_bounded(n - 1);
    if n - 1 > i {
        lemma_borrow_count_below_when_free(o, i, n - 1);
    }
}

/// With an open collateral slot among the first `n`, at least one of them is open.
pub proof fn lemma_count_positive_when_open(o: Obligation, i: int, n: int)
    requires
        0 <= i < n <= 8,
        o.deposits@[i].active(),
    ensures
        o.active_deposits_upto(n) >= 1,
    decreases n,
{
    o.lemma_active_counts_bounded(n - 1);
    if n - 1 > i {
        lemma_count_positive_when_open(o, i, n - 1);
    }
}

/// With an open debt slot among the first `n`, at least one of them is open.
pub proof fn lemma_borrow_count_positive_when_open(o: Obligation, i: int, n: int)
    requires
        0 <= i < n <= 8,
        o.borrows@[i].active(),
    ensures
        o.active_borrows_upto(n) >= 1,
    decreases n,
{
    o.lemma_active_counts_bounded(n - 1);
    if n - 1 > i {
        lemma_borrow_count_positive_when_open(o, i, n - 1);
    }
}

/// Unlocking collateral keeps the invariant.
pub proof fn law_withdraw_keeps_wf(o: Obligation, reserve: Pubkey, amount: u64)
    requires
        o.wf(),
        o.withdraw_result(reserve, amount) is Ok,
    ensures
        o.after_withdraw(reserve, amount).wf(),
{
    crate::pubkey::lemma_zero_key();
    o.lemma_targets(reserve);
    let i = o.find_deposit_from(reserve, 0)->Some_0;
    let o2 = o.after_withdraw(reserve, amount);
    assert(o.deposits@[i].active());
    lemma_count_positive_when_open(o, i, 8);
    assert forall|k: int| 0 <= k < 8 && k != i implies #[trigger] o2.deposits@[k] == o.deposits@[k] by {}
    lemma_deposit_count_update(o, o2, i, 8);
    lemma_counts_other_side(o, o2, 8);
}

/// Borrowing from a real reserve keeps the invariant.
pub proof fn law_borrow_keeps_wf(o: Obligation, reserve: Pubkey, amount: u128, rate: u128)
    requires
        o.wf(),
        !reserve.is_zero(),
        o.borrow_result(reserve, amount, rate) is Ok,
    ensures
        o.after_borrow(reserve, amount, rate).wf(),
{
    crate::pubkey::lemma_zero_key();
    o.lemma_targets(reserve);
    o.lemma_active_counts_bounded(8);
    let i = o.borrow_target(reserve)->Some_0;
    let o2 = o.after_borrow(reserve, amount, rate);
    assert forall|k: int| 0 <= k < 8 && k != i implies #[trigger] o2.borrows@[k] == o.borrows@[k] by {}
    lemma_borrow_count_update(o, o2, i, 8);
    lemma_counts_other_side(o, o2, 8);
    if !o.borrows@[i].active() {
        lemma_borrow_count_below_when_free(o, i, 8);
    }
}

/// Repaying keeps the invariant.
pub proof fn law_repay_keeps_wf(o: Obligation, reserve: Pubkey, amount: u128)
    requires
        o.wf(),
        o.repay_result(reserve, amount) is Ok,
    ensures
        o.after_repay(reserve, amount).wf(),
{
    crate::pubkey::lemma_zero_key();
    o.lemma_targets(reserve);
    let i = o.find_borrow_from(reserve, 0)->Some_0;
    let o2 = o.after_repay(reserve, amount);
    assert(o.borrows@[i].active());
    lemma_borrow_count_positive_when_open(o, i, 8);
    assert forall|k: int| 0 <= k < 8 && k != i implies #[trigger] o2.borrows@[k] == o.borrows@[k] by {}
    lemma_borrow_count_update(o, o2, i, 8);
    lemma_counts_other_side(o, o2, 8);
}


/// Withdrawing what was just deposited gives back the obligation as it was.
pub proof fn law_withdraw_undoes_deposit(o: Obligation, reserve: Pubkey, amount: u64)
    requires
        o.wf(),
        !reserve.is_zero(),
        o.deposit_result(reserve, amount) is Ok,
    ensures
        o.after_deposit(reserve, amount).withdraw_result(reserve, amount) is Ok,
        o.after_deposit(reserve, amount).after_withdraw(reserve, amount) == o,
{
    crate::pubkey::lemma_zero_key();
    o.lemma_targets(reserve);
    o.lemma_find_deposit_from(reserve, 0);
    o.lemma_find_free_deposit_from(0);
    o.lemma_active_counts_bounded(8);
    let i = o.deposit_target(reserve)->Some_0;
    let o2 = o.after_deposit(reserve, amount);
    assert(o2.deposits@[i].deposit_reserve == reserve);
    assert forall|k: int| 0 <= k < i implies #[trigger] o2.deposits@[k].deposit_reserve != reserve by {
        assert(o2.deposits@[k] == o.deposits@[k]);
    }
    lemma_find_deposit_is(o2, reserve, i, 0);
    if !o.deposits@[i].active() {
        lemma_count_below_when_free(o, i, 8);
    }
    let o3 = o2.after_withdraw(reserve, amount);
    assert(o3.deposits =~= o.deposits) by {
        assert forall|k: int| 0 <= k < 8 implies o3.deposits@[k] == o.deposits@[k] by {}
    }
}

/// Repaying what was just borrowed gives back the obligation as it was.
pub proof fn law_repay_undoes_borrow(o: Obligation, reserve: Pubkey, amount: u128, rate: u128)
    requires
        o.wf(),
        !reserve.is_zero(),
        o.borrow_result(reserve, amount, rate) is Ok,
    ensures
        o.after_borrow(reserve, amount, rate).repay_result(reserve, amount) is Ok,
        o.after_borrow(reserve, amount, rate).after_repay(reserve, amount) == o,
{
    crate::pubkey::lemma_zero_key();
    o.lemma_targets(reserve);
    o.lemma_find_borrow_from(reserve, 0);
    o.lemma_find_free_borrow_from(0);
    o.lemma_active_counts_bounded(8);
    let i = o.borrow_target(reserve)->Some_0;
    let o2 = o.after_borrow(reserve, amount, rate);
    assert(o2.borrows@[i].borrow_reserve == reserve);
    assert forall|k: int| 0 <= k < i implies #[trigger] o2.borrows@[k].borrow_reserve != reserve by {
        assert(o2.borrows@[k] == o.borrows@[k]);
    }
    lemma_find_borrow_is(o2, reserve, i, 0);
    if !o.borrows@[i].active() {
        lemma_borrow_count_below_when_free(o, i, 8);
    }
    let o3 = o2.after_repay(reserve, amount);
    assert(o3.borrows =~= o.borrows) by {
        assert forall|k: int| 0 <= k < 8 implies o3.borrows@[k] == o.borrows@[k] by {}
    }
}

/// Bringing a debt slot current never lowers the debt, and keeps the invariant.
pub proof fn law_accrue_keeps_wf(o: Obligation, i: int, rate: u128)
    requires
        o.wf(),
        0 <= i < 8,
        accrue_slot(o.borrows@[i], rate) is Ok,
    ensures
        accrue_slot(o.borrows@[i], rate)->Ok_0.borrowed_amount_sf >= o.borrows@[i].borrowed_amount_sf,
        (Obligation {
            borrows: spec_array_update(o.borrows, i, accrue_slot(o.borrows@[i], rate)->Ok_0),
            ..o
        }).wf(),
{
    let slot = o.borrows@[i];
    let new_slot = accrue_slot(slot, rate)->Ok_0;
    if slot.active() && rate > slot.cumulative_borrow_rate_sf {
        let b = slot.borrowed_amount_sf as int;
        let r = rate as int;
        let c = slot.cumulative_borrow_rate_sf as int;
        assert(b * r / c >= b) by (nonlinear_arith)
            requires
                b >= 0,
                r >= c,
                c > 0,
        {
            assert(b * r >= b * c);
            vstd::arithmetic::div_mod::lemma_div_is_ordered(b * c, b * r, c);
            vstd::arithmetic::div_mod::lemma_div_by_multiple(b, c);
        }
    }
    let o2 = Obligation { borrows: spec_array_update(o.borrows, i, new_slot), ..o };
    assert(new_slot.borrow_reserve == slot.borrow_reserve);
    assert forall|k: int| 0 <= k < 8 && k != i implies #[trigger] o2.borrows@[k] == o.borrows@[k] by {}
    lemma_borrow_count_update(o, o2, i, 8);
    lemma_counts_other_side(o, o2, 8);
}

/// An obligation is healthy exactly when it has no debt value or its health
/// factor is at least 1.0 (`RATE_SCALE`).
pub proof fn law_healthy_iff_factor_at_least_one(o: Obligation)
    ensures
        o.healthy() <==> match o.health_factor_value() {
            None => true,
            Some(hf) => hf >= RATE_SCALE,
        },
{
    o.lemma_values_nonneg(o.counted_deposits());
    o.lemma_values_nonneg(o.counted_borrows());
    let c = saturate(o.collateral_value());
    let b = saturate(o.borrow_value());
    if b != 0 {
        let rs = RATE_SCALE as int;
        let m = u128::MAX as int;
        if c * rs <= m {
            assert(c * rs / b <= m) by (nonlinear_arith)
                requires
                    c >= 0,
                    b > 0,
                    c * rs <= m,
                    rs > 0,
            ;
            assert((c >= b) <==> (c * rs / b >= rs)) by (nonlinear_arith)
                requires
                    c >= 0,
                    b > 0,
                    rs > 0,
            {
                if c >= b {
                    assert(c * rs >= b * rs);
                    vstd::arithmetic::div_mod::lemma_div_is_ordered(b * rs, c * rs, b);
                    vstd::arithmetic::div_mod::lemma_div_by_multiple(rs, b);
                } else {
                    assert(c * rs < b * rs);
                    vstd::arithmetic::div_mod::lemma_div_by_multiple_is_strongly_ordered(
                        c * rs, b * rs, rs, b);
                    vstd::arithmetic::div_mod::lemma_div_by_multiple(rs, b);
                }
            }
        } else {
            assert((c >= b) <==> (c / b >= 1)) by (nonlinear_arith)
                requires
                    c >= 0,
                    b > 0,
            ;
            assert((c / b >= 1) <==> (c / b * rs >= rs)) by (nonlinear_arith)
                requires
                    c / b >= 0,
                    rs > 0,
            ;
        }
    }
}

/// Bringing a debt current scales it by the ratio of the reserve's rate index
/// to the index it was recorded at, rounded down, and records the new index:
/// the debt grows exactly as the index does.
pub proof fn law_accrue_slot_scales_debt_by_index_ratio(slot: ObligationLiquidity, rate: u128)
    ensures
        accrue_slot(slot, rate) matches Ok(s) ==> {
            &&& s.cumulative_borrow_rate_sf == if slot.active() { rate } else { slot.cumulative_borrow_rate_sf }
            &&& (slot.active() && slot.cumulative_borrow_rate_sf > 0 ==> {
                &&& s.borrowed_amount_sf * slot.cumulative_borrow_rate_sf <= slot.borrowed_amount_sf * rate
                &&& slot.borrowed_amount_sf * rate < (s.borrowed_amount_sf + 1) * slot.cumulative_borrow_rate_sf
            })
        },
{
    if let Ok(s) = accrue_slot(slot, rate) {
        if slot.active() && slot.cumulative_borrow_rate_sf > 0 {
            let d = slot.borrowed_amount_sf as int;
            let i0 = slot.cumulative_borrow_rate_sf as int;
            let r = rate as int;
            if r == i0 {
                assert(d * i0 < (d + 1) * i0) by (nonlinear_arith)
                    requires
                        i0 > 0,
                ;
            } else {
                let q = d * r / i0;
                assert(q * i0 <= d * r && d * r < (q + 1) * i0) by (nonlinear_arith)
                    requires
                        i0 > 0,
                        q == d * r / i0,
                ;
                assert(s.borrowed_amount_sf == q);
            }
        }
    }
}

} // verus!
