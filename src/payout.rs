use vstd::prelude::*;
use vstd::arithmetic::div_mod::{lemma_div_pos_is_pos, lemma_fundamental_div_mod, lemma_mod_pos_bound};

use crate::errors::HonoraryQuoteFeeError;
use crate::investors::{eligible_share_bps, share_bps_of, InvestorEntry};
use crate::math::{mul_div_floor_u128, saturating_sub_u64, u128_to_u64};

verus! {

/// What one page pays out: one transfer per investor, in investor order, each
/// an amount and the position of the destination account.
pub struct InvestorPayoutPlan {
    pub transfers: Vec<(u64, usize)>,
    pub investor_count: u32,
    pub share_bps: u16,
    pub total_paid: u64,
    pub target_investor_quote: u64,
    pub carry_for_creator: u64,
    pub carry_quote_after: u64,
}

impl InvestorPayoutPlan {
    /// This plan is the one that the payout rules give for page `s` and the
    /// given cycle state and policy settings.
    pub open spec fn matches(
        self,
        s: Seq<InvestorEntry>,
        claimed_quote: u64,
        investor_distributed: u64,
        carry_quote: u64,
        y0: u64,
        investor_fee_share_bps: u16,
        daily_cap_quote: u64,
        min_payout_lamports: u64,
    ) -> bool {
        let total = locked_total(s);
        let share = share_bps_of(total, y0 as int, investor_fee_share_bps as int);
        let natural = natural_target(claimed_quote as int, share);
        let target = target_of(claimed_quote as int, share, daily_cap_quote as int);
        let available = available_of(target, investor_distributed as int, carry_quote as int, share);
        &&& self.investor_count == s.len()
        &&& self.share_bps == share
        &&& self.target_investor_quote == target
        &&& daily_cap_quote > 0 ==> self.target_investor_quote == (if natural < daily_cap_quote {
            natural
        } else {
            daily_cap_quote as int
        })
        &&& self.transfers@.len() == s.len()
        &&& forall|i: int|
            0 <= i < s.len() ==> {
                &&& (#[trigger] self.transfers@[i]).0 == payout_of(
                    available,
                    s[i].locked_amount as int,
                    total,
                    min_payout_lamports as int,
                )
                &&& self.transfers@[i].1 == s[i].token_account_index
                &&& self.transfers@[i].0 == 0 || self.transfers@[i].0 >= min_payout_lamports
            }
        &&& self.total_paid == paid_total(s, available, total, min_payout_lamports as int)
        &&& self.total_paid == transfer_sum(self.transfers@)
        &&& self.total_paid <= available
        &&& available <= target + carry_quote
        &&& self.carry_quote_after + self.total_paid == available
        &&& self.carry_for_creator == (if share == 0 {
            carry_quote
        } else {
            0
        })
        &&& share == 0 ==> self.total_paid == 0 && self.carry_quote_after == 0
    }
}

/// Whether every value of the plan for page `s` fits its integer type.
pub open spec fn plan_fits(
    s: Seq<InvestorEntry>,
    claimed_quote: u64,
    investor_distributed: u64,
    carry_quote: u64,
    y0: u64,
    investor_fee_share_bps: u16,
    daily_cap_quote: u64,
) -> bool {
    let share = share_bps_of(locked_total(s), y0 as int, investor_fee_share_bps as int);
    let target = target_of(claimed_quote as int, share, daily_cap_quote as int);
    &&& s.len() <= u32::MAX
    &&& natural_target(claimed_quote as int, share) <= u64::MAX
    &&& available_of(target, investor_distributed as int, carry_quote as int, share) <= u64::MAX
}

/// Sum of the locked amounts of a page.
pub open spec fn locked_total(s: Seq<InvestorEntry>) -> int
    decreases s.len(),
{
    if s.len() == 0 {
        0
    } else {
        locked_total(s.drop_last()) + s.last().locked_amount
    }
}

/// `⌊claimed · share / 10000⌋`: the investors' entitlement before the daily cap.
pub open spec fn natural_target(claimed: int, share_bps: int) -> int {
    claimed * share_bps / 10000
}

/// The investors' entitlement for the day so far, clamped to a nonzero cap.
pub open spec fn target_of(claimed: int, share_bps: int, daily_cap: int) -> int {
    let natural = natural_target(claimed, share_bps);
    if daily_cap > 0 && natural > daily_cap {
        daily_cap
    } else {
        natural
    }
}

/// What a page may pay: the part of the target not yet distributed, plus the
/// carried dust; nothing at all when the share is zero.
pub open spec fn available_of(target: int, distributed: int, carry: int, share_bps: int) -> int {
    if share_bps == 0 {
        0
    } else {
        (if target > distributed {
            target - distributed
        } else {
            0
        }) + carry
    }
}

/// One investor's payout: `⌊available · locked / max(total, 1)⌋`, or zero when it
/// falls below the dust floor, when nothing is available or nothing is locked.
pub open spec fn payout_of(available: int, locked: int, total: int, min_payout: int) -> int {
    if available == 0 || locked == 0 {
        0
    } else {
        let raw = available * locked / (if total > 1 {
            total
        } else {
            1
        });
        if raw < min_payout {
            0
        } else {
            raw
        }
    }
}

/// Sum of the payouts of a page.
pub open spec fn paid_total(s: Seq<InvestorEntry>, available: int, total: int, min_payout: int) -> int
    decreases s.len(),
{
    if s.len() == 0 {
        0
    } else {
        paid_total(s.drop_last(), available, total, min_payout) + payout_of(
            available,
            s.last().locked_amount as int,
            total,
            min_payout,
        )
    }
}

/// Sum of the amounts of a transfer list.
pub open spec fn transfer_sum(t: Seq<(u64, usize)>) -> int
    decreases t.len(),
{
    if t.len() == 0 {
        0
    } else {
        transfer_sum(t.drop_last()) + t.last().0
    }
}

proof fn lemma_locked_total_bounds(s: Seq<InvestorEntry>)
    ensures
        0 <= locked_total(s) <= s.len() * 18446744073709551615,
    decreases s.len(),
{
    if s.len() > 0 {
        lemma_locked_total_bounds(s.drop_last());
    }
}

proof fn lemma_locked_total_prefix(s: Seq<InvestorEntry>, i: int)
    requires
        0 <= i <= s.len(),
    ensures
        locked_total(s.take(i)) <= locked_total(s),
    decreases s.len(),
{
    if i < s.len() {
        assert(s.drop_last().take(i) =~= s.take(i));
        lemma_locked_total_prefix(s.drop_last(), i);
    } else {
        assert(s.take(i) =~= s);
    }
}

proof fn lemma_payout_scaled(available: int, locked: int, total: int, min_payout: int)
    requires
        available >= 0,
        locked >= 0,
    ensures
        0 <= payout_of(available, locked, total, min_payout),
        (if total > 1 {
            total
        } else {
            1
        }) * payout_of(available, locked, total, min_payout) <= available * locked,
{
    let d = if total > 1 {
        total
    } else {
        1
    };
    let x = available * locked;
    assert(x >= 0) by (nonlinear_arith)
        requires
            available >= 0,
            locked >= 0,
            x == available * locked,
    ;
    if available != 0 && locked != 0 {
        lemma_fundamental_div_mod(x, d);
        lemma_mod_pos_bound(x, d);
        lemma_div_pos_is_pos(x, d);
    }
}

/// `max(total, 1) · paid ≤ available · locked` for every prefix of a page.
proof fn lemma_paid_scaled(s: Seq<InvestorEntry>, available: int, total: int, min_payout: int)
    requires
        available >= 0,
        locked_total(s) <= total,
    ensures
        0 <= paid_total(s, available, total, min_payout),
        (if total > 1 {
            total
        } else {
            1
        }) * paid_total(s, available, total, min_payout) <= available * locked_total(s),
    decreases s.len(),
{
    if s.len() > 0 {
        let rest = s.drop_last();
        let l = s.last().locked_amount as int;
        lemma_paid_scaled(rest, available, total, min_payout);
        lemma_payout_scaled(available, l, total, min_payout);
        let d = if total > 1 {
            total
        } else {
            1
        };
        let paid_rest = paid_total(rest, available, total, min_payout);
        let p = payout_of(available, l, total, min_payout);
        let locked_rest = locked_total(rest);
        assert(d * (paid_rest + p) <= available * (locked_rest + l)) by (nonlinear_arith)
            requires
                d * paid_rest <= available * locked_rest,
                d * p <= available * l,
        ;
    }
}

/// A page never pays more than is available to it.
proof fn lemma_paid_within(s: Seq<InvestorEntry>, available: int, total: int, min_payout: int)
    requires
        available >= 0,
        total >= 0,
        locked_total(s) <= total,
    ensures
        0 <= paid_total(s, available, total, min_payout) <= available,
{
    lemma_paid_scaled(s, available, total, min_payout);
    lemma_locked_total_bounds(s);
    let d = if total > 1 {
        total
    } else {
        1
    };
    let p = paid_total(s, available, total, min_payout);
    let l = locked_total(s);
    assert(p <= available) by (nonlinear_arith)
        requires
            d * p <= available * l,
            0 <= l <= d,
            d >= 1,
            available >= 0,
    ;
}

/// Whatever one page pays stays within what is available to it, and that
/// within the day's investor target plus the carried dust.
pub proof fn lemma_page_paid_within_budget(
    investors: Seq<InvestorEntry>,
    claimed_quote: u64,
    investor_distributed: u64,
    carry_quote: u64,
    y0: u64,
    investor_fee_share_bps: u16,
    daily_cap_quote: u64,
    min_payout_lamports: u64,
)
    ensures
        ({
            let total = locked_total(investors);
            let share = share_bps_of(total, y0 as int, investor_fee_share_bps as int);
            let target = target_of(claimed_quote as int, share, daily_cap_quote as int);
            let available = available_of(
                target,
                investor_distributed as int,
                carry_quote as int,
                share,
            );
            0 <= paid_total(investors, available, total, min_payout_lamports as int) <= available
                <= target + carry_quote
        }),
{
    let total = locked_total(investors);
    lemma_locked_total_bounds(investors);
    let share = share_bps_of(total, y0 as int, investor_fee_share_bps as int);
    assert(0 <= share) by {
        if y0 > 0 && total > 0 {
            lemma_div_pos_is_pos(total * 10000, y0 as int);
        }
    }
    let product = claimed_quote * share;
    assert(product >= 0) by (nonlinear_arith)
        requires
            product == claimed_quote * share,
            claimed_quote >= 0,
            share >= 0,
    ;
    lemma_div_pos_is_pos(product, 10000);
    let target = target_of(claimed_quote as int, share, daily_cap_quote as int);
    let available = available_of(target, investor_distributed as int, carry_quote as int, share);
    lemma_paid_within(investors, available, total, min_payout_lamports as int);
}

/// Builds one page's payout plan.
///
/// With `share` the eligible share of the page's locked total, `target` the
/// day's entitlement so far and `available` what this page may pay, each
/// investor receives `⌊available · locked / total⌋`, or nothing below the dust
/// floor; what is not paid is carried. When the share is zero nothing is paid
/// and the whole carry is handed over for the creator. Fails with
/// `ArithmeticOverflow` when a value leaves its integer type.
pub fn build_investor_payout_plan(
    investors: Vec<InvestorEntry>,
    claimed_quote: u64,
    investor_distributed: u64,
    carry_quote: u64,
    y0: u64,
    investor_fee_share_bps: u16,
    daily_cap_quote: u64,
    min_payout_lamports: u64,
) -> (r: Result<InvestorPayoutPlan, HonoraryQuoteFeeError>)
    ensures
        ({
            let s = investors@;
            let total = locked_total(s);
            let share = share_bps_of(total, y0 as int, investor_fee_share_bps as int);
            let natural = natural_target(claimed_quote as int, share);
            let target = target_of(claimed_quote as int, share, daily_cap_quote as int);
            let available = available_of(
                target,
                investor_distributed as int,
                carry_quote as int,
                share,
            );
            &&& r is Err <==> !plan_fits(
                s,
                claimed_quote,
                investor_distributed,
                carry_quote,
                y0,
                investor_fee_share_bps,
                daily_cap_quote,
            )
            &&& r is Err ==> r->Err_0 == HonoraryQuoteFeeError::ArithmeticOverflow
            &&& r is Ok ==> r->Ok_0.matches(
                s,
                claimed_quote,
                investor_distributed,
                carry_quote,
                y0,
                investor_fee_share_bps,
                daily_cap_quote,
                min_payout_lamports,
            )
        }),
{
    let n = investors.len();
    if n > u32::MAX as usize {
        return Err(HonoraryQuoteFeeError::ArithmeticOverflow);
    }
    let investor_count = n as u32;

    let mut total_locked: u128 = 0;
    let mut i: usize = 0;
    while i < n
        invariant
            n == investors@.len(),
            n <= u32::MAX,
            i <= n,
            total_locked == locked_total(investors@.take(i as int)),
        decreases n - i,
    {
        proof {
            let t1 = investors@.take(i + 1);
            assert(t1.drop_last() =~= investors@.take(i as int));
            lemma_locked_total_bounds(t1);
        }
        total_locked = total_locked + investors[i].locked_amount as u128;
        i = i + 1;
    }
    proof {
        assert(investors@.take(n as int) =~= investors@);
    }

    let share_bps = eligible_share_bps(total_locked, y0, investor_fee_share_bps);
    proof {
        assert(claimed_quote as int * share_bps as int <= u128::MAX) by (nonlinear_arith)
            requires
                0 <= claimed_quote <= u64::MAX,
                0 <= share_bps <= u16::MAX,
        ;
    }
    let natural = match mul_div_floor_u128(claimed_quote as u128, share_bps as u128, 10_000) {
        Ok(v) => v,
        Err(e) => return Err(e),
    };
    let mut target_investor_quote = match u128_to_u64(natural) {
        Ok(v) => v,
        Err(e) => return Err(e),
    };
    if daily_cap_quote > 0 && daily_cap_quote < target_investor_quote {
        target_investor_quote = daily_cap_quote;
    }

    let mut carry_for_creator: u64 = 0;
    let available: u64 = if share_bps == 0 {
        carry_for_creator = carry_quote;
        0
    } else {
        let owed = saturating_sub_u64(target_investor_quote, investor_distributed);
        if owed > u64::MAX - carry_quote {
            return Err(HonoraryQuoteFeeError::ArithmeticOverflow);
        }
        owed + carry_quote
    };

    let ghost s = investors@;
    let ghost total = total_locked as int;
    let denominator: u128 = if total_locked > 1 {
        total_locked
    } else {
        1
    };
    let mut total_paid: u64 = 0;
    let mut transfers: Vec<(u64, usize)> = Vec::new();
    let mut j: usize = 0;
    while j < n
        invariant
            s == investors@,
            n == s.len(),
            j <= n,
            total == locked_total(s),
            total == total_locked,
            denominator == (if total > 1 {
                total
            } else {
                1
            }),
            transfers@.len() == j,
            forall|k: int|
                0 <= k < j ==> {
                    &&& (#[trigger] transfers@[k]).0 == payout_of(
                        available as int,
                        s[k].locked_amount as int,
                        total,
                        min_payout_lamports as int,
                    )
                    &&& transfers@[k].1 == s[k].token_account_index
                },
            total_paid == paid_total(
                s.take(j as int),
                available as int,
                total,
                min_payout_lamports as int,
            ),
            total_paid == transfer_sum(transfers@),
        decreases n - j,
    {
        let locked = investors[j].locked_amount;
        let index = investors[j].token_account_index;
        proof {
            let t1 = s.take(j + 1);
            assert(t1.drop_last() =~= s.take(j as int));
            lemma_locked_total_prefix(s, j + 1);
            lemma_paid_within(t1, available as int, total, min_payout_lamports as int);
        }
        let mut payout: u64 = 0;
        if available != 0 && locked != 0 {
            proof {
                assert(available as int * locked as int <= u128::MAX) by (nonlinear_arith)
                    requires
                        0 <= available <= u64::MAX,
                        0 <= locked <= u64::MAX,
                ;
            }
            let raw = match mul_div_floor_u128(available as u128, locked as u128, denominator) {
                Ok(v) => v,
                Err(e) => return Err(e),
            };
            payout = match u128_to_u64(raw) {
                Ok(v) => v,
                Err(e) => return Err(e),
            };
            if payout < min_payout_lamports {
                payout = 0;
            }
        }
        let ghost before = transfers@;
        transfers.push((payout, index));
        proof {
            assert(transfers@.drop_last() =~= before);
        }
        total_paid = total_paid + payout;
        j = j + 1;
    }
    proof {
        assert(s.take(n as int) =~= s);
        lemma_paid_within(s, available as int, total, min_payout_lamports as int);
    }

    let carry_quote_after = available - total_paid;
    Ok(
        InvestorPayoutPlan {
            transfers,
            investor_count,
            share_bps,
            total_paid,
            target_investor_quote,
            carry_for_creator,
            carry_quote_after,
        },
    )
}

} // verus!
