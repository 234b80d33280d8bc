use vstd::prelude::*;

use crate::errors::HonoraryQuoteFeeError;
use crate::investors::{collect_investors, collected, InvestorAccount, InvestorEntry};
use crate::math::saturating_sub_u64;
use crate::payout::{
    available_of, build_investor_payout_plan, locked_total, paid_total, plan_fits, target_of,
    InvestorPayoutPlan,
};
use crate::investors::share_bps_of;
use crate::state::{DistributionProgress, Policy, Pubkey, HONORARY_READY};
use crate::DAY_SECONDS;

verus! {

/// What the caller of a crank declares about the page it submits.
#[derive(Clone, Copy, Debug)]
pub struct CrankQuoteFeeParams {
    pub expected_page_cursor: u32,
    /// Bound on the cursor after this page; zero for none.
    pub max_page_cursor: u32,
    pub is_last_page: bool,
}

/// The two treasury balances read before and after the fee claim.
#[derive(Clone, Copy, Debug)]
pub struct ClaimObservation {
    pub quote_before: u64,
    pub quote_after: u64,
    pub base_before: u64,
    pub base_after: u64,
}

/// Everything one settled page changes and hands out.
pub struct PageSettlement {
    /// Quote fees that this page's claim brought in.
    pub quote_claimed: u64,
    pub plan: InvestorPayoutPlan,
    /// Whether this page closed the day.
    pub day_closed: bool,
    /// The creator's transfer when the day closed; zero otherwise.
    pub creator_transfer: u64,
    /// The day's claimed fees, counting this page.
    pub day_claimed_quote: u64,
    /// What investors received over the day, counting this page.
    pub day_investor_paid: u64,
}

/// The progress a page starts from: the stored one while a day is open, else a
/// freshly opened day that keeps only the carried dust.
pub open spec fn opened_progress(progress: DistributionProgress, now_ts: i64) -> DistributionProgress {
    if progress.day_open {
        progress
    } else {
        DistributionProgress {
            day_open: true,
            day_start_ts: now_ts,
            page_cursor: 0,
            claimed_quote: 0,
            investor_distributed: 0,
            ..progress
        }
    }
}

/// Whether a crank at `now_ts` may claim fees and go on to its page, or the
/// first check it fails.
pub open spec fn open_page_result(
    policy: Policy,
    progress: DistributionProgress,
    policy_key: Pubkey,
    now_ts: i64,
    params: CrankQuoteFeeParams,
) -> Result<DistributionProgress, HonoraryQuoteFeeError> {
    if now_ts < 0 {
        Err(HonoraryQuoteFeeError::InvalidTimestamp)
    } else if !policy.is_ready() {
        Err(HonoraryQuoteFeeError::HonoraryPositionNotReady)
    } else if progress.policy@ != policy_key@ {
        Err(HonoraryQuoteFeeError::DayNotOpen)
    } else if !progress.day_open && now_ts < policy.last_day_close_ts + DAY_SECONDS {
        Err(HonoraryQuoteFeeError::DayNotReady)
    } else if params.expected_page_cursor != opened_progress(progress, now_ts).page_cursor {
        Err(HonoraryQuoteFeeError::UnexpectedPageCursor)
    } else {
        Ok(opened_progress(progress, now_ts))
    }
}

/// The checks that precede the fee claim: a valid timestamp, a bound
/// position, the progress of this policy, a day that is open or may open
/// (a full day after the last close), and the page the cursor expects.
/// Returns the progress the page starts from; the stored one is not touched.
pub fn open_page(
    policy: &Policy,
    progress: &DistributionProgress,
    policy_key: &Pubkey,
    now_ts: i64,
    params: &CrankQuoteFeeParams,
) -> (r: Result<DistributionProgress, HonoraryQuoteFeeError>)
    ensures
        r == open_page_result(*policy, *progress, *policy_key, now_ts, *params),
        r is Ok ==> r->Ok_0.day_open && (progress.wf() ==> r->Ok_0.wf()),
        (now_ts >= 0 && policy.is_ready() && progress.policy@ == policy_key@ && !progress.day_open
            && now_ts < policy.last_day_close_ts + DAY_SECONDS) ==> r
            == Err::<DistributionProgress, _>(HonoraryQuoteFeeError::DayNotReady),
        (now_ts >= 0 && policy.is_ready() && progress.policy@ == policy_key@ && (progress.day_open
            || now_ts >= policy.last_day_close_ts + DAY_SECONDS)
            && params.expected_page_cursor != opened_progress(*progress, now_ts).page_cursor) ==> r
            == Err::<DistributionProgress, _>(HonoraryQuoteFeeError::UnexpectedPageCursor),
{
    if now_ts < 0 {
        return Err(HonoraryQuoteFeeError::InvalidTimestamp);
    }
    if policy.status & HONORARY_READY == 0 {
        return Err(HonoraryQuoteFeeError::HonoraryPositionNotReady);
    }
    if !(progress.policy == *policy_key) {
        return Err(HonoraryQuoteFeeError::DayNotOpen);
    }
    let mut opened = *progress;
    if !progress.day_open {
        if policy.last_day_close_ts > i64::MAX - DAY_SECONDS || now_ts
            < policy.last_day_close_ts + DAY_SECONDS {
            return Err(HonoraryQuoteFeeError::DayNotReady);
        }
        opened.day_open = true;
        opened.day_start_ts = now_ts;
        opened.page_cursor = 0;
        opened.claimed_quote = 0;
        opened.investor_distributed = 0;
    }
    if params.expected_page_cursor != opened.page_cursor {
        return Err(HonoraryQuoteFeeError::UnexpectedPageCursor);
    }
    Ok(opened)
}

/// A page's investors as the accounts give them, or the first failure.
pub open spec fn page_investors(
    accounts: Seq<InvestorAccount>,
    quote_mint: Pubkey,
    vesting_program: Pubkey,
) -> Result<Seq<InvestorEntry>, HonoraryQuoteFeeError> {
    if accounts.len() % 2 != 0 {
        Err(HonoraryQuoteFeeError::InvalidInvestorAccount)
    } else {
        collected(accounts, quote_mint, vesting_program, (accounts.len() / 2) as nat)
    }
}

/// The bound on the cursor after a page.
pub open spec fn max_cursor(params: CrankQuoteFeeParams) -> int {
    if params.max_page_cursor == 0 {
        u32::MAX as int
    } else {
        params.max_page_cursor as int
    }
}

/// What the creator receives when the day closes: the claimed fees beyond
/// the investors' target, plus the whole carry once the share is zero.
pub open spec fn creator_due(claimed: int, target: int, share: int, carry: int) -> int {
    (if claimed > target {
        claimed - target
    } else {
        0
    }) + (if share == 0 {
        carry
    } else {
        0
    })
}

/// A page that settled with investors and left the day open cannot be
/// settled again: the stored cursor has moved past the cursor it expected, so
/// the same submission is refused and nobody is paid twice.
pub proof fn lemma_settled_page_not_replayed(
    policy: Policy,
    after: DistributionProgress,
    policy_key: Pubkey,
    now_ts: i64,
    params: CrankQuoteFeeParams,
    investor_count: u32,
)
    requires
        after.day_open,
        after.page_cursor == params.expected_page_cursor + investor_count,
        investor_count > 0,
    ensures
        open_page_result(policy, after, policy_key, now_ts, params) is Err,
{
}

/// The first check that a crank fails, given what the fee claim did to the
/// treasuries; `None` when the page settles.
pub open spec fn settle_error(
    policy: Policy,
    progress: DistributionProgress,
    policy_key: Pubkey,
    now_ts: i64,
    params: CrankQuoteFeeParams,
    claim: ClaimObservation,
    accounts: Seq<InvestorAccount>,
    vesting_program: Pubkey,
) -> Option<HonoraryQuoteFeeError> {
    match open_page_result(policy, progress, policy_key, now_ts, params) {
        Err(e) => Some(e),
        Ok(start) => {
            if claim.quote_after < claim.quote_before {
                Some(HonoraryQuoteFeeError::ArithmeticOverflow)
            } else if claim.base_after != claim.base_before {
                Some(HonoraryQuoteFeeError::BaseFeeDetected)
            } else if start.claimed_quote + claim.quote_after - claim.quote_before > u64::MAX {
                Some(HonoraryQuoteFeeError::ArithmeticOverflow)
            } else {
                let claimed = (start.claimed_quote + claim.quote_after - claim.quote_before) as u64;
                match page_investors(accounts, policy.quote_mint, vesting_program) {
                    Err(e) => Some(e),
                    Ok(s) => {
                        let total = locked_total(s);
                        let share = share_bps_of(
                            total,
                            policy.y0 as int,
                            policy.investor_fee_share_bps as int,
                        );
                        let target = target_of(claimed as int, share, policy.daily_cap_quote as int);
                        let available = available_of(
                            target,
                            start.investor_distributed as int,
                            start.carry_quote as int,
                            share,
                        );
                        let paid = paid_total(
                            s,
                            available,
                            total,
                            policy.min_payout_lamports as int,
                        );
                        if !plan_fits(
                            s,
                            claimed,
                            start.investor_distributed,
                            start.carry_quote,
                            policy.y0,
                            policy.investor_fee_share_bps,
                            policy.daily_cap_quote,
                        ) {
                            Some(HonoraryQuoteFeeError::ArithmeticOverflow)
                        } else if s.len() == 0 && !params.is_last_page {
                            Some(HonoraryQuoteFeeError::EmptyPageWithoutLastFlag)
                        } else if s.len() + start.page_cursor > max_cursor(params) {
                            Some(HonoraryQuoteFeeError::PageOverflow)
                        } else if start.investor_distributed + paid > u64::MAX {
                            Some(HonoraryQuoteFeeError::ArithmeticOverflow)
                        } else if params.is_last_page && creator_due(
                            claimed as int,
                            target,
                            share,
                            start.carry_quote as int,
                        ) > u64::MAX {
                            Some(HonoraryQuoteFeeError::ArithmeticOverflow)
                        } else {
                            None
                        }
                    },
                }
            }
        },
    }
}

/// Settles one page of the day's distribution once the fee claim is done.
/// It repeats the checks of `open_page` on the stored state, then: the claim
/// must have brought quote fees only, the page's investors are
/// read and paid by the payout plan, the cursor moves past them, and on the
/// last page the creator is owed the rest and the day closes. Nothing changes
/// when any check fails.
pub fn settle_page(
    policy: &mut Policy,
    progress: &mut DistributionProgress,
    policy_key: &Pubkey,
    now_ts: i64,
    params: &CrankQuoteFeeParams,
    claim: &ClaimObservation,
    accounts: &Vec<InvestorAccount>,
    vesting_program: &Pubkey,
) -> (r: Result<PageSettlement, HonoraryQuoteFeeError>)
    ensures
        ({
            let err = settle_error(
                *old(policy),
                *old(progress),
                *policy_key,
                now_ts,
                *params,
                *claim,
                accounts@,
                *vesting_program,
            );
            &&& r is Err <==> err is Some
            &&& r is Err ==> r->Err_0 == err->Some_0
        }),
        r is Err ==> *final(policy) == *old(policy) && *final(progress) == *old(progress),
        open_page_result(*old(policy), *old(progress), *policy_key, now_ts, *params) is Ok
            && claim.quote_after >= claim.quote_before && claim.base_after != claim.base_before
            ==> r == Err::<PageSettlement, _>(HonoraryQuoteFeeError::BaseFeeDetected),
        old(progress).wf() ==> final(progress).wf(),
        r is Ok ==> final(progress).wf() && (old(policy).wf() ==> final(policy).wf()),
        r is Ok ==> {
            let out = r->Ok_0;
            let start = open_page_result(*old(policy), *old(progress), *policy_key, now_ts, *params)->Ok_0;
            let claimed = start.claimed_quote + claim.quote_after - claim.quote_before;
            let s = page_investors(accounts@, old(policy).quote_mint, *vesting_program)->Ok_0;
            let plan = out.plan;
            let paid = start.investor_distributed + plan.total_paid;
            &&& claim.base_after == claim.base_before
            &&& out.quote_claimed == claim.quote_after - claim.quote_before
            &&& out.day_claimed_quote == claimed
            &&& out.day_investor_paid == paid
            &&& plan.matches(
                s,
                claimed as u64,
                start.investor_distributed,
                start.carry_quote,
                old(policy).y0,
                old(policy).investor_fee_share_bps,
                old(policy).daily_cap_quote,
                old(policy).min_payout_lamports,
            )
            &&& out.day_closed == params.is_last_page
            &&& !params.is_last_page ==> {
                &&& out.creator_transfer == 0
                &&& *final(policy) == *old(policy)
                &&& *final(progress) == (DistributionProgress {
                    page_cursor: (start.page_cursor + plan.investor_count) as u32,
                    claimed_quote: claimed as u64,
                    investor_distributed: paid as u64,
                    carry_quote: plan.carry_quote_after,
                    ..start
                })
            }
            &&& params.is_last_page ==> {
                &&& out.creator_transfer == creator_due(
                    claimed,
                    plan.target_investor_quote as int,
                    plan.share_bps as int,
                    start.carry_quote as int,
                )
                &&& *final(policy) == (Policy { last_day_close_ts: start.day_start_ts, ..*old(policy) })
                &&& *final(progress) == (DistributionProgress {
                    day_open: false,
                    page_cursor: 0,
                    claimed_quote: 0,
                    investor_distributed: 0,
                    carry_quote: if plan.share_bps == 0 {
                        0
                    } else {
                        plan.carry_quote_after
                    },
                    ..start
                })
            }
        },
{
    let opened = match open_page(policy, progress, policy_key, now_ts, params) {
        Ok(p) => p,
        Err(e) => return Err(e),
    };
    if claim.quote_after < claim.quote_before {
        return Err(HonoraryQuoteFeeError::ArithmeticOverflow);
    }
    let quote_claimed = claim.quote_after - claim.quote_before;
    if claim.base_after != claim.base_before {
        return Err(HonoraryQuoteFeeError::BaseFeeDetected);
    }
    if opened.claimed_quote > u64::MAX - quote_claimed {
        return Err(HonoraryQuoteFeeError::ArithmeticOverflow);
    }
    let day_claimed = opened.claimed_quote + quote_claimed;

    let investors = match collect_investors(accounts, policy.quote_mint, *vesting_program) {
        Ok(v) => v,
        Err(e) => return Err(e),
    };
    let ghost s = investors@;
    let plan = match build_investor_payout_plan(
        investors,
        day_claimed,
        opened.investor_distributed,
        opened.carry_quote,
        policy.y0,
        policy.investor_fee_share_bps,
        policy.daily_cap_quote,
        policy.min_payout_lamports,
    ) {
        Ok(p) => p,
        Err(e) => return Err(e),
    };

    if plan.investor_count == 0 && !params.is_last_page {
        return Err(HonoraryQuoteFeeError::EmptyPageWithoutLastFlag);
    }
    let bound: u64 = if params.max_page_cursor == 0 {
        u32::MAX as u64
    } else {
        params.max_page_cursor as u64
    };
    if plan.investor_count as u64 + opened.page_cursor as u64 > bound {
        return Err(HonoraryQuoteFeeError::PageOverflow);
    }
    if opened.investor_distributed > u64::MAX - plan.total_paid {
        return Err(HonoraryQuoteFeeError::ArithmeticOverflow);
    }
    let day_paid = opened.investor_distributed + plan.total_paid;

    let mut next = opened;
    next.carry_quote = plan.carry_quote_after;
    next.investor_distributed = day_paid;
    next.claimed_quote = day_claimed;
    next.page_cursor = opened.page_cursor + plan.investor_count;

    let mut creator_transfer: u64 = 0;
    let mut close_ts = policy.last_day_close_ts;
    if params.is_last_page {
        let mut due = saturating_sub_u64(day_claimed, plan.target_investor_quote);
        if plan.share_bps == 0 {
            if due > u64::MAX - plan.carry_for_creator {
                return Err(HonoraryQuoteFeeError::ArithmeticOverflow);
            }
            due = due + plan.carry_for_creator;
            next.carry_quote = 0;
        }
        creator_transfer = due;
        close_ts = next.day_start_ts;
        next.day_open = false;
        next.claimed_quote = 0;
        next.investor_distributed = 0;
        next.page_cursor = 0;
    }

    *progress = next;
    policy.last_day_close_ts = close_ts;
    Ok(
        PageSettlement {
            quote_claimed,
            plan,
            day_closed: params.is_last_page,
            creator_transfer,
            day_claimed_quote: day_claimed,
            day_investor_paid: day_paid,
        },
    )
}

} // verus!
