//! Quote-only fee distribution: the accounting core of a program that owns an
//! empty liquidity position, claims its quote-asset fees once a day and splits
//! them between time-locked investors and a creator.
pub mod bytes;
pub mod crank;
pub mod damm;
pub mod errors;
pub mod investors;
pub mod math;
pub mod payout;
pub mod setup;
pub mod state;

pub use crank::{
    open_page, settle_page, ClaimObservation, CrankQuoteFeeParams, PageSettlement,
};
pub use damm::{
    BaseFeeStruct, DynamicFeeStruct, MeteoraDammV2Decoder, Pool, PoolFeesStruct, PoolMetrics,
    Position, PositionMetrics, RewardInfo, UserRewardInfo,
};
pub use errors::HonoraryQuoteFeeError;
pub use investors::{
    check_investor_pair, collect_investors, eligible_share_bps, locked_amount, InvestorAccount,
    InvestorEntry, StreamContract, TokenAccountData,
};
pub use math::{mul_div_floor_u128, saturating_sub_u64, u128_to_u64};
pub use payout::{build_investor_payout_plan, InvestorPayoutPlan};
pub use setup::{
    assert_quote_only_pool, configure_honorary_position, initialize_policy, CollectFeeMode,
    ConfigureHonoraryPosition, InitializePolicy, InitializePolicyParams,
};
pub use state::{
    DistributionProgress, HonoraryPosition, Policy, PolicyStatus, Pubkey, HONORARY_READY,
    NEVER_CLOSED_TS,
};

use vstd::prelude::*;

verus! {

/// Length of one distribution cycle, in seconds.
pub const DAY_SECONDS: i64 = 86_400;

/// Basis points in one whole.
pub const MAX_BASIS_POINTS: u16 = 10_000;

} // verus!
