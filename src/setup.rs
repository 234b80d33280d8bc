use vstd::prelude::*;

use crate::damm::{Pool, Position};
use crate::errors::HonoraryQuoteFeeError;
use crate::investors::TokenAccountData;
use crate::state::{
    DistributionProgress, HonoraryPosition, Policy, Pubkey, HONORARY_READY, NEVER_CLOSED_TS,
};
use crate::MAX_BASIS_POINTS;

verus! {

/// Which assets a pool collects its fees in.
#[derive(Clone, Copy, Debug)]
pub enum CollectFeeMode {
    Both,
    OnlyBase,
    OnlyQuote,
}

impl CollectFeeMode {
    pub open spec fn spec_as_u8(&self) -> u8 {
        match self {
            CollectFeeMode::Both => 0,
            CollectFeeMode::OnlyBase => 1,
            CollectFeeMode::OnlyQuote => 2,
        }
    }

    /// The byte the pool program stores for this mode.
    pub fn as_u8(&self) -> (r: u8)
        ensures
            r == self.spec_as_u8(),
    {
        match self {
            CollectFeeMode::Both => 0,
            CollectFeeMode::OnlyBase => 1,
            CollectFeeMode::OnlyQuote => 2,
        }
    }
}

/// The outcome of checking that a pool collects fees in the required mode and
/// that its quote mint is the expected one.
pub open spec fn quote_only_pool_result(
    pool: Pool,
    expected_quote_mint: Pubkey,
    required_mode: CollectFeeMode,
) -> Result<(), HonoraryQuoteFeeError> {
    if pool.collect_fee_mode != required_mode.spec_as_u8() {
        Err(HonoraryQuoteFeeError::InvalidFeeMode)
    } else if pool.token_b_mint@ != expected_quote_mint@ {
        Err(HonoraryQuoteFeeError::QuoteMintMismatch)
    } else {
        Ok(())
    }
}

/// Checks a pool's fee mode and quote mint.
pub fn assert_quote_only_pool(
    pool: &Pool,
    expected_quote_mint: Pubkey,
    required_mode: CollectFeeMode,
) -> (r: Result<(), HonoraryQuoteFeeError>)
    ensures
        r == quote_only_pool_result(*pool, expected_quote_mint, required_mode),
{
    if pool.collect_fee_mode != required_mode.as_u8() {
        return Err(HonoraryQuoteFeeError::InvalidFeeMode);
    }
    if !(pool.token_b_mint == expected_quote_mint) {
        return Err(HonoraryQuoteFeeError::QuoteMintMismatch);
    }
    Ok(())
}

/// The settings a policy is created with.
#[derive(Clone, Copy, Debug)]
pub struct InitializePolicyParams {
    pub investor_fee_share_bps: u16,
    pub y0: u64,
    pub daily_cap_quote: u64,
    pub min_payout_lamports: u64,
}

/// What policy setup reads from its accounts.
#[derive(Clone, Copy, Debug)]
pub struct InitializePolicy {
    pub authority: Pubkey,
    pub policy: Pubkey,
    pub policy_bump: u8,
    pub damm_pool: Pubkey,
    pub pool_authority: Pubkey,
    pub damm_program: Pubkey,
    pub quote_mint: Pubkey,
    pub base_mint: Pubkey,
    pub quote_vault: Pubkey,
    pub base_vault: Pubkey,
    pub creator_quote_ata: Pubkey,
    pub creator_quote_ata_mint: Pubkey,
}

/// The first mismatch between a decoded pool and the accounts of a policy
/// setup, or `Ok` when they agree.
pub open spec fn pool_config_result(pool: Pool, a: InitializePolicy) -> Result<
    (),
    HonoraryQuoteFeeError,
> {
    match quote_only_pool_result(pool, a.quote_mint, CollectFeeMode::OnlyQuote) {
        Err(e) => Err(e),
        Ok(_) => {
            if pool.partner@ != Pubkey::spec_zero() {
                Err(HonoraryQuoteFeeError::UnsupportedPartnerPool)
            } else if a.creator_quote_ata_mint@ != a.quote_mint@ {
                Err(HonoraryQuoteFeeError::CreatorAtaMintMismatch)
            } else if pool.token_a_mint@ != a.base_mint@ {
                Err(HonoraryQuoteFeeError::BaseMintMismatch)
            } else if pool.token_a_vault@ != a.base_vault@ {
                Err(HonoraryQuoteFeeError::VaultMismatch)
            } else if pool.token_b_vault@ != a.quote_vault@ {
                Err(HonoraryQuoteFeeError::VaultMismatch)
            } else {
                Ok(())
            }
        },
    }
}

/// Checks a policy's settings and its pool, and creates the policy with an
/// unbound position, no cycle run yet, and a closed day.
pub fn initialize_policy(
    accounts: &InitializePolicy,
    pool_data: &[u8],
    params: &InitializePolicyParams,
) -> (r: Result<(Policy, DistributionProgress), HonoraryQuoteFeeError>)
    ensures
        params.investor_fee_share_bps > 10000 ==> r == Err::<(Policy, DistributionProgress), _>(
            HonoraryQuoteFeeError::InvalidInvestorShare,
        ),
        params.investor_fee_share_bps <= 10000 && params.y0 == 0 ==> r == Err::<
            (Policy, DistributionProgress),
            _,
        >(HonoraryQuoteFeeError::InvalidY0),
        params.investor_fee_share_bps <= 10000 && params.y0 > 0 && Pool::deserialize_fails(
            pool_data@,
        ) ==> r == Err::<(Policy, DistributionProgress), _>(
            HonoraryQuoteFeeError::InvalidPoolAccount,
        ),
        forall|pool: Pool|
            #![trigger pool.decoded_at(pool_data@, 8)]
            params.investor_fee_share_bps <= 10000 && params.y0 > 0 && !Pool::deserialize_fails(
                pool_data@,
            ) && pool.decoded_at(pool_data@, 8) ==> match pool_config_result(pool, *accounts) {
                Err(e) => r == Err::<(Policy, DistributionProgress), _>(e),
                Ok(_) => r is Ok,
            },
        r is Ok ==> {
            let (policy, progress) = r->Ok_0;
            let zero = Pubkey::spec_zero();
            &&& policy.wf()
            &&& policy.authority == accounts.authority
            &&& policy.pool == accounts.damm_pool
            &&& policy.pool_authority == accounts.pool_authority
            &&& policy.cp_amm_program == accounts.damm_program
            &&& policy.quote_mint == accounts.quote_mint
            &&& policy.base_mint == accounts.base_mint
            &&& policy.quote_vault == accounts.quote_vault
            &&& policy.base_vault == accounts.base_vault
            &&& policy.position@ == zero
            &&& policy.position_nft_mint@ == zero
            &&& policy.position_nft_account@ == zero
            &&& policy.quote_treasury@ == zero
            &&& policy.base_fee_check@ == zero
            &&& policy.creator_quote_ata == accounts.creator_quote_ata
            &&& policy.y0 == params.y0
            &&& policy.investor_fee_share_bps == params.investor_fee_share_bps
            &&& policy.daily_cap_quote == params.daily_cap_quote
            &&& policy.min_payout_lamports == params.min_payout_lamports
            &&& policy.bump == accounts.policy_bump
            &&& policy.last_day_close_ts == NEVER_CLOSED_TS
            &&& policy.status == 0
            &&& progress.wf()
            &&& progress.policy == accounts.policy
            &&& progress.day_start_ts == 0
            &&& progress.carry_quote == 0
            &&& !progress.day_open
        },
{
    if params.investor_fee_share_bps > MAX_BASIS_POINTS {
        return Err(HonoraryQuoteFeeError::InvalidInvestorShare);
    }
    if params.y0 == 0 {
        return Err(HonoraryQuoteFeeError::InvalidY0);
    }
    let pool = match Pool::deserialize(pool_data) {
        Some(p) => p,
        None => return Err(HonoraryQuoteFeeError::InvalidPoolAccount),
    };
    match assert_quote_only_pool(&pool, accounts.quote_mint, CollectFeeMode::OnlyQuote) {
        Ok(_) => {},
        Err(e) => return Err(e),
    }
    if !(pool.partner == Pubkey::default()) {
        return Err(HonoraryQuoteFeeError::UnsupportedPartnerPool);
    }
    if !(accounts.creator_quote_ata_mint == accounts.quote_mint) {
        return Err(HonoraryQuoteFeeError::CreatorAtaMintMismatch);
    }
    if !(pool.token_a_mint == accounts.base_mint) {
        return Err(HonoraryQuoteFeeError::BaseMintMismatch);
    }
    if !(pool.token_a_vault == accounts.base_vault) {
        return Err(HonoraryQuoteFeeError::VaultMismatch);
    }
    if !(pool.token_b_vault == accounts.quote_vault) {
        return Err(HonoraryQuoteFeeError::VaultMismatch);
    }
    let policy = Policy {
        authority: accounts.authority,
        pool: accounts.damm_pool,
        pool_authority: accounts.pool_authority,
        cp_amm_program: accounts.damm_program,
        quote_mint: accounts.quote_mint,
        base_mint: accounts.base_mint,
        quote_vault: accounts.quote_vault,
        base_vault: accounts.base_vault,
        position: Pubkey::default(),
        position_nft_mint: Pubkey::default(),
        position_nft_account: Pubkey::default(),
        quote_treasury: Pubkey::default(),
        base_fee_check: Pubkey::default(),
        creator_quote_ata: accounts.creator_quote_ata,
        y0: params.y0,
        daily_cap_quote: params.daily_cap_quote,
        min_payout_lamports: params.min_payout_lamports,
        last_day_close_ts: NEVER_CLOSED_TS,
        investor_fee_share_bps: params.investor_fee_share_bps,
        bump: accounts.policy_bump,
        status: 0,
    };
    let progress = DistributionProgress {
        policy: accounts.policy,
        day_start_ts: 0,
        page_cursor: 0,
        claimed_quote: 0,
        investor_distributed: 0,
        carry_quote: 0,
        day_open: false,
        bump: 0,
    };
    Ok((policy, progress))
}

/// What binding the honorary position reads from its accounts.
#[derive(Clone, Copy, Debug)]
pub struct ConfigureHonoraryPosition {
    pub authority: Pubkey,
    pub policy: Pubkey,
    pub honorary_position: Pubkey,
    pub honorary_position_bump: u8,
    pub position: Pubkey,
    pub position_nft_mint: Pubkey,
    pub position_nft_mint_decimals: u8,
    pub position_nft_account: Pubkey,
    pub position_nft_account_data: TokenAccountData,
    pub quote_treasury: Pubkey,
    pub quote_treasury_data: TokenAccountData,
    pub base_fee_check: Pubkey,
    pub base_fee_check_data: TokenAccountData,
}

/// The first check that binding fails before the position is read.
pub open spec fn binding_precheck(policy: Policy, a: ConfigureHonoraryPosition) -> Option<
    HonoraryQuoteFeeError,
> {
    if policy.authority@ != a.authority@ {
        Some(HonoraryQuoteFeeError::Unauthorized)
    } else if policy.position@ != Pubkey::spec_zero() {
        Some(HonoraryQuoteFeeError::HonoraryPositionAlreadyConfigured)
    } else {
        None
    }
}

/// The first check that a decoded position and the binding's accounts fail:
/// the position must belong to the policy's pool and be empty, its receipt
/// must be a single unit of a zero-decimal mint held by the honorary
/// authority, and both treasuries must hold the policy's mints and belong to
/// that authority.
pub open spec fn binding_error(policy: Policy, a: ConfigureHonoraryPosition, position: Position) -> Option<
    HonoraryQuoteFeeError,
> {
    let nft = a.position_nft_account_data;
    let quote = a.quote_treasury_data;
    let base = a.base_fee_check_data;
    if position.pool@ != policy.pool@ {
        Some(HonoraryQuoteFeeError::PositionPoolMismatch)
    } else if !(position.fee_a_pending == 0 && position.fee_b_pending == 0) {
        Some(HonoraryQuoteFeeError::PositionHasUnclaimedFees)
    } else if !(position.unlocked_liquidity == 0 && position.vested_liquidity == 0
        && position.permanent_locked_liquidity == 0) {
        Some(HonoraryQuoteFeeError::PositionNotEmpty)
    } else if a.position_nft_mint_decimals != 0 {
        Some(HonoraryQuoteFeeError::InvalidPositionMint)
    } else if nft.mint@ != a.position_nft_mint@ {
        Some(HonoraryQuoteFeeError::InvalidPositionNft)
    } else if nft.owner@ != a.honorary_position@ {
        Some(HonoraryQuoteFeeError::InvalidPositionNftOwner)
    } else if nft.amount != 1 {
        Some(HonoraryQuoteFeeError::InvalidPositionNftAmount)
    } else if quote.mint@ != policy.quote_mint@ {
        Some(HonoraryQuoteFeeError::TreasuryMintMismatch)
    } else if quote.owner@ != a.honorary_position@ {
        Some(HonoraryQuoteFeeError::TreasuryOwnerMismatch)
    } else if base.mint@ != policy.base_mint@ {
        Some(HonoraryQuoteFeeError::TreasuryMintMismatch)
    } else if base.owner@ != a.honorary_position@ {
        Some(HonoraryQuoteFeeError::TreasuryOwnerMismatch)
    } else {
        None
    }
}

/// Binds the program's empty position to a policy, once, and marks the
/// policy ready. Nothing changes when a check fails.
pub fn configure_honorary_position(
    policy: &mut Policy,
    accounts: &ConfigureHonoraryPosition,
    position_data: &[u8],
) -> (r: Result<HonoraryPosition, HonoraryQuoteFeeError>)
    ensures
        r is Err ==> *final(policy) == *old(policy),
        old(policy).wf() ==> final(policy).wf(),
        binding_precheck(*old(policy), *accounts) is Some ==> r == Err::<HonoraryPosition, _>(
            binding_precheck(*old(policy), *accounts)->Some_0,
        ),
        binding_precheck(*old(policy), *accounts) is None && position_data@.len()
            != Position::SIZE ==> r == Err::<HonoraryPosition, _>(
            HonoraryQuoteFeeError::InvalidPositionAccount,
        ),
        forall|position: Position|
            #![trigger position.decoded_at(position_data@, 0)]
            binding_precheck(*old(policy), *accounts) is None && position_data@.len()
                == Position::SIZE && position.decoded_at(position_data@, 0) ==> match binding_error(
                *old(policy),
                *accounts,
                position,
            ) {
                Some(e) => r == Err::<HonoraryPosition, _>(e),
                None => r is Ok,
            },
        r is Ok ==> {
            &&& r->Ok_0.policy == accounts.policy
            &&& r->Ok_0.bump == accounts.honorary_position_bump
            &&& *final(policy) == (Policy {
                position: accounts.position,
                position_nft_mint: accounts.position_nft_mint,
                position_nft_account: accounts.position_nft_account,
                quote_treasury: accounts.quote_treasury,
                base_fee_check: accounts.base_fee_check,
                status: old(policy).status | HONORARY_READY,
                ..*old(policy)
            })
        },
{
    if !(policy.authority == accounts.authority) {
        return Err(HonoraryQuoteFeeError::Unauthorized);
    }
    if !(policy.position == Pubkey::default()) {
        return Err(HonoraryQuoteFeeError::HonoraryPositionAlreadyConfigured);
    }
    let position = match Position::deserialize(position_data) {
        Some(p) => p,
        None => return Err(HonoraryQuoteFeeError::InvalidPositionAccount),
    };
    if !(position.pool == policy.pool) {
        return Err(HonoraryQuoteFeeError::PositionPoolMismatch);
    }
    if !(position.fee_a_pending == 0 && position.fee_b_pending == 0) {
        return Err(HonoraryQuoteFeeError::PositionHasUnclaimedFees);
    }
    if !(position.unlocked_liquidity == 0 && position.vested_liquidity == 0
        && position.permanent_locked_liquidity == 0) {
        return Err(HonoraryQuoteFeeError::PositionNotEmpty);
    }
    if accounts.position_nft_mint_decimals != 0 {
        return Err(HonoraryQuoteFeeError::InvalidPositionMint);
    }
    let nft = &accounts.position_nft_account_data;
    if !(nft.mint == accounts.position_nft_mint) {
        return Err(HonoraryQuoteFeeError::InvalidPositionNft);
    }
    if !(nft.owner == accounts.honorary_position) {
        return Err(HonoraryQuoteFeeError::InvalidPositionNftOwner);
    }
    if nft.amount != 1 {
        return Err(HonoraryQuoteFeeError::InvalidPositionNftAmount);
    }
    let quote = &accounts.quote_treasury_data;
    if !(quote.mint == policy.quote_mint) {
        return Err(HonoraryQuoteFeeError::TreasuryMintMismatch);
    }
    if !(quote.owner == accounts.honorary_position) {
        return Err(HonoraryQuoteFeeError::TreasuryOwnerMismatch);
    }
    let base = &accounts.base_fee_check_data;
    if !(base.mint == policy.base_mint) {
        return Err(HonoraryQuoteFeeError::TreasuryMintMismatch);
    }
    if !(base.owner == accounts.honorary_position) {
        return Err(HonoraryQuoteFeeError::TreasuryOwnerMismatch);
    }

    policy.position = accounts.position;
    policy.position_nft_mint = accounts.position_nft_mint;
    policy.position_nft_account = accounts.position_nft_account;
    policy.quote_treasury = accounts.quote_treasury;
    policy.base_fee_check = accounts.base_fee_check;
    policy.status = policy.status | HONORARY_READY;
    Ok(HonoraryPosition { policy: accounts.policy, bump: accounts.honorary_position_bump })
}

} // verus!
