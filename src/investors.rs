use vstd::prelude::*;
use vstd::arithmetic::div_mod::{lemma_div_is_ordered, lemma_div_multiples_vanish, lemma_div_pos_is_pos};

use crate::errors::HonoraryQuoteFeeError;
use crate::state::Pubkey;

verus! {

/// One investor of a page: the amount still locked in the investor's vesting
/// contract and the position, among the accounts handed to the crank, of the
/// token account that receives the investor's payout.
#[derive(Clone, Copy, Debug)]
pub struct InvestorEntry {
    pub locked_amount: u64,
    pub token_account_index: usize,
}

/// What the program reads from an investor's vesting contract.
#[derive(Clone, Copy, Debug)]
pub struct StreamContract {
    pub mint: Pubkey,
    pub recipient: Pubkey,
    pub recipient_tokens: Pubkey,
    pub net_amount_deposited: u64,
    pub amount_withdrawn: u64,
    /// What the contract's own unlock schedule lets the recipient claim at the
    /// crank's timestamp, on top of what was withdrawn.
    pub unlockable_now: u64,
}

/// What the program reads from a token account.
#[derive(Clone, Copy, Debug)]
pub struct TokenAccountData {
    pub mint: Pubkey,
    pub owner: Pubkey,
    pub amount: u64,
}

/// One of the accounts that follow a crank's named accounts: vesting
/// contracts and investor token accounts, in pairs.
#[derive(Clone, Copy, Debug)]
pub struct InvestorAccount {
    pub key: Pubkey,
    /// The program that owns the account.
    pub owner: Pubkey,
    /// The account's data read as a vesting contract, where it is one.
    pub stream: Option<StreamContract>,
    /// The account's data read as a token account of the token program, where
    /// it is one.
    pub token: Option<TokenAccountData>,
}

/// Principal not yet eligible for withdrawal:
/// `deposited - min(deposited, withdrawn + unlockable)`.
pub open spec fn locked_of(c: StreamContract) -> int {
    let unlocked = c.amount_withdrawn + c.unlockable_now;
    if unlocked < c.net_amount_deposited {
        c.net_amount_deposited - unlocked
    } else {
        0
    }
}

/// The amount still locked in a vesting contract. Fails with
/// `ArithmeticOverflow` when withdrawn plus unlockable leaves 64 bits.
pub fn locked_amount(contract: &StreamContract) -> (r: Result<u64, HonoraryQuoteFeeError>)
    ensures
        r is Err <==> contract.amount_withdrawn + contract.unlockable_now > u64::MAX,
        r is Err ==> r->Err_0 == HonoraryQuoteFeeError::ArithmeticOverflow,
        r is Ok ==> r->Ok_0 == locked_of(*contract),
{
    if contract.amount_withdrawn > u64::MAX - contract.unlockable_now {
        return Err(HonoraryQuoteFeeError::ArithmeticOverflow);
    }
    let unlocked_now = contract.amount_withdrawn + contract.unlockable_now;
    let unlocked_clamped = if unlocked_now < contract.net_amount_deposited {
        unlocked_now
    } else {
        contract.net_amount_deposited
    };
    Ok(contract.net_amount_deposited - unlocked_clamped)
}

/// The outcome of one (vesting contract, token account) pair: its locked
/// amount, or the first check it fails.
pub open spec fn check_pair(
    stream_account: InvestorAccount,
    token_account: InvestorAccount,
    quote_mint: Pubkey,
    vesting_program: Pubkey,
) -> Result<u64, HonoraryQuoteFeeError> {
    if stream_account.owner@ != vesting_program@ {
        Err(HonoraryQuoteFeeError::InvalidInvestorAccount)
    } else if stream_account.stream is None {
        Err(HonoraryQuoteFeeError::InvalidInvestorAccount)
    } else {
        let c = stream_account.stream->Some_0;
        if c.mint@ != quote_mint@ {
            Err(HonoraryQuoteFeeError::StreamflowMintMismatch)
        } else if c.amount_withdrawn + c.unlockable_now > u64::MAX {
            Err(HonoraryQuoteFeeError::ArithmeticOverflow)
        } else if token_account.token is None {
            Err(HonoraryQuoteFeeError::InvalidTokenAccount)
        } else {
            let t = token_account.token->Some_0;
            if t.mint@ != quote_mint@ {
                Err(HonoraryQuoteFeeError::InvestorAtaMintMismatch)
            } else if t.owner@ != c.recipient@ {
                Err(HonoraryQuoteFeeError::InvestorAtaOwnerMismatch)
            } else if token_account.key@ != c.recipient_tokens@ {
                Err(HonoraryQuoteFeeError::InvestorAtaOwnerMismatch)
            } else {
                Ok(locked_of(c) as u64)
            }
        }
    }
}

/// The snapshot of the first `pairs` pairs of accounts, or the first failure
/// among them.
pub open spec fn collected(
    accounts: Seq<InvestorAccount>,
    quote_mint: Pubkey,
    vesting_program: Pubkey,
    pairs: nat,
) -> Result<Seq<InvestorEntry>, HonoraryQuoteFeeError>
    decreases pairs,
{
    if pairs == 0 {
        Ok(Seq::empty())
    } else {
        match collected(accounts, quote_mint, vesting_program, (pairs - 1) as nat) {
            Err(e) => Err(e),
            Ok(v) => {
                let second = 2 * pairs - 1;
                match check_pair(accounts[second - 1], accounts[second], quote_mint, vesting_program) {
                    Err(e) => Err(e),
                    Ok(locked) => Ok(
                        v.push(
                            InvestorEntry { locked_amount: locked, token_account_index: second as usize },
                        ),
                    ),
                }
            },
        }
    }
}

proof fn lemma_collected_err_stays(
    accounts: Seq<InvestorAccount>,
    quote_mint: Pubkey,
    vesting_program: Pubkey,
    n: nat,
    m: nat,
)
    requires
        n <= m,
        collected(accounts, quote_mint, vesting_program, n) is Err,
    ensures
        collected(accounts, quote_mint, vesting_program, m) == collected(
            accounts,
            quote_mint,
            vesting_program,
            n,
        ),
    decreases m,
{
    if n < m {
        lemma_collected_err_stays(accounts, quote_mint, vesting_program, n, (m - 1) as nat);
    }
}

/// Checks one (vesting contract, token account) pair and returns the
/// contract's locked amount.
pub fn check_investor_pair(
    stream_account: &InvestorAccount,
    token_account: &InvestorAccount,
    expected_quote_mint: &Pubkey,
    vesting_program: &Pubkey,
) -> (r: Result<u64, HonoraryQuoteFeeError>)
    ensures
        r == check_pair(*stream_account, *token_account, *expected_quote_mint, *vesting_program),
{
    if !(stream_account.owner == *vesting_program) {
        return Err(HonoraryQuoteFeeError::InvalidInvestorAccount);
    }
    let contract = match &stream_account.stream {
        Some(c) => c,
        None => return Err(HonoraryQuoteFeeError::InvalidInvestorAccount),
    };
    if !(contract.mint == *expected_quote_mint) {
        return Err(HonoraryQuoteFeeError::StreamflowMintMismatch);
    }
    let locked = match locked_amount(contract) {
        Ok(v) => v,
        Err(e) => return Err(e),
    };
    let token = match &token_account.token {
        Some(t) => t,
        None => return Err(HonoraryQuoteFeeError::InvalidTokenAccount),
    };
    if !(token.mint == *expected_quote_mint) {
        return Err(HonoraryQuoteFeeError::InvestorAtaMintMismatch);
    }
    if !(token.owner == contract.recipient) {
        return Err(HonoraryQuoteFeeError::InvestorAtaOwnerMismatch);
    }
    if !(token_account.key == contract.recipient_tokens) {
        return Err(HonoraryQuoteFeeError::InvestorAtaOwnerMismatch);
    }
    Ok(locked)
}

/// Reads a page's investors from the accounts that follow the crank's named
/// accounts, taken two at a time: each vesting contract must be owned by the
/// vesting program and denominated in the quote mint, and its token account
/// must hold the quote mint, belong to the contract's recipient and be the
/// very account the contract names. Each entry records the position of its
/// token account.
pub fn collect_investors(
    accounts: &Vec<InvestorAccount>,
    expected_quote_mint: Pubkey,
    vesting_program: Pubkey,
) -> (r: Result<Vec<InvestorEntry>, HonoraryQuoteFeeError>)
    ensures
        accounts@.len() % 2 != 0 ==> r == Err::<Vec<InvestorEntry>, _>(
            HonoraryQuoteFeeError::InvalidInvestorAccount,
        ),
        accounts@.len() % 2 == 0 ==> match r {
            Ok(v) => collected(
                accounts@,
                expected_quote_mint,
                vesting_program,
                (accounts@.len() / 2) as nat,
            ) == Ok::<Seq<InvestorEntry>, HonoraryQuoteFeeError>(v@),
            Err(e) => collected(
                accounts@,
                expected_quote_mint,
                vesting_program,
                (accounts@.len() / 2) as nat,
            ) == Err::<Seq<InvestorEntry>, HonoraryQuoteFeeError>(e),
        },
{
    if accounts.len() % 2 != 0 {
        return Err(HonoraryQuoteFeeError::InvalidInvestorAccount);
    }
    let half = accounts.len() / 2;
    let mut investors: Vec<InvestorEntry> = Vec::new();
    let mut k: usize = 0;
    while k < half
        invariant
            half == accounts@.len() / 2,
            accounts@.len() % 2 == 0,
            accounts@.len() <= usize::MAX,
            k <= half,
            collected(accounts@, expected_quote_mint, vesting_program, k as nat) == Ok::<
                Seq<InvestorEntry>,
                HonoraryQuoteFeeError,
            >(investors@),
        decreases half - k,
    {
        let second = 2 * k + 1;
        match check_investor_pair(
            &accounts[second - 1],
            &accounts[second],
            &expected_quote_mint,
            &vesting_program,
        ) {
            Ok(locked) => {
                investors.push(InvestorEntry { locked_amount: locked, token_account_index: second });
            },
            Err(e) => {
                proof {
                    lemma_collected_err_stays(
                        accounts@,
                        expected_quote_mint,
                        vesting_program,
                        (k + 1) as nat,
                        half as nat,
                    );
                }
                return Err(e);
            },
        }
        k = k + 1;
    }
    Ok(investors)
}

/// The share of claimed fees, in basis points, that investors may receive:
/// `min(⌊locked_total · 10000 / y0⌋, max_share_bps)`, and zero when nothing is
/// locked or the baseline is zero.
pub open spec fn share_bps_of(locked_total: int, y0: int, max_share_bps: int) -> int {
    if y0 == 0 || locked_total == 0 {
        0
    } else if locked_total * 10000 / y0 < max_share_bps {
        locked_total * 10000 / y0
    } else {
        max_share_bps
    }
}

/// Eligible investor share in basis points for the given locked total.
pub fn eligible_share_bps(locked_total: u128, y0: u64, max_share_bps: u16) -> (r: u16)
    ensures
        r == share_bps_of(locked_total as int, y0 as int, max_share_bps as int),
{
    if y0 == 0 || locked_total == 0 {
        return 0;
    }
    if locked_total > u128::MAX / 10_000 {
        proof {
            let big = locked_total * 10000;
            let floor = y0 * 65536;
            assert(floor <= big);
            lemma_div_is_ordered(floor, big, y0 as int);
            lemma_div_multiples_vanish(65536, y0 as int);
        }
        return max_share_bps;
    }
    let ratio: u128 = locked_total * 10_000 / (y0 as u128);
    if ratio < max_share_bps as u128 {
        ratio as u16
    } else {
        max_share_bps
    }
}

/// The share is zero when the baseline or the locked total is zero, never
/// exceeds the policy maximum, and reaches that maximum (of at most 10000)
/// once the locked total is at least the baseline.
pub proof fn lemma_share_bps_bounds(locked_total: u128, y0: u64, max_share_bps: u16)
    ensures
        (y0 == 0 || locked_total == 0) ==> share_bps_of(
            locked_total as int,
            y0 as int,
            max_share_bps as int,
        ) == 0,
        0 <= share_bps_of(locked_total as int, y0 as int, max_share_bps as int) <= max_share_bps,
        (y0 > 0 && locked_total >= y0 && max_share_bps <= 10000) ==> share_bps_of(
            locked_total as int,
            y0 as int,
            max_share_bps as int,
        ) == max_share_bps,
{
    if y0 > 0 && locked_total > 0 {
        lemma_div_pos_is_pos(locked_total * 10000, y0 as int);
        if locked_total >= y0 {
            lemma_div_is_ordered(y0 * 10000, locked_total * 10000, y0 as int);
            lemma_div_multiples_vanish(10000, y0 as int);
        }
    }
}

/// The share never decreases as more value is locked.
pub proof fn lemma_share_bps_monotonic(locked_a: u128, locked_b: u128, y0: u64, max_share_bps: u16)
    requires
        locked_a <= locked_b,
    ensures
        share_bps_of(locked_a as int, y0 as int, max_share_bps as int) <= share_bps_of(
            locked_b as int,
            y0 as int,
            max_share_bps as int,
        ),
{
    lemma_share_bps_bounds(locked_a, y0, max_share_bps);
    lemma_share_bps_bounds(locked_b, y0, max_share_bps);
    if y0 > 0 && locked_a > 0 {
        lemma_div_is_ordered(locked_a * 10000, locked_b * 10000, y0 as int);
    }
}

} // verus!
