use honorary_quote_fee::{
    collect_investors, open_page, settle_page, ClaimObservation, CrankQuoteFeeParams,
    DistributionProgress, HonoraryQuoteFeeError, InvestorAccount, Policy, Pubkey,
    StreamContract, TokenAccountData, HONORARY_READY, NEVER_CLOSED_TS,
};

const VESTING_PROGRAM: u8 = 20;
const TOKEN_PROGRAM: u8 = 21;

fn key(b: u8) -> Pubkey {
    Pubkey([b; 32])
}

fn key2(a: u8, b: u8) -> Pubkey {
    let mut k = [0u8; 32];
    k[0] = a;
    k[1] = b;
    Pubkey(k)
}

fn quote_mint() -> Pubkey {
    key(10)
}

fn policy_key() -> Pubkey {
    key(3)
}

fn ready_policy() -> Policy {
    Policy {
        authority: key(1),
        pool: key(2),
        pool_authority: key(4),
        cp_amm_program: key(5),
        quote_mint: quote_mint(),
        base_mint: key(11),
        quote_vault: key(12),
        base_vault: key(13),
        position: key(14),
        position_nft_mint: key(15),
        position_nft_account: key(16),
        quote_treasury: key(17),
        base_fee_check: key(18),
        creator_quote_ata: key(19),
        y0: 5_000_000,
        daily_cap_quote: 0,
        min_payout_lamports: 0,
        last_day_close_ts: NEVER_CLOSED_TS,
        investor_fee_share_bps: 6000,
        bump: 255,
        status: HONORARY_READY,
    }
}

fn fresh_progress() -> DistributionProgress {
    DistributionProgress {
        policy: policy_key(),
        day_start_ts: 0,
        page_cursor: 0,
        claimed_quote: 0,
        investor_distributed: 0,
        carry_quote: 0,
        day_open: false,
        bump: 254,
    }
}

fn investor_pair(i: u8, locked: u64) -> Vec<InvestorAccount> {
    let stream = StreamContract {
        mint: quote_mint(),
        recipient: key2(50, i),
        recipient_tokens: key2(60, i),
        net_amount_deposited: locked,
        amount_withdrawn: 0,
        unlockable_now: 0,
    };
    vec![
        InvestorAccount {
            key: key2(40, i),
            owner: key(VESTING_PROGRAM),
            stream: Some(stream),
            token: None,
        },
        InvestorAccount {
            key: key2(60, i),
            owner: key(TOKEN_PROGRAM),
            stream: None,
            token: Some(TokenAccountData { mint: quote_mint(), owner: key2(50, i), amount: 0 }),
        },
    ]
}

fn page(first: u8, count: u8, locked: u64) -> Vec<InvestorAccount> {
    (first..first + count).flat_map(|i| investor_pair(i, locked)).collect()
}

fn params(expected: u32, last: bool) -> CrankQuoteFeeParams {
    CrankQuoteFeeParams { expected_page_cursor: expected, max_page_cursor: 0, is_last_page: last }
}

fn claim(quote_gain: u64) -> ClaimObservation {
    ClaimObservation { quote_before: 10, quote_after: 10 + quote_gain, base_before: 7, base_after: 7 }
}

fn same_progress(a: &DistributionProgress, b: &DistributionProgress) -> bool {
    a.policy == b.policy
        && a.day_start_ts == b.day_start_ts
        && a.page_cursor == b.page_cursor
        && a.claimed_quote == b.claimed_quote
        && a.investor_distributed == b.investor_distributed
        && a.carry_quote == b.carry_quote
        && a.day_open == b.day_open
}

#[test]
fn three_pages_of_one_day() {
    let mut policy = ready_policy();
    let mut progress = fresh_progress();
    let pk = policy_key();
    let vesting = key(VESTING_PROGRAM);
    let now = 1_000_000i64;

    let first = settle_page(&mut policy, &mut progress, &pk, now, &params(0, false), &claim(1_000_000), &page(0, 4, 500_000), &vesting)
        .unwrap();
    assert_eq!(progress.page_cursor, 4);
    assert!(progress.day_open);
    assert_eq!(progress.day_start_ts, now);
    assert_eq!(first.plan.share_bps, 4000);
    assert_eq!(first.plan.target_investor_quote, 400_000);
    assert_eq!(first.plan.transfers, vec![(100_000, 1), (100_000, 3), (100_000, 5), (100_000, 7)]);
    assert_eq!(progress.investor_distributed, 400_000);
    assert_eq!(progress.claimed_quote, 1_000_000);

    // the same page again is refused and changes nothing
    let before = progress;
    let again = settle_page(&mut policy, &mut progress, &pk, now + 5, &params(0, false), &claim(0), &page(0, 4, 500_000), &vesting);
    assert_eq!(again.err(), Some(HonoraryQuoteFeeError::UnexpectedPageCursor));
    assert!(same_progress(&before, &progress));

    let second = settle_page(&mut policy, &mut progress, &pk, now + 10, &params(4, false), &claim(0), &page(4, 4, 500_000), &vesting)
        .unwrap();
    assert_eq!(progress.page_cursor, 8);
    assert_eq!(second.plan.total_paid, 0);
    assert_eq!(second.creator_transfer, 0);

    let third = settle_page(&mut policy, &mut progress, &pk, now + 20, &params(8, true), &claim(0), &page(8, 2, 500_000), &vesting)
        .unwrap();
    assert_eq!(third.plan.investor_count, 2);
    assert_eq!(third.plan.target_investor_quote, 200_000);
    assert!(third.day_closed);
    assert_eq!(third.creator_transfer, 1_000_000 - 200_000);
    assert_eq!(third.day_claimed_quote, 1_000_000);
    assert_eq!(third.day_investor_paid, 400_000);
    assert!(!progress.day_open);
    assert_eq!(progress.page_cursor, 0);
    assert_eq!(progress.claimed_quote, 0);
    assert_eq!(progress.investor_distributed, 0);
    assert_eq!(policy.last_day_close_ts, now);
}

#[test]
fn day_gate_waits_a_full_day() {
    let mut policy = ready_policy();
    policy.last_day_close_ts = 1_000;
    let progress = fresh_progress();
    let pk = policy_key();
    assert_eq!(
        open_page(&policy, &progress, &pk, 1_000 + 86_399, &params(0, false)).err(),
        Some(HonoraryQuoteFeeError::DayNotReady)
    );
    let opened = open_page(&policy, &progress, &pk, 1_000 + 86_400, &params(0, false)).unwrap();
    assert!(opened.day_open);
    assert_eq!(opened.day_start_ts, 87_400);
    assert_eq!(
        open_page(&policy, &progress, &pk, 1_000 + 86_400, &params(3, false)).err(),
        Some(HonoraryQuoteFeeError::UnexpectedPageCursor)
    );
    policy.last_day_close_ts = i64::MAX - 10;
    assert_eq!(
        open_page(&policy, &progress, &pk, i64::MAX, &params(0, false)).err(),
        Some(HonoraryQuoteFeeError::DayNotReady)
    );
}

#[test]
fn open_day_keeps_cursor_and_ignores_gate() {
    let mut policy = ready_policy();
    policy.last_day_close_ts = 1_000;
    let mut progress = fresh_progress();
    progress.day_open = true;
    progress.day_start_ts = 500;
    progress.page_cursor = 6;
    progress.claimed_quote = 42;
    let pk = policy_key();
    let opened = open_page(&policy, &progress, &pk, 1_001, &params(6, false)).unwrap();
    assert_eq!(opened.page_cursor, 6);
    assert_eq!(opened.claimed_quote, 42);
    assert_eq!(opened.day_start_ts, 500);
    assert_eq!(
        open_page(&policy, &progress, &pk, 1_001, &params(0, false)).err(),
        Some(HonoraryQuoteFeeError::UnexpectedPageCursor)
    );
}

#[test]
fn gate_errors() {
    let mut policy = ready_policy();
    let mut progress = fresh_progress();
    let pk = policy_key();
    assert_eq!(
        open_page(&policy, &progress, &pk, -1, &params(0, false)).err(),
        Some(HonoraryQuoteFeeError::InvalidTimestamp)
    );
    progress.policy = key(99);
    assert_eq!(
        open_page(&policy, &progress, &pk, 5, &params(0, false)).err(),
        Some(HonoraryQuoteFeeError::DayNotOpen)
    );
    policy.status = 0;
    assert_eq!(
        open_page(&policy, &progress, &pk, 5, &params(0, false)).err(),
        Some(HonoraryQuoteFeeError::HonoraryPositionNotReady)
    );
}

#[test]
fn base_fee_aborts_without_change() {
    let mut policy = ready_policy();
    let mut progress = fresh_progress();
    let pk = policy_key();
    let before = progress;
    let bad = ClaimObservation { quote_before: 0, quote_after: 500, base_before: 7, base_after: 8 };
    let r = settle_page(&mut policy, &mut progress, &pk, 100, &params(0, true), &bad, &page(0, 2, 10), &key(VESTING_PROGRAM));
    assert_eq!(r.err(), Some(HonoraryQuoteFeeError::BaseFeeDetected));
    assert!(same_progress(&before, &progress));
    assert_eq!(policy.last_day_close_ts, NEVER_CLOSED_TS);
}

#[test]
fn quote_decrease_is_overflow() {
    let mut policy = ready_policy();
    let mut progress = fresh_progress();
    let bad = ClaimObservation { quote_before: 500, quote_after: 499, base_before: 7, base_after: 7 };
    let r = settle_page(&mut policy, &mut progress, &policy_key(), 100, &params(0, true), &bad, &page(0, 1, 10), &key(VESTING_PROGRAM));
    assert_eq!(r.err(), Some(HonoraryQuoteFeeError::ArithmeticOverflow));
}

#[test]
fn empty_page_needs_last_flag() {
    let mut policy = ready_policy();
    let mut progress = fresh_progress();
    let r = settle_page(&mut policy, &mut progress, &policy_key(), 100, &params(0, false), &claim(1000), &Vec::new(), &key(VESTING_PROGRAM));
    assert_eq!(r.err(), Some(HonoraryQuoteFeeError::EmptyPageWithoutLastFlag));
    let closed = settle_page(&mut policy, &mut progress, &policy_key(), 100, &params(0, true), &claim(1000), &Vec::new(), &key(VESTING_PROGRAM))
        .unwrap();
    // nothing locked on this page: the share is zero and the creator takes it all
    assert_eq!(closed.creator_transfer, 1000);
    assert!(!progress.day_open);
    assert_eq!(policy.last_day_close_ts, 100);
}

#[test]
fn zero_share_close_sweeps_carry() {
    let mut policy = ready_policy();
    let mut progress = fresh_progress();
    progress.carry_quote = 321;
    let out = settle_page(&mut policy, &mut progress, &policy_key(), 100, &params(0, true), &claim(1000), &page(0, 2, 0), &key(VESTING_PROGRAM))
        .unwrap();
    assert_eq!(out.plan.share_bps, 0);
    assert_eq!(out.plan.total_paid, 0);
    assert_eq!(out.creator_transfer, 1321);
    assert_eq!(progress.carry_quote, 0);
}

#[test]
fn dust_carry_survives_day_close() {
    let mut policy = ready_policy();
    policy.y0 = 3;
    policy.investor_fee_share_bps = 10_000;
    let mut progress = fresh_progress();
    let out = settle_page(&mut policy, &mut progress, &policy_key(), 100, &params(0, true), &claim(10_000), &page(0, 3, 1), &key(VESTING_PROGRAM))
        .unwrap();
    assert_eq!(out.plan.total_paid, 9999);
    assert_eq!(out.creator_transfer, 0);
    assert_eq!(progress.carry_quote, 1);
}

#[test]
fn page_bound_is_enforced() {
    let mut policy = ready_policy();
    let mut progress = fresh_progress();
    let bounded = CrankQuoteFeeParams { expected_page_cursor: 0, max_page_cursor: 3, is_last_page: false };
    let r = settle_page(&mut policy, &mut progress, &policy_key(), 100, &bounded, &claim(1000), &page(0, 4, 10), &key(VESTING_PROGRAM));
    assert_eq!(r.err(), Some(HonoraryQuoteFeeError::PageOverflow));
    let exact = CrankQuoteFeeParams { expected_page_cursor: 0, max_page_cursor: 4, is_last_page: false };
    assert!(settle_page(&mut policy, &mut progress, &policy_key(), 100, &exact, &claim(1000), &page(0, 4, 10), &key(VESTING_PROGRAM)).is_ok());
    assert_eq!(progress.page_cursor, 4);
}

#[test]
fn collect_reports_second_index_and_locked() {
    let mut accounts = page(0, 2, 700);
    if let Some(s) = accounts[0].stream.as_mut() {
        s.amount_withdrawn = 100;
        s.unlockable_now = 50;
    }
    let v = collect_investors(&accounts, quote_mint(), key(VESTING_PROGRAM)).unwrap();
    assert_eq!(v.len(), 2);
    assert_eq!((v[0].locked_amount, v[0].token_account_index), (550, 1));
    assert_eq!((v[1].locked_amount, v[1].token_account_index), (700, 3));
}

#[test]
fn collect_errors() {
    let vesting = key(VESTING_PROGRAM);
    let check = |accounts: Vec<InvestorAccount>, e: HonoraryQuoteFeeError| {
        assert_eq!(collect_investors(&accounts, quote_mint(), vesting).err(), Some(e));
    };
    let mut odd = page(0, 1, 10);
    odd.pop();
    check(odd, HonoraryQuoteFeeError::InvalidInvestorAccount);

    let mut a = page(0, 2, 10);
    a[2].owner = key(77);
    check(a, HonoraryQuoteFeeError::InvalidInvestorAccount);

    let mut a = page(0, 1, 10);
    a[0].stream = None;
    check(a, HonoraryQuoteFeeError::InvalidInvestorAccount);

    let mut a = page(0, 1, 10);
    a[0].stream.as_mut().unwrap().mint = key(77);
    check(a, HonoraryQuoteFeeError::StreamflowMintMismatch);

    let mut a = page(0, 1, 10);
    a[0].stream.as_mut().unwrap().amount_withdrawn = u64::MAX;
    a[0].stream.as_mut().unwrap().unlockable_now = 1;
    check(a, HonoraryQuoteFeeError::ArithmeticOverflow);

    let mut a = page(0, 1, 10);
    a[1].token = None;
    check(a, HonoraryQuoteFeeError::InvalidTokenAccount);

    let mut a = page(0, 1, 10);
    a[1].token.as_mut().unwrap().mint = key(77);
    check(a, HonoraryQuoteFeeError::InvestorAtaMintMismatch);

    let mut a = page(0, 1, 10);
    a[1].token.as_mut().unwrap().owner = key(77);
    check(a, HonoraryQuoteFeeError::InvestorAtaOwnerMismatch);

    let mut a = page(0, 1, 10);
    a[1].key = key(77);
    check(a, HonoraryQuoteFeeError::InvestorAtaOwnerMismatch);
}
