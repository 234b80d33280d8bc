use honorary_quote_fee::{
    build_investor_payout_plan, eligible_share_bps, locked_amount, mul_div_floor_u128,
    HonoraryQuoteFeeError, InvestorEntry, Pubkey, StreamContract,
};

fn entries(locked: &[u64]) -> Vec<InvestorEntry> {
    locked
        .iter()
        .enumerate()
        .map(|(i, l)| InvestorEntry { locked_amount: *l, token_account_index: 2 * i + 1 })
        .collect()
}

#[test]
fn mul_div_floor_matches_rational_floor() {
    assert_eq!(mul_div_floor_u128(7, 3, 2), Ok(10));
    assert_eq!(mul_div_floor_u128(10, 10, 3), Ok(33));
    assert_eq!(
        mul_div_floor_u128(u64::MAX as u128, u64::MAX as u128, 1),
        Ok((u64::MAX as u128) * (u64::MAX as u128))
    );
    assert_eq!(mul_div_floor_u128(1, 1, 0), Err(HonoraryQuoteFeeError::ArithmeticOverflow));
    assert_eq!(mul_div_floor_u128(0, 0, 0), Err(HonoraryQuoteFeeError::ArithmeticOverflow));
    assert_eq!(
        mul_div_floor_u128(u128::MAX / 3 + 1, 3, 7),
        Err(HonoraryQuoteFeeError::ArithmeticOverflow)
    );
}

#[test]
fn share_bps_shape() {
    assert_eq!(eligible_share_bps(250_000, 1_000_000, 5000), 2500);
    assert_eq!(eligible_share_bps(0, 1_000_000, 5000), 0);
    assert_eq!(eligible_share_bps(1_000_000, 0, 5000), 0);
    assert_eq!(eligible_share_bps(1_000_000, 1_000_000, 7000), 7000);
    assert_eq!(eligible_share_bps(3_000_000, 1_000_000, 10_000), 10_000);
    assert_eq!(eligible_share_bps(u128::MAX, 1, 4000), 4000);
    let mut last = 0;
    for locked in (0..=1_000_000u128).step_by(50_000) {
        let share = eligible_share_bps(locked, 1_000_000, 6000);
        assert!(share >= last);
        last = share;
    }
    assert_eq!(eligible_share_bps(123_456, 1_000_000, 6000), 1234);
}

#[test]
fn proportional_plan_pays_exact_shares() {
    let plan =
        build_investor_payout_plan(entries(&[500_000, 300_000, 200_000]), 100_000, 0, 0, 1_000_000, 5000, 0, 0)
            .unwrap();
    assert_eq!(plan.target_investor_quote, 50_000);
    assert_eq!(plan.transfers, vec![(25_000, 1), (15_000, 3), (10_000, 5)]);
    assert_eq!(plan.total_paid, 50_000);
    assert_eq!(plan.carry_quote_after, 0);
    assert_eq!(plan.investor_count, 3);
}

#[test]
fn plan_rounding_goes_to_carry() {
    let plan =
        build_investor_payout_plan(entries(&[1, 1, 1]), 10_000, 0, 5, 3, 10_000, 0, 0).unwrap();
    // available = 10000 + 5, each gets floor(10005 / 3)
    assert_eq!(plan.transfers, vec![(3335, 1), (3335, 3), (3335, 5)]);
    assert_eq!(plan.total_paid, 10_005);
    assert_eq!(plan.carry_quote_after, 0);

    let plan =
        build_investor_payout_plan(entries(&[1, 1, 1]), 10_000, 0, 0, 3, 10_000, 0, 0).unwrap();
    assert_eq!(plan.total_paid, 9999);
    assert_eq!(plan.carry_quote_after, 1);
}

#[test]
fn daily_cap_clamps_target() {
    let capped =
        build_investor_payout_plan(entries(&[1_000_000]), 100_000, 0, 0, 1_000_000, 5000, 30_000, 0)
            .unwrap();
    assert_eq!(capped.target_investor_quote, 30_000);
    assert_eq!(capped.total_paid, 30_000);
    let loose =
        build_investor_payout_plan(entries(&[1_000_000]), 100_000, 0, 0, 1_000_000, 5000, 80_000, 0)
            .unwrap();
    assert_eq!(loose.target_investor_quote, 50_000);
    let remaining =
        build_investor_payout_plan(entries(&[1_000_000]), 100_000, 30_000, 0, 1_000_000, 5000, 50_000, 0)
            .unwrap();
    assert_eq!(remaining.total_paid, 20_000);
}

#[test]
fn dust_floor_zeroes_small_payouts() {
    let plan =
        build_investor_payout_plan(entries(&[600, 300, 100]), 1000, 0, 0, 1000, 10_000, 0, 200)
            .unwrap();
    assert_eq!(plan.transfers, vec![(600, 1), (300, 3), (0, 5)]);
    assert_eq!(plan.total_paid, 900);
    assert_eq!(plan.carry_quote_after, 100);
    let exact =
        build_investor_payout_plan(entries(&[600, 300, 100]), 1000, 0, 0, 1000, 10_000, 0, 100)
            .unwrap();
    assert_eq!(exact.transfers[2].0, 100);
}

#[test]
fn zero_share_sweeps_carry_to_creator() {
    let plan =
        build_investor_payout_plan(entries(&[0, 0]), 50_000, 0, 777, 1_000_000, 5000, 0, 0).unwrap();
    assert_eq!(plan.share_bps, 0);
    assert_eq!(plan.total_paid, 0);
    assert_eq!(plan.transfers, vec![(0, 1), (0, 3)]);
    assert_eq!(plan.carry_for_creator, 777);
    assert_eq!(plan.carry_quote_after, 0);
}

#[test]
fn plan_overflow_fails_closed() {
    // a share above 100% makes the target leave 64 bits
    let over =
        build_investor_payout_plan(entries(&[2_000_000]), u64::MAX, 0, 0, 1_000_000, 20_000, 0, 0);
    assert_eq!(over.err(), Some(HonoraryQuoteFeeError::ArithmeticOverflow));
    let carry =
        build_investor_payout_plan(entries(&[1_000_000]), 100_000, 0, u64::MAX, 1_000_000, 5000, 0, 0);
    assert_eq!(carry.err(), Some(HonoraryQuoteFeeError::ArithmeticOverflow));
}

#[test]
fn locked_amount_formula() {
    let key = Pubkey([1; 32]);
    let mut c = StreamContract {
        mint: key,
        recipient: key,
        recipient_tokens: key,
        net_amount_deposited: 1000,
        amount_withdrawn: 100,
        unlockable_now: 250,
    };
    assert_eq!(locked_amount(&c), Ok(650));
    c.unlockable_now = 2000;
    assert_eq!(locked_amount(&c), Ok(0));
    c.amount_withdrawn = u64::MAX;
    c.unlockable_now = 1;
    assert_eq!(locked_amount(&c), Err(HonoraryQuoteFeeError::ArithmeticOverflow));
}
