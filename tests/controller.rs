use relp_core::error::Error;
use relp_core::oracle::Oracle;
use relp_core::relp::RELP;
use relp_core::stable::{
    swap_elc_with_elp, swap_elp_with_elc, AddLiquidity, ContractEvent, ContractionPlan, ExpandEvent,
    ExpansionPlan, RemoveLiquidity, Reserves, Stable, ADJUST_GAP,
};

const ALICE: u64 = 1;
const BOB: u64 = 2;
const STABLE: u64 = 50;
const LEDGER: u64 = 100;

fn system(now: u128) -> (Stable, RELP) {
    (Stable::new(ALICE, STABLE, now), RELP::new(STABLE, LEDGER, now))
}

#[test]
fn oracle_new_works() {
    let oracle = Oracle::new(ALICE);
    assert_eq!(oracle.elp_price(), 0);
    assert_eq!(oracle.elc_price(), 0);
    assert_eq!(oracle.owner(), ALICE);
}

#[test]
fn update_works() {
    let mut oracle = Oracle::new(ALICE);
    assert!(oracle.update(ALICE, 66, 99, 5).is_ok());
    assert_eq!(oracle.elp_price(), 66);
    assert_eq!(oracle.elc_price(), 99);
    assert!(oracle.only_owner(ALICE).is_ok());
    assert_eq!(oracle.owner(), ALICE);
}

#[test]
fn update_failed_when_not_owner() {
    let mut oracle = Oracle::new(ALICE);
    assert_eq!(oracle.update(BOB, 66, 99, 5), Err(Error::OnlyOwnerAccess));
    assert_eq!(oracle.elp_price(), 0);
}

#[test]
fn oracle_transfer_ownership_works() {
    let mut oracle = Oracle::new(ALICE);
    assert!(oracle.transfer_ownership(ALICE, BOB).is_ok());
    assert_eq!(oracle.owner(), BOB);
}

#[test]
fn oracle_transfer_ownership_failed_when_not_owner() {
    let mut oracle = Oracle::new(ALICE);
    assert_eq!(oracle.transfer_ownership(BOB, BOB), Err(Error::OnlyOwnerAccess));
    assert_eq!(oracle.owner(), ALICE);
}

#[test]
fn stable_new_works() {
    let stable = Stable::new(ALICE, STABLE, 0);
    assert_eq!(stable.elp_reserve(), 0);
    assert_eq!(stable.elp_risk_reserve(), 0);
    assert_eq!(stable.elc_reserve(), 0);
    assert_eq!(stable.elc_risk_reserve(), 0);
    assert_eq!(stable.adjust_gap(), 3600 * 24 * 1000);
}

#[test]
fn zero_price_is_unavailable() {
    let (mut stable, mut relp) = system(0);
    let oracle = Oracle::with_prices(ALICE, 0, 5, 0);
    assert_eq!(stable.liability_ratio(&oracle, 10), Err(Error::PriceUnavailable));
    assert_eq!(
        stable.add_liquidity(ALICE, 100, &oracle, 0, &mut relp, 1),
        Err(Error::PriceUnavailable)
    );
    assert_eq!(stable.elp_reserve(), 0);
    assert_eq!(relp.total_supply(), 0);
}

#[test]
fn first_deposit_splits_at_the_lowest_ratio() {
    let (mut stable, mut relp) = system(0);
    let oracle = Oracle::with_prices(ALICE, 1, 1, 0);
    assert_eq!(stable.liability_ratio(&oracle, 0), Ok(1));
    let (event, claim) = stable.add_liquidity(ALICE, 100, &oracle, 0, &mut relp, 1).unwrap();
    assert_eq!(event, AddLiquidity { sender: ALICE, elp_amount: 100, relp_amount: 99, elc_amount: 1 });
    assert_eq!(claim, 0);
    assert_eq!(stable.elp_reserve(), 100);
    assert_eq!(relp.balance_of(ALICE), 99);
    assert_eq!(relp.total_supply(), 99);
}

#[test]
fn equal_values_give_a_full_ratio() {
    let (mut stable, mut relp) = system(0);
    let oracle = Oracle::with_prices(ALICE, 1, 1, 0);
    assert!(stable.add_liquidity(ALICE, 100, &oracle, 0, &mut relp, 1).is_ok());
    assert_eq!(stable.liability_ratio(&oracle, 100), Ok(100));
    assert_eq!(stable.liability_ratio(&oracle, 1_000), Ok(100));
}

#[test]
fn deposit_above_thirty_percent_mints_shares_only() {
    let (mut stable, mut relp) = system(0);
    let oracle = Oracle::with_prices(ALICE, 1, 1, 0);
    assert!(stable.add_liquidity(ALICE, 100, &oracle, 0, &mut relp, 1).is_ok());
    let oracle = Oracle::with_prices(ALICE, 2, 1, 0);
    // collateral worth 200 against 100 synthetic: a ratio of 50, a share price of (200 - 100) / 99
    assert_eq!(stable.liability_ratio(&oracle, 100), Ok(50));
    assert_eq!(stable.relp_price(&oracle, 100, relp.total_supply()), Ok(1));
    let (event, _) = stable.add_liquidity(BOB, 10, &oracle, 100, &mut relp, 2).unwrap();
    assert_eq!(event, AddLiquidity { sender: BOB, elp_amount: 10, relp_amount: 20, elc_amount: 0 });
    assert_eq!(relp.balance_of(BOB), 20);
    assert_eq!(stable.elp_reserve(), 110);
}

#[test]
fn removal_needs_a_high_ratio() {
    let (mut stable, mut relp) = system(0);
    let oracle = Oracle::with_prices(ALICE, 1, 1, 0);
    assert!(stable.add_liquidity(ALICE, 100, &oracle, 0, &mut relp, 1).is_ok());
    assert_eq!(
        stable.remove_liquidity(ALICE, 10, 1_000, &oracle, 50, &mut relp, 2),
        Err(Error::RatioOutOfRange)
    );
    assert_eq!(relp.balance_of(ALICE), 99);
}

#[test]
fn removal_burns_shares_and_synthetic_tokens() {
    let (mut stable, mut relp) = system(0);
    let oracle = Oracle::with_prices(ALICE, 1, 1, 0);
    assert!(stable.add_liquidity(ALICE, 10_000, &oracle, 0, &mut relp, 1).is_ok());
    assert_eq!(relp.balance_of(ALICE), 9_900);
    let oracle = Oracle::with_prices(ALICE, 100, 1, 0);
    // 950000 synthetic against collateral worth 1000000: a ratio of 95, a share price of 50000 / 9900
    assert_eq!(stable.liability_ratio(&oracle, 950_000), Ok(95));
    assert_eq!(stable.relp_price(&oracle, 950_000, 9_900), Ok(5));
    assert_eq!(
        stable.remove_liquidity(ALICE, 100, 1_000, &oracle, 950_000, &mut relp, 2),
        Err(Error::InsufficientFreeBalance)
    );
    assert_eq!(relp.balance_of(ALICE), 9_900);
    let (event, _) = stable.remove_liquidity(ALICE, 100, 10_000, &oracle, 950_000, &mut relp, 2).unwrap();
    assert_eq!(
        event,
        RemoveLiquidity { sender: ALICE, relp_amount: 100, elc_amount: 9_500, elp_amount: 0 }
    );
    assert_eq!(relp.balance_of(ALICE), 9_800);
    assert_eq!(relp.total_supply(), 9_800);
    // a full ratio leaves nothing to divide by
    assert_eq!(
        stable.remove_liquidity(ALICE, 100, 10_000, &oracle, 1_000_000, &mut relp, 3),
        Err(Error::ZeroDivisor)
    );
}

#[test]
fn risk_reserve_deposits() {
    let mut stable = Stable::new(ALICE, STABLE, 0);
    assert!(stable.add_risk_reserve(ALICE, 40).is_ok());
    assert!(stable.add_risk_reserve(ALICE, 2).is_ok());
    assert_eq!(stable.elp_risk_reserve(), 42);
    assert_eq!(stable.add_risk_reserve(ALICE, u128::MAX), Err(Error::Overflow));
    assert_eq!(stable.elp_risk_reserve(), 42);
}

#[test]
fn contraction_twice_within_the_interval_fails() {
    let mut stable = Stable::new(ALICE, STABLE, 0);
    assert!(stable.add_risk_reserve(ALICE, 1_000).is_ok());
    let oracle = Oracle::with_prices(ALICE, 1, 90, 0);
    let now = ADJUST_GAP;
    let plan = stable.plan_contraction(&oracle, 100, 1, now).unwrap();
    assert_eq!(plan, ContractionPlan { elp_amount: 1_000, from_risk: true });
    let (done, event) = stable.contract_elc(ALICE, &oracle, 100, 1, 500, now).unwrap();
    assert_eq!(done, plan);
    assert_eq!(
        event,
        ContractEvent {
            elc_risk_reserve_source: 500,
            elc_reserve_source: 0,
            risk_reserve_consumed: 1_000,
            reserve_consumed: 0,
        }
    );
    let before = stable.reserves();
    assert_eq!(stable.contract_elc(ALICE, &oracle, 100, 1, 500, now + 1), Err(Error::IntervalNotElapsed));
    assert_eq!(stable.reserves(), before);
    assert_eq!(stable.plan_contraction(&oracle, 100, 1, now + 1), Err(Error::IntervalNotElapsed));
}

#[test]
fn contraction_needs_a_low_price() {
    let stable = Stable::new(ALICE, STABLE, 0);
    let oracle = Oracle::with_prices(ALICE, 1, 98, 0);
    assert_eq!(stable.plan_contraction(&oracle, 100, 1, ADJUST_GAP), Err(Error::PriceOutOfBand));
}

#[test]
fn contraction_from_the_reserve_takes_two_percent_at_most() {
    let (mut stable, mut relp) = system(0);
    let oracle = Oracle::with_prices(ALICE, 1, 1, 0);
    assert!(stable.add_liquidity(ALICE, 10_000, &oracle, 0, &mut relp, 1).is_ok());
    let oracle = Oracle::with_prices(ALICE, 1, 50, 0);
    let plan = stable.plan_contraction(&oracle, 100, 1, ADJUST_GAP).unwrap();
    assert_eq!(plan, ContractionPlan { elp_amount: 200, from_risk: false });
}

#[test]
fn expansion_before_the_interval_fails() {
    let (stable, _) = system(0);
    let oracle = Oracle::with_prices(ALICE, 1, 120, 0);
    assert_eq!(stable.plan_expansion(&oracle, 0, 100, 1, 5), Err(Error::IntervalNotElapsed));
    assert_eq!(stable.plan_expansion(&oracle, 0, 130, 1, ADJUST_GAP), Err(Error::PriceOutOfBand));
}

#[test]
fn expansion_issues_when_reserves_are_empty() {
    let (mut stable, mut relp) = system(0);
    let oracle = Oracle::with_prices(ALICE, 1, 1, 0);
    assert!(stable.add_liquidity(ALICE, 1_000_000, &oracle, 0, &mut relp, 1).is_ok());
    let oracle = Oracle::with_prices(ALICE, 1, 120, 0);
    let now = ADJUST_GAP;
    // 1000 synthetic tokens out at 120 against 1000000 collateral at 1: a ratio of 12
    let plan = stable.plan_expansion(&oracle, 1_000, 100, 1, now).unwrap();
    // (120 - 100) / 100 of the supply: 200 issued, 190 awarded and 10 swapped
    assert_eq!(plan, ExpansionPlan { reserve_swap: 0, issues: true, issue_reward: 190, issue_swap: 10 });
    let (done, swapped, issued) = stable.expand_elc(ALICE, &oracle, 1_000, 100, 1, 0, 7, &mut relp, now).unwrap();
    assert_eq!(done, plan);
    assert_eq!(swapped, ExpandEvent { elc_reserve_amount: 0, elc_risk_amount: 0, elc_raise_amount: 0, elp_amount: 0 });
    assert_eq!(
        issued,
        Some(ExpandEvent { elc_reserve_amount: 0, elc_risk_amount: 0, elc_raise_amount: 10, elp_amount: 7 })
    );
    assert_eq!(stable.elp_risk_reserve(), 7);
    assert_eq!(relp.awards().len(), 1);
    assert_eq!(relp.awards()[0].amount, 190);
    assert_eq!(
        stable.expand_elc(ALICE, &oracle, 1_000, 100, 1, 0, 7, &mut relp, now + 1),
        Err(Error::IntervalNotElapsed)
    );
    assert_eq!(relp.awards().len(), 1);
}

#[test]
fn expansion_swap_takes_the_reserve_before_the_risk_reserve() {
    let r = Reserves { reserve: 0, risk_reserve: 0, elc_reserve: 30, elc_risk_reserve: 70 };
    let (next, event) = swap_elp_with_elc(&r, 100, 30, 70, 1_000).unwrap();
    assert_eq!(next, Reserves { reserve: 300, risk_reserve: 700, elc_reserve: 0, elc_risk_reserve: 0 });
    assert_eq!(
        event,
        ExpandEvent { elc_reserve_amount: 30, elc_risk_amount: 70, elc_raise_amount: 0, elp_amount: 1_000 }
    );
    let (next, _) = swap_elp_with_elc(&r, 20, 30, 70, 5).unwrap();
    assert_eq!(next, Reserves { reserve: 5, risk_reserve: 0, elc_reserve: 10, elc_risk_reserve: 70 });
    assert_eq!(swap_elp_with_elc(&r, 200, 30, 70, 5), Err(Error::InsufficientSupply));
}

#[test]
fn contraction_swap_refills_the_matching_tranche() {
    let r = Reserves { reserve: 100, risk_reserve: 10, elc_reserve: 0, elc_risk_reserve: 0 };
    let (next, _) = swap_elc_with_elp(&r, false, 40, 9).unwrap();
    assert_eq!(next, Reserves { reserve: 60, risk_reserve: 10, elc_reserve: 9, elc_risk_reserve: 0 });
    assert_eq!(swap_elc_with_elp(&r, true, 11, 9), Err(Error::InsufficientSupply));
}

#[test]
fn rebases_are_owner_only() {
    let mut stable = Stable::new(ALICE, STABLE, 0);
    let mut relp = RELP::new(STABLE, LEDGER, 0);
    let oracle = Oracle::with_prices(ALICE, 1, 90, 0);
    assert_eq!(stable.contract_elc(BOB, &oracle, 100, 1, 0, ADJUST_GAP), Err(Error::OnlyOwnerAccess));
    assert_eq!(
        stable.expand_elc(BOB, &oracle, 0, 80, 1, 0, 0, &mut relp, ADJUST_GAP),
        Err(Error::OnlyOwnerAccess)
    );
    assert_eq!(stable.add_risk_reserve(BOB, 5), Err(Error::OnlyOwnerAccess));
    assert_eq!(stable.transfer_ownership(BOB, BOB), Err(Error::OnlyOwnerAccess));
    assert!(stable.transfer_ownership(ALICE, BOB).is_ok());
    assert_eq!(stable.owner(), BOB);
    assert!(stable.add_risk_reserve(BOB, 5).is_ok());
    assert_eq!(stable.elp_risk_reserve(), 5);
}

#[test]
fn rebases_check_prices_themselves() {
    let (mut stable, mut relp) = system(0);
    let oracle = Oracle::with_prices(ALICE, 1, 1, 0);
    assert!(stable.add_liquidity(ALICE, 1_000_000, &oracle, 0, &mut relp, 1).is_ok());
    assert!(stable.add_risk_reserve(ALICE, 1_000).is_ok());
    let before = stable.reserves();
    let unpriced = Oracle::with_prices(ALICE, 0, 120, 0);
    assert_eq!(
        stable.expand_elc(ALICE, &unpriced, 1_000, 100, 1, 0, 7, &mut relp, ADJUST_GAP),
        Err(Error::PriceUnavailable)
    );
    let unpriced = Oracle::with_prices(ALICE, 1, 0, 0);
    assert_eq!(stable.contract_elc(ALICE, &unpriced, 100, 1, 5, ADJUST_GAP), Err(Error::PriceUnavailable));
    let at_peg = Oracle::with_prices(ALICE, 1, 99, 0);
    assert_eq!(stable.contract_elc(ALICE, &at_peg, 100, 1, 5, ADJUST_GAP), Err(Error::PriceOutOfBand));
    assert_eq!(
        stable.expand_elc(ALICE, &at_peg, 1_000, 100, 1, 0, 7, &mut relp, ADJUST_GAP),
        Err(Error::PriceOutOfBand)
    );
    assert_eq!(stable.reserves(), before);
    assert_eq!(relp.awards().len(), 0);
}

#[test]
fn issuance_is_capped_by_the_shortfall() {
    let (mut stable, mut relp) = system(0);
    let oracle = Oracle::with_prices(ALICE, 1, 1, 0);
    assert!(stable.add_liquidity(ALICE, 100_000_000, &oracle, 0, &mut relp, 1).is_ok());
    let oracle = Oracle::with_prices(ALICE, 1, 120, 0);
    // a swap of 10 synthetic tokens is wanted and the reserves hold none:
    // 20000 would be issued in theory, but at most 20 times the shortfall of 10
    let plan = stable.plan_expansion(&oracle, 100_000, 100, 10_000_000, ADJUST_GAP).unwrap();
    assert_eq!(plan, ExpansionPlan { reserve_swap: 0, issues: true, issue_reward: 190, issue_swap: 10 });
}
