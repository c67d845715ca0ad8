use relp_core::coinday::{scan_awards, settle_decrease, AwardEntry, CoindayInfo, MAX_SCAN};
use relp_core::error::Error;
use relp_core::relp::{Approval, Burn, Mint, Transfer, RELP};

const ALICE: u64 = 1;
const BOB: u64 = 2;
const CAROL: u64 = 3;
const LEDGER: u64 = 100;

fn ledger() -> RELP {
    RELP::new(ALICE, LEDGER, 0)
}

#[test]
fn relp_new_works() {
    let relp = ledger();
    assert_eq!(
        relp.token_name().unwrap_or_else(|| "Error name".to_string()),
        "Risk Reserve of ELP".to_string()
    );
    assert_eq!(
        relp.token_symbol().unwrap_or_else(|| "Error symbol".to_string()),
        "rELP".to_string()
    );
    assert_eq!(relp.token_decimals().unwrap_or(0), 8);
    assert_eq!(relp.total_supply(), 0);
    assert_eq!(relp.balance_of(ALICE), 0);
    assert_eq!(relp.lock_info_of(ALICE), (0, 0));
    assert_eq!(relp.owner(), ALICE);
}

#[test]
fn update_lock_infos_works() {
    let mut relp = ledger();
    assert!(relp.update_lock_infos(ALICE, ALICE, (100, 5000)).is_ok());
    assert_eq!(relp.lock_info_of(ALICE), (100, 5000));
}

#[test]
fn update_lock_infos_failed() {
    let mut relp = ledger();
    assert!(relp.transfer_ownership(ALICE, BOB).is_ok());
    assert_eq!(
        relp.update_lock_infos(ALICE, ALICE, (100, 5000)),
        Err(Error::OnlyOwnerAccess)
    );
}

#[test]
fn allowance_works() {
    let mut relp = ledger();
    assert_eq!(relp.allowance(ALICE, BOB), 0);
    assert!(relp.approve(ALICE, BOB, 50).is_ok());
    assert_eq!(relp.allowance(ALICE, BOB), 50);
}

#[test]
fn approve_works() {
    let mut relp = ledger();
    assert_eq!(
        relp.approve(ALICE, BOB, 66),
        Ok(Approval { owner: ALICE, spender: BOB, value: 66 })
    );
    assert_eq!(relp.allowance(ALICE, BOB), 66);
    assert_eq!(relp.allowance(BOB, ALICE), 0);
    assert!(relp.approve(ALICE, BOB, 7).is_ok());
    assert_eq!(relp.allowance(ALICE, BOB), 7);
}

#[test]
fn relp_transfer_ownership_works() {
    let mut relp = ledger();
    assert!(relp.transfer_ownership(ALICE, BOB).is_ok());
    assert_eq!(relp.owner(), BOB);
}

#[test]
fn relp_transfer_ownership_failed_when_not_owner() {
    let mut relp = ledger();
    assert_eq!(relp.transfer_ownership(BOB, BOB), Err(Error::OnlyOwnerAccess));
    assert_eq!(relp.owner(), ALICE);
}

#[test]
fn mint_and_burn_keep_supply_equal_to_balances() {
    let mut relp = ledger();
    assert_eq!(relp.mint(ALICE, ALICE, 1000, 10), Ok((Mint { user: ALICE, amount: 1000 }, 0)));
    assert_eq!(relp.mint(ALICE, BOB, 500, 20), Ok((Mint { user: BOB, amount: 500 }, 0)));
    let moved = relp.transfer(ALICE, CAROL, 300, 30).unwrap();
    assert_eq!(moved.0, Transfer { from: Some(ALICE), to: Some(CAROL), value: 300 });
    assert_eq!(relp.burn(ALICE, BOB, 200, 40), Ok((Burn { user: BOB, amount: 200 }, 0)));
    assert_eq!(relp.balance_of(ALICE), 700);
    assert_eq!(relp.balance_of(BOB), 300);
    assert_eq!(relp.balance_of(CAROL), 300);
    assert_eq!(
        relp.total_supply(),
        relp.balance_of(ALICE) + relp.balance_of(BOB) + relp.balance_of(CAROL)
    );
    assert_eq!(relp.total_supply(), 1300);
}

#[test]
fn mint_rejects_zero_and_strangers() {
    let mut relp = ledger();
    assert_eq!(relp.mint(ALICE, ALICE, 0, 1), Err(Error::InvalidAmount));
    assert_eq!(relp.mint(BOB, BOB, 10, 1), Err(Error::OnlyOwnerAccess));
    assert_eq!(relp.total_supply(), 0);
}

#[test]
fn burn_errors() {
    let mut relp = ledger();
    assert!(relp.mint(ALICE, BOB, 100, 1).is_ok());
    assert_eq!(relp.burn(ALICE, BOB, 0, 2), Err(Error::InvalidAmount));
    assert_eq!(relp.burn(ALICE, BOB, 101, 2), Err(Error::InsufficientSupply));
    assert!(relp.mint(ALICE, CAROL, 100, 2).is_ok());
    assert_eq!(relp.burn(ALICE, BOB, 101, 3), Err(Error::InsufficientFreeBalance));
    assert_eq!(relp.burn(BOB, BOB, 1, 3), Err(Error::OnlyOwnerAccess));
    assert_eq!(relp.balance_of(BOB), 100);
}

#[test]
fn locked_tokens_cannot_move() {
    let mut relp = ledger();
    assert!(relp.mint(ALICE, BOB, 1000, 1).is_ok());
    assert!(relp.update_lock_infos(ALICE, BOB, (9, 600)).is_ok());
    assert_eq!(relp.transfer(BOB, CAROL, 401, 2), Err(Error::InsufficientFreeBalance));
    assert_eq!(relp.balance_of(BOB), 1000);
    assert_eq!(relp.balance_of(CAROL), 0);
    assert!(relp.transfer(BOB, CAROL, 400, 2).is_ok());
    assert_eq!(relp.balance_of(BOB), 600);
    assert_eq!(relp.transfer(BOB, CAROL, 1, 3), Err(Error::InsufficientFreeBalance));
    assert_eq!(relp.burn(ALICE, BOB, 1, 3), Err(Error::InsufficientFreeBalance));
}

#[test]
fn transfer_from_lowers_the_allowance() {
    let mut relp = ledger();
    assert!(relp.mint(ALICE, BOB, 1000, 1).is_ok());
    assert!(relp.approve(BOB, CAROL, 300).is_ok());
    assert_eq!(relp.transfer_from(CAROL, BOB, ALICE, 301, 2), Err(Error::InsufficientAllowance));
    assert!(relp.transfer_from(CAROL, BOB, ALICE, 120, 2).is_ok());
    assert_eq!(relp.allowance(BOB, CAROL), 180);
    assert_eq!(relp.balance_of(BOB), 880);
    assert_eq!(relp.balance_of(ALICE), 120);
    assert!(relp.transfer_from(CAROL, BOB, ALICE, 180, 3).is_ok());
    assert_eq!(relp.allowance(BOB, CAROL), 0);
    assert_eq!(relp.transfer_from(CAROL, BOB, ALICE, 1, 4), Err(Error::InsufficientAllowance));
}

#[test]
fn transfer_from_checks_free_balance_after_allowance() {
    let mut relp = ledger();
    assert!(relp.mint(ALICE, BOB, 10, 1).is_ok());
    assert!(relp.approve(BOB, CAROL, 300).is_ok());
    assert_eq!(relp.transfer_from(CAROL, BOB, ALICE, 20, 2), Err(Error::InsufficientFreeBalance));
    assert_eq!(relp.allowance(BOB, CAROL), 300);
}

#[test]
fn coindays_grow_with_time_and_shrink_in_proportion() {
    let mut relp = ledger();
    assert!(relp.mint(ALICE, BOB, 1000, 0).is_ok());
    assert!(relp.burn(ALICE, BOB, 250, 100).is_ok());
    // 1000 tokens held for 100 units, a quarter of them leaving
    let info = relp.coinday_of(BOB);
    assert_eq!(info.amount, 75_000);
    assert_eq!(info.timestamp, 100);
    assert_eq!(relp.total_coinday().amount, 75_000);
    assert!(relp.mint(ALICE, BOB, 250, 200).is_ok());
    assert_eq!(relp.coinday_of(BOB).amount, 75_000 + 750 * 100);
}

#[test]
fn proportional_decrease_is_exact() {
    let info = CoindayInfo { amount: 1000, timestamp: 0, last_index: 0 };
    let (claim, next, decrease) = settle_decrease(&info, 3, 1, &Vec::new(), 0).unwrap();
    assert_eq!(claim, 0);
    assert_eq!(decrease, 333);
    assert_eq!(next.amount, 667);
    let (_, next, decrease) = settle_decrease(&info, 7, 7, &Vec::new(), 10).unwrap();
    assert_eq!(decrease, 1070);
    assert_eq!(next.amount, 0);
}

#[test]
fn award_share_scenario() {
    let t0: u128 = 5_000;
    let mut relp = RELP::new(ALICE, LEDGER, t0);
    assert_eq!(relp.mint(ALICE, ALICE, 1000, t0), Ok((Mint { user: ALICE, amount: 1000 }, 0)));
    assert_eq!(relp.coinday_of(ALICE).last_index, 0);
    assert!(relp.relp_update_awards(ALICE, 500, t0 + 100).is_ok());
    let entry = relp.awards()[0];
    assert_eq!(entry, AwardEntry { amount: 500, total_coinday: 100_000, timestamp: t0 + 100 });
    let moved = relp.transfer(ALICE, BOB, 10, t0 + 150).unwrap();
    assert_eq!(moved.1, (500, 0));
    assert_eq!(relp.coinday_of(ALICE).last_index, 1);
}

#[test]
fn award_recording_is_owner_only() {
    let mut relp = ledger();
    assert_eq!(relp.relp_update_awards(BOB, 500, 10), Err(Error::OnlyOwnerAccess));
    assert_eq!(relp.awards().len(), 0);
}

#[test]
fn zero_snapshot_aborts_the_transfer() {
    let mut relp = ledger();
    assert!(relp.relp_update_awards(ALICE, 500, 0).is_ok());
    assert!(relp.mint(ALICE, BOB, 10, 5).is_err());
    assert_eq!(relp.balance_of(BOB), 0);
    assert_eq!(relp.total_supply(), 0);
}

fn awards(n: usize) -> Vec<AwardEntry> {
    (0..n)
        .map(|i| AwardEntry { amount: 10 + i as u128, total_coinday: 7, timestamp: 3 * i as u128 })
        .collect()
}

#[test]
fn scan_stops_after_fifty_entries_and_resumes() {
    let log = awards(120);
    let info = CoindayInfo { amount: 4, timestamp: 0, last_index: 0 };
    let whole: u128 = (0..120u128).map(|i| (4 + 2 * 3 * i) * (10 + i) / 7).sum();
    let (first, next) = scan_awards(&info, 2, &log).unwrap();
    assert_eq!(next, MAX_SCAN);
    let (second, next2) = scan_awards(&CoindayInfo { last_index: next as u32, ..info }, 2, &log).unwrap();
    assert_eq!(next2, 100);
    let (third, next3) = scan_awards(&CoindayInfo { last_index: next2 as u32, ..info }, 2, &log).unwrap();
    assert_eq!(next3, 120);
    assert_eq!(first + second + third, whole);
    let (nothing, end) = scan_awards(&CoindayInfo { last_index: 120, ..info }, 2, &log).unwrap();
    assert_eq!((nothing, end), (0, 120));
}

#[test]
fn ledger_claims_at_most_fifty_entries_per_settlement() {
    let mut relp = ledger();
    assert!(relp.mint(ALICE, BOB, 10, 0).is_ok());
    for i in 0..60u128 {
        assert!(relp.relp_update_awards(ALICE, 1, 1 + i).is_ok());
    }
    // sixty entries pending: a balance change waits until they are claimed
    assert_eq!(relp.transfer(BOB, CAROL, 1, 100), Err(Error::AwardsPending));
    assert_eq!(relp.balance_of(BOB), 10);
    let first = relp.claim_awards(BOB, 100).unwrap();
    let info = relp.coinday_of(BOB);
    assert_eq!(info.last_index, 50);
    assert_eq!((info.amount, info.timestamp), (0, 0));
    // CAROL has never settled: she too catches up before being credited
    assert_eq!(relp.transfer(BOB, CAROL, 1, 101), Err(Error::AwardsPending));
    assert_eq!(relp.claim_awards(CAROL, 101), Ok(0));
    assert!(relp.transfer(BOB, CAROL, 1, 101).is_ok());
    assert_eq!(relp.coinday_of(BOB).last_index, 60);
    assert!(first > 0);
}

#[test]
fn claims_in_windows_add_up_to_one_pass() {
    let mut relp = ledger();
    assert!(relp.mint(ALICE, BOB, 2, 0).is_ok());
    // entry i at time 1 + 3i, against total coin-days 2 * (1 + 3i), all of them BOB's
    for i in 0..120u128 {
        assert!(relp.relp_update_awards(ALICE, 10 + i, 1 + 3 * i).is_ok());
    }
    let mut total: u128 = 0;
    for _ in 0..3 {
        total += relp.claim_awards(BOB, 500).unwrap();
    }
    assert_eq!(relp.coinday_of(BOB).last_index, 120);
    // one pass would pay each entry in full: 10 + 11 + ... + 129
    assert_eq!(total, (10..130u128).sum::<u128>());
    assert_eq!(relp.coinday_of(BOB).amount, 2 * 500);
    assert_eq!(relp.coinday_of(BOB).timestamp, 500);
    assert_eq!(relp.claim_awards(BOB, 600), Ok(0));
}

#[test]
fn an_over_lock_blocks_even_a_zero_transfer() {
    let mut relp = ledger();
    assert!(relp.mint(ALICE, BOB, 100, 1).is_ok());
    assert!(relp.update_lock_infos(ALICE, BOB, (9, 150)).is_ok());
    assert_eq!(relp.transfer(BOB, CAROL, 0, 2), Err(Error::InsufficientFreeBalance));
    assert_eq!(relp.burn(ALICE, BOB, 1, 2), Err(Error::InsufficientFreeBalance));
    assert_eq!(relp.balance_of(BOB), 100);
}

#[test]
fn scan_reports_a_zero_snapshot() {
    let log = vec![AwardEntry { amount: 1, total_coinday: 0, timestamp: 0 }];
    let info = CoindayInfo { amount: 4, timestamp: 0, last_index: 0 };
    assert_eq!(scan_awards(&info, 2, &log), Err(Error::ZeroDivisor));
}

#[test]
fn scan_reports_an_overflow() {
    let log = vec![AwardEntry { amount: u128::MAX, total_coinday: 1, timestamp: 0 }];
    let info = CoindayInfo { amount: 4, timestamp: 0, last_index: 0 };
    assert_eq!(scan_awards(&info, 2, &log), Err(Error::Overflow));
}

#[test]
fn reward_accrues_to_holders_on_transfer() {
    let day: u128 = 86_400_000;
    let mut relp = ledger();
    assert!(relp.mint(ALICE, BOB, 1000, 0).is_ok());
    assert!(relp.transfer(BOB, CAROL, 400, day).is_ok());
    // a full first day of 2e12 shared over 1000 tokens, all held by BOB
    assert_eq!(relp.acc_elp_pershare(), 2_000_000_000);
    assert_eq!(relp.reward_of(BOB), 2_000_000_000_000);
    assert_eq!(relp.reward_of(CAROL), 0);
    assert_eq!(relp.reward_debt_of(BOB), 600 * 2_000_000_000);
    assert_eq!(relp.reward_debt_of(CAROL), 400 * 2_000_000_000);
    // the same instant again: nothing more is realized
    assert!(relp.transfer(BOB, CAROL, 100, day).is_ok());
    assert_eq!(relp.reward_of(BOB), 2_000_000_000_000);
    assert_eq!(relp.reward_of(CAROL), 0);
}

#[test]
fn no_emission_while_nothing_is_held() {
    let mut relp = ledger();
    assert!(relp.mint(ALICE, BOB, 1000, 5 * 86_400_000).is_ok());
    assert_eq!(relp.last_record().day_time, 5 * 86_400_000);
    assert_eq!(relp.acc_elp_pershare(), 0);
}
