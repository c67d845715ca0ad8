use relp_core::error::Error;
use relp_core::reward::{accrual, emission_since, settlement, RecordInfo, Reward, DAY, GENESIS_DAY_AWARD};

const ALICE: u64 = 1;
const BOB: u64 = 2;

#[test]
fn reward_new_works() {
    let reward = Reward::new(ALICE, 0);
    assert_eq!(reward.total_reward(), 0);
    assert_eq!(reward.reward_of(ALICE), 0);
    assert_eq!(reward.reward_debt_of(ALICE), 0);
    assert_eq!(reward.acc_elp_pershare(), 0);
    assert_eq!(reward.owner(), ALICE);
    assert_eq!(
        reward.get_last_record(),
        RecordInfo { day_award: 20000 * 100_000_000, block_award: 0, day_time: 0 }
    );
}

#[test]
fn update_reward_debts_works() {
    let mut reward = Reward::new(ALICE, 0);
    assert!(reward.update_reward_debts(ALICE, ALICE, 1000).is_ok());
    assert_eq!(reward.reward_debt_of(ALICE), 1000);
}

#[test]
fn update_reward_debts_failed() {
    let mut reward = Reward::new(ALICE, 0);
    assert!(reward.transfer_ownership(ALICE, BOB).is_ok());
    assert_eq!(reward.update_reward_debts(ALICE, BOB, 999), Err(Error::OnlyOwnerAccess));
}

#[test]
fn update_reward_infos_works() {
    let mut reward = Reward::new(ALICE, 0);
    assert!(reward.update_reward_infos(ALICE, 5000, ALICE, 1000, 66).is_ok());
    assert_eq!(reward.total_reward(), 5000);
    assert_eq!(reward.reward_of(ALICE), 1000);
    assert_eq!(reward.acc_elp_pershare(), 66);
}

#[test]
fn update_reward_infos_failed() {
    let mut reward = Reward::new(ALICE, 0);
    assert!(reward.transfer_ownership(ALICE, BOB).is_ok());
    assert_eq!(reward.update_reward_infos(ALICE, 5000, BOB, 999, 66), Err(Error::OnlyOwnerAccess));
}

#[test]
fn update_last_record_infos_works() {
    let mut reward = Reward::new(ALICE, 0);
    assert!(reward.update_last_record_infos(ALICE, 28800, 888, 16669900).is_ok());
    let record = reward.get_last_record();
    assert_eq!(record.day_award, 28800);
    assert_eq!(record.block_award, 888);
    assert_eq!(record.day_time, 16669900);
}

#[test]
fn update_last_record_infos_failed() {
    let mut reward = Reward::new(ALICE, 0);
    assert!(reward.transfer_ownership(ALICE, BOB).is_ok());
    assert_eq!(
        reward.update_last_record_infos(ALICE, 28800, 999, 66999900),
        Err(Error::OnlyOwnerAccess)
    );
}

#[test]
fn reward_transfer_ownership_works() {
    let mut reward = Reward::new(ALICE, 0);
    assert!(reward.transfer_ownership(ALICE, BOB).is_ok());
    assert_eq!(reward.owner(), BOB);
}

#[test]
fn reward_transfer_ownership_failed_when_not_owner() {
    let mut reward = Reward::new(ALICE, 0);
    assert_eq!(reward.transfer_ownership(BOB, BOB), Err(Error::OnlyOwnerAccess));
}

#[test]
fn one_whole_day_emits_the_day_award_and_decays_it() {
    let record = RecordInfo { day_award: GENESIS_DAY_AWARD, block_award: 0, day_time: 0 };
    let (delta, next) = emission_since(&record, DAY).unwrap();
    assert_eq!(delta, 2_000_000_000_000);
    assert_eq!(next, RecordInfo { day_award: 1_980_000_000_000, block_award: 0, day_time: DAY });
}

#[test]
fn half_a_day_emits_half_and_carries_it() {
    let record = RecordInfo { day_award: GENESIS_DAY_AWARD, block_award: 0, day_time: 0 };
    let (delta, next) = emission_since(&record, DAY / 2).unwrap();
    assert_eq!(delta, 1_000_000_000_000);
    assert_eq!(next, RecordInfo { day_award: GENESIS_DAY_AWARD, block_award: 1_000_000_000_000, day_time: 0 });
    // finishing the day emits the other half
    let (delta, next) = emission_since(&next, DAY).unwrap();
    assert_eq!(delta, 1_000_000_000_000);
    assert_eq!(next.day_award, 1_980_000_000_000);
    assert_eq!(next.block_award, 0);
}

#[test]
fn two_and_a_half_days() {
    let record = RecordInfo { day_award: 10_000, block_award: 0, day_time: 7 };
    let (delta, next) = emission_since(&record, 7 + 2 * DAY + DAY / 2).unwrap();
    // 10000 + 9900 for the whole days, half of 9801 for the rest
    assert_eq!(delta, 10_000 + 9_900 + 4_900);
    assert_eq!(next, RecordInfo { day_award: 9_801, block_award: 4_900, day_time: 7 + 2 * DAY });
}

#[test]
fn exhausted_emission_stays_zero() {
    let record = RecordInfo { day_award: 0, block_award: 0, day_time: 0 };
    assert_eq!(emission_since(&record, 10 * DAY), Ok((0, record)));
    let record = RecordInfo { day_award: 1, block_award: 0, day_time: 0 };
    let (delta, next) = emission_since(&record, 1000 * DAY).unwrap();
    assert_eq!(delta, 1);
    assert_eq!(next.day_award, 0);
    assert_eq!(next.day_time, 1000 * DAY);
}

#[test]
fn emission_overflow_is_reported() {
    let record = RecordInfo { day_award: u128::MAX, block_award: 0, day_time: 0 };
    assert_eq!(emission_since(&record, 2 * DAY), Err(Error::Overflow));
}

#[test]
fn accrual_over_an_empty_supply_only_moves_the_day() {
    let record = RecordInfo { day_award: GENESIS_DAY_AWARD, block_award: 5, day_time: 0 };
    let (delta, next, acc, total) = accrual(&record, 3, 4, DAY, 0).unwrap();
    assert_eq!((delta, acc, total), (0, 3, 4));
    assert_eq!(next, RecordInfo { day_award: GENESIS_DAY_AWARD, block_award: 5, day_time: DAY });
}

#[test]
fn accrual_shares_the_emission_per_token() {
    let record = RecordInfo { day_award: 1_000, block_award: 0, day_time: 0 };
    let (delta, _, acc, total) = accrual(&record, 3, 4, DAY, 300).unwrap();
    assert_eq!((delta, acc, total), (1_000, 3 + 3, 4 + 1_000));
}

#[test]
fn settlement_is_idempotent() {
    let (paid, reward, debt) = settlement(50, 7, 100, 9).unwrap();
    assert_eq!((paid, reward, debt), (250, 259, 350));
    let (paid, reward, debt) = settlement(50, 7, debt, reward).unwrap();
    assert_eq!((paid, reward, debt), (0, 259, 350));
}

#[test]
fn settle_and_accrue_on_the_distributor() {
    let mut reward = Reward::new(ALICE, 0);
    assert_eq!(reward.accrue(ALICE, DAY, 1_000), Ok(GENESIS_DAY_AWARD));
    assert_eq!(reward.acc_elp_pershare(), GENESIS_DAY_AWARD / 1_000);
    assert_eq!(reward.settle(ALICE, BOB, 10), Ok(10 * (GENESIS_DAY_AWARD / 1_000)));
    assert_eq!(reward.settle(ALICE, BOB, 10), Ok(0));
    assert_eq!(reward.accrue(ALICE, DAY, 1_000), Ok(0));
    assert_eq!(reward.settle(BOB, BOB, 10), Err(Error::OnlyOwnerAccess));
    assert!(reward.resync_debt(ALICE, BOB, 20).is_ok());
    assert_eq!(reward.reward_debt_of(BOB), 20 * (GENESIS_DAY_AWARD / 1_000));
    assert_eq!(reward.settle(ALICE, BOB, u128::MAX), Err(Error::Overflow));
}
