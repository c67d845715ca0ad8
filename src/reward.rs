use vstd::prelude::*;
use std::collections::HashMap;

use crate::coinday::elapsed;
use crate::error::{Error, Result};
use crate::AccountId;

verus! {

broadcast use vstd::std_specs::hash::group_hash_axioms;

/// Emission of the first day: 20000 tokens at eight decimals.
pub const GENESIS_DAY_AWARD: u128 = 2_000_000_000_000;

/// Length of a day in clock units (milliseconds): 28800 blocks of 3 s.
pub const DAY: u128 = 86_400_000;

/// Emission state at the last accrual.
#[derive(Debug, Clone, Copy, PartialEq, Eq, Structural)]
pub struct RecordInfo {
    /// Emission of the current day.
    pub day_award: u128,
    /// Part of the current day's emission already accrued.
    pub block_award: u128,
    /// Start of the current day.
    pub day_time: u128,
}

/// Emission of the day after a day that emitted `award`: one percent less, rounded down.
pub open spec fn decay(award: int) -> int {
    award * 99 / 100
}

/// Daily emission after `days` day boundaries.
pub open spec fn decayed(award: int, days: nat) -> int
    decreases days,
{
    if days == 0 {
        award
    } else {
        decayed(decay(award), (days - 1) as nat)
    }
}

/// Emission of `days` whole days, the first of which emits `award`.
pub open spec fn days_sum(award: int, days: nat) -> int
    decreases days,
{
    if days == 0 {
        0
    } else {
        award + days_sum(decay(award), (days - 1) as nat)
    }
}

/// Whole days between the start of the recorded day and `now`.
pub open spec fn whole_days(r: RecordInfo, now: int) -> nat {
    (elapsed(now, r.day_time as int) / DAY as int) as nat
}

/// Time between the start of the current day and `now`, past the whole days.
pub open spec fn day_rest(r: RecordInfo, now: int) -> int {
    elapsed(now, r.day_time as int) % DAY as int
}

/// Part of the new current day's emission that has accrued at `now`.
pub open spec fn rest_award(r: RecordInfo, now: int) -> int {
    decayed(r.day_award as int, whole_days(r, now)) * day_rest(r, now) / DAY as int
}

/// Emission accrued between the last accrual and `now`; a clock that went back accrues nothing.
pub open spec fn emission_delta(r: RecordInfo, now: int) -> int {
    if r.day_award == 0 {
        0
    } else if days_sum(r.day_award as int, whole_days(r, now)) + rest_award(r, now)
        >= r.block_award {
        days_sum(r.day_award as int, whole_days(r, now)) + rest_award(r, now) - r.block_award
    } else {
        0
    }
}

/// The emission record after accruing up to `now`.
pub open spec fn next_record(r: RecordInfo, now: int) -> RecordInfo {
    if r.day_award == 0 {
        r
    } else {
        RecordInfo {
            day_award: decayed(r.day_award as int, whole_days(r, now)) as u128,
            block_award: rest_award(r, now) as u128,
            day_time: (r.day_time + whole_days(r, now) * DAY) as u128,
        }
    }
}

/// Accruing up to `now` can be computed in 128 bits.
pub open spec fn emission_fits(r: RecordInfo, now: int) -> bool {
    r.day_award == 0 || (decayed(r.day_award as int, whole_days(r, now)) * day_rest(r, now)
        <= u128::MAX && days_sum(r.day_award as int, whole_days(r, now)) + rest_award(r, now)
        <= u128::MAX)
}

/// Reward not yet realized by an account of `balance` tokens.
pub open spec fn pending_of(balance: int, acc: int, debt: int) -> int {
    if balance * acc >= debt {
        balance * acc - debt
    } else {
        0
    }
}

proof fn lemma_decay_bounds(a: int)
    requires
        a >= 0,
    ensures
        0 <= decay(a) <= a,
        100 * decay(a) <= 99 * a,
        a > 0 ==> decay(a) < a,
{
    assert(0 <= a * 99 / 100 <= a && 100 * (a * 99 / 100) <= 99 * a && (a > 0 ==> a * 99 / 100
        < a)) by (nonlinear_arith)
        requires
            a >= 0,
    ;
}

proof fn lemma_decayed_of_zero(days: nat)
    ensures
        decayed(0, days) == 0,
        days_sum(0, days) == 0,
    decreases days,
{
    if days > 0 {
        lemma_decayed_of_zero((days - 1) as nat);
    }
}

proof fn lemma_days_sum_bounds(a: int, days: nat)
    requires
        a >= 0,
    ensures
        0 <= decayed(a, days) <= a,
        0 <= days_sum(a, days) <= 100 * a,
    decreases days,
{
    if days > 0 {
        lemma_decay_bounds(a);
        lemma_days_sum_bounds(decay(a), (days - 1) as nat);
    }
}

proof fn lemma_days_step(a: int, k: nat)
    requires
        a >= 0,
    ensures
        decayed(a, k + 1) == decay(decayed(a, k)),
        days_sum(a, k + 1) == days_sum(a, k) + decayed(a, k),
    decreases k,
{
    assert(decayed(a, k + 1) == decayed(decay(a), k));
    assert(days_sum(a, k + 1) == a + days_sum(decay(a), k));
    if k > 0 {
        lemma_decay_bounds(a);
        lemma_days_step(decay(a), (k - 1) as nat);
        assert(decayed(a, k) == decayed(decay(a), (k - 1) as nat));
        assert(days_sum(a, k) == a + days_sum(decay(a), (k - 1) as nat));
        assert((k - 1) as nat + 1 == k);
    }
}

proof fn lemma_days_sum_mono(a: int, k: nat, n: nat)
    requires
        a >= 0,
        k <= n,
    ensures
        days_sum(a, k) <= days_sum(a, n),
    decreases n - k,
{
    if k < n {
        lemma_days_step(a, k);
        lemma_days_sum_bounds(a, k);
        lemma_days_sum_mono(a, k + 1, n);
    }
}

/// `decay(a)`, computed without an intermediate above `a`.
fn decay_exec(a: u128) -> (r: u128)
    ensures
        r == decay(a as int),
{
    let q = a / 100;
    let m = a % 100;
    proof {
        assert(a * 99 / 100 == q * 99 + m * 99 / 100) by (nonlinear_arith)
            requires
                q == a / 100,
                m == a % 100,
                a >= 0,
        ;
        assert(q * 99 <= a) by (nonlinear_arith)
            requires
                q == a / 100,
                a >= 0,
        ;
    }
    q * 99 + m * 99 / 100
}

/// Emission accrued from `record` up to `now`, with the record that follows.
pub fn emission_since(record: &RecordInfo, now: u128) -> (r: Result<(u128, RecordInfo)>)
    ensures
        match r {
            Ok((delta, next)) => emission_fits(*record, now as int) && delta == emission_delta(
                *record,
                now as int,
            ) && next == next_record(*record, now as int),
            Err(e) => e == Error::Overflow && !emission_fits(*record, now as int),
        },
{
    if record.day_award == 0 {
        return Ok((0, *record));
    }
    let period: u128 = if now >= record.day_time {
        now - record.day_time
    } else {
        0
    };
    let days = period / DAY;
    let rest = period % DAY;
    let ghost n = whole_days(*record, now as int);
    let ghost a0 = record.day_award as int;
    proof {
        assert(days * DAY <= period) by (nonlinear_arith)
            requires
                days == period / DAY,
        ;
    }
    let new_day_time = record.day_time + days * DAY;
    let mut award: u128 = record.day_award;
    let mut sum: u128 = 0;
    let mut k: u128 = 0;
    while k < days && award > 0
        invariant
            k <= days,
            n == days,
            n == whole_days(*record, now as int),
            rest == day_rest(*record, now as int),
            record.day_award > 0,
            a0 == record.day_award,
            award == decayed(a0, k as nat),
            sum == days_sum(a0, k as nat),
            a0 > 0,
        decreases days - k,
    {
        proof {
            lemma_days_step(a0, k as nat);
            lemma_days_sum_bounds(a0, k as nat);
        }
        let next_sum = match sum.checked_add(award) {
            Some(x) => x,
            None => {
                proof {
                    lemma_days_sum_mono(a0, (k + 1) as nat, n);
                    lemma_days_sum_bounds(a0, n);
                    lemma_days_sum_bounds(a0, (k + 1) as nat);
                    let x = decayed(a0, n);
                    let y = day_rest(*record, now as int);
                    let d = DAY as int;
                    assert(y >= 0);
                    assert(x * y / d >= 0) by (nonlinear_arith)
                        requires
                            x >= 0,
                            y >= 0,
                            d > 0,
                    ;
                    assert(rest_award(*record, now as int) == x * y / d);
                }
                return Err(Error::Overflow);
            },
        };
        sum = next_sum;
        award = decay_exec(award);
        k = k + 1;
    }
    proof {
        if k < days {
            // the emission is exhausted: the remaining days add nothing
            let rest_days = (n - k) as nat;
            lemma_decayed_of_zero(rest_days);
            lemma_split_days(a0, k as nat, rest_days);
        }
    }
    let rest_award = match award.checked_mul(rest) {
        Some(x) => x / DAY,
        None => {
            return Err(Error::Overflow);
        },
    };
    proof {
        lemma_days_sum_bounds(a0, n);
        assert(rest_award >= 0);
    }
    let total = match sum.checked_add(rest_award) {
        Some(x) => x,
        None => {
            return Err(Error::Overflow);
        },
    };
    let delta = if total >= record.block_award {
        total - record.block_award
    } else {
        0
    };
    Ok((delta, RecordInfo { day_award: award, block_award: rest_award, day_time: new_day_time }))
}

proof fn lemma_split_days(a: int, k: nat, m: nat)
    requires
        a >= 0,
    ensures
        decayed(a, k + m) == decayed(decayed(a, k), m),
        days_sum(a, k + m) == days_sum(a, k) + days_sum(decayed(a, k), m),
    decreases k,
{
    if k > 0 {
        lemma_decay_bounds(a);
        lemma_split_days(decay(a), (k - 1) as nat, m);
        assert((k - 1) as nat + m == (k + m - 1) as nat);
    }
}

/// Postcondition of a settlement of `account`, holding `balance`, from `r0` to `r1`
/// that realized `paid`.
pub open spec fn settled(r0: Reward, r1: Reward, account: AccountId, balance: int, paid: int) -> bool {
    &&& paid == pending_of(balance, r0.acc_spec() as int, r0.debt_spec(account) as int)
    &&& r1.reward_spec(account) == r0.reward_spec(account) + paid
    &&& r1.debt_spec(account) == balance * r0.acc_spec()
    &&& r1.rewards() == r0.rewards().insert(account, r1.reward_spec(account))
    &&& r1.debts() == r0.debts().insert(account, r1.debt_spec(account))
    &&& r1.acc_spec() == r0.acc_spec()
    &&& r1.total_spec() == r0.total_spec()
    &&& r1.record_spec() == r0.record_spec()
    &&& r1.owner_spec() == r0.owner_spec()
}

/// A settlement of `account` holding `balance` can be computed in 128 bits.
pub open spec fn settle_fits(r: Reward, account: AccountId, balance: int) -> bool {
    &&& balance * r.acc_spec() <= u128::MAX
    &&& r.reward_spec(account) + pending_of(balance, r.acc_spec() as int, r.debt_spec(account) as int)
        <= u128::MAX
}

/// Accumulator per share after `delta` is shared out over `supply` tokens.
pub open spec fn acc_after(acc: int, delta: int, supply: int) -> int {
    if delta > 0 {
        acc + delta / supply
    } else {
        acc
    }
}

/// Accruing from `record` over `supply` tokens, with accumulator `acc` and total
/// reward `total`, can be computed in 128 bits.
pub open spec fn accrual_fits(record: RecordInfo, acc: int, total: int, now: int, supply: int) -> bool {
    supply == 0 || {
        &&& emission_fits(record, now)
        &&& acc_after(acc, emission_delta(record, now), supply) <= u128::MAX
        &&& total + emission_delta(record, now) <= u128::MAX
    }
}

/// Settlement realizes nothing twice: accruing a second time at the same instant
/// emits nothing, and settling an account a second time with the same balance and
/// no accrual in between realizes zero and leaves its reward as it was.
pub proof fn lemma_settlement_idempotent(
    record: RecordInfo,
    now: int,
    r0: Reward,
    r1: Reward,
    r2: Reward,
    account: AccountId,
    balance: int,
    paid1: int,
    paid2: int,
)
    requires
        record.day_time <= now <= u128::MAX,
        balance >= 0,
        emission_fits(record, now),
        settled(r0, r1, account, balance, paid1),
        settled(r1, r2, account, balance, paid2),
    ensures
        emission_delta(next_record(record, now), now) == 0,
        paid2 == 0,
        r2.reward_spec(account) == r1.reward_spec(account),
        r2.debt_spec(account) == r1.debt_spec(account),
{
    if record.day_award > 0 {
        let d = DAY as int;
        let e = now - record.day_time;
        let n = whole_days(record, now);
        let nr = next_record(record, now);
        assert(n * d <= e && e - n * d == e % d && e % d < d) by (nonlinear_arith)
            requires
                n == e / d,
                e >= 0,
                d > 0,
        ;
        lemma_days_sum_bounds(record.day_award as int, n);
        let x = decayed(record.day_award as int, n);
        let y = e % d;
        assert(0 <= x * y / d) by (nonlinear_arith)
            requires
                x >= 0,
                y >= 0,
                d > 0,
        ;
        assert(nr.day_time == record.day_time + n * d);
        assert(elapsed(now, nr.day_time as int) == e % d);
        assert((e % d) / d == 0) by (nonlinear_arith)
            requires
                0 <= e % d < d,
        ;
        assert(whole_days(nr, now) == 0);
        assert(day_rest(nr, now) == e % d) by (nonlinear_arith)
            requires
                0 <= e % d < d,
                day_rest(nr, now) == (e % d) % d,
        ;
        if nr.day_award > 0 {
            assert(rest_award(nr, now) == nr.block_award);
        }
    }
}

/// Settlement of an account of `balance` tokens with reward debt `debt` and
/// realized reward `reward` against the accumulator `acc`: returns the reward
/// realized, the new realized reward, and the new debt.
pub fn settlement(balance: u128, acc: u128, debt: u128, reward: u128) -> (r: Result<
    (u128, u128, u128),
>)
    ensures
        r is Ok <==> balance * acc <= u128::MAX && reward + pending_of(
            balance as int,
            acc as int,
            debt as int,
        ) <= u128::MAX,
        r is Err ==> r == Err::<(u128, u128, u128), Error>(Error::Overflow),
        r matches Ok((paid, new_reward, new_debt)) ==> {
            &&& paid == pending_of(balance as int, acc as int, debt as int)
            &&& new_reward == reward + paid
            &&& new_debt == balance * acc
        },
{
    let all = match balance.checked_mul(acc) {
        Some(x) => x,
        None => {
            return Err(Error::Overflow);
        },
    };
    let paid = if all >= debt {
        all - debt
    } else {
        0
    };
    match reward.checked_add(paid) {
        Some(x) => Ok((paid, x, all)),
        None => Err(Error::Overflow),
    }
}

/// Accrual from `record` up to `now` over `supply` tokens, with accumulator `acc`
/// and total reward `total`: returns the emission, the next record, the next
/// accumulator and the next total. With no tokens out nothing accrues and only the
/// start of the current day moves to `now`.
pub fn accrual(record: &RecordInfo, acc: u128, total: u128, now: u128, supply: u128) -> (r: Result<
    (u128, RecordInfo, u128, u128),
>)
    ensures
        r is Ok <==> accrual_fits(*record, acc as int, total as int, now as int, supply as int),
        r is Err ==> r == Err::<(u128, RecordInfo, u128, u128), Error>(Error::Overflow),
        r matches Ok((delta, next, next_acc, next_total)) ==> {
            &&& supply == 0 ==> delta == 0 && next == (RecordInfo { day_time: now, ..*record })
                && next_acc == acc && next_total == total
            &&& supply > 0 ==> delta == emission_delta(*record, now as int) && next == next_record(
                *record,
                now as int,
            ) && next_acc == acc_after(acc as int, delta as int, supply as int) && next_total
                == total + delta
        },
{
    if supply == 0 {
        return Ok((0, RecordInfo { day_time: now, ..*record }, acc, total));
    }
    let (delta, next) = emission_since(record, now)?;
    let next_acc = if delta > 0 {
        match acc.checked_add(delta / supply) {
            Some(a) => a,
            None => {
                return Err(Error::Overflow);
            },
        }
    } else {
        acc
    };
    match total.checked_add(delta) {
        Some(t) => Ok((delta, next, next_acc, t)),
        None => Err(Error::Overflow),
    }
}

/// The reward distributor: an accumulator per share and a debt per account.
#[derive(Clone)]
pub struct Reward {
    total_reward: u128,
    rewards: HashMap<AccountId, u128>,
    reward_debts: HashMap<AccountId, u128>,
    acc_elp_pershare: u128,
    last_record: RecordInfo,
    owner: AccountId,
}

impl Reward {
    pub closed spec fn total_spec(&self) -> u128 {
        self.total_reward
    }

    /// Realized reward of every account; an absent account has realized nothing.
    pub closed spec fn rewards(&self) -> Map<AccountId, u128> {
        self.rewards@
    }

    /// Reward debt of every account; an absent account owes nothing.
    pub closed spec fn debts(&self) -> Map<AccountId, u128> {
        self.reward_debts@
    }

    pub open spec fn reward_spec(&self, a: AccountId) -> u128 {
        if self.rewards().contains_key(a) {
            self.rewards()[a]
        } else {
            0
        }
    }

    pub open spec fn debt_spec(&self, a: AccountId) -> u128 {
        if self.debts().contains_key(a) {
            self.debts()[a]
        } else {
            0
        }
    }

    pub closed spec fn acc_spec(&self) -> u128 {
        self.acc_elp_pershare
    }

    pub closed spec fn record_spec(&self) -> RecordInfo {
        self.last_record
    }

    pub closed spec fn owner_spec(&self) -> AccountId {
        self.owner
    }

    /// Starts the emission schedule at `now` with the genesis daily emission.
    pub fn new(owner: AccountId, now: u128) -> (r: Self)
        ensures
            r.owner_spec() == owner,
            r.total_spec() == 0,
            r.acc_spec() == 0,
            r.rewards() == Map::<AccountId, u128>::empty(),
            r.debts() == Map::<AccountId, u128>::empty(),
            r.record_spec() == (RecordInfo {
                day_award: GENESIS_DAY_AWARD,
                block_award: 0,
                day_time: now,
            }),
    {
        Reward {
            total_reward: 0,
            rewards: HashMap::new(),
            reward_debts: HashMap::new(),
            acc_elp_pershare: 0,
            last_record: RecordInfo { day_award: GENESIS_DAY_AWARD, block_award: 0, day_time: now },
            owner,
        }
    }

    pub fn total_reward(&self) -> (r: u128)
        ensures
            r == self.total_spec(),
    {
        self.total_reward
    }

    pub fn reward_of(&self, user: AccountId) -> (r: u128)
        ensures
            r == self.reward_spec(user),
    {
        match self.rewards.get(&user) {
            Some(v) => *v,
            None => 0,
        }
    }

    pub fn reward_debt_of(&self, user: AccountId) -> (r: u128)
        ensures
            r == self.debt_spec(user),
    {
        match self.reward_debts.get(&user) {
            Some(v) => *v,
            None => 0,
        }
    }

    pub fn acc_elp_pershare(&self) -> (r: u128)
        ensures
            r == self.acc_spec(),
    {
        self.acc_elp_pershare
    }

    pub fn get_last_record(&self) -> (r: RecordInfo)
        ensures
            r == self.record_spec(),
    {
        self.last_record
    }

    pub fn owner(&self) -> (r: AccountId)
        ensures
            r == self.owner_spec(),
    {
        self.owner
    }

    pub fn only_owner(&self, caller: AccountId) -> (r: Result<()>)
        ensures
            r is Ok <==> caller == self.owner_spec(),
            r is Err ==> r == Err::<(), Error>(Error::OnlyOwnerAccess),
    {
        if caller != self.owner {
            return Err(Error::OnlyOwnerAccess);
        }
        Ok(())
    }

    /// Sets the reward debt of `user` (owner only).
    pub fn update_reward_debts(&mut self, caller: AccountId, user: AccountId, amount: u128) -> (r:
        Result<()>)
        ensures
            r is Ok <==> caller == old(self).owner_spec(),
            r is Err ==> r == Err::<(), Error>(Error::OnlyOwnerAccess) && *final(self) == *old(
                self,
            ),
            r is Ok ==> {
                &&& final(self).debts() == old(self).debts().insert(user, amount)
                &&& final(self).rewards() == old(self).rewards()
                &&& final(self).acc_spec() == old(self).acc_spec()
                &&& final(self).total_spec() == old(self).total_spec()
                &&& final(self).record_spec() == old(self).record_spec()
                &&& final(self).owner_spec() == old(self).owner_spec()
            },
    {
        self.only_owner(caller)?;
        self.reward_debts.insert(user, amount);
        Ok(())
    }

    /// Sets the total reward, the realized reward of `user` and the accumulator (owner only).
    pub fn update_reward_infos(
        &mut self,
        caller: AccountId,
        total: u128,
        user: AccountId,
        reward: u128,
        amount: u128,
    ) -> (r: Result<()>)
        ensures
            r is Ok <==> caller == old(self).owner_spec(),
            r is Err ==> r == Err::<(), Error>(Error::OnlyOwnerAccess) && *final(self) == *old(
                self,
            ),
            r is Ok ==> {
                &&& final(self).rewards() == old(self).rewards().insert(user, reward)
                &&& final(self).debts() == old(self).debts()
                &&& final(self).acc_spec() == amount
                &&& final(self).total_spec() == total
                &&& final(self).record_spec() == old(self).record_spec()
                &&& final(self).owner_spec() == old(self).owner_spec()
            },
    {
        self.only_owner(caller)?;
        self.total_reward = total;
        self.rewards.insert(user, reward);
        self.acc_elp_pershare = amount;
        Ok(())
    }

    /// Overwrites the emission record (owner only).
    pub fn update_last_record_infos(
        &mut self,
        caller: AccountId,
        day_award: u128,
        block_award: u128,
        day_time: u128,
    ) -> (r: Result<()>)
        ensures
            r is Ok <==> caller == old(self).owner_spec(),
            r is Err ==> r == Err::<(), Error>(Error::OnlyOwnerAccess) && *final(self) == *old(
                self,
            ),
            r is Ok ==> {
                &&& final(self).record_spec() == (RecordInfo { day_award, block_award, day_time })
                &&& final(self).rewards() == old(self).rewards()
                &&& final(self).debts() == old(self).debts()
                &&& final(self).acc_spec() == old(self).acc_spec()
                &&& final(self).total_spec() == old(self).total_spec()
                &&& final(self).owner_spec() == old(self).owner_spec()
            },
    {
        self.only_owner(caller)?;
        self.last_record = RecordInfo { day_award, block_award, day_time };
        Ok(())
    }

    /// Accrues the emission up to `now` and shares it out over `total_supply`
    /// tokens (owner only). With no tokens out, nothing accrues and only the start
    /// of the current day moves to `now`. Returns the emission accrued.
    pub fn accrue(&mut self, caller: AccountId, now: u128, total_supply: u128) -> (r: Result<u128>)
        ensures
            r is Err ==> *final(self) == *old(self),
            r == Err::<u128, Error>(Error::OnlyOwnerAccess) <==> caller != old(self).owner_spec(),
            r is Ok <==> caller == old(self).owner_spec() && accrual_fits(
                old(self).record_spec(),
                old(self).acc_spec() as int,
                old(self).total_spec() as int,
                now as int,
                total_supply as int,
            ),
            r is Ok ==> {
                &&& final(self).rewards() == old(self).rewards()
                &&& final(self).debts() == old(self).debts()
                &&& final(self).owner_spec() == old(self).owner_spec()
                &&& total_supply == 0 ==> {
                    &&& r == Ok::<u128, Error>(0)
                    &&& final(self).record_spec() == (RecordInfo {
                        day_time: now,
                        ..old(self).record_spec()
                    })
                    &&& final(self).acc_spec() == old(self).acc_spec()
                    &&& final(self).total_spec() == old(self).total_spec()
                }
                &&& total_supply > 0 ==> {
                    let delta = emission_delta(old(self).record_spec(), now as int);
                    &&& r == Ok::<u128, Error>(delta as u128)
                    &&& final(self).record_spec() == next_record(old(self).record_spec(), now as int)
                    &&& final(self).acc_spec() == acc_after(
                        old(self).acc_spec() as int,
                        delta,
                        total_supply as int,
                    )
                    &&& final(self).total_spec() == old(self).total_spec() + delta
                }
            },
    {
        self.only_owner(caller)?;
        let (delta, record, acc, total) = accrual(
            &self.last_record,
            self.acc_elp_pershare,
            self.total_reward,
            now,
            total_supply,
        )?;
        self.last_record = record;
        self.acc_elp_pershare = acc;
        self.total_reward = total;
        Ok(delta)
    }

    /// Realizes the reward pending for `account`, which holds `balance` tokens, and
    /// resyncs its debt to `balance` times the accumulator (owner only). Returns
    /// the reward realized.
    pub fn settle(&mut self, caller: AccountId, account: AccountId, balance: u128) -> (r: Result<
        u128,
    >)
        ensures
            r is Err ==> *final(self) == *old(self),
            r == Err::<u128, Error>(Error::OnlyOwnerAccess) <==> caller != old(self).owner_spec(),
            r is Ok <==> caller == old(self).owner_spec() && settle_fits(
                *old(self),
                account,
                balance as int,
            ),
            r matches Ok(paid) ==> settled(*old(self), *final(self), account, balance as int, paid as int),
    {
        self.only_owner(caller)?;
        let (paid, reward, debt) = settlement(
            balance,
            self.acc_elp_pershare,
            self.reward_debt_of(account),
            self.reward_of(account),
        )?;
        self.rewards.insert(account, reward);
        self.reward_debts.insert(account, debt);
        Ok(paid)
    }

    /// Resyncs the debt of `account` to `balance` times the accumulator (owner only).
    pub fn resync_debt(&mut self, caller: AccountId, account: AccountId, balance: u128) -> (r: Result<()>)
        ensures
            r is Err ==> *final(self) == *old(self),
            r == Err::<(), Error>(Error::OnlyOwnerAccess) <==> caller != old(self).owner_spec(),
            r is Ok <==> caller == old(self).owner_spec() && balance * old(self).acc_spec() <= u128::MAX,
            r is Ok ==> {
                &&& final(self).debts() == old(self).debts().insert(account, (balance * old(self).acc_spec()) as u128)
                &&& final(self).debt_spec(account) == balance * old(self).acc_spec()
                &&& final(self).rewards() == old(self).rewards()
                &&& final(self).acc_spec() == old(self).acc_spec()
                &&& final(self).total_spec() == old(self).total_spec()
                &&& final(self).record_spec() == old(self).record_spec()
                &&& final(self).owner_spec() == old(self).owner_spec()
            },
    {
        self.only_owner(caller)?;
        let all = match balance.checked_mul(self.acc_elp_pershare) {
            Some(x) => x,
            None => {
                return Err(Error::Overflow);
            },
        };
        self.reward_debts.insert(account, all);
        Ok(())
    }

    /// Hands ownership to `new_owner` (owner only).
    pub fn transfer_ownership(&mut self, caller: AccountId, new_owner: AccountId) -> (r: Result<()>)
        ensures
            r is Ok <==> caller == old(self).owner_spec(),
            r is Err ==> r == Err::<(), Error>(Error::OnlyOwnerAccess) && *final(self) == *old(
                self,
            ),
            r is Ok ==> {
                &&& final(self).owner_spec() == new_owner
                &&& final(self).record_spec() == old(self).record_spec()
                &&& final(self).rewards() == old(self).rewards()
                &&& final(self).debts() == old(self).debts()
                &&& final(self).acc_spec() == old(self).acc_spec()
                &&& final(self).total_spec() == old(self).total_spec()
            },
    {
        self.only_owner(caller)?;
        self.owner = new_owner;
        Ok(())
    }
}

} // verus!
