use vstd::prelude::*;
use std::collections::HashMap;

use crate::balances::Balances;
use crate::coinday::{
    caught_up, claim_fits, claim_step, settle_claim, MAX_SCAN,
    advance_total, advanced_total, claim_of, credit_fits, credited, debit_fits, debited,
    decrease_of, held_at, settle_decrease, settle_increase, AwardEntry, CoindayAccumulator,
    CoindayInfo, TotalCoinday, zero_info,
};
use crate::error::{Error, Result};
use crate::reward::{
    accrual, accrual_fits, acc_after, emission_delta, next_record, pending_of, settlement,
    RecordInfo, Reward,
};
use crate::AccountId;

verus! {

broadcast use vstd::std_specs::hash::group_hash_axioms;

/// Decimals of the share token.
pub const DECIMALS: u8 = 8;

/// Lock of an account: the epoch it lasts until and the amount it holds back.
pub type LockInfo = (u32, u128);

/// A token movement; `from` is absent for a mint and `to` for a burn.
#[derive(Debug, Clone, Copy, PartialEq, Eq, Structural)]
pub struct Transfer {
    pub from: Option<AccountId>,
    pub to: Option<AccountId>,
    pub value: u128,
}

/// `spender` may now move up to `value` tokens of `owner`.
#[derive(Debug, Clone, Copy, PartialEq, Eq, Structural)]
pub struct Approval {
    pub owner: AccountId,
    pub spender: AccountId,
    pub value: u128,
}

/// `amount` tokens were created for `user`.
#[derive(Debug, Clone, Copy, PartialEq, Eq, Structural)]
pub struct Mint {
    pub user: AccountId,
    pub amount: u128,
}

/// `amount` tokens of `user` were destroyed.
#[derive(Debug, Clone, Copy, PartialEq, Eq, Structural)]
pub struct Burn {
    pub user: AccountId,
    pub amount: u128,
}

/// Key of the allowance of `spender` over the tokens of `owner`.
pub open spec fn allowance_key_spec(owner: AccountId, spender: AccountId) -> int {
    owner as int * 0x1_0000_0000_0000_0000 + spender as int
}

proof fn lemma_allowance_key_injective(o1: AccountId, s1: AccountId, o2: AccountId, s2: AccountId)
    ensures
        allowance_key_spec(o1, s1) == allowance_key_spec(o2, s2) ==> o1 == o2 && s1 == s2,
        0 <= allowance_key_spec(o1, s1) <= u128::MAX,
{
    let k: int = 0x1_0000_0000_0000_0000;
    let (a, b, c, d) = (o1 as int, s1 as int, o2 as int, s2 as int);
    assert(a * k + b == c * k + d ==> a == c && b == d) by (nonlinear_arith)
        requires
            0 <= b < k,
            0 <= d < k,
            a >= 0,
            c >= 0,
    ;
    assert(0 <= a * k + b <= u128::MAX) by (nonlinear_arith)
        requires
            0 <= a < k,
            0 <= b < k,
            k == 0x1_0000_0000_0000_0000,
    ;
}

fn allowance_key(owner: AccountId, spender: AccountId) -> (r: u128)
    ensures
        r == allowance_key_spec(owner, spender),
{
    proof {
        lemma_allowance_key_injective(owner, spender, owner, spender);
    }
    (owner as u128) * 0x1_0000_0000_0000_0000 + spender as u128
}

/// The share-token ledger. It settles the coin-day accumulator and the reward
/// distributor, which it owns, before every change of a balance.
#[derive(Clone)]
pub struct RELP {
    name: Option<String>,
    symbol: Option<String>,
    decimals: Option<u8>,
    total_supply: u128,
    balances: Balances,
    lock_infos: HashMap<AccountId, LockInfo>,
    allowances: HashMap<u128, u128>,
    coinday: CoindayAccumulator,
    reward: Reward,
    account: AccountId,
    owner: AccountId,
}

/// Accumulator per share after accruing up to `now`.
pub open spec fn acc_next(l: RELP, now: int) -> int {
    if l.supply_spec() == 0 {
        l.reward_spec().acc_spec() as int
    } else {
        acc_after(
            l.reward_spec().acc_spec() as int,
            emission_delta(l.reward_spec().record_spec(), now),
            l.supply_spec() as int,
        )
    }
}

/// Emission record after accruing up to `now`.
pub open spec fn record_next(l: RELP, now: int) -> RecordInfo {
    if l.supply_spec() == 0 {
        RecordInfo { day_time: now as u128, ..l.reward_spec().record_spec() }
    } else {
        next_record(l.reward_spec().record_spec(), now)
    }
}

/// Total reward after accruing up to `now`.
pub open spec fn total_reward_next(l: RELP, now: int) -> int {
    if l.supply_spec() == 0 {
        l.reward_spec().total_spec() as int
    } else {
        l.reward_spec().total_spec() + emission_delta(l.reward_spec().record_spec(), now)
    }
}

/// Coin-days removed from the total when `value` leaves `from` at `now`.
pub open spec fn decrease_at(l: RELP, from: Option<AccountId>, value: int, now: int) -> int {
    match from {
        Some(f) => decrease_of(
            held_at(l.info_spec(f), l.balance_spec(f) as int, now),
            value,
            l.balance_spec(f) as int,
        ),
        None => 0,
    }
}

/// The next settlement of `a` reaches the end of the award log.
pub open spec fn awards_caught_up(l: RELP, a: AccountId) -> bool {
    caught_up(l.info_spec(a), l.coinday_spec().awards_spec().len() as int)
}

/// Settling the reward of an account of `balance` tokens can be computed in 128 bits.
pub open spec fn settle_ok(balance: int, acc: int, debt: int, reward: int) -> bool {
    balance * acc <= u128::MAX && reward + pending_of(balance, acc, debt) <= u128::MAX
}

/// Balance of `a` after `value` moved from `from` to `to`.
pub open spec fn moved_balance(
    l: RELP,
    from: Option<AccountId>,
    to: Option<AccountId>,
    value: int,
    a: AccountId,
) -> int {
    if from == Some(a) && to == Some(a) {
        l.balance_spec(a) as int
    } else if from == Some(a) {
        l.balance_spec(a) - value
    } else if to == Some(a) {
        l.balance_spec(a) + value
    } else {
        l.balance_spec(a) as int
    }
}

/// Moving `value` from `from` to `to` at `now` can be computed in 128 bits.
pub open spec fn move_fits(
    l: RELP,
    from: Option<AccountId>,
    to: Option<AccountId>,
    value: int,
    now: int,
) -> bool {
    let awards = l.coinday_spec().awards_spec();
    let acc = acc_next(l, now);
    let total = l.coinday_spec().total_spec();
    &&& accrual_fits(
        l.reward_spec().record_spec(),
        l.reward_spec().acc_spec() as int,
        l.reward_spec().total_spec() as int,
        now,
        l.supply_spec() as int,
    )
    &&& from matches Some(f) ==> {
        &&& debit_fits(l.info_spec(f), l.balance_spec(f) as int, value, awards, now)
        &&& settle_ok(
            l.balance_spec(f) as int,
            acc,
            l.reward_spec().debt_spec(f) as int,
            l.reward_spec().reward_spec(f) as int,
        )
    }
    &&& to matches Some(t) ==> from != Some(t) ==> {
        &&& credit_fits(l.info_spec(t), l.balance_spec(t) as int, awards, now)
        &&& settle_ok(
            l.balance_spec(t) as int,
            acc,
            l.reward_spec().debt_spec(t) as int,
            l.reward_spec().reward_spec(t) as int,
        )
        &&& (l.balance_spec(t) + value) * acc <= u128::MAX
    }
    &&& from is None ==> l.supply_spec() + value <= u128::MAX
    &&& held_at(
        CoindayInfo { amount: total.amount, timestamp: total.timestamp, last_index: 0 },
        l.supply_spec() as int,
        now,
    ) <= u128::MAX
    &&& advanced_total(total, l.supply_spec() as int, now, decrease_at(l, from, value, now)) >= 0
}

/// `l1` is `l0` after `value` moved from `from` to `to` at `now`, with every
/// touched account settled first.
pub open spec fn move_post(
    l0: RELP,
    l1: RELP,
    from: Option<AccountId>,
    to: Option<AccountId>,
    value: int,
    now: int,
) -> bool {
    let awards = l0.coinday_spec().awards_spec();
    let acc = acc_next(l0, now);
    let touched = |a: AccountId| from == Some(a) || to == Some(a);
    &&& forall|a: AccountId| #[trigger]
        l1.balance_spec(a) == moved_balance(l0, from, to, value, a)
    &&& l1.supply_spec() == l0.supply_spec() + (if from is None {
        value
    } else {
        0
    }) - (if to is None {
        value
    } else {
        0
    })
    &&& l1.locks() == l0.locks()
    &&& l1.owner_spec() == l0.owner_spec()
    &&& l1.account_spec() == l0.account_spec()
    &&& l1.coinday_spec().awards_spec() == awards
    &&& l1.coinday_spec().total_spec() == (TotalCoinday {
        amount: advanced_total(
            l0.coinday_spec().total_spec(),
            l0.supply_spec() as int,
            now,
            decrease_at(l0, from, value, now),
        ) as u128,
        timestamp: now as u128,
    })
    &&& forall|a: AccountId| #[trigger]
        l1.info_spec(a) == if from == Some(a) {
            debited(l0.info_spec(a), l0.balance_spec(a) as int, value, awards.len() as int, now)
        } else if to == Some(a) {
            credited(l0.info_spec(a), l0.balance_spec(a) as int, awards.len() as int, now)
        } else {
            l0.info_spec(a)
        }
    &&& l1.reward_spec().record_spec() == record_next(l0, now)
    &&& l1.reward_spec().acc_spec() == acc
    &&& l1.reward_spec().total_spec() == total_reward_next(l0, now)
    &&& forall|a: AccountId| #[trigger]
        l1.reward_spec().reward_spec(a) == if touched(a) {
            l0.reward_spec().reward_spec(a) + pending_of(
                l0.balance_spec(a) as int,
                acc,
                l0.reward_spec().debt_spec(a) as int,
            )
        } else {
            l0.reward_spec().reward_spec(a) as int
        }
    &&& forall|a: AccountId| #[trigger]
        l1.reward_spec().debt_spec(a) == if touched(a) {
            l1.balance_spec(a) * acc
        } else {
            l0.reward_spec().debt_spec(a) as int
        }
}

/// Award shares claimed by the two sides of a movement.
pub open spec fn move_claims(
    l: RELP,
    from: Option<AccountId>,
    to: Option<AccountId>,
    claims: (u128, u128),
) -> bool {
    let awards = l.coinday_spec().awards_spec();
    &&& claims.0 == match from {
        Some(f) => claim_of(l.info_spec(f), l.balance_spec(f) as int, awards),
        None => 0,
    }
    &&& claims.1 == match to {
        Some(t) => if from == Some(t) {
            0
        } else {
            claim_of(l.info_spec(t), l.balance_spec(t) as int, awards)
        },
        None => 0,
    }
}

/// Conservation: the balances of a well-formed ledger add up to its total supply.
/// Every operation of the ledger keeps it well-formed.
pub proof fn lemma_conservation(l: RELP)
    requires
        l.wf(),
    ensures
        l.supply_spec() == l.balance_sum(),
{
}

impl RELP {
    pub closed spec fn supply_spec(&self) -> u128 {
        self.total_supply
    }

    pub closed spec fn balances_spec(&self) -> Balances {
        self.balances
    }

    pub open spec fn balance_spec(&self, a: AccountId) -> u128 {
        self.balances_spec().get_spec(a)
    }

    /// Sum of all balances.
    pub open spec fn balance_sum(&self) -> int {
        self.balances_spec().sum()
    }

    /// Lock of every account; an absent account has no lock.
    pub closed spec fn locks(&self) -> Map<AccountId, LockInfo> {
        self.lock_infos@
    }

    pub open spec fn lock_spec(&self, a: AccountId) -> LockInfo {
        if self.locks().contains_key(a) {
            self.locks()[a]
        } else {
            (0, 0)
        }
    }

    /// Tokens of `a` that its lock does not hold back: `balance - locked`, which is
    /// negative when the lock exceeds the balance.
    pub open spec fn free_spec(&self, a: AccountId) -> int {
        self.balance_spec(a) - self.lock_spec(a).1
    }

    /// Allowances, by `allowance_key_spec(owner, spender)`.
    pub closed spec fn allowances(&self) -> Map<u128, u128> {
        self.allowances@
    }

    pub open spec fn allowance_spec(&self, owner: AccountId, spender: AccountId) -> u128 {
        if self.allowances().contains_key(allowance_key_spec(owner, spender) as u128) {
            self.allowances()[allowance_key_spec(owner, spender) as u128]
        } else {
            0
        }
    }

    pub closed spec fn coinday_spec(&self) -> CoindayAccumulator {
        self.coinday
    }

    pub open spec fn info_spec(&self, a: AccountId) -> CoindayInfo {
        self.coinday_spec().info_of(a)
    }

    pub closed spec fn reward_spec(&self) -> Reward {
        self.reward
    }

    pub closed spec fn owner_spec(&self) -> AccountId {
        self.owner
    }

    /// The ledger's own account, which owns its two accumulators.
    pub closed spec fn account_spec(&self) -> AccountId {
        self.account
    }

    pub closed spec fn name_spec(&self) -> Option<String> {
        self.name
    }

    pub closed spec fn symbol_spec(&self) -> Option<String> {
        self.symbol
    }

    /// `other` holds the same balances, supply, coin-day and reward state as this
    /// ledger, and acts as the same account.
    pub open spec fn same_state(self, other: RELP) -> bool {
        &&& forall|a: AccountId| #[trigger] other.balance_spec(a) == self.balance_spec(a)
        &&& other.supply_spec() == self.supply_spec()
        &&& other.coinday_spec() == self.coinday_spec()
        &&& other.reward_spec() == self.reward_spec()
        &&& other.account_spec() == self.account_spec()
        &&& other.name_spec() == self.name_spec()
        &&& other.symbol_spec() == self.symbol_spec()
    }

    /// This ledger with `owner` as its owner.
    pub closed spec fn with_owner(self, owner: AccountId) -> RELP {
        RELP { owner, ..self }
    }

    /// `other` differs from this ledger in its locks alone.
    pub closed spec fn same_but_locks(self, other: RELP) -> bool {
        other == RELP { lock_infos: other.lock_infos, ..self }
    }

    /// `other` differs from this ledger in its allowances alone.
    pub closed spec fn same_but_allowances(self, other: RELP) -> bool {
        other == RELP { allowances: other.allowances, ..self }
    }

    pub closed spec fn wf(&self) -> bool {
        &&& self.balances.wf()
        &&& self.total_supply == self.balances.sum()
        &&& self.coinday.wf()
        &&& self.coinday.owner_spec() == self.account
        &&& self.reward.owner_spec() == self.account
        &&& self.decimals == Some(DECIMALS)
    }

    /// Creates an empty ledger owned by `caller`; `account` is the ledger's own
    /// account and `now` starts the emission schedule.
    pub fn new(caller: AccountId, account: AccountId, now: u128) -> (r: Self)
        ensures
            r.wf(),
            r.owner_spec() == caller,
            r.account_spec() == account,
            r.name_spec() is Some && r.name_spec()->Some_0@ == "Risk Reserve of ELP"@,
            r.symbol_spec() is Some && r.symbol_spec()->Some_0@ == "rELP"@,
            r.supply_spec() == 0,
            forall|a: AccountId| #[trigger] r.balance_spec(a) == 0,
            forall|a: AccountId| #[trigger] r.lock_spec(a) == (0u32, 0u128),
            forall|o: AccountId, s: AccountId| #[trigger] r.allowance_spec(o, s) == 0,
            forall|a: AccountId| #[trigger] r.info_spec(a) == zero_info(),
            r.coinday_spec().awards_spec() == Seq::<AwardEntry>::empty(),
            r.reward_spec().acc_spec() == 0,
            r.reward_spec().total_spec() == 0,
            r.reward_spec().rewards() == Map::<AccountId, u128>::empty(),
            r.reward_spec().debts() == Map::<AccountId, u128>::empty(),
            r.reward_spec().record_spec().day_time == now,
    {
        RELP {
            name: Some(String::from_str("Risk Reserve of ELP")),
            symbol: Some(String::from_str("rELP")),
            decimals: Some(DECIMALS),
            total_supply: 0,
            balances: Balances::new(),
            lock_infos: HashMap::new(),
            allowances: HashMap::new(),
            coinday: CoindayAccumulator::new(account),
            reward: Reward::new(account, now),
            account,
            owner: caller,
        }
    }

    pub fn token_name(&self) -> (r: Option<String>)
        ensures
            r == self.name_spec(),
    {
        match &self.name {
            Some(n) => Some(n.clone()),
            None => None,
        }
    }

    pub fn token_symbol(&self) -> (r: Option<String>)
        ensures
            r == self.symbol_spec(),
    {
        match &self.symbol {
            Some(n) => Some(n.clone()),
            None => None,
        }
    }

    pub fn token_decimals(&self) -> (r: Option<u8>)
        requires
            self.wf(),
        ensures
            r == Some(DECIMALS),
    {
        self.decimals
    }

    pub fn total_supply(&self) -> (r: u128)
        ensures
            r == self.supply_spec(),
    {
        self.total_supply
    }

    pub fn balance_of(&self, owner: AccountId) -> (r: u128)
        ensures
            r == self.balance_spec(owner),
    {
        self.balances.get(owner)
    }

    pub fn lock_info_of(&self, user: AccountId) -> (r: LockInfo)
        ensures
            r == self.lock_spec(user),
    {
        match self.lock_infos.get(&user) {
            Some(l) => *l,
            None => (0, 0),
        }
    }

    pub fn allowance(&self, owner: AccountId, spender: AccountId) -> (r: u128)
        ensures
            r == self.allowance_spec(owner, spender),
    {
        match self.allowances.get(&allowance_key(owner, spender)) {
            Some(v) => *v,
            None => 0,
        }
    }

    pub fn owner(&self) -> (r: AccountId)
        ensures
            r == self.owner_spec(),
    {
        self.owner
    }

    /// Coin-day state of `account`.
    pub fn coinday_of(&self, account: AccountId) -> (r: CoindayInfo)
        ensures
            r == self.info_spec(account),
    {
        self.coinday.get_coinday(account)
    }

    /// Total coin-days.
    pub fn total_coinday(&self) -> (r: TotalCoinday)
        ensures
            r == self.coinday_spec().total_spec(),
    {
        self.coinday.total_coinday()
    }

    /// The award log.
    pub fn awards(&self) -> (r: &Vec<AwardEntry>)
        ensures
            r@ == self.coinday_spec().awards_spec(),
    {
        self.coinday.awards()
    }

    /// Realized reward of `user`.
    pub fn reward_of(&self, user: AccountId) -> (r: u128)
        ensures
            r == self.reward_spec().reward_spec(user),
    {
        self.reward.reward_of(user)
    }

    /// Reward debt of `user`.
    pub fn reward_debt_of(&self, user: AccountId) -> (r: u128)
        ensures
            r == self.reward_spec().debt_spec(user),
    {
        self.reward.reward_debt_of(user)
    }

    /// Accumulated reward per share.
    pub fn acc_elp_pershare(&self) -> (r: u128)
        ensures
            r == self.reward_spec().acc_spec(),
    {
        self.reward.acc_elp_pershare()
    }

    /// Emission record of the reward distributor.
    pub fn last_record(&self) -> (r: RecordInfo)
        ensures
            r == self.reward_spec().record_spec(),
    {
        self.reward.get_last_record()
    }

    pub fn only_owner(&self, caller: AccountId) -> (r: Result<()>)
        ensures
            r is Ok <==> caller == self.owner_spec(),
            r is Err ==> r == Err::<(), Error>(Error::OnlyOwnerAccess),
    {
        if caller != self.owner {
            return Err(Error::OnlyOwnerAccess);
        }
        Ok(())
    }

    /// Moves `value` tokens from `from` to `to` at `now`: a mint when `from` is
    /// absent, a burn when `to` is. Every touched account is settled first: its
    /// pending award shares are claimed, its coin-days are projected to `now` (and
    /// decreased in proportion to the tokens leaving it on a debit), and its reward
    /// is realized against the emission accrued up to `now`; its reward debt is then
    /// resynced to its new balance. Either every change happens or none does.
    /// Returns the award shares claimed by `from` and by `to`.
    fn apply_move(&mut self, from: Option<AccountId>, to: Option<AccountId>, value: u128, now: u128) -> (r:
        Result<(u128, u128)>)
        requires
            old(self).wf(),
            from is Some || to is Some,
            from matches Some(f) ==> value <= old(self).balance_spec(f),
        ensures
            final(self).wf(),
            r is Ok <==> move_fits(*old(self), from, to, value as int, now as int),
            r is Err ==> *final(self) == *old(self) && (r->Err_0 == Error::Overflow || r->Err_0
                == Error::ZeroDivisor),
            r matches Ok(claims) ==> move_post(
                *old(self),
                *final(self),
                from,
                to,
                value as int,
                now as int,
            ) && move_claims(*old(self), from, to, claims),
            r is Ok ==> final(self).allowances() == old(self).allowances(),
    {
        let supply = self.total_supply;
        let record = self.reward.get_last_record();
        let (_, next_rec, acc, total_reward) = accrual(
            &record,
            self.reward.acc_elp_pershare(),
            self.reward.total_reward(),
            now,
            supply,
        )?;
        let new_supply = match (from, to) {
            (None, _) => match supply.checked_add(value) {
                Some(x) => x,
                None => {
                    return Err(Error::Overflow);
                },
            },
            (Some(f), None) => {
                proof {
                    self.balances.lemma_bounded(f, f);
                }
                supply - value
            },
            (Some(_), Some(_)) => supply,
        };
        let same = match (from, to) {
            (Some(f), Some(t)) => f == t,
            _ => false,
        };
        // the account debited
        let mut claim_from: u128 = 0;
        let mut decrease: u128 = 0;
        let mut from_info = CoindayInfo { amount: 0, timestamp: 0, last_index: 0 };
        let mut from_reward: u128 = 0;
        let mut from_balance: u128 = 0;
        let mut from_debt: u128 = 0;
        if let Some(f) = from {
            let b = self.balances.get(f);
            let info = self.coinday.get_coinday(f);
            let (c, next, d) = settle_decrease(&info, b, value, self.coinday.awards(), now)?;
            let (_, rw, _) = settlement(
                b,
                acc,
                self.reward.reward_debt_of(f),
                self.reward.reward_of(f),
            )?;
            claim_from = c;
            decrease = d;
            from_info = next;
            from_reward = rw;
            from_balance = if same {
                b
            } else {
                b - value
            };
            proof {
                assert(from_balance * acc <= b * acc) by (nonlinear_arith)
                    requires
                        from_balance <= b,
                        acc >= 0,
                ;
            }
            from_debt = from_balance * acc;
        }
        // the account credited
        let mut claim_to: u128 = 0;
        let mut to_info = CoindayInfo { amount: 0, timestamp: 0, last_index: 0 };
        let mut to_reward: u128 = 0;
        let mut to_balance: u128 = 0;
        let mut to_debt: u128 = 0;
        if let Some(t) = to {
            if !same {
                let b = self.balances.get(t);
                let info = self.coinday.get_coinday(t);
                let (c, next) = settle_increase(&info, b, self.coinday.awards(), now)?;
                let (_, rw, _) = settlement(
                    b,
                    acc,
                    self.reward.reward_debt_of(t),
                    self.reward.reward_of(t),
                )?;
                proof {
                    match from {
                        Some(f) => self.balances.lemma_bounded(t, f),
                        None => self.balances.lemma_bounded(t, t),
                    }
                }
                let nb = b + value;
                to_debt = match nb.checked_mul(acc) {
                    Some(x) => x,
                    None => {
                        return Err(Error::Overflow);
                    },
                };
                claim_to = c;
                to_info = next;
                to_reward = rw;
                to_balance = nb;
            }
        }
        let new_total = advance_total(&self.coinday.total_coinday(), supply, now, decrease)?;
        // every value is known: write them
        let account = self.account;
        if let Some(f) = from {
            self.coinday.update_coindays(account, f, from_info)?;
        }
        if let Some(t) = to {
            if !same {
                self.coinday.update_coindays(account, t, to_info)?;
            }
        }
        self.coinday.update_total_coinday(account, new_total)?;
        self.reward.update_last_record_infos(
            account,
            next_rec.day_award,
            next_rec.block_award,
            next_rec.day_time,
        )?;
        if let Some(f) = from {
            self.reward.update_reward_infos(account, total_reward, f, from_reward, acc)?;
            self.reward.update_reward_debts(account, f, from_debt)?;
            self.balances.set(f, from_balance);
        }
        if let Some(t) = to {
            if !same {
                self.reward.update_reward_infos(account, total_reward, t, to_reward, acc)?;
                self.reward.update_reward_debts(account, t, to_debt)?;
                self.balances.set(t, to_balance);
            }
        }
        self.total_supply = new_supply;
        Ok((claim_from, claim_to))
    }

    /// Moves `value` tokens of `from` to `to` at `now`, settling both accounts
    /// first. Fails with `InsufficientFreeBalance`, changing nothing, when the
    /// tokens of `from` that its lock does not hold back are fewer than `value`.
    fn transfer_from_to(&mut self, from: AccountId, to: AccountId, value: u128, now: u128) -> (r:
        Result<(Transfer, (u128, u128))>)
        requires
            old(self).wf(),
        ensures
            final(self).wf(),
            r is Err ==> *final(self) == *old(self),
            r is Err ==> r->Err_0 == Error::InsufficientFreeBalance || r->Err_0 == Error::AwardsPending
                || r->Err_0 == Error::Overflow || r->Err_0 == Error::ZeroDivisor,
            r == Err::<(Transfer, (u128, u128)), Error>(Error::InsufficientFreeBalance) <==> old(self).free_spec(from) < value,
            r == Err::<(Transfer, (u128, u128)), Error>(Error::AwardsPending) <==> old(self).free_spec(from) >= value
                && !(awards_caught_up(*old(self), from) && awards_caught_up(*old(self), to)),
            r is Ok <==> old(self).free_spec(from) >= value && awards_caught_up(*old(self), from)
                && awards_caught_up(*old(self), to) && move_fits(
                *old(self),
                Some(from),
                Some(to),
                value as int,
                now as int,
            ),
            r matches Ok((event, claims)) ==> {
                &&& event == (Transfer { from: Some(from), to: Some(to), value })
                &&& move_post(*old(self), *final(self), Some(from), Some(to), value as int, now as int)
                &&& move_claims(*old(self), Some(from), Some(to), claims)
                &&& final(self).allowances() == old(self).allowances()
            },
    {
        let balance = self.balance_of(from);
        let (_, locked) = self.lock_info_of(from);
        if balance < locked || balance - locked < value {
            return Err(Error::InsufficientFreeBalance);
        }
        if !self.awards_caught_up_exec(from) || !self.awards_caught_up_exec(to) {
            return Err(Error::AwardsPending);
        }
        let claims = self.apply_move(Some(from), Some(to), value, now)?;
        Ok((Transfer { from: Some(from), to: Some(to), value }, claims))
    }

    /// Moves `value` tokens of `caller` to `to` at `now`. Returns the event and the
    /// award shares claimed by the two accounts, to be minted in the synthetic token.
    pub fn transfer(&mut self, caller: AccountId, to: AccountId, value: u128, now: u128) -> (r:
        Result<(Transfer, (u128, u128))>)
        requires
            old(self).wf(),
        ensures
            final(self).wf(),
            final(self).supply_spec() == final(self).balance_sum(),
            r is Err ==> *final(self) == *old(self),
            r == Err::<(Transfer, (u128, u128)), Error>(Error::InsufficientFreeBalance) <==> old(self).free_spec(caller) < value,
            r == Err::<(Transfer, (u128, u128)), Error>(Error::AwardsPending) <==> old(self).free_spec(caller) >= value
                && !(awards_caught_up(*old(self), caller) && awards_caught_up(*old(self), to)),
            r is Ok <==> old(self).free_spec(caller) >= value && awards_caught_up(*old(self), caller)
                && awards_caught_up(*old(self), to) && move_fits(
                *old(self),
                Some(caller),
                Some(to),
                value as int,
                now as int,
            ),
            r is Ok ==> final(self).balance_spec(caller) >= final(self).lock_spec(caller).1,
            r matches Ok((event, claims)) ==> {
                &&& event == (Transfer { from: Some(caller), to: Some(to), value })
                &&& move_post(*old(self), *final(self), Some(caller), Some(to), value as int, now as int)
                &&& move_claims(*old(self), Some(caller), Some(to), claims)
                &&& final(self).allowances() == old(self).allowances()
            },
    {
        let r = self.transfer_from_to(caller, to, value, now);
        proof {
            if r is Ok {
                assert(self.balance_spec(caller) == moved_balance(
                    *old(self),
                    Some(caller),
                    Some(to),
                    value as int,
                    caller,
                ));
            }
        }
        r
    }

    /// Moves `value` tokens of `from` to `to` at `now` on behalf of `caller`, and
    /// lowers the allowance of `caller` over `from` by `value`. Fails with
    /// `InsufficientAllowance`, changing nothing, when that allowance is below `value`.
    pub fn transfer_from(
        &mut self,
        caller: AccountId,
        from: AccountId,
        to: AccountId,
        value: u128,
        now: u128,
    ) -> (r: Result<(Transfer, (u128, u128))>)
        requires
            old(self).wf(),
        ensures
            final(self).wf(),
            final(self).supply_spec() == final(self).balance_sum(),
            r is Err ==> *final(self) == *old(self),
            r == Err::<(Transfer, (u128, u128)), Error>(Error::InsufficientAllowance) <==> old(self).allowance_spec(from, caller) < value,
            r == Err::<(Transfer, (u128, u128)), Error>(Error::InsufficientFreeBalance) <==> old(self).allowance_spec(from, caller) >= value && old(self).free_spec(from) < value,
            r == Err::<(Transfer, (u128, u128)), Error>(Error::AwardsPending) <==> old(self).allowance_spec(from, caller) >= value
                && old(self).free_spec(from) >= value && !(awards_caught_up(*old(self), from)
                && awards_caught_up(*old(self), to)),
            r is Ok <==> old(self).allowance_spec(from, caller) >= value && old(self).free_spec(from)
                >= value && awards_caught_up(*old(self), from) && awards_caught_up(*old(self), to)
                && move_fits(*old(self), Some(from), Some(to), value as int, now as int),
            r matches Ok((event, claims)) ==> {
                &&& event == (Transfer { from: Some(from), to: Some(to), value })
                &&& move_post(*old(self), *final(self), Some(from), Some(to), value as int, now as int)
                &&& move_claims(*old(self), Some(from), Some(to), claims)
                &&& final(self).allowance_spec(from, caller) == old(self).allowance_spec(from, caller)
                    - value
                &&& forall|o: AccountId, s: AccountId|
                    (o != from || s != caller) ==> #[trigger] final(self).allowance_spec(o, s) == old(self).allowance_spec(o, s)
            },
    {
        let allowance = self.allowance(from, caller);
        if allowance < value {
            return Err(Error::InsufficientAllowance);
        }
        let moved = self.transfer_from_to(from, to, value, now)?;
        let ghost mid = *self;
        self.allowances.insert(allowance_key(from, caller), allowance - value);
        proof {
            assert(*self == RELP { allowances: self.allowances, ..mid });
            assert(move_post(*old(self), mid, Some(from), Some(to), value as int, now as int));
            assert forall|a: AccountId| #[trigger] self.balance_spec(a) == mid.balance_spec(a) by {}
            assert forall|a: AccountId| #[trigger] self.info_spec(a) == mid.info_spec(a) by {}
            assert forall|o: AccountId, s: AccountId|
                (o != from || s != caller) implies #[trigger] self.allowance_spec(o, s) == old(self).allowance_spec(o, s) by {
                lemma_allowance_key_injective(o, s, from, caller);
            }
        }
        Ok(moved)
    }

    /// Creates `amount` tokens for `user` at `now` (owner only), settling `user`
    /// first. Returns the event and the award share claimed by `user`.
    pub fn mint(&mut self, caller: AccountId, user: AccountId, amount: u128, now: u128) -> (r: Result<
        (Mint, u128),
    >)
        requires
            old(self).wf(),
        ensures
            final(self).wf(),
            final(self).supply_spec() == final(self).balance_sum(),
            r is Err ==> *final(self) == *old(self),
            r is Err ==> r->Err_0 == Error::OnlyOwnerAccess || r->Err_0 == Error::InvalidAmount
                || r->Err_0 == Error::AwardsPending || r->Err_0 == Error::Overflow || r->Err_0
                == Error::ZeroDivisor,
            r == Err::<(Mint, u128), Error>(Error::OnlyOwnerAccess) <==> caller != old(self).owner_spec(),
            r == Err::<(Mint, u128), Error>(Error::InvalidAmount) <==> caller == old(self).owner_spec()
                && amount == 0,
            r == Err::<(Mint, u128), Error>(Error::AwardsPending) <==> caller == old(self).owner_spec()
                && amount > 0 && !awards_caught_up(*old(self), user),
            r is Ok <==> caller == old(self).owner_spec() && amount > 0 && awards_caught_up(*old(self), user) && move_fits(
                *old(self),
                None,
                Some(user),
                amount as int,
                now as int,
            ),
            r matches Ok((event, claim)) ==> {
                &&& event == (Mint { user, amount })
                &&& move_post(*old(self), *final(self), None, Some(user), amount as int, now as int)
                &&& move_claims(*old(self), None, Some(user), (0, claim))
                &&& final(self).allowances() == old(self).allowances()
            },
    {
        self.only_owner(caller)?;
        if amount == 0 {
            return Err(Error::InvalidAmount);
        }
        if !self.awards_caught_up_exec(user) {
            return Err(Error::AwardsPending);
        }
        let (_, claim) = self.apply_move(None, Some(user), amount, now)?;
        Ok((Mint { user, amount }, claim))
    }

    /// Destroys `amount` tokens of `user` at `now` (owner only), settling `user`
    /// first. Returns the event and the award share claimed by `user`.
    pub fn burn(&mut self, caller: AccountId, user: AccountId, amount: u128, now: u128) -> (r: Result<
        (Burn, u128),
    >)
        requires
            old(self).wf(),
        ensures
            final(self).wf(),
            final(self).supply_spec() == final(self).balance_sum(),
            r is Err ==> *final(self) == *old(self),
            r is Err ==> r->Err_0 == Error::OnlyOwnerAccess || r->Err_0 == Error::InvalidAmount
                || r->Err_0 == Error::InsufficientSupply || r->Err_0
                == Error::InsufficientFreeBalance || r->Err_0 == Error::AwardsPending || r->Err_0
                == Error::Overflow || r->Err_0 == Error::ZeroDivisor,
            r == Err::<(Burn, u128), Error>(Error::OnlyOwnerAccess) <==> caller != old(self).owner_spec(),
            r == Err::<(Burn, u128), Error>(Error::InvalidAmount) <==> caller == old(self).owner_spec()
                && amount == 0,
            r == Err::<(Burn, u128), Error>(Error::InsufficientSupply) <==> caller == old(self).owner_spec() && amount > 0 && old(self).supply_spec() < amount,
            r == Err::<(Burn, u128), Error>(Error::InsufficientFreeBalance) <==> caller == old(self).owner_spec() && amount > 0 && old(self).supply_spec() >= amount && old(self).free_spec(
                user,
            ) < amount,
            r == Err::<(Burn, u128), Error>(Error::AwardsPending) <==> caller == old(self).owner_spec()
                && amount > 0 && old(self).supply_spec() >= amount && old(self).free_spec(user) >= amount
                && !awards_caught_up(*old(self), user),
            r is Ok <==> caller == old(self).owner_spec() && amount > 0 && old(self).supply_spec()
                >= amount && old(self).free_spec(user) >= amount && awards_caught_up(*old(self), user)
                && move_fits(
                *old(self),
                Some(user),
                None,
                amount as int,
                now as int,
            ),
            r is Ok ==> final(self).balance_spec(user) >= final(self).lock_spec(user).1,
            r matches Ok((event, claim)) ==> {
                &&& event == (Burn { user, amount })
                &&& move_post(*old(self), *final(self), Some(user), None, amount as int, now as int)
                &&& move_claims(*old(self), Some(user), None, (claim, 0))
                &&& final(self).allowances() == old(self).allowances()
            },
    {
        self.only_owner(caller)?;
        if amount == 0 {
            return Err(Error::InvalidAmount);
        }
        if self.total_supply < amount {
            return Err(Error::InsufficientSupply);
        }
        let balance = self.balance_of(user);
        let (_, locked) = self.lock_info_of(user);
        if balance < locked || balance - locked < amount {
            return Err(Error::InsufficientFreeBalance);
        }
        if !self.awards_caught_up_exec(user) {
            return Err(Error::AwardsPending);
        }
        let (claim, _) = self.apply_move(Some(user), None, amount, now)?;
        Ok((Burn { user, amount }, claim))
    }

    /// Brings the total coin-days up to `now` and appends an award entry of
    /// `elc_amount` synthetic tokens against that total (owner only).
    pub fn relp_update_awards(&mut self, caller: AccountId, elc_amount: u128, now: u128) -> (r: Result<
        (),
    >)
        requires
            old(self).wf(),
        ensures
            final(self).wf(),
            r is Err ==> *final(self) == *old(self),
            r == Err::<(), Error>(Error::OnlyOwnerAccess) <==> caller != old(self).owner_spec(),
            r is Ok <==> caller == old(self).owner_spec() && advanced_total(
                old(self).coinday_spec().total_spec(),
                old(self).supply_spec() as int,
                now as int,
                0,
            ) <= u128::MAX && old(self).coinday_spec().awards_spec().len() < u32::MAX,
            r is Err ==> r == Err::<(), Error>(Error::OnlyOwnerAccess) || r == Err::<(), Error>(
                Error::Overflow,
            ),
            r is Ok ==> {
                let total = advanced_total(
                    old(self).coinday_spec().total_spec(),
                    old(self).supply_spec() as int,
                    now as int,
                    0,
                );
                &&& final(self).coinday_spec().total_spec() == (TotalCoinday {
                    amount: total as u128,
                    timestamp: now,
                })
                &&& final(self).coinday_spec().awards_spec() == old(self).coinday_spec().awards_spec().push(
                    AwardEntry { amount: elc_amount, total_coinday: total as u128, timestamp: now },
                )
                &&& forall|a: AccountId| #[trigger]
                    final(self).info_spec(a) == old(self).info_spec(a)
                &&& forall|a: AccountId| #[trigger]
                    final(self).balance_spec(a) == old(self).balance_spec(a)
                &&& final(self).supply_spec() == old(self).supply_spec()
                &&& final(self).reward_spec() == old(self).reward_spec()
            },
    {
        self.only_owner(caller)?;
        if self.coinday.award_count() >= u32::MAX as usize {
            return Err(Error::Overflow);
        }
        let total = advance_total(&self.coinday.total_coinday(), self.total_supply, now, 0)?;
        let account = self.account;
        self.coinday.update_total_coinday(account, total)?;
        self.coinday.update_awards(account, elc_amount, total.amount, now)?;
        Ok(())
    }

    /// Whether the next settlement of `a` reaches the end of the award log.
    fn awards_caught_up_exec(&self, a: AccountId) -> (r: bool)
        requires
            self.wf(),
        ensures
            r == awards_caught_up(*self, a),
    {
        let info = self.coinday.get_coinday(a);
        let len = self.coinday.award_count();
        let start: usize = if (info.last_index as usize) <= len {
            info.last_index as usize
        } else {
            len
        };
        len - start <= MAX_SCAN
    }

    /// Claims for `account`, whose balance stays as it is, the award shares of at
    /// most `MAX_SCAN` pending entries at `now`. Until the log is caught up only
    /// the cursor moves; the claim that catches it up projects the coin-days to
    /// `now`. Returns the share claimed, to be minted in the synthetic token.
    pub fn claim_awards(&mut self, account: AccountId, now: u128) -> (r: Result<u128>)
        requires
            old(self).wf(),
        ensures
            final(self).wf(),
            r is Err ==> *final(self) == *old(self),
            r is Err ==> r->Err_0 == Error::ZeroDivisor || r->Err_0 == Error::Overflow,
            r is Ok <==> claim_fits(
                old(self).info_spec(account),
                old(self).balance_spec(account) as int,
                old(self).coinday_spec().awards_spec(),
            ) && (awards_caught_up(*old(self), account) ==> held_at(
                old(self).info_spec(account),
                old(self).balance_spec(account) as int,
                now as int,
            ) <= u128::MAX),
            r matches Ok(claim) ==> {
                let awards = old(self).coinday_spec().awards_spec();
                &&& claim == claim_of(
                    old(self).info_spec(account),
                    old(self).balance_spec(account) as int,
                    awards,
                )
                &&& forall|a: AccountId| #[trigger]
                    final(self).info_spec(a) == if a == account {
                        claim_step(
                            old(self).info_spec(account),
                            old(self).balance_spec(account) as int,
                            awards.len() as int,
                            now as int,
                        )
                    } else {
                        old(self).info_spec(a)
                    }
                &&& final(self).coinday_spec().awards_spec() == awards
                &&& final(self).coinday_spec().total_spec() == old(self).coinday_spec().total_spec()
                &&& final(self).owner_spec() == old(self).owner_spec()
                &&& forall|a: AccountId| #[trigger] final(self).balance_spec(a) == old(self).balance_spec(a)
                &&& final(self).supply_spec() == old(self).supply_spec()
                &&& final(self).reward_spec() == old(self).reward_spec()
                &&& final(self).locks() == old(self).locks()
                &&& final(self).allowances() == old(self).allowances()
            },
    {
        let balance = self.balances.get(account);
        let info = self.coinday.get_coinday(account);
        let (claim, next) = settle_claim(&info, balance, self.coinday.awards(), now)?;
        let me = self.account;
        self.coinday.update_coindays(me, account, next)?;
        Ok(claim)
    }

    /// Hands ownership to `new_owner` (owner only).
    pub fn transfer_ownership(&mut self, caller: AccountId, new_owner: AccountId) -> (r: Result<()>)
        requires
            old(self).wf(),
        ensures
            final(self).wf(),
            r is Ok <==> caller == old(self).owner_spec(),
            r is Err ==> r == Err::<(), Error>(Error::OnlyOwnerAccess) && *final(self) == *old(self),
            r is Ok ==> *final(self) == old(self).with_owner(new_owner),
            r is Ok ==> final(self).owner_spec() == new_owner && old(self).same_state(*final(self))
                && final(self).locks() == old(self).locks() && final(self).allowances() == old(
                self,
            ).allowances(),
    {
        self.only_owner(caller)?;
        self.owner = new_owner;
        Ok(())
    }

    /// Sets the lock of `user` (owner only).
    pub fn update_lock_infos(&mut self, caller: AccountId, user: AccountId, lock_info: LockInfo) -> (r:
        Result<()>)
        requires
            old(self).wf(),
        ensures
            final(self).wf(),
            r is Ok <==> caller == old(self).owner_spec(),
            r is Err ==> r == Err::<(), Error>(Error::OnlyOwnerAccess) && *final(self) == *old(self),
            r is Ok ==> old(self).same_but_locks(*final(self)) && final(self).locks() == old(self).locks().insert(user, lock_info),
            r is Ok ==> final(self).owner_spec() == old(self).owner_spec() && old(self).same_state(
                *final(self),
            ) && final(self).allowances() == old(self).allowances(),
    {
        self.only_owner(caller)?;
        self.lock_infos.insert(user, lock_info);
        Ok(())
    }

    /// Lets `spender` move up to `value` tokens of `caller`, replacing any earlier allowance.
    pub fn approve(&mut self, caller: AccountId, spender: AccountId, value: u128) -> (r: Result<
        Approval,
    >)
        requires
            old(self).wf(),
        ensures
            final(self).wf(),
            r == Ok::<Approval, Error>(Approval { owner: caller, spender, value }),
            forall|o: AccountId, s: AccountId| #[trigger]
                final(self).allowance_spec(o, s) == if o == caller && s == spender {
                    value
                } else {
                    old(self).allowance_spec(o, s)
                },
            old(self).same_but_allowances(*final(self)),
            final(self).owner_spec() == old(self).owner_spec(),
            old(self).same_state(*final(self)),
            final(self).locks() == old(self).locks(),
    {
        self.allowances.insert(allowance_key(caller, spender), value);
        proof {
            assert forall|o: AccountId, s: AccountId| #[trigger]
                self.allowance_spec(o, s) == if o == caller && s == spender {
                    value
                } else {
                    old(self).allowance_spec(o, s)
                } by {
                lemma_allowance_key_injective(o, s, caller, spender);
            }
        }
        Ok(Approval { owner: caller, spender, value })
    }
}

} // verus!
