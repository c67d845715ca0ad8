use vstd::prelude::*;
use std::collections::HashMap;

use crate::error::{Error, Result};
use crate::AccountId;

verus! {

broadcast use vstd::std_specs::hash::group_hash_axioms;

/// Most award entries that one settlement walks through.
pub const MAX_SCAN: usize = 50;

/// Time-weighted holding of one account.
#[derive(Debug, Clone, Copy, PartialEq, Eq, Structural)]
pub struct CoindayInfo {
    /// Coin-days accumulated up to `timestamp`.
    pub amount: u128,
    /// Time of the last settlement.
    pub timestamp: u128,
    /// First award entry not yet claimed.
    pub last_index: u32,
}

/// Coin-days of all holders together.
#[derive(Debug, Clone, Copy, PartialEq, Eq, Structural)]
pub struct TotalCoinday {
    pub amount: u128,
    pub timestamp: u128,
}

/// One issuance handed out to holders in proportion to their coin-days.
#[derive(Debug, Clone, Copy, PartialEq, Eq, Structural)]
pub struct AwardEntry {
    /// Synthetic tokens to share out.
    pub amount: u128,
    /// Total coin-days when the entry was appended.
    pub total_coinday: u128,
    /// Time at which the entry was appended.
    pub timestamp: u128,
}

pub open spec fn zero_info() -> CoindayInfo {
    CoindayInfo { amount: 0, timestamp: 0, last_index: 0 }
}

/// Time between `last` and `now`; a clock that went back counts as no time.
pub open spec fn elapsed(now: int, last: int) -> int {
    if now >= last {
        now - last
    } else {
        0
    }
}

/// Coin-days held at time `t`: those settled at `since`, plus `balance` held since then.
pub open spec fn projected(coinday: int, since: int, balance: int, t: int) -> int {
    coinday + balance * elapsed(t, since)
}

/// Coin-days removed when `value` leaves a balance of `balance` that holds `coinday` coin-days.
pub open spec fn decrease_of(coinday: int, value: int, balance: int) -> int {
    if balance == 0 {
        0
    } else {
        coinday * value / balance
    }
}

/// Share of award entry `e` owed to a holder of `coinday` coin-days at its time.
pub open spec fn share_of(coinday: int, e: AwardEntry) -> int {
    coinday * e.amount / e.total_coinday as int
}

/// Share of one entry owed to an account settled at `since` with `coinday` coin-days.
pub open spec fn entry_share(coinday: int, since: int, balance: int, e: AwardEntry) -> int {
    share_of(projected(coinday, since, balance, e.timestamp as int), e)
}

/// Sum of the shares of the entries `lo .. hi`.
pub open spec fn claimed_sum(
    coinday: int,
    since: int,
    balance: int,
    awards: Seq<AwardEntry>,
    lo: int,
    hi: int,
) -> int
    decreases hi - lo,
{
    if hi <= lo {
        0
    } else {
        claimed_sum(coinday, since, balance, awards, lo, hi - 1) + entry_share(
            coinday,
            since,
            balance,
            awards[hi - 1],
        )
    }
}

/// The share of entry `e` can be computed in 128 bits.
pub open spec fn entry_fits(coinday: int, since: int, balance: int, e: AwardEntry) -> bool {
    &&& e.total_coinday > 0
    &&& projected(coinday, since, balance, e.timestamp as int) <= u128::MAX
    &&& projected(coinday, since, balance, e.timestamp as int) * e.amount <= u128::MAX
}

/// The shares of the entries `lo .. hi` and their sum can be computed in 128 bits.
pub open spec fn scan_fits(
    coinday: int,
    since: int,
    balance: int,
    awards: Seq<AwardEntry>,
    lo: int,
    hi: int,
) -> bool {
    &&& forall|i: int| lo <= i < hi ==> entry_fits(coinday, since, balance, #[trigger] awards[i])
    &&& claimed_sum(coinday, since, balance, awards, lo, hi) <= u128::MAX
}

/// First entry that a settlement from `info` looks at.
pub open spec fn scan_start(info: CoindayInfo, len: int) -> int {
    if info.last_index as int <= len {
        info.last_index as int
    } else {
        len
    }
}

/// Entry after the last one that a settlement from `info` looks at.
pub open spec fn scan_end(info: CoindayInfo, len: int) -> int {
    if scan_start(info, len) + MAX_SCAN as int <= len {
        scan_start(info, len) + MAX_SCAN as int
    } else {
        len
    }
}

proof fn lemma_projected_nonneg(coinday: int, since: int, balance: int, t: int)
    requires
        coinday >= 0,
        balance >= 0,
    ensures
        projected(coinday, since, balance, t) >= 0,
{
    assert(balance * elapsed(t, since) >= 0) by (nonlinear_arith)
        requires
            balance >= 0,
            elapsed(t, since) >= 0,
    ;
}

proof fn lemma_share_nonneg(c: int, e: AwardEntry)
    requires
        c >= 0,
        e.total_coinday > 0,
    ensures
        share_of(c, e) >= 0,
{
    let a = e.amount as int;
    let d = e.total_coinday as int;
    assert(c * a / d >= 0) by (nonlinear_arith)
        requires
            c >= 0,
            a >= 0,
            d > 0,
    ;
}

/// Shares of consecutive windows add up to the share of the whole range.
pub proof fn lemma_claimed_split(
    coinday: int,
    since: int,
    balance: int,
    awards: Seq<AwardEntry>,
    lo: int,
    mid: int,
    hi: int,
)
    requires
        lo <= mid <= hi,
    ensures
        claimed_sum(coinday, since, balance, awards, lo, mid) + claimed_sum(
            coinday,
            since,
            balance,
            awards,
            mid,
            hi,
        ) == claimed_sum(coinday, since, balance, awards, lo, hi),
    decreases hi - mid,
{
    if hi > mid {
        lemma_claimed_split(coinday, since, balance, awards, lo, mid, hi - 1);
    }
}

proof fn lemma_claimed_nonneg(
    coinday: int,
    since: int,
    balance: int,
    awards: Seq<AwardEntry>,
    lo: int,
    hi: int,
)
    requires
        coinday >= 0,
        balance >= 0,
        forall|i: int| lo <= i < hi ==> (#[trigger] awards[i]).total_coinday > 0,
    ensures
        claimed_sum(coinday, since, balance, awards, lo, hi) >= 0,
    decreases hi - lo,
{
    if hi > lo {
        lemma_claimed_nonneg(coinday, since, balance, awards, lo, hi - 1);
        let e = awards[hi - 1];
        lemma_projected_nonneg(coinday, since, balance, e.timestamp as int);
        lemma_share_nonneg(projected(coinday, since, balance, e.timestamp as int), e);
    }
}

/// Coin-days held at time `t` by an account settled as `info` with `balance` since.
pub fn project_coinday(info: &CoindayInfo, balance: u128, t: u128) -> (r: Result<u128>)
    ensures
        match r {
            Ok(c) => c == projected(
                info.amount as int,
                info.timestamp as int,
                balance as int,
                t as int,
            ),
            Err(e) => e == Error::Overflow && projected(
                info.amount as int,
                info.timestamp as int,
                balance as int,
                t as int,
            ) > u128::MAX,
        },
{
    let dt: u128 = if t >= info.timestamp {
        t - info.timestamp
    } else {
        0
    };
    let grown = match balance.checked_mul(dt) {
        Some(g) => g,
        None => {
            return Err(Error::Overflow);
        },
    };
    match info.amount.checked_add(grown) {
        Some(c) => Ok(c),
        None => Err(Error::Overflow),
    }
}

/// Coin-days removed when `value` leaves `balance`: `floor(coinday * value / balance)`.
pub fn proportional_decrease(coinday: u128, value: u128, balance: u128) -> (r: Result<u128>)
    requires
        value <= balance,
    ensures
        match r {
            Ok(d) => d == decrease_of(coinday as int, value as int, balance as int) && d
                <= coinday,
            Err(e) => e == Error::Overflow && balance > 0 && coinday * value > u128::MAX,
        },
        r is Ok <==> balance == 0 || coinday * value <= u128::MAX,
{
    if balance == 0 {
        return Ok(0);
    }
    match coinday.checked_mul(value) {
        Some(p) => {
            let d = p / balance;
            assert(d <= coinday) by (nonlinear_arith)
                requires
                    p == coinday * value,
                    d == p / balance,
                    value <= balance,
                    balance > 0,
                    coinday >= 0,
            ;
            Ok(d)
        },
        None => Err(Error::Overflow),
    }
}

/// Share of award entry `e` owed to a holder of `coinday` coin-days at its time.
pub fn award_share(coinday: u128, e: &AwardEntry) -> (r: Result<u128>)
    ensures
        match r {
            Ok(s) => e.total_coinday > 0 && coinday * e.amount <= u128::MAX && s == share_of(
                coinday as int,
                *e,
            ),
            Err(err) => (err == Error::ZeroDivisor && e.total_coinday == 0) || (err
                == Error::Overflow && e.total_coinday > 0 && coinday * e.amount > u128::MAX),
        },
{
    if e.total_coinday == 0 {
        return Err(Error::ZeroDivisor);
    }
    match coinday.checked_mul(e.amount) {
        Some(p) => Ok(p / e.total_coinday),
        None => Err(Error::Overflow),
    }
}

/// Walks at most `MAX_SCAN` pending award entries from `info.last_index` and sums
/// the shares owed to an account of `balance` tokens; returns the sum and the
/// index at which the next settlement resumes.
pub fn scan_awards(info: &CoindayInfo, balance: u128, awards: &Vec<AwardEntry>) -> (r: Result<
    (u128, usize),
>)
    ensures
        match r {
            Ok((amount, next)) => {
                &&& next == scan_end(*info, awards@.len() as int)
                &&& scan_fits(
                    info.amount as int,
                    info.timestamp as int,
                    balance as int,
                    awards@,
                    scan_start(*info, awards@.len() as int),
                    next as int,
                )
                &&& amount == claimed_sum(
                    info.amount as int,
                    info.timestamp as int,
                    balance as int,
                    awards@,
                    scan_start(*info, awards@.len() as int),
                    next as int,
                )
            },
            Err(e) => {
                &&& e == Error::ZeroDivisor || e == Error::Overflow
                &&& !scan_fits(
                    info.amount as int,
                    info.timestamp as int,
                    balance as int,
                    awards@,
                    scan_start(*info, awards@.len() as int),
                    scan_end(*info, awards@.len() as int),
                )
            },
        },
{
    let len = awards.len();
    let start: usize = if (info.last_index as usize) <= len {
        info.last_index as usize
    } else {
        len
    };
    let end: usize = if len - start >= MAX_SCAN {
        start + MAX_SCAN
    } else {
        len
    };
    let ghost c = info.amount as int;
    let ghost s = info.timestamp as int;
    let ghost b = balance as int;
    let mut total: u128 = 0;
    let mut i: usize = start;
    while i < end
        invariant
            start <= i <= end <= len == awards@.len(),
            c == info.amount as int,
            s == info.timestamp as int,
            b == balance as int,
            start == scan_start(*info, len as int),
            end == scan_end(*info, len as int),
            forall|j: int| start <= j < i ==> entry_fits(c, s, b, #[trigger] awards@[j]),
            total == claimed_sum(c, s, b, awards@, start as int, i as int),
        decreases end - i,
    {
        let e = &awards[i];
        let held = match project_coinday(info, balance, e.timestamp) {
            Ok(h) => h,
            Err(err) => {
                return Err(err);
            },
        };
        let share = match award_share(held, e) {
            Ok(x) => x,
            Err(err) => {
                return Err(err);
            },
        };
        proof {
            lemma_claimed_nonneg(c, s, b, awards@, start as int, i as int);
        }
        match total.checked_add(share) {
            Some(t) => {
                total = t;
            },
            None => {
                proof {
                    assert(claimed_sum(c, s, b, awards@, start as int, i + 1) > u128::MAX);
                    if scan_fits(c, s, b, awards@, start as int, end as int) {
                        lemma_claimed_split(c, s, b, awards@, start as int, i + 1, end as int);
                        lemma_claimed_nonneg(c, s, b, awards@, i + 1, end as int);
                    }
                }
                return Err(Error::Overflow);
            },
        }
        i = i + 1;
    }
    Ok((total, end))
}

/// Coin-days held by an account settled as `info`, holding `balance`, at `now`.
pub open spec fn held_at(info: CoindayInfo, balance: int, now: int) -> int {
    projected(info.amount as int, info.timestamp as int, balance, now)
}

/// Award share claimed by a settlement of an account settled as `info`, holding `balance`.
pub open spec fn claim_of(info: CoindayInfo, balance: int, awards: Seq<AwardEntry>) -> int {
    claimed_sum(
        info.amount as int,
        info.timestamp as int,
        balance,
        awards,
        scan_start(info, awards.len() as int),
        scan_end(info, awards.len() as int),
    )
}

/// The pending award entries of the next settlement can be shared out in 128 bits.
pub open spec fn claim_fits(info: CoindayInfo, balance: int, awards: Seq<AwardEntry>) -> bool {
    scan_fits(
        info.amount as int,
        info.timestamp as int,
        balance,
        awards,
        scan_start(info, awards.len() as int),
        scan_end(info, awards.len() as int),
    )
}

/// Coin-day state after a credit settled at `now`.
pub open spec fn credited(info: CoindayInfo, balance: int, len: int, now: int) -> CoindayInfo {
    CoindayInfo {
        amount: held_at(info, balance, now) as u128,
        timestamp: now as u128,
        last_index: scan_end(info, len) as u32,
    }
}

/// Coin-day state after `value` left a balance of `balance` at `now`.
pub open spec fn debited(info: CoindayInfo, balance: int, value: int, len: int, now: int) -> CoindayInfo {
    CoindayInfo {
        amount: (held_at(info, balance, now) - decrease_of(held_at(info, balance, now), value, balance)) as u128,
        timestamp: now as u128,
        last_index: scan_end(info, len) as u32,
    }
}

/// A settlement before a credit can be computed in 128 bits.
pub open spec fn credit_fits(info: CoindayInfo, balance: int, awards: Seq<AwardEntry>, now: int) -> bool {
    &&& claim_fits(info, balance, awards)
    &&& held_at(info, balance, now) <= u128::MAX
}

/// A settlement before a debit of `value` can be computed in 128 bits.
pub open spec fn debit_fits(
    info: CoindayInfo,
    balance: int,
    value: int,
    awards: Seq<AwardEntry>,
    now: int,
) -> bool {
    &&& credit_fits(info, balance, awards, now)
    &&& (balance == 0 || held_at(info, balance, now) * value <= u128::MAX)
}

/// Total coin-days at `now`, `supply` tokens being held since the last update, less `decrease`.
pub open spec fn advanced_total(total: TotalCoinday, supply: int, now: int, decrease: int) -> int {
    projected(total.amount as int, total.timestamp as int, supply, now) - decrease
}

/// The next settlement of an account settled as `info` reaches the end of a log
/// of `len` entries.
pub open spec fn caught_up(info: CoindayInfo, len: int) -> bool {
    scan_end(info, len) == len
}

/// Coin-day state stored by a claim of one window at `now`: once the log is
/// caught up the coin-days are projected to `now`; before that only the cursor
/// moves, so that the entries still pending are valued from the same state.
pub open spec fn claim_step(info: CoindayInfo, balance: int, len: int, now: int) -> CoindayInfo {
    if caught_up(info, len) {
        credited(info, balance, len, now)
    } else {
        CoindayInfo { last_index: scan_end(info, len) as u32, ..info }
    }
}

/// Total claimed by claiming window after window at `now`, starting from `info`
/// with `balance` held throughout, until the log is caught up.
pub open spec fn windowed_claims(info: CoindayInfo, balance: int, awards: Seq<AwardEntry>, now: int) -> int
    decreases awards.len() - scan_start(info, awards.len() as int),
{
    if caught_up(info, awards.len() as int) || awards.len() > u32::MAX {
        claim_of(info, balance, awards)
    } else {
        claim_of(info, balance, awards) + windowed_claims(
            claim_step(info, balance, awards.len() as int, now),
            balance,
            awards,
            now,
        )
    }
}

/// Claiming in bounded windows neither loses nor repeats an entry. With more
/// than `MAX_SCAN` entries pending, a claim covers exactly `MAX_SCAN` of them and
/// stores the cursor just past them, keeping the coin-day state; the claims made
/// window after window, while the balance stays the same, add up to one unbounded
/// pass over the pending entries.
pub proof fn lemma_bounded_scan_resumable(
    info: CoindayInfo,
    balance: int,
    awards: Seq<AwardEntry>,
    now: int,
)
    requires
        info.last_index <= awards.len() <= u32::MAX,
    ensures
        awards.len() - info.last_index > MAX_SCAN ==> {
            &&& scan_end(info, awards.len() as int) == info.last_index + MAX_SCAN
            &&& claim_step(info, balance, awards.len() as int, now) == (CoindayInfo {
                last_index: (info.last_index + MAX_SCAN) as u32,
                ..info
            })
        },
        windowed_claims(info, balance, awards, now) == claimed_sum(
            info.amount as int,
            info.timestamp as int,
            balance,
            awards,
            info.last_index as int,
            awards.len() as int,
        ),
    decreases awards.len() - info.last_index,
{
    let len = awards.len() as int;
    if !caught_up(info, len) {
        let next = claim_step(info, balance, len, now);
        lemma_bounded_scan_resumable(next, balance, awards, now);
        lemma_claimed_split(
            info.amount as int,
            info.timestamp as int,
            balance,
            awards,
            info.last_index as int,
            scan_end(info, len),
            len,
        );
    }
}

/// Settles the coin-days of an account holding `balance` before it is credited:
/// returns the award share claimed from at most `MAX_SCAN` pending entries and the
/// coin-day state projected to `now`.
pub fn settle_increase(info: &CoindayInfo, balance: u128, awards: &Vec<AwardEntry>, now: u128) -> (r:
    Result<(u128, CoindayInfo)>)
    requires
        awards@.len() <= u32::MAX,
    ensures
        r is Ok <==> credit_fits(*info, balance as int, awards@, now as int),
        r is Err ==> r->Err_0 == Error::ZeroDivisor || r->Err_0 == Error::Overflow,
        r matches Ok((claim, next)) ==> claim == claim_of(*info, balance as int, awards@) && next
            == credited(*info, balance as int, awards@.len() as int, now as int),
{
    let (claim, index) = scan_awards(info, balance, awards)?;
    let held = project_coinday(info, balance, now)?;
    Ok((claim, CoindayInfo { amount: held, timestamp: now, last_index: index as u32 }))
}

/// Settles the coin-days of an account holding `balance` before `value` leaves it:
/// returns the award share claimed, the coin-day state at `now`, and the coin-days
/// removed, which are exactly `floor(held * value / balance)` of the `held`
/// coin-days, the rest staying with the account.
pub fn settle_decrease(
    info: &CoindayInfo,
    balance: u128,
    value: u128,
    awards: &Vec<AwardEntry>,
    now: u128,
) -> (r: Result<(u128, CoindayInfo, u128)>)
    requires
        value <= balance,
        awards@.len() <= u32::MAX,
    ensures
        r is Ok <==> debit_fits(*info, balance as int, value as int, awards@, now as int),
        r is Err ==> r->Err_0 == Error::ZeroDivisor || r->Err_0 == Error::Overflow,
        r matches Ok((claim, next, decrease)) ==> {
            &&& claim == claim_of(*info, balance as int, awards@)
            &&& balance > 0 ==> decrease == held_at(*info, balance as int, now as int) * value
                / balance as int
            &&& balance == 0 ==> decrease == 0
            &&& next.amount == held_at(*info, balance as int, now as int) - decrease
            &&& next == debited(*info, balance as int, value as int, awards@.len() as int, now as int)
        },
{
    let (claim, index) = scan_awards(info, balance, awards)?;
    let held = project_coinday(info, balance, now)?;
    let decrease = proportional_decrease(held, value, balance)?;
    Ok((claim, CoindayInfo { amount: held - decrease, timestamp: now, last_index: index as u32 }, decrease))
}

/// Claims the award shares of at most `MAX_SCAN` pending entries for an account
/// holding `balance`, without a change of balance: returns the share claimed and
/// the coin-day state to store, `claim_step(info, balance, len, now)`.
pub fn settle_claim(info: &CoindayInfo, balance: u128, awards: &Vec<AwardEntry>, now: u128) -> (r:
    Result<(u128, CoindayInfo)>)
    requires
        awards@.len() <= u32::MAX,
    ensures
        r is Ok <==> claim_fits(*info, balance as int, awards@) && (caught_up(
            *info,
            awards@.len() as int,
        ) ==> held_at(*info, balance as int, now as int) <= u128::MAX),
        r is Err ==> r->Err_0 == Error::ZeroDivisor || r->Err_0 == Error::Overflow,
        r matches Ok((claim, next)) ==> claim == claim_of(*info, balance as int, awards@) && next
            == claim_step(*info, balance as int, awards@.len() as int, now as int),
{
    let (claim, index) = scan_awards(info, balance, awards)?;
    if index < awards.len() {
        return Ok((claim, CoindayInfo { last_index: index as u32, ..*info }));
    }
    let held = project_coinday(info, balance, now)?;
    Ok((claim, CoindayInfo { amount: held, timestamp: now, last_index: index as u32 }))
}

/// Total coin-days at `now` with `supply` tokens held since the last update, less
/// the `decrease` removed by a debit.
pub fn advance_total(total: &TotalCoinday, supply: u128, now: u128, decrease: u128) -> (r: Result<
    TotalCoinday,
>)
    ensures
        r is Ok <==> projected(total.amount as int, total.timestamp as int, supply as int, now as int)
            <= u128::MAX && advanced_total(*total, supply as int, now as int, decrease as int) >= 0,
        r is Err ==> r == Err::<TotalCoinday, Error>(Error::Overflow),
        r matches Ok(t) ==> t.amount == advanced_total(*total, supply as int, now as int, decrease as int)
            && t.timestamp == now,
{
    let info = CoindayInfo { amount: total.amount, timestamp: total.timestamp, last_index: 0 };
    let grown = project_coinday(&info, supply, now)?;
    if grown < decrease {
        return Err(Error::Overflow);
    }
    Ok(TotalCoinday { amount: grown - decrease, timestamp: now })
}

/// The coin-day accumulator: per-account coin-days, the total, and the award log.
#[derive(Clone)]
pub struct CoindayAccumulator {
    infos: HashMap<AccountId, CoindayInfo>,
    total: TotalCoinday,
    awards: Vec<AwardEntry>,
    owner: AccountId,
}

impl CoindayAccumulator {
    /// Coin-day state of every account; an absent account holds `zero_info()`.
    pub closed spec fn infos(&self) -> Map<AccountId, CoindayInfo> {
        self.infos@
    }

    pub closed spec fn info_of(&self, a: AccountId) -> CoindayInfo {
        if self.infos@.contains_key(a) {
            self.infos@[a]
        } else {
            zero_info()
        }
    }

    pub closed spec fn total_spec(&self) -> TotalCoinday {
        self.total
    }

    pub closed spec fn awards_spec(&self) -> Seq<AwardEntry> {
        self.awards@
    }

    pub closed spec fn owner_spec(&self) -> AccountId {
        self.owner
    }

    /// The award log can be indexed by a `u32` cursor.
    pub open spec fn wf(&self) -> bool {
        self.awards_spec().len() <= u32::MAX
    }

    pub fn new(owner: AccountId) -> (r: Self)
        ensures
            r.wf(),
            r.owner_spec() == owner,
            forall|a: AccountId| #[trigger] r.info_of(a) == zero_info(),
            r.total_spec() == (TotalCoinday { amount: 0, timestamp: 0 }),
            r.awards_spec() == Seq::<AwardEntry>::empty(),
    {
        CoindayAccumulator {
            infos: HashMap::new(),
            total: TotalCoinday { amount: 0, timestamp: 0 },
            awards: Vec::new(),
            owner,
        }
    }

    pub fn owner(&self) -> (r: AccountId)
        ensures
            r == self.owner_spec(),
    {
        self.owner
    }

    pub fn get_coinday(&self, account: AccountId) -> (r: CoindayInfo)
        ensures
            r == self.info_of(account),
    {
        match self.infos.get(&account) {
            Some(info) => *info,
            None => CoindayInfo { amount: 0, timestamp: 0, last_index: 0 },
        }
    }

    pub fn total_coinday(&self) -> (r: TotalCoinday)
        ensures
            r == self.total_spec(),
    {
        self.total
    }

    pub fn awards(&self) -> (r: &Vec<AwardEntry>)
        ensures
            r@ == self.awards_spec(),
    {
        &self.awards
    }

    pub fn award_count(&self) -> (r: usize)
        ensures
            r == self.awards_spec().len(),
    {
        self.awards.len()
    }

    fn check_owner(&self, caller: AccountId) -> (r: Result<()>)
        ensures
            r is Ok <==> caller == self.owner_spec(),
            r is Err ==> r == Err::<(), Error>(Error::OnlyOwnerAccess),
    {
        if caller != self.owner {
            return Err(Error::OnlyOwnerAccess);
        }
        Ok(())
    }

    /// Overwrites the coin-day state of `account` (owner only).
    pub fn update_coindays(&mut self, caller: AccountId, account: AccountId, info: CoindayInfo) -> (r:
        Result<()>)
        requires
            old(self).wf(),
        ensures
            final(self).wf(),
            r is Ok <==> caller == old(self).owner_spec(),
            r is Err ==> r == Err::<(), Error>(Error::OnlyOwnerAccess) && *final(self) == *old(
                self,
            ),
            r is Ok ==> {
                &&& final(self).infos() == old(self).infos().insert(account, info)
                &&& forall|a: AccountId| #[trigger]
                    final(self).info_of(a) == if a == account {
                        info
                    } else {
                        old(self).info_of(a)
                    }
                &&& final(self).total_spec() == old(self).total_spec()
                &&& final(self).awards_spec() == old(self).awards_spec()
                &&& final(self).owner_spec() == old(self).owner_spec()
            },
    {
        self.check_owner(caller)?;
        self.infos.insert(account, info);
        Ok(())
    }

    /// Overwrites the total coin-days (owner only).
    pub fn update_total_coinday(&mut self, caller: AccountId, total: TotalCoinday) -> (r: Result<()>)
        requires
            old(self).wf(),
        ensures
            final(self).wf(),
            r is Ok <==> caller == old(self).owner_spec(),
            r is Err ==> r == Err::<(), Error>(Error::OnlyOwnerAccess) && *final(self) == *old(
                self,
            ),
            r is Ok ==> {
                &&& final(self).total_spec() == total
                &&& final(self).infos() == old(self).infos()
                &&& forall|a: AccountId| #[trigger]
                    final(self).info_of(a) == old(self).info_of(a)
                &&& final(self).awards_spec() == old(self).awards_spec()
                &&& final(self).owner_spec() == old(self).owner_spec()
            },
    {
        self.check_owner(caller)?;
        self.total = total;
        Ok(())
    }

    /// Appends an award entry to the log (owner only). The log is append-only.
    pub fn update_awards(&mut self, caller: AccountId, amount: u128, total_coinday: u128, now: u128) -> (r:
        Result<()>)
        requires
            old(self).wf(),
        ensures
            final(self).wf(),
            r is Ok <==> caller == old(self).owner_spec() && old(self).awards_spec().len()
                < u32::MAX,
            r is Err ==> *final(self) == *old(self),
            r is Err ==> (r == Err::<(), Error>(Error::OnlyOwnerAccess) <==> caller != old(
                self,
            ).owner_spec()),
            r is Ok ==> {
                &&& final(self).awards_spec() == old(self).awards_spec().push(
                    AwardEntry { amount, total_coinday, timestamp: now },
                )
                &&& final(self).infos() == old(self).infos()
                &&& forall|a: AccountId| #[trigger]
                    final(self).info_of(a) == old(self).info_of(a)
                &&& final(self).total_spec() == old(self).total_spec()
                &&& final(self).owner_spec() == old(self).owner_spec()
            },
    {
        self.check_owner(caller)?;
        if self.awards.len() >= u32::MAX as usize {
            return Err(Error::Overflow);
        }
        self.awards.push(AwardEntry { amount, total_coinday, timestamp: now });
        Ok(())
    }

    /// Hands ownership to `new_owner` (owner only).
    pub fn transfer_ownership(&mut self, caller: AccountId, new_owner: AccountId) -> (r: Result<()>)
        ensures
            r is Ok <==> caller == old(self).owner_spec(),
            r is Err ==> r == Err::<(), Error>(Error::OnlyOwnerAccess) && *final(self) == *old(
                self,
            ),
            r is Ok ==> {
                &&& final(self).owner_spec() == new_owner
                &&& final(self).infos() == old(self).infos()
                &&& final(self).total_spec() == old(self).total_spec()
                &&& final(self).awards_spec() == old(self).awards_spec()
                &&& final(self).wf() == old(self).wf()
            },
    {
        self.check_owner(caller)?;
        self.owner = new_owner;
        Ok(())
    }
}

} // verus!
