use vstd::prelude::*;

use crate::coinday::{advanced_total, elapsed, AwardEntry};
use crate::error::{Error, Result};
use crate::oracle::Oracle;
use crate::relp::{awards_caught_up, move_fits, RELP};
use crate::AccountId;

verus! {

/// Default minimum time between two expansions or two contractions: one day in milliseconds.
pub const ADJUST_GAP: u128 = 86_400_000;

/// Collateral value that one expansion aims to raise.
pub const EXPAND_TARGET_VALUE: u128 = 100_000_000;

/// Synthetic value that one contraction aims to buy back.
pub const CONTRACT_TARGET_VALUE: u128 = 100_000_000;

/// The four reserve tranches.
#[derive(Debug, Clone, Copy, PartialEq, Eq, Structural)]
pub struct Reserves {
    /// Collateral (ELP) reserve.
    pub reserve: u128,
    /// Collateral (ELP) risk reserve.
    pub risk_reserve: u128,
    /// Synthetic (ELC) reserve.
    pub elc_reserve: u128,
    /// Synthetic (ELC) risk reserve.
    pub elc_risk_reserve: u128,
}

/// Liquidity was added.
#[derive(Debug, Clone, Copy, PartialEq, Eq, Structural)]
pub struct AddLiquidity {
    pub sender: AccountId,
    pub elp_amount: u128,
    pub relp_amount: u128,
    pub elc_amount: u128,
}

/// Liquidity was removed.
#[derive(Debug, Clone, Copy, PartialEq, Eq, Structural)]
pub struct RemoveLiquidity {
    pub sender: AccountId,
    pub relp_amount: u128,
    pub elc_amount: u128,
    pub elp_amount: u128,
}

/// Synthetic tokens were swapped for collateral during an expansion.
#[derive(Debug, Clone, Copy, PartialEq, Eq, Structural)]
pub struct ExpandEvent {
    /// Taken from the synthetic reserve.
    pub elc_reserve_amount: u128,
    /// Taken from the synthetic risk reserve.
    pub elc_risk_amount: u128,
    /// Newly issued.
    pub elc_raise_amount: u128,
    /// Collateral received.
    pub elp_amount: u128,
}

/// Collateral was swapped for synthetic tokens during a contraction.
#[derive(Debug, Clone, Copy, PartialEq, Eq, Structural)]
pub struct ContractEvent {
    pub elc_risk_reserve_source: u128,
    pub elc_reserve_source: u128,
    pub risk_reserve_consumed: u128,
    pub reserve_consumed: u128,
}

/// What an expansion swaps and issues.
#[derive(Debug, Clone, Copy, PartialEq, Eq, Structural)]
pub struct ExpansionPlan {
    /// Synthetic tokens of the two reserves to swap for collateral.
    pub reserve_swap: u128,
    /// The reserves fall short and new synthetic tokens are issued.
    pub issues: bool,
    /// Issued tokens awarded to share holders by coin-day.
    pub issue_reward: u128,
    /// Issued tokens swapped for collateral.
    pub issue_swap: u128,
}

/// What a contraction swaps.
#[derive(Debug, Clone, Copy, PartialEq, Eq, Structural)]
pub struct ContractionPlan {
    /// Collateral to swap for synthetic tokens.
    pub elp_amount: u128,
    /// It comes from the risk reserve rather than the reserve.
    pub from_risk: bool,
}

pub open spec fn clamp_ratio(x: int) -> int {
    if x > 100 {
        100
    } else if x < 1 {
        1
    } else {
        x
    }
}

/// Liability ratio, in percent, of synthetic tokens worth `elc_value` against a
/// collateral reserve worth `elp_value`; an empty reserve counts as infinitely
/// outweighed unless there is nothing to back.
pub open spec fn ratio_of(elc_value: int, elp_value: int) -> int {
    if elp_value == 0 {
        if elc_value == 0 {
            1
        } else {
            100
        }
    } else {
        clamp_ratio(elc_value * 100 / elp_value)
    }
}

/// Price of one share token: the collateral value not owed to synthetic holders,
/// per share; the collateral price while there are no shares.
pub open spec fn relp_price_of(elp_value: int, elc_value: int, elp_price: int, relp_supply: int) -> int {
    if relp_supply > 0 {
        (elp_value - elc_value) / relp_supply
    } else {
        elp_price
    }
}

/// Share and synthetic tokens minted for a deposit worth `value` at liability
/// ratio `lr`, share price `relp_price` and synthetic price `elc_price`.
pub open spec fn liquidity_of(value: int, lr: int, relp_price: int, elc_price: int) -> (int, int) {
    if lr < 30 {
        (value * (100 - lr) / relp_price / 100, value * lr / elc_price / 100)
    } else {
        (value / relp_price, 0)
    }
}

/// Reserves after `elc_amount` synthetic tokens, of which the reserve held
/// `elc_reserve` and the risk reserve the rest, were swapped for `elp_amount`
/// collateral, with the event that records it. Collateral goes to the collateral
/// tranches in proportion to the synthetic tranches consumed.
pub open spec fn expansion_swap_of(r: Reserves, elc_amount: int, elc_reserve: int, elc_risk: int, elp_amount: int) -> (
    Reserves,
    ExpandEvent,
) {
    if elc_reserve >= elc_amount {
        (
            Reserves {
                elc_reserve: (r.elc_reserve - elc_amount) as u128,
                reserve: (r.reserve + elp_amount) as u128,
                ..r
            },
            ExpandEvent {
                elc_reserve_amount: elc_amount as u128,
                elc_risk_amount: 0,
                elc_raise_amount: 0,
                elp_amount: elp_amount as u128,
            },
        )
    } else {
        let delta = elc_reserve * elp_amount / elc_amount;
        let tranche = elc_risk > 0 || elc_reserve > 0;
        (
            Reserves {
                elc_reserve: if tranche {
                    (r.elc_reserve - elc_reserve) as u128
                } else {
                    r.elc_reserve
                },
                elc_risk_reserve: if tranche {
                    (r.elc_risk_reserve - (elc_amount - elc_reserve)) as u128
                } else {
                    r.elc_risk_reserve
                },
                reserve: (r.reserve + delta) as u128,
                risk_reserve: (r.risk_reserve + elp_amount - delta) as u128,
            },
            ExpandEvent {
                elc_reserve_amount: if tranche {
                    elc_reserve as u128
                } else {
                    0
                },
                elc_risk_amount: if tranche {
                    (elc_amount - elc_reserve) as u128
                } else {
                    0
                },
                elc_raise_amount: if tranche {
                    0
                } else {
                    elc_amount as u128
                },
                elp_amount: elp_amount as u128,
            },
        )
    }
}

/// The swap of `expansion_swap_of` can be applied to `r` in 128 bits.
pub open spec fn expansion_swap_fits(r: Reserves, elc_amount: int, elc_reserve: int, elc_risk: int, elp_amount: int) -> bool {
    if elc_reserve >= elc_amount {
        r.elc_reserve >= elc_amount && r.reserve + elp_amount <= u128::MAX
    } else {
        let delta = elc_reserve * elp_amount / elc_amount;
        let tranche = elc_risk > 0 || elc_reserve > 0;
        &&& tranche ==> r.elc_reserve >= elc_reserve && r.elc_risk_reserve >= elc_amount - elc_reserve
        &&& elc_reserve * elp_amount <= u128::MAX
        &&& r.reserve + delta <= u128::MAX
        &&& r.risk_reserve + elp_amount - delta <= u128::MAX
    }
}

/// What an expansion swaps and issues, given reserves `r`, synthetic price
/// `elc_price` above the target `target`, synthetic supply `elc_supply`, and the
/// collateral value `value` of one synthetic token in the swap venue: the
/// reserves alone when they cover the swap; otherwise all of them, and an
/// issuance proportional to `(elc_price - target) / target` of the supply, capped
/// at twenty times the shortfall so that the 5% swapped never exceeds it, of which 95%
/// goes to share holders by coin-day and 5% is swapped.
pub open spec fn expansion_plan_of(r: Reserves, elc_price: int, elc_supply: int, target: int, value: int) -> ExpansionPlan {
    let delta = EXPAND_TARGET_VALUE as int / value;
    let all = r.elc_reserve + r.elc_risk_reserve;
    if all >= delta {
        ExpansionPlan { reserve_swap: delta as u128, issues: false, issue_reward: 0, issue_swap: 0 }
    } else {
        let theory = (elc_price - target) * elc_supply / target;
        let remain = (delta - all) * 20;
        let issue = if theory > remain {
            remain
        } else {
            theory
        };
        ExpansionPlan {
            reserve_swap: all as u128,
            issues: true,
            issue_reward: (issue * 95 / 100) as u128,
            issue_swap: (issue * 5 / 100) as u128,
        }
    }
}

/// What a contraction swaps, given reserves `r` and the synthetic value `value` of
/// one collateral token in the swap venue: from the risk reserve, up to its
/// balance, while it holds anything; otherwise up to two percent of the reserve.
pub open spec fn contraction_plan_of(r: Reserves, value: int) -> ContractionPlan {
    let delta = CONTRACT_TARGET_VALUE as int / value;
    if r.risk_reserve > 0 {
        ContractionPlan {
            elp_amount: if delta > r.risk_reserve {
                r.risk_reserve
            } else {
                delta as u128
            },
            from_risk: true,
        }
    } else {
        ContractionPlan {
            elp_amount: if delta > r.reserve / 50 {
                (r.reserve / 50) as u128
            } else {
                delta as u128
            },
            from_risk: false,
        }
    }
}

/// A deposit of `deposit` collateral can be priced in 128 bits, with a positive
/// share price, at collateral price `elp_price`, synthetic price `elc_price`,
/// collateral reserve `reserve`, and `elc_supply` synthetic and `relp_supply`
/// share tokens out.
pub open spec fn liquidity_fits(
    elp_price: int,
    elc_price: int,
    reserve: int,
    elc_supply: int,
    relp_supply: int,
    deposit: int,
) -> bool {
    let elp_value = elp_price * reserve;
    let elc_value = elc_supply * elc_price;
    let lr = ratio_of(elc_value, elp_value);
    &&& elp_price > 0 && elc_price > 0
    &&& elc_value * 100 <= u128::MAX && elp_value <= u128::MAX
    &&& relp_supply > 0 ==> elc_value <= elp_value
    &&& relp_price_of(elp_value, elc_value, elp_price, relp_supply) > 0
    &&& elp_price * deposit <= u128::MAX
    &&& lr < 30 ==> elp_price * deposit * (100 - lr) <= u128::MAX && elp_price * deposit * lr
        <= u128::MAX
}

/// A redemption of `relp_amount` share tokens can be priced in 128 bits above a
/// liability ratio of 90 and below a full one.
pub open spec fn redemption_fits(
    elp_price: int,
    elc_price: int,
    reserve: int,
    elc_supply: int,
    relp_supply: int,
    relp_amount: int,
) -> bool {
    let elp_value = elp_price * reserve;
    let elc_value = elc_supply * elc_price;
    let lr = ratio_of(elc_value, elp_value);
    let price = relp_price_of(elp_value, elc_value, elp_price, relp_supply);
    &&& elp_price > 0 && elc_price > 0
    &&& elc_value * 100 <= u128::MAX && elp_value <= u128::MAX
    &&& 90 < lr < 100
    &&& relp_supply > 0 ==> elc_value <= elp_value
    &&& relp_amount * price <= u128::MAX
    &&& relp_amount * price * lr <= u128::MAX
}

/// Synthetic tokens burnt by a redemption of `relp_amount` share tokens.
pub open spec fn redemption_elc(elc_price: int, lr: int, price: int, relp_amount: int) -> int {
    relp_amount * price * lr / elc_price / (100 - lr)
}

/// Collateral returned by a redemption of `relp_amount` share tokens.
pub open spec fn redemption_elp(elp_price: int, lr: int, price: int, relp_amount: int) -> int {
    relp_amount * price / elp_price / (100 - lr) / 100
}

/// The expansion plan of `expansion_plan_of` can be computed in 128 bits.
pub open spec fn expansion_fits(r: Reserves, elc_price: int, elc_supply: int, target: int, value: int) -> bool {
    &&& value <= u128::MAX && value > 0
    &&& r.elc_reserve + r.elc_risk_reserve <= u128::MAX
    &&& r.elc_reserve + r.elc_risk_reserve < EXPAND_TARGET_VALUE as int / value ==> {
        let theory = (elc_price - target) * elc_supply / target;
        let remain = (EXPAND_TARGET_VALUE as int / value - (r.elc_reserve + r.elc_risk_reserve)) * 20;
        let issue = if theory > remain {
            remain
        } else {
            theory
        };
        &&& (elc_price - target) * elc_supply <= u128::MAX
        &&& target > 0
        &&& issue * 95 <= u128::MAX
    }
}

/// Multiplies, or fails with `Overflow`.
fn checked_product(a: u128, b: u128) -> (r: Result<u128>)
    ensures
        r is Ok <==> a * b <= u128::MAX,
        r matches Ok(x) ==> x == a * b,
        r is Err ==> r == Err::<u128, Error>(Error::Overflow),
{
    match a.checked_mul(b) {
        Some(x) => Ok(x),
        None => Err(Error::Overflow),
    }
}

/// Adds, or fails with `Overflow`.
fn checked_sum(a: u128, b: u128) -> (r: Result<u128>)
    ensures
        r is Ok <==> a + b <= u128::MAX,
        r matches Ok(x) ==> x == a + b,
        r is Err ==> r == Err::<u128, Error>(Error::Overflow),
{
    match a.checked_add(b) {
        Some(x) => Ok(x),
        None => Err(Error::Overflow),
    }
}

/// Divides, or fails with `ZeroDivisor`.
fn checked_quotient(a: u128, b: u128) -> (r: Result<u128>)
    ensures
        r is Ok <==> b > 0,
        r matches Ok(x) ==> x == a / b,
        r is Err ==> r == Err::<u128, Error>(Error::ZeroDivisor),
{
    if b == 0 {
        return Err(Error::ZeroDivisor);
    }
    Ok(a / b)
}

/// Swaps `elc_amount` synthetic tokens, of which the reserve held `elc_reserve`
/// and the risk reserve the rest, for `elp_amount` collateral.
pub fn swap_elp_with_elc(
    r: &Reserves,
    elc_amount: u128,
    elc_reserve: u128,
    elc_risk: u128,
    elp_amount: u128,
) -> (res: Result<(Reserves, ExpandEvent)>)
    ensures
        res is Ok <==> expansion_swap_fits(
            *r,
            elc_amount as int,
            elc_reserve as int,
            elc_risk as int,
            elp_amount as int,
        ),
        res is Err ==> res->Err_0 == Error::Overflow || res->Err_0 == Error::InsufficientSupply,
        res matches Ok(out) ==> out == expansion_swap_of(
            *r,
            elc_amount as int,
            elc_reserve as int,
            elc_risk as int,
            elp_amount as int,
        ),
{
    if elc_reserve >= elc_amount {
        if r.elc_reserve < elc_amount {
            return Err(Error::InsufficientSupply);
        }
        let reserve = checked_sum(r.reserve, elp_amount)?;
        let next = Reserves { elc_reserve: r.elc_reserve - elc_amount, reserve, ..*r };
        let event = ExpandEvent {
            elc_reserve_amount: elc_amount,
            elc_risk_amount: 0,
            elc_raise_amount: 0,
            elp_amount,
        };
        return Ok((next, event));
    }
    let tranche = elc_risk > 0 || elc_reserve > 0;
    let taken_risk = elc_amount - elc_reserve;
    if tranche && (r.elc_reserve < elc_reserve || r.elc_risk_reserve < taken_risk) {
        return Err(Error::InsufficientSupply);
    }
    let delta = checked_product(elc_reserve, elp_amount)? / elc_amount;
    proof {
        assert(delta <= elp_amount) by (nonlinear_arith)
            requires
                delta == (elc_reserve * elp_amount) as int / elc_amount as int,
                elc_reserve < elc_amount,
                elp_amount >= 0,
                elc_reserve >= 0,
        ;
    }
    let reserve = checked_sum(r.reserve, delta)?;
    let risk_reserve = checked_sum(r.risk_reserve, elp_amount - delta)?;
    let next = Reserves {
        elc_reserve: if tranche {
            r.elc_reserve - elc_reserve
        } else {
            r.elc_reserve
        },
        elc_risk_reserve: if tranche {
            r.elc_risk_reserve - taken_risk
        } else {
            r.elc_risk_reserve
        },
        reserve,
        risk_reserve,
    };
    let event = ExpandEvent {
        elc_reserve_amount: if tranche {
            elc_reserve
        } else {
            0
        },
        elc_risk_amount: if tranche {
            taken_risk
        } else {
            0
        },
        elc_raise_amount: if tranche {
            0
        } else {
            elc_amount
        },
        elp_amount,
    };
    Ok((next, event))
}

/// Reserves after `elp_amount` collateral of the tranche that `plan` names was
/// swapped for `elc_amount` synthetic tokens, which go to the matching synthetic
/// tranche, with the event that records it.
pub open spec fn contraction_swap_of(r: Reserves, from_risk: bool, elp_amount: int, elc_amount: int) -> (
    Reserves,
    ContractEvent,
) {
    if from_risk {
        (
            Reserves {
                elc_risk_reserve: (r.elc_risk_reserve + elc_amount) as u128,
                risk_reserve: (r.risk_reserve - elp_amount) as u128,
                ..r
            },
            ContractEvent {
                elc_risk_reserve_source: elc_amount as u128,
                elc_reserve_source: 0,
                risk_reserve_consumed: elp_amount as u128,
                reserve_consumed: 0,
            },
        )
    } else {
        (
            Reserves {
                elc_reserve: (r.elc_reserve + elc_amount) as u128,
                reserve: (r.reserve - elp_amount) as u128,
                ..r
            },
            ContractEvent {
                elc_risk_reserve_source: 0,
                elc_reserve_source: elc_amount as u128,
                risk_reserve_consumed: 0,
                reserve_consumed: elp_amount as u128,
            },
        )
    }
}

/// The swap of `contraction_swap_of` can be applied to `r`.
pub open spec fn contraction_swap_fits(r: Reserves, from_risk: bool, elp_amount: int, elc_amount: int) -> bool {
    if from_risk {
        r.risk_reserve >= elp_amount && r.elc_risk_reserve + elc_amount <= u128::MAX
    } else {
        r.reserve >= elp_amount && r.elc_reserve + elc_amount <= u128::MAX
    }
}

/// Swaps `elp_amount` collateral of the risk reserve (`from_risk`) or of the
/// reserve for `elc_amount` synthetic tokens.
pub fn swap_elc_with_elp(r: &Reserves, from_risk: bool, elp_amount: u128, elc_amount: u128) -> (res:
    Result<(Reserves, ContractEvent)>)
    ensures
        res is Ok <==> contraction_swap_fits(*r, from_risk, elp_amount as int, elc_amount as int),
        res is Err ==> res->Err_0 == Error::Overflow || res->Err_0 == Error::InsufficientSupply,
        res matches Ok(out) ==> out == contraction_swap_of(
            *r,
            from_risk,
            elp_amount as int,
            elc_amount as int,
        ),
{
    if from_risk {
        if r.risk_reserve < elp_amount {
            return Err(Error::InsufficientSupply);
        }
        let elc_risk_reserve = checked_sum(r.elc_risk_reserve, elc_amount)?;
        Ok((
            Reserves { elc_risk_reserve, risk_reserve: r.risk_reserve - elp_amount, ..*r },
            ContractEvent {
                elc_risk_reserve_source: elc_amount,
                elc_reserve_source: 0,
                risk_reserve_consumed: elp_amount,
                reserve_consumed: 0,
            },
        ))
    } else {
        if r.reserve < elp_amount {
            return Err(Error::InsufficientSupply);
        }
        let elc_reserve = checked_sum(r.elc_reserve, elc_amount)?;
        Ok((
            Reserves { elc_reserve, reserve: r.reserve - elp_amount, ..*r },
            ContractEvent {
                elc_risk_reserve_source: 0,
                elc_reserve_source: elc_amount,
                risk_reserve_consumed: 0,
                reserve_consumed: elp_amount,
            },
        ))
    }
}

/// An expansion can be planned at `now` by `s`: both prices are available, the
/// liability ratio is below 70, the synthetic price is above `target`, the
/// minimum interval since the last expansion has elapsed, and the plan can be
/// computed in 128 bits.
pub open spec fn expansion_ok(s: Stable, o: Oracle, elc_supply: int, target: int, elp_per_elc: int, now: int) -> bool {
    &&& o.elp_price_spec() > 0 && o.elc_price_spec() > 0
    &&& elc_supply * o.elc_price_spec() * 100 <= u128::MAX
    &&& o.elp_price_spec() * s.reserves_spec().reserve <= u128::MAX
    &&& ratio_of(elc_supply * o.elc_price_spec(), o.elp_price_spec() * s.reserves_spec().reserve) < 70
    &&& o.elc_price_spec() > target
    &&& elapsed(now, s.last_expand_spec() as int) >= s.gap_spec()
    &&& expansion_fits(
        s.reserves_spec(),
        o.elc_price_spec() as int,
        elc_supply,
        target,
        elp_per_elc * o.elp_price_spec(),
    )
}

/// The expansion that `s` plans.
pub open spec fn expansion_plan(s: Stable, o: Oracle, elc_supply: int, target: int, elp_per_elc: int) -> ExpansionPlan {
    expansion_plan_of(
        s.reserves_spec(),
        o.elc_price_spec() as int,
        elc_supply,
        target,
        elp_per_elc * o.elp_price_spec(),
    )
}

/// A contraction can be planned at `now` by `s`: both prices are available, the
/// synthetic price is below 98% of `target`, the minimum interval since the last
/// contraction has elapsed, and the quoted value is positive and fits in 128 bits.
pub open spec fn contraction_ok(s: Stable, o: Oracle, target: int, elc_per_elp: int, now: int) -> bool {
    &&& o.elp_price_spec() > 0 && o.elc_price_spec() > 0
    &&& target * 98 <= u128::MAX
    &&& o.elc_price_spec() < target * 98 / 100
    &&& elapsed(now, s.last_contract_spec() as int) >= s.gap_spec()
    &&& elc_per_elp * o.elc_price_spec() <= u128::MAX
    &&& elc_per_elp * o.elc_price_spec() > 0
}

/// The contraction that `s` plans.
pub open spec fn contraction_plan(s: Stable, o: Oracle, elc_per_elp: int) -> ContractionPlan {
    contraction_plan_of(s.reserves_spec(), elc_per_elp * o.elc_price_spec())
}

/// The reserve rebase controller.
#[derive(Clone)]
pub struct Stable {
    reserves: Reserves,
    last_expand_time: u128,
    last_contract_time: u128,
    adjust_gap: u128,
    account: AccountId,
    owner: AccountId,
}

impl Stable {
    pub closed spec fn reserves_spec(&self) -> Reserves {
        self.reserves
    }

    pub closed spec fn last_expand_spec(&self) -> u128 {
        self.last_expand_time
    }

    pub closed spec fn last_contract_spec(&self) -> u128 {
        self.last_contract_time
    }

    pub closed spec fn gap_spec(&self) -> u128 {
        self.adjust_gap
    }

    /// The controller's own account, which must own the share ledger.
    pub closed spec fn account_spec(&self) -> AccountId {
        self.account
    }

    pub closed spec fn owner_spec(&self) -> AccountId {
        self.owner
    }

    /// An empty controller at `now`, owned by `caller` and acting as `account`.
    pub fn new(caller: AccountId, account: AccountId, now: u128) -> (r: Self)
        ensures
            r.owner_spec() == caller,
            r.reserves_spec() == (Reserves {
                reserve: 0,
                risk_reserve: 0,
                elc_reserve: 0,
                elc_risk_reserve: 0,
            }),
            r.last_expand_spec() == now,
            r.last_contract_spec() == now,
            r.gap_spec() == ADJUST_GAP,
            r.account_spec() == account,
    {
        Stable {
            reserves: Reserves { reserve: 0, risk_reserve: 0, elc_reserve: 0, elc_risk_reserve: 0 },
            last_expand_time: now,
            last_contract_time: now,
            adjust_gap: ADJUST_GAP,
            account,
            owner: caller,
        }
    }

    pub fn owner(&self) -> (r: AccountId)
        ensures
            r == self.owner_spec(),
    {
        self.owner
    }

    pub fn only_owner(&self, caller: AccountId) -> (r: Result<()>)
        ensures
            r is Ok <==> caller == self.owner_spec(),
            r is Err ==> r == Err::<(), Error>(Error::OnlyOwnerAccess),
    {
        if caller != self.owner {
            return Err(Error::OnlyOwnerAccess);
        }
        Ok(())
    }

    /// Hands ownership to `new_owner` (owner only).
    pub fn transfer_ownership(&mut self, caller: AccountId, new_owner: AccountId) -> (r: Result<()>)
        ensures
            r is Ok <==> caller == old(self).owner_spec(),
            r is Err ==> r == Err::<(), Error>(Error::OnlyOwnerAccess) && *final(self) == *old(self),
            r is Ok ==> final(self).owner_spec() == new_owner && final(self).reserves_spec() == old(
                self,
            ).reserves_spec() && final(self).last_expand_spec() == old(self).last_expand_spec()
                && final(self).last_contract_spec() == old(self).last_contract_spec()
                && final(self).gap_spec() == old(self).gap_spec() && final(self).account_spec()
                == old(self).account_spec(),
    {
        self.only_owner(caller)?;
        self.owner = new_owner;
        Ok(())
    }

    pub fn adjust_gap(&self) -> (r: u128)
        ensures
            r == self.gap_spec(),
    {
        self.adjust_gap
    }

    pub fn reserves(&self) -> (r: Reserves)
        ensures
            r == self.reserves_spec(),
    {
        self.reserves
    }

    pub fn elp_reserve(&self) -> (r: u128)
        ensures
            r == self.reserves_spec().reserve,
    {
        self.reserves.reserve
    }

    pub fn elp_risk_reserve(&self) -> (r: u128)
        ensures
            r == self.reserves_spec().risk_reserve,
    {
        self.reserves.risk_reserve
    }

    pub fn elc_reserve(&self) -> (r: u128)
        ensures
            r == self.reserves_spec().elc_reserve,
    {
        self.reserves.elc_reserve
    }

    pub fn elc_risk_reserve(&self) -> (r: u128)
        ensures
            r == self.reserves_spec().elc_risk_reserve,
    {
        self.reserves.elc_risk_reserve
    }

    /// Liability ratio in percent, clamped to `1 ..= 100`, with `elc_supply`
    /// synthetic tokens out.
    pub fn liability_ratio(&self, oracle: &Oracle, elc_supply: u128) -> (r: Result<u128>)
        ensures
            r == Err::<u128, Error>(Error::PriceUnavailable) <==> oracle.elp_price_spec() == 0
                || oracle.elc_price_spec() == 0,
            r is Ok <==> oracle.elp_price_spec() > 0 && oracle.elc_price_spec() > 0 && elc_supply
                * oracle.elc_price_spec() * 100 <= u128::MAX && oracle.elp_price_spec()
                * self.reserves_spec().reserve <= u128::MAX,
            r is Err ==> r->Err_0 == Error::PriceUnavailable || r->Err_0 == Error::Overflow,
            r matches Ok(lr) ==> lr == ratio_of(
                elc_supply * oracle.elc_price_spec(),
                oracle.elp_price_spec() * self.reserves_spec().reserve,
            ),
    {
        let elp_price = oracle.elp_price();
        let elc_price = oracle.elc_price();
        if elp_price == 0 || elc_price == 0 {
            return Err(Error::PriceUnavailable);
        }
        let elc_value = checked_product(elc_supply, elc_price)?;
        let scaled = checked_product(elc_value, 100)?;
        let elp_value = checked_product(elp_price, self.reserves.reserve)?;
        if elp_value == 0 {
            return Ok(if elc_value == 0 {
                1
            } else {
                100
            });
        }
        let lr = scaled / elp_value;
        if lr > 100 {
            Ok(100)
        } else if lr < 1 {
            Ok(1)
        } else {
            Ok(lr)
        }
    }

    /// Price of one share token with `elc_supply` synthetic and `relp_supply` share tokens out.
    pub fn relp_price(&self, oracle: &Oracle, elc_supply: u128, relp_supply: u128) -> (r: Result<u128>)
        ensures
            r == Err::<u128, Error>(Error::PriceUnavailable) <==> oracle.elp_price_spec() == 0
                || oracle.elc_price_spec() == 0,
            r is Ok <==> oracle.elp_price_spec() > 0 && oracle.elc_price_spec() > 0 && (relp_supply
                > 0 ==> oracle.elp_price_spec() * self.reserves_spec().reserve <= u128::MAX
                && elc_supply * oracle.elc_price_spec() <= oracle.elp_price_spec()
                * self.reserves_spec().reserve),
            r is Err ==> r->Err_0 == Error::PriceUnavailable || r->Err_0 == Error::Overflow,
            r matches Ok(p) ==> p == relp_price_of(
                oracle.elp_price_spec() * self.reserves_spec().reserve,
                elc_supply * oracle.elc_price_spec(),
                oracle.elp_price_spec() as int,
                relp_supply as int,
            ),
    {
        let elp_price = oracle.elp_price();
        let elc_price = oracle.elc_price();
        if elp_price == 0 || elc_price == 0 {
            return Err(Error::PriceUnavailable);
        }
        if relp_supply == 0 {
            return Ok(elp_price);
        }
        let elp_value = checked_product(elp_price, self.reserves.reserve)?;
        if elc_supply.checked_mul(elc_price).is_none() {
            return Err(Error::Overflow);
        }
        let elc_value = elc_supply * elc_price;
        if elp_value < elc_value {
            return Err(Error::Overflow);
        }
        Ok((elp_value - elc_value) / relp_supply)
    }

    /// Share and synthetic tokens owed for a deposit of `deposit` collateral, with
    /// `elc_supply` synthetic and `relp_supply` share tokens out: below a liability
    /// ratio of 30 the deposit's value is split between the two in the proportion
    /// `100 - lr` to `lr`; otherwise it buys share tokens alone.
    pub fn compute_liquidity(&self, oracle: &Oracle, elc_supply: u128, relp_supply: u128, deposit: u128) -> (r:
        Result<(u128, u128)>)
        ensures
            r matches Ok((relp_tokens, elc_tokens)) ==> {
                let lr = ratio_of(
                    elc_supply * oracle.elc_price_spec(),
                    oracle.elp_price_spec() * self.reserves_spec().reserve,
                );
                let price = relp_price_of(
                    oracle.elp_price_spec() * self.reserves_spec().reserve,
                    elc_supply * oracle.elc_price_spec(),
                    oracle.elp_price_spec() as int,
                    relp_supply as int,
                );
                &&& price > 0
                &&& (relp_tokens as int, elc_tokens as int) == liquidity_of(
                    oracle.elp_price_spec() * deposit,
                    lr,
                    price,
                    oracle.elc_price_spec() as int,
                )
            },
            r == Err::<(u128, u128), Error>(Error::PriceUnavailable) <==> oracle.elp_price_spec()
                == 0 || oracle.elc_price_spec() == 0,
            r is Ok <==> liquidity_fits(
                oracle.elp_price_spec() as int,
                oracle.elc_price_spec() as int,
                self.reserves_spec().reserve as int,
                elc_supply as int,
                relp_supply as int,
                deposit as int,
            ),
            r is Err ==> r->Err_0 == Error::PriceUnavailable || r->Err_0 == Error::Overflow
                || r->Err_0 == Error::ZeroDivisor,
            r is Err && r->Err_0 == Error::ZeroDivisor ==> relp_price_of(
                oracle.elp_price_spec() * self.reserves_spec().reserve,
                elc_supply * oracle.elc_price_spec(),
                oracle.elp_price_spec() as int,
                relp_supply as int,
            ) == 0,
    {
        let price = self.relp_price(oracle, elc_supply, relp_supply)?;
        let lr = self.liability_ratio(oracle, elc_supply)?;
        if price == 0 {
            return Err(Error::ZeroDivisor);
        }
        let elp_price = oracle.elp_price();
        let elc_price = oracle.elc_price();
        let value = checked_product(elp_price, deposit)?;
        if lr < 30 {
            let relp_tokens = checked_product(value, 100 - lr)? / price / 100;
            let elc_tokens = checked_product(value, lr)? / elc_price / 100;
            Ok((relp_tokens, elc_tokens))
        } else {
            Ok((value / price, 0))
        }
    }

    /// Deposit of `deposit` collateral by `caller` at `now`: mints the share tokens
    /// owed on `relp` and adds the deposit to the reserve. Returns the event, whose
    /// synthetic amount the synthetic token mints to `caller`, and the award share
    /// that `caller` claimed on the ledger.
    pub fn add_liquidity(
        &mut self,
        caller: AccountId,
        deposit: u128,
        oracle: &Oracle,
        elc_supply: u128,
        relp: &mut RELP,
        now: u128,
    ) -> (r: Result<(AddLiquidity, u128)>)
        requires
            old(relp).wf(),
        ensures
            final(relp).wf(),
            r is Err ==> *final(self) == *old(self) && *final(relp) == *old(relp),
            r == Err::<(AddLiquidity, u128), Error>(Error::PriceUnavailable) <==> oracle.elp_price_spec()
                == 0 || oracle.elc_price_spec() == 0,
            r is Ok <==> {
                let lr = ratio_of(
                    elc_supply * oracle.elc_price_spec(),
                    oracle.elp_price_spec() * old(self).reserves_spec().reserve,
                );
                let price = relp_price_of(
                    oracle.elp_price_spec() * old(self).reserves_spec().reserve,
                    elc_supply * oracle.elc_price_spec(),
                    oracle.elp_price_spec() as int,
                    old(relp).supply_spec() as int,
                );
                let shares = liquidity_of(
                    oracle.elp_price_spec() * deposit,
                    lr,
                    price,
                    oracle.elc_price_spec() as int,
                ).0;
                &&& liquidity_fits(
                    oracle.elp_price_spec() as int,
                    oracle.elc_price_spec() as int,
                    old(self).reserves_spec().reserve as int,
                    elc_supply as int,
                    old(relp).supply_spec() as int,
                    deposit as int,
                )
                &&& old(self).reserves_spec().reserve + deposit <= u128::MAX
                &&& old(self).account_spec() == old(relp).owner_spec()
                &&& shares > 0
                &&& awards_caught_up(*old(relp), caller)
                &&& move_fits(*old(relp), None, Some(caller), shares, now as int)
            },
            r matches Ok((event, _)) ==> {
                let lr = ratio_of(
                    elc_supply * oracle.elc_price_spec(),
                    oracle.elp_price_spec() * old(self).reserves_spec().reserve,
                );
                let price = relp_price_of(
                    oracle.elp_price_spec() * old(self).reserves_spec().reserve,
                    elc_supply * oracle.elc_price_spec(),
                    oracle.elp_price_spec() as int,
                    old(relp).supply_spec() as int,
                );
                &&& event.sender == caller
                &&& event.elp_amount == deposit
                &&& (event.relp_amount as int, event.elc_amount as int) == liquidity_of(
                    oracle.elp_price_spec() * deposit,
                    lr,
                    price,
                    oracle.elc_price_spec() as int,
                )
                &&& final(self).reserves_spec() == (Reserves {
                    reserve: (old(self).reserves_spec().reserve + deposit) as u128,
                    ..old(self).reserves_spec()
                })
                &&& final(relp).supply_spec() == old(relp).supply_spec() + event.relp_amount
                &&& final(relp).balance_spec(caller) == old(relp).balance_spec(caller)
                    + event.relp_amount
                &&& final(self).last_expand_spec() == old(self).last_expand_spec()
                &&& final(self).last_contract_spec() == old(self).last_contract_spec()
            },
    {
        let (relp_tokens, elc_tokens) = self.compute_liquidity(
            oracle,
            elc_supply,
            relp.total_supply(),
            deposit,
        )?;
        let reserve = checked_sum(self.reserves.reserve, deposit)?;
        let (_, claim) = relp.mint(self.account, caller, relp_tokens, now)?;
        self.reserves.reserve = reserve;
        Ok((
            AddLiquidity {
                sender: caller,
                elp_amount: deposit,
                relp_amount: relp_tokens,
                elc_amount: elc_tokens,
            },
            claim,
        ))
    }

    /// Redemption of `relp_amount` share tokens by `caller`, who holds `caller_elc`
    /// synthetic tokens, at `now`; allowed only above a liability ratio of 90. Burns
    /// the share tokens on `relp`, takes the collateral owed out of the reserve, and
    /// returns the event, whose synthetic amount the synthetic token burns from
    /// `caller` and whose collateral amount goes back to `caller`, with the award
    /// share that `caller` claimed on the ledger.
    pub fn remove_liquidity(
        &mut self,
        caller: AccountId,
        relp_amount: u128,
        caller_elc: u128,
        oracle: &Oracle,
        elc_supply: u128,
        relp: &mut RELP,
        now: u128,
    ) -> (r: Result<(RemoveLiquidity, u128)>)
        requires
            old(relp).wf(),
        ensures
            final(relp).wf(),
            r is Err ==> *final(self) == *old(self) && *final(relp) == *old(relp),
            r == Err::<(RemoveLiquidity, u128), Error>(Error::PriceUnavailable) <==> oracle.elp_price_spec()
                == 0 || oracle.elc_price_spec() == 0,
            r is Ok <==> {
                let lr = ratio_of(
                    elc_supply * oracle.elc_price_spec(),
                    oracle.elp_price_spec() * old(self).reserves_spec().reserve,
                );
                let price = relp_price_of(
                    oracle.elp_price_spec() * old(self).reserves_spec().reserve,
                    elc_supply * oracle.elc_price_spec(),
                    oracle.elp_price_spec() as int,
                    old(relp).supply_spec() as int,
                );
                &&& redemption_fits(
                    oracle.elp_price_spec() as int,
                    oracle.elc_price_spec() as int,
                    old(self).reserves_spec().reserve as int,
                    elc_supply as int,
                    old(relp).supply_spec() as int,
                    relp_amount as int,
                )
                &&& caller_elc >= redemption_elc(oracle.elc_price_spec() as int, lr, price, relp_amount as int)
                &&& old(self).reserves_spec().reserve >= redemption_elp(
                    oracle.elp_price_spec() as int,
                    lr,
                    price,
                    relp_amount as int,
                )
                &&& old(self).account_spec() == old(relp).owner_spec()
                &&& relp_amount > 0
                &&& old(relp).supply_spec() >= relp_amount
                &&& old(relp).free_spec(caller) >= relp_amount
                &&& awards_caught_up(*old(relp), caller)
                &&& move_fits(*old(relp), Some(caller), None, relp_amount as int, now as int)
            },
            r matches Ok((event, _)) ==> {
                let lr = ratio_of(
                    elc_supply * oracle.elc_price_spec(),
                    oracle.elp_price_spec() * old(self).reserves_spec().reserve,
                );
                let price = relp_price_of(
                    oracle.elp_price_spec() * old(self).reserves_spec().reserve,
                    elc_supply * oracle.elc_price_spec(),
                    oracle.elp_price_spec() as int,
                    old(relp).supply_spec() as int,
                );
                &&& lr > 90
                &&& event.sender == caller
                &&& event.relp_amount == relp_amount
                &&& event.elc_amount == redemption_elc(
                    oracle.elc_price_spec() as int,
                    lr,
                    price,
                    relp_amount as int,
                )
                &&& event.elp_amount == redemption_elp(
                    oracle.elp_price_spec() as int,
                    lr,
                    price,
                    relp_amount as int,
                )
                &&& event.elc_amount <= caller_elc
                &&& final(self).reserves_spec() == (Reserves {
                    reserve: (old(self).reserves_spec().reserve - event.elp_amount) as u128,
                    ..old(self).reserves_spec()
                })
                &&& final(relp).supply_spec() == old(relp).supply_spec() - relp_amount
                &&& final(relp).balance_spec(caller) == old(relp).balance_spec(caller) - relp_amount
            },
            r is Ok ==> ratio_of(
                elc_supply * oracle.elc_price_spec(),
                oracle.elp_price_spec() * old(self).reserves_spec().reserve,
            ) > 90,
    {
        let lr = self.liability_ratio(oracle, elc_supply)?;
        if lr <= 90 {
            return Err(Error::RatioOutOfRange);
        }
        let price = self.relp_price(oracle, elc_supply, relp.total_supply())?;
        let elp_price = oracle.elp_price();
        let elc_price = oracle.elc_price();
        let free = 100 - lr;
        let worth = checked_product(relp_amount, price)?;
        let elc_need = checked_quotient(checked_quotient(checked_product(worth, lr)?, elc_price)?, free)?;
        let elp_amount = checked_quotient(worth / elp_price, free)? / 100;
        if caller_elc < elc_need {
            return Err(Error::InsufficientFreeBalance);
        }
        if self.reserves.reserve < elp_amount {
            return Err(Error::InsufficientSupply);
        }
        let (_, claim) = relp.burn(self.account, caller, relp_amount, now)?;
        self.reserves.reserve = self.reserves.reserve - elp_amount;
        Ok((
            RemoveLiquidity { sender: caller, relp_amount, elc_amount: elc_need, elp_amount },
            claim,
        ))
    }

    /// Plans an expansion at `now` against the governance target price `target`,
    /// with `elc_supply` synthetic tokens out and `elp_per_elc` collateral quoted by
    /// the swap venue for one synthetic token. Requires a liability ratio below 70,
    /// a synthetic price above `target`, and the minimum interval elapsed since the
    /// last expansion. Changes nothing.
    pub fn plan_expansion(
        &self,
        oracle: &Oracle,
        elc_supply: u128,
        target: u128,
        elp_per_elc: u128,
        now: u128,
    ) -> (r: Result<ExpansionPlan>)
        ensures
            r == Err::<ExpansionPlan, Error>(Error::PriceUnavailable) <==> oracle.elp_price_spec()
                == 0 || oracle.elc_price_spec() == 0,
            r is Err ==> r->Err_0 == Error::PriceUnavailable || r->Err_0 == Error::RatioOutOfRange
                || r->Err_0 == Error::PriceOutOfBand || r->Err_0 == Error::IntervalNotElapsed
                || r->Err_0 == Error::Overflow || r->Err_0 == Error::ZeroDivisor,
            r is Ok <==> {
                &&& oracle.elp_price_spec() > 0 && oracle.elc_price_spec() > 0
                &&& elc_supply * oracle.elc_price_spec() * 100 <= u128::MAX
                &&& oracle.elp_price_spec() * self.reserves_spec().reserve <= u128::MAX
                &&& ratio_of(
                    elc_supply * oracle.elc_price_spec(),
                    oracle.elp_price_spec() * self.reserves_spec().reserve,
                ) < 70
                &&& oracle.elc_price_spec() > target
                &&& elapsed(now as int, self.last_expand_spec() as int) >= self.gap_spec()
                &&& expansion_fits(
                    self.reserves_spec(),
                    oracle.elc_price_spec() as int,
                    elc_supply as int,
                    target as int,
                    elp_per_elc * oracle.elp_price_spec(),
                )
            },
            r matches Ok(plan) ==> {
                &&& ratio_of(
                    elc_supply * oracle.elc_price_spec(),
                    oracle.elp_price_spec() * self.reserves_spec().reserve,
                ) < 70
                &&& oracle.elc_price_spec() > target
                &&& elapsed(now as int, self.last_expand_spec() as int) >= self.gap_spec()
                &&& plan == expansion_plan_of(
                    self.reserves_spec(),
                    oracle.elc_price_spec() as int,
                    elc_supply as int,
                    target as int,
                    elp_per_elc * oracle.elp_price_spec(),
                )
            },
            r == Err::<ExpansionPlan, Error>(Error::IntervalNotElapsed) ==> elapsed(
                now as int,
                self.last_expand_spec() as int,
            ) < self.gap_spec(),
            r == Err::<ExpansionPlan, Error>(Error::PriceOutOfBand) ==> oracle.elc_price_spec()
                <= target,
            r == Err::<ExpansionPlan, Error>(Error::RatioOutOfRange) ==> ratio_of(
                elc_supply * oracle.elc_price_spec(),
                oracle.elp_price_spec() * self.reserves_spec().reserve,
            ) >= 70,
    {
        let lr = self.liability_ratio(oracle, elc_supply)?;
        if lr >= 70 {
            return Err(Error::RatioOutOfRange);
        }
        let elp_price = oracle.elp_price();
        let elc_price = oracle.elc_price();
        if elc_price <= target {
            return Err(Error::PriceOutOfBand);
        }
        let gap = if now >= self.last_expand_time {
            now - self.last_expand_time
        } else {
            0
        };
        if gap < self.adjust_gap {
            return Err(Error::IntervalNotElapsed);
        }
        let value = checked_product(elp_per_elc, elp_price)?;
        let delta = checked_quotient(EXPAND_TARGET_VALUE, value)?;
        let all = checked_sum(self.reserves.elc_reserve, self.reserves.elc_risk_reserve)?;
        if all >= delta {
            return Ok(ExpansionPlan { reserve_swap: delta, issues: false, issue_reward: 0, issue_swap: 0 });
        }
        let theory = checked_quotient(checked_product(elc_price - target, elc_supply)?, target)?;
        let remain = (delta - all) * 20;
        let issue = if theory > remain {
            remain
        } else {
            theory
        };
        let issue_reward = checked_product(issue, 95)? / 100;
        let issue_swap = checked_product(issue, 5)? / 100;
        Ok(ExpansionPlan { reserve_swap: all, issues: true, issue_reward, issue_swap })
    }

    /// Expands at `now` (owner only): plans the expansion as `plan_expansion`
    /// does, from the prices of `oracle`, `elc_supply` synthetic tokens out, the
    /// governance target `target` and the quote `elp_per_elc`, failing as it fails,
    /// and records the swaps of that plan. The reserve swap brought
    /// `reserve_proceeds` collateral, which goes to the collateral tranches in
    /// proportion to the synthetic tranches consumed; an issuance appends its
    /// reward as an award entry on `relp`, and its swap brought `issue_proceeds`
    /// collateral, which goes to the risk reserve. Returns the plan and the events.
    pub fn expand_elc(
        &mut self,
        caller: AccountId,
        oracle: &Oracle,
        elc_supply: u128,
        target: u128,
        elp_per_elc: u128,
        reserve_proceeds: u128,
        issue_proceeds: u128,
        relp: &mut RELP,
        now: u128,
    ) -> (r: Result<(ExpansionPlan, ExpandEvent, Option<ExpandEvent>)>)
        requires
            old(relp).wf(),
        ensures
            final(relp).wf(),
            r is Err ==> *final(self) == *old(self) && *final(relp) == *old(relp),
            caller != old(self).owner_spec() ==> r == Err::<(ExpansionPlan, ExpandEvent, Option<ExpandEvent>), Error>(
                Error::OnlyOwnerAccess,
            ),
            r == Err::<(ExpansionPlan, ExpandEvent, Option<ExpandEvent>), Error>(Error::OnlyOwnerAccess) ==> caller
                != old(self).owner_spec() || old(relp).owner_spec() != old(self).account_spec(),
            caller == old(self).owner_spec() ==> (r == Err::<(ExpansionPlan, ExpandEvent, Option<ExpandEvent>), Error>(
                Error::PriceUnavailable,
            ) <==> oracle.elp_price_spec() == 0 || oracle.elc_price_spec() == 0),
            r == Err::<(ExpansionPlan, ExpandEvent, Option<ExpandEvent>), Error>(Error::IntervalNotElapsed) ==> elapsed(
                now as int,
                old(self).last_expand_spec() as int,
            ) < old(self).gap_spec(),
            r == Err::<(ExpansionPlan, ExpandEvent, Option<ExpandEvent>), Error>(Error::PriceOutOfBand) ==> oracle.elc_price_spec() <= target,
            r == Err::<(ExpansionPlan, ExpandEvent, Option<ExpandEvent>), Error>(Error::RatioOutOfRange) ==> ratio_of(
                elc_supply * oracle.elc_price_spec(),
                oracle.elp_price_spec() * old(self).reserves_spec().reserve,
            ) >= 70,
            r is Ok <==> {
                let plan = expansion_plan(*old(self), *oracle, elc_supply as int, target as int, elp_per_elc as int);
                let r0 = old(self).reserves_spec();
                let first = expansion_swap_of(
                    r0,
                    plan.reserve_swap as int,
                    r0.elc_reserve as int,
                    r0.elc_risk_reserve as int,
                    reserve_proceeds as int,
                );
                &&& caller == old(self).owner_spec()
                &&& expansion_ok(*old(self), *oracle, elc_supply as int, target as int, elp_per_elc as int, now as int)
                &&& expansion_swap_fits(
                    r0,
                    plan.reserve_swap as int,
                    r0.elc_reserve as int,
                    r0.elc_risk_reserve as int,
                    reserve_proceeds as int,
                )
                &&& plan.issues ==> {
                    &&& expansion_swap_fits(first.0, plan.issue_swap as int, 0, 0, issue_proceeds as int)
                    &&& old(self).account_spec() == old(relp).owner_spec()
                    &&& advanced_total(
                        old(relp).coinday_spec().total_spec(),
                        old(relp).supply_spec() as int,
                        now as int,
                        0,
                    ) <= u128::MAX
                    &&& old(relp).coinday_spec().awards_spec().len() < u32::MAX
                }
            },
            r matches Ok((plan, swapped, issued)) ==> {
                let r0 = old(self).reserves_spec();
                let first = expansion_swap_of(
                    r0,
                    plan.reserve_swap as int,
                    r0.elc_reserve as int,
                    r0.elc_risk_reserve as int,
                    reserve_proceeds as int,
                );
                let second = expansion_swap_of(first.0, plan.issue_swap as int, 0, 0, issue_proceeds as int);
                &&& plan == expansion_plan(*old(self), *oracle, elc_supply as int, target as int, elp_per_elc as int)
                &&& swapped == first.1
                &&& plan.issues ==> issued == Some(second.1) && final(self).reserves_spec() == second.0
                    && final(relp).coinday_spec().awards_spec() == old(relp).coinday_spec().awards_spec().push(
                        AwardEntry {
                            amount: plan.issue_reward,
                            total_coinday: advanced_total(
                                old(relp).coinday_spec().total_spec(),
                                old(relp).supply_spec() as int,
                                now as int,
                                0,
                            ) as u128,
                            timestamp: now,
                        },
                    )
                &&& !plan.issues ==> issued is None && final(self).reserves_spec() == first.0
                    && *final(relp) == *old(relp)
                &&& final(self).last_expand_spec() == now
                &&& final(self).last_contract_spec() == old(self).last_contract_spec()
                &&& final(self).gap_spec() == old(self).gap_spec()
                &&& final(self).account_spec() == old(self).account_spec()
                &&& final(self).owner_spec() == old(self).owner_spec()
            },
    {
        self.only_owner(caller)?;
        let plan = self.plan_expansion(oracle, elc_supply, target, elp_per_elc, now)?;
        let r0 = self.reserves;
        let (first, swapped) = swap_elp_with_elc(
            &r0,
            plan.reserve_swap,
            r0.elc_reserve,
            r0.elc_risk_reserve,
            reserve_proceeds,
        )?;
        if plan.issues {
            let (second, issued) = swap_elp_with_elc(&first, plan.issue_swap, 0, 0, issue_proceeds)?;
            relp.relp_update_awards(self.account, plan.issue_reward, now)?;
            self.reserves = second;
            self.last_expand_time = now;
            Ok((plan, swapped, Some(issued)))
        } else {
            self.reserves = first;
            self.last_expand_time = now;
            Ok((plan, swapped, None))
        }
    }

    /// Plans a contraction at `now` against the governance target price `target`,
    /// with `elc_per_elp` synthetic tokens quoted by the swap venue for one
    /// collateral token. Requires a synthetic price below 98% of `target` and the
    /// minimum interval elapsed since the last contraction. Changes nothing.
    pub fn plan_contraction(&self, oracle: &Oracle, target: u128, elc_per_elp: u128, now: u128) -> (r:
        Result<ContractionPlan>)
        ensures
            r == Err::<ContractionPlan, Error>(Error::PriceUnavailable) <==> oracle.elp_price_spec()
                == 0 || oracle.elc_price_spec() == 0,
            r == Err::<ContractionPlan, Error>(Error::PriceOutOfBand) <==> oracle.elp_price_spec()
                > 0 && oracle.elc_price_spec() > 0 && target * 98 <= u128::MAX
                && oracle.elc_price_spec() >= target * 98 / 100,
            r == Err::<ContractionPlan, Error>(Error::IntervalNotElapsed) <==> oracle.elp_price_spec()
                > 0 && oracle.elc_price_spec() > 0 && target * 98 <= u128::MAX
                && oracle.elc_price_spec() < target * 98 / 100 && elapsed(
                now as int,
                self.last_contract_spec() as int,
            ) < self.gap_spec(),
            r is Ok <==> oracle.elp_price_spec() > 0 && oracle.elc_price_spec() > 0 && target * 98
                <= u128::MAX && oracle.elc_price_spec() < target * 98 / 100 && elapsed(
                now as int,
                self.last_contract_spec() as int,
            ) >= self.gap_spec() && elc_per_elp * oracle.elc_price_spec() <= u128::MAX
                && elc_per_elp * oracle.elc_price_spec() > 0,
            r is Err ==> r->Err_0 == Error::PriceUnavailable || r->Err_0 == Error::PriceOutOfBand
                || r->Err_0 == Error::IntervalNotElapsed || r->Err_0 == Error::Overflow || r->Err_0
                == Error::ZeroDivisor,
            r matches Ok(plan) ==> plan == contraction_plan_of(
                self.reserves_spec(),
                elc_per_elp * oracle.elc_price_spec(),
            ),
    {
        let elp_price = oracle.elp_price();
        let elc_price = oracle.elc_price();
        if elp_price == 0 || elc_price == 0 {
            return Err(Error::PriceUnavailable);
        }
        let band = checked_product(target, 98)? / 100;
        if elc_price >= band {
            return Err(Error::PriceOutOfBand);
        }
        let gap = if now >= self.last_contract_time {
            now - self.last_contract_time
        } else {
            0
        };
        if gap < self.adjust_gap {
            return Err(Error::IntervalNotElapsed);
        }
        let value = checked_product(elc_per_elp, elc_price)?;
        let delta = checked_quotient(CONTRACT_TARGET_VALUE, value)?;
        if self.reserves.risk_reserve > 0 {
            let amount = if delta > self.reserves.risk_reserve {
                self.reserves.risk_reserve
            } else {
                delta
            };
            Ok(ContractionPlan { elp_amount: amount, from_risk: true })
        } else {
            let cap = self.reserves.reserve / 50;
            let amount = if delta > cap {
                cap
            } else {
                delta
            };
            Ok(ContractionPlan { elp_amount: amount, from_risk: false })
        }
    }

    /// Contracts at `now` (owner only): plans the contraction as
    /// `plan_contraction` does, from the prices of `oracle`, the governance target
    /// `target` and the quote `elc_per_elp`, failing as it fails, and records its
    /// swap: the collateral drawn from the risk reserve, or from the reserve once
    /// the risk reserve is empty, brought `elc_proceeds` synthetic tokens, which go
    /// to the matching synthetic tranche. Returns the plan and the event.
    pub fn contract_elc(
        &mut self,
        caller: AccountId,
        oracle: &Oracle,
        target: u128,
        elc_per_elp: u128,
        elc_proceeds: u128,
        now: u128,
    ) -> (r: Result<(ContractionPlan, ContractEvent)>)
        ensures
            r is Err ==> *final(self) == *old(self),
            r == Err::<(ContractionPlan, ContractEvent), Error>(Error::OnlyOwnerAccess) <==> caller != old(self).owner_spec(),
            r == Err::<(ContractionPlan, ContractEvent), Error>(Error::PriceUnavailable) <==> caller == old(self).owner_spec()
                && (oracle.elp_price_spec() == 0 || oracle.elc_price_spec() == 0),
            r == Err::<(ContractionPlan, ContractEvent), Error>(Error::PriceOutOfBand) <==> caller == old(self).owner_spec()
                && oracle.elp_price_spec() > 0 && oracle.elc_price_spec() > 0 && target * 98 <= u128::MAX
                && oracle.elc_price_spec() >= target * 98 / 100,
            r == Err::<(ContractionPlan, ContractEvent), Error>(Error::IntervalNotElapsed) <==> caller == old(self).owner_spec()
                && oracle.elp_price_spec() > 0 && oracle.elc_price_spec() > 0 && target * 98 <= u128::MAX
                && oracle.elc_price_spec() < target * 98 / 100 && elapsed(
                now as int,
                old(self).last_contract_spec() as int,
            ) < old(self).gap_spec(),
            r is Ok <==> {
                let plan = contraction_plan(*old(self), *oracle, elc_per_elp as int);
                &&& caller == old(self).owner_spec()
                &&& contraction_ok(*old(self), *oracle, target as int, elc_per_elp as int, now as int)
                &&& contraction_swap_fits(
                    old(self).reserves_spec(),
                    plan.from_risk,
                    plan.elp_amount as int,
                    elc_proceeds as int,
                )
            },
            r matches Ok((plan, event)) ==> {
                let out = contraction_swap_of(
                    old(self).reserves_spec(),
                    plan.from_risk,
                    plan.elp_amount as int,
                    elc_proceeds as int,
                );
                &&& plan == contraction_plan(*old(self), *oracle, elc_per_elp as int)
                &&& event == out.1
                &&& final(self).reserves_spec() == out.0
                &&& final(self).last_contract_spec() == now
                &&& final(self).last_expand_spec() == old(self).last_expand_spec()
                &&& final(self).gap_spec() == old(self).gap_spec()
                &&& final(self).account_spec() == old(self).account_spec()
                &&& final(self).owner_spec() == old(self).owner_spec()
            },
    {
        self.only_owner(caller)?;
        let plan = self.plan_contraction(oracle, target, elc_per_elp, now)?;
        let (next, event) = swap_elc_with_elp(&self.reserves, plan.from_risk, plan.elp_amount, elc_proceeds)?;
        self.reserves = next;
        self.last_contract_time = now;
        Ok((plan, event))
    }

    /// Adds `amount` collateral to the risk reserve (owner only).
    pub fn add_risk_reserve(&mut self, caller: AccountId, amount: u128) -> (r: Result<()>)
        ensures
            r == Err::<(), Error>(Error::OnlyOwnerAccess) <==> caller != old(self).owner_spec(),
            r is Ok <==> caller == old(self).owner_spec() && old(self).reserves_spec().risk_reserve
                + amount <= u128::MAX,
            r is Err ==> *final(self) == *old(self),
            r is Err ==> r->Err_0 == Error::OnlyOwnerAccess || r->Err_0 == Error::Overflow,
            r is Ok ==> final(self).reserves_spec() == (Reserves {
                risk_reserve: (old(self).reserves_spec().risk_reserve + amount) as u128,
                ..old(self).reserves_spec()
            }) && final(self).last_expand_spec() == old(self).last_expand_spec()
                && final(self).last_contract_spec() == old(self).last_contract_spec(),
    {
        self.only_owner(caller)?;
        self.reserves.risk_reserve = checked_sum(self.reserves.risk_reserve, amount)?;
        Ok(())
    }
}

} // verus!
