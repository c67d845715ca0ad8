use vstd::prelude::*;

use crate::error::{Error, Result};
use crate::AccountId;

verus! {

/// Price feed of the collateral token (ELP) and the synthetic token (ELC), both at
/// five decimals; a price of zero means that the price is unavailable.
pub struct Oracle {
    elp_price: u128,
    elc_price: u128,
    block_timestamp_last: u128,
    owner: AccountId,
}

impl Oracle {
    pub closed spec fn elp_price_spec(&self) -> u128 {
        self.elp_price
    }

    pub closed spec fn elc_price_spec(&self) -> u128 {
        self.elc_price
    }

    pub closed spec fn updated_spec(&self) -> u128 {
        self.block_timestamp_last
    }

    pub closed spec fn owner_spec(&self) -> AccountId {
        self.owner
    }

    /// A feed owned by `caller` with both prices unavailable.
    pub fn new(caller: AccountId) -> (r: Self)
        ensures
            r.elp_price_spec() == 0,
            r.elc_price_spec() == 0,
            r.updated_spec() == 0,
            r.owner_spec() == caller,
    {
        Oracle { elp_price: 0, elc_price: 0, block_timestamp_last: 0, owner: caller }
    }

    /// A feed owned by `caller` that quotes the two prices given, updated at `now`.
    pub fn with_prices(caller: AccountId, elp_price: u128, elc_price: u128, now: u128) -> (r: Self)
        ensures
            r.elp_price_spec() == elp_price,
            r.elc_price_spec() == elc_price,
            r.updated_spec() == now,
            r.owner_spec() == caller,
    {
        Oracle { elp_price, elc_price, block_timestamp_last: now, owner: caller }
    }

    pub fn only_owner(&self, caller: AccountId) -> (r: Result<()>)
        ensures
            r is Ok <==> caller == self.owner_spec(),
            r is Err ==> r == Err::<(), Error>(Error::OnlyOwnerAccess),
    {
        if caller != self.owner {
            return Err(Error::OnlyOwnerAccess);
        }
        Ok(())
    }

    /// Publishes new prices at `now` (owner only).
    pub fn update(&mut self, caller: AccountId, elp_price: u128, elc_price: u128, now: u128) -> (r:
        Result<()>)
        ensures
            r is Ok <==> caller == old(self).owner_spec(),
            r is Err ==> r == Err::<(), Error>(Error::OnlyOwnerAccess) && *final(self) == *old(
                self,
            ),
            r is Ok ==> final(self).elp_price_spec() == elp_price && final(self).elc_price_spec()
                == elc_price && final(self).updated_spec() == now && final(self).owner_spec()
                == old(self).owner_spec(),
    {
        self.only_owner(caller)?;
        self.elp_price = elp_price;
        self.elc_price = elc_price;
        self.block_timestamp_last = now;
        Ok(())
    }

    pub fn elp_price(&self) -> (r: u128)
        ensures
            r == self.elp_price_spec(),
    {
        self.elp_price
    }

    pub fn elc_price(&self) -> (r: u128)
        ensures
            r == self.elc_price_spec(),
    {
        self.elc_price
    }

    pub fn owner(&self) -> (r: AccountId)
        ensures
            r == self.owner_spec(),
    {
        self.owner
    }

    /// Hands ownership to `new_owner` (owner only).
    pub fn transfer_ownership(&mut self, caller: AccountId, new_owner: AccountId) -> (r: Result<()>)
        ensures
            r is Ok <==> caller == old(self).owner_spec(),
            r is Err ==> r == Err::<(), Error>(Error::OnlyOwnerAccess) && *final(self) == *old(
                self,
            ),
            r is Ok ==> final(self).owner_spec() == new_owner && final(self).elp_price_spec()
                == old(self).elp_price_spec() && final(self).elc_price_spec() == old(
                self,
            ).elc_price_spec() && final(self).updated_spec() == old(self).updated_spec(),
    {
        self.only_owner(caller)?;
        self.owner = new_owner;
        Ok(())
    }
}

} // verus!
