use vstd::prelude::*;

use crate::auth::is_authorized;
use crate::errors::CrowdfundingError;
use crate::records::{
    amount_in, amount_of, distinct_ids, lemma_amount_le_total, lemma_amount_nonneg,
    lemma_pair_le_total, lemma_total_nonneg, nonnegative, set_amount, total_of,
};

verus! {

// The fungible-balance ledger: per-identity balances, a total-supply
// counter, an admin identity, and asset metadata. Issuance is gated on the
// admin's authorization, transfers on the sender's; all arithmetic is
// checked, so the conservation invariant — balances sum to the supply —
// can never silently wrap.

pub struct MockTokenContract {
    /// The identity entitled to mint, recorded once by `initialize`;
    /// `None` while the ledger is uninitialized.
    pub admin: Option<u64>,
    pub token_name: String,
    pub token_symbol: String,
    pub token_decimals: u32,
    /// Sum of every balance; mutated only by `mint`.
    pub supply: i128,
    /// One balance record per identity that ever received units.
    pub balances: Vec<(u64, i128)>,
}

impl MockTokenContract {
    /// The balance of `id`: its recorded amount, 0 when no record exists.
    pub open spec fn balance_of(&self, id: u64) -> int {
        amount_of(self.balances@, id)
    }

    /// The balance book as a total map over identities.
    pub open spec fn balance_map(&self) -> Map<u64, int> {
        Map::total(|id: u64| self.balance_of(id))
    }

    pub open spec fn initialized(&self) -> bool {
        self.admin is Some
    }

    /// The recorded admin; meaningful only once initialized.
    pub open spec fn admin_id(&self) -> u64
        recommends
            self.initialized(),
    {
        self.admin->0
    }

    /// Well-formedness: one record per identity, no negative holding, and
    /// conservation of value — the recorded amounts sum to the supply.
    pub open spec fn wf(&self) -> bool {
        &&& distinct_ids(self.balances@)
        &&& nonnegative(self.balances@)
        &&& total_of(self.balances@) == self.supply as int
        &&& (!self.initialized() ==> self.supply == 0 && self.balances@.len() == 0)
    }

    /// The balance book after `amount` moves from `from` to `to`: the debit
    /// is written first, then the credit reads the debited book, so a
    /// self-transfer nets to no change.
    pub open spec fn moved(b: Map<u64, int>, from: u64, to: u64, amount: int) -> Map<u64, int> {
        let debited = b.insert(from, b[from] - amount);
        debited.insert(to, debited[to] + amount)
    }

    /// A fresh, uninitialized ledger: no admin, empty metadata, no supply.
    pub fn new() -> (t: Self)
        ensures
            t.wf(),
            !t.initialized(),
            t.supply == 0,
            t.balances@.len() == 0,
            t.token_name@.len() == 0,
            t.token_symbol@.len() == 0,
            t.token_decimals == 0,
    {
        MockTokenContract {
            admin: None,
            token_name: String::new(),
            token_symbol: String::new(),
            token_decimals: 0,
            supply: 0,
            balances: Vec::new(),
        }
    }

    /// Records the admin and the asset metadata, once: a second call fails
    /// with `ContractAlreadyInitialized` and changes nothing.
    pub fn initialize(
        &mut self,
        admin: u64,
        name: String,
        symbol: String,
        decimals: u32,
    ) -> (r: Result<(), CrowdfundingError>)
        requires
            old(self).wf(),
        ensures
            final(self).wf(),
            old(self).initialized() ==> r == Err::<(), CrowdfundingError>(
                CrowdfundingError::ContractAlreadyInitialized,
            ) && *final(self) == *old(self),
            !old(self).initialized() ==> r is Ok,
            !old(self).initialized() ==> final(self).admin == Some(admin),
            !old(self).initialized() ==> final(self).token_name == name,
            !old(self).initialized() ==> final(self).token_symbol == symbol,
            !old(self).initialized() ==> final(self).token_decimals == decimals,
            !old(self).initialized() ==> final(self).supply == 0,
            !old(self).initialized() ==> final(self).balances@ == old(self).balances@,
    {
        if self.admin.is_some() {
            return Err(CrowdfundingError::ContractAlreadyInitialized);
        }
        self.admin = Some(admin);
        self.token_name = name;
        self.token_symbol = symbol;
        self.token_decimals = decimals;
        self.supply = 0;
        Ok(())
    }

    /// Issues `amount` new units to `to`, provided the amount is positive,
    /// an admin is recorded, the admin authorized the call, and the supply
    /// does not overflow. The matching balance credit can then never
    /// overflow: no balance exceeds the supply.
    pub fn mint(&mut self, to: u64, amount: i128, auths: &Vec<u64>) -> (r: Result<
        (),
        CrowdfundingError,
    >)
        requires
            old(self).wf(),
        ensures
            final(self).wf(),
            r is Err ==> *final(self) == *old(self),
            amount <= 0 ==> r == Err::<(), CrowdfundingError>(CrowdfundingError::InvalidAmount),
            amount > 0 && !old(self).initialized() ==> r == Err::<(), CrowdfundingError>(
                CrowdfundingError::UnauthorizedMinting,
            ),
            amount > 0 && old(self).initialized() && !auths@.contains(old(self).admin_id())
                ==> r == Err::<(), CrowdfundingError>(CrowdfundingError::Unauthorized),
            amount > 0 && old(self).initialized() && auths@.contains(old(self).admin_id())
                && old(self).supply + amount > i128::MAX ==> r == Err::<(), CrowdfundingError>(
                CrowdfundingError::InvalidAmount,
            ),
            amount > 0 && old(self).initialized() && auths@.contains(old(self).admin_id())
                && old(self).supply + amount <= i128::MAX ==> r is Ok,
            r is Ok ==> final(self).supply == old(self).supply + amount,
            r is Ok ==> final(self).balance_of(to) == old(self).balance_of(to) + amount,
            r is Ok ==> forall|q: u64|
                q != to ==> final(self).balance_of(q) == old(self).balance_of(q),
            r is Ok ==> final(self).admin == old(self).admin,
            r is Ok ==> final(self).token_name == old(self).token_name,
            r is Ok ==> final(self).token_symbol == old(self).token_symbol,
            r is Ok ==> final(self).token_decimals == old(self).token_decimals,
    {
        if amount <= 0 {
            return Err(CrowdfundingError::InvalidAmount);
        }
        let admin = match self.admin {
            Some(a) => a,
            None => { return Err(CrowdfundingError::UnauthorizedMinting) },
        };
        if !is_authorized(auths, admin) {
            return Err(CrowdfundingError::Unauthorized);
        }
        proof {
            lemma_total_nonneg(self.balances@);
        }
        if amount > i128::MAX - self.supply {
            return Err(CrowdfundingError::InvalidAmount);
        }
        let prev = amount_in(&self.balances, to);
        proof {
            lemma_amount_nonneg(self.balances@, to);
            lemma_amount_le_total(self.balances@, to);
        }
        set_amount(&mut self.balances, to, prev + amount);
        self.supply = self.supply + amount;
        Ok(())
    }

    /// Moves `amount` from `from` to `to`, provided the amount is positive,
    /// `from` authorized the call, and `from` holds at least `amount`. The
    /// credit can never overflow: two balances together never exceed the
    /// supply. A self-transfer is validated like any other and nets to no
    /// change.
    pub fn transfer(&mut self, from: u64, to: u64, amount: i128, auths: &Vec<u64>) -> (r: Result<
        (),
        CrowdfundingError,
    >)
        requires
            old(self).wf(),
        ensures
            final(self).wf(),
            r is Err ==> *final(self) == *old(self),
            amount <= 0 ==> r == Err::<(), CrowdfundingError>(CrowdfundingError::InvalidAmount),
            amount > 0 && !auths@.contains(from) ==> r == Err::<(), CrowdfundingError>(
                CrowdfundingError::Unauthorized,
            ),
            amount > 0 && auths@.contains(from) && old(self).balance_of(from) < amount ==> r
                == Err::<(), CrowdfundingError>(CrowdfundingError::InsufficientBalance),
            amount > 0 && auths@.contains(from) && old(self).balance_of(from) >= amount ==> r
                is Ok,
            r is Ok ==> final(self).balance_map() == Self::moved(
                old(self).balance_map(),
                from,
                to,
                amount as int,
            ),
            r is Ok ==> forall|q: u64|
                final(self).balance_of(q) == old(self).balance_of(q) + (
                if q == to {
                    amount as int
                } else {
                    0
                }) - (
                if q == from {
                    amount as int
                } else {
                    0
                }),
            r is Ok ==> final(self).supply == old(self).supply,
            r is Ok ==> final(self).admin == old(self).admin,
            r is Ok ==> final(self).token_name == old(self).token_name,
            r is Ok ==> final(self).token_symbol == old(self).token_symbol,
            r is Ok ==> final(self).token_decimals == old(self).token_decimals,
    {
        if amount <= 0 {
            return Err(CrowdfundingError::InvalidAmount);
        }
        if !is_authorized(auths, from) {
            return Err(CrowdfundingError::Unauthorized);
        }
        let from_bal = amount_in(&self.balances, from);
        if from_bal < amount {
            return Err(CrowdfundingError::InsufficientBalance);
        }
        proof {
            lemma_amount_nonneg(self.balances@, to);
            lemma_amount_le_total(self.balances@, from);
            if from != to {
                lemma_pair_le_total(self.balances@, from, to);
            }
        }
        set_amount(&mut self.balances, from, from_bal - amount);
        let to_bal = amount_in(&self.balances, to);
        set_amount(&mut self.balances, to, to_bal + amount);
        proof {
            let m0 = old(self).balance_map();
            let m2 = self.balance_map();
            assert forall|q: u64| m2.dom().contains(q) implies m2[q] == Self::moved(
                m0,
                from,
                to,
                amount as int,
            )[q] by {}
            assert(m2 =~= Self::moved(m0, from, to, amount as int));
        }
        Ok(())
    }

    /// The balance held by `address`; 0 for an identity with no record.
    pub fn balance(&self, address: u64) -> (b: i128)
        requires
            self.wf(),
        ensures
            b as int == self.balance_of(address),
    {
        amount_in(&self.balances, address)
    }

    /// The total number of units in circulation.
    pub fn total_supply(&self) -> (s: i128)
        ensures
            s == self.supply,
    {
        self.supply
    }

    /// The asset's name; empty while uninitialized.
    pub fn name(&self) -> (r: String)
        ensures
            r == self.token_name,
    {
        self.token_name.clone()
    }

    /// The asset's symbol; empty while uninitialized.
    pub fn symbol(&self) -> (r: String)
        ensures
            r == self.token_symbol,
    {
        self.token_symbol.clone()
    }

    /// The asset's decimal precision; 0 while uninitialized.
    pub fn decimals(&self) -> (d: u32)
        ensures
            d == self.token_decimals,
    {
        self.token_decimals
    }

    /// Law: conservation of value. In every well-formed ledger the recorded
    /// balances sum to the total supply, and each single balance lies
    /// between 0 and that supply.
    pub proof fn lemma_conservation(&self)
        requires
            self.wf(),
        ensures
            total_of(self.balances@) == self.supply as int,
            forall|id: u64| 0 <= #[trigger] self.balance_of(id) <= self.supply as int,
    {
        assert forall|id: u64| 0 <= #[trigger] self.balance_of(id) <= self.supply as int by {
            lemma_amount_nonneg(self.balances@, id);
            lemma_amount_le_total(self.balances@, id);
        }
    }

    /// Law: a transfer followed by the reverse transfer restores every
    /// balance, whatever the two identities are.
    pub proof fn lemma_transfer_round_trip(b: Map<u64, int>, from: u64, to: u64, amount: int)
        requires
            b.dom().contains(from),
            b.dom().contains(to),
        ensures
            Self::moved(Self::moved(b, from, to, amount), to, from, amount) == b,
    {
        let back = Self::moved(Self::moved(b, from, to, amount), to, from, amount);
        assert forall|q: u64| b.dom().contains(q) implies back[q] == b[q] by {}
        assert(back =~= b);
    }

    /// Law: the same round trip over ledger states. When a transfer takes
    /// `t0` to `t1` and the reverse transfer takes `t1` to `t2` — the
    /// relations `transfer` ensures on success — every balance in `t2` is
    /// back to its value in `t0`.
    pub proof fn lemma_round_trip_restores_balances(
        t0: &MockTokenContract,
        t1: &MockTokenContract,
        t2: &MockTokenContract,
        from: u64,
        to: u64,
        amount: i128,
    )
        requires
            t1.balance_map() == Self::moved(t0.balance_map(), from, to, amount as int),
            t2.balance_map() == Self::moved(t1.balance_map(), to, from, amount as int),
        ensures
            forall|q: u64| t2.balance_of(q) == t0.balance_of(q),
    {
        Self::lemma_transfer_round_trip(t0.balance_map(), from, to, amount as int);
        assert forall|q: u64| t2.balance_of(q) == t0.balance_of(q) by {
            assert(t2.balance_map()[q] == t2.balance_of(q));
            assert(t0.balance_map()[q] == t0.balance_of(q));
        }
    }
}

} // verus!
