use vstd::prelude::*;

use crate::auth::is_authorized;
use crate::errors::{CrowdfundingError, HardFault, PoolFailure};
use crate::records::{
    amount_in, amount_of, distinct_ids, lemma_amount_le_total, lemma_amount_nonneg, nonnegative,
    set_amount, total_of,
};
use crate::token::MockTokenContract;
use vstd::string::StrSliceExecFns;

verus! {

/// Upper bound on a pool description, in characters.
pub const MAX_DESCRIPTION_LENGTH: u32 = 500;

/// A pool's lifecycle phase. `Succeeded`, `Failed` and `Cancelled` are
/// terminal: no operation leaves them.
#[derive(Clone, Copy, Debug, PartialEq, Eq, Structural)]
pub enum PoolStatus {
    /// Accepting contributions until the target is met or the deadline passes.
    Active,
    /// The target was reached; the creator may withdraw the escrowed funds.
    Succeeded,
    /// The deadline passed short of the target; contributors may be refunded.
    Failed,
    /// Closed early by its creator; contributors may be refunded.
    Cancelled,
}

/// What a creator asks for when opening a pool. The `created_at` field is
/// informational: deadline arithmetic uses the host clock handed to
/// `create_pool`, never a caller-supplied timestamp.
pub struct PoolConfig {
    pub name: String,
    pub description: String,
    pub target_amount: i128,
    pub is_private: bool,
    pub duration: u64,
    pub created_at: u64,
}

impl PoolConfig {
    pub open spec fn description_ok(&self) -> bool {
        self.description@.len() <= MAX_DESCRIPTION_LENGTH as nat
    }

    /// The validation `create_pool` enforces before touching any state.
    pub open spec fn valid(&self) -> bool {
        &&& self.description_ok()
        &&& self.target_amount > 0
        &&& self.duration > 0
    }
}

/// One crowdfunding pool: its configuration as accepted, its escrow
/// bookkeeping, and its lifecycle phase.
pub struct Pool {
    pub id: u64,
    pub creator: u64,
    pub name: String,
    pub description: String,
    pub target_amount: i128,
    pub is_private: bool,
    /// Length of the funding window, in seconds from `created_at`.
    pub duration: u64,
    /// The host clock at creation.
    pub created_at: u64,
    /// Sum of every contribution ever accepted; never decreases.
    pub raised_amount: i128,
    pub status: PoolStatus,
    /// Whether the creator has already collected a successful pool's funds.
    pub withdrawn: bool,
    /// Per-contributor escrow records; a refund zeroes its entry.
    pub contributions: Vec<(u64, i128)>,
}

impl Pool {
    /// What `contributor` currently holds in this pool's escrow.
    pub open spec fn contribution_of(&self, contributor: u64) -> int {
        amount_of(self.contributions@, contributor)
    }

    /// The instant after which contributions are no longer accepted.
    pub open spec fn deadline(&self) -> int {
        self.created_at + self.duration
    }

    /// Whether the pool's outcome lets contributors take their escrow back.
    pub open spec fn refundable(&self) -> bool {
        self.status == PoolStatus::Failed || self.status == PoolStatus::Cancelled
    }

    pub open spec fn wf(&self) -> bool {
        &&& self.target_amount > 0
        &&& self.duration > 0
        &&& self.raised_amount >= 0
        &&& distinct_ids(self.contributions@)
        &&& nonnegative(self.contributions@)
        &&& total_of(self.contributions@) <= self.raised_amount as int
        &&& (self.withdrawn ==> self.status == PoolStatus::Succeeded)
    }
}

/// The pool registry: platform configuration, the pause switch, the
/// sequential identifier allocator, and every pool's record. Escrowed funds
/// are held on the ledger under the registry's own identity.
pub struct CrowdfundingContract {
    /// The identity under which the registry holds escrowed funds on the
    /// ledger. The registry attests its own authority when it moves them.
    pub escrow_address: u64,
    /// The platform admin, recorded once by `initialize`; `None` while
    /// uninitialized.
    pub admin: Option<u64>,
    /// The ledger this platform settles contributions in.
    pub token_address: u64,
    /// Flat platform fee, kept from a successful pool at withdrawal.
    pub fee: u32,
    pub paused: bool,
    /// How many pools were ever created; the next pool gets this plus one.
    pub pool_count: u64,
    pub pools: Vec<Pool>,
}

impl CrowdfundingContract {
    pub open spec fn initialized(&self) -> bool {
        self.admin is Some
    }

    /// The recorded platform admin; meaningful only once initialized.
    pub open spec fn admin_id(&self) -> u64
        recommends
            self.initialized(),
    {
        self.admin->0
    }

    /// Whether `pool_id` names a pool: identifiers run from 1 to the count.
    pub open spec fn has_pool(&self, pool_id: u64) -> bool {
        1 <= pool_id <= self.pools@.len()
    }

    /// The record of pool `pool_id`.
    pub open spec fn spec_pool(&self, pool_id: u64) -> Pool
        recommends
            self.has_pool(pool_id),
    {
        self.pools@[pool_id - 1]
    }

    /// Well-formedness: the record at position `i` carries identifier
    /// `i + 1`, the counter equals the number of records, every pool is
    /// well-formed, and nothing is configured before initialization.
    pub open spec fn wf(&self) -> bool {
        &&& self.pool_count as int == self.pools@.len()
        &&& forall|i: int| 0 <= i < self.pools@.len() ==> (#[trigger] self.pools@[i]).id == i + 1
        &&& forall|i: int| 0 <= i < self.pools@.len() ==> (#[trigger] self.pools@[i]).wf()
        &&& (!self.initialized() ==> self.fee == 0 && !self.paused)
    }

    /// A fresh registry: unconfigured, unpaused, no pools yet. `escrow_address`
    /// is the ledger identity the registry will hold escrow under.
    pub fn new(escrow_address: u64) -> (c: Self)
        ensures
            c.wf(),
            !c.initialized(),
            !c.paused,
            c.pool_count == 0,
            c.pools@.len() == 0,
            c.fee == 0,
            c.escrow_address == escrow_address,
    {
        CrowdfundingContract {
            escrow_address,
            admin: None,
            token_address: 0,
            fee: 0,
            paused: false,
            pool_count: 0,
            pools: Vec::new(),
        }
    }

    /// Records the platform admin, the settlement ledger and the fee, once:
    /// a second call fails with `ContractAlreadyInitialized` and changes
    /// nothing. A fresh registry starts unpaused with its counter at 0.
    pub fn initialize(&mut self, admin: u64, token_address: u64, fee: u32) -> (r: Result<
        (),
        CrowdfundingError,
    >)
        requires
            old(self).wf(),
        ensures
            final(self).wf(),
            old(self).initialized() ==> r == Err::<(), CrowdfundingError>(
                CrowdfundingError::ContractAlreadyInitialized,
            ) && *final(self) == *old(self),
            !old(self).initialized() ==> r is Ok,
            !old(self).initialized() ==> final(self).admin == Some(admin),
            !old(self).initialized() ==> final(self).token_address == token_address,
            !old(self).initialized() ==> final(self).fee == fee,
            !old(self).initialized() ==> !final(self).paused,
            final(self).pool_count == old(self).pool_count,
            final(self).pools@ == old(self).pools@,
            final(self).escrow_address == old(self).escrow_address,
    {
        if self.admin.is_some() {
            return Err(CrowdfundingError::ContractAlreadyInitialized);
        }
        self.admin = Some(admin);
        self.token_address = token_address;
        self.fee = fee;
        self.paused = false;
        Ok(())
    }

    /// Turns the pause switch on; only the recorded platform admin may.
    pub fn pause(&mut self, auths: &Vec<u64>) -> (r: Result<(), CrowdfundingError>)
        requires
            old(self).wf(),
        ensures
            final(self).wf(),
            r is Err ==> *final(self) == *old(self),
            !old(self).initialized() ==> r == Err::<(), CrowdfundingError>(
                CrowdfundingError::Unauthorized,
            ),
            old(self).initialized() && !auths@.contains(old(self).admin_id()) ==> r == Err::<
                (),
                CrowdfundingError,
            >(CrowdfundingError::Unauthorized),
            old(self).initialized() && auths@.contains(old(self).admin_id()) ==> r is Ok,
            r is Ok ==> *final(self) == (Self { paused: true, ..*old(self) }),
    {
        let admin = match self.admin {
            Some(a) => a,
            None => { return Err(CrowdfundingError::Unauthorized) },
        };
        if !is_authorized(auths, admin) {
            return Err(CrowdfundingError::Unauthorized);
        }
        self.paused = true;
        Ok(())
    }

    /// Turns the pause switch off; only the recorded platform admin may.
    pub fn unpause(&mut self, auths: &Vec<u64>) -> (r: Result<(), CrowdfundingError>)
        requires
            old(self).wf(),
        ensures
            final(self).wf(),
            r is Err ==> *final(self) == *old(self),
            !old(self).initialized() ==> r == Err::<(), CrowdfundingError>(
                CrowdfundingError::Unauthorized,
            ),
            old(self).initialized() && !auths@.contains(old(self).admin_id()) ==> r == Err::<
                (),
                CrowdfundingError,
            >(CrowdfundingError::Unauthorized),
            old(self).initialized() && auths@.contains(old(self).admin_id()) ==> r is Ok,
            r is Ok ==> *final(self) == (Self { paused: false, ..*old(self) }),
    {
        let admin = match self.admin {
            Some(a) => a,
            None => { return Err(CrowdfundingError::Unauthorized) },
        };
        if !is_authorized(auths, admin) {
            return Err(CrowdfundingError::Unauthorized);
        }
        self.paused = false;
        Ok(())
    }

    /// Opens a new pool and returns its identifier: one more than the last,
    /// the first pool getting 1. Checked in order: the pause switch
    /// (`ContractPaused`), the configuration (a hard fault for an oversized
    /// description, a non-positive target or a zero duration), then the
    /// creator's authorization. A call that fails allocates nothing: the
    /// counter and the records are exactly as before. The pool starts
    /// `Active` with nothing raised, stamped with the host clock `now`.
    pub fn create_pool(
        &mut self,
        creator: u64,
        config: PoolConfig,
        auths: &Vec<u64>,
        now: u64,
    ) -> (r: Result<u64, PoolFailure>)
        requires
            old(self).wf(),
            old(self).pool_count < u64::MAX,
        ensures
            final(self).wf(),
            r is Err ==> *final(self) == *old(self),
            old(self).paused ==> r == Err::<u64, PoolFailure>(
                PoolFailure::Rejected(CrowdfundingError::ContractPaused),
            ),
            !old(self).paused && !config.description_ok() ==> r == Err::<u64, PoolFailure>(
                PoolFailure::Aborted(HardFault::DescriptionTooLong),
            ),
            !old(self).paused && config.description_ok() && config.target_amount <= 0 ==> r
                == Err::<u64, PoolFailure>(PoolFailure::Aborted(HardFault::NonPositiveTarget)),
            !old(self).paused && config.description_ok() && config.target_amount > 0
                && config.duration == 0 ==> r == Err::<u64, PoolFailure>(
                PoolFailure::Aborted(HardFault::ZeroDuration),
            ),
            !old(self).paused && config.valid() && !auths@.contains(creator) ==> r == Err::<
                u64,
                PoolFailure,
            >(PoolFailure::Rejected(CrowdfundingError::Unauthorized)),
            !old(self).paused && config.valid() && auths@.contains(creator) ==> r == Ok::<
                u64,
                PoolFailure,
            >((old(self).pool_count + 1) as u64),
            r is Ok ==> final(self).pool_count == old(self).pool_count + 1,
            r is Ok ==> final(self).pools@.len() == old(self).pools@.len() + 1,
            r is Ok ==> forall|i: int|
                0 <= i < old(self).pools@.len() ==> final(self).pools@[i] == old(self).pools@[i],
            r is Ok ==> final(self).pools@.last().id == old(self).pool_count + 1,
            r is Ok ==> final(self).pools@.last().creator == creator,
            r is Ok ==> final(self).pools@.last().name == config.name,
            r is Ok ==> final(self).pools@.last().description == config.description,
            r is Ok ==> final(self).pools@.last().target_amount == config.target_amount,
            r is Ok ==> final(self).pools@.last().is_private == config.is_private,
            r is Ok ==> final(self).pools@.last().duration == config.duration,
            r is Ok ==> final(self).pools@.last().created_at == now,
            r is Ok ==> final(self).pools@.last().raised_amount == 0,
            r is Ok ==> final(self).pools@.last().status == PoolStatus::Active,
            r is Ok ==> !final(self).pools@.last().withdrawn,
            r is Ok ==> final(self).pools@.last().contributions@.len() == 0,
            r is Ok ==> final(self).paused == old(self).paused,
            r is Ok ==> final(self).admin == old(self).admin,
            r is Ok ==> final(self).fee == old(self).fee,
            r is Ok ==> final(self).token_address == old(self).token_address,
            r is Ok ==> final(self).escrow_address == old(self).escrow_address,
    {
        if self.paused {
            return Err(PoolFailure::Rejected(CrowdfundingError::ContractPaused));
        }
        if config.description.as_str().unicode_len() > MAX_DESCRIPTION_LENGTH as usize {
            return Err(PoolFailure::Aborted(HardFault::DescriptionTooLong));
        }
        if config.target_amount <= 0 {
            return Err(PoolFailure::Aborted(HardFault::NonPositiveTarget));
        }
        if config.duration == 0 {
            return Err(PoolFailure::Aborted(HardFault::ZeroDuration));
        }
        if !is_authorized(auths, creator) {
            return Err(PoolFailure::Rejected(CrowdfundingError::Unauthorized));
        }
        let id = self.pool_count + 1;
        let pool = Pool {
            id,
            creator,
            name: config.name,
            description: config.description,
            target_amount: config.target_amount,
            is_private: config.is_private,
            duration: config.duration,
            created_at: now,
            raised_amount: 0,
            status: PoolStatus::Active,
            withdrawn: false,
            contributions: Vec::new(),
        };
        self.pools.push(pool);
        self.pool_count = id;
        Ok(id)
    }

    /// The record of pool `pool_id`; `None` for an identifier never issued.
    pub fn get_pool(&self, pool_id: u64) -> (r: Option<&Pool>)
        requires
            self.wf(),
        ensures
            match r {
                Some(p) => self.has_pool(pool_id) && *p == self.spec_pool(pool_id),
                None => !self.has_pool(pool_id),
            },
    {
        let n = self.pools.len();
        if 1 <= pool_id && pool_id <= n as u64 {
            let i = (pool_id - 1) as usize;
            Some(&self.pools[i])
        } else {
            None
        }
    }

    /// Whether a contribution of `amount` to pool `pool_id` at time `now`
    /// passes every check of the registry itself (the ledger then has the
    /// last word on the contributor's funds).
    pub open spec fn accepts_contribution(&self, pool_id: u64, amount: i128, now: u64) -> bool {
        &&& !self.paused
        &&& self.has_pool(pool_id)
        &&& self.spec_pool(pool_id).status == PoolStatus::Active
        &&& now <= self.spec_pool(pool_id).deadline()
        &&& amount > 0
        &&& self.spec_pool(pool_id).raised_amount + amount <= i128::MAX
    }

    /// Accepts `amount` from `contributor` into pool `pool_id`'s escrow.
    /// Checked in order: the pause switch, the pool's existence, its phase,
    /// the deadline, the amount (positive, and not overflowing the raised
    /// total). The funds then move on the ledger from the contributor to the
    /// registry's escrow identity, which demands the contributor's
    /// authorization and a sufficient balance. On success the pool's raised
    /// total and the contributor's escrow record grow by `amount`, and the
    /// pool turns `Succeeded` the moment its target is reached. On any
    /// failure neither the registry nor the ledger changes.
    pub fn contribute(
        &mut self,
        token: &mut MockTokenContract,
        pool_id: u64,
        contributor: u64,
        amount: i128,
        auths: &Vec<u64>,
        now: u64,
    ) -> (r: Result<(), CrowdfundingError>)
        requires
            old(self).wf(),
            old(token).wf(),
        ensures
            final(self).wf(),
            final(token).wf(),
            r is Err ==> *final(self) == *old(self) && *final(token) == *old(token),
            old(self).paused ==> r == Err::<(), CrowdfundingError>(
                CrowdfundingError::ContractPaused,
            ),
            !old(self).paused && !old(self).has_pool(pool_id) ==> r == Err::<(), CrowdfundingError>(
                CrowdfundingError::PoolNotFound,
            ),
            !old(self).paused && old(self).has_pool(pool_id) && old(self).spec_pool(pool_id).status
                != PoolStatus::Active ==> r == Err::<(), CrowdfundingError>(
                CrowdfundingError::PoolNotActive,
            ),
            !old(self).paused && old(self).has_pool(pool_id) && old(self).spec_pool(pool_id).status
                == PoolStatus::Active && now > old(self).spec_pool(pool_id).deadline() ==> r
                == Err::<(), CrowdfundingError>(CrowdfundingError::DeadlinePassed),
            !old(self).paused && old(self).has_pool(pool_id) && old(self).spec_pool(pool_id).status
                == PoolStatus::Active && now <= old(self).spec_pool(pool_id).deadline() && amount
                <= 0 ==> r == Err::<(), CrowdfundingError>(CrowdfundingError::InvalidAmount),
            !old(self).paused && old(self).has_pool(pool_id) && old(self).spec_pool(pool_id).status
                == PoolStatus::Active && now <= old(self).spec_pool(pool_id).deadline() && amount
                > 0 && old(self).spec_pool(pool_id).raised_amount + amount > i128::MAX ==> r
                == Err::<(), CrowdfundingError>(CrowdfundingError::InvalidAmount),
            old(self).accepts_contribution(pool_id, amount, now) && !auths@.contains(contributor)
                ==> r == Err::<(), CrowdfundingError>(CrowdfundingError::Unauthorized),
            old(self).accepts_contribution(pool_id, amount, now) && auths@.contains(contributor)
                && old(token).balance_of(contributor) < amount ==> r == Err::<
                (),
                CrowdfundingError,
            >(CrowdfundingError::InsufficientBalance),
            old(self).accepts_contribution(pool_id, amount, now) && auths@.contains(contributor)
                && old(token).balance_of(contributor) >= amount ==> r is Ok,
            r is Ok ==> final(token).balance_map() == MockTokenContract::moved(
                old(token).balance_map(),
                contributor,
                old(self).escrow_address,
                amount as int,
            ),
            r is Ok ==> final(token).supply == old(token).supply,
            r is Ok ==> final(self).pools@.len() == old(self).pools@.len(),
            r is Ok ==> forall|j: int|
                0 <= j < old(self).pools@.len() && j != pool_id - 1 ==> final(self).pools@[j] == old(
                    self,
                ).pools@[j],
            r is Ok ==> final(self).spec_pool(pool_id).raised_amount == old(self).spec_pool(
                pool_id,
            ).raised_amount + amount,
            r is Ok ==> final(self).spec_pool(pool_id).contribution_of(contributor) == old(
                self,
            ).spec_pool(pool_id).contribution_of(contributor) + amount,
            r is Ok ==> forall|q: u64|
                q != contributor ==> final(self).spec_pool(pool_id).contribution_of(q) == old(
                    self,
                ).spec_pool(pool_id).contribution_of(q),
            r is Ok ==> final(self).spec_pool(pool_id).status == (
            if old(self).spec_pool(pool_id).raised_amount + amount >= old(self).spec_pool(
                pool_id,
            ).target_amount {
                PoolStatus::Succeeded
            } else {
                PoolStatus::Active
            }),
            r is Ok ==> final(self).spec_pool(pool_id) == (Pool {
                raised_amount: final(self).spec_pool(pool_id).raised_amount,
                status: final(self).spec_pool(pool_id).status,
                contributions: final(self).spec_pool(pool_id).contributions,
                ..old(self).spec_pool(pool_id)
            }),
            r is Ok ==> *final(self) == (Self { pools: final(self).pools, ..*old(self) }),
    {
        if self.paused {
            return Err(CrowdfundingError::ContractPaused);
        }
        let n = self.pools.len();
        if pool_id < 1 || pool_id > n as u64 {
            return Err(CrowdfundingError::PoolNotFound);
        }
        let i = (pool_id - 1) as usize;
        proof {
            assert(self.pools@[i as int].wf());
        }
        if self.pools[i].status != PoolStatus::Active {
            return Err(CrowdfundingError::PoolNotActive);
        }
        let created = self.pools[i].created_at;
        let dur = self.pools[i].duration;
        if now > created && now - created > dur {
            return Err(CrowdfundingError::DeadlinePassed);
        }
        if amount <= 0 {
            return Err(CrowdfundingError::InvalidAmount);
        }
        let raised = self.pools[i].raised_amount;
        if amount > i128::MAX - raised {
            return Err(CrowdfundingError::InvalidAmount);
        }
        match token.transfer(contributor, self.escrow_address, amount, auths) {
            Err(e) => { return Err(e) },
            Ok(()) => {},
        }
        let prev = amount_in(&self.pools[i].contributions, contributor);
        proof {
            lemma_amount_nonneg(self.pools@[i as int].contributions@, contributor);
            lemma_amount_le_total(self.pools@[i as int].contributions@, contributor);
        }
        let target = self.pools[i].target_amount;
        let p = &mut self.pools[i];
        set_amount(&mut p.contributions, contributor, prev + amount);
        p.raised_amount = raised + amount;
        if p.raised_amount >= target {
            p.status = PoolStatus::Succeeded;
        }
        Ok(())
    }

    /// The phase an `Active` pool settles to at time `now`: `Succeeded`
    /// once its target is reached, `Failed` once the deadline has passed
    /// short of it; terminal phases stay as they are.
    pub open spec fn resolved_status(p: Pool, now: u64) -> PoolStatus {
        if p.status == PoolStatus::Active && p.raised_amount >= p.target_amount {
            PoolStatus::Succeeded
        } else if p.status == PoolStatus::Active && now > p.deadline() {
            PoolStatus::Failed
        } else {
            p.status
        }
    }

    /// Settles pool `pool_id`'s phase against the clock and returns it.
    /// Nothing but the phase changes, and terminal phases never change.
    pub fn resolve_pool(&mut self, pool_id: u64, now: u64) -> (r: Result<
        PoolStatus,
        CrowdfundingError,
    >)
        requires
            old(self).wf(),
        ensures
            final(self).wf(),
            r is Err ==> *final(self) == *old(self),
            !old(self).has_pool(pool_id) ==> r == Err::<PoolStatus, CrowdfundingError>(
                CrowdfundingError::PoolNotFound,
            ),
            old(self).has_pool(pool_id) ==> r == Ok::<PoolStatus, CrowdfundingError>(
                Self::resolved_status(old(self).spec_pool(pool_id), now),
            ),
            old(self).has_pool(pool_id) ==> final(self).spec_pool(pool_id) == (Pool {
                status: Self::resolved_status(old(self).spec_pool(pool_id), now),
                ..old(self).spec_pool(pool_id)
            }),
            old(self).has_pool(pool_id) ==> forall|j: int|
                0 <= j < old(self).pools@.len() && j != pool_id - 1 ==> final(self).pools@[j] == old(
                    self,
                ).pools@[j],
            final(self).pools@.len() == old(self).pools@.len(),
            *final(self) == (Self { pools: final(self).pools, ..*old(self) }),
    {
        let n = self.pools.len();
        if pool_id < 1 || pool_id > n as u64 {
            return Err(CrowdfundingError::PoolNotFound);
        }
        let i = (pool_id - 1) as usize;
        proof {
            assert(self.pools@[i as int].wf());
        }
        let active = self.pools[i].status == PoolStatus::Active;
        let reached = self.pools[i].raised_amount >= self.pools[i].target_amount;
        let created = self.pools[i].created_at;
        let dur = self.pools[i].duration;
        let expired = now > created && now - created > dur;
        let p = &mut self.pools[i];
        if active && reached {
            p.status = PoolStatus::Succeeded;
        } else if active && expired {
            p.status = PoolStatus::Failed;
        }
        let status = p.status;
        Ok(status)
    }

    /// Closes an `Active` pool before its outcome is settled. Only the
    /// pool's creator, with authorization, may cancel; `Cancelled` is
    /// terminal, and escrowed contributions become refundable as from a
    /// failed pool. Nothing but the phase changes.
    pub fn cancel_pool(&mut self, pool_id: u64, creator: u64, auths: &Vec<u64>) -> (r: Result<
        (),
        CrowdfundingError,
    >)
        requires
            old(self).wf(),
        ensures
            final(self).wf(),
            r is Err ==> *final(self) == *old(self),
            !old(self).has_pool(pool_id) ==> r == Err::<(), CrowdfundingError>(
                CrowdfundingError::PoolNotFound,
            ),
            old(self).has_pool(pool_id) && old(self).spec_pool(pool_id).status != PoolStatus::Active
                ==> r == Err::<(), CrowdfundingError>(CrowdfundingError::PoolNotActive),
            old(self).has_pool(pool_id) && old(self).spec_pool(pool_id).status == PoolStatus::Active
                && (creator != old(self).spec_pool(pool_id).creator || !auths@.contains(creator))
                ==> r == Err::<(), CrowdfundingError>(CrowdfundingError::Unauthorized),
            old(self).has_pool(pool_id) && old(self).spec_pool(pool_id).status == PoolStatus::Active
                && creator == old(self).spec_pool(pool_id).creator && auths@.contains(creator)
                ==> r is Ok,
            r is Ok ==> final(self).spec_pool(pool_id) == (Pool {
                status: PoolStatus::Cancelled,
                ..old(self).spec_pool(pool_id)
            }),
            r is Ok ==> forall|j: int|
                0 <= j < old(self).pools@.len() && j != pool_id - 1 ==> final(self).pools@[j] == old(
                    self,
                ).pools@[j],
            r is Ok ==> final(self).pools@.len() == old(self).pools@.len(),
            r is Ok ==> *final(self) == (Self { pools: final(self).pools, ..*old(self) }),
    {
        let n = self.pools.len();
        if pool_id < 1 || pool_id > n as u64 {
            return Err(CrowdfundingError::PoolNotFound);
        }
        let i = (pool_id - 1) as usize;
        proof {
            assert(self.pools@[i as int].wf());
        }
        if self.pools[i].status != PoolStatus::Active {
            return Err(CrowdfundingError::PoolNotActive);
        }
        if creator != self.pools[i].creator {
            return Err(CrowdfundingError::Unauthorized);
        }
        if !is_authorized(auths, creator) {
            return Err(CrowdfundingError::Unauthorized);
        }
        let p = &mut self.pools[i];
        p.status = PoolStatus::Cancelled;
        Ok(())
    }

    /// The part of a successful pool's raised total kept as the platform
    /// fee: the flat fee, capped at the amount raised.
    pub open spec fn spec_fee_taken(&self, raised: int) -> int {
        if (self.fee as int) < raised {
            self.fee as int
        } else {
            raised
        }
    }

    /// The ledger after a successful pool's escrow is released: the net
    /// amount to the creator, then the fee to the admin, each skipped when
    /// zero.
    pub open spec fn paid_out(
        m: Map<u64, int>,
        escrow: u64,
        creator: u64,
        admin: u64,
        net: int,
        fee_amt: int,
    ) -> Map<u64, int> {
        let after_net = if net > 0 {
            MockTokenContract::moved(m, escrow, creator, net)
        } else {
            m
        };
        if fee_amt > 0 {
            MockTokenContract::moved(after_net, escrow, admin, fee_amt)
        } else {
            after_net
        }
    }

    /// Releases a successful pool's escrow, once: the creator receives what
    /// was raised minus the platform fee, which goes to the platform admin.
    /// Only the pool's creator, with authorization, may collect. The
    /// registry attests its own authority over the escrow identity, but the
    /// escrow must actually hold the raised amount on the ledger; a second
    /// collection, like an empty escrow, fails with `InsufficientBalance`.
    /// Returns the net amount paid to the creator.
    pub fn withdraw(
        &mut self,
        token: &mut MockTokenContract,
        pool_id: u64,
        creator: u64,
        auths: &Vec<u64>,
    ) -> (r: Result<i128, CrowdfundingError>)
        requires
            old(self).wf(),
            old(token).wf(),
        ensures
            final(self).wf(),
            final(token).wf(),
            r is Err ==> *final(self) == *old(self) && *final(token) == *old(token),
            !old(self).has_pool(pool_id) ==> r == Err::<i128, CrowdfundingError>(
                CrowdfundingError::PoolNotFound,
            ),
            old(self).has_pool(pool_id) && old(self).spec_pool(pool_id).status
                != PoolStatus::Succeeded ==> r == Err::<i128, CrowdfundingError>(
                CrowdfundingError::TargetNotReached,
            ),
            old(self).has_pool(pool_id) && old(self).spec_pool(pool_id).status
                == PoolStatus::Succeeded && (creator != old(self).spec_pool(pool_id).creator
                || !auths@.contains(creator)) ==> r == Err::<i128, CrowdfundingError>(
                CrowdfundingError::Unauthorized,
            ),
            old(self).has_pool(pool_id) && old(self).spec_pool(pool_id).status
                == PoolStatus::Succeeded && creator == old(self).spec_pool(pool_id).creator
                && auths@.contains(creator) && old(self).spec_pool(pool_id).withdrawn ==> r
                == Err::<i128, CrowdfundingError>(CrowdfundingError::InsufficientBalance),
            old(self).has_pool(pool_id) && old(self).spec_pool(pool_id).status
                == PoolStatus::Succeeded && creator == old(self).spec_pool(pool_id).creator
                && auths@.contains(creator) && !old(self).spec_pool(pool_id).withdrawn && old(
                token,
            ).balance_of(old(self).escrow_address) < old(self).spec_pool(pool_id).raised_amount
                ==> r == Err::<i128, CrowdfundingError>(CrowdfundingError::InsufficientBalance),
            old(self).has_pool(pool_id) && old(self).spec_pool(pool_id).status
                == PoolStatus::Succeeded && creator == old(self).spec_pool(pool_id).creator
                && auths@.contains(creator) && !old(self).spec_pool(pool_id).withdrawn && old(
                token,
            ).balance_of(old(self).escrow_address) >= old(self).spec_pool(pool_id).raised_amount
                ==> r == Ok::<i128, CrowdfundingError>(
                (old(self).spec_pool(pool_id).raised_amount - old(self).spec_fee_taken(
                    old(self).spec_pool(pool_id).raised_amount as int,
                )) as i128,
            ),
            r is Ok ==> final(token).balance_map() == Self::paid_out(
                old(token).balance_map(),
                old(self).escrow_address,
                old(self).spec_pool(pool_id).creator,
                old(self).admin_id(),
                old(self).spec_pool(pool_id).raised_amount - old(self).spec_fee_taken(
                    old(self).spec_pool(pool_id).raised_amount as int,
                ),
                old(self).spec_fee_taken(old(self).spec_pool(pool_id).raised_amount as int),
            ),
            r is Ok ==> final(token).supply == old(token).supply,
            r is Ok ==> final(self).spec_pool(pool_id) == (Pool {
                withdrawn: true,
                ..old(self).spec_pool(pool_id)
            }),
            r is Ok ==> forall|j: int|
                0 <= j < old(self).pools@.len() && j != pool_id - 1 ==> final(self).pools@[j] == old(
                    self,
                ).pools@[j],
            r is Ok ==> final(self).pools@.len() == old(self).pools@.len(),
            r is Ok ==> *final(self) == (Self { pools: final(self).pools, ..*old(self) }),
    {
        let n = self.pools.len();
        if pool_id < 1 || pool_id > n as u64 {
            return Err(CrowdfundingError::PoolNotFound);
        }
        let i = (pool_id - 1) as usize;
        proof {
            assert(self.pools@[i as int].wf());
        }
        if self.pools[i].status != PoolStatus::Succeeded {
            return Err(CrowdfundingError::TargetNotReached);
        }
        if creator != self.pools[i].creator {
            return Err(CrowdfundingError::Unauthorized);
        }
        if !is_authorized(auths, creator) {
            return Err(CrowdfundingError::Unauthorized);
        }
        if self.pools[i].withdrawn {
            return Err(CrowdfundingError::InsufficientBalance);
        }
        let raised = self.pools[i].raised_amount;
        let escrow_bal = token.balance(self.escrow_address);
        if escrow_bal < raised {
            return Err(CrowdfundingError::InsufficientBalance);
        }
        let fee_amt: i128 = if (self.fee as i128) < raised {
            self.fee as i128
        } else {
            raised
        };
        let net = raised - fee_amt;
        let mut own_auth: Vec<u64> = Vec::new();
        own_auth.push(self.escrow_address);
        proof {
            assert(own_auth@[0] == self.escrow_address);
            assert(own_auth@.contains(self.escrow_address));
        }
        if net > 0 {
            match token.transfer(self.escrow_address, creator, net, &own_auth) {
                Ok(()) => {},
                Err(e) => {
                    proof {
                        assert(false);
                    }
                    return Err(e);
                },
            }
        }
        if fee_amt > 0 {
            let admin = match self.admin {
                Some(a) => a,
                None => {
                    proof {
                        assert(false);
                    }
                    return Err(CrowdfundingError::Unauthorized);
                },
            };
            match token.transfer(self.escrow_address, admin, fee_amt, &own_auth) {
                Ok(()) => {},
                Err(e) => {
                    proof {
                        assert(false);
                    }
                    return Err(e);
                },
            }
        }
        let p = &mut self.pools[i];
        p.withdrawn = true;
        Ok(net)
    }

    /// Returns a failed or cancelled pool's escrowed contribution to
    /// `contributor` and zeroes their escrow record, so a second refund
    /// finds nothing. The
    /// registry attests its own authority over the escrow identity, but the
    /// escrow must actually hold the contribution on the ledger. Returns
    /// the amount refunded.
    pub fn refund(
        &mut self,
        token: &mut MockTokenContract,
        pool_id: u64,
        contributor: u64,
    ) -> (r: Result<i128, CrowdfundingError>)
        requires
            old(self).wf(),
            old(token).wf(),
        ensures
            final(self).wf(),
            final(token).wf(),
            r is Err ==> *final(self) == *old(self) && *final(token) == *old(token),
            !old(self).has_pool(pool_id) ==> r == Err::<i128, CrowdfundingError>(
                CrowdfundingError::PoolNotFound,
            ),
            old(self).has_pool(pool_id) && !old(self).spec_pool(pool_id).refundable() ==> r
                == Err::<i128, CrowdfundingError>(CrowdfundingError::PoolNotActive),
            old(self).has_pool(pool_id) && old(self).spec_pool(pool_id).refundable()
                && old(self).spec_pool(pool_id).contribution_of(contributor) == 0 ==> r == Err::<
                i128,
                CrowdfundingError,
            >(CrowdfundingError::InsufficientBalance),
            old(self).has_pool(pool_id) && old(self).spec_pool(pool_id).refundable()
                && old(self).spec_pool(pool_id).contribution_of(contributor) > 0 && old(
                token,
            ).balance_of(old(self).escrow_address) < old(self).spec_pool(pool_id).contribution_of(
                contributor,
            ) ==> r == Err::<i128, CrowdfundingError>(CrowdfundingError::InsufficientBalance),
            old(self).has_pool(pool_id) && old(self).spec_pool(pool_id).refundable()
                && old(self).spec_pool(pool_id).contribution_of(contributor) > 0 && old(
                token,
            ).balance_of(old(self).escrow_address) >= old(self).spec_pool(pool_id).contribution_of(
                contributor,
            ) ==> r == Ok::<i128, CrowdfundingError>(
                old(self).spec_pool(pool_id).contribution_of(contributor) as i128,
            ),
            r is Ok ==> final(token).balance_map() == MockTokenContract::moved(
                old(token).balance_map(),
                old(self).escrow_address,
                contributor,
                old(self).spec_pool(pool_id).contribution_of(contributor),
            ),
            r is Ok ==> final(token).supply == old(token).supply,
            r is Ok ==> final(self).spec_pool(pool_id).contribution_of(contributor) == 0,
            r is Ok ==> forall|q: u64|
                q != contributor ==> final(self).spec_pool(pool_id).contribution_of(q) == old(
                    self,
                ).spec_pool(pool_id).contribution_of(q),
            r is Ok ==> final(self).spec_pool(pool_id) == (Pool {
                contributions: final(self).spec_pool(pool_id).contributions,
                ..old(self).spec_pool(pool_id)
            }),
            r is Ok ==> forall|j: int|
                0 <= j < old(self).pools@.len() && j != pool_id - 1 ==> final(self).pools@[j] == old(
                    self,
                ).pools@[j],
            r is Ok ==> final(self).pools@.len() == old(self).pools@.len(),
            r is Ok ==> *final(self) == (Self { pools: final(self).pools, ..*old(self) }),
    {
        let n = self.pools.len();
        if pool_id < 1 || pool_id > n as u64 {
            return Err(CrowdfundingError::PoolNotFound);
        }
        let i = (pool_id - 1) as usize;
        proof {
            assert(self.pools@[i as int].wf());
        }
        let phase = self.pools[i].status;
        if phase != PoolStatus::Failed && phase != PoolStatus::Cancelled {
            return Err(CrowdfundingError::PoolNotActive);
        }
        let c = amount_in(&self.pools[i].contributions, contributor);
        proof {
            lemma_amount_nonneg(self.pools@[i as int].contributions@, contributor);
            lemma_amount_le_total(self.pools@[i as int].contributions@, contributor);
        }
        if c <= 0 {
            return Err(CrowdfundingError::InsufficientBalance);
        }
        let escrow_bal = token.balance(self.escrow_address);
        if escrow_bal < c {
            return Err(CrowdfundingError::InsufficientBalance);
        }
        let mut own_auth: Vec<u64> = Vec::new();
        own_auth.push(self.escrow_address);
        proof {
            assert(own_auth@[0] == self.escrow_address);
            assert(own_auth@.contains(self.escrow_address));
        }
        match token.transfer(self.escrow_address, contributor, c, &own_auth) {
            Ok(()) => {},
            Err(e) => {
                proof {
                    assert(false);
                }
                return Err(e);
            },
        }
        let p = &mut self.pools[i];
        set_amount(&mut p.contributions, contributor, 0);
        Ok(c)
    }

    /// Law: identifiers are issued in order with none skipped or reused —
    /// in every well-formed registry the pool stored at position `i`
    /// carries identifier `i + 1`, and the counter equals the number of
    /// pools, so the identifiers issued so far are exactly 1 up to the
    /// counter, in order of creation.
    pub proof fn lemma_pool_ids_sequential(&self)
        requires
            self.wf(),
        ensures
            self.pool_count as int == self.pools@.len(),
            forall|i: int| 0 <= i < self.pools@.len() ==> (#[trigger] self.pools@[i]).id == i + 1,
    {
    }
}

} // verus!
