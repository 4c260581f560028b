//! Two independently configured caches composed under named accessors: one
//! for account balances, one for users' outstanding-loan totals. Callers name
//! only the dataset and the key; capacity and expiry are fixed here. The
//! current instant comes from the system clock, so each contract states what
//! holds of the outcome for some clock reading, beside the clauses that hold
//! whatever the clock read.

use vstd::prelude::*;
use crate::cache::{
    get_post, invalidate_post, set_post, BoundedExpiringCache, CacheEntry, CacheError, MAX_TIME,
};

verus! {

pub const ACCOUNT_BALANCE_CAPACITY: usize = 5000;

pub const ACCOUNT_BALANCE_TTL_MS: u64 = 3_600_000;

pub const ACCOUNT_BALANCE_TTI_MS: u64 = 1_800_000;

pub const USER_LOANS_CAPACITY: usize = 1000;

pub const USER_LOANS_TTL_MS: u64 = 86_400_000;

pub const USER_LOANS_TTI_MS: u64 = 43_200_000;

/// Relies on std::time::SystemTime::now, with SystemTime::duration_since and
/// Duration::as_millis converting the reading to whole milliseconds since the
/// Unix epoch; `None` when the clock reads earlier than the epoch. Nothing
/// can be promised of a clock reading, so no clause constrains the result.
#[verifier::external_body]
fn system_millis() -> Option<u64> {
    match std::time::SystemTime::now().duration_since(std::time::UNIX_EPOCH) {
        Ok(d) => Some(d.as_millis() as u64),
        Err(_) => None,
    }
}

/// The current instant for cache operations: the system clock's milliseconds
/// since the Unix epoch, brought into the range the cache accepts.
fn current_millis() -> (r: u64)
    ensures
        r <= MAX_TIME,
{
    match system_millis() {
        Some(t) => if t > MAX_TIME {
            MAX_TIME
        } else {
            t
        },
        None => 0,
    }
}

/// The two datasets' caches: account balances (larger, shorter-lived) and
/// user outstanding-loan totals (smaller, longer-lived).
pub struct FinanceCache<V> {
    account_balance: BoundedExpiringCache<V>,
    user_outstanding_loans: BoundedExpiringCache<V>,
}

impl<V: Copy> FinanceCache<V> {
    /// The account-balance sub-cache, as contracts speak of it.
    pub closed spec fn balances(&self) -> BoundedExpiringCache<V> {
        self.account_balance
    }

    /// The outstanding-loans sub-cache, as contracts speak of it.
    pub closed spec fn loans(&self) -> BoundedExpiringCache<V> {
        self.user_outstanding_loans
    }

    pub open spec fn wf(&self) -> bool {
        &&& self.balances().wf()
        &&& self.balances().spec_max_capacity() == ACCOUNT_BALANCE_CAPACITY
        &&& self.balances().spec_time_to_live() == ACCOUNT_BALANCE_TTL_MS
        &&& self.balances().spec_time_to_idle() == ACCOUNT_BALANCE_TTI_MS
        &&& self.loans().wf()
        &&& self.loans().spec_max_capacity() == USER_LOANS_CAPACITY
        &&& self.loans().spec_time_to_live() == USER_LOANS_TTL_MS
        &&& self.loans().spec_time_to_idle() == USER_LOANS_TTI_MS
    }

    /// Both datasets start empty, configured as the constants above fix them.
    pub fn new() -> (r: Self)
        ensures
            r.wf(),
            r.balances()@ == Map::<u32, CacheEntry<V>>::empty(),
            r.loans()@ == Map::<u32, CacheEntry<V>>::empty(),
    {
        FinanceCache {
            account_balance: BoundedExpiringCache::new(
                ACCOUNT_BALANCE_CAPACITY,
                ACCOUNT_BALANCE_TTL_MS,
                ACCOUNT_BALANCE_TTI_MS,
            ),
            user_outstanding_loans: BoundedExpiringCache::new(
                USER_LOANS_CAPACITY,
                USER_LOANS_TTL_MS,
                USER_LOANS_TTI_MS,
            ),
        }
    }

    /// Reads the cached balance for `account_id`. A key never set is read as
    /// empty whatever the clock says; a returned value is exactly the one
    /// stored; in full, the read is one `get` transition at some instant.
    pub fn get_account_balance(&mut self, account_id: &u32) -> (r: Option<V>)
        requires
            old(self).wf(),
        ensures
            final(self).wf(),
            final(self).loans() == old(self).loans(),
            !old(self).balances()@.dom().contains(*account_id) ==> r is None && final(self).balances()@ == old(self).balances()@,
            r is Some ==> old(self).balances()@.dom().contains(*account_id) && r == Some(
                old(self).balances()@[*account_id].value,
            ),
            exists|now: u64|
                now <= MAX_TIME && #[trigger] get_post(
                    old(self).balances()@,
                    ACCOUNT_BALANCE_TTL_MS,
                    ACCOUNT_BALANCE_TTI_MS,
                    *account_id,
                    now,
                    final(self).balances()@,
                    r,
                ),
    {
        let now = current_millis();
        self.account_balance.get(account_id, now)
    }

    /// Reads the cached outstanding-loan total for `user_id`; the same
    /// guarantees as for balances, against the loans dataset.
    pub fn get_user_outstanding_loans(&mut self, user_id: &u32) -> (r: Option<V>)
        requires
            old(self).wf(),
        ensures
            final(self).wf(),
            final(self).balances() == old(self).balances(),
            !old(self).loans()@.dom().contains(*user_id) ==> r is None && final(self).loans()@
                == old(self).loans()@,
            r is Some ==> old(self).loans()@.dom().contains(*user_id) && r == Some(
                old(self).loans()@[*user_id].value,
            ),
            exists|now: u64|
                now <= MAX_TIME && #[trigger] get_post(
                    old(self).loans()@,
                    USER_LOANS_TTL_MS,
                    USER_LOANS_TTI_MS,
                    *user_id,
                    now,
                    final(self).loans()@,
                    r,
                ),
    {
        let now = current_millis();
        self.user_outstanding_loans.get(user_id, now)
    }

    /// Caches `value` as the balance of `account_id`: the key ends up stored
    /// with that value, evicting at most one other entry, as one `set`
    /// transition at some instant.
    pub fn set_account_balance(&mut self, account_id: u32, value: V)
        requires
            old(self).wf(),
        ensures
            final(self).wf(),
            final(self).loans() == old(self).loans(),
            final(self).balances()@.dom().contains(account_id),
            final(self).balances()@[account_id].value == value,
            exists|now: u64|
                now <= MAX_TIME && #[trigger] set_post(
                    old(self).balances()@,
                    ACCOUNT_BALANCE_TTL_MS,
                    ACCOUNT_BALANCE_TTI_MS,
                    ACCOUNT_BALANCE_CAPACITY,
                    account_id,
                    value,
                    now,
                    final(self).balances()@,
                ),
    {
        let now = current_millis();
        self.account_balance.set(account_id, value, now)
    }

    /// Caches `value` as the outstanding-loan total of `user_id`; the same
    /// guarantees as for balances, against the loans dataset.
    pub fn set_user_outstanding_loans(&mut self, user_id: u32, value: V)
        requires
            old(self).wf(),
        ensures
            final(self).wf(),
            final(self).balances() == old(self).balances(),
            final(self).loans()@.dom().contains(user_id),
            final(self).loans()@[user_id].value == value,
            exists|now: u64|
                now <= MAX_TIME && #[trigger] set_post(
                    old(self).loans()@,
                    USER_LOANS_TTL_MS,
                    USER_LOANS_TTI_MS,
                    USER_LOANS_CAPACITY,
                    user_id,
                    value,
                    now,
                    final(self).loans()@,
                ),
    {
        let now = current_millis();
        self.user_outstanding_loans.set(user_id, value, now)
    }

    /// Drops the cached balance of `account_id`. With no entry stored the
    /// call fails with `NotFound` naming the key and changes nothing; success
    /// means the key was stored and is now removed; either way the key is
    /// absent afterwards.
    pub fn invalidate_account_balance(&mut self, account_id: &u32) -> (r: Result<(), CacheError>)
        requires
            old(self).wf(),
        ensures
            final(self).wf(),
            final(self).loans() == old(self).loans(),
            !final(self).balances()@.dom().contains(*account_id),
            !old(self).balances()@.dom().contains(*account_id) ==> r == Err::<(), CacheError>(
                (CacheError::NotFound { key: *account_id }),
            ) && final(self).balances()@ == old(self).balances()@,
            r is Ok ==> old(self).balances()@.dom().contains(*account_id) && final(self).balances()@ == old(self).balances()@.remove(*account_id),
            exists|now: u64|
                now <= MAX_TIME && #[trigger] invalidate_post(
                    old(self).balances()@,
                    ACCOUNT_BALANCE_TTL_MS,
                    ACCOUNT_BALANCE_TTI_MS,
                    *account_id,
                    now,
                    final(self).balances()@,
                    r,
                ),
    {
        let now = current_millis();
        self.account_balance.invalidate(account_id, now)
    }

    /// Drops the cached outstanding-loan total of `user_id`; the same
    /// guarantees as for balances, against the loans dataset.
    pub fn invalidate_user_outstanding_loans(&mut self, user_id: &u32) -> (r: Result<
        (),
        CacheError,
    >)
        requires
            old(self).wf(),
        ensures
            final(self).wf(),
            final(self).balances() == old(self).balances(),
            !final(self).loans()@.dom().contains(*user_id),
            !old(self).loans()@.dom().contains(*user_id) ==> r == Err::<(), CacheError>(
                (CacheError::NotFound { key: *user_id }),
            ) && final(self).loans()@ == old(self).loans()@,
            r is Ok ==> old(self).loans()@.dom().contains(*user_id) && final(self).loans()@ == old(self).loans()@.remove(*user_id),
            exists|now: u64|
                now <= MAX_TIME && #[trigger] invalidate_post(
                    old(self).loans()@,
                    USER_LOANS_TTL_MS,
                    USER_LOANS_TTI_MS,
                    *user_id,
                    now,
                    final(self).loans()@,
                    r,
                ),
    {
        let now = current_millis();
        self.user_outstanding_loans.invalidate(user_id, now)
    }
}

} // verus!
