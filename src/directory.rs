//! The authenticator directory: round-robin assignment, and the admin's
//! registration and removal of authenticators.
use vstd::prelude::*;

use crate::errors::{AuctionAuthError, ConfigError, MarketError};
use crate::pubkey::{contains_key, position_of, Pubkey};
use crate::states::AuthenticatorsRegistry;

verus! {

/// The most authenticators the directory holds.
pub const MAX_AUTHENTICATORS: usize = 100;

/// A well-kept directory: at most `MAX_AUTHENTICATORS` entries, each a
/// nonzero key other than the admin's, none listed twice.
pub open spec fn directory_valid(list: Seq<Pubkey>, admin: Pubkey) -> bool {
    &&& list.len() <= MAX_AUTHENTICATORS
    &&& list.no_duplicates()
    &&& !list.contains(Pubkey::spec_zeroed())
    &&& !list.contains(admin)
}

impl AuthenticatorsRegistry {
    /// The authenticator that the next assignment picks: the one under the
    /// cursor, the cursor taken modulo the length of the list.
    pub open spec fn spec_assigned(&self) -> Pubkey {
        self.authenticators@[(self.next_index as int) % (self.authenticators@.len() as int)]
    }

    /// The cursor after an assignment: one further, modulo the length.
    pub open spec fn spec_advanced_cursor(&self) -> int {
        (self.next_index as int + 1) % (self.authenticators@.len() as int)
    }

    /// Picks the authenticator under the cursor and advances the cursor.
    /// Fails, changing nothing, when the directory is empty.
    pub fn assign(&mut self) -> (r: Result<Pubkey, MarketError>)
        ensures
            old(self).authenticators@.len() == 0 ==> r == Err::<Pubkey, MarketError>(
                MarketError::Auth(AuctionAuthError::NoAuthenticatorAvailable),
            ) && *final(self) == *old(self),
            old(self).authenticators@.len() > 0 ==> {
                &&& r == Ok::<Pubkey, MarketError>(old(self).spec_assigned())
                &&& final(self).next_index == old(self).spec_advanced_cursor()
                &&& final(self).authenticators@ == old(self).authenticators@
                &&& final(self).admin == old(self).admin
                &&& final(self).bump == old(self).bump
            },
    {
        let len = self.authenticators.len();
        if len == 0 {
            return Err(MarketError::Auth(AuctionAuthError::NoAuthenticatorAvailable));
        }
        let n = len as u64;
        let index = self.next_index % n;
        let authenticator = self.authenticators[index as usize];
        self.next_index = (index + 1) % n;
        proof {
            vstd::arithmetic::div_mod::lemma_add_mod_noop(
                old(self).next_index as int,
                1,
                n as int,
            );
            vstd::arithmetic::div_mod::lemma_add_mod_noop_right(index as int, 1, n as int);
        }
        Ok(authenticator)
    }
}

/// Why `k` cannot join a directory that lists `existing`, whose admin is
/// `admin`; `None` when it can.
pub open spec fn admission_error(existing: Seq<Pubkey>, admin: Pubkey, k: Pubkey) -> Option<
    MarketError,
> {
    if k == Pubkey::spec_zeroed() {
        Some(MarketError::Auth(AuctionAuthError::InvalidKey))
    } else if existing.contains(k) {
        Some(MarketError::Auth(AuctionAuthError::AlreadyRegistered))
    } else if k == admin {
        Some(MarketError::Config(ConfigError::AdminCannotbeAuthenticator))
    } else {
        None
    }
}

/// The list after admitting each of `added` in turn to `existing`, or the
/// first refusal.
pub open spec fn registered(existing: Seq<Pubkey>, admin: Pubkey, added: Seq<Pubkey>) -> Result<
    Seq<Pubkey>,
    MarketError,
>
    decreases added.len(),
{
    if added.len() == 0 {
        Ok(existing)
    } else {
        match registered(existing, admin, added.drop_last()) {
            Ok(list) => match admission_error(list, admin, added.last()) {
                Some(e) => Err(e),
                None => Ok(list.push(added.last())),
            },
            Err(e) => Err(e),
        }
    }
}

/// A refusal among the first `n` keys is the refusal of the whole list.
proof fn lemma_refusal_persists(existing: Seq<Pubkey>, admin: Pubkey, added: Seq<Pubkey>, n: int)
    requires
        0 <= n <= added.len(),
        registered(existing, admin, added.subrange(0, n)) is Err,
    ensures
        registered(existing, admin, added) == registered(existing, admin, added.subrange(0, n)),
    decreases added.len() - n,
{
    if n < added.len() {
        let shorter = added.drop_last();
        assert(shorter.subrange(0, n) =~= added.subrange(0, n));
        lemma_refusal_persists(existing, admin, shorter, n);
    } else {
        assert(added.subrange(0, n) =~= added);
    }
}

proof fn lemma_concat_contains(a: Seq<Pubkey>, b: Seq<Pubkey>, k: Pubkey)
    ensures
        (a + b).contains(k) <==> a.contains(k) || b.contains(k),
{
    if a.contains(k) {
        let j = choose|j: int| 0 <= j < a.len() && a[j] == k;
        assert((a + b)[j] == k);
    }
    if b.contains(k) {
        let j = choose|j: int| 0 <= j < b.len() && b[j] == k;
        assert((a + b)[a.len() + j] == k);
    }
    if (a + b).contains(k) {
        let j = choose|j: int| 0 <= j < (a + b).len() && (a + b)[j] == k;
        if j < a.len() {
            assert(a[j] == k);
        } else {
            assert(b[j - a.len()] == k);
        }
    }
}

/// Whether `k` occurs among the first `n` keys.
fn contains_key_before(keys: &Vec<Pubkey>, n: usize, k: &Pubkey) -> (r: bool)
    requires
        n <= keys@.len(),
    ensures
        r == keys@.subrange(0, n as int).contains(*k),
{
    let mut i: usize = 0;
    while i < n
        invariant
            i <= n <= keys@.len(),
            forall|j: int| 0 <= j < i ==> keys@[j] != *k,
        decreases n - i,
    {
        if keys[i] == *k {
            assert(keys@.subrange(0, n as int)[i as int] == *k);
            return true;
        }
        i = i + 1;
    }
    assert forall|j: int| 0 <= j < n implies keys@.subrange(0, n as int)[j] != *k by {}
    false
}

/// The records that registration of authenticators writes.
#[derive(Debug, Clone)]
pub struct RegisterAuthenticators {
    /// The caller, who must be the directory's admin.
    pub admin: Pubkey,
    pub registry: AuthenticatorsRegistry,
}

impl RegisterAuthenticators {
    /// Appends `authenticators` to the directory, in order. The directory
    /// must have room for all of them; each must be a nonzero key, not listed
    /// yet (nor earlier in `authenticators`), and not the admin's. Every key
    /// is checked before any is added: on failure nothing changes.
    pub fn register_authenticators(&mut self, authenticators: Vec<Pubkey>) -> (r: Result<
        (),
        MarketError,
    >)
        ensures
            old(self).admin != old(self).registry.admin ==> r == Err::<(), MarketError>(
                MarketError::Config(ConfigError::ExclusiveToAdmin),
            ) && *final(self) == *old(self),
            old(self).admin == old(self).registry.admin && old(
                self,
            ).registry.authenticators@.len() + authenticators@.len() > MAX_AUTHENTICATORS ==> r
                == Err::<(), MarketError>(MarketError::Config(ConfigError::RegistryFull))
                && *final(self) == *old(self),
            old(self).admin == old(self).registry.admin && old(
                self,
            ).registry.authenticators@.len() + authenticators@.len() <= MAX_AUTHENTICATORS
                ==> match registered(
                old(self).registry.authenticators@,
                old(self).admin,
                authenticators@,
            ) {
                Ok(list) => {
                    &&& r is Ok
                    &&& final(self).registry.authenticators@ == list
                    &&& final(self).registry.admin == old(self).registry.admin
                    &&& final(self).registry.next_index == old(self).registry.next_index
                    &&& final(self).registry.bump == old(self).registry.bump
                    &&& final(self).admin == old(self).admin
                },
                Err(e) => r == Err::<(), MarketError>(e) && *final(self) == *old(self),
            },
            r is Ok ==> final(self).registry.authenticators@.len() <= MAX_AUTHENTICATORS,
    {
        if self.admin != self.registry.admin {
            return Err(MarketError::Config(ConfigError::ExclusiveToAdmin));
        }
        if authenticators.len() > MAX_AUTHENTICATORS || self.registry.authenticators.len()
            > MAX_AUTHENTICATORS - authenticators.len() {
            return Err(MarketError::Config(ConfigError::RegistryFull));
        }
        let ghost existing = self.registry.authenticators@;
        let n = authenticators.len();
        let mut i: usize = 0;
        while i < n
            invariant
                i <= n == authenticators@.len(),
                existing == self.registry.authenticators@,
                existing.len() + authenticators@.len() <= MAX_AUTHENTICATORS,
                self.admin == self.registry.admin,
                registered(existing, self.admin, authenticators@.subrange(0, i as int)) == Ok::<
                    Seq<Pubkey>,
                    MarketError,
                >(existing + authenticators@.subrange(0, i as int)),
            decreases n - i,
        {
            let k = authenticators[i];
            let ghost prefix = authenticators@.subrange(0, i as int);
            let ghost next = authenticators@.subrange(0, i + 1);
            assert(next.drop_last() =~= prefix);
            let in_existing = contains_key(&self.registry.authenticators, &k);
            let in_prefix = contains_key_before(&authenticators, i, &k);
            proof {
                lemma_concat_contains(existing, prefix, k);
            }
            let refusal = if k.is_zeroed() {
                Some(MarketError::Auth(AuctionAuthError::InvalidKey))
            } else if in_existing || in_prefix {
                Some(MarketError::Auth(AuctionAuthError::AlreadyRegistered))
            } else if k == self.admin {
                Some(MarketError::Config(ConfigError::AdminCannotbeAuthenticator))
            } else {
                None
            };
            match refusal {
                Some(e) => {
                    proof {
                        lemma_refusal_persists(existing, self.admin, authenticators@, i + 1);
                    }
                    return Err(e);
                },
                None => {},
            }
            assert(existing + next =~= (existing + prefix).push(k));
            i = i + 1;
        }
        assert(authenticators@.subrange(0, n as int) =~= authenticators@);
        let mut j: usize = 0;
        while j < n
            invariant
                j <= n == authenticators@.len(),
                self.registry.authenticators@ == existing + authenticators@.subrange(0, j as int),
                existing.len() + authenticators@.len() <= MAX_AUTHENTICATORS,
                self.admin == old(self).admin,
                self.registry.admin == old(self).registry.admin,
                self.registry.next_index == old(self).registry.next_index,
                self.registry.bump == old(self).registry.bump,
            decreases n - j,
        {
            self.registry.authenticators.push(authenticators[j]);
            assert(existing + authenticators@.subrange(0, j + 1) =~= (existing
                + authenticators@.subrange(0, j as int)).push(authenticators@[j as int]));
            j = j + 1;
        }
        Ok(())
    }
}

/// Admitted keys are appended one each, and keep a well-kept directory
/// well-kept while there is room.
pub proof fn lemma_registration_keeps_directory_valid(
    existing: Seq<Pubkey>,
    admin: Pubkey,
    added: Seq<Pubkey>,
)
    requires
        directory_valid(existing, admin),
        existing.len() + added.len() <= MAX_AUTHENTICATORS,
        registered(existing, admin, added) is Ok,
    ensures
        registered(existing, admin, added)->Ok_0.len() == existing.len() + added.len(),
        directory_valid(registered(existing, admin, added)->Ok_0, admin),
    decreases added.len(),
{
    if added.len() > 0 {
        let shorter = added.drop_last();
        lemma_registration_keeps_directory_valid(existing, admin, shorter);
        let list = registered(existing, admin, shorter)->Ok_0;
        let k = added.last();
        let after = list.push(k);
        assert forall|i: int, j: int|
            0 <= i < after.len() && 0 <= j < after.len() && i != j implies after[i]
            != after[j] by {
            if i < list.len() && j < list.len() {
            } else if i == list.len() {
                assert(list[j] == after[j]);
            } else {
                assert(list[i] == after[i]);
            }
        }
        assert forall|x: Pubkey| after.contains(x) implies x == k || list.contains(x) by {
            let i = choose|i: int| 0 <= i < after.len() && after[i] == x;
            if i < list.len() {
                assert(list[i] == x);
            }
        }
    }
}

/// `list` without the first occurrence of `k`, whose place the last element
/// takes.
pub open spec fn swap_removed(list: Seq<Pubkey>, k: Pubkey) -> Seq<Pubkey> {
    let p = choose|p: int|
        0 <= p < list.len() && list[p] == k && forall|j: int| 0 <= j < p ==> list[j] != k;
    list.update(p, list.last()).drop_last()
}

/// The records that removal of an authenticator writes.
#[derive(Debug, Clone)]
pub struct RemoveAuthenticator {
    /// The caller, who must be the directory's admin.
    pub admin: Pubkey,
    pub registry: AuthenticatorsRegistry,
}

impl RemoveAuthenticator {
    /// Takes `authenticator` out of the directory; the last listed
    /// authenticator takes its place. The cursor is left as it is.
    pub fn remove_authenticator(&mut self, authenticator: Pubkey) -> (r: Result<(), MarketError>)
        ensures
            old(self).admin != old(self).registry.admin ==> r == Err::<(), MarketError>(
                MarketError::Config(ConfigError::ExclusiveToAdmin),
            ) && *final(self) == *old(self),
            old(self).admin == old(self).registry.admin && !old(
                self,
            ).registry.authenticators@.contains(authenticator) ==> r == Err::<(), MarketError>(
                MarketError::Config(ConfigError::AuthenticatorNotInRegistry),
            ) && *final(self) == *old(self),
            old(self).admin == old(self).registry.admin && old(
                self,
            ).registry.authenticators@.contains(authenticator) ==> {
                &&& r is Ok
                &&& final(self).registry.authenticators@ == swap_removed(
                    old(self).registry.authenticators@,
                    authenticator,
                )
                &&& final(self).registry.admin == old(self).registry.admin
                &&& final(self).registry.next_index == old(self).registry.next_index
                &&& final(self).registry.bump == old(self).registry.bump
                &&& final(self).admin == old(self).admin
            },
    {
        if self.admin != self.registry.admin {
            return Err(MarketError::Config(ConfigError::ExclusiveToAdmin));
        }
        match position_of(&self.registry.authenticators, &authenticator) {
            None => Err(MarketError::Config(ConfigError::AuthenticatorNotInRegistry)),
            Some(p) => {
                let ghost list = self.registry.authenticators@;
                proof {
                    let c = choose|c: int|
                        0 <= c < list.len() && list[c] == authenticator && forall|j: int|
                            0 <= j < c ==> list[j] != authenticator;
                    assert(c == p as int);
                }
                self.registry.authenticators.swap_remove(p);
                Ok(())
            },
        }
    }
}

/// Registering one authenticator and then removing it gives the directory
/// back the list it had before, and so the same membership.
pub proof fn lemma_register_then_remove(list: Seq<Pubkey>, admin: Pubkey, k: Pubkey)
    requires
        registered(list, admin, seq![k]) is Ok,
    ensures
        registered(list, admin, seq![k])->Ok_0.contains(k),
        swap_removed(registered(list, admin, seq![k])->Ok_0, k) == list,
        swap_removed(registered(list, admin, seq![k])->Ok_0, k).to_set() == list.to_set(),
{
    reveal_with_fuel(registered, 2);
    let added = seq![k];
    assert(added.drop_last() =~= Seq::<Pubkey>::empty());
    assert(added.last() == k);
    let after = list.push(k);
    assert(registered(list, admin, added) == Ok::<Seq<Pubkey>, MarketError>(after));
    assert(!list.contains(k));
    assert(after[list.len() as int] == k);
    let p = choose|p: int|
        0 <= p < after.len() && after[p] == k && forall|j: int| 0 <= j < p ==> after[j] != k;
    assert forall|j: int| 0 <= j < list.len() implies after[j] != k by {
        assert(after[j] == list[j]);
    }
    assert(p == list.len());
    assert(after.update(p, after.last()).drop_last() =~= list);
}

} // verus!
