//! The application's identity and the owner set derived from it.

use crate::config::StartupError;
use std::collections::HashSet;
use vstd::prelude::*;
use vstd::std_specs::hash::*;

verus! {

/// What the identity lookup returns: the application's owner and its own id.
#[derive(Clone, Copy, Debug, PartialEq, Eq, Structural)]
pub struct Identity {
    pub owner_id: u64,
    pub application_id: u64,
}

/// The owners and the application id that the bot runs with.
pub struct Owners {
    /// The users treated as the application's owners.
    pub ids: HashSet<u64>,
    /// The application's own id.
    pub application_id: u64,
}

impl Owners {
    /// The set of owner ids.
    pub open spec fn view(&self) -> Set<u64> {
        self.ids@
    }

    /// Whether `user` is an owner.
    pub fn is_owner(&self, user: u64) -> (r: bool)
        ensures
            r == self@.contains(user),
    {
        broadcast use group_hash_axioms;

        self.ids.contains(&user)
    }

    /// The number of owners.
    pub fn count(&self) -> (n: usize)
        ensures
            n == self@.len(),
    {
        broadcast use group_hash_axioms;

        self.ids.len()
    }
}

/// The owner set of an identity: its owner, and nobody else.
pub fn owner_set(identity: Identity) -> (owners: HashSet<u64>)
    ensures
        owners@ == set![identity.owner_id],
{
    broadcast use group_hash_axioms;

    let mut owners: HashSet<u64> = HashSet::new();
    owners.insert(identity.owner_id);
    assert(owners@ =~= set![identity.owner_id]);
    owners
}

/// Turns the outcome of the identity lookup into the owners the bot runs
/// with. A failed lookup is fatal.
pub fn resolve_identity(lookup: Option<Identity>) -> (r: Result<Owners, StartupError>)
    ensures
        match lookup {
            Some(identity) => r is Ok && r->Ok_0@ == set![identity.owner_id]
                && r->Ok_0.application_id == identity.application_id,
            None => r == Err::<Owners, StartupError>(StartupError::IdentityLookupFailed),
        },
{
    match lookup {
        Some(identity) => Ok(
            Owners { ids: owner_set(identity), application_id: identity.application_id },
        ),
        None => Err(StartupError::IdentityLookupFailed),
    }
}

} // verus!
