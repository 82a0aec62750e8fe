//! The two kinds of record that custody rests on: the vault record of one
//! owner, and the registry of administrator and operators.

use vstd::prelude::*;
use crate::error::CustomError;
use crate::identity::Identity;

verus! {

/// The most operators a registry holds.
pub const MAX_OPERATORS: usize = 5;

/// The record of one owner's vault.
///
/// `owner` is set when the record is made and never changes.  `bump` is the
/// disambiguator under which the vault's own identity derives from its
/// owner; it is stored so that no later operation has to search for it.
#[derive(Clone, Copy, Debug)]
pub struct UserPdaVaultAccount {
    pub owner: Identity,
    pub bump: u8,
}

/// The registry: who administers, and who may operate on any vault.
///
/// `operators` keeps the order in which operators were added.  An identity
/// may stand in it more than once; membership asks only whether it stands
/// there at all.
#[derive(Debug)]
pub struct GlobalState {
    pub admin: Identity,
    pub bump: u8,
    pub operators: Vec<Identity>,
}

/// A registry as a mathematical value.
pub struct Registry {
    pub admin: Identity,
    pub bump: u8,
    pub operators: Seq<Identity>,
}

impl View for GlobalState {
    type V = Registry;

    open spec fn view(&self) -> Registry {
        Registry { admin: self.admin, bump: self.bump, operators: self.operators@ }
    }
}

impl Registry {
    /// The registry holds no more operators than it has room for.
    pub open spec fn wf(self) -> bool {
        self.operators.len() <= MAX_OPERATORS
    }

    /// The registry a creation leaves: `admin` administers, and is the one
    /// operator.
    pub open spec fn fresh(admin: Identity, bump: u8) -> Registry {
        Registry { admin, bump, operators: seq![admin] }
    }

    /// This registry under another administrator.  The operators stay.
    pub open spec fn with_admin(self, admin: Identity) -> Registry {
        Registry { admin, ..self }
    }

    /// This registry with `operator` added at the end.
    pub open spec fn with_operator(self, operator: Identity) -> Registry {
        Registry { operators: self.operators.push(operator), ..self }
    }

    /// This registry with every occurrence of `operator` taken out, the
    /// others in the order they had.
    pub open spec fn without_operator(self, operator: Identity) -> Registry {
        Registry { operators: self.operators.filter(other_than(operator)), ..self }
    }
}

/// The identities that are not `operator`.
pub open spec fn other_than(operator: Identity) -> spec_fn(Identity) -> bool {
    |other: Identity| other != operator
}

impl Clone for GlobalState {
    fn clone(&self) -> (copy: GlobalState)
        ensures
            copy@ == self@,
    {
        let mut operators: Vec<Identity> = Vec::new();
        let mut i: usize = 0;
        while i < self.operators.len()
            invariant
                i <= self.operators.len(),
                operators@ == self.operators@.take(i as int),
            decreases self.operators.len() - i,
        {
            operators.push(self.operators[i]);
            assert(self.operators@.take(i + 1) =~= self.operators@.take(i as int).push(
                self.operators@[i as int],
            ));
            i = i + 1;
        }
        assert(self.operators@.take(i as int) =~= self.operators@);
        GlobalState { admin: self.admin, bump: self.bump, operators }
    }
}

impl UserPdaVaultAccount {
    /// The record of the vault of `owner`, with its disambiguator.
    pub fn new(owner: Identity, bump: u8) -> (record: UserPdaVaultAccount)
        ensures
            record == (UserPdaVaultAccount { owner, bump }),
    {
        UserPdaVaultAccount { owner, bump }
    }
}

impl GlobalState {
    /// The registry holds no more operators than it has room for.
    pub open spec fn wf(&self) -> bool {
        self@.wf()
    }

    /// The registry as a creation leaves it.
    pub fn new(admin: Identity, bump: u8) -> (state: GlobalState)
        ensures
            state@ == Registry::fresh(admin, bump),
            state.wf(),
    {
        let mut operators: Vec<Identity> = Vec::new();
        operators.push(admin);
        let state = GlobalState { admin, bump, operators };
        assert(state@.operators =~= seq![admin]);
        state
    }

    /// Whether `who` stands among the operators.
    pub fn is_operator(&self, who: &Identity) -> (found: bool)
        ensures
            found == self@.operators.contains(*who),
    {
        let mut i: usize = 0;
        while i < self.operators.len()
            invariant
                i <= self.operators.len(),
                forall|j: int| 0 <= j < i ==> self.operators@[j] != *who,
            decreases self.operators.len() - i,
        {
            if self.operators[i] == *who {
                return true;
            }
            i = i + 1;
        }
        false
    }

    /// Adds `operator` at the end of the operators, if there is room.
    /// An identity that is an operator already is added once more.
    pub fn add_operator(&mut self, operator: Identity) -> (r: Result<(), CustomError>)
        ensures
            old(self)@.operators.len() < MAX_OPERATORS ==> r == Ok::<(), CustomError>(())
                && final(self)@ == old(self)@.with_operator(operator),
            old(self)@.operators.len() >= MAX_OPERATORS ==> r == Err::<(), CustomError>(
                CustomError::CapacityExceeded,
            ) && *final(self) == *old(self),
    {
        if self.operators.len() >= MAX_OPERATORS {
            return Err(CustomError::CapacityExceeded);
        }
        self.operators.push(operator);
        Ok(())
    }

    /// Takes every occurrence of `operator` out of the operators.
    pub fn remove_operator(&mut self, operator: Identity)
        ensures
            final(self)@ == old(self)@.without_operator(operator),
    {
        let ghost keep = other_than(operator);
        let mut kept: Vec<Identity> = Vec::new();
        let mut i: usize = 0;
        while i < self.operators.len()
            invariant
                i <= self.operators.len(),
                *self == *old(self),
                keep == other_than(operator),
                kept@ == self.operators@.take(i as int).filter(keep),
            decreases self.operators.len() - i,
        {
            let current = self.operators[i];
            proof {
                let before = self.operators@.take(i as int);
                let upto = self.operators@.take(i + 1);
                assert(upto.drop_last() =~= before);
                assert(upto.last() == current);
                reveal_with_fuel(Seq::filter, 2);
            }
            if current != operator {
                kept.push(current);
            }
            i = i + 1;
        }
        assert(self.operators@.take(i as int) =~= self.operators@);
        self.operators = kept;
    }
}

/// Removal leaves no occurrence behind.
pub proof fn lemma_removed_is_absent(registry: Registry, operator: Identity)
    ensures
        !registry.without_operator(operator).operators.contains(operator),
{
    let keep = other_than(operator);
    let left = registry.operators.filter(keep);
    if left.contains(operator) {
        let i = choose|i: int| 0 <= i < left.len() && left[i] == operator;
        registry.operators.lemma_filter_pred(keep, i);
    }
}

/// Removal of one operator neither drops nor brings in any other.
pub proof fn lemma_removal_keeps_others(registry: Registry, operator: Identity, other: Identity)
    requires
        other != operator,
    ensures
        registry.without_operator(operator).operators.contains(other)
            == registry.operators.contains(other),
{
    let keep = other_than(operator);
    let left = registry.operators.filter(keep);
    if left.contains(other) {
        registry.operators.lemma_filter_contains_rev(keep, other);
    }
    if registry.operators.contains(other) {
        let i = choose|i: int| 0 <= i < registry.operators.len() && registry.operators[i] == other;
        registry.operators.lemma_filter_contains(keep, i);
    }
}

/// Removal never makes a registry longer.
pub proof fn lemma_removal_keeps_bound(registry: Registry, operator: Identity)
    ensures
        registry.without_operator(operator).operators.len() <= registry.operators.len(),
{
    registry.operators.lemma_filter_len(other_than(operator));
}

} // verus!
