//! The ledger that payments go through, and a simple balance ledger.
use vstd::prelude::*;
use std::collections::BTreeMap;
use crate::kitty::AccountId;

verus! {

/// Whether a transfer may leave the payer below the minimum balance.
#[derive(Clone, Copy, Debug, PartialEq, Eq, Structural)]
pub enum ExistenceRequirement {
    /// The payer must keep at least the minimum balance.
    KeepAlive,
    /// The payer may fall below the minimum balance.
    AllowDeath,
}

/// Why a ledger refused a transfer.
#[derive(Clone, Copy, Debug, PartialEq, Eq, Structural)]
pub enum LedgerError {
    /// The payer holds less than the amount.
    InsufficientBalance,
    /// The payer would fall below the minimum balance.
    Expendability,
    /// The payee's balance would overflow.
    Overflow,
}

/// The balance of `who` in `balances`; absent accounts hold nothing.
pub open spec fn balance_in(balances: Map<AccountId, nat>, who: AccountId) -> nat {
    if balances.contains_key(who) {
        balances[who]
    } else {
        0
    }
}

/// The balances after `amount` moves from `from` to `to` (a transfer to oneself moves
/// nothing).
pub open spec fn after_transfer(
    balances: Map<AccountId, nat>,
    from: AccountId,
    to: AccountId,
    amount: nat,
) -> Map<AccountId, nat> {
    if from == to {
        balances
    } else {
        balances.insert(from, (balance_in(balances, from) - amount) as nat).insert(
            to,
            balance_in(balances, to) + amount,
        )
    }
}

/// A ledger that moves funds between accounts.
pub trait Currency {
    /// The balance of every account.
    spec fn balances(&self) -> Map<AccountId, nat>;

    /// The least balance that a `KeepAlive` transfer leaves the payer.
    spec fn minimum_balance(&self) -> nat;

    /// Whether this ledger accepts moving `amount` from `from` to `to` under `existence`.
    spec fn transfer_ok(
        &self,
        from: AccountId,
        to: AccountId,
        amount: u128,
        existence: ExistenceRequirement,
    ) -> bool;

    /// Moves `amount` from `from` to `to`, succeeding exactly when the ledger accepts the
    /// transfer. On success the payer held the amount (and, under `KeepAlive`, keeps the
    /// minimum balance); on failure nothing moves.
    fn transfer(
        &mut self,
        from: AccountId,
        to: AccountId,
        amount: u128,
        existence: ExistenceRequirement,
    ) -> (r: Result<(), LedgerError>)
        ensures
            final(self).minimum_balance() == old(self).minimum_balance(),
            r is Ok <==> old(self).transfer_ok(from, to, amount, existence),
            r is Ok ==> {
                &&& amount <= balance_in(old(self).balances(), from)
                &&& existence is KeepAlive ==> balance_in(old(self).balances(), from) - amount
                    >= old(self).minimum_balance()
                &&& final(self).balances() == after_transfer(
                    old(self).balances(),
                    from,
                    to,
                    amount as nat,
                )
            },
            r is Err ==> final(self).balances() == old(self).balances(),
    ;
}

/// A ledger of free balances with an existential deposit.
pub struct Balances {
    accounts: BTreeMap<AccountId, u128>,
    existential_deposit: u128,
}

impl Balances {
    /// A ledger in which no account holds anything.
    pub fn new(existential_deposit: u128) -> (r: Balances)
        ensures
            r.balances() == Map::<AccountId, nat>::empty(),
            r.minimum_balance() == existential_deposit,
    {
        let r = Balances { accounts: BTreeMap::new(), existential_deposit };
        assert(r.balances() =~= Map::<AccountId, nat>::empty());
        r
    }

    /// Sets the balance of `who`.
    pub fn set_balance(&mut self, who: AccountId, amount: u128)
        ensures
            final(self).balances() == old(self).balances().insert(who, amount as nat),
            final(self).minimum_balance() == old(self).minimum_balance(),
    {
        self.accounts.insert(who, amount);
        assert(self.balances() =~= old(self).balances().insert(who, amount as nat));
    }

    /// The balance of `who`.
    pub fn free_balance(&self, who: AccountId) -> (r: u128)
        ensures
            r == balance_in(self.balances(), who),
    {
        match self.accounts.get(&who) {
            Some(b) => *b,
            None => 0,
        }
    }
}

impl Currency for Balances {
    closed spec fn balances(&self) -> Map<AccountId, nat> {
        self.accounts@.map_values(|b: u128| b as nat)
    }

    closed spec fn minimum_balance(&self) -> nat {
        self.existential_deposit as nat
    }

    /// The payer holds the amount, keeps the existential deposit under `KeepAlive`, and
    /// the payee's balance does not overflow.
    open spec fn transfer_ok(
        &self,
        from: AccountId,
        to: AccountId,
        amount: u128,
        existence: ExistenceRequirement,
    ) -> bool {
        let payer = balance_in(self.balances(), from);
        &&& amount <= payer
        &&& existence is KeepAlive ==> payer - amount >= self.minimum_balance()
        &&& from != to ==> balance_in(self.balances(), to) + amount <= u128::MAX
    }

    fn transfer(
        &mut self,
        from: AccountId,
        to: AccountId,
        amount: u128,
        existence: ExistenceRequirement,
    ) -> (r: Result<(), LedgerError>) {
        let from_balance = self.free_balance(from);
        if from_balance < amount {
            return Err(LedgerError::InsufficientBalance);
        }
        let remaining = from_balance - amount;
        if existence == ExistenceRequirement::KeepAlive && remaining < self.existential_deposit {
            return Err(LedgerError::Expendability);
        }
        if from == to {
            return Ok(());
        }
        let to_balance = self.free_balance(to);
        if to_balance > u128::MAX - amount {
            return Err(LedgerError::Overflow);
        }
        self.accounts.insert(from, remaining);
        self.accounts.insert(to, to_balance + amount);
        assert(self.balances() =~= after_transfer(old(self).balances(), from, to, amount as nat));
        Ok(())
    }
}

} // verus!
