//! A verified model of the balance ledger the fee engine acts on.
//!
//! The runtime's ledger is a collaborator of the fee-charging core; the core
//! needs four capabilities from it: a withdrawal-feasibility query, an
//! existence-preserving withdrawal, a deposit, and the minimum balance an
//! account must keep to stay alive. [`Ledger`] provides exactly those, over a
//! map from account to balance in which an absent account reads as balance
//! zero. Account-creation rules, dust collection and balance freezes are not
//! modelled: an account here is just its balance.

use vstd::prelude::*;
use std::collections::HashMap;
use crate::{AccountId, Balance};

verus! {

/// Why the ledger refused an operation.
#[derive(Clone, Copy, Debug, PartialEq, Eq, Structural)]
pub enum LedgerError {
    /// The account's balance cannot cover the requested amount.
    FundsUnavailable,
    /// Crediting the amount would push the balance past the representable maximum.
    Overflow,
}

/// Verdict of a withdrawal-feasibility query.
#[derive(Clone, Copy, Debug, PartialEq, Eq, Structural)]
pub enum WithdrawConsequence {
    /// The withdrawal would go through.
    Success,
    /// The balance is smaller than the requested amount.
    BalanceLow,
    /// The withdrawal would leave the account below the minimum balance.
    WouldDie,
}

/// Whether an operation must move the exact requested amount or as much of it
/// as the balance allows.
#[derive(Clone, Copy, Debug, PartialEq, Eq, Structural)]
pub enum Precision {
    Exact,
    BestEffort,
}

/// Whether a withdrawal must leave the account above the minimum balance.
#[derive(Clone, Copy, Debug, PartialEq, Eq, Structural)]
pub enum Preservation {
    Preserve,
    Expendable,
}

/// How forcefully to draw on the balance. The model has no freezes or locks,
/// so both levels behave alike; the distinction is kept for the caller's
/// intent to be visible.
#[derive(Clone, Copy, Debug, PartialEq, Eq, Structural)]
pub enum Fortitude {
    Polite,
    Force,
}

/// The balance an account holds in `balances`; an absent account holds zero.
pub open spec fn balance_in(balances: Map<AccountId, Balance>, who: AccountId) -> Balance {
    if balances.contains_key(who) {
        balances[who]
    } else {
        0
    }
}

/// `a + b`, clamped at the largest representable balance.
pub open spec fn saturating_add(a: Balance, b: Balance) -> Balance {
    if a + b <= Balance::MAX {
        (a + b) as Balance
    } else {
        Balance::MAX
    }
}

/// Proof that an amount has been debited from some account and is not yet
/// recognised as spent. Produced only by [`Ledger::withdraw`]; movable but
/// deliberately neither copyable nor clonable, so that the debit can be
/// settled exactly once.
pub struct WithdrawalReceipt {
    amount: Balance,
}

impl WithdrawalReceipt {
    /// The debited amount this receipt stands for.
    pub closed spec fn amount(&self) -> Balance {
        self.amount
    }

    /// Read the debited amount without consuming the receipt.
    pub fn peek(&self) -> (a: Balance)
        ensures
            a == self.amount(),
    {
        self.amount
    }
}

/// Balances of all accounts, with a minimum balance an account must keep to
/// survive an existence-preserving withdrawal.
pub struct Ledger {
    balances: HashMap<AccountId, Balance>,
    minimum_balance: Balance,
}

impl Ledger {
    /// The balance map this ledger holds.
    pub closed spec fn balances(&self) -> Map<AccountId, Balance> {
        self.balances@
    }

    /// The configured minimum balance.
    pub closed spec fn spec_minimum_balance(&self) -> Balance {
        self.minimum_balance
    }

    /// The balance of `who`; zero if the account has never been credited.
    pub open spec fn balance_of(&self, who: AccountId) -> Balance {
        balance_in(self.balances(), who)
    }

    /// Whether `who` can part with `amount` while keeping the minimum
    /// balance: a zero amount always can, a positive one only out of the
    /// balance beyond the minimum.
    pub open spec fn can_cover(&self, who: AccountId, amount: Balance) -> bool {
        amount == 0 || self.balance_of(who) >= amount + self.spec_minimum_balance()
    }

    /// How much of `who`'s balance a withdrawal may take: everything beyond
    /// the minimum balance if the account must be preserved, everything
    /// otherwise.
    pub open spec fn spendable(&self, who: AccountId, preservation: Preservation) -> Balance {
        let keep: Balance = if preservation is Preserve {
            self.spec_minimum_balance()
        } else {
            0
        };
        if self.balance_of(who) >= keep {
            (self.balance_of(who) - keep) as Balance
        } else {
            0
        }
    }

    /// An empty ledger with the given minimum balance.
    pub fn new(minimum_balance: Balance) -> (l: Ledger)
        ensures
            l.balances() == Map::<AccountId, Balance>::empty(),
            l.spec_minimum_balance() == minimum_balance,
    {
        Ledger { balances: HashMap::new(), minimum_balance }
    }

    /// The balance of `who`.
    pub fn free_balance(&self, who: AccountId) -> (b: Balance)
        ensures
            b == self.balance_of(who),
    {
        match self.balances.get(&who) {
            Some(b) => *b,
            None => 0,
        }
    }

    /// The minimum balance an account must keep to survive a preserving
    /// withdrawal.
    pub fn minimum_balance(&self) -> (m: Balance)
        ensures
            m == self.spec_minimum_balance(),
    {
        self.minimum_balance
    }

    /// Whether a withdrawal of `amount` from `who` would go through, and if
    /// not, why not. Pure query: the ledger is untouched.
    pub fn can_withdraw(&self, who: AccountId, amount: Balance) -> (c: WithdrawConsequence)
        ensures
            c is Success <==> self.can_cover(who, amount),
            c is BalanceLow <==> amount > 0 && self.balance_of(who) < amount,
            c is WouldDie <==> 0 < amount <= self.balance_of(who)
                && self.balance_of(who) < amount + self.spec_minimum_balance(),
    {
        if amount == 0 {
            return WithdrawConsequence::Success;
        }
        let b = self.free_balance(who);
        if b < amount {
            WithdrawConsequence::BalanceLow
        } else if b - amount < self.minimum_balance {
            WithdrawConsequence::WouldDie
        } else {
            WithdrawConsequence::Success
        }
    }

    /// Debit up to `amount` from `who`, keeping the minimum balance when the
    /// account is to be preserved. With exact precision the full amount is
    /// taken or the call fails, touching nothing; with best effort whatever
    /// part of it is spendable is taken. The debit comes back as a receipt
    /// holding the amount taken.
    pub fn withdraw(
        &mut self,
        who: AccountId,
        amount: Balance,
        precision: Precision,
        preservation: Preservation,
        _fortitude: Fortitude,
    ) -> (r: Result<WithdrawalReceipt, LedgerError>)
        ensures
            final(self).spec_minimum_balance() == old(self).spec_minimum_balance(),
            r is Ok <==> (precision is BestEffort || amount <= old(self).spendable(
                who,
                preservation,
            )),
            match r {
                Ok(receipt) => {
                    &&& receipt.amount() == (if amount <= old(self).spendable(who, preservation) {
                        amount
                    } else {
                        old(self).spendable(who, preservation)
                    })
                    &&& final(self).balances() == old(self).balances().insert(
                        who,
                        (old(self).balance_of(who) - receipt.amount()) as Balance,
                    )
                },
                Err(e) => e == LedgerError::FundsUnavailable && *final(self) == *old(self),
            },
    {
        let b = self.free_balance(who);
        let keep: Balance = match preservation {
            Preservation::Preserve => self.minimum_balance,
            Preservation::Expendable => 0,
        };
        let spendable: Balance = if b >= keep {
            b - keep
        } else {
            0
        };
        let take: Balance = match precision {
            Precision::Exact => {
                if amount > spendable {
                    return Err(LedgerError::FundsUnavailable);
                }
                amount
            },
            Precision::BestEffort => {
                if amount <= spendable {
                    amount
                } else {
                    spendable
                }
            },
        };
        self.balances.insert(who, b - take);
        Ok(WithdrawalReceipt { amount: take })
    }

    /// Credit `amount` to `who`. With exact precision the full amount is
    /// deposited or the call fails on overflow, touching nothing; with best
    /// effort as much of it as still fits is deposited. Returns the amount
    /// actually credited.
    pub fn deposit(&mut self, who: AccountId, amount: Balance, precision: Precision) -> (r: Result<
        Balance,
        LedgerError,
    >)
        ensures
            final(self).spec_minimum_balance() == old(self).spec_minimum_balance(),
            r is Ok <==> (precision is BestEffort || old(self).balance_of(who) + amount
                <= Balance::MAX),
            match r {
                Ok(credited) => {
                    &&& credited == (if old(self).balance_of(who) + amount <= Balance::MAX {
                        amount
                    } else {
                        (Balance::MAX - old(self).balance_of(who)) as Balance
                    })
                    &&& final(self).balances() == old(self).balances().insert(
                        who,
                        saturating_add(old(self).balance_of(who), amount),
                    )
                },
                Err(e) => e == LedgerError::Overflow && *final(self) == *old(self),
            },
    {
        let b = self.free_balance(who);
        if b <= Balance::MAX - amount {
            self.balances.insert(who, b + amount);
            Ok(amount)
        } else {
            match precision {
                Precision::Exact => Err(LedgerError::Overflow),
                Precision::BestEffort => {
                    let credited = Balance::MAX - b;
                    self.balances.insert(who, Balance::MAX);
                    Ok(credited)
                },
            }
        }
    }

    /// Move `amount` from `from` to `to`. Fails, touching nothing, when the
    /// sender's balance is short or the recipient's would overflow. The
    /// sender may drop below the minimum balance — the transfer allows the
    /// sending account's death; reaping and dust are not modelled.
    pub fn transfer(&mut self, from: AccountId, to: AccountId, amount: Balance) -> (r: Result<
        (),
        LedgerError,
    >)
        ensures
            final(self).spec_minimum_balance() == old(self).spec_minimum_balance(),
            r is Ok <==> old(self).balance_of(from) >= amount && (from == to || old(
                self,
            ).balance_of(to) + amount <= Balance::MAX),
            r is Ok && from != to ==> final(self).balances() == old(self).balances().insert(
                from,
                (old(self).balance_of(from) - amount) as Balance,
            ).insert(to, (old(self).balance_of(to) + amount) as Balance),
            r is Ok && from == to ==> *final(self) == *old(self),
            r is Err ==> *final(self) == *old(self) && r == Err::<(), LedgerError>(
                if old(self).balance_of(from) < amount {
                    LedgerError::FundsUnavailable
                } else {
                    LedgerError::Overflow
                },
            ),
    {
        let from_bal = self.free_balance(from);
        if from_bal < amount {
            return Err(LedgerError::FundsUnavailable);
        }
        if from == to {
            return Ok(());
        }
        let to_bal = self.free_balance(to);
        if to_bal > Balance::MAX - amount {
            return Err(LedgerError::Overflow);
        }
        self.balances.insert(from, from_bal - amount);
        self.balances.insert(to, to_bal + amount);
        Ok(())
    }
}

} // verus!
