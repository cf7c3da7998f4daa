//! Flat per-extrinsic transaction fees.
//!
//! Every extrinsic costs the same configured amount, whatever its
//! computational weight or encoded length. [`FixedFeeCharger`] withdraws that
//! amount from the payer before the extrinsic runs and settles it afterwards;
//! [`ZeroToFee`] nulls the legacy weight-proportional component so the flat
//! amount is the sole charge.

use vstd::prelude::*;
use crate::{AccountId, Balance};
use crate::ledger::{
    balance_in, Fortitude, Ledger, Precision, Preservation, WithdrawConsequence,
    WithdrawalReceipt,
};

verus! {

/// Computational weight of a call: execution time and proof size, as the
/// runtime accounts them. The flat fee model carries it but never reads it.
#[derive(Clone, Copy, Debug, PartialEq, Eq, Structural)]
pub struct Weight {
    pub ref_time: u64,
    pub proof_size: u64,
}

/// Payment-rejection error: the payer cannot cover the fee, so the extrinsic
/// is excluded from the block before it runs.
#[derive(Clone, Copy, Debug, PartialEq, Eq, Structural)]
pub enum PaymentError {
    Payment,
}

/// The payer's balances after a successful fee withdrawal: the fee leaves
/// `who`'s balance, every other balance stays. A zero fee withdraws nothing.
pub open spec fn balances_after_fee_withdrawal(
    balances: Map<AccountId, Balance>,
    who: AccountId,
    fee: Balance,
) -> Map<AccountId, Balance> {
    if fee == 0 {
        balances
    } else {
        balances.insert(who, (balance_in(balances, who) - fee) as Balance)
    }
}

/// Charges every extrinsic the same flat fee, whatever was declared for it.
///
/// The dispatch pipeline calls [`withdraw_fee`](Self::withdraw_fee) before
/// the extrinsic runs and [`correct_and_deposit_fee`](Self::correct_and_deposit_fee)
/// after it, on every execution outcome of the wrapped call; a failed
/// withdrawal drops the extrinsic before anything has executed.
pub struct FixedFeeCharger {
    /// The flat amount every extrinsic costs.
    pub fixed_fee: Balance,
}

impl FixedFeeCharger {
    /// An engine charging `fixed_fee` per extrinsic.
    pub fn new(fixed_fee: Balance) -> (c: FixedFeeCharger)
        ensures
            c.fixed_fee == fixed_fee,
    {
        FixedFeeCharger { fixed_fee }
    }

    /// The fee an extrinsic of the given weight owes: always the configured
    /// flat amount, whatever the weight.
    pub fn fee_for(&self, _weight: &Weight) -> (fee: Balance)
        ensures
            fee == self.fixed_fee,
    {
        self.fixed_fee
    }

    /// Pre-flight check used for transaction-pool admission: whether the
    /// payer could sustain the fee withdrawal right now. Pure query, no
    /// mutation; succeeds if and only if the payer can cover the fee while
    /// keeping the minimum balance, a zero fee trivially so.
    pub fn can_withdraw_fee(
        &self,
        ledger: &Ledger,
        who: AccountId,
        _declared_fee: Balance,
        _tip: Balance,
    ) -> (r: Result<(), PaymentError>)
        ensures
            r is Ok <==> ledger.can_cover(who, self.fixed_fee),
            r is Err ==> r == Err::<(), PaymentError>(PaymentError::Payment),
    {
        if self.fixed_fee == 0 {
            return Ok(());
        }
        match ledger.can_withdraw(who, self.fixed_fee) {
            WithdrawConsequence::Success => Ok(()),
            _ => Err(PaymentError::Payment),
        }
    }

    /// Debit the flat fee from the payer before the extrinsic runs. The
    /// declared fee and the tip play no part: the flat model ignores them.
    ///
    /// A zero fee needs no receipt and touches nothing. Otherwise exactly
    /// the fee is withdrawn, preserving the payer's existence, and comes
    /// back as a receipt for settlement; if the payer cannot cover it the
    /// call fails with a payment rejection and the ledger is untouched.
    pub fn withdraw_fee(
        &self,
        ledger: &mut Ledger,
        who: AccountId,
        _declared_fee: Balance,
        _tip: Balance,
    ) -> (r: Result<Option<WithdrawalReceipt>, PaymentError>)
        ensures
            final(ledger).spec_minimum_balance() == old(ledger).spec_minimum_balance(),
            r is Ok <==> old(ledger).can_cover(who, self.fixed_fee),
            match r {
                Ok(opt) => match opt {
                    None => self.fixed_fee == 0 && *final(ledger) == *old(ledger),
                    Some(receipt) => {
                        &&& self.fixed_fee > 0
                        &&& receipt.amount() == self.fixed_fee
                        &&& final(ledger).balances() == balances_after_fee_withdrawal(
                            old(ledger).balances(),
                            who,
                            self.fixed_fee,
                        )
                    },
                },
                Err(e) => e == PaymentError::Payment && *final(ledger) == *old(ledger),
            },
    {
        let fee = self.fixed_fee;
        if fee == 0 {
            return Ok(None);
        }
        match ledger.withdraw(
            who,
            fee,
            Precision::Exact,
            Preservation::Preserve,
            Fortitude::Polite,
        ) {
            Ok(receipt) => Ok(Some(receipt)),
            Err(_) => Err(PaymentError::Payment),
        }
    }

    /// Settle the fee after the extrinsic has run, on success and failure of
    /// the wrapped call alike. Nothing is owed beyond what was withdrawn, so
    /// the receipt, if any, is simply consumed and the debit becomes final;
    /// the ledger is untouched and the call cannot fail.
    pub fn correct_and_deposit_fee(
        &self,
        ledger: &mut Ledger,
        _who: AccountId,
        _corrected_fee: Balance,
        _tip: Balance,
        already_withdrawn: Option<WithdrawalReceipt>,
    ) -> (r: Result<(), PaymentError>)
        ensures
            r is Ok,
            *final(ledger) == *old(ledger),
    {
        match already_withdrawn {
            Some(paid) => {
                let _consumed = paid;
            },
            None => {},
        }
        Ok(())
    }

    /// Credit `amount` to `who` with best effort, for setting accounts up.
    pub fn endow_account(&self, ledger: &mut Ledger, who: AccountId, amount: Balance)
        ensures
            final(ledger).spec_minimum_balance() == old(ledger).spec_minimum_balance(),
            final(ledger).balances() == old(ledger).balances().insert(
                who,
                crate::ledger::saturating_add(old(ledger).balance_of(who), amount),
            ),
    {
        let _ = ledger.deposit(who, amount, Precision::BestEffort);
    }

    /// The minimum balance the ledger makes accounts keep.
    pub fn minimum_balance(&self, ledger: &Ledger) -> (m: Balance)
        ensures
            m == ledger.spec_minimum_balance(),
    {
        ledger.minimum_balance()
    }
}

/// One fee round — a successful [`FixedFeeCharger::withdraw_fee`] followed by
/// [`FixedFeeCharger::correct_and_deposit_fee`], which leaves balances as the
/// withdrawal left them — reduces the payer's balance by exactly the fixed
/// fee and no other balance changes, whatever the wrapped call did in
/// between.
pub proof fn lemma_fee_round_reduces_balance_by_fee(
    balances: Map<AccountId, Balance>,
    min: Balance,
    fee: Balance,
    who: AccountId,
)
    requires
        fee == 0 || balance_in(balances, who) >= fee + min,
    ensures
        balance_in(balances_after_fee_withdrawal(balances, who, fee), who) == balance_in(
            balances,
            who,
        ) - fee,
        forall|other: AccountId|
            other != who ==> balance_in(
                balances_after_fee_withdrawal(balances, who, fee),
                other,
            ) == balance_in(balances, other),
{
}

/// The weight-proportional component of the legacy fee path; always zero, so
/// that the flat fee is the only charge.
pub struct ZeroToFee;

impl ZeroToFee {
    /// A weight-to-fee conversion that yields nothing for any weight.
    pub fn weight_to_fee(_weight: &Weight) -> (fee: Balance)
        ensures
            fee == 0,
    {
        0
    }
}

} // verus!
