use vstd::prelude::*;
use crate::contract::TaskEscrowContract;
use crate::errors::Error;
use crate::types::{Address, Transfer};
use crate::validation::amount_check;

verus! {

/// The verdict on moving `amount` out of a holder whose balance was observed
/// to be `balance`.
pub open spec fn transfer_check(amount: int, balance: int) -> Result<(), Error> {
    if amount_check(amount) is Err {
        amount_check(amount)
    } else if balance < amount {
        Err(Error::InsufficientBalance)
    } else {
        Ok(())
    }
}

/// The sum of the amounts of a sequence of transfers.
pub open spec fn total_amount(ts: Seq<Transfer>) -> int
    decreases ts.len(),
{
    if ts.len() == 0 {
        0
    } else {
        total_amount(ts.drop_last()) + ts.last().amount
    }
}

impl TaskEscrowContract {
    /// A transfer from `from` into the contract's custody.
    pub open spec fn deposit(&self, from: Address, amount: i128) -> Transfer {
        Transfer { from, to: self.address, amount }
    }

    /// A transfer out of the contract's custody to `to`.
    pub open spec fn payout(&self, to: Address, amount: i128) -> Transfer {
        Transfer { from: self.address, to, amount }
    }

    /// Prepares a token transfer: the amount must be valid, the token
    /// contract configured, and the source's observed balance sufficient.
    pub(crate) fn transfer_usdc_safe(
        &self,
        from: &Address,
        to: &Address,
        amount: i128,
        from_balance: i128,
    ) -> (r: Result<Transfer, Error>)
        requires
            self.wf(),
            self.initialized(),
        ensures
            match transfer_check(amount as int, from_balance as int) {
                Err(e) => r == Err::<Transfer, Error>(e),
                Ok(()) => r == Ok::<Transfer, Error>(
                    (Transfer { from: *from, to: *to, amount }),
                ),
            },
    {
        let checked = Self::validate_amount(amount);
        if let Err(e) = checked {
            return Err(e);
        }
        let token = self.get_usdc_token_internal();
        if let Err(e) = token {
            return Err(e);
        }
        if from_balance < amount {
            return Err(Error::InsufficientBalance);
        }
        Ok(Transfer { from: from.clone(), to: to.clone(), amount })
    }

    /// Prepares a transfer from `from` into the contract's custody.
    pub(crate) fn transfer_usdc_to_contract(
        &self,
        from: &Address,
        amount: i128,
        from_balance: i128,
    ) -> (r: Result<Transfer, Error>)
        requires
            self.wf(),
            self.initialized(),
        ensures
            match transfer_check(amount as int, from_balance as int) {
                Err(e) => r == Err::<Transfer, Error>(e),
                Ok(()) => r == Ok::<Transfer, Error>(self.deposit(*from, amount)),
            },
    {
        self.transfer_usdc_safe(from, &self.address, amount, from_balance)
    }

    /// Prepares a transfer out of the contract's custody to `to`.
    pub(crate) fn transfer_usdc_from_contract(
        &self,
        to: &Address,
        amount: i128,
        contract_balance: i128,
    ) -> (r: Result<Transfer, Error>)
        requires
            self.wf(),
            self.initialized(),
        ensures
            match transfer_check(amount as int, contract_balance as int) {
                Err(e) => r == Err::<Transfer, Error>(e),
                Ok(()) => r == Ok::<Transfer, Error>(self.payout(*to, amount)),
            },
    {
        self.transfer_usdc_safe(&self.address, to, amount, contract_balance)
    }
}

} // verus!
