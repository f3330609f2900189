use vstd::prelude::*;
use crate::contract::TaskEscrowContract;
use crate::errors::Error;
use crate::types::Address;
use crate::validation::amount_check;

verus! {

impl TaskEscrowContract {
    /// Sets the administrator and the token contract, once. A second call
    /// fails with `TaskAlreadyExists`.
    pub fn initialize(&mut self, admin: Address, usdc_token: Address) -> (r: Result<(), Error>)
        requires
            old(self).wf(),
        ensures
            final(self).wf(),
            old(self).admin is Some ==> r == Err::<(), Error>(Error::TaskAlreadyExists)
                && *final(self) == *old(self),
            old(self).admin is None ==> {
                &&& r is Ok
                &&& final(self).admin == Some(admin)
                &&& final(self).usdc_token == Some(usdc_token)
                &&& final(self).address == old(self).address
                &&& final(self).paused == old(self).paused
                &&& final(self).task_count == 0
                &&& final(self).escrows@ == old(self).escrows@
                &&& final(self).disputes@ == old(self).disputes@
            },
    {
        if self.admin.is_some() {
            return Err(Error::TaskAlreadyExists);
        }
        self.admin = Some(admin);
        self.usdc_token = Some(usdc_token);
        self.task_count = 0;
        Ok(())
    }

    /// Checks that `signer` is the administrator of an initialized contract.
    pub(crate) fn require_admin(&self, signer: &Address) -> (r: Result<(), Error>)
        requires
            self.wf(),
        ensures
            r == self.admin_check(signer@),
    {
        match &self.admin {
            None => Err(Error::ContractNotInitialized),
            Some(admin) => {
                if *signer != *admin {
                    Err(Error::NotAdmin)
                } else {
                    Ok(())
                }
            },
        }
    }

    /// Hands the administrator role to `new_admin`; only the administrator may.
    pub fn set_admin(&mut self, signer: &Address, new_admin: Address) -> (r: Result<(), Error>)
        requires
            old(self).wf(),
        ensures
            final(self).wf(),
            r == old(self).admin_check(signer@),
            r is Err ==> *final(self) == *old(self),
            r is Ok ==> {
                &&& final(self).admin == Some(new_admin)
                &&& final(self).usdc_token == old(self).usdc_token
                &&& final(self).address == old(self).address
                &&& final(self).paused == old(self).paused
                &&& final(self).same_records(&*old(self))
            },
    {
        let checked = self.require_admin(signer);
        if checked.is_err() {
            return checked;
        }
        self.admin = Some(new_admin);
        Ok(())
    }

    /// Points the contract at another token contract; only the administrator may.
    pub fn update_usdc_token(&mut self, signer: &Address, new_usdc_token: Address) -> (r: Result<
        (),
        Error,
    >)
        requires
            old(self).wf(),
        ensures
            final(self).wf(),
            r == old(self).admin_check(signer@),
            r is Err ==> *final(self) == *old(self),
            r is Ok ==> {
                &&& final(self).usdc_token == Some(new_usdc_token)
                &&& final(self).admin == old(self).admin
                &&& final(self).address == old(self).address
                &&& final(self).paused == old(self).paused
                &&& final(self).same_records(&*old(self))
            },
    {
        let checked = self.require_admin(signer);
        if checked.is_err() {
            return checked;
        }
        self.usdc_token = Some(new_usdc_token);
        Ok(())
    }

    /// Sets or clears the pause flag; only the administrator may.
    pub fn set_paused(&mut self, signer: &Address, paused: bool) -> (r: Result<(), Error>)
        requires
            old(self).wf(),
        ensures
            final(self).wf(),
            r == old(self).admin_check(signer@),
            r is Err ==> *final(self) == *old(self),
            r is Ok ==> {
                &&& final(self).paused == paused
                &&& final(self).admin == old(self).admin
                &&& final(self).usdc_token == old(self).usdc_token
                &&& final(self).address == old(self).address
                &&& final(self).same_records(&*old(self))
            },
    {
        let checked = self.require_admin(signer);
        if checked.is_err() {
            return checked;
        }
        self.paused = paused;
        Ok(())
    }

    /// Decides whether `signer` may replace the contract's code: only the
    /// administrator may. The state is kept across an upgrade.
    pub fn upgrade(&self, signer: &Address) -> (r: Result<(), Error>)
        requires
            self.wf(),
        ensures
            r == self.admin_check(signer@),
    {
        self.require_admin(signer)
    }

    /// The administrator.
    pub fn get_admin(&self) -> (r: Result<Address, Error>)
        ensures
            self.admin is None ==> r == Err::<Address, Error>(Error::ContractNotInitialized),
            self.admin is Some ==> r == Ok::<Address, Error>(self.admin->0),
    {
        match &self.admin {
            Some(a) => Ok(a.clone()),
            None => Err(Error::ContractNotInitialized),
        }
    }

    /// The token contract.
    pub fn get_usdc_token(&self) -> (r: Result<Address, Error>)
        ensures
            self.usdc_token is None ==> r == Err::<Address, Error>(Error::ContractNotInitialized),
            self.usdc_token is Some ==> r == Ok::<Address, Error>(self.usdc_token->0),
    {
        match &self.usdc_token {
            Some(a) => Ok(a.clone()),
            None => Err(Error::ContractNotInitialized),
        }
    }

    /// The token contract, for the custody operations: `TokenContractNotSet`
    /// when there is none.
    pub(crate) fn get_usdc_token_internal(&self) -> (r: Result<Address, Error>)
        ensures
            self.usdc_token is None ==> r == Err::<Address, Error>(Error::TokenContractNotSet),
            self.usdc_token is Some ==> r == Ok::<Address, Error>(self.usdc_token->0),
    {
        match &self.usdc_token {
            Some(a) => Ok(a.clone()),
            None => Err(Error::TokenContractNotSet),
        }
    }

    /// Checks that the contract is initialized.
    pub(crate) fn validate_contract_state(&self) -> (r: Result<(), Error>)
        requires
            self.wf(),
        ensures
            r == self.state_check(),
    {
        if self.admin.is_none() {
            return Err(Error::ContractNotInitialized);
        }
        Ok(())
    }

    /// Checks that the contract is initialized and not paused.
    pub(crate) fn validate_active(&self) -> (r: Result<(), Error>)
        requires
            self.wf(),
        ensures
            r == self.active_check(),
    {
        if self.admin.is_none() {
            return Err(Error::ContractNotInitialized);
        }
        if self.paused {
            return Err(Error::ContractPaused);
        }
        Ok(())
    }

    /// Whether the token contract is configured: `Ok(true)` on an
    /// initialized contract.
    pub fn validate_usdc_token_contract(&self) -> (r: Result<bool, Error>)
        requires
            self.wf(),
        ensures
            r == (match self.state_check() {
                Ok(()) => Ok::<bool, Error>(true),
                Err(e) => Err(e),
            }),
    {
        let checked = self.validate_contract_state();
        if let Err(e) = checked {
            return Err(e);
        }
        let _token = self.get_usdc_token_internal();
        Ok(true)
    }

    /// The token contract and whether it is configured.
    pub fn get_usdc_token_info(&self) -> (r: Result<(Address, bool), Error>)
        requires
            self.wf(),
        ensures
            r == (match self.state_check() {
                Ok(()) => Ok::<(Address, bool), Error>((self.usdc_token->0, true)),
                Err(e) => Err(e),
            }),
    {
        let checked = self.validate_contract_state();
        if let Err(e) = checked {
            return Err(e);
        }
        let token = self.get_usdc_token_internal();
        match token {
            Ok(t) => Ok((t, true)),
            Err(e) => Err(e),
        }
    }

    /// Whether `balance`, the token balance that the holder was observed to
    /// have, covers `required_amount`, itself a valid amount.
    pub fn has_sufficient_usdc_balance(&self, required_amount: i128, balance: i128) -> (r: Result<
        bool,
        Error,
    >)
        requires
            self.wf(),
        ensures
            self.state_check() is Err ==> r == (match self.state_check() {
                Err(e) => Err::<bool, Error>(e),
                Ok(()) => Ok(true),
            }),
            self.state_check() is Ok && amount_check(required_amount as int) is Err ==> r == (
            match amount_check(required_amount as int) {
                Err(e) => Err::<bool, Error>(e),
                Ok(()) => Ok(true),
            }),
            self.state_check() is Ok && amount_check(required_amount as int) is Ok ==> r == Ok::<
                bool,
                Error,
            >(balance >= required_amount),
    {
        let checked = self.validate_contract_state();
        if let Err(e) = checked {
            return Err(e);
        }
        let amount_ok = Self::validate_amount(required_amount);
        if let Err(e) = amount_ok {
            return Err(e);
        }
        Ok(balance >= required_amount)
    }
}

} // verus!
