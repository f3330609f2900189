use vstd::prelude::*;
use crate::contract::{copy_escrow, TaskEscrowContract};
use crate::custody::transfer_check;
use crate::errors::Error;
use crate::types::{Address, DisputeInfo, DisputeResolution, TaskEscrow, TaskStatus, Transfer};
use crate::validation::{
    amount_check, dispute_reason_check, issue_url_check, partial_payment_check, task_id_check,
};

verus! {

/// The record that `create_escrow` stores.
pub open spec fn opened_escrow(
    task_id: String,
    issue_url: String,
    creator: Address,
    bounty_amount: i128,
    now: u64,
) -> TaskEscrow {
    TaskEscrow {
        task_id,
        issue_url,
        creator,
        contributor: None,
        bounty_amount,
        status: TaskStatus::Open,
        created_at: now,
        completed_at: 0,
        disputed_at: 0,
    }
}

/// `e` with a contributor assigned and work under way.
pub open spec fn assigned_escrow(e: TaskEscrow, contributor: Address) -> TaskEscrow {
    TaskEscrow {
        task_id: e.task_id,
        issue_url: e.issue_url,
        creator: e.creator,
        contributor: Some(contributor),
        bounty_amount: e.bounty_amount,
        status: TaskStatus::InProgress,
        created_at: e.created_at,
        completed_at: e.completed_at,
        disputed_at: e.disputed_at,
    }
}

/// `e` moved to `status`, all else kept.
pub open spec fn with_status(e: TaskEscrow, status: TaskStatus) -> TaskEscrow {
    TaskEscrow {
        task_id: e.task_id,
        issue_url: e.issue_url,
        creator: e.creator,
        contributor: e.contributor,
        bounty_amount: e.bounty_amount,
        status,
        created_at: e.created_at,
        completed_at: e.completed_at,
        disputed_at: e.disputed_at,
    }
}

/// `e` marked completed at `now`.
pub open spec fn completed_escrow(e: TaskEscrow, now: u64) -> TaskEscrow {
    TaskEscrow {
        task_id: e.task_id,
        issue_url: e.issue_url,
        creator: e.creator,
        contributor: e.contributor,
        bounty_amount: e.bounty_amount,
        status: TaskStatus::Completed,
        created_at: e.created_at,
        completed_at: now,
        disputed_at: e.disputed_at,
    }
}

/// `e` with its bounty set to `amount`.
pub open spec fn with_bounty(e: TaskEscrow, amount: i128) -> TaskEscrow {
    TaskEscrow {
        task_id: e.task_id,
        issue_url: e.issue_url,
        creator: e.creator,
        contributor: e.contributor,
        bounty_amount: amount,
        status: e.status,
        created_at: e.created_at,
        completed_at: e.completed_at,
        disputed_at: e.disputed_at,
    }
}

/// `e` disputed at `now`.
pub open spec fn disputed_escrow(e: TaskEscrow, now: u64) -> TaskEscrow {
    TaskEscrow {
        task_id: e.task_id,
        issue_url: e.issue_url,
        creator: e.creator,
        contributor: e.contributor,
        bounty_amount: e.bounty_amount,
        status: TaskStatus::Disputed,
        created_at: e.created_at,
        completed_at: e.completed_at,
        disputed_at: now,
    }
}

impl TaskEscrowContract {
    /// The verdict on `create_escrow`, in the order the checks are made.
    pub open spec fn create_escrow_check(
        &self,
        signer: Seq<char>,
        creator: Seq<char>,
        task_id: Seq<char>,
        issue_url: Seq<char>,
        bounty_amount: int,
        creator_balance: int,
    ) -> Result<(), Error> {
        if self.active_check() is Err {
            self.active_check()
        } else if signer != creator {
            Err(Error::Unauthorized)
        } else if task_id_check(task_id) is Err {
            task_id_check(task_id)
        } else if issue_url_check(issue_url) is Err {
            issue_url_check(issue_url)
        } else if amount_check(bounty_amount) is Err {
            amount_check(bounty_amount)
        } else if self.has_task(task_id) {
            Err(Error::TaskAlreadyExists)
        } else {
            transfer_check(bounty_amount, creator_balance)
        }
    }

    /// The verdict on `assign_contributor`.
    pub open spec fn assign_contributor_check(&self, signer: Seq<char>, task_id: Seq<char>) -> Result<
        (),
        Error,
    > {
        if self.active_check() is Err {
            self.active_check()
        } else if task_id_check(task_id) is Err {
            task_id_check(task_id)
        } else if !self.has_task(task_id) {
            Err(Error::TaskNotFound)
        } else if signer != self.escrow(task_id).creator@ {
            Err(Error::Unauthorized)
        } else if self.escrow(task_id).contributor is Some {
            Err(Error::ContributorAlreadyAssigned)
        } else if self.escrow(task_id).status != TaskStatus::Open {
            Err(Error::InvalidTaskStatus)
        } else {
            Ok(())
        }
    }

    /// The verdict on `complete_task`.
    pub open spec fn complete_task_check(&self, signer: Seq<char>, task_id: Seq<char>) -> Result<
        (),
        Error,
    > {
        if self.active_check() is Err {
            self.active_check()
        } else if task_id_check(task_id) is Err {
            task_id_check(task_id)
        } else if !self.has_task(task_id) {
            Err(Error::TaskNotFound)
        } else if self.escrow(task_id).status != TaskStatus::InProgress {
            Err(Error::InvalidTaskStatus)
        } else if self.escrow(task_id).contributor is None {
            Err(Error::NoContributorAssigned)
        } else if signer != self.escrow(task_id).contributor->0@ {
            Err(Error::Unauthorized)
        } else {
            Ok(())
        }
    }

    /// The verdict on `approve_completion`.
    pub open spec fn approve_completion_check(
        &self,
        signer: Seq<char>,
        task_id: Seq<char>,
        contract_balance: int,
    ) -> Result<(), Error> {
        if self.active_check() is Err {
            self.active_check()
        } else if task_id_check(task_id) is Err {
            task_id_check(task_id)
        } else if !self.has_task(task_id) {
            Err(Error::TaskNotFound)
        } else if signer != self.escrow(task_id).creator@ {
            Err(Error::Unauthorized)
        } else if self.escrow(task_id).status != TaskStatus::Completed {
            Err(Error::TaskNotCompleted)
        } else if self.escrow(task_id).contributor is None {
            Err(Error::NoContributorAssigned)
        } else {
            transfer_check(self.escrow(task_id).bounty_amount as int, contract_balance)
        }
    }

    /// The verdict on `refund`.
    pub open spec fn refund_check(&self, signer: Seq<char>, task_id: Seq<char>, contract_balance: int) -> Result<
        (),
        Error,
    > {
        if self.active_check() is Err {
            self.active_check()
        } else if task_id_check(task_id) is Err {
            task_id_check(task_id)
        } else if !self.has_task(task_id) {
            Err(Error::TaskNotFound)
        } else if signer != self.escrow(task_id).creator@ {
            Err(Error::Unauthorized)
        } else if self.escrow(task_id).contributor is Some {
            Err(Error::ContributorAlreadyAssigned)
        } else if self.escrow(task_id).status != TaskStatus::Open {
            Err(Error::InvalidTaskStatus)
        } else {
            transfer_check(self.escrow(task_id).bounty_amount as int, contract_balance)
        }
    }

    /// The checks that `increase_bounty` and `decrease_bounty` share.
    pub open spec fn bounty_change_check(
        &self,
        signer: Seq<char>,
        creator: Seq<char>,
        task_id: Seq<char>,
        amount: int,
    ) -> Result<(), Error> {
        if self.active_check() is Err {
            self.active_check()
        } else if task_id_check(task_id) is Err {
            task_id_check(task_id)
        } else if amount_check(amount) is Err {
            amount_check(amount)
        } else if !self.has_task(task_id) {
            Err(Error::TaskNotFound)
        } else if signer != creator {
            Err(Error::Unauthorized)
        } else if creator != self.escrow(task_id).creator@ {
            Err(Error::NotTaskCreator)
        } else if self.escrow(task_id).status != TaskStatus::Open {
            Err(Error::InvalidTaskStatus)
        } else {
            Ok(())
        }
    }

    /// The verdict on `increase_bounty`: the new total may not pass the
    /// largest accepted amount.
    pub open spec fn increase_bounty_check(
        &self,
        signer: Seq<char>,
        creator: Seq<char>,
        task_id: Seq<char>,
        amount: int,
        creator_balance: int,
    ) -> Result<(), Error> {
        if self.bounty_change_check(signer, creator, task_id, amount) is Err {
            self.bounty_change_check(signer, creator, task_id, amount)
        } else if self.escrow(task_id).bounty_amount + amount > crate::validation::MAX_BOUNTY_AMOUNT {
            Err(Error::InvalidTokenAmount)
        } else {
            transfer_check(amount, creator_balance)
        }
    }

    /// The verdict on `decrease_bounty`: what remains may not fall below the
    /// smallest accepted amount.
    pub open spec fn decrease_bounty_check(
        &self,
        signer: Seq<char>,
        creator: Seq<char>,
        task_id: Seq<char>,
        amount: int,
        contract_balance: int,
    ) -> Result<(), Error> {
        if self.bounty_change_check(signer, creator, task_id, amount) is Err {
            self.bounty_change_check(signer, creator, task_id, amount)
        } else if self.escrow(task_id).bounty_amount - amount < crate::validation::MIN_BOUNTY_AMOUNT {
            Err(Error::InvalidAmount)
        } else {
            transfer_check(amount, contract_balance)
        }
    }

    /// The verdict on `dispute_task`: only the creator or the assigned
    /// contributor may dispute a task that is in progress or completed.
    pub open spec fn dispute_task_check(
        &self,
        signer: Seq<char>,
        disputing_party: Seq<char>,
        task_id: Seq<char>,
        reason: Seq<char>,
    ) -> Result<(), Error> {
        if self.active_check() is Err {
            self.active_check()
        } else if task_id_check(task_id) is Err {
            task_id_check(task_id)
        } else if dispute_reason_check(reason) is Err {
            dispute_reason_check(reason)
        } else if signer != disputing_party {
            Err(Error::Unauthorized)
        } else if !self.has_task(task_id) {
            Err(Error::TaskNotFound)
        } else if self.escrow(task_id).contributor is None {
            Err(Error::NoContributorAssigned)
        } else if self.escrow(task_id).status == TaskStatus::Resolved || self.escrow(task_id).status
            == TaskStatus::Disputed || self.escrow(task_id).status == TaskStatus::Cancelled {
            Err(Error::TaskAlreadyResolved)
        } else if disputing_party != self.escrow(task_id).creator@ && disputing_party
            != self.escrow(task_id).contributor->0@ {
            Err(Error::OnlyCreatorOrContributor)
        } else {
            Ok(())
        }
    }

    /// The dispute records after `info` is recorded: it replaces an earlier
    /// record of the same task, if there is one.
    pub open spec fn with_dispute(&self, info: DisputeInfo) -> Seq<DisputeInfo> {
        if self.has_dispute(info.task_id@) {
            self.disputes@.update(self.dispute_slot(info.task_id@), info)
        } else {
            self.disputes@.push(info)
        }
    }

    /// The verdict on `resolve_dispute`. A partial payment is checked as a
    /// split, then as two transfers made one after the other from the
    /// contract's balance, so both are known to succeed before either is made.
    pub open spec fn resolve_dispute_check(
        &self,
        signer: Seq<char>,
        task_id: Seq<char>,
        resolution: DisputeResolution,
        contract_balance: int,
    ) -> Result<(), Error> {
        if self.active_check() is Err {
            self.active_check()
        } else if task_id_check(task_id) is Err {
            task_id_check(task_id)
        } else if self.admin_check(signer) is Err {
            self.admin_check(signer)
        } else if !self.has_task(task_id) {
            Err(Error::TaskNotFound)
        } else if self.escrow(task_id).status != TaskStatus::Disputed {
            Err(Error::TaskNotDisputed)
        } else if self.escrow(task_id).contributor is None {
            Err(Error::NoContributorAssigned)
        } else {
            let total = self.escrow(task_id).bounty_amount as int;
            match resolution {
                DisputeResolution::PayContributor => transfer_check(total, contract_balance),
                DisputeResolution::RefundCreator => transfer_check(total, contract_balance),
                DisputeResolution::PartialPayment(amount) => {
                    if partial_payment_check(amount as int, total) is Err {
                        partial_payment_check(amount as int, total)
                    } else if transfer_check(amount as int, contract_balance) is Err {
                        transfer_check(amount as int, contract_balance)
                    } else {
                        transfer_check(total - amount, contract_balance - amount)
                    }
                },
            }
        }
    }

    /// The transfers out of custody that settle the disputed escrow `e`.
    pub open spec fn resolution_transfers(&self, e: TaskEscrow, resolution: DisputeResolution) -> Seq<
        Transfer,
    > {
        match resolution {
            DisputeResolution::PayContributor => seq![
                self.payout(e.contributor->0, e.bounty_amount),
            ],
            DisputeResolution::RefundCreator => seq![self.payout(e.creator, e.bounty_amount)],
            DisputeResolution::PartialPayment(amount) => seq![
                self.payout(e.contributor->0, amount),
                self.payout(e.creator, (e.bounty_amount - amount) as i128),
            ],
        }
    }

    /// The new state has the escrow of `task_id` replaced by `e`, and all else
    /// as in `old`.
    pub open spec fn replaced(&self, old: &Self, task_id: Seq<char>, e: TaskEscrow) -> bool {
        &&& self.escrows@ == old.escrows@.update(old.slot(task_id), e)
        &&& self.disputes@ == old.disputes@
        &&& self.task_count == old.task_count
        &&& self.same_config(old)
    }

    /// Opens an escrow of `bounty_amount` for `task_id`, funded by `creator`.
    ///
    /// `signer` is the identity that authorized the call, `now` the ledger
    /// time, and `creator_balance` the creator's observed token balance. On
    /// success the record is stored as `Open`, the task count goes up by one,
    /// and the returned deposit of the bounty into custody is to be made.
    pub fn create_escrow(
        &mut self,
        signer: &Address,
        creator: Address,
        task_id: String,
        issue_url: String,
        bounty_amount: i128,
        now: u64,
        creator_balance: i128,
    ) -> (r: Result<Transfer, Error>)
        requires
            old(self).wf(),
            old(self).task_count < u64::MAX,
        ensures
            final(self).wf(),
            old(self).lifecycle_respected(&*final(self)),
            match old(self).create_escrow_check(
                signer@,
                creator@,
                task_id@,
                issue_url@,
                bounty_amount as int,
                creator_balance as int,
            ) {
                Err(e) => r == Err::<Transfer, Error>(e) && *final(self) == *old(self),
                Ok(()) => {
                    &&& r == Ok::<Transfer, Error>(old(self).deposit(creator, bounty_amount))
                    &&& final(self).escrows@ == old(self).escrows@.push(
                        opened_escrow(task_id, issue_url, creator, bounty_amount, now),
                    )
                    &&& final(self).task_count == old(self).task_count + 1
                    &&& final(self).disputes@ == old(self).disputes@
                    &&& final(self).same_config(&*old(self))
                },
            },
    {
        let active = self.validate_active();
        if let Err(e) = active {
            return Err(e);
        }
        if *signer != creator {
            return Err(Error::Unauthorized);
        }
        let id_ok = Self::validate_task_id(&task_id);
        if let Err(e) = id_ok {
            return Err(e);
        }
        let url_ok = Self::validate_issue_url(&issue_url);
        if let Err(e) = url_ok {
            return Err(e);
        }
        let amount_ok = Self::validate_amount(bounty_amount);
        if let Err(e) = amount_ok {
            return Err(e);
        }
        if self.find_escrow(&task_id).is_some() {
            return Err(Error::TaskAlreadyExists);
        }
        let transfer = match self.transfer_usdc_to_contract(&creator, bounty_amount, creator_balance) {
            Ok(t) => t,
            Err(e) => {
                return Err(e);
            },
        };
        let escrow = TaskEscrow {
            task_id,
            issue_url,
            creator,
            contributor: None,
            bounty_amount,
            status: TaskStatus::Open,
            created_at: now,
            completed_at: 0,
            disputed_at: 0,
        };
        let ghost before = *self;
        self.escrows.push(escrow);
        self.task_count = self.task_count + 1;
        assert forall|i: int, j: int| 0 <= i < j < self.escrows.len() implies
            #[trigger] self.escrows@[i].task_id@ != #[trigger] self.escrows@[j].task_id@ by {
            if j == before.escrows.len() {
                assert(before.escrows@[i].task_id@ != task_id@);
            }
        }
        Ok(transfer)
    }

    /// Assigns `contributor` to the open escrow of `task_id`; the creator
    /// must sign. The task moves to `InProgress`.
    pub fn assign_contributor(&mut self, signer: &Address, task_id: &String, contributor: Address) -> (r:
        Result<(), Error>)
        requires
            old(self).wf(),
        ensures
            final(self).wf(),
            old(self).lifecycle_respected(&*final(self)),
            match old(self).assign_contributor_check(signer@, task_id@) {
                Err(e) => r == Err::<(), Error>(e) && *final(self) == *old(self),
                Ok(()) => r is Ok && final(self).replaced(
                    &*old(self),
                    task_id@,
                    assigned_escrow(old(self).escrow(task_id@), contributor),
                ),
            },
    {
        let active = self.validate_active();
        if let Err(e) = active {
            return Err(e);
        }
        let id_ok = Self::validate_task_id(task_id);
        if let Err(e) = id_ok {
            return Err(e);
        }
        let i = match self.find_escrow(task_id) {
            Some(i) => i,
            None => {
                return Err(Error::TaskNotFound);
            },
        };
        let mut escrow = copy_escrow(&self.escrows[i]);
        assert(escrow.wf());
        if *signer != escrow.creator {
            return Err(Error::Unauthorized);
        }
        if escrow.has_contributor() {
            return Err(Error::ContributorAlreadyAssigned);
        }
        if escrow.status != TaskStatus::Open {
            return Err(Error::InvalidTaskStatus);
        }
        escrow.contributor = Some(contributor);
        escrow.status = TaskStatus::InProgress;
        let ghost before = *self;
        self.escrows.set(i, escrow);
        proof {
            before.lemma_replace(self, i as int, escrow);
        }
        Ok(())
    }

    /// Loads the escrow of `task_id` for an operation that changes state:
    /// the contract must be active and the identifier well formed.
    fn load_for_update(&self, task_id: &String) -> (r: Result<usize, Error>)
        requires
            self.wf(),
        ensures
            self.active_check() is Err ==> r == (match self.active_check() {
                Err(e) => Err::<usize, Error>(e),
                Ok(()) => Err(Error::ContractPaused),
            }),
            self.active_check() is Ok && task_id_check(task_id@) is Err ==> r == (
            match task_id_check(task_id@) {
                Err(e) => Err::<usize, Error>(e),
                Ok(()) => Err(Error::InvalidTaskId),
            }),
            self.active_check() is Ok && task_id_check(task_id@) is Ok && !self.has_task(task_id@)
                ==> r == Err::<usize, Error>(Error::TaskNotFound),
            self.active_check() is Ok && task_id_check(task_id@) is Ok && self.has_task(task_id@)
                ==> r == Ok::<usize, Error>(self.slot(task_id@) as usize),
            r matches Ok(i) ==> i < self.escrows.len() && i as int == self.slot(task_id@)
                && self.escrows@[i as int].wf(),
    {
        let active = self.validate_active();
        if let Err(e) = active {
            return Err(e);
        }
        let id_ok = Self::validate_task_id(task_id);
        if let Err(e) = id_ok {
            return Err(e);
        }
        match self.find_escrow(task_id) {
            Some(i) => {
                assert(self.escrows@[i as int].wf());
                Ok(i)
            },
            None => Err(Error::TaskNotFound),
        }
    }

    /// Marks the task of `task_id` completed at `now`; the assigned
    /// contributor must sign.
    pub fn complete_task(&mut self, signer: &Address, task_id: &String, now: u64) -> (r: Result<
        (),
        Error,
    >)
        requires
            old(self).wf(),
        ensures
            final(self).wf(),
            old(self).lifecycle_respected(&*final(self)),
            match old(self).complete_task_check(signer@, task_id@) {
                Err(e) => r == Err::<(), Error>(e) && *final(self) == *old(self),
                Ok(()) => r is Ok && final(self).replaced(
                    &*old(self),
                    task_id@,
                    completed_escrow(old(self).escrow(task_id@), now),
                ),
            },
    {
        let i = match self.load_for_update(task_id) {
            Ok(i) => i,
            Err(e) => {
                return Err(e);
            },
        };
        let mut escrow = copy_escrow(&self.escrows[i]);
        if escrow.status != TaskStatus::InProgress {
            return Err(Error::InvalidTaskStatus);
        }
        match &escrow.contributor {
            None => {
                return Err(Error::NoContributorAssigned);
            },
            Some(c) => {
                if *signer != *c {
                    return Err(Error::Unauthorized);
                }
            },
        }
        escrow.status = TaskStatus::Completed;
        escrow.completed_at = now;
        let ghost before = *self;
        self.escrows.set(i, escrow);
        proof {
            before.lemma_replace(self, i as int, escrow);
        }
        Ok(())
    }

    /// Approves the completed task of `task_id` and releases the whole bounty
    /// to the contributor; the creator must sign. `contract_balance` is the
    /// contract's observed token balance. The task ends `Resolved`.
    pub fn approve_completion(&mut self, signer: &Address, task_id: &String, contract_balance: i128) -> (r:
        Result<Transfer, Error>)
        requires
            old(self).wf(),
        ensures
            final(self).wf(),
            old(self).lifecycle_respected(&*final(self)),
            match old(self).approve_completion_check(signer@, task_id@, contract_balance as int) {
                Err(e) => r == Err::<Transfer, Error>(e) && *final(self) == *old(self),
                Ok(()) => {
                    &&& r == Ok::<Transfer, Error>(
                        old(self).payout(
                            old(self).escrow(task_id@).contributor->0,
                            old(self).escrow(task_id@).bounty_amount,
                        ),
                    )
                    &&& final(self).replaced(
                        &*old(self),
                        task_id@,
                        with_status(old(self).escrow(task_id@), TaskStatus::Resolved),
                    )
                },
            },
    {
        let i = match self.load_for_update(task_id) {
            Ok(i) => i,
            Err(e) => {
                return Err(e);
            },
        };
        let mut escrow = copy_escrow(&self.escrows[i]);
        if *signer != escrow.creator {
            return Err(Error::Unauthorized);
        }
        if escrow.status != TaskStatus::Completed {
            return Err(Error::TaskNotCompleted);
        }
        let transfer = match &escrow.contributor {
            None => {
                return Err(Error::NoContributorAssigned);
            },
            Some(c) => match self.transfer_usdc_from_contract(c, escrow.bounty_amount, contract_balance) {
                Ok(t) => t,
                Err(e) => {
                    return Err(e);
                },
            },
        };
        escrow.status = TaskStatus::Resolved;
        let ghost before = *self;
        self.escrows.set(i, escrow);
        proof {
            before.lemma_replace(self, i as int, escrow);
        }
        Ok(transfer)
    }

    /// Cancels the open, unassigned escrow of `task_id` and returns the whole
    /// bounty to the creator, who must sign. The task ends `Cancelled`.
    pub fn refund(&mut self, signer: &Address, task_id: &String, contract_balance: i128) -> (r: Result<
        Transfer,
        Error,
    >)
        requires
            old(self).wf(),
        ensures
            final(self).wf(),
            old(self).lifecycle_respected(&*final(self)),
            match old(self).refund_check(signer@, task_id@, contract_balance as int) {
                Err(e) => r == Err::<Transfer, Error>(e) && *final(self) == *old(self),
                Ok(()) => {
                    &&& r == Ok::<Transfer, Error>(
                        old(self).payout(
                            old(self).escrow(task_id@).creator,
                            old(self).escrow(task_id@).bounty_amount,
                        ),
                    )
                    &&& final(self).replaced(
                        &*old(self),
                        task_id@,
                        with_status(old(self).escrow(task_id@), TaskStatus::Cancelled),
                    )
                },
            },
    {
        let i = match self.load_for_update(task_id) {
            Ok(i) => i,
            Err(e) => {
                return Err(e);
            },
        };
        let mut escrow = copy_escrow(&self.escrows[i]);
        if *signer != escrow.creator {
            return Err(Error::Unauthorized);
        }
        if escrow.has_contributor() {
            return Err(Error::ContributorAlreadyAssigned);
        }
        if escrow.status != TaskStatus::Open {
            return Err(Error::InvalidTaskStatus);
        }
        let transfer = match self.transfer_usdc_from_contract(
            &escrow.creator,
            escrow.bounty_amount,
            contract_balance,
        ) {
            Ok(t) => t,
            Err(e) => {
                return Err(e);
            },
        };
        escrow.status = TaskStatus::Cancelled;
        let ghost before = *self;
        self.escrows.set(i, escrow);
        proof {
            before.lemma_replace(self, i as int, escrow);
        }
        Ok(transfer)
    }

    /// The checks shared by `increase_bounty` and `decrease_bounty`; on
    /// success, the position of the escrow.
    fn check_bounty_change(&self, signer: &Address, creator: &Address, task_id: &String, amount: i128) -> (r:
        Result<usize, Error>)
        requires
            self.wf(),
        ensures
            match self.bounty_change_check(signer@, creator@, task_id@, amount as int) {
                Err(e) => r == Err::<usize, Error>(e),
                Ok(()) => r == Ok::<usize, Error>(self.slot(task_id@) as usize),
            },
            r matches Ok(i) ==> i < self.escrows.len() && i as int == self.slot(task_id@)
                && self.escrows@[i as int].wf(),
    {
        let active = self.validate_active();
        if let Err(e) = active {
            return Err(e);
        }
        let id_ok = Self::validate_task_id(task_id);
        if let Err(e) = id_ok {
            return Err(e);
        }
        let amount_ok = Self::validate_amount(amount);
        if let Err(e) = amount_ok {
            return Err(e);
        }
        let i = match self.find_escrow(task_id) {
            Some(i) => i,
            None => {
                return Err(Error::TaskNotFound);
            },
        };
        assert(self.escrows@[i as int].wf());
        if *signer != *creator {
            return Err(Error::Unauthorized);
        }
        if *creator != self.escrows[i].creator {
            return Err(Error::NotTaskCreator);
        }
        if self.escrows[i].status != TaskStatus::Open {
            return Err(Error::InvalidTaskStatus);
        }
        Ok(i)
    }

    /// Adds `amount` to the bounty of the open escrow of `task_id`; the
    /// creator must sign, and deposits the amount.
    pub fn increase_bounty(
        &mut self,
        signer: &Address,
        creator: Address,
        task_id: &String,
        amount: i128,
        creator_balance: i128,
    ) -> (r: Result<Transfer, Error>)
        requires
            old(self).wf(),
        ensures
            final(self).wf(),
            old(self).lifecycle_respected(&*final(self)),
            match old(self).increase_bounty_check(
                signer@,
                creator@,
                task_id@,
                amount as int,
                creator_balance as int,
            ) {
                Err(e) => r == Err::<Transfer, Error>(e) && *final(self) == *old(self),
                Ok(()) => {
                    &&& r == Ok::<Transfer, Error>(old(self).deposit(creator, amount))
                    &&& final(self).replaced(
                        &*old(self),
                        task_id@,
                        with_bounty(
                            old(self).escrow(task_id@),
                            (old(self).escrow(task_id@).bounty_amount + amount) as i128,
                        ),
                    )
                },
            },
    {
        let i = match self.check_bounty_change(signer, &creator, task_id, amount) {
            Ok(i) => i,
            Err(e) => {
                return Err(e);
            },
        };
        let mut escrow = copy_escrow(&self.escrows[i]);
        if escrow.bounty_amount > crate::validation::MAX_BOUNTY_AMOUNT - amount {
            return Err(Error::InvalidTokenAmount);
        }
        let transfer = match self.transfer_usdc_to_contract(&creator, amount, creator_balance) {
            Ok(t) => t,
            Err(e) => {
                return Err(e);
            },
        };
        escrow.bounty_amount = escrow.bounty_amount + amount;
        let ghost before = *self;
        self.escrows.set(i, escrow);
        proof {
            before.lemma_replace(self, i as int, escrow);
        }
        Ok(transfer)
    }

    /// Takes `amount` off the bounty of the open escrow of `task_id` and
    /// returns it to the creator, who must sign; at least the smallest
    /// accepted amount must remain.
    pub fn decrease_bounty(
        &mut self,
        signer: &Address,
        creator: Address,
        task_id: &String,
        amount: i128,
        contract_balance: i128,
    ) -> (r: Result<Transfer, Error>)
        requires
            old(self).wf(),
        ensures
            final(self).wf(),
            old(self).lifecycle_respected(&*final(self)),
            match old(self).decrease_bounty_check(
                signer@,
                creator@,
                task_id@,
                amount as int,
                contract_balance as int,
            ) {
                Err(e) => r == Err::<Transfer, Error>(e) && *final(self) == *old(self),
                Ok(()) => {
                    &&& r == Ok::<Transfer, Error>(old(self).payout(creator, amount))
                    &&& final(self).replaced(
                        &*old(self),
                        task_id@,
                        with_bounty(
                            old(self).escrow(task_id@),
                            (old(self).escrow(task_id@).bounty_amount - amount) as i128,
                        ),
                    )
                },
            },
    {
        let i = match self.check_bounty_change(signer, &creator, task_id, amount) {
            Ok(i) => i,
            Err(e) => {
                return Err(e);
            },
        };
        let mut escrow = copy_escrow(&self.escrows[i]);
        if escrow.bounty_amount - amount < crate::validation::MIN_BOUNTY_AMOUNT {
            return Err(Error::InvalidAmount);
        }
        let transfer = match self.transfer_usdc_from_contract(&creator, amount, contract_balance) {
            Ok(t) => t,
            Err(e) => {
                return Err(e);
            },
        };
        escrow.bounty_amount = escrow.bounty_amount - amount;
        let ghost before = *self;
        self.escrows.set(i, escrow);
        proof {
            before.lemma_replace(self, i as int, escrow);
        }
        Ok(transfer)
    }

    /// Raises a dispute on the escrow of `task_id`, in progress or completed;
    /// `disputing_party`, the creator or the contributor, must sign. The
    /// dispute is recorded and the task becomes `Disputed` at `now`.
    pub fn dispute_task(
        &mut self,
        signer: &Address,
        disputing_party: Address,
        task_id: &String,
        reason: String,
        now: u64,
    ) -> (r: Result<(), Error>)
        requires
            old(self).wf(),
        ensures
            final(self).wf(),
            old(self).lifecycle_respected(&*final(self)),
            match old(self).dispute_task_check(signer@, disputing_party@, task_id@, reason@) {
                Err(e) => r == Err::<(), Error>(e) && *final(self) == *old(self),
                Ok(()) => {
                    &&& r is Ok
                    &&& final(self).escrows@ == old(self).escrows@.update(
                        old(self).slot(task_id@),
                        disputed_escrow(old(self).escrow(task_id@), now),
                    )
                    &&& final(self).disputes@ == old(self).with_dispute(
                        (DisputeInfo {
                            task_id: *task_id,
                            disputing_party,
                            reason,
                            initiated_at: now,
                        }),
                    )
                    &&& final(self).task_count == old(self).task_count
                    &&& final(self).same_config(&*old(self))
                },
            },
    {
        let active = self.validate_active();
        if let Err(e) = active {
            return Err(e);
        }
        let id_ok = Self::validate_task_id(task_id);
        if let Err(e) = id_ok {
            return Err(e);
        }
        let reason_ok = Self::validate_dispute_reason(&reason);
        if let Err(e) = reason_ok {
            return Err(e);
        }
        if *signer != disputing_party {
            return Err(Error::Unauthorized);
        }
        let i = match self.find_escrow(task_id) {
            Some(i) => i,
            None => {
                return Err(Error::TaskNotFound);
            },
        };
        let mut escrow = copy_escrow(&self.escrows[i]);
        assert(escrow.wf());
        let is_contributor = match &escrow.contributor {
            None => {
                return Err(Error::NoContributorAssigned);
            },
            Some(c) => disputing_party == *c,
        };
        if escrow.status == TaskStatus::Resolved || escrow.status == TaskStatus::Disputed
            || escrow.status == TaskStatus::Cancelled {
            return Err(Error::TaskAlreadyResolved);
        }
        let is_creator = disputing_party == escrow.creator;
        if !is_creator && !is_contributor {
            return Err(Error::OnlyCreatorOrContributor);
        }
        let info = DisputeInfo {
            task_id: task_id.clone(),
            disputing_party,
            reason,
            initiated_at: now,
        };
        let ghost before = *self;
        match self.find_dispute(task_id) {
            Some(j) => {
                self.disputes.set(j, info);
            },
            None => {
                self.disputes.push(info);
            },
        }
        escrow.status = TaskStatus::Disputed;
        escrow.disputed_at = now;
        self.escrows.set(i, escrow);
        assert forall|a: int, b: int| 0 <= a < b < self.disputes.len() implies
            #[trigger] self.disputes@[a].task_id@ != #[trigger] self.disputes@[b].task_id@ by {
            if b == before.disputes.len() {
                assert(before.disputes@[a].task_id@ != task_id@);
            } else {
                assert(before.disputes@[a].task_id@ != before.disputes@[b].task_id@);
            }
        }
        assert forall|a: int, b: int| 0 <= a < b < self.escrows.len() implies
            #[trigger] self.escrows@[a].task_id@ != #[trigger] self.escrows@[b].task_id@ by {
            assert(before.escrows@[a].task_id@ != before.escrows@[b].task_id@);
        }
        assert forall|a: int| 0 <= a < self.escrows.len() implies #[trigger] self.escrows@[a].wf() by {
            if a != i as int {
                assert(before.escrows@[a].wf());
            }
        }
        assert forall|a: int| 0 <= a < before.escrows.len() implies crate::contract::record_step(
            #[trigger] before.escrows@[a],
            self.escrows@[a],
        ) by {}
        Ok(())
    }

    /// Settles the disputed escrow of `task_id` as `resolution` says; the
    /// administrator must sign. Returns the transfers out of custody, whose
    /// amounts add up to the bounty. The task ends `Resolved`.
    pub fn resolve_dispute(
        &mut self,
        signer: &Address,
        task_id: &String,
        resolution: DisputeResolution,
        contract_balance: i128,
    ) -> (r: Result<Vec<Transfer>, Error>)
        requires
            old(self).wf(),
        ensures
            final(self).wf(),
            old(self).lifecycle_respected(&*final(self)),
            match old(self).resolve_dispute_check(signer@, task_id@, resolution, contract_balance as int) {
                Err(e) => r matches Err(e2) && e2 == e && *final(self) == *old(self),
                Ok(()) => {
                    &&& r matches Ok(ts) && ts@ == old(self).resolution_transfers(
                        old(self).escrow(task_id@),
                        resolution,
                    )
                    &&& final(self).replaced(
                        &*old(self),
                        task_id@,
                        with_status(old(self).escrow(task_id@), TaskStatus::Resolved),
                    )
                },
            },
    {
        let active = self.validate_active();
        if let Err(e) = active {
            return Err(e);
        }
        let id_ok = Self::validate_task_id(task_id);
        if let Err(e) = id_ok {
            return Err(e);
        }
        let admin_ok = self.require_admin(signer);
        if let Err(e) = admin_ok {
            return Err(e);
        }
        let i = match self.find_escrow(task_id) {
            Some(i) => i,
            None => {
                return Err(Error::TaskNotFound);
            },
        };
        let mut escrow = copy_escrow(&self.escrows[i]);
        assert(escrow.wf());
        if escrow.status != TaskStatus::Disputed {
            return Err(Error::TaskNotDisputed);
        }
        let contributor = match &escrow.contributor {
            None => {
                return Err(Error::NoContributorAssigned);
            },
            Some(c) => c,
        };
        let mut transfers: Vec<Transfer> = Vec::new();
        match resolution {
            DisputeResolution::PayContributor => {
                match self.transfer_usdc_from_contract(contributor, escrow.bounty_amount, contract_balance) {
                    Ok(t) => transfers.push(t),
                    Err(e) => {
                        return Err(e);
                    },
                }
            },
            DisputeResolution::RefundCreator => {
                match self.transfer_usdc_from_contract(
                    &escrow.creator,
                    escrow.bounty_amount,
                    contract_balance,
                ) {
                    Ok(t) => transfers.push(t),
                    Err(e) => {
                        return Err(e);
                    },
                }
            },
            DisputeResolution::PartialPayment(amount) => {
                let split_ok = Self::validate_partial_payment(amount, escrow.bounty_amount);
                if let Err(e) = split_ok {
                    return Err(e);
                }
                match self.transfer_usdc_from_contract(contributor, amount, contract_balance) {
                    Ok(t) => transfers.push(t),
                    Err(e) => {
                        return Err(e);
                    },
                }
                let remaining = escrow.bounty_amount - amount;
                match self.transfer_usdc_from_contract(
                    &escrow.creator,
                    remaining,
                    contract_balance - amount,
                ) {
                    Ok(t) => transfers.push(t),
                    Err(e) => {
                        return Err(e);
                    },
                }
            },
        }
        escrow.status = TaskStatus::Resolved;
        let ghost before = *self;
        self.escrows.set(i, escrow);
        proof {
            before.lemma_replace(self, i as int, escrow);
        }
        assert(transfers@ =~= before.resolution_transfers(before.escrows@[i as int], resolution));
        Ok(transfers)
    }

    /// The dispute record of `task_id`: `TaskNotDisputed` when the task was
    /// never disputed.
    pub fn get_dispute_info(&self, task_id: &String) -> (r: Result<DisputeInfo, Error>)
        requires
            self.wf(),
        ensures
            match self.dispute_info_check(task_id@) {
                Err(e) => r == Err::<DisputeInfo, Error>(e),
                Ok(()) => r == Ok::<DisputeInfo, Error>(self.dispute(task_id@)),
            },
    {
        let state_ok = self.validate_contract_state();
        if let Err(e) = state_ok {
            return Err(e);
        }
        let id_ok = Self::validate_task_id(task_id);
        if let Err(e) = id_ok {
            return Err(e);
        }
        if self.find_escrow(task_id).is_none() {
            return Err(Error::TaskNotFound);
        }
        match self.find_dispute(task_id) {
            Some(j) => Ok(crate::contract::copy_dispute(&self.disputes[j])),
            None => Err(Error::TaskNotDisputed),
        }
    }

    /// The verdict on `get_dispute_info`.
    pub open spec fn dispute_info_check(&self, task_id: Seq<char>) -> Result<(), Error> {
        if self.state_check() is Err {
            self.state_check()
        } else if task_id_check(task_id) is Err {
            task_id_check(task_id)
        } else if !self.has_task(task_id) {
            Err(Error::TaskNotFound)
        } else if !self.has_dispute(task_id) {
            Err(Error::TaskNotDisputed)
        } else {
            Ok(())
        }
    }

    /// The escrow record of `task_id`.
    pub fn get_escrow(&self, task_id: &String) -> (r: Result<TaskEscrow, Error>)
        requires
            self.wf(),
        ensures
            task_id_check(task_id@) is Err ==> r == (match task_id_check(task_id@) {
                Err(e) => Err::<TaskEscrow, Error>(e),
                Ok(()) => Err(Error::InvalidTaskId),
            }),
            task_id_check(task_id@) is Ok && !self.has_task(task_id@) ==> r == Err::<
                TaskEscrow,
                Error,
            >(Error::TaskNotFound),
            task_id_check(task_id@) is Ok && self.has_task(task_id@) ==> r == Ok::<
                TaskEscrow,
                Error,
            >(self.escrow(task_id@)),
    {
        let id_ok = Self::validate_task_id(task_id);
        if let Err(e) = id_ok {
            return Err(e);
        }
        match self.find_escrow(task_id) {
            Some(i) => Ok(copy_escrow(&self.escrows[i])),
            None => Err(Error::TaskNotFound),
        }
    }

    /// How many escrows have ever been created.
    pub fn get_task_count(&self) -> (r: u64)
        ensures
            r == self.task_count,
    {
        self.task_count
    }
}

} // verus!
