use vstd::prelude::*;
use crate::errors::Error;
use crate::types::{lifecycle_edge, Address, DisputeInfo, TaskEscrow, TaskStatus};

verus! {

/// The state of one escrow contract: its configuration and every escrow and
/// dispute record it has ever held.
pub struct TaskEscrowContract {
    /// The contract's own identity: the holder of all escrowed funds.
    pub address: Address,
    /// The administrator; `None` until the contract is initialized.
    pub admin: Option<Address>,
    /// The token contract whose units are escrowed; `None` until initialized.
    pub usdc_token: Option<Address>,
    /// How many escrows have been created.
    pub task_count: u64,
    /// While set, every state-changing operation but the administrator's is refused.
    pub paused: bool,
    pub escrows: Vec<TaskEscrow>,
    pub disputes: Vec<DisputeInfo>,
}

/// A copy of an escrow record.
pub(crate) fn copy_escrow(e: &TaskEscrow) -> (r: TaskEscrow)
    ensures
        r == *e,
{
    let contributor = match &e.contributor {
        Some(c) => Some(c.clone()),
        None => None,
    };
    TaskEscrow {
        task_id: e.task_id.clone(),
        issue_url: e.issue_url.clone(),
        creator: e.creator.clone(),
        contributor,
        bounty_amount: e.bounty_amount,
        status: e.status,
        created_at: e.created_at,
        completed_at: e.completed_at,
        disputed_at: e.disputed_at,
    }
}

/// A copy of a dispute record.
pub(crate) fn copy_dispute(d: &DisputeInfo) -> (r: DisputeInfo)
    ensures
        r == *d,
{
    DisputeInfo {
        task_id: d.task_id.clone(),
        disputing_party: d.disputing_party.clone(),
        reason: d.reason.clone(),
        initiated_at: d.initiated_at,
    }
}

/// One record before and after an operation: its identity is kept and its
/// status stays or follows one edge of the lifecycle graph.
pub open spec fn record_step(before: TaskEscrow, after: TaskEscrow) -> bool {
    &&& after.task_id == before.task_id
    &&& after.creator == before.creator
    &&& after.created_at == before.created_at
    &&& (after.status == before.status || lifecycle_edge(before.status, after.status))
}

impl TaskEscrowContract {
    /// Administrator and token are set together, once.
    pub open spec fn initialized(&self) -> bool {
        self.admin is Some && self.usdc_token is Some
    }

    /// The guard of every read that needs configuration.
    pub open spec fn state_check(&self) -> Result<(), Error> {
        if !self.initialized() {
            Err(Error::ContractNotInitialized)
        } else {
            Ok(())
        }
    }

    /// The guard of every state-changing operation but the administrator's.
    pub open spec fn active_check(&self) -> Result<(), Error> {
        if !self.initialized() {
            Err(Error::ContractNotInitialized)
        } else if self.paused {
            Err(Error::ContractPaused)
        } else {
            Ok(())
        }
    }

    /// The guard of the administrator's operations.
    pub open spec fn admin_check(&self, signer: Seq<char>) -> Result<(), Error> {
        if !self.initialized() {
            Err(Error::ContractNotInitialized)
        } else if signer != self.admin->0@ {
            Err(Error::NotAdmin)
        } else {
            Ok(())
        }
    }

    /// Whether an escrow of task `id` exists.
    pub open spec fn has_task(&self, id: Seq<char>) -> bool {
        exists|i: int| 0 <= i < self.escrows.len() && #[trigger] self.escrows@[i].task_id@ == id
    }

    /// The position of the escrow of task `id`.
    pub open spec fn slot(&self, id: Seq<char>) -> int {
        choose|i: int| 0 <= i < self.escrows.len() && #[trigger] self.escrows@[i].task_id@ == id
    }

    /// The escrow of task `id`, where `has_task(id)`.
    pub open spec fn escrow(&self, id: Seq<char>) -> TaskEscrow {
        self.escrows@[self.slot(id)]
    }

    /// Whether a dispute was raised on task `id`.
    pub open spec fn has_dispute(&self, id: Seq<char>) -> bool {
        exists|i: int| 0 <= i < self.disputes.len() && #[trigger] self.disputes@[i].task_id@ == id
    }

    /// The position of the dispute record of task `id`.
    pub open spec fn dispute_slot(&self, id: Seq<char>) -> int {
        choose|i: int| 0 <= i < self.disputes.len() && #[trigger] self.disputes@[i].task_id@ == id
    }

    /// The dispute record of task `id`, where `has_dispute(id)`.
    pub open spec fn dispute(&self, id: Seq<char>) -> DisputeInfo {
        self.disputes@[self.dispute_slot(id)]
    }

    /// The contract's invariant: configuration set all at once, one record
    /// per task identifier, each record well formed. The records held may be
    /// a subset of those created, so the task count is not tied to them.
    pub open spec fn wf(&self) -> bool {
        &&& (self.admin is Some <==> self.usdc_token is Some)
        &&& (self.admin is None ==> self.escrows.len() == 0 && self.disputes.len() == 0)
        &&& forall|i: int, j: int|
            0 <= i < j < self.escrows.len() ==> #[trigger] self.escrows@[i].task_id@
                != #[trigger] self.escrows@[j].task_id@
        &&& forall|i: int| 0 <= i < self.escrows.len() ==> #[trigger] self.escrows@[i].wf()
        &&& forall|i: int, j: int|
            0 <= i < j < self.disputes.len() ==> #[trigger] self.disputes@[i].task_id@
                != #[trigger] self.disputes@[j].task_id@
    }

    /// Everything but the escrow and dispute records is as in `other`.
    pub open spec fn same_config(&self, other: &Self) -> bool {
        &&& self.address == other.address
        &&& self.admin == other.admin
        &&& self.usdc_token == other.usdc_token
        &&& self.paused == other.paused
    }

    /// The escrow and dispute records, and the task count, are as in `other`.
    pub open spec fn same_records(&self, other: &Self) -> bool {
        &&& self.task_count == other.task_count
        &&& self.escrows@ == other.escrows@
        &&& self.disputes@ == other.disputes@
    }

    /// From this state to `next`, no record was removed or reordered, each
    /// kept its identity, and each status stayed or moved along one edge of
    /// the lifecycle graph; records added are `Open`.
    pub open spec fn lifecycle_respected(&self, next: &Self) -> bool {
        &&& self.escrows.len() <= next.escrows.len()
        &&& forall|i: int|
            0 <= i < self.escrows.len() ==> record_step(
                #[trigger] self.escrows@[i],
                next.escrows@[i],
            )
        &&& forall|i: int|
            self.escrows.len() <= i < next.escrows.len() ==> (#[trigger] next.escrows@[i]).status
                == TaskStatus::Open
    }

    /// Replacing one record by a well-formed record of the same task keeps
    /// the invariant, and moving its status along one edge respects the lifecycle.
    pub(crate) proof fn lemma_replace(&self, next: &Self, i: int, e: TaskEscrow)
        requires
            self.wf(),
            0 <= i < self.escrows.len(),
            e.wf(),
            e.task_id == self.escrows@[i].task_id,
            next.escrows@ == self.escrows@.update(i, e),
            next.disputes@ == self.disputes@,
            next.task_count == self.task_count,
            next.same_config(self),
        ensures
            next.wf(),
            record_step(self.escrows@[i], e) ==> self.lifecycle_respected(next),
    {
        assert forall|a: int, b: int| 0 <= a < b < next.escrows.len() implies
            #[trigger] next.escrows@[a].task_id@ != #[trigger] next.escrows@[b].task_id@ by {
            assert(self.escrows@[a].task_id@ != self.escrows@[b].task_id@);
        }
        assert forall|a: int| 0 <= a < next.escrows.len() implies #[trigger] next.escrows@[a].wf() by {
            if a != i {
                assert(self.escrows@[a].wf());
            }
        }
    }

    /// A contract that holds nothing and is not yet initialized.
    pub fn new(address: Address) -> (r: Self)
        ensures
            r.wf(),
            r.address == address,
            r.admin is None,
            r.usdc_token is None,
            r.task_count == 0,
            !r.paused,
            r.escrows@.len() == 0,
            r.disputes@.len() == 0,
    {
        TaskEscrowContract {
            address,
            admin: None,
            usdc_token: None,
            task_count: 0,
            paused: false,
            escrows: Vec::new(),
            disputes: Vec::new(),
        }
    }

    /// The position of the escrow of task `id`, if any.
    pub(crate) fn find_escrow(&self, task_id: &String) -> (r: Option<usize>)
        requires
            self.wf(),
        ensures
            match r {
                Some(i) => {
                    &&& self.has_task(task_id@)
                    &&& i as int == self.slot(task_id@)
                    &&& i < self.escrows.len()
                },
                None => !self.has_task(task_id@),
            },
    {
        let mut i: usize = 0;
        while i < self.escrows.len()
            invariant
                self.wf(),
                i <= self.escrows.len(),
                forall|k: int| 0 <= k < i ==> #[trigger] self.escrows@[k].task_id@ != task_id@,
            decreases self.escrows.len() - i,
        {
            if self.escrows[i].task_id == *task_id {
                assert(self.escrows@[i as int].task_id@ == task_id@);
                assert(self.has_task(task_id@));
                let ghost k = self.slot(task_id@);
                assert(0 <= k < self.escrows.len() && self.escrows@[k].task_id@ == task_id@);
                assert(k == i as int) by {
                    if k < i as int {
                        assert(self.escrows@[k].task_id@ != self.escrows@[i as int].task_id@);
                    } else if k > i as int {
                        assert(self.escrows@[i as int].task_id@ != self.escrows@[k].task_id@);
                    }
                }
                return Some(i);
            }
            i = i + 1;
        }
        None
    }

    /// The position of the dispute record of task `id`, if any.
    pub(crate) fn find_dispute(&self, task_id: &String) -> (r: Option<usize>)
        requires
            self.wf(),
        ensures
            match r {
                Some(i) => {
                    &&& self.has_dispute(task_id@)
                    &&& i as int == self.dispute_slot(task_id@)
                    &&& i < self.disputes.len()
                },
                None => !self.has_dispute(task_id@),
            },
    {
        let mut i: usize = 0;
        while i < self.disputes.len()
            invariant
                self.wf(),
                i <= self.disputes.len(),
                forall|k: int| 0 <= k < i ==> #[trigger] self.disputes@[k].task_id@ != task_id@,
            decreases self.disputes.len() - i,
        {
            if self.disputes[i].task_id == *task_id {
                assert(self.disputes@[i as int].task_id@ == task_id@);
                assert(self.has_dispute(task_id@));
                let ghost k = self.dispute_slot(task_id@);
                assert(0 <= k < self.disputes.len() && self.disputes@[k].task_id@ == task_id@);
                assert(k == i as int) by {
                    if k < i as int {
                        assert(self.disputes@[k].task_id@ != self.disputes@[i as int].task_id@);
                    } else if k > i as int {
                        assert(self.disputes@[i as int].task_id@ != self.disputes@[k].task_id@);
                    }
                }
                return Some(i);
            }
            i = i + 1;
        }
        None
    }

    /// The release of the contract logic.
    pub fn version() -> (r: u64)
        ensures
            r == 2,
    {
        2
    }
}

} // verus!
