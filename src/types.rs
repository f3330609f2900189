use vstd::prelude::*;

verus! {

/// An account or contract identity, written as its canonical text form.
pub type Address = String;

/// Where an escrow stands in its lifecycle.
#[derive(Copy, Clone, Debug, PartialEq, Eq, Structural)]
pub enum TaskStatus {
    Open,
    InProgress,
    Completed,
    Disputed,
    Resolved,
    Cancelled,
}

/// How an administrator settles a disputed escrow.
#[derive(Copy, Clone, Debug, PartialEq, Eq, Structural)]
pub enum DisputeResolution {
    /// The whole bounty goes to the contributor.
    PayContributor,
    /// The whole bounty goes back to the creator.
    RefundCreator,
    /// The given amount goes to the contributor, the rest to the creator.
    PartialPayment(i128),
}

/// The custody record of one task's bounty.
#[derive(Clone, Debug, PartialEq, Eq)]
pub struct TaskEscrow {
    pub task_id: String,
    pub issue_url: String,
    pub creator: Address,
    /// `None` until a contributor is assigned.
    pub contributor: Option<Address>,
    pub bounty_amount: i128,
    pub status: TaskStatus,
    pub created_at: u64,
    /// Zero until the task is completed.
    pub completed_at: u64,
    /// Zero until the task is disputed.
    pub disputed_at: u64,
}

/// The record of a dispute, kept from the moment it is raised.
#[derive(Clone, Debug, PartialEq, Eq)]
pub struct DisputeInfo {
    pub task_id: String,
    pub disputing_party: Address,
    pub reason: String,
    pub initiated_at: u64,
}

/// A movement of tokens that an operation asks its caller to carry out
/// through the token contract.
#[derive(Clone, Debug, PartialEq, Eq)]
pub struct Transfer {
    pub from: Address,
    pub to: Address,
    pub amount: i128,
}

/// `Resolved` and `Cancelled` end a lifecycle: the funds have left custody.
pub open spec fn is_terminal(s: TaskStatus) -> bool {
    s == TaskStatus::Resolved || s == TaskStatus::Cancelled
}

/// The edges of the lifecycle graph.
pub open spec fn lifecycle_edge(from: TaskStatus, to: TaskStatus) -> bool {
    match (from, to) {
        (TaskStatus::Open, TaskStatus::InProgress) => true,
        (TaskStatus::Open, TaskStatus::Cancelled) => true,
        (TaskStatus::InProgress, TaskStatus::Completed) => true,
        (TaskStatus::InProgress, TaskStatus::Disputed) => true,
        (TaskStatus::Completed, TaskStatus::Disputed) => true,
        (TaskStatus::Completed, TaskStatus::Resolved) => true,
        (TaskStatus::Disputed, TaskStatus::Resolved) => true,
        _ => false,
    }
}

/// How far along the lifecycle a status lies.
pub open spec fn stage(s: TaskStatus) -> int {
    match s {
        TaskStatus::Open => 0,
        TaskStatus::InProgress => 1,
        TaskStatus::Completed => 2,
        TaskStatus::Disputed => 3,
        TaskStatus::Resolved => 4,
        TaskStatus::Cancelled => 4,
    }
}

impl TaskEscrow {
    /// A contributor is present exactly while the task is being worked on or
    /// settled, and the bounty stays within the accepted range.
    pub open spec fn wf(&self) -> bool {
        &&& (self.contributor is None <==> (self.status == TaskStatus::Open
            || self.status == TaskStatus::Cancelled))
        &&& crate::validation::MIN_BOUNTY_AMOUNT <= self.bounty_amount
        &&& self.bounty_amount <= crate::validation::MAX_BOUNTY_AMOUNT
    }

    /// Whether a contributor has been assigned.
    pub fn has_contributor(&self) -> (r: bool)
        ensures
            r == self.contributor is Some,
    {
        self.contributor.is_some()
    }
}

} // verus!
