//! Task escrow: a bounty held in custody for a task, released to the
//! contributor on approval, refunded to the creator on cancellation, or split
//! by an administrator when the parties dispute the outcome.
//!
//! The library is the escrow state machine. Host services (persistent
//! storage, signature checks, ledger time, the token contract and the event
//! log) belong to the caller: operations take what those services observed
//! (the identity that signed, the ledger time, a token balance) as plain
//! values, and return the token transfers that the caller must carry out.

mod admin;
mod contract;
mod custody;
mod errors;
pub mod laws;
mod lifecycle;
mod types;
mod validation;

pub use contract::{record_step, TaskEscrowContract};
pub use custody::{total_amount, transfer_check};
pub use errors::Error;
pub use lifecycle::{
    assigned_escrow, completed_escrow, disputed_escrow, opened_escrow, with_bounty, with_status,
};
pub use types::{
    is_terminal, lifecycle_edge, stage, Address, DisputeInfo, DisputeResolution, TaskEscrow,
    TaskStatus, Transfer,
};
pub use validation::{
    amount_check, dispute_reason_check, issue_url_check, one_percent, partial_payment_check,
    task_id_check, MAX_BOUNTY_AMOUNT, MAX_DISPUTE_REASON_LENGTH, MAX_ISSUE_URL_LENGTH,
    MIN_BOUNTY_AMOUNT, MIN_DISPUTE_REASON_LENGTH, TASK_ID_LENGTH,
};
