//! Properties that hold across operations, proved from the operations'
//! contracts.
use vstd::prelude::*;
use crate::contract::TaskEscrowContract;
use crate::custody::total_amount;
use crate::errors::Error;
use crate::lifecycle::with_bounty;
use crate::lifecycle::with_status;
use crate::types::{is_terminal, lifecycle_edge, stage, DisputeResolution, TaskEscrow, TaskStatus};
use crate::validation::partial_payment_check;

verus! {

/// What the contract holds for an escrow: its bounty while the escrow is
/// live, nothing once it has been paid out or cancelled.
pub open spec fn held(e: TaskEscrow) -> int {
    if is_terminal(e.status) {
        0
    } else {
        e.bounty_amount as int
    }
}

/// From `before` to `after`, over any number of operations: every record
/// kept its identity, and its status never moved back.
pub open spec fn moved_forward(before: TaskEscrowContract, after: TaskEscrowContract) -> bool {
    &&& before.escrows.len() <= after.escrows.len()
    &&& forall|i: int|
        0 <= i < before.escrows.len() ==> {
            &&& (#[trigger] after.escrows@[i]).task_id == before.escrows@[i].task_id
            &&& after.escrows@[i].creator == before.escrows@[i].creator
            &&& stage(before.escrows@[i].status) <= stage(after.escrows@[i].status)
            &&& (is_terminal(before.escrows@[i].status) ==> after.escrows@[i].status
                == before.escrows@[i].status)
        }
}

/// Every edge of the lifecycle graph leads strictly forward, and none leaves
/// a terminal status.
pub proof fn lifecycle_edges_go_forward(from: TaskStatus, to: TaskStatus)
    requires
        lifecycle_edge(from, to),
    ensures
        stage(from) < stage(to),
        !is_terminal(from),
{
}

/// One operation that respects the lifecycle moves every record forward;
/// and moving forward composes, so over any sequence of operations no status
/// ever moves back and a terminal status is never left.
pub proof fn lifecycle_is_monotonic(
    a: TaskEscrowContract,
    b: TaskEscrowContract,
    c: TaskEscrowContract,
)
    ensures
        a.lifecycle_respected(&b) ==> moved_forward(a, b),
        moved_forward(a, b) && moved_forward(b, c) ==> moved_forward(a, c),
{
    if a.lifecycle_respected(&b) {
        assert forall|i: int| 0 <= i < a.escrows.len() implies {
            &&& (#[trigger] b.escrows@[i]).task_id == a.escrows@[i].task_id
            &&& b.escrows@[i].creator == a.escrows@[i].creator
            &&& stage(a.escrows@[i].status) <= stage(b.escrows@[i].status)
            &&& (is_terminal(a.escrows@[i].status) ==> b.escrows@[i].status == a.escrows@[i].status)
        } by {
            assert(crate::contract::record_step(a.escrows@[i], b.escrows@[i]));
        }
    }
    if moved_forward(a, b) && moved_forward(b, c) {
        assert forall|i: int| 0 <= i < a.escrows.len() implies {
            &&& (#[trigger] c.escrows@[i]).task_id == a.escrows@[i].task_id
            &&& c.escrows@[i].creator == a.escrows@[i].creator
            &&& stage(a.escrows@[i].status) <= stage(c.escrows@[i].status)
            &&& (is_terminal(a.escrows@[i].status) ==> c.escrows@[i].status == a.escrows@[i].status)
        } by {
            assert(b.escrows@[i].task_id == a.escrows@[i].task_id);
            assert(c.escrows@[i].task_id == b.escrows@[i].task_id);
        }
    }
}

/// An escrow that has been paid out or cancelled pays nothing more: every
/// operation that would move its funds fails, and a failed operation
/// changes nothing and hands out no transfer.
pub proof fn terminal_escrow_pays_once(
    c: TaskEscrowContract,
    signer: Seq<char>,
    creator: Seq<char>,
    task_id: Seq<char>,
    resolution: DisputeResolution,
    amount: int,
    balance: int,
)
    requires
        c.has_task(task_id),
        is_terminal(c.escrow(task_id).status),
    ensures
        c.approve_completion_check(signer, task_id, balance) is Err,
        c.refund_check(signer, task_id, balance) is Err,
        c.resolve_dispute_check(signer, task_id, resolution, balance) is Err,
        c.increase_bounty_check(signer, creator, task_id, amount, balance) is Err,
        c.decrease_bounty_check(signer, creator, task_id, amount, balance) is Err,
{
}

/// The payout that ends an escrow's life is exactly what the contract held
/// for it: all of its bounty, leaving nothing held, whether by approval,
/// refund or any settlement of a dispute.
pub proof fn terminal_payout_is_bounty(
    c: TaskEscrowContract,
    signer: Seq<char>,
    task_id: Seq<char>,
    resolution: DisputeResolution,
    balance: int,
)
    requires
        c.wf(),
        c.has_task(task_id),
    ensures
        c.approve_completion_check(signer, task_id, balance) is Ok ==> {
            let e = c.escrow(task_id);
            &&& c.payout(e.contributor->0, e.bounty_amount).amount == held(e)
            &&& held(with_status(e, TaskStatus::Resolved)) == 0
        },
        c.refund_check(signer, task_id, balance) is Ok ==> {
            let e = c.escrow(task_id);
            &&& c.payout(e.creator, e.bounty_amount).amount == held(e)
            &&& held(with_status(e, TaskStatus::Cancelled)) == 0
        },
        c.resolve_dispute_check(signer, task_id, resolution, balance) is Ok ==> {
            let e = c.escrow(task_id);
            let ts = c.resolution_transfers(e, resolution);
            &&& total_amount(ts) == held(e)
            &&& forall|k: int| 0 <= k < ts.len() ==> (#[trigger] ts[k]).from == c.address
            &&& held(with_status(e, TaskStatus::Resolved)) == 0
        },
{
    if c.resolve_dispute_check(signer, task_id, resolution, balance) is Ok {
        let e = c.escrow(task_id);
        let ts = c.resolution_transfers(e, resolution);
        match resolution {
            DisputeResolution::PartialPayment(a) => {
                assert(ts.drop_last() =~= seq![c.payout(e.contributor->0, a)]);
                assert(ts.drop_last().drop_last() =~= Seq::<crate::types::Transfer>::empty());
            },
            _ => {
                assert(ts.drop_last() =~= Seq::<crate::types::Transfer>::empty());
            },
        }
        reveal_with_fuel(total_amount, 3);
    }
}

/// Changing the bounty of an open escrow moves exactly the difference: an
/// increase deposits what the contract now holds in addition, a decrease
/// pays out what it no longer holds.
pub proof fn bounty_change_moves_difference(
    c: TaskEscrowContract,
    signer: Seq<char>,
    creator: crate::types::Address,
    task_id: Seq<char>,
    amount: i128,
    balance: int,
)
    requires
        c.wf(),
        c.has_task(task_id),
    ensures
        c.increase_bounty_check(signer, creator@, task_id, amount as int, balance) is Ok ==> {
            let e = c.escrow(task_id);
            c.deposit(creator, amount).amount == held(
                with_bounty(e, (e.bounty_amount + amount) as i128),
            ) - held(e)
        },
        c.decrease_bounty_check(signer, creator@, task_id, amount as int, balance) is Ok ==> {
            let e = c.escrow(task_id);
            c.payout(creator, amount).amount == held(e) - held(
                with_bounty(e, (e.bounty_amount - amount) as i128),
            )
        },
{
    let e = c.escrow(task_id);
    assert(c.escrows@[c.slot(task_id)].wf());
}

/// No operation that changes state succeeds unless the identity that
/// signed is the one that the operation designates: the creator, the
/// assigned contributor, the disputing party, or the administrator.
pub proof fn authorization_is_complete(
    c: TaskEscrowContract,
    signer: Seq<char>,
    creator: Seq<char>,
    party: Seq<char>,
    task_id: Seq<char>,
    issue_url: Seq<char>,
    reason: Seq<char>,
    resolution: DisputeResolution,
    amount: int,
    balance: int,
)
    ensures
        signer != creator ==> c.create_escrow_check(
            signer,
            creator,
            task_id,
            issue_url,
            amount,
            balance,
        ) is Err,
        signer != c.escrow(task_id).creator@ ==> {
            &&& c.assign_contributor_check(signer, task_id) is Err
            &&& c.approve_completion_check(signer, task_id, balance) is Err
            &&& c.refund_check(signer, task_id, balance) is Err
            &&& c.increase_bounty_check(signer, creator, task_id, amount, balance) is Err
            &&& c.decrease_bounty_check(signer, creator, task_id, amount, balance) is Err
        },
        (c.escrow(task_id).contributor is None || signer != c.escrow(task_id).contributor->0@)
            ==> c.complete_task_check(signer, task_id) is Err,
        signer != party ==> c.dispute_task_check(signer, party, task_id, reason) is Err,
        (party != c.escrow(task_id).creator@ && (c.escrow(task_id).contributor is None || party
            != c.escrow(task_id).contributor->0@)) ==> c.dispute_task_check(
            signer,
            party,
            task_id,
            reason,
        ) is Err,
        (c.admin is None || signer != c.admin->0@) ==> {
            &&& c.admin_check(signer) is Err
            &&& c.resolve_dispute_check(signer, task_id, resolution, balance) is Err
        },
{
}

/// A partial settlement pays the contributor exactly the amount named and the
/// creator exactly the rest: both shares are positive and add up to the
/// bounty.
pub proof fn partial_payment_is_exact(c: TaskEscrowContract, e: TaskEscrow, amount: i128)
    requires
        e.wf(),
        e.contributor is Some,
        partial_payment_check(amount as int, e.bounty_amount as int) is Ok,
    ensures
        ({
            let ts = c.resolution_transfers(e, DisputeResolution::PartialPayment(amount));
            &&& ts.len() == 2
            &&& ts[0] == c.payout(e.contributor->0, amount)
            &&& ts[1] == c.payout(e.creator, (e.bounty_amount - amount) as i128)
            &&& ts[0].amount + ts[1].amount == e.bounty_amount
            &&& ts[0].amount > 0
            &&& ts[1].amount >= 0
        }),
{
}

} // verus!
