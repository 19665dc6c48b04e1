//! What holds of every ledger that the operations can reach.
use vstd::prelude::*;
use crate::port::TransferView;
use crate::identity::Address;
use crate::model::{
    after_approval, after_create, after_submit, approval_outcome, approval_refusal,
    create_outcome, planned_push, submit_outcome, create_refusal, created_by,
    created_weight, earned_by, earned_weight, empty_ledger, ledger_inv, stats_inv, stats_of,
    submit_refusal, tally, task_inv, valid_submission_id, valid_task_id, won_by, won_weight,
    LedgerError, LedgerState, TaskStatus, TaskView,
};
use crate::uint256::{lemma_value_bounded, modulus, wrapping_sum, U256};
use vstd::arithmetic::div_mod::{lemma_add_mod_noop, lemma_mod_add_multiples_vanish, lemma_small_mod};

verus! {

/// One call of the ledger, with the answer of the token contract where the
/// call asks it for a transfer.
pub ghost enum Operation {
    CreateTask { description: Seq<char>, bounty: U256, token: Address, caller: Address, pulled: bool },
    SubmitTask { task_id: nat, content: Seq<char>, caller: Address },
    ApproveSubmission { task_id: nat, submission_id: nat, caller: Address, pushed: bool },
}

/// The error that the call fails with, if it fails.
pub open spec fn failure(s: LedgerState, op: Operation) -> Option<LedgerError> {
    match op {
        Operation::CreateTask { description, bounty, token, caller, pulled } => {
            if create_refusal(description, bounty@).is_some() {
                create_refusal(description, bounty@)
            } else if !pulled {
                Some(LedgerError::TransferFailed)
            } else {
                None
            }
        },
        Operation::SubmitTask { task_id, content, caller } => submit_refusal(s, task_id, content),
        Operation::ApproveSubmission { task_id, submission_id, caller, pushed } => {
            if approval_refusal(s, task_id, submission_id, caller).is_some() {
                approval_refusal(s, task_id, submission_id, caller)
            } else if !pushed {
                Some(LedgerError::TransferFailed)
            } else {
                None
            }
        },
    }
}

/// The ledger after the call: the same ledger where the call fails.
pub open spec fn step(s: LedgerState, op: Operation) -> LedgerState {
    if failure(s, op).is_some() {
        s
    } else {
        match op {
            Operation::CreateTask { description, bounty, token, caller, pulled } => after_create(
                s,
                description,
                bounty@,
                token,
                caller,
            ),
            Operation::SubmitTask { task_id, content, caller } => after_submit(
                s,
                task_id,
                content,
                caller,
            ),
            Operation::ApproveSubmission {
                task_id,
                submission_id,
                caller,
                pushed,
            } => after_approval(s, task_id, submission_id),
        }
    }
}

/// The ledger after the calls `ops`, made in order on the ledger `s`.
pub open spec fn run(s: LedgerState, ops: Seq<Operation>) -> LedgerState
    decreases ops.len(),
{
    if ops.len() == 0 {
        s
    } else {
        step(run(s, ops.drop_last()), ops.last())
    }
}

/// What the call moves into escrow for task `task_id`: the bounty, where the
/// call creates that task.
pub open spec fn deposited(s: LedgerState, op: Operation, task_id: nat) -> nat {
    match op {
        Operation::CreateTask { description, bounty, token, caller, pulled } => {
            if failure(s, op).is_none() && task_id == s.tasks.len() + 1 {
                bounty@
            } else {
                0
            }
        },
        _ => 0,
    }
}

/// What the call pays out of escrow for task `task_id`: the task's bounty,
/// where the call approves one of its submissions.
pub open spec fn released(s: LedgerState, op: Operation, task_id: nat) -> nat {
    match op {
        Operation::ApproveSubmission { task_id: approved_task, submission_id, caller, pushed } => {
            if failure(s, op).is_none() && task_id == approved_task {
                s.tasks[task_id - 1].bounty
            } else {
                0
            }
        },
        _ => 0,
    }
}

/// What the ledger holds in escrow for task `task_id`: its bounty until the
/// task is completed, nothing afterwards or where there is no such task.
pub open spec fn held(s: LedgerState, task_id: nat) -> nat {
    if valid_task_id(s, task_id) && s.tasks[task_id - 1].status != TaskStatus::Completed {
        s.tasks[task_id - 1].bounty
    } else {
        0
    }
}

/// The sum of what the calls `ops`, made on `s`, moved into escrow for task
/// `task_id`.
pub open spec fn total_deposited(s: LedgerState, ops: Seq<Operation>, task_id: nat) -> nat
    decreases ops.len(),
{
    if ops.len() == 0 {
        0
    } else {
        total_deposited(s, ops.drop_last(), task_id) + deposited(
            run(s, ops.drop_last()),
            ops.last(),
            task_id,
        )
    }
}

/// The sum of what the calls `ops`, made on `s`, paid out of escrow for task
/// `task_id`.
pub open spec fn total_released(s: LedgerState, ops: Seq<Operation>, task_id: nat) -> nat
    decreases ops.len(),
{
    if ops.len() == 0 {
        0
    } else {
        total_released(s, ops.drop_last(), task_id) + released(
            run(s, ops.drop_last()),
            ops.last(),
            task_id,
        )
    }
}

/// Adding a task adds its weight to the sum.
pub proof fn lemma_tally_push(tasks: Seq<TaskView>, task: TaskView, weight: spec_fn(TaskView) -> nat)
    ensures
        tally(tasks.push(task), weight) == tally(tasks, weight) + weight(task),
{
    assert(tasks.push(task).drop_last() =~= tasks);
}

/// Replacing a task replaces its weight in the sum.
pub proof fn lemma_tally_update(
    tasks: Seq<TaskView>,
    i: int,
    task: TaskView,
    weight: spec_fn(TaskView) -> nat,
)
    requires
        0 <= i < tasks.len(),
    ensures
        tally(tasks.update(i, task), weight) + weight(tasks[i]) == tally(tasks, weight) + weight(
            task,
        ),
    decreases tasks.len(),
{
    if i == tasks.len() - 1 {
        assert(tasks.update(i, task).drop_last() =~= tasks.drop_last());
    } else {
        assert(tasks.update(i, task).drop_last() =~= tasks.drop_last().update(i, task));
        lemma_tally_update(tasks.drop_last(), i, task, weight);
    }
}

/// A sum of weights of at most one is at most the number of tasks.
pub proof fn lemma_tally_bounded(tasks: Seq<TaskView>, weight: spec_fn(TaskView) -> nat)
    requires
        forall|task: TaskView| #[trigger] weight(task) <= 1,
    ensures
        tally(tasks, weight) <= tasks.len(),
    decreases tasks.len(),
{
    if tasks.len() > 0 {
        lemma_tally_bounded(tasks.drop_last(), weight);
    }
}

/// Adding `b` to a sum kept modulo 2^256 keeps it the sum modulo 2^256.
pub proof fn lemma_wrapping_sum_mod(total: nat, b: nat)
    requires
        b < modulus(),
    ensures
        wrapping_sum(total % modulus(), b) == (total + b) % modulus(),
{
    let m = modulus() as int;
    let x = (total % modulus()) as int;
    lemma_small_mod(b, modulus());
    lemma_add_mod_noop(total as int, b as int, m);
    if x + b < m {
        lemma_small_mod((x + b) as nat, modulus());
    } else {
        lemma_mod_add_multiples_vanish(x + b - m, m);
        lemma_small_mod((x + b - m) as nat, modulus());
    }
}

/// Creating a task keeps the invariant.
pub proof fn lemma_create_keeps_inv(
    s: LedgerState,
    description: Seq<char>,
    bounty: nat,
    token: Address,
    caller: Address,
)
    requires
        ledger_inv(s),
        create_refusal(description, bounty).is_none(),
        bounty < modulus(),
    ensures
        ledger_inv(after_create(s, description, bounty, token, caller)),
{
    let t = after_create(s, description, bounty, token, caller);
    assert forall|i: int| 0 <= i < t.tasks.len() implies #[trigger] task_inv(t, i) by {
        if i < s.tasks.len() {
            assert(task_inv(s, i));
            assert(t.tasks[i] == s.tasks[i]);
            assert(t.submissions[i] == s.submissions[i]);
        }
    }
    assert forall|user: Address| #[trigger] stats_inv(t, user) by {
        assert(stats_inv(s, user));
        let task = t.tasks.last();
        lemma_tally_push(s.tasks, task, created_weight(user));
        lemma_tally_push(s.tasks, task, won_weight(user));
        lemma_tally_push(s.tasks, task, earned_weight(user));
        if user == caller {
            lemma_wrapping_sum_mod(created_by(s, user), 1);
        }
    }
}

/// Storing a submission keeps the invariant.
pub proof fn lemma_submit_keeps_inv(
    s: LedgerState,
    task_id: nat,
    content: Seq<char>,
    caller: Address,
)
    requires
        ledger_inv(s),
        submit_refusal(s, task_id, content).is_none(),
    ensures
        ledger_inv(after_submit(s, task_id, content, caller)),
{
    let t = after_submit(s, task_id, content, caller);
    assert forall|i: int| 0 <= i < t.tasks.len() implies #[trigger] task_inv(t, i) by {
        assert(task_inv(s, i));
        if i == task_id - 1 {
            let old_subs = s.submissions[i];
            let subs = t.submissions[i];
            assert forall|j: int| 0 <= j < subs.len() && (#[trigger] subs[j]).approved implies j
                < old_subs.len() && old_subs[j].approved by {}
        } else {
            assert(t.submissions[i] == s.submissions[i]);
        }
    }
    assert forall|user: Address| #[trigger] stats_inv(t, user) by {
        assert(stats_inv(s, user));
    }
}

/// Approving a submission keeps the invariant.
pub proof fn lemma_approval_keeps_inv(
    s: LedgerState,
    task_id: nat,
    submission_id: nat,
    caller: Address,
)
    requires
        ledger_inv(s),
        approval_refusal(s, task_id, submission_id, caller).is_none(),
    ensures
        ledger_inv(after_approval(s, task_id, submission_id)),
{
    let t = after_approval(s, task_id, submission_id);
    assert forall|i: int| 0 <= i < t.tasks.len() implies #[trigger] task_inv(t, i) by {
        assert(task_inv(s, i));
        if i == task_id - 1 {
            let old_subs = s.submissions[i];
            let subs = t.submissions[i];
            assert forall|j: int| 0 <= j < old_subs.len() implies !(#[trigger] old_subs[j]).approved by {
                if old_subs[j].approved {
                    assert(s.tasks[i].winner.is_some());
                }
            }
            assert forall|j: int| 0 <= j < subs.len() && (#[trigger] subs[j]).approved implies j
                == submission_id - 1 by {
                if j != submission_id - 1 {
                    assert(subs[j] == old_subs[j]);
                }
            }
            assert(subs[submission_id - 1].approved);
        } else {
            assert(t.tasks[i] == s.tasks[i]);
            assert(t.submissions[i] == s.submissions[i]);
        }
    }
    let i = task_id - 1;
    let winner = s.submissions[i][submission_id - 1].submitter;
    assert(task_inv(s, i));
    assert forall|user: Address| #[trigger] stats_inv(t, user) by {
        assert(stats_inv(s, user));
        lemma_tally_update(s.tasks, i, t.tasks[i], created_weight(user));
        lemma_tally_update(s.tasks, i, t.tasks[i], won_weight(user));
        lemma_tally_update(s.tasks, i, t.tasks[i], earned_weight(user));
        if user == winner {
            lemma_wrapping_sum_mod(won_by(s, user), 1);
            lemma_wrapping_sum_mod(earned_by(s, user), s.tasks[i].bounty);
        }
    }
}

/// The invariant holds of the ledger before any operation.
pub proof fn lemma_empty_inv()
    ensures
        ledger_inv(empty_ledger()),
{
    crate::uint256::lemma_modulus_large();
    lemma_small_mod(0, modulus());
    assert forall|user: Address| #[trigger] stats_inv(empty_ledger(), user) by {}
}

/// Every call keeps the invariant, whether it succeeds or fails.
pub proof fn lemma_step_keeps_inv(s: LedgerState, op: Operation)
    requires
        ledger_inv(s),
    ensures
        ledger_inv(step(s, op)),
{
    if failure(s, op).is_none() {
        match op {
            Operation::CreateTask { description, bounty, token, caller, pulled } => {
                lemma_value_bounded(bounty);
                lemma_create_keeps_inv(s, description, bounty@, token, caller);
            },
            Operation::SubmitTask { task_id, content, caller } => {
                lemma_submit_keeps_inv(s, task_id, content, caller);
            },
            Operation::ApproveSubmission { task_id, submission_id, caller, pushed } => {
                lemma_approval_keeps_inv(s, task_id, submission_id, caller);
            },
        }
    }
}

/// After any sequence of calls on a new ledger the invariant holds: task
/// ids and submission ids are 1, 2, 3, ... without a gap, at most one
/// submission of a task is approved, and a task has an approved submission,
/// whose submitter is its winner, exactly when it is completed.
pub proof fn lemma_reachable_inv(ops: Seq<Operation>)
    ensures
        ledger_inv(run(empty_ledger(), ops)),
    decreases ops.len(),
{
    if ops.len() > 0 {
        lemma_reachable_inv(ops.drop_last());
        lemma_step_keeps_inv(run(empty_ledger(), ops.drop_last()), ops.last());
    } else {
        lemma_empty_inv();
    }
}

/// A task's submissions: at most one is approved, and one is approved, by the
/// task's winner, exactly when the task is completed.
pub proof fn lemma_at_most_one_winner(s: LedgerState, task_id: nat, j: int, k: int)
    requires
        ledger_inv(s),
        valid_task_id(s, task_id),
        0 <= j < s.submissions[task_id - 1].len(),
        0 <= k < s.submissions[task_id - 1].len(),
    ensures
        s.submissions[task_id - 1][j].approved && s.submissions[task_id - 1][k].approved ==> j == k,
        s.submissions[task_id - 1][j].approved ==> s.tasks[task_id - 1].status
            == TaskStatus::Completed && s.tasks[task_id - 1].winner == Some(
            s.submissions[task_id - 1][j].submitter,
        ),
        s.tasks[task_id - 1].status == TaskStatus::Completed <==> exists|m: int|
            0 <= m < s.submissions[task_id - 1].len() && (
            #[trigger] s.submissions[task_id - 1][m]).approved,
{
    assert(task_inv(s, task_id - 1));
    let subs = s.submissions[task_id - 1];
    if exists|m: int| 0 <= m < subs.len() && (#[trigger] subs[m]).approved {
        let m = choose|m: int| 0 <= m < subs.len() && (#[trigger] subs[m]).approved;
        assert(s.tasks[task_id - 1].winner.is_some());
    }
}

/// A successful `create_task` returns the number of tasks so far plus one,
/// and a successful `submit_task` gives the submission the number of the
/// task's submissions so far plus one; a failed call consumes no id. So the
/// ids of the tasks, and of each task's submissions, are 1, 2, 3, ...
pub proof fn lemma_ids_contiguous(s: LedgerState, op: Operation)
    requires
        ledger_inv(s),
    ensures
        match op {
            Operation::CreateTask { .. } => if failure(s, op).is_none() {
                step(s, op).tasks.len() == s.tasks.len() + 1 && step(s, op).tasks.last().id
                    == s.tasks.len() + 1
            } else {
                step(s, op).tasks.len() == s.tasks.len()
            },
            Operation::SubmitTask { task_id, .. } => step(s, op).tasks.len() == s.tasks.len() && (
            if failure(s, op).is_none() {
                step(s, op).submissions[task_id - 1].len() == s.submissions[task_id - 1].len() + 1
                    && step(s, op).submissions[task_id - 1].last().id == s.submissions[task_id
                    - 1].len() + 1
            } else {
                step(s, op).submissions == s.submissions
            }),
            Operation::ApproveSubmission { .. } => step(s, op).tasks.len() == s.tasks.len(),
        },
        forall|i: int| 0 <= i < step(s, op).tasks.len() ==> (#[trigger] step(s, op).tasks[i]).id == i + 1,
        forall|i: int, j: int|
            0 <= i < step(s, op).tasks.len() && 0 <= j < step(s, op).submissions[i].len() ==> (
            #[trigger] step(s, op).submissions[i][j]).id == j + 1,
{
    lemma_step_keeps_inv(s, op);
    let t = step(s, op);
    assert forall|i: int| 0 <= i < t.tasks.len() implies (#[trigger] t.tasks[i]).id == i + 1 by {
        assert(task_inv(t, i));
    }
    assert forall|i: int, j: int| 0 <= i < t.tasks.len() && 0 <= j < t.submissions[i].len() implies (
    #[trigger] t.submissions[i][j]).id == j + 1 by {
        assert(task_inv(t, i));
    }
}

/// The id that the call returns: that of the new task or submission, where
/// the call succeeds in making one.
pub open spec fn returned_id(s: LedgerState, op: Operation) -> Option<nat> {
    if failure(s, op).is_some() {
        None
    } else {
        match op {
            Operation::CreateTask { .. } => Some(s.tasks.len() + 1),
            Operation::SubmitTask { task_id, .. } => Some(s.submissions[task_id - 1].len() + 1),
            Operation::ApproveSubmission { .. } => None,
        }
    }
}

/// The number of calls among `ops`, made in order on `s`, that created a
/// task.
pub open spec fn creations(s: LedgerState, ops: Seq<Operation>) -> nat
    decreases ops.len(),
{
    if ops.len() == 0 {
        0
    } else {
        creations(s, ops.drop_last()) + if ops.last() is CreateTask && failure(
            run(s, ops.drop_last()),
            ops.last(),
        ).is_none() {
            1nat
        } else {
            0nat
        }
    }
}

/// The number of calls among `ops`, made in order on `s`, that stored a
/// submission to task `task_id`.
pub open spec fn submissions_made(s: LedgerState, ops: Seq<Operation>, task_id: nat) -> nat
    decreases ops.len(),
{
    if ops.len() == 0 {
        0
    } else {
        submissions_made(s, ops.drop_last(), task_id) + if ops.last() matches Operation::SubmitTask {
            task_id: t,
            ..
        } && t == task_id && failure(run(s, ops.drop_last()), ops.last()).is_none() {
            1nat
        } else {
            0nat
        }
    }
}

/// Id contiguity. In any sequence of calls on a new ledger, the k-th call
/// that creates a task returns the id k, and the k-th call that stores a
/// submission to a task returns the id k: the task counter is the number of
/// tasks created so far, and a task's submission counter the number of
/// submissions stored to it so far.
pub proof fn lemma_kth_id_is_k(ops: Seq<Operation>, task_id: nat)
    ensures
        run(empty_ledger(), ops).tasks.len() == creations(empty_ledger(), ops),
        valid_task_id(run(empty_ledger(), ops), task_id) ==> run(
            empty_ledger(),
            ops,
        ).submissions[task_id - 1].len() == submissions_made(empty_ledger(), ops, task_id),
        !valid_task_id(run(empty_ledger(), ops), task_id) ==> submissions_made(
            empty_ledger(),
            ops,
            task_id,
        ) == 0,
        ops.len() > 0 ==> match ops.last() {
            Operation::CreateTask { .. } => returned_id(
                run(empty_ledger(), ops.drop_last()),
                ops.last(),
            ).is_some() ==> returned_id(run(empty_ledger(), ops.drop_last()), ops.last()) == Some(
                creations(empty_ledger(), ops),
            ),
            Operation::SubmitTask { task_id: t, .. } => returned_id(
                run(empty_ledger(), ops.drop_last()),
                ops.last(),
            ).is_some() && t == task_id ==> returned_id(
                run(empty_ledger(), ops.drop_last()),
                ops.last(),
            ) == Some(submissions_made(empty_ledger(), ops, task_id)),
            Operation::ApproveSubmission { .. } => returned_id(
                run(empty_ledger(), ops.drop_last()),
                ops.last(),
            ).is_none(),
        },
    decreases ops.len(),
{
    if ops.len() > 0 {
        lemma_kth_id_is_k(ops.drop_last(), task_id);
        lemma_reachable_inv(ops.drop_last());
        lemma_reachable_inv(ops);
    }
}

/// A call changes what is held for a task by exactly what it moves in and
/// out; it pays out only for an open task, which it completes; and nothing is
/// ever paid out for a completed task, which stays completed.
pub proof fn lemma_escrow_step(s: LedgerState, op: Operation, task_id: nat)
    requires
        ledger_inv(s),
    ensures
        held(step(s, op), task_id) + released(s, op, task_id) == held(s, task_id) + deposited(
            s,
            op,
            task_id,
        ),
        released(s, op, task_id) > 0 ==> valid_task_id(s, task_id) && s.tasks[task_id - 1].status
            == TaskStatus::Open && step(s, op).tasks[task_id - 1].status == TaskStatus::Completed
            && released(s, op, task_id) == s.tasks[task_id - 1].bounty,
        valid_task_id(s, task_id) ==> valid_task_id(step(s, op), task_id) && step(
            s,
            op,
        ).tasks[task_id - 1].bounty == s.tasks[task_id - 1].bounty && deposited(s, op, task_id)
            == 0,
        valid_task_id(s, task_id) && s.tasks[task_id - 1].status == TaskStatus::Completed ==> step(
            s,
            op,
        ).tasks[task_id - 1].status == TaskStatus::Completed && released(s, op, task_id) == 0,
        !valid_task_id(s, task_id) && valid_task_id(step(s, op), task_id) ==> deposited(
            s,
            op,
            task_id,
        ) == step(s, op).tasks[task_id - 1].bounty && step(s, op).tasks[task_id - 1].status
            == TaskStatus::Open,
        !valid_task_id(step(s, op), task_id) ==> deposited(s, op, task_id) == 0 && released(
            s,
            op,
            task_id,
        ) == 0,
{
    if valid_task_id(s, task_id) {
        assert(task_inv(s, task_id - 1));
    }
}

/// What the model counts as moved in and paid out is what the ledger asks
/// of the port: a creation that succeeds moves in the bounty that
/// `plan_create_task` names, and an approval that succeeds pays out the push
/// that `plan_approval` names.
pub proof fn lemma_transfers_are_planned(s: LedgerState, op: Operation)
    requires
        ledger_inv(s),
        failure(s, op).is_none(),
    ensures
        match op {
            Operation::CreateTask { bounty, .. } => deposited(s, op, s.tasks.len() + 1) == bounty@,
            Operation::SubmitTask { .. } => true,
            Operation::ApproveSubmission { task_id, submission_id, .. } => planned_push(
                s,
                task_id,
                submission_id,
            ) == (TransferView::Push {
                asset: s.tasks[task_id - 1].token,
                to: s.submissions[task_id - 1][submission_id - 1].submitter,
                amount: released(s, op, task_id),
            }),
        },
{
}

/// Escrow conservation. After any sequence of calls on a new ledger, what
/// was moved into escrow for a task is exactly its bounty, once, where the
/// task exists; what was paid out for it is exactly that bounty, once, where
/// the task is completed, and nothing where it is not.
pub proof fn lemma_escrow_conserved(ops: Seq<Operation>, task_id: nat)
    ensures
        ({
            let s = run(empty_ledger(), ops);
            &&& total_deposited(empty_ledger(), ops, task_id) == (if valid_task_id(s, task_id) {
                s.tasks[task_id - 1].bounty
            } else {
                0
            })
            &&& total_released(empty_ledger(), ops, task_id) == (if valid_task_id(s, task_id)
                && s.tasks[task_id - 1].status == TaskStatus::Completed {
                s.tasks[task_id - 1].bounty
            } else {
                0
            })
            &&& total_deposited(empty_ledger(), ops, task_id) == held(s, task_id) + total_released(
                empty_ledger(),
                ops,
                task_id,
            )
        }),
    decreases ops.len(),
{
    if ops.len() > 0 {
        let before = run(empty_ledger(), ops.drop_last());
        lemma_escrow_conserved(ops.drop_last(), task_id);
        lemma_reachable_inv(ops.drop_last());
        lemma_escrow_step(before, ops.last(), task_id);
        lemma_step_keeps_inv(before, ops.last());
        if valid_task_id(before, task_id) {
            assert(task_inv(before, task_id - 1));
        }
    }
}

/// A call that fails leaves the ledger as it was: no task, submission or
/// record is made or changed, and no id is consumed.
pub proof fn lemma_failure_changes_nothing(s: LedgerState, op: Operation)
    requires
        failure(s, op).is_some(),
    ensures
        step(s, op) == s,
{
}

/// A task that is refused, for a bounty of zero, an empty description or a
/// refused transfer, leaves the task counter and the tasks as they were.
pub proof fn lemma_rejected_create_changes_nothing(
    s: LedgerState,
    description: Seq<char>,
    bounty: U256,
    token: Address,
    caller: Address,
    pulled: bool,
)
    requires
        bounty@ == 0 || description.len() == 0 || !pulled,
    ensures
        failure(s, Operation::CreateTask { description, bounty, token, caller, pulled }).is_some(),
        step(s, Operation::CreateTask { description, bounty, token, caller, pulled }) == s,
{
}

/// An approval whose payout is refused fails, and leaves the task open and
/// without a winner and the submission not approved, as everything else.
pub proof fn lemma_failed_push_changes_nothing(
    s: LedgerState,
    task_id: nat,
    submission_id: nat,
    caller: Address,
)
    ensures
        failure(
            s,
            Operation::ApproveSubmission { task_id, submission_id, caller, pushed: false },
        ).is_some(),
        approval_refusal(s, task_id, submission_id, caller).is_none() ==> failure(
            s,
            Operation::ApproveSubmission { task_id, submission_id, caller, pushed: false },
        ) == Some(LedgerError::TransferFailed),
        step(s, Operation::ApproveSubmission { task_id, submission_id, caller, pushed: false })
            == s,
{
}

/// An approval by anyone but the task's creator fails with `NotAuthorized`
/// and leaves the ledger as it was, whatever the task's state and whatever
/// submission is named.
pub proof fn lemma_only_creator_approves(
    s: LedgerState,
    task_id: nat,
    submission_id: nat,
    caller: Address,
    pushed: bool,
)
    requires
        valid_task_id(s, task_id),
        s.tasks[task_id - 1].creator != caller,
    ensures
        failure(s, Operation::ApproveSubmission { task_id, submission_id, caller, pushed })
            == Some(LedgerError::NotAuthorized),
        step(s, Operation::ApproveSubmission { task_id, submission_id, caller, pushed }) == s,
{
}

/// An approval succeeds exactly when the task exists, the caller is its
/// creator, the task is open, the submission exists and the payout went
/// through.
pub proof fn lemma_approval_succeeds_iff(
    s: LedgerState,
    task_id: nat,
    submission_id: nat,
    caller: Address,
    pushed: bool,
)
    ensures
        failure(s, Operation::ApproveSubmission { task_id, submission_id, caller, pushed }).is_none()
            <==> (valid_submission_id(s, task_id, submission_id) && s.tasks[task_id - 1].creator
            == caller && s.tasks[task_id - 1].status == TaskStatus::Open && pushed),
{
}

/// What `settle_create_task` and `create_task` leave behind is the step of
/// the model, and what they return is its failure or the new task's id.
pub proof fn lemma_create_is_step(
    pre: LedgerState,
    post: LedgerState,
    r: Result<U256, LedgerError>,
    description: Seq<char>,
    bounty: U256,
    token: Address,
    caller: Address,
    pulled: bool,
)
    requires
        create_outcome(pre, post, r, description, bounty@, token, caller, pulled),
    ensures
        post == step(pre, Operation::CreateTask { description, bounty, token, caller, pulled }),
        match r {
            Ok(id) => failure(
                pre,
                Operation::CreateTask { description, bounty, token, caller, pulled },
            ).is_none() && id@ == post.tasks.len(),
            Err(e) => failure(
                pre,
                Operation::CreateTask { description, bounty, token, caller, pulled },
            ) == Some(e),
        },
{
}

/// What `submit_task` leaves behind is the step of the model, and what it
/// returns is its failure or the new submission's id.
pub proof fn lemma_submit_is_step(
    pre: LedgerState,
    post: LedgerState,
    r: Result<U256, LedgerError>,
    task_id: nat,
    content: Seq<char>,
    caller: Address,
)
    requires
        ledger_inv(pre),
        submit_outcome(pre, post, r, task_id, content, caller),
    ensures
        post == step(pre, Operation::SubmitTask { task_id, content, caller }),
        match r {
            Ok(id) => failure(pre, Operation::SubmitTask { task_id, content, caller }).is_none()
                && id@ == post.submissions[task_id - 1].len(),
            Err(e) => failure(pre, Operation::SubmitTask { task_id, content, caller }) == Some(e),
        },
{
}

/// What `settle_approval` and `approve_submission` leave behind is the step
/// of the model, and what they return is its failure.
pub proof fn lemma_approval_is_step(
    pre: LedgerState,
    post: LedgerState,
    r: Result<(), LedgerError>,
    task_id: nat,
    submission_id: nat,
    caller: Address,
    pushed: bool,
)
    requires
        approval_outcome(pre, post, r, task_id, submission_id, caller, pushed),
    ensures
        post == step(pre, Operation::ApproveSubmission { task_id, submission_id, caller, pushed }),
        match r {
            Ok(_) => failure(
                pre,
                Operation::ApproveSubmission { task_id, submission_id, caller, pushed },
            ).is_none(),
            Err(e) => failure(
                pre,
                Operation::ApproveSubmission { task_id, submission_id, caller, pushed },
            ) == Some(e),
        },
{
}

/// The counters of an identity are exact while the ledger holds fewer than
/// 2^256 tasks: `created_count` is the number of tasks that it created and
/// `completed_count` the number of tasks that it won; `total_earned` is the
/// sum of the bounties that it won, modulo 2^256.
pub proof fn lemma_stats_agree_with_tasks(s: LedgerState, user: Address)
    requires
        ledger_inv(s),
        s.tasks.len() < modulus(),
    ensures
        stats_of(s, user).created_count == created_by(s, user),
        stats_of(s, user).completed_count == won_by(s, user),
        stats_of(s, user).total_earned == earned_by(s, user) % modulus(),
        created_by(s, user) <= s.tasks.len(),
        won_by(s, user) <= s.tasks.len(),
{
    assert(stats_inv(s, user));
    lemma_tally_bounded(s.tasks, created_weight(user));
    lemma_tally_bounded(s.tasks, won_weight(user));
    lemma_small_mod(created_by(s, user), modulus());
    lemma_small_mod(won_by(s, user), modulus());
}

/// What a call leaves alone. A task keeps its id, creator, bounty, token and
/// description for ever; its status changes only from `Open` to `Completed`;
/// its winner, once set, stays. A submission keeps its id, submitter and
/// content, and once approved stays approved. No task and no submission is
/// ever removed.
pub proof fn lemma_records_are_kept(s: LedgerState, op: Operation, task_id: nat, j: int)
    requires
        ledger_inv(s),
        valid_task_id(s, task_id),
        0 <= j < s.submissions[task_id - 1].len(),
    ensures
        ({
            let t = step(s, op);
            let before = s.tasks[task_id - 1];
            let after = t.tasks[task_id - 1];
            let sub_before = s.submissions[task_id - 1][j];
            let sub_after = t.submissions[task_id - 1][j];
            &&& valid_task_id(t, task_id)
            &&& after.id == before.id
            &&& after.creator == before.creator
            &&& after.bounty == before.bounty
            &&& after.token == before.token
            &&& after.description == before.description
            &&& (after.status == before.status || (before.status == TaskStatus::Open
                && after.status == TaskStatus::Completed))
            &&& (before.winner.is_some() ==> after.winner == before.winner)
            &&& j < t.submissions[task_id - 1].len()
            &&& sub_after.id == sub_before.id
            &&& sub_after.submitter == sub_before.submitter
            &&& sub_after.content == sub_before.content
            &&& (sub_before.approved ==> sub_after.approved)
        }),
{
    assert(task_inv(s, task_id - 1));
}

} // verus!
