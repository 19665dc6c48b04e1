//! The mathematical model of the ledger: what a ledger holds, what each
//! operation does to it, and the invariant that every operation keeps.
use vstd::prelude::*;
use crate::identity::Address;
use crate::port::{PortCall, TransferView};
use crate::uint256::{modulus, wrapping_sum, U256};

verus! {

/// Where a task stands in its lifecycle. `Disputed` is a terminal marker that
/// no operation of the ledger produces.
#[derive(Clone, Copy, Debug, PartialEq, Eq, Structural)]
pub enum TaskStatus {
    Open,
    Completed,
    Disputed,
}

/// Why an operation was rejected.
#[derive(Clone, Copy, Debug, PartialEq, Eq, Structural)]
pub enum LedgerError {
    /// An empty description or content, or a bounty of zero.
    InvalidInput,
    /// The task id is zero or exceeds the task counter.
    InvalidTaskId,
    /// The submission id is zero or exceeds the task's submission counter.
    InvalidSubmissionId,
    /// The task is not `Open`.
    TaskNotOpen,
    /// The caller is not the task's creator.
    NotAuthorized,
    /// The token transfer was refused.
    TransferFailed,
}

/// A task as a mathematical value.
pub ghost struct TaskView {
    pub id: nat,
    pub creator: Address,
    pub bounty: nat,
    pub token: Address,
    pub description: Seq<char>,
    pub status: TaskStatus,
    pub winner: Option<Address>,
}

/// A submission as a mathematical value.
pub ghost struct SubmissionView {
    pub id: nat,
    pub submitter: Address,
    pub content: Seq<char>,
    pub approved: bool,
}

/// One identity's counters as mathematical values.
pub ghost struct StatsView {
    pub created_count: nat,
    pub completed_count: nat,
    pub total_earned: nat,
}

/// The whole ledger: task `i + 1` is `tasks[i]`, its submissions are
/// `submissions[i]`, and `stats` holds the identities that have a record.
pub ghost struct LedgerState {
    pub tasks: Seq<TaskView>,
    pub submissions: Seq<Seq<SubmissionView>>,
    pub stats: Map<Address, StatsView>,
}

/// The counters of an identity without a record.
pub open spec fn zero_stats() -> StatsView {
    StatsView { created_count: 0, completed_count: 0, total_earned: 0 }
}

/// The counters that `stats` holds for `user`, all zero where it has no
/// record yet.
pub open spec fn lookup_stats(stats: Map<Address, StatsView>, user: Address) -> StatsView {
    if stats.contains_key(user) {
        stats[user]
    } else {
        zero_stats()
    }
}

/// The records after one more task was counted as created by `user`.
pub open spec fn count_created(stats: Map<Address, StatsView>, user: Address) -> Map<
    Address,
    StatsView,
> {
    stats.insert(
        user,
        StatsView {
            created_count: wrapping_sum(lookup_stats(stats, user).created_count, 1),
            ..lookup_stats(stats, user)
        },
    )
}

/// The records after one more task was counted as completed by `user`, who
/// earned `amount` with it.
pub open spec fn count_completed(stats: Map<Address, StatsView>, user: Address, amount: nat) -> Map<
    Address,
    StatsView,
> {
    stats.insert(
        user,
        StatsView {
            completed_count: wrapping_sum(lookup_stats(stats, user).completed_count, 1),
            total_earned: wrapping_sum(lookup_stats(stats, user).total_earned, amount),
            ..lookup_stats(stats, user)
        },
    )
}

/// The counters of `user` in the ledger, all zero where it has no record yet.
pub open spec fn stats_of(s: LedgerState, user: Address) -> StatsView {
    lookup_stats(s.stats, user)
}

/// The ledger before any operation.
pub open spec fn empty_ledger() -> LedgerState {
    LedgerState { tasks: Seq::empty(), submissions: Seq::empty(), stats: Map::empty() }
}

/// Whether `task_id` names a task of the ledger.
pub open spec fn valid_task_id(s: LedgerState, task_id: nat) -> bool {
    1 <= task_id <= s.tasks.len()
}

/// Whether `submission_id` names a submission of task `task_id`.
pub open spec fn valid_submission_id(s: LedgerState, task_id: nat, submission_id: nat) -> bool {
    &&& valid_task_id(s, task_id)
    &&& 1 <= submission_id <= s.submissions[task_id - 1].len()
}

/// Why a new task with these inputs is refused before any transfer, if it is.
pub open spec fn create_refusal(description: Seq<char>, bounty: nat) -> Option<LedgerError> {
    if bounty == 0 || description.len() == 0 {
        Some(LedgerError::InvalidInput)
    } else {
        None
    }
}

/// The task that `create_task` stores.
pub open spec fn new_task(
    s: LedgerState,
    description: Seq<char>,
    bounty: nat,
    token: Address,
    caller: Address,
) -> TaskView {
    TaskView {
        id: s.tasks.len() + 1,
        creator: caller,
        bounty,
        token,
        description,
        status: TaskStatus::Open,
        winner: None,
    }
}

/// The ledger after a task was created.
pub open spec fn after_create(
    s: LedgerState,
    description: Seq<char>,
    bounty: nat,
    token: Address,
    caller: Address,
) -> LedgerState {
    LedgerState {
        tasks: s.tasks.push(new_task(s, description, bounty, token, caller)),
        submissions: s.submissions.push(Seq::empty()),
        stats: count_created(s.stats, caller),
    }
}

/// Why a submission with these inputs is refused, if it is.
pub open spec fn submit_refusal(s: LedgerState, task_id: nat, content: Seq<char>) -> Option<
    LedgerError,
> {
    if !valid_task_id(s, task_id) {
        Some(LedgerError::InvalidTaskId)
    } else if content.len() == 0 {
        Some(LedgerError::InvalidInput)
    } else if s.tasks[task_id - 1].status != TaskStatus::Open {
        Some(LedgerError::TaskNotOpen)
    } else {
        None
    }
}

/// The submission that `submit_task` stores.
pub open spec fn new_submission(
    s: LedgerState,
    task_id: nat,
    content: Seq<char>,
    caller: Address,
) -> SubmissionView {
    SubmissionView {
        id: s.submissions[task_id - 1].len() + 1,
        submitter: caller,
        content,
        approved: false,
    }
}

/// The ledger after a submission was stored.
pub open spec fn after_submit(
    s: LedgerState,
    task_id: nat,
    content: Seq<char>,
    caller: Address,
) -> LedgerState {
    LedgerState {
        submissions: s.submissions.update(
            task_id - 1,
            s.submissions[task_id - 1].push(new_submission(s, task_id, content, caller)),
        ),
        ..s
    }
}

/// Why an approval with these inputs is refused before any transfer, if it
/// is. The task must exist, the caller must be its creator, the task must be
/// open and the submission must exist, tested in this order.
pub open spec fn approval_refusal(
    s: LedgerState,
    task_id: nat,
    submission_id: nat,
    caller: Address,
) -> Option<LedgerError> {
    if !valid_task_id(s, task_id) {
        Some(LedgerError::InvalidTaskId)
    } else if s.tasks[task_id - 1].creator != caller {
        Some(LedgerError::NotAuthorized)
    } else if s.tasks[task_id - 1].status != TaskStatus::Open {
        Some(LedgerError::TaskNotOpen)
    } else if !valid_submission_id(s, task_id, submission_id) {
        Some(LedgerError::InvalidSubmissionId)
    } else {
        None
    }
}

/// The ledger after submission `submission_id` of task `task_id` was
/// approved and paid.
pub open spec fn after_approval(s: LedgerState, task_id: nat, submission_id: nat) -> LedgerState {
    let task = s.tasks[task_id - 1];
    let submission = s.submissions[task_id - 1][submission_id - 1];
    let winner = submission.submitter;
    LedgerState {
        tasks: s.tasks.update(
            task_id - 1,
            TaskView { status: TaskStatus::Completed, winner: Some(winner), ..task },
        ),
        submissions: s.submissions.update(
            task_id - 1,
            s.submissions[task_id - 1].update(
                submission_id - 1,
                SubmissionView { approved: true, ..submission },
            ),
        ),
        stats: count_completed(s.stats, winner, task.bounty),
    }
}

/// The sum of `weight` over the tasks.
pub open spec fn tally(tasks: Seq<TaskView>, weight: spec_fn(TaskView) -> nat) -> nat
    decreases tasks.len(),
{
    if tasks.len() == 0 {
        0
    } else {
        tally(tasks.drop_last(), weight) + weight(tasks.last())
    }
}

/// One for a task that `user` created.
pub open spec fn created_weight(user: Address) -> spec_fn(TaskView) -> nat {
    |task: TaskView|
        if task.creator == user {
            1nat
        } else {
            0nat
        }
}

/// One for a task that `user` won.
pub open spec fn won_weight(user: Address) -> spec_fn(TaskView) -> nat {
    |task: TaskView|
        if task.winner == Some(user) {
            1nat
        } else {
            0nat
        }
}

/// The bounty of a task that `user` won.
pub open spec fn earned_weight(user: Address) -> spec_fn(TaskView) -> nat {
    |task: TaskView|
        if task.winner == Some(user) {
            task.bounty
        } else {
            0nat
        }
}

/// The number of tasks that `user` created.
pub open spec fn created_by(s: LedgerState, user: Address) -> nat {
    tally(s.tasks, created_weight(user))
}

/// The number of tasks that `user` won.
pub open spec fn won_by(s: LedgerState, user: Address) -> nat {
    tally(s.tasks, won_weight(user))
}

/// The sum of the bounties of the tasks that `user` won.
pub open spec fn earned_by(s: LedgerState, user: Address) -> nat {
    tally(s.tasks, earned_weight(user))
}

/// What must hold of the counters of `user`: the identity has a record
/// exactly when it created or won a task, and its counters count the tasks
/// that it created and won, and add up the bounties that it won, each modulo
/// 2^256.
pub open spec fn stats_inv(s: LedgerState, user: Address) -> bool {
    &&& s.stats.contains_key(user) <==> created_by(s, user) > 0 || won_by(s, user) > 0
    &&& stats_of(s, user).created_count == created_by(s, user) % modulus()
    &&& stats_of(s, user).completed_count == won_by(s, user) % modulus()
    &&& stats_of(s, user).total_earned == earned_by(s, user) % modulus()
}

/// What must hold of a task and its submissions.
pub open spec fn task_inv(s: LedgerState, i: int) -> bool {
    let task = s.tasks[i];
    let subs = s.submissions[i];
    &&& task.id == i + 1
    &&& 0 < task.bounty < modulus()
    &&& task.description.len() > 0
    &&& (task.winner.is_some() <==> task.status == TaskStatus::Completed)
    &&& forall|j: int| 0 <= j < subs.len() ==> (#[trigger] subs[j]).id == j + 1
    &&& forall|j: int| 0 <= j < subs.len() ==> (#[trigger] subs[j]).content.len() > 0
    &&& forall|j: int, k: int|
        0 <= j < subs.len() && 0 <= k < subs.len() && (#[trigger] subs[j]).approved && (
        #[trigger] subs[k]).approved ==> j == k
    &&& forall|j: int|
        0 <= j < subs.len() && (#[trigger] subs[j]).approved ==> task.winner == Some(
            subs[j].submitter,
        )
    &&& (task.status == TaskStatus::Completed ==> exists|j: int|
        0 <= j < subs.len() && (#[trigger] subs[j]).approved)
}

/// The invariant of the ledger: task ids run from 1 without a gap, and so
/// do the submission ids of each task; a task has a winner exactly when it
/// is completed; at most one submission of a task is approved, a completed
/// task has one, and its submitter is the task's winner; and the counters
/// of every identity agree with the tasks.
pub open spec fn ledger_inv(s: LedgerState) -> bool {
    &&& s.submissions.len() == s.tasks.len()
    &&& forall|i: int| 0 <= i < s.tasks.len() ==> #[trigger] task_inv(s, i)
    &&& forall|user: Address| #[trigger] stats_inv(s, user)
}

/// Whether `after` is `before` followed by one call, which asked for
/// `transfer`.
pub open spec fn one_call(before: Seq<PortCall>, after: Seq<PortCall>, transfer: TransferView) -> bool {
    &&& after.len() == before.len() + 1
    &&& after.drop_last() == before
    &&& after.last().transfer == transfer
}

/// The payout for approving submission `submission_id` of task `task_id`:
/// the task's bounty, in the task's token, to the submitter.
pub open spec fn planned_push(s: LedgerState, task_id: nat, submission_id: nat) -> TransferView {
    TransferView::Push {
        asset: s.tasks[task_id - 1].token,
        to: s.submissions[task_id - 1][submission_id - 1].submitter,
        amount: s.tasks[task_id - 1].bounty,
    }
}

/// What a call that creates a task leaves behind and returns, given whether
/// the bounty could be pulled into custody.
pub open spec fn create_outcome(
    pre: LedgerState,
    post: LedgerState,
    r: Result<U256, LedgerError>,
    description: Seq<char>,
    bounty: nat,
    token: Address,
    caller: Address,
    pulled: bool,
) -> bool {
    if create_refusal(description, bounty).is_some() {
        r == Err::<U256, LedgerError>(create_refusal(description, bounty).unwrap()) && post == pre
    } else if !pulled {
        r == Err::<U256, LedgerError>(LedgerError::TransferFailed) && post == pre
    } else {
        r.is_ok() && r.unwrap()@ == pre.tasks.len() + 1 && post == after_create(
            pre,
            description,
            bounty,
            token,
            caller,
        )
    }
}

/// What a call that stores a submission leaves behind and returns.
pub open spec fn submit_outcome(
    pre: LedgerState,
    post: LedgerState,
    r: Result<U256, LedgerError>,
    task_id: nat,
    content: Seq<char>,
    caller: Address,
) -> bool {
    if submit_refusal(pre, task_id, content).is_some() {
        r == Err::<U256, LedgerError>(submit_refusal(pre, task_id, content).unwrap()) && post == pre
    } else {
        r.is_ok() && r.unwrap()@ == pre.submissions[task_id - 1].len() + 1 && post == after_submit(
            pre,
            task_id,
            content,
            caller,
        )
    }
}

/// What a call that approves a submission leaves behind and returns, given
/// whether the bounty could be pushed to the submitter.
pub open spec fn approval_outcome(
    pre: LedgerState,
    post: LedgerState,
    r: Result<(), LedgerError>,
    task_id: nat,
    submission_id: nat,
    caller: Address,
    pushed: bool,
) -> bool {
    if approval_refusal(pre, task_id, submission_id, caller).is_some() {
        r == Err::<(), LedgerError>(approval_refusal(pre, task_id, submission_id, caller).unwrap())
            && post == pre
    } else if !pushed {
        r == Err::<(), LedgerError>(LedgerError::TransferFailed) && post == pre
    } else {
        r.is_ok() && post == after_approval(pre, task_id, submission_id)
    }
}

} // verus!
