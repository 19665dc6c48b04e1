//! The records of the ledger and the rules that apply to a single record.
use vstd::prelude::*;
use crate::identity::Address;
use crate::model::{LedgerError, StatsView, SubmissionView, TaskStatus, TaskView};
use crate::uint256::{wrapping_sum, U256};

verus! {

/// One posted bounty.
#[derive(Debug, PartialEq, Eq)]
pub struct Task {
    pub id: U256,
    pub creator: Address,
    pub bounty: U256,
    pub token: Address,
    pub description: String,
    pub status: TaskStatus,
    pub winner: Option<Address>,
}

/// One candidate answer to a task.
#[derive(Debug, PartialEq, Eq)]
pub struct Submission {
    pub id: U256,
    pub submitter: Address,
    pub content: String,
    pub approved: bool,
}

/// One identity's aggregate activity.
#[derive(Clone, Copy, Debug, PartialEq, Eq, Structural)]
pub struct UserStats {
    pub created_count: U256,
    pub completed_count: U256,
    pub total_earned: U256,
}

impl View for Task {
    type V = TaskView;

    open spec fn view(&self) -> TaskView {
        TaskView {
            id: self.id@,
            creator: self.creator,
            bounty: self.bounty@,
            token: self.token,
            description: self.description@,
            status: self.status,
            winner: self.winner,
        }
    }
}

impl View for Submission {
    type V = SubmissionView;

    open spec fn view(&self) -> SubmissionView {
        SubmissionView {
            id: self.id@,
            submitter: self.submitter,
            content: self.content@,
            approved: self.approved,
        }
    }
}

impl View for UserStats {
    type V = StatsView;

    open spec fn view(&self) -> StatsView {
        StatsView {
            created_count: self.created_count@,
            completed_count: self.completed_count@,
            total_earned: self.total_earned@,
        }
    }
}

/// Tests the inputs of a new task: the bounty must be positive and the
/// description non-empty.
pub fn check_new_task(description: &str, bounty: U256) -> (r: Result<(), LedgerError>)
    ensures
        r == (if bounty@ == 0 || description@.len() == 0 {
            Err::<(), LedgerError>(LedgerError::InvalidInput)
        } else {
            Ok(())
        }),
{
    if bounty.is_zero() || description.is_empty() {
        Err(LedgerError::InvalidInput)
    } else {
        Ok(())
    }
}

/// Tests that `id` lies between 1 and `counter`, and fails with `error`
/// where it does not.
pub fn check_id(id: U256, counter: U256, error: LedgerError) -> (r: Result<(), LedgerError>)
    ensures
        r == (if 1 <= id@ <= counter@ {
            Ok::<(), LedgerError>(())
        } else {
            Err(error)
        }),
{
    if !id.is_zero() && id.le(counter) {
        Ok(())
    } else {
        Err(error)
    }
}

impl TaskStatus {
    /// The number that stands for the status where it is stored: 0 for
    /// `Open`, 1 for `Completed`, 2 for `Disputed`.
    pub fn code(self) -> (r: u8)
        ensures
            r == self.code_of(),
    {
        match self {
            TaskStatus::Open => 0,
            TaskStatus::Completed => 1,
            TaskStatus::Disputed => 2,
        }
    }

    /// The status that `code` stands for; any number above 2 reads as
    /// `Open`.
    pub fn from_code(code: u8) -> (r: TaskStatus)
        ensures
            r == (if code == 1 {
                TaskStatus::Completed
            } else if code == 2 {
                TaskStatus::Disputed
            } else {
                TaskStatus::Open
            }),
            code <= 2 ==> r.code_of() == code,
    {
        if code == 1 {
            TaskStatus::Completed
        } else if code == 2 {
            TaskStatus::Disputed
        } else {
            TaskStatus::Open
        }
    }

    /// The number that stands for the status.
    pub open spec fn code_of(self) -> u8 {
        match self {
            TaskStatus::Open => 0u8,
            TaskStatus::Completed => 1u8,
            TaskStatus::Disputed => 2u8,
        }
    }
}

impl Task {
    /// A new open task without a winner.
    pub fn open(id: U256, creator: Address, bounty: U256, token: Address, description: String) -> (r:
        Task)
        ensures
            r == (Task {
                id,
                creator,
                bounty,
                token,
                description,
                status: TaskStatus::Open,
                winner: None,
            }),
    {
        Task { id, creator, bounty, token, description, status: TaskStatus::Open, winner: None }
    }

    /// A copy of the task.
    pub fn duplicate(&self) -> (r: Task)
        ensures
            r == *self,
    {
        Task {
            id: self.id,
            creator: self.creator,
            bounty: self.bounty,
            token: self.token,
            description: self.description.clone(),
            status: self.status,
            winner: self.winner,
        }
    }

    /// Whether the task is open.
    pub fn is_open(&self) -> (r: bool)
        ensures
            r == (self.status == TaskStatus::Open),
    {
        match self.status {
            TaskStatus::Open => true,
            _ => false,
        }
    }

    /// Tests that `content` may be submitted to the task: the content must
    /// be non-empty and the task open, tested in this order.
    pub fn check_submission(&self, content: &str) -> (r: Result<(), LedgerError>)
        ensures
            r == (if content@.len() == 0 {
                Err::<(), LedgerError>(LedgerError::InvalidInput)
            } else if self.status != TaskStatus::Open {
                Err(LedgerError::TaskNotOpen)
            } else {
                Ok(())
            }),
    {
        if content.is_empty() {
            Err(LedgerError::InvalidInput)
        } else if !self.is_open() {
            Err(LedgerError::TaskNotOpen)
        } else {
            Ok(())
        }
    }

    /// Tests that `caller` may approve submission `submission_id` of the
    /// task, which has `submission_counter` submissions: the caller must be
    /// the creator, the task open and the submission one of the task's,
    /// tested in this order.
    pub fn check_approval(&self, caller: &Address, submission_id: U256, submission_counter: U256) -> (r:
        Result<(), LedgerError>)
        ensures
            r == (if self.creator != *caller {
                Err::<(), LedgerError>(LedgerError::NotAuthorized)
            } else if self.status != TaskStatus::Open {
                Err(LedgerError::TaskNotOpen)
            } else if !(1 <= submission_id@ <= submission_counter@) {
                Err(LedgerError::InvalidSubmissionId)
            } else {
                Ok(())
            }),
    {
        if !self.creator.same(caller) {
            Err(LedgerError::NotAuthorized)
        } else if !self.is_open() {
            Err(LedgerError::TaskNotOpen)
        } else {
            check_id(submission_id, submission_counter, LedgerError::InvalidSubmissionId)
        }
    }

    /// Completes the task in favour of `winner`.
    pub fn complete(&mut self, winner: Address)
        ensures
            *final(self) == (Task {
                status: TaskStatus::Completed,
                winner: Some(winner),
                ..*old(self)
            }),
    {
        self.status = TaskStatus::Completed;
        self.winner = Some(winner);
    }
}

impl Submission {
    /// A new submission, not approved.
    pub fn new(id: U256, submitter: Address, content: String) -> (r: Submission)
        ensures
            r == (Submission { id, submitter, content, approved: false }),
    {
        Submission { id, submitter, content, approved: false }
    }

    /// A copy of the submission.
    pub fn duplicate(&self) -> (r: Submission)
        ensures
            r == *self,
    {
        Submission {
            id: self.id,
            submitter: self.submitter,
            content: self.content.clone(),
            approved: self.approved,
        }
    }

    /// Marks the submission as the approved one.
    pub fn approve(&mut self)
        ensures
            *final(self) == (Submission { approved: true, ..*old(self) }),
    {
        self.approved = true;
    }
}

impl UserStats {
    /// The counters of an identity that has done nothing yet.
    pub fn zero() -> (r: UserStats)
        ensures
            r@ == crate::model::zero_stats(),
    {
        UserStats {
            created_count: U256::zero(),
            completed_count: U256::zero(),
            total_earned: U256::zero(),
        }
    }

    /// Counts one more created task.
    pub fn record_created(&mut self)
        ensures
            final(self)@ == (StatsView {
                created_count: wrapping_sum(old(self)@.created_count, 1),
                ..old(self)@
            }),
    {
        self.created_count = self.created_count.successor();
    }

    /// Counts one more completed task and adds `amount` to the earnings.
    pub fn record_completed(&mut self, amount: U256)
        ensures
            final(self)@ == (StatsView {
                completed_count: wrapping_sum(old(self)@.completed_count, 1),
                total_earned: wrapping_sum(old(self)@.total_earned, amount@),
                ..old(self)@
            }),
    {
        self.completed_count = self.completed_count.successor();
        self.total_earned = self.total_earned.wrapping_add(amount);
    }
}

} // verus!
