//! The ledger itself: tasks with their submissions, the counters, the
//! per-identity statistics, and the operations on them.
use vstd::prelude::*;
use crate::identity::Address;
use crate::model::{
    after_approval, after_create, after_submit, approval_outcome, approval_refusal,
    create_outcome, create_refusal, created_by, earned_by, empty_ledger, ledger_inv, one_call,
    planned_push, stats_of, submit_outcome, valid_submission_id, valid_task_id,
    won_by, LedgerError, LedgerState, SubmissionView,
};
use crate::port::{Pull, Push, TransferError, TransferView, ValueTransferPort};
use crate::laws::{
    lemma_approval_keeps_inv, lemma_create_keeps_inv, lemma_empty_inv,
    lemma_stats_agree_with_tasks, lemma_submit_keeps_inv,
};
use crate::records::{check_id, check_new_task, Submission, Task, UserStats};
use crate::stats::UserStatsTracker;
use crate::uint256::{lemma_modulus_large, lemma_value_bounded, modulus, U256};

verus! {

/// A task with its submissions and their counter.
struct TaskEntry {
    task: Task,
    submissions: Vec<Submission>,
    submission_counter: U256,
}

impl TaskEntry {
    spec fn submission_views(&self) -> Seq<SubmissionView> {
        Seq::new(self.submissions@.len(), |j: int| self.submissions@[j]@)
    }
}

/// The task-bounty escrow ledger.
pub struct GigEconomy {
    custodian: Address,
    entries: Vec<TaskEntry>,
    task_counter: U256,
    stats: UserStatsTracker,
}

impl View for GigEconomy {
    type V = LedgerState;

    closed spec fn view(&self) -> LedgerState {
        LedgerState {
            tasks: Seq::new(self.entries@.len(), |i: int| self.entries@[i].task@),
            submissions: Seq::new(self.entries@.len(), |i: int| self.entries@[i].submission_views()),
            stats: self.stats@,
        }
    }
}

/// The place of the record with the id `id`, where ids start at 1.
fn index_of(id: U256) -> (r: usize)
    requires
        1 <= id@ <= usize::MAX,
    ensures
        r == id@ - 1,
{
    (id.l0 - 1) as usize
}

impl GigEconomy {
    /// The counters agree with what is stored, and the ledger's invariant
    /// holds.
    pub closed spec fn wf(&self) -> bool {
        &&& self.task_counter@ == self.entries@.len()
        &&& forall|i: int|
            0 <= i < self.entries@.len() ==> (#[trigger] self.entries@[i]).submission_counter@
                == self.entries@[i].submissions@.len()
        &&& ledger_inv(self@)
    }

    /// The identity that holds the escrowed bounties.
    pub closed spec fn custodian(&self) -> Address {
        self.custodian
    }

    /// A well-formed ledger satisfies the ledger's invariant.
    pub proof fn lemma_wf_inv(&self)
        requires
            self.wf(),
        ensures
            ledger_inv(self@),
    {
    }

    /// A ledger without tasks, whose bounties `custodian` will hold.
    pub fn new(custodian: Address) -> (r: GigEconomy)
        ensures
            r.wf(),
            r@ == empty_ledger(),
            r.custodian() == custodian,
    {
        let r = GigEconomy {
            custodian,
            entries: Vec::new(),
            task_counter: U256::zero(),
            stats: UserStatsTracker::new(),
        };
        proof {
            lemma_empty_inv();
            assert(r@.tasks =~= Seq::empty());
            assert(r@.submissions =~= Seq::empty());
        }
        r
    }

    /// The identity that holds the escrowed bounties.
    pub fn get_custodian(&self) -> (r: Address)
        ensures
            r == self.custodian(),
    {
        self.custodian
    }

    /// The number of tasks, which is the id of the newest one.
    pub fn get_all_tasks_counter(&self) -> (r: U256)
        requires
            self.wf(),
        ensures
            r@ == self@.tasks.len(),
    {
        self.task_counter
    }

    /// The place of task `task_id`, if there is such a task.
    fn task_index(&self, task_id: U256) -> (r: Option<usize>)
        requires
            self.wf(),
        ensures
            r.is_some() <==> valid_task_id(self@, task_id@),
            r.is_some() ==> r.unwrap() == task_id@ - 1 && r.unwrap() < self.entries@.len(),
    {
        proof {
            assert(self.entries.len() == self.entries@.len());
        }
        match check_id(task_id, self.task_counter, LedgerError::InvalidTaskId) {
            Err(_) => None,
            Ok(()) => Some(index_of(task_id)),
        }
    }

    /// The place of submission `submission_id` among the submissions of the
    /// task at place `i`, if the task has such a submission.
    fn submission_index(&self, i: usize, submission_id: U256) -> (r: Option<usize>)
        requires
            self.wf(),
            i < self.entries@.len(),
        ensures
            r.is_some() <==> 1 <= submission_id@ <= self@.submissions[i as int].len(),
            r.is_some() ==> r.unwrap() == submission_id@ - 1 && r.unwrap()
                < self.entries@[i as int].submissions@.len(),
    {
        proof {
            assert(self.entries@[i as int].submissions.len()
                == self.entries@[i as int].submissions@.len());
        }
        match check_id(
            submission_id,
            self.entries[i].submission_counter,
            LedgerError::InvalidSubmissionId,
        ) {
            Err(_) => None,
            Ok(()) => Some(index_of(submission_id)),
        }
    }

    /// The number of submissions of task `task_id`, which is the id of its
    /// newest one. Fails with `InvalidTaskId` where there is no such task.
    pub fn get_task_submission_counter(&self, task_id: U256) -> (r: Result<U256, LedgerError>)
        requires
            self.wf(),
        ensures
            match r {
                Ok(n) => valid_task_id(self@, task_id@) && n@ == self@.submissions[task_id@
                    - 1].len(),
                Err(e) => !valid_task_id(self@, task_id@) && e == LedgerError::InvalidTaskId,
            },
    {
        match self.task_index(task_id) {
            None => Err(LedgerError::InvalidTaskId),
            Some(i) => Ok(self.entries[i].submission_counter),
        }
    }

    /// Task `task_id`. Fails with `InvalidTaskId` where there is no such task.
    pub fn get_task(&self, task_id: U256) -> (r: Result<Task, LedgerError>)
        requires
            self.wf(),
        ensures
            match r {
                Ok(task) => valid_task_id(self@, task_id@) && task@ == self@.tasks[task_id@ - 1],
                Err(e) => !valid_task_id(self@, task_id@) && e == LedgerError::InvalidTaskId,
            },
    {
        match self.task_index(task_id) {
            None => Err(LedgerError::InvalidTaskId),
            Some(i) => Ok(self.entries[i].task.duplicate()),
        }
    }

    /// Submission `submission_id` of task `task_id`. Fails with
    /// `InvalidTaskId` where there is no such task, and with
    /// `InvalidSubmissionId` where the task has no such submission.
    pub fn get_task_submission(&self, task_id: U256, submission_id: U256) -> (r: Result<
        Submission,
        LedgerError,
    >)
        requires
            self.wf(),
        ensures
            match r {
                Ok(submission) => valid_submission_id(self@, task_id@, submission_id@)
                    && submission@ == self@.submissions[task_id@ - 1][submission_id@ - 1],
                Err(e) => !valid_submission_id(self@, task_id@, submission_id@) && e == (
                if valid_task_id(self@, task_id@) {
                    LedgerError::InvalidSubmissionId
                } else {
                    LedgerError::InvalidTaskId
                }),
            },
    {
        match self.task_index(task_id) {
            None => Err(LedgerError::InvalidTaskId),
            Some(i) => match self.submission_index(i, submission_id) {
                None => Err(LedgerError::InvalidSubmissionId),
                Some(j) => Ok(self.entries[i].submissions[j].duplicate()),
            },
        }
    }

    /// The counters of `user`, all zero where it has neither created nor won
    /// a task.
    pub fn get_user_stats(&self, user: &Address) -> (r: UserStats)
        requires
            self.wf(),
        ensures
            r@ == stats_of(self@, *user),
            r@.created_count == created_by(self@, *user),
            r@.completed_count == won_by(self@, *user),
            r@.total_earned == earned_by(self@, *user) % modulus(),
    {
        proof {
            assert(self.entries.len() == self.entries@.len());
            lemma_modulus_large();
            lemma_stats_agree_with_tasks(self@, *user);
        }
        self.stats.get(user)
    }

    /// Tests the inputs of a new task and names the transfer that has to
    /// succeed before the task is stored: the bounty, from the caller into
    /// the custodian's hands.
    pub fn plan_create_task(
        &self,
        description: &str,
        bounty: U256,
        token: Address,
        caller: Address,
    ) -> (r: Result<Pull, LedgerError>)
        ensures
            r == (match create_refusal(description@, bounty@) {
                Some(e) => Err::<Pull, LedgerError>(e),
                None => Ok(Pull { asset: token, from: caller, to: self.custodian(), amount: bounty }),
            }),
            r.is_ok() ==> r.unwrap()@ == (TransferView::Pull {
                asset: token,
                from: caller,
                to: self.custodian(),
                amount: bounty@,
            }),
    {
        match check_new_task(description, bounty) {
            Err(e) => Err(e),
            Ok(()) => Ok(Pull { asset: token, from: caller, to: self.custodian, amount: bounty }),
        }
    }

    /// Stores a new task once its bounty was pulled into custody. `pulled`
    /// is what the transfer named by `plan_create_task` returned. The task is
    /// stored, and its id returned, where the inputs are valid and the
    /// transfer succeeded; otherwise the ledger stays as it was.
    pub fn settle_create_task(
        &mut self,
        description: String,
        bounty: U256,
        token: Address,
        caller: Address,
        pulled: Result<(), TransferError>,
    ) -> (r: Result<U256, LedgerError>)
        requires
            old(self).wf(),
        ensures
            final(self).wf(),
            final(self).custodian() == old(self).custodian(),
            create_outcome(
                old(self)@,
                final(self)@,
                r,
                description@,
                bounty@,
                token,
                caller,
                pulled.is_ok(),
            ),
            r.is_err() ==> final(self)@ == old(self)@,
            r.is_ok() <==> bounty@ > 0 && description@.len() > 0 && pulled.is_ok(),
    {
        match check_new_task(description.as_str(), bounty) {
            Err(e) => { return Err(e); },
            Ok(()) => {},
        }
        if pulled.is_err() {
            return Err(LedgerError::TransferFailed);
        }
        proof {
            assert(self.entries.len() == self.entries@.len());
            lemma_value_bounded(bounty);
            lemma_create_keeps_inv(self@, description@, bounty@, token, caller);
        }
        let id = self.task_counter.successor();
        let task = Task::open(id, caller, bounty, token, description);
        self.entries.push(
            TaskEntry { task, submissions: Vec::new(), submission_counter: U256::zero() },
        );
        self.task_counter = id;
        self.stats.record_created(caller);
        proof {
            let post = after_create(old(self)@, description@, bounty@, token, caller);
            assert(self@.tasks =~= post.tasks);
            assert(self.entries@[old(self).entries@.len() as int].submission_views() =~= Seq::empty());
            assert(self@.submissions =~= post.submissions);
        }
        Ok(id)
    }

    /// Creates a task: tests the inputs, pulls the bounty from the caller
    /// into custody through `port`, and stores the task where the transfer
    /// succeeded. Invalid inputs fail with `InvalidInput`, without a call of
    /// the port; a refused transfer fails with `TransferFailed`; and the
    /// ledger then stays as it was.
    pub fn create_task<P: ValueTransferPort>(
        &mut self,
        port: &mut P,
        description: String,
        bounty: U256,
        token: Address,
        caller: Address,
    ) -> (r: Result<U256, LedgerError>)
        requires
            old(self).wf(),
        ensures
            final(self).wf(),
            final(self).custodian() == old(self).custodian(),
            r.is_err() ==> final(self)@ == old(self)@,
            match create_refusal(description@, bounty@) {
                Some(e) => r == Err::<U256, LedgerError>(e) && final(port).calls() == old(port).calls(),
                None => one_call(
                    old(port).calls(),
                    final(port).calls(),
                    TransferView::Pull {
                        asset: token,
                        from: caller,
                        to: old(self).custodian(),
                        amount: bounty@,
                    },
                ) && create_outcome(
                    old(self)@,
                    final(self)@,
                    r,
                    description@,
                    bounty@,
                    token,
                    caller,
                    final(port).calls().last().done,
                ),
            },
    {
        let pull = match self.plan_create_task(description.as_str(), bounty, token, caller) {
            Err(e) => { return Err(e); },
            Ok(pull) => pull,
        };
        let pulled = port.pull(pull.asset, pull.from, pull.to, pull.amount);
        proof {
            assert(port.calls().drop_last() =~= old(port).calls());
        }
        self.settle_create_task(description, bounty, token, caller, pulled)
    }

    /// Stores a submission of `caller` to task `task_id` and returns its id.
    /// Fails with `InvalidTaskId` where there is no such task, with
    /// `InvalidInput` where the content is empty and with `TaskNotOpen`
    /// where the task is not open; the ledger then stays as it was.
    pub fn submit_task(&mut self, task_id: U256, content: String, caller: Address) -> (r: Result<
        U256,
        LedgerError,
    >)
        requires
            old(self).wf(),
        ensures
            final(self).wf(),
            final(self).custodian() == old(self).custodian(),
            submit_outcome(old(self)@, final(self)@, r, task_id@, content@, caller),
            r.is_err() ==> final(self)@ == old(self)@,
    {
        let i = match self.task_index(task_id) {
            None => { return Err(LedgerError::InvalidTaskId); },
            Some(i) => i,
        };
        match self.entries[i].task.check_submission(content.as_str()) {
            Err(e) => { return Err(e); },
            Ok(()) => {},
        }
        proof {
            assert(self.entries@[i as int].submissions.len()
                == self.entries@[i as int].submissions@.len());
            lemma_submit_keeps_inv(self@, task_id@, content@, caller);
        }
        let id = self.entries[i].submission_counter.successor();
        let submission = Submission::new(id, caller, content);
        self.entries[i].submissions.push(submission);
        self.entries[i].submission_counter = id;
        proof {
            let post = after_submit(old(self)@, task_id@, content@, caller);
            assert(self@.tasks =~= post.tasks);
            assert(self.entries@[i as int].submission_views() =~= post.submissions[i as int]);
            assert forall|k: int| 0 <= k < self.entries@.len() && k != i implies (
            #[trigger] self.entries@[k]).submission_views() == post.submissions[k] by {
                assert(self.entries@[k] == old(self).entries@[k]);
            }
            assert(self@.submissions =~= post.submissions);
        }
        Ok(id)
    }

    /// Tests that `caller` may approve submission `submission_id` of task
    /// `task_id` and names the transfer that has to succeed before the
    /// approval is stored: the task's bounty, out of custody to the
    /// submitter.
    pub fn plan_approval(&self, task_id: U256, submission_id: U256, caller: &Address) -> (r: Result<
        Push,
        LedgerError,
    >)
        requires
            self.wf(),
        ensures
            match approval_refusal(self@, task_id@, submission_id@, *caller) {
                Some(e) => r == Err::<Push, LedgerError>(e),
                None => r.is_ok() && r.unwrap()@ == planned_push(
                    self@,
                    task_id@,
                    submission_id@,
                ),
            },
    {
        match self.locate_approval(task_id, submission_id, caller) {
            Err(e) => Err(e),
            Ok((i, j)) => Ok(
                Push {
                    asset: self.entries[i].task.token,
                    to: self.entries[i].submissions[j].submitter,
                    amount: self.entries[i].task.bounty,
                },
            ),
        }
    }

    /// The places of task `task_id` and of its submission `submission_id`,
    /// where `caller` may approve that submission.
    fn locate_approval(&self, task_id: U256, submission_id: U256, caller: &Address) -> (r: Result<
        (usize, usize),
        LedgerError,
    >)
        requires
            self.wf(),
        ensures
            match approval_refusal(self@, task_id@, submission_id@, *caller) {
                Some(e) => r == Err::<(usize, usize), LedgerError>(e),
                None => r.is_ok() && r.unwrap().0 == task_id@ - 1 && r.unwrap().1 == submission_id@
                    - 1 && r.unwrap().0 < self.entries@.len() && r.unwrap().1
                    < self.entries@[task_id@ - 1].submissions@.len(),
            },
    {
        let i = match self.task_index(task_id) {
            None => { return Err(LedgerError::InvalidTaskId); },
            Some(i) => i,
        };
        let entry = &self.entries[i];
        proof {
            assert(entry.submissions.len() == entry.submissions@.len());
        }
        match entry.task.check_approval(caller, submission_id, entry.submission_counter) {
            Err(e) => Err(e),
            Ok(()) => Ok((i, index_of(submission_id))),
        }
    }

    /// Stores an approval once the bounty was pushed to the submitter.
    /// `pushed` is what the transfer named by `plan_approval` returned. Where
    /// the approval is allowed and the transfer succeeded, the submission is
    /// marked approved, the task completed with the submitter as its winner,
    /// and the winner's statistics updated; otherwise the ledger stays as it
    /// was.
    pub fn settle_approval(
        &mut self,
        task_id: U256,
        submission_id: U256,
        caller: Address,
        pushed: Result<(), TransferError>,
    ) -> (r: Result<(), LedgerError>)
        requires
            old(self).wf(),
        ensures
            final(self).wf(),
            final(self).custodian() == old(self).custodian(),
            approval_outcome(
                old(self)@,
                final(self)@,
                r,
                task_id@,
                submission_id@,
                caller,
                pushed.is_ok(),
            ),
            r.is_err() ==> final(self)@ == old(self)@,
            pushed.is_err() ==> r.is_err(),
            valid_task_id(old(self)@, task_id@) && old(self)@.tasks[task_id@ - 1].creator != caller
                ==> r == Err::<(), LedgerError>(LedgerError::NotAuthorized),
    {
        let (i, j) = match self.locate_approval(task_id, submission_id, &caller) {
            Err(e) => { return Err(e); },
            Ok(places) => places,
        };
        if pushed.is_err() {
            return Err(LedgerError::TransferFailed);
        }
        proof {
            lemma_approval_keeps_inv(self@, task_id@, submission_id@, caller);
        }
        let winner = self.entries[i].submissions[j].submitter;
        let bounty = self.entries[i].task.bounty;
        self.entries[i].submissions[j].approve();
        self.entries[i].task.complete(winner);
        self.stats.record_completed(winner, bounty);
        proof {
            let post = after_approval(old(self)@, task_id@, submission_id@);
            assert(self@.tasks =~= post.tasks);
            assert(self.entries@[i as int].submission_views() =~= post.submissions[i as int]);
            assert forall|k: int| 0 <= k < self.entries@.len() && k != i implies (
            #[trigger] self.entries@[k]).submission_views() == post.submissions[k] by {
                assert(self.entries@[k] == old(self).entries@[k]);
            }
            assert(self@.submissions =~= post.submissions);
        }
        Ok(())
    }

    /// Approves submission `submission_id` of task `task_id` on behalf of
    /// `caller`: tests that the task exists, that the caller is its creator,
    /// that it is open and that it has the submission, in this order; pushes
    /// the bounty to the submitter through `port`, once; and stores the
    /// approval where the transfer succeeded. A refused approval makes no
    /// call of the port, and on any failure the ledger stays as it was.
    pub fn approve_submission<P: ValueTransferPort>(
        &mut self,
        port: &mut P,
        task_id: U256,
        submission_id: U256,
        caller: Address,
    ) -> (r: Result<(), LedgerError>)
        requires
            old(self).wf(),
        ensures
            final(self).wf(),
            final(self).custodian() == old(self).custodian(),
            r.is_err() ==> final(self)@ == old(self)@,
            valid_task_id(old(self)@, task_id@) && old(self)@.tasks[task_id@ - 1].creator != caller
                ==> r == Err::<(), LedgerError>(LedgerError::NotAuthorized),
            match approval_refusal(old(self)@, task_id@, submission_id@, caller) {
                Some(e) => r == Err::<(), LedgerError>(e) && final(port).calls() == old(port).calls(),
                None => one_call(
                    old(port).calls(),
                    final(port).calls(),
                    planned_push(old(self)@, task_id@, submission_id@),
                ) && approval_outcome(
                    old(self)@,
                    final(self)@,
                    r,
                    task_id@,
                    submission_id@,
                    caller,
                    final(port).calls().last().done,
                ),
            },
    {
        let push = match self.plan_approval(task_id, submission_id, &caller) {
            Err(e) => { return Err(e); },
            Ok(push) => push,
        };
        let pushed = port.push(push.asset, push.to, push.amount);
        proof {
            assert(port.calls().drop_last() =~= old(port).calls());
        }
        self.settle_approval(task_id, submission_id, caller, pushed)
    }
}

} // verus!
