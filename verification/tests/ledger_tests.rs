use gig_economy::engine::GigEconomy;
use gig_economy::port::{Pull, Push, ScriptedPort, TransferError, ValueTransferPort};
use gig_economy::identity::Address;
use gig_economy::model::{LedgerError, TaskStatus};
use gig_economy::records::{check_id, check_new_task, Submission, Task, UserStats};
use gig_economy::stats::UserStatsTracker;
use gig_economy::uint256::U256;

fn addr(n: u8) -> Address {
    Address::new([n; 20])
}

fn amount(n: u64) -> U256 {
    U256::from_u64(n)
}

fn escrow() -> Address {
    addr(0xee)
}

fn token() -> Address {
    addr(0x70)
}

fn ledger_with_one_task(port: &mut ScriptedPort) -> GigEconomy {
    let mut ledger = GigEconomy::new(escrow());
    let id = ledger.create_task(port, String::from("Design a logo"), amount(1000), token(), addr(0xa));
    assert_eq!(id, Ok(amount(1)));
    ledger
}

#[test]
fn new_ledger_is_empty() {
    let ledger = GigEconomy::new(escrow());
    assert_eq!(ledger.get_all_tasks_counter(), U256::zero());
    assert_eq!(ledger.get_custodian(), escrow());
    assert_eq!(ledger.get_task(amount(1)), Err(LedgerError::InvalidTaskId));
    assert_eq!(ledger.get_user_stats(&addr(1)), UserStats::zero());
}

#[test]
fn end_to_end_scenario() {
    let a = addr(0xa);
    let b = addr(0xb);
    let c = addr(0xc);
    let mut port = ScriptedPort::new(false, false);
    let mut ledger = GigEconomy::new(escrow());

    let id = ledger.create_task(&mut port, String::from("Design a logo"), amount(1000), token(), a);
    assert_eq!(id, Ok(amount(1)));
    assert_eq!(port.pulls, vec![Pull { asset: token(), from: a, to: escrow(), amount: amount(1000) }]);
    let task = ledger.get_task(amount(1)).unwrap();
    assert_eq!(task.status, TaskStatus::Open);
    assert_eq!(task.winner, None);

    let sub = ledger.submit_task(amount(1), String::from("Logo v1"), b);
    assert_eq!(sub, Ok(amount(1)));
    assert_eq!(ledger.get_task_submission_counter(amount(1)), Ok(amount(1)));

    let before = ledger.get_task(amount(1)).unwrap();
    assert_eq!(
        ledger.approve_submission(&mut port, amount(1), amount(1), c),
        Err(LedgerError::NotAuthorized)
    );
    assert_eq!(ledger.get_task(amount(1)).unwrap(), before);
    assert!(port.pushes.is_empty());

    assert_eq!(ledger.approve_submission(&mut port, amount(1), amount(1), a), Ok(()));
    assert_eq!(port.pushes, vec![Push { asset: token(), to: b, amount: amount(1000) }]);
    let task = ledger.get_task(amount(1)).unwrap();
    assert_eq!(task.status, TaskStatus::Completed);
    assert_eq!(task.winner, Some(b));
    let submission = ledger.get_task_submission(amount(1), amount(1)).unwrap();
    assert!(submission.approved);
    let stats = ledger.get_user_stats(&b);
    assert_eq!(stats.completed_count, amount(1));
    assert_eq!(stats.total_earned, amount(1000));
    assert_eq!(stats.created_count, U256::zero());

    assert_eq!(
        ledger.approve_submission(&mut port, amount(1), amount(1), a),
        Err(LedgerError::TaskNotOpen)
    );
    assert_eq!(port.pushes.len(), 1);
    assert_eq!(port.pulls.len(), 1);
}

#[test]
fn task_ids_are_contiguous() {
    let mut port = ScriptedPort::new(false, false);
    let mut ledger = GigEconomy::new(escrow());
    for n in 1..=5u64 {
        let id = ledger.create_task(&mut port, format!("task {}", n), amount(10 * n), token(), addr(n as u8));
        assert_eq!(id, Ok(amount(n)));
        assert_eq!(ledger.get_all_tasks_counter(), amount(n));
        assert_eq!(ledger.get_task(amount(n)).unwrap().id, amount(n));
    }
    assert_eq!(ledger.get_task(amount(6)), Err(LedgerError::InvalidTaskId));
    assert_eq!(ledger.get_task(U256::zero()), Err(LedgerError::InvalidTaskId));
}

#[test]
fn submission_ids_are_contiguous_per_task() {
    let mut port = ScriptedPort::new(false, false);
    let mut ledger = ledger_with_one_task(&mut port);
    assert_eq!(
        ledger.create_task(&mut port, String::from("second"), amount(5), token(), addr(2)),
        Ok(amount(2))
    );
    for n in 1..=4u64 {
        assert_eq!(ledger.submit_task(amount(1), format!("answer {}", n), addr(0xb)), Ok(amount(n)));
    }
    assert_eq!(ledger.submit_task(amount(2), String::from("other"), addr(0xc)), Ok(amount(1)));
    assert_eq!(ledger.submit_task(amount(2), String::from("more"), addr(0xd)), Ok(amount(2)));
    assert_eq!(ledger.get_task_submission_counter(amount(1)), Ok(amount(4)));
    assert_eq!(ledger.get_task_submission_counter(amount(2)), Ok(amount(2)));
    let third = ledger.get_task_submission(amount(1), amount(3)).unwrap();
    assert_eq!(third, Submission { id: amount(3), submitter: addr(0xb), content: String::from("answer 3"), approved: false });
}

#[test]
fn created_task_holds_its_inputs() {
    let mut port = ScriptedPort::new(false, false);
    let ledger = ledger_with_one_task(&mut port);
    assert_eq!(
        ledger.get_task(amount(1)),
        Ok(Task {
            id: amount(1),
            creator: addr(0xa),
            bounty: amount(1000),
            token: token(),
            description: String::from("Design a logo"),
            status: TaskStatus::Open,
            winner: None,
        })
    );
    assert_eq!(ledger.get_user_stats(&addr(0xa)).created_count, amount(1));
    assert_eq!(ledger.get_user_stats(&addr(0xa)).completed_count, U256::zero());
    assert_eq!(ledger.get_task_submission_counter(amount(1)), Ok(U256::zero()));
}

#[test]
fn zero_bounty_is_rejected_and_changes_nothing() {
    let mut port = ScriptedPort::new(false, false);
    let mut ledger = ledger_with_one_task(&mut port);
    let r = ledger.create_task(&mut port, String::from("free work"), U256::zero(), token(), addr(2));
    assert_eq!(r, Err(LedgerError::InvalidInput));
    assert_eq!(ledger.get_all_tasks_counter(), amount(1));
    assert_eq!(ledger.get_task(amount(2)), Err(LedgerError::InvalidTaskId));
    assert_eq!(ledger.get_user_stats(&addr(2)), UserStats::zero());
    assert_eq!(port.pulls.len(), 1);
}

#[test]
fn empty_description_is_rejected() {
    let mut port = ScriptedPort::new(false, false);
    let mut ledger = GigEconomy::new(escrow());
    let r = ledger.create_task(&mut port, String::new(), amount(5), token(), addr(2));
    assert_eq!(r, Err(LedgerError::InvalidInput));
    assert_eq!(ledger.get_all_tasks_counter(), U256::zero());
    assert!(port.pulls.is_empty());
}

#[test]
fn failed_pull_creates_nothing() {
    let mut port = ScriptedPort::new(false, false);
    port.fail_pull = true;
    let mut ledger = GigEconomy::new(escrow());
    let r = ledger.create_task(&mut port, String::from("work"), amount(5), token(), addr(2));
    assert_eq!(r, Err(LedgerError::TransferFailed));
    assert_eq!(ledger.get_all_tasks_counter(), U256::zero());
    assert_eq!(ledger.get_user_stats(&addr(2)), UserStats::zero());
    port.fail_pull = false;
    let r = ledger.create_task(&mut port, String::from("work"), amount(5), token(), addr(2));
    assert_eq!(r, Ok(amount(1)));
}

#[test]
fn failed_push_leaves_task_open() {
    let mut port = ScriptedPort::new(false, false);
    let mut ledger = ledger_with_one_task(&mut port);
    assert_eq!(ledger.submit_task(amount(1), String::from("Logo v1"), addr(0xb)), Ok(amount(1)));
    port.fail_push = true;
    let r = ledger.approve_submission(&mut port, amount(1), amount(1), addr(0xa));
    assert_eq!(r, Err(LedgerError::TransferFailed));
    let task = ledger.get_task(amount(1)).unwrap();
    assert_eq!(task.status, TaskStatus::Open);
    assert_eq!(task.winner, None);
    assert!(!ledger.get_task_submission(amount(1), amount(1)).unwrap().approved);
    assert_eq!(ledger.get_user_stats(&addr(0xb)), UserStats::zero());
    port.fail_push = false;
    assert_eq!(ledger.approve_submission(&mut port, amount(1), amount(1), addr(0xa)), Ok(()));
    assert_eq!(ledger.get_task(amount(1)).unwrap().status, TaskStatus::Completed);
    assert_eq!(port.pushes.len(), 1);
}

#[test]
fn only_the_creator_approves() {
    let mut port = ScriptedPort::new(false, false);
    let mut ledger = ledger_with_one_task(&mut port);
    assert_eq!(ledger.submit_task(amount(1), String::from("Logo v1"), addr(0xb)), Ok(amount(1)));
    for who in [addr(0xb), addr(0xc), escrow(), token()] {
        assert_eq!(
            ledger.approve_submission(&mut port, amount(1), amount(1), who),
            Err(LedgerError::NotAuthorized)
        );
        assert_eq!(
            ledger.approve_submission(&mut port, amount(1), amount(9), who),
            Err(LedgerError::NotAuthorized)
        );
    }
    assert_eq!(ledger.get_task(amount(1)).unwrap().status, TaskStatus::Open);
    assert!(!ledger.get_task_submission(amount(1), amount(1)).unwrap().approved);
    assert!(port.pushes.is_empty());
    assert_eq!(ledger.approve_submission(&mut port, amount(1), amount(1), addr(0xa)), Ok(()));
    assert_eq!(
        ledger.approve_submission(&mut port, amount(1), amount(1), addr(0xc)),
        Err(LedgerError::NotAuthorized)
    );
}

#[test]
fn approval_errors_by_input() {
    let mut port = ScriptedPort::new(false, false);
    let mut ledger = ledger_with_one_task(&mut port);
    let a = addr(0xa);
    assert_eq!(ledger.approve_submission(&mut port, amount(2), amount(1), a), Err(LedgerError::InvalidTaskId));
    assert_eq!(ledger.approve_submission(&mut port, U256::zero(), amount(1), a), Err(LedgerError::InvalidTaskId));
    assert_eq!(ledger.approve_submission(&mut port, amount(1), amount(1), a), Err(LedgerError::InvalidSubmissionId));
    assert_eq!(ledger.submit_task(amount(1), String::from("Logo v1"), addr(0xb)), Ok(amount(1)));
    assert_eq!(ledger.approve_submission(&mut port, amount(1), U256::zero(), a), Err(LedgerError::InvalidSubmissionId));
    assert_eq!(ledger.approve_submission(&mut port, amount(1), amount(2), a), Err(LedgerError::InvalidSubmissionId));
    let huge = U256::from_limbs([1, 1, 0, 0]);
    assert_eq!(ledger.approve_submission(&mut port, huge, amount(1), a), Err(LedgerError::InvalidTaskId));
    assert_eq!(ledger.approve_submission(&mut port, amount(1), huge, a), Err(LedgerError::InvalidSubmissionId));
    assert!(port.pushes.is_empty());
    assert_eq!(ledger.get_task(amount(1)).unwrap().status, TaskStatus::Open);
}

#[test]
fn at_most_one_submission_is_approved() {
    let mut port = ScriptedPort::new(false, false);
    let mut ledger = ledger_with_one_task(&mut port);
    for n in 1..=3u8 {
        assert!(ledger.submit_task(amount(1), format!("v{}", n), addr(n)).is_ok());
    }
    assert_eq!(ledger.approve_submission(&mut port, amount(1), amount(2), addr(0xa)), Ok(()));
    assert_eq!(ledger.approve_submission(&mut port, amount(1), amount(3), addr(0xa)), Err(LedgerError::TaskNotOpen));
    let approved: Vec<bool> = (1..=3u64)
        .map(|n| ledger.get_task_submission(amount(1), amount(n)).unwrap().approved)
        .collect();
    assert_eq!(approved, vec![false, true, false]);
    assert_eq!(ledger.get_task(amount(1)).unwrap().winner, Some(addr(2)));
    assert_eq!(port.pushes, vec![Push { asset: token(), to: addr(2), amount: amount(1000) }]);
}

#[test]
fn submit_errors_by_input() {
    let mut port = ScriptedPort::new(false, false);
    let mut ledger = ledger_with_one_task(&mut port);
    let b = addr(0xb);
    assert_eq!(ledger.submit_task(amount(2), String::from("x"), b), Err(LedgerError::InvalidTaskId));
    assert_eq!(ledger.submit_task(U256::zero(), String::from("x"), b), Err(LedgerError::InvalidTaskId));
    assert_eq!(ledger.submit_task(amount(2), String::new(), b), Err(LedgerError::InvalidTaskId));
    assert_eq!(ledger.submit_task(amount(1), String::new(), b), Err(LedgerError::InvalidInput));
    assert_eq!(ledger.get_task_submission_counter(amount(1)), Ok(U256::zero()));
    assert_eq!(ledger.submit_task(amount(1), String::from("x"), b), Ok(amount(1)));
    assert_eq!(ledger.approve_submission(&mut port, amount(1), amount(1), addr(0xa)), Ok(()));
    assert_eq!(ledger.submit_task(amount(1), String::from("late"), b), Err(LedgerError::TaskNotOpen));
    assert_eq!(ledger.submit_task(amount(1), String::new(), b), Err(LedgerError::InvalidInput));
    assert_eq!(ledger.get_task_submission_counter(amount(1)), Ok(amount(1)));
}

#[test]
fn creator_may_submit_to_own_task() {
    let mut port = ScriptedPort::new(false, false);
    let mut ledger = ledger_with_one_task(&mut port);
    assert_eq!(ledger.submit_task(amount(1), String::from("mine"), addr(0xa)), Ok(amount(1)));
    assert_eq!(ledger.approve_submission(&mut port, amount(1), amount(1), addr(0xa)), Ok(()));
    let stats = ledger.get_user_stats(&addr(0xa));
    assert_eq!(stats, UserStats { created_count: amount(1), completed_count: amount(1), total_earned: amount(1000) });
}

#[test]
fn read_errors_by_input() {
    let mut port = ScriptedPort::new(false, false);
    let mut ledger = ledger_with_one_task(&mut port);
    assert_eq!(ledger.get_task_submission_counter(amount(2)), Err(LedgerError::InvalidTaskId));
    assert_eq!(ledger.get_task_submission_counter(U256::zero()), Err(LedgerError::InvalidTaskId));
    assert_eq!(ledger.get_task_submission(amount(2), amount(1)), Err(LedgerError::InvalidTaskId));
    assert_eq!(ledger.get_task_submission(amount(1), amount(1)), Err(LedgerError::InvalidSubmissionId));
    assert_eq!(ledger.get_task_submission(amount(1), U256::zero()), Err(LedgerError::InvalidSubmissionId));
    assert!(ledger.submit_task(amount(1), String::from("x"), addr(0xb)).is_ok());
    assert!(ledger.get_task_submission(amount(1), amount(1)).is_ok());
    assert_eq!(ledger.get_task_submission(amount(1), amount(2)), Err(LedgerError::InvalidSubmissionId));
}

#[test]
fn stats_accumulate_over_tasks() {
    let mut port = ScriptedPort::new(false, false);
    let mut ledger = GigEconomy::new(escrow());
    let a = addr(0xa);
    let b = addr(0xb);
    for n in 1..=3u64 {
        assert_eq!(ledger.create_task(&mut port, format!("t{}", n), amount(100 * n), token(), a), Ok(amount(n)));
        assert_eq!(ledger.submit_task(amount(n), String::from("done"), b), Ok(amount(1)));
    }
    assert_eq!(ledger.approve_submission(&mut port, amount(1), amount(1), a), Ok(()));
    assert_eq!(ledger.approve_submission(&mut port, amount(3), amount(1), a), Ok(()));
    assert_eq!(
        ledger.get_user_stats(&a),
        UserStats { created_count: amount(3), completed_count: U256::zero(), total_earned: U256::zero() }
    );
    assert_eq!(
        ledger.get_user_stats(&b),
        UserStats { created_count: U256::zero(), completed_count: amount(2), total_earned: amount(400) }
    );
    assert_eq!(ledger.get_task(amount(2)).unwrap().status, TaskStatus::Open);
    assert_eq!(port.pulls.len(), 3);
    assert_eq!(
        port.pushes,
        vec![
            Push { asset: token(), to: b, amount: amount(100) },
            Push { asset: token(), to: b, amount: amount(300) },
        ]
    );
}

#[test]
fn total_earned_wraps_like_the_counters() {
    let mut port = ScriptedPort::new(false, false);
    let mut ledger = GigEconomy::new(escrow());
    let a = addr(0xa);
    let b = addr(0xb);
    let max = U256::from_limbs([u64::MAX, u64::MAX, u64::MAX, u64::MAX]);
    assert_eq!(ledger.create_task(&mut port, String::from("big"), max, token(), a), Ok(amount(1)));
    assert_eq!(ledger.create_task(&mut port, String::from("small"), amount(3), addr(0x71), a), Ok(amount(2)));
    assert!(ledger.submit_task(amount(1), String::from("x"), b).is_ok());
    assert!(ledger.submit_task(amount(2), String::from("y"), b).is_ok());
    assert_eq!(ledger.approve_submission(&mut port, amount(1), amount(1), a), Ok(()));
    assert_eq!(ledger.get_user_stats(&b).total_earned, max);
    assert_eq!(ledger.approve_submission(&mut port, amount(2), amount(1), a), Ok(()));
    assert_eq!(ledger.get_user_stats(&b).total_earned, amount(2));
    assert_eq!(ledger.get_user_stats(&b).completed_count, amount(2));
}

#[test]
fn plan_and_settle_create() {
    let mut ledger = GigEconomy::new(escrow());
    let a = addr(0xa);
    assert_eq!(
        ledger.plan_create_task("Design a logo", amount(1000), token(), a),
        Ok(Pull { asset: token(), from: a, to: escrow(), amount: amount(1000) })
    );
    assert_eq!(ledger.plan_create_task("", amount(1000), token(), a), Err(LedgerError::InvalidInput));
    assert_eq!(ledger.plan_create_task("x", U256::zero(), token(), a), Err(LedgerError::InvalidInput));
    assert_eq!(
        ledger.settle_create_task(String::from("x"), amount(7), token(), a, Err(TransferError::Rejected)),
        Err(LedgerError::TransferFailed)
    );
    assert_eq!(ledger.get_all_tasks_counter(), U256::zero());
    assert_eq!(
        ledger.settle_create_task(String::from("x"), U256::zero(), token(), a, Ok(())),
        Err(LedgerError::InvalidInput)
    );
    assert_eq!(ledger.settle_create_task(String::from("x"), amount(7), token(), a, Ok(())), Ok(amount(1)));
    assert_eq!(ledger.settle_create_task(String::from("y"), amount(8), token(), a, Ok(())), Ok(amount(2)));
    assert_eq!(ledger.get_all_tasks_counter(), amount(2));
    assert_eq!(ledger.get_task(amount(2)).unwrap().bounty, amount(8));
}

#[test]
fn plan_and_settle_approval() {
    let mut port = ScriptedPort::new(false, false);
    let mut ledger = ledger_with_one_task(&mut port);
    let a = addr(0xa);
    let b = addr(0xb);
    assert!(ledger.submit_task(amount(1), String::from("x"), b).is_ok());
    assert_eq!(
        ledger.plan_approval(amount(1), amount(1), &a),
        Ok(Push { asset: token(), to: b, amount: amount(1000) })
    );
    assert_eq!(ledger.plan_approval(amount(1), amount(1), &b), Err(LedgerError::NotAuthorized));
    assert_eq!(ledger.plan_approval(amount(1), amount(2), &a), Err(LedgerError::InvalidSubmissionId));
    assert_eq!(ledger.plan_approval(amount(3), amount(1), &a), Err(LedgerError::InvalidTaskId));
    assert_eq!(
        ledger.settle_approval(amount(1), amount(1), a, Err(TransferError::InsufficientBalance)),
        Err(LedgerError::TransferFailed)
    );
    assert_eq!(ledger.get_task(amount(1)).unwrap().status, TaskStatus::Open);
    assert_eq!(ledger.settle_approval(amount(1), amount(1), b, Ok(())), Err(LedgerError::NotAuthorized));
    assert_eq!(ledger.settle_approval(amount(1), amount(1), a, Ok(())), Ok(()));
    assert_eq!(ledger.get_task(amount(1)).unwrap().winner, Some(b));
    assert_eq!(ledger.plan_approval(amount(1), amount(1), &a), Err(LedgerError::TaskNotOpen));
    assert_eq!(ledger.settle_approval(amount(1), amount(1), a, Ok(())), Err(LedgerError::TaskNotOpen));
}

#[test]
fn record_level_checks() {
    assert_eq!(check_new_task("x", amount(1)), Ok(()));
    assert_eq!(check_new_task("", amount(1)), Err(LedgerError::InvalidInput));
    assert_eq!(check_new_task("x", U256::zero()), Err(LedgerError::InvalidInput));
    assert_eq!(check_id(amount(1), amount(1), LedgerError::InvalidTaskId), Ok(()));
    assert_eq!(check_id(amount(2), amount(1), LedgerError::InvalidTaskId), Err(LedgerError::InvalidTaskId));
    assert_eq!(check_id(U256::zero(), amount(1), LedgerError::InvalidSubmissionId), Err(LedgerError::InvalidSubmissionId));
    assert_eq!(check_id(amount(1), U256::zero(), LedgerError::InvalidTaskId), Err(LedgerError::InvalidTaskId));

    let mut task = Task::open(amount(4), addr(1), amount(50), token(), String::from("d"));
    assert!(task.is_open());
    assert_eq!(task.duplicate(), task);
    assert_eq!(task.check_submission("c"), Ok(()));
    assert_eq!(task.check_submission(""), Err(LedgerError::InvalidInput));
    assert_eq!(task.check_approval(&addr(1), amount(1), amount(1)), Ok(()));
    assert_eq!(task.check_approval(&addr(2), amount(1), amount(1)), Err(LedgerError::NotAuthorized));
    assert_eq!(task.check_approval(&addr(1), amount(2), amount(1)), Err(LedgerError::InvalidSubmissionId));
    task.complete(addr(9));
    assert_eq!(task.status, TaskStatus::Completed);
    assert_eq!(task.winner, Some(addr(9)));
    assert_eq!(task.bounty, amount(50));
    assert!(!task.is_open());
    assert_eq!(task.check_submission("c"), Err(LedgerError::TaskNotOpen));
    assert_eq!(task.check_approval(&addr(1), amount(1), amount(1)), Err(LedgerError::TaskNotOpen));
    assert_eq!(task.check_approval(&addr(2), amount(1), amount(1)), Err(LedgerError::NotAuthorized));

    let mut submission = Submission::new(amount(1), addr(3), String::from("c"));
    assert!(!submission.approved);
    submission.approve();
    assert!(submission.approved);
    assert_eq!(submission.duplicate(), submission);
    assert_eq!(submission.submitter, addr(3));
}

#[test]
fn disputed_task_is_not_open() {
    let mut task = Task::open(amount(1), addr(1), amount(50), token(), String::from("d"));
    task.status = TaskStatus::Disputed;
    assert!(!task.is_open());
    assert_eq!(task.check_submission("c"), Err(LedgerError::TaskNotOpen));
    assert_eq!(task.check_approval(&addr(1), amount(1), amount(1)), Err(LedgerError::TaskNotOpen));
}

#[test]
fn stats_tracker_counts_per_identity() {
    let mut tracker = UserStatsTracker::new();
    assert_eq!(tracker.get(&addr(1)), UserStats::zero());
    tracker.record_created(addr(1));
    tracker.record_created(addr(1));
    tracker.record_created(addr(2));
    tracker.record_completed(addr(2), amount(30));
    tracker.record_completed(addr(3), amount(5));
    tracker.record_completed(addr(2), amount(12));
    assert_eq!(
        tracker.get(&addr(1)),
        UserStats { created_count: amount(2), completed_count: U256::zero(), total_earned: U256::zero() }
    );
    assert_eq!(
        tracker.get(&addr(2)),
        UserStats { created_count: amount(1), completed_count: amount(2), total_earned: amount(42) }
    );
    assert_eq!(
        tracker.get(&addr(3)),
        UserStats { created_count: U256::zero(), completed_count: amount(1), total_earned: amount(5) }
    );
    assert_eq!(tracker.get(&addr(4)), UserStats::zero());
}

#[test]
fn user_stats_mutators() {
    let mut stats = UserStats::zero();
    stats.record_created();
    stats.record_completed(amount(10));
    stats.record_completed(amount(15));
    assert_eq!(stats, UserStats { created_count: amount(1), completed_count: amount(2), total_earned: amount(25) });
}

#[test]
fn status_codes_round_trip() {
    assert_eq!(TaskStatus::Open.code(), 0);
    assert_eq!(TaskStatus::Completed.code(), 1);
    assert_eq!(TaskStatus::Disputed.code(), 2);
    assert_eq!(TaskStatus::from_code(0), TaskStatus::Open);
    assert_eq!(TaskStatus::from_code(1), TaskStatus::Completed);
    assert_eq!(TaskStatus::from_code(2), TaskStatus::Disputed);
    assert_eq!(TaskStatus::from_code(3), TaskStatus::Open);
    assert_eq!(TaskStatus::from_code(255), TaskStatus::Open);
}

#[test]
fn scripted_port_answers_as_told() {
    let mut port = ScriptedPort::new(true, false);
    assert_eq!(port.pull(token(), addr(1), escrow(), amount(5)), Err(TransferError::Rejected));
    assert!(port.pulls.is_empty());
    assert_eq!(port.push(token(), addr(2), amount(6)), Ok(()));
    assert_eq!(port.pushes, vec![Push { asset: token(), to: addr(2), amount: amount(6) }]);
    port.fail_pull = false;
    port.fail_push = true;
    assert_eq!(port.pull(token(), addr(1), escrow(), amount(5)), Ok(()));
    assert_eq!(port.pulls, vec![Pull { asset: token(), from: addr(1), to: escrow(), amount: amount(5) }]);
    assert_eq!(port.push(token(), addr(2), amount(6)), Err(TransferError::Rejected));
    assert_eq!(port.pushes.len(), 1);
}
