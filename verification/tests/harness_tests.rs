use ledger_harness::Failure;
use ledger_harness::Gas;
use ledger_harness::Identity;
use ledger_harness::Motes;
use ledger_harness::PurseAddress;
use ledger_harness::Session;
use ledger_harness::TestContextBuilder;
use ledger_harness::TransferExpectation;
use ledger_harness::UnitOfWork;
use ledger_harness::WorkAction;

fn purse(value: u64) -> PurseAddress {
    PurseAddress { value }
}

fn identity(value: u64) -> Identity {
    Identity { value }
}

fn transfer_work(payer: u64, cost: u64, source: u64, target: u64, amount: u128) -> UnitOfWork {
    UnitOfWork {
        payer: purse(payer),
        cost: Gas { value: cost },
        action: WorkAction::Transfer {
            source: purse(source),
            target: purse(target),
            amount: Motes::new(amount),
        },
    }
}

fn noop_work(payer: u64, cost: u64) -> UnitOfWork {
    UnitOfWork { payer: purse(payer), cost: Gas { value: cost }, action: WorkAction::Noop }
}

#[test]
fn session_defaults() {
    let session = Session::new(noop_work(1, 0));
    assert!(session.expect_success);
    assert!(session.commit);
    assert_eq!(session.transfer_expectation, None);
}

#[test]
fn source_transfer_scenario() {
    // Account A seeded at 1000; transfer 100 from A's purse to an unknown
    // purse, declaring only the source-side check. With cost 3 and rate 10
    // the fee is 30, so A must end at 1000 - 100 - 30 = 870.
    let a = identity(1);
    let mut ctx = TestContextBuilder::new().with_account(a, Motes::new(1000)).build();
    let session = Session::new(transfer_work(1, 3, 1, 999, 100)).with_transfer_expectation(
        TransferExpectation {
            source_purse: purse(1),
            maybe_target_purse: None,
            transfer_amount: Motes::new(100),
        },
    );
    assert_eq!(ctx.run(session), Ok(()));
    assert_eq!(ctx.get_balance(purse(1)), Some(Motes::new(870)));
    assert_eq!(ctx.get_balance(purse(999)), Some(Motes::new(100)));
}

#[test]
fn transfer_with_target_check() {
    // Both sides declared: the target must gain exactly the amount and the
    // source must lose amount plus fee.
    let mut ctx = TestContextBuilder::new()
        .with_account(identity(1), Motes::new(1000))
        .with_account(identity(2), Motes::new(200))
        .build();
    let session = Session::new(transfer_work(1, 2, 1, 2, 100)).with_transfer_expectation(
        TransferExpectation {
            source_purse: purse(1),
            maybe_target_purse: Some(purse(2)),
            transfer_amount: Motes::new(100),
        },
    );
    assert_eq!(ctx.run(session), Ok(()));
    assert_eq!(ctx.get_balance(purse(1)), Some(Motes::new(880)));
    assert_eq!(ctx.get_balance(purse(2)), Some(Motes::new(300)));
}

#[test]
fn no_expectation_performs_no_balance_check() {
    // The same session without the expectation: the harness only applies
    // the policy flags, whatever the balances do.
    let mut ctx = TestContextBuilder::new().with_account(identity(1), Motes::new(1000)).build();
    let session = Session::new(transfer_work(1, 3, 1, 999, 100));
    assert_eq!(ctx.run(session), Ok(()));
    assert_eq!(ctx.get_balance(purse(1)), Some(Motes::new(870)));
}

#[test]
fn expect_success_fails_on_failed_execution() {
    let mut ctx = TestContextBuilder::new().with_account(identity(1), Motes::new(1000)).build();
    let work = UnitOfWork { payer: purse(1), cost: Gas { value: 1 }, action: WorkAction::Fail };
    assert_eq!(ctx.run(Session::new(work)), Err(Failure::ExecutionFailed));
    // With expect_success unset the failure is accepted silently and the
    // committed state is untouched.
    let mut ctx = TestContextBuilder::new().with_account(identity(1), Motes::new(1000)).build();
    let work = UnitOfWork { payer: purse(1), cost: Gas { value: 1 }, action: WorkAction::Fail };
    assert_eq!(ctx.run(Session::new(work).with_expect_success(false)), Ok(()));
    assert_eq!(ctx.get_balance(purse(1)), Some(Motes::new(1000)));
}

#[test]
fn get_balance_is_idempotent() {
    let mut ctx = TestContextBuilder::new().with_account(identity(1), Motes::new(1000)).build();
    let first = ctx.get_balance(purse(1));
    let second = ctx.get_balance(purse(1));
    assert_eq!(first, second);
    // An uncommitted execution in between does not change what get_balance
    // returns either.
    let session = Session::new(noop_work(1, 4)).with_commit(false);
    assert_eq!(ctx.run(session), Ok(()));
    assert_eq!(ctx.get_balance(purse(1)), first);
}

#[test]
fn genesis_accounts_queryable_after_build() {
    let ctx = TestContextBuilder::new()
        .with_account(identity(1), Motes::new(1000))
        .with_account(identity(2), Motes::new(500))
        .build();
    let main_1 = ctx.main_purse_address(identity(1)).expect("account 1");
    let main_2 = ctx.main_purse_address(identity(2)).expect("account 2");
    assert_eq!(ctx.get_balance(main_1), Some(Motes::new(1000)));
    assert_eq!(ctx.get_balance(main_2), Some(Motes::new(500)));
    let account = ctx.get_account(identity(1)).expect("account record");
    assert_eq!(account.identity, identity(1));
    assert_eq!(account.main_purse(), main_1);
    assert_eq!(ctx.get_account(identity(3)), None);
    assert_eq!(ctx.main_purse_address(identity(3)), None);
}

#[test]
fn duplicate_genesis_identity_last_wins() {
    let ctx = TestContextBuilder::new()
        .with_account(identity(7), Motes::new(100))
        .with_account(identity(7), Motes::new(250))
        .build();
    let main = ctx.main_purse_address(identity(7)).expect("account");
    assert_eq!(ctx.get_balance(main), Some(Motes::new(250)));
}

#[test]
fn zero_transfer_checks_only_the_fee() {
    // transfer_amount == 0: only the fee deduction is checked.
    let mut ctx = TestContextBuilder::new().with_account(identity(1), Motes::new(1000)).build();
    let session = Session::new(noop_work(1, 5)).with_transfer_expectation(TransferExpectation {
        source_purse: purse(1),
        maybe_target_purse: None,
        transfer_amount: Motes::new(0),
    });
    assert_eq!(ctx.run(session), Ok(()));
    assert_eq!(ctx.get_balance(purse(1)), Some(Motes::new(950)));
}

#[test]
fn zero_transfer_detects_unexpected_fee_charging() {
    // The engine charges the fee to a different purse than the expectation's
    // source: the source-side check reports the mismatch.
    let mut ctx = TestContextBuilder::new()
        .with_account(identity(1), Motes::new(1000))
        .with_account(identity(2), Motes::new(1000))
        .build();
    let session = Session::new(noop_work(2, 5)).with_transfer_expectation(TransferExpectation {
        source_purse: purse(1),
        maybe_target_purse: None,
        transfer_amount: Motes::new(0),
    });
    assert_eq!(
        ctx.run(session),
        Err(Failure::SourceMismatch { expected: Motes::new(950), actual: Motes::new(1000) })
    );
}

#[test]
fn unresolved_source_purse_is_reported() {
    let mut ctx = TestContextBuilder::new().with_account(identity(1), Motes::new(1000)).build();
    let session = Session::new(noop_work(1, 0)).with_transfer_expectation(TransferExpectation {
        source_purse: purse(42),
        maybe_target_purse: None,
        transfer_amount: Motes::new(0),
    });
    assert_eq!(ctx.run(session), Err(Failure::SourceUnresolved));
    // Nothing was executed: the balance is untouched.
    assert_eq!(ctx.get_balance(purse(1)), Some(Motes::new(1000)));
}

#[test]
fn unresolved_target_purse_is_reported() {
    let mut ctx = TestContextBuilder::new().with_account(identity(1), Motes::new(1000)).build();
    let session = Session::new(noop_work(1, 0)).with_transfer_expectation(TransferExpectation {
        source_purse: purse(1),
        maybe_target_purse: Some(purse(42)),
        transfer_amount: Motes::new(0),
    });
    assert_eq!(ctx.run(session), Err(Failure::TargetUnresolved));
    assert_eq!(ctx.get_balance(purse(1)), Some(Motes::new(1000)));
}

#[test]
fn target_mismatch_is_reported_with_both_values() {
    let mut ctx = TestContextBuilder::new()
        .with_account(identity(1), Motes::new(1000))
        .with_account(identity(2), Motes::new(0))
        .build();
    let session = Session::new(transfer_work(1, 0, 1, 2, 50)).with_transfer_expectation(
        TransferExpectation {
            source_purse: purse(1),
            maybe_target_purse: Some(purse(2)),
            transfer_amount: Motes::new(60),
        },
    );
    assert_eq!(
        ctx.run(session),
        Err(Failure::TargetMismatch { expected: Motes::new(60), actual: Motes::new(50) })
    );
}

#[test]
fn target_overflow_is_reported() {
    let mut ctx = TestContextBuilder::new()
        .with_account(identity(1), Motes::new(1000))
        .with_account(identity(2), Motes::new(u128::MAX))
        .build();
    let session = Session::new(noop_work(1, 0)).with_transfer_expectation(TransferExpectation {
        source_purse: purse(1),
        maybe_target_purse: Some(purse(2)),
        transfer_amount: Motes::new(1),
    });
    assert_eq!(ctx.run(session), Err(Failure::TargetOverflow));
}

#[test]
fn source_underflow_is_reported() {
    let mut ctx = TestContextBuilder::new().with_account(identity(1), Motes::new(10)).build();
    let session = Session::new(noop_work(1, 0)).with_transfer_expectation(TransferExpectation {
        source_purse: purse(1),
        maybe_target_purse: None,
        transfer_amount: Motes::new(100),
    });
    assert_eq!(ctx.run(session), Err(Failure::SourceUnderflow));
}

#[test]
fn source_mismatch_is_reported_with_both_values() {
    let mut ctx = TestContextBuilder::new().with_account(identity(1), Motes::new(1000)).build();
    let session = Session::new(noop_work(1, 0)).with_transfer_expectation(TransferExpectation {
        source_purse: purse(1),
        maybe_target_purse: None,
        transfer_amount: Motes::new(5),
    });
    assert_eq!(
        ctx.run(session),
        Err(Failure::SourceMismatch { expected: Motes::new(995), actual: Motes::new(1000) })
    );
}

#[test]
fn uncommitted_transfer_expectation_reads_stale_state() {
    // commit == false with an expectation is a documented usage hazard: the
    // post-execution reads observe the committed, pre-run balances.
    let mut ctx = TestContextBuilder::new().with_account(identity(1), Motes::new(1000)).build();
    let session = Session::new(noop_work(1, 3)).with_commit(false).with_transfer_expectation(
        TransferExpectation {
            source_purse: purse(1),
            maybe_target_purse: None,
            transfer_amount: Motes::new(0),
        },
    );
    assert_eq!(
        ctx.run(session),
        Err(Failure::SourceMismatch { expected: Motes::new(970), actual: Motes::new(1000) })
    );
    assert_eq!(ctx.get_balance(purse(1)), Some(Motes::new(1000)));
}

#[test]
fn insufficient_funds_fail_execution() {
    // The engine refuses a transfer the source cannot cover; with
    // expect_success unset the failure leaves committed state unchanged.
    let mut ctx = TestContextBuilder::new().with_account(identity(1), Motes::new(50)).build();
    let session = Session::new(transfer_work(1, 0, 1, 999, 100)).with_expect_success(false);
    assert_eq!(ctx.run(session), Ok(()));
    assert_eq!(ctx.get_balance(purse(1)), Some(Motes::new(50)));
    assert_eq!(ctx.get_balance(purse(999)), None);
}

#[test]
fn sequential_runs_observe_cumulative_committed_effects() {
    let mut ctx = TestContextBuilder::new().with_account(identity(1), Motes::new(1000)).build();
    assert_eq!(ctx.run(Session::new(transfer_work(1, 1, 1, 999, 100))), Ok(()));
    assert_eq!(ctx.run(Session::new(transfer_work(1, 1, 1, 999, 200))), Ok(()));
    // 1000 - (100 + 10) - (200 + 10) = 680; the target collected 300.
    assert_eq!(ctx.get_balance(purse(1)), Some(Motes::new(680)));
    assert_eq!(ctx.get_balance(purse(999)), Some(Motes::new(300)));
}
