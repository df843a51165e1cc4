use vstd::prelude::*;
use crate::engine::Engine;
use crate::engine::UnitOfWork;
use crate::engine::apply_effect;
use crate::engine::effect_of;
use crate::engine::exec_success;
use crate::engine::genesis_account;
use crate::engine::lemma_apply_preserves_purse;
use crate::engine::spec_fee;
use crate::engine::spec_genesis;
use crate::engine::CONV_RATE;
use crate::genesis::GenesisAccountEntry;
use crate::genesis::GenesisBuilder;
use crate::ledger::Account;
use crate::ledger::Identity;
use crate::ledger::LedgerModel;
use crate::ledger::PurseAddress;
use crate::ledger::spec_account;
use crate::ledger::spec_balance;
use crate::motes::Motes;

verus! {

/// Declares a value-conservation check to run after a session executes:
/// the source purse must be debited by the transferred amount plus the
/// execution fee, and the target purse, when one is declared, must be
/// credited by exactly the transferred amount. Leaving the target out is
/// valid: a burn, or a recipient the test cannot observe locally.
#[derive(Clone, Copy, PartialEq, Eq, Structural, Debug)]
pub struct TransferExpectation {
    pub source_purse: PurseAddress,
    pub maybe_target_purse: Option<PurseAddress>,
    pub transfer_amount: Motes,
}

/// An immutable description of one unit of work to run, plus verification
/// policy. `expect_success` and `commit` default to true; see
/// [`Session::new`]. Combining `commit == false` with a transfer
/// expectation is a usage hazard: the post-execution reads observe
/// committed state only, so they see the balances from before the run.
#[derive(Clone, Copy, PartialEq, Eq, Structural, Debug)]
pub struct Session {
    pub work: UnitOfWork,
    pub expect_success: bool,
    pub commit: bool,
    pub transfer_expectation: Option<TransferExpectation>,
}

impl Session {
    /// A session for `work` with the default policy: success is required,
    /// resulting state changes are committed, and no transfer check runs.
    pub fn new(work: UnitOfWork) -> (r: Session)
        ensures
            r == (Session {
                work,
                expect_success: true,
                commit: true,
                transfer_expectation: None::<TransferExpectation>,
            }),
    {
        Session { work, expect_success: true, commit: true, transfer_expectation: None }
    }

    /// Returns the session with `expect_success` replaced.
    pub fn with_expect_success(self, expect_success: bool) -> (r: Session)
        ensures
            r == (Session { expect_success, ..self }),
    {
        Session { expect_success, ..self }
    }

    /// Returns the session with `commit` replaced.
    pub fn with_commit(self, commit: bool) -> (r: Session)
        ensures
            r == (Session { commit, ..self }),
    {
        Session { commit, ..self }
    }

    /// Returns the session with the given transfer expectation attached.
    pub fn with_transfer_expectation(self, expectation: TransferExpectation) -> (r: Session)
        ensures
            r == (Session { transfer_expectation: Some(expectation), ..self }),
    {
        Session { transfer_expectation: Some(expectation), ..self }
    }
}

/// A verification failure raised by [`TestContext::run`]. Mismatch variants
/// carry both the expected and the observed balance for diagnostics; how
/// they are reported (abort, test failure, log) is the caller's decision.
#[derive(Clone, Copy, PartialEq, Eq, Structural, Debug)]
pub enum Failure {
    /// The declared source purse did not resolve: a harness-usage error,
    /// not a test failure.
    SourceUnresolved,
    /// A declared target purse did not resolve before execution.
    TargetUnresolved,
    /// `expect_success` was set and the engine reported failure.
    ExecutionFailed,
    /// The expected target balance, initial plus transferred amount, exceeds
    /// the representable balance range.
    TargetOverflow,
    /// The target purse did not end at its initial balance plus the
    /// transferred amount.
    TargetMismatch { expected: Motes, actual: Motes },
    /// The expected source balance, initial minus transferred amount minus
    /// fee, underflows: a harness or test-data error.
    SourceUnderflow,
    /// The source purse did not end at its initial balance minus the
    /// transferred amount minus the execution fee.
    SourceMismatch { expected: Motes, actual: Motes },
}

/// A recoverable error from the query-style accessors.
#[derive(Clone, Copy, PartialEq, Eq, Structural, Debug)]
pub enum Error {
    /// Nothing is stored under the given identity and path in committed
    /// state.
    NotFound,
}

/// A committed-state value resolved by [`TestContext::query`]. Genesis
/// seeds account records and purse balances only, and accounts carry no
/// named entries, so the account root is the only value a path can reach.
#[derive(Clone, Copy, PartialEq, Eq, Structural, Debug)]
pub enum Value {
    Account(Account),
}

/// The committed ledger after the session's work is executed and, when the
/// session asks for it, committed: a failed or uncommitted execution leaves
/// committed state unchanged.
pub open spec fn committed_after(pre: LedgerModel, session: Session) -> LedgerModel {
    if session.commit && exec_success(pre, session.work) {
        apply_effect(pre, effect_of(session.work))
    } else {
        pre
    }
}

/// Whether the pre-execution balance reads a transfer expectation asks for
/// all resolve.
pub open spec fn pre_reads_ok(pre: LedgerModel, expectation: TransferExpectation) -> bool {
    &&& pre.balances.contains_key(expectation.source_purse.value)
    &&& match expectation.maybe_target_purse {
        Some(target) => pre.balances.contains_key(target.value),
        None => true,
    }
}

/// The committed ledger [`TestContext::run`] leaves behind: when a transfer
/// expectation's pre-execution reads fail, nothing is executed; otherwise
/// the work is executed and committed per the session's flags.
pub open spec fn spec_run_committed(pre: LedgerModel, session: Session) -> LedgerModel {
    match session.transfer_expectation {
        None => committed_after(pre, session),
        Some(expectation) => if pre_reads_ok(pre, expectation) {
            committed_after(pre, session)
        } else {
            pre
        },
    }
}

/// The outcome of the verification protocol for a session carrying a
/// transfer expectation, given the pre-run committed ledger.
pub open spec fn spec_transfer_result(
    pre: LedgerModel,
    session: Session,
    expectation: TransferExpectation,
) -> Result<(), Failure> {
    let source = expectation.source_purse.value;
    let amount = expectation.transfer_amount.value;
    if !pre.balances.contains_key(source) {
        Err(Failure::SourceUnresolved)
    } else if !(match expectation.maybe_target_purse {
        Some(target) => pre.balances.contains_key(target.value),
        None => true,
    }) {
        Err(Failure::TargetUnresolved)
    } else if session.expect_success && !exec_success(pre, session.work) {
        Err(Failure::ExecutionFailed)
    } else {
        let post = committed_after(pre, session);
        let target_check: Result<(), Failure> = match expectation.maybe_target_purse {
            None => Ok(()),
            Some(target) => {
                let target_initial = pre.balances[target.value];
                let target_ending = post.balances[target.value];
                if target_initial + amount > u128::MAX {
                    Err(Failure::TargetOverflow)
                } else if target_ending != target_initial + amount {
                    Err(Failure::TargetMismatch {
                        expected: Motes { value: (target_initial + amount) as u128 },
                        actual: Motes { value: target_ending },
                    })
                } else {
                    Ok(())
                }
            },
        };
        if target_check is Err {
            target_check
        } else {
            let source_initial = pre.balances[source];
            let fee = spec_fee(session.work.cost);
            if source_initial < amount + fee {
                Err(Failure::SourceUnderflow)
            } else {
                let expected = (source_initial - amount - fee) as u128;
                let actual = post.balances[source];
                if actual != expected {
                    Err(Failure::SourceMismatch {
                        expected: Motes { value: expected },
                        actual: Motes { value: actual },
                    })
                } else {
                    Ok(())
                }
            }
        }
    }
}

/// The outcome of [`TestContext::run`], given the pre-run committed ledger.
pub open spec fn spec_run_result(pre: LedgerModel, session: Session) -> Result<(), Failure> {
    match session.transfer_expectation {
        None => if session.expect_success && !exec_success(pre, session.work) {
            Err(Failure::ExecutionFailed)
        } else {
            Ok(())
        },
        Some(expectation) => spec_transfer_result(pre, session, expectation),
    }
}

/// Context in which to run sessions against the simulated engine. Its view
/// is the committed ledger: every read observes committed state only.
pub struct TestContext {
    inner: Engine,
}

impl View for TestContext {
    type V = LedgerModel;

    closed spec fn view(&self) -> LedgerModel {
        self.inner@.committed
    }
}

impl TestContext {
    /// The balance of the given purse, wrapped, or `None` when no purse was
    /// handed in or the purse does not resolve.
    fn maybe_purse_balance(&self, purse: Option<PurseAddress>) -> (r: Option<Motes>)
        ensures
            r == match purse {
                Some(p) => spec_balance(self@, p),
                None => None::<Motes>,
            },
    {
        match purse {
            None => None,
            Some(p) => self.inner.purse_balance(p),
        }
    }

    /// Runs the supplied [`Session`]: executes its unit of work exactly once
    /// against the engine, enforces `expect_success`, commits per `commit`,
    /// and, when a transfer expectation is declared, verifies that the
    /// declared purses moved exactly as expected, fee included.
    ///
    /// With an expectation, both declared purses are read before execution,
    /// and an unresolved one stops the run before anything executes. The
    /// success check comes before any post-execution read: a failed,
    /// uncommitted execution has no meaningful resulting balances. The
    /// target check, when a target purse is declared, compares its ending
    /// balance against initial plus transferred amount; the source check is
    /// unconditional and compares the source's ending balance against
    /// initial minus transferred amount minus the execution cost converted
    /// at [`CONV_RATE`].
    pub fn run(&mut self, session: Session) -> (r: Result<(), Failure>)
        ensures
            final(self)@ == spec_run_committed(old(self)@, session),
            r == spec_run_result(old(self)@, session),
    {
        match session.transfer_expectation {
            None => {
                self.inner.exec(session.work);
                if session.expect_success && !self.inner.last_exec_success() {
                    return Err(Failure::ExecutionFailed);
                }
                if session.commit {
                    self.inner.commit();
                }
                Ok(())
            },
            Some(expectation) => {
                let source_initial = match self.maybe_purse_balance(
                    Some(expectation.source_purse),
                ) {
                    Some(b) => b,
                    None => {
                        return Err(Failure::SourceUnresolved);
                    },
                };
                let target_initial = match expectation.maybe_target_purse {
                    None => None,
                    Some(target) => match self.maybe_purse_balance(Some(target)) {
                        Some(b) => Some(b),
                        None => {
                            return Err(Failure::TargetUnresolved);
                        },
                    },
                };
                self.inner.exec(session.work);
                if session.expect_success && !self.inner.last_exec_success() {
                    return Err(Failure::ExecutionFailed);
                }
                if session.commit {
                    self.inner.commit();
                }
                let gas_cost = self.inner.last_exec_gas_cost();
                match target_initial {
                    None => {},
                    Some(target_initial_balance) => {
                        let target = match expectation.maybe_target_purse {
                            Some(target) => target,
                            None => {
                                // Unreachable: an initial target balance was
                                // only read for a declared target purse.
                                return Err(Failure::TargetUnresolved);
                            },
                        };
                        let target_ending = match self.maybe_purse_balance(Some(target)) {
                            Some(b) => b,
                            None => {
                                // Unreachable: the target resolved before
                                // execution, and committing an effect never
                                // removes a purse.
                                proof {
                                    if old(self)@ != self@ {
                                        lemma_apply_preserves_purse(
                                            old(self)@,
                                            effect_of(session.work),
                                            target.value,
                                        );
                                    }
                                }
                                return Err(Failure::TargetUnresolved);
                            },
                        };
                        let expected_target = match target_initial_balance.checked_add(
                            expectation.transfer_amount,
                        ) {
                            Some(b) => b,
                            None => {
                                return Err(Failure::TargetOverflow);
                            },
                        };
                        if expected_target != target_ending {
                            return Err(Failure::TargetMismatch {
                                expected: expected_target,
                                actual: target_ending,
                            });
                        }
                    },
                }
                let fee = match Motes::from_gas(gas_cost, CONV_RATE) {
                    Some(f) => f,
                    None => {
                        return Err(Failure::SourceUnderflow);
                    },
                };
                let after_amount = match source_initial.checked_sub(expectation.transfer_amount) {
                    Some(b) => b,
                    None => {
                        return Err(Failure::SourceUnderflow);
                    },
                };
                let expected_source = match after_amount.checked_sub(fee) {
                    Some(b) => b,
                    None => {
                        return Err(Failure::SourceUnderflow);
                    },
                };
                let actual_source = match self.maybe_purse_balance(
                    Some(expectation.source_purse),
                ) {
                    Some(b) => b,
                    None => {
                        // Unreachable: the source resolved before execution,
                        // and committing an effect never removes a purse.
                        proof {
                            if old(self)@ != self@ {
                                lemma_apply_preserves_purse(
                                    old(self)@,
                                    effect_of(session.work),
                                    expectation.source_purse.value,
                                );
                            }
                        }
                        return Err(Failure::SourceUnresolved);
                    },
                };
                if expected_source != actual_source {
                    return Err(Failure::SourceMismatch {
                        expected: expected_source,
                        actual: actual_source,
                    });
                }
                Ok(())
            },
        }
    }

    /// Resolves the committed-state value stored under `key` and reachable
    /// through the named path segments, or reports that nothing is there.
    /// Only committed state is observed: before any commit, every query
    /// reports [`Error::NotFound`]. Accounts carry no named entries in this
    /// harness, so only the empty path, resolving the account root itself,
    /// can succeed.
    pub fn query(&self, key: Identity, path: &[String]) -> (r: Result<Value, Error>)
        ensures
            r == if path@.len() == 0 && self@.accounts.contains_key(key.value) {
                Ok::<Value, Error>(Value::Account(self@.accounts[key.value]))
            } else {
                Err::<Value, Error>(Error::NotFound)
            },
    {
        if path.len() == 0 {
            match self.inner.account(key) {
                Some(account) => Ok(Value::Account(account)),
                None => Err(Error::NotFound),
            }
        } else {
            Err(Error::NotFound)
        }
    }

    /// The balance of the purse under the given address in committed state,
    /// or `None` when the purse does not resolve. Read access is assumed:
    /// this harness enforces no access rights on balance queries.
    pub fn get_balance(&self, purse_addr: PurseAddress) -> (r: Option<Motes>)
        ensures
            r == spec_balance(self@, purse_addr),
    {
        self.inner.purse_balance(purse_addr)
    }

    /// The main purse address of the account stored under `account_key`, or
    /// `None` when the identity does not resolve in committed state.
    pub fn main_purse_address(&self, account_key: Identity) -> (r: Option<PurseAddress>)
        ensures
            r == match spec_account(self@, account_key) {
                Some(account) => Some(account.main_purse),
                None => None::<PurseAddress>,
            },
    {
        match self.inner.account(account_key) {
            None => None,
            Some(account) => Some(account.main_purse()),
        }
    }

    /// The account record stored under `account_key`, or `None` when the
    /// identity does not resolve in committed state.
    pub fn get_account(&self, account_key: Identity) -> (r: Option<Account>)
        ensures
            r == spec_account(self@, account_key),
    {
        self.inner.account(account_key)
    }
}

/// Builder for a [`TestContext`]: a fluent accumulator over a
/// [`GenesisBuilder`]. Its view is the sequence of seed entries.
pub struct TestContextBuilder {
    genesis: GenesisBuilder,
}

impl View for TestContextBuilder {
    type V = Seq<GenesisAccountEntry>;

    closed spec fn view(&self) -> Seq<GenesisAccountEntry> {
        self.genesis@
    }
}

impl TestContextBuilder {
    /// A builder with no seed accounts.
    pub fn new() -> (r: TestContextBuilder)
        ensures
            r@ == Seq::<GenesisAccountEntry>::empty(),
    {
        TestContextBuilder { genesis: GenesisBuilder::new() }
    }

    /// Returns the builder with the given account's details added to the
    /// existing ones, for inclusion at genesis. `initial_balance` is a
    /// number of value units. Entries are not deduplicated; when the same
    /// identity is seeded twice, the last entry wins at genesis.
    pub fn with_account(self, address: Identity, initial_balance: Motes) -> (r: TestContextBuilder)
        ensures
            r@ == self@.push(
                GenesisAccountEntry {
                    identity: address,
                    balance: initial_balance,
                    bonded: (Motes { value: 0 }),
                },
            ),
    {
        TestContextBuilder { genesis: self.genesis.with_account(address, initial_balance) }
    }

    /// Freezes the accumulated accounts into a genesis configuration,
    /// constructs a fresh engine, and runs the one-time genesis
    /// initialization against it. Each context gets exactly one genesis
    /// run, here at construction: the seeded accounts are queryable with
    /// their declared balances before any session has run.
    pub fn build(self) -> (r: TestContext)
        ensures
            r@ == spec_genesis(self@),
    {
        let config = self.genesis.build();
        let mut inner = Engine::new();
        inner.run_genesis(&config);
        TestContext { inner }
    }
}

impl Default for TestContextBuilder {
    /// Same as [`TestContextBuilder::new`]: no seed accounts.
    fn default() -> (r: TestContextBuilder)
        ensures
            r@ == Seq::<GenesisAccountEntry>::empty(),
    {
        TestContextBuilder::new()
    }
}

/// For a session without a transfer expectation, the harness performs no
/// balance computation: the run succeeds exactly when the success policy is
/// met, and in particular, when `expect_success` is set, a successful run
/// means the engine reported success.
pub proof fn lemma_run_without_expectation(pre: LedgerModel, session: Session)
    requires
        session.transfer_expectation is None,
    ensures
        spec_run_result(pre, session) is Ok <==> !(session.expect_success && !exec_success(
            pre,
            session.work,
        )),
        session.expect_success && spec_run_result(pre, session) is Ok ==> exec_success(
            pre,
            session.work,
        ),
        spec_run_committed(pre, session) == committed_after(pre, session),
{
}

/// Conservation of value: when a transfer expectation with a target purse
/// is declared and the run reports success, the target purse gained exactly
/// the transferred amount, and the source purse lost exactly the
/// transferred amount plus the execution cost converted at the fixed rate —
/// exactly, with no tolerance.
pub proof fn lemma_transfer_conservation(
    pre: LedgerModel,
    session: Session,
    expectation: TransferExpectation,
    target: PurseAddress,
)
    requires
        session.transfer_expectation == Some(expectation),
        expectation.maybe_target_purse == Some(target),
        spec_run_result(pre, session) is Ok,
    ensures
        ({
            let post = spec_run_committed(pre, session);
            let amount = expectation.transfer_amount.value;
            let fee = spec_fee(session.work.cost);
            let source = expectation.source_purse.value;
            &&& pre.balances.contains_key(source)
            &&& pre.balances.contains_key(target.value)
            &&& post.balances[target.value] == pre.balances[target.value] + amount
            &&& post.balances[source] == pre.balances[source] - amount - fee
        }),
{
}

/// With no target purse declared, only the source-side equation decides the
/// outcome: once the pre-reads resolve and the success policy is met, the
/// run succeeds exactly when the source purse ends at initial minus amount
/// minus fee, whatever happened to any unobserved recipient.
pub proof fn lemma_source_only_check(
    pre: LedgerModel,
    session: Session,
    expectation: TransferExpectation,
)
    requires
        session.transfer_expectation == Some(expectation),
        expectation.maybe_target_purse is None,
        pre.balances.contains_key(expectation.source_purse.value),
        !(session.expect_success && !exec_success(pre, session.work)),
    ensures
        ({
            let post = spec_run_committed(pre, session);
            let source_initial = pre.balances[expectation.source_purse.value];
            let amount = expectation.transfer_amount.value;
            let fee = spec_fee(session.work.cost);
            spec_run_result(pre, session) is Ok <==> (source_initial >= amount + fee
                && post.balances[expectation.source_purse.value] == source_initial - amount - fee)
        }),
{
}

/// A session run with `commit` unset leaves the committed ledger unchanged,
/// so a balance read after it returns what a read before it returned:
/// `get_balance` is idempotent across uncommitted executions, and trivially
/// so with no execution in between at all.
pub proof fn lemma_uncommitted_run_preserves_state(pre: LedgerModel, session: Session)
    requires
        !session.commit,
    ensures
        spec_run_committed(pre, session) == pre,
        forall|purse: PurseAddress| #[trigger] spec_balance(spec_run_committed(pre, session), purse)
            == spec_balance(pre, purse),
{
}

/// Genesis accounts are queryable immediately after the context is built,
/// with their declared initial balances: for the last entry seeding a given
/// identity, the built ledger holds its account record, and the account's
/// main purse holds its declared balance.
pub proof fn lemma_genesis_queryable(entries: Seq<GenesisAccountEntry>, i: int)
    requires
        0 <= i < entries.len(),
        forall|j: int| i < j < entries.len() ==> (#[trigger] entries[j]).identity
            != entries[i].identity,
    ensures
        ({
            let ledger = spec_genesis(entries);
            let entry = entries[i];
            &&& spec_account(ledger, entry.identity) == Some(genesis_account(entry))
            &&& spec_balance(ledger, genesis_account(entry).main_purse) == Some(
                Motes { value: entry.balance.value },
            )
        }),
    decreases entries.len(),
{
    if i == entries.len() - 1 {
        assert(entries.last() == entries[i]);
    } else {
        lemma_genesis_queryable(entries.drop_last(), i);
        assert(entries.drop_last()[i] == entries[i]);
        assert(entries.last() == entries[entries.len() - 1]);
        assert(entries.last().identity != entries[i].identity);
    }
}

} // verus!
