use vstd::prelude::*;
use crate::genesis::GenesisAccountEntry;
use crate::genesis::GenesisConfig;
use crate::ledger::Account;
use crate::ledger::Ledger;
use crate::ledger::LedgerModel;
use crate::ledger::PurseAddress;
use crate::motes::Gas;
use crate::motes::Motes;
use crate::motes::lemma_u64_mul_fits_u128;

verus! {

/// Value units charged per unit of execution cost. The harness's
/// verification protocol and the simulated engine share this constant; the
/// protocol's fee computation is only meaningful because they agree.
pub const CONV_RATE: u64 = 10;

/// What a unit of work does to the ledger when the engine executes it.
#[derive(Clone, Copy, PartialEq, Eq, Structural, Debug)]
pub enum WorkAction {
    /// Consume execution cost and change nothing else.
    Noop,
    /// Move `amount` from `source` to `target`, creating `target` if it does
    /// not exist yet.
    Transfer { source: PurseAddress, target: PurseAddress, amount: Motes },
    /// Always fail.
    Fail,
}

/// Descriptor of one unit of work. The harness passes it through to the
/// engine unchanged; only the engine interprets it. Executing it consumes
/// `cost` units of gas, and the corresponding fee in value units is deducted
/// from the `payer` purse.
#[derive(Clone, Copy, PartialEq, Eq, Structural, Debug)]
pub struct UnitOfWork {
    pub payer: PurseAddress,
    pub cost: Gas,
    pub action: WorkAction,
}

/// The transfer part of a pending execution effect, over raw purse
/// addresses and raw amounts.
#[derive(Clone, Copy, Debug)]
pub struct TransferStep {
    pub source: u64,
    pub target: u64,
    pub amount: u128,
}

/// The state change a successful execution produced, held by the engine
/// until it is committed or replaced: the fee deducted from the payer purse,
/// and the transfer performed, if any.
#[derive(Clone, Copy, Debug)]
pub struct Effect {
    pub payer: u64,
    pub fee: u128,
    pub transfer: Option<TransferStep>,
}

/// The fee, in value units, for executing work of the given cost.
pub open spec fn spec_fee(cost: Gas) -> int {
    cost.value * CONV_RATE
}

/// The effect executing `work` would have if it succeeded.
pub open spec fn effect_of(work: UnitOfWork) -> Effect {
    Effect {
        payer: work.payer.value,
        fee: (work.cost.value * CONV_RATE) as u128,
        transfer: match work.action {
            WorkAction::Transfer { source, target, amount } => Some(
                TransferStep { source: source.value, target: target.value, amount: amount.value },
            ),
            _ => None,
        },
    }
}

/// The balances after the payer purse is charged the fee.
pub open spec fn balances_after_fee(ledger: LedgerModel, e: Effect) -> Map<u64, u128> {
    ledger.balances.insert(e.payer, (ledger.balances[e.payer] - e.fee) as u128)
}

/// The balances after the transferred amount leaves the source purse.
pub open spec fn balances_after_debit(charged: Map<u64, u128>, t: TransferStep) -> Map<u64, u128> {
    charged.insert(t.source, (charged[t.source] - t.amount) as u128)
}

/// The target purse's balance at the moment the transferred amount arrives:
/// its balance after fee and debit, or zero when the purse does not exist
/// yet.
pub open spec fn received_base(charged: Map<u64, u128>, t: TransferStep) -> int {
    let debited = balances_after_debit(charged, t);
    if debited.contains_key(t.target) {
        debited[t.target] as int
    } else {
        0
    }
}

/// Whether `e` can be applied to `ledger`: the payer purse exists and covers
/// the fee, and for a transfer the source purse (after the fee) covers the
/// amount and the target purse does not overflow.
pub open spec fn effect_applies(ledger: LedgerModel, e: Effect) -> bool {
    &&& ledger.balances.contains_key(e.payer)
    &&& ledger.balances[e.payer] >= e.fee
    &&& match e.transfer {
        None => true,
        Some(t) => {
            let charged = balances_after_fee(ledger, e);
            &&& charged.contains_key(t.source)
            &&& charged[t.source] >= t.amount
            &&& received_base(charged, t) + t.amount <= u128::MAX
        },
    }
}

/// The ledger after `e` is applied: fee charged, then the amount moved.
pub open spec fn apply_effect(ledger: LedgerModel, e: Effect) -> LedgerModel {
    let charged = balances_after_fee(ledger, e);
    match e.transfer {
        None => LedgerModel { accounts: ledger.accounts, balances: charged },
        Some(t) => {
            let debited = balances_after_debit(charged, t);
            LedgerModel {
                accounts: ledger.accounts,
                balances: debited.insert(t.target, (received_base(charged, t) + t.amount) as u128),
            }
        },
    }
}

/// Whether executing `work` against `ledger` succeeds: the work is not a
/// declared failure and its effect can be applied.
pub open spec fn exec_success(ledger: LedgerModel, work: UnitOfWork) -> bool {
    &&& !(work.action is Fail)
    &&& effect_applies(ledger, effect_of(work))
}

/// Applying an effect never removes a purse.
pub proof fn lemma_apply_preserves_purse(ledger: LedgerModel, e: Effect, purse: u64)
    requires
        ledger.balances.contains_key(purse),
    ensures
        apply_effect(ledger, e).balances.contains_key(purse),
{
}

/// The account record a genesis entry seeds: the engine derives the main
/// purse address from the raw identity.
pub open spec fn genesis_account(entry: GenesisAccountEntry) -> Account {
    Account {
        identity: entry.identity,
        main_purse: PurseAddress { value: entry.identity.value },
    }
}

/// The ledger the genesis entries seed, in order: each entry stores an
/// account record and its main purse's initial balance; a later entry for
/// the same identity wins.
pub open spec fn spec_genesis(entries: Seq<GenesisAccountEntry>) -> LedgerModel
    decreases entries.len(),
{
    if entries.len() == 0 {
        LedgerModel { accounts: Map::<u64, Account>::empty(), balances: Map::<u64, u128>::empty() }
    } else {
        let prev = spec_genesis(entries.drop_last());
        let e = entries.last();
        LedgerModel {
            accounts: prev.accounts.insert(e.identity.value, genesis_account(e)),
            balances: prev.balances.insert(e.identity.value, e.balance.value),
        }
    }
}

/// Mathematical model of the engine: the committed ledger, the pending
/// effect of the last successful uncommitted execution, and the outcome of
/// the last execution.
#[verifier::ext_equal]
pub struct EngineModel {
    pub committed: LedgerModel,
    pub pending: Option<Effect>,
    pub last_success: bool,
    pub last_cost: Gas,
}

/// The simulated execution engine. It executes one unit of work at a time
/// against committed state, records the outcome and the pending state
/// change, and commits pending changes on request. Reads always observe
/// committed state only.
pub struct Engine {
    committed: Ledger,
    pending: Option<Effect>,
    last_success: bool,
    last_cost: Gas,
}

impl View for Engine {
    type V = EngineModel;

    closed spec fn view(&self) -> EngineModel {
        EngineModel {
            committed: self.committed@,
            pending: self.pending,
            last_success: self.last_success,
            last_cost: self.last_cost,
        }
    }
}

/// Whether `e` can be applied to the ledger, decided executably.
fn check_effect(ledger: &Ledger, e: &Effect) -> (r: bool)
    ensures
        r == effect_applies(ledger@, *e),
{
    let payer_balance = match ledger.balance_of(e.payer) {
        Some(b) => b,
        None => {
            return false;
        },
    };
    if payer_balance < e.fee {
        return false;
    }
    let after_fee = payer_balance - e.fee;
    match e.transfer {
        None => true,
        Some(t) => {
            let source_balance = if t.source == e.payer {
                after_fee
            } else {
                match ledger.balance_of(t.source) {
                    Some(b) => b,
                    None => {
                        return false;
                    },
                }
            };
            if source_balance < t.amount {
                return false;
            }
            let source_after = source_balance - t.amount;
            let target_balance = if t.target == t.source {
                source_after
            } else if t.target == e.payer {
                after_fee
            } else {
                match ledger.balance_of(t.target) {
                    Some(b) => b,
                    None => 0,
                }
            };
            target_balance <= u128::MAX - t.amount
        },
    }
}

impl Engine {
    /// A fresh engine over an empty ledger, with nothing executed yet.
    pub fn new() -> (r: Engine)
        ensures
            r@ == (EngineModel {
                committed: LedgerModel {
                    accounts: Map::<u64, Account>::empty(),
                    balances: Map::<u64, u128>::empty(),
                },
                pending: None::<Effect>,
                last_success: false,
                last_cost: Gas { value: 0 },
            }),
    {
        Engine {
            committed: Ledger::new(),
            pending: None,
            last_success: false,
            last_cost: Gas { value: 0 },
        }
    }

    /// Initializes committed state from the genesis configuration. This is
    /// the only point at which the ledger acquires its initial state; any
    /// earlier state is discarded.
    pub fn run_genesis(&mut self, config: &GenesisConfig)
        ensures
            final(self)@ == (EngineModel {
                committed: spec_genesis(config.accounts@),
                pending: None::<Effect>,
                last_success: false,
                last_cost: Gas { value: 0 },
            }),
    {
        let mut ledger = Ledger::new();
        let n = config.accounts.len();
        let mut i: usize = 0;
        while i < n
            invariant
                i <= n,
                n == config.accounts@.len(),
                ledger@ == spec_genesis(config.accounts@.take(i as int)),
            decreases n - i,
        {
            let e = config.accounts[i];
            ledger.set_account(
                e.identity.value,
                Account {
                    identity: e.identity,
                    main_purse: PurseAddress { value: e.identity.value },
                },
            );
            ledger.set_balance(e.identity.value, e.balance.value);
            proof {
                let taken = config.accounts@.take(i as int + 1);
                assert(taken.drop_last() =~= config.accounts@.take(i as int));
                assert(taken.last() == config.accounts@[i as int]);
            }
            i += 1;
        }
        proof {
            assert(config.accounts@.take(n as int) =~= config.accounts@);
        }
        self.committed = ledger;
        self.pending = None;
        self.last_success = false;
        self.last_cost = Gas { value: 0 };
    }

    /// Executes one unit of work against committed state. Committed state is
    /// untouched: a successful execution only records its effect as pending,
    /// and a failed one records no effect. The outcome and the reported cost
    /// are recorded either way.
    pub fn exec(&mut self, work: UnitOfWork)
        ensures
            final(self)@ == (EngineModel {
                committed: old(self)@.committed,
                pending: if exec_success(old(self)@.committed, work) {
                    Some(effect_of(work))
                } else {
                    None::<Effect>
                },
                last_success: exec_success(old(self)@.committed, work),
                last_cost: work.cost,
            }),
    {
        proof {
            lemma_u64_mul_fits_u128(work.cost.value, CONV_RATE);
        }
        let fee = (work.cost.value as u128) * (CONV_RATE as u128);
        let e = Effect {
            payer: work.payer.value,
            fee,
            transfer: match work.action {
                WorkAction::Transfer { source, target, amount } => Some(
                    TransferStep {
                        source: source.value,
                        target: target.value,
                        amount: amount.value,
                    },
                ),
                _ => None,
            },
        };
        let is_fail = match work.action {
            WorkAction::Fail => true,
            _ => false,
        };
        let ok = !is_fail && check_effect(&self.committed, &e);
        self.pending = if ok {
            Some(e)
        } else {
            None
        };
        self.last_success = ok;
        self.last_cost = work.cost;
    }

    /// Commits the pending effect, if any, into committed state, and clears
    /// it; with no pending effect, committed state is left as it is. A
    /// pending effect is applied only if it still applies to committed
    /// state, which always holds here because only `commit` itself changes
    /// committed state after an execution.
    pub fn commit(&mut self)
        ensures
            final(self)@ == (EngineModel {
                committed: match old(self)@.pending {
                    Some(e) => if effect_applies(old(self)@.committed, e) {
                        apply_effect(old(self)@.committed, e)
                    } else {
                        old(self)@.committed
                    },
                    None => old(self)@.committed,
                },
                pending: None::<Effect>,
                last_success: old(self)@.last_success,
                last_cost: old(self)@.last_cost,
            }),
    {
        let e = match self.pending {
            Some(e) => e,
            None => {
                return;
            },
        };
        self.pending = None;
        if !check_effect(&self.committed, &e) {
            return;
        }
        let payer_balance = match self.committed.balance_of(e.payer) {
            Some(b) => b,
            None => {
                return;
            },
        };
        self.committed.set_balance(e.payer, payer_balance - e.fee);
        match e.transfer {
            None => {},
            Some(t) => {
                let source_balance = match self.committed.balance_of(t.source) {
                    Some(b) => b,
                    None => {
                        return;
                    },
                };
                self.committed.set_balance(t.source, source_balance - t.amount);
                let target_balance = match self.committed.balance_of(t.target) {
                    Some(b) => b,
                    None => 0,
                };
                self.committed.set_balance(t.target, target_balance + t.amount);
            },
        }
    }

    /// The balance of `purse` in committed state, if the purse resolves.
    pub fn purse_balance(&self, purse: PurseAddress) -> (r: Option<Motes>)
        ensures
            r == crate::ledger::spec_balance(self@.committed, purse),
    {
        match self.committed.balance_of(purse.value) {
            Some(b) => Some(Motes::new(b)),
            None => None,
        }
    }

    /// The account stored under `identity` in committed state, if any.
    pub fn account(&self, identity: crate::ledger::Identity) -> (r: Option<Account>)
        ensures
            r == crate::ledger::spec_account(self@.committed, identity),
    {
        self.committed.account_of(identity.value)
    }

    /// Whether the last executed unit of work succeeded.
    pub fn last_exec_success(&self) -> (r: bool)
        ensures
            r == self@.last_success,
    {
        self.last_success
    }

    /// The resource cost the last executed unit of work reported.
    pub fn last_exec_gas_cost(&self) -> (r: Gas)
        ensures
            r == self@.last_cost,
    {
        self.last_cost
    }
}

} // verus!
