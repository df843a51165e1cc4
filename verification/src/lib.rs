//! A deterministic test harness for running units of work against a
//! simulated ledger and verifying that account balances moved exactly as
//! declared, net of execution fees.

mod context;
mod engine;
mod genesis;
mod ledger;
mod motes;

pub use context::Error;
pub use context::Failure;
pub use context::Session;
pub use context::TestContext;
pub use context::TestContextBuilder;
pub use context::TransferExpectation;
pub use context::Value;
pub use context::committed_after;
pub use context::lemma_genesis_queryable;
pub use context::lemma_run_without_expectation;
pub use context::lemma_source_only_check;
pub use context::lemma_transfer_conservation;
pub use context::lemma_uncommitted_run_preserves_state;
pub use context::pre_reads_ok;
pub use context::spec_run_committed;
pub use context::spec_run_result;
pub use context::spec_transfer_result;
pub use engine::CONV_RATE;
pub use engine::Effect;
pub use engine::Engine;
pub use engine::EngineModel;
pub use engine::TransferStep;
pub use engine::UnitOfWork;
pub use engine::WorkAction;
pub use engine::apply_effect;
pub use engine::balances_after_debit;
pub use engine::balances_after_fee;
pub use engine::effect_applies;
pub use engine::effect_of;
pub use engine::exec_success;
pub use engine::genesis_account;
pub use engine::lemma_apply_preserves_purse;
pub use engine::received_base;
pub use engine::spec_fee;
pub use engine::spec_genesis;
pub use genesis::GenesisAccountEntry;
pub use genesis::GenesisBuilder;
pub use genesis::GenesisConfig;
pub use genesis::PROTOCOL_VERSION;
pub use ledger::Account;
pub use ledger::Identity;
pub use ledger::LedgerModel;
pub use ledger::PurseAddress;
pub use ledger::spec_account;
pub use ledger::spec_balance;
pub use motes::Gas;
pub use motes::Motes;
