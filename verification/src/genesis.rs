use vstd::prelude::*;
use crate::ledger::Identity;
use crate::motes::Motes;

verus! {

/// Protocol version tag carried by every genesis configuration this harness
/// produces.
pub const PROTOCOL_VERSION: u64 = 1;

/// Configuration hash carried by every genesis configuration this harness
/// produces. The harness always initializes the engine from the same fixed
/// configuration shape, so the hash is a fixed tag rather than a value
/// recomputed per build.
pub const GENESIS_CONFIG_HASH: u64 = 0x6c65_6467_6572_3031;

/// One seed account of the genesis configuration: an identity, its initial
/// balance, and a bonded-value placeholder that is always zero in this
/// harness.
#[derive(Clone, Copy, PartialEq, Eq, Structural, Debug)]
pub struct GenesisAccountEntry {
    pub identity: Identity,
    pub balance: Motes,
    pub bonded: Motes,
}

/// An immutable genesis configuration: the ordered seed accounts plus a
/// protocol-version tag and a configuration hash. Consumed once by
/// [`crate::engine::Engine::run_genesis`] to initialize ledger state.
pub struct GenesisConfig {
    pub protocol_version: u64,
    pub config_hash: u64,
    pub accounts: Vec<GenesisAccountEntry>,
}

/// Accumulates (identity, initial balance) pairs and freezes them into a
/// [`GenesisConfig`]. Entries are kept in the order given; when the same
/// identity is seeded twice, the engine lets the last entry win.
pub struct GenesisBuilder {
    entries: Vec<GenesisAccountEntry>,
}

impl View for GenesisBuilder {
    type V = Seq<GenesisAccountEntry>;

    closed spec fn view(&self) -> Seq<GenesisAccountEntry> {
        self.entries@
    }
}

impl GenesisBuilder {
    /// A builder with no seed accounts.
    pub fn new() -> (r: GenesisBuilder)
        ensures
            r@ == Seq::<GenesisAccountEntry>::empty(),
    {
        GenesisBuilder { entries: Vec::new() }
    }

    /// Appends a seed account with the given initial balance and a zero
    /// bonded value, returning the builder for chaining.
    pub fn with_account(self, identity: Identity, initial_balance: Motes) -> (r: GenesisBuilder)
        ensures
            r@ == self@.push(
                GenesisAccountEntry { identity, balance: initial_balance, bonded: (Motes { value: 0 }) },
            ),
    {
        let mut entries = self.entries;
        entries.push(GenesisAccountEntry { identity, balance: initial_balance, bonded: Motes::zero() });
        GenesisBuilder { entries }
    }

    /// Freezes the accumulated entries into an immutable configuration.
    pub fn build(self) -> (r: GenesisConfig)
        ensures
            r.accounts@ == self@,
            r.protocol_version == PROTOCOL_VERSION,
            r.config_hash == GENESIS_CONFIG_HASH,
    {
        GenesisConfig {
            protocol_version: PROTOCOL_VERSION,
            config_hash: GENESIS_CONFIG_HASH,
            accounts: self.entries,
        }
    }
}

} // verus!
