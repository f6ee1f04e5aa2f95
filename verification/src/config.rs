//! Client configuration that governs the offchain worker database.

use vstd::prelude::*;

verus! {

/// What the operator asks of the offchain indexing API.
#[derive(Debug, Clone, Copy, PartialEq, Eq, Structural)]
pub enum OffchainIndexingState {
    /// No preference: follow the validator role on the first start, keep the
    /// recorded value afterwards.
    Default,
    /// Attempt to enable, which only works initially.
    Enable,
    /// Attempt to disable, which only works initially.
    Disable,
    /// Enable the indexing API whatever the database recorded, accepting
    /// that the offchain worker database may be incomplete.
    ForceEnable,
    /// Disable the indexing API whatever the database recorded, accepting
    /// that the offchain worker database may be incomplete.
    ForceDisable,
}

impl OffchainIndexingState {
    /// A state is settled once it is plainly `Enable` or `Disable`: the two
    /// values that are left after the start-up check.
    pub open spec fn is_settled(self) -> bool {
        self == OffchainIndexingState::Enable || self == OffchainIndexingState::Disable
    }
}

impl Default for OffchainIndexingState {
    fn default() -> (state: Self)
        ensures
            state == OffchainIndexingState::Default,
    {
        OffchainIndexingState::Default
    }
}

/// The outcome of the start-up check: the indexing API is either on or off,
/// and nothing else can be observed once the check has run.
#[derive(Debug, Clone, Copy, PartialEq, Eq, Structural)]
pub enum ResolvedIndexingState {
    /// The runtime may write to the offchain database during block import.
    Enabled,
    /// The runtime may not write to the offchain database.
    Disabled,
}

impl ResolvedIndexingState {
    /// The resolved state that stands for a recorded `enabled` flag.
    pub open spec fn of_flag(enabled: bool) -> ResolvedIndexingState {
        if enabled {
            ResolvedIndexingState::Enabled
        } else {
            ResolvedIndexingState::Disabled
        }
    }

    /// The settled configuration state that expresses this outcome.
    pub open spec fn spec_state(self) -> OffchainIndexingState {
        match self {
            ResolvedIndexingState::Enabled => OffchainIndexingState::Enable,
            ResolvedIndexingState::Disabled => OffchainIndexingState::Disable,
        }
    }

    /// Resolved state for a recorded `enabled` flag.
    pub fn from_flag(enabled: bool) -> (resolved: ResolvedIndexingState)
        ensures
            resolved == ResolvedIndexingState::of_flag(enabled),
    {
        if enabled {
            ResolvedIndexingState::Enabled
        } else {
            ResolvedIndexingState::Disabled
        }
    }

    /// Whether the indexing API is on.
    pub fn is_enabled(&self) -> (enabled: bool)
        ensures
            enabled == (*self == ResolvedIndexingState::Enabled),
            *self == ResolvedIndexingState::of_flag(enabled),
    {
        match self {
            ResolvedIndexingState::Enabled => true,
            ResolvedIndexingState::Disabled => false,
        }
    }

    /// The configuration state to carry on with after the check: `Enable`
    /// or `Disable`, never one of the requests that still need resolving.
    pub fn state(&self) -> (state: OffchainIndexingState)
        ensures
            state == self.spec_state(),
            state.is_settled(),
    {
        match self {
            ResolvedIndexingState::Enabled => OffchainIndexingState::Enable,
            ResolvedIndexingState::Disabled => OffchainIndexingState::Disable,
        }
    }
}

/// Offchain indexing config.
#[derive(Debug, Clone, Copy, PartialEq, Eq, Structural)]
pub struct OffchainIndexingConfig {
    /// Defines the desired state of the offchain API to be in.
    pub state: OffchainIndexingState,
    /// `true` if the current node is a validator.
    pub is_validator: bool,
}

impl Default for OffchainIndexingConfig {
    fn default() -> (config: Self)
        ensures
            config == (OffchainIndexingConfig {
                state: OffchainIndexingState::Default,
                is_validator: false,
            }),
    {
        OffchainIndexingConfig { state: OffchainIndexingState::Default, is_validator: false }
    }
}

impl OffchainIndexingConfig {
    /// The configuration as it stands once the start-up check has resolved
    /// the state: the validator flag is kept, the state is settled.
    pub open spec fn spec_settled(self, resolved: ResolvedIndexingState) -> OffchainIndexingConfig {
        OffchainIndexingConfig { state: resolved.spec_state(), is_validator: self.is_validator }
    }

    /// Replaces the requested state by the outcome of the start-up check.
    pub fn settled(&self, resolved: ResolvedIndexingState) -> (config: OffchainIndexingConfig)
        ensures
            config == self.spec_settled(resolved),
            config.state.is_settled(),
    {
        OffchainIndexingConfig { state: resolved.state(), is_validator: self.is_validator }
    }

    /// Whether the indexing API is enabled. Only a settled configuration
    /// can answer: one whose state is `Enable` or `Disable`.
    pub fn is_enabled(&self) -> (enabled: bool)
        requires
            self.state.is_settled(),
        ensures
            enabled == (self.state == OffchainIndexingState::Enable),
    {
        match self.state {
            OffchainIndexingState::Enable => true,
            _ => false,
        }
    }
}

/// Relevant client configuration items relevant for the client.
#[derive(Debug, Clone, Copy, PartialEq, Eq, Structural)]
pub struct ClientExtraConfig {
    /// Enable the offchain worker db.
    pub offchain_worker_enabled: bool,
    /// The desired state of the API through which the runtime writes into
    /// the offchain worker db.
    pub offchain_indexing_api: OffchainIndexingConfig,
}

impl Default for ClientExtraConfig {
    fn default() -> (config: Self)
        ensures
            config == (ClientExtraConfig {
                offchain_worker_enabled: false,
                offchain_indexing_api: OffchainIndexingConfig {
                    state: OffchainIndexingState::Default,
                    is_validator: false,
                },
            }),
    {
        ClientExtraConfig {
            offchain_worker_enabled: false,
            offchain_indexing_api: OffchainIndexingConfig::default(),
        }
    }
}

/// What the service runs on, as far as offchain workers are concerned.
#[derive(Debug, Clone, Copy, PartialEq, Eq, Structural)]
pub struct OffchainWorkerConfig {
    /// Whether offchain workers run on this node.
    pub enabled: bool,
    /// The desired state of the offchain indexing API.
    pub indexing: OffchainIndexingConfig,
}

impl OffchainWorkerConfig {
    /// The configuration as the block import gets it: whether workers run,
    /// together with the state that the start-up check resolved.
    pub open spec fn spec_settled(self, resolved: ResolvedIndexingState) -> OffchainWorkerConfig {
        OffchainWorkerConfig {
            enabled: self.enabled,
            indexing: self.indexing.spec_settled(resolved),
        }
    }

    /// Replaces the requested indexing state by the outcome of the start-up
    /// check and keeps the rest.
    pub fn settled(&self, resolved: ResolvedIndexingState) -> (config: OffchainWorkerConfig)
        ensures
            config == self.spec_settled(resolved),
            config.indexing.state.is_settled(),
    {
        OffchainWorkerConfig { enabled: self.enabled, indexing: self.indexing.settled(resolved) }
    }
}

/// A configuration settled by the start-up check answers `is_enabled`, and
/// answers as the resolved state itself does.
pub proof fn lemma_settled_config_reports_resolved_state(
    config: OffchainIndexingConfig,
    resolved: ResolvedIndexingState,
)
    ensures
        config.spec_settled(resolved).state.is_settled(),
        (config.spec_settled(resolved).state == OffchainIndexingState::Enable) == (resolved
            == ResolvedIndexingState::Enabled),
        config.spec_settled(resolved).is_validator == config.is_validator,
{
}

} // verus!
