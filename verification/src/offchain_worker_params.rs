//! Offchain worker related configuration parameters.
//!
//! A subset of configuration parameters which are relevant to the inner
//! working of offchain workers: what the command line selected, and how it
//! turns, together with the node's role, into the configuration that the
//! service runs on.

use crate::config::{OffchainIndexingConfig, OffchainIndexingState, OffchainWorkerConfig};
use vstd::prelude::*;

verus! {

/// Role of the local node.
#[derive(Debug, Clone, Copy, PartialEq, Eq, Structural)]
pub enum Role {
    /// Regular full node.
    Full,
    /// Regular light node.
    Light,
    /// Sentry node that guards an authority.
    Sentry,
    /// Actual authority: a node that authors blocks.
    Authority,
}

impl Role {
    /// Whether the node validates. Only an authority does.
    pub open spec fn spec_is_authority(self) -> bool {
        self == Role::Authority
    }

    /// True for `Role::Authority`.
    pub fn is_authority(&self) -> (authority: bool)
        ensures
            authority == self.spec_is_authority(),
    {
        match self {
            Role::Authority => true,
            Role::Full => false,
            Role::Light => false,
            Role::Sentry => false,
        }
    }
}

/// Whether off-chain workers are enabled.
#[derive(Debug, Clone, Copy, PartialEq, Eq, Structural)]
pub enum OffchainWorkerEnabled {
    /// Run offchain workers on every node.
    Always,
    /// Run offchain workers on no node.
    Never,
    /// Run offchain workers on nodes that author blocks.
    WhenValidating,
}

impl Default for OffchainWorkerEnabled {
    fn default() -> (enabled: Self)
        ensures
            enabled == OffchainWorkerEnabled::WhenValidating,
    {
        OffchainWorkerEnabled::WhenValidating
    }
}

/// What the command line selects for the offchain indexing API.
#[derive(Debug, Clone, Copy, PartialEq, Eq, Structural)]
pub enum OffchainIndexingEnabled {
    /// Follow the default behaviour.
    Default,
    /// Enable the API, which only works on a database that has it enabled.
    Enabled,
    /// Disable the API, which only works on a database that has it disabled.
    Disabled,
    /// Enable the API whatever the database recorded.
    ForceEnabled,
    /// Disable the API whatever the database recorded.
    ForceDisabled,
}

impl Default for OffchainIndexingEnabled {
    fn default() -> (enabled: Self)
        ensures
            enabled == OffchainIndexingEnabled::Default,
    {
        OffchainIndexingEnabled::Default
    }
}

impl OffchainIndexingEnabled {
    /// The desired state that a selection stands for.
    pub open spec fn spec_state(self) -> OffchainIndexingState {
        match self {
            OffchainIndexingEnabled::Default => OffchainIndexingState::Default,
            OffchainIndexingEnabled::Enabled => OffchainIndexingState::Enable,
            OffchainIndexingEnabled::Disabled => OffchainIndexingState::Disable,
            OffchainIndexingEnabled::ForceEnabled => OffchainIndexingState::ForceEnable,
            OffchainIndexingEnabled::ForceDisabled => OffchainIndexingState::ForceDisable,
        }
    }
}

/// Offchain worker related parameters.
#[derive(Debug, Clone, Copy, PartialEq, Eq, Structural)]
pub struct OffchainWorkerParams {
    /// Should execute offchain workers on every block.
    ///
    /// By default it's only enabled for nodes that are authoring new blocks.
    pub enabled: OffchainWorkerEnabled,
    /// Allow access to offchain workers indexing API.
    ///
    /// Enables runtime to write directly to the offchain worker's DB during
    /// block import.
    pub indexing_enabled: OffchainIndexingEnabled,
}

impl Default for OffchainWorkerParams {
    fn default() -> (params: Self)
        ensures
            params == (OffchainWorkerParams {
                enabled: OffchainWorkerEnabled::WhenValidating,
                indexing_enabled: OffchainIndexingEnabled::Default,
            }),
    {
        OffchainWorkerParams {
            enabled: OffchainWorkerEnabled::WhenValidating,
            indexing_enabled: OffchainIndexingEnabled::Default,
        }
    }
}

impl OffchainWorkerParams {
    /// Whether offchain workers run on a node of the given role: always,
    /// never, or exactly on an authority.
    pub open spec fn spec_runs_workers(self, role: Role) -> bool {
        match self.enabled {
            OffchainWorkerEnabled::Always => true,
            OffchainWorkerEnabled::Never => false,
            OffchainWorkerEnabled::WhenValidating => role.spec_is_authority(),
        }
    }

    /// The configuration that the parameters give on a node of the given
    /// role. The node counts as a validator exactly if it is an authority.
    pub open spec fn spec_offchain_worker(self, role: Role) -> OffchainWorkerConfig {
        OffchainWorkerConfig {
            enabled: self.spec_runs_workers(role),
            indexing: OffchainIndexingConfig {
                state: self.indexing_enabled.spec_state(),
                is_validator: role.spec_is_authority(),
            },
        }
    }

    /// Load the offchain worker configuration from the parameters and the
    /// node's role.
    pub fn offchain_worker(&self, role: &Role) -> (config: OffchainWorkerConfig)
        ensures
            config == self.spec_offchain_worker(*role),
    {
        let enabled = match (self.enabled, *role) {
            (OffchainWorkerEnabled::WhenValidating, Role::Authority) => true,
            (OffchainWorkerEnabled::Always, _) => true,
            (OffchainWorkerEnabled::Never, _) => false,
            (OffchainWorkerEnabled::WhenValidating, _) => false,
        };

        let state = match self.indexing_enabled {
            OffchainIndexingEnabled::Default => OffchainIndexingState::Default,
            OffchainIndexingEnabled::Disabled => OffchainIndexingState::Disable,
            OffchainIndexingEnabled::Enabled => OffchainIndexingState::Enable,
            OffchainIndexingEnabled::ForceDisabled => OffchainIndexingState::ForceDisable,
            OffchainIndexingEnabled::ForceEnabled => OffchainIndexingState::ForceEnable,
        };

        let is_validator = match role {
            Role::Authority => true,
            Role::Full => false,
            Role::Light => false,
            Role::Sentry => false,
        };

        let indexing = OffchainIndexingConfig { is_validator, state };
        OffchainWorkerConfig { enabled, indexing }
    }
}

} // verus!
