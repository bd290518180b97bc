//! What the command-line flags ask to upgrade.

use vstd::prelude::*;

verus! {

/// Which parts of a cluster a pull-up upgrades.
#[derive(Debug)]
pub enum UpgradeAction {
    /// The master, then every node pool of the cluster.
    Cluster,
    /// The master alone.
    MasterOnly,
    /// Every node pool of the cluster, not the master.
    AllNodePools,
    /// The named node pools, in the order given, not the master.
    NodePools(Vec<String>),
}

/// Why a combination of flags names no upgrade.
#[derive(Debug, Clone, Copy, PartialEq, Eq, Structural)]
pub enum ActionError {
    /// `--master` and `--node-pools` were both given.
    MasterAndNodePools,
}

/// The upgrade that the flags `--master` and `--node-pools` select.
pub open spec fn action_for_flags(
    master: bool,
    node_pools: Option<Vec<String>>,
) -> Result<UpgradeAction, ActionError> {
    match node_pools {
        Some(pools) => if master {
            Err(ActionError::MasterAndNodePools)
        } else if pools.len() == 0 {
            Ok(UpgradeAction::AllNodePools)
        } else {
            Ok(UpgradeAction::NodePools(pools))
        },
        None => if master {
            Ok(UpgradeAction::MasterOnly)
        } else {
            Ok(UpgradeAction::Cluster)
        },
    }
}

impl UpgradeAction {
    /// Reads the flags: `--master` alone upgrades the master, `--node-pools`
    /// without names every node pool, `--node-pools` with names those pools,
    /// neither flag the whole cluster; both flags together are refused.
    pub fn from_args(master: bool, node_pools: Option<Vec<String>>) -> (r: Result<Self, ActionError>)
        ensures
            r == action_for_flags(master, node_pools),
    {
        match (master, node_pools) {
            (true, Some(_)) => Err(ActionError::MasterAndNodePools),
            (true, None) => Ok(Self::MasterOnly),
            (false, None) => Ok(Self::Cluster),
            (false, Some(pools)) if pools.is_empty() => Ok(Self::AllNodePools),
            (false, Some(pools)) => Ok(Self::NodePools(pools)),
        }
    }
}

impl ActionError {
    /// The sentence that reports this error.
    pub fn message(&self) -> (r: String)
        ensures
            r@ == "Cannot specify both master and node pools upgrade targets"@,
    {
        match self {
            ActionError::MasterAndNodePools => "Cannot specify both master and node pools upgrade targets".to_owned(),
        }
    }
}

} // verus!
