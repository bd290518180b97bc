//! The scope that a pull-up works in, the names of the GKE resources in it,
//! and the plan of a pull-up.

use vstd::prelude::*;
use crate::action::UpgradeAction;
use crate::cluster::Cluster;
use crate::config::ServerConfig;
use crate::pull_up::{PlanView, PullUpPlan, plan_steps, planned_steps, tracks_operations};
use crate::target::{Target, TargetError};

verus! {

/// A location or project that was not given: every one.
pub open spec fn or_every(s: Option<String>) -> Seq<char> {
    match s {
        Some(s) => s@,
        None => "*"@,
    }
}

/// Whether `action` upgrades the cluster master.
pub open spec fn upgrades_master(action: UpgradeAction) -> bool {
    action is Cluster || action is MasterOnly
}

/// The scope of a pull-up: a location and a project of Google Cloud, with
/// the server configuration of that location.
#[derive(Debug)]
pub struct GkeClient {
    location: String,
    project: String,
    config: ServerConfig,
}

/// A server configuration that offers nothing.
pub open spec fn is_empty_config(config: ServerConfig) -> bool {
    &&& config.default_cluster_version@.len() == 0
    &&& config.valid_master_versions@.len() == 0
    &&& config.channels@.len() == 0
}

impl GkeClient {
    /// The location, `*` for every location.
    pub closed spec fn location_of(self) -> Seq<char> {
        self.location@
    }

    /// The project, `*` for every project.
    pub closed spec fn project_of(self) -> Seq<char> {
        self.project@
    }

    /// The server configuration of the location.
    pub closed spec fn config_of(self) -> ServerConfig {
        self.config
    }

    /// The name of the location: `projects/{project}/locations/{location}`.
    pub open spec fn location_path_of(self) -> Seq<char> {
        "projects/"@ + self.project_of() + "/locations/"@ + self.location_of()
    }

    /// The name of the cluster `cluster`: under the location, `clusters/{cluster}`.
    pub open spec fn cluster_path_of(self, cluster: Seq<char>) -> Seq<char> {
        self.location_path_of() + "/clusters/"@ + cluster
    }

    /// The name of the node pool `pool` of `cluster`: under the cluster,
    /// `nodePools/{pool}`.
    pub open spec fn node_pool_path_of(self, cluster: Seq<char>, pool: Seq<char>) -> Seq<char> {
        self.cluster_path_of(cluster) + "/nodePools/"@ + pool
    }

    /// The name of the operation `operation`: under the location,
    /// `operations/{operation}`.
    pub open spec fn operation_path_of(self, operation: Seq<char>) -> Seq<char> {
        self.location_path_of() + "/operations/"@ + operation
    }

    /// A scope of `location` and `project`, every location or project where
    /// one is not given, with a server configuration that offers nothing yet.
    pub fn new(location: Option<String>, project: Option<String>) -> (r: GkeClient)
        ensures
            r.location_of() == or_every(location),
            r.project_of() == or_every(project),
            is_empty_config(r.config_of()),
    {
        let location = match location {
            Some(location) => location,
            None => "*".to_owned(),
        };
        let project = match project {
            Some(project) => project,
            None => "*".to_owned(),
        };
        let config = ServerConfig::default();
        GkeClient { location, project, config }
    }

    /// The same scope with the server configuration `config`.
    pub fn with_config(self, config: ServerConfig) -> (r: GkeClient)
        ensures
            r.location_of() == self.location_of(),
            r.project_of() == self.project_of(),
            r.config_of() == config,
    {
        GkeClient { config, ..self }
    }

    /// The server configuration of the location.
    pub fn config(&self) -> (r: &ServerConfig)
        ensures
            *r == self.config_of(),
    {
        &self.config
    }

    /// The location.
    pub fn location(&self) -> (r: &str)
        ensures
            r@ == self.location_of(),
    {
        self.location.as_str()
    }

    /// The project.
    pub fn project(&self) -> (r: &str)
        ensures
            r@ == self.project_of(),
    {
        self.project.as_str()
    }

    /// The name of the location, under which its server configuration is read.
    pub fn location_path(&self) -> (r: String)
        ensures
            r@ == self.location_path_of(),
    {
        let mut path = "projects/".to_owned();
        path.append(self.project.as_str());
        path.append("/locations/");
        path.append(self.location.as_str());
        path
    }

    /// The name of the cluster `cluster`.
    pub fn cluster_path(&self, cluster: &str) -> (r: String)
        ensures
            r@ == self.cluster_path_of(cluster@),
    {
        let mut path = self.location_path();
        path.append("/clusters/");
        path.append(cluster);
        path
    }

    /// The name of the node pool `pool` of the cluster `cluster`.
    pub fn node_pool_path(&self, cluster: &str, pool: &str) -> (r: String)
        ensures
            r@ == self.node_pool_path_of(cluster@, pool@),
    {
        let mut path = self.cluster_path(cluster);
        path.append("/nodePools/");
        path.append(pool);
        path
    }

    /// The name of the operation `operation`.
    pub fn operation_path(&self, operation: &str) -> (r: String)
        ensures
            r@ == self.operation_path_of(operation@),
    {
        let mut path = self.location_path();
        path.append("/operations/");
        path.append(operation);
        path
    }

    /// The plan of pulling `cluster` up to `target` by `action`, or why the
    /// target cannot be had.
    ///
    /// The target is resolved for the cluster's channel (REGULAR where it has
    /// none) in every case, so a target that cannot be had is refused in
    /// every case. Where the master is upgraded, everything is upgraded to
    /// the resolved version; where node pools alone are upgraded, they are
    /// upgraded to the version that the master runs, whatever the target.
    pub open spec fn planned_pull_up(self, cluster: Cluster, action: UpgradeAction, target: Target) -> Result<
        PlanView,
        TargetError,
    > {
        match target.resolves_to(self.config_of(), cluster.channel_or_regular()) {
            Ok(version) => Ok(
                PlanView {
                    version: if upgrades_master(action) {
                        version
                    } else {
                        cluster.current_master_version@
                    },
                    steps: planned_steps(action, cluster.node_pools@),
                    track_operations: tracks_operations(action),
                },
            ),
            Err(e) => Err(e),
        }
    }

    /// The plan of pulling `cluster` up to `target` by `action`, as
    /// [`GkeClient::planned_pull_up`] says.
    pub fn plan_pull_up(&self, cluster: &Cluster, action: &UpgradeAction, target: &Target) -> (r: Result<
        PullUpPlan,
        TargetError,
    >)
        ensures
            match self.planned_pull_up(*cluster, *action, *target) {
                Ok(p) => r matches Ok(plan) && plan@ == p,
                Err(e) => r == Err::<PullUpPlan, TargetError>(e),
            },
    {
        let channel = cluster.release_channel_or_regular();
        let version = match target.find_compatible_version(&self.config, channel) {
            Ok(version) => version,
            Err(e) => return Err(e),
        };
        let steps = plan_steps(action, &cluster.node_pools);
        let (version, track_operations) = match action {
            UpgradeAction::Cluster => (version.to_owned(), false),
            UpgradeAction::MasterOnly => (version.to_owned(), false),
            UpgradeAction::AllNodePools => (cluster.current_master_version.clone(), false),
            UpgradeAction::NodePools(_) => (cluster.current_master_version.clone(), true),
        };
        Ok(PullUpPlan { version, steps, track_operations })
    }
}

} // verus!
