use gke_pullup::{
    Channel, Cluster, GkeClient, NodePool, ReleaseChannel, ReleaseChannelConfig, ServerConfig, Step, Target,
    TargetError, UpgradeAction,
};

fn pools(names: &[&str]) -> Vec<NodePool> {
    names.iter().map(|n| NodePool { name: n.to_string() }).collect()
}

fn client() -> GkeClient {
    let config = ServerConfig {
        default_cluster_version: "1.30.1".to_string(),
        valid_master_versions: vec!["1.31.0".to_string()],
        channels: vec![ReleaseChannelConfig {
            channel: Channel::Regular,
            upgrade_target_version: "1.31.0".to_string(),
            valid_versions: vec!["1.31.0".to_string()],
            ..ReleaseChannelConfig::default()
        }],
    };
    GkeClient::new(Some("us-central1".to_string()), Some("my-project".to_string())).with_config(config)
}

fn cluster() -> Cluster {
    Cluster {
        name: "my-cluster".to_string(),
        current_master_version: "1.30.5".to_string(),
        node_pools: pools(&["pool-1", "pool-2"]),
        ..Cluster::default()
    }
}

fn pool_names(steps: &[Step]) -> Vec<String> {
    steps
        .iter()
        .map(|s| match s {
            Step::Master => "<master>".to_string(),
            Step::NodePool(p) => p.clone(),
        })
        .collect()
}

#[test]
fn missing_location_and_project_mean_every_one() {
    let client = GkeClient::new(None, None);
    assert_eq!(client.location(), "*");
    assert_eq!(client.project(), "*");
    assert!(client.config().channels.is_empty());
    assert_eq!(client.location_path(), "projects/*/locations/*");
}

#[test]
fn resource_names() {
    let client = client();
    assert_eq!(client.location_path(), "projects/my-project/locations/us-central1");
    assert_eq!(
        client.cluster_path("my-cluster"),
        "projects/my-project/locations/us-central1/clusters/my-cluster"
    );
    assert_eq!(
        client.node_pool_path("my-cluster", "pool-1"),
        "projects/my-project/locations/us-central1/clusters/my-cluster/nodePools/pool-1"
    );
    assert_eq!(
        client.operation_path("operation-123"),
        "projects/my-project/locations/us-central1/operations/operation-123"
    );
}

#[test]
fn full_cluster_plan_upgrades_master_then_every_pool() {
    let plan = client().plan_pull_up(&cluster(), &UpgradeAction::Cluster, &Target::Default).unwrap();
    assert_eq!(plan.version, "1.31.0");
    assert_eq!(pool_names(&plan.steps), vec!["<master>", "pool-1", "pool-2"]);
    assert!(!plan.track_operations);
}

#[test]
fn master_only_plan() {
    let plan = client().plan_pull_up(&cluster(), &UpgradeAction::MasterOnly, &Target::Default).unwrap();
    assert_eq!(plan.version, "1.31.0");
    assert_eq!(pool_names(&plan.steps), vec!["<master>"]);
    assert!(!plan.track_operations);
}

#[test]
fn all_node_pools_plan() {
    let plan = client().plan_pull_up(&cluster(), &UpgradeAction::AllNodePools, &Target::Default).unwrap();
    assert_eq!(plan.version, "1.30.5");
    assert_eq!(pool_names(&plan.steps), vec!["pool-1", "pool-2"]);
    assert!(!plan.track_operations);
}

#[test]
fn named_node_pools_plan_follows_operations() {
    let action = UpgradeAction::NodePools(vec!["pool-2".to_string(), "extra".to_string()]);
    let plan = client().plan_pull_up(&cluster(), &action, &Target::Default).unwrap();
    assert_eq!(plan.version, "1.30.5");
    assert_eq!(pool_names(&plan.steps), vec!["pool-2", "extra"]);
    assert!(plan.track_operations);
}

#[test]
fn plan_uses_the_cluster_channel() {
    let stable = Cluster { release_channel: Some(ReleaseChannel { channel: Channel::Stable }), ..cluster() };
    let plan = client().plan_pull_up(&stable, &UpgradeAction::MasterOnly, &Target::Default).unwrap();
    assert_eq!(plan.version, "1.30.1");
    let err = client()
        .plan_pull_up(&stable, &UpgradeAction::MasterOnly, &Target::Channel(Channel::Regular))
        .unwrap_err();
    assert!(matches!(err, TargetError::ChannelMismatch));
}

#[test]
fn node_pools_alone_follow_the_master_whatever_the_target() {
    let target = Target::Version("1.31.0".to_string());
    let plan = client().plan_pull_up(&cluster(), &UpgradeAction::AllNodePools, &target).unwrap();
    assert_eq!(plan.version, "1.30.5");
    let whole = client().plan_pull_up(&cluster(), &UpgradeAction::Cluster, &target).unwrap();
    assert_eq!(whole.version, "1.31.0");
}

#[test]
fn node_pools_alone_still_refuse_a_bad_target() {
    let target = Target::Version("9.9.9".to_string());
    let err = client().plan_pull_up(&cluster(), &UpgradeAction::AllNodePools, &target).unwrap_err();
    assert!(matches!(err, TargetError::VersionNotInChannel));
}
