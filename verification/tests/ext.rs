use gke_pullup::{Channel, Cluster, NodePool, ReleaseChannel, ReleaseChannelConfig, ServerConfig};

fn make_server_config() -> ServerConfig {
    let channel_config = ReleaseChannelConfig {
        channel: Channel::Regular,
        upgrade_target_version: "1.31.0".to_string(),
        valid_versions: vec!["1.31.0".to_string(), "1.30.0".to_string()],
        ..ReleaseChannelConfig::default()
    };

    ServerConfig {
        default_cluster_version: "1.30.0".to_string(),
        channels: vec![channel_config],
        ..ServerConfig::default()
    }
}

fn channel_config(channel: Channel, target: &str) -> ReleaseChannelConfig {
    ReleaseChannelConfig {
        channel,
        upgrade_target_version: target.to_string(),
        ..ReleaseChannelConfig::default()
    }
}

#[test]
fn release_channel_by_name_returns_matching_channel() {
    let config = make_server_config();
    let result = config.release_channel_by_name("REGULAR");
    assert!(result.is_some());
}

#[test]
fn release_channel_by_name_returns_none_for_unknown() {
    let config = make_server_config();
    assert!(config.release_channel_by_name("RAPID").is_none());
}

#[test]
fn release_channel_config_returns_matching_config() {
    let config = make_server_config();
    let channel = ReleaseChannel { channel: Channel::Regular };
    assert!(config.release_channel_config(&channel).is_some());
}

#[test]
fn release_channel_config_returns_none_for_unknown_channel() {
    let config = make_server_config();
    let channel = ReleaseChannel { channel: Channel::Rapid };
    assert!(config.release_channel_config(&channel).is_none());
}

#[test]
fn release_channel_upgrade_target_version_returns_version() {
    let config = make_server_config();
    let channel = ReleaseChannel { channel: Channel::Regular };
    assert_eq!(
        config.release_channel_upgrade_target_version(&channel),
        Some("1.31.0")
    );
}

#[test]
fn cluster_without_release_channel_defaults_to_regular() {
    let cluster = Cluster::default();
    let channel = cluster.release_channel_or_regular();
    assert_eq!(channel.channel, Channel::Regular);
}

#[test]
fn cluster_without_release_channel_name_is_none() {
    let cluster = Cluster::default();
    assert!(cluster.release_channel_name().is_none());
}

#[test]
fn cluster_with_release_channel_returns_name() {
    let cluster = Cluster {
        release_channel: Some(ReleaseChannel { channel: Channel::Rapid }),
        ..Cluster::default()
    };
    assert_eq!(cluster.release_channel_name(), Some("RAPID"));
}

#[test]
fn release_channel_by_name_finds_the_first_match() {
    let config = ServerConfig {
        channels: vec![
            channel_config(Channel::Stable, "1.29.0"),
            channel_config(Channel::Rapid, "1.32.0"),
            channel_config(Channel::Rapid, "1.33.0"),
        ],
        ..ServerConfig::default()
    };
    let found = config.release_channel_by_name("RAPID").unwrap();
    assert_eq!(found.upgrade_target_version, "1.32.0");
    assert!(config.release_channel_by_name("rapid").is_none());
}

#[test]
fn release_channel_by_name_matches_unknown_names() {
    let config = ServerConfig {
        channels: vec![channel_config(Channel::UnknownName("NIGHTLY".to_string()), "1.40.0")],
        ..ServerConfig::default()
    };
    assert!(config.release_channel_by_name("NIGHTLY").is_some());
    assert!(config.release_channel_by_name("UNSPECIFIED").is_none());
}

#[test]
fn release_channel_config_tells_unknown_channels_apart() {
    let config = ServerConfig {
        channels: vec![
            channel_config(Channel::UnknownValue(7), "1.1.0"),
            channel_config(Channel::UnknownValue(9), "1.2.0"),
        ],
        ..ServerConfig::default()
    };
    let channel = ReleaseChannel { channel: Channel::UnknownValue(9) };
    assert_eq!(config.release_channel_upgrade_target_version(&channel), Some("1.2.0"));
    let missing = ReleaseChannel { channel: Channel::UnknownValue(8) };
    assert_eq!(config.release_channel_upgrade_target_version(&missing), None);
}

#[test]
fn channel_names_and_numbers() {
    assert_eq!(Channel::Unspecified.name(), Some("UNSPECIFIED"));
    assert_eq!(Channel::Regular.name(), Some("REGULAR"));
    assert_eq!(Channel::Stable.name(), Some("STABLE"));
    assert_eq!(Channel::Extended.name(), Some("EXTENDED"));
    assert_eq!(Channel::UnknownValue(12).name(), None);
    assert_eq!(Channel::UnknownName("X".to_string()).name(), Some("X"));
    assert_eq!(Channel::Unspecified.value(), Some(0));
    assert_eq!(Channel::Rapid.value(), Some(1));
    assert_eq!(Channel::Extended.value(), Some(4));
    assert_eq!(Channel::UnknownValue(12).value(), Some(12));
    assert_eq!(Channel::UnknownName("X".to_string()).value(), None);
}

#[test]
fn channels_listed_by_number_keeping_ties_in_order() {
    let config = ServerConfig {
        channels: vec![
            channel_config(Channel::Stable, "a"),
            channel_config(Channel::UnknownName("X".to_string()), "b"),
            channel_config(Channel::Rapid, "c"),
            channel_config(Channel::Regular, "d"),
            channel_config(Channel::Rapid, "e"),
            channel_config(Channel::UnknownName("Y".to_string()), "f"),
        ],
        ..ServerConfig::default()
    };
    assert_eq!(config.channels_in_display_order(), vec![1, 5, 2, 4, 3, 0]);
    assert!(ServerConfig::default().channels_in_display_order().is_empty());
}

#[test]
fn cluster_display_name() {
    let plain = Cluster { name: "prod".to_string(), ..Cluster::default() };
    assert_eq!(plain.display_name(), "prod");
    let described = Cluster {
        name: "prod".to_string(),
        description: "main cluster".to_string(),
        node_pools: vec![NodePool { name: "p".to_string() }],
        ..Cluster::default()
    };
    assert_eq!(described.display_name(), "prod (main cluster)");
}

#[test]
fn channels_from_numbers_and_names() {
    assert_eq!(Channel::from_value(0), Channel::Unspecified);
    assert_eq!(Channel::from_value(2), Channel::Regular);
    assert_eq!(Channel::from_value(4), Channel::Extended);
    assert_eq!(Channel::from_value(5), Channel::UnknownValue(5));
    assert_eq!(Channel::from_value(-1), Channel::UnknownValue(-1));
    assert_eq!(Channel::from_name("UNSPECIFIED"), Channel::Unspecified);
    assert_eq!(Channel::from_name("RAPID"), Channel::Rapid);
    assert_eq!(Channel::from_name("STABLE"), Channel::Stable);
    assert_eq!(Channel::from_name("Rapid"), Channel::UnknownName("Rapid".to_string()));
    assert_eq!(Channel::from_name(""), Channel::UnknownName(String::new()));
}
