use gke_pullup::{Channel, ReleaseChannel, ReleaseChannelConfig, ServerConfig, Target, TargetError};

fn strings(items: &[&str]) -> Vec<String> {
    items.iter().map(|s| s.to_string()).collect()
}

fn server_config() -> ServerConfig {
    ServerConfig {
        default_cluster_version: "1.30.1".to_string(),
        valid_master_versions: strings(&["1.31.2-gke.100", "1.30.1", "1.29.9"]),
        channels: vec![
            ReleaseChannelConfig {
                channel: Channel::Rapid,
                default_version: "1.31.2-gke.100".to_string(),
                valid_versions: strings(&["1.31.2-gke.100", "1.31.1"]),
                upgrade_target_version: "1.31.2-gke.100".to_string(),
            },
            ReleaseChannelConfig {
                channel: Channel::Regular,
                default_version: "1.30.1".to_string(),
                valid_versions: strings(&["1.30.1", "1.29.9"]),
                upgrade_target_version: "1.30.1".to_string(),
            },
        ],
    }
}

fn on(channel: Channel) -> ReleaseChannel {
    ReleaseChannel { channel }
}

#[test]
fn no_target_is_the_default() {
    let config = server_config();
    assert!(matches!(Target::new(None, &config), Ok(Target::Default)));
}

#[test]
fn channel_name_is_a_channel_target() {
    let config = server_config();
    let target = Target::new(Some("RAPID".to_string()), &config).unwrap();
    assert!(matches!(target, Target::Channel(Channel::Rapid)));
}

#[test]
fn valid_master_version_is_a_version_target() {
    let config = server_config();
    let target = Target::new(Some("1.29.9".to_string()), &config).unwrap();
    assert!(matches!(target, Target::Version(v) if v == "1.29.9"));
}

#[test]
fn unknown_target_is_refused() {
    let config = server_config();
    let err = Target::new(Some("STABLE".to_string()), &config).unwrap_err();
    assert!(matches!(&err, TargetError::InvalidVersion(v) if v == "STABLE"));
    assert_eq!(err.message(), "Version STABLE is not valid for this cluster");
}

#[test]
fn default_target_is_the_channel_upgrade_target() {
    let config = server_config();
    let version = Target::Default.find_compatible_version(&config, on(Channel::Rapid));
    assert_eq!(version.unwrap(), "1.31.2-gke.100");
}

#[test]
fn default_target_without_channel_config_is_the_default_version() {
    let config = server_config();
    let version = Target::Default.find_compatible_version(&config, on(Channel::Stable));
    assert_eq!(version.unwrap(), "1.30.1");
}

#[test]
fn channel_target_on_its_channel_gives_its_upgrade_target() {
    let config = server_config();
    let target = Target::new(Some("RAPID".to_string()), &config).unwrap();
    let version = target.find_compatible_version(&config, on(Channel::Rapid));
    assert_eq!(version.unwrap(), "1.31.2-gke.100");
}

#[test]
fn channel_target_on_another_channel_is_refused() {
    let config = server_config();
    let target = Target::new(Some("RAPID".to_string()), &config).unwrap();
    let err = target.find_compatible_version(&config, on(Channel::Regular)).unwrap_err();
    assert!(matches!(err, TargetError::ChannelMismatch));
    assert_eq!(err.message(), "Cluster is not subscribed to the requested release channel");
}

#[test]
fn version_target_offered_by_the_channel_is_kept() {
    let config = server_config();
    let target = Target::Version("1.29.9".to_string());
    let version = target.find_compatible_version(&config, on(Channel::Regular));
    assert_eq!(version.unwrap(), "1.29.9");
}

#[test]
fn version_target_not_offered_by_the_channel_is_refused() {
    let config = server_config();
    let target = Target::Version("1.29.9".to_string());
    let err = target.find_compatible_version(&config, on(Channel::Rapid)).unwrap_err();
    assert!(matches!(err, TargetError::VersionNotInChannel));
    assert_eq!(
        err.message(),
        "Requested version is not valid for the cluster release channel"
    );
    let missing = target.find_compatible_version(&config, on(Channel::Extended)).unwrap_err();
    assert!(matches!(missing, TargetError::VersionNotInChannel));
}
