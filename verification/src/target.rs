//! What a pull-up aims at, and the version that comes of it.

use vstd::prelude::*;
use crate::channel::{Channel, ChannelView, ReleaseChannel};
use crate::config::{ServerConfig, strings_view};
use crate::text::str_eq;

verus! {

/// What the user asked to pull a cluster up to.
#[derive(Debug)]
pub enum Target {
    /// The upgrade target of a release channel, named by the user.
    Channel(Channel),
    /// A version named by the user.
    Version(String),
    /// The upgrade target of the cluster's own release channel.
    Default,
}

/// Why a target cannot be had.
#[derive(Debug)]
pub enum TargetError {
    /// The requested target is neither a channel name nor a valid master
    /// version of the server configuration.
    InvalidVersion(String),
    /// A channel was requested that the cluster is not subscribed to.
    ChannelMismatch,
    /// A version was requested that the cluster's release channel does not
    /// offer.
    VersionNotInChannel,
}

/// Whether one of `list` holds the characters of `s`.
fn contains_str(list: &Vec<String>, s: &str) -> (r: bool)
    ensures
        r == strings_view(list@).contains(s@),
{
    let n = list.len();
    let mut i: usize = 0;
    while i < n
        invariant
            n == list@.len(),
            i <= n,
            forall|j: int| 0 <= j < i ==> list@[j]@ != s@,
        decreases n - i,
    {
        if str_eq(list[i].as_str(), s) {
            assert(strings_view(list@)[i as int] == s@);
            return true;
        }
        i = i + 1;
    }
    proof {
        if strings_view(list@).contains(s@) {
            let w = choose|w: int| 0 <= w < strings_view(list@).len() && strings_view(list@)[w] == s@;
            assert(list@[w]@ == s@);
        }
    }
    false
}

/// The member of `list` that holds the characters of `s`, if any.
fn find_str<'a>(list: &'a Vec<String>, s: &str) -> (r: Option<&'a str>)
    ensures
        r is Some <==> strings_view(list@).contains(s@),
        r matches Some(found) ==> found@ == s@,
{
    let n = list.len();
    let mut i: usize = 0;
    while i < n
        invariant
            n == list@.len(),
            i <= n,
            forall|j: int| 0 <= j < i ==> list@[j]@ != s@,
        decreases n - i,
    {
        if str_eq(list[i].as_str(), s) {
            assert(strings_view(list@)[i as int] == s@);
            return Some(list[i].as_str());
        }
        i = i + 1;
    }
    proof {
        if strings_view(list@).contains(s@) {
            let w = choose|w: int| 0 <= w < strings_view(list@).len() && strings_view(list@)[w] == s@;
            assert(list@[w]@ == s@);
        }
    }
    None
}

/// The characters of a found version, or the error.
pub open spec fn version_result_view(r: Result<&str, TargetError>) -> Result<Seq<char>, TargetError> {
    match r {
        Ok(found) => Ok(found@),
        Err(e) => Err(e),
    }
}

impl Target {
    /// The version that a cluster on `ch` is pulled up to, under `config`.
    ///
    /// A channel target must be the cluster's channel, and then, as for the
    /// default target, the version is that channel's upgrade target, or the
    /// default cluster version where the configuration lists no such channel.
    /// A version target must be one of the versions valid on the cluster's
    /// channel.
    pub open spec fn resolves_to(self, config: ServerConfig, ch: ChannelView) -> Result<Seq<char>, TargetError> {
        match self {
            Target::Channel(c) => if c@ == ch {
                Ok(config.target_or_default(ch))
            } else {
                Err(TargetError::ChannelMismatch)
            },
            Target::Version(v) => if config.valid_versions_of(ch).contains(v@) {
                Ok(v@)
            } else {
                Err(TargetError::VersionNotInChannel)
            },
            Target::Default => Ok(config.target_or_default(ch)),
        }
    }

    /// Reads the requested target: nothing asks for the default; a channel
    /// name that the server configuration lists asks for that channel; else a
    /// valid master version asks for that version; anything else is refused.
    pub fn new(version: Option<String>, config: &ServerConfig) -> (r: Result<Target, TargetError>)
        ensures
            match version {
                None => r matches Ok(Target::Default),
                Some(v) => match config.index_named(v@) {
                    Some(i) => r matches Ok(Target::Channel(c)) && c@ == config.channels@[i].channel@,
                    None => if strings_view(config.valid_master_versions@).contains(v@) {
                        r == Ok::<Target, TargetError>(Target::Version(v))
                    } else {
                        r == Err::<Target, TargetError>(TargetError::InvalidVersion(v))
                    },
                },
            },
    {
        match version {
            Some(version) => {
                let channel = match config.release_channel_by_name(version.as_str()) {
                    Some(found) => Some(found.channel.clone()),
                    None => None,
                };
                match channel {
                    Some(channel) => Ok(Target::Channel(channel)),
                    None => {
                        if contains_str(&config.valid_master_versions, version.as_str()) {
                            Ok(Target::Version(version))
                        } else {
                            Err(TargetError::InvalidVersion(version))
                        }
                    },
                }
            },
            None => Ok(Target::Default),
        }
    }

    /// The version that a cluster on `cluster_channel` is pulled up to, as
    /// [`Target::resolves_to`] says.
    pub fn find_compatible_version<'a>(
        &self,
        config: &'a ServerConfig,
        cluster_channel: ReleaseChannel,
    ) -> (r: Result<&'a str, TargetError>)
        ensures
            version_result_view(r) == self.resolves_to(*config, cluster_channel.channel@),
    {
        match self {
            Target::Channel(channel) => {
                if !(cluster_channel.channel == *channel) {
                    return Err(TargetError::ChannelMismatch);
                }
                match config.release_channel_upgrade_target_version(&cluster_channel) {
                    Some(found) => Ok(found),
                    None => Ok(config.default_cluster_version.as_str()),
                }
            },
            Target::Version(version) => {
                match config.release_channel_config(&cluster_channel) {
                    Some(channel_config) => match find_str(&channel_config.valid_versions, version.as_str()) {
                        Some(found) => Ok(found),
                        None => Err(TargetError::VersionNotInChannel),
                    },
                    None => {
                        assert(config.valid_versions_of(cluster_channel.channel@) =~= Seq::empty());
                        Err(TargetError::VersionNotInChannel)
                    },
                }
            },
            Target::Default => {
                match config.release_channel_upgrade_target_version(&cluster_channel) {
                    Some(found) => Ok(found),
                    None => Ok(config.default_cluster_version.as_str()),
                }
            },
        }
    }
}

impl TargetError {
    /// The sentence that reports this error.
    pub fn message(&self) -> (r: String)
        ensures
            r@ == (match self {
                TargetError::InvalidVersion(v) => "Version "@ + v@ + " is not valid for this cluster"@,
                TargetError::ChannelMismatch => "Cluster is not subscribed to the requested release channel"@,
                TargetError::VersionNotInChannel => "Requested version is not valid for the cluster release channel"@,
            }),
    {
        match self {
            TargetError::InvalidVersion(v) => {
                let mut text = "Version ".to_owned();
                text.append(v.as_str());
                text.append(" is not valid for this cluster");
                text
            },
            TargetError::ChannelMismatch => "Cluster is not subscribed to the requested release channel".to_owned(),
            TargetError::VersionNotInChannel => "Requested version is not valid for the cluster release channel".to_owned(),
        }
    }
}

} // verus!
